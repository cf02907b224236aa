//! Finding the credential of a command.

use vstd::prelude::*;

use crate::config::{
    authentication_config_changed, authentication_differs, choice, credential_choice, session_view,
    AuthMethod, CliConfig, ConfigView, CredentialChoice, OAuthSession,
};
use crate::destination::{binding_allowed, effective_endpoints, endpoints, validate_endpoint_binding};
use crate::effect::{Reply, Request};
use crate::error::{
    reloads_auth_config, says_missing_access_token, CliConfigError, LoginError,
};
use crate::fresh::{law_reading_stays_well_formed, load_fresh_tokens, FreshTokens};
use crate::provider::{OAuthAccessTokenProvider, ProviderTokenState};
use crate::rejected::RejectedTokens;
use crate::token::{Secret, TokenSet};

verus! {

/// Where an access token comes from.
#[derive(Debug, Clone, Copy, PartialEq, Eq, Structural)]
pub enum TokenSource {
    Environment,
    BrowserLogin,
    StoredAccessToken,
    ConfigFile,
}

/// The credential of a command.
pub struct ResolvedCredential {
    pub access_token: Secret,
    pub source: TokenSource,
    /// The login and its tokens, where the credential comes from one.
    pub oauth_session: Option<OAuthSession>,
    pub oauth_tokens: Option<TokenSet>,
}

impl ResolvedCredential {
    pub fn access_token(&self) -> (token: &str)
        ensures
            token@ == self.access_token@,
    {
        self.access_token.expose()
    }

    pub fn source(&self) -> (source: TokenSource)
        ensures
            source == self.source,
    {
        self.source
    }

    /// The credential may be sent to the endpoints of this configuration: that of
    /// a login only to the endpoints that it was made for, and where the issuer's
    /// tokens may go at all.
    pub open spec fn may_be_sent(self, config: ConfigView) -> bool {
        match session_view(self.oauth_session) {
            Some(session) => endpoints(config) == (session.account_endpoint, session.basin_endpoint)
                && binding_allowed(
                session.issuer,
                session.account_endpoint,
                session.basin_endpoint,
                config.ssl_no_verify == Some(true),
            ),
            None => true,
        }
    }

    /// Refuses endpoints that the credential must not be sent to.
    pub fn validate_destination(&self, config: &CliConfig) -> (result: Result<(), LoginError>)
        ensures
            if self.may_be_sent(config@) {
                result is Ok
            } else {
                result matches Err(error) && error is UnsafeBrowserDestination
            },
    {
        let session = match &self.oauth_session {
            Some(session) => session,
            None => return Ok(()),
        };
        let (account_endpoint, basin_endpoint) = effective_endpoints(config);
        if account_endpoint != session.account_endpoint || basin_endpoint != session.basin_endpoint
        {
            return Err(LoginError::UnsafeBrowserDestination);
        }
        let ssl_no_verify = match config.ssl_no_verify {
            Some(set) => set,
            None => false,
        };
        validate_endpoint_binding(
            session.issuer.as_str(),
            account_endpoint.as_str(),
            basin_endpoint.as_str(),
            ssl_no_verify,
        )
    }

    /// The provider that a client is to get its access tokens from, where the
    /// credential comes from a login; it starts with the tokens at hand.
    pub fn configure_sdk(&self) -> (provider: Option<OAuthAccessTokenProvider>)
        ensures
            match (self.oauth_session, self.oauth_tokens) {
                (Some(session), Some(tokens)) => provider matches Some(provider) && provider.session
                    == session && provider.state == (ProviderTokenState {
                    tokens,
                    persist_pending: false,
                }) && provider.rejected_access_tokens@ == Set::<Seq<char>>::empty(),
                _ => provider is None,
            },
    {
        match (&self.oauth_session, &self.oauth_tokens) {
            (Some(session), Some(tokens)) => Some(
                OAuthAccessTokenProvider::new(session.duplicate(), tokens.duplicate()),
            ),
            _ => None,
        }
    }
}

/// How often the credential is looked for before giving up.
pub const MAX_ATTEMPTS: u8 = 4;

/// The end of the search.
pub type Resolution = Result<(CliConfig, ResolvedCredential), LoginError>;

/// Finding the credential of a command.
pub enum Resolve {
    Loading,
    /// The environment comes first.
    ReadingEnvironment { snapshot: CliConfig },
    Validating { snapshot: CliConfig, token: Secret },
    /// Use the login that the configuration names.
    Refreshing { snapshot: CliConfig, attempt: u8, session: OAuthSession, fresh: FreshTokens },
    /// Use the access token that the configuration holds or points to.
    LoadingStored { snapshot: CliConfig, attempt: u8 },
    /// The credential was not there: another process may have changed the
    /// configuration meanwhile.
    Reloading { snapshot: CliConfig, attempt: u8, error: LoginError },
    Finished { result: Resolution },
}

/// The end of a search that failed.
pub open spec fn failed(error: LoginError) -> Resolve {
    Resolve::Finished { result: Err(error) }
}

/// The state once a credential that the configuration names could not be had.
pub open spec fn attempt_failed(snapshot: CliConfig, attempt: u8, error: LoginError) -> Resolve {
    if reloads_auth_config(error) && attempt + 1 < MAX_ATTEMPTS {
        Resolve::Reloading { snapshot, attempt, error }
    } else {
        failed(error)
    }
}

/// The state that belongs to the tokens of a login.
pub open spec fn refreshed(
    snapshot: CliConfig,
    attempt: u8,
    session: OAuthSession,
    fresh: FreshTokens,
    after: Resolve,
) -> bool {
    match fresh {
        FreshTokens::Finished { result: Ok(tokens) } => after == (Resolve::Finished {
            result: Ok(
                (
                    snapshot,
                    ResolvedCredential {
                        access_token: tokens.access_token,
                        source: TokenSource::BrowserLogin,
                        oauth_session: Some(session),
                        oauth_tokens: Some(tokens),
                    },
                ),
            ),
        }),
        FreshTokens::Finished { result: Err(error) } => after == attempt_failed(
            snapshot,
            attempt,
            error,
        ),
        _ => after == (Resolve::Refreshing { snapshot, attempt, session, fresh }),
    }
}

/// The first state of an attempt with the credential that a configuration names.
pub open spec fn attempts(snapshot: CliConfig, attempt: u8, after: Resolve) -> bool {
    match choice(snapshot@, false) {
        Some(CredentialChoice::BrowserLogin) => after matches Resolve::Refreshing {
            snapshot: same,
            attempt: number,
            session,
            fresh: FreshTokens::Locking { session: login, rejected },
        } && same == snapshot && number == attempt && snapshot@.oauth == Some(session@) && login
            == session && rejected@ == Set::<Seq<char>>::empty(),
        Some(_) => after == (Resolve::LoadingStored { snapshot, attempt }),
        None => after matches Resolve::Finished { result } && result matches Err(
            LoginError::Config(error),
        ) && says_missing_access_token(error),
    }
}

fn fail_attempt(snapshot: CliConfig, attempt: u8, error: LoginError) -> (after: Resolve)
    requires
        attempt < MAX_ATTEMPTS,
    ensures
        after == attempt_failed(snapshot, attempt, error),
        after.wf(),
{
    if error.should_reload_auth_config() && attempt < MAX_ATTEMPTS - 1 {
        Resolve::Reloading { snapshot, attempt, error }
    } else {
        Resolve::Finished { result: Err(error) }
    }
}

fn after_refresh(
    snapshot: CliConfig,
    attempt: u8,
    session: OAuthSession,
    fresh: FreshTokens,
) -> (after: Resolve)
    requires
        attempt < MAX_ATTEMPTS,
        fresh.wf(),
        snapshot@.oauth == Some(session@),
    ensures
        refreshed(snapshot, attempt, session, fresh, after),
        after.wf(),
{
    match fresh {
        FreshTokens::Finished { result: Ok(tokens) } => {
            let credential = ResolvedCredential {
                access_token: tokens.access_token.duplicate(),
                source: TokenSource::BrowserLogin,
                oauth_session: Some(session),
                oauth_tokens: Some(tokens),
            };
            Resolve::Finished { result: Ok((snapshot, credential)) }
        },
        FreshTokens::Finished { result: Err(error) } => fail_attempt(snapshot, attempt, error),
        fresh => Resolve::Refreshing { snapshot, attempt, session, fresh },
    }
}

/// Starts an attempt with the credential that the configuration names.
pub fn resolve_persistent_access_token(snapshot: CliConfig, attempt: u8) -> (after: Resolve)
    requires
        attempt < MAX_ATTEMPTS,
    ensures
        attempts(snapshot, attempt, after),
        after.wf(),
{
    match credential_choice(&snapshot, false) {
        Ok(CredentialChoice::BrowserLogin) => {
            let session = match &snapshot.oauth {
                Some(session) => session.duplicate(),
                None => {
                    let error = CliConfigError::missing_access_token();
                    return Resolve::Finished { result: Err(LoginError::Config(error)) };
                },
            };
            let fresh = load_fresh_tokens(session.duplicate(), RejectedTokens::none());
            Resolve::Refreshing { snapshot, attempt, session, fresh }
        },
        Ok(_) => Resolve::LoadingStored { snapshot, attempt },
        Err(error) => Resolve::Finished { result: Err(LoginError::Config(error)) },
    }
}

/// Starts to look for the credential of a command.
pub fn resolve_access_token() -> (state: Resolve)
    ensures
        state is Loading,
        state.wf(),
{
    Resolve::Loading
}

/// The access token of the environment, as a credential.
pub open spec fn environment_credential(token: Secret) -> ResolvedCredential {
    ResolvedCredential {
        access_token: token,
        source: TokenSource::Environment,
        oauth_session: None,
        oauth_tokens: None,
    }
}

/// An access token that the configuration holds or points to, as a credential.
pub open spec fn stored_credential(snapshot: ConfigView, token: Secret) -> ResolvedCredential {
    ResolvedCredential {
        access_token: token,
        source: if snapshot.stored_access_token is Some {
            TokenSource::StoredAccessToken
        } else {
            TokenSource::ConfigFile
        },
        oauth_session: None,
        oauth_tokens: None,
    }
}

/// A credential that the configuration next to it stands for.
pub open spec fn belongs_to(credential: ResolvedCredential, config: ConfigView) -> bool {
    if credential.source == TokenSource::BrowserLogin {
        &&& session_view(credential.oauth_session) == config.oauth
        &&& config.oauth is Some
        &&& credential.oauth_tokens matches Some(tokens) && tokens.access_token
            == credential.access_token
    } else {
        credential.oauth_session is None && credential.oauth_tokens is None
    }
}

impl Resolve {
    /// There are so many attempts and no more, and what is found belongs to the
    /// configuration that it is handed out with.
    pub open spec fn wf(self) -> bool {
        match self {
            Resolve::Refreshing { snapshot, attempt, session, fresh } => attempt < MAX_ATTEMPTS
                && fresh.wf() && !(fresh is Finished) && snapshot@.oauth == Some(session@),
            Resolve::LoadingStored { attempt, .. } => attempt < MAX_ATTEMPTS,
            Resolve::Reloading { attempt, .. } => attempt + 1 < MAX_ATTEMPTS,
            Resolve::Finished { result } => result matches Ok(found) ==> belongs_to(
                found.1,
                found.0@,
            ),
            _ => true,
        }
    }

    /// What is to be done next; `None` at the end.
    pub open spec fn asks<'a>(&'a self) -> Option<Request<'a>> {
        match self {
            Resolve::Loading => Some(Request::LoadEffectiveConfig),
            Resolve::ReadingEnvironment { .. } => Some(Request::ReadEnvironmentToken),
            Resolve::Validating { token, .. } => Some(Request::ValidateAccessToken(token)),
            Resolve::Refreshing { fresh, .. } => fresh.asks(),
            Resolve::LoadingStored { snapshot, .. } => Some(
                Request::LoadStoredAccessToken(snapshot),
            ),
            Resolve::Reloading { .. } => Some(Request::LoadEffectiveConfig),
            Resolve::Finished { .. } => None,
        }
    }

    /// What is to be done next.
    pub fn request<'a>(&'a self) -> (request: Option<Request<'a>>)
        ensures
            request == self.asks(),
    {
        match self {
            Resolve::Loading => Some(Request::LoadEffectiveConfig),
            Resolve::ReadingEnvironment { .. } => Some(Request::ReadEnvironmentToken),
            Resolve::Validating { token, .. } => Some(Request::ValidateAccessToken(token)),
            Resolve::Refreshing { fresh, .. } => fresh.request(),
            Resolve::LoadingStored { snapshot, .. } => Some(
                Request::LoadStoredAccessToken(snapshot),
            ),
            Resolve::Reloading { .. } => Some(Request::LoadEffectiveConfig),
            Resolve::Finished { .. } => None,
        }
    }

    /// A reply leads from one state to another. A reply to something else
    /// changes nothing.
    pub open spec fn leads_to(self, reply: Reply, after: Resolve) -> bool {
        match (self, reply) {
            (Resolve::Loading, Reply::ConfigLoaded(Ok(snapshot))) => after == (
            Resolve::ReadingEnvironment { snapshot }),
            (Resolve::Loading, Reply::ConfigLoaded(Err(error))) => after == failed(
                LoginError::Config(error),
            ),
            (
                Resolve::ReadingEnvironment { snapshot },
                Reply::EnvironmentToken(Ok(Some(token))),
            ) => after == (Resolve::Validating { snapshot, token }),
            (Resolve::ReadingEnvironment { snapshot }, Reply::EnvironmentToken(Ok(None))) => {
                attempts(snapshot, 0, after)
            },
            (Resolve::ReadingEnvironment { .. }, Reply::EnvironmentToken(Err(error))) => after
                == failed(error),
            (Resolve::Validating { snapshot, token }, Reply::AccessTokenValidated(Ok(_))) => after
                == (Resolve::Finished { result: Ok((snapshot, environment_credential(token))) }),
            (Resolve::Validating { .. }, Reply::AccessTokenValidated(Err(error))) => after
                == failed(error),
            (Resolve::Refreshing { snapshot, attempt, session, fresh }, reply) => exists|
                next: FreshTokens,
            | #[trigger]
                fresh.leads_to(reply, next) && refreshed(snapshot, attempt, session, next, after),
            (Resolve::LoadingStored { snapshot, .. }, Reply::StoredAccessToken(Ok(token))) => after
                == (Resolve::Finished { result: Ok((snapshot, stored_credential(snapshot@, token))) }),
            (Resolve::LoadingStored { snapshot, attempt }, Reply::StoredAccessToken(Err(error))) => {
                after == attempt_failed(snapshot, attempt, error)
            },
            (
                Resolve::Reloading { snapshot, attempt, error },
                Reply::ConfigLoaded(Ok(latest)),
            ) => if authentication_differs(snapshot@, latest@) {
                attempts(latest, (attempt + 1) as u8, after)
            } else {
                after == failed(error)
            },
            (Resolve::Reloading { .. }, Reply::ConfigLoaded(Err(unreadable))) => after == failed(
                LoginError::Config(unreadable),
            ),
            _ => after == self,
        }
    }

    /// Goes on with the reply to the last request.
    pub fn advance(self, reply: Reply) -> (after: Resolve)
        requires
            self.wf(),
        ensures
            self.leads_to(reply, after),
            after.wf(),
    {
        match (self, reply) {
            (Resolve::Loading, Reply::ConfigLoaded(Ok(snapshot))) => Resolve::ReadingEnvironment {
                snapshot,
            },
            (Resolve::Loading, Reply::ConfigLoaded(Err(error))) => Resolve::Finished {
                result: Err(LoginError::Config(error)),
            },
            (
                Resolve::ReadingEnvironment { snapshot },
                Reply::EnvironmentToken(Ok(Some(token))),
            ) => Resolve::Validating { snapshot, token },
            (Resolve::ReadingEnvironment { snapshot }, Reply::EnvironmentToken(Ok(None))) => {
                resolve_persistent_access_token(snapshot, 0)
            },
            (Resolve::ReadingEnvironment { .. }, Reply::EnvironmentToken(Err(error))) => {
                Resolve::Finished { result: Err(error) }
            },
            (Resolve::Validating { snapshot, token }, Reply::AccessTokenValidated(Ok(_))) => {
                let credential = ResolvedCredential {
                    access_token: token,
                    source: TokenSource::Environment,
                    oauth_session: None,
                    oauth_tokens: None,
                };
                Resolve::Finished { result: Ok((snapshot, credential)) }
            },
            (Resolve::Validating { .. }, Reply::AccessTokenValidated(Err(error))) => {
                Resolve::Finished { result: Err(error) }
            },
            (Resolve::Refreshing { snapshot, attempt, session, fresh }, reply) => {
                let next = fresh.advance(reply);
                assert(fresh.leads_to(reply, next));
                after_refresh(snapshot, attempt, session, next)
            },
            (Resolve::LoadingStored { snapshot, .. }, Reply::StoredAccessToken(Ok(token))) => {
                let source = if snapshot.stored_access_token.is_some() {
                    TokenSource::StoredAccessToken
                } else {
                    TokenSource::ConfigFile
                };
                let credential = ResolvedCredential {
                    access_token: token,
                    source,
                    oauth_session: None,
                    oauth_tokens: None,
                };
                Resolve::Finished { result: Ok((snapshot, credential)) }
            },
            (Resolve::LoadingStored { snapshot, attempt }, Reply::StoredAccessToken(Err(error))) => {
                fail_attempt(snapshot, attempt, error)
            },
            (
                Resolve::Reloading { snapshot, attempt, error },
                Reply::ConfigLoaded(Ok(latest)),
            ) => {
                if authentication_config_changed(&snapshot, &latest) {
                    resolve_persistent_access_token(latest, attempt + 1)
                } else {
                    Resolve::Finished { result: Err(error) }
                }
            },
            (Resolve::Reloading { .. }, Reply::ConfigLoaded(Err(unreadable))) => {
                Resolve::Finished { result: Err(LoginError::Config(unreadable)) }
            },
            (state, _) => state,
        }
    }

    /// The attempts that have been started.
    pub open spec fn started(self) -> int {
        match self {
            Resolve::Refreshing { attempt, .. } => attempt + 1,
            Resolve::LoadingStored { attempt, .. } => attempt + 1,
            Resolve::Reloading { attempt, .. } => attempt + 1,
            _ => 0,
        }
    }
}

/// An access token of the environment is used whatever the configuration says,
/// and nothing stored is read.
pub proof fn law_environment_comes_first(snapshot: CliConfig, token: Secret, after: Resolve)
    requires
        (Resolve::ReadingEnvironment { snapshot }).leads_to(
            Reply::EnvironmentToken(Ok(Some(token))),
            after,
        ),
    ensures
        after == (Resolve::Validating { snapshot, token }),
        forall|reply: Reply, end: Resolve| #[trigger]
            after.leads_to(reply, end) ==> end == after || end is Finished,
        forall|end: Resolve| #[trigger]
            after.leads_to(Reply::AccessTokenValidated(Ok(())), end) ==> end == (Resolve::Finished {
                result: Ok((snapshot, environment_credential(token))),
            }),
{
}

/// There are at most four attempts, and another one is made only where a
/// credential was missing or the login was replaced, and where the configuration
/// now authenticates differently.
pub proof fn law_attempts_are_bounded(state: Resolve, reply: Reply, after: Resolve)
    requires
        state.wf(),
        state.leads_to(reply, after),
    ensures
        state.started() <= MAX_ATTEMPTS,
        after.started() > state.started() && state.started() > 0 ==> after.started()
            == state.started() + 1 && (state matches Resolve::Reloading { snapshot, .. }
            && reply matches Reply::ConfigLoaded(Ok(latest)) && authentication_differs(
            snapshot@,
            latest@,
        )),
        after matches Resolve::Reloading { error, .. } && !(state is Reloading)
            ==> reloads_auth_config(after->error),
{
}

/// What is found belongs to the configuration that it is handed out with: the
/// tokens of a login come with that login, and no others do.
pub proof fn law_credential_belongs_to_its_configuration(state: Resolve)
    requires
        state.wf(),
    ensures
        state matches Resolve::Finished { result: Ok(found) } ==> belongs_to(found.1, found.0@),
{
}

/// The credential of a login goes only to the endpoints that the login was made
/// for.
pub proof fn law_login_goes_where_it_was_made_for(
    credential: ResolvedCredential,
    config: ConfigView,
)
    requires
        credential.may_be_sent(config),
    ensures
        session_view(credential.oauth_session) matches Some(session) ==> endpoints(config) == (
            session.account_endpoint,
            session.basin_endpoint,
        ) && crate::destination::destination_allowed(session.issuer, config),
{
}

/// The search never leaves the states that it is meant to be in.
pub proof fn law_search_stays_well_formed(state: Resolve, reply: Reply, after: Resolve)
    requires
        state.wf(),
        state.leads_to(reply, after),
    ensures
        after.wf(),
{
    if let Resolve::Refreshing { snapshot, attempt, session, fresh } = state {
        let next = choose|next: FreshTokens| #[trigger]
            fresh.leads_to(reply, next) && refreshed(snapshot, attempt, session, next, after);
        law_reading_stays_well_formed(fresh, reply, next);
    }
}

/// Without an access token in the environment, the search goes where the configuration
/// points: to the login where that is selected, or where nothing is selected and there
/// is no access token; to the access token where that is selected or nothing is; and it
/// ends where the selected credential is not there.
pub proof fn law_search_goes_where_the_configuration_points(
    snapshot: CliConfig,
    attempt: u8,
    after: Resolve,
)
    requires
        attempts(snapshot, attempt, after),
    ensures
        ({
            let token_there = snapshot@.stored_access_token is Some || snapshot@.access_token
                is Some;
            let login_there = snapshot@.oauth is Some;
            let wants_login = snapshot@.auth_method == Some(AuthMethod::BrowserLogin)
                || snapshot@.auth_method is None && !token_there;
            &&& wants_login && login_there ==> (after matches Resolve::Refreshing {
                snapshot: same,
                session,
                fresh,
                attempt: number,
            } && same == snapshot && number == attempt && snapshot@.oauth == Some(session@) && (
            fresh matches FreshTokens::Locking { session: login, rejected } && login@ == session@
                && rejected@ == Set::<Seq<char>>::empty()))
            &&& !wants_login && token_there ==> (after.asks() matches Some(
                Request::LoadStoredAccessToken(config),
            ) && config@ == snapshot@)
            &&& (wants_login && !login_there || !wants_login && !token_there) ==> (
            after matches Resolve::Finished { result: Err(LoginError::Config(error)) }
                && error.kind is MissingAccessToken)
        }),
{
    crate::config::law_credentials_that_are_there_are_used(snapshot@);
}

/// What is found is what came last: the access token of the environment once it was
/// validated, the stored access token as it was read, or the tokens that the search for
/// those of the login ended with. It is handed out with the configuration that led to
/// it.
pub proof fn law_found_credentials_are_those_that_came(state: Resolve, reply: Reply, after: Resolve)
    requires
        state.wf(),
        state.leads_to(reply, after),
        !(state is Finished),
        after matches Resolve::Finished { result: Ok(_) },
    ensures
        after matches Resolve::Finished { result: Ok(found) } && match state {
            Resolve::Validating { snapshot, token } => {
                &&& reply matches Reply::AccessTokenValidated(Ok(_))
                &&& found.0 == snapshot
                &&& found.1.access_token@ == token@
                &&& found.1.source == TokenSource::Environment
                &&& found.1.oauth_session is None && found.1.oauth_tokens is None
            },
            Resolve::LoadingStored { snapshot, .. } => {
                &&& reply matches Reply::StoredAccessToken(Ok(token)) && found.1.access_token@
                    == token@
                &&& found.0 == snapshot
                &&& found.1.source == (if snapshot@.stored_access_token is Some {
                    TokenSource::StoredAccessToken
                } else {
                    TokenSource::ConfigFile
                })
                &&& found.1.oauth_session is None && found.1.oauth_tokens is None
            },
            Resolve::Refreshing { snapshot, session, fresh, .. } => {
                &&& found.0 == snapshot
                &&& found.1.source == TokenSource::BrowserLogin
                &&& found.1.oauth_session matches Some(login) && snapshot@.oauth == Some(login@)
                &&& found.1.oauth_tokens matches Some(tokens) && found.1.access_token@
                    == tokens@.access_token && fresh.leads_to(
                    reply,
                    FreshTokens::Finished { result: Ok(tokens) },
                )
            },
            _ => false,
        },
{
}

/// The environment is asked once the configuration is read; what it holds is validated
/// as it is.
pub proof fn law_search_asks_the_environment_first(
    snapshot: CliConfig,
    reply: Reply,
    after: Resolve,
)
    ensures
        Resolve::Loading.leads_to(Reply::ConfigLoaded(Ok(snapshot)), after) ==> after.asks() == Some(
            Request::ReadEnvironmentToken,
        ) && after == (Resolve::ReadingEnvironment { snapshot }),
        (Resolve::ReadingEnvironment { snapshot }).leads_to(reply, after) ==> match reply {
            Reply::EnvironmentToken(Ok(Some(token))) => after.asks() matches Some(
                Request::ValidateAccessToken(asked),
            ) && asked@ == token@,
            Reply::EnvironmentToken(Ok(None)) => attempts(snapshot, 0, after),
            Reply::EnvironmentToken(Err(error)) => after == (Resolve::Finished {
                result: Err(error),
            }),
            _ => after == (Resolve::ReadingEnvironment { snapshot }),
        },
{
}

/// A credential that could not be had ends the search with its error, unless it was
/// missing or its login was replaced, the configuration has changed since, and fewer
/// than four attempts were made.
pub proof fn law_missing_credentials_are_looked_for_again(
    snapshot: CliConfig,
    attempt: u8,
    error: LoginError,
    latest: CliConfig,
    after: Resolve,
)
    requires
        attempt < 4,
    ensures
        reloads_auth_config(error) && attempt < 3 ==> attempt_failed(snapshot, attempt, error).asks()
            == Some(Request::LoadEffectiveConfig),
        !reloads_auth_config(error) || attempt == 3 ==> attempt_failed(snapshot, attempt, error)
            == (Resolve::Finished { result: Err(error) }),
        (Resolve::Reloading { snapshot, attempt, error }).leads_to(
            Reply::ConfigLoaded(Ok(latest)),
            after,
        ) && !authentication_differs(snapshot@, latest@) ==> after == (Resolve::Finished {
            result: Err(error),
        }),
        (Resolve::Reloading { snapshot, attempt, error }).leads_to(
            Reply::ConfigLoaded(Ok(latest)),
            after,
        ) && authentication_differs(snapshot@, latest@) && attempt < 3 ==> attempts(
            latest,
            (attempt + 1) as u8,
            after,
        ),
{
}

/// A credential may be sent to the endpoints of a configuration exactly if it is not
/// that of a login, or these are the endpoints that the login was made for and may get
/// the tokens of its issuer.
pub proof fn law_credentials_go_to_their_endpoints(
    credential: ResolvedCredential,
    config: ConfigView,
)
    ensures
        credential.oauth_session is None ==> credential.may_be_sent(config),
        credential.oauth_session matches Some(session) ==> (credential.may_be_sent(config)
            <==> endpoints(config).0 == session@.account_endpoint && endpoints(config).1
            == session@.basin_endpoint && crate::destination::destination_allowed(
            session@.issuer,
            config,
        )),
{
}

/// A configuration that cannot be read ends the search, and so does an access token of
/// the environment that is not one.
pub proof fn law_search_ends_with_its_error(
    state: Resolve,
    error: LoginError,
    unreadable: CliConfigError,
    after: Resolve,
)
    ensures
        (state is Loading || state is Reloading) && state.leads_to(
            Reply::ConfigLoaded(Err(unreadable)),
            after,
        ) ==> after == (Resolve::Finished { result: Err(LoginError::Config(unreadable)) }),
        state is Validating && state.leads_to(Reply::AccessTokenValidated(Err(error)), after)
            ==> after == (Resolve::Finished { result: Err(error) }),
        state matches Resolve::LoadingStored { snapshot, attempt } ==> (state.leads_to(
            Reply::StoredAccessToken(Err(error)),
            after,
        ) ==> after == attempt_failed(snapshot, attempt, error)),
{
}

}
