//! Logging in with a browser, from the first check to the cleanup of the login
//! that was there before.
//!
//! The new login is journaled in the configuration before its tokens are stored,
//! so that it can be taken back whatever happens in between.

use vstd::prelude::*;
use vstd::utf8::encode_utf8;

use crate::cleanup::{
    append_metadata_warning, law_cleanup_only_loses_queued, law_cleanup_starts_from_the_queues,
    law_cleanup_starts_well_formed, law_cleanup_starts_with_the_first_item,
    law_cleanup_stays_well_formed, metadata_warning, starts_cleanup, with_message, Cleanup,
};
use crate::config::{
    law_others_stay_in_the_list, lemma_queued_contains, lemma_without_lacks, lemma_without_push,
    pending_in_store, queue_replaced_session, queued, remove_reference, remove_session, with_replaced_session,
    without, AuthMethod, CliConfig, ConfigView, CredentialStore, OAuthSession, SessionView,
    StoredCredentialReference,
};
use crate::destination::{allowed_destination, destination_allowed, endpoints};
use crate::effect::{CallbackWait, Reply, Request};
use crate::encoding::{
    all_url_safe, base64url, encodes_32_bytes, random_base64url, random_credential_id,
    random_identifier, sha256,
};
use crate::error::{CliConfigError, LoginError};
use crate::identity::{
    claims_of, identity_payload, identity_view, known_identity, may_share_grant,
    oauth_grant_may_be_reused, same_client, IdentityView, OAuthIdentity,
};
use crate::issuer::{
    completion_of, first_of, issuer_of, oauth_client_id, oauth_completion_url, oauth_issuer,
    unless_blank, DEFAULT_OAUTH_CLIENT_ID, DEFAULT_OAUTH_COMPLETION_URL, DEFAULT_OAUTH_ISSUER,
};
use crate::metadata::{authorization_params, authorization_url, OAuthEndpoints};
use crate::pkce::{challenge_of, Pkce};
use crate::prepare::{
    law_preparation_starts_well_formed, law_preparation_stays_well_formed,
    law_room_is_made_in_one_store, law_room_starts_in_its_store, PrepareStore,
};
use crate::rollback::{cleanup_new_credential, Rollback};
use crate::text::{borrowed, decimal, decimal_text, opt_view};
use crate::token::TokenSet;
use crate::url::{takes_query, url_of, url_with_params, Url, UrlView};

verus! {

/// What the user asks for.
pub struct LoginArgs {
    /// The issuer to log in with.
    pub issuer: Option<String>,
    /// The client to log in as.
    pub client_id: Option<String>,
    /// Keep the tokens in a plain file.
    pub insecure_storage: bool,
}

/// What the environment says about logins.
pub struct LoginEnvironment {
    pub issuer: Option<String>,
    pub client_id: Option<String>,
    pub completion_url: Option<String>,
}

/// What is known of a login before it starts.
pub struct LoginPlan {
    pub issuer: Url,
    pub client_id: String,
    pub store: CredentialStore,
    /// The site where the login ends, as the environment names it.
    pub completion: Option<String>,
    pub pkce: Pkce,
    /// What the request of the browser has to repeat.
    pub state: String,
    /// The identifier of the credential that is to be stored.
    pub credential_id: String,
}

/// The issuer that a login is asked to use, as text.
pub open spec fn requested_issuer(args: LoginArgs, environment: LoginEnvironment) -> Seq<char> {
    first_of(opt_view(args.issuer), opt_view(environment.issuer), DEFAULT_OAUTH_ISSUER@)
}

/// The store that a login is asked to use.
pub open spec fn requested_store(args: LoginArgs) -> CredentialStore {
    if args.insecure_storage {
        CredentialStore::File
    } else {
        CredentialStore::Keyring
    }
}

/// The plan says what was asked for.
pub open spec fn planned(
    args: LoginArgs,
    environment: LoginEnvironment,
    issuer: UrlView,
    plan: LoginPlan,
) -> bool {
    &&& plan.issuer@ == issuer
    &&& plan.client_id@ == first_of(
        unless_blank(opt_view(args.client_id)),
        unless_blank(opt_view(environment.client_id)),
        DEFAULT_OAUTH_CLIENT_ID@,
    )
    &&& plan.store == requested_store(args)
    &&& plan.completion == environment.completion_url
}

/// The site where a login ends, or why there is none.
pub open spec fn planned_completion(plan: LoginPlan) -> Result<UrlView, Seq<char>> {
    completion_of(
        first_of(unless_blank(opt_view(plan.completion)), None, DEFAULT_OAUTH_COMPLETION_URL@),
    )
}

/// A login that the user has authorized.
pub struct Authorized {
    pub plan: LoginPlan,
    pub endpoints: OAuthEndpoints,
    pub callback_url: String,
    pub code: String,
}

/// A login that has its tokens.
pub struct NewLogin {
    pub endpoints: OAuthEndpoints,
    /// The configuration as it is, or is to be, on disk.
    pub config: CliConfig,
    pub session: OAuthSession,
    pub tokens: TokenSet,
}

/// Why a new login is taken back.
pub enum RollbackCause {
    /// Its tokens could not be stored.
    Write(LoginError),
    /// The configuration that selects it could not be written.
    Config(CliConfigError),
}

/// What a login has achieved.
pub struct LoggedIn {
    pub session: OAuthSession,
    /// Whether it took the place of another login.
    pub replaced: bool,
    /// The file that the configuration was written to.
    pub saved_path: String,
}

/// A login that is done with.
pub struct LoginReport {
    pub login: LoggedIn,
    pub config: CliConfig,
    /// Why older logins stay queued.
    pub warning: Option<String>,
}

/// A login.
pub enum Login {
    /// Find out where the tokens would be sent.
    CheckingDestination { plan: LoginPlan },
    /// Keep others from changing the configuration while room is made.
    LockingFirst { plan: LoginPlan },
    LoadingFirst { plan: LoginPlan },
    /// Make room in the credential store.
    PreparingFirst { plan: LoginPlan, prepare: PrepareStore },
    /// Do not keep others waiting for the user.
    Unlocking { plan: LoginPlan },
    Discovering { plan: LoginPlan, completion_url: Option<Url> },
    Listening { plan: LoginPlan, completion_url: Option<Url>, endpoints: OAuthEndpoints },
    /// Wait for the user to authorize the login.
    Awaiting {
        plan: LoginPlan,
        completion_url: Option<Url>,
        endpoints: OAuthEndpoints,
        callback_url: String,
        page: String,
    },
    /// Keep others from changing the configuration until the login is complete.
    LockingAgain { authorized: Authorized },
    LoadingAgain { authorized: Authorized },
    /// Make room once more: the configuration may have changed meanwhile.
    PreparingAgain { authorized: Authorized, prepare: PrepareStore },
    /// Find out once more where the tokens would be sent.
    CheckingAgain { authorized: Authorized, config: CliConfig },
    Exchanging {
        authorized: Authorized,
        config: CliConfig,
        account_endpoint: String,
        basin_endpoint: String,
    },
    /// Read the tokens of the login that is there already.
    LoadingPrevious { new: NewLogin, previous: OAuthSession },
    /// Compare the identities of both logins.
    ReadingIdentities {
        new: NewLogin,
        previous: OAuthSession,
        previous_claims: Option<Vec<u8>>,
        next_claims: Option<Vec<u8>>,
    },
    /// Write down that the new login has to be taken back.
    Journaling { new: NewLogin, reused: bool },
    /// Revoke a grant that could not be journaled.
    RevokingUnjournaled { new: NewLogin, error: CliConfigError },
    /// Store the tokens.
    Storing { new: NewLogin, reused: bool },
    /// Select the new login.
    Saving { new: NewLogin, reused: bool, replaced: bool },
    RollingBack { cause: RollbackCause, rollback: Rollback },
    /// Say where the credential is that could not be taken back.
    Locating { cause: RollbackCause, reference: StoredCredentialReference, cleanup: LoginError },
    /// Get rid of older logins.
    Cleaning { login: LoggedIn, cleanup: Cleanup },
    SavingCleaned { login: LoggedIn, config: CliConfig, warning: Option<String> },
    Finished { result: Result<LoginReport, LoginError> },
}

/// The end of a login that failed.
pub open spec fn failed(error: LoginError) -> Login {
    Login::Finished { result: Err(error) }
}

fn fail(error: LoginError) -> (after: Login)
    ensures
        after == failed(error),
{
    Login::Finished { result: Err(error) }
}

/// The end of a login whose tokens would go where they must not.
pub open spec fn is_unsafe(after: Login) -> bool {
    after matches Login::Finished { result } && result matches Err(error)
        && error is UnsafeBrowserDestination
}

/// Where the browser is to go once the user has decided.
pub open spec fn callback_address(socket: u16) -> Seq<char> {
    "http://127.0.0.1:"@ + decimal(socket as nat) + "/callback"@
}

/// Where the browser is to go once the user has decided.
pub fn callback_url(socket: u16) -> (text: String)
    ensures
        text@ == callback_address(socket),
{
    let mut text = "http://127.0.0.1:".to_owned();
    let number = decimal_text(socket as u64);
    text.append(number.as_str());
    text.append("/callback");
    text
}

/// What is remembered of a new login.
pub open spec fn new_session(
    plan: LoginPlan,
    granted_by: OAuthEndpoints,
    account_endpoint: Seq<char>,
    basin_endpoint: Seq<char>,
) -> SessionView {
    SessionView {
        issuer: granted_by@.issuer.text,
        client_id: plan.client_id@,
        account_endpoint,
        basin_endpoint,
        credential_id: plan.credential_id@,
        credential_store: plan.store,
    }
}

/// The configuration with the new login journaled: its credential is to be
/// deleted, and its grant revoked unless an older login may share it.
pub open spec fn journaled(config: ConfigView, session: SessionView, reused: bool) -> ConfigView {
    if reused {
        ConfigView {
            pending_oauth_cleanup: config.pending_oauth_cleanup.push(session.reference()),
            ..config
        }
    } else {
        ConfigView {
            pending_oauth_revocation: config.pending_oauth_revocation.push(session),
            ..config
        }
    }
}

fn journal(config: &mut CliConfig, session: &OAuthSession, reused: bool)
    ensures
        final(config)@ == journaled(old(config)@, session@, reused),
{
    let ghost before = config@;
    if reused {
        config.pending_oauth_cleanup.push(session.credential_reference());
        assert(config@.pending_oauth_cleanup =~= before.pending_oauth_cleanup.push(
            session@.reference(),
        ));
    } else {
        config.pending_oauth_revocation.push(session.duplicate());
        assert(config@.pending_oauth_revocation =~= before.pending_oauth_revocation.push(session@));
    }
}

/// The journaled configuration with the new login selected: the journal entry is
/// gone, and the login that was selected is queued in its place.
pub open spec fn completed(config: ConfigView, session: SessionView, reused: bool) -> ConfigView {
    let selected = ConfigView {
        pending_oauth_cleanup: without(config.pending_oauth_cleanup, session.reference()),
        pending_oauth_revocation: without(config.pending_oauth_revocation, session),
        auth_method: Some(AuthMethod::BrowserLogin),
        oauth: Some(session),
        ..config
    };
    match config.oauth {
        Some(previous) => with_replaced_session(selected, previous, reused),
        None => selected,
    }
}

fn complete(config: CliConfig, session: &OAuthSession, reused: bool) -> (after: CliConfig)
    ensures
        after@ == completed(config@, session@, reused),
{
    let reference = session.credential_reference();
    let mut after = config;
    let cleanup = remove_reference(&after.pending_oauth_cleanup, &reference);
    let revocation = remove_session(&after.pending_oauth_revocation, session);
    after.pending_oauth_cleanup = cleanup;
    after.pending_oauth_revocation = revocation;
    after.auth_method = Some(AuthMethod::BrowserLogin);
    let previous = after.oauth;
    after.oauth = Some(session.duplicate());
    if let Some(previous) = &previous {
        queue_replaced_session(&mut after, previous, reused);
    }
    after
}

/// Bytes, if there are any.
pub open spec fn bytes_view(bytes: Option<Vec<u8>>) -> Option<Seq<u8>> {
    match bytes {
        Some(bytes) => Some(bytes@),
        None => None,
    }
}

/// The identity that claims state, where there are claims.
pub open spec fn stated_identity(
    claims: Option<Vec<u8>>,
    read: Option<OAuthIdentity>,
) -> Option<IdentityView> {
    if claims is Some {
        known_identity(identity_view(read))
    } else {
        None
    }
}

fn keep_stated(claims: &Option<Vec<u8>>, read: Option<OAuthIdentity>) -> (kept: Option<
    OAuthIdentity,
>)
    ensures
        known_identity(identity_view(kept)) == stated_identity(*claims, read),
{
    if claims.is_some() {
        read
    } else {
        None
    }
}

/// The tokens come with the login: what a new login holds.
pub open spec fn granted(
    new: NewLogin,
    authorized: Authorized,
    session: SessionView,
    tokens: TokenSet,
) -> bool {
    new.endpoints == authorized.endpoints && new.tokens == tokens && new.session@ == session
}

/// The same login, with another configuration.
pub open spec fn same_login(new: NewLogin, old_login: NewLogin) -> bool {
    new.endpoints == old_login.endpoints && new.session == old_login.session && new.tokens
        == old_login.tokens
}

/// What is said where a new login could not be taken back.
pub open spec fn rollback_error(
    cause: RollbackCause,
    cleanup: LoginError,
    recovery: String,
) -> LoginError {
    match cause {
        RollbackCause::Write(write) => LoginError::CredentialWriteRollback {
            write: Box::new(write),
            cleanup: Box::new(cleanup),
            recovery,
        },
        RollbackCause::Config(config) => LoginError::LoginRollback {
            config: Box::new(config),
            cleanup: Box::new(cleanup),
            recovery,
        },
    }
}

/// What is said where a new login was taken back.
pub open spec fn cause_error(cause: RollbackCause) -> LoginError {
    match cause {
        RollbackCause::Write(write) => write,
        RollbackCause::Config(config) => LoginError::Config(config),
    }
}

/// The state that belongs to the first making of room.
pub open spec fn prepared_first(plan: LoginPlan, prepare: PrepareStore, after: Login) -> bool {
    match prepare {
        PrepareStore::Finished { result: Ok(_) } => after == (Login::Unlocking { plan }),
        PrepareStore::Finished { result: Err(error) } => after == failed(error),
        _ => after == (Login::PreparingFirst { plan, prepare }),
    }
}

/// The state that belongs to the second making of room.
pub open spec fn prepared_again(
    authorized: Authorized,
    prepare: PrepareStore,
    after: Login,
) -> bool {
    match prepare {
        PrepareStore::Finished { result: Ok(config) } => after == (Login::CheckingAgain {
            authorized,
            config,
        }),
        PrepareStore::Finished { result: Err(error) } => after == failed(error),
        _ => after == (Login::PreparingAgain { authorized, prepare }),
    }
}

/// The state that belongs to a rollback.
pub open spec fn rolled_back(cause: RollbackCause, rollback: Rollback, after: Login) -> bool {
    match rollback {
        Rollback::Finished { result: Ok(_), .. } => after == failed(cause_error(cause)),
        Rollback::Finished { reference, result: Err(cleanup) } => after == (Login::Locating {
            cause,
            reference,
            cleanup,
        }),
        _ => after == (Login::RollingBack { cause, rollback }),
    }
}

/// The state that belongs to the cleanup at the end.
pub open spec fn cleaned_up(login: LoggedIn, cleanup: Cleanup, after: Login) -> bool {
    match cleanup {
        Cleanup::Finished { config, changed, warning } => if changed {
            after == (Login::SavingCleaned { login, config, warning })
        } else {
            after == (Login::Finished { result: Ok(LoginReport { login, config, warning }) })
        },
        _ => after == (Login::Cleaning { login, cleanup }),
    }
}

fn after_prepare_first(plan: LoginPlan, prepare: PrepareStore) -> (after: Login)
    requires
        prepare.wf(),
    ensures
        prepared_first(plan, prepare, after),
        after.wf(),
{
    match prepare {
        PrepareStore::Finished { result: Ok(_) } => Login::Unlocking { plan },
        PrepareStore::Finished { result: Err(error) } => fail(error),
        prepare => Login::PreparingFirst { plan, prepare },
    }
}

fn after_prepare_again(authorized: Authorized, prepare: PrepareStore) -> (after: Login)
    requires
        prepare.wf(),
    ensures
        prepared_again(authorized, prepare, after),
        after.wf(),
{
    match prepare {
        PrepareStore::Finished { result: Ok(config) } => Login::CheckingAgain {
            authorized,
            config,
        },
        PrepareStore::Finished { result: Err(error) } => fail(error),
        prepare => Login::PreparingAgain { authorized, prepare },
    }
}

fn after_rollback(cause: RollbackCause, rollback: Rollback) -> (after: Login)
    ensures
        rolled_back(cause, rollback, after),
        after.wf(),
{
    match rollback {
        Rollback::Finished { result: Ok(_), .. } => match cause {
            RollbackCause::Write(write) => fail(write),
            RollbackCause::Config(config) => fail(LoginError::Config(config)),
        },
        Rollback::Finished { reference, result: Err(cleanup) } => Login::Locating {
            cause,
            reference,
            cleanup,
        },
        rollback => Login::RollingBack { cause, rollback },
    }
}

fn after_cleanup(login: LoggedIn, cleanup: Cleanup) -> (after: Login)
    requires
        cleanup.wf(),
        selects(cleanup.config()@, login.session@),
    ensures
        cleaned_up(login, cleanup, after),
        after.wf(),
{
    match cleanup {
        Cleanup::Finished { config, changed, warning } => {
            if changed {
                Login::SavingCleaned { login, config, warning }
            } else {
                Login::Finished { result: Ok(LoginReport { login, config, warning }) }
            }
        },
        cleanup => Login::Cleaning { login, cleanup },
    }
}

/// Goes on with the tokens of a new login.
fn with_tokens(
    authorized: Authorized,
    config: CliConfig,
    account_endpoint: String,
    basin_endpoint: String,
    tokens: TokenSet,
) -> (after: Login)
    ensures
        after.wf(),
        (Login::Exchanging { authorized, config, account_endpoint, basin_endpoint }).leads_to(
            Reply::Tokens(Ok(tokens)),
            after,
        ),
{
    let Authorized { plan, endpoints, .. } = authorized;
    let session = OAuthSession {
        issuer: endpoints.issuer.as_str().to_owned(),
        client_id: plan.client_id,
        account_endpoint,
        basin_endpoint,
        credential_id: plan.credential_id,
        credential_store: plan.store,
    };
    let previous = match &config.oauth {
        Some(previous) => Some(previous.duplicate()),
        None => None,
    };
    let new = NewLogin { endpoints, config, session, tokens };
    match previous {
        Some(previous) => Login::LoadingPrevious { new, previous },
        None => start_journal(new, false),
    }
}

/// Journals a new login.
fn start_journal(new: NewLogin, reused: bool) -> (after: Login)
    ensures
        after.wf(),
        after matches Login::Journaling { new: entry, reused: same } && same == reused
            && same_login(entry, new) && entry.config@ == journaled(
            new.config@,
            new.session@,
            reused,
        ),
{
    let NewLogin { endpoints, config, session, tokens } = new;
    let mut config = config;
    journal(&mut config, &session, reused);
    proof {
        let before = new.config@;
        if reused {
            assert(config@.pending_oauth_cleanup[before.pending_oauth_cleanup.len() as int]
                == session@.reference());
        } else {
            assert(config@.pending_oauth_revocation[before.pending_oauth_revocation.len() as int]
                == session@);
        }
    }
    Login::Journaling { new: NewLogin { endpoints, config, session, tokens }, reused }
}

impl LoginPlan {
    /// The plan for what was asked for, or why there is none.
    pub fn new(
        args: &LoginArgs,
        environment: &LoginEnvironment,
        pkce: Pkce,
        state: String,
        credential_id: String,
    ) -> (result: Result<LoginPlan, LoginError>)
        ensures
            match issuer_of(requested_issuer(*args, *environment)) {
                Ok(issuer) => result matches Ok(plan) && planned(*args, *environment, issuer, plan)
                    && plan.pkce == pkce && plan.state == state && plan.credential_id
                    == credential_id,
                Err(reason) => result matches Err(LoginError::InvalidIssuer(said)) && said@
                    == reason,
            },
    {
        let issuer = match oauth_issuer(borrowed(&args.issuer), borrowed(&environment.issuer)) {
            Ok(issuer) => issuer,
            Err(error) => return Err(error),
        };
        let client_id = oauth_client_id(
            borrowed(&args.client_id),
            borrowed(&environment.client_id),
        );
        let store = if args.insecure_storage {
            CredentialStore::File
        } else {
            CredentialStore::Keyring
        };
        let completion = environment.completion_url.clone();
        Ok(LoginPlan { issuer, client_id, store, completion, pkce, state, credential_id })
    }
}

/// Starts a login, with a secret, a state and an identifier that nobody can
/// guess.
pub fn login(args: &LoginArgs, environment: &LoginEnvironment) -> (state: Login)
    ensures
        state.wf(),
        match issuer_of(requested_issuer(*args, *environment)) {
            Ok(issuer) => state matches Login::CheckingDestination { plan } && planned(
                *args,
                *environment,
                issuer,
                plan,
            ) && plan.pkce.verifier@.len() == 43 && all_url_safe(plan.pkce.verifier@)
                && encodes_32_bytes(plan.pkce.verifier@) && plan.pkce.challenge@ == challenge_of(
                plan.pkce.verifier@,
            ) && plan.state@.len() == 43 && all_url_safe(plan.state@) && encodes_32_bytes(
                plan.state@,
            ) && random_identifier(plan.credential_id@),
            Err(reason) => state matches Login::Finished { result } && result matches Err(
                LoginError::InvalidIssuer(said),
            ) && said@ == reason,
        },
{
    let pkce = Pkce::random();
    let state = random_base64url();
    let credential_id = random_credential_id();
    match LoginPlan::new(args, environment, pkce, state, credential_id) {
        Ok(plan) => Login::CheckingDestination { plan },
        Err(error) => fail(error),
    }
}

impl Login {
    /// A login that has been journaled is in one of the queues until it is
    /// selected, and stays selected from then on.
    pub open spec fn wf(self) -> bool {
        match self {
            Login::PreparingFirst { prepare, .. } => prepare.wf() && !(prepare is Finished),
            Login::Listening { endpoints, .. } => takes_query(endpoints@.authorization),
            Login::PreparingAgain { prepare, .. } => prepare.wf() && !(prepare is Finished),
            Login::Journaling { new, reused } => is_journaled(new.config@, new.session@, reused),
            Login::Storing { new, reused } => is_journaled(new.config@, new.session@, reused),
            Login::LoadingPrevious { new, previous } => new.config@.oauth == Some(previous@),
            Login::ReadingIdentities { new, previous, .. } => new.config@.oauth == Some(previous@),
            Login::Saving { new, .. } => selects(new.config@, new.session@),
            Login::Cleaning { login, cleanup } => cleanup.wf() && !(cleanup is Finished) && selects(
                cleanup.config()@,
                login.session@,
            ),
            Login::SavingCleaned { login, config, .. } => selects(config@, login.session@),
            Login::Finished { result } => result matches Ok(report) ==> selects(
                report.config@,
                report.login.session@,
            ),
            _ => true,
        }
    }

    /// The login can go on with the reply: the page to authorize it at can be
    /// written out. Of endpoints that were read from the metadata of a provider only
    /// one that takes more than 4 GB is not such a page.
    pub open spec fn accepts(self, reply: Reply) -> bool {
        self is Discovering ==> (reply matches Reply::Discovered(Ok(endpoints)) ==> takes_query(
            endpoints@.authorization,
        ))
    }

    /// Whether the login can go on with the reply.
    pub fn can_go_on(&self, reply: &Reply) -> (can: bool)
        ensures
            can == self.accepts(*reply),
    {
        match (self, reply) {
            (Login::Discovering { .. }, Reply::Discovered(Ok(endpoints))) => {
                endpoints.authorization.takes_query()
            },
            _ => true,
        }
    }

    /// What is to be done next; `None` at the end.
    pub open spec fn asks<'a>(&'a self) -> Option<Request<'a>> {
        match self {
            Login::CheckingDestination { .. } => Some(Request::LoadEffectiveConfig),
            Login::LockingFirst { .. } => Some(Request::LockConfig),
            Login::LoadingFirst { .. } => Some(Request::LoadConfig),
            Login::PreparingFirst { prepare, .. } => prepare.asks(),
            Login::Unlocking { .. } => Some(Request::UnlockConfig),
            Login::Discovering { plan, .. } => Some(Request::Discover(&plan.issuer)),
            Login::Listening { .. } => Some(Request::Listen),
            Login::Awaiting { plan, completion_url, page, .. } => Some(
                Request::AwaitCallback { page, state: &plan.state, completion_url },
            ),
            Login::LockingAgain { .. } => Some(Request::LockConfig),
            Login::LoadingAgain { .. } => Some(Request::LoadConfig),
            Login::PreparingAgain { prepare, .. } => prepare.asks(),
            Login::CheckingAgain { .. } => Some(Request::LoadEffectiveConfig),
            Login::Exchanging { authorized, .. } => Some(
                Request::ExchangeCode {
                    endpoints: &authorized.endpoints,
                    client_id: &authorized.plan.client_id,
                    callback_url: &authorized.callback_url,
                    code: &authorized.code,
                    code_verifier: &authorized.plan.pkce.verifier,
                },
            ),
            Login::LoadingPrevious { previous, .. } => Some(Request::LoadCredentials(previous)),
            Login::ReadingIdentities { previous_claims, next_claims, .. } => Some(
                Request::ReadIdentities { previous: previous_claims, next: next_claims },
            ),
            Login::Journaling { new, .. } => Some(Request::SaveConfig(&new.config)),
            Login::RevokingUnjournaled { new, .. } => Some(
                Request::RevokeToken {
                    endpoints: &new.endpoints,
                    client_id: &new.session.client_id,
                    refresh_token: &new.tokens.refresh_token,
                },
            ),
            Login::Storing { new, .. } => Some(Request::SaveCredentials(&new.session, &new.tokens)),
            Login::Saving { new, .. } => Some(Request::SaveConfig(&new.config)),
            Login::RollingBack { rollback, .. } => rollback.asks(),
            Login::Locating { reference, .. } => Some(Request::LocateCredential(reference)),
            Login::Cleaning { cleanup, .. } => cleanup.asks(),
            Login::SavingCleaned { config, .. } => Some(Request::SaveConfig(config)),
            Login::Finished { .. } => None,
        }
    }

    /// What is to be done next.
    pub fn request<'a>(&'a self) -> (request: Option<Request<'a>>)
        ensures
            request == self.asks(),
    {
        match self {
            Login::CheckingDestination { .. } => Some(Request::LoadEffectiveConfig),
            Login::LockingFirst { .. } => Some(Request::LockConfig),
            Login::LoadingFirst { .. } => Some(Request::LoadConfig),
            Login::PreparingFirst { prepare, .. } => prepare.request(),
            Login::Unlocking { .. } => Some(Request::UnlockConfig),
            Login::Discovering { plan, .. } => Some(Request::Discover(&plan.issuer)),
            Login::Listening { .. } => Some(Request::Listen),
            Login::Awaiting { plan, completion_url, page, .. } => Some(
                Request::AwaitCallback { page, state: &plan.state, completion_url },
            ),
            Login::LockingAgain { .. } => Some(Request::LockConfig),
            Login::LoadingAgain { .. } => Some(Request::LoadConfig),
            Login::PreparingAgain { prepare, .. } => prepare.request(),
            Login::CheckingAgain { .. } => Some(Request::LoadEffectiveConfig),
            Login::Exchanging { authorized, .. } => Some(
                Request::ExchangeCode {
                    endpoints: &authorized.endpoints,
                    client_id: &authorized.plan.client_id,
                    callback_url: &authorized.callback_url,
                    code: &authorized.code,
                    code_verifier: &authorized.plan.pkce.verifier,
                },
            ),
            Login::LoadingPrevious { previous, .. } => Some(Request::LoadCredentials(previous)),
            Login::ReadingIdentities { previous_claims, next_claims, .. } => Some(
                Request::ReadIdentities { previous: previous_claims, next: next_claims },
            ),
            Login::Journaling { new, .. } => Some(Request::SaveConfig(&new.config)),
            Login::RevokingUnjournaled { new, .. } => Some(
                Request::RevokeToken {
                    endpoints: &new.endpoints,
                    client_id: &new.session.client_id,
                    refresh_token: &new.tokens.refresh_token,
                },
            ),
            Login::Storing { new, .. } => Some(Request::SaveCredentials(&new.session, &new.tokens)),
            Login::Saving { new, .. } => Some(Request::SaveConfig(&new.config)),
            Login::RollingBack { rollback, .. } => rollback.request(),
            Login::Locating { reference, .. } => Some(Request::LocateCredential(reference)),
            Login::Cleaning { cleanup, .. } => cleanup.request(),
            Login::SavingCleaned { config, .. } => Some(Request::SaveConfig(config)),
            Login::Finished { .. } => None,
        }
    }

    /// A reply leads from one state to another. A reply to something else
    /// changes nothing.
    pub open spec fn leads_to(self, reply: Reply, after: Login) -> bool {
        match (self, reply) {
            (Login::CheckingDestination { plan }, Reply::ConfigLoaded(Ok(config))) => {
                if destination_allowed(plan.issuer@.text, config@) {
                    after == (Login::LockingFirst { plan })
                } else {
                    is_unsafe(after)
                }
            },
            (Login::CheckingDestination { .. }, Reply::ConfigLoaded(Err(error))) => after == failed(
                LoginError::Config(error),
            ),
            (Login::LockingFirst { plan }, Reply::ConfigLocked(Ok(_))) => after == (
            Login::LoadingFirst { plan }),
            (Login::LockingFirst { .. }, Reply::ConfigLocked(Err(error))) => after == failed(
                LoginError::Config(error),
            ),
            (Login::LoadingFirst { plan }, Reply::ConfigLoaded(Ok(config))) => exists|
                prepare: PrepareStore,
            | #[trigger]
                PrepareStore::starts(config@, plan.store, prepare) && prepared_first(
                    plan,
                    prepare,
                    after,
                ),
            (Login::LoadingFirst { .. }, Reply::ConfigLoaded(Err(error))) => after == failed(
                LoginError::Config(error),
            ),
            (Login::PreparingFirst { plan, prepare }, reply) => exists|next: PrepareStore|
             #[trigger]
                prepare.leads_to(reply, next) && prepared_first(plan, next, after),
            (Login::Unlocking { plan }, Reply::Released) => match planned_completion(plan) {
                Ok(site) => after matches Login::Discovering { plan: same, completion_url } && same
                    == plan && (completion_url matches Some(url) && url@ == site),
                Err(reason) => after matches Login::Finished { result } && result matches Err(
                    LoginError::InvalidCompletionUrl(said),
                ) && said@ == reason,
            },
            (Login::Discovering { plan, completion_url }, Reply::Discovered(Ok(endpoints))) => after
                == (Login::Listening { plan, completion_url, endpoints }),
            (Login::Discovering { .. }, Reply::Discovered(Err(error))) => after == failed(error),
            (
                Login::Listening { plan, completion_url, endpoints },
                Reply::Listening(Ok(socket)),
            ) => {
                after matches Login::Awaiting {
                    plan: same,
                    completion_url: site,
                    endpoints: found,
                    callback_url,
                    page,
                } && same == plan && site == completion_url && found == endpoints && callback_url@
                    == callback_address(socket) && url_with_params(
                    endpoints@.authorization.source,
                    authorization_params(
                        plan.client_id@,
                        callback_address(socket),
                        plan.state@,
                        plan.pkce.challenge@,
                    ),
                ) == Ok::<Seq<char>, Seq<char>>(page@)
            },
            (Login::Listening { .. }, Reply::Listening(Err(error))) => after == failed(error),
            (
                Login::Awaiting { plan, endpoints, callback_url, .. },
                Reply::CallbackEnded { server, wait },
            ) => match (server, wait) {
                (Err(error), _) => after == failed(error),
                (Ok(_), CallbackWait::TimedOut) => after == failed(LoginError::TimedOut),
                (Ok(_), CallbackWait::Closed) => after == failed(LoginError::CallbackClosed),
                (Ok(_), CallbackWait::Received(Err(reason))) => after == failed(
                    LoginError::AuthorizationRejected(reason),
                ),
                (Ok(_), CallbackWait::Received(Ok(code))) => after == (Login::LockingAgain {
                    authorized: Authorized { plan, endpoints, callback_url, code },
                }),
            },
            (Login::LockingAgain { authorized }, Reply::ConfigLocked(Ok(_))) => after == (
            Login::LoadingAgain { authorized }),
            (Login::LockingAgain { .. }, Reply::ConfigLocked(Err(error))) => after == failed(
                LoginError::Config(error),
            ),
            (Login::LoadingAgain { authorized }, Reply::ConfigLoaded(Ok(config))) => exists|
                prepare: PrepareStore,
            | #[trigger]
                PrepareStore::starts(config@, authorized.plan.store, prepare) && prepared_again(
                    authorized,
                    prepare,
                    after,
                ),
            (Login::LoadingAgain { .. }, Reply::ConfigLoaded(Err(error))) => after == failed(
                LoginError::Config(error),
            ),
            (Login::PreparingAgain { authorized, prepare }, reply) => exists|next: PrepareStore|
             #[trigger]
                prepare.leads_to(reply, next) && prepared_again(authorized, next, after),
            (Login::CheckingAgain { authorized, config }, Reply::ConfigLoaded(Ok(current))) => {
                if destination_allowed(authorized.plan.issuer@.text, current@) {
                    after matches Login::Exchanging {
                        authorized: same,
                        config: kept,
                        account_endpoint,
                        basin_endpoint,
                    } && same == authorized && kept == config && (
                        account_endpoint@,
                        basin_endpoint@,
                    ) == endpoints(current@)
                } else {
                    is_unsafe(after)
                }
            },
            (Login::CheckingAgain { .. }, Reply::ConfigLoaded(Err(error))) => after == failed(
                LoginError::Config(error),
            ),
            (
                Login::Exchanging { authorized, config, account_endpoint, basin_endpoint },
                Reply::Tokens(Ok(tokens)),
            ) => {
                let session = new_session(
                    authorized.plan,
                    authorized.endpoints,
                    account_endpoint@,
                    basin_endpoint@,
                );
                if config@.oauth is Some {
                    after matches Login::LoadingPrevious { new, previous } && granted(
                        new,
                        authorized,
                        session,
                        tokens,
                    ) && new.config@ == config@ && config@.oauth == Some(previous@)
                } else {
                    after matches Login::Journaling { new, reused } && !reused && granted(
                        new,
                        authorized,
                        session,
                        tokens,
                    ) && new.config@ == journaled(config@, session, false)
                }
            },
            (Login::Exchanging { .. }, Reply::Tokens(Err(error))) => after == failed(error),
            (Login::LoadingPrevious { new, previous }, Reply::CredentialsLoaded(loaded)) => {
                after matches Login::ReadingIdentities {
                    new: same,
                    previous: old_session,
                    previous_claims,
                    next_claims,
                } && same == new && old_session == previous && bytes_view(previous_claims) == (
                match loaded {
                    Ok(tokens) => claims_of(tokens@.access_token),
                    Err(_) => None,
                }) && bytes_view(next_claims) == claims_of(new.tokens@.access_token)
            },
            (
                Login::ReadingIdentities { new, previous, previous_claims, next_claims },
                Reply::Identities { previous: previous_identity, next: next_identity },
            ) => {
                after matches Login::Journaling { new: journal_entry, reused } && reused
                    == may_share_grant(
                    same_client(previous@, new.session@),
                    stated_identity(previous_claims, previous_identity),
                    stated_identity(next_claims, next_identity),
                ) && same_login(journal_entry, new) && journal_entry.config@ == journaled(
                    new.config@,
                    new.session@,
                    reused,
                )
            },
            (Login::Journaling { new, reused }, Reply::ConfigSaved(Ok(_))) => after == (
            Login::Storing { new, reused }),
            (Login::Journaling { new, reused }, Reply::ConfigSaved(Err(error))) => {
                if reused {
                    after == failed(LoginError::Config(error))
                } else {
                    after == (Login::RevokingUnjournaled { new, error })
                }
            },
            (Login::RevokingUnjournaled { error, .. }, Reply::Revoked(Ok(_))) => after == failed(
                LoginError::Config(error),
            ),
            (Login::RevokingUnjournaled { error, .. }, Reply::Revoked(Err(revocation))) => after
                == failed(
                LoginError::UnjournaledGrant {
                    config: Box::new(error),
                    revocation: Box::new(revocation),
                },
            ),
            (Login::Storing { new, reused }, Reply::CredentialsSaved(Ok(_))) => {
                after matches Login::Saving { new: selected, reused: same, replaced } && same
                    == reused && replaced == new.config@.oauth is Some && same_login(selected, new)
                    && selected.config@ == completed(new.config@, new.session@, reused)
            },
            (Login::Storing { new, reused }, Reply::CredentialsSaved(Err(error))) => {
                after matches Login::RollingBack { cause, rollback } && cause
                    == RollbackCause::Write(error) && Rollback::starts(
                    new.endpoints,
                    new.session,
                    new.tokens,
                    reused,
                    rollback,
                )
            },
            (Login::Saving { new, replaced, .. }, Reply::ConfigSaved(Ok(saved_path))) => exists|
                cleanup: Cleanup,
            | #[trigger]
                starts_cleanup(new.config@, true, cleanup) && cleaned_up(
                    LoggedIn { session: new.session, replaced, saved_path },
                    cleanup,
                    after,
                ),
            (Login::Saving { new, reused, .. }, Reply::ConfigSaved(Err(error))) => {
                after matches Login::RollingBack { cause, rollback } && cause
                    == RollbackCause::Config(error) && Rollback::starts(
                    new.endpoints,
                    new.session,
                    new.tokens,
                    reused,
                    rollback,
                )
            },
            (Login::RollingBack { cause, rollback }, reply) => exists|next: Rollback| #[trigger]
                rollback.leads_to(reply, next) && rolled_back(cause, next, after),
            (Login::Locating { cause, cleanup, .. }, Reply::CredentialLocated(recovery)) => after
                == failed(rollback_error(cause, cleanup, recovery)),
            (Login::Cleaning { login, cleanup }, reply) => exists|next: Cleanup| #[trigger]
                cleanup.leads_to(reply, next) && cleaned_up(login, next, after),
            (Login::SavingCleaned { login, config, warning }, Reply::ConfigSaved(Ok(_))) => after
                == (Login::Finished { result: Ok(LoginReport { login, config, warning }) }),
            (Login::SavingCleaned { login, config, warning }, Reply::ConfigSaved(Err(error))) => {
                after matches Login::Finished { result } && result matches Ok(report)
                    && report.login == login && report.config == config && opt_view(report.warning)
                    == Some(with_message(opt_view(warning), metadata_warning(error)))
            },
            _ => after == self,
        }
    }

    /// Goes on with the reply to the last request.
    #[verifier::rlimit(40)]
    pub fn advance(self, reply: Reply) -> (after: Login)
        requires
            self.wf(),
            self.accepts(reply),
        ensures
            self.leads_to(reply, after),
            after.wf(),
    {
        match (self, reply) {
            (Login::CheckingDestination { plan }, Reply::ConfigLoaded(Ok(config))) => {
                match allowed_destination(plan.issuer.as_str(), &config) {
                    Ok(_) => Login::LockingFirst { plan },
                    Err(error) => fail(error),
                }
            },
            (Login::CheckingDestination { .. }, Reply::ConfigLoaded(Err(error))) => fail(
                LoginError::Config(error),
            ),
            (Login::LockingFirst { plan }, Reply::ConfigLocked(Ok(_))) => Login::LoadingFirst {
                plan,
            },
            (Login::LockingFirst { .. }, Reply::ConfigLocked(Err(error))) => fail(
                LoginError::Config(error),
            ),
            (Login::LoadingFirst { plan }, Reply::ConfigLoaded(Ok(config))) => {
                let prepare = PrepareStore::start(config, plan.store);
                assert(PrepareStore::starts(config@, plan.store, prepare));
                after_prepare_first(plan, prepare)
            },
            (Login::LoadingFirst { .. }, Reply::ConfigLoaded(Err(error))) => fail(
                LoginError::Config(error),
            ),
            (Login::PreparingFirst { plan, prepare }, reply) => {
                let next = prepare.advance(reply);
                assert(prepare.leads_to(reply, next));
                after_prepare_first(plan, next)
            },
            (Login::Unlocking { plan }, Reply::Released) => {
                match oauth_completion_url(borrowed(&plan.completion)) {
                    Ok(completion_url) => Login::Discovering { plan, completion_url },
                    Err(error) => fail(error),
                }
            },
            (Login::Discovering { plan, completion_url }, Reply::Discovered(Ok(endpoints))) => {
                Login::Listening { plan, completion_url, endpoints }
            },
            (Login::Discovering { .. }, Reply::Discovered(Err(error))) => fail(error),
            (
                Login::Listening { plan, completion_url, endpoints },
                Reply::Listening(Ok(socket)),
            ) => {
                let callback_url = callback_url(socket);
                let page = authorization_url(
                    &endpoints.authorization,
                    plan.client_id.as_str(),
                    callback_url.as_str(),
                    plan.state.as_str(),
                    plan.pkce.challenge.as_str(),
                );
                Login::Awaiting { plan, completion_url, endpoints, callback_url, page }
            },
            (Login::Listening { .. }, Reply::Listening(Err(error))) => fail(error),
            (
                Login::Awaiting { plan, endpoints, callback_url, .. },
                Reply::CallbackEnded { server, wait },
            ) => match (server, wait) {
                (Err(error), _) => fail(error),
                (Ok(_), CallbackWait::TimedOut) => fail(LoginError::TimedOut),
                (Ok(_), CallbackWait::Closed) => fail(LoginError::CallbackClosed),
                (Ok(_), CallbackWait::Received(Err(reason))) => fail(
                    LoginError::AuthorizationRejected(reason),
                ),
                (Ok(_), CallbackWait::Received(Ok(code))) => Login::LockingAgain {
                    authorized: Authorized { plan, endpoints, callback_url, code },
                },
            },
            (Login::LockingAgain { authorized }, Reply::ConfigLocked(Ok(_))) => {
                Login::LoadingAgain { authorized }
            },
            (Login::LockingAgain { .. }, Reply::ConfigLocked(Err(error))) => fail(
                LoginError::Config(error),
            ),
            (Login::LoadingAgain { authorized }, Reply::ConfigLoaded(Ok(config))) => {
                let prepare = PrepareStore::start(config, authorized.plan.store);
                assert(PrepareStore::starts(config@, authorized.plan.store, prepare));
                after_prepare_again(authorized, prepare)
            },
            (Login::LoadingAgain { .. }, Reply::ConfigLoaded(Err(error))) => fail(
                LoginError::Config(error),
            ),
            (Login::PreparingAgain { authorized, prepare }, reply) => {
                let next = prepare.advance(reply);
                assert(prepare.leads_to(reply, next));
                after_prepare_again(authorized, next)
            },
            (Login::CheckingAgain { authorized, config }, Reply::ConfigLoaded(Ok(current))) => {
                match allowed_destination(authorized.plan.issuer.as_str(), &current) {
                    Ok((account_endpoint, basin_endpoint)) => Login::Exchanging {
                        authorized,
                        config,
                        account_endpoint,
                        basin_endpoint,
                    },
                    Err(error) => fail(error),
                }
            },
            (Login::CheckingAgain { .. }, Reply::ConfigLoaded(Err(error))) => fail(
                LoginError::Config(error),
            ),
            (
                Login::Exchanging { authorized, config, account_endpoint, basin_endpoint },
                Reply::Tokens(Ok(tokens)),
            ) => with_tokens(authorized, config, account_endpoint, basin_endpoint, tokens),
            (Login::Exchanging { .. }, Reply::Tokens(Err(error))) => fail(error),
            (Login::LoadingPrevious { new, previous }, Reply::CredentialsLoaded(loaded)) => {
                let previous_claims = match loaded {
                    Ok(tokens) => identity_payload(tokens.access_token.expose()),
                    Err(_) => None,
                };
                let next_claims = identity_payload(new.tokens.access_token.expose());
                Login::ReadingIdentities { new, previous, previous_claims, next_claims }
            },
            (
                Login::ReadingIdentities { new, previous, previous_claims, next_claims },
                Reply::Identities { previous: previous_identity, next: next_identity },
            ) => {
                let reused = oauth_grant_may_be_reused(
                    &previous,
                    keep_stated(&previous_claims, previous_identity),
                    &new.session,
                    keep_stated(&next_claims, next_identity),
                );
                start_journal(new, reused)
            },
            (Login::Journaling { new, reused }, Reply::ConfigSaved(Ok(_))) => Login::Storing {
                new,
                reused,
            },
            (Login::Journaling { new, reused }, Reply::ConfigSaved(Err(error))) => {
                if reused {
                    fail(LoginError::Config(error))
                } else {
                    Login::RevokingUnjournaled { new, error }
                }
            },
            (Login::RevokingUnjournaled { error, .. }, Reply::Revoked(Ok(_))) => fail(
                LoginError::Config(error),
            ),
            (Login::RevokingUnjournaled { error, .. }, Reply::Revoked(Err(revocation))) => fail(
                LoginError::UnjournaledGrant {
                    config: Box::new(error),
                    revocation: Box::new(revocation),
                },
            ),
            (Login::Storing { new, reused }, Reply::CredentialsSaved(Ok(_))) => {
                let NewLogin { endpoints, config, session, tokens } = new;
                let replaced = config.oauth.is_some();
                let config = complete(config, &session, reused);
                let new = NewLogin { endpoints, config, session, tokens };
                Login::Saving { new, reused, replaced }
            },
            (Login::Storing { new, reused }, Reply::CredentialsSaved(Err(error))) => {
                let rollback = cleanup_new_credential(
                    new.endpoints,
                    new.session,
                    new.tokens,
                    reused,
                );
                Login::RollingBack { cause: RollbackCause::Write(error), rollback }
            },
            (Login::Saving { new, replaced, .. }, Reply::ConfigSaved(Ok(saved_path))) => {
                let NewLogin { config, session, .. } = new;
                let cleanup = Cleanup::start(config, true);
                proof {
                    law_cleanup_starts_from_the_queues(config@, true, cleanup);
                }
                after_cleanup(LoggedIn { session, replaced, saved_path }, cleanup)
            },
            (Login::Saving { new, reused, .. }, Reply::ConfigSaved(Err(error))) => {
                let rollback = cleanup_new_credential(
                    new.endpoints,
                    new.session,
                    new.tokens,
                    reused,
                );
                Login::RollingBack { cause: RollbackCause::Config(error), rollback }
            },
            (Login::RollingBack { cause, rollback }, reply) => {
                let next = rollback.advance(reply);
                assert(rollback.leads_to(reply, next));
                after_rollback(cause, next)
            },
            (Login::Locating { cause, cleanup, .. }, Reply::CredentialLocated(recovery)) => {
                match cause {
                    RollbackCause::Write(write) => fail(
                        LoginError::CredentialWriteRollback {
                            write: Box::new(write),
                            cleanup: Box::new(cleanup),
                            recovery,
                        },
                    ),
                    RollbackCause::Config(config) => fail(
                        LoginError::LoginRollback {
                            config: Box::new(config),
                            cleanup: Box::new(cleanup),
                            recovery,
                        },
                    ),
                }
            },
            (Login::Cleaning { login, cleanup }, reply) => {
                let next = cleanup.advance(reply);
                proof {
                    law_cleanup_only_loses_queued(cleanup, reply, next);
                }
                after_cleanup(login, next)
            },
            (Login::SavingCleaned { login, config, warning }, Reply::ConfigSaved(Ok(_))) => {
                Login::Finished { result: Ok(LoginReport { login, config, warning }) }
            },
            (Login::SavingCleaned { login, config, warning }, Reply::ConfigSaved(Err(error))) => {
                let mut warning = warning;
                append_metadata_warning(&mut warning, &error);
                Login::Finished { result: Ok(LoginReport { login, config, warning }) }
            },
            (state, _) => state,
        }
    }
}

/// A new login is in the queue that it belongs to.
pub open spec fn is_journaled(config: ConfigView, session: SessionView, reused: bool) -> bool {
    if reused {
        config.pending_oauth_cleanup.contains(session.reference())
    } else {
        config.pending_oauth_revocation.contains(session)
    }
}

/// The configuration uses this login.
pub open spec fn selects(config: ConfigView, session: SessionView) -> bool {
    config.oauth == Some(session) && config.auth_method == Some(AuthMethod::BrowserLogin)
}

impl Login {
    /// Whether others are kept from changing the configuration. At the end the
    /// lock is given up.
    pub open spec fn holds_config_lock(self) -> bool {
        match self {
            Login::CheckingDestination { .. } => false,
            Login::LockingFirst { .. } => false,
            Login::Discovering { .. } => false,
            Login::Listening { .. } => false,
            Login::Awaiting { .. } => false,
            Login::LockingAgain { .. } => false,
            Login::Finished { .. } => false,
            _ => true,
        }
    }
}

/// The configuration and the credentials are touched only while others are kept
/// from changing the configuration, and nobody is kept waiting for the user.
#[verifier::rlimit(40)]
#[verifier::spinoff_prover]
pub proof fn law_login_works_under_the_lock(state: Login, reply: Reply, after: Login)
    requires
        state.wf(),
        state.leads_to(reply, after),
    ensures
        state is Awaiting ==> !state.holds_config_lock(),
        !state.holds_config_lock() && after.holds_config_lock()
            ==> reply matches Reply::ConfigLocked(Ok(_)),
        state.holds_config_lock() && !after.holds_config_lock() ==> after is Finished || (
        state.asks() matches Some(Request::UnlockConfig)),
        match state.asks() {
            Some(Request::SaveConfig(_)) => state.holds_config_lock(),
            Some(Request::LoadConfig) => state.holds_config_lock(),
            Some(Request::LoadCredentials(_)) => state.holds_config_lock(),
            Some(Request::SaveCredentials(_, _)) => state.holds_config_lock(),
            Some(Request::DeleteCredential(_)) => state.holds_config_lock(),
            _ => true,
        },
{
}

/// Tokens are asked for only where the endpoints that are configured at that time
/// may get them, and the login remembers those endpoints.
pub proof fn law_tokens_only_for_allowed_destinations(state: Login, reply: Reply, after: Login)
    requires
        state.leads_to(reply, after),
        !(state is Exchanging),
        after is Exchanging,
    ensures
        after matches Login::Exchanging { authorized, account_endpoint, basin_endpoint, .. }
            && reply matches Reply::ConfigLoaded(Ok(current)) && destination_allowed(
            authorized.plan.issuer@.text,
            current@,
        ) && (account_endpoint@, basin_endpoint@) == endpoints(current@),
{
}

/// An authorization code is exchanged in one state only.
pub proof fn law_codes_are_exchanged_once_checked(state: Login)
    requires
        state.wf(),
        state.asks() matches Some(Request::ExchangeCode { .. }),
    ensures
        state is Exchanging,
{
}

/// Tokens are stored only once the login is journaled on disk: the configuration
/// that was just written queues it.
pub proof fn law_journaled_before_stored(state: Login, reply: Reply, after: Login)
    requires
        state.wf(),
        state.leads_to(reply, after),
        !(state is Storing),
        after is Storing,
    ensures
        state matches Login::Journaling { new, reused } && state.asks() == Some(
            Request::SaveConfig(&new.config),
        ) && is_journaled(new.config@, new.session@, reused),
        reply matches Reply::ConfigSaved(Ok(_)),
{
}

/// Only a journaled login is stored.
pub proof fn law_only_journaled_tokens_are_stored(state: Login)
    requires
        state.wf(),
        state.asks() matches Some(Request::SaveCredentials(_, _)),
    ensures
        state matches Login::Storing { new, reused } && is_journaled(
            new.config@,
            new.session@,
            reused,
        ),
{
}

/// A login that succeeds is selected.
pub proof fn law_successful_login_is_selected(state: Login)
    requires
        state.wf(),
    ensures
        state matches Login::Finished { result: Ok(report) } ==> selects(
            report.config@,
            report.login.session@,
        ),
{
}

/// Completing a login selects it, takes it out of both queues, queues the login
/// that it takes the place of, and leaves the other settings alone.
pub proof fn law_completed_login_takes_over(config: ConfigView, session: SessionView, reused: bool)
    requires
        config.oauth matches Some(previous) ==> previous.credential_id != session.credential_id,
    ensures
        ({
            let after = completed(config, session, reused);
            &&& selects(after, session)
            &&& !after.pending_oauth_cleanup.contains(session.reference())
            &&& !after.pending_oauth_revocation.contains(session)
            &&& config.oauth matches Some(previous) ==> if reused {
                after.pending_oauth_cleanup.contains(previous.reference())
            } else {
                after.pending_oauth_revocation.contains(previous)
            }
            &&& after.stored_access_token == config.stored_access_token
            &&& after.access_token == config.access_token
            &&& after.account_endpoint == config.account_endpoint
            &&& after.basin_endpoint == config.basin_endpoint
            &&& after.ssl_no_verify == config.ssl_no_verify
        }),
{
    let cleanup = without(config.pending_oauth_cleanup, session.reference());
    let revocation = without(config.pending_oauth_revocation, session);
    lemma_without_lacks(config.pending_oauth_cleanup, session.reference());
    lemma_without_lacks(config.pending_oauth_revocation, session);
    if let Some(previous) = config.oauth {
        lemma_queued_contains(cleanup, previous.reference(), session.reference());
        lemma_queued_contains(revocation, previous, session);
    }
}

/// Journaling a login and completing it leaves the queues as they were, but for
/// earlier entries of the same login and the entry of the login that it takes the
/// place of.
pub proof fn law_journal_entry_is_temporary(config: ConfigView, session: SessionView, reused: bool)
    requires
        config.oauth is None,
    ensures
        ({
            let after = completed(journaled(config, session, reused), session, reused);
            &&& after.pending_oauth_cleanup == without(
                config.pending_oauth_cleanup,
                session.reference(),
            )
            &&& after.pending_oauth_revocation == without(config.pending_oauth_revocation, session)
        }),
{
    lemma_without_push(config.pending_oauth_cleanup, session.reference(), session.reference());
    lemma_without_push(config.pending_oauth_revocation, session, session);
}

/// A login never leaves the states that it is meant to be in.
#[verifier::rlimit(40)]
#[verifier::spinoff_prover]
pub proof fn law_login_stays_well_formed(state: Login, reply: Reply, after: Login)
    requires
        state.wf(),
        state.accepts(reply),
        state.leads_to(reply, after),
    ensures
        after.wf(),
{
    match (state, reply) {
        (Login::LoadingFirst { plan }, Reply::ConfigLoaded(Ok(config))) => {
            let prepare = choose|prepare: PrepareStore| #[trigger]
                PrepareStore::starts(config@, plan.store, prepare) && prepared_first(
                    plan,
                    prepare,
                    after,
                );
            law_preparation_starts_well_formed(config@, plan.store, prepare);
        },
        (Login::PreparingFirst { plan, prepare }, reply) => {
            let next = choose|next: PrepareStore| #[trigger]
                prepare.leads_to(reply, next) && prepared_first(plan, next, after);
            law_preparation_stays_well_formed(prepare, reply, next);
        },
        (Login::LoadingAgain { authorized }, Reply::ConfigLoaded(Ok(config))) => {
            let prepare = choose|prepare: PrepareStore| #[trigger]
                PrepareStore::starts(config@, authorized.plan.store, prepare) && prepared_again(
                    authorized,
                    prepare,
                    after,
                );
            law_preparation_starts_well_formed(config@, authorized.plan.store, prepare);
        },
        (Login::PreparingAgain { authorized, prepare }, reply) => {
            let next = choose|next: PrepareStore| #[trigger]
                prepare.leads_to(reply, next) && prepared_again(authorized, next, after);
            law_preparation_stays_well_formed(prepare, reply, next);
        },
        (Login::Exchanging { config, .. }, Reply::Tokens(Ok(_))) => {
            if let Login::Journaling { new, .. } = after {
                lemma_journaled(config@, new.session@, false);
            }
        },
        (Login::ReadingIdentities { new, .. }, Reply::Identities { .. }) => {
            if let Login::Journaling { reused, .. } = after {
                lemma_journaled(new.config@, new.session@, reused);
            }
        },
        (Login::Saving { new, replaced, .. }, Reply::ConfigSaved(Ok(saved_path))) => {
            let login = LoggedIn { session: new.session, replaced, saved_path };
            let cleanup = choose|cleanup: Cleanup| #[trigger]
                starts_cleanup(new.config@, true, cleanup) && cleaned_up(login, cleanup, after);
            law_cleanup_starts_well_formed(new.config@, true, cleanup);
            law_cleanup_starts_from_the_queues(new.config@, true, cleanup);
        },
        (Login::Cleaning { login, cleanup }, reply) => {
            let next = choose|next: Cleanup| #[trigger]
                cleanup.leads_to(reply, next) && cleaned_up(login, next, after);
            law_cleanup_stays_well_formed(cleanup, reply, next);
            law_cleanup_only_loses_queued(cleanup, reply, next);
        },
        _ => {},
    }
}

/// A journaled login is in its queue.
proof fn lemma_journaled(config: ConfigView, session: SessionView, reused: bool)
    ensures
        is_journaled(journaled(config, session, reused), session, reused),
{
    let after = journaled(config, session, reused);
    if reused {
        assert(after.pending_oauth_cleanup[config.pending_oauth_cleanup.len() as int]
            == session.reference());
    } else {
        assert(after.pending_oauth_revocation[config.pending_oauth_revocation.len() as int]
            == session);
    }
}

/// A login that has come from its first state by these replies.
pub open spec fn is_login_run(states: Seq<Login>, replies: Seq<Reply>) -> bool {
    &&& states.len() == replies.len() + 1
    &&& states[0] is CheckingDestination
    &&& forall|i: int| 0 <= i < replies.len() ==> #[trigger] login_step(states, replies, i)
}

/// One step of a run.
pub open spec fn login_step(states: Seq<Login>, replies: Seq<Reply>, i: int) -> bool {
    states[i].accepts(replies[i]) && states[i].leads_to(replies[i], states[i + 1])
}

/// Every state of every login is one that it is meant to be in.
pub proof fn law_every_login_is_well_formed(states: Seq<Login>, replies: Seq<Reply>, at: int)
    requires
        is_login_run(states, replies),
        0 <= at < states.len(),
    ensures
        states[at].wf(),
    decreases at,
{
    if at > 0 {
        law_every_login_is_well_formed(states, replies, at - 1);
        assert(login_step(states, replies, at - 1));
        law_login_stays_well_formed(states[at - 1], replies[at - 1], states[at]);
    }
}

/// Before a login asks for tokens, it has read a configuration whose endpoints may
/// get them, while the configuration could not be changed by others.
pub proof fn law_every_login_checks_before_exchanging(
    states: Seq<Login>,
    replies: Seq<Reply>,
    at: int,
) -> (checked: int)
    requires
        is_login_run(states, replies),
        0 <= at < states.len(),
        states[at] is Exchanging,
    ensures
        0 <= checked < at,
        states[checked].holds_config_lock(),
        states[checked] matches Login::CheckingAgain { authorized, .. } && replies[checked] matches
            Reply::ConfigLoaded(Ok(current)) && destination_allowed(
            authorized.plan.issuer@.text,
            current@,
        ),
    decreases at,
{
    assert(login_step(states, replies, at - 1));
    if states[at - 1] is Exchanging {
        law_every_login_checks_before_exchanging(states, replies, at - 1)
    } else {
        at - 1
    }
}

/// Before a login stores its tokens, it has written a configuration that queues it
/// to be taken back.
pub proof fn law_every_login_journals_before_storing(
    states: Seq<Login>,
    replies: Seq<Reply>,
    at: int,
) -> (journaled_at: int)
    requires
        is_login_run(states, replies),
        0 <= at < states.len(),
        states[at] is Storing,
    ensures
        0 <= journaled_at < at,
        replies[journaled_at] matches Reply::ConfigSaved(Ok(_)),
        states[journaled_at] matches Login::Journaling { new, reused }
            && states[journaled_at].asks() == Some(Request::SaveConfig(&new.config))
            && is_journaled(new.config@, new.session@, reused) && states[at] == (Login::Storing {
            new,
            reused,
        }),
    decreases at,
{
    assert(login_step(states, replies, at - 1));
    law_every_login_is_well_formed(states, replies, at - 1);
    if states[at - 1] is Storing {
        law_every_login_journals_before_storing(states, replies, at - 1)
    } else {
        at - 1
    }
}

impl Login {
    /// Whether other processes are kept from using a credential.
    pub open spec fn holds_refresh_lock(self) -> bool {
        match self {
            Login::PreparingFirst { prepare, .. } => prepare.holds_refresh_lock(),
            Login::PreparingAgain { prepare, .. } => prepare.holds_refresh_lock(),
            Login::Cleaning { cleanup, .. } => cleanup.holds_refresh_lock(),
            _ => false,
        }
    }
}

/// A login takes its locks in the order in which every other flow takes them: that
/// of the configuration first, that of a credential after it, and neither twice.
#[verifier::rlimit(40)]
#[verifier::spinoff_prover]
pub proof fn law_login_locks_in_order(state: Login, reply: Reply, after: Login)
    requires
        state.wf(),
        state.leads_to(reply, after),
    ensures
        match state.asks() {
            Some(Request::LockConfig) => !state.holds_config_lock() && !state.holds_refresh_lock(),
            Some(Request::LockRefresh(_)) => state.holds_config_lock()
                && !state.holds_refresh_lock(),
            _ => true,
        },
        state.holds_refresh_lock() ==> state.holds_config_lock(),
        !state.holds_refresh_lock() && after.holds_refresh_lock()
            ==> reply matches Reply::RefreshLocked(Ok(_)),
        state.holds_refresh_lock() && !after.holds_refresh_lock() ==> reply is Released,
{
}

/// The configuration names the credential of a login: it uses the login, or one of
/// the queues holds the login or its credential.
pub open spec fn names_credential(config: ConfigView, session: SessionView) -> bool {
    ||| config.oauth == Some(session)
    ||| config.pending_oauth_revocation.contains(session)
    ||| config.pending_oauth_cleanup.contains(session.reference())
}

/// The configuration that a run has written last, if it has written one.
pub open spec fn on_file(states: Seq<Login>, replies: Seq<Reply>, at: int) -> Option<ConfigView>
    decreases at,
{
    if at <= 0 {
        None
    } else {
        after_writing(on_file(states, replies, at - 1), states[at - 1], replies[at - 1])
    }
}

/// The configuration on file once a state has got its reply.
pub open spec fn after_writing(
    before: Option<ConfigView>,
    state: Login,
    reply: Reply,
) -> Option<ConfigView> {
    match (state.asks(), reply) {
        (Some(Request::SaveConfig(config)), Reply::ConfigSaved(Ok(_))) => Some(config@),
        _ => before,
    }
}

/// A state once the tokens are about to be stored, with what is on file.
pub open spec fn is_recorded(
    state: Login,
    session: SessionView,
    file: Option<ConfigView>,
) -> bool {
    &&& file matches Some(config) && names_credential(config, session)
    &&& match state {
        Login::Storing { new, .. } => new.session@ == session,
        Login::Saving { new, .. } => new.session@ == session,
        Login::RollingBack { .. } => true,
        Login::Locating { .. } => true,
        Login::Cleaning { login, .. } => login.session@ == session,
        Login::SavingCleaned { login, .. } => login.session@ == session,
        Login::Finished { .. } => true,
        _ => false,
    }
}

/// No step takes the credential off the file.
#[verifier::rlimit(40)]
#[verifier::spinoff_prover]
proof fn lemma_stays_recorded(
    state: Login,
    reply: Reply,
    after: Login,
    session: SessionView,
    file: Option<ConfigView>,
)
    requires
        state.wf(),
        state.leads_to(reply, after),
        is_recorded(state, session, file),
    ensures
        is_recorded(after, session, after_writing(file, state, reply)),
{
}

/// The tokens are about to be stored, and the configuration on file queues them.
proof fn lemma_recorded_when_storing(states: Seq<Login>, replies: Seq<Reply>, at: int)
    requires
        is_login_run(states, replies),
        0 <= at < states.len(),
        states[at] is Storing,
    ensures
        states[at] matches Login::Storing { new, .. } && is_recorded(
            states[at],
            new.session@,
            on_file(states, replies, at),
        ),
    decreases at,
{
    assert(login_step(states, replies, at - 1));
    law_every_login_is_well_formed(states, replies, at - 1);
    if states[at - 1] is Storing {
        lemma_recorded_when_storing(states, replies, at - 1);
    }
}

/// From the moment a login is about to store its tokens, the configuration on file
/// names their credential, however the login goes on: as the login in use, or in one
/// of the queues. A login that breaks off anywhere leaves behind what it takes to
/// clean up after it.
pub proof fn law_every_stored_credential_is_on_file(
    states: Seq<Login>,
    replies: Seq<Reply>,
    stored: int,
    at: int,
)
    requires
        is_login_run(states, replies),
        0 <= stored <= at < states.len(),
        states[stored] is Storing,
    ensures
        states[stored] matches Login::Storing { new, .. } && is_recorded(
            states[at],
            new.session@,
            on_file(states, replies, at),
        ),
        states[stored] matches Login::Storing { new, .. } && (on_file(
            states,
            replies,
            at,
        ) matches Some(config) && names_credential(config, new.session@)),
    decreases at,
{
    if at == stored {
        lemma_recorded_when_storing(states, replies, at);
    } else {
        law_every_stored_credential_is_on_file(states, replies, stored, at - 1);
        assert(login_step(states, replies, at - 1));
        law_every_login_is_well_formed(states, replies, at - 1);
        if let Login::Storing { new, .. } = states[stored] {
            lemma_stays_recorded(
                states[at - 1],
                replies[at - 1],
                states[at],
                new.session@,
                on_file(states, replies, at - 1),
            );
        }
    }
}

/// The plan of a login, as long as it is at hand.
pub open spec fn plan_in(state: Login) -> Option<LoginPlan> {
    match state {
        Login::CheckingDestination { plan } => Some(plan),
        Login::LockingFirst { plan } => Some(plan),
        Login::LoadingFirst { plan } => Some(plan),
        Login::PreparingFirst { plan, .. } => Some(plan),
        Login::Unlocking { plan } => Some(plan),
        Login::Discovering { plan, .. } => Some(plan),
        Login::Listening { plan, .. } => Some(plan),
        Login::Awaiting { plan, .. } => Some(plan),
        Login::LockingAgain { authorized } => Some(authorized.plan),
        Login::LoadingAgain { authorized } => Some(authorized.plan),
        Login::PreparingAgain { authorized, .. } => Some(authorized.plan),
        Login::CheckingAgain { authorized, .. } => Some(authorized.plan),
        Login::Exchanging { authorized, .. } => Some(authorized.plan),
        _ => None,
    }
}

/// A login keeps to its plan.
#[verifier::rlimit(40)]
#[verifier::spinoff_prover]
proof fn lemma_plan_stays(states: Seq<Login>, replies: Seq<Reply>, at: int)
    requires
        is_login_run(states, replies),
        0 <= at < states.len(),
        plan_in(states[at]) is Some,
    ensures
        plan_in(states[at]) == plan_in(states[0]),
    decreases at,
{
    if at > 0 {
        assert(login_step(states, replies, at - 1));
        assert(plan_in(states[at - 1]) == plan_in(states[at]));
        lemma_plan_stays(states, replies, at - 1);
    }
}

/// Where the endpoints that a login uses were found.
proof fn lemma_endpoints_found(states: Seq<Login>, replies: Seq<Reply>, at: int) -> (found: int)
    requires
        is_login_run(states, replies),
        0 <= at < states.len(),
        states[at] is Listening || states[at] is Awaiting,
    ensures
        0 <= found < at,
        states[found] is Discovering,
        replies[found] matches Reply::Discovered(Ok(answer)) && match states[at] {
            Login::Listening { endpoints, .. } => answer == endpoints,
            Login::Awaiting { endpoints, .. } => answer == endpoints,
            _ => false,
        },
    decreases at,
{
    assert(login_step(states, replies, at - 1));
    if states[at - 1] is Listening || states[at - 1] is Awaiting {
        lemma_endpoints_found(states, replies, at - 1)
    } else {
        at - 1
    }
}

/// The page that a login shows.
proof fn lemma_page_shown(states: Seq<Login>, replies: Seq<Reply>, at: int)
    requires
        is_login_run(states, replies),
        0 <= at < states.len(),
        states[at] is Awaiting,
    ensures
        states[at] matches Login::Awaiting { plan, endpoints, callback_url, page, .. }
            && url_with_params(
            endpoints@.authorization.source,
            authorization_params(
                plan.client_id@,
                callback_url@,
                plan.state@,
                plan.pkce.challenge@,
            ),
        ) == Ok::<Seq<char>, Seq<char>>(page@),
    decreases at,
{
    assert(login_step(states, replies, at - 1));
    if states[at - 1] is Awaiting {
        lemma_page_shown(states, replies, at - 1);
    }
}

/// What the user has authorized.
pub open spec fn authorized_in(state: Login) -> Option<Authorized> {
    match state {
        Login::LockingAgain { authorized } => Some(authorized),
        Login::LoadingAgain { authorized } => Some(authorized),
        Login::PreparingAgain { authorized, .. } => Some(authorized),
        Login::CheckingAgain { authorized, .. } => Some(authorized),
        Login::Exchanging { authorized, .. } => Some(authorized),
        _ => None,
    }
}

/// Where the user authorized a login.
#[verifier::rlimit(40)]
#[verifier::spinoff_prover]
proof fn lemma_authorized(states: Seq<Login>, replies: Seq<Reply>, at: int) -> (shown: int)
    requires
        is_login_run(states, replies),
        0 <= at < states.len(),
        authorized_in(states[at]) is Some,
    ensures
        0 <= shown < at,
        authorized_in(states[at]) matches Some(authorized) && (
        states[shown] matches Login::Awaiting { endpoints, callback_url, .. } && endpoints
            == authorized.endpoints && callback_url == authorized.callback_url) && (
        replies[shown] matches Reply::CallbackEnded {
            server: Ok(_),
            wait: CallbackWait::Received(Ok(code)),
        } && code == authorized.code),
    decreases at,
{
    assert(login_step(states, replies, at - 1));
    if authorized_in(states[at - 1]) is Some {
        assert(authorized_in(states[at - 1]) == authorized_in(states[at]));
        lemma_authorized(states, replies, at - 1)
    } else {
        at - 1
    }
}

/// When a login exchanges its code, it shows the verifier whose SHA-256 challenge stood
/// in the query of the page that it showed before; the client and the address that the
/// code was sent to are those of that page, the code is the one that came back while it
/// was shown, the page was at the endpoint that was found for the issuer of the plan,
/// and nothing else stood in its query. `steps` says when the endpoints were found and
/// the page was shown.
pub proof fn law_every_exchange_answers_its_page(
    states: Seq<Login>,
    replies: Seq<Reply>,
    at: int,
) -> (steps: (int, int))
    requires
        is_login_run(states, replies),
        0 <= at < states.len(),
        states[0] matches Login::CheckingDestination { plan } && plan.pkce.challenge@ == base64url(
            sha256(encode_utf8(plan.pkce.verifier@)),
        ),
        states[at].asks() matches Some(Request::ExchangeCode { .. }),
    ensures
        0 <= steps.0 < steps.1 < at,
        states[0] matches Login::CheckingDestination { plan } && (states[at].asks() matches Some(
            Request::ExchangeCode { endpoints, client_id, callback_url, code, code_verifier },
        ) && {
            &&& states[steps.0].asks() matches Some(Request::Discover(issuer)) && issuer@
                == plan.issuer@
            &&& replies[steps.0] matches Reply::Discovered(Ok(found)) && found == *endpoints
            &&& states[steps.1].asks() matches Some(Request::AwaitCallback { page, state, .. })
                && state@ == plan.state@ && url_with_params(
                endpoints@.authorization.source,
                seq![
                    ("response_type"@, "code"@),
                    ("client_id"@, client_id@),
                    ("redirect_uri"@, callback_url@),
                    ("scope"@, "offline_access user:org:read"@),
                    ("state"@, state@),
                    ("code_challenge"@, base64url(sha256(encode_utf8(code_verifier@)))),
                    ("code_challenge_method"@, "S256"@),
                ],
            ) == Ok::<Seq<char>, Seq<char>>(page@)
            &&& replies[steps.1] matches Reply::CallbackEnded {
                server: Ok(_),
                wait: CallbackWait::Received(Ok(sent)),
            } && sent@ == code@
            &&& code_verifier@ == plan.pkce.verifier@
            &&& client_id@ == plan.client_id@
        }),
{
    law_every_login_is_well_formed(states, replies, at);
    law_codes_are_exchanged_once_checked(states[at]);
    let shown = lemma_authorized(states, replies, at);
    let found = lemma_endpoints_found(states, replies, shown);
    lemma_page_shown(states, replies, shown);
    lemma_plan_stays(states, replies, at);
    lemma_plan_stays(states, replies, shown);
    lemma_plan_stays(states, replies, found);
    (found, shown)
}

/// A login that has its tokens.
pub open spec fn new_in(state: Login) -> Option<NewLogin> {
    match state {
        Login::LoadingPrevious { new, .. } => Some(new),
        Login::ReadingIdentities { new, .. } => Some(new),
        Login::Journaling { new, .. } => Some(new),
        Login::RevokingUnjournaled { new, .. } => Some(new),
        Login::Storing { new, .. } => Some(new),
        Login::Saving { new, .. } => Some(new),
        _ => None,
    }
}

/// Where a login got its tokens.
proof fn lemma_granted(states: Seq<Login>, replies: Seq<Reply>, at: int) -> (granted_at: int)
    requires
        is_login_run(states, replies),
        0 <= at < states.len(),
        new_in(states[at]) is Some,
    ensures
        0 <= granted_at < at,
        new_in(states[at]) matches Some(new) && (states[granted_at] matches Login::Exchanging {
            authorized,
            account_endpoint,
            basin_endpoint,
            ..
        } && (replies[granted_at] matches Reply::Tokens(Ok(tokens)) && tokens == new.tokens
            && new.endpoints == authorized.endpoints && new.session@ == (SessionView {
            issuer: authorized.endpoints@.issuer.text,
            client_id: authorized.plan.client_id@,
            account_endpoint: account_endpoint@,
            basin_endpoint: basin_endpoint@,
            credential_id: authorized.plan.credential_id@,
            credential_store: authorized.plan.store,
        }))),
    decreases at,
{
    assert(login_step(states, replies, at - 1));
    if new_in(states[at - 1]) is Some {
        lemma_granted(states, replies, at - 1)
    } else {
        at - 1
    }
}

/// Where the endpoints of S2 of a login were read.
proof fn lemma_destination_read(states: Seq<Login>, replies: Seq<Reply>, at: int) -> (read: int)
    requires
        is_login_run(states, replies),
        0 <= at < states.len(),
        states[at] is Exchanging,
    ensures
        0 <= read < at,
        states[read] is CheckingAgain,
        states[at] matches Login::Exchanging { account_endpoint, basin_endpoint, .. } && (
        replies[read] matches Reply::ConfigLoaded(Ok(current)) && account_endpoint@ == endpoints(
            current@,
        ).0 && basin_endpoint@ == endpoints(current@).1),
    decreases at,
{
    assert(login_step(states, replies, at - 1));
    if states[at - 1] is Exchanging {
        lemma_destination_read(states, replies, at - 1)
    } else {
        at - 1
    }
}

/// The tokens that are stored are those that came for the code; the login that they are
/// stored for is of the client that exchanged it, of the issuer that was found, of the
/// endpoints that were configured at that time, each in its place, and has the store and
/// the identifier of the plan. `steps` says when the endpoints were read and the tokens
/// came.
pub proof fn law_every_stored_login_is_the_one_granted(
    states: Seq<Login>,
    replies: Seq<Reply>,
    at: int,
) -> (steps: (int, int))
    requires
        is_login_run(states, replies),
        0 <= at < states.len(),
        states[at].asks() matches Some(Request::SaveCredentials(_, _)),
    ensures
        0 <= steps.0 < steps.1 < at,
        states[0] matches Login::CheckingDestination { plan } && (states[at].asks() matches Some(
            Request::SaveCredentials(session, tokens),
        ) && {
            &&& replies[steps.0] matches Reply::ConfigLoaded(Ok(current))
                && session@.account_endpoint == endpoints(current@).0 && session@.basin_endpoint
                == endpoints(current@).1
            &&& states[steps.1].asks() matches Some(
                Request::ExchangeCode { endpoints: found, client_id, .. },
            ) && session@.issuer == found@.issuer.text && session@.client_id == client_id@
            &&& replies[steps.1] matches Reply::Tokens(Ok(came)) && came == *tokens
            &&& session@.credential_id == plan.credential_id@
            &&& session@.credential_store == plan.store
        }),
{
    law_every_login_is_well_formed(states, replies, at);
    law_only_journaled_tokens_are_stored(states[at]);
    let came = lemma_granted(states, replies, at);
    let read = lemma_destination_read(states, replies, came);
    lemma_plan_stays(states, replies, came);
    (read, came)
}

/// A grant that a login takes back itself is its own: it is revoked in the name of the
/// login's client, with the refresh token and at the endpoints that it got; and the
/// credential that it deletes or tells of is its own.
pub proof fn law_logins_take_back_their_own(state: Login, reply: Reply, after: Login)
    requires
        state.wf(),
        state.leads_to(reply, after),
    ensures
        state matches Login::RevokingUnjournaled { new, .. } ==> (state.asks() matches Some(
            Request::RevokeToken { endpoints, client_id, refresh_token },
        ) && *endpoints == new.endpoints && client_id@ == new.session@.client_id && refresh_token@
            == new.tokens@.refresh_token),
        new_in(state) matches Some(new) ==> (after matches Login::RollingBack { rollback, .. } ==> (
        after.asks() matches Some(request) && match request {
            Request::RevokeToken { endpoints, client_id, refresh_token } => *endpoints
                == new.endpoints && client_id@ == new.session@.client_id && refresh_token@
                == new.tokens@.refresh_token,
            Request::DeleteCredential(reference) => reference@.credential_id
                == new.session@.credential_id && reference@.credential_store
                == new.session@.credential_store,
            _ => false,
        })),
        state matches Login::RollingBack { rollback, .. } ==> (
        after matches Login::Locating { reference, .. } ==> exists|next: Rollback|
            #![trigger rollback.leads_to(reply, next)]
            rollback.leads_to(reply, next) && (next matches Rollback::Finished {
                reference: own,
                result: Err(_),
            } && own == reference)),
        state matches Login::Locating { reference, .. } ==> (state.asks() matches Some(
            Request::LocateCredential(asked),
        ) && asked@ == reference@),
{
}

/// The login that is there already is the one that the configuration uses: its tokens
/// are read, and the claims that are compared are those of its access token and of the
/// new one, each in its place.
pub proof fn law_previous_login_is_compared(state: Login, reply: Reply, after: Login)
    requires
        state.wf(),
        state.leads_to(reply, after),
    ensures
        state matches Login::LoadingPrevious { new, .. } ==> (new.config@.oauth matches Some(login)
            && (state.asks() matches Some(Request::LoadCredentials(asked)) && asked@ == login)),
        state matches Login::LoadingPrevious { new, .. } ==> (
        reply matches Reply::CredentialsLoaded(loaded) ==> (after.asks() matches Some(
            Request::ReadIdentities { previous, next },
        ) && {
            &&& loaded matches Ok(tokens) ==> bytes_view(*previous) == claims_of(
                tokens@.access_token,
            )
            &&& loaded is Err ==> *previous is None
            &&& bytes_view(*next) == claims_of(new.tokens@.access_token)
        })),
{
}

/// A new login is journaled for deletion alone exactly if it may share the grant of the
/// login that is there: of the same client and issuer, and not known to be of another
/// subject or organization; it is journaled for revocation otherwise, and where there
/// is no login. Either way it is put at the end of that queue, and nothing else changes.
pub proof fn law_new_logins_are_journaled_by_their_grant(
    state: Login,
    reply: Reply,
    after: Login,
)
    requires
        state.wf(),
        state.leads_to(reply, after),
        !(state is Journaling),
        after is Journaling,
    ensures
        after.asks() matches Some(Request::SaveConfig(written)) && match (state, reply) {
            (Login::Exchanging { config, .. }, Reply::Tokens(Ok(_))) => {
                &&& config@.oauth is None
                &&& new_in(after) matches Some(new) && written@ == (ConfigView {
                    pending_oauth_revocation: config@.pending_oauth_revocation + seq![new.session@],
                    ..config@
                })
            },
            (
                Login::ReadingIdentities { new, previous, previous_claims, next_claims },
                Reply::Identities { previous: left, next: right },
            ) => {
                let same_issuer = match (
                    url_of(previous@.issuer),
                    url_of(new.session@.issuer),
                ) {
                    (Ok(left), Ok(right)) => left.text == right.text,
                    _ => previous@.issuer == new.session@.issuer,
                };
                let apart = previous_claims is Some && next_claims is Some && (
                left matches Some(left) && right matches Some(right) && left@.sub.len() > 0
                    && left@.org_id.len() > 0 && right@.sub.len() > 0 && right@.org_id.len() > 0 && (
                left@.sub != right@.sub || left@.org_id != right@.org_id));
                let share = previous@.client_id == new.session@.client_id && same_issuer && !apart;
                &&& new.config@.oauth == Some(previous@)
                &&& share ==> written@ == (ConfigView {
                    pending_oauth_cleanup: new.config@.pending_oauth_cleanup + seq![
                        crate::config::ReferenceView {
                            credential_id: new.session@.credential_id,
                            credential_store: new.session@.credential_store,
                        },
                    ],
                    ..new.config@
                })
                &&& !share ==> written@ == (ConfigView {
                    pending_oauth_revocation: new.config@.pending_oauth_revocation + seq![
                        new.session@,
                    ],
                    ..new.config@
                })
            },
            _ => false,
        },
{
    match (state, reply) {
        (Login::Exchanging { config, .. }, Reply::Tokens(Ok(_))) => {
            if let Some(new) = new_in(after) {
                assert(config@.pending_oauth_revocation.push(new.session@)
                    =~= config@.pending_oauth_revocation + seq![new.session@]);
            }
        },
        (
            Login::ReadingIdentities { new, previous, previous_claims, next_claims },
            Reply::Identities { previous: left, next: right },
        ) => {
            let stated = |claims: Option<Vec<u8>>, read: Option<OAuthIdentity>|
                if claims is Some {
                    identity_view(read)
                } else {
                    None
                };
            crate::identity::law_grants_are_shared_unless_known_apart(
                previous@,
                stated(previous_claims, left),
                new.session@,
                stated(next_claims, right),
            );
            assert(new.config@.pending_oauth_revocation.push(new.session@)
                =~= new.config@.pending_oauth_revocation + seq![new.session@]);
            assert(new.config@.pending_oauth_cleanup.push(new.session@.reference())
                =~= new.config@.pending_oauth_cleanup + seq![new.session@.reference()]);
        },
        _ => {},
    }
}

/// Once the tokens are stored, a configuration is written that uses the new login, has
/// taken it out of both queues, and queues the login that was in use; the report says
/// whether there was one, and where the configuration was written.
pub proof fn law_stored_logins_are_selected(state: Login, reply: Reply, after: Login)
    requires
        state.wf(),
        state.leads_to(reply, after),
    ensures
        state matches Login::Storing { new, reused } ==> (
        reply matches Reply::CredentialsSaved(Ok(_)) ==> (after matches Login::Saving {
            replaced,
            ..
        } && (replaced <==> new.config@.oauth is Some) && (after.asks() matches Some(
            Request::SaveConfig(written),
        ) && {
            &&& written@.oauth == Some(new.session@)
            &&& written@.auth_method == Some(AuthMethod::BrowserLogin)
            &&& new.config@.oauth matches Some(previous) ==> if reused {
                written@.pending_oauth_cleanup.contains(
                    crate::config::ReferenceView {
                        credential_id: previous.credential_id,
                        credential_store: previous.credential_store,
                    },
                )
            } else {
                written@.pending_oauth_revocation.contains(previous)
            }
            &&& forall|s: SessionView| #[trigger]
                new.config@.pending_oauth_revocation.contains(s) && s != new.session@
                    ==> written@.pending_oauth_revocation.contains(s)
            &&& forall|r: crate::config::ReferenceView| #[trigger]
                new.config@.pending_oauth_cleanup.contains(r) && r != new.session@.reference()
                    ==> written@.pending_oauth_cleanup.contains(r)
            &&& written@.stored_access_token == new.config@.stored_access_token
            &&& written@.access_token == new.config@.access_token
            &&& written@.account_endpoint == new.config@.account_endpoint
            &&& written@.basin_endpoint == new.config@.basin_endpoint
            &&& written@.ssl_no_verify == new.config@.ssl_no_verify
        }))),
        state matches Login::Saving { new, replaced, .. } ==> (
        reply matches Reply::ConfigSaved(Ok(path)) ==> match after {
            Login::Cleaning { login, .. } => login.session@ == new.session@ && login.replaced
                == replaced && login.saved_path@ == path@,
            Login::SavingCleaned { login, .. } => login.session@ == new.session@ && login.replaced
                == replaced && login.saved_path@ == path@,
            Login::Finished { result: Ok(report) } => report.login.session@ == new.session@
                && report.login.replaced == replaced && report.login.saved_path@ == path@,
            _ => false,
        }),
{
    if let Login::Storing { new, reused } = state {
        let cleanup = without(new.config@.pending_oauth_cleanup, new.session@.reference());
        let revocation = without(new.config@.pending_oauth_revocation, new.session@);
        assert forall|s: SessionView| #[trigger]
            new.config@.pending_oauth_revocation.contains(s) && s
                != new.session@ implies revocation.contains(s) && (
        new.config@.oauth matches Some(previous) ==> queued(revocation, previous).contains(s)) by {
            law_others_stay_in_the_list(new.config@.pending_oauth_revocation, new.session@, s);
            if let Some(previous) = new.config@.oauth {
                lemma_queued_contains(revocation, previous, s);
            }
        }
        assert forall|r: crate::config::ReferenceView| #[trigger]
            new.config@.pending_oauth_cleanup.contains(r) && r
                != new.session@.reference() implies cleanup.contains(r) && (
        new.config@.oauth matches Some(previous) ==> queued(
            cleanup,
            previous.reference(),
        ).contains(r)) by {
            law_others_stay_in_the_list(
                new.config@.pending_oauth_cleanup,
                new.session@.reference(),
                r,
            );
            if let Some(previous) = new.config@.oauth {
                lemma_queued_contains(cleanup, previous.reference(), r);
            }
        }
        if let Some(previous) = new.config@.oauth {
            lemma_queued_contains(cleanup, previous.reference(), previous.reference());
            lemma_queued_contains(revocation, previous, previous);
        }
    }
}

/// A plan is what was asked for: the issuer and the client of the user, else of the
/// environment, else of S2, and a file for the tokens only where the user asked for it.
pub proof fn law_plans_follow_the_request(
    args: LoginArgs,
    environment: LoginEnvironment,
    issuer: UrlView,
    plan: LoginPlan,
)
    requires
        planned(args, environment, issuer, plan),
    ensures
        plan.issuer@ == issuer,
        args.insecure_storage ==> plan.store == CredentialStore::File,
        !args.insecure_storage ==> plan.store == CredentialStore::Keyring,
        args.client_id matches Some(name) ==> (!crate::text::blank(name@) ==> plan.client_id@
            == name@),
        (args.client_id matches Some(name) ==> crate::text::blank(name@)) ==> (
        environment.client_id matches Some(name) ==> (!crate::text::blank(name@)
            ==> plan.client_id@ == name@)),
        (args.client_id matches Some(name) ==> crate::text::blank(name@)) && (
        environment.client_id matches Some(name) ==> crate::text::blank(name@)) ==> plan.client_id@
            == "9zTKDS3tHSmaWl33"@,
        args.issuer matches Some(text) ==> requested_issuer(args, environment) == text@,
        args.issuer is None ==> (environment.issuer matches Some(text) ==> requested_issuer(
            args,
            environment,
        ) == text@),
        args.issuer is None && environment.issuer is None ==> requested_issuer(args, environment)
            == "https://clerk.s2.dev"@,
        plan.completion matches Some(text) ==> (!crate::text::blank(text@) ==> planned_completion(
            plan,
        ) == completion_of(text@)),
        (plan.completion matches Some(text) ==> crate::text::blank(text@)) ==> planned_completion(
            plan,
        ) == completion_of("https://s2.dev/cli/login"@),
        opt_view(plan.completion) == opt_view(environment.completion_url),
{
}

/// The address that the browser comes back to is on this machine, at the socket that is
/// listened on: two sockets have two addresses.
pub proof fn law_callback_address_names_the_socket(socket: u16, other: u16)
    ensures
        ({
            let address = callback_address(socket);
            &&& address.len() > 26
            &&& address.take(17) == "http://127.0.0.1:"@
            &&& address.skip(address.len() - 9) == "/callback"@
            &&& crate::text::value_of(address.subrange(17, address.len() - 9)) == socket
        }),
        callback_address(socket) == callback_address(other) ==> socket == other,
{
    reveal_strlit("http://127.0.0.1:");
    reveal_strlit("/callback");
    let address = callback_address(socket);
    let their_address = callback_address(other);
    crate::text::law_decimal_is_read_back(socket as nat);
    crate::text::law_decimal_is_read_back(other as nat);
    assert(address.take(17) =~= "http://127.0.0.1:"@);
    assert(address.skip(address.len() - 9) =~= "/callback"@);
    assert(address.subrange(17, address.len() - 9) =~= decimal(socket as nat));
    assert(their_address.subrange(17, their_address.len() - 9) =~= decimal(other as nat));
}

/// What goes wrong on the way is what the login ends with.
pub proof fn law_login_ends_with_its_error(
    state: Login,
    error: LoginError,
    broken: CliConfigError,
    reason: String,
    after: Login,
)
    ensures
        (state is CheckingDestination || state is LoadingFirst || state is LoadingAgain
            || state is CheckingAgain) && state.leads_to(Reply::ConfigLoaded(Err(broken)), after)
            ==> after == (Login::Finished { result: Err(LoginError::Config(broken)) }),
        (state is LockingFirst || state is LockingAgain) && state.leads_to(
            Reply::ConfigLocked(Err(broken)),
            after,
        ) ==> after == (Login::Finished { result: Err(LoginError::Config(broken)) }),
        state is Discovering && state.leads_to(Reply::Discovered(Err(error)), after) ==> after == (
        Login::Finished { result: Err(error) }),
        state is Listening && state.leads_to(Reply::Listening(Err(error)), after) ==> after == (
        Login::Finished { result: Err(error) }),
        state is Exchanging && state.leads_to(Reply::Tokens(Err(error)), after) ==> after == (
        Login::Finished { result: Err(error) }),
        state is Awaiting && state.leads_to(
            Reply::CallbackEnded { server: Ok(()), wait: CallbackWait::Received(Err(reason)) },
            after,
        ) ==> after == (Login::Finished {
            result: Err(LoginError::AuthorizationRejected(reason)),
        }),
        state is Awaiting && state.leads_to(
            Reply::CallbackEnded { server: Ok(()), wait: CallbackWait::TimedOut },
            after,
        ) ==> after == (Login::Finished { result: Err(LoginError::TimedOut) }),
        state is Awaiting && state.leads_to(
            Reply::CallbackEnded { server: Ok(()), wait: CallbackWait::Closed },
            after,
        ) ==> after == (Login::Finished { result: Err(LoginError::CallbackClosed) }),
{
}

/// What the user waits for is shown as it was made: the browser's request is told from
/// others by the state of the plan, and is sent on to the site that was settled.
pub proof fn law_waiting_logins_know_their_request(state: Login)
    ensures
        state matches Login::Awaiting { plan, completion_url, page, .. } ==> (
        state.asks() matches Some(Request::AwaitCallback { page: shown, state: told, completion_url: site })
            && shown@ == page@ && told@ == plan.state@ && *site == completion_url),
        state matches Login::Discovering { plan, .. } ==> (state.asks() matches Some(
            Request::Discover(issuer),
        ) && issuer@ == plan.issuer@),
{
}

/// Room is made in the store of the plan, before the user is asked and before the code
/// is exchanged: then nothing is queued in that store.
pub proof fn law_every_login_makes_room_in_its_store(
    states: Seq<Login>,
    replies: Seq<Reply>,
    at: int,
)
    requires
        is_login_run(states, replies),
        0 <= at < states.len(),
    ensures
        states[at] matches Login::PreparingFirst { plan, prepare } ==> prepare.store() == Some(
            plan.store,
        ),
        states[at] matches Login::PreparingAgain { authorized, prepare } ==> prepare.store()
            == Some(authorized.plan.store),
        states[at] matches Login::CheckingAgain { authorized, config } ==> !pending_in_store(
            config@,
            authorized.plan.store,
        ),
        states[at] matches Login::Exchanging { authorized, config, .. } ==> !pending_in_store(
            config@,
            authorized.plan.store,
        ),
    decreases at,
{
    if at > 0 {
        law_every_login_makes_room_in_its_store(states, replies, at - 1);
        assert(login_step(states, replies, at - 1));
        let state = states[at - 1];
        let reply = replies[at - 1];
        let after = states[at];
        match (state, reply) {
            (Login::LoadingFirst { plan }, Reply::ConfigLoaded(Ok(config))) => {
                let prepare = choose|prepare: PrepareStore| #[trigger]
                    PrepareStore::starts(config@, plan.store, prepare) && prepared_first(
                        plan,
                        prepare,
                        after,
                    );
                law_room_starts_in_its_store(config@, plan.store, prepare);
            },
            (Login::PreparingFirst { plan, prepare }, reply) => {
                let next = choose|next: PrepareStore| #[trigger]
                    prepare.leads_to(reply, next) && prepared_first(plan, next, after);
                law_room_is_made_in_one_store(prepare, reply, next, plan.store);
            },
            (Login::LoadingAgain { authorized }, Reply::ConfigLoaded(Ok(config))) => {
                let prepare = choose|prepare: PrepareStore| #[trigger]
                    PrepareStore::starts(config@, authorized.plan.store, prepare) && prepared_again(
                        authorized,
                        prepare,
                        after,
                    );
                law_room_starts_in_its_store(config@, authorized.plan.store, prepare);
            },
            (Login::PreparingAgain { authorized, prepare }, reply) => {
                let next = choose|next: PrepareStore| #[trigger]
                    prepare.leads_to(reply, next) && prepared_again(authorized, next, after);
                law_room_is_made_in_one_store(prepare, reply, next, authorized.plan.store);
            },
            _ => {},
        }
    }
}

/// Once the configuration that selects the login is written, the cleanup works on it,
/// with revocations: it starts with the first queued login. What the cleanup changed is
/// written, and a failure to write it is put at the end of the warning and does not
/// undo the login.
pub proof fn law_login_ends_with_the_cleanup(
    state: Login,
    path: String,
    unwritable: CliConfigError,
    after: Login,
)
    requires
        state.wf(),
    ensures
        state matches Login::Saving { new, .. } ==> (state.leads_to(
            Reply::ConfigSaved(Ok(path)),
            after,
        ) && new.config@.pending_oauth_revocation.len() > 0 && new.config@.oauth != Some(
            new.config@.pending_oauth_revocation[0],
        ) ==> (after.asks() matches Some(Request::LockRefresh(id)) && id@
            == new.config@.pending_oauth_revocation[0].credential_id)),
        state matches Login::SavingCleaned { login, config, warning } ==> (state.leads_to(
            Reply::ConfigSaved(Err(unwritable)),
            after,
        ) ==> (after matches Login::Finished { result: Ok(report) } && report.login == login
            && report.config == config && opt_view(report.warning) == Some(
            (if warning is Some {
                warning->0@ + "; "@
            } else {
                Seq::<char>::empty()
            }) + ("could not update OAuth credential cleanup metadata: "@ + unwritable.message@),
        ))),
        state matches Login::SavingCleaned { login, config, warning } ==> (state.leads_to(
            Reply::ConfigSaved(Ok(path)),
            after,
        ) ==> after == (Login::Finished { result: Ok(LoginReport { login, config, warning }) })),
        state matches Login::SavingCleaned { config, .. } ==> state.asks() == Some(
            Request::SaveConfig(&config),
        ),
{
    if let Login::Saving { new, replaced, .. } = state {
        if state.leads_to(Reply::ConfigSaved(Ok(path)), after)
            && new.config@.pending_oauth_revocation.len() > 0 && new.config@.oauth != Some(
            new.config@.pending_oauth_revocation[0],
        ) {
            let login = LoggedIn { session: new.session, replaced, saved_path: path };
            let cleanup = choose|cleanup: Cleanup| #[trigger]
                starts_cleanup(new.config@, true, cleanup) && cleaned_up(login, cleanup, after);
            law_cleanup_starts_with_the_first_item(new.config@, cleanup, 0);
        }
    }
    if let Login::SavingCleaned { warning, .. } = state {
        let message = "could not update OAuth credential cleanup metadata: "@ + unwritable.message@;
        assert(Seq::<char>::empty() + message =~= message);
    }
}

/// A login goes on exactly if the endpoints that are configured may get the tokens of
/// its issuer, both before the user is asked and before the code is exchanged; else it
/// ends because of them.
pub proof fn law_login_checks_the_endpoints_twice(state: Login, config: CliConfig, after: Login)
    ensures
        state matches Login::CheckingDestination { plan } ==> (state.leads_to(
            Reply::ConfigLoaded(Ok(config)),
            after,
        ) ==> if destination_allowed(plan.issuer@.text, config@) {
            after == (Login::LockingFirst { plan })
        } else {
            after == (Login::Finished { result: Err(LoginError::UnsafeBrowserDestination) })
        }),
        state matches Login::CheckingAgain { authorized, config: kept } ==> (state.leads_to(
            Reply::ConfigLoaded(Ok(config)),
            after,
        ) ==> if destination_allowed(authorized.plan.issuer@.text, config@) {
            after matches Login::Exchanging { authorized: same, config: same_config, .. } && same
                == authorized && same_config == kept
        } else {
            after == (Login::Finished { result: Err(LoginError::UnsafeBrowserDestination) })
        }),
{
}

/// The browser is to come back to the socket that is listened on, and ends at the site
/// that the plan settles; a failed server ends the login before anything that was
/// received counts.
pub proof fn law_browsers_come_back_to_the_socket(
    state: Login,
    socket: u16,
    error: LoginError,
    wait: CallbackWait,
    after: Login,
)
    ensures
        state is Listening && state.leads_to(Reply::Listening(Ok(socket)), after) ==> (
        after matches Login::Awaiting { callback_url, .. } && callback_url@ == callback_address(
            socket,
        )),
        state matches Login::Unlocking { plan } ==> (state.leads_to(Reply::Released, after)
            ==> match planned_completion(plan) {
            Ok(site) => after matches Login::Discovering { completion_url: Some(url), .. } && url@
                == site,
            Err(reason) => after matches Login::Finished {
                result: Err(LoginError::InvalidCompletionUrl(said)),
            } && said@ == reason,
        }),
        state is Awaiting && state.leads_to(
            Reply::CallbackEnded { server: Err(error), wait },
            after,
        ) ==> after == (Login::Finished { result: Err(error) }),
{
}

/// A login that cannot be journaled, stored or selected is taken back: its grant is
/// revoked exactly if it cannot be shared, and its credential is deleted once it may
/// have been stored; the error that the login ends with is the one that stopped it.
pub proof fn law_stopped_logins_are_taken_back(
    state: Login,
    error: LoginError,
    broken: CliConfigError,
    after: Login,
)
    ensures
        state matches Login::Journaling { new, reused } ==> (state.leads_to(
            Reply::ConfigSaved(Err(broken)),
            after,
        ) ==> if reused {
            after == (Login::Finished { result: Err(LoginError::Config(broken)) })
        } else {
            after == (Login::RevokingUnjournaled { new, error: broken })
        }),
        state matches Login::RevokingUnjournaled { error: stopped, .. } ==> (state.leads_to(
            Reply::Revoked(Ok(())),
            after,
        ) ==> after == (Login::Finished { result: Err(LoginError::Config(stopped)) })),
        state matches Login::RevokingUnjournaled { error: stopped, .. } ==> (state.leads_to(
            Reply::Revoked(Err(error)),
            after,
        ) ==> after == (Login::Finished {
            result: Err(
                LoginError::UnjournaledGrant {
                    config: Box::new(stopped),
                    revocation: Box::new(error),
                },
            ),
        })),
        state matches Login::Storing { reused, .. } ==> (state.leads_to(
            Reply::CredentialsSaved(Err(error)),
            after,
        ) ==> (after matches Login::RollingBack { cause, rollback } && cause == RollbackCause::Write(
            error,
        ) && (rollback is Revoking <==> !reused))),
        state matches Login::Saving { reused, .. } ==> (state.leads_to(
            Reply::ConfigSaved(Err(broken)),
            after,
        ) ==> (after matches Login::RollingBack { cause, rollback } && cause
            == RollbackCause::Config(broken) && (rollback is Revoking <==> !reused))),
{
}

/// A rollback that succeeds leaves the error that stopped the login; one that fails
/// tells of both errors and of the place of the credential.
pub proof fn law_rollbacks_tell_of_both_errors(
    cause: RollbackCause,
    reference: StoredCredentialReference,
    cleanup: LoginError,
    recovery: String,
    rollback: Rollback,
    after: Login,
)
    ensures
        rolled_back(cause, rollback, after) && (rollback matches Rollback::Finished {
            result: Ok(_),
            ..
        }) ==> after == (Login::Finished {
            result: Err(
                match cause {
                    RollbackCause::Write(write) => write,
                    RollbackCause::Config(config) => LoginError::Config(config),
                },
            ),
        }),
        (Login::Locating { cause, reference, cleanup }).leads_to(
            Reply::CredentialLocated(recovery),
            after,
        ) ==> after == (Login::Finished {
            result: Err(
                match cause {
                    RollbackCause::Write(write) => LoginError::CredentialWriteRollback {
                        write: Box::new(write),
                        cleanup: Box::new(cleanup),
                        recovery,
                    },
                    RollbackCause::Config(config) => LoginError::LoginRollback {
                        config: Box::new(config),
                        cleanup: Box::new(cleanup),
                        recovery,
                    },
                },
            ),
        }),
{
}

/// Where nothing goes wrong a login goes on: each request is followed by the next one.
pub proof fn law_login_goes_on(state: Login, reply: Reply, after: Login)
    requires
        state.wf(),
        state.leads_to(reply, after),
    ensures
        match (state, reply) {
            (Login::LockingFirst { .. }, Reply::ConfigLocked(Ok(_))) => after.asks() == Some(
                Request::LoadConfig,
            ),
            (Login::Discovering { .. }, Reply::Discovered(Ok(found))) => after.asks() == Some(
                Request::Listen,
            ) && (after matches Login::Listening { endpoints, .. } && endpoints == found),
            (Login::Listening { .. }, Reply::Listening(Ok(_))) => {
                after.asks() matches Some(Request::AwaitCallback { .. })
            },
            (
                Login::Awaiting { .. },
                Reply::CallbackEnded { server: Ok(_), wait: CallbackWait::Received(Ok(_)) },
            ) => after.asks() == Some(Request::LockConfig),
            (Login::LockingAgain { .. }, Reply::ConfigLocked(Ok(_))) => after.asks() == Some(
                Request::LoadConfig,
            ),
            (Login::Exchanging { config, .. }, Reply::Tokens(Ok(_))) => {
                if config@.oauth is Some {
                    after is LoadingPrevious
                } else {
                    after is Journaling
                }
            },
            (Login::ReadingIdentities { .. }, Reply::Identities { .. }) => after is Journaling,
            (Login::Journaling { .. }, Reply::ConfigSaved(Ok(_))) => {
                after.asks() matches Some(Request::SaveCredentials(_, _))
            },
            (Login::Storing { .. }, Reply::CredentialsSaved(Ok(_))) => {
                after.asks() matches Some(Request::SaveConfig(_))
            },
            _ => true,
        },
{
}

}
