//! Access tokens for a client that runs for a while: the tokens of a login are
//! kept at hand and replaced where they are rejected or about to expire.

use vstd::prelude::*;

use crate::config::{is_session, CredentialStore, OAuthSession, SessionView};
use crate::effect::{Reply, Request};
use crate::error::{credential_not_found, message_of, transient, LoginError};
use crate::issuer::{issuer_of, oauth_issuer};
use crate::metadata::OAuthEndpoints;
use crate::rejected::RejectedTokens;
use crate::token::{fresh, token_is_fresh, TokenSet};
use crate::url::{Url, UrlView};

verus! {

/// The tokens at hand.
pub struct ProviderTokenState {
    pub tokens: TokenSet,
    /// Whether they still have to be stored: the provider may have made the
    /// stored ones useless.
    pub persist_pending: bool,
}

/// What the choice of an access token starts from.
pub struct Selection {
    pub session: OAuthSession,
    pub state: ProviderTokenState,
    /// The access tokens that have been rejected.
    pub rejected: RejectedTokens,
}

impl Selection {
    /// Whether the access token at hand has been rejected.
    pub open spec fn is_rejected(self) -> bool {
        self.rejected@.contains(self.state.tokens@.access_token)
    }

    fn token_is_rejected(&self) -> (is: bool)
        ensures
            is == self.is_rejected(),
    {
        self.rejected.contains(self.state.tokens.access_token.expose())
    }

    /// The same choice with other tokens at hand.
    pub open spec fn with_tokens(self, tokens: TokenSet, persist_pending: bool) -> Selection {
        Selection { state: ProviderTokenState { tokens, persist_pending }, ..self }
    }
}

/// Choosing an access token.
pub enum RefreshCached {
    /// The token at hand will do if it is fresh.
    ReadingClock { selection: Selection },
    /// Keep others from changing the configuration. This comes before the lock of
    /// the credential everywhere.
    Locking { selection: Selection },
    Loading { selection: Selection },
    /// Keep other processes from using the credential.
    LockingRefresh { selection: Selection },
    /// Another process may have got new tokens meanwhile.
    LoadingTokens { selection: Selection },
    /// Store tokens that are not stored yet.
    Persisting { selection: Selection },
    /// The token that is now at hand will do if it is fresh.
    ReadingClockAgain { selection: Selection },
    Discovering { selection: Selection, issuer: Url },
    Refreshing { selection: Selection, endpoints: OAuthEndpoints },
    Saving { selection: Selection },
    /// Let go of the locks.
    Releasing { selection: Selection, result: Result<(), LoginError> },
    Finished { selection: Selection, result: Result<(), LoginError> },
}

/// The state where new tokens are needed.
pub open spec fn needs_refresh(selection: Selection, after: RefreshCached) -> bool {
    match issuer_of(selection.session.issuer@) {
        Ok(expected) => after matches RefreshCached::Discovering { selection: same, issuer } && same
            == selection && issuer@ == expected,
        Err(reason) => after matches RefreshCached::Releasing { selection: same, result } && same
            == selection && (result matches Err(LoginError::InvalidIssuer(said)) && said@
            == reason),
    }
}

fn start_refresh(selection: Selection) -> (after: RefreshCached)
    ensures
        needs_refresh(selection, after),
        after.wf(),
{
    match oauth_issuer(Some(selection.session.issuer.as_str()), None) {
        Ok(issuer) => RefreshCached::Discovering { selection, issuer },
        Err(error) => RefreshCached::Releasing { selection, result: Err(error) },
    }
}

/// The state where the tokens at hand are those that are stored.
pub open spec fn up_to_date(selection: Selection, after: RefreshCached) -> bool {
    if selection.is_rejected() {
        needs_refresh(selection, after)
    } else {
        after == (RefreshCached::ReadingClockAgain { selection })
    }
}

fn check_again(selection: Selection) -> (after: RefreshCached)
    ensures
        up_to_date(selection, after),
        after.wf(),
{
    if selection.token_is_rejected() {
        start_refresh(selection)
    } else {
        RefreshCached::ReadingClockAgain { selection }
    }
}

/// The first state.
pub open spec fn first_step(selection: Selection) -> RefreshCached {
    if selection.state.persist_pending || selection.is_rejected() {
        RefreshCached::Locking { selection }
    } else {
        RefreshCached::ReadingClock { selection }
    }
}

/// Starts to choose an access token.
pub fn refresh_cached_tokens_if_needed(selection: Selection) -> (state: RefreshCached)
    ensures
        state == first_step(selection),
        state.wf(),
{
    if selection.state.persist_pending || selection.token_is_rejected() {
        RefreshCached::Locking { selection }
    } else {
        RefreshCached::ReadingClock { selection }
    }
}

/// The failure of a clock that stands before 1970.
pub open spec fn is_clock_failure(result: Result<(), LoginError>) -> bool {
    result matches Err(LoginError::InvalidTokenResponse(reason)) && reason@
        == "system clock is before 1970"@
}

impl RefreshCached {
    /// The choice that is under way.
    pub open spec fn selection(self) -> Selection {
        match self {
            RefreshCached::ReadingClock { selection } => selection,
            RefreshCached::Locking { selection } => selection,
            RefreshCached::Loading { selection } => selection,
            RefreshCached::LockingRefresh { selection } => selection,
            RefreshCached::LoadingTokens { selection } => selection,
            RefreshCached::Persisting { selection } => selection,
            RefreshCached::ReadingClockAgain { selection } => selection,
            RefreshCached::Discovering { selection, .. } => selection,
            RefreshCached::Refreshing { selection, .. } => selection,
            RefreshCached::Saving { selection } => selection,
            RefreshCached::Releasing { selection, .. } => selection,
            RefreshCached::Finished { selection, .. } => selection,
        }
    }

    /// The tokens that are now at hand.
    pub fn token_state(&self) -> (state: &ProviderTokenState)
        ensures
            *state == self.selection().state,
    {
        match self {
            RefreshCached::ReadingClock { selection } => &selection.state,
            RefreshCached::Locking { selection } => &selection.state,
            RefreshCached::Loading { selection } => &selection.state,
            RefreshCached::LockingRefresh { selection } => &selection.state,
            RefreshCached::LoadingTokens { selection } => &selection.state,
            RefreshCached::Persisting { selection } => &selection.state,
            RefreshCached::ReadingClockAgain { selection } => &selection.state,
            RefreshCached::Discovering { selection, .. } => &selection.state,
            RefreshCached::Refreshing { selection, .. } => &selection.state,
            RefreshCached::Saving { selection } => &selection.state,
            RefreshCached::Releasing { selection, .. } => &selection.state,
            RefreshCached::Finished { selection, .. } => &selection.state,
        }
    }

    /// The clock is of no interest where the access token has been rejected, and
    /// tokens that are not stored yet are never overwritten.
    pub open spec fn wf(self) -> bool {
        match self {
            RefreshCached::ReadingClock { selection } => !selection.is_rejected()
                && !selection.state.persist_pending,
            RefreshCached::LoadingTokens { selection } => !selection.state.persist_pending,
            RefreshCached::Persisting { selection } => selection.state.persist_pending,
            RefreshCached::ReadingClockAgain { selection } => !selection.is_rejected(),
            _ => true,
        }
    }

    /// What is to be done next; `None` at the end.
    pub open spec fn asks<'a>(&'a self) -> Option<Request<'a>> {
        match self {
            RefreshCached::ReadingClock { .. } => Some(Request::ReadClock),
            RefreshCached::Locking { .. } => Some(Request::LockConfig),
            RefreshCached::Loading { .. } => Some(Request::LoadConfig),
            RefreshCached::LockingRefresh { selection } => Some(
                Request::LockRefresh(&selection.session.credential_id),
            ),
            RefreshCached::LoadingTokens { selection } => Some(
                Request::LoadCredentials(&selection.session),
            ),
            RefreshCached::Persisting { selection } => Some(
                Request::SaveCredentials(&selection.session, &selection.state.tokens),
            ),
            RefreshCached::ReadingClockAgain { .. } => Some(Request::ReadClock),
            RefreshCached::Discovering { issuer, .. } => Some(Request::Discover(issuer)),
            RefreshCached::Refreshing { selection, endpoints } => Some(
                Request::RefreshTokens {
                    endpoints,
                    client_id: &selection.session.client_id,
                    refresh_token: &selection.state.tokens.refresh_token,
                },
            ),
            RefreshCached::Saving { selection } => Some(
                Request::SaveCredentials(&selection.session, &selection.state.tokens),
            ),
            RefreshCached::Releasing { .. } => Some(Request::ReleaseLocks),
            RefreshCached::Finished { .. } => None,
        }
    }

    /// What is to be done next.
    pub fn request<'a>(&'a self) -> (request: Option<Request<'a>>)
        ensures
            request == self.asks(),
    {
        match self {
            RefreshCached::ReadingClock { .. } => Some(Request::ReadClock),
            RefreshCached::Locking { .. } => Some(Request::LockConfig),
            RefreshCached::Loading { .. } => Some(Request::LoadConfig),
            RefreshCached::LockingRefresh { selection } => Some(
                Request::LockRefresh(&selection.session.credential_id),
            ),
            RefreshCached::LoadingTokens { selection } => Some(
                Request::LoadCredentials(&selection.session),
            ),
            RefreshCached::Persisting { selection } => Some(
                Request::SaveCredentials(&selection.session, &selection.state.tokens),
            ),
            RefreshCached::ReadingClockAgain { .. } => Some(Request::ReadClock),
            RefreshCached::Discovering { issuer, .. } => Some(Request::Discover(issuer)),
            RefreshCached::Refreshing { selection, endpoints } => Some(
                Request::RefreshTokens {
                    endpoints,
                    client_id: &selection.session.client_id,
                    refresh_token: &selection.state.tokens.refresh_token,
                },
            ),
            RefreshCached::Saving { selection } => Some(
                Request::SaveCredentials(&selection.session, &selection.state.tokens),
            ),
            RefreshCached::Releasing { .. } => Some(Request::ReleaseLocks),
            RefreshCached::Finished { .. } => None,
        }
    }

    /// A reply leads from one state to another. A reply to something else
    /// changes nothing.
    pub open spec fn leads_to(self, reply: Reply, after: RefreshCached) -> bool {
        match (self, reply) {
            (RefreshCached::ReadingClock { selection }, Reply::Clock(Some(now))) => {
                if fresh(selection.state.tokens@, now) {
                    after == (RefreshCached::Finished { selection, result: Ok(()) })
                } else {
                    after == (RefreshCached::Locking { selection })
                }
            },
            (RefreshCached::ReadingClock { selection }, Reply::Clock(None)) => {
                after matches RefreshCached::Finished { selection: same, result } && same
                    == selection && is_clock_failure(result)
            },
            (RefreshCached::Locking { selection }, Reply::ConfigLocked(Ok(_))) => after == (
            RefreshCached::Loading { selection }),
            (RefreshCached::Locking { selection }, Reply::ConfigLocked(Err(error))) => after == (
            RefreshCached::Finished { selection, result: Err(LoginError::Config(error)) }),
            (RefreshCached::Loading { selection }, Reply::ConfigLoaded(Ok(config))) => {
                if config@.oauth == Some(selection.session@) {
                    after == (RefreshCached::LockingRefresh { selection })
                } else {
                    after == (RefreshCached::Releasing {
                        selection,
                        result: Err(LoginError::SessionChanged),
                    })
                }
            },
            (RefreshCached::Loading { selection }, Reply::ConfigLoaded(Err(error))) => after == (
            RefreshCached::Releasing { selection, result: Err(LoginError::Config(error)) }),
            (RefreshCached::LockingRefresh { selection }, Reply::RefreshLocked(Ok(_))) => {
                if selection.state.persist_pending {
                    after == (RefreshCached::Persisting { selection })
                } else {
                    after == (RefreshCached::LoadingTokens { selection })
                }
            },
            (RefreshCached::LockingRefresh { selection }, Reply::RefreshLocked(Err(error))) => after
                == (RefreshCached::Releasing { selection, result: Err(error) }),
            (RefreshCached::LoadingTokens { selection }, Reply::CredentialsLoaded(Ok(tokens))) => {
                up_to_date(
                    selection.with_tokens(tokens, selection.state.persist_pending),
                    after,
                )
            },
            (RefreshCached::LoadingTokens { selection }, Reply::CredentialsLoaded(Err(error))) => {
                if credential_not_found(error) {
                    up_to_date(selection, after)
                } else {
                    after == (RefreshCached::Releasing { selection, result: Err(error) })
                }
            },
            (RefreshCached::Persisting { selection }, Reply::CredentialsSaved(Ok(_))) => up_to_date(
                selection.with_tokens(selection.state.tokens, false),
                after,
            ),
            (RefreshCached::Persisting { selection }, Reply::CredentialsSaved(Err(error))) => after
                == (RefreshCached::Releasing {
                selection,
                result: Err(LoginError::RefreshPersistence(Box::new(error))),
            }),
            (RefreshCached::ReadingClockAgain { selection }, Reply::Clock(Some(now))) => {
                if fresh(selection.state.tokens@, now) {
                    after == (RefreshCached::Releasing { selection, result: Ok(()) })
                } else {
                    needs_refresh(selection, after)
                }
            },
            (RefreshCached::ReadingClockAgain { selection }, Reply::Clock(None)) => {
                after matches RefreshCached::Releasing { selection: same, result } && same
                    == selection && is_clock_failure(result)
            },
            (RefreshCached::Discovering { selection, .. }, Reply::Discovered(Ok(endpoints))) => {
                after == (RefreshCached::Refreshing { selection, endpoints })
            },
            (RefreshCached::Discovering { selection, .. }, Reply::Discovered(Err(error))) => after
                == (RefreshCached::Releasing { selection, result: Err(error) }),
            (RefreshCached::Refreshing { selection, .. }, Reply::Tokens(Ok(refreshed))) => after
                == (RefreshCached::Saving {
                selection: selection.with_tokens(refreshed, selection.state.persist_pending),
            }),
            (RefreshCached::Refreshing { selection, .. }, Reply::Tokens(Err(error))) => after == (
            RefreshCached::Releasing { selection, result: Err(error) }),
            (RefreshCached::Saving { selection }, Reply::CredentialsSaved(Ok(_))) => after == (
            RefreshCached::Releasing { selection, result: Ok(()) }),
            (RefreshCached::Saving { selection }, Reply::CredentialsSaved(Err(error))) => after == (
            RefreshCached::Releasing {
                selection: selection.with_tokens(selection.state.tokens, true),
                result: Err(LoginError::RefreshPersistence(Box::new(error))),
            }),
            (RefreshCached::Releasing { selection, result }, Reply::Released) => after == (
            RefreshCached::Finished { selection, result }),
            _ => after == self,
        }
    }

    /// Goes on with the reply to the last request.
    pub fn advance(self, reply: Reply) -> (after: RefreshCached)
        requires
            self.wf(),
        ensures
            self.leads_to(reply, after),
            after.wf(),
            after.selection().session == self.selection().session,
            after.selection().rejected == self.selection().rejected,
    {
        match (self, reply) {
            (RefreshCached::ReadingClock { selection }, Reply::Clock(now)) => {
                match token_is_fresh(&selection.state.tokens, now) {
                    Ok(true) => RefreshCached::Finished { selection, result: Ok(()) },
                    Ok(false) => RefreshCached::Locking { selection },
                    Err(error) => RefreshCached::Finished { selection, result: Err(error) },
                }
            },
            (RefreshCached::Locking { selection }, Reply::ConfigLocked(Ok(_))) => {
                RefreshCached::Loading { selection }
            },
            (RefreshCached::Locking { selection }, Reply::ConfigLocked(Err(error))) => {
                RefreshCached::Finished { selection, result: Err(LoginError::Config(error)) }
            },
            (RefreshCached::Loading { selection }, Reply::ConfigLoaded(Ok(config))) => {
                if is_session(&config.oauth, &selection.session) {
                    RefreshCached::LockingRefresh { selection }
                } else {
                    RefreshCached::Releasing {
                        selection,
                        result: Err(LoginError::SessionChanged),
                    }
                }
            },
            (RefreshCached::Loading { selection }, Reply::ConfigLoaded(Err(error))) => {
                RefreshCached::Releasing { selection, result: Err(LoginError::Config(error)) }
            },
            (RefreshCached::LockingRefresh { selection }, Reply::RefreshLocked(Ok(_))) => {
                if selection.state.persist_pending {
                    RefreshCached::Persisting { selection }
                } else {
                    RefreshCached::LoadingTokens { selection }
                }
            },
            (RefreshCached::LockingRefresh { selection }, Reply::RefreshLocked(Err(error))) => {
                RefreshCached::Releasing { selection, result: Err(error) }
            },
            (RefreshCached::LoadingTokens { selection }, Reply::CredentialsLoaded(Ok(tokens))) => {
                let mut selection = selection;
                selection.state.tokens = tokens;
                check_again(selection)
            },
            (RefreshCached::LoadingTokens { selection }, Reply::CredentialsLoaded(Err(error))) => {
                if error.is_credential_not_found() {
                    check_again(selection)
                } else {
                    RefreshCached::Releasing { selection, result: Err(error) }
                }
            },
            (RefreshCached::Persisting { selection }, Reply::CredentialsSaved(Ok(_))) => {
                let mut selection = selection;
                selection.state.persist_pending = false;
                check_again(selection)
            },
            (RefreshCached::Persisting { selection }, Reply::CredentialsSaved(Err(error))) => {
                RefreshCached::Releasing {
                    selection,
                    result: Err(LoginError::RefreshPersistence(Box::new(error))),
                }
            },
            (RefreshCached::ReadingClockAgain { selection }, Reply::Clock(now)) => {
                match token_is_fresh(&selection.state.tokens, now) {
                    Ok(true) => RefreshCached::Releasing { selection, result: Ok(()) },
                    Ok(false) => start_refresh(selection),
                    Err(error) => RefreshCached::Releasing { selection, result: Err(error) },
                }
            },
            (RefreshCached::Discovering { selection, .. }, Reply::Discovered(Ok(endpoints))) => {
                RefreshCached::Refreshing { selection, endpoints }
            },
            (RefreshCached::Discovering { selection, .. }, Reply::Discovered(Err(error))) => {
                RefreshCached::Releasing { selection, result: Err(error) }
            },
            (RefreshCached::Refreshing { selection, .. }, Reply::Tokens(Ok(refreshed))) => {
                let mut selection = selection;
                selection.state.tokens = refreshed;
                RefreshCached::Saving { selection }
            },
            (RefreshCached::Refreshing { selection, .. }, Reply::Tokens(Err(error))) => {
                RefreshCached::Releasing { selection, result: Err(error) }
            },
            (RefreshCached::Saving { selection }, Reply::CredentialsSaved(Ok(_))) => {
                RefreshCached::Releasing { selection, result: Ok(()) }
            },
            (RefreshCached::Saving { selection }, Reply::CredentialsSaved(Err(error))) => {
                let mut selection = selection;
                selection.state.persist_pending = true;
                RefreshCached::Releasing {
                    selection,
                    result: Err(LoginError::RefreshPersistence(Box::new(error))),
                }
            },
            (RefreshCached::Releasing { selection, result }, Reply::Released) => {
                RefreshCached::Finished { selection, result }
            },
            (state, _) => state,
        }
    }
}

/// The access token that comes out is a new one, or it is fresh and has not been
/// rejected.
pub proof fn law_chosen_token_is_new_or_fresh(
    state: RefreshCached,
    reply: Reply,
    after: RefreshCached,
)
    requires
        state.wf(),
        state.leads_to(reply, after),
        !(state is Releasing || state is Finished),
    ensures
        (after matches RefreshCached::Releasing { result: Ok(_), .. }) || (
        after matches RefreshCached::Finished { result: Ok(_), .. }) ==> match (state, reply) {
            (RefreshCached::Saving { .. }, Reply::CredentialsSaved(Ok(_))) => after.selection()
                == state.selection(),
            (RefreshCached::ReadingClock { .. }, Reply::Clock(Some(now))) => fresh(
                after.selection().state.tokens@,
                now,
            ) && !after.selection().is_rejected(),
            (RefreshCached::ReadingClockAgain { .. }, Reply::Clock(Some(now))) => fresh(
                after.selection().state.tokens@,
                now,
            ) && !after.selection().is_rejected(),
            _ => false,
        },
{
}

/// New tokens that could not be stored stay at hand and are remembered as such,
/// and tokens that are not stored yet are replaced by new ones only.
pub proof fn law_unstored_tokens_are_kept(state: RefreshCached, reply: Reply, after: RefreshCached)
    requires
        state.wf(),
        state.leads_to(reply, after),
    ensures
        state is Saving && (reply matches Reply::CredentialsSaved(Err(_)))
            ==> after.selection().state.persist_pending && after.selection().state.tokens
            == state.selection().state.tokens,
        state.selection().state.persist_pending && !(reply matches Reply::Tokens(Ok(_)))
            ==> after.selection().state.tokens == state.selection().state.tokens,
        state.selection().state.persist_pending && !after.selection().state.persist_pending
            ==> state is Persisting && reply matches Reply::CredentialsSaved(Ok(_)),
{
}

/// A text as `Debug` shows it, with quotation marks around it.
pub uninterp spec fn debug_quoted(text: Seq<char>) -> Seq<char>;

/// A text as the `Debug` of `str` shows it, through `format!`. What it makes of
/// the characters is named, not stated.
#[verifier::external_body]
fn show_quoted(text: &str) -> (shown: String)
    ensures
        shown@ == debug_quoted(text@),
{
    format!("{:?}", text)
}

/// The name of a store.
pub open spec fn store_name(store: CredentialStore) -> Seq<char> {
    match store {
        CredentialStore::Keyring => "Keyring"@,
        CredentialStore::File => "File"@,
    }
}

/// What may be shown of a provider: its login, and none of its tokens.
pub open spec fn provider_shown(session: SessionView) -> Seq<char> {
    "OAuthAccessTokenProvider { session: OAuthSession { issuer: "@ + debug_quoted(session.issuer)
        + ", client_id: "@ + debug_quoted(session.client_id) + ", account_endpoint: "@
        + debug_quoted(session.account_endpoint) + ", basin_endpoint: "@ + debug_quoted(
        session.basin_endpoint,
    ) + ", credential_id: "@ + debug_quoted(session.credential_id) + ", credential_store: "@
        + store_name(session.credential_store)
        + " }, state: \"<redacted>\", rejected_access_tokens: \"<redacted>\" }"@
}

/// Why there is no access token.
pub struct ProviderFailure {
    /// Whether it may go better next time.
    pub transient: bool,
    pub message: String,
}

/// The failure of a provider that an error stands for.
pub open spec fn failure_of(error: LoginError, failure: ProviderFailure) -> bool {
    failure.transient == transient(error) && failure.message@ == message_of(error)
}

/// Access tokens of a login for a client that runs for a while.
pub struct OAuthAccessTokenProvider {
    pub session: OAuthSession,
    pub state: ProviderTokenState,
    pub rejected_access_tokens: RejectedTokens,
}

impl OAuthAccessTokenProvider {
    /// A provider that starts with these tokens at hand.
    pub fn new(session: OAuthSession, tokens: TokenSet) -> (provider: OAuthAccessTokenProvider)
        ensures
            provider.session == session,
            provider.state == (ProviderTokenState { tokens, persist_pending: false }),
            provider.rejected_access_tokens@ == Set::<Seq<char>>::empty(),
    {
        OAuthAccessTokenProvider {
            session,
            state: ProviderTokenState { tokens, persist_pending: false },
            rejected_access_tokens: RejectedTokens::none(),
        }
    }

    /// A server has rejected this access token.
    pub fn invalidate_access_token(&mut self, rejected_access_token: &str)
        ensures
            final(self).session == old(self).session,
            final(self).state == old(self).state,
            final(self).rejected_access_tokens@ == old(self).rejected_access_tokens@.insert(
                rejected_access_token@,
            ),
    {
        self.rejected_access_tokens.insert(rejected_access_token.to_owned());
    }

    /// Starts to choose an access token. The rejected ones go with the choice:
    /// those that are rejected meanwhile count for the next one.
    pub fn access_token(&mut self) -> (choice: RefreshCached)
        ensures
            final(self).session == old(self).session,
            final(self).state == old(self).state,
            final(self).rejected_access_tokens@ == Set::<Seq<char>>::empty(),
            choice == first_step(
                Selection {
                    session: old(self).session,
                    state: old(self).state,
                    rejected: old(self).rejected_access_tokens,
                },
            ),
            choice.wf(),
    {
        let rejected = self.rejected_access_tokens.take();
        let session = self.session.duplicate();
        let state = ProviderTokenState {
            tokens: self.state.tokens.duplicate(),
            persist_pending: self.state.persist_pending,
        };
        refresh_cached_tokens_if_needed(Selection { session, state, rejected })
    }

    /// Keeps up with a choice that is under way, so that nothing it has got or
    /// stored is forgotten if it is broken off.
    pub fn record_progress(&mut self, choice: &RefreshCached)
        ensures
            final(self).session == old(self).session,
            final(self).state == choice.selection().state,
            final(self).rejected_access_tokens == old(self).rejected_access_tokens,
    {
        let state = choice.token_state();
        self.state = ProviderTokenState {
            tokens: state.tokens.duplicate(),
            persist_pending: state.persist_pending,
        };
    }

    /// Ends the choice of an access token. Where it failed, the tokens that were
    /// rejected before it stay rejected, as do those that were rejected since.
    pub fn finish_access_token(
        &mut self,
        selection: Selection,
        result: Result<(), LoginError>,
    ) -> (token: Result<String, ProviderFailure>)
        ensures
            final(self).session == old(self).session,
            final(self).state == selection.state,
            match result {
                Ok(_) => final(self).rejected_access_tokens == old(self).rejected_access_tokens
                    && (token matches Ok(text) && text@ == selection.state.tokens@.access_token),
                Err(error) => final(self).rejected_access_tokens@ == old(
                    self,
                ).rejected_access_tokens@.union(selection.rejected@) && (token matches Err(failure)
                    && failure_of(error, failure)),
            },
    {
        let Selection { state, rejected, .. } = selection;
        self.state = state;
        match result {
            Ok(()) => Ok(self.state.tokens.access_token.expose().to_owned()),
            Err(error) => {
                self.rejected_access_tokens.extend(rejected);
                Err(ProviderFailure { transient: error.is_transient(), message: error.message() })
            },
        }
    }

    /// What may be shown of the provider.
    pub fn debug_text(&self) -> (text: String)
        ensures
            text@ == provider_shown(self.session@),
    {
        let mut text = "OAuthAccessTokenProvider { session: OAuthSession { issuer: ".to_owned();
        text.append(show_quoted(self.session.issuer.as_str()).as_str());
        text.append(", client_id: ");
        text.append(show_quoted(self.session.client_id.as_str()).as_str());
        text.append(", account_endpoint: ");
        text.append(show_quoted(self.session.account_endpoint.as_str()).as_str());
        text.append(", basin_endpoint: ");
        text.append(show_quoted(self.session.basin_endpoint.as_str()).as_str());
        text.append(", credential_id: ");
        text.append(show_quoted(self.session.credential_id.as_str()).as_str());
        text.append(", credential_store: ");
        match self.session.credential_store {
            CredentialStore::Keyring => text.append("Keyring"),
            CredentialStore::File => text.append("File"),
        }
        text.append(" }, state: \"<redacted>\", rejected_access_tokens: \"<redacted>\" }");
        text
    }
}

/// The tokens that were rejected before a choice go with it to its end, and so
/// does the login: nothing is lost, whichever way the choice goes.
pub proof fn law_rejections_go_with_the_choice(
    state: RefreshCached,
    reply: Reply,
    after: RefreshCached,
)
    requires
        state.leads_to(reply, after),
    ensures
        after.selection().rejected == state.selection().rejected,
        after.selection().session == state.selection().session,
{
}

/// Choosing a token never leaves the states that it is meant to be in.
pub proof fn law_choice_stays_well_formed(
    state: RefreshCached,
    reply: Reply,
    after: RefreshCached,
)
    requires
        state.wf(),
        state.leads_to(reply, after),
    ensures
        after.wf(),
{
}

impl RefreshCached {
    /// Whether others are kept from changing the configuration.
    pub open spec fn holds_config_lock(self) -> bool {
        !(self is ReadingClock || self is Locking || self is Finished)
    }

    /// Whether other processes are kept from using the credential. The state in
    /// which the locks are let go of counts as one that holds both.
    pub open spec fn holds_refresh_lock(self) -> bool {
        self.holds_config_lock() && !(self is Loading || self is LockingRefresh)
    }
}

/// Choosing a token takes the locks in the order in which every other flow takes them: that
/// of the configuration first, that of the credential after it. The credential is
/// read and written only while both are held, and both are let go of at the end.
pub proof fn law_choice_locks_in_order(state: RefreshCached, reply: Reply, after: RefreshCached)
    requires
        state.wf(),
        state.leads_to(reply, after),
    ensures
        match state.asks() {
            Some(Request::LockConfig) => !state.holds_config_lock(),
            Some(Request::LockRefresh(_)) => state.holds_config_lock()
                && !state.holds_refresh_lock(),
            Some(Request::LoadCredentials(_)) => state.holds_refresh_lock(),
            Some(Request::SaveCredentials(_, _)) => state.holds_refresh_lock(),
            Some(Request::RefreshTokens { .. }) => state.holds_refresh_lock(),
            _ => true,
        },
        !state.holds_config_lock() && after.holds_config_lock()
            ==> reply matches Reply::ConfigLocked(Ok(_)),
        state.holds_config_lock() && !after.holds_config_lock() ==> reply is Released
            && state.asks() == Some(Request::ReleaseLocks),
{
}

/// A choice that has come from its first state by these replies.
pub open spec fn is_choice_run(
    selection: Selection,
    states: Seq<RefreshCached>,
    replies: Seq<Reply>,
) -> bool {
    &&& states.len() == replies.len() + 1
    &&& states[0] == first_step(selection)
    &&& forall|i: int| 0 <= i < replies.len() ==> #[trigger] choice_step(states, replies, i)
}

/// One step of a run.
pub open spec fn choice_step(states: Seq<RefreshCached>, replies: Seq<Reply>, i: int) -> bool {
    states[i].leads_to(replies[i], states[i + 1])
}

/// Every state of every choice is one that it is meant to be in.
pub proof fn law_every_choice_is_well_formed(
    selection: Selection,
    states: Seq<RefreshCached>,
    replies: Seq<Reply>,
    at: int,
)
    requires
        is_choice_run(selection, states, replies),
        0 <= at < states.len(),
    ensures
        states[at].wf(),
    decreases at,
{
    if at > 0 {
        law_every_choice_is_well_formed(selection, states, replies, at - 1);
        assert(choice_step(states, replies, at - 1));
        law_choice_stays_well_formed(states[at - 1], replies[at - 1], states[at]);
    }
}

/// The choice has come to an access token, or to new tokens that are to be stored.
pub open spec fn has_chosen(state: RefreshCached) -> bool {
    match state {
        RefreshCached::Saving { .. } => true,
        RefreshCached::Releasing { result, .. } => result is Ok,
        RefreshCached::Finished { result, .. } => result is Ok,
        _ => false,
    }
}

/// The reply that makes the tokens at hand the ones to use: they came with it, or it
/// is the time at which they were fresh, and nobody has rejected them.
pub open spec fn justifies(reply: Reply, selection: Selection) -> bool {
    match reply {
        Reply::Tokens(Ok(tokens)) => selection.state.tokens == tokens,
        Reply::Clock(Some(now)) => fresh(selection.state.tokens@, now) && !selection.is_rejected(),
        _ => false,
    }
}

/// However a choice goes, an access token that it ends with came from the provider
/// in the course of it, or was fresh then and had not been rejected before.
pub proof fn law_every_choice_is_justified(
    selection: Selection,
    states: Seq<RefreshCached>,
    replies: Seq<Reply>,
    at: int,
) -> (reason: int)
    requires
        is_choice_run(selection, states, replies),
        0 <= at < states.len(),
        has_chosen(states[at]),
    ensures
        0 <= reason < at,
        justifies(replies[reason], states[at].selection()),
    decreases at,
{
    assert(choice_step(states, replies, at - 1));
    law_every_choice_is_well_formed(selection, states, replies, at - 1);
    if has_chosen(states[at - 1]) {
        law_every_choice_is_justified(selection, states, replies, at - 1)
    } else {
        at - 1
    }
}

/// What a choice asks for is about its login and the tokens at hand: the login's
/// credential is locked, read and written, new tokens are asked for in the name of its
/// client and with the refresh token at hand, and what is written are the tokens at
/// hand.
pub proof fn law_choice_asks_about_its_login(state: RefreshCached)
    ensures
        ({
            let selection = state.selection();
            let session = selection.session@;
            match state.asks() {
                Some(Request::LockRefresh(id)) => id@ == session.credential_id,
                Some(Request::LoadCredentials(asked)) => asked@ == session,
                Some(Request::SaveCredentials(asked, tokens)) => asked@ == session && *tokens
                    == selection.state.tokens,
                Some(Request::RefreshTokens { client_id, refresh_token, .. }) => client_id@
                    == session.client_id && refresh_token@
                    == selection.state.tokens@.refresh_token,
                _ => true,
            }
        }),
{
}

/// The tokens at hand change only by being read from the store or being sent by the
/// provider, and then they are those; a credential that is not there leaves them as
/// they are, and any other failure to read it ends the choice.
pub proof fn law_tokens_at_hand_are_the_latest(
    state: RefreshCached,
    reply: Reply,
    after: RefreshCached,
)
    requires
        state.leads_to(reply, after),
    ensures
        ({
            let before = state.selection().state.tokens;
            let now = after.selection().state.tokens;
            &&& state is LoadingTokens ==> match reply {
                Reply::CredentialsLoaded(Ok(tokens)) => now == tokens,
                Reply::CredentialsLoaded(Err(error)) => now == before && (!credential_not_found(
                    error,
                ) ==> after == (RefreshCached::Releasing {
                    selection: state.selection(),
                    result: Err(error),
                })),
                _ => now == before,
            }
            &&& state is Refreshing ==> match reply {
                Reply::Tokens(Ok(tokens)) => now == tokens,
                _ => now == before,
            }
            &&& !(state is LoadingTokens || state is Refreshing) ==> now == before
        }),
{
}

/// Where new tokens are asked for, the endpoints are those that were found for the
/// issuer of the login. `steps` says when the endpoints were found.
pub proof fn law_every_renewal_uses_what_was_found(
    selection: Selection,
    states: Seq<RefreshCached>,
    replies: Seq<Reply>,
    at: int,
) -> (found: int)
    requires
        is_choice_run(selection, states, replies),
        0 <= at < states.len(),
        states[at].asks() matches Some(Request::RefreshTokens { .. }),
    ensures
        0 <= found < at,
        states[at].asks() matches Some(
            Request::RefreshTokens { endpoints, client_id, .. },
        ) && client_id@ == selection.session@.client_id && (
        states[found].asks() matches Some(Request::Discover(issuer)) && issuer_of(
            selection.session@.issuer,
        ) == Ok::<UrlView, Seq<char>>(issuer@)) && (
        replies[found] matches Reply::Discovered(Ok(answer)) && answer == *endpoints),
    decreases at,
{
    assert(choice_step(states, replies, at - 1));
    lemma_choice_keeps_its_login(selection, states, replies, at);
    lemma_choice_keeps_its_login(selection, states, replies, at - 1);
    if states[at - 1] is Refreshing {
        law_every_renewal_uses_what_was_found(selection, states, replies, at - 1)
    } else {
        at - 1
    }
}

/// The login and the rejected tokens of a choice stay, and so does the issuer.
proof fn lemma_choice_keeps_its_login(
    selection: Selection,
    states: Seq<RefreshCached>,
    replies: Seq<Reply>,
    at: int,
)
    requires
        is_choice_run(selection, states, replies),
        0 <= at < states.len(),
    ensures
        states[at].selection().session == selection.session,
        states[at].selection().rejected == selection.rejected,
        states[at] matches RefreshCached::Discovering { issuer, .. } ==> issuer_of(
            selection.session@.issuer,
        ) == Ok::<UrlView, Seq<char>>(issuer@),
    decreases at,
{
    if at > 0 {
        lemma_choice_keeps_its_login(selection, states, replies, at - 1);
        assert(choice_step(states, replies, at - 1));
    }
}

/// A choice that succeeds ends with an access token that the provider sent in the
/// course of it, or with one that the rejected ones do not hold and that had more than
/// 60 seconds left on a clock that was read in the course of it. A token at hand is
/// used without asking anybody only if nothing is left to store.
pub proof fn law_every_choice_avoids_rejected_tokens(
    selection: Selection,
    states: Seq<RefreshCached>,
    replies: Seq<Reply>,
    at: int,
) -> (reason: int)
    requires
        is_choice_run(selection, states, replies),
        0 <= at < states.len(),
        states[at] matches RefreshCached::Finished { result: Ok(_), .. },
    ensures
        0 <= reason < at,
        ({
            let chosen = states[at].selection().state.tokens;
            ||| replies[reason] == Reply::Tokens(Ok(chosen))
            ||| !selection.rejected@.contains(chosen@.access_token) && (
            replies[reason] matches Reply::Clock(Some(now)) && now + 60 < chosen@.expires_at)
        }),
        selection.state.persist_pending || selection.rejected@.contains(
            selection.state.tokens@.access_token,
        ) ==> states[0].asks() == Some(Request::LockConfig),
        !(selection.state.persist_pending || selection.rejected@.contains(
            selection.state.tokens@.access_token,
        )) ==> states[0].asks() == Some(Request::ReadClock),
{
    let reason = law_every_choice_is_justified(selection, states, replies, at);
    lemma_choice_keeps_its_login(selection, states, replies, at);
    if let Reply::Clock(Some(now)) = replies[reason] {
        crate::token::law_fresh_means_a_minute_left(
            states[at].selection().state.tokens@,
            now,
            now,
        );
    }
    reason
}

/// Whether a failure may pass, and its words, are those of the error.
pub proof fn law_failures_are_passed_on(error: LoginError, failure: ProviderFailure)
    requires
        failure_of(error, failure),
    ensures
        failure.transient == transient(error),
        failure.message@ == message_of(error),
{
}

/// What goes wrong on the way is what the choice ends with; tokens that cannot be
/// stored are told of as such, and a login that is no longer in use as changed.
pub proof fn law_choice_ends_with_its_error(
    state: RefreshCached,
    error: LoginError,
    broken: crate::error::CliConfigError,
    config: crate::config::CliConfig,
    after: RefreshCached,
)
    ensures
        ({
            let selection = state.selection();
            let ends = RefreshCached::Releasing { selection, result: Err(error) };
            &&& state is Locking && state.leads_to(Reply::ConfigLocked(Err(broken)), after)
                ==> after == (RefreshCached::Finished {
                selection,
                result: Err(LoginError::Config(broken)),
            })
            &&& state is Loading && state.leads_to(Reply::ConfigLoaded(Err(broken)), after)
                ==> after == (RefreshCached::Releasing {
                selection,
                result: Err(LoginError::Config(broken)),
            })
            &&& state is Loading && state.leads_to(Reply::ConfigLoaded(Ok(config)), after) ==> if
                config@.oauth == Some(selection.session@) {
                after == (RefreshCached::LockingRefresh { selection })
            } else {
                after == (RefreshCached::Releasing {
                    selection,
                    result: Err(LoginError::SessionChanged),
                })
            }
            &&& state is LockingRefresh && state.leads_to(Reply::RefreshLocked(Err(error)), after)
                ==> after == ends
            &&& state is Discovering && state.leads_to(Reply::Discovered(Err(error)), after)
                ==> after == ends
            &&& state is Refreshing && state.leads_to(Reply::Tokens(Err(error)), after) ==> after
                == ends
            &&& (state is Persisting || state is Saving) && state.leads_to(
                Reply::CredentialsSaved(Err(error)),
                after,
            ) ==> (after matches RefreshCached::Releasing { result, .. } && result == Err::<
                (),
                LoginError,
            >(LoginError::RefreshPersistence(Box::new(error)))) && after.selection().state
                == (ProviderTokenState {
                tokens: selection.state.tokens,
                persist_pending: after.selection().state.persist_pending,
            })
            &&& state is Saving && state.leads_to(Reply::CredentialsSaved(Err(error)), after)
                ==> after.selection().state.persist_pending
        }),
{
}

/// What is shown of a provider are the fields of its login, each after its name, and
/// two marks in place of what is kept back.
pub proof fn law_shown_fields_are_those_of_the_login(session: SessionView)
    ensures
        ({
            let store = if session.credential_store == CredentialStore::File {
                "File"@
            } else {
                "Keyring"@
            };
            provider_shown(session)
                == "OAuthAccessTokenProvider { session: OAuthSession { issuer: "@ + debug_quoted(
                session.issuer,
            ) + ", client_id: "@ + debug_quoted(session.client_id) + ", account_endpoint: "@
                + debug_quoted(session.account_endpoint) + ", basin_endpoint: "@ + debug_quoted(
                session.basin_endpoint,
            ) + ", credential_id: "@ + debug_quoted(session.credential_id)
                + ", credential_store: "@ + store
                + " }, state: \"<redacted>\", rejected_access_tokens: \"<redacted>\" }"@
        }),
{
}

/// Where nothing goes wrong a choice goes on: unstored tokens are stored and others
/// read; the tokens that are then at hand, also where none are in the store, are
/// renewed if they were rejected and looked at with the clock if not; on the clock
/// those with more than 60 seconds left end the choice, and others are renewed, once
/// the locks are held.
pub proof fn law_choice_goes_on(state: RefreshCached, reply: Reply, after: RefreshCached)
    requires
        state.leads_to(reply, after),
    ensures
        ({
            let selection = after.selection();
            let renews = after is Discovering || issuer_of(selection.session@.issuer) is Err;
            let rejected = selection.rejected@.contains(selection.state.tokens@.access_token);
            let checks = if rejected {
                renews
            } else {
                after.asks() == Some(Request::ReadClock)
            };
            match (state, reply) {
                (RefreshCached::LockingRefresh { selection: before }, Reply::RefreshLocked(Ok(_))) => {
                    if before.state.persist_pending {
                        after.asks() matches Some(Request::SaveCredentials(_, _))
                    } else {
                        after.asks() matches Some(Request::LoadCredentials(_))
                    }
                },
                (RefreshCached::LoadingTokens { .. }, Reply::CredentialsLoaded(Ok(_))) => checks,
                (RefreshCached::LoadingTokens { .. }, Reply::CredentialsLoaded(Err(error))) => {
                    (error matches LoginError::Credential(store) && store.not_found) ==> checks
                },
                (RefreshCached::Persisting { .. }, Reply::CredentialsSaved(Ok(_))) => checks
                    && !selection.state.persist_pending,
                (RefreshCached::ReadingClock { .. }, Reply::Clock(Some(now))) => {
                    if now + 60 < selection.state.tokens@.expires_at {
                        after matches RefreshCached::Finished { result: Ok(_), .. }
                    } else {
                        after.asks() == Some(Request::LockConfig)
                    }
                },
                (RefreshCached::ReadingClockAgain { .. }, Reply::Clock(Some(now))) => {
                    if now + 60 < selection.state.tokens@.expires_at {
                        after matches RefreshCached::Releasing { result: Ok(_), .. }
                    } else {
                        renews
                    }
                },
                (RefreshCached::Locking { .. }, Reply::ConfigLocked(Ok(_))) => after.asks() == Some(
                    Request::LoadConfig,
                ),
                (RefreshCached::Discovering { .. }, Reply::Discovered(Ok(_))) => {
                    after.asks() matches Some(Request::RefreshTokens { .. })
                },
                (RefreshCached::Refreshing { .. }, Reply::Tokens(Ok(_))) => {
                    after.asks() matches Some(Request::SaveCredentials(_, _))
                },
                (RefreshCached::Saving { .. }, Reply::CredentialsSaved(Ok(_))) => {
                    after matches RefreshCached::Releasing { result: Ok(_), .. }
                },
                (RefreshCached::Releasing { result, .. }, Reply::Released) => {
                    after matches RefreshCached::Finished { result: same, .. } && same == result
                },
                _ => true,
            }
        }),
{
    if let Reply::Clock(Some(now)) = reply {
        crate::token::law_fresh_means_a_minute_left(state.selection().state.tokens@, now, now);
    }
}

}
