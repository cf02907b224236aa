//! Reading the tokens of a login, and getting new ones where they are not fresh.

use vstd::prelude::*;

use crate::config::{is_session, OAuthSession};
use crate::effect::{Reply, Request};
use crate::error::LoginError;
use crate::issuer::{issuer_of, oauth_issuer};
use crate::metadata::OAuthEndpoints;
use crate::rejected::RejectedTokens;
use crate::token::{fresh, token_is_fresh, TokenSet};
use crate::url::{Url, UrlView};

verus! {

/// Reading the tokens of a login.
pub enum FreshTokens {
    /// Keep others from changing the configuration.
    Locking { session: OAuthSession, rejected: RejectedTokens },
    Loading { session: OAuthSession, rejected: RejectedTokens },
    /// Keep other processes from using the credential.
    LockingRefresh { session: OAuthSession, rejected: RejectedTokens },
    LoadingTokens { session: OAuthSession, rejected: RejectedTokens },
    /// Another process may have got new tokens meanwhile.
    ReadingClock { session: OAuthSession, rejected: RejectedTokens, tokens: TokenSet },
    Discovering { session: OAuthSession, tokens: TokenSet, issuer: Url },
    Refreshing { session: OAuthSession, tokens: TokenSet, endpoints: OAuthEndpoints },
    Saving { session: OAuthSession, refreshed: TokenSet },
    /// Let go of the locks.
    Releasing { result: Result<TokenSet, LoginError> },
    Finished { result: Result<TokenSet, LoginError> },
}

/// The state where new tokens are needed.
pub open spec fn needs_refresh(
    session: OAuthSession,
    tokens: TokenSet,
    after: FreshTokens,
) -> bool {
    match issuer_of(session.issuer@) {
        Ok(expected) => after matches FreshTokens::Discovering {
            session: same,
            tokens: kept,
            issuer,
        } && same == session && kept == tokens && issuer@ == expected,
        Err(reason) => after matches FreshTokens::Releasing { result } && result matches Err(
            LoginError::InvalidIssuer(said),
        ) && said@ == reason,
    }
}

fn start_refresh(session: OAuthSession, tokens: TokenSet) -> (after: FreshTokens)
    ensures
        needs_refresh(session, tokens, after),
        after.wf(),
{
    match oauth_issuer(Some(session.issuer.as_str()), None) {
        Ok(issuer) => FreshTokens::Discovering { session, tokens, issuer },
        Err(error) => FreshTokens::Releasing { result: Err(error) },
    }
}

/// Starts to read the tokens of a login; those whose access token has been
/// rejected will not do.
pub fn load_fresh_tokens(session: OAuthSession, rejected: RejectedTokens) -> (state: FreshTokens)
    ensures
        state == (FreshTokens::Locking { session, rejected }),
        state.wf(),
{
    FreshTokens::Locking { session, rejected }
}

impl FreshTokens {
    /// The clock is of no interest where the access token has been rejected.
    pub open spec fn wf(self) -> bool {
        self matches FreshTokens::ReadingClock { rejected, tokens, .. } ==> !rejected@.contains(
            tokens@.access_token,
        )
    }

    /// What is to be done next; `None` at the end.
    pub open spec fn asks<'a>(&'a self) -> Option<Request<'a>> {
        match self {
            FreshTokens::Locking { .. } => Some(Request::LockConfig),
            FreshTokens::Loading { .. } => Some(Request::LoadConfig),
            FreshTokens::LockingRefresh { session, .. } => Some(
                Request::LockRefresh(&session.credential_id),
            ),
            FreshTokens::LoadingTokens { session, .. } => Some(Request::LoadCredentials(session)),
            FreshTokens::ReadingClock { .. } => Some(Request::ReadClock),
            FreshTokens::Discovering { issuer, .. } => Some(Request::Discover(issuer)),
            FreshTokens::Refreshing { session, tokens, endpoints } => Some(
                Request::RefreshTokens {
                    endpoints,
                    client_id: &session.client_id,
                    refresh_token: &tokens.refresh_token,
                },
            ),
            FreshTokens::Saving { session, refreshed } => Some(
                Request::SaveCredentials(session, refreshed),
            ),
            FreshTokens::Releasing { .. } => Some(Request::ReleaseLocks),
            FreshTokens::Finished { .. } => None,
        }
    }

    /// What is to be done next.
    pub fn request<'a>(&'a self) -> (request: Option<Request<'a>>)
        ensures
            request == self.asks(),
    {
        match self {
            FreshTokens::Locking { .. } => Some(Request::LockConfig),
            FreshTokens::Loading { .. } => Some(Request::LoadConfig),
            FreshTokens::LockingRefresh { session, .. } => Some(
                Request::LockRefresh(&session.credential_id),
            ),
            FreshTokens::LoadingTokens { session, .. } => Some(Request::LoadCredentials(session)),
            FreshTokens::ReadingClock { .. } => Some(Request::ReadClock),
            FreshTokens::Discovering { issuer, .. } => Some(Request::Discover(issuer)),
            FreshTokens::Refreshing { session, tokens, endpoints } => Some(
                Request::RefreshTokens {
                    endpoints,
                    client_id: &session.client_id,
                    refresh_token: &tokens.refresh_token,
                },
            ),
            FreshTokens::Saving { session, refreshed } => Some(
                Request::SaveCredentials(session, refreshed),
            ),
            FreshTokens::Releasing { .. } => Some(Request::ReleaseLocks),
            FreshTokens::Finished { .. } => None,
        }
    }

    /// A reply leads from one state to another. A reply to something else
    /// changes nothing.
    pub open spec fn leads_to(self, reply: Reply, after: FreshTokens) -> bool {
        match (self, reply) {
            (FreshTokens::Locking { session, rejected }, Reply::ConfigLocked(Ok(_))) => after == (
            FreshTokens::Loading { session, rejected }),
            (FreshTokens::Locking { .. }, Reply::ConfigLocked(Err(error))) => after == (
            FreshTokens::Finished { result: Err(LoginError::Config(error)) }),
            (FreshTokens::Loading { session, rejected }, Reply::ConfigLoaded(Ok(config))) => {
                if config@.oauth == Some(session@) {
                    after == (FreshTokens::LockingRefresh { session, rejected })
                } else {
                    after == (FreshTokens::Releasing { result: Err(LoginError::SessionChanged) })
                }
            },
            (FreshTokens::Loading { .. }, Reply::ConfigLoaded(Err(error))) => after == (
            FreshTokens::Releasing { result: Err(LoginError::Config(error)) }),
            (FreshTokens::LockingRefresh { session, rejected }, Reply::RefreshLocked(Ok(_))) => {
                after == (FreshTokens::LoadingTokens { session, rejected })
            },
            (FreshTokens::LockingRefresh { .. }, Reply::RefreshLocked(Err(error))) => after == (
            FreshTokens::Releasing { result: Err(error) }),
            (
                FreshTokens::LoadingTokens { session, rejected },
                Reply::CredentialsLoaded(Ok(tokens)),
            ) => if rejected@.contains(tokens@.access_token) {
                needs_refresh(session, tokens, after)
            } else {
                after == (FreshTokens::ReadingClock { session, rejected, tokens })
            },
            (FreshTokens::LoadingTokens { .. }, Reply::CredentialsLoaded(Err(error))) => after == (
            FreshTokens::Releasing { result: Err(error) }),
            (FreshTokens::ReadingClock { session, tokens, .. }, Reply::Clock(Some(now))) => {
                if fresh(tokens@, now) {
                    after == (FreshTokens::Releasing { result: Ok(tokens) })
                } else {
                    needs_refresh(session, tokens, after)
                }
            },
            (FreshTokens::ReadingClock { .. }, Reply::Clock(None)) => {
                after matches FreshTokens::Releasing { result } && result matches Err(
                    LoginError::InvalidTokenResponse(reason),
                ) && reason@ == "system clock is before 1970"@
            },
            (
                FreshTokens::Discovering { session, tokens, .. },
                Reply::Discovered(Ok(endpoints)),
            ) => after == (FreshTokens::Refreshing { session, tokens, endpoints }),
            (FreshTokens::Discovering { .. }, Reply::Discovered(Err(error))) => after == (
            FreshTokens::Releasing { result: Err(error) }),
            (FreshTokens::Refreshing { session, .. }, Reply::Tokens(Ok(refreshed))) => after == (
            FreshTokens::Saving { session, refreshed }),
            (FreshTokens::Refreshing { .. }, Reply::Tokens(Err(error))) => after == (
            FreshTokens::Releasing { result: Err(error) }),
            (FreshTokens::Saving { refreshed, .. }, Reply::CredentialsSaved(Ok(_))) => after == (
            FreshTokens::Releasing { result: Ok(refreshed) }),
            (FreshTokens::Saving { .. }, Reply::CredentialsSaved(Err(error))) => after == (
            FreshTokens::Releasing {
                result: Err(LoginError::RefreshPersistence(Box::new(error))),
            }),
            (FreshTokens::Releasing { result }, Reply::Released) => after == (
            FreshTokens::Finished { result }),
            _ => after == self,
        }
    }

    /// Goes on with the reply to the last request.
    pub fn advance(self, reply: Reply) -> (after: FreshTokens)
        requires
            self.wf(),
        ensures
            self.leads_to(reply, after),
            after.wf(),
    {
        match (self, reply) {
            (FreshTokens::Locking { session, rejected }, Reply::ConfigLocked(Ok(_))) => {
                FreshTokens::Loading { session, rejected }
            },
            (FreshTokens::Locking { .. }, Reply::ConfigLocked(Err(error))) => {
                FreshTokens::Finished { result: Err(LoginError::Config(error)) }
            },
            (FreshTokens::Loading { session, rejected }, Reply::ConfigLoaded(Ok(config))) => {
                if is_session(&config.oauth, &session) {
                    FreshTokens::LockingRefresh { session, rejected }
                } else {
                    FreshTokens::Releasing { result: Err(LoginError::SessionChanged) }
                }
            },
            (FreshTokens::Loading { .. }, Reply::ConfigLoaded(Err(error))) => {
                FreshTokens::Releasing { result: Err(LoginError::Config(error)) }
            },
            (FreshTokens::LockingRefresh { session, rejected }, Reply::RefreshLocked(Ok(_))) => {
                FreshTokens::LoadingTokens { session, rejected }
            },
            (FreshTokens::LockingRefresh { .. }, Reply::RefreshLocked(Err(error))) => {
                FreshTokens::Releasing { result: Err(error) }
            },
            (
                FreshTokens::LoadingTokens { session, rejected },
                Reply::CredentialsLoaded(Ok(tokens)),
            ) => {
                if rejected.contains(tokens.access_token.expose()) {
                    start_refresh(session, tokens)
                } else {
                    FreshTokens::ReadingClock { session, rejected, tokens }
                }
            },
            (FreshTokens::LoadingTokens { .. }, Reply::CredentialsLoaded(Err(error))) => {
                FreshTokens::Releasing { result: Err(error) }
            },
            (FreshTokens::ReadingClock { session, tokens, .. }, Reply::Clock(now)) => {
                match token_is_fresh(&tokens, now) {
                    Ok(true) => FreshTokens::Releasing { result: Ok(tokens) },
                    Ok(false) => start_refresh(session, tokens),
                    Err(error) => FreshTokens::Releasing { result: Err(error) },
                }
            },
            (
                FreshTokens::Discovering { session, tokens, .. },
                Reply::Discovered(Ok(endpoints)),
            ) => FreshTokens::Refreshing { session, tokens, endpoints },
            (FreshTokens::Discovering { .. }, Reply::Discovered(Err(error))) => {
                FreshTokens::Releasing { result: Err(error) }
            },
            (FreshTokens::Refreshing { session, .. }, Reply::Tokens(Ok(refreshed))) => {
                FreshTokens::Saving { session, refreshed }
            },
            (FreshTokens::Refreshing { .. }, Reply::Tokens(Err(error))) => {
                FreshTokens::Releasing { result: Err(error) }
            },
            (FreshTokens::Saving { refreshed, .. }, Reply::CredentialsSaved(Ok(_))) => {
                FreshTokens::Releasing { result: Ok(refreshed) }
            },
            (FreshTokens::Saving { .. }, Reply::CredentialsSaved(Err(error))) => {
                FreshTokens::Releasing {
                    result: Err(LoginError::RefreshPersistence(Box::new(error))),
                }
            },
            (FreshTokens::Releasing { result }, Reply::Released) => FreshTokens::Finished {
                result,
            },
            (state, _) => state,
        }
    }
}

/// The tokens that come out are new and stored, or they are fresh and their access
/// token has not been rejected.
pub proof fn law_tokens_are_new_or_fresh(state: FreshTokens, reply: Reply, after: FreshTokens)
    requires
        state.wf(),
        state.leads_to(reply, after),
        !(state is Releasing),
    ensures
        after matches FreshTokens::Releasing { result: Ok(tokens) } ==> match (state, reply) {
            (FreshTokens::Saving { refreshed, .. }, Reply::CredentialsSaved(Ok(_))) => tokens
                == refreshed,
            (FreshTokens::ReadingClock { rejected, .. }, Reply::Clock(Some(now))) => fresh(
                tokens@,
                now,
            ) && !rejected@.contains(tokens@.access_token),
            _ => false,
        },
        !(after matches FreshTokens::Finished { result: Ok(_) }) || state is Finished,
{
}

/// The tokens of a login are read only while the configuration uses that login.
pub proof fn law_only_the_current_login_is_read(
    state: FreshTokens,
    reply: Reply,
    after: FreshTokens,
)
    requires
        state.leads_to(reply, after),
        !(state is LockingRefresh),
        after is LockingRefresh,
    ensures
        after matches FreshTokens::LockingRefresh { session, .. } && reply matches
            Reply::ConfigLoaded(Ok(config)) && config@.oauth == Some(session@),
{
}

/// Reading tokens never leaves the states that it is meant to be in.
pub proof fn law_reading_stays_well_formed(state: FreshTokens, reply: Reply, after: FreshTokens)
    requires
        state.wf(),
        state.leads_to(reply, after),
    ensures
        after.wf(),
{
}

impl FreshTokens {
    /// Whether others are kept from changing the configuration.
    pub open spec fn holds_config_lock(self) -> bool {
        !(self is Locking || self is Finished)
    }

    /// Whether other processes are kept from using the credential. The state in
    /// which the locks are let go of counts as one that holds both.
    pub open spec fn holds_refresh_lock(self) -> bool {
        self.holds_config_lock() && !(self is Loading || self is LockingRefresh)
    }
}

/// Reading tokens takes the locks in the order in which every other flow takes them: that
/// of the configuration first, that of the credential after it. The credential is
/// read and written only while both are held, and both are let go of at the end.
pub proof fn law_reading_locks_in_order(state: FreshTokens, reply: Reply, after: FreshTokens)
    requires
        state.wf(),
        state.leads_to(reply, after),
    ensures
        match state.asks() {
            Some(Request::LockConfig) => !state.holds_config_lock(),
            Some(Request::LockRefresh(_)) => state.holds_config_lock()
                && !state.holds_refresh_lock(),
            Some(Request::LoadCredentials(_)) => state.holds_refresh_lock(),
            Some(Request::SaveCredentials(_, _)) => state.holds_refresh_lock(),
            Some(Request::RefreshTokens { .. }) => state.holds_refresh_lock(),
            _ => true,
        },
        !state.holds_config_lock() && after.holds_config_lock()
            ==> reply matches Reply::ConfigLocked(Ok(_)),
        state.holds_config_lock() && !after.holds_config_lock() ==> reply is Released
            && state.asks() == Some(Request::ReleaseLocks),
{
}

/// A search for tokens that has come from its first state by these replies.
pub open spec fn is_reading_run(
    session: OAuthSession,
    rejected: RejectedTokens,
    states: Seq<FreshTokens>,
    replies: Seq<Reply>,
) -> bool {
    &&& states.len() == replies.len() + 1
    &&& states[0] == (FreshTokens::Locking { session, rejected })
    &&& forall|i: int| 0 <= i < replies.len() ==> #[trigger] reading_step(states, replies, i)
}

/// One step of a run.
pub open spec fn reading_step(states: Seq<FreshTokens>, replies: Seq<Reply>, i: int) -> bool {
    states[i].leads_to(replies[i], states[i + 1])
}

/// What a state has in hand is of the login and of the rejected tokens that the run
/// started with.
pub open spec fn is_about(
    state: FreshTokens,
    session: OAuthSession,
    rejected: RejectedTokens,
) -> bool {
    match state {
        FreshTokens::Locking { session: s, rejected: r } => s == session && r == rejected,
        FreshTokens::Loading { session: s, rejected: r } => s == session && r == rejected,
        FreshTokens::LockingRefresh { session: s, rejected: r } => s == session && r == rejected,
        FreshTokens::LoadingTokens { session: s, rejected: r } => s == session && r == rejected,
        FreshTokens::ReadingClock { session: s, rejected: r, .. } => s == session && r == rejected,
        FreshTokens::Discovering { session: s, .. } => s == session,
        FreshTokens::Refreshing { session: s, .. } => s == session,
        FreshTokens::Saving { session: s, .. } => s == session,
        _ => true,
    }
}

/// What is asked for is about the login that the run started with: its credential is
/// locked, read and written, and new tokens are asked for in the name of its client.
pub proof fn law_reading_asks_about_its_login(
    session: OAuthSession,
    rejected: RejectedTokens,
    states: Seq<FreshTokens>,
    replies: Seq<Reply>,
    at: int,
)
    requires
        is_reading_run(session, rejected, states, replies),
        0 <= at < states.len(),
    ensures
        is_about(states[at], session, rejected),
        states[at].wf(),
        match states[at].asks() {
            Some(Request::LockRefresh(id)) => id@ == session@.credential_id,
            Some(Request::LoadCredentials(asked)) => asked@ == session@,
            Some(Request::SaveCredentials(asked, _)) => asked@ == session@,
            Some(Request::RefreshTokens { client_id, .. }) => client_id@ == session@.client_id,
            Some(Request::Discover(issuer)) => issuer_of(session@.issuer) == Ok::<
                UrlView,
                Seq<char>,
            >(issuer@),
            _ => true,
        },
        states[at] matches FreshTokens::Discovering { issuer, .. } ==> issuer_of(session@.issuer)
            == Ok::<UrlView, Seq<char>>(issuer@),
    decreases at,
{
    if at > 0 {
        law_reading_asks_about_its_login(session, rejected, states, replies, at - 1);
        assert(reading_step(states, replies, at - 1));
    }
}

/// The tokens that a state works on.
pub open spec fn tokens_read(state: FreshTokens) -> Option<TokenSet> {
    match state {
        FreshTokens::ReadingClock { tokens, .. } => Some(tokens),
        FreshTokens::Discovering { tokens, .. } => Some(tokens),
        FreshTokens::Refreshing { tokens, .. } => Some(tokens),
        _ => None,
    }
}

/// Tokens that a state works on were read from the store for the login.
proof fn lemma_tokens_were_read(
    session: OAuthSession,
    rejected: RejectedTokens,
    states: Seq<FreshTokens>,
    replies: Seq<Reply>,
    at: int,
) -> (read: int)
    requires
        is_reading_run(session, rejected, states, replies),
        0 <= at < states.len(),
        tokens_read(states[at]) is Some,
    ensures
        0 <= read < at,
        states[read].asks() matches Some(Request::LoadCredentials(asked)) && asked@ == session@,
        replies[read] matches Reply::CredentialsLoaded(Ok(tokens)) && tokens_read(states[at])
            == Some(tokens),
    decreases at,
{
    assert(reading_step(states, replies, at - 1));
    law_reading_asks_about_its_login(session, rejected, states, replies, at - 1);
    if tokens_read(states[at - 1]) is Some {
        lemma_tokens_were_read(session, rejected, states, replies, at - 1)
    } else {
        at - 1
    }
}

/// New tokens are asked for with the refresh token that was read for the login, at the
/// endpoints that were found for its issuer. `steps` says when the tokens were read and
/// the endpoints found.
pub proof fn law_every_refresh_uses_what_was_read(
    session: OAuthSession,
    rejected: RejectedTokens,
    states: Seq<FreshTokens>,
    replies: Seq<Reply>,
    at: int,
) -> (steps: (int, int))
    requires
        is_reading_run(session, rejected, states, replies),
        0 <= at < states.len(),
        states[at].asks() matches Some(Request::RefreshTokens { .. }),
    ensures
        0 <= steps.0 < at,
        0 <= steps.1 < at,
        states[at].asks() matches Some(
            Request::RefreshTokens { endpoints, client_id, refresh_token },
        ) && client_id@ == session@.client_id && (
        states[steps.0].asks() matches Some(Request::LoadCredentials(asked)) && asked@ == session@)
            && (replies[steps.0] matches Reply::CredentialsLoaded(Ok(tokens)) && refresh_token@
            == tokens@.refresh_token) && (
        states[steps.1].asks() matches Some(Request::Discover(issuer)) && issuer_of(session@.issuer)
            == Ok::<UrlView, Seq<char>>(issuer@)) && (
        replies[steps.1] matches Reply::Discovered(Ok(found)) && found == *endpoints),
    decreases at,
{
    let read = lemma_tokens_were_read(session, rejected, states, replies, at);
    law_reading_asks_about_its_login(session, rejected, states, replies, at);
    law_reading_asks_about_its_login(session, rejected, states, replies, at - 1);
    assert(reading_step(states, replies, at - 1));
    if states[at - 1] is Refreshing {
        law_every_refresh_uses_what_was_read(session, rejected, states, replies, at - 1)
    } else {
        (read, at - 1)
    }
}

/// Where the new tokens that are stored came from.
proof fn lemma_new_tokens_came(
    session: OAuthSession,
    rejected: RejectedTokens,
    states: Seq<FreshTokens>,
    replies: Seq<Reply>,
    at: int,
) -> (came: int)
    requires
        is_reading_run(session, rejected, states, replies),
        0 <= at < states.len(),
        states[at] is Saving,
    ensures
        0 <= came < at,
        states[came].asks() matches Some(Request::RefreshTokens { .. }),
        states[at] matches FreshTokens::Saving { refreshed, .. }
            && replies[came] matches Reply::Tokens(Ok(tokens)) && tokens == refreshed,
    decreases at,
{
    assert(reading_step(states, replies, at - 1));
    if states[at - 1] is Saving {
        lemma_new_tokens_came(session, rejected, states, replies, at - 1)
    } else {
        at - 1
    }
}

/// Only tokens that the provider has just sent are stored, and they are stored for the
/// login.
pub proof fn law_every_stored_token_is_new(
    session: OAuthSession,
    rejected: RejectedTokens,
    states: Seq<FreshTokens>,
    replies: Seq<Reply>,
    at: int,
) -> (came: int)
    requires
        is_reading_run(session, rejected, states, replies),
        0 <= at < states.len(),
        states[at].asks() matches Some(Request::SaveCredentials(_, _)),
    ensures
        0 <= came < at,
        states[came].asks() matches Some(Request::RefreshTokens { .. }),
        states[at].asks() matches Some(Request::SaveCredentials(asked, tokens)) && asked@
            == session@ && (replies[came] matches Reply::Tokens(Ok(new)) && new == *tokens),
{
    law_reading_asks_about_its_login(session, rejected, states, replies, at);
    lemma_new_tokens_came(session, rejected, states, replies, at)
}

/// The tokens that come out were sent by the provider in the course of the run and
/// stored, or they were read for the login, had not been rejected and had more than 60
/// seconds left on the clock. `steps` says when they came and what let them pass.
pub proof fn law_every_result_is_new_or_fresh(
    session: OAuthSession,
    rejected: RejectedTokens,
    states: Seq<FreshTokens>,
    replies: Seq<Reply>,
    at: int,
) -> (steps: (int, int))
    requires
        is_reading_run(session, rejected, states, replies),
        0 <= at < states.len(),
        states[at] matches FreshTokens::Finished { result: Ok(_) } || (
        states[at] matches FreshTokens::Releasing { result: Ok(_) }),
    ensures
        0 <= steps.0 < steps.1 < at,
        ({
            let tokens = match states[at] {
                FreshTokens::Finished { result } => result->Ok_0,
                FreshTokens::Releasing { result } => result->Ok_0,
                _ => arbitrary(),
            };
            ||| replies[steps.0] == Reply::Tokens(Ok(tokens)) && (
            replies[steps.1] matches Reply::CredentialsSaved(Ok(_)))
            ||| replies[steps.0] == Reply::CredentialsLoaded(Ok(tokens)) && !rejected@.contains(
                tokens@.access_token,
            ) && (replies[steps.1] matches Reply::Clock(Some(now)) && now + 60
                < tokens@.expires_at)
        }),
    decreases at,
{
    assert(reading_step(states, replies, at - 1));
    law_reading_asks_about_its_login(session, rejected, states, replies, at - 1);
    let previous = states[at - 1];
    if previous is Saving {
        (lemma_new_tokens_came(session, rejected, states, replies, at - 1), at - 1)
    } else if let FreshTokens::ReadingClock { tokens, .. } = previous {
        if let Reply::Clock(Some(now)) = replies[at - 1] {
            crate::token::law_fresh_means_a_minute_left(tokens@, now, now);
        }
        (lemma_tokens_were_read(session, rejected, states, replies, at - 1), at - 1)
    } else {
        law_every_result_is_new_or_fresh(session, rejected, states, replies, at - 1)
    }
}

/// What goes wrong on the way is what the search for tokens ends with; new tokens that
/// cannot be stored are told of as such, and a login that is no longer in use as
/// changed.
pub proof fn law_reading_ends_with_its_error(
    state: FreshTokens,
    error: LoginError,
    broken: crate::error::CliConfigError,
    config: crate::config::CliConfig,
    after: FreshTokens,
)
    ensures
        ({
            let ends = FreshTokens::Releasing { result: Err(error) };
            &&& state is Locking && state.leads_to(Reply::ConfigLocked(Err(broken)), after)
                ==> after == (FreshTokens::Finished { result: Err(LoginError::Config(broken)) })
            &&& state is Loading && state.leads_to(Reply::ConfigLoaded(Err(broken)), after)
                ==> after == (FreshTokens::Releasing { result: Err(LoginError::Config(broken)) })
            &&& state matches FreshTokens::Loading { session, .. } ==> (state.leads_to(
                Reply::ConfigLoaded(Ok(config)),
                after,
            ) ==> (after is LockingRefresh <==> config@.oauth == Some(session@)) && (config@.oauth
                != Some(session@) ==> after == (FreshTokens::Releasing {
                result: Err(LoginError::SessionChanged),
            })))
            &&& state is LockingRefresh && state.leads_to(Reply::RefreshLocked(Err(error)), after)
                ==> after == ends
            &&& state is LoadingTokens && state.leads_to(Reply::CredentialsLoaded(Err(error)), after)
                ==> after == ends
            &&& state is Discovering && state.leads_to(Reply::Discovered(Err(error)), after)
                ==> after == ends
            &&& state is Refreshing && state.leads_to(Reply::Tokens(Err(error)), after) ==> after
                == ends
            &&& state is Saving && state.leads_to(Reply::CredentialsSaved(Err(error)), after)
                ==> after == (FreshTokens::Releasing {
                result: Err(LoginError::RefreshPersistence(Box::new(error))),
            })
        }),
{
}

/// Where nothing goes wrong the search for tokens goes on: the configuration is locked
/// and read, the credential is locked and read, rejected tokens are renewed, others are
/// looked at with the clock; those with more than 60 seconds left are the result, others
/// are renewed, and new ones are stored before they are the result.
pub proof fn law_reading_goes_on(state: FreshTokens, reply: Reply, after: FreshTokens)
    requires
        state.leads_to(reply, after),
    ensures
        match (state, reply) {
            (FreshTokens::Locking { .. }, Reply::ConfigLocked(Ok(_))) => after.asks() == Some(
                Request::LoadConfig,
            ),
            (FreshTokens::LockingRefresh { .. }, Reply::RefreshLocked(Ok(_))) => {
                after.asks() matches Some(Request::LoadCredentials(_))
            },
            (
                FreshTokens::LoadingTokens { session, rejected },
                Reply::CredentialsLoaded(Ok(tokens)),
            ) => if rejected@.contains(tokens@.access_token) {
                after is Discovering || issuer_of(session@.issuer) is Err
            } else {
                after.asks() == Some(Request::ReadClock)
            },
            (FreshTokens::ReadingClock { session, tokens, .. }, Reply::Clock(Some(now))) => {
                if now + 60 < tokens@.expires_at {
                    after == (FreshTokens::Releasing { result: Ok(tokens) })
                } else {
                    after is Discovering || issuer_of(session@.issuer) is Err
                }
            },
            (FreshTokens::Discovering { .. }, Reply::Discovered(Ok(_))) => {
                after.asks() matches Some(Request::RefreshTokens { .. })
            },
            (FreshTokens::Refreshing { .. }, Reply::Tokens(Ok(new))) => {
                after.asks() matches Some(Request::SaveCredentials(_, tokens)) && *tokens == new
            },
            (FreshTokens::Saving { refreshed, .. }, Reply::CredentialsSaved(Ok(_))) => after == (
            FreshTokens::Releasing { result: Ok(refreshed) }),
            (FreshTokens::Releasing { result }, Reply::Released) => after == (
            FreshTokens::Finished { result }),
            _ => true,
        },
{
    if let FreshTokens::ReadingClock { tokens, .. } = state {
        if let Reply::Clock(Some(now)) = reply {
            crate::token::law_fresh_means_a_minute_left(tokens@, now, now);
        }
    }
}

}
