//! Taking back a login that could not be completed: its grant is revoked, unless
//! an older login may share it, and its credential is deleted.

use vstd::prelude::*;

use crate::config::{OAuthSession, StoredCredentialReference};
use crate::effect::{Reply, Request};
use crate::error::LoginError;
use crate::metadata::OAuthEndpoints;
use crate::token::TokenSet;

verus! {

/// Taking back one new login.
pub enum Rollback {
    /// Revoke its grant.
    Revoking { endpoints: OAuthEndpoints, session: OAuthSession, tokens: TokenSet },
    /// Delete its credential.
    Deleting { reference: StoredCredentialReference },
    /// The login is gone, or why it is not.
    Finished { reference: StoredCredentialReference, result: Result<(), LoginError> },
}

/// Starts to take back a new login.
pub fn cleanup_new_credential(
    endpoints: OAuthEndpoints,
    session: OAuthSession,
    tokens: TokenSet,
    grant_may_be_reused: bool,
) -> (rollback: Rollback)
    ensures
        Rollback::starts(endpoints, session, tokens, grant_may_be_reused, rollback),
{
    if grant_may_be_reused {
        Rollback::Deleting { reference: session.credential_reference() }
    } else {
        Rollback::Revoking { endpoints, session, tokens }
    }
}

impl Rollback {
    /// The first state.
    pub open spec fn starts(
        endpoints: OAuthEndpoints,
        session: OAuthSession,
        tokens: TokenSet,
        grant_may_be_reused: bool,
        rollback: Rollback,
    ) -> bool {
        if grant_may_be_reused {
            rollback matches Rollback::Deleting { reference } && reference@ == session@.reference()
        } else {
            rollback == (Rollback::Revoking { endpoints, session, tokens })
        }
    }

    /// What is to be done next; `None` at the end.
    pub open spec fn asks<'a>(&'a self) -> Option<Request<'a>> {
        match self {
            Rollback::Revoking { endpoints, session, tokens } => Some(
                Request::RevokeToken {
                    endpoints,
                    client_id: &session.client_id,
                    refresh_token: &tokens.refresh_token,
                },
            ),
            Rollback::Deleting { reference } => Some(Request::DeleteCredential(reference)),
            Rollback::Finished { .. } => None,
        }
    }

    /// What is to be done next.
    pub fn request<'a>(&'a self) -> (request: Option<Request<'a>>)
        ensures
            request == self.asks(),
    {
        match self {
            Rollback::Revoking { endpoints, session, tokens } => Some(
                Request::RevokeToken {
                    endpoints,
                    client_id: &session.client_id,
                    refresh_token: &tokens.refresh_token,
                },
            ),
            Rollback::Deleting { reference } => Some(Request::DeleteCredential(reference)),
            Rollback::Finished { .. } => None,
        }
    }

    /// A reply leads from one state to another. A reply to something else
    /// changes nothing.
    pub open spec fn leads_to(self, reply: Reply, after: Rollback) -> bool {
        match (self, reply) {
            (Rollback::Revoking { session, .. }, Reply::Revoked(Ok(_))) => {
                after matches Rollback::Deleting { reference } && reference@ == session@.reference()
            },
            (Rollback::Revoking { session, .. }, Reply::Revoked(Err(error))) => {
                after matches Rollback::Finished { reference, result } && reference@
                    == session@.reference() && result == Err::<(), LoginError>(error)
            },
            (Rollback::Deleting { reference }, Reply::CredentialDeleted(result)) => after == (
            Rollback::Finished { reference, result }),
            _ => after == self,
        }
    }

    /// Goes on with the reply to the last request.
    pub fn advance(self, reply: Reply) -> (after: Rollback)
        ensures
            self.leads_to(reply, after),
    {
        match (self, reply) {
            (Rollback::Revoking { session, .. }, Reply::Revoked(Ok(_))) => Rollback::Deleting {
                reference: session.credential_reference(),
            },
            (Rollback::Revoking { session, .. }, Reply::Revoked(Err(error))) => {
                Rollback::Finished {
                    reference: session.credential_reference(),
                    result: Err(error),
                }
            },
            (Rollback::Deleting { reference }, Reply::CredentialDeleted(result)) => {
                Rollback::Finished { reference, result }
            },
            (state, _) => state,
        }
    }
}

/// A grant that an older login may share is never revoked.
pub proof fn law_shared_grant_is_not_revoked(
    endpoints: OAuthEndpoints,
    session: OAuthSession,
    tokens: TokenSet,
    rollback: Rollback,
    reply: Reply,
    after: Rollback,
)
    ensures
        Rollback::starts(endpoints, session, tokens, true, rollback) ==> !(rollback is Revoking),
        !(rollback is Revoking) && rollback.leads_to(reply, after) ==> !(after is Revoking),
        rollback.asks() matches Some(Request::RevokeToken { .. }) ==> rollback is Revoking,
{
}

/// A rollback that has come from its first state by these replies.
pub open spec fn is_rollback_run(
    endpoints: OAuthEndpoints,
    session: OAuthSession,
    tokens: TokenSet,
    grant_may_be_reused: bool,
    states: Seq<Rollback>,
    replies: Seq<Reply>,
) -> bool {
    &&& states.len() == replies.len() + 1
    &&& Rollback::starts(endpoints, session, tokens, grant_may_be_reused, states[0])
    &&& forall|i: int| 0 <= i < replies.len() ==> #[trigger] rollback_step(states, replies, i)
}

/// One step of a run.
pub open spec fn rollback_step(states: Seq<Rollback>, replies: Seq<Reply>, i: int) -> bool {
    states[i].leads_to(replies[i], states[i + 1])
}

/// A rollback revokes the grant of the new login, in the name of its client, with its
/// refresh token and at its endpoints, unless the grant may be shared; and it deletes
/// the credential of the new login, once the grant is revoked or may be shared. It
/// succeeds only if the credential was deleted.
pub proof fn law_every_rollback_takes_back_the_new_login(
    endpoints: OAuthEndpoints,
    session: OAuthSession,
    tokens: TokenSet,
    grant_may_be_reused: bool,
    states: Seq<Rollback>,
    replies: Seq<Reply>,
    at: int,
)
    requires
        is_rollback_run(endpoints, session, tokens, grant_may_be_reused, states, replies),
        0 <= at < states.len(),
    ensures
        match states[at].asks() {
            Some(Request::RevokeToken { endpoints: asked, client_id, refresh_token }) => {
                &&& !grant_may_be_reused
                &&& *asked == endpoints
                &&& client_id@ == session@.client_id
                &&& refresh_token@ == tokens@.refresh_token
            },
            Some(Request::DeleteCredential(reference)) => {
                &&& reference@.credential_id == session@.credential_id
                &&& reference@.credential_store == session@.credential_store
                &&& grant_may_be_reused || was_revoked(replies, at)
            },
            Some(_) => false,
            None => states[at] matches Rollback::Finished { reference, result }
                && reference@.credential_id == session@.credential_id && reference@.credential_store
                == session@.credential_store && (result is Ok ==> was_deleted(replies, at) && (
            grant_may_be_reused || was_revoked(replies, at))),
        },
        grant_may_be_reused ==> !(states[at] is Revoking),
        !grant_may_be_reused && !(states[at] is Revoking) ==> was_revoked(replies, at) || (
        states[at] matches Rollback::Finished { result: Err(_), .. }),
        states[at] is Revoking ==> states[at] == (Rollback::Revoking { endpoints, session, tokens }),
    decreases at,
{
    if at > 0 {
        law_every_rollback_takes_back_the_new_login(
            endpoints,
            session,
            tokens,
            grant_may_be_reused,
            states,
            replies,
            at - 1,
        );
        assert(rollback_step(states, replies, at - 1));
        if was_revoked(replies, at - 1) {
            let i = choose|i: int| 0 <= i < at - 1 && #[trigger] replies[i] matches Reply::Revoked(Ok(_));
            assert(replies[i] matches Reply::Revoked(Ok(_)));
        }
        if was_deleted(replies, at - 1) {
            let i = choose|i: int|
                0 <= i < at - 1 && #[trigger] replies[i] matches Reply::CredentialDeleted(Ok(_));
            assert(replies[i] matches Reply::CredentialDeleted(Ok(_)));
        }
        let reply = replies[at - 1];
    }
}

/// The provider has confirmed a revocation.
pub open spec fn was_revoked(replies: Seq<Reply>, before: int) -> bool {
    exists|i: int| 0 <= i < before && #[trigger] replies[i] matches Reply::Revoked(Ok(_))
}

/// The store has confirmed a deletion.
pub open spec fn was_deleted(replies: Seq<Reply>, before: int) -> bool {
    exists|i: int| 0 <= i < before && #[trigger] replies[i] matches Reply::CredentialDeleted(Ok(_))
}

}
