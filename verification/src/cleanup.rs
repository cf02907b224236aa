//! Getting rid of older logins: their grants are revoked and their credentials
//! deleted, and what cannot be done yet stays queued.

use vstd::prelude::*;

use crate::config::{
    is_session, lemma_queued_contains, queue_reference, queued, reference_view, references_view, sessions_view,
    CliConfig, ConfigView, OAuthSession, ReferenceView, SessionView,
    StoredCredentialReference,
};
use crate::effect::{Reply, Request};
use crate::error::{message_of, CliConfigError, LoginError};
use crate::issuer::{issuer_of, oauth_issuer};
use crate::metadata::OAuthEndpoints;
use crate::text::{join, joined, opt_view};
use crate::token::TokenSet;
use crate::url::{Url, UrlView};

verus! {

/// Getting rid of one login.
pub enum RevokeOne {
    /// Keep other processes from using the credential.
    Locking { session: OAuthSession },
    /// Read its tokens.
    Loading { session: OAuthSession },
    /// Find out where to revoke the grant.
    Discovering { session: OAuthSession, tokens: TokenSet, issuer: Url },
    /// Revoke the grant.
    Revoking { session: OAuthSession, tokens: TokenSet, endpoints: OAuthEndpoints },
    /// Delete the credential.
    Deleting { session: OAuthSession, reference: StoredCredentialReference },
    /// Let other processes use the credential again.
    Unlocking { session: OAuthSession, result: Result<(), LoginError> },
    /// The login is gone, or why it is not.
    Finished { session: OAuthSession, result: Result<(), LoginError> },
}

/// `result` is what came of reading an issuer that cannot be used.
pub open spec fn fails_as_issuer(result: Result<(), LoginError>, issuer: Seq<char>) -> bool {
    issuer_of(issuer) matches Err(reason) && result matches Err(LoginError::InvalidIssuer(said))
        && said@ == reason
}

impl RevokeOne {
    /// The login that is to go.
    pub open spec fn session(self) -> OAuthSession {
        match self {
            RevokeOne::Locking { session } => session,
            RevokeOne::Loading { session } => session,
            RevokeOne::Discovering { session, .. } => session,
            RevokeOne::Revoking { session, .. } => session,
            RevokeOne::Deleting { session, .. } => session,
            RevokeOne::Unlocking { session, .. } => session,
            RevokeOne::Finished { session, .. } => session,
        }
    }

    /// What is to be done next; `None` at the end.
    pub open spec fn asks<'a>(&'a self) -> Option<Request<'a>> {
        match self {
            RevokeOne::Locking { session } => Some(Request::LockRefresh(&session.credential_id)),
            RevokeOne::Loading { session } => Some(Request::LoadCredentials(session)),
            RevokeOne::Discovering { issuer, .. } => Some(Request::Discover(issuer)),
            RevokeOne::Revoking { session, tokens, endpoints } => Some(
                Request::RevokeToken {
                    endpoints,
                    client_id: &session.client_id,
                    refresh_token: &tokens.refresh_token,
                },
            ),
            RevokeOne::Deleting { reference, .. } => Some(Request::DeleteCredential(reference)),
            RevokeOne::Unlocking { .. } => Some(Request::UnlockRefresh),
            RevokeOne::Finished { .. } => None,
        }
    }

    /// What is to be done next.
    pub fn request<'a>(&'a self) -> (request: Option<Request<'a>>)
        ensures
            request == self.asks(),
    {
        match self {
            RevokeOne::Locking { session } => Some(Request::LockRefresh(&session.credential_id)),
            RevokeOne::Loading { session } => Some(Request::LoadCredentials(session)),
            RevokeOne::Discovering { issuer, .. } => Some(Request::Discover(issuer)),
            RevokeOne::Revoking { session, tokens, endpoints } => Some(
                Request::RevokeToken {
                    endpoints,
                    client_id: &session.client_id,
                    refresh_token: &tokens.refresh_token,
                },
            ),
            RevokeOne::Deleting { reference, .. } => Some(Request::DeleteCredential(reference)),
            RevokeOne::Unlocking { .. } => Some(Request::UnlockRefresh),
            RevokeOne::Finished { .. } => None,
        }
    }

    /// A reply leads from one state to another. A login whose credential is not
    /// there is gone already; its grant is revoked before its credential is
    /// deleted. A reply to something else changes nothing.
    pub open spec fn leads_to(self, reply: Reply, after: RevokeOne) -> bool {
        match (self, reply) {
            (RevokeOne::Locking { session }, Reply::RefreshLocked(Ok(_))) => after
                == (RevokeOne::Loading { session }),
            (RevokeOne::Locking { session }, Reply::RefreshLocked(Err(error))) => after
                == (RevokeOne::Finished { session, result: Err(error) }),
            (RevokeOne::Loading { session }, Reply::CredentialsLoaded(Ok(tokens))) => {
                match issuer_of(session.issuer@) {
                    Ok(expected) => after matches RevokeOne::Discovering {
                        session: same,
                        tokens: kept,
                        issuer,
                    } && same == session && kept == tokens && issuer@ == expected,
                    Err(_) => after matches RevokeOne::Unlocking { session: same, result }
                        && same == session && fails_as_issuer(result, session.issuer@),
                }
            },
            (RevokeOne::Loading { session }, Reply::CredentialsLoaded(Err(error))) => after == (
            RevokeOne::Unlocking {
                session,
                result: if crate::error::credential_not_found(error) {
                    Ok(())
                } else {
                    Err(error)
                },
            }),
            (
                RevokeOne::Discovering { session, tokens, issuer },
                Reply::Discovered(Ok(endpoints)),
            ) => after == (RevokeOne::Revoking { session, tokens, endpoints }),
            (RevokeOne::Discovering { session, .. }, Reply::Discovered(Err(error))) => after == (
            RevokeOne::Unlocking { session, result: Err(error) }),
            (RevokeOne::Revoking { session, .. }, Reply::Revoked(Ok(_))) => {
                after matches RevokeOne::Deleting { session: same, reference } && same == session
                    && reference@ == session@.reference()
            },
            (RevokeOne::Revoking { session, .. }, Reply::Revoked(Err(error))) => after == (
            RevokeOne::Unlocking { session, result: Err(error) }),
            (RevokeOne::Deleting { session, .. }, Reply::CredentialDeleted(result)) => after == (
            RevokeOne::Unlocking { session, result }),
            (RevokeOne::Unlocking { session, result }, Reply::Released) => after == (
            RevokeOne::Finished { session, result }),
            _ => after == self,
        }
    }

    /// Goes on with the reply to the last request.
    pub fn advance(self, reply: Reply) -> (after: RevokeOne)
        ensures
            self.leads_to(reply, after),
            after.session() == self.session(),
    {
        match (self, reply) {
            (RevokeOne::Locking { session }, Reply::RefreshLocked(Ok(_))) => RevokeOne::Loading {
                session,
            },
            (RevokeOne::Locking { session }, Reply::RefreshLocked(Err(error))) => {
                RevokeOne::Finished { session, result: Err(error) }
            },
            (RevokeOne::Loading { session }, Reply::CredentialsLoaded(Ok(tokens))) => {
                match oauth_issuer(Some(session.issuer.as_str()), None) {
                    Ok(issuer) => RevokeOne::Discovering { session, tokens, issuer },
                    Err(error) => RevokeOne::Unlocking { session, result: Err(error) },
                }
            },
            (RevokeOne::Loading { session }, Reply::CredentialsLoaded(Err(error))) => {
                let result = if error.is_credential_not_found() {
                    Ok(())
                } else {
                    Err(error)
                };
                RevokeOne::Unlocking { session, result }
            },
            (
                RevokeOne::Discovering { session, tokens, issuer },
                Reply::Discovered(Ok(endpoints)),
            ) => RevokeOne::Revoking { session, tokens, endpoints },
            (RevokeOne::Discovering { session, .. }, Reply::Discovered(Err(error))) => {
                RevokeOne::Unlocking { session, result: Err(error) }
            },
            (RevokeOne::Revoking { session, .. }, Reply::Revoked(Ok(_))) => {
                let reference = session.credential_reference();
                RevokeOne::Deleting { session, reference }
            },
            (RevokeOne::Revoking { session, .. }, Reply::Revoked(Err(error))) => {
                RevokeOne::Unlocking { session, result: Err(error) }
            },
            (RevokeOne::Deleting { session, .. }, Reply::CredentialDeleted(result)) => {
                RevokeOne::Unlocking { session, result }
            },
            (RevokeOne::Unlocking { session, result }, Reply::Released) => RevokeOne::Finished {
                session,
                result,
            },
            (state, _) => state,
        }
    }
}

/// Getting rid of one credential.
pub enum DeleteOne {
    /// Keep other processes from using the credential.
    Locking { reference: StoredCredentialReference },
    /// Delete it.
    Deleting { reference: StoredCredentialReference },
    /// Let other processes use its identifier again.
    Unlocking { reference: StoredCredentialReference, result: Result<(), LoginError> },
    /// The credential is gone, or why it is not.
    Finished { reference: StoredCredentialReference, result: Result<(), LoginError> },
}

impl DeleteOne {
    /// The credential that is to go.
    pub open spec fn reference(self) -> StoredCredentialReference {
        match self {
            DeleteOne::Locking { reference } => reference,
            DeleteOne::Deleting { reference } => reference,
            DeleteOne::Unlocking { reference, .. } => reference,
            DeleteOne::Finished { reference, .. } => reference,
        }
    }

    /// What is to be done next; `None` at the end.
    pub open spec fn asks<'a>(&'a self) -> Option<Request<'a>> {
        match self {
            DeleteOne::Locking { reference } => Some(
                Request::LockRefresh(&reference.credential_id),
            ),
            DeleteOne::Deleting { reference } => Some(Request::DeleteCredential(reference)),
            DeleteOne::Unlocking { .. } => Some(Request::UnlockRefresh),
            DeleteOne::Finished { .. } => None,
        }
    }

    /// What is to be done next.
    pub fn request<'a>(&'a self) -> (request: Option<Request<'a>>)
        ensures
            request == self.asks(),
    {
        match self {
            DeleteOne::Locking { reference } => Some(
                Request::LockRefresh(&reference.credential_id),
            ),
            DeleteOne::Deleting { reference } => Some(Request::DeleteCredential(reference)),
            DeleteOne::Unlocking { .. } => Some(Request::UnlockRefresh),
            DeleteOne::Finished { .. } => None,
        }
    }

    /// A reply leads from one state to another. A reply to something else
    /// changes nothing.
    pub open spec fn leads_to(self, reply: Reply, after: DeleteOne) -> bool {
        match (self, reply) {
            (DeleteOne::Locking { reference }, Reply::RefreshLocked(Ok(_))) => after == (
            DeleteOne::Deleting { reference }),
            (DeleteOne::Locking { reference }, Reply::RefreshLocked(Err(error))) => after == (
            DeleteOne::Finished { reference, result: Err(error) }),
            (DeleteOne::Deleting { reference }, Reply::CredentialDeleted(result)) => after == (
            DeleteOne::Unlocking { reference, result }),
            (DeleteOne::Unlocking { reference, result }, Reply::Released) => after == (
            DeleteOne::Finished { reference, result }),
            _ => after == self,
        }
    }

    /// Goes on with the reply to the last request.
    pub fn advance(self, reply: Reply) -> (after: DeleteOne)
        ensures
            self.leads_to(reply, after),
            after.reference() == self.reference(),
    {
        match (self, reply) {
            (DeleteOne::Locking { reference }, Reply::RefreshLocked(Ok(_))) => {
                DeleteOne::Deleting { reference }
            },
            (DeleteOne::Locking { reference }, Reply::RefreshLocked(Err(error))) => {
                DeleteOne::Finished { reference, result: Err(error) }
            },
            (DeleteOne::Deleting { reference }, Reply::CredentialDeleted(result)) => {
                DeleteOne::Unlocking { reference, result }
            },
            (DeleteOne::Unlocking { reference, result }, Reply::Released) => {
                DeleteOne::Finished { reference, result }
            },
            (state, _) => state,
        }
    }
}

/// What became of a queued item: `None` if it is gone, and else why it stays.
pub type Verdict = Option<String>;

/// Verdicts, by their characters.
pub open spec fn verdicts_view(verdicts: Seq<Verdict>) -> Seq<Option<Seq<char>>> {
    verdicts.map_values(|verdict: Verdict| opt_view(verdict))
}

/// The items that stay.
pub open spec fn kept<T>(items: Seq<T>, verdicts: Seq<Option<Seq<char>>>) -> Seq<T>
    decreases verdicts.len(),
{
    if verdicts.len() == 0 {
        seq![]
    } else {
        let before = kept(items, verdicts.drop_last());
        if verdicts.last() is Some {
            before.push(items[verdicts.len() - 1])
        } else {
            before
        }
    }
}

/// Why items stay, in order.
pub open spec fn reasons(verdicts: Seq<Option<Seq<char>>>) -> Seq<Seq<char>>
    decreases verdicts.len(),
{
    if verdicts.len() == 0 {
        seq![]
    } else {
        let before = reasons(verdicts.drop_last());
        match verdicts.last() {
            Some(reason) => before.push(reason),
            None => before,
        }
    }
}

/// Texts with semicolons between them.
pub open spec fn listed(texts: Seq<Seq<char>>) -> Seq<char>
    decreases texts.len(),
{
    if texts.len() == 0 {
        seq![]
    } else if texts.len() == 1 {
        texts[0]
    } else {
        listed(texts.drop_last()) + "; "@ + texts.last()
    }
}

/// What is told of the items that stay; nothing where none does.
pub open spec fn warning_of(verdicts: Seq<Option<Seq<char>>>) -> Option<Seq<char>> {
    if reasons(verdicts).len() == 0 {
        None
    } else {
        Some(listed(reasons(verdicts)))
    }
}

/// Some item is gone.
pub open spec fn some_gone(verdicts: Seq<Option<Seq<char>>>) -> bool {
    exists|i: int| 0 <= i < verdicts.len() && #[trigger] verdicts[i] is None
}

/// Joining texts depends on their characters alone.
proof fn lemma_joined_is_listed(texts: Seq<String>)
    ensures
        joined(texts, "; "@) == listed(texts.map_values(|text: String| text@)),
    decreases texts.len(),
{
    let views = texts.map_values(|text: String| text@);
    if texts.len() > 1 {
        lemma_joined_is_listed(texts.drop_last());
        assert(views.drop_last() =~= texts.drop_last().map_values(|text: String| text@));
    }
}

/// What is told of the items that stay, and whether one is gone.
fn sum_up(verdicts: &Vec<Verdict>) -> (result: (bool, Option<String>))
    ensures
        result.0 == some_gone(verdicts_view(verdicts@)),
        opt_view(result.1) == warning_of(verdicts_view(verdicts@)),
{
    let ghost views = verdicts_view(verdicts@);
    let mut gone = false;
    let mut texts: Vec<String> = Vec::new();
    let mut at: usize = 0;
    assert(texts@.map_values(|text: String| text@) =~= reasons(views.take(0)));
    while at < verdicts.len()
        invariant
            at <= verdicts@.len(),
            views == verdicts_view(verdicts@),
            gone == exists|i: int| 0 <= i < at && #[trigger] views[i] is None,
            texts@.map_values(|text: String| text@) == reasons(views.take(at as int)),
        decreases verdicts@.len() - at,
    {
        let ghost before = texts@;
        assert(views.take(at + 1).drop_last() =~= views.take(at as int));
        assert(views.take(at + 1).last() == views[at as int]);
        match &verdicts[at] {
            Some(reason) => {
                texts.push(reason.clone());
                assert(texts@.map_values(|text: String| text@) =~= before.map_values(
                    |text: String| text@,
                ).push(reason@));
            },
            None => {
                assert(views[at as int] is None);
                gone = true;
            },
        }
        at += 1;
    }
    assert(views.take(views.len() as int) =~= views);
    let warning = if texts.len() == 0 {
        None
    } else {
        proof {
            lemma_joined_is_listed(texts@);
        }
        Some(join(&texts, "; "))
    };
    (gone, warning)
}

/// The logins that stay.
fn kept_sessions(items: &Vec<OAuthSession>, verdicts: &Vec<Verdict>) -> (rest: Vec<OAuthSession>)
    requires
        verdicts@.len() <= items@.len(),
    ensures
        sessions_view(rest@) == kept(sessions_view(items@), verdicts_view(verdicts@)),
{
    let ghost views = verdicts_view(verdicts@);
    let ghost sessions = sessions_view(items@);
    let mut rest: Vec<OAuthSession> = Vec::new();
    let mut at: usize = 0;
    assert(sessions_view(rest@) =~= kept(sessions, views.take(0)));
    while at < verdicts.len()
        invariant
            at <= verdicts@.len() <= items@.len(),
            views == verdicts_view(verdicts@),
            sessions == sessions_view(items@),
            sessions_view(rest@) == kept(sessions, views.take(at as int)),
        decreases verdicts@.len() - at,
    {
        let ghost before = rest@;
        assert(views.take(at + 1).drop_last() =~= views.take(at as int));
        if verdicts[at].is_some() {
            rest.push(items[at].duplicate());
            assert(sessions_view(rest@) =~= sessions_view(before).push(sessions[at as int]));
        }
        at += 1;
    }
    assert(views.take(views.len() as int) =~= views);
    rest
}

/// The references that stay.
fn kept_references(items: &Vec<StoredCredentialReference>, verdicts: &Vec<Verdict>) -> (rest: Vec<
    StoredCredentialReference,
>)
    requires
        verdicts@.len() <= items@.len(),
    ensures
        references_view(rest@) == kept(references_view(items@), verdicts_view(verdicts@)),
{
    let ghost views = verdicts_view(verdicts@);
    let ghost references = references_view(items@);
    let mut rest: Vec<StoredCredentialReference> = Vec::new();
    let mut at: usize = 0;
    assert(references_view(rest@) =~= kept(references, views.take(0)));
    while at < verdicts.len()
        invariant
            at <= verdicts@.len() <= items@.len(),
            views == verdicts_view(verdicts@),
            references == references_view(items@),
            references_view(rest@) == kept(references, views.take(at as int)),
        decreases verdicts@.len() - at,
    {
        let ghost before = rest@;
        assert(views.take(at + 1).drop_last() =~= views.take(at as int));
        if verdicts[at].is_some() {
            rest.push(items[at].duplicate());
            assert(references_view(rest@) =~= references_view(before).push(references[at as int]));
        }
        at += 1;
    }
    assert(views.take(views.len() as int) =~= views);
    rest
}

/// The credentials of the logins, queued one after the other.
pub open spec fn all_queued(list: Seq<ReferenceView>, sessions: Seq<SessionView>) -> Seq<
    ReferenceView,
>
    decreases sessions.len(),
{
    if sessions.len() == 0 {
        list
    } else {
        queued(all_queued(list, sessions.drop_last()), sessions.last().reference())
    }
}

/// The configuration once the revocation of all queued logins is given up: only
/// their credentials are still to be deleted.
pub open spec fn without_revocations(config: ConfigView) -> ConfigView {
    ConfigView {
        pending_oauth_cleanup: all_queued(
            config.pending_oauth_cleanup,
            config.pending_oauth_revocation,
        ),
        pending_oauth_revocation: seq![],
        ..config
    }
}

/// Gives up the revocation of all queued logins, and says whether there was one.
pub fn abandon_revocations(config: &mut CliConfig) -> (changed: bool)
    ensures
        final(config)@ == without_revocations(old(config)@),
        changed == (old(config)@.pending_oauth_revocation.len() > 0),
{
    let ghost before = config@;
    let changed = config.pending_oauth_revocation.len() > 0;
    let mut at: usize = 0;
    assert(before.pending_oauth_revocation.take(0) =~= seq![]);
    while at < config.pending_oauth_revocation.len()
        invariant
            at <= config.pending_oauth_revocation@.len(),
            config@ == (ConfigView {
                pending_oauth_cleanup: all_queued(
                    before.pending_oauth_cleanup,
                    before.pending_oauth_revocation.take(at as int),
                ),
                ..before
            }),
        decreases config.pending_oauth_revocation@.len() - at,
    {
        let reference = config.pending_oauth_revocation[at].credential_reference();
        proof {
            let taken = before.pending_oauth_revocation.take(at + 1);
            assert(taken.drop_last() =~= before.pending_oauth_revocation.take(at as int));
            assert(before.pending_oauth_revocation[at as int]
                == config.pending_oauth_revocation@[at as int]@);
        }
        queue_reference(&mut config.pending_oauth_cleanup, reference);
        at += 1;
    }
    assert(before.pending_oauth_revocation.take(at as int) =~= before.pending_oauth_revocation);
    config.pending_oauth_revocation = Vec::new();
    assert(config@.pending_oauth_revocation =~= seq![]);
    changed
}

/// A warning with another message at its end.
pub open spec fn with_message(warning: Option<Seq<char>>, message: Seq<char>) -> Seq<char> {
    match warning {
        Some(warning) => warning + "; "@ + message,
        None => message,
    }
}

/// Puts a message at the end of a warning.
pub fn append_cleanup_warning(warning: &mut Option<String>, message: String)
    ensures
        opt_view(*final(warning)) == Some(with_message(opt_view(*old(warning)), message@)),
{
    let text = match warning {
        Some(text) => {
            let mut all = text.clone();
            all.append("; ");
            all.append(message.as_str());
            all
        },
        None => message,
    };
    *warning = Some(text);
}

/// Why the queues on disk may not be up to date.
pub open spec fn metadata_warning(error: CliConfigError) -> Seq<char> {
    "could not update OAuth credential cleanup metadata: "@ + error.message@
}

/// Puts at the end of a warning why the queues on disk may not be up to date.
pub fn append_metadata_warning(warning: &mut Option<String>, error: &CliConfigError)
    ensures
        opt_view(*final(warning)) == Some(
            with_message(opt_view(*old(warning)), metadata_warning(*error)),
        ),
{
    let mut message = "could not update OAuth credential cleanup metadata: ".to_owned();
    message.append(error.message.as_str());
    append_cleanup_warning(warning, message);
}

/// Why the login that is in use stays queued.
pub open spec fn active_reason(credential_id: Seq<char>) -> Seq<char> {
    "credential "@ + credential_id + " is still active"@
}

fn active_text(credential_id: &str) -> (text: String)
    ensures
        text@ == active_reason(credential_id@),
{
    let mut text = "credential ".to_owned();
    text.append(credential_id);
    text.append(" is still active");
    text
}

/// What became of a queued item that was worked on.
pub open spec fn verdict_of(credential_id: Seq<char>, result: Result<(), LoginError>) -> Option<
    Seq<char>,
> {
    match result {
        Ok(_) => None,
        Err(error) => Some("credential "@ + credential_id + ": "@ + message_of(error)),
    }
}

fn verdict(credential_id: &str, result: &Result<(), LoginError>) -> (verdict: Verdict)
    ensures
        opt_view(verdict) == verdict_of(credential_id@, *result),
{
    match result {
        Ok(_) => None,
        Err(error) => {
            let mut text = "credential ".to_owned();
            text.append(credential_id);
            text.append(": ");
            text.append(error.message().as_str());
            Some(text)
        },
    }
}

/// The verdicts once the queued logins at the front that are in use are passed over.
pub open spec fn skip_active_sessions(
    active: Option<SessionView>,
    pending: Seq<SessionView>,
    verdicts: Seq<Option<Seq<char>>>,
) -> Seq<Option<Seq<char>>>
    decreases pending.len() - verdicts.len(),
{
    if verdicts.len() < pending.len() && active == Some(pending[verdicts.len() as int]) {
        skip_active_sessions(
            active,
            pending,
            verdicts.push(Some(active_reason(pending[verdicts.len() as int].credential_id))),
        )
    } else {
        verdicts
    }
}

/// The verdicts once the queued credentials at the front that are in use are
/// passed over.
pub open spec fn skip_active_references(
    active: Option<ReferenceView>,
    pending: Seq<ReferenceView>,
    verdicts: Seq<Option<Seq<char>>>,
) -> Seq<Option<Seq<char>>>
    decreases pending.len() - verdicts.len(),
{
    if verdicts.len() < pending.len() && active == Some(pending[verdicts.len() as int]) {
        skip_active_references(
            active,
            pending,
            verdicts.push(Some(active_reason(pending[verdicts.len() as int].credential_id))),
        )
    } else {
        verdicts
    }
}

/// The credential of the login that is in use.
pub open spec fn active_reference(config: ConfigView) -> Option<ReferenceView> {
    match config.oauth {
        Some(session) => Some(session.reference()),
        None => None,
    }
}

/// Getting rid of everything that is queued.
pub enum Cleanup {
    /// The queued logins are worked through; `verdicts` says what became of the
    /// first ones.
    Revoking { config: CliConfig, verdicts: Vec<Verdict>, current: RevokeOne },
    /// The queued credentials are worked through, once the logins are.
    Deleting {
        config: CliConfig,
        changed: bool,
        warning: Option<String>,
        verdicts: Vec<Verdict>,
        current: DeleteOne,
    },
    /// All that is queued has been worked through: `changed` says whether the
    /// configuration has, and `warning` why some of it stays queued.
    Finished { config: CliConfig, changed: bool, warning: Option<String> },
}

/// A warning with another one at its end.
pub open spec fn with_warning(warning: Option<Seq<char>>, more: Option<Seq<char>>) -> Option<
    Seq<char>,
> {
    match more {
        Some(more) => Some(with_message(warning, more)),
        None => warning,
    }
}

/// The next state while the queued credentials are worked through.
pub open spec fn deleting_from(
    config: ConfigView,
    changed: bool,
    warning: Option<Seq<char>>,
    verdicts: Seq<Option<Seq<char>>>,
    after: Cleanup,
) -> bool {
    let pending = config.pending_oauth_cleanup;
    let all = skip_active_references(active_reference(config), pending, verdicts);
    if all.len() < pending.len() {
        after matches Cleanup::Deleting {
            config: same,
            changed: still,
            warning: said,
            verdicts: now,
            current,
        } && same@ == config && still == changed && opt_view(said) == warning && verdicts_view(now@)
            == all && (current matches DeleteOne::Locking { reference } && reference@
            == pending[all.len() as int])
    } else {
        after matches Cleanup::Finished { config: same, changed: still, warning: said } && same@
            == (ConfigView { pending_oauth_cleanup: kept(pending, all), ..config }) && still == (
        changed || some_gone(all)) && opt_view(said) == with_warning(warning, warning_of(all))
    }
}

/// The next state while the queued logins are worked through.
pub open spec fn revoking_from(
    config: ConfigView,
    verdicts: Seq<Option<Seq<char>>>,
    after: Cleanup,
) -> bool {
    let pending = config.pending_oauth_revocation;
    let all = skip_active_sessions(config.oauth, pending, verdicts);
    if all.len() < pending.len() {
        after matches Cleanup::Revoking { config: same, verdicts: now, current } && same@ == config
            && verdicts_view(now@) == all && (current matches RevokeOne::Locking { session }
            && session@ == pending[all.len() as int])
    } else {
        deleting_from(
            ConfigView { pending_oauth_revocation: kept(pending, all), ..config },
            some_gone(all),
            warning_of(all),
            seq![],
            after,
        )
    }
}

/// Skipping stops at an item that is not in use, or at the end.
proof fn lemma_skip_sessions(
    active: Option<SessionView>,
    pending: Seq<SessionView>,
    verdicts: Seq<Option<Seq<char>>>,
)
    requires
        verdicts.len() <= pending.len(),
    ensures
        ({
            let all = skip_active_sessions(active, pending, verdicts);
            &&& verdicts.len() <= all.len() <= pending.len()
            &&& all.len() < pending.len() ==> active != Some(pending[all.len() as int])
        }),
    decreases pending.len() - verdicts.len(),
{
    if verdicts.len() < pending.len() && active == Some(pending[verdicts.len() as int]) {
        lemma_skip_sessions(
            active,
            pending,
            verdicts.push(Some(active_reason(pending[verdicts.len() as int].credential_id))),
        );
    }
}

/// Skipping stops at an item that is not in use, or at the end.
proof fn lemma_skip_references(
    active: Option<ReferenceView>,
    pending: Seq<ReferenceView>,
    verdicts: Seq<Option<Seq<char>>>,
)
    requires
        verdicts.len() <= pending.len(),
    ensures
        ({
            let all = skip_active_references(active, pending, verdicts);
            &&& verdicts.len() <= all.len() <= pending.len()
            &&& all.len() < pending.len() ==> active != Some(pending[all.len() as int])
        }),
    decreases pending.len() - verdicts.len(),
{
    if verdicts.len() < pending.len() && active == Some(pending[verdicts.len() as int]) {
        lemma_skip_references(
            active,
            pending,
            verdicts.push(Some(active_reason(pending[verdicts.len() as int].credential_id))),
        );
    }
}

/// Goes on with the queued credentials.
fn continue_deleting(
    config: CliConfig,
    changed: bool,
    warning: Option<String>,
    verdicts: Vec<Verdict>,
) -> (after: Cleanup)
    requires
        verdicts@.len() <= config@.pending_oauth_cleanup.len(),
    ensures
        deleting_from(config@, changed, opt_view(warning), verdicts_view(verdicts@), after),
        after.wf(),
{
    let ghost pending = config@.pending_oauth_cleanup;
    let ghost start = verdicts_view(verdicts@);
    let mut config = config;
    let mut warning = warning;
    let mut verdicts = verdicts;
    let active = match &config.oauth {
        Some(session) => Some(session.credential_reference()),
        None => None,
    };
    proof {
        lemma_skip_references(active_reference(config@), pending, start);
    }
    while verdicts.len() < config.pending_oauth_cleanup.len()
        invariant
            verdicts@.len() <= config@.pending_oauth_cleanup.len(),
            config@.pending_oauth_cleanup == pending,
            reference_view(active) == active_reference(config@),
            skip_active_references(active_reference(config@), pending, start)
                == skip_active_references(
                active_reference(config@),
                pending,
                verdicts_view(verdicts@),
            ),
        ensures
            verdicts@.len() <= pending.len(),
            verdicts_view(verdicts@) == skip_active_references(
                active_reference(config@),
                pending,
                start,
            ),
        decreases config@.pending_oauth_cleanup.len() - verdicts@.len(),
    {
        let at: usize = verdicts.len();
        let reference = &config.pending_oauth_cleanup[at];
        assert(pending[at as int] == reference@);
        let in_use = match &active {
            Some(active) => active.same(reference),
            None => false,
        };
        if !in_use {
            break ;
        }
        let ghost before = verdicts@;
        verdicts.push(Some(active_text(reference.credential_id.as_str())));
        assert(verdicts_view(verdicts@) =~= verdicts_view(before).push(
            Some(active_reason(pending[at as int].credential_id)),
        ));
    }
    if verdicts.len() < config.pending_oauth_cleanup.len() {
        let reference = config.pending_oauth_cleanup[verdicts.len()].duplicate();
        assert(reference@ == pending[verdicts@.len() as int]);
        let current = DeleteOne::Locking { reference };
        Cleanup::Deleting { config, changed, warning, verdicts, current }
    } else {
        let (gone, more) = sum_up(&verdicts);
        let rest = kept_references(&config.pending_oauth_cleanup, &verdicts);
        if let Some(more) = more {
            append_cleanup_warning(&mut warning, more);
        }
        config.pending_oauth_cleanup = rest;
        Cleanup::Finished { config, changed: changed || gone, warning }
    }
}

/// Goes on with the queued logins.
fn continue_revoking(config: CliConfig, verdicts: Vec<Verdict>) -> (after: Cleanup)
    requires
        verdicts@.len() <= config@.pending_oauth_revocation.len(),
    ensures
        revoking_from(config@, verdicts_view(verdicts@), after),
        after.wf(),
{
    let ghost pending = config@.pending_oauth_revocation;
    let ghost start = verdicts_view(verdicts@);
    let mut config = config;
    let mut verdicts = verdicts;
    proof {
        lemma_skip_sessions(config@.oauth, pending, start);
    }
    while verdicts.len() < config.pending_oauth_revocation.len()
        invariant
            verdicts@.len() <= config@.pending_oauth_revocation.len(),
            config@.pending_oauth_revocation == pending,
            skip_active_sessions(config@.oauth, pending, start) == skip_active_sessions(
                config@.oauth,
                pending,
                verdicts_view(verdicts@),
            ),
        ensures
            verdicts@.len() <= pending.len(),
            verdicts_view(verdicts@) == skip_active_sessions(config@.oauth, pending, start),
        decreases config@.pending_oauth_revocation.len() - verdicts@.len(),
    {
        let at: usize = verdicts.len();
        let session = &config.pending_oauth_revocation[at];
        assert(pending[at as int] == session@);
        if !is_session(&config.oauth, session) {
            break ;
        }
        let ghost before = verdicts@;
        verdicts.push(Some(active_text(session.credential_id.as_str())));
        assert(verdicts_view(verdicts@) =~= verdicts_view(before).push(
            Some(active_reason(pending[at as int].credential_id)),
        ));
    }
    if verdicts.len() < config.pending_oauth_revocation.len() {
        let session = config.pending_oauth_revocation[verdicts.len()].duplicate();
        assert(session@ == pending[verdicts@.len() as int]);
        let current = RevokeOne::Locking { session };
        Cleanup::Revoking { config, verdicts, current }
    } else {
        let (gone, warning) = sum_up(&verdicts);
        let rest = kept_sessions(&config.pending_oauth_revocation, &verdicts);
        config.pending_oauth_revocation = rest;
        let none: Vec<Verdict> = Vec::new();
        assert(verdicts_view(none@) =~= seq![]);
        continue_deleting(config, gone, warning, none)
    }
}

impl Cleanup {
    /// What is worked on is queued, is the next in line, and is not in use.
    pub open spec fn wf(self) -> bool {
        match self {
            Cleanup::Revoking { config, verdicts, current } => {
                let pending = config@.pending_oauth_revocation;
                &&& verdicts@.len() < pending.len()
                &&& current.session()@ == pending[verdicts@.len() as int]
                &&& config@.oauth != Some(current.session()@)
                &&& !(current is Finished)
                &&& current matches RevokeOne::Deleting { reference, .. } ==> reference@
                    == current.session()@.reference()
            },
            Cleanup::Deleting { config, verdicts, current, .. } => {
                let pending = config@.pending_oauth_cleanup;
                &&& verdicts@.len() < pending.len()
                &&& current.reference()@ == pending[verdicts@.len() as int]
                &&& active_reference(config@) != Some(current.reference()@)
                &&& !(current is Finished)
            },
            Cleanup::Finished { .. } => true,
        }
    }

    /// The configuration as it stands.
    pub open spec fn config(self) -> CliConfig {
        match self {
            Cleanup::Revoking { config, .. } => config,
            Cleanup::Deleting { config, .. } => config,
            Cleanup::Finished { config, .. } => config,
        }
    }

    /// Starts to get rid of what is queued. Without `revoke_pending` no grant is
    /// revoked: only credentials are deleted.
    pub fn start(config: CliConfig, revoke_pending: bool) -> (cleanup: Cleanup)
        ensures
            cleanup.wf(),
            starts_cleanup(config@, revoke_pending, cleanup),
    {
        let none: Vec<Verdict> = Vec::new();
        assert(verdicts_view(none@) =~= seq![]);
        if revoke_pending {
            continue_revoking(config, none)
        } else {
            let mut config = config;
            let changed = abandon_revocations(&mut config);
            continue_deleting(config, changed, None, none)
        }
    }

    /// What is to be done next; `None` at the end.
    pub open spec fn asks<'a>(&'a self) -> Option<Request<'a>> {
        match self {
            Cleanup::Revoking { current, .. } => current.asks(),
            Cleanup::Deleting { current, .. } => current.asks(),
            Cleanup::Finished { .. } => None,
        }
    }

    /// What is to be done next.
    pub fn request<'a>(&'a self) -> (request: Option<Request<'a>>)
        ensures
            request == self.asks(),
    {
        match self {
            Cleanup::Revoking { current, .. } => current.request(),
            Cleanup::Deleting { current, .. } => current.request(),
            Cleanup::Finished { .. } => None,
        }
    }

    /// A reply leads from one state to another: to the next step with the same
    /// item, or to the next item once the verdict on this one is in.
    pub open spec fn leads_to(self, reply: Reply, after: Cleanup) -> bool {
        match self {
            Cleanup::Revoking { config, verdicts, current } => exists|next: RevokeOne| #[trigger]
                current.leads_to(reply, next) && (match next {
                    RevokeOne::Finished { session, result } => revoking_from(
                        config@,
                        verdicts_view(verdicts@).push(verdict_of(session@.credential_id, result)),
                        after,
                    ),
                    _ => after == (Cleanup::Revoking { config, verdicts, current: next }),
                }),
            Cleanup::Deleting { config, changed, warning, verdicts, current } => exists|
                next: DeleteOne,
            | #[trigger]
                current.leads_to(reply, next) && (match next {
                    DeleteOne::Finished { reference, result } => deleting_from(
                        config@,
                        changed,
                        opt_view(warning),
                        verdicts_view(verdicts@).push(verdict_of(reference@.credential_id, result)),
                        after,
                    ),
                    _ => after == (Cleanup::Deleting {
                        config,
                        changed,
                        warning,
                        verdicts,
                        current: next,
                    }),
                }),
            Cleanup::Finished { .. } => after == self,
        }
    }

    /// Goes on with the reply to the last request.
    pub fn advance(self, reply: Reply) -> (after: Cleanup)
        requires
            self.wf(),
        ensures
            self.leads_to(reply, after),
            after.wf(),
    {
        match self {
            Cleanup::Revoking { config, verdicts, current } => {
                let ghost was = current;
                let next = current.advance(reply);
                assert(was.leads_to(reply, next));
                match next {
                    RevokeOne::Finished { session, result } => {
                        let ghost before = verdicts@;
                        let mut verdicts = verdicts;
                        verdicts.push(verdict(session.credential_id.as_str(), &result));
                        assert(verdicts_view(verdicts@) =~= verdicts_view(before).push(
                            verdict_of(session@.credential_id, result),
                        ));
                        continue_revoking(config, verdicts)
                    },
                    _ => Cleanup::Revoking { config, verdicts, current: next },
                }
            },
            Cleanup::Deleting { config, changed, warning, verdicts, current } => {
                let ghost was = current;
                let next = current.advance(reply);
                assert(was.leads_to(reply, next));
                match next {
                    DeleteOne::Finished { reference, result } => {
                        let ghost before = verdicts@;
                        let mut verdicts = verdicts;
                        verdicts.push(verdict(reference.credential_id.as_str(), &result));
                        assert(verdicts_view(verdicts@) =~= verdicts_view(before).push(
                            verdict_of(reference@.credential_id, result),
                        ));
                        continue_deleting(config, changed, warning, verdicts)
                    },
                    _ => Cleanup::Deleting { config, changed, warning, verdicts, current: next },
                }
            },
            finished => finished,
        }
    }
}

/// The first state of getting rid of what is queued.
pub open spec fn starts_cleanup(config: ConfigView, revoke_pending: bool, cleanup: Cleanup) -> bool {
    if revoke_pending {
        revoking_from(config, seq![], cleanup)
    } else {
        deleting_from(
            without_revocations(config),
            config.pending_oauth_revocation.len() > 0,
            None,
            seq![],
            cleanup,
        )
    }
}

/// `after` differs from `before` in the two queues alone, and has no item there
/// that `before` has not.
pub open spec fn only_loses_queued(before: ConfigView, after: ConfigView) -> bool {
    &&& after == (ConfigView {
        pending_oauth_cleanup: after.pending_oauth_cleanup,
        pending_oauth_revocation: after.pending_oauth_revocation,
        ..before
    })
    &&& forall|reference: ReferenceView| #[trigger]
        after.pending_oauth_cleanup.contains(reference) ==> before.pending_oauth_cleanup.contains(
            reference,
        )
    &&& forall|session: SessionView| #[trigger]
        after.pending_oauth_revocation.contains(session)
            ==> before.pending_oauth_revocation.contains(session)
}

/// What stays was there.
proof fn lemma_kept_was_there<T>(items: Seq<T>, verdicts: Seq<Option<Seq<char>>>)
    requires
        verdicts.len() <= items.len(),
    ensures
        forall|item: T| #[trigger] kept(items, verdicts).contains(item) ==> items.contains(item),
    decreases verdicts.len(),
{
    if verdicts.len() > 0 {
        let rest = kept(items, verdicts.drop_last());
        lemma_kept_was_there(items, verdicts.drop_last());
        assert forall|item: T| #[trigger] kept(items, verdicts).contains(item) implies items.contains(
            item,
        ) by {
            let at = choose|at: int|
                0 <= at < kept(items, verdicts).len() && kept(items, verdicts)[at] == item;
            if at < rest.len() {
                assert(rest[at] == item);
                assert(rest.contains(item));
            } else {
                assert(items[verdicts.len() - 1] == item);
            }
        }
    }
}

/// Working through the queued credentials only takes some of them away.
proof fn lemma_deleting_only_loses(
    config: ConfigView,
    changed: bool,
    warning: Option<Seq<char>>,
    verdicts: Seq<Option<Seq<char>>>,
    after: Cleanup,
)
    requires
        verdicts.len() <= config.pending_oauth_cleanup.len(),
        deleting_from(config, changed, warning, verdicts, after),
    ensures
        only_loses_queued(config, after.config()@),
{
    let all = skip_active_references(
        active_reference(config),
        config.pending_oauth_cleanup,
        verdicts,
    );
    lemma_skip_references(active_reference(config), config.pending_oauth_cleanup, verdicts);
    lemma_kept_was_there(config.pending_oauth_cleanup, all);
}

/// Working through the queued logins only takes some of them away.
proof fn lemma_revoking_only_loses(
    config: ConfigView,
    verdicts: Seq<Option<Seq<char>>>,
    after: Cleanup,
)
    requires
        verdicts.len() <= config.pending_oauth_revocation.len(),
        revoking_from(config, verdicts, after),
    ensures
        only_loses_queued(config, after.config()@),
{
    let pending = config.pending_oauth_revocation;
    let all = skip_active_sessions(config.oauth, pending, verdicts);
    lemma_skip_sessions(config.oauth, pending, verdicts);
    lemma_kept_was_there(pending, all);
    if all.len() >= pending.len() {
        let settled = ConfigView { pending_oauth_revocation: kept(pending, all), ..config };
        lemma_deleting_only_loses(settled, some_gone(all), warning_of(all), seq![], after);
    }
}

/// The state of the queued login that is worked on, behind a step.
proof fn lemma_next_revocation(state: Cleanup, reply: Reply, after: Cleanup) -> (next: RevokeOne)
    requires
        state is Revoking,
        state.leads_to(reply, after),
    ensures
        state matches Cleanup::Revoking { config, verdicts, current } && current.leads_to(
            reply,
            next,
        ) && match next {
            RevokeOne::Finished { session, result } => revoking_from(
                config@,
                verdicts_view(verdicts@).push(verdict_of(session@.credential_id, result)),
                after,
            ),
            _ => after == (Cleanup::Revoking { config, verdicts, current: next }),
        },
{
    let (config, verdicts, current) = match state {
        Cleanup::Revoking { config, verdicts, current } => (config, verdicts, current),
        _ => arbitrary(),
    };
    choose|next: RevokeOne| #[trigger]
        current.leads_to(reply, next) && (match next {
            RevokeOne::Finished { session, result } => revoking_from(
                config@,
                verdicts_view(verdicts@).push(verdict_of(session@.credential_id, result)),
                after,
            ),
            _ => after == (Cleanup::Revoking { config, verdicts, current: next }),
        })
}

/// The state of the queued credential that is worked on, behind a step.
proof fn lemma_next_deletion(state: Cleanup, reply: Reply, after: Cleanup) -> (next: DeleteOne)
    requires
        state is Deleting,
        state.leads_to(reply, after),
    ensures
        state matches Cleanup::Deleting { config, changed, warning, verdicts, current }
            && current.leads_to(reply, next) && match next {
            DeleteOne::Finished { reference, result } => deleting_from(
                config@,
                changed,
                opt_view(warning),
                verdicts_view(verdicts@).push(verdict_of(reference@.credential_id, result)),
                after,
            ),
            _ => after == (Cleanup::Deleting {
                config,
                changed,
                warning,
                verdicts,
                current: next,
            }),
        },
{
    let (config, changed, warning, verdicts, current) = match state {
        Cleanup::Deleting { config, changed, warning, verdicts, current } => (
            config,
            changed,
            warning,
            verdicts,
            current,
        ),
        _ => arbitrary(),
    };
    choose|next: DeleteOne| #[trigger]
        current.leads_to(reply, next) && (match next {
            DeleteOne::Finished { reference, result } => deleting_from(
                config@,
                changed,
                opt_view(warning),
                verdicts_view(verdicts@).push(verdict_of(reference@.credential_id, result)),
                after,
            ),
            _ => after == (Cleanup::Deleting {
                config,
                changed,
                warning,
                verdicts,
                current: next,
            }),
        })
}

/// Getting rid of older logins only takes items out of the two queues: every
/// other setting, and above all the login in use, stays as it is.
pub proof fn law_cleanup_only_loses_queued(state: Cleanup, reply: Reply, after: Cleanup)
    requires
        state.wf(),
        state.leads_to(reply, after),
    ensures
        only_loses_queued(state.config()@, after.config()@),
{
    match state {
        Cleanup::Revoking { config, verdicts, current } => {
            let next = lemma_next_revocation(state, reply, after);
            if let RevokeOne::Finished { session, result } = next {
                lemma_revoking_only_loses(
                    config@,
                    verdicts_view(verdicts@).push(verdict_of(session@.credential_id, result)),
                    after,
                );
            }
        },
        Cleanup::Deleting { config, changed, warning, verdicts, current } => {
            let next = lemma_next_deletion(state, reply, after);
            if let DeleteOne::Finished { reference, result } = next {
                lemma_deleting_only_loses(
                    config@,
                    changed,
                    opt_view(warning),
                    verdicts_view(verdicts@).push(verdict_of(reference@.credential_id, result)),
                    after,
                );
            }
        },
        Cleanup::Finished { .. } => {},
    }
}

/// From the first state on the two queues only lose items; without revocations the
/// queued logins have become queued credentials before.
pub proof fn law_cleanup_starts_from_the_queues(
    config: ConfigView,
    revoke_pending: bool,
    cleanup: Cleanup,
)
    requires
        starts_cleanup(config, revoke_pending, cleanup),
    ensures
        only_loses_queued(
            if revoke_pending {
                config
            } else {
                without_revocations(config)
            },
            cleanup.config()@,
        ),
{
    if revoke_pending {
        lemma_revoking_only_loses(config, seq![], cleanup);
    } else {
        lemma_deleting_only_loses(
            without_revocations(config),
            config.pending_oauth_revocation.len() > 0,
            None,
            seq![],
            cleanup,
        );
    }
}

/// The credential that a request is about, if it takes hold of one, uses it or
/// deletes it.
pub open spec fn credential_of(request: Request) -> Option<Seq<char>> {
    match request {
        Request::LockRefresh(credential_id) => Some(credential_id@),
        Request::LoadCredentials(session) => Some(session@.credential_id),
        Request::DeleteCredential(reference) => Some(reference@.credential_id),
        _ => None,
    }
}

/// The login in use is left alone: a queued login that is worked on differs from
/// it, a queued credential that is worked on is not its credential, and nothing is
/// asked about any other credential than the one that is worked on.
pub proof fn law_login_in_use_is_left_alone(cleanup: Cleanup)
    requires
        cleanup.wf(),
    ensures
        cleanup matches Cleanup::Revoking { config, current, .. } ==> config@.oauth != Some(
            current.session()@,
        ) && (cleanup.asks() matches Some(request) ==> credential_of(request) matches Some(id)
            ==> id == current.session()@.credential_id),
        cleanup matches Cleanup::Deleting { config, current, .. } ==> active_reference(config@)
            != Some(current.reference()@) && (cleanup.asks() matches Some(request)
            ==> credential_of(request) matches Some(id) ==> id
            == current.reference()@.credential_id),
{
}

/// A queued login's credential is deleted only once its grant has been revoked.
pub proof fn law_deleted_only_after_revocation(state: RevokeOne, reply: Reply, after: RevokeOne)
    requires
        state.leads_to(reply, after),
        after is Deleting,
    ensures
        state is Deleting || state is Revoking && reply matches Reply::Revoked(Ok(_)),
{
}

/// A queued login is done with only if its credential was not there, or was
/// deleted.
pub proof fn law_gone_only_without_credential(state: RevokeOne, reply: Reply, after: RevokeOne)
    requires
        state.leads_to(reply, after),
        after matches RevokeOne::Unlocking { result: Ok(_), .. },
    ensures
        state is Unlocking || reply matches Reply::CredentialDeleted(Ok(_)) || (
        reply matches Reply::CredentialsLoaded(Err(error)) && crate::error::credential_not_found(
            error,
        )),
{
}

/// Without revocations the issuer is never asked for anything.
pub proof fn law_local_cleanup_stays_local(state: Cleanup, reply: Reply, after: Cleanup)
    requires
        !(state is Revoking),
        state.leads_to(reply, after),
    ensures
        !(after is Revoking),
        !(state.asks() matches Some(Request::Discover(_))),
        !(state.asks() matches Some(Request::RevokeToken { .. })),
{
}

impl RevokeOne {
    /// Whether other processes are kept from using the credential.
    pub open spec fn holds_refresh_lock(self) -> bool {
        !(self is Locking || self is Finished)
    }
}

impl DeleteOne {
    /// Whether other processes are kept from using the credential.
    pub open spec fn holds_refresh_lock(self) -> bool {
        !(self is Locking || self is Finished)
    }
}

impl Cleanup {
    /// Whether other processes are kept from using the credential that is worked
    /// on.
    pub open spec fn holds_refresh_lock(self) -> bool {
        match self {
            Cleanup::Revoking { current, .. } => current.holds_refresh_lock(),
            Cleanup::Deleting { current, .. } => current.holds_refresh_lock(),
            Cleanup::Finished { .. } => false,
        }
    }
}

/// A credential is read and deleted only while others are kept from using it. The
/// lock is never asked for while it is held, and it is let go of before the next
/// item is worked on.
pub proof fn law_cleanup_locks_each_credential(state: Cleanup, reply: Reply, after: Cleanup)
    requires
        state.leads_to(reply, after),
    ensures
        match state.asks() {
            Some(Request::LockRefresh(_)) => !state.holds_refresh_lock(),
            Some(Request::LoadCredentials(_)) => state.holds_refresh_lock(),
            Some(Request::RevokeToken { .. }) => state.holds_refresh_lock(),
            Some(Request::DeleteCredential(_)) => state.holds_refresh_lock(),
            _ => true,
        },
        !state.holds_refresh_lock() && after.holds_refresh_lock()
            ==> reply matches Reply::RefreshLocked(Ok(_)),
        state.holds_refresh_lock() && !after.holds_refresh_lock() ==> reply is Released
            && state.asks() == Some(Request::UnlockRefresh),
{
}

/// Getting rid of older logins never leaves the states that it is meant to be in.
pub proof fn law_cleanup_stays_well_formed(state: Cleanup, reply: Reply, after: Cleanup)
    requires
        state.wf(),
        state.leads_to(reply, after),
    ensures
        after.wf(),
{
    match state {
        Cleanup::Revoking { config, verdicts, current } => {
            let next = lemma_next_revocation(state, reply, after);
            if let RevokeOne::Finished { session, result } = next {
                lemma_revoking_is_well_formed(
                    config@,
                    verdicts_view(verdicts@).push(verdict_of(session@.credential_id, result)),
                    after,
                );
            }
        },
        Cleanup::Deleting { config, changed, warning, verdicts, current } => {
            let next = lemma_next_deletion(state, reply, after);
            if let DeleteOne::Finished { reference, result } = next {
                lemma_deleting_is_well_formed(
                    config@,
                    changed,
                    opt_view(warning),
                    verdicts_view(verdicts@).push(verdict_of(reference@.credential_id, result)),
                    after,
                );
            }
        },
        Cleanup::Finished { .. } => {},
    }
}

/// The states while the queued credentials are worked through.
proof fn lemma_deleting_is_well_formed(
    config: ConfigView,
    changed: bool,
    warning: Option<Seq<char>>,
    verdicts: Seq<Option<Seq<char>>>,
    after: Cleanup,
)
    requires
        verdicts.len() <= config.pending_oauth_cleanup.len(),
        deleting_from(config, changed, warning, verdicts, after),
    ensures
        after.wf(),
        !(after is Revoking),
{
    lemma_skip_references(active_reference(config), config.pending_oauth_cleanup, verdicts);
    if let Cleanup::Deleting { verdicts: now, .. } = after {
        assert(verdicts_view(now@).len() == now@.len());
    }
}

/// The states while the queued logins are worked through.
proof fn lemma_revoking_is_well_formed(
    config: ConfigView,
    verdicts: Seq<Option<Seq<char>>>,
    after: Cleanup,
)
    requires
        verdicts.len() <= config.pending_oauth_revocation.len(),
        revoking_from(config, verdicts, after),
    ensures
        after.wf(),
{
    let pending = config.pending_oauth_revocation;
    let all = skip_active_sessions(config.oauth, pending, verdicts);
    lemma_skip_sessions(config.oauth, pending, verdicts);
    if let Cleanup::Revoking { verdicts: now, .. } = after {
        assert(verdicts_view(now@).len() == now@.len());
    }
    if all.len() >= pending.len() {
        let settled = ConfigView { pending_oauth_revocation: kept(pending, all), ..config };
        lemma_deleting_is_well_formed(settled, some_gone(all), warning_of(all), seq![], after);
    }
}

/// The first state is one that a cleanup is meant to be in.
pub proof fn law_cleanup_starts_well_formed(
    config: ConfigView,
    revoke_pending: bool,
    cleanup: Cleanup,
)
    requires
        starts_cleanup(config, revoke_pending, cleanup),
    ensures
        cleanup.wf(),
        !revoke_pending ==> !(cleanup is Revoking),
{
    if revoke_pending {
        lemma_revoking_is_well_formed(config, seq![], cleanup);
    } else {
        lemma_deleting_is_well_formed(
            without_revocations(config),
            config.pending_oauth_revocation.len() > 0,
            None,
            seq![],
            cleanup,
        );
    }
}

/// A cleanup that has come from its first state by these replies.
pub open spec fn is_cleanup_run(
    config: ConfigView,
    revoke_pending: bool,
    states: Seq<Cleanup>,
    replies: Seq<Reply>,
) -> bool {
    &&& states.len() == replies.len() + 1
    &&& starts_cleanup(config, revoke_pending, states[0])
    &&& forall|i: int| 0 <= i < replies.len() ==> #[trigger] cleanup_step(states, replies, i)
}

/// One step of a run.
pub open spec fn cleanup_step(states: Seq<Cleanup>, replies: Seq<Reply>, i: int) -> bool {
    states[i].leads_to(replies[i], states[i + 1])
}

/// However a cleanup goes, it only takes items out of the two queues, every state of
/// it is one that it is meant to be in, and without revocations the issuer is never
/// asked for anything.
pub proof fn law_every_cleanup_only_loses_queued(
    config: ConfigView,
    revoke_pending: bool,
    states: Seq<Cleanup>,
    replies: Seq<Reply>,
    at: int,
)
    requires
        is_cleanup_run(config, revoke_pending, states, replies),
        0 <= at < states.len(),
    ensures
        states[at].wf(),
        only_loses_queued(
            if revoke_pending {
                config
            } else {
                without_revocations(config)
            },
            states[at].config()@,
        ),
        !revoke_pending ==> !(states[at] is Revoking),
    decreases at,
{
    law_cleanup_starts_well_formed(config, revoke_pending, states[0]);
    law_cleanup_starts_from_the_queues(config, revoke_pending, states[0]);
    if at > 0 {
        law_every_cleanup_only_loses_queued(config, revoke_pending, states, replies, at - 1);
        assert(cleanup_step(states, replies, at - 1));
        law_cleanup_stays_well_formed(states[at - 1], replies[at - 1], states[at]);
        law_cleanup_only_loses_queued(states[at - 1], replies[at - 1], states[at]);
        if !revoke_pending {
            law_local_cleanup_stays_local(states[at - 1], replies[at - 1], states[at]);
        }
    }
}

/// Items stay queued exactly if there is a reason for it: every item with a reason
/// stays, there are as many of them as there are reasons, and an item without one
/// leaves, unless it is queued a second time.
pub proof fn law_items_stay_for_a_reason<T>(items: Seq<T>, verdicts: Seq<Option<Seq<char>>>)
    requires
        verdicts.len() <= items.len(),
    ensures
        forall|i: int|
            0 <= i < verdicts.len() && #[trigger] verdicts[i] is Some ==> kept(
                items,
                verdicts,
            ).contains(items[i]),
        items.no_duplicates() ==> forall|i: int|
            0 <= i < verdicts.len() && #[trigger] verdicts[i] is None ==> !kept(
                items,
                verdicts,
            ).contains(items[i]),
        kept(items, verdicts).len() == reasons(verdicts).len(),
        kept(items, verdicts).len() <= verdicts.len(),
        some_gone(verdicts) <==> kept(items, verdicts).len() < verdicts.len(),
        warning_of(verdicts) is None <==> kept(items, verdicts).len() == 0,
    decreases verdicts.len(),
{
    if verdicts.len() > 0 {
        let rest = verdicts.drop_last();
        let before = kept(items, rest);
        let after = kept(items, verdicts);
        let last = verdicts.len() - 1;
        law_items_stay_for_a_reason(items, rest);
        lemma_kept_is_earlier(items, rest);
        assert forall|i: int| 0 <= i < verdicts.len() && #[trigger] verdicts[i] is Some implies after.contains(
            items[i],
        ) by {
            if i < last {
                assert(rest[i] == verdicts[i]);
                let k = choose|k: int| 0 <= k < before.len() && before[k] == items[i];
                assert(after[k] == items[i]);
            } else {
                assert(after[before.len() as int] == items[i]);
            }
        }
        if items.no_duplicates() {
            assert forall|i: int|
                0 <= i < verdicts.len() && #[trigger] verdicts[i] is None implies !after.contains(
                items[i],
            ) by {
                if after.contains(items[i]) {
                    let k = choose|k: int| 0 <= k < after.len() && after[k] == items[i];
                    if k < before.len() {
                        assert(before[k] == items[i]);
                        if i < last {
                            assert(rest[i] == verdicts[i]);
                            assert(before.contains(items[i]));
                        } else {
                            assert(is_early(items, rest.len() as int, before[k]));
                            let j = choose|j: int|
                                0 <= j < rest.len() && #[trigger] items[j] == before[k];
                            assert(items[j] != items[last]);
                        }
                    } else {
                        assert(items[i] != items[last]);
                    }
                }
            }
        }
        if some_gone(verdicts) {
            let i = choose|i: int| 0 <= i < verdicts.len() && #[trigger] verdicts[i] is None;
            if i < last {
                assert(rest[i] is None);
            }
        }
        if some_gone(rest) {
            let i = choose|i: int| 0 <= i < rest.len() && #[trigger] rest[i] is None;
            assert(verdicts[i] is None);
        }
        if verdicts.last() is None {
            assert(verdicts[last] is None);
        }
    }
}

/// An item is among the first ones of a list.
spec fn is_early<T>(items: Seq<T>, count: int, item: T) -> bool {
    exists|j: int| 0 <= j < count && #[trigger] items[j] == item
}

/// What stays comes from the part of the queue that was worked through.
proof fn lemma_kept_is_earlier<T>(items: Seq<T>, verdicts: Seq<Option<Seq<char>>>)
    requires
        verdicts.len() <= items.len(),
    ensures
        forall|k: int|
            0 <= k < kept(items, verdicts).len() ==> is_early(
                items,
                verdicts.len() as int,
                #[trigger] kept(items, verdicts)[k],
            ),
    decreases verdicts.len(),
{
    if verdicts.len() > 0 {
        let rest = verdicts.drop_last();
        let before = kept(items, rest);
        let after = kept(items, verdicts);
        lemma_kept_is_earlier(items, rest);
        assert forall|k: int| 0 <= k < after.len() implies is_early(
            items,
            verdicts.len() as int,
            #[trigger] after[k],
        ) by {
            if k < before.len() {
                assert(after[k] == before[k]);
                assert(is_early(items, rest.len() as int, before[k]));
                let j = choose|j: int| 0 <= j < rest.len() && #[trigger] items[j] == before[k];
                assert(items[j] == after[k]);
            } else {
                assert(items[verdicts.len() - 1] == after[k]);
            }
        }
    }
}

/// A cleanup has changed the configuration exactly if a queue has become shorter, and
/// warns exactly if it warned before or something stays queued. Where nothing is
/// queued it is done at once, with nothing changed and nothing to say.
pub proof fn law_cleanup_reports_what_it_did(
    config: ConfigView,
    changed: bool,
    warning: Option<Seq<char>>,
    verdicts: Seq<Option<Seq<char>>>,
    after: Cleanup,
)
    requires
        verdicts.len() <= config.pending_oauth_cleanup.len(),
        deleting_from(config, changed, warning, verdicts, after),
    ensures
        after matches Cleanup::Finished { config: done, changed: says, warning: said } ==> {
            &&& says <==> changed || done@.pending_oauth_cleanup.len()
                < config.pending_oauth_cleanup.len()
            &&& said is None <==> warning is None && done@.pending_oauth_cleanup.len() == 0
            &&& done@.pending_oauth_revocation == config.pending_oauth_revocation
        },
        config.pending_oauth_cleanup.len() == 0 ==> after is Finished && after.config()@ == config,
{
    let pending = config.pending_oauth_cleanup;
    let active = active_reference(config);
    let all = skip_active_references(active, pending, verdicts);
    lemma_skip_references(active, pending, verdicts);
    if all.len() >= pending.len() {
        law_items_stay_for_a_reason(pending, all);
    }
    if pending.len() == 0 {
        assert(kept(pending, all) =~= pending);
    }
}

/// Once revocations are given up none is queued; the credential of each queued login
/// is to be deleted, no credential leaves that queue, and no other setting changes.
pub proof fn law_abandoned_logins_are_deleted(config: ConfigView, session: SessionView)
    ensures
        ({
            let after = without_revocations(config);
            &&& after.pending_oauth_revocation.len() == 0
            &&& config.pending_oauth_revocation.contains(session)
                ==> after.pending_oauth_cleanup.contains(
                ReferenceView {
                    credential_id: session.credential_id,
                    credential_store: session.credential_store,
                },
            )
            &&& forall|r: ReferenceView| #[trigger]
                config.pending_oauth_cleanup.contains(r) ==> after.pending_oauth_cleanup.contains(r)
            &&& after.oauth == config.oauth
            &&& after.auth_method == config.auth_method
            &&& after.stored_access_token == config.stored_access_token
            &&& after.access_token == config.access_token
            &&& after.account_endpoint == config.account_endpoint
            &&& after.basin_endpoint == config.basin_endpoint
            &&& after.ssl_no_verify == config.ssl_no_verify
        }),
{
    lemma_all_queued(config.pending_oauth_cleanup, config.pending_oauth_revocation, session);
}

/// Queueing the credentials of logins queues each of them and loses none.
proof fn lemma_all_queued(
    list: Seq<ReferenceView>,
    sessions: Seq<SessionView>,
    session: SessionView,
)
    ensures
        sessions.contains(session) ==> all_queued(list, sessions).contains(session.reference()),
        forall|r: ReferenceView| #[trigger]
            list.contains(r) ==> all_queued(list, sessions).contains(r),
    decreases sessions.len(),
{
    if sessions.len() > 0 {
        let rest = sessions.drop_last();
        let before = all_queued(list, rest);
        let last = sessions.last().reference();
        lemma_all_queued(list, rest, session);
        lemma_queued_contains(before, last, session.reference());
        assert forall|r: ReferenceView| #[trigger] list.contains(r) implies all_queued(
            list,
            sessions,
        ).contains(r) by {
            lemma_queued_contains(before, last, r);
        }
        if sessions.contains(session) {
            let at = choose|at: int| 0 <= at < sessions.len() && sessions[at] == session;
            if at < rest.len() {
                assert(rest[at] == session);
            }
        }
    }
}

/// What a cleanup asks for is about a queued item: the credential that it takes hold
/// of, reads or deletes is that of a queued login or a queued credential, and a grant
/// is revoked in the name of the client of a queued login that is not the one in use.
pub proof fn law_cleanup_asks_about_queued_items(cleanup: Cleanup)
    requires
        cleanup.wf(),
    ensures
        cleanup matches Cleanup::Revoking { config, verdicts, current } ==> {
            let login = config@.pending_oauth_revocation[verdicts@.len() as int];
            &&& config@.oauth != Some(login)
            &&& match cleanup.asks() {
                Some(Request::LockRefresh(id)) => id@ == login.credential_id,
                Some(Request::LoadCredentials(session)) => session@ == login,
                Some(Request::RevokeToken { client_id, .. }) => client_id@ == login.client_id,
                Some(Request::DeleteCredential(reference)) => reference@.credential_id
                    == login.credential_id && reference@.credential_store == login.credential_store,
                Some(Request::Discover(_)) => true,
                Some(Request::UnlockRefresh) => true,
                _ => false,
            }
        },
        cleanup matches Cleanup::Deleting { config, verdicts, current, .. } ==> {
            let credential = config@.pending_oauth_cleanup[verdicts@.len() as int];
            &&& config@.oauth matches Some(session) ==> session.credential_id
                != credential.credential_id || session.credential_store
                != credential.credential_store
            &&& match cleanup.asks() {
                Some(Request::LockRefresh(id)) => id@ == credential.credential_id,
                Some(Request::DeleteCredential(reference)) => reference@ == credential,
                Some(Request::UnlockRefresh) => true,
                _ => false,
            }
        },
{
}

/// A cleanup revokes with the refresh token that was read for the login whose grant it
/// is, and at the endpoints that were found for that login's issuer.
pub proof fn law_every_revocation_uses_what_was_read(
    config: ConfigView,
    revoke_pending: bool,
    states: Seq<Cleanup>,
    replies: Seq<Reply>,
    at: int,
) -> (steps: (int, int))
    requires
        is_cleanup_run(config, revoke_pending, states, replies),
        0 <= at < states.len(),
        states[at].asks() matches Some(Request::RevokeToken { .. }),
    ensures
        0 <= steps.0 < steps.1 < at,
        states[at].asks() matches Some(
            Request::RevokeToken { endpoints, client_id, refresh_token },
        ) && {
            &&& states[steps.0].asks() matches Some(Request::LoadCredentials(session))
                && replies[steps.0] matches Reply::CredentialsLoaded(Ok(tokens)) && refresh_token@
                == tokens@.refresh_token && client_id@ == session@.client_id && (
            states[steps.1].asks() matches Some(Request::Discover(issuer)) && issuer_of(
                session@.issuer,
            ) == Ok::<UrlView, Seq<char>>(issuer@))
            &&& replies[steps.1] matches Reply::Discovered(Ok(found)) && found == *endpoints
        },
{
    let found = lemma_endpoints_found(config, revoke_pending, states, replies, at);
    let read = lemma_tokens_read(config, revoke_pending, states, replies, found);
    (read, found)
}

/// Where the endpoints of a revocation were found.
proof fn lemma_endpoints_found(
    config: ConfigView,
    revoke_pending: bool,
    states: Seq<Cleanup>,
    replies: Seq<Reply>,
    at: int,
) -> (found: int)
    requires
        is_cleanup_run(config, revoke_pending, states, replies),
        0 <= at < states.len(),
        states[at] matches Cleanup::Revoking { current: RevokeOne::Revoking { .. }, .. },
    ensures
        0 <= found < at,
        states[at] matches Cleanup::Revoking {
            current: RevokeOne::Revoking { session, tokens, endpoints },
            ..
        } && (states[found] matches Cleanup::Revoking {
            current: RevokeOne::Discovering { session: same, tokens: kept_tokens, .. },
            ..
        } && same == session && kept_tokens == tokens) && (
        replies[found] matches Reply::Discovered(Ok(endpoints_found)) && endpoints_found
            == endpoints),
    decreases at,
{
    law_cleanup_starts_well_formed(config, revoke_pending, states[0]);
    assert(at > 0);
    assert(cleanup_step(states, replies, at - 1));
    law_every_cleanup_only_loses_queued(config, revoke_pending, states, replies, at - 1);
    let previous = states[at - 1];
    assert(previous is Revoking) by {
        if !(previous is Revoking) {
            law_local_cleanup_stays_local(previous, replies[at - 1], states[at]);
        }
    }
    let next = lemma_next_revocation(previous, replies[at - 1], states[at]);
    if let Cleanup::Revoking { current, .. } = previous {
        if current is Revoking {
            lemma_endpoints_found(config, revoke_pending, states, replies, at - 1)
        } else {
            at - 1
        }
    } else {
        at - 1
    }
}

/// Where the tokens of a revocation were read.
proof fn lemma_tokens_read(
    config: ConfigView,
    revoke_pending: bool,
    states: Seq<Cleanup>,
    replies: Seq<Reply>,
    at: int,
) -> (read: int)
    requires
        is_cleanup_run(config, revoke_pending, states, replies),
        0 <= at < states.len(),
        states[at] matches Cleanup::Revoking { current: RevokeOne::Discovering { .. }, .. },
    ensures
        0 <= read < at,
        states[at] matches Cleanup::Revoking {
            current: RevokeOne::Discovering { session, tokens, issuer },
            ..
        } && (states[read].asks() matches Some(Request::LoadCredentials(asked)) && *asked
            == session) && (replies[read] matches Reply::CredentialsLoaded(Ok(loaded)) && loaded
            == tokens) && issuer_of(session@.issuer) == Ok::<UrlView, Seq<char>>(issuer@),
    decreases at,
{
    law_cleanup_starts_well_formed(config, revoke_pending, states[0]);
    assert(at > 0);
    assert(cleanup_step(states, replies, at - 1));
    law_every_cleanup_only_loses_queued(config, revoke_pending, states, replies, at - 1);
    let previous = states[at - 1];
    assert(previous is Revoking) by {
        if !(previous is Revoking) {
            law_local_cleanup_stays_local(previous, replies[at - 1], states[at]);
        }
    }
    let next = lemma_next_revocation(previous, replies[at - 1], states[at]);
    if let Cleanup::Revoking { current, .. } = previous {
        if current is Discovering {
            lemma_tokens_read(config, revoke_pending, states, replies, at - 1)
        } else {
            at - 1
        }
    } else {
        at - 1
    }
}

/// Passing over the items in use stops at the first one that is not.
proof fn lemma_skips_to(
    active: Option<SessionView>,
    pending: Seq<SessionView>,
    verdicts: Seq<Option<Seq<char>>>,
    first: int,
)
    requires
        verdicts.len() <= first <= pending.len(),
        forall|i: int| verdicts.len() <= i < first ==> active == Some(#[trigger] pending[i]),
        first < pending.len() ==> active != Some(pending[first]),
    ensures
        skip_active_sessions(active, pending, verdicts).len() == first,
    decreases first - verdicts.len(),
{
    if verdicts.len() < first {
        let at = verdicts.len() as int;
        assert(active == Some(pending[at]));
        lemma_skips_to(
            active,
            pending,
            verdicts.push(Some(active_reason(pending[at].credential_id))),
            first,
        );
    }
}

/// A cleanup with revocations starts with the first queued login that is not in use: it
/// takes hold of its credential. Without revocations it starts with a queued
/// credential, if there is one that is not in use.
pub proof fn law_cleanup_starts_with_the_first_item(
    config: ConfigView,
    cleanup: Cleanup,
    first: int,
)
    requires
        0 <= first < config.pending_oauth_revocation.len(),
        config.oauth != Some(config.pending_oauth_revocation[first]),
        forall|i: int|
            0 <= i < first ==> config.oauth == Some(#[trigger] config.pending_oauth_revocation[i]),
    ensures
        starts_cleanup(config, true, cleanup) ==> cleanup is Revoking && (
        cleanup.asks() matches Some(Request::LockRefresh(id)) && id@
            == config.pending_oauth_revocation[first].credential_id),
        starts_cleanup(config, false, cleanup) ==> !(cleanup is Revoking),
{
    lemma_skips_to(config.oauth, config.pending_oauth_revocation, seq![], first);
}

/// What goes wrong with a queued login is what its cleanup ends with, and its lock is
/// let go of; a credential that is not there is as good as deleted.
pub proof fn law_revocation_ends_with_its_error(
    state: RevokeOne,
    error: LoginError,
    after: RevokeOne,
)
    ensures
        ({
            let ends = RevokeOne::Unlocking { session: state.session(), result: Err(error) };
            &&& state is Loading && state.leads_to(Reply::CredentialsLoaded(Err(error)), after)
                && !crate::error::credential_not_found(error) ==> after == ends
            &&& state is Loading && state.leads_to(Reply::CredentialsLoaded(Err(error)), after)
                && crate::error::credential_not_found(error) ==> after == (RevokeOne::Unlocking {
                session: state.session(),
                result: Ok(()),
            })
            &&& state is Discovering && state.leads_to(Reply::Discovered(Err(error)), after)
                ==> after == ends
            &&& state is Revoking && state.leads_to(Reply::Revoked(Err(error)), after) ==> after
                == ends
            &&& state is Deleting && state.leads_to(Reply::CredentialDeleted(Err(error)), after)
                ==> after == ends
            &&& state is Locking && state.leads_to(Reply::RefreshLocked(Err(error)), after)
                ==> after == (RevokeOne::Finished {
                session: state.session(),
                result: Err(error),
            })
            &&& state matches RevokeOne::Unlocking { session, result } ==> (state.leads_to(
                Reply::Released,
                after,
            ) ==> after == (RevokeOne::Finished { session, result }))
        }),
{
}

/// A queued credential that could not be locked or deleted stays, with the error; one
/// that was deleted is gone.
pub proof fn law_deletion_ends_with_its_result(
    state: DeleteOne,
    result: Result<(), LoginError>,
    error: LoginError,
    after: DeleteOne,
)
    ensures
        state is Locking && state.leads_to(Reply::RefreshLocked(Err(error)), after) ==> after == (
        DeleteOne::Finished { reference: state.reference(), result: Err(error) }),
        state is Deleting && state.leads_to(Reply::CredentialDeleted(result), after) ==> after == (
        DeleteOne::Unlocking { reference: state.reference(), result }),
        state matches DeleteOne::Unlocking { reference, result: kept_result } ==> (state.leads_to(
            Reply::Released,
            after,
        ) ==> after == (DeleteOne::Finished { reference, result: kept_result })),
        verdict_of(seq![], result) is None <==> result is Ok,
{
}

/// Where nothing is queued a cleanup is done at once, with nothing changed and nothing
/// to say.
pub proof fn law_empty_queues_need_no_cleanup(
    config: ConfigView,
    revoke_pending: bool,
    cleanup: Cleanup,
)
    requires
        starts_cleanup(config, revoke_pending, cleanup),
        config.pending_oauth_revocation.len() == 0,
        config.pending_oauth_cleanup.len() == 0,
    ensures
        cleanup matches Cleanup::Finished { config: same, changed, warning } && same@ == config
            && !changed && warning is None,
{
    let none = Seq::<Option<Seq<char>>>::empty();
    assert(kept(config.pending_oauth_revocation, none) =~= config.pending_oauth_revocation);
    assert(config.pending_oauth_revocation =~= seq![]);
    assert(without_revocations(config) == config);
    law_items_stay_for_a_reason(config.pending_oauth_revocation, none);
    law_cleanup_reports_what_it_did(config, false, None, seq![], cleanup);
}

/// Where nothing goes wrong a queued login is got rid of step by step: its credential is
/// locked and read, its provider is looked up, its grant is revoked, its credential is
/// deleted and unlocked; an issuer that is none ends that with its refusal.
pub proof fn law_revocation_goes_on(state: RevokeOne, reply: Reply, after: RevokeOne)
    requires
        state.leads_to(reply, after),
    ensures
        match (state, reply) {
            (RevokeOne::Locking { .. }, Reply::RefreshLocked(Ok(_))) => {
                after.asks() matches Some(Request::LoadCredentials(_))
            },
            (RevokeOne::Loading { session }, Reply::CredentialsLoaded(Ok(_))) => {
                match issuer_of(session@.issuer) {
                    Ok(expected) => after.asks() matches Some(Request::Discover(issuer)) && issuer@
                        == expected,
                    Err(reason) => after matches RevokeOne::Unlocking {
                        result: Err(LoginError::InvalidIssuer(said)),
                        ..
                    } && said@ == reason,
                }
            },
            (RevokeOne::Discovering { .. }, Reply::Discovered(Ok(_))) => {
                after.asks() matches Some(Request::RevokeToken { .. })
            },
            (RevokeOne::Revoking { .. }, Reply::Revoked(Ok(_))) => {
                after.asks() matches Some(Request::DeleteCredential(_))
            },
            (RevokeOne::Deleting { .. }, Reply::CredentialDeleted(Ok(_))) => {
                after matches RevokeOne::Unlocking { result: Ok(_), .. }
            },
            _ => true,
        },
        after.session() == state.session(),
{
}

}
