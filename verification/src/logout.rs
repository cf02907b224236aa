//! Logging out: the grant is revoked, unless only this machine is to forget the
//! login, and the credential is deleted.

use vstd::prelude::*;

use crate::cleanup::{
    append_metadata_warning, law_cleanup_only_loses_queued,
    law_cleanup_starts_from_the_queues, law_cleanup_starts_well_formed,
    law_cleanup_starts_with_the_first_item, law_cleanup_stays_well_formed,
    law_empty_queues_need_no_cleanup, metadata_warning, starts_cleanup, with_message, Cleanup,
};
use crate::config::{
    holds_reference, lemma_queued_contains, queue_reference, queued, AuthMethod, CliConfig,
    ConfigView, OAuthSession, SessionView, StoredCredentialReference,
};
use crate::effect::{Reply, Request};
use crate::error::LoginError;
use crate::issuer::{issuer_of, oauth_issuer};
use crate::metadata::OAuthEndpoints;
use crate::text::opt_view;
use crate::token::TokenSet;
use crate::url::{Url, UrlView};

verus! {

/// What the user asks for.
pub struct LogoutArgs {
    /// Forget the login on this machine only, without revoking its grant.
    pub local_only: bool,
}

/// A logout that is done with.
pub struct LogoutReport {
    pub local_only: bool,
    /// The credential that was deleted, if there was a login.
    pub removed: Option<StoredCredentialReference>,
    pub config: CliConfig,
    /// Why older logins stay queued.
    pub warning: Option<String>,
}

/// A logout.
pub enum Logout {
    /// Keep others from changing the configuration.
    Locking { local_only: bool },
    Loading { local_only: bool },
    /// There is no login: get rid of older ones.
    CleaningOnly { local_only: bool, cleanup: Cleanup },
    SavingOnly { local_only: bool, config: CliConfig, warning: Option<String> },
    /// Keep other processes from using the credential.
    LockingRefresh { local_only: bool, config: CliConfig, session: OAuthSession },
    LoadingTokens { config: CliConfig, session: OAuthSession },
    Discovering { config: CliConfig, session: OAuthSession, tokens: TokenSet, issuer: Url },
    Revoking {
        config: CliConfig,
        session: OAuthSession,
        tokens: TokenSet,
        endpoints: OAuthEndpoints,
    },
    /// Write down that the login is not used any more.
    Saving { local_only: bool, config: CliConfig, reference: StoredCredentialReference },
    /// The cleanup takes the lock of the credential again.
    UnlockingRefresh { local_only: bool, config: CliConfig, reference: StoredCredentialReference },
    /// Get rid of the credential, and of older logins.
    Cleaning { local_only: bool, reference: StoredCredentialReference, cleanup: Cleanup },
    SavingCleaned {
        local_only: bool,
        reference: StoredCredentialReference,
        config: CliConfig,
        warning: Option<String>,
    },
    /// Say where the credential is that could not be deleted.
    Locating { reference: StoredCredentialReference },
    Finished { result: Result<LogoutReport, LoginError> },
}

/// The end of a logout that failed.
pub open spec fn failed(error: LoginError) -> Logout {
    Logout::Finished { result: Err(error) }
}

fn fail(error: LoginError) -> (after: Logout)
    ensures
        after == failed(error),
{
    Logout::Finished { result: Err(error) }
}

/// The configuration without the login: an access token takes its place if there
/// is one, and the credential is to be deleted.
pub open spec fn logged_out(config: ConfigView, session: SessionView) -> ConfigView {
    ConfigView {
        oauth: None,
        auth_method: if config.has_stored_access_token() {
            Some(AuthMethod::AccessToken)
        } else {
            None
        },
        pending_oauth_cleanup: queued(config.pending_oauth_cleanup, session.reference()),
        ..config
    }
}

fn forget(config: CliConfig, session: &OAuthSession) -> (after: CliConfig)
    ensures
        after@ == logged_out(config@, session@),
{
    let mut after = config;
    after.auth_method = if after.has_stored_access_token() {
        Some(AuthMethod::AccessToken)
    } else {
        None
    };
    after.oauth = None;
    queue_reference(&mut after.pending_oauth_cleanup, session.credential_reference());
    after
}

/// The state once the login is no longer used.
pub open spec fn forgotten(
    local_only: bool,
    config: CliConfig,
    session: OAuthSession,
    after: Logout,
) -> bool {
    after matches Logout::Saving { local_only: same, config: changed, reference } && same
        == local_only && changed@ == logged_out(config@, session@) && reference@
        == session@.reference()
}

fn start_forgetting(local_only: bool, config: CliConfig, session: OAuthSession) -> (after: Logout)
    ensures
        forgotten(local_only, config, session, after),
        after.wf(),
{
    let reference = session.credential_reference();
    proof {
        law_forgotten_login_is_not_used(config@, session@);
    }
    let config = forget(config, &session);
    Logout::Saving { local_only, config, reference }
}

/// The end, where there was no login.
pub open spec fn nothing_removed(
    local_only: bool,
    config: CliConfig,
    warning: Option<String>,
) -> Logout {
    Logout::Finished { result: Ok(LogoutReport { local_only, removed: None, config, warning }) }
}

/// The first state of the cleanup: a local logout revokes nothing.
pub open spec fn starts_own_cleanup(config: ConfigView, local_only: bool, cleanup: Cleanup) -> bool {
    starts_cleanup(config, !local_only, cleanup)
}

fn start_cleanup(config: CliConfig, local_only: bool) -> (cleanup: Cleanup)
    requires
        config@.oauth is None,
    ensures
        starts_own_cleanup(config@, local_only, cleanup),
        cleanup.wf(),
        local_only ==> !(cleanup is Revoking),
        cleanup.config()@.oauth is None,
{
    let cleanup = Cleanup::start(config, !local_only);
    proof {
        law_cleanup_starts_from_the_queues(config@, !local_only, cleanup);
    }
    cleanup
}

/// The state that belongs to a cleanup where there was no login.
pub open spec fn cleaned_only(local_only: bool, cleanup: Cleanup, after: Logout) -> bool {
    match cleanup {
        Cleanup::Finished { config, changed, warning } => if changed {
            after == (Logout::SavingOnly { local_only, config, warning })
        } else {
            after == nothing_removed(local_only, config, warning)
        },
        _ => after == (Logout::CleaningOnly { local_only, cleanup }),
    }
}

/// The end, once older logins are cleaned up: the logout is complete where the
/// credential is gone.
pub open spec fn settled(
    local_only: bool,
    reference: StoredCredentialReference,
    config: CliConfig,
    warning: Option<Seq<char>>,
    after: Logout,
) -> bool {
    if config@.pending_oauth_cleanup.contains(reference@) {
        after == (Logout::Locating { reference })
    } else {
        after matches Logout::Finished { result } && result matches Ok(report) && report.local_only
            == local_only && report.removed == Some(reference) && report.config == config
            && opt_view(report.warning) == warning
    }
}

/// The state that belongs to the cleanup after a login.
pub open spec fn cleaned_up(
    local_only: bool,
    reference: StoredCredentialReference,
    cleanup: Cleanup,
    after: Logout,
) -> bool {
    match cleanup {
        Cleanup::Finished { config, changed, warning } => if changed {
            after == (Logout::SavingCleaned { local_only, reference, config, warning })
        } else {
            settled(local_only, reference, config, opt_view(warning), after)
        },
        _ => after == (Logout::Cleaning { local_only, reference, cleanup }),
    }
}

fn after_cleanup_only(local_only: bool, cleanup: Cleanup) -> (after: Logout)
    requires
        cleanup.wf(),
        local_only ==> !(cleanup is Revoking),
        cleanup.config()@.oauth is None,
    ensures
        cleaned_only(local_only, cleanup, after),
        after.wf(),
{
    match cleanup {
        Cleanup::Finished { config, changed, warning } => {
            if changed {
                Logout::SavingOnly { local_only, config, warning }
            } else {
                let report = LogoutReport { local_only, removed: None, config, warning };
                Logout::Finished { result: Ok(report) }
            }
        },
        cleanup => Logout::CleaningOnly { local_only, cleanup },
    }
}

fn settle(
    local_only: bool,
    reference: StoredCredentialReference,
    config: CliConfig,
    warning: Option<String>,
) -> (after: Logout)
    requires
        config@.oauth is None,
    ensures
        settled(local_only, reference, config, opt_view(warning), after),
        after.wf(),
{
    if holds_reference(&config.pending_oauth_cleanup, &reference) {
        Logout::Locating { reference }
    } else {
        let report = LogoutReport { local_only, removed: Some(reference), config, warning };
        Logout::Finished { result: Ok(report) }
    }
}

fn after_cleanup(
    local_only: bool,
    reference: StoredCredentialReference,
    cleanup: Cleanup,
) -> (after: Logout)
    requires
        cleanup.wf(),
        local_only ==> !(cleanup is Revoking),
        cleanup.config()@.oauth is None,
    ensures
        cleaned_up(local_only, reference, cleanup, after),
        after.wf(),
{
    match cleanup {
        Cleanup::Finished { config, changed, warning } => {
            if changed {
                Logout::SavingCleaned { local_only, reference, config, warning }
            } else {
                settle(local_only, reference, config, warning)
            }
        },
        cleanup => Logout::Cleaning { local_only, reference, cleanup },
    }
}

/// Starts a logout.
pub fn logout(args: &LogoutArgs) -> (state: Logout)
    ensures
        state == (Logout::Locking { local_only: args.local_only }),
        state.wf(),
{
    Logout::Locking { local_only: args.local_only }
}

impl Logout {
    /// A logout is about the login that the configuration uses, until it uses
    /// none; and a local one revokes nothing.
    pub open spec fn wf(self) -> bool {
        match self {
            Logout::CleaningOnly { local_only, cleanup } => cleanup.wf() && !(cleanup is Finished)
                && (local_only ==> !(cleanup is Revoking)) && cleanup.config()@.oauth is None,
            Logout::SavingOnly { config, .. } => config@.oauth is None,
            Logout::LockingRefresh { config, session, .. } => config@.oauth == Some(session@),
            Logout::LoadingTokens { config, session } => config@.oauth == Some(session@),
            Logout::Discovering { config, session, .. } => config@.oauth == Some(session@),
            Logout::Revoking { config, session, .. } => config@.oauth == Some(session@),
            Logout::Saving { config, reference, .. } => config@.oauth is None
                && config@.pending_oauth_cleanup.contains(reference@),
            Logout::UnlockingRefresh { config, reference, .. } => config@.oauth is None
                && config@.pending_oauth_cleanup.contains(reference@),
            Logout::Cleaning { local_only, cleanup, .. } => cleanup.wf() && !(cleanup is Finished)
                && (local_only ==> !(cleanup is Revoking)) && cleanup.config()@.oauth is None,
            Logout::SavingCleaned { config, .. } => config@.oauth is None,
            Logout::Finished { result } => result matches Ok(report)
                ==> report.config@.oauth is None && (report.removed matches Some(reference)
                ==> !report.config@.pending_oauth_cleanup.contains(reference@)),
            _ => true,
        }
    }

    /// What is to be done next; `None` at the end.
    pub open spec fn asks<'a>(&'a self) -> Option<Request<'a>> {
        match self {
            Logout::Locking { .. } => Some(Request::LockConfig),
            Logout::Loading { .. } => Some(Request::LoadConfig),
            Logout::CleaningOnly { cleanup, .. } => cleanup.asks(),
            Logout::SavingOnly { config, .. } => Some(Request::SaveConfig(config)),
            Logout::LockingRefresh { session, .. } => Some(
                Request::LockRefresh(&session.credential_id),
            ),
            Logout::LoadingTokens { session, .. } => Some(Request::LoadCredentials(session)),
            Logout::Discovering { issuer, .. } => Some(Request::Discover(issuer)),
            Logout::Revoking { session, tokens, endpoints, .. } => Some(
                Request::RevokeToken {
                    endpoints,
                    client_id: &session.client_id,
                    refresh_token: &tokens.refresh_token,
                },
            ),
            Logout::Saving { config, .. } => Some(Request::SaveConfig(config)),
            Logout::UnlockingRefresh { .. } => Some(Request::UnlockRefresh),
            Logout::Cleaning { cleanup, .. } => cleanup.asks(),
            Logout::SavingCleaned { config, .. } => Some(Request::SaveConfig(config)),
            Logout::Locating { reference } => Some(Request::LocateCredential(reference)),
            Logout::Finished { .. } => None,
        }
    }

    /// What is to be done next.
    pub fn request<'a>(&'a self) -> (request: Option<Request<'a>>)
        ensures
            request == self.asks(),
    {
        match self {
            Logout::Locking { .. } => Some(Request::LockConfig),
            Logout::Loading { .. } => Some(Request::LoadConfig),
            Logout::CleaningOnly { cleanup, .. } => cleanup.request(),
            Logout::SavingOnly { config, .. } => Some(Request::SaveConfig(config)),
            Logout::LockingRefresh { session, .. } => Some(
                Request::LockRefresh(&session.credential_id),
            ),
            Logout::LoadingTokens { session, .. } => Some(Request::LoadCredentials(session)),
            Logout::Discovering { issuer, .. } => Some(Request::Discover(issuer)),
            Logout::Revoking { session, tokens, endpoints, .. } => Some(
                Request::RevokeToken {
                    endpoints,
                    client_id: &session.client_id,
                    refresh_token: &tokens.refresh_token,
                },
            ),
            Logout::Saving { config, .. } => Some(Request::SaveConfig(config)),
            Logout::UnlockingRefresh { .. } => Some(Request::UnlockRefresh),
            Logout::Cleaning { cleanup, .. } => cleanup.request(),
            Logout::SavingCleaned { config, .. } => Some(Request::SaveConfig(config)),
            Logout::Locating { reference } => Some(Request::LocateCredential(reference)),
            Logout::Finished { .. } => None,
        }
    }

    /// A reply leads from one state to another. A reply to something else
    /// changes nothing.
    pub open spec fn leads_to(self, reply: Reply, after: Logout) -> bool {
        match (self, reply) {
            (Logout::Locking { local_only }, Reply::ConfigLocked(Ok(_))) => after == (
            Logout::Loading { local_only }),
            (Logout::Locking { .. }, Reply::ConfigLocked(Err(error))) => after == failed(
                LoginError::Config(error),
            ),
            (Logout::Loading { local_only }, Reply::ConfigLoaded(Ok(config))) => {
                if config@.oauth is Some {
                    after matches Logout::LockingRefresh {
                        local_only: same,
                        config: loaded,
                        session,
                    } && same == local_only && loaded@ == config@ && config@.oauth == Some(session@)
                } else {
                    exists|cleanup: Cleanup| #[trigger]
                        starts_own_cleanup(config@, local_only, cleanup) && cleaned_only(
                            local_only,
                            cleanup,
                            after,
                        )
                }
            },
            (Logout::Loading { .. }, Reply::ConfigLoaded(Err(error))) => after == failed(
                LoginError::Config(error),
            ),
            (Logout::CleaningOnly { local_only, cleanup }, reply) => exists|next: Cleanup|
             #[trigger]
                cleanup.leads_to(reply, next) && cleaned_only(local_only, next, after),
            (Logout::SavingOnly { local_only, config, warning }, Reply::ConfigSaved(Ok(_))) => after
                == nothing_removed(local_only, config, warning),
            (Logout::SavingOnly { .. }, Reply::ConfigSaved(Err(error))) => after == failed(
                LoginError::Config(error),
            ),
            (
                Logout::LockingRefresh { local_only, config, session },
                Reply::RefreshLocked(Ok(_)),
            ) => if local_only {
                forgotten(true, config, session, after)
            } else {
                after == (Logout::LoadingTokens { config, session })
            },
            (Logout::LockingRefresh { .. }, Reply::RefreshLocked(Err(error))) => after == failed(
                error,
            ),
            (Logout::LoadingTokens { config, session }, Reply::CredentialsLoaded(Ok(tokens))) => {
                match issuer_of(session.issuer@) {
                    Ok(expected) => after matches Logout::Discovering {
                        config: same,
                        session: known,
                        tokens: kept,
                        issuer,
                    } && same == config && known == session && kept == tokens && issuer@
                        == expected,
                    Err(reason) => after matches Logout::Finished { result } && result matches Err(
                        LoginError::InvalidIssuer(said),
                    ) && said@ == reason,
                }
            },
            (Logout::LoadingTokens { .. }, Reply::CredentialsLoaded(Err(error))) => after == failed(
                error,
            ),
            (
                Logout::Discovering { config, session, tokens, .. },
                Reply::Discovered(Ok(endpoints)),
            ) => after == (Logout::Revoking { config, session, tokens, endpoints }),
            (Logout::Discovering { .. }, Reply::Discovered(Err(error))) => after == failed(error),
            (Logout::Revoking { config, session, .. }, Reply::Revoked(Ok(_))) => forgotten(
                false,
                config,
                session,
                after,
            ),
            (Logout::Revoking { .. }, Reply::Revoked(Err(error))) => after == failed(error),
            (Logout::Saving { local_only, config, reference }, Reply::ConfigSaved(Ok(_))) => after
                == (Logout::UnlockingRefresh { local_only, config, reference }),
            (Logout::Saving { local_only, .. }, Reply::ConfigSaved(Err(error))) => {
                if local_only {
                    after == failed(LoginError::Config(error))
                } else {
                    after == failed(LoginError::RevokedButNotRemoved(error))
                }
            },
            (Logout::UnlockingRefresh { local_only, config, reference }, Reply::Released) => exists|
                cleanup: Cleanup,
            | #[trigger]
                starts_own_cleanup(config@, local_only, cleanup) && cleaned_up(
                    local_only,
                    reference,
                    cleanup,
                    after,
                ),
            (Logout::Cleaning { local_only, reference, cleanup }, reply) => exists|next: Cleanup|
             #[trigger]
                cleanup.leads_to(reply, next) && cleaned_up(local_only, reference, next, after),
            (
                Logout::SavingCleaned { local_only, reference, config, warning },
                Reply::ConfigSaved(saved),
            ) => settled(
                local_only,
                reference,
                config,
                match saved {
                    Ok(_) => opt_view(warning),
                    Err(error) => Some(with_message(opt_view(warning), metadata_warning(error))),
                },
                after,
            ),
            (Logout::Locating { .. }, Reply::CredentialLocated(recovery)) => after == failed(
                LoginError::LogoutIncomplete { recovery },
            ),
            _ => after == self,
        }
    }

    /// Goes on with the reply to the last request.
    pub fn advance(self, reply: Reply) -> (after: Logout)
        requires
            self.wf(),
        ensures
            self.leads_to(reply, after),
            after.wf(),
    {
        match (self, reply) {
            (Logout::Locking { local_only }, Reply::ConfigLocked(Ok(_))) => Logout::Loading {
                local_only,
            },
            (Logout::Locking { .. }, Reply::ConfigLocked(Err(error))) => fail(
                LoginError::Config(error),
            ),
            (Logout::Loading { local_only }, Reply::ConfigLoaded(Ok(config))) => {
                let current = match &config.oauth {
                    Some(session) => Some(session.duplicate()),
                    None => None,
                };
                match current {
                    Some(session) => Logout::LockingRefresh { local_only, config, session },
                    None => {
                        let cleanup = start_cleanup(config, local_only);
                        after_cleanup_only(local_only, cleanup)
                    },
                }
            },
            (Logout::Loading { .. }, Reply::ConfigLoaded(Err(error))) => fail(
                LoginError::Config(error),
            ),
            (Logout::CleaningOnly { local_only, cleanup }, reply) => {
                let next = cleanup.advance(reply);
                proof {
                    law_cleanup_only_loses_queued(cleanup, reply, next);
                }
                after_cleanup_only(local_only, next)
            },
            (Logout::SavingOnly { local_only, config, warning }, Reply::ConfigSaved(Ok(_))) => {
                let report = LogoutReport { local_only, removed: None, config, warning };
                Logout::Finished { result: Ok(report) }
            },
            (Logout::SavingOnly { .. }, Reply::ConfigSaved(Err(error))) => fail(
                LoginError::Config(error),
            ),
            (
                Logout::LockingRefresh { local_only, config, session },
                Reply::RefreshLocked(Ok(_)),
            ) => {
                if local_only {
                    start_forgetting(true, config, session)
                } else {
                    Logout::LoadingTokens { config, session }
                }
            },
            (Logout::LockingRefresh { .. }, Reply::RefreshLocked(Err(error))) => fail(error),
            (Logout::LoadingTokens { config, session }, Reply::CredentialsLoaded(Ok(tokens))) => {
                match oauth_issuer(Some(session.issuer.as_str()), None) {
                    Ok(issuer) => Logout::Discovering { config, session, tokens, issuer },
                    Err(error) => fail(error),
                }
            },
            (Logout::LoadingTokens { .. }, Reply::CredentialsLoaded(Err(error))) => fail(error),
            (
                Logout::Discovering { config, session, tokens, .. },
                Reply::Discovered(Ok(endpoints)),
            ) => Logout::Revoking { config, session, tokens, endpoints },
            (Logout::Discovering { .. }, Reply::Discovered(Err(error))) => fail(error),
            (Logout::Revoking { config, session, .. }, Reply::Revoked(Ok(_))) => start_forgetting(
                false,
                config,
                session,
            ),
            (Logout::Revoking { .. }, Reply::Revoked(Err(error))) => fail(error),
            (Logout::Saving { local_only, config, reference }, Reply::ConfigSaved(Ok(_))) => {
                Logout::UnlockingRefresh { local_only, config, reference }
            },
            (Logout::Saving { local_only, .. }, Reply::ConfigSaved(Err(error))) => {
                if local_only {
                    fail(LoginError::Config(error))
                } else {
                    fail(LoginError::RevokedButNotRemoved(error))
                }
            },
            (Logout::UnlockingRefresh { local_only, config, reference }, Reply::Released) => {
                let cleanup = start_cleanup(config, local_only);
                after_cleanup(local_only, reference, cleanup)
            },
            (Logout::Cleaning { local_only, reference, cleanup }, reply) => {
                let next = cleanup.advance(reply);
                proof {
                    law_cleanup_only_loses_queued(cleanup, reply, next);
                }
                after_cleanup(local_only, reference, next)
            },
            (
                Logout::SavingCleaned { local_only, reference, config, warning },
                Reply::ConfigSaved(saved),
            ) => {
                let mut warning = warning;
                if let Err(error) = &saved {
                    append_metadata_warning(&mut warning, error);
                }
                settle(local_only, reference, config, warning)
            },
            (Logout::Locating { .. }, Reply::CredentialLocated(recovery)) => fail(
                LoginError::LogoutIncomplete { recovery },
            ),
            (state, _) => state,
        }
    }

    /// Whether only this machine forgets the login.
    pub open spec fn is_local(self) -> bool {
        match self {
            Logout::Locking { local_only } => local_only,
            Logout::Loading { local_only } => local_only,
            Logout::CleaningOnly { local_only, .. } => local_only,
            Logout::SavingOnly { local_only, .. } => local_only,
            Logout::LockingRefresh { local_only, .. } => local_only,
            Logout::Saving { local_only, .. } => local_only,
            Logout::UnlockingRefresh { local_only, .. } => local_only,
            Logout::Cleaning { local_only, .. } => local_only,
            Logout::SavingCleaned { local_only, .. } => local_only,
            _ => false,
        }
    }

    /// Whether other processes are kept from using a credential. At the end the
    /// lock is given up.
    pub open spec fn holds_refresh_lock(self) -> bool {
        match self {
            Logout::LoadingTokens { .. } => true,
            Logout::Discovering { .. } => true,
            Logout::Revoking { .. } => true,
            Logout::Saving { .. } => true,
            Logout::UnlockingRefresh { .. } => true,
            Logout::CleaningOnly { cleanup, .. } => cleanup.holds_refresh_lock(),
            Logout::Cleaning { cleanup, .. } => cleanup.holds_refresh_lock(),
            _ => false,
        }
    }
}

/// A login is forgotten only once its grant has been revoked, or where only this
/// machine is to forget it.
pub proof fn law_revoked_before_forgotten(state: Logout, reply: Reply, after: Logout)
    requires
        state.leads_to(reply, after),
        !(state is Saving),
        after is Saving,
    ensures
        after matches Logout::Saving { local_only, .. } && (local_only || state is Revoking
            && reply matches Reply::Revoked(Ok(_))),
{
}

/// A logout on this machine only never asks the issuer for anything.
pub proof fn law_local_logout_stays_local(state: Logout, reply: Reply, after: Logout)
    requires
        state.wf(),
        state.is_local(),
        state.leads_to(reply, after),
    ensures
        !(state.asks() matches Some(Request::Discover(_))),
        !(state.asks() matches Some(Request::RevokeToken { .. })),
        after.is_local() || after is Finished || after is Locating,
{
}

/// Forgetting a login ends its use, selects an access token if there is one,
/// queues its credential, and leaves the other settings alone.
pub proof fn law_forgotten_login_is_not_used(config: ConfigView, session: SessionView)
    ensures
        ({
            let after = logged_out(config, session);
            &&& after.oauth is None
            &&& after.auth_method == (if config.has_stored_access_token() {
                Some(AuthMethod::AccessToken)
            } else {
                None
            })
            &&& after.pending_oauth_cleanup.contains(session.reference())
            &&& after.pending_oauth_revocation == config.pending_oauth_revocation
            &&& after.stored_access_token == config.stored_access_token
            &&& after.access_token == config.access_token
            &&& after.account_endpoint == config.account_endpoint
            &&& after.basin_endpoint == config.basin_endpoint
            &&& after.ssl_no_verify == config.ssl_no_verify
        }),
{
    lemma_queued_contains(
        config.pending_oauth_cleanup,
        session.reference(),
        session.reference(),
    );
}

/// After a logout no login is in use, and the credential of the one that was in
/// use is not queued: it is gone.
pub proof fn law_successful_logout_is_complete(state: Logout)
    requires
        state.wf(),
    ensures
        state matches Logout::Finished { result: Ok(report) } ==> report.config@.oauth is None && (
        report.removed matches Some(reference)
            ==> !report.config@.pending_oauth_cleanup.contains(reference@)),
{
}

/// The lock of a credential is never asked for while one is held: the one that a
/// logout takes is let go of before the cleanup takes it again.
pub proof fn law_logout_never_waits_for_itself(state: Logout, reply: Reply, after: Logout)
    requires
        state.leads_to(reply, after),
    ensures
        state.asks() matches Some(Request::LockRefresh(_)) ==> !state.holds_refresh_lock(),
        !state.holds_refresh_lock() && after.holds_refresh_lock()
            ==> reply matches Reply::RefreshLocked(Ok(_)),
        state.holds_refresh_lock() && !after.holds_refresh_lock() ==> after is Finished
            || reply is Released,
{
}

/// A logout never leaves the states that it is meant to be in.
#[verifier::rlimit(30)]
pub proof fn law_logout_stays_well_formed(state: Logout, reply: Reply, after: Logout)
    requires
        state.wf(),
        state.leads_to(reply, after),
    ensures
        after.wf(),
{
    match (state, reply) {
        (Logout::Loading { local_only }, Reply::ConfigLoaded(Ok(config))) => {
            if config@.oauth is None {
                let cleanup = choose|cleanup: Cleanup| #[trigger]
                    starts_own_cleanup(config@, local_only, cleanup) && cleaned_only(
                        local_only,
                        cleanup,
                        after,
                    );
                law_cleanup_starts_well_formed(config@, !local_only, cleanup);
                law_cleanup_starts_from_the_queues(config@, !local_only, cleanup);
            }
        },
        (Logout::CleaningOnly { local_only, cleanup }, reply) => {
            let next = choose|next: Cleanup| #[trigger]
                cleanup.leads_to(reply, next) && cleaned_only(local_only, next, after);
            law_cleanup_stays_well_formed(cleanup, reply, next);
            law_cleanup_only_loses_queued(cleanup, reply, next);
        },
        (Logout::LockingRefresh { config, session, .. }, Reply::RefreshLocked(Ok(_))) => {
            law_forgotten_login_is_not_used(config@, session@);
        },
        (Logout::Revoking { config, session, .. }, Reply::Revoked(Ok(_))) => {
            law_forgotten_login_is_not_used(config@, session@);
        },
        (Logout::UnlockingRefresh { local_only, config, reference }, Reply::Released) => {
            let cleanup = choose|cleanup: Cleanup| #[trigger]
                starts_own_cleanup(config@, local_only, cleanup) && cleaned_up(
                    local_only,
                    reference,
                    cleanup,
                    after,
                );
            law_cleanup_starts_well_formed(config@, !local_only, cleanup);
            law_cleanup_starts_from_the_queues(config@, !local_only, cleanup);
        },
        (Logout::Cleaning { local_only, reference, cleanup }, reply) => {
            let next = choose|next: Cleanup| #[trigger]
                cleanup.leads_to(reply, next) && cleaned_up(local_only, reference, next, after);
            law_cleanup_stays_well_formed(cleanup, reply, next);
            law_cleanup_only_loses_queued(cleanup, reply, next);
        },
        _ => {},
    }
}

/// A logout that has come from its first state by these replies.
pub open spec fn is_logout_run(states: Seq<Logout>, replies: Seq<Reply>) -> bool {
    &&& states.len() == replies.len() + 1
    &&& states[0] is Locking
    &&& forall|i: int| 0 <= i < replies.len() ==> #[trigger] logout_step(states, replies, i)
}

/// One step of a run.
pub open spec fn logout_step(states: Seq<Logout>, replies: Seq<Reply>, i: int) -> bool {
    states[i].leads_to(replies[i], states[i + 1])
}

/// Before a logout that is not local forgets a login, the provider has confirmed
/// that its grant is revoked.
pub proof fn law_every_logout_revokes_before_forgetting(
    states: Seq<Logout>,
    replies: Seq<Reply>,
    at: int,
) -> (revoked: int)
    requires
        is_logout_run(states, replies),
        0 <= at < states.len(),
        states[at] matches Logout::Saving { local_only: false, .. },
    ensures
        0 <= revoked < at,
        states[revoked] is Revoking,
        replies[revoked] matches Reply::Revoked(Ok(_)),
    decreases at,
{
    assert(logout_step(states, replies, at - 1));
    if states[at - 1] is Saving {
        law_every_logout_revokes_before_forgetting(states, replies, at - 1)
    } else {
        at - 1
    }
}

impl Logout {
    /// Whether others are kept from changing the configuration. At the end the
    /// lock is given up.
    pub open spec fn holds_config_lock(self) -> bool {
        !(self is Locking || self is Finished)
    }
}

/// A logout takes its locks in the order in which every other flow takes them: that
/// of the configuration first, that of a credential after it.
pub proof fn law_logout_locks_in_order(state: Logout, reply: Reply, after: Logout)
    requires
        state.wf(),
        state.leads_to(reply, after),
    ensures
        match state.asks() {
            Some(Request::LockConfig) => !state.holds_config_lock() && !state.holds_refresh_lock(),
            Some(Request::LockRefresh(_)) => state.holds_config_lock(),
            Some(Request::SaveConfig(_)) => state.holds_config_lock(),
            _ => true,
        },
        state.holds_refresh_lock() ==> state.holds_config_lock(),
        !state.holds_config_lock() && after.holds_config_lock()
            ==> reply matches Reply::ConfigLocked(Ok(_)),
        state.holds_config_lock() && !after.holds_config_lock() ==> after is Finished,
{
}

/// Where the endpoints of a revocation were found.
proof fn lemma_endpoints_found(states: Seq<Logout>, replies: Seq<Reply>, at: int) -> (found: int)
    requires
        is_logout_run(states, replies),
        0 <= at < states.len(),
        states[at] is Revoking,
    ensures
        0 <= found < at,
        states[at] matches Logout::Revoking { config, session, tokens, endpoints } && (
        states[found] matches Logout::Discovering {
            config: same_config,
            session: same,
            tokens: kept,
            ..
        } && same_config == config && same == session && kept == tokens) && (
        replies[found] matches Reply::Discovered(Ok(answer)) && answer == endpoints),
    decreases at,
{
    assert(logout_step(states, replies, at - 1));
    if states[at - 1] is Revoking {
        lemma_endpoints_found(states, replies, at - 1)
    } else {
        at - 1
    }
}

/// Where the tokens of a revocation were read.
proof fn lemma_tokens_read(states: Seq<Logout>, replies: Seq<Reply>, at: int) -> (read: int)
    requires
        is_logout_run(states, replies),
        0 <= at < states.len(),
        states[at] is Discovering,
    ensures
        0 <= read < at,
        states[at] matches Logout::Discovering { config, session, tokens, issuer } && (
        states[read] matches Logout::LoadingTokens { config: same_config, session: same }
            && same_config == config && same == session) && (
        replies[read] matches Reply::CredentialsLoaded(Ok(answer)) && answer == tokens)
            && issuer_of(session@.issuer) == Ok::<UrlView, Seq<char>>(issuer@),
    decreases at,
{
    assert(logout_step(states, replies, at - 1));
    if states[at - 1] is Discovering {
        lemma_tokens_read(states, replies, at - 1)
    } else {
        at - 1
    }
}

/// Where the configuration of a logout was read.
proof fn lemma_config_read(states: Seq<Logout>, replies: Seq<Reply>, at: int) -> (read: int)
    requires
        is_logout_run(states, replies),
        0 <= at < states.len(),
        states[at] is LoadingTokens || states[at] is LockingRefresh,
    ensures
        0 <= read < at,
        replies[read] matches Reply::ConfigLoaded(Ok(loaded)) && match states[at] {
            Logout::LoadingTokens { config, session } => config@ == loaded@ && loaded@.oauth
                == Some(session@),
            Logout::LockingRefresh { config, session, .. } => config@ == loaded@ && loaded@.oauth
                == Some(session@),
            _ => false,
        },
    decreases at,
{
    assert(logout_step(states, replies, at - 1));
    if states[at - 1] is LoadingTokens || states[at - 1] is LockingRefresh {
        lemma_config_read(states, replies, at - 1)
    } else {
        at - 1
    }
}

/// A logout revokes the grant of the login that the configuration held when it was
/// read: in the name of that login's client, with the refresh token that was read for
/// that login, and at the endpoints that were found for its issuer. `steps` says when
/// the configuration was read, the tokens were, and the endpoints were found.
pub proof fn law_every_logout_revokes_its_own_grant(
    states: Seq<Logout>,
    replies: Seq<Reply>,
    at: int,
) -> (steps: (int, int, int))
    requires
        is_logout_run(states, replies),
        0 <= at < states.len(),
        states[at] is Revoking,
    ensures
        0 <= steps.0 < steps.1 < steps.2 < at,
        states[at].asks() matches Some(
            Request::RevokeToken { endpoints, client_id, refresh_token },
        ) && (replies[steps.0] matches Reply::ConfigLoaded(Ok(config))
            && config@.oauth matches Some(login) && {
            &&& client_id@ == login.client_id
            &&& states[steps.1].asks() matches Some(Request::LoadCredentials(session)) && session@
                == login
            &&& replies[steps.1] matches Reply::CredentialsLoaded(Ok(tokens)) && refresh_token@
                == tokens@.refresh_token
            &&& states[steps.2].asks() matches Some(Request::Discover(issuer)) && issuer_of(
                login.issuer,
            ) == Ok::<UrlView, Seq<char>>(issuer@)
            &&& replies[steps.2] matches Reply::Discovered(Ok(found)) && found == *endpoints
        }),
{
    let found = lemma_endpoints_found(states, replies, at);
    let read = lemma_tokens_read(states, replies, found);
    let config = lemma_config_read(states, replies, read);
    (config, read, found)
}

/// What a logout asks for before the cleanup is about the login that the configuration
/// holds: its credential is kept from others and read.
pub proof fn law_logout_asks_about_the_login_in_use(state: Logout)
    requires
        state.wf(),
    ensures
        state matches Logout::LockingRefresh { config, .. } ==> (config@.oauth matches Some(login)
            && state.asks() matches Some(Request::LockRefresh(id)) && id@ == login.credential_id),
        state matches Logout::LoadingTokens { config, .. } ==> (config@.oauth matches Some(login)
            && state.asks() matches Some(Request::LoadCredentials(session)) && session@ == login),
        state matches Logout::Locating { reference } ==> (
        state.asks() matches Some(Request::LocateCredential(asked)) && asked@ == reference@),
        state matches Logout::Locking { .. } ==> state.asks() == Some(Request::LockConfig),
        state matches Logout::Loading { .. } ==> state.asks() == Some(Request::LoadConfig),
{
}

/// The configuration that a logout has at hand while it uses a login.
pub open spec fn config_at_hand(state: Logout) -> ConfigView {
    match state {
        Logout::LockingRefresh { config, .. } => config@,
        Logout::Revoking { config, .. } => config@,
        _ => arbitrary(),
    }
}

/// Once the grant is revoked, or at once where only this machine is to forget the
/// login, a configuration is written that uses no login, uses an access token if there
/// is one, queues the credential of the login that was in use, and is the same
/// otherwise.
pub proof fn law_logout_writes_the_login_off(state: Logout, reply: Reply, after: Logout)
    requires
        state.wf(),
        state.leads_to(reply, after),
        !(state is Saving),
        after is Saving,
    ensures
        ({
            let before = config_at_hand(state);
            &&& state is LockingRefresh || state is Revoking
            &&& before.oauth matches Some(login) && (after.asks() matches Some(
                Request::SaveConfig(written),
            ) && {
                &&& written@.oauth is None
                &&& written@.auth_method == (if before.stored_access_token is Some
                    || before.access_token is Some {
                    Some(AuthMethod::AccessToken)
                } else {
                    None
                })
                &&& written@.pending_oauth_cleanup.contains(
                    crate::config::ReferenceView {
                        credential_id: login.credential_id,
                        credential_store: login.credential_store,
                    },
                )
                &&& forall|r: crate::config::ReferenceView| #[trigger]
                    before.pending_oauth_cleanup.contains(r)
                        ==> written@.pending_oauth_cleanup.contains(r)
                &&& written@.pending_oauth_revocation == before.pending_oauth_revocation
                &&& written@.stored_access_token == before.stored_access_token
                &&& written@.access_token == before.access_token
                &&& written@.account_endpoint == before.account_endpoint
                &&& written@.basin_endpoint == before.basin_endpoint
                &&& written@.ssl_no_verify == before.ssl_no_verify
            })
        }),
{
    let before = config_at_hand(state);
    let session = before.oauth->0;
    law_forgotten_login_is_not_used(before, session);
    assert forall|r: crate::config::ReferenceView| #[trigger]
        before.pending_oauth_cleanup.contains(r) implies queued(
        before.pending_oauth_cleanup,
        session.reference(),
    ).contains(r) by {
        lemma_queued_contains(before.pending_oauth_cleanup, session.reference(), r);
    }
}

/// What goes wrong on the way is what the logout ends with; once the grant is revoked,
/// a configuration that cannot be written is told of as such.
pub proof fn law_logout_ends_with_its_error(
    state: Logout,
    error: LoginError,
    unwritable: crate::error::CliConfigError,
    after: Logout,
)
    ensures
        state is Locking && state.leads_to(Reply::ConfigLocked(Err(unwritable)), after) ==> after
            == (Logout::Finished { result: Err(LoginError::Config(unwritable)) }),
        state is Loading && state.leads_to(Reply::ConfigLoaded(Err(unwritable)), after) ==> after
            == failed(LoginError::Config(unwritable)),
        state is LockingRefresh && state.leads_to(Reply::RefreshLocked(Err(error)), after) ==> after
            == failed(error),
        state is LoadingTokens && state.leads_to(Reply::CredentialsLoaded(Err(error)), after)
            ==> after == failed(error),
        state is Discovering && state.leads_to(Reply::Discovered(Err(error)), after) ==> after
            == failed(error),
        state is Revoking && state.leads_to(Reply::Revoked(Err(error)), after) ==> after == failed(
            error,
        ),
        state matches Logout::Saving { local_only, .. } ==> (state.leads_to(
            Reply::ConfigSaved(Err(unwritable)),
            after,
        ) ==> after == (Logout::Finished {
            result: Err(
                if local_only {
                    LoginError::Config(unwritable)
                } else {
                    LoginError::RevokedButNotRemoved(unwritable)
                },
            ),
        })),
{
}

/// A logout is incomplete exactly if the credential is still queued once the cleanup
/// is over; else its report names that credential, and says what the cleanup said.
pub proof fn law_logout_is_complete_once_the_credential_is_gone(
    local_only: bool,
    reference: StoredCredentialReference,
    config: CliConfig,
    warning: Option<Seq<char>>,
    after: Logout,
)
    requires
        settled(local_only, reference, config, warning, after),
    ensures
        after is Locating <==> config@.pending_oauth_cleanup.contains(reference@),
        after is Locating ==> (after.asks() matches Some(Request::LocateCredential(asked)) && asked@
            == reference@),
        !(after is Locating) ==> (after matches Logout::Finished { result: Ok(report) }
            && report.removed == Some(reference) && report.local_only == local_only
            && report.config@ == config@ && opt_view(report.warning) == warning),
{
}

/// A logout that is not local revokes queued grants too: where a login is queued that
/// is not in use, the cleanup starts with it, whether or not there was a login to
/// remove; a local one only deletes.
pub proof fn law_logout_cleans_up_as_asked(config: ConfigView, local_only: bool, cleanup: Cleanup)
    requires
        starts_own_cleanup(config, local_only, cleanup),
        config.oauth is None,
    ensures
        !local_only && config.pending_oauth_revocation.len() > 0 ==> cleanup is Revoking && (
        cleanup.asks() matches Some(Request::LockRefresh(id)) && id@
            == config.pending_oauth_revocation[0].credential_id),
        local_only ==> !(cleanup is Revoking),
{
    if config.pending_oauth_revocation.len() > 0 {
        law_cleanup_starts_with_the_first_item(config, cleanup, 0);
    } else {
        law_cleanup_starts_well_formed(config, !local_only, cleanup);
    }
}

/// Where there is no login, the queues are cleaned up and nothing is removed; where
/// there is one, its credential is kept from others first.
pub proof fn law_logout_looks_for_a_login(
    local_only: bool,
    config: CliConfig,
    after: Logout,
)
    requires
        (Logout::Loading { local_only }).leads_to(Reply::ConfigLoaded(Ok(config)), after),
    ensures
        config@.oauth matches Some(login) ==> (after.asks() matches Some(Request::LockRefresh(id))
            && id@ == login.credential_id) && after is LockingRefresh,
        config@.oauth is None ==> after is CleaningOnly || after is SavingOnly || (
        after matches Logout::Finished { result: Ok(report) } && report.removed is None),
        config@.oauth is None && config@.pending_oauth_revocation.len() == 0
            && config@.pending_oauth_cleanup.len() == 0 ==> (after matches Logout::Finished {
            result: Ok(report),
        } && report.removed is None && report.config@ == config@ && report.warning is None),
{
    if config@.oauth is None {
        let cleanup = choose|cleanup: Cleanup| #[trigger]
            starts_own_cleanup(config@, local_only, cleanup) && cleaned_only(
                local_only,
                cleanup,
                after,
            );
        if config@.pending_oauth_revocation.len() == 0 && config@.pending_oauth_cleanup.len() == 0 {
            law_empty_queues_need_no_cleanup(config@, !local_only, cleanup);
        }
    }
}

/// Where there was no login, the configuration is written exactly if the cleanup has
/// changed it, and a failure to write it is what the logout ends with; after a login it
/// is only warned of.
pub proof fn law_logout_writes_down_the_cleanup(
    local_only: bool,
    reference: StoredCredentialReference,
    cleanup: Cleanup,
    state: Logout,
    unwritable: crate::error::CliConfigError,
    after: Logout,
)
    ensures
        cleaned_only(local_only, cleanup, state) ==> (cleanup matches Cleanup::Finished {
            config,
            changed,
            ..
        } ==> if changed {
            state.asks() == Some(Request::SaveConfig(&config))
        } else {
            state is Finished
        }),
        cleaned_up(local_only, reference, cleanup, state) ==> (cleanup matches Cleanup::Finished {
            config,
            changed,
            ..
        } ==> if changed {
            state.asks() == Some(Request::SaveConfig(&config))
        } else {
            state is Finished || state is Locating
        }),
        state is SavingOnly && state.leads_to(Reply::ConfigSaved(Err(unwritable)), after) ==> after
            == (Logout::Finished { result: Err(LoginError::Config(unwritable)) }),
        state is SavingCleaned && state.leads_to(Reply::ConfigSaved(Err(unwritable)), after) ==> (
        after is Locating || (after matches Logout::Finished { result: Ok(report) }
            && report.warning is Some)),
{
}

/// Where nothing goes wrong a logout goes on: the configuration is locked and read, the
/// credential of the login is locked, and read unless only this machine is to forget
/// the login, its provider is looked up and its grant revoked; what is written then is
/// followed by letting go of the credential and by the cleanup.
pub proof fn law_logout_goes_on(state: Logout, reply: Reply, after: Logout)
    requires
        state.leads_to(reply, after),
    ensures
        match (state, reply) {
            (Logout::Locking { local_only }, Reply::ConfigLocked(Ok(_))) => after == (
            Logout::Loading { local_only }),
            (Logout::LockingRefresh { local_only, .. }, Reply::RefreshLocked(Ok(_))) => {
                if local_only {
                    after is Saving
                } else {
                    after.asks() matches Some(Request::LoadCredentials(_))
                }
            },
            (Logout::LoadingTokens { session, .. }, Reply::CredentialsLoaded(Ok(_))) => {
                match issuer_of(session@.issuer) {
                    Ok(expected) => after.asks() matches Some(Request::Discover(issuer)) && issuer@
                        == expected,
                    Err(reason) => after matches Logout::Finished {
                        result: Err(LoginError::InvalidIssuer(said)),
                    } && said@ == reason,
                }
            },
            (Logout::Discovering { .. }, Reply::Discovered(Ok(_))) => {
                after.asks() matches Some(Request::RevokeToken { .. })
            },
            (Logout::Revoking { .. }, Reply::Revoked(Ok(_))) => after matches Logout::Saving {
                local_only: false,
                ..
            },
            (Logout::Saving { config, .. }, Reply::ConfigSaved(Ok(_))) => after.asks() == Some(
                Request::UnlockRefresh,
            ) && (after matches Logout::UnlockingRefresh { config: same, .. } && same == config),
            (Logout::Locating { .. }, Reply::CredentialLocated(recovery)) => after == (
            Logout::Finished { result: Err(LoginError::LogoutIncomplete { recovery }) }),
            _ => true,
        },
{
}

}
