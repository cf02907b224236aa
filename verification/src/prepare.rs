//! Making room for a new login: no older login may be waiting to be cleaned up in
//! the credential store that is to be used.

use vstd::prelude::*;

use crate::cleanup::{
    law_cleanup_starts_well_formed, law_cleanup_starts_with_the_first_item,
    law_cleanup_stays_well_formed, starts_cleanup, Cleanup,
};
use crate::config::{
    has_pending_oauth_in_store, law_queued_items_wait_in_their_store, pending_in_store, CliConfig,
    ConfigView, CredentialStore, ReferenceView,
};
use crate::effect::{Reply, Request};
use crate::error::LoginError;
use crate::text::opt_view;

verus! {

/// Making room in a credential store.
pub enum PrepareStore {
    /// Get rid of older logins.
    Cleaning { store: CredentialStore, cleanup: Cleanup },
    /// Write down what is gone.
    Saving { store: CredentialStore, config: CliConfig, warning: Option<String> },
    /// There is room, with the configuration as it now is, or why there is not.
    Finished { result: Result<CliConfig, LoginError> },
}

/// Why there is no room.
pub open spec fn pending_details(warning: Option<Seq<char>>) -> Seq<char> {
    match warning {
        Some(warning) => warning,
        None => "the previous cleanup is still pending"@,
    }
}

/// The end, once the configuration is written down.
pub open spec fn settled(
    config: ConfigView,
    warning: Option<Seq<char>>,
    store: CredentialStore,
    result: Result<CliConfig, LoginError>,
) -> bool {
    if pending_in_store(config, store) {
        result matches Err(LoginError::PendingLoginCleanup { details }) && details@
            == pending_details(warning)
    } else {
        result matches Ok(ready) && ready@ == config
    }
}

/// The state that belongs to a cleanup that has come this far.
pub open spec fn cleaned(store: CredentialStore, cleanup: Cleanup, after: PrepareStore) -> bool {
    match cleanup {
        Cleanup::Finished { config, changed, warning } => if changed {
            after == (PrepareStore::Saving { store, config, warning })
        } else {
            after matches PrepareStore::Finished { result } && settled(
                config@,
                opt_view(warning),
                store,
                result,
            )
        },
        _ => after == (PrepareStore::Cleaning { store, cleanup }),
    }
}

fn settle(config: CliConfig, warning: Option<String>, store: CredentialStore) -> (result: Result<
    CliConfig,
    LoginError,
>)
    ensures
        settled(config@, opt_view(warning), store, result),
{
    if has_pending_oauth_in_store(&config, store) {
        let details = match warning {
            Some(warning) => warning,
            None => "the previous cleanup is still pending".to_owned(),
        };
        Err(LoginError::PendingLoginCleanup { details })
    } else {
        Ok(config)
    }
}

fn after_cleanup(store: CredentialStore, cleanup: Cleanup) -> (after: PrepareStore)
    requires
        cleanup.wf(),
    ensures
        cleaned(store, cleanup, after),
        after.wf(),
{
    match cleanup {
        Cleanup::Finished { config, changed, warning } => {
            if changed {
                PrepareStore::Saving { store, config, warning }
            } else {
                PrepareStore::Finished { result: settle(config, warning, store) }
            }
        },
        cleanup => PrepareStore::Cleaning { store, cleanup },
    }
}

impl PrepareStore {
    pub open spec fn wf(self) -> bool {
        self matches PrepareStore::Cleaning { cleanup, .. } ==> cleanup.wf() && !(
        cleanup is Finished)
    }

    /// The first state.
    pub open spec fn starts(
        config: ConfigView,
        store: CredentialStore,
        after: PrepareStore,
    ) -> bool {
        exists|cleanup: Cleanup| #[trigger]
            starts_cleanup(config, true, cleanup) && cleaned(store, cleanup, after)
    }

    /// Starts to make room in `store`.
    pub fn start(config: CliConfig, store: CredentialStore) -> (state: PrepareStore)
        ensures
            state.wf(),
            PrepareStore::starts(config@, store, state),
    {
        let cleanup = Cleanup::start(config, true);
        assert(starts_cleanup(config@, true, cleanup));
        after_cleanup(store, cleanup)
    }

    /// What is to be done next; `None` at the end.
    pub open spec fn asks<'a>(&'a self) -> Option<Request<'a>> {
        match self {
            PrepareStore::Cleaning { cleanup, .. } => cleanup.asks(),
            PrepareStore::Saving { config, .. } => Some(Request::SaveConfig(config)),
            PrepareStore::Finished { .. } => None,
        }
    }

    /// What is to be done next.
    pub fn request<'a>(&'a self) -> (request: Option<Request<'a>>)
        ensures
            request == self.asks(),
    {
        match self {
            PrepareStore::Cleaning { cleanup, .. } => cleanup.request(),
            PrepareStore::Saving { config, .. } => Some(Request::SaveConfig(config)),
            PrepareStore::Finished { .. } => None,
        }
    }

    /// A reply leads from one state to another. A reply to something else
    /// changes nothing.
    pub open spec fn leads_to(self, reply: Reply, after: PrepareStore) -> bool {
        match (self, reply) {
            (PrepareStore::Cleaning { store, cleanup }, reply) => exists|next: Cleanup| #[trigger]
                cleanup.leads_to(reply, next) && cleaned(store, next, after),
            (PrepareStore::Saving { store, config, warning }, Reply::ConfigSaved(Ok(_))) => {
                after matches PrepareStore::Finished { result } && settled(
                    config@,
                    opt_view(warning),
                    store,
                    result,
                )
            },
            (PrepareStore::Saving { .. }, Reply::ConfigSaved(Err(error))) => after == (
            PrepareStore::Finished { result: Err(LoginError::Config(error)) }),
            _ => after == self,
        }
    }

    /// Goes on with the reply to the last request.
    pub fn advance(self, reply: Reply) -> (after: PrepareStore)
        requires
            self.wf(),
        ensures
            self.leads_to(reply, after),
            after.wf(),
    {
        match (self, reply) {
            (PrepareStore::Cleaning { store, cleanup }, reply) => {
                let next = cleanup.advance(reply);
                assert(cleanup.leads_to(reply, next));
                after_cleanup(store, next)
            },
            (PrepareStore::Saving { store, config, warning }, Reply::ConfigSaved(Ok(_))) => {
                PrepareStore::Finished { result: settle(config, warning, store) }
            },
            (PrepareStore::Saving { .. }, Reply::ConfigSaved(Err(error))) => {
                PrepareStore::Finished { result: Err(LoginError::Config(error)) }
            },
            (state, _) => state,
        }
    }
}

/// Where there is room, nothing is queued in the store.
pub proof fn law_room_means_nothing_queued(
    config: ConfigView,
    warning: Option<Seq<char>>,
    store: CredentialStore,
    result: Result<CliConfig, LoginError>,
)
    requires
        settled(config, warning, store, result),
    ensures
        result matches Ok(ready) ==> !pending_in_store(ready@, store),
{
}

/// Making room never leaves the states that it is meant to be in.
pub proof fn law_preparation_stays_well_formed(
    state: PrepareStore,
    reply: Reply,
    after: PrepareStore,
)
    requires
        state.wf(),
        state.leads_to(reply, after),
    ensures
        after.wf(),
{
    if let PrepareStore::Cleaning { store, cleanup } = state {
        let next = choose|next: Cleanup| #[trigger]
            cleanup.leads_to(reply, next) && cleaned(store, next, after);
        law_cleanup_stays_well_formed(cleanup, reply, next);
    }
}

/// The first state is one that making room is meant to be in.
pub proof fn law_preparation_starts_well_formed(
    config: ConfigView,
    store: CredentialStore,
    after: PrepareStore,
)
    requires
        PrepareStore::starts(config, store, after),
    ensures
        after.wf(),
{
    let cleanup = choose|cleanup: Cleanup| #[trigger]
        starts_cleanup(config, true, cleanup) && cleaned(store, cleanup, after);
    law_cleanup_starts_well_formed(config, true, cleanup);
}

impl PrepareStore {
    /// Whether other processes are kept from using a credential.
    pub open spec fn holds_refresh_lock(self) -> bool {
        match self {
            PrepareStore::Cleaning { cleanup, .. } => cleanup.holds_refresh_lock(),
            _ => false,
        }
    }
}

/// There is room exactly if nothing waits in the store, and the configuration then is
/// the one that was written down; else the user is told why, or that something is
/// still waiting.
pub proof fn law_room_is_a_matter_of_the_queues(
    config: ConfigView,
    warning: Option<Seq<char>>,
    store: CredentialStore,
    result: Result<CliConfig, LoginError>,
)
    requires
        settled(config, warning, store, result),
    ensures
        result is Ok <==> (forall|r: ReferenceView| #[trigger]
            config.pending_oauth_cleanup.contains(r) ==> r.credential_store != store) && (forall|
            s: crate::config::SessionView,
        | #[trigger]
            config.pending_oauth_revocation.contains(s) ==> s.credential_store != store),
        result matches Ok(ready) ==> ready@ == config,
        result matches Err(error) ==> error matches LoginError::PendingLoginCleanup { details }
            && (warning matches Some(why) ==> details@ == why) && (warning is None ==> details@
            == "the previous cleanup is still pending"@),
{
    if pending_in_store(config, store) {
        let none_reference = ReferenceView { credential_id: seq![], credential_store: store };
        let none_session = crate::config::SessionView {
            issuer: seq![],
            client_id: seq![],
            account_endpoint: seq![],
            basin_endpoint: seq![],
            credential_id: seq![],
            credential_store: store,
        };
        law_queued_items_wait_in_their_store(config, store, none_reference, none_session);
    } else {
        assert forall|r: ReferenceView| #[trigger]
            config.pending_oauth_cleanup.contains(r) implies r.credential_store != store by {
            let i = choose|i: int|
                0 <= i < config.pending_oauth_cleanup.len() && config.pending_oauth_cleanup[i] == r;
            assert(config.pending_oauth_cleanup[i].credential_store != store);
        }
        assert forall|s: crate::config::SessionView| #[trigger]
            config.pending_oauth_revocation.contains(s) implies s.credential_store != store by {
            let i = choose|i: int|
                0 <= i < config.pending_oauth_revocation.len() && config.pending_oauth_revocation[i]
                    == s;
            assert(config.pending_oauth_revocation[i].credential_store != store);
        }
    }
}

impl PrepareStore {
    /// The store that room is made in.
    pub open spec fn store(self) -> Option<CredentialStore> {
        match self {
            PrepareStore::Cleaning { store, .. } => Some(store),
            PrepareStore::Saving { store, .. } => Some(store),
            PrepareStore::Finished { .. } => None,
        }
    }
}

/// Room is made in the store that was asked for, to the end, and where it was made
/// nothing is queued in that store.
pub proof fn law_room_is_made_in_one_store(
    state: PrepareStore,
    reply: Reply,
    after: PrepareStore,
    store: CredentialStore,
)
    requires
        state.store() == Some(store),
        state.leads_to(reply, after),
    ensures
        after.store() == Some(store) || after is Finished,
        after matches PrepareStore::Finished { result: Ok(ready) } ==> !pending_in_store(
            ready@,
            store,
        ),
{
}

/// The first state is about the store that was asked for; and where a login is queued
/// that is not in use, making room starts with its revocation.
pub proof fn law_room_starts_in_its_store(
    config: ConfigView,
    store: CredentialStore,
    after: PrepareStore,
)
    requires
        PrepareStore::starts(config, store, after),
    ensures
        after.store() == Some(store) || after is Finished,
        after matches PrepareStore::Finished { result: Ok(ready) } ==> !pending_in_store(
            ready@,
            store,
        ),
        config.pending_oauth_revocation.len() > 0 && config.oauth != Some(
            config.pending_oauth_revocation[0],
        ) ==> (after matches PrepareStore::Cleaning { cleanup: Cleanup::Revoking { .. }, .. }),
{
    let cleanup = choose|cleanup: Cleanup| #[trigger]
        starts_cleanup(config, true, cleanup) && cleaned(store, cleanup, after);
    if config.pending_oauth_revocation.len() > 0 && config.oauth != Some(
        config.pending_oauth_revocation[0],
    ) {
        law_cleanup_starts_with_the_first_item(config, cleanup, 0);
    }
}

/// The configuration is written exactly if the cleanup has changed it, and a failure to
/// write it is what making room ends with.
pub proof fn law_room_is_written_down(
    store: CredentialStore,
    cleanup: Cleanup,
    unwritable: crate::error::CliConfigError,
    state: PrepareStore,
    after: PrepareStore,
)
    ensures
        cleaned(store, cleanup, state) ==> (cleanup matches Cleanup::Finished {
            config,
            changed,
            ..
        } ==> if changed {
            state.asks() == Some(Request::SaveConfig(&config))
        } else {
            state is Finished
        }),
        state is Saving && state.leads_to(Reply::ConfigSaved(Err(unwritable)), after) ==> after == (
        PrepareStore::Finished { result: Err(LoginError::Config(unwritable)) }),
{
}

}
