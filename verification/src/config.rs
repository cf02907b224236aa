//! The part of the configuration that says how to authenticate.

use vstd::prelude::*;

use crate::error::{says_missing_access_token, CliConfigError};
use crate::text::{opt_view, same_opt_text};

verus! {

/// How commands authenticate.
#[derive(Debug, Clone, Copy, PartialEq, Eq, Structural)]
pub enum AuthMethod {
    BrowserLogin,
    AccessToken,
}

/// Where a credential is kept.
#[derive(Debug, Clone, Copy, PartialEq, Eq, Structural)]
pub enum CredentialStore {
    Keyring,
    File,
}

/// A credential in a credential store.
#[derive(Debug, Clone, PartialEq, Eq)]
pub struct StoredCredentialReference {
    pub credential_id: String,
    pub credential_store: CredentialStore,
}

/// What a `StoredCredentialReference` says.
pub struct ReferenceView {
    pub credential_id: Seq<char>,
    pub credential_store: CredentialStore,
}

impl View for StoredCredentialReference {
    type V = ReferenceView;

    open spec fn view(&self) -> ReferenceView {
        ReferenceView {
            credential_id: self.credential_id@,
            credential_store: self.credential_store,
        }
    }
}

impl StoredCredentialReference {
    /// Whether both name the same credential.
    pub fn same(&self, other: &StoredCredentialReference) -> (same: bool)
        ensures
            same == (self@ == other@),
    {
        self.credential_id == other.credential_id && self.credential_store
            == other.credential_store
    }

    pub fn duplicate(&self) -> (copy: StoredCredentialReference)
        ensures
            copy == *self,
    {
        StoredCredentialReference {
            credential_id: self.credential_id.clone(),
            credential_store: self.credential_store,
        }
    }
}

/// A browser login: who issued it, whom it is for, and where its tokens are.
#[derive(Debug, Clone, PartialEq, Eq)]
pub struct OAuthSession {
    pub issuer: String,
    pub client_id: String,
    pub account_endpoint: String,
    pub basin_endpoint: String,
    pub credential_id: String,
    pub credential_store: CredentialStore,
}

/// What an `OAuthSession` says.
pub struct SessionView {
    pub issuer: Seq<char>,
    pub client_id: Seq<char>,
    pub account_endpoint: Seq<char>,
    pub basin_endpoint: Seq<char>,
    pub credential_id: Seq<char>,
    pub credential_store: CredentialStore,
}

impl View for OAuthSession {
    type V = SessionView;

    open spec fn view(&self) -> SessionView {
        SessionView {
            issuer: self.issuer@,
            client_id: self.client_id@,
            account_endpoint: self.account_endpoint@,
            basin_endpoint: self.basin_endpoint@,
            credential_id: self.credential_id@,
            credential_store: self.credential_store,
        }
    }
}

impl SessionView {
    /// Where the tokens of the login are kept.
    pub open spec fn reference(self) -> ReferenceView {
        ReferenceView {
            credential_id: self.credential_id,
            credential_store: self.credential_store,
        }
    }
}

impl OAuthSession {
    /// Where the tokens of the login are kept.
    pub fn credential_reference(&self) -> (reference: StoredCredentialReference)
        ensures
            reference@ == self@.reference(),
    {
        StoredCredentialReference {
            credential_id: self.credential_id.clone(),
            credential_store: self.credential_store,
        }
    }

    /// Whether both are the same login.
    pub fn same(&self, other: &OAuthSession) -> (same: bool)
        ensures
            same == (self@ == other@),
    {
        self.issuer == other.issuer && self.client_id == other.client_id && self.account_endpoint
            == other.account_endpoint && self.basin_endpoint == other.basin_endpoint
            && self.credential_id == other.credential_id && self.credential_store
            == other.credential_store
    }

    pub fn duplicate(&self) -> (copy: OAuthSession)
        ensures
            copy == *self,
    {
        OAuthSession {
            issuer: self.issuer.clone(),
            client_id: self.client_id.clone(),
            account_endpoint: self.account_endpoint.clone(),
            basin_endpoint: self.basin_endpoint.clone(),
            credential_id: self.credential_id.clone(),
            credential_store: self.credential_store,
        }
    }
}

/// An optional login, by what it says.
pub open spec fn session_view(session: Option<OAuthSession>) -> Option<SessionView> {
    match session {
        Some(session) => Some(session@),
        None => None,
    }
}

/// An optional reference, by what it says.
pub open spec fn reference_view(reference: Option<StoredCredentialReference>) -> Option<
    ReferenceView,
> {
    match reference {
        Some(reference) => Some(reference@),
        None => None,
    }
}

/// Whether `current` is the login `session`.
pub fn is_session(current: &Option<OAuthSession>, session: &OAuthSession) -> (is: bool)
    ensures
        is == (session_view(*current) == Some(session@)),
{
    match current {
        Some(current) => current.same(session),
        None => false,
    }
}

/// The configuration, as far as authentication reads or changes it.
#[derive(Debug, Clone, PartialEq, Eq)]
pub struct CliConfig {
    pub auth_method: Option<AuthMethod>,
    pub oauth: Option<OAuthSession>,
    /// An access token in a credential store.
    pub stored_access_token: Option<StoredCredentialReference>,
    /// An access token in the configuration file itself.
    pub access_token: Option<String>,
    /// Credentials that are to be deleted.
    pub pending_oauth_cleanup: Vec<StoredCredentialReference>,
    /// Logins whose grant is to be revoked and whose credential is to be deleted.
    pub pending_oauth_revocation: Vec<OAuthSession>,
    pub account_endpoint: Option<String>,
    pub basin_endpoint: Option<String>,
    pub ssl_no_verify: Option<bool>,
}

/// What a `CliConfig` says.
pub struct ConfigView {
    pub auth_method: Option<AuthMethod>,
    pub oauth: Option<SessionView>,
    pub stored_access_token: Option<ReferenceView>,
    pub access_token: Option<Seq<char>>,
    pub pending_oauth_cleanup: Seq<ReferenceView>,
    pub pending_oauth_revocation: Seq<SessionView>,
    pub account_endpoint: Option<Seq<char>>,
    pub basin_endpoint: Option<Seq<char>>,
    pub ssl_no_verify: Option<bool>,
}

/// References, by what they say.
pub open spec fn references_view(references: Seq<StoredCredentialReference>) -> Seq<
    ReferenceView,
> {
    references.map_values(|reference: StoredCredentialReference| reference@)
}

/// Logins, by what they say.
pub open spec fn sessions_view(sessions: Seq<OAuthSession>) -> Seq<SessionView> {
    sessions.map_values(|session: OAuthSession| session@)
}

impl View for CliConfig {
    type V = ConfigView;

    open spec fn view(&self) -> ConfigView {
        ConfigView {
            auth_method: self.auth_method,
            oauth: session_view(self.oauth),
            stored_access_token: reference_view(self.stored_access_token),
            access_token: opt_view(self.access_token),
            pending_oauth_cleanup: references_view(self.pending_oauth_cleanup@),
            pending_oauth_revocation: sessions_view(self.pending_oauth_revocation@),
            account_endpoint: opt_view(self.account_endpoint),
            basin_endpoint: opt_view(self.basin_endpoint),
            ssl_no_verify: self.ssl_no_verify,
        }
    }
}

impl ConfigView {
    /// Whether the configuration holds an access token or says where one is.
    pub open spec fn has_stored_access_token(self) -> bool {
        self.stored_access_token is Some || self.access_token is Some
    }
}

impl Default for CliConfig {
    /// A configuration that says nothing.
    fn default() -> (config: CliConfig)
        ensures
            config@ == (ConfigView {
                auth_method: None,
                oauth: None,
                stored_access_token: None,
                access_token: None,
                pending_oauth_cleanup: seq![],
                pending_oauth_revocation: seq![],
                account_endpoint: None,
                basin_endpoint: None,
                ssl_no_verify: None,
            }),
    {
        let config = CliConfig {
            auth_method: None,
            oauth: None,
            stored_access_token: None,
            access_token: None,
            pending_oauth_cleanup: Vec::new(),
            pending_oauth_revocation: Vec::new(),
            account_endpoint: None,
            basin_endpoint: None,
            ssl_no_verify: None,
        };
        assert(config@.pending_oauth_cleanup =~= seq![]);
        assert(config@.pending_oauth_revocation =~= seq![]);
        config
    }
}

/// The list with `item` at its end, or the list itself where it holds `item` already.
pub open spec fn queued<T>(list: Seq<T>, item: T) -> Seq<T> {
    if list.contains(item) {
        list
    } else {
        list.push(item)
    }
}

/// The list without the items that equal `item`.
pub open spec fn without<T>(list: Seq<T>, item: T) -> Seq<T> {
    list.filter(|other: T| other != item)
}

/// Whether `list` holds a reference to the same credential.
pub fn holds_reference(
    list: &Vec<StoredCredentialReference>,
    reference: &StoredCredentialReference,
) -> (holds: bool)
    ensures
        holds == references_view(list@).contains(reference@),
{
    let ghost views = references_view(list@);
    let mut at: usize = 0;
    while at < list.len()
        invariant
            at <= list@.len(),
            views == references_view(list@),
            forall|i: int| 0 <= i < at ==> #[trigger] views[i] != reference@,
        decreases list@.len() - at,
    {
        assert(views[at as int] == list@[at as int]@);
        if list[at].same(reference) {
            return true;
        }
        at += 1;
    }
    false
}

/// Whether `list` holds the same login.
pub fn holds_session(list: &Vec<OAuthSession>, session: &OAuthSession) -> (holds: bool)
    ensures
        holds == sessions_view(list@).contains(session@),
{
    let ghost views = sessions_view(list@);
    let mut at: usize = 0;
    while at < list.len()
        invariant
            at <= list@.len(),
            views == sessions_view(list@),
            forall|i: int| 0 <= i < at ==> #[trigger] views[i] != session@,
        decreases list@.len() - at,
    {
        assert(views[at as int] == list@[at as int]@);
        if list[at].same(session) {
            return true;
        }
        at += 1;
    }
    false
}

/// Puts `reference` at the end of the list, unless the list holds it already.
pub fn queue_reference(
    list: &mut Vec<StoredCredentialReference>,
    reference: StoredCredentialReference,
)
    ensures
        references_view(final(list)@) == queued(references_view(old(list)@), reference@),
{
    if !holds_reference(list, &reference) {
        list.push(reference);
        assert(references_view(list@) =~= references_view(old(list)@).push(reference@));
    }
}

/// Puts `session` at the end of the list, unless the list holds it already.
pub fn queue_session(list: &mut Vec<OAuthSession>, session: OAuthSession)
    ensures
        sessions_view(final(list)@) == queued(sessions_view(old(list)@), session@),
{
    if !holds_session(list, &session) {
        list.push(session);
        assert(sessions_view(list@) =~= sessions_view(old(list)@).push(session@));
    }
}

/// Removing an item from a list that grows at its end.
pub proof fn lemma_without_push<T>(list: Seq<T>, next: T, item: T)
    ensures
        without(list.push(next), item) == (if next == item {
            without(list, item)
        } else {
            without(list, item).push(next)
        }),
{
    reveal(Seq::filter);
    assert(list.push(next).drop_last() =~= list);
}

/// An item that was taken out of a list is not in it.
pub proof fn lemma_without_lacks<T>(list: Seq<T>, item: T)
    ensures
        !without(list, item).contains(item),
{
    broadcast use vstd::seq_lib::group_filter_ensures;

}

/// A queued item is in the list, and nothing else comes in with it.
pub proof fn lemma_queued_contains<T>(list: Seq<T>, item: T, other: T)
    ensures
        queued(list, item).contains(item),
        item != other ==> queued(list, item).contains(other) == list.contains(other),
{
    if !list.contains(item) {
        let longer = list.push(item);
        assert(longer[list.len() as int] == item);
        if list.contains(other) {
            let at = choose|at: int| 0 <= at < list.len() && list[at] == other;
            assert(longer[at] == other);
        }
        if item != other && longer.contains(other) {
            let at = choose|at: int| 0 <= at < longer.len() && longer[at] == other;
            assert(list[at] == other);
        }
    }
}

/// The list without the references to the same credential.
pub fn remove_reference(
    list: &Vec<StoredCredentialReference>,
    reference: &StoredCredentialReference,
) -> (rest: Vec<StoredCredentialReference>)
    ensures
        references_view(rest@) == without(references_view(list@), reference@),
{
    let ghost views = references_view(list@);
    let mut rest: Vec<StoredCredentialReference> = Vec::new();
    let mut at: usize = 0;
    proof {
        reveal(Seq::filter);
        assert(references_view(rest@) =~= without(views.take(0), reference@));
    }
    while at < list.len()
        invariant
            at <= list@.len(),
            views == references_view(list@),
            references_view(rest@) == without(views.take(at as int), reference@),
        decreases list@.len() - at,
    {
        proof {
            lemma_without_push(views.take(at as int), views[at as int], reference@);
            assert(views.take(at as int).push(views[at as int]) =~= views.take(at + 1));
        }
        let ghost kept = rest@;
        if !list[at].same(reference) {
            rest.push(list[at].duplicate());
            assert(references_view(rest@) =~= references_view(kept).push(views[at as int]));
        }
        at += 1;
    }
    assert(views.take(views.len() as int) =~= views);
    rest
}

/// The list without the same login.
pub fn remove_session(list: &Vec<OAuthSession>, session: &OAuthSession) -> (rest: Vec<OAuthSession>)
    ensures
        sessions_view(rest@) == without(sessions_view(list@), session@),
{
    let ghost views = sessions_view(list@);
    let mut rest: Vec<OAuthSession> = Vec::new();
    let mut at: usize = 0;
    proof {
        reveal(Seq::filter);
        assert(sessions_view(rest@) =~= without(views.take(0), session@));
    }
    while at < list.len()
        invariant
            at <= list@.len(),
            views == sessions_view(list@),
            sessions_view(rest@) == without(views.take(at as int), session@),
        decreases list@.len() - at,
    {
        proof {
            lemma_without_push(views.take(at as int), views[at as int], session@);
            assert(views.take(at as int).push(views[at as int]) =~= views.take(at + 1));
        }
        let ghost kept = rest@;
        if !list[at].same(session) {
            rest.push(list[at].duplicate());
            assert(sessions_view(rest@) =~= sessions_view(kept).push(views[at as int]));
        }
        at += 1;
    }
    assert(views.take(views.len() as int) =~= views);
    rest
}

impl CliConfig {
    /// Whether the configuration holds an access token or says where one is.
    pub fn has_stored_access_token(&self) -> (has: bool)
        ensures
            has == self@.has_stored_access_token(),
    {
        self.stored_access_token.is_some() || self.access_token.is_some()
    }

    /// A second copy of the configuration.
    pub fn duplicate(&self) -> (copy: CliConfig)
        ensures
            copy@ == self@,
    {
        let mut cleanup: Vec<StoredCredentialReference> = Vec::new();
        let mut at: usize = 0;
        while at < self.pending_oauth_cleanup.len()
            invariant
                at <= self.pending_oauth_cleanup@.len(),
                cleanup@ == self.pending_oauth_cleanup@.take(at as int),
            decreases self.pending_oauth_cleanup@.len() - at,
        {
            cleanup.push(self.pending_oauth_cleanup[at].duplicate());
            at += 1;
        }
        let mut revocation: Vec<OAuthSession> = Vec::new();
        let mut next: usize = 0;
        while next < self.pending_oauth_revocation.len()
            invariant
                next <= self.pending_oauth_revocation@.len(),
                revocation@ == self.pending_oauth_revocation@.take(next as int),
            decreases self.pending_oauth_revocation@.len() - next,
        {
            revocation.push(self.pending_oauth_revocation[next].duplicate());
            next += 1;
        }
        assert(cleanup@ =~= self.pending_oauth_cleanup@);
        assert(revocation@ =~= self.pending_oauth_revocation@);
        CliConfig {
            auth_method: self.auth_method,
            oauth: match &self.oauth {
                Some(session) => Some(session.duplicate()),
                None => None,
            },
            stored_access_token: match &self.stored_access_token {
                Some(reference) => Some(reference.duplicate()),
                None => None,
            },
            access_token: self.access_token.clone(),
            pending_oauth_cleanup: cleanup,
            pending_oauth_revocation: revocation,
            account_endpoint: self.account_endpoint.clone(),
            basin_endpoint: self.basin_endpoint.clone(),
            ssl_no_verify: self.ssl_no_verify,
        }
    }
}

/// A credential in `store` is still to be cleaned up.
pub open spec fn pending_in_store(config: ConfigView, store: CredentialStore) -> bool {
    ||| exists|i: int|
        0 <= i < config.pending_oauth_cleanup.len() && (
        #[trigger] config.pending_oauth_cleanup[i]).credential_store == store
    ||| exists|i: int|
        0 <= i < config.pending_oauth_revocation.len() && (
        #[trigger] config.pending_oauth_revocation[i]).credential_store == store
}

/// Whether a credential in `store` is still to be cleaned up.
pub fn has_pending_oauth_in_store(config: &CliConfig, store: CredentialStore) -> (pending: bool)
    ensures
        pending == pending_in_store(config@, store),
{
    let mut at: usize = 0;
    while at < config.pending_oauth_cleanup.len()
        invariant
            at <= config.pending_oauth_cleanup@.len(),
            forall|i: int|
                0 <= i < at ==> (#[trigger] config@.pending_oauth_cleanup[i]).credential_store
                    != store,
        decreases config.pending_oauth_cleanup@.len() - at,
    {
        assert(config@.pending_oauth_cleanup[at as int]
            == config.pending_oauth_cleanup@[at as int]@);
        if config.pending_oauth_cleanup[at].credential_store == store {
            return true;
        }
        at += 1;
    }
    let mut next: usize = 0;
    while next < config.pending_oauth_revocation.len()
        invariant
            next <= config.pending_oauth_revocation@.len(),
            forall|i: int|
                0 <= i < next ==> (#[trigger] config@.pending_oauth_revocation[i]).credential_store
                    != store,
        decreases config.pending_oauth_revocation@.len() - next,
    {
        assert(config@.pending_oauth_revocation[next as int]
            == config.pending_oauth_revocation@[next as int]@);
        if config.pending_oauth_revocation[next].credential_store == store {
            return true;
        }
        next += 1;
    }
    false
}

/// The configuration once a login has taken the place of `previous`: the
/// credential of the previous one is queued for deletion where the new login may
/// share its grant, and the previous login is queued for revocation otherwise.
pub open spec fn with_replaced_session(
    config: ConfigView,
    previous: SessionView,
    grant_may_be_reused: bool,
) -> ConfigView {
    if grant_may_be_reused {
        ConfigView {
            pending_oauth_cleanup: queued(config.pending_oauth_cleanup, previous.reference()),
            ..config
        }
    } else {
        ConfigView {
            pending_oauth_revocation: queued(config.pending_oauth_revocation, previous),
            ..config
        }
    }
}

/// Queues the login that a new one has taken the place of.
pub fn queue_replaced_session(
    config: &mut CliConfig,
    previous: &OAuthSession,
    grant_may_be_reused: bool,
)
    ensures
        final(config)@ == with_replaced_session(old(config)@, previous@, grant_may_be_reused),
{
    if grant_may_be_reused {
        queue_reference(&mut config.pending_oauth_cleanup, previous.credential_reference());
    } else {
        queue_session(&mut config.pending_oauth_revocation, previous.duplicate());
    }
}

/// Two configurations authenticate differently.
pub open spec fn authentication_differs(previous: ConfigView, latest: ConfigView) -> bool {
    ||| previous.auth_method != latest.auth_method
    ||| previous.oauth != latest.oauth
    ||| previous.stored_access_token != latest.stored_access_token
    ||| previous.access_token != latest.access_token
}

/// Whether the configuration authenticates differently than before.
pub fn authentication_config_changed(previous: &CliConfig, latest: &CliConfig) -> (changed: bool)
    ensures
        changed == authentication_differs(previous@, latest@),
{
    let same_method = match (previous.auth_method, latest.auth_method) {
        (Some(previous), Some(latest)) => previous == latest,
        (None, None) => true,
        _ => false,
    };
    let same_login = match (&previous.oauth, &latest.oauth) {
        (Some(previous), Some(latest)) => previous.same(latest),
        (None, None) => true,
        _ => false,
    };
    let same_reference = match (&previous.stored_access_token, &latest.stored_access_token) {
        (Some(previous), Some(latest)) => previous.same(latest),
        (None, None) => true,
        _ => false,
    };
    !(same_method && same_login && same_reference && same_opt_text(
        &previous.access_token,
        &latest.access_token,
    ))
}

/// Where the credential of a command comes from.
#[derive(Debug, Clone, Copy, PartialEq, Eq, Structural)]
pub enum CredentialChoice {
    Environment,
    BrowserLogin,
    StoredAccessToken,
}

/// The choice among the credentials: the environment comes first, then the
/// method that the configuration selects; where it selects none, a stored access
/// token comes before a browser login. `None` stands for no credential, or for a
/// selected one that is missing.
pub open spec fn choice(config: ConfigView, has_environment_token: bool) -> Option<
    CredentialChoice,
> {
    if has_environment_token {
        Some(CredentialChoice::Environment)
    } else if config.auth_method == Some(AuthMethod::BrowserLogin) {
        if config.oauth is Some {
            Some(CredentialChoice::BrowserLogin)
        } else {
            None
        }
    } else if config.has_stored_access_token() {
        Some(CredentialChoice::StoredAccessToken)
    } else if config.auth_method is None && config.oauth is Some {
        Some(CredentialChoice::BrowserLogin)
    } else {
        None
    }
}

/// Chooses among the credentials.
pub fn credential_choice(config: &CliConfig, has_environment_token: bool) -> (result: Result<
    CredentialChoice,
    CliConfigError,
>)
    ensures
        match choice(config@, has_environment_token) {
            Some(chosen) => result == Ok::<CredentialChoice, CliConfigError>(chosen),
            None => result matches Err(error) && says_missing_access_token(error),
        },
{
    if has_environment_token {
        return Ok(CredentialChoice::Environment);
    }
    match config.auth_method {
        Some(AuthMethod::BrowserLogin) => if config.oauth.is_some() {
            Ok(CredentialChoice::BrowserLogin)
        } else {
            Err(CliConfigError::missing_access_token())
        },
        Some(AuthMethod::AccessToken) => if config.has_stored_access_token() {
            Ok(CredentialChoice::StoredAccessToken)
        } else {
            Err(CliConfigError::missing_access_token())
        },
        None => if config.has_stored_access_token() {
            Ok(CredentialChoice::StoredAccessToken)
        } else if config.oauth.is_some() {
            Ok(CredentialChoice::BrowserLogin)
        } else {
            Err(CliConfigError::missing_access_token())
        },
    }
}

/// Whether an access token from the environment takes part: the environment
/// could be read and holds one.
pub fn has_access_token_environment_variable(
    environment: &Result<Option<String>, CliConfigError>,
) -> (has: bool)
    ensures
        has == (environment matches Ok(token) && token is Some),
{
    match environment {
        Ok(token) => token.is_some(),
        Err(_) => false,
    }
}

/// The environment comes before everything else, a method that was selected is
/// never replaced by another one, and only a credential that is there is chosen.
pub proof fn law_credential_precedence(config: ConfigView, has_environment_token: bool)
    ensures
        has_environment_token ==> choice(config, has_environment_token) == Some(
            CredentialChoice::Environment,
        ),
        !has_environment_token ==> choice(config, has_environment_token) != Some(
            CredentialChoice::Environment,
        ),
        !has_environment_token && config.auth_method == Some(AuthMethod::BrowserLogin) ==> choice(
            config,
            has_environment_token,
        ) != Some(CredentialChoice::StoredAccessToken),
        !has_environment_token && config.auth_method == Some(AuthMethod::AccessToken) ==> choice(
            config,
            has_environment_token,
        ) != Some(CredentialChoice::BrowserLogin),
        !has_environment_token && config.auth_method is None && config.has_stored_access_token()
            ==> choice(config, has_environment_token) == Some(CredentialChoice::StoredAccessToken),
        choice(config, has_environment_token) == Some(CredentialChoice::BrowserLogin)
            ==> config.oauth is Some,
        choice(config, has_environment_token) == Some(CredentialChoice::StoredAccessToken)
            ==> config.has_stored_access_token(),
{
}

/// A credential that is there is used: the one of the method that is selected, and
/// where none is selected an access token before a login. None is found exactly where
/// the selected method has none, or where there is none at all.
pub proof fn law_credentials_that_are_there_are_used(config: ConfigView)
    ensures
        ({
            let token_there = config.stored_access_token is Some || config.access_token is Some;
            let login_there = config.oauth is Some;
            let chosen = choice(config, false);
            &&& config.auth_method == Some(AuthMethod::AccessToken) && token_there ==> chosen
                == Some(CredentialChoice::StoredAccessToken)
            &&& config.auth_method == Some(AuthMethod::BrowserLogin) && login_there ==> chosen
                == Some(CredentialChoice::BrowserLogin)
            &&& config.auth_method is None && token_there ==> chosen == Some(
                CredentialChoice::StoredAccessToken,
            )
            &&& config.auth_method is None && !token_there && login_there ==> chosen == Some(
                CredentialChoice::BrowserLogin,
            )
            &&& chosen is None <==> match config.auth_method {
                Some(AuthMethod::AccessToken) => !token_there,
                Some(AuthMethod::BrowserLogin) => !login_there,
                None => !token_there && !login_there,
            }
        }),
        choice(config, true) == Some(CredentialChoice::Environment),
        config.has_stored_access_token() <==> config.stored_access_token is Some
            || config.access_token is Some,
{
}

/// Something waits in a store exactly if a queued credential or a queued login is kept
/// there; queueing one there makes something wait, and nothing waits where both queues
/// are empty.
pub proof fn law_queued_items_wait_in_their_store(
    config: ConfigView,
    store: CredentialStore,
    reference: ReferenceView,
    session: SessionView,
)
    ensures
        config.pending_oauth_cleanup.contains(reference) && reference.credential_store == store
            ==> pending_in_store(config, store),
        config.pending_oauth_revocation.contains(session) && session.credential_store == store
            ==> pending_in_store(config, store),
        pending_in_store(config, store) ==> (exists|r: ReferenceView|
            #![trigger config.pending_oauth_cleanup.contains(r)]
            config.pending_oauth_cleanup.contains(r) && r.credential_store == store) || (exists|
            s: SessionView,
        |
            #![trigger config.pending_oauth_revocation.contains(s)]
            config.pending_oauth_revocation.contains(s) && s.credential_store == store),
        config.pending_oauth_cleanup.len() == 0 && config.pending_oauth_revocation.len() == 0
            ==> !pending_in_store(config, store),
{
    if pending_in_store(config, store) {
        if exists|i: int|
            0 <= i < config.pending_oauth_cleanup.len() && (
            #[trigger] config.pending_oauth_cleanup[i]).credential_store == store {
            let i = choose|i: int|
                0 <= i < config.pending_oauth_cleanup.len() && (
                #[trigger] config.pending_oauth_cleanup[i]).credential_store == store;
            assert(config.pending_oauth_cleanup.contains(config.pending_oauth_cleanup[i]));
        } else {
            let i = choose|i: int|
                0 <= i < config.pending_oauth_revocation.len() && (
                #[trigger] config.pending_oauth_revocation[i]).credential_store == store;
            assert(config.pending_oauth_revocation.contains(config.pending_oauth_revocation[i]));
        }
    }
}

/// The login that is replaced is queued: its credential alone where the grant may be
/// shared, the whole login otherwise. Nothing leaves a queue, and nothing else changes.
pub proof fn law_replaced_logins_are_queued(config: ConfigView, previous: SessionView, reused: bool)
    ensures
        ({
            let after = with_replaced_session(config, previous, reused);
            let reference = ReferenceView {
                credential_id: previous.credential_id,
                credential_store: previous.credential_store,
            };
            &&& reused ==> after.pending_oauth_revocation == config.pending_oauth_revocation
            &&& reused ==> after.pending_oauth_cleanup == (
            if config.pending_oauth_cleanup.contains(reference) {
                config.pending_oauth_cleanup
            } else {
                config.pending_oauth_cleanup + seq![reference]
            })
            &&& !reused ==> after.pending_oauth_cleanup == config.pending_oauth_cleanup
            &&& !reused ==> after.pending_oauth_revocation == (
            if config.pending_oauth_revocation.contains(previous) {
                config.pending_oauth_revocation
            } else {
                config.pending_oauth_revocation + seq![previous]
            })
            &&& after.oauth == config.oauth
            &&& after.auth_method == config.auth_method
            &&& after.stored_access_token == config.stored_access_token
            &&& after.access_token == config.access_token
            &&& after.account_endpoint == config.account_endpoint
            &&& after.basin_endpoint == config.basin_endpoint
            &&& after.ssl_no_verify == config.ssl_no_verify
        }),
{
    assert(config.pending_oauth_cleanup.push(previous.reference())
        =~= config.pending_oauth_cleanup + seq![previous.reference()]);
    assert(config.pending_oauth_revocation.push(previous) =~= config.pending_oauth_revocation
        + seq![previous]);
}

/// Taking an item out of a list leaves all the others, in order.
pub proof fn law_others_stay_in_the_list<T>(list: Seq<T>, item: T, other: T)
    ensures
        without(list, item).contains(other) <==> list.contains(other) && other != item,
        !list.contains(item) ==> without(list, item) == list,
    decreases list.len(),
{
    lemma_without_lacks(list, item);
    if list.len() == 0 {
        reveal(Seq::filter);
        assert(without(list, item) =~= list);
    } else {
        let rest = list.drop_last();
        let last = list.last();
        assert(list =~= rest.push(last));
        law_others_stay_in_the_list(rest, item, other);
        lemma_without_push(rest, last, item);
        if list.contains(other) && other != item {
            let at = choose|at: int| 0 <= at < list.len() && list[at] == other;
            if at < rest.len() {
                assert(rest[at] == other);
                let kept = without(rest, item);
                let k = choose|k: int| 0 <= k < kept.len() && kept[k] == other;
                if last != item {
                    assert(kept.push(last)[k] == other);
                }
            } else {
                assert(without(rest, item).push(last)[without(rest, item).len() as int] == other);
            }
        }
        if without(list, item).contains(other) {
            let found = without(list, item);
            let k = choose|k: int| 0 <= k < found.len() && found[k] == other;
            if last != item && k == without(rest, item).len() {
                assert(list[list.len() - 1] == other);
            } else {
                assert(without(rest, item)[k] == other);
                let at = choose|at: int| 0 <= at < rest.len() && rest[at] == other;
                assert(list[at] == other);
            }
        }
        if !list.contains(item) {
            assert(list[list.len() - 1] == last);
            if rest.contains(item) {
                let at = choose|at: int| 0 <= at < rest.len() && rest[at] == item;
                assert(list[at] == item);
            }
        }
    }
}

/// Two configurations authenticate alike exactly if they agree on the method, the
/// login and both kinds of access token; the queues and the endpoints do not matter.
pub proof fn law_authentication_is_four_settings(previous: ConfigView, latest: ConfigView)
    ensures
        !authentication_differs(previous, latest) <==> latest == (ConfigView {
            pending_oauth_cleanup: latest.pending_oauth_cleanup,
            pending_oauth_revocation: latest.pending_oauth_revocation,
            account_endpoint: latest.account_endpoint,
            basin_endpoint: latest.basin_endpoint,
            ssl_no_verify: latest.ssl_no_verify,
            ..previous
        }),
{
}

}
