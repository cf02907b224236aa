use s2_login::cleanup::Cleanup;
use s2_login::config::{AuthMethod, CliConfig, CredentialStore, OAuthSession, StoredCredentialReference};
use s2_login::effect::{CallbackWait, Reply, Request};
use s2_login::encoding::base64url_decode;
use s2_login::error::{
    AccessTokenError, CliConfigError, CliConfigErrorKind, CredentialStoreError, LoginError,
};
use s2_login::fresh::{load_fresh_tokens, FreshTokens};
use s2_login::identity::OAuthIdentity;
use s2_login::login::{login, Login, LoginArgs, LoginEnvironment, LoginReport};
use s2_login::logout::{logout, Logout, LogoutArgs};
use s2_login::metadata::{validate_metadata, AuthorizationServerMetadata, OAuthEndpoints};
use s2_login::notice::{
    login_notices, logout_notices, show_authorization_url, Browser, Notice,
};
use s2_login::prepare::PrepareStore;
use s2_login::provider::{OAuthAccessTokenProvider, RefreshCached};
use s2_login::rejected::RejectedTokens;
use s2_login::resolve::{resolve_access_token, Resolve, TokenSource};
use s2_login::token::{Secret, TokenSet};
use s2_login::url::Url;

fn session_of(credential_id: &str) -> OAuthSession {
    OAuthSession {
        issuer: "https://clerk.s2.dev/".to_owned(),
        client_id: "9zTKDS3tHSmaWl33".to_owned(),
        account_endpoint: "https://a.s2.dev".to_owned(),
        basin_endpoint: "https://{basin}.b.s2.dev".to_owned(),
        credential_id: credential_id.to_owned(),
        credential_store: CredentialStore::Keyring,
    }
}

fn reference_of(credential_id: &str) -> StoredCredentialReference {
    StoredCredentialReference {
        credential_id: credential_id.to_owned(),
        credential_store: CredentialStore::Keyring,
    }
}

fn tokens_of(access: &str, refresh: &str, expires_at: u64) -> TokenSet {
    TokenSet {
        access_token: Secret::new(access.to_owned()),
        refresh_token: Secret::new(refresh.to_owned()),
        expires_at,
    }
}

fn endpoints_of_clerk() -> OAuthEndpoints {
    let list = |items: &[&str]| -> Vec<String> {
        items.iter().map(|item| (*item).to_owned()).collect()
    };
    let metadata = AuthorizationServerMetadata {
        issuer: "https://clerk.s2.dev".to_owned(),
        authorization_endpoint: "https://clerk.s2.dev/oauth/authorize".to_owned(),
        token_endpoint: "https://clerk.s2.dev/oauth/token".to_owned(),
        revocation_endpoint: Some("https://clerk.s2.dev/oauth/token/revoke".to_owned()),
        response_types_supported: list(&["code"]),
        grant_types_supported: list(&["authorization_code", "refresh_token"]),
        token_endpoint_auth_methods_supported: list(&["none"]),
        scopes_supported: list(&["offline_access", "user:org:read"]),
        code_challenge_methods_supported: list(&["S256"]),
    };
    let issuer = Url::parse("https://clerk.s2.dev").unwrap();
    match validate_metadata(&issuer, metadata) {
        Ok(endpoints) => endpoints,
        Err(error) => panic!("{}", error.message()),
    }
}

fn disk_error() -> CliConfigError {
    CliConfigError {
        kind: CliConfigErrorKind::Other,
        message: "disk full".to_owned(),
        help: None,
    }
}

fn store_error(not_found: bool) -> LoginError {
    LoginError::Credential(CredentialStoreError {
        not_found,
        transient: false,
        message: "store closed".to_owned(),
        help: None,
    })
}

/// A request in a few words.
fn words(request: Option<Request<'_>>) -> String {
    match request {
        None => "nothing".to_owned(),
        Some(Request::LockConfig) => "lock config".to_owned(),
        Some(Request::UnlockConfig) => "unlock config".to_owned(),
        Some(Request::LoadConfig) => "load config".to_owned(),
        Some(Request::LoadEffectiveConfig) => "load effective config".to_owned(),
        Some(Request::SaveConfig(_)) => "save config".to_owned(),
        Some(Request::LockRefresh(id)) => format!("lock {id}"),
        Some(Request::UnlockRefresh) => "unlock refresh".to_owned(),
        Some(Request::ReleaseLocks) => "release locks".to_owned(),
        Some(Request::LoadCredentials(session)) => format!("load {}", session.credential_id),
        Some(Request::SaveCredentials(_, tokens)) => {
            format!("store {}", tokens.access_token.expose())
        }
        Some(Request::DeleteCredential(reference)) => format!("delete {}", reference.credential_id),
        Some(Request::LocateCredential(_)) => "locate".to_owned(),
        Some(Request::ReadClock) => "clock".to_owned(),
        Some(Request::Discover(issuer)) => format!("discover {}", issuer.as_str()),
        Some(Request::ExchangeCode { code, callback_url, .. }) => {
            format!("exchange {code} for {callback_url}")
        }
        Some(Request::RefreshTokens { refresh_token, .. }) => {
            format!("refresh {}", refresh_token.expose())
        }
        Some(Request::RevokeToken { refresh_token, .. }) => {
            format!("revoke {}", refresh_token.expose())
        }
        Some(Request::ReadIdentities { previous, next }) => {
            format!("identities {} {}", previous.is_some(), next.is_some())
        }
        Some(Request::Listen) => "listen".to_owned(),
        Some(Request::AwaitCallback { page, .. }) => format!("await {}", &page[..36]),
        Some(Request::ReadEnvironmentToken) => "environment".to_owned(),
        Some(Request::ValidateAccessToken(token)) => format!("validate {}", token.expose()),
        Some(Request::LoadStoredAccessToken(_)) => "stored access token".to_owned(),
    }
}

fn saved(request: Option<Request<'_>>) -> CliConfig {
    match request {
        Some(Request::SaveConfig(config)) => config.duplicate(),
        other => panic!("{}", words(other)),
    }
}

fn no_environment() -> LoginEnvironment {
    LoginEnvironment {
        issuer: None,
        client_id: None,
        completion_url: None,
    }
}

fn plain_args() -> LoginArgs {
    LoginArgs {
        issuer: None,
        client_id: None,
        insecure_storage: false,
    }
}

/// A login that has got its tokens, with this configuration on disk.
fn login_with_tokens(config: &CliConfig, access: &str) -> Login {
    let mut state = login(&plain_args(), &no_environment());
    let steps: Vec<(&str, Reply)> = vec![
        ("load effective config", Reply::ConfigLoaded(Ok(config.duplicate()))),
        ("lock config", Reply::ConfigLocked(Ok(()))),
        ("load config", Reply::ConfigLoaded(Ok(config.duplicate()))),
        ("unlock config", Reply::Released),
        ("discover https://clerk.s2.dev/", Reply::Discovered(Ok(endpoints_of_clerk()))),
        ("listen", Reply::Listening(Ok(34567))),
        (
            "await https://clerk.s2.dev/oauth/authorize",
            Reply::CallbackEnded {
                server: Ok(()),
                wait: CallbackWait::Received(Ok("the-code".to_owned())),
            },
        ),
        ("lock config", Reply::ConfigLocked(Ok(()))),
        ("load config", Reply::ConfigLoaded(Ok(config.duplicate()))),
        ("load effective config", Reply::ConfigLoaded(Ok(config.duplicate()))),
        (
            "exchange the-code for http://127.0.0.1:34567/callback",
            Reply::Tokens(Ok(tokens_of(access, "new-refresh", 1000))),
        ),
    ];
    for (expected, reply) in steps {
        assert_eq!(words(state.request()), expected);
        state = state.advance(reply);
    }
    state
}

fn report_of(state: Login) -> LoginReport {
    match state {
        Login::Finished { result: Ok(report) } => report,
        Login::Finished { result: Err(error) } => panic!("{}", error.message()),
        other => panic!("{}", words(other.request())),
    }
}

fn login_error(state: Login) -> LoginError {
    match state {
        Login::Finished { result: Err(error) } => error,
        other => panic!("{}", words(other.request())),
    }
}

#[test]
fn a_first_login_is_journaled_stored_and_selected() {
    let state = login_with_tokens(&CliConfig::default(), "new-access");
    let journal = saved(state.request());
    assert_eq!(journal.pending_oauth_revocation.len(), 1);
    assert!(journal.oauth.is_none());
    let session = journal.pending_oauth_revocation[0].clone();
    assert_eq!(session.issuer, "https://clerk.s2.dev/");
    assert_eq!(session.client_id, "9zTKDS3tHSmaWl33");
    assert_eq!(session.account_endpoint, "https://a.s2.dev");
    assert_eq!(session.credential_store, CredentialStore::Keyring);
    assert_eq!(session.credential_id.len(), 36);

    let state = state.advance(Reply::ConfigSaved(Ok("/config".to_owned())));
    assert_eq!(words(state.request()), "store new-access");
    let state = state.advance(Reply::CredentialsSaved(Ok(())));
    let selected = saved(state.request());
    assert_eq!(selected.oauth, Some(session));
    assert_eq!(selected.auth_method, Some(AuthMethod::BrowserLogin));
    assert!(selected.pending_oauth_revocation.is_empty());
    let report = report_of(state.advance(Reply::ConfigSaved(Ok("/config".to_owned()))));
    assert!(!report.login.replaced);
    assert_eq!(report.login.saved_path, "/config");
    assert_eq!(report.warning, None);
    assert_eq!(report.config.oauth, selected.oauth);
}

#[test]
fn every_login_has_secrets_of_its_own() {
    let plan = |state: Login| match state {
        Login::CheckingDestination { plan } => plan,
        other => panic!("{}", words(other.request())),
    };
    let one = plan(login(&plain_args(), &no_environment()));
    let two = plan(login(&plain_args(), &no_environment()));
    assert_ne!(one.state, two.state);
    assert_ne!(one.pkce.verifier, two.pkce.verifier);
    assert_ne!(one.credential_id, two.credential_id);
    assert_eq!(one.store, CredentialStore::Keyring);
    for (at, character) in one.credential_id.chars().enumerate() {
        match at {
            8 | 13 | 18 | 23 => assert_eq!(character, '-'),
            14 => assert_eq!(character, '4'),
            19 => assert!("89ab".contains(character)),
            _ => assert!("0123456789abcdef".contains(character)),
        }
    }
    assert_eq!(base64url_decode(&one.state).unwrap().len(), 32);
    assert_eq!(base64url_decode(&one.pkce.verifier).unwrap().len(), 32);
    let file = plan(login(
        &LoginArgs {
            issuer: Some("http://localhost:3000".to_owned()),
            client_id: Some("me".to_owned()),
            insecure_storage: true,
        },
        &no_environment(),
    ));
    assert_eq!(file.store, CredentialStore::File);
    assert_eq!(file.client_id, "me");
    assert_eq!(file.issuer.as_str(), "http://localhost:3000/");
    let refused = login(
        &LoginArgs {
            issuer: Some("http://clerk.s2.dev".to_owned()),
            client_id: None,
            insecure_storage: false,
        },
        &no_environment(),
    );
    assert!(matches!(login_error(refused), LoginError::InvalidIssuer(_)));
}

#[test]
fn the_page_carries_the_plan() {
    let state = login(&plain_args(), &no_environment());
    let state = state
        .advance(Reply::ConfigLoaded(Ok(CliConfig::default())))
        .advance(Reply::ConfigLocked(Ok(())))
        .advance(Reply::ConfigLoaded(Ok(CliConfig::default())))
        .advance(Reply::Released)
        .advance(Reply::Discovered(Ok(endpoints_of_clerk())))
        .advance(Reply::Listening(Ok(80)));
    match &state {
        Login::Awaiting { plan, page, callback_url, completion_url, .. } => {
            assert_eq!(callback_url, "http://127.0.0.1:80/callback");
            let page = reqwest::Url::parse(page).unwrap();
            let pair = |name: &str| {
                page.query_pairs()
                    .find(|(key, _)| key == name)
                    .map(|(_, value)| value.into_owned())
                    .unwrap()
            };
            assert_eq!(pair("state"), plan.state);
            assert_eq!(pair("code_challenge"), plan.pkce.challenge);
            assert_eq!(pair("redirect_uri"), "http://127.0.0.1:80/callback");
            assert_eq!(
                completion_url.as_ref().unwrap().as_str(),
                "https://s2.dev/cli/login"
            );
        }
        _ => panic!("{}", words(state.request())),
    }
}

/// A login that waits for the browser.
fn waiting_login() -> Login {
    login(&plain_args(), &no_environment())
        .advance(Reply::ConfigLoaded(Ok(CliConfig::default())))
        .advance(Reply::ConfigLocked(Ok(())))
        .advance(Reply::ConfigLoaded(Ok(CliConfig::default())))
        .advance(Reply::Released)
        .advance(Reply::Discovered(Ok(endpoints_of_clerk())))
        .advance(Reply::Listening(Ok(80)))
}

#[test]
fn a_login_fails_at_every_step_with_its_error() {
    let unsafe_config = CliConfig {
        account_endpoint: Some("https://attacker.example".to_owned()),
        ..CliConfig::default()
    };
    let state = login(&plain_args(), &no_environment());
    assert!(matches!(
        login_error(state.advance(Reply::ConfigLoaded(Ok(unsafe_config.duplicate())))),
        LoginError::UnsafeBrowserDestination
    ));
    let state = login(&plain_args(), &no_environment());
    assert!(matches!(
        login_error(state.advance(Reply::ConfigLoaded(Err(disk_error())))),
        LoginError::Config(_)
    ));
    let bad_site = LoginEnvironment {
        issuer: None,
        client_id: None,
        completion_url: Some("http://s2.dev".to_owned()),
    };
    let state = login(&plain_args(), &bad_site)
        .advance(Reply::ConfigLoaded(Ok(CliConfig::default())))
        .advance(Reply::ConfigLocked(Ok(())))
        .advance(Reply::ConfigLoaded(Ok(CliConfig::default())))
        .advance(Reply::Released);
    assert!(matches!(login_error(state), LoginError::InvalidCompletionUrl(_)));

    let ended = |wait: CallbackWait| {
        login_error(waiting_login().advance(Reply::CallbackEnded { server: Ok(()), wait }))
    };
    assert!(matches!(ended(CallbackWait::TimedOut), LoginError::TimedOut));
    assert!(matches!(ended(CallbackWait::Closed), LoginError::CallbackClosed));
    assert!(matches!(
        ended(CallbackWait::Received(Err("no".to_owned()))),
        LoginError::AuthorizationRejected(reason) if reason == "no"
    ));
    // A failed server counts before what was received.
    let failed = waiting_login().advance(Reply::CallbackEnded {
        server: Err(LoginError::CallbackTask("gone".to_owned())),
        wait: CallbackWait::Received(Ok("code".to_owned())),
    });
    assert!(matches!(login_error(failed), LoginError::CallbackTask(_)));

    // The endpoints are looked at once more before the code is used.
    let state = waiting_login()
        .advance(Reply::CallbackEnded {
            server: Ok(()),
            wait: CallbackWait::Received(Ok("code".to_owned())),
        })
        .advance(Reply::ConfigLocked(Ok(())))
        .advance(Reply::ConfigLoaded(Ok(CliConfig::default())))
        .advance(Reply::ConfigLoaded(Ok(unsafe_config)));
    assert!(matches!(login_error(state), LoginError::UnsafeBrowserDestination));
}

#[test]
fn a_reply_to_something_else_changes_nothing() {
    let state = login(&plain_args(), &no_environment()).advance(Reply::Released);
    assert_eq!(words(state.request()), "load effective config");
    let state = state.advance(Reply::ConfigLocked(Ok(())));
    assert_eq!(words(state.request()), "load effective config");
}

#[test]
fn a_grant_that_cannot_be_journaled_is_revoked() {
    let state = login_with_tokens(&CliConfig::default(), "new-access")
        .advance(Reply::ConfigSaved(Err(disk_error())));
    assert_eq!(words(state.request()), "revoke new-refresh");
    match login_error(state.advance(Reply::Revoked(Ok(())))) {
        LoginError::Config(error) => assert_eq!(error.message, "disk full"),
        other => panic!("{}", other.message()),
    }
    let state = login_with_tokens(&CliConfig::default(), "new-access")
        .advance(Reply::ConfigSaved(Err(disk_error())))
        .advance(Reply::Revoked(Err(LoginError::TimedOut)));
    assert_eq!(
        login_error(state).message(),
        "Failed to journal the newly issued OAuth credential (disk full) and revoke its grant \
         (Timed out waiting for browser authorization); the provider may still retain the grant"
    );
}

#[test]
fn a_login_that_cannot_be_stored_is_taken_back() {
    let stored = || {
        login_with_tokens(&CliConfig::default(), "new-access")
            .advance(Reply::ConfigSaved(Ok("/config".to_owned())))
    };
    let state = stored().advance(Reply::CredentialsSaved(Err(store_error(false))));
    assert_eq!(words(state.request()), "revoke new-refresh");
    let state = state.advance(Reply::Revoked(Ok(())));
    assert!(words(state.request()).starts_with("delete "));
    let error = login_error(state.advance(Reply::CredentialDeleted(Ok(()))));
    assert_eq!(error.message(), "store closed");

    let state = stored()
        .advance(Reply::CredentialsSaved(Err(store_error(false))))
        .advance(Reply::Revoked(Err(LoginError::RefreshLockTimedOut)));
    assert_eq!(words(state.request()), "locate");
    let error = login_error(state.advance(Reply::CredentialLocated("the keyring".to_owned())));
    assert!(matches!(&error, LoginError::CredentialWriteRollback { recovery, .. } if recovery == "the keyring"));

    let state = stored()
        .advance(Reply::CredentialsSaved(Ok(())))
        .advance(Reply::ConfigSaved(Err(disk_error())))
        .advance(Reply::Revoked(Ok(())))
        .advance(Reply::CredentialDeleted(Err(store_error(false))))
        .advance(Reply::CredentialLocated("the keyring".to_owned()));
    assert_eq!(
        login_error(state).message(),
        "Failed to update the config (disk full) and clean up the newly issued OAuth credential \
         (store closed); cleanup remains queued at the keyring"
    );
    let state = stored()
        .advance(Reply::CredentialsSaved(Ok(())))
        .advance(Reply::ConfigSaved(Err(disk_error())))
        .advance(Reply::Revoked(Ok(())))
        .advance(Reply::CredentialDeleted(Ok(())));
    assert!(matches!(login_error(state), LoginError::Config(_)));
}

fn with_login(credential_id: &str) -> CliConfig {
    CliConfig {
        auth_method: Some(AuthMethod::BrowserLogin),
        oauth: Some(session_of(credential_id)),
        ..CliConfig::default()
    }
}

fn identity_of(sub: &str) -> Option<OAuthIdentity> {
    Some(OAuthIdentity {
        sub: sub.to_owned(),
        org_id: "org".to_owned(),
    })
}

#[test]
fn a_login_of_another_user_is_revoked_when_it_is_replaced() {
    let state = login_with_tokens(&with_login("old"), "h.e30.s");
    assert_eq!(words(state.request()), "load old");
    let state = state.advance(Reply::CredentialsLoaded(Ok(tokens_of("h.e30.s", "old-refresh", 5))));
    assert_eq!(words(state.request()), "identities true true");
    let state = state.advance(Reply::Identities {
        previous: identity_of("one"),
        next: identity_of("two"),
    });
    let journal = saved(state.request());
    assert_eq!(journal.pending_oauth_revocation.len(), 1);
    assert!(journal.pending_oauth_cleanup.is_empty());
    let state = state
        .advance(Reply::ConfigSaved(Ok("/config".to_owned())))
        .advance(Reply::CredentialsSaved(Ok(())));
    let selected = saved(state.request());
    assert_eq!(selected.pending_oauth_revocation, vec![session_of("old")]);
    let mut state = state.advance(Reply::ConfigSaved(Ok("/config".to_owned())));
    for (expected, reply) in vec![
        ("lock old", Reply::RefreshLocked(Ok(()))),
        ("load old", Reply::CredentialsLoaded(Ok(tokens_of("h.e30.s", "old-refresh", 5)))),
        ("discover https://clerk.s2.dev/", Reply::Discovered(Ok(endpoints_of_clerk()))),
        ("revoke old-refresh", Reply::Revoked(Ok(()))),
        ("delete old", Reply::CredentialDeleted(Ok(()))),
        ("unlock refresh", Reply::Released),
    ] {
        assert_eq!(words(state.request()), expected);
        state = state.advance(reply);
    }
    assert!(saved(state.request()).pending_oauth_revocation.is_empty());
    let report = report_of(state.advance(Reply::ConfigSaved(Ok("/config".to_owned()))));
    assert!(report.login.replaced);
    assert_eq!(report.warning, None);
}

#[test]
fn a_grant_that_may_be_shared_is_kept_when_a_login_is_replaced() {
    let state = login_with_tokens(&with_login("old"), "opaque");
    let state = state.advance(Reply::CredentialsLoaded(Err(store_error(true))));
    assert_eq!(words(state.request()), "identities false false");
    // There were no claims to read, so what is said of them does not count.
    let state = state.advance(Reply::Identities {
        previous: identity_of("one"),
        next: identity_of("two"),
    });
    let journal = saved(state.request());
    assert_eq!(journal.pending_oauth_cleanup.len(), 1);
    assert!(journal.pending_oauth_revocation.is_empty());
    let state = state
        .advance(Reply::ConfigSaved(Ok("/config".to_owned())))
        .advance(Reply::CredentialsSaved(Ok(())));
    assert_eq!(saved(state.request()).pending_oauth_cleanup, vec![reference_of("old")]);
    let state = state.advance(Reply::ConfigSaved(Ok("/config".to_owned())));
    assert_eq!(words(state.request()), "lock old");
    let state = state
        .advance(Reply::RefreshLocked(Ok(())))
        .advance(Reply::CredentialDeleted(Err(store_error(false))))
        .advance(Reply::Released);
    let report = report_of(state);
    assert_eq!(report.warning.as_deref(), Some("credential old: store closed"));
    assert_eq!(report.config.pending_oauth_cleanup, vec![reference_of("old")]);

    // A grant that may be shared is not revoked when the new login is taken back.
    let state = login_with_tokens(&with_login("old"), "opaque")
        .advance(Reply::CredentialsLoaded(Err(store_error(true))))
        .advance(Reply::Identities { previous: None, next: None })
        .advance(Reply::ConfigSaved(Ok("/config".to_owned())))
        .advance(Reply::CredentialsSaved(Err(store_error(false))));
    assert!(words(state.request()).starts_with("delete "));
}

#[test]
fn a_login_waits_for_the_cleanup_of_its_store() {
    let mut pending = CliConfig::default();
    pending.pending_oauth_cleanup.push(reference_of("old"));
    let state = login(&plain_args(), &no_environment())
        .advance(Reply::ConfigLoaded(Ok(CliConfig::default())))
        .advance(Reply::ConfigLocked(Ok(())))
        .advance(Reply::ConfigLoaded(Ok(pending.duplicate())));
    assert_eq!(words(state.request()), "lock old");
    let state = state.advance(Reply::RefreshLocked(Err(LoginError::RefreshLockTimedOut)));
    assert_eq!(
        login_error(state).message(),
        "Could not finish cleaning up an older browser login: credential old: Timed out waiting \
         for another S2 process to refresh OAuth credentials"
    );

    let ready = PrepareStore::start(pending.duplicate(), CredentialStore::Keyring)
        .advance(Reply::RefreshLocked(Ok(())))
        .advance(Reply::CredentialDeleted(Ok(())))
        .advance(Reply::Released);
    assert_eq!(words(ready.request()), "save config");
    match ready.advance(Reply::ConfigSaved(Ok("/config".to_owned()))) {
        PrepareStore::Finished { result: Ok(config) } => {
            assert!(config.pending_oauth_cleanup.is_empty())
        }
        _ => panic!("there should be room"),
    }
    // What waits in another store is no hindrance.
    let elsewhere = PrepareStore::start(pending, CredentialStore::File)
        .advance(Reply::RefreshLocked(Err(LoginError::RefreshLockTimedOut)));
    assert!(matches!(elsewhere, PrepareStore::Finished { result: Ok(_) }));
}

#[test]
fn cleanup_leaves_the_login_in_use_alone() {
    let mut config = with_login("active");
    config.pending_oauth_revocation = vec![session_of("active"), session_of("gone")];
    config.pending_oauth_cleanup = vec![reference_of("active"), reference_of("stale")];
    let state = Cleanup::start(config, true);
    assert_eq!(words(state.request()), "lock gone");
    let state = state.advance(Reply::RefreshLocked(Ok(())));
    // A credential that is not there is gone already.
    let state = state.advance(Reply::CredentialsLoaded(Err(store_error(true))));
    assert_eq!(words(state.request()), "unlock refresh");
    let state = state.advance(Reply::Released);
    assert_eq!(words(state.request()), "lock stale");
    let state = state
        .advance(Reply::RefreshLocked(Ok(())))
        .advance(Reply::CredentialDeleted(Ok(())))
        .advance(Reply::Released);
    match state {
        Cleanup::Finished { config, changed, warning } => {
            assert!(changed);
            assert_eq!(config.oauth, Some(session_of("active")));
            assert_eq!(config.pending_oauth_revocation, vec![session_of("active")]);
            assert_eq!(config.pending_oauth_cleanup, vec![reference_of("active")]);
            assert_eq!(
                warning.as_deref(),
                Some("credential active is still active; credential active is still active")
            );
        }
        other => panic!("{}", words(other.request())),
    }
}

#[test]
fn a_failed_revocation_stays_queued() {
    let mut config = CliConfig::default();
    config.pending_oauth_revocation = vec![session_of("one"), session_of("two")];
    let state = Cleanup::start(config, true)
        .advance(Reply::RefreshLocked(Ok(())))
        .advance(Reply::CredentialsLoaded(Ok(tokens_of("a", "r", 1))))
        .advance(Reply::Discovered(Ok(endpoints_of_clerk())));
    assert_eq!(words(state.request()), "revoke r");
    let state = state.advance(Reply::Revoked(Err(LoginError::TimedOut)));
    assert_eq!(words(state.request()), "unlock refresh");
    let state = state.advance(Reply::Released);
    assert_eq!(words(state.request()), "lock two");
    let state = state.advance(Reply::RefreshLocked(Err(LoginError::RefreshLockTimedOut)));
    match state {
        Cleanup::Finished { config, changed, warning } => {
            assert!(!changed);
            assert_eq!(config.pending_oauth_revocation.len(), 2);
            assert_eq!(
                warning.as_deref(),
                Some(
                    "credential one: Timed out waiting for browser authorization; credential two: \
                     Timed out waiting for another S2 process to refresh OAuth credentials"
                )
            );
        }
        other => panic!("{}", words(other.request())),
    }
}

#[test]
fn logout_revokes_then_deletes() {
    let mut config = with_login("mine");
    config.access_token = Some("static".to_owned());
    let mut state = logout(&LogoutArgs { local_only: false });
    for (expected, reply) in vec![
        ("lock config", Reply::ConfigLocked(Ok(()))),
        ("load config", Reply::ConfigLoaded(Ok(config))),
        ("lock mine", Reply::RefreshLocked(Ok(()))),
        ("load mine", Reply::CredentialsLoaded(Ok(tokens_of("a", "my-refresh", 1)))),
        ("discover https://clerk.s2.dev/", Reply::Discovered(Ok(endpoints_of_clerk()))),
        ("revoke my-refresh", Reply::Revoked(Ok(()))),
    ] {
        assert_eq!(words(state.request()), expected);
        state = state.advance(reply);
    }
    let forgotten = saved(state.request());
    assert_eq!(forgotten.oauth, None);
    assert_eq!(forgotten.auth_method, Some(AuthMethod::AccessToken));
    assert_eq!(forgotten.pending_oauth_cleanup, vec![reference_of("mine")]);
    for (expected, reply) in vec![
        ("save config", Reply::ConfigSaved(Ok("/config".to_owned()))),
        ("unlock refresh", Reply::Released),
        ("lock mine", Reply::RefreshLocked(Ok(()))),
        ("delete mine", Reply::CredentialDeleted(Ok(()))),
        ("unlock refresh", Reply::Released),
        ("save config", Reply::ConfigSaved(Err(disk_error()))),
    ] {
        assert_eq!(words(state.request()), expected);
        state = state.advance(reply);
    }
    match state {
        Logout::Finished { result: Ok(report) } => {
            assert_eq!(report.removed, Some(reference_of("mine")));
            assert_eq!(
                report.warning.as_deref(),
                Some("could not update OAuth credential cleanup metadata: disk full")
            );
            let lines: Vec<String> = logout_notices(&report, false).iter().map(line).collect();
            assert_eq!(
                lines,
                vec![
                    "! \u{2713} Browser login removed",
                    "  - Access token selected.",
                    "?   - Warning: could not finish cleaning up an older browser login; it remains queued for cleanup: could not update OAuth credential cleanup metadata: disk full",
                ]
            );
        }
        other => panic!("{}", words(other.request())),
    }
}

fn line(notice: &Notice) -> String {
    match notice {
        Notice::Success(text) => format!("! {text}"),
        Notice::Plain(text) => text.clone(),
        Notice::Warning(text) => format!("? {text}"),
        Notice::Place { label, place } => format!("{label}<{place}>"),
    }
}

fn logout_error(state: Logout) -> LoginError {
    match state {
        Logout::Finished { result: Err(error) } => error,
        other => panic!("{}", words(other.request())),
    }
}

#[test]
fn logout_says_what_could_not_be_done() {
    let revoked = || {
        logout(&LogoutArgs { local_only: false })
            .advance(Reply::ConfigLocked(Ok(())))
            .advance(Reply::ConfigLoaded(Ok(with_login("mine"))))
            .advance(Reply::RefreshLocked(Ok(())))
            .advance(Reply::CredentialsLoaded(Ok(tokens_of("a", "r", 1))))
            .advance(Reply::Discovered(Ok(endpoints_of_clerk())))
            .advance(Reply::Revoked(Ok(())))
    };
    assert!(matches!(
        logout_error(revoked().advance(Reply::ConfigSaved(Err(disk_error())))),
        LoginError::RevokedButNotRemoved(_)
    ));
    let state = revoked()
        .advance(Reply::ConfigSaved(Ok("/config".to_owned())))
        .advance(Reply::Released)
        .advance(Reply::RefreshLocked(Ok(())))
        .advance(Reply::CredentialDeleted(Err(store_error(false))))
        .advance(Reply::Released);
    assert_eq!(words(state.request()), "locate");
    assert!(matches!(
        logout_error(state.advance(Reply::CredentialLocated("the keyring".to_owned()))),
        LoginError::LogoutIncomplete { recovery } if recovery == "the keyring"
    ));

    let local = logout(&LogoutArgs { local_only: true })
        .advance(Reply::ConfigLocked(Ok(())))
        .advance(Reply::ConfigLoaded(Ok(with_login("mine"))))
        .advance(Reply::RefreshLocked(Ok(())));
    assert_eq!(saved(local.request()).auth_method, None);
    assert!(matches!(
        logout_error(local.advance(Reply::ConfigSaved(Err(disk_error())))),
        LoginError::Config(_)
    ));
    let mut odd = with_login("mine");
    odd.oauth.as_mut().unwrap().issuer = "ftp://clerk".to_owned();
    let state = logout(&LogoutArgs { local_only: false })
        .advance(Reply::ConfigLocked(Ok(())))
        .advance(Reply::ConfigLoaded(Ok(odd)))
        .advance(Reply::RefreshLocked(Ok(())))
        .advance(Reply::CredentialsLoaded(Ok(tokens_of("a", "r", 1))));
    assert!(matches!(logout_error(state), LoginError::InvalidIssuer(_)));
}

#[test]
fn a_local_logout_gives_up_revocations() {
    let mut config = CliConfig::default();
    config.pending_oauth_revocation = vec![session_of("old")];
    let state = logout(&LogoutArgs { local_only: true })
        .advance(Reply::ConfigLocked(Ok(())))
        .advance(Reply::ConfigLoaded(Ok(config)));
    assert_eq!(words(state.request()), "lock old");
    let state = state.advance(Reply::RefreshLocked(Ok(())));
    assert_eq!(words(state.request()), "delete old");
    let state = state
        .advance(Reply::CredentialDeleted(Ok(())))
        .advance(Reply::Released);
    assert!(saved(state.request()).pending_oauth_cleanup.is_empty());
    match state.advance(Reply::ConfigSaved(Ok("/config".to_owned()))) {
        Logout::Finished { result: Ok(report) } => {
            assert!(report.removed.is_none());
            let lines: Vec<String> = logout_notices(&report, true).iter().map(line).collect();
            assert_eq!(
                lines,
                vec![
                    "! \u{2713} No browser login to remove",
                    "?   - Warning: S2_ACCESS_TOKEN is set and remains active.",
                ]
            );
        }
        other => panic!("{}", words(other.request())),
    }
}

#[test]
fn the_user_is_told_of_a_login() {
    let report = |store: CredentialStore| {
        let mut report = report_of(
            login_with_tokens(&CliConfig::default(), "a")
                .advance(Reply::ConfigSaved(Ok("/c".to_owned())))
                .advance(Reply::CredentialsSaved(Ok(())))
                .advance(Reply::ConfigSaved(Ok("/c".to_owned()))),
        );
        report.login.session.credential_store = store;
        report
    };
    let lines = |notices: Vec<Notice>| -> Vec<String> { notices.iter().map(line).collect() };
    assert_eq!(
        lines(login_notices(&report(CredentialStore::Keyring), true, None, true)),
        vec![
            "! \u{2713} Logged in to S2",
            "  - Browser login selected.",
            "  - Credentials saved to: <OS credential store>",
            "  - Configuration saved to: </c>",
            "?   - Warning: S2_ACCESS_TOKEN is set and remains active. Unset it to use browser login.",
        ]
    );
    let mut replaced = report(CredentialStore::File);
    replaced.login.replaced = true;
    replaced.warning = Some("why".to_owned());
    assert_eq!(
        lines(login_notices(&replaced, true, Some("/tokens"), false)),
        vec![
            "! \u{2713} Logged in to S2",
            "  - Browser login selected.",
            "  - Previous browser login replaced.",
            "?   - Warning: credentials are stored in a plaintext file with user-only permissions.",
            "  - Credentials saved to: </tokens>",
            "  - Configuration saved to: </c>",
            "?   - Warning: could not finish cleaning up an older browser login; it remains queued for cleanup: why",
        ]
    );
    assert_eq!(
        lines(login_notices(&replaced, false, None, false)),
        vec![
            "! \u{2713} Logged in to S2",
            "  - Browser login selected.",
            "  - Previous browser login replaced.",
            "?   - Warning: credentials are stored in a plaintext file using the platform's default user-directory permissions.",
        ]
    );
    assert_eq!(
        lines(show_authorization_url("https://p", Browser::Opened)),
        vec![
            "Opening your browser to finish logging in...",
            "If it does not open, visit:\n<https://p>",
        ]
    );
    assert_eq!(
        lines(show_authorization_url("https://p", Browser::Failed("none".to_owned()))),
        vec![
            "Could not open a browser automatically: none",
            "Open this URL to finish logging in:\n<https://p>",
        ]
    );
    assert_eq!(
        lines(show_authorization_url("https://p", Browser::NotAsked)),
        vec!["Open this URL to finish logging in:\n<https://p>"]
    );
}

fn fresh_result(state: FreshTokens) -> Result<String, String> {
    match state {
        FreshTokens::Finished { result: Ok(tokens) } => {
            Ok(tokens.access_token.expose().to_owned())
        }
        FreshTokens::Finished { result: Err(error) } => Err(error.message()),
        other => panic!("{}", words(other.request())),
    }
}

#[test]
fn tokens_are_refreshed_where_they_are_stale_or_rejected() {
    let loaded = |rejected: RejectedTokens, tokens: TokenSet| {
        load_fresh_tokens(session_of("mine"), rejected)
            .advance(Reply::ConfigLocked(Ok(())))
            .advance(Reply::ConfigLoaded(Ok(with_login("mine"))))
            .advance(Reply::RefreshLocked(Ok(())))
            .advance(Reply::CredentialsLoaded(Ok(tokens)))
    };
    let state = loaded(RejectedTokens::none(), tokens_of("good", "r", 1000));
    assert_eq!(words(state.request()), "clock");
    let state = state.advance(Reply::Clock(Some(10)));
    assert_eq!(words(state.request()), "release locks");
    assert_eq!(fresh_result(state.advance(Reply::Released)), Ok("good".to_owned()));

    let state = loaded(RejectedTokens::none(), tokens_of("old", "r", 1000))
        .advance(Reply::Clock(Some(940)));
    assert_eq!(words(state.request()), "discover https://clerk.s2.dev/");
    let state = state.advance(Reply::Discovered(Ok(endpoints_of_clerk())));
    assert_eq!(words(state.request()), "refresh r");
    let state = state.advance(Reply::Tokens(Ok(tokens_of("new", "r2", 5000))));
    assert_eq!(words(state.request()), "store new");
    let state = state.advance(Reply::CredentialsSaved(Ok(()))).advance(Reply::Released);
    assert_eq!(fresh_result(state), Ok("new".to_owned()));

    let mut rejected = RejectedTokens::none();
    rejected.insert("bad".to_owned());
    let state = loaded(rejected, tokens_of("bad", "r", 1000));
    assert_eq!(words(state.request()), "discover https://clerk.s2.dev/");
    let state = state
        .advance(Reply::Discovered(Ok(endpoints_of_clerk())))
        .advance(Reply::Tokens(Ok(tokens_of("new", "r2", 5000))))
        .advance(Reply::CredentialsSaved(Err(store_error(false))))
        .advance(Reply::Released);
    assert_eq!(
        fresh_result(state),
        Err("OAuth tokens were refreshed, but the rotated credential could not be saved".to_owned())
    );

    let state = load_fresh_tokens(session_of("mine"), RejectedTokens::none())
        .advance(Reply::ConfigLocked(Ok(())))
        .advance(Reply::ConfigLoaded(Ok(with_login("other"))))
        .advance(Reply::Released);
    assert_eq!(
        fresh_result(state),
        Err("Browser login changed while credentials were being refreshed".to_owned())
    );
    let state = loaded(RejectedTokens::none(), tokens_of("good", "r", 1000))
        .advance(Reply::Clock(None))
        .advance(Reply::Released);
    assert_eq!(
        fresh_result(state),
        Err("OAuth token response was incomplete: system clock is before 1970".to_owned())
    );
}

#[test]
fn a_provider_keeps_rejections_and_unstored_tokens() {
    let mut provider = OAuthAccessTokenProvider::new(session_of("mine"), tokens_of("one", "r1", 1000));
    // A fresh token that nobody rejected is used as it is.
    let choice = provider.access_token().advance(Reply::Clock(Some(10)));
    match choice {
        RefreshCached::Finished { selection, result } => {
            assert_eq!(
                provider.finish_access_token(selection, result).ok(),
                Some("one".to_owned())
            );
        }
        other => panic!("{}", words(other.request())),
    }

    // A rejected one is refreshed; the new tokens cannot be stored.
    provider.invalidate_access_token("one");
    let choice = provider.access_token();
    assert!(provider.rejected_access_tokens.is_empty());
    provider.invalidate_access_token("meanwhile");
    let choice = choice
        .advance(Reply::ConfigLocked(Ok(())))
        .advance(Reply::ConfigLoaded(Ok(with_login("mine"))))
        .advance(Reply::RefreshLocked(Ok(())));
    assert_eq!(words(choice.request()), "load mine");
    let choice = choice.advance(Reply::CredentialsLoaded(Err(store_error(true))));
    let choice = choice.advance(Reply::Discovered(Ok(endpoints_of_clerk())));
    assert_eq!(words(choice.request()), "refresh r1");
    let choice = choice
        .advance(Reply::Tokens(Ok(tokens_of("two", "r2", 1000))))
        .advance(Reply::CredentialsSaved(Err(LoginError::RefreshLockTimedOut)))
        .advance(Reply::Released);
    match choice {
        RefreshCached::Finished { selection, result } => {
            let failure = provider.finish_access_token(selection, result).err().unwrap();
            assert!(failure.transient);
            assert_eq!(
                failure.message,
                "OAuth tokens were refreshed, but the rotated credential could not be saved"
            );
        }
        other => panic!("{}", words(other.request())),
    }
    assert!(provider.state.persist_pending);
    assert!(provider.rejected_access_tokens.contains("one"));
    assert!(provider.rejected_access_tokens.contains("meanwhile"));

    // The new tokens are stored before anything else, and then used.
    let choice = provider
        .access_token()
        .advance(Reply::ConfigLocked(Ok(())))
        .advance(Reply::ConfigLoaded(Ok(with_login("mine"))))
        .advance(Reply::RefreshLocked(Ok(())));
    assert_eq!(words(choice.request()), "store two");
    let choice = choice.advance(Reply::CredentialsSaved(Ok(())));
    assert_eq!(words(choice.request()), "clock");
    let choice = choice.advance(Reply::Clock(Some(10))).advance(Reply::Released);
    match choice {
        RefreshCached::Finished { selection, result } => {
            assert_eq!(
                provider.finish_access_token(selection, result).ok(),
                Some("two".to_owned())
            );
        }
        other => panic!("{}", words(other.request())),
    }
    assert!(!provider.state.persist_pending);
    assert!(provider.rejected_access_tokens.is_empty());
}

#[test]
fn the_environment_comes_first() {
    let state = resolve_access_token().advance(Reply::ConfigLoaded(Ok(with_login("mine"))));
    assert_eq!(words(state.request()), "environment");
    let state = state.advance(Reply::EnvironmentToken(Ok(Some(Secret::new("env".to_owned())))));
    assert_eq!(words(state.request()), "validate env");
    match state.advance(Reply::AccessTokenValidated(Ok(()))) {
        Resolve::Finished { result: Ok((config, credential)) } => {
            assert_eq!(credential.access_token(), "env");
            assert_eq!(credential.source(), TokenSource::Environment);
            assert!(credential.configure_sdk().is_none());
            assert_eq!(config.oauth, Some(session_of("mine")));
        }
        other => panic!("{}", words(other.request())),
    }
}

fn searched(config: CliConfig) -> Resolve {
    resolve_access_token()
        .advance(Reply::ConfigLoaded(Ok(config)))
        .advance(Reply::EnvironmentToken(Ok(None)))
}

#[test]
fn a_login_is_used_with_its_tokens() {
    let state = searched(with_login("mine"))
        .advance(Reply::ConfigLocked(Ok(())))
        .advance(Reply::ConfigLoaded(Ok(with_login("mine"))))
        .advance(Reply::RefreshLocked(Ok(())))
        .advance(Reply::CredentialsLoaded(Ok(tokens_of("mine", "r", 1000))))
        .advance(Reply::Clock(Some(0)))
        .advance(Reply::Released);
    match state {
        Resolve::Finished { result: Ok((config, credential)) } => {
            assert_eq!(credential.access_token(), "mine");
            assert_eq!(credential.source(), TokenSource::BrowserLogin);
            assert!(credential.validate_destination(&config).is_ok());
            let provider = credential.configure_sdk().unwrap();
            assert_eq!(provider.session, session_of("mine"));
            assert_eq!(provider.state.tokens.refresh_token.expose(), "r");
        }
        other => panic!("{}", words(other.request())),
    }
}

#[test]
fn a_changed_configuration_is_tried_again_three_times() {
    let missing = || {
        LoginError::StoredAccessToken(AccessTokenError {
            not_found: true,
            message: "no token".to_owned(),
            help: None,
        })
    };
    let with_token = |text: &str| CliConfig {
        access_token: Some(text.to_owned()),
        ..CliConfig::default()
    };
    let mut state = searched(with_token("0"));
    for attempt in 1..4 {
        assert_eq!(words(state.request()), "stored access token");
        state = state.advance(Reply::StoredAccessToken(Err(missing())));
        assert_eq!(words(state.request()), "load effective config");
        state = state.advance(Reply::ConfigLoaded(Ok(with_token(&format!("{attempt}")))));
    }
    assert_eq!(words(state.request()), "stored access token");
    match state.advance(Reply::StoredAccessToken(Err(missing()))) {
        Resolve::Finished { result: Err(error) } => assert_eq!(error.message(), "no token"),
        other => panic!("{}", words(other.request())),
    }

    // An unchanged configuration is not tried again.
    let state = searched(with_token("0"))
        .advance(Reply::StoredAccessToken(Err(missing())))
        .advance(Reply::ConfigLoaded(Ok(with_token("0"))));
    assert!(matches!(state, Resolve::Finished { result: Err(LoginError::StoredAccessToken(_)) }));

    // Another error ends the search at once.
    let state = searched(with_token("0")).advance(Reply::StoredAccessToken(Err(LoginError::TimedOut)));
    assert!(matches!(state, Resolve::Finished { result: Err(LoginError::TimedOut) }));

    // No credential at all.
    match searched(CliConfig::default()) {
        Resolve::Finished { result: Err(LoginError::Config(error)) } => {
            assert_eq!(error.kind, CliConfigErrorKind::MissingAccessToken)
        }
        other => panic!("{}", words(other.request())),
    }

    let state = searched(with_token("0"))
        .advance(Reply::StoredAccessToken(Ok(Secret::new("0".to_owned()))));
    match state {
        Resolve::Finished { result: Ok((_, credential)) } => {
            assert_eq!(credential.source(), TokenSource::ConfigFile)
        }
        other => panic!("{}", words(other.request())),
    }
    let mut stored = CliConfig::default();
    stored.stored_access_token = Some(reference_of("t"));
    let state = searched(stored).advance(Reply::StoredAccessToken(Ok(Secret::new("s".to_owned()))));
    match state {
        Resolve::Finished { result: Ok((_, credential)) } => {
            assert_eq!(credential.source(), TokenSource::StoredAccessToken)
        }
        other => panic!("{}", words(other.request())),
    }
}
