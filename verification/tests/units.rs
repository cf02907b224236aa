use s2_login::call::{discover, parse_token_http_response, read_oauth_response, ReadResponse};
use s2_login::callback::{
    callback_response, handle_callback, CallbackQuery, CallbackState, CallbackStatus,
};
use s2_login::cleanup::{abandon_revocations, append_cleanup_warning, append_metadata_warning};
use s2_login::config::{
    authentication_config_changed, credential_choice, has_access_token_environment_variable,
    has_pending_oauth_in_store, queue_replaced_session, AuthMethod, CliConfig, CredentialStore,
    OAuthSession, StoredCredentialReference,
};
use s2_login::credentials::{decode_credentials, stored_token_set, StoredTokenSet};
use s2_login::destination::{allowed_destination, effective_endpoints};
use s2_login::encoding::{base64url_decode, random_base64url};
use s2_login::error::{
    AccessTokenError, CliConfigError, CliConfigErrorKind, CredentialStoreError, IoErrorKind,
    IoFailure, LoginError, RequestFailure,
};
use s2_login::host::is_loopback_host;
use s2_login::identity::{
    identity_part, identity_payload, oauth_grant_may_be_reused, oauth_identity, same_oauth_client,
    OAuthIdentity,
};
use s2_login::issuer::{oauth_client_id, oauth_completion_url, oauth_issuer};
use s2_login::lock::{acquire_refresh_lock, LockStep};
use s2_login::metadata::{discovery_url, validate_metadata, AuthorizationServerMetadata};
use s2_login::pkce::{refresh_lock_file_name, Pkce};
use s2_login::provider::OAuthAccessTokenProvider;
use s2_login::rejected::RejectedTokens;
use s2_login::response::{
    append_chunk, known_oauth_error, oauth_rejection, revocation_outcome, MAX_OAUTH_RESPONSE_BYTES,
};
use s2_login::text::{
    contains_word, decimal_text, equals_ignoring_ascii_case, is_blank, join, sanitize_message,
};
use s2_login::token::{token_is_fresh, token_set, Secret, TokenResponse, TokenSet};
use s2_login::url::Url;

fn a_session(credential_id: &str) -> OAuthSession {
    OAuthSession {
        issuer: "https://clerk.s2.dev/".to_owned(),
        client_id: "client".to_owned(),
        account_endpoint: "https://a.s2.dev".to_owned(),
        basin_endpoint: "https://{basin}.b.s2.dev".to_owned(),
        credential_id: credential_id.to_owned(),
        credential_store: CredentialStore::Keyring,
    }
}

fn some_tokens(access: &str, refresh: &str, expires_at: u64) -> TokenSet {
    TokenSet {
        access_token: Secret::new(access.to_owned()),
        refresh_token: Secret::new(refresh.to_owned()),
        expires_at,
    }
}

fn config_error(message: &str) -> CliConfigError {
    CliConfigError {
        kind: CliConfigErrorKind::Other,
        message: message.to_owned(),
        help: None,
    }
}

fn io_failure(kind: IoErrorKind) -> IoFailure {
    IoFailure {
        kind,
        message: "io".to_owned(),
    }
}

fn message<T>(result: Result<T, LoginError>) -> String {
    match result {
        Ok(_) => panic!("an error was expected"),
        Err(error) => error.message(),
    }
}

#[test]
fn messages_lose_control_characters_and_length() {
    assert_eq!(sanitize_message("a\u{7}b\nc\u{85}d"), "abcd");
    assert_eq!(sanitize_message(&"x".repeat(600)), "x".repeat(512));
    let mixed = format!("{}{}", "\u{1}".repeat(600), "y".repeat(600));
    assert_eq!(sanitize_message(&mixed), "y".repeat(512));
    assert_eq!(sanitize_message("h\u{e9}llo"), "h\u{e9}llo");
}

#[test]
fn texts_are_compared_and_cut() {
    assert!(is_blank(""));
    assert!(is_blank(" \t\u{a0}\u{3000}\n"));
    assert!(!is_blank(" x "));
    assert!(equals_ignoring_ascii_case("BeArEr", "bearer"));
    assert!(!equals_ignoring_ascii_case("bearer ", "bearer"));
    assert!(!equals_ignoring_ascii_case("\u{212a}", "k"));
    assert!(contains_word("a\tbc\x0c d", "bc"));
    assert!(!contains_word("abc", "bc"));
    assert!(!contains_word("", "bc"));
    assert_eq!(decimal_text(0), "0");
    assert_eq!(decimal_text(65_535), "65535");
    assert_eq!(decimal_text(u64::MAX), "18446744073709551615");
    assert_eq!(
        join(&vec!["a".to_owned(), "b".to_owned(), "c".to_owned()], "; "),
        "a; b; c"
    );
}

#[test]
fn loopback_hosts_are_written_in_many_ways() {
    assert!(!is_loopback_host("LOCALHOST"));
    assert!(is_loopback_host("::0001"));
    assert!(is_loopback_host("0::1"));
    assert!(is_loopback_host("::0:1"));
    assert!(is_loopback_host("::0.0.0.1"));
    assert!(!is_loopback_host("::ffff:127.0.0.1"));
    assert!(!is_loopback_host("127.1"));
    assert!(!is_loopback_host("127.0.0.01"));
    assert!(!is_loopback_host("127.0.0.256"));
    assert!(!is_loopback_host("1:2:3:4:5:6:7:8:1"));
    assert!(!is_loopback_host("::1::"));
}

#[test]
fn urls_are_normalized_and_taken_apart() {
    let url = Url::parse("HTTPS://user:pw@Example.COM:443/a/../b?q#f").unwrap();
    assert_eq!(url.as_str(), "https://user:pw@example.com/b?q#f");
    assert_eq!(url.scheme(), "https");
    assert_eq!(url.username(), "user");
    assert!(url.has_password());
    assert_eq!(url.host(), Some("example.com"));
    assert_eq!(url.path(), "/b");
    assert!(url.has_query());
    assert!(url.has_fragment());
    assert!(!url.cannot_be_a_base());
    assert!(Url::parse("mailto:x@example.com").unwrap().cannot_be_a_base());
    assert_eq!(
        Url::parse("not a url").err().unwrap(),
        "relative URL without a base"
    );

    let same = Url::parse("https://example.com/other").unwrap();
    let other = Url::parse("https://example.com:8443/b").unwrap();
    assert!(url.same_origin(&same));
    assert!(!url.same_origin(&other));
    assert_eq!(url.origin().as_deref(), Some("https://example.com"));
    assert_eq!(other.origin().as_deref(), Some("https://example.com:8443"));
    // The origin of a `blob:` URL is that of the URL in its path.
    let blob = Url::parse("blob:https://example.com/x").unwrap();
    assert!(blob.same_origin(&same));
    let nested = Url::parse("blob:blob:https://example.com/x").unwrap();
    assert!(nested.same_origin(&same));
    assert!(!Url::parse("blob:x").unwrap().same_origin(&same));
    // However deep it is nested.
    let deep = format!("{}https://example.com/x", "blob:".repeat(2_000));
    assert!(Url::parse(&deep).unwrap().same_origin(&same));
    let long = format!("{}x", "blob:".repeat(2_000));
    assert_eq!(Url::parse(&long).unwrap().origin(), None);
    // Pairs are added to the URL as it was parsed.
    let odd = Url::parse("file:/C:\t..").unwrap();
    assert_eq!(odd.as_str(), "file:///C:/..");
    assert_eq!(odd.with_query(&vec![("a", "b")]), "file:///C:/..?a=b");
    assert!(odd.takes_query());
    assert!(!url.takes_query());
    assert_eq!(
        url.with_query(&vec![("a", "b")]),
        "https://user:pw@example.com/b?q&a=b#f"
    );
    let opaque = Url::parse("data:text/plain,x").unwrap();
    assert!(!opaque.same_origin(&opaque.duplicate()));
    assert_eq!(
        same.with_query(&vec![("a b", "c&d"), ("e", "\u{e9}")]),
        "https://example.com/other?a+b=c%26d&e=%C3%A9"
    );
    assert_eq!(same.join("/x/y").unwrap(), "https://example.com/x/y");
    assert!(opaque.join("/x").is_err());
}

#[test]
fn issuers_come_from_the_user_the_environment_or_s2() {
    let text = |result: Result<Url, LoginError>| result.unwrap().as_str().to_owned();
    assert_eq!(
        text(oauth_issuer(Some("https://one.example"), Some("https://two.example"))),
        "https://one.example/"
    );
    assert_eq!(
        text(oauth_issuer(None, Some("https://two.example"))),
        "https://two.example/"
    );
    assert_eq!(text(oauth_issuer(None, None)), "https://clerk.s2.dev/");
    assert_eq!(
        message(oauth_issuer(Some("nonsense"), None)),
        "Invalid OAuth issuer: relative URL without a base"
    );

    assert_eq!(oauth_client_id(Some("one"), Some("two")), "one");
    assert_eq!(oauth_client_id(Some("  "), Some("two")), "two");
    assert_eq!(oauth_client_id(None, Some("\t")), "9zTKDS3tHSmaWl33");
    assert_eq!(oauth_client_id(None, None), "9zTKDS3tHSmaWl33");
}

#[test]
fn completion_sites_are_https_or_loopback() {
    let site = |environment: Option<&str>| {
        oauth_completion_url(environment)
            .unwrap()
            .unwrap()
            .as_str()
            .to_owned()
    };
    assert_eq!(site(None), "https://s2.dev/cli/login");
    assert_eq!(site(Some("  ")), "https://s2.dev/cli/login");
    assert_eq!(site(Some("http://localhost:8080/x")), "http://localhost:8080/x");
    assert_eq!(
        message(oauth_completion_url(Some("http://s2.dev/cli/login"))),
        "Invalid OAuth completion URL: HTTPS is required unless the website is on loopback"
    );
    assert_eq!(
        message(oauth_completion_url(Some("https://s2.dev/cli/login?x=1"))),
        "Invalid OAuth completion URL: expected an HTTP(S) URL without credentials, query, or fragment"
    );
    assert_eq!(
        message(oauth_completion_url(Some("nonsense"))),
        "Invalid OAuth completion URL: relative URL without a base"
    );
}

#[test]
fn pkce_and_lock_names_come_from_sha_256() {
    let pkce = Pkce::random();
    assert_eq!(pkce.verifier.len(), 43);
    assert_eq!(
        Pkce::from_verifier(pkce.verifier.clone()).challenge,
        pkce.challenge
    );
    assert_ne!(Pkce::random().verifier, pkce.verifier);
    assert_ne!(random_base64url(), random_base64url());
    assert_eq!(
        refresh_lock_file_name("abc"),
        "oauth-ungWv48Bz-pBQUDeXa4iI7ADYaOWF3qctBD_YfIAFa0.lock"
    );
    assert_eq!(
        refresh_lock_file_name(""),
        "oauth-47DEQpj8HBSa-_TImW-5JCeuQeRkm5NMpJWZG3hSuFU.lock"
    );
}

fn word_list(items: &[&str]) -> Vec<String> {
    items.iter().map(|item| (*item).to_owned()).collect()
}

fn full_metadata() -> AuthorizationServerMetadata {
    AuthorizationServerMetadata {
        issuer: "https://clerk.s2.dev".to_owned(),
        authorization_endpoint: "https://clerk.s2.dev/oauth/authorize".to_owned(),
        token_endpoint: "https://clerk.s2.dev/oauth/token".to_owned(),
        revocation_endpoint: Some("https://clerk.s2.dev/oauth/token/revoke".to_owned()),
        response_types_supported: word_list(&["code"]),
        grant_types_supported: word_list(&["authorization_code", "refresh_token"]),
        token_endpoint_auth_methods_supported: word_list(&["none"]),
        scopes_supported: word_list(&["offline_access", "user:org:read"]),
        code_challenge_methods_supported: word_list(&["S256"]),
    }
}

#[test]
fn metadata_has_to_support_all_that_a_login_needs() {
    let issuer = Url::parse("https://clerk.s2.dev").unwrap();
    let refused = |metadata: AuthorizationServerMetadata| {
        matches!(
            validate_metadata(&issuer, metadata),
            Err(LoginError::InvalidMetadata(_))
        )
    };
    assert!(!refused(full_metadata()));
    for change in 0..8 {
        let mut metadata = full_metadata();
        match change {
            0 => metadata.response_types_supported.clear(),
            1 => metadata.grant_types_supported = word_list(&["authorization_code"]),
            2 => metadata.token_endpoint_auth_methods_supported = word_list(&["client_secret"]),
            3 => metadata.scopes_supported = word_list(&["offline_access"]),
            4 => metadata.code_challenge_methods_supported = word_list(&["plain"]),
            5 => metadata.issuer = "https://other.s2.dev".to_owned(),
            6 => metadata.issuer = "nonsense".to_owned(),
            _ => metadata.authorization_endpoint = "http://clerk.s2.dev/oauth".to_owned(),
        }
        assert!(refused(metadata), "{}", change);
    }
    assert_eq!(
        discovery_url(&issuer).unwrap(),
        "https://clerk.s2.dev/.well-known/oauth-authorization-server"
    );
}

#[test]
fn token_responses_are_checked_in_order() {
    let response = || TokenResponse {
        access_token: "access".to_owned(),
        refresh_token: Some("refresh".to_owned()),
        expires_in: 10,
        token_type: "BEARER".to_owned(),
        scope: None,
    };
    let now = Some(100);
    let refusal = |response: TokenResponse, now: Option<u64>| message(token_set(response, None, now));
    let prefix = "OAuth token response was incomplete: ";

    let tokens = token_set(response(), None, now).ok().unwrap();
    assert_eq!(tokens.access_token.expose(), "access");
    assert_eq!(tokens.refresh_token.expose(), "refresh");
    assert_eq!(tokens.expires_at, 110);

    let mut bad = response();
    bad.access_token = String::new();
    bad.token_type = "mac".to_owned();
    assert_eq!(refusal(bad, now), format!("{prefix}access_token was empty"));
    let mut bad = response();
    bad.token_type = "mac".to_owned();
    bad.expires_in = 0;
    assert_eq!(refusal(bad, now), format!("{prefix}token_type was not bearer"));
    let mut bad = response();
    bad.expires_in = 0;
    bad.scope = Some("openid".to_owned());
    assert_eq!(refusal(bad, now), format!("{prefix}expires_in was zero"));
    let mut bad = response();
    bad.scope = Some("user:org:read".to_owned());
    assert_eq!(
        refusal(bad, now),
        format!("{prefix}the offline_access scope was not granted")
    );
    let mut bad = response();
    bad.scope = Some("offline_access user:org:readers".to_owned());
    assert_eq!(
        refusal(bad, now),
        format!("{prefix}the user:org:read scope was not granted")
    );
    let mut bad = response();
    bad.refresh_token = Some(String::new());
    assert_eq!(refusal(bad, now), format!("{prefix}refresh_token was missing"));
    assert_eq!(
        refusal(response(), None),
        format!("{prefix}system clock is before 1970")
    );
    let mut bad = response();
    bad.expires_in = u64::MAX;
    assert_eq!(refusal(bad, now), format!("{prefix}expires_in overflowed"));
}

#[test]
fn tokens_are_fresh_for_more_than_a_minute() {
    let fresh = |expires_at: u64, now: u64| {
        token_is_fresh(&some_tokens("a", "r", expires_at), Some(now)).unwrap()
    };
    assert!(fresh(161, 100));
    assert!(!fresh(160, 100));
    assert!(!fresh(u64::MAX, u64::MAX));
    assert!(!fresh(0, 0));
    assert_eq!(
        message(token_is_fresh(&some_tokens("a", "r", 1), None)),
        "OAuth token response was incomplete: system clock is before 1970"
    );
}

#[test]
fn responses_are_read_up_to_their_limit() {
    let mut bytes = vec![0u8; MAX_OAUTH_RESPONSE_BYTES - 1];
    assert!(append_chunk(&mut bytes, &[1], "discovery").is_ok());
    assert_eq!(bytes.len(), 65_536);
    assert_eq!(bytes[65_535], 1);
    assert!(append_chunk(&mut bytes, &[], "discovery").is_ok());
    assert_eq!(
        message(append_chunk(&mut bytes, &[2], "discovery")),
        "OAuth discovery response exceeded 64 KiB"
    );
    assert_eq!(bytes.len(), 65_536);

    let state = read_oauth_response("token refresh", 200);
    let state = state.advance(Ok(Some(vec![1, 2])));
    let state = state.advance(Ok(Some(vec![3])));
    match state.advance(Ok(None)) {
        ReadResponse::Finished { result } => {
            let (status, bytes) = result.ok().unwrap();
            assert_eq!(status, 200);
            assert_eq!(bytes, vec![1, 2, 3]);
        }
        ReadResponse::Reading { .. } => panic!("the end was expected"),
    }
    let failure = RequestFailure {
        connect: false,
        timeout: true,
        message: "reset".to_owned(),
    };
    match read_oauth_response("token refresh", 200).advance(Err(failure)) {
        ReadResponse::Finished { result: Err(error) } => {
            assert_eq!(error.message(), "OAuth token refresh request failed");
            assert!(error.is_transient());
        }
        _ => panic!("a failure was expected"),
    }
    let too_much = read_oauth_response("discovery", 200).advance(Ok(Some(vec![0; 65_537])));
    assert!(matches!(
        too_much,
        ReadResponse::Finished {
            result: Err(LoginError::ResponseTooLarge { operation: "discovery" })
        }
    ));
}

#[test]
fn refusals_name_known_codes_only() {
    assert_eq!(known_oauth_error("invalid_grant"), Some("invalid_grant"));
    assert_eq!(known_oauth_error("Invalid_grant"), None);
    assert_eq!(
        oauth_rejection("token refresh", 400, Some("invalid_grant")).message(),
        "OAuth token refresh was rejected (400 Bad Request): invalid_grant"
    );
    assert_eq!(
        oauth_rejection("token refresh", 799, None).message(),
        "OAuth token refresh was rejected (799 <unknown status code>): unknown error"
    );
    assert!(revocation_outcome(204, None).is_ok());
    assert_eq!(
        message(revocation_outcome(503, Some("server_error"))),
        "OAuth token revocation was rejected (503 Service Unavailable): server_error"
    );

    let issuer = Url::parse("https://clerk.s2.dev").unwrap();
    assert_eq!(
        message(discover(&issuer, 200, None, Err("expected value".to_owned()))),
        "OAuth discovery returned an invalid response"
    );
    assert_eq!(
        message(discover(&issuer, 404, None, Ok(full_metadata()))),
        "OAuth discovery was rejected (404 Not Found): unknown error"
    );
    let response = TokenResponse {
        access_token: "access".to_owned(),
        refresh_token: None,
        expires_in: 1,
        token_type: "bearer".to_owned(),
        scope: None,
    };
    assert_eq!(
        message(parse_token_http_response("token exchange", 200, None, Ok(response), None, Some(0))),
        "OAuth token response was incomplete: refresh_token was missing"
    );
}

#[test]
fn errors_say_what_happened_and_what_to_do() {
    let request = |connect: bool, timeout: bool| LoginError::Request {
        operation: "discovery",
        source: RequestFailure {
            connect,
            timeout,
            message: "x".to_owned(),
        },
    };
    let store = |not_found: bool, transient: bool| {
        LoginError::Credential(CredentialStoreError {
            not_found,
            transient,
            message: "store".to_owned(),
            help: Some("open it".to_owned()),
        })
    };
    let cases: Vec<(LoginError, &str, Option<&str>, bool)> = vec![
        (
            LoginError::HttpClient("x".to_owned()),
            "Failed to initialize the OAuth HTTP client",
            None,
            false,
        ),
        (request(true, false), "OAuth discovery request failed", None, true),
        (request(false, false), "OAuth discovery request failed", None, false),
        (
            oauth_rejection("discovery", 500, None),
            "OAuth discovery was rejected (500 Internal Server Error): unknown error",
            None,
            true,
        ),
        (
            oauth_rejection("discovery", 429, None),
            "OAuth discovery was rejected (429 Too Many Requests): unknown error",
            None,
            true,
        ),
        (
            oauth_rejection("discovery", 408, None),
            "OAuth discovery was rejected (408 Request Timeout): unknown error",
            None,
            true,
        ),
        (
            oauth_rejection("discovery", 401, None),
            "OAuth discovery was rejected (401 Unauthorized): unknown error",
            None,
            false,
        ),
        (
            LoginError::Listen(io_failure(IoErrorKind::Other)),
            "Failed to listen for the browser callback",
            Some("Check whether local applications may listen on 127.0.0.1, then retry `s2 login`."),
            false,
        ),
        (
            LoginError::CallbackServer(io_failure(IoErrorKind::Other)),
            "The browser callback server failed",
            None,
            false,
        ),
        (
            LoginError::CallbackTask("x".to_owned()),
            "The browser callback task failed",
            None,
            false,
        ),
        (
            LoginError::TimedOut,
            "Timed out waiting for browser authorization",
            Some("Run `s2 login` again and finish authorization in the browser."),
            false,
        ),
        (
            LoginError::CallbackClosed,
            "Browser authorization ended before a code was received",
            None,
            false,
        ),
        (
            LoginError::AuthorizationRejected("no".to_owned()),
            "S2 login was not authorized: no",
            None,
            false,
        ),
        (
            LoginError::SerializeCredentials("x".to_owned()),
            "Failed to serialize OAuth credentials",
            None,
            false,
        ),
        (
            LoginError::ParseCredentials("x".to_owned()),
            "Stored OAuth credentials are invalid",
            None,
            false,
        ),
        (
            LoginError::CredentialBindingMismatch,
            "Stored OAuth credentials do not match the active login",
            None,
            false,
        ),
        (
            LoginError::SessionChanged,
            "Browser login changed while credentials were being refreshed",
            Some("Retry the command to use the current authentication selection."),
            false,
        ),
        (
            LoginError::RevokedButNotRemoved(config_error("disk")),
            "The browser login was revoked, but local configuration could not be updated",
            Some("Run `s2 logout --local-only` to finish removing it locally."),
            false,
        ),
        (
            LoginError::RefreshPersistence(Box::new(store(false, true))),
            "OAuth tokens were refreshed, but the rotated credential could not be saved",
            Some("Run `s2 login` again before the current access token expires."),
            true,
        ),
        (
            LoginError::LogoutIncomplete { recovery: "here".to_owned() },
            "The browser login was deactivated, but its local credential could not be deleted",
            Some("Retry `s2 logout --local-only`; the credential remains queued for cleanup at here."),
            false,
        ),
        (
            LoginError::PendingLoginCleanup { details: "why".to_owned() },
            "Could not finish cleaning up an older browser login: why",
            Some("Restore access to the credential store and OAuth provider, then retry. To abandon server-side revocation, run `s2 logout --local-only`."),
            false,
        ),
        (
            LoginError::LoginRollback {
                config: Box::new(config_error("disk")),
                cleanup: Box::new(store(false, false)),
                recovery: "here".to_owned(),
            },
            "Failed to update the config (disk) and clean up the newly issued OAuth credential (store); cleanup remains queued at here",
            None,
            false,
        ),
        (
            LoginError::CredentialWriteRollback {
                write: Box::new(store(false, false)),
                cleanup: Box::new(LoginError::RefreshLockTimedOut),
                recovery: "here".to_owned(),
            },
            "Failed to store OAuth credentials (store) and clean up the newly issued grant (Timed out waiting for another S2 process to refresh OAuth credentials); cleanup remains queued at here",
            None,
            false,
        ),
        (
            LoginError::UnjournaledGrant {
                config: Box::new(config_error("disk")),
                revocation: Box::new(request(true, false)),
            },
            "Failed to journal the newly issued OAuth credential (disk) and revoke its grant (OAuth discovery request failed); the provider may still retain the grant",
            None,
            false,
        ),
        (
            LoginError::CredentialFile {
                action: "secure the parent directory for",
                source: io_failure(IoErrorKind::Interrupted),
            },
            "Failed to secure the parent directory for the OAuth credentials file",
            None,
            true,
        ),
        (
            LoginError::RefreshLock(io_failure(IoErrorKind::Other)),
            "Failed to acquire the OAuth refresh lock",
            None,
            false,
        ),
        (
            LoginError::RefreshLock(io_failure(IoErrorKind::WouldBlock)),
            "Failed to acquire the OAuth refresh lock",
            None,
            true,
        ),
        (
            LoginError::RefreshLockTimedOut,
            "Timed out waiting for another S2 process to refresh OAuth credentials",
            None,
            true,
        ),
        (
            LoginError::Config(CliConfigError {
                kind: CliConfigErrorKind::LockTimedOut,
                message: "busy".to_owned(),
                help: Some("wait".to_owned()),
            }),
            "busy",
            Some("wait"),
            true,
        ),
        (
            LoginError::Config(CliConfigError {
                kind: CliConfigErrorKind::Lock(IoErrorKind::Interrupted),
                message: "lock".to_owned(),
                help: None,
            }),
            "lock",
            None,
            true,
        ),
        (LoginError::Config(config_error("disk")), "disk", None, false),
        (store(true, false), "store", Some("open it"), false),
        (
            LoginError::StoredAccessToken(AccessTokenError {
                not_found: true,
                message: "token".to_owned(),
                help: None,
            }),
            "token",
            None,
            false,
        ),
    ];
    for (error, text, help, transient) in cases {
        assert_eq!(error.message(), text);
        assert_eq!(error.help().as_deref(), help, "{}", text);
        assert_eq!(error.is_transient(), transient, "{}", text);
    }

    assert!(store(true, false).is_credential_not_found());
    assert!(!store(false, false).is_credential_not_found());
    assert!(store(true, false).should_reload_auth_config());
    assert!(LoginError::SessionChanged.should_reload_auth_config());
    assert!(!LoginError::TimedOut.should_reload_auth_config());
}

#[test]
fn stored_tokens_are_bound_to_their_login() {
    let session = a_session("one");
    let tokens = some_tokens("access", "refresh", 7);
    let stored = stored_token_set(&session, &tokens);
    assert_eq!(stored.version, 1);
    assert_eq!(stored.kind, "s2_oauth");
    let read = decode_credentials(&session, Ok(stored)).ok().unwrap();
    assert_eq!(read.access_token.expose(), "access");
    assert_eq!(read.refresh_token.expose(), "refresh");
    assert_eq!(read.expires_at, 7);

    let mismatch = |change: fn(&mut StoredTokenSet)| {
        let mut stored = stored_token_set(&a_session("one"), &some_tokens("access", "refresh", 7));
        change(&mut stored);
        matches!(
            decode_credentials(&a_session("one"), Ok(stored)),
            Err(LoginError::CredentialBindingMismatch)
        )
    };
    assert!(!mismatch(|_| {}));
    assert!(mismatch(|stored| stored.version = 2));
    assert!(mismatch(|stored| stored.kind = "other".to_owned()));
    assert!(mismatch(|stored| stored.credential_id = "two".to_owned()));
    assert!(mismatch(|stored| stored.issuer = "https://clerk.s2.dev".to_owned()));
    assert!(mismatch(|stored| stored.client_id = "other".to_owned()));
    assert!(mismatch(|stored| stored.access_token = String::new()));
    assert!(mismatch(|stored| stored.refresh_token = String::new()));
    assert!(matches!(
        decode_credentials(&session, Err("broken".to_owned())),
        Err(LoginError::ParseCredentials(_))
    ));
}

#[test]
fn identities_are_read_from_signed_tokens_only() {
    assert_eq!(identity_part("a.b.c").as_deref(), Some("b"));
    assert_eq!(identity_part("a.b."), None);
    assert_eq!(identity_part("a.b"), None);
    assert_eq!(identity_part("a.b.c.d"), None);
    assert_eq!(identity_part(""), None);
    assert_eq!(identity_payload("h.aGVsbG8.s"), Some(b"hello".to_vec()));
    assert_eq!(identity_payload("h.aGVsbG8=.s"), None);
    // Bits behind the last byte, a lone character and other alphabets are refused.
    assert_eq!(base64url_decode("aGVsbG9"), None);
    assert_eq!(base64url_decode("a"), None);
    assert_eq!(base64url_decode("+/8"), None);
    assert_eq!(base64url_decode("-_8"), Some(vec![0xfb, 0xff]));
    assert_eq!(base64url_decode(""), Some(vec![]));

    let identity = |sub: &str, org_id: &str| {
        Some(OAuthIdentity {
            sub: sub.to_owned(),
            org_id: org_id.to_owned(),
        })
    };
    assert!(oauth_identity(identity("u", "o")).is_some());
    assert!(oauth_identity(identity("", "o")).is_none());
    assert!(oauth_identity(identity("u", "")).is_none());

    let mut other = a_session("two");
    other.issuer = "https://CLERK.s2.dev".to_owned();
    assert!(same_oauth_client(&a_session("one"), &other));
    assert!(oauth_grant_may_be_reused(&a_session("one"), None, &other, identity("u", "o")));
    assert!(!oauth_grant_may_be_reused(
        &a_session("one"),
        identity("v", "o"),
        &other,
        identity("u", "o")
    ));
    other.client_id = "another".to_owned();
    assert!(!oauth_grant_may_be_reused(&a_session("one"), None, &other, None));
}

#[test]
fn replaced_logins_are_queued_once() {
    let mut config = CliConfig::default();
    queue_replaced_session(&mut config, &a_session("one"), true);
    queue_replaced_session(&mut config, &a_session("one"), true);
    assert_eq!(config.pending_oauth_cleanup.len(), 1);
    assert_eq!(config.pending_oauth_cleanup[0].credential_id, "one");
    queue_replaced_session(&mut config, &a_session("two"), false);
    queue_replaced_session(&mut config, &a_session("two"), false);
    assert_eq!(config.pending_oauth_revocation, vec![a_session("two")]);

    assert!(has_pending_oauth_in_store(&config, CredentialStore::Keyring));
    assert!(!has_pending_oauth_in_store(&config, CredentialStore::File));
    assert!(abandon_revocations(&mut config));
    assert!(config.pending_oauth_revocation.is_empty());
    assert_eq!(config.pending_oauth_cleanup.len(), 2);
    assert_eq!(config.pending_oauth_cleanup[1].credential_id, "two");
    assert!(!abandon_revocations(&mut config));
}

#[test]
fn warnings_are_strung_together() {
    let mut warning = None;
    append_cleanup_warning(&mut warning, "one".to_owned());
    append_metadata_warning(&mut warning, &config_error("disk"));
    assert_eq!(
        warning.as_deref(),
        Some("one; could not update OAuth credential cleanup metadata: disk")
    );
}

#[test]
fn authentication_changes_are_noticed() {
    let base = CliConfig::default();
    assert!(!authentication_config_changed(&base, &CliConfig::default()));
    let changed = |change: fn(&mut CliConfig)| {
        let mut config = CliConfig::default();
        change(&mut config);
        authentication_config_changed(&CliConfig::default(), &config)
    };
    assert!(changed(|config| config.auth_method = Some(AuthMethod::AccessToken)));
    assert!(changed(|config| config.oauth = Some(a_session("one"))));
    assert!(changed(|config| config.access_token = Some(String::new())));
    assert!(changed(|config| {
        config.stored_access_token = Some(StoredCredentialReference {
            credential_id: "t".to_owned(),
            credential_store: CredentialStore::File,
        })
    }));
    assert!(!changed(|config| config.ssl_no_verify = Some(true)));
    assert!(!changed(|config| config.pending_oauth_revocation.push(a_session("one"))));
}

#[test]
fn a_selected_method_is_never_replaced() {
    let mut config = CliConfig {
        auth_method: Some(AuthMethod::BrowserLogin),
        access_token: Some("token".to_owned()),
        ..CliConfig::default()
    };
    let missing = credential_choice(&config, false).unwrap_err();
    assert_eq!(missing.kind, CliConfigErrorKind::MissingAccessToken);
    config.auth_method = Some(AuthMethod::AccessToken);
    config.access_token = None;
    config.oauth = Some(a_session("one"));
    assert!(credential_choice(&config, false).is_err());

    assert!(has_access_token_environment_variable(&Ok(Some("t".to_owned()))));
    assert!(!has_access_token_environment_variable(&Ok(None)));
    assert!(!has_access_token_environment_variable(&Err(config_error("x"))));
}

#[test]
fn destinations_default_to_s2() {
    let (account, basin) = effective_endpoints(&CliConfig::default());
    assert_eq!(account, "https://a.s2.dev");
    assert_eq!(basin, "https://{basin}.b.s2.dev");
    assert!(allowed_destination("https://clerk.s2.dev/", &CliConfig::default()).is_ok());
    let custom = CliConfig {
        account_endpoint: Some("https://s2.dev.example".to_owned()),
        ..CliConfig::default()
    };
    let (account, basin) = effective_endpoints(&custom);
    assert_eq!(account, "https://s2.dev.example");
    assert_eq!(basin, "https://{basin}.b.s2.dev");
    assert!(matches!(
        allowed_destination("https://clerk.s2.dev/", &custom),
        Err(LoginError::UnsafeBrowserDestination)
    ));
}

#[test]
fn callbacks_after_the_first_one_are_told_so() {
    let mut state = CallbackState {
        expected_state: "s".to_owned(),
        completed: false,
        completion_url: None,
    };
    let query = |code: Option<&str>, error: Option<&str>, description: Option<&str>| CallbackQuery {
        code: code.map(str::to_owned),
        error: error.map(str::to_owned),
        error_description: description.map(str::to_owned),
        state: Some("s".to_owned()),
    };
    let first = handle_callback(&mut state, &query(Some("c"), None, None));
    assert_eq!(first.delivered, Some(Ok("c".to_owned())));
    let second = handle_callback(&mut state, &query(Some("d"), None, None));
    assert_eq!(second.delivered, None);
    assert_eq!(second.response.status, 409);

    let answer = |query: &CallbackQuery| {
        let mut state = CallbackState {
            expected_state: "s".to_owned(),
            completed: false,
            completion_url: Some(Url::parse("https://s2.dev/cli/login").unwrap()),
        };
        let reply = handle_callback(&mut state, query);
        (
            reply.delivered.unwrap().unwrap_err(),
            reply.response.location.unwrap(),
        )
    };
    assert_eq!(
        answer(&query(Some("c"), Some("e"), None)),
        (
            "authorization callback contained both a code and an error".to_owned(),
            "https://s2.dev/cli/login?status=error".to_owned()
        )
    );
    assert_eq!(
        answer(&query(Some(""), None, None)).0,
        "authorization code was missing"
    );
    assert_eq!(
        answer(&query(None, Some("access_denied"), None)),
        (
            "access_denied".to_owned(),
            "https://s2.dev/cli/login?status=denied".to_owned()
        )
    );
    assert_eq!(
        answer(&query(None, None, Some("no\nway"))).0,
        "noway"
    );
    let completed = callback_response(&None, 409, CallbackStatus::AlreadyCompleted);
    assert_eq!(completed.status, 409);
    assert_eq!(CallbackStatus::AlreadyCompleted.as_str(), "already-completed");
}

#[test]
fn a_busy_lock_is_tried_until_the_deadline() {
    assert!(matches!(acquire_refresh_lock(Ok(()), 60_000), LockStep::Acquired));
    let busy = || Err(io_failure(IoErrorKind::WouldBlock));
    assert!(matches!(acquire_refresh_lock(busy(), 59_999), LockStep::TryAgain(50)));
    assert!(matches!(
        acquire_refresh_lock(busy(), 60_000),
        LockStep::Failed(LoginError::RefreshLockTimedOut)
    ));
    assert!(matches!(
        acquire_refresh_lock(Err(io_failure(IoErrorKind::Other)), 0),
        LockStep::Failed(LoginError::RefreshLock(_))
    ));
}

#[test]
fn rejected_tokens_form_a_set() {
    let mut rejected = RejectedTokens::none();
    assert!(rejected.is_empty());
    rejected.insert("a".to_owned());
    rejected.insert("a".to_owned());
    assert!(rejected.contains("a"));
    assert!(!rejected.contains("b"));
    let mut taken = rejected.take();
    assert!(rejected.is_empty());
    rejected.insert("b".to_owned());
    taken.extend(rejected);
    assert!(taken.contains("a") && taken.contains("b"));
}

#[test]
fn providers_show_their_login_and_no_tokens() {
    let mut session = a_session("quo\"ted");
    session.credential_store = CredentialStore::File;
    let provider = OAuthAccessTokenProvider::new(session, some_tokens("secret", "secret", 1));
    assert_eq!(
        provider.debug_text(),
        "OAuthAccessTokenProvider { session: OAuthSession { issuer: \"https://clerk.s2.dev/\", \
         client_id: \"client\", account_endpoint: \"https://a.s2.dev\", \
         basin_endpoint: \"https://{basin}.b.s2.dev\", credential_id: \"quo\\\"ted\", \
         credential_store: File }, state: \"<redacted>\", rejected_access_tokens: \"<redacted>\" }"
    );
}
