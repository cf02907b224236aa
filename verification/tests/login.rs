use std::collections::HashMap;

use s2_login::call::{discover, exchange_code, parse_token_http_response, refresh_token, revoke_token};
use s2_login::callback::{handle_callback, CallbackQuery, CallbackResponse, CallbackState};
use s2_login::config::{
    credential_choice, AuthMethod, CliConfig, CredentialChoice, CredentialStore, OAuthSession,
};
use s2_login::destination::{
    validate_endpoint_binding, DEFAULT_ACCOUNT_ENDPOINT, DEFAULT_BASIN_ENDPOINT,
};
use s2_login::error::LoginError;
use s2_login::host::is_loopback_host;
use s2_login::identity::{identity_payload, oauth_grant_may_be_reused, OAuthIdentity};
use s2_login::issuer::oauth_issuer;
use s2_login::metadata::{
    authorization_url, discovery_url, validate_metadata, AuthorizationServerMetadata,
};
use s2_login::pkce::Pkce;
use s2_login::provider::OAuthAccessTokenProvider;
use s2_login::resolve::{ResolvedCredential, TokenSource};
use s2_login::response::{oauth_rejection, revocation_outcome};
use s2_login::token::{token_set, Secret, TokenResponse, TokenSet, OAUTH_SCOPES};
use s2_login::url::Url;

use base64ct::{Base64UrlUnpadded, Encoding};

fn oauth_session() -> OAuthSession {
    OAuthSession {
        issuer: "https://clerk.s2.dev/".to_owned(),
        client_id: "client_123".to_owned(),
        account_endpoint: DEFAULT_ACCOUNT_ENDPOINT.to_owned(),
        basin_endpoint: DEFAULT_BASIN_ENDPOINT.to_owned(),
        credential_id: "credential_123".to_owned(),
        credential_store: CredentialStore::File,
    }
}

fn test_token_set() -> TokenSet {
    TokenSet {
        access_token: Secret::new("access-token".to_owned()),
        refresh_token: Secret::new("refresh-token".to_owned()),
        expires_at: u64::MAX,
    }
}

fn test_jwt(sub: &str, org_id: &str) -> Secret {
    let mut claims = serde_json::Map::new();
    claims.insert("sub".to_owned(), serde_json::Value::from(sub));
    claims.insert("org_id".to_owned(), serde_json::Value::from(org_id));
    let payload = serde_json::to_vec(&serde_json::Value::Object(claims)).unwrap();
    Secret::new(format!(
        "header.{}.signature",
        Base64UrlUnpadded::encode_string(&payload)
    ))
}

/// The identity that the claims of an access token state.
fn claims(token: &Secret) -> Option<OAuthIdentity> {
    let payload = identity_payload(token.expose())?;
    let claims: serde_json::Value = serde_json::from_slice(&payload).ok()?;
    Some(OAuthIdentity {
        sub: claims.get("sub")?.as_str()?.to_owned(),
        org_id: claims.get("org_id")?.as_str()?.to_owned(),
    })
}

#[test]
fn replacement_grant_reuse_requires_the_same_known_identity() {
    let previous_session = oauth_session();
    let next_session = oauth_session();
    let mut previous_tokens = test_token_set();
    previous_tokens.access_token = test_jwt("user_1", "org_1");
    let mut next_tokens = test_token_set();
    next_tokens.access_token = test_jwt("user_1", "org_1");

    assert!(oauth_grant_may_be_reused(
        &previous_session,
        claims(&previous_tokens.access_token),
        &next_session,
        claims(&next_tokens.access_token),
    ));

    next_tokens.access_token = test_jwt("user_1", "org_2");
    assert!(!oauth_grant_may_be_reused(
        &previous_session,
        claims(&previous_tokens.access_token),
        &next_session,
        claims(&next_tokens.access_token),
    ));
}

#[test]
fn production_browser_credentials_are_bound_to_production_transport() {
    let mut credential = ResolvedCredential {
        access_token: Secret::new("access".to_owned()),
        source: TokenSource::BrowserLogin,
        oauth_session: Some(oauth_session()),
        oauth_tokens: None,
    };
    credential
        .validate_destination(&CliConfig::default())
        .unwrap();

    let custom = CliConfig {
        account_endpoint: Some("https://attacker.example".to_owned()),
        basin_endpoint: Some("https://{basin}.attacker.example".to_owned()),
        ..CliConfig::default()
    };
    assert!(matches!(
        credential.validate_destination(&custom),
        Err(LoginError::UnsafeBrowserDestination)
    ));

    let insecure = CliConfig {
        ssl_no_verify: Some(true),
        ..CliConfig::default()
    };
    assert!(matches!(
        credential.validate_destination(&insecure),
        Err(LoginError::UnsafeBrowserDestination)
    ));

    let staging = CliConfig {
        account_endpoint: Some("https://cell.o-staging.aws.s2.dev".to_owned()),
        basin_endpoint: Some("https://{basin}.b-staging.aws.s2.dev".to_owned()),
        ..CliConfig::default()
    };
    let staging_session = OAuthSession {
        issuer: "https://staging-clerk.example/".to_owned(),
        account_endpoint: staging.account_endpoint.clone().unwrap(),
        basin_endpoint: staging.basin_endpoint.clone().unwrap(),
        ..oauth_session()
    };
    credential.oauth_session = Some(staging_session);
    credential.validate_destination(&staging).unwrap();
    assert!(matches!(
        credential.validate_destination(&custom),
        Err(LoginError::UnsafeBrowserDestination)
    ));

    let loopback = CliConfig {
        account_endpoint: Some("http://127.0.0.1:4243".to_owned()),
        basin_endpoint: Some("http://localhost:4243".to_owned()),
        ..CliConfig::default()
    };
    credential.oauth_session = Some(OAuthSession {
        issuer: "http://127.0.0.1:3000/".to_owned(),
        account_endpoint: loopback.account_endpoint.clone().unwrap(),
        basin_endpoint: loopback.basin_endpoint.clone().unwrap(),
        ..oauth_session()
    });
    credential.validate_destination(&loopback).unwrap();

    assert!(validate_endpoint_binding(
        "https://staging-clerk.example",
        "ftp://localhost:4243",
        "ftp://localhost:4243",
        false,
    )
    .is_err());
}

fn texts(items: &[&str]) -> Vec<String> {
    items.iter().map(|item| (*item).to_owned()).collect()
}

fn metadata_of(issuer: &str) -> AuthorizationServerMetadata {
    AuthorizationServerMetadata {
        issuer: issuer.to_owned(),
        authorization_endpoint: format!("{issuer}/oauth/authorize"),
        token_endpoint: format!("{issuer}/oauth/token"),
        revocation_endpoint: Some(format!("{issuer}/oauth/token/revoke")),
        response_types_supported: texts(&["code"]),
        grant_types_supported: texts(&["authorization_code", "refresh_token"]),
        token_endpoint_auth_methods_supported: texts(&["none"]),
        scopes_supported: texts(&["offline_access", "user:org:read"]),
        code_challenge_methods_supported: texts(&["S256"]),
    }
}

fn metadata() -> AuthorizationServerMetadata {
    metadata_of("https://clerk.s2.dev")
}

#[test]
fn rfc_7636_pkce_vector() {
    let pkce = Pkce::from_verifier("dBjftJeZ4CVP-mB92K27uhbUJU1p1r_wW1gFWFOEjXk".to_owned());
    assert_eq!(
        pkce.challenge,
        "E9Melhoa2OwvFrEMTJguCHaoeK1t8URWbuGJSstw-cM"
    );
}

#[test]
fn authorization_url_contains_oauth_and_pkce_parameters() {
    let endpoint = Url::parse("https://clerk.s2.dev/oauth/authorize").unwrap();
    let url = authorization_url(
        &endpoint,
        "client_123",
        "http://127.0.0.1:34567/callback",
        "expected-state",
        "challenge",
    );
    let url = reqwest::Url::parse(&url).unwrap();
    let params = url
        .query_pairs()
        .map(|(key, value)| (key.into_owned(), value.into_owned()))
        .collect::<HashMap<_, _>>();

    assert_eq!(
        params.get("response_type").map(String::as_str),
        Some("code")
    );
    assert_eq!(
        params.get("client_id").map(String::as_str),
        Some("client_123")
    );
    assert_eq!(
        params.get("redirect_uri").map(String::as_str),
        Some("http://127.0.0.1:34567/callback")
    );
    assert_eq!(params.get("scope").map(String::as_str), Some(OAUTH_SCOPES));
    assert_eq!(
        params.get("state").map(String::as_str),
        Some("expected-state")
    );
    assert_eq!(
        params.get("code_challenge").map(String::as_str),
        Some("challenge")
    );
    assert_eq!(
        params.get("code_challenge_method").map(String::as_str),
        Some("S256")
    );
}

#[test]
fn validates_clerk_metadata_and_rejects_cross_origin_endpoints() {
    let issuer = Url::parse("https://clerk.s2.dev").unwrap();
    let endpoints = match validate_metadata(&issuer, metadata()) {
        Ok(endpoints) => endpoints,
        Err(error) => panic!("{}", error.message()),
    };
    assert_eq!(
        endpoints.revocation.as_str(),
        "https://clerk.s2.dev/oauth/token/revoke"
    );

    let mut malicious = metadata();
    malicious.token_endpoint = "https://attacker.example/token".to_owned();
    assert!(validate_metadata(&issuer, malicious).is_err());

    let mut without_revocation = metadata();
    without_revocation.revocation_endpoint = None;
    assert!(validate_metadata(&issuer, without_revocation).is_err());
}

fn fields(form: &Vec<(&str, &str)>) -> HashMap<String, String> {
    form.iter()
        .map(|(key, value)| ((*key).to_owned(), (*value).to_owned()))
        .collect()
}

#[test]
fn exchanges_refreshes_and_revokes_with_standard_oauth_forms() {
    let issuer = "http://127.0.0.1:40001";
    let issuer_url = oauth_issuer(Some(issuer), None).unwrap();
    assert_eq!(
        discovery_url(&issuer_url).unwrap(),
        "http://127.0.0.1:40001/.well-known/oauth-authorization-server"
    );
    let endpoints = match discover(&issuer_url, 200, None, Ok(metadata_of(issuer))) {
        Ok(endpoints) => endpoints,
        Err(error) => panic!("{}", error.message()),
    };
    let now = Some(1_700_000_000);

    let call = exchange_code(
        &endpoints,
        "client_123",
        "http://127.0.0.1:34567/callback",
        "authorization-code",
        "pkce-verifier",
    );
    assert_eq!(call.url, "http://127.0.0.1:40001/oauth/token");
    assert_eq!(call.operation, "token exchange");
    let exchange_fields = fields(&call.form);
    let response = TokenResponse {
        access_token: "first-access".to_owned(),
        refresh_token: Some("first-refresh".to_owned()),
        expires_in: 3600,
        token_type: "bearer".to_owned(),
        scope: Some(OAUTH_SCOPES.to_owned()),
    };
    let first = match parse_token_http_response(call.operation, 200, None, Ok(response), None, now)
    {
        Ok(tokens) => tokens,
        Err(error) => panic!("{}", error.message()),
    };

    let call = refresh_token(&endpoints, "client_123", first.refresh_token.expose());
    assert_eq!(call.url, "http://127.0.0.1:40001/oauth/token");
    assert_eq!(call.operation, "token refresh");
    let refresh_fields = fields(&call.form);
    let response = TokenResponse {
        access_token: "second-access".to_owned(),
        refresh_token: None,
        expires_in: 3600,
        token_type: "bearer".to_owned(),
        scope: Some(OAUTH_SCOPES.to_owned()),
    };
    let second = match parse_token_http_response(
        call.operation,
        200,
        None,
        Ok(response),
        Some(first.refresh_token.expose()),
        now,
    ) {
        Ok(tokens) => tokens,
        Err(error) => panic!("{}", error.message()),
    };

    let call = revoke_token(&endpoints, "client_123", second.refresh_token.expose());
    assert_eq!(call.url, "http://127.0.0.1:40001/oauth/token/revoke");
    assert_eq!(call.operation, "token revocation");
    let revoke_fields = fields(&call.form);
    assert!(revocation_outcome(200, None).is_ok());

    assert_eq!(first.access_token.expose(), "first-access");
    assert_eq!(first.expires_at, 1_700_003_600);
    assert_eq!(second.access_token.expose(), "second-access");
    assert_eq!(second.refresh_token.expose(), "first-refresh");
    let requests = vec![exchange_fields, refresh_fields, revoke_fields];
    assert_eq!(requests.len(), 3);
    assert_eq!(requests[0].get("grant_type").unwrap(), "authorization_code");
    assert_eq!(requests[0].get("code").unwrap(), "authorization-code");
    assert_eq!(requests[0].get("code_verifier").unwrap(), "pkce-verifier");
    assert_eq!(
        requests[0].get("redirect_uri").unwrap(),
        "http://127.0.0.1:34567/callback"
    );
    assert_eq!(requests[1].get("grant_type").unwrap(), "refresh_token");
    assert_eq!(requests[1].get("refresh_token").unwrap(), "first-refresh");
    assert_eq!(requests[2].get("token").unwrap(), "first-refresh");
    assert_eq!(requests[2].get("token_type_hint").unwrap(), "refresh_token");
}

#[test]
fn issuer_requires_https_except_on_loopback() {
    assert!(oauth_issuer(Some("https://clerk.s2.dev"), None).is_ok());
    assert!(oauth_issuer(Some("http://127.0.0.1:3000"), None).is_ok());
    assert!(oauth_issuer(Some("http://localhost:3000"), None).is_ok());
    // The entire 127.0.0.0/8 block is loopback per RFC 3330, not just 127.0.0.1.
    assert!(oauth_issuer(Some("http://127.0.0.2:3000"), None).is_ok());
    assert!(oauth_issuer(Some("http://127.1.2.3:3000"), None).is_ok());
    assert!(oauth_issuer(Some("http://127.255.255.255:3000"), None).is_ok());
    assert!(oauth_issuer(Some("http://[::1]:3000"), None).is_ok());
    assert!(oauth_issuer(Some("http://clerk.s2.dev"), None).is_err());
    assert!(oauth_issuer(Some("https://user@clerk.s2.dev"), None).is_err());
    assert!(oauth_issuer(Some("https://clerk.s2.dev/path"), None).is_err());
    // Non-loopback addresses (including the network address) are rejected over HTTP.
    assert!(oauth_issuer(Some("http://0.0.0.0:3000"), None).is_err());
    assert!(oauth_issuer(Some("http://192.168.1.1:3000"), None).is_err());
    assert!(oauth_issuer(Some("http://10.0.0.1:3000"), None).is_err());
    assert!(oauth_issuer(Some("http://169.254.169.254:3000"), None).is_err());
}

#[test]
fn is_loopback_host_recognizes_full_loopback_range() {
    // IPv4: the entire 127.0.0.0/8 block is loopback (RFC 3330).
    assert!(is_loopback_host("127.0.0.1"));
    assert!(is_loopback_host("127.0.0.2"));
    assert!(is_loopback_host("127.0.1.1"));
    assert!(is_loopback_host("127.1.2.3"));
    assert!(is_loopback_host("127.100.100.100"));
    assert!(is_loopback_host("127.255.255.255"));
    // IPv6 loopback, its canonical equivalent, and the bracketed form in which
    // the host of a URL is written.
    assert!(is_loopback_host("::1"));
    assert!(is_loopback_host("0:0:0:0:0:0:0:1"));
    assert!(is_loopback_host("[::1]"));
    assert!(is_loopback_host("[0:0:0:0:0:0:0:1]"));
    // Hostname alias.
    assert!(is_loopback_host("localhost"));

    // Non-loopback addresses must be rejected.
    assert!(!is_loopback_host("0.0.0.0"));
    assert!(!is_loopback_host("0.0.0.1"));
    assert!(!is_loopback_host("::"));
    assert!(!is_loopback_host("::2"));
    assert!(!is_loopback_host("192.168.1.1"));
    assert!(!is_loopback_host("10.0.0.1"));
    assert!(!is_loopback_host("169.254.169.254"));
    assert!(!is_loopback_host("8.8.8.8"));
    assert!(!is_loopback_host("clerk.s2.dev"));
    assert!(!is_loopback_host(""));
    assert!(!is_loopback_host("localhost.evil.example"));
    assert!(!is_loopback_host("127.0.0.1.evil.example"));
    assert!(!is_loopback_host("127.0.0.1.nip.io"));
}

#[test]
fn loopback_endpoint_binding_accepts_non_127_0_0_1_loopback_addresses() {
    // Endpoints bound to other addresses in 127.0.0.0/8 are valid loopback
    // destinations and must accept HTTP transport.
    let issuer = "http://127.0.0.2:3000/";
    let account = "http://127.0.0.2:4243";
    let basin = "http://127.0.0.2:4243";
    assert!(validate_endpoint_binding(issuer, account, basin, false).is_ok());
    // `ssl_no_verify` is permitted on loopback.
    assert!(validate_endpoint_binding(issuer, account, basin, true).is_ok());

    // Mixed addresses within 127.0.0.0/8 are still loopback.
    assert!(validate_endpoint_binding(
        "http://127.0.0.1:3000/",
        "http://127.0.0.3:4243",
        "http://127.0.0.4:4243",
        false,
    )
    .is_ok());

    // HTTP endpoints outside the loopback range are rejected.
    assert!(matches!(
        validate_endpoint_binding(
            "http://10.0.0.1:3000/",
            "http://10.0.0.1:4243",
            "http://10.0.0.1:4243",
            false
        ),
        Err(LoginError::UnsafeBrowserDestination)
    ));
    assert!(matches!(
        validate_endpoint_binding(
            "http://127.0.0.2:3000/",
            "http://192.168.1.1:4243",
            "http://127.0.0.2:4243",
            false
        ),
        Err(LoginError::UnsafeBrowserDestination)
    ));
}

#[test]
fn credential_precedence_is_environment_then_explicit_method_then_legacy_fallback() {
    let mut config = CliConfig {
        access_token: Some("static-token".to_owned()),
        auth_method: Some(AuthMethod::BrowserLogin),
        oauth: Some(oauth_session()),
        ..CliConfig::default()
    };

    assert_eq!(
        credential_choice(&config, true).unwrap(),
        CredentialChoice::Environment
    );
    assert_eq!(
        credential_choice(&config, false).unwrap(),
        CredentialChoice::BrowserLogin
    );

    config.auth_method = Some(AuthMethod::AccessToken);
    assert_eq!(
        credential_choice(&config, false).unwrap(),
        CredentialChoice::StoredAccessToken
    );

    config.auth_method = None;
    assert_eq!(
        credential_choice(&config, false).unwrap(),
        CredentialChoice::StoredAccessToken
    );
    config.access_token = None;
    assert_eq!(
        credential_choice(&config, false).unwrap(),
        CredentialChoice::BrowserLogin
    );
}

#[test]
fn oauth_provider_tracks_rejected_tokens_without_exposing_them_in_debug_output() {
    let mut provider = OAuthAccessTokenProvider::new(oauth_session(), test_token_set());
    provider.invalidate_access_token("rejected-secret-token");

    assert!(provider
        .rejected_access_tokens
        .contains("rejected-secret-token"));
    assert!(!provider.debug_text().contains("rejected-secret-token"));
}

fn header(response: &CallbackResponse, name: &str) -> Option<&'static str> {
    response
        .headers
        .iter()
        .find(|(key, _)| *key == name)
        .map(|(_, value)| *value)
}

#[test]
fn callback_rejects_wrong_state_without_consuming_code_receiver() {
    let mut state = CallbackState {
        expected_state: "expected".to_owned(),
        completed: false,
        completion_url: None,
    };

    let rejected = handle_callback(
        &mut state,
        &CallbackQuery {
            code: Some("wrong-code".to_owned()),
            error: None,
            error_description: None,
            state: Some("wrong".to_owned()),
        },
    );
    assert_eq!(rejected.response.status, 400);
    assert!(rejected.delivered.is_none());

    let accepted = handle_callback(
        &mut state,
        &CallbackQuery {
            code: Some("right-code".to_owned()),
            error: None,
            error_description: None,
            state: Some("expected".to_owned()),
        },
    );
    assert_eq!(accepted.response.status, 200);
    assert_eq!(header(&accepted.response, "cache-control").unwrap(), "no-store");
    assert_eq!(
        header(&accepted.response, "referrer-policy").unwrap(),
        "no-referrer"
    );
    assert_eq!(accepted.delivered.unwrap().unwrap(), "right-code");
}

#[test]
fn callback_redirects_browser_to_website_without_exposing_code() {
    let mut state = CallbackState {
        expected_state: "expected".to_owned(),
        completed: false,
        completion_url: Some(Url::parse("https://staging.s2.dev/cli/login").unwrap()),
    };
    let reply = handle_callback(
        &mut state,
        &CallbackQuery {
            code: Some("secret-code".to_owned()),
            error: None,
            error_description: None,
            state: Some("expected".to_owned()),
        },
    );

    assert_eq!(reply.response.status, 303);
    let location = reply.response.location.unwrap();
    assert_eq!(
        location,
        "https://staging.s2.dev/cli/login?status=authorized"
    );
    assert!(!location.contains("secret-code"));
    assert_eq!(reply.delivered.unwrap().unwrap(), "secret-code");
}

#[test]
fn callback_surfaces_provider_denial() {
    let mut state = CallbackState {
        expected_state: "expected".to_owned(),
        completed: false,
        completion_url: None,
    };
    let denied = handle_callback(
        &mut state,
        &CallbackQuery {
            code: None,
            error: Some("access_denied".to_owned()),
            error_description: Some("The user denied access".to_owned()),
            state: Some("expected".to_owned()),
        },
    );
    assert_eq!(denied.response.status, 400);
    assert_eq!(
        denied.delivered.unwrap().unwrap_err(),
        "access_denied: The user denied access"
    );
}

#[test]
fn refresh_token_rotation_is_optional() {
    for (returned, expected) in [(None, "old-refresh"), (Some("new-refresh"), "new-refresh")] {
        let response = TokenResponse {
            access_token: "new-access".to_owned(),
            refresh_token: returned.map(str::to_owned),
            expires_in: 3_600,
            token_type: "Bearer".to_owned(),
            scope: Some(OAUTH_SCOPES.to_owned()),
        };
        let tokens = match token_set(response, Some("old-refresh"), Some(1_700_000_000)) {
            Ok(tokens) => tokens,
            Err(error) => panic!("{}", error.message()),
        };
        assert_eq!(tokens.refresh_token.expose(), expected);
    }
}

/// The error code that the body of a response holds.
fn error_code(body: &[u8]) -> Option<String> {
    let value: serde_json::Value = serde_json::from_slice(body).ok()?;
    Some(value.get("error")?.as_str()?.to_owned())
}

#[test]
fn oauth_errors_do_not_echo_provider_payloads() {
    for (body, expected) in [
        (
            br#"{"error":"invalid_grant","error_description":"super-secret"}"#.as_slice(),
            "invalid_grant",
        ),
        (
            br#"{"error":"super-secret-refresh-token","error_description":"also-secret"}"#
                .as_slice(),
            "unknown error",
        ),
        (
            b"provider accidentally echoed super-secret-refresh-token".as_slice(),
            "unknown error",
        ),
    ] {
        let error = oauth_rejection("token refresh", 400, error_code(body).as_deref());
        assert!(matches!(
            error,
            LoginError::Rejected { message, .. }
                if message == expected && !message.contains("secret")
        ));
    }
}
