//! What a provider says of itself, and whether a login can go there.

use vstd::prelude::*;

use crate::error::LoginError;
use crate::text::{any_text, contains_text};
use crate::token::OAUTH_SCOPES;
use crate::url::{
    can_extend, origin_of, params_view, same_origin, text_view, url_join, url_of, url_with_params, Url,
    UrlView,
};

verus! {

/// What a provider says of itself.
#[derive(Debug)]
pub struct AuthorizationServerMetadata {
    pub issuer: String,
    pub authorization_endpoint: String,
    pub token_endpoint: String,
    pub revocation_endpoint: Option<String>,
    pub response_types_supported: Vec<String>,
    pub grant_types_supported: Vec<String>,
    pub token_endpoint_auth_methods_supported: Vec<String>,
    pub scopes_supported: Vec<String>,
    pub code_challenge_methods_supported: Vec<String>,
}

/// Where the requests of a login go.
pub struct OAuthEndpoints {
    pub issuer: Url,
    pub authorization: Url,
    pub token: Url,
    pub revocation: Url,
}

/// What an `OAuthEndpoints` holds.
pub struct EndpointsView {
    pub issuer: UrlView,
    pub authorization: UrlView,
    pub token: UrlView,
    pub revocation: UrlView,
}

impl View for OAuthEndpoints {
    type V = EndpointsView;

    open spec fn view(&self) -> EndpointsView {
        EndpointsView {
            issuer: self.issuer@,
            authorization: self.authorization@,
            token: self.token@,
            revocation: self.revocation@,
        }
    }
}

impl OAuthEndpoints {
    pub fn duplicate(&self) -> (copy: OAuthEndpoints)
        ensures
            copy == *self,
    {
        OAuthEndpoints {
            issuer: self.issuer.duplicate(),
            authorization: self.authorization.duplicate(),
            token: self.token.duplicate(),
            revocation: self.revocation.duplicate(),
        }
    }
}

/// `error` says that the metadata cannot be used, and why.
pub open spec fn refuses_metadata(error: LoginError, reason: Seq<char>) -> bool {
    error matches LoginError::InvalidMetadata(said) && said@ == reason
}

/// What a login needs and the provider does not support, the first of it in the
/// order in which it is looked for.
pub open spec fn unsupported(metadata: AuthorizationServerMetadata) -> Option<Seq<char>> {
    if !contains_text(metadata.code_challenge_methods_supported@, "S256"@) {
        Some("the provider does not support PKCE S256"@)
    } else if !contains_text(metadata.response_types_supported@, "code"@) {
        Some("the provider does not support the code response type"@)
    } else if !contains_text(metadata.token_endpoint_auth_methods_supported@, "none"@) {
        Some("the provider does not support public OAuth clients"@)
    } else if !contains_text(metadata.grant_types_supported@, "authorization_code"@) {
        Some("the provider does not support the "@ + "authorization_code"@ + " grant"@)
    } else if !contains_text(metadata.grant_types_supported@, "refresh_token"@) {
        Some("the provider does not support the "@ + "refresh_token"@ + " grant"@)
    } else if !contains_text(metadata.scopes_supported@, "offline_access"@) {
        Some("the provider does not support the "@ + "offline_access"@ + " scope"@)
    } else if !contains_text(metadata.scopes_supported@, "user:org:read"@) {
        Some("the provider does not support the "@ + "user:org:read"@ + " scope"@)
    } else if metadata.revocation_endpoint is None {
        Some("the provider does not advertise token revocation"@)
    } else {
        None
    }
}

/// A refusal made of three texts.
fn refusal(first: &str, second: &str, third: &str) -> (error: LoginError)
    ensures
        refuses_metadata(error, first@ + second@ + third@),
{
    let mut reason = first.to_owned();
    reason.append(second);
    reason.append(third);
    LoginError::InvalidMetadata(reason)
}

/// Whether the provider supports all that a login needs.
pub fn check_support(metadata: &AuthorizationServerMetadata) -> (result: Result<(), LoginError>)
    ensures
        match unsupported(*metadata) {
            Some(reason) => result matches Err(error) && refuses_metadata(error, reason),
            None => result is Ok,
        },
{
    if !any_text(&metadata.code_challenge_methods_supported, "S256") {
        return Err(
            LoginError::InvalidMetadata("the provider does not support PKCE S256".to_owned()),
        );
    }
    if !any_text(&metadata.response_types_supported, "code") {
        return Err(
            LoginError::InvalidMetadata(
                "the provider does not support the code response type".to_owned(),
            ),
        );
    }
    if !any_text(&metadata.token_endpoint_auth_methods_supported, "none") {
        return Err(
            LoginError::InvalidMetadata(
                "the provider does not support public OAuth clients".to_owned(),
            ),
        );
    }
    if !any_text(&metadata.grant_types_supported, "authorization_code") {
        return Err(refusal("the provider does not support the ", "authorization_code", " grant"));
    }
    if !any_text(&metadata.grant_types_supported, "refresh_token") {
        return Err(refusal("the provider does not support the ", "refresh_token", " grant"));
    }
    if !any_text(&metadata.scopes_supported, "offline_access") {
        return Err(refusal("the provider does not support the ", "offline_access", " scope"));
    }
    if !any_text(&metadata.scopes_supported, "user:org:read") {
        return Err(refusal("the provider does not support the ", "user:org:read", " scope"));
    }
    if metadata.revocation_endpoint.is_none() {
        return Err(
            LoginError::InvalidMetadata(
                "the provider does not advertise token revocation".to_owned(),
            ),
        );
    }
    Ok(())
}

/// A URL of the issuer: of the same origin, without credentials and without a
/// fragment.
pub open spec fn belongs_to(endpoint: UrlView, issuer: UrlView) -> bool {
    &&& same_origin(endpoint, issuer)
    &&& endpoint.username.len() == 0
    &&& endpoint.password is None
    &&& endpoint.fragment is None
}

/// What is wrong with an endpoint that the metadata names in `field`.
pub open spec fn endpoint_refusal(
    issuer: UrlView,
    endpoint: Result<UrlView, Seq<char>>,
    field: Seq<char>,
) -> Option<Seq<char>> {
    match endpoint {
        Ok(endpoint) => if belongs_to(endpoint, issuer) {
            None
        } else {
            Some(field + " must use the OAuth issuer origin"@)
        },
        Err(reason) => Some("invalid "@ + field + ": "@ + reason),
    }
}

/// The endpoint, if it belongs to the issuer. `endpoint` is what the parser made
/// of what the metadata holds in `field`.
pub fn check_endpoint(issuer: &Url, endpoint: Result<Url, String>, field: &str) -> (result: Result<
    Url,
    LoginError,
>)
    ensures
        match endpoint_refusal(issuer@, crate::url::url_result_view(endpoint), field@) {
            Some(reason) => result matches Err(error) && refuses_metadata(error, reason),
            None => result matches Ok(url) && endpoint == Ok::<Url, String>(url),
        },
{
    let url = match endpoint {
        Ok(url) => url,
        Err(reason) => {
            let mut said = "invalid ".to_owned();
            said.append(field);
            said.append(": ");
            said.append(reason.as_str());
            return Err(LoginError::InvalidMetadata(said));
        },
    };
    if !url.same_origin(issuer) || !url.username().is_empty() || url.has_password()
        || url.has_fragment() {
        let mut said = field.to_owned();
        said.append(" must use the OAuth issuer origin");
        return Err(LoginError::InvalidMetadata(said));
    }
    Ok(url)
}

/// The endpoint that the metadata names in `field`, if it belongs to the issuer.
pub fn trusted_endpoint(issuer: &Url, raw: &str, field: &str) -> (result: Result<Url, LoginError>)
    ensures
        match endpoint_refusal(issuer@, url_of(raw@), field@) {
            Some(reason) => result matches Err(error) && refuses_metadata(error, reason),
            None => result matches Ok(url) && url_of(raw@) == Ok::<UrlView, Seq<char>>(url@),
        },
{
    check_endpoint(issuer, Url::parse(raw), field)
}

/// What is wrong with the metadata of the provider at `expected_issuer`.
pub open spec fn metadata_refusal(
    expected_issuer: UrlView,
    metadata: AuthorizationServerMetadata,
) -> Option<Seq<char>> {
    match url_of(metadata.issuer@) {
        Err(reason) => Some("invalid issuer: "@ + reason),
        Ok(issuer) => if issuer.text != expected_issuer.text {
            Some(
                "issuer mismatch: expected "@ + expected_issuer.text + ", received "@ + issuer.text,
            )
        } else if unsupported(metadata) is Some {
            unsupported(metadata)
        } else {
            let authorization = endpoint_refusal(
                expected_issuer,
                url_of(metadata.authorization_endpoint@),
                "authorization_endpoint"@,
            );
            let token = endpoint_refusal(
                expected_issuer,
                url_of(metadata.token_endpoint@),
                "token_endpoint"@,
            );
            let revocation = endpoint_refusal(
                expected_issuer,
                url_of(metadata.revocation_endpoint->0@),
                "revocation_endpoint"@,
            );
            if authorization is Some {
                authorization
            } else if token is Some {
                token
            } else {
                revocation
            }
        },
    }
}

/// The endpoints that the metadata names, for metadata that nothing is wrong with.
pub open spec fn endpoints_of(metadata: AuthorizationServerMetadata) -> EndpointsView {
    EndpointsView {
        issuer: url_of(metadata.issuer@)->Ok_0,
        authorization: url_of(metadata.authorization_endpoint@)->Ok_0,
        token: url_of(metadata.token_endpoint@)->Ok_0,
        revocation: url_of(metadata.revocation_endpoint->0@)->Ok_0,
    }
}

/// The endpoints of the provider, if its metadata is that of the expected issuer,
/// supports all that a login needs, and names endpoints of that issuer alone.
pub fn validate_metadata(expected_issuer: &Url, metadata: AuthorizationServerMetadata) -> (result:
    Result<OAuthEndpoints, LoginError>)
    ensures
        match metadata_refusal(expected_issuer@, metadata) {
            Some(reason) => result matches Err(error) && refuses_metadata(error, reason),
            None => result matches Ok(endpoints) && endpoints@ == endpoints_of(metadata),
        },
{
    let issuer = match Url::parse(metadata.issuer.as_str()) {
        Ok(issuer) => issuer,
        Err(reason) => {
            let mut said = "invalid issuer: ".to_owned();
            said.append(reason.as_str());
            return Err(LoginError::InvalidMetadata(said));
        },
    };
    if !issuer.same(expected_issuer) {
        let mut said = "issuer mismatch: expected ".to_owned();
        said.append(expected_issuer.as_str());
        said.append(", received ");
        said.append(issuer.as_str());
        return Err(LoginError::InvalidMetadata(said));
    }
    match check_support(&metadata) {
        Ok(()) => {},
        Err(error) => {
            return Err(error);
        },
    }
    let revocation_endpoint: &str = match &metadata.revocation_endpoint {
        Some(endpoint) => endpoint.as_str(),
        None => "",
    };
    let authorization = match trusted_endpoint(
        expected_issuer,
        metadata.authorization_endpoint.as_str(),
        "authorization_endpoint",
    ) {
        Ok(endpoint) => endpoint,
        Err(error) => {
            return Err(error);
        },
    };
    let token = match trusted_endpoint(
        expected_issuer,
        metadata.token_endpoint.as_str(),
        "token_endpoint",
    ) {
        Ok(endpoint) => endpoint,
        Err(error) => {
            return Err(error);
        },
    };
    let revocation = match trusted_endpoint(
        expected_issuer,
        revocation_endpoint,
        "revocation_endpoint",
    ) {
        Ok(endpoint) => endpoint,
        Err(error) => {
            return Err(error);
        },
    };
    Ok(OAuthEndpoints { issuer, authorization, token, revocation })
}

/// Where the provider keeps its metadata.
pub fn discovery_url(issuer: &Url) -> (result: Result<String, String>)
    ensures
        text_view(result) == url_join(issuer@.source, "/.well-known/oauth-authorization-server"@),
{
    issuer.join("/.well-known/oauth-authorization-server")
}

/// The query of the page where the user authorizes the login.
pub open spec fn authorization_params(
    client_id: Seq<char>,
    callback_url: Seq<char>,
    state: Seq<char>,
    code_challenge: Seq<char>,
) -> Seq<(Seq<char>, Seq<char>)> {
    seq![
        ("response_type"@, "code"@),
        ("client_id"@, client_id),
        ("redirect_uri"@, callback_url),
        ("scope"@, OAUTH_SCOPES@),
        ("state"@, state),
        ("code_challenge"@, code_challenge),
        ("code_challenge_method"@, "S256"@),
    ]
}

/// The page where the user authorizes the login.
pub fn authorization_url(
    authorization_endpoint: &Url,
    client_id: &str,
    callback_url: &str,
    state: &str,
    code_challenge: &str,
) -> (page: String)
    requires
        can_extend(
            authorization_endpoint@.text,
            authorization_endpoint@.query,
            authorization_endpoint@.fragment,
            authorization_params(client_id@, callback_url@, state@, code_challenge@),
        ),
    ensures
        url_with_params(
            authorization_endpoint@.source,
            authorization_params(client_id@, callback_url@, state@, code_challenge@),
        ) == Ok::<Seq<char>, Seq<char>>(page@),
{
    let params: Vec<(&str, &str)> = vec![
        ("response_type", "code"),
        ("client_id", client_id),
        ("redirect_uri", callback_url),
        ("scope", OAUTH_SCOPES),
        ("state", state),
        ("code_challenge", code_challenge),
        ("code_challenge_method", "S256"),
    ];
    assert(params_view(params@) =~= authorization_params(
        client_id@,
        callback_url@,
        state@,
        code_challenge@,
    ));
    authorization_endpoint.with_query(&params)
}

/// All endpoints that a login uses share the origin of the issuer that was asked
/// for, and the provider can revoke what it grants.
pub proof fn law_endpoints_stay_with_the_issuer(
    expected_issuer: UrlView,
    metadata: AuthorizationServerMetadata,
)
    requires
        metadata_refusal(expected_issuer, metadata) is None,
    ensures
        ({
            let endpoints = endpoints_of(metadata);
            &&& endpoints.issuer.text == expected_issuer.text
            &&& belongs_to(endpoints.authorization, expected_issuer)
            &&& belongs_to(endpoints.token, expected_issuer)
            &&& belongs_to(endpoints.revocation, expected_issuer)
            &&& metadata.revocation_endpoint is Some
        }),
{
}

/// Metadata is accepted exactly if its issuer is written out like the expected one, it
/// offers PKCE with SHA-256, codes, public clients, both grants and both scopes, and
/// each of its three endpoints is a URL of the origin of the expected issuer, without
/// credentials and without a fragment.
pub proof fn law_accepted_metadata_offers_all(
    expected_issuer: UrlView,
    metadata: AuthorizationServerMetadata,
)
    ensures
        metadata_refusal(expected_issuer, metadata) is None <==> {
            &&& url_of(metadata.issuer@) matches Ok(issuer) && issuer.text == expected_issuer.text
            &&& lists(metadata.code_challenge_methods_supported, "S256"@)
            &&& lists(metadata.response_types_supported, "code"@)
            &&& lists(metadata.token_endpoint_auth_methods_supported, "none"@)
            &&& lists(metadata.grant_types_supported, "authorization_code"@)
            &&& lists(metadata.grant_types_supported, "refresh_token"@)
            &&& lists(metadata.scopes_supported, "offline_access"@)
            &&& lists(metadata.scopes_supported, "user:org:read"@)
            &&& is_at_home(metadata.authorization_endpoint@, expected_issuer)
            &&& is_at_home(metadata.token_endpoint@, expected_issuer)
            &&& metadata.revocation_endpoint matches Some(endpoint) && is_at_home(
                endpoint@,
                expected_issuer,
            )
        },
{
}

/// One of the texts of a list.
pub open spec fn lists(texts: Vec<String>, sought: Seq<char>) -> bool {
    exists|i: int| 0 <= i < texts@.len() && (#[trigger] texts@[i])@ == sought
}

/// A text is a URL of the origin of an issuer, without credentials and without a
/// fragment.
pub open spec fn is_at_home(text: Seq<char>, issuer: UrlView) -> bool {
    url_of(text) matches Ok(url) && {
        &&& origin_of(issuer) is Some
        &&& origin_of(url) == origin_of(issuer)
        &&& url.username.len() == 0
        &&& url.password is None
        &&& url.fragment is None
    }
}

/// The endpoints of accepted metadata are the URLs that it names, each in its place.
pub proof fn law_endpoints_are_those_named(
    expected_issuer: UrlView,
    metadata: AuthorizationServerMetadata,
)
    requires
        metadata_refusal(expected_issuer, metadata) is None,
    ensures
        ({
            let endpoints = endpoints_of(metadata);
            &&& endpoints.issuer.source == metadata.issuer@
            &&& url_of(metadata.issuer@) == Ok::<UrlView, Seq<char>>(endpoints.issuer)
            &&& endpoints.authorization.source == metadata.authorization_endpoint@
            &&& url_of(metadata.authorization_endpoint@) == Ok::<UrlView, Seq<char>>(
                endpoints.authorization,
            )
            &&& endpoints.token.source == metadata.token_endpoint@
            &&& url_of(metadata.token_endpoint@) == Ok::<UrlView, Seq<char>>(endpoints.token)
            &&& metadata.revocation_endpoint matches Some(text) && endpoints.revocation.source
                == text@ && url_of(text@) == Ok::<UrlView, Seq<char>>(endpoints.revocation)
        }),
{
}

/// Metadata is refused for the first thing that is wrong with it: the issuer, then the
/// challenge, the response type, the clients, the two grants, the two scopes, the
/// revocation, and then the endpoints in order.
pub proof fn law_metadata_is_refused_for_the_first_fault(
    expected_issuer: UrlView,
    metadata: AuthorizationServerMetadata,
)
    ensures
        ({
            let refusal = metadata_refusal(expected_issuer, metadata);
            let challenge = lists(metadata.code_challenge_methods_supported, "S256"@);
            let response = challenge && lists(metadata.response_types_supported, "code"@);
            let clients = response && lists(
                metadata.token_endpoint_auth_methods_supported,
                "none"@,
            );
            let codes = clients && lists(metadata.grant_types_supported, "authorization_code"@);
            let refreshes = codes && lists(metadata.grant_types_supported, "refresh_token"@);
            let offline = refreshes && lists(metadata.scopes_supported, "offline_access"@);
            let scopes = offline && lists(metadata.scopes_supported, "user:org:read"@);
            let revocation = scopes && metadata.revocation_endpoint is Some;
            let grant = "the provider does not support the "@;
            &&& url_of(metadata.issuer@) matches Err(reason) ==> refusal == Some(
                "invalid issuer: "@ + reason,
            )
            &&& url_of(metadata.issuer@) matches Ok(issuer) ==> {
                &&& issuer.text != expected_issuer.text ==> refusal == Some(
                    "issuer mismatch: expected "@ + expected_issuer.text + ", received "@
                        + issuer.text,
                )
                &&& issuer.text == expected_issuer.text ==> {
                    &&& !challenge ==> refusal == Some("the provider does not support PKCE S256"@)
                    &&& challenge && !response ==> refusal == Some(
                        "the provider does not support the code response type"@,
                    )
                    &&& response && !clients ==> refusal == Some(
                        "the provider does not support public OAuth clients"@,
                    )
                    &&& clients && !codes ==> refusal == Some(
                        grant + "authorization_code"@ + " grant"@,
                    )
                    &&& codes && !refreshes ==> refusal == Some(
                        grant + "refresh_token"@ + " grant"@,
                    )
                    &&& refreshes && !offline ==> refusal == Some(
                        grant + "offline_access"@ + " scope"@,
                    )
                    &&& offline && !scopes ==> refusal == Some(
                        grant + "user:org:read"@ + " scope"@,
                    )
                    &&& scopes && !revocation ==> refusal == Some(
                        "the provider does not advertise token revocation"@,
                    )
                    &&& revocation && !is_at_home(
                        metadata.authorization_endpoint@,
                        expected_issuer,
                    ) ==> refusal == Some(
                        fault_of(metadata.authorization_endpoint@, "authorization_endpoint"@),
                    )
                    &&& revocation && is_at_home(metadata.authorization_endpoint@, expected_issuer)
                        && !is_at_home(metadata.token_endpoint@, expected_issuer) ==> refusal
                        == Some(fault_of(metadata.token_endpoint@, "token_endpoint"@))
                    &&& revocation && is_at_home(metadata.authorization_endpoint@, expected_issuer)
                        && is_at_home(metadata.token_endpoint@, expected_issuer) && !is_at_home(
                        metadata.revocation_endpoint->0@,
                        expected_issuer,
                    ) ==> refusal == Some(
                        fault_of(metadata.revocation_endpoint->0@, "revocation_endpoint"@),
                    )
                }
            }
        }),
{
}

/// What is wrong with a text as an endpoint: it is no URL, or not one of the issuer.
pub open spec fn fault_of(text: Seq<char>, field: Seq<char>) -> Seq<char> {
    match url_of(text) {
        Err(reason) => "invalid "@ + field + ": "@ + reason,
        Ok(_) => field + " must use the OAuth issuer origin"@,
    }
}

}
