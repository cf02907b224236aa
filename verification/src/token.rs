//! Tokens: what the provider hands out, and what is made of it.

use secrecy::zeroize::Zeroize as _;
use vstd::prelude::*;

use crate::error::LoginError;
use crate::text::{
    contains_word, equal_ignoring_ascii_case, equals_ignoring_ascii_case, has_word, str_view,
};

verus! {

/// The scopes that a login asks for.
pub const OAUTH_SCOPES: &'static str = "offline_access user:org:read";

/// How long before it expires a token is refreshed, in seconds.
pub const REFRESH_SKEW_SECONDS: u64 = 60;

/// `Zeroize::zeroize` of `String`, from the crate that `secrecy` wipes its secrets
/// with: the memory of the text is overwritten, and the text is empty afterwards.
/// What is in memory is beyond what a contract can say here.
#[verifier::external_body]
fn wipe(text: &mut String)
    ensures
        final(text)@ == Seq::<char>::empty(),
    opens_invariants none
    no_unwind
{
    text.zeroize();
}

/// A text that is not to be shown, and that is wiped from memory in the end.
pub struct Secret {
    value: String,
}

impl Drop for Secret {
    fn drop(&mut self)
        opens_invariants none
        no_unwind
    {
        wipe(&mut self.value);
    }
}

impl View for Secret {
    type V = Seq<char>;

    closed spec fn view(&self) -> Seq<char> {
        self.value@
    }
}

impl Secret {
    pub fn new(value: String) -> (secret: Secret)
        ensures
            secret@ == value@,
    {
        Secret { value }
    }

    /// The text itself.
    pub fn expose(&self) -> (value: &str)
        ensures
            value@ == self@,
    {
        self.value.as_str()
    }

    pub fn duplicate(&self) -> (copy: Secret)
        ensures
            copy == *self,
    {
        Secret { value: self.value.clone() }
    }
}

/// The tokens of a login.
pub struct TokenSet {
    pub access_token: Secret,
    pub refresh_token: Secret,
    /// When the access token expires, in seconds since 1970.
    pub expires_at: u64,
}

/// What a `TokenSet` holds.
pub struct TokenSetView {
    pub access_token: Seq<char>,
    pub refresh_token: Seq<char>,
    pub expires_at: u64,
}

impl View for TokenSet {
    type V = TokenSetView;

    open spec fn view(&self) -> TokenSetView {
        TokenSetView {
            access_token: self.access_token@,
            refresh_token: self.refresh_token@,
            expires_at: self.expires_at,
        }
    }
}

impl TokenSet {
    pub fn duplicate(&self) -> (copy: TokenSet)
        ensures
            copy == *self,
    {
        TokenSet {
            access_token: self.access_token.duplicate(),
            refresh_token: self.refresh_token.duplicate(),
            expires_at: self.expires_at,
        }
    }
}

/// What the token endpoint answers.
pub struct TokenResponse {
    pub access_token: String,
    pub refresh_token: Option<String>,
    pub expires_in: u64,
    pub token_type: String,
    pub scope: Option<String>,
}

/// The words of `OAUTH_SCOPES`.
pub open spec fn required_scopes() -> Seq<Seq<char>> {
    seq!["offline_access"@, "user:org:read"@]
}

/// A scope that is asked for and that the response does not grant, the first of
/// them in the order in which they are asked for. A response without scopes
/// grants all that was asked for.
pub open spec fn missing_scope(scope: Option<String>) -> Option<Seq<char>> {
    match scope {
        Some(scope) => if !has_word(scope@, "offline_access"@) {
            Some("offline_access"@)
        } else if !has_word(scope@, "user:org:read"@) {
            Some("user:org:read"@)
        } else {
            None
        },
        None => None,
    }
}

/// The refresh token that holds after a response: the one that it brings, or
/// the previous one where it brings none or an empty one.
pub open spec fn next_refresh_token(
    response: TokenResponse,
    previous_refresh_token: Option<Seq<char>>,
) -> Option<Seq<char>> {
    match response.refresh_token {
        Some(token) => if token@.len() > 0 {
            Some(token@)
        } else {
            previous_refresh_token
        },
        None => previous_refresh_token,
    }
}

/// What is wrong with a response of the token endpoint, at a given time. `now`
/// is `None` where the clock stands before 1970.
pub open spec fn token_refusal(
    response: TokenResponse,
    previous_refresh_token: Option<Seq<char>>,
    now: Option<u64>,
) -> Option<Seq<char>> {
    if response.access_token@.len() == 0 {
        Some("access_token was empty"@)
    } else if !equal_ignoring_ascii_case(response.token_type@, "bearer"@) {
        Some("token_type was not bearer"@)
    } else if response.expires_in == 0 {
        Some("expires_in was zero"@)
    } else if missing_scope(response.scope) is Some {
        Some("the "@ + missing_scope(response.scope)->0 + " scope was not granted"@)
    } else if next_refresh_token(response, previous_refresh_token) is None {
        Some("refresh_token was missing"@)
    } else if now is None {
        Some("system clock is before 1970"@)
    } else if now->0 + response.expires_in > u64::MAX {
        Some("expires_in overflowed"@)
    } else {
        None
    }
}

/// The clock stands before 1970.
fn clock_error() -> (error: LoginError)
    ensures
        error matches LoginError::InvalidTokenResponse(reason) && reason@
            == "system clock is before 1970"@,
{
    LoginError::InvalidTokenResponse("system clock is before 1970".to_owned())
}

/// The refusal of a scope.
fn scope_error(scope: &str) -> (error: LoginError)
    ensures
        error matches LoginError::InvalidTokenResponse(reason) && reason@ == "the "@ + scope@
            + " scope was not granted"@,
{
    let mut reason = "the ".to_owned();
    reason.append(scope);
    reason.append(" scope was not granted");
    LoginError::InvalidTokenResponse(reason)
}

/// The tokens that a response of the token endpoint brings, or what is wrong
/// with it. The previous refresh token is kept where the response brings no
/// other; `now` is the time, in seconds since 1970.
pub fn token_set(
    response: TokenResponse,
    previous_refresh_token: Option<&str>,
    now: Option<u64>,
) -> (result: Result<TokenSet, LoginError>)
    ensures
        match token_refusal(response, str_view(previous_refresh_token), now) {
            Some(reason) => result matches Err(LoginError::InvalidTokenResponse(said)) && said@
                == reason,
            None => result matches Ok(tokens) && tokens@ == (TokenSetView {
                access_token: response.access_token@,
                refresh_token: next_refresh_token(response, str_view(previous_refresh_token))->0,
                expires_at: (now->0 + response.expires_in) as u64,
            }),
        },
{
    if response.access_token.as_str().is_empty() {
        return Err(LoginError::InvalidTokenResponse("access_token was empty".to_owned()));
    }
    if !equals_ignoring_ascii_case(response.token_type.as_str(), "bearer") {
        return Err(LoginError::InvalidTokenResponse("token_type was not bearer".to_owned()));
    }
    if response.expires_in == 0 {
        return Err(LoginError::InvalidTokenResponse("expires_in was zero".to_owned()));
    }
    if let Some(scope) = &response.scope {
        proof {
            reveal_strlit("offline_access");
            reveal_strlit("user:org:read");
        }
        if !contains_word(scope.as_str(), "offline_access") {
            return Err(scope_error("offline_access"));
        }
        if !contains_word(scope.as_str(), "user:org:read") {
            return Err(scope_error("user:org:read"));
        }
    }
    let brings_refresh_token = match &response.refresh_token {
        Some(token) => !token.as_str().is_empty(),
        None => false,
    };
    let refresh_token = match (&response.refresh_token, previous_refresh_token) {
        (Some(token), _) if brings_refresh_token => token.clone(),
        (_, Some(previous)) => previous.to_owned(),
        _ => {
            return Err(LoginError::InvalidTokenResponse("refresh_token was missing".to_owned()));
        },
    };
    let now = match now {
        Some(now) => now,
        None => {
            return Err(clock_error());
        },
    };
    match now.checked_add(response.expires_in) {
        Some(expires_at) => Ok(
            TokenSet {
                access_token: Secret::new(response.access_token),
                refresh_token: Secret::new(refresh_token),
                expires_at,
            },
        ),
        None => Err(LoginError::InvalidTokenResponse("expires_in overflowed".to_owned())),
    }
}

/// A token that is still good for more than a minute.
pub open spec fn fresh(tokens: TokenSetView, now: u64) -> bool {
    tokens.expires_at > (if now + REFRESH_SKEW_SECONDS > u64::MAX {
        u64::MAX as int
    } else {
        now + REFRESH_SKEW_SECONDS
    })
}

/// Whether the access token is still good for more than a minute. `now` is
/// `None` where the clock stands before 1970.
pub fn token_is_fresh(tokens: &TokenSet, now: Option<u64>) -> (result: Result<bool, LoginError>)
    ensures
        match now {
            Some(now) => result == Ok::<bool, LoginError>(fresh(tokens@, now)),
            None => result matches Err(LoginError::InvalidTokenResponse(reason)) && reason@
                == "system clock is before 1970"@,
        },
{
    match now {
        Some(now) => Ok(tokens.expires_at > now.saturating_add(REFRESH_SKEW_SECONDS)),
        None => Err(clock_error()),
    }
}

/// A form, by the characters of its fields.
pub open spec fn form_view(form: Seq<(&str, &str)>) -> Seq<(Seq<char>, Seq<char>)> {
    form.map_values(|field: (&str, &str)| (field.0@, field.1@))
}

/// The form that exchanges an authorization code for tokens.
pub fn exchange_form<'a>(
    client_id: &'a str,
    callback_url: &'a str,
    code: &'a str,
    code_verifier: &'a str,
) -> (form: Vec<(&'a str, &'a str)>)
    ensures
        form_view(form@) == seq![
            ("grant_type"@, "authorization_code"@),
            ("client_id"@, client_id@),
            ("code"@, code@),
            ("redirect_uri"@, callback_url@),
            ("code_verifier"@, code_verifier@),
        ],
{
    let form: Vec<(&'a str, &'a str)> = vec![
        ("grant_type", "authorization_code"),
        ("client_id", client_id),
        ("code", code),
        ("redirect_uri", callback_url),
        ("code_verifier", code_verifier),
    ];
    assert(form_view(form@) =~= seq![
        ("grant_type"@, "authorization_code"@),
        ("client_id"@, client_id@),
        ("code"@, code@),
        ("redirect_uri"@, callback_url@),
        ("code_verifier"@, code_verifier@),
    ]);
    form
}

/// The form that asks for new tokens.
pub fn refresh_form<'a>(client_id: &'a str, refresh_token: &'a str) -> (form: Vec<
    (&'a str, &'a str),
>)
    ensures
        form_view(form@) == seq![
            ("grant_type"@, "refresh_token"@),
            ("client_id"@, client_id@),
            ("refresh_token"@, refresh_token@),
        ],
{
    let form: Vec<(&'a str, &'a str)> = vec![
        ("grant_type", "refresh_token"),
        ("client_id", client_id),
        ("refresh_token", refresh_token),
    ];
    assert(form_view(form@) =~= seq![
        ("grant_type"@, "refresh_token"@),
        ("client_id"@, client_id@),
        ("refresh_token"@, refresh_token@),
    ]);
    form
}

/// The form that revokes a grant.
pub fn revocation_form<'a>(client_id: &'a str, refresh_token: &'a str) -> (form: Vec<
    (&'a str, &'a str),
>)
    ensures
        form_view(form@) == seq![
            ("token"@, refresh_token@),
            ("token_type_hint"@, "refresh_token"@),
            ("client_id"@, client_id@),
        ],
{
    let form: Vec<(&'a str, &'a str)> = vec![
        ("token", refresh_token),
        ("token_type_hint", "refresh_token"),
        ("client_id", client_id),
    ];
    assert(form_view(form@) =~= seq![
        ("token"@, refresh_token@),
        ("token_type_hint"@, "refresh_token"@),
        ("client_id"@, client_id@),
    ]);
    form
}

/// The scopes that a login asks for are the words of `OAUTH_SCOPES`, and those
/// that a response has to grant are the same.
pub proof fn law_required_scopes_are_requested(scope: Seq<char>)
    ensures
        crate::text::is_word(scope) ==> (has_word(OAUTH_SCOPES@, scope)
            <==> required_scopes().contains(scope)),
{
    reveal_strlit("offline_access user:org:read");
    reveal_strlit("offline_access");
    reveal_strlit("user:org:read");
    let all = OAUTH_SCOPES@;
    assert(all.subrange(0, 14) =~= "offline_access"@);
    assert(all.subrange(15, 28) =~= "user:org:read"@);
    assert(crate::text::word_at(all, "offline_access"@, 0, 14));
    assert(crate::text::word_at(all, "user:org:read"@, 15, 28));
    assert(required_scopes()[0] == "offline_access"@);
    assert(required_scopes()[1] == "user:org:read"@);
    if crate::text::is_word(scope) && has_word(all, scope) {
        let (from, to) = choose|from: int, to: int| #[trigger]
            crate::text::word_at(all, scope, from, to);
        assert(forall|i: int| from <= i < to ==> !crate::text::ascii_white_space(all[i])) by {
            assert forall|i: int| from <= i < to implies !crate::text::ascii_white_space(
                all[i],
            ) by {
                assert(scope[i - from] == all[i]);
            }
        }
        if from <= 14 && 14 < to {
            assert(crate::text::ascii_white_space(all[14]));
        }
    }
}

/// Tokens that a response brings are fresh right away exactly if they are good
/// for more than a minute.
pub proof fn law_new_tokens_are_fresh(
    response: TokenResponse,
    previous_refresh_token: Option<Seq<char>>,
    now: u64,
    tokens: TokenSetView,
)
    requires
        token_refusal(response, previous_refresh_token, Some(now)) is None,
        tokens.expires_at == now + response.expires_in,
    ensures
        fresh(tokens, now) <==> response.expires_in > REFRESH_SKEW_SECONDS,
{
}

/// Tokens are fresh exactly while more than 60 seconds are left until they expire: an
/// expired token is never fresh, and one that is fresh was so at any earlier time.
pub proof fn law_fresh_means_a_minute_left(tokens: TokenSetView, now: u64, earlier: u64)
    ensures
        fresh(tokens, now) <==> now + 60 < tokens.expires_at,
        tokens.expires_at <= now ==> !fresh(tokens, now),
        fresh(tokens, now) && earlier <= now ==> fresh(tokens, earlier),
{
}

/// A refresh token that comes with a response is the one to keep; without one the
/// previous one stays, and an empty one counts for nothing.
pub proof fn law_refresh_tokens_rotate(response: TokenResponse, previous: Option<Seq<char>>)
    ensures
        response.refresh_token is None ==> next_refresh_token(response, previous) == previous,
        response.refresh_token matches Some(token) ==> {
            &&& token@.len() == 0 ==> next_refresh_token(response, previous) == previous
            &&& token@.len() > 0 ==> next_refresh_token(response, previous) == Some(token@)
        },
{
}

/// A response brings tokens exactly if it has an access token, is of the bearer type
/// in any case of its letters, lasts for some time that a clock can tell, withholds
/// none of the two scopes, and leaves a refresh token to use.
pub proof fn law_token_responses_are_complete(
    response: TokenResponse,
    previous: Option<Seq<char>>,
    now: Option<u64>,
)
    ensures
        token_refusal(response, previous, now) is None <==> {
            &&& response.access_token@.len() > 0
            &&& equal_ignoring_ascii_case(response.token_type@, "bearer"@)
            &&& response.expires_in >= 1
            &&& response.scope matches Some(scope) ==> has_word(scope@, "offline_access"@)
                && has_word(scope@, "user:org:read"@)
            &&& previous is Some || (response.refresh_token matches Some(token) && token@.len() > 0)
            &&& now matches Some(now) && now + response.expires_in <= 0xffff_ffff_ffff_ffff
        },
{
}

}
