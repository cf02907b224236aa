//! Tokens in a credential store, and the login that they are bound to.

use vstd::prelude::*;

use crate::config::{OAuthSession, SessionView};
use crate::error::LoginError;
use crate::text::same_text;
use crate::token::{Secret, TokenSet, TokenSetView};

verus! {

pub const OAUTH_CREDENTIAL_KIND: &'static str = "s2_oauth";

pub const CREDENTIAL_VERSION: u8 = 1;

/// What a credential store keeps of a login.
pub struct StoredTokenSet {
    pub version: u8,
    pub kind: String,
    pub credential_id: String,
    pub issuer: String,
    pub client_id: String,
    pub access_token: String,
    pub refresh_token: String,
    pub expires_at: u64,
}

/// What a `StoredTokenSet` says.
pub struct StoredView {
    pub version: u8,
    pub kind: Seq<char>,
    pub credential_id: Seq<char>,
    pub issuer: Seq<char>,
    pub client_id: Seq<char>,
    pub tokens: TokenSetView,
}

impl View for StoredTokenSet {
    type V = StoredView;

    open spec fn view(&self) -> StoredView {
        StoredView {
            version: self.version,
            kind: self.kind@,
            credential_id: self.credential_id@,
            issuer: self.issuer@,
            client_id: self.client_id@,
            tokens: TokenSetView {
                access_token: self.access_token@,
                refresh_token: self.refresh_token@,
                expires_at: self.expires_at,
            },
        }
    }
}

/// What is stored of the tokens of a login.
pub open spec fn stored(session: SessionView, tokens: TokenSetView) -> StoredView {
    StoredView {
        version: CREDENTIAL_VERSION,
        kind: OAUTH_CREDENTIAL_KIND@,
        credential_id: session.credential_id,
        issuer: session.issuer,
        client_id: session.client_id,
        tokens,
    }
}

/// What is to be stored of the tokens of a login.
pub fn stored_token_set(session: &OAuthSession, tokens: &TokenSet) -> (result: StoredTokenSet)
    ensures
        result@ == stored(session@, tokens@),
{
    StoredTokenSet {
        version: CREDENTIAL_VERSION,
        kind: OAUTH_CREDENTIAL_KIND.to_owned(),
        credential_id: session.credential_id.clone(),
        issuer: session.issuer.clone(),
        client_id: session.client_id.clone(),
        access_token: tokens.access_token.expose().to_owned(),
        refresh_token: tokens.refresh_token.expose().to_owned(),
        expires_at: tokens.expires_at,
    }
}

/// What is stored belongs to the login: it is of this kind and version, and it
/// names the credential, the issuer and the client of the login.
pub open spec fn bound_to(stored: StoredView, session: SessionView) -> bool {
    &&& stored.version == CREDENTIAL_VERSION
    &&& stored.kind == OAUTH_CREDENTIAL_KIND@
    &&& stored.credential_id == session.credential_id
    &&& stored.issuer == session.issuer
    &&& stored.client_id == session.client_id
}

/// Tokens that can be used.
pub open spec fn usable(tokens: TokenSetView) -> bool {
    tokens.access_token.len() > 0 && tokens.refresh_token.len() > 0
}

/// The tokens of a login, from what is stored: `parsed` is what the bytes in the
/// store say, or why they cannot be read. Tokens of another login are refused,
/// and so are empty ones.
pub fn decode_credentials(session: &OAuthSession, parsed: Result<StoredTokenSet, String>) -> (result:
    Result<TokenSet, LoginError>)
    ensures
        match parsed {
            Ok(stored) => if bound_to(stored@, session@) && usable(stored@.tokens) {
                result matches Ok(tokens) && tokens@ == stored@.tokens
            } else {
                result matches Err(error) && error is CredentialBindingMismatch
            },
            Err(reason) => result == Err::<TokenSet, LoginError>(
                LoginError::ParseCredentials(reason),
            ),
        },
{
    let stored = match parsed {
        Ok(stored) => stored,
        Err(reason) => {
            return Err(LoginError::ParseCredentials(reason));
        },
    };
    if stored.version != CREDENTIAL_VERSION || !same_text(
        stored.kind.as_str(),
        OAUTH_CREDENTIAL_KIND,
    ) || stored.credential_id != session.credential_id || stored.issuer != session.issuer
        || stored.client_id != session.client_id {
        return Err(LoginError::CredentialBindingMismatch);
    }
    if stored.access_token.as_str().is_empty() || stored.refresh_token.as_str().is_empty() {
        return Err(LoginError::CredentialBindingMismatch);
    }
    Ok(
        TokenSet {
            access_token: Secret::new(stored.access_token),
            refresh_token: Secret::new(stored.refresh_token),
            expires_at: stored.expires_at,
        },
    )
}

/// What is stored of a login is what is read back for the same login.
pub proof fn law_stored_tokens_are_read_back(session: SessionView, tokens: TokenSetView)
    requires
        usable(tokens),
    ensures
        bound_to(stored(session, tokens), session),
        usable(stored(session, tokens).tokens),
        stored(session, tokens).tokens == tokens,
{
}

/// What is stored of one login is not read for another: the credential, the
/// issuer and the client have to be the same.
pub proof fn law_stored_tokens_are_bound(
    session: SessionView,
    other: SessionView,
    tokens: TokenSetView,
)
    ensures
        bound_to(stored(session, tokens), other) <==> (session.credential_id == other.credential_id
            && session.issuer == other.issuer && session.client_id == other.client_id),
{
}

/// What is stored is marked as version 1 of its kind, and is read for a login only if
/// it is so marked and names that login's credential, issuer and client.
pub proof fn law_stored_tokens_are_marked(
    session: SessionView,
    tokens: TokenSetView,
    found: StoredView,
)
    ensures
        stored(session, tokens) == (StoredView {
            version: 1,
            kind: "s2_oauth"@,
            credential_id: session.credential_id,
            issuer: session.issuer,
            client_id: session.client_id,
            tokens,
        }),
        bound_to(found, session) <==> found == stored(session, found.tokens),
        usable(tokens) <==> tokens.access_token != Seq::<char>::empty() && tokens.refresh_token
            != Seq::<char>::empty(),
{
    if tokens.access_token.len() == 0 {
        assert(tokens.access_token =~= Seq::<char>::empty());
    }
    if tokens.refresh_token.len() == 0 {
        assert(tokens.refresh_token =~= Seq::<char>::empty());
    }
}

}
