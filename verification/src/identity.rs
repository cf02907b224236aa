//! Who a login is for, as far as its access token tells.

use vstd::prelude::*;

use crate::config::{OAuthSession, SessionView};
use crate::encoding::{base64url_decode, base64url_decoded};
use crate::text::{
    chars_of, is_piece, law_split_takes_the_last_piece, split_on, split_ranges, string_of,
};
use crate::url::{url_of, Url};

verus! {

/// The user and the organization that an access token was issued for.
#[derive(Debug)]
pub struct OAuthIdentity {
    pub sub: String,
    pub org_id: String,
}

/// What an `OAuthIdentity` says.
pub struct IdentityView {
    pub sub: Seq<char>,
    pub org_id: Seq<char>,
}

impl View for OAuthIdentity {
    type V = IdentityView;

    open spec fn view(&self) -> IdentityView {
        IdentityView { sub: self.sub@, org_id: self.org_id@ }
    }
}

/// An optional identity, by what it says.
pub open spec fn identity_view(identity: Option<OAuthIdentity>) -> Option<IdentityView> {
    match identity {
        Some(identity) => Some(identity@),
        None => None,
    }
}

/// The middle part of a text of three parts with dots between them, of which the
/// last one is not empty: where a signed token keeps its claims.
pub open spec fn claims_part(access_token: Seq<char>) -> Option<Seq<char>> {
    let parts = split_on(access_token, '.');
    if parts.len() == 3 && parts[2].len() > 0 {
        Some(parts[1])
    } else {
        None
    }
}

/// The bytes of the claims of an access token.
pub open spec fn claims_of(access_token: Seq<char>) -> Option<Seq<u8>> {
    match claims_part(access_token) {
        Some(part) => base64url_decoded(part),
        None => None,
    }
}

/// The part of an access token that holds its claims.
pub fn identity_part(access_token: &str) -> (part: Option<String>)
    ensures
        crate::text::opt_view(part) == claims_part(access_token@),
{
    let chars = chars_of(access_token);
    assert(chars@.subrange(0, chars@.len() as int) =~= access_token@);
    let ranges = split_ranges(&chars, 0, chars.len(), '.');
    let ghost parts = split_on(access_token@, '.');
    if ranges.len() != 3 {
        return None;
    }
    let (start, end) = ranges[1];
    let (last_start, last_end) = ranges[2];
    assert(parts[1] == chars@.subrange(ranges@[1].0 as int, ranges@[1].1 as int));
    assert(parts[2] == chars@.subrange(ranges@[2].0 as int, ranges@[2].1 as int));
    if last_start == last_end {
        return None;
    }
    Some(string_of(&chars, start, end))
}

/// The bytes of the claims of an access token, which are JSON in a token of this
/// format. A token of another format has none.
pub fn identity_payload(access_token: &str) -> (payload: Option<Vec<u8>>)
    ensures
        (match payload {
            Some(payload) => Some(payload@),
            None => None,
        }) == claims_of(access_token@),
{
    match identity_part(access_token) {
        Some(part) => base64url_decode(part.as_str()),
        None => None,
    }
}

/// An identity that says who it is.
pub open spec fn known_identity(claims: Option<IdentityView>) -> Option<IdentityView> {
    match claims {
        Some(identity) => if identity.sub.len() > 0 && identity.org_id.len() > 0 {
            Some(identity)
        } else {
            None
        },
        None => None,
    }
}

/// The identity that the claims of an access token state: `claims` is what they
/// say, if they could be read. An identity with an empty part is none.
pub fn oauth_identity(claims: Option<OAuthIdentity>) -> (identity: Option<OAuthIdentity>)
    ensures
        identity_view(identity) == known_identity(identity_view(claims)),
{
    match claims {
        Some(identity) => if identity.sub.as_str().is_empty()
            || identity.org_id.as_str().is_empty() {
            None
        } else {
            Some(identity)
        },
        None => None,
    }
}

/// Two logins of the same client with the same provider. Issuers are compared as
/// URLs where both are URLs, and as texts otherwise.
pub open spec fn same_client(left: SessionView, right: SessionView) -> bool {
    &&& left.client_id == right.client_id
    &&& match (url_of(left.issuer), url_of(right.issuer)) {
        (Ok(left), Ok(right)) => left.text == right.text,
        _ => left.issuer == right.issuer,
    }
}

/// Whether both logins are of the same client with the same provider.
pub fn same_oauth_client(left: &OAuthSession, right: &OAuthSession) -> (same: bool)
    ensures
        same == same_client(left@, right@),
{
    if left.client_id != right.client_id {
        return false;
    }
    match (Url::parse(left.issuer.as_str()), Url::parse(right.issuer.as_str())) {
        (Ok(left), Ok(right)) => left.same(&right),
        _ => left.issuer == right.issuer,
    }
}

/// A new login may share the grant of a previous one: both are of the same client
/// with the same provider, and they are not known to be for different identities.
pub open spec fn may_share_grant(
    same_client: bool,
    previous: Option<IdentityView>,
    next: Option<IdentityView>,
) -> bool {
    same_client && match (previous, next) {
        (Some(previous), Some(next)) => previous == next,
        _ => true,
    }
}

/// Whether a new login may share the grant of a previous one. Where an identity
/// is not known, it may: a grant that is in use must not be revoked.
pub fn grant_may_be_shared(
    same_client: bool,
    previous: &Option<OAuthIdentity>,
    next: &Option<OAuthIdentity>,
) -> (may: bool)
    ensures
        may == may_share_grant(same_client, identity_view(*previous), identity_view(*next)),
{
    if !same_client {
        return false;
    }
    match (previous, next) {
        (Some(previous), Some(next)) => previous.sub == next.sub && previous.org_id == next.org_id,
        _ => true,
    }
}

/// Whether the new login may share the grant of the previous one. The claims are
/// those of the access tokens of the two logins, as far as they could be read.
pub fn oauth_grant_may_be_reused(
    previous_session: &OAuthSession,
    previous_claims: Option<OAuthIdentity>,
    next_session: &OAuthSession,
    next_claims: Option<OAuthIdentity>,
) -> (may: bool)
    ensures
        may == may_share_grant(
            same_client(previous_session@, next_session@),
            known_identity(identity_view(previous_claims)),
            known_identity(identity_view(next_claims)),
        ),
{
    let same = same_oauth_client(previous_session, next_session);
    let previous = oauth_identity(previous_claims);
    let next = oauth_identity(next_claims);
    grant_may_be_shared(same, &previous, &next)
}

/// A previous grant is given up for revocation only if it cannot be that of the
/// new login: the client or the provider is another one, or both identities are
/// known and differ.
pub proof fn law_only_foreign_grants_are_revoked(
    previous_session: SessionView,
    previous_claims: Option<IdentityView>,
    next_session: SessionView,
    next_claims: Option<IdentityView>,
)
    ensures
        !may_share_grant(
            same_client(previous_session, next_session),
            known_identity(previous_claims),
            known_identity(next_claims),
        ) <==> (!same_client(previous_session, next_session) || (known_identity(
            previous_claims,
        ) is Some && known_identity(next_claims) is Some && known_identity(previous_claims)
            != known_identity(next_claims))),
{
}

/// Being of the same client with the same provider does not depend on the order.
pub proof fn law_same_client_is_symmetric(left: SessionView, right: SessionView)
    ensures
        same_client(left, right) == same_client(right, left),
        same_client(left, left),
{
}

/// The claims of a token of three parts with dots between them are in the middle part,
/// as long as the last part is not empty; a text with fewer or more dots has none.
pub proof fn law_claims_are_in_the_middle(
    header: Seq<char>,
    claims: Seq<char>,
    signature: Seq<char>,
    more: Seq<char>,
)
    requires
        is_piece(header, '.'),
        is_piece(claims, '.'),
        is_piece(signature, '.'),
        is_piece(more, '.'),
    ensures
        signature.len() > 0 ==> claims_part(header.push('.') + claims.push('.') + signature)
            == Some(claims),
        claims_part(header.push('.') + claims.push('.')) is None,
        claims_part(header) is None,
        claims_part(header.push('.') + claims) is None,
        claims_part(header.push('.') + claims.push('.') + signature.push('.') + more) is None,
        signature.len() > 0 ==> claims_of(header.push('.') + claims.push('.') + signature)
            == base64url_decoded(claims),
{
    let one = header;
    let two = header.push('.') + claims;
    let three = two.push('.') + signature;
    let four = three.push('.') + more;
    let none = Seq::<char>::empty();
    law_split_takes_the_last_piece(header, header, '.');
    law_split_takes_the_last_piece(one, claims, '.');
    law_split_takes_the_last_piece(two, signature, '.');
    law_split_takes_the_last_piece(two, none, '.');
    law_split_takes_the_last_piece(three, more, '.');
    assert(header.push('.') + claims.push('.') + signature =~= three);
    assert(header.push('.') + claims.push('.') =~= two.push('.') + none);
    assert(header.push('.') + claims.push('.') + signature.push('.') + more =~= four);
}

/// A grant is taken for that of another login exactly if the clients have different
/// identifiers, or the issuers are written out differently as URLs (as texts where one
/// is no URL), or both tokens name a subject and an organization and one of these
/// differs.
pub proof fn law_grants_are_shared_unless_known_apart(
    previous: SessionView,
    previous_claims: Option<IdentityView>,
    next: SessionView,
    next_claims: Option<IdentityView>,
)
    ensures
        ({
            let share = may_share_grant(
                same_client(previous, next),
                known_identity(previous_claims),
                known_identity(next_claims),
            );
            let same_issuer = match (url_of(previous.issuer), url_of(next.issuer)) {
                (Ok(left), Ok(right)) => left.text == right.text,
                _ => previous.issuer == next.issuer,
            };
            let apart = previous_claims matches Some(left) && next_claims matches Some(right)
                && left.sub.len() > 0 && left.org_id.len() > 0 && right.sub.len() > 0
                && right.org_id.len() > 0 && (left.sub != right.sub || left.org_id != right.org_id);
            share <==> previous.client_id == next.client_id && same_issuer && !apart
        }),
{
}

}
