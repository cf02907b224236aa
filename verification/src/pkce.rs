//! Proof Key for Code Exchange: the secret that ties the exchange of a code to
//! the request that asked for it.

use vstd::prelude::*;
use vstd::utf8::encode_utf8;

use crate::encoding::{
    all_url_safe, base64url, base64url_decoded, base64url_encode, encodes_32_bytes,
    law_encodings_are_decoded, lemma_base64url_is_url_safe, random_base64url, sha256, sha256_digest,
};

verus! {

/// The secret of a login, and the challenge that the provider gets to see.
pub struct Pkce {
    pub verifier: String,
    pub challenge: String,
}

/// The challenge that belongs to a verifier.
pub open spec fn challenge_of(verifier: Seq<char>) -> Seq<char> {
    base64url(sha256(encode_utf8(verifier)))
}

impl Pkce {
    /// A random verifier and its challenge.
    pub fn random() -> (pkce: Pkce)
        ensures
            pkce.verifier@.len() == 43,
            all_url_safe(pkce.verifier@),
            encodes_32_bytes(pkce.verifier@),
            pkce.challenge@ == challenge_of(pkce.verifier@),
            pkce.challenge@.len() == 43,
            all_url_safe(pkce.challenge@),
    {
        Pkce::from_verifier(random_base64url())
    }

    /// A verifier and its challenge.
    pub fn from_verifier(verifier: String) -> (pkce: Pkce)
        ensures
            pkce.verifier == verifier,
            pkce.challenge@ == challenge_of(verifier@),
            pkce.challenge@.len() == 43,
            all_url_safe(pkce.challenge@),
    {
        let digest = sha256_digest(verifier.as_str().as_bytes());
        let challenge = base64url_encode(digest.as_slice());
        proof {
            lemma_base64url_is_url_safe(digest@);
        }
        Pkce { verifier, challenge }
    }
}

/// The name of the file that serializes the refreshes of a credential.
pub open spec fn lock_file_name(credential_id: Seq<char>) -> Seq<char> {
    "oauth-"@ + base64url(sha256(encode_utf8(credential_id))) + ".lock"@
}

/// The name of the file that serializes the refreshes of a credential. It holds
/// no character that a file name cannot hold, whatever the identifier holds.
pub fn refresh_lock_file_name(credential_id: &str) -> (name: String)
    ensures
        name@ == lock_file_name(credential_id@),
        name@.len() == 54,
{
    let digest = sha256_digest(credential_id.as_bytes());
    let mut name = "oauth-".to_owned();
    name.append(base64url_encode(digest.as_slice()).as_str());
    name.append(".lock");
    proof {
        reveal_strlit("oauth-");
        reveal_strlit(".lock");
    }
    name
}

/// A challenge is the encoding of the SHA-256 digest of the verifier: decoded, it is
/// that digest, and two verifiers have the same challenge only if they have the same
/// digest.
pub proof fn law_challenge_holds_the_digest(verifier: Seq<char>, other: Seq<char>)
    ensures
        base64url_decoded(challenge_of(verifier)) == Some(sha256(encode_utf8(verifier))),
        challenge_of(verifier) == challenge_of(other) <==> sha256(encode_utf8(verifier)) == sha256(
            encode_utf8(other),
        ),
{
    law_encodings_are_decoded(sha256(encode_utf8(verifier)), sha256(encode_utf8(other)));
}

/// The name of a lock file is that of its credential alone: two credentials share a
/// file only if their identifiers have the same digest, and the name holds that digest.
pub proof fn law_lock_files_belong_to_credentials(credential_id: Seq<char>, other: Seq<char>)
    ensures
        ({
            let name = lock_file_name(credential_id);
            &&& name.len() >= 11
            &&& name.take(6) == "oauth-"@
            &&& name.skip(name.len() - 5) == ".lock"@
            &&& base64url_decoded(name.subrange(6, name.len() - 5)) == Some(
                sha256(encode_utf8(credential_id)),
            )
        }),
        lock_file_name(credential_id) == lock_file_name(other) ==> sha256(
            encode_utf8(credential_id),
        ) == sha256(encode_utf8(other)),
{
    reveal_strlit("oauth-");
    reveal_strlit(".lock");
    let mine = base64url(sha256(encode_utf8(credential_id)));
    let theirs = base64url(sha256(encode_utf8(other)));
    let name = lock_file_name(credential_id);
    let their_name = lock_file_name(other);
    assert(name.take(6) =~= "oauth-"@);
    assert(name.skip(name.len() - 5) =~= ".lock"@);
    assert(name.subrange(6, name.len() - 5) =~= mine);
    assert(their_name.subrange(6, their_name.len() - 5) =~= theirs);
    law_encodings_are_decoded(sha256(encode_utf8(credential_id)), sha256(encode_utf8(other)));
}

}
