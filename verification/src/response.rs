//! Responses of the provider: how much of them is read, and what they mean.

use vstd::prelude::*;

use crate::error::LoginError;
use crate::text::{same_text, str_view};

verus! {

/// How much of a response is read, in bytes.
pub const MAX_OAUTH_RESPONSE_BYTES: usize = 65536;

/// A status that says that a request was carried out.
pub open spec fn success(status: u16) -> bool {
    200 <= status < 300
}

/// Whether a status says that a request was carried out.
pub fn is_success(status: u16) -> (is: bool)
    ensures
        is == success(status),
{
    200 <= status && status < 300
}

/// What has been read of a response once another piece of it has come; `None`
/// where that is too much.
pub open spec fn appended(bytes: Seq<u8>, chunk: Seq<u8>) -> Option<Seq<u8>> {
    if bytes.len() + chunk.len() > MAX_OAUTH_RESPONSE_BYTES {
        None
    } else {
        Some(bytes + chunk)
    }
}

/// What has been read of a response that comes in pieces.
pub open spec fn read_in_pieces(chunks: Seq<Seq<u8>>) -> Option<Seq<u8>>
    decreases chunks.len(),
{
    if chunks.len() == 0 {
        Some(seq![])
    } else {
        match read_in_pieces(chunks.drop_last()) {
            Some(bytes) => appended(bytes, chunks.last()),
            None => None,
        }
    }
}

/// The pieces of a response, one after the other.
pub open spec fn whole(chunks: Seq<Seq<u8>>) -> Seq<u8>
    decreases chunks.len(),
{
    if chunks.len() == 0 {
        seq![]
    } else {
        whole(chunks.drop_last()) + chunks.last()
    }
}

/// Adds what was read of a response to what was read of it before, unless the
/// response is longer than 64 KiB.
pub fn append_chunk(bytes: &mut Vec<u8>, chunk: &[u8], operation: &'static str) -> (result: Result<
    (),
    LoginError,
>)
    ensures
        match appended(old(bytes)@, chunk@) {
            Some(all) => result is Ok && final(bytes)@ == all,
            None => {
                &&& result matches Err(LoginError::ResponseTooLarge { operation: named }) && named
                    == operation
                &&& final(bytes)@ == old(bytes)@
            },
        },
{
    let total: usize = bytes.len().saturating_add(chunk.len());
    if total > MAX_OAUTH_RESPONSE_BYTES {
        return Err(LoginError::ResponseTooLarge { operation });
    }
    bytes.extend_from_slice(chunk);
    assert(bytes@ =~= old(bytes)@ + chunk@);
    Ok(())
}

/// The error codes of OAuth that are repeated to the user.
pub open spec fn known_error(error: Seq<char>) -> bool {
    ||| error == "access_denied"@
    ||| error == "invalid_client"@
    ||| error == "invalid_grant"@
    ||| error == "invalid_request"@
    ||| error == "invalid_scope"@
    ||| error == "invalid_token"@
    ||| error == "server_error"@
    ||| error == "temporarily_unavailable"@
    ||| error == "unauthorized_client"@
    ||| error == "unsupported_grant_type"@
    ||| error == "unsupported_response_type"@
    ||| error == "unsupported_token_type"@
}

/// The error code, if it is one of those of OAuth.
pub fn known_oauth_error(error: &str) -> (known: Option<&str>)
    ensures
        known == (if known_error(error@) {
            Some(error)
        } else {
            None
        }),
{
    if same_text(error, "access_denied") || same_text(error, "invalid_client") || same_text(
        error,
        "invalid_grant",
    ) || same_text(error, "invalid_request") || same_text(error, "invalid_scope") || same_text(
        error,
        "invalid_token",
    ) || same_text(error, "server_error") || same_text(error, "temporarily_unavailable")
        || same_text(error, "unauthorized_client") || same_text(error, "unsupported_grant_type")
        || same_text(error, "unsupported_response_type") || same_text(
        error,
        "unsupported_token_type",
    ) {
        Some(error)
    } else {
        None
    }
}

/// What is said of a refused request: the error code of the response where it
/// is one of those of OAuth, and nothing of the response otherwise.
pub open spec fn rejection_message(error: Option<Seq<char>>) -> Seq<char> {
    match error {
        Some(error) => if known_error(error) {
            error
        } else {
            "unknown error"@
        },
        None => "unknown error"@,
    }
}

/// `error` says that the provider refused `operation` with `status`.
pub open spec fn rejects(
    error: LoginError,
    operation: &'static str,
    status: u16,
    code: Option<Seq<char>>,
) -> bool {
    error matches LoginError::Rejected { operation: named, status: given, message } && named
        == operation && given == status && message@ == rejection_message(code)
}

/// The refusal of a request. `error` is the error code that the body of the
/// response holds, if it holds one.
pub fn oauth_rejection(operation: &'static str, status: u16, error: Option<&str>) -> (refusal:
    LoginError)
    ensures
        rejects(refusal, operation, status, str_view(error)),
{
    let known = match error {
        Some(error) => known_oauth_error(error),
        None => None,
    };
    let message = match known {
        Some(error) => error.to_owned(),
        None => "unknown error".to_owned(),
    };
    LoginError::Rejected { operation, status, message }
}

/// What a response brings: what its body holds where the request was carried
/// out, and the refusal otherwise. `error` is the error code that the body
/// holds, `parsed` what the body says or why it cannot be read.
pub fn parse_oauth_response<T>(
    operation: &'static str,
    status: u16,
    error: Option<&str>,
    parsed: Result<T, String>,
) -> (result: Result<T, LoginError>)
    ensures
        match result {
            Ok(value) => success(status) && parsed == Ok::<T, String>(value),
            Err(LoginError::InvalidResponse { operation: named, source }) => success(status)
                && named == operation && parsed == Err::<T, String>(source),
            Err(refusal) => !success(status) && rejects(
                refusal,
                operation,
                status,
                str_view(error),
            ),
        },
{
    if !is_success(status) {
        return Err(oauth_rejection(operation, status, error));
    }
    match parsed {
        Ok(value) => Ok(value),
        Err(source) => Err(LoginError::InvalidResponse { operation, source }),
    }
}

/// What the response to a revocation means.
pub fn revocation_outcome(status: u16, error: Option<&str>) -> (result: Result<(), LoginError>)
    ensures
        if success(status) {
            result is Ok
        } else {
            result matches Err(refusal) && rejects(
                refusal,
                "token revocation",
                status,
                str_view(error),
            )
        },
{
    if is_success(status) {
        Ok(())
    } else {
        Err(oauth_rejection("token revocation", status, error))
    }
}

/// What is said of a refusal is one of the error codes of OAuth or nothing at
/// all: two responses with unknown codes are told of in the same words.
pub proof fn law_rejections_do_not_echo_payloads(error: Option<Seq<char>>)
    ensures
        known_error(rejection_message(error)) || rejection_message(error) == "unknown error"@,
        (error is None || !known_error(error->0)) ==> rejection_message(error)
            == rejection_message(None),
{
}

/// However a response comes in pieces, it is read whole if it has no more than
/// 64 KiB, and refused otherwise.
pub proof fn law_response_limit_is_on_the_whole(chunks: Seq<Seq<u8>>)
    ensures
        read_in_pieces(chunks) == (if whole(chunks).len() <= MAX_OAUTH_RESPONSE_BYTES {
            Some(whole(chunks))
        } else {
            None
        }),
    decreases chunks.len(),
{
    if chunks.len() > 0 {
        law_response_limit_is_on_the_whole(chunks.drop_last());
    }
}

/// A request was carried out exactly if its status is one of the two hundreds.
pub proof fn law_success_is_two_hundred(status: u16)
    ensures
        success(status) <==> status as int / 100 == 2,
{
}

/// The error codes that are repeated are those of OAuth, of token revocation and of
/// the use of bearer tokens; what is said of a refusal is such a code as it came, and
/// the same two words for everything else.
pub proof fn law_known_codes_are_repeated(code: Seq<char>)
    ensures
        ({
            let codes = seq![
                "invalid_request"@,
                "invalid_client"@,
                "invalid_grant"@,
                "unauthorized_client"@,
                "unsupported_grant_type"@,
                "invalid_scope"@,
                "access_denied"@,
                "unsupported_response_type"@,
                "server_error"@,
                "temporarily_unavailable"@,
                "unsupported_token_type"@,
                "invalid_token"@,
            ];
            &&& known_error(code) <==> codes.contains(code)
            &&& codes.contains(code) ==> rejection_message(Some(code)) == code
            &&& !codes.contains(code) ==> rejection_message(Some(code)) == "unknown error"@
        }),
        rejection_message(None) == "unknown error"@,
{
    let codes = seq![
        "invalid_request"@,
        "invalid_client"@,
        "invalid_grant"@,
        "unauthorized_client"@,
        "unsupported_grant_type"@,
        "invalid_scope"@,
        "access_denied"@,
        "unsupported_response_type"@,
        "server_error"@,
        "temporarily_unavailable"@,
        "unsupported_token_type"@,
        "invalid_token"@,
    ];
    assert(codes[0] == "invalid_request"@ && codes[1] == "invalid_client"@ && codes[2]
        == "invalid_grant"@ && codes[3] == "unauthorized_client"@ && codes[4]
        == "unsupported_grant_type"@ && codes[5] == "invalid_scope"@ && codes[6]
        == "access_denied"@ && codes[7] == "unsupported_response_type"@ && codes[8]
        == "server_error"@ && codes[9] == "temporarily_unavailable"@ && codes[10]
        == "unsupported_token_type"@ && codes[11] == "invalid_token"@);
    if codes.contains(code) {
        let i = choose|i: int| 0 <= i < codes.len() && codes[i] == code;
        assert(i == 0 || i == 1 || i == 2 || i == 3 || i == 4 || i == 5 || i == 6 || i == 7 || i == 8
            || i == 9 || i == 10 || i == 11);
    }
}

}
