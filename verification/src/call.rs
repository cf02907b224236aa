//! The requests that are made to a provider, and what their responses bring.

use vstd::prelude::*;

use crate::error::{LoginError, RequestFailure};
use crate::metadata::{
    endpoints_of, metadata_refusal, refuses_metadata, validate_metadata,
    AuthorizationServerMetadata, OAuthEndpoints,
};
use crate::response::{
    append_chunk, appended, law_response_limit_is_on_the_whole, parse_oauth_response, read_in_pieces,
    rejects, success, whole, MAX_OAUTH_RESPONSE_BYTES,
};
use crate::text::str_view;
use crate::token::{
    exchange_form, form_view, next_refresh_token, refresh_form, revocation_form, token_refusal,
    token_set, TokenResponse, TokenSet, TokenSetView,
};
use crate::url::Url;

verus! {

/// A form that is posted to a provider.
pub struct Call<'a> {
    /// What the form is for, as messages name it.
    pub operation: &'static str,
    pub url: &'a str,
    pub form: Vec<(&'a str, &'a str)>,
}

/// The call that exchanges an authorization code for tokens.
pub fn exchange_code<'a>(
    endpoints: &'a OAuthEndpoints,
    client_id: &'a str,
    callback_url: &'a str,
    code: &'a str,
    code_verifier: &'a str,
) -> (call: Call<'a>)
    ensures
        call.operation == "token exchange",
        call.url@ == endpoints@.token.text,
        form_view(call.form@) == seq![
            ("grant_type"@, "authorization_code"@),
            ("client_id"@, client_id@),
            ("code"@, code@),
            ("redirect_uri"@, callback_url@),
            ("code_verifier"@, code_verifier@),
        ],
{
    Call {
        operation: "token exchange",
        url: endpoints.token.as_str(),
        form: exchange_form(client_id, callback_url, code, code_verifier),
    }
}

/// The call that asks for new tokens.
pub fn refresh_token<'a>(
    endpoints: &'a OAuthEndpoints,
    client_id: &'a str,
    previous_refresh_token: &'a str,
) -> (call: Call<'a>)
    ensures
        call.operation == "token refresh",
        call.url@ == endpoints@.token.text,
        form_view(call.form@) == seq![
            ("grant_type"@, "refresh_token"@),
            ("client_id"@, client_id@),
            ("refresh_token"@, previous_refresh_token@),
        ],
{
    Call {
        operation: "token refresh",
        url: endpoints.token.as_str(),
        form: refresh_form(client_id, previous_refresh_token),
    }
}

/// The call that revokes a grant.
pub fn revoke_token<'a>(
    endpoints: &'a OAuthEndpoints,
    client_id: &'a str,
    refresh_token: &'a str,
) -> (call: Call<'a>)
    ensures
        call.operation == "token revocation",
        call.url@ == endpoints@.revocation.text,
        form_view(call.form@) == seq![
            ("token"@, refresh_token@),
            ("token_type_hint"@, "refresh_token"@),
            ("client_id"@, client_id@),
        ],
{
    Call {
        operation: "token revocation",
        url: endpoints.revocation.as_str(),
        form: revocation_form(client_id, refresh_token),
    }
}

/// Reading the body of a response.
pub enum ReadResponse {
    Reading { operation: &'static str, status: u16, bytes: Vec<u8> },
    /// The body, with the status of the response, or why it cannot be had.
    Finished { result: Result<(u16, Vec<u8>), LoginError> },
}

/// Starts to read the body of a response.
pub fn read_oauth_response(operation: &'static str, status: u16) -> (state: ReadResponse)
    ensures
        state matches ReadResponse::Reading { operation: named, status: given, bytes } && named
            == operation && given == status && bytes@ == Seq::<u8>::empty(),
{
    ReadResponse::Reading { operation, status, bytes: Vec::new() }
}

impl ReadResponse {
    /// A piece of the body, its end, or a failure leads from one state to
    /// another.
    pub open spec fn leads_to(
        self,
        chunk: Result<Option<Vec<u8>>, RequestFailure>,
        after: ReadResponse,
    ) -> bool {
        match (self, chunk) {
            (ReadResponse::Reading { operation, status, bytes }, Ok(Some(chunk))) => {
                match appended(bytes@, chunk@) {
                    Some(all) => after matches ReadResponse::Reading {
                        operation: named,
                        status: given,
                        bytes: longer,
                    } && named == operation && given == status && longer@ == all,
                    None => after == (ReadResponse::Finished {
                        result: Err(LoginError::ResponseTooLarge { operation }),
                    }),
                }
            },
            (ReadResponse::Reading { status, bytes, .. }, Ok(None)) => after == (
            ReadResponse::Finished { result: Ok((status, bytes)) }),
            (ReadResponse::Reading { operation, .. }, Err(source)) => after == (
            ReadResponse::Finished { result: Err(LoginError::Request { operation, source }) }),
            (ReadResponse::Finished { .. }, _) => after == self,
        }
    }

    /// Goes on with what came next.
    pub fn advance(self, chunk: Result<Option<Vec<u8>>, RequestFailure>) -> (after: ReadResponse)
        ensures
            self.leads_to(chunk, after),
    {
        match (self, chunk) {
            (ReadResponse::Reading { operation, status, bytes }, Ok(Some(chunk))) => {
                let mut bytes = bytes;
                match append_chunk(&mut bytes, chunk.as_slice(), operation) {
                    Ok(()) => ReadResponse::Reading { operation, status, bytes },
                    Err(error) => ReadResponse::Finished { result: Err(error) },
                }
            },
            (ReadResponse::Reading { status, bytes, .. }, Ok(None)) => ReadResponse::Finished {
                result: Ok((status, bytes)),
            },
            (ReadResponse::Reading { operation, .. }, Err(source)) => ReadResponse::Finished {
                result: Err(LoginError::Request { operation, source }),
            },
            (state, _) => state,
        }
    }
}

/// The tokens that a response brings. `error` is the error code that its body
/// holds, `parsed` what the body says or why it cannot be read; `now` is the
/// time, in seconds since 1970.
pub fn parse_token_http_response(
    operation: &'static str,
    status: u16,
    error: Option<&str>,
    parsed: Result<TokenResponse, String>,
    previous_refresh_token: Option<&str>,
    now: Option<u64>,
) -> (result: Result<TokenSet, LoginError>)
    ensures
        if !success(status) {
            result matches Err(refusal) && rejects(refusal, operation, status, str_view(error))
        } else {
            match parsed {
                Err(unreadable) => result == Err::<TokenSet, LoginError>(
                    LoginError::InvalidResponse { operation, source: unreadable },
                ),
                Ok(response) => match token_refusal(
                    response,
                    str_view(previous_refresh_token),
                    now,
                ) {
                    Some(reason) => result matches Err(LoginError::InvalidTokenResponse(said))
                        && said@ == reason,
                    None => result matches Ok(tokens) && tokens@ == (TokenSetView {
                        access_token: response.access_token@,
                        refresh_token: next_refresh_token(
                            response,
                            str_view(previous_refresh_token),
                        )->0,
                        expires_at: (now->0 + response.expires_in) as u64,
                    }),
                },
            }
        },
{
    match parse_oauth_response(operation, status, error, parsed) {
        Ok(response) => token_set(response, previous_refresh_token, now),
        Err(refusal) => Err(refusal),
    }
}

/// The endpoints of a provider, from the response to the request for its
/// metadata.
pub fn discover(
    issuer: &Url,
    status: u16,
    error: Option<&str>,
    parsed: Result<AuthorizationServerMetadata, String>,
) -> (result: Result<OAuthEndpoints, LoginError>)
    ensures
        if !success(status) {
            result matches Err(refusal) && rejects(refusal, "discovery", status, str_view(error))
        } else {
            match parsed {
                Err(unreadable) => result == Err::<OAuthEndpoints, LoginError>(
                    LoginError::InvalidResponse { operation: "discovery", source: unreadable },
                ),
                Ok(metadata) => match metadata_refusal(issuer@, metadata) {
                    Some(reason) => result matches Err(refusal) && refuses_metadata(
                        refusal,
                        reason,
                    ),
                    None => result matches Ok(endpoints) && endpoints@ == endpoints_of(metadata),
                },
            }
        },
{
    match parse_oauth_response("discovery", status, error, parsed) {
        Ok(metadata) => validate_metadata(issuer, metadata),
        Err(refusal) => Err(refusal),
    }
}

/// The pieces of a body are put together in the order in which they come, and
/// nothing is added or left out.
pub proof fn law_reading_keeps_the_order(
    state: ReadResponse,
    chunk: Vec<u8>,
    after: ReadResponse,
)
    requires
        state.leads_to(Ok(Some(chunk)), after),
    ensures
        state matches ReadResponse::Reading { bytes, .. }
            ==> after matches ReadResponse::Reading { bytes: longer, .. } ==> longer@ == bytes@
            + chunk@,
{
}

/// The pieces of a body that has been read, in order, by their bytes.
pub open spec fn pieces_view(pieces: Seq<Vec<u8>>) -> Seq<Seq<u8>> {
    pieces.map_values(|piece: Vec<u8>| piece@)
}

/// The states of reading a body that comes in these pieces, from the first one on.
pub open spec fn is_read_run(
    operation: &'static str,
    status: u16,
    pieces: Seq<Vec<u8>>,
    states: Seq<ReadResponse>,
) -> bool {
    &&& states.len() == pieces.len() + 1
    &&& states[0] matches ReadResponse::Reading { operation: named, status: given, bytes } && named
        == operation && given == status && bytes@ == Seq::<u8>::empty()
    &&& forall|i: int| 0 <= i < pieces.len() ==> #[trigger] read_step(pieces, states, i)
}

/// One step of a run.
pub open spec fn read_step(pieces: Seq<Vec<u8>>, states: Seq<ReadResponse>, i: int) -> bool {
    states[i].leads_to(Ok(Some(pieces[i])), states[i + 1])
}

/// After some pieces of a body, what has been read is what they hold together, or the
/// body has been refused as too long.
proof fn lemma_read_so_far(
    operation: &'static str,
    status: u16,
    pieces: Seq<Vec<u8>>,
    states: Seq<ReadResponse>,
    at: int,
)
    requires
        is_read_run(operation, status, pieces, states),
        0 <= at < states.len(),
    ensures
        match read_in_pieces(pieces_view(pieces.take(at))) {
            Some(all) => states[at] matches ReadResponse::Reading {
                operation: named,
                status: given,
                bytes,
            } && named == operation && given == status && bytes@ == all,
            None => states[at] == (ReadResponse::Finished {
                result: Err(LoginError::ResponseTooLarge { operation }),
            }),
        },
    decreases at,
{
    let taken = pieces_view(pieces.take(at));
    if at > 0 {
        lemma_read_so_far(operation, status, pieces, states, at - 1);
        assert(read_step(pieces, states, at - 1));
        assert(taken.drop_last() =~= pieces_view(pieces.take(at - 1)));
        assert(taken.last() == pieces[at - 1]@);
    }
}

/// A body that has no more than 64 KiB is read whole, with the status of its
/// response, in whatever pieces it comes; a longer one is refused.
pub proof fn law_bodies_are_read_whole_or_refused(
    operation: &'static str,
    status: u16,
    pieces: Seq<Vec<u8>>,
    states: Seq<ReadResponse>,
    end: ReadResponse,
)
    requires
        is_read_run(operation, status, pieces, states),
        states.last().leads_to(Ok(None), end),
    ensures
        if whole(pieces_view(pieces)).len() <= MAX_OAUTH_RESPONSE_BYTES {
            end matches ReadResponse::Finished { result } && result matches Ok(read) && read.0
                == status && read.1@ == whole(pieces_view(pieces))
        } else {
            end == (ReadResponse::Finished {
                result: Err(LoginError::ResponseTooLarge { operation }),
            })
        },
{
    lemma_read_so_far(operation, status, pieces, states, pieces.len() as int);
    assert(pieces.take(pieces.len() as int) =~= pieces);
    law_response_limit_is_on_the_whole(pieces_view(pieces));
}

}
