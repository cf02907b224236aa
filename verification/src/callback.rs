//! The request with which the browser comes back from the provider.

use vstd::prelude::*;

use crate::text::{is_some_text, opt_view, sanitize_message, sanitized};
use crate::token::form_view;
use crate::url::{can_extend, params_view, url_with_params, Url};

verus! {

/// How the browser request ended, as the website is told.
#[derive(Debug, Clone, Copy, PartialEq, Eq, Structural)]
pub enum CallbackStatus {
    Authorized,
    Denied,
    Error,
    AlreadyCompleted,
}

/// The word for a status.
pub open spec fn status_word(status: CallbackStatus) -> Seq<char> {
    match status {
        CallbackStatus::Authorized => "authorized"@,
        CallbackStatus::Denied => "denied"@,
        CallbackStatus::Error => "error"@,
        CallbackStatus::AlreadyCompleted => "already-completed"@,
    }
}

impl CallbackStatus {
    /// The word for this status.
    pub fn as_str(self) -> (word: &'static str)
        ensures
            word@ == status_word(self),
    {
        match self {
            CallbackStatus::Authorized => "authorized",
            CallbackStatus::Denied => "denied",
            CallbackStatus::Error => "error",
            CallbackStatus::AlreadyCompleted => "already-completed",
        }
    }
}

/// The query of the request.
pub struct CallbackQuery {
    pub code: Option<String>,
    pub error: Option<String>,
    pub error_description: Option<String>,
    pub state: Option<String>,
}

/// What a `CallbackQuery` says.
pub struct QueryView {
    pub code: Option<Seq<char>>,
    pub error: Option<Seq<char>>,
    pub error_description: Option<Seq<char>>,
    pub state: Option<Seq<char>>,
}

impl View for CallbackQuery {
    type V = QueryView;

    open spec fn view(&self) -> QueryView {
        QueryView {
            code: opt_view(self.code),
            error: opt_view(self.error),
            error_description: opt_view(self.error_description),
            state: opt_view(self.state),
        }
    }
}

/// What a login waits for: the code, or why there is none.
pub type CallbackOutcome = Result<String, String>;

/// A code or a reason, by its characters.
pub open spec fn outcome_view(outcome: CallbackOutcome) -> Result<Seq<char>, Seq<char>> {
    match outcome {
        Ok(code) => Ok(code@),
        Err(reason) => Err(reason@),
    }
}

/// A login that waits for its browser request.
pub struct CallbackState {
    /// What tells this login from any other.
    pub expected_state: String,
    /// A request has been answered for this login already.
    pub completed: bool,
    /// Where the browser is sent afterwards.
    pub completion_url: Option<Url>,
}

/// The answer to a request.
pub struct CallbackResponse {
    pub status: u16,
    /// Where the browser is sent, if it is.
    pub location: Option<String>,
    pub headers: Vec<(&'static str, &'static str)>,
}

/// What comes of a request.
pub struct CallbackReply {
    /// What the login is told, if it is told anything.
    pub delivered: Option<CallbackOutcome>,
    pub response: CallbackResponse,
}

/// What a request says: the code that it brings, or why it brings none.
pub open spec fn outcome_of(query: QueryView) -> Result<Seq<char>, Seq<char>> {
    if query.error is Some || query.error_description is Some {
        if query.code is Some {
            Err("authorization callback contained both a code and an error"@)
        } else {
            match (query.error, query.error_description) {
                (Some(error), Some(description)) => Err(
                    sanitized(error) + ": "@ + sanitized(description),
                ),
                (Some(error), None) => Err(sanitized(error)),
                (_, Some(description)) => Err(sanitized(description)),
                (None, None) => Err(seq![]),
            }
        }
    } else {
        match query.code {
            Some(code) => if code.len() > 0 {
                Ok(code)
            } else {
                Err("authorization code was missing"@)
            },
            None => Err("authorization code was missing"@),
        }
    }
}

/// The user declined.
pub open spec fn provider_denied(query: QueryView) -> bool {
    query.error == Some("access_denied"@) && query.code is None
}

/// How a request ends: with an error where it is not of this login, as completed
/// where it is not the first one, and else as what it says.
pub open spec fn status_of(
    expected_state: Seq<char>,
    completed: bool,
    query: QueryView,
) -> CallbackStatus {
    if query.state != Some(expected_state) {
        CallbackStatus::Error
    } else if completed {
        CallbackStatus::AlreadyCompleted
    } else if outcome_of(query) is Ok {
        CallbackStatus::Authorized
    } else if provider_denied(query) {
        CallbackStatus::Denied
    } else {
        CallbackStatus::Error
    }
}

/// The request is the one that the login waits for.
pub open spec fn delivers(expected_state: Seq<char>, completed: bool, query: QueryView) -> bool {
    query.state == Some(expected_state) && !completed
}

/// The HTTP status for a status.
pub open spec fn http_status(status: CallbackStatus) -> u16 {
    match status {
        CallbackStatus::Authorized => 200,
        CallbackStatus::AlreadyCompleted => 409,
        CallbackStatus::Denied => 400,
        CallbackStatus::Error => 400,
    }
}

/// What the website is told, as a query.
pub open spec fn status_params(status: CallbackStatus) -> Seq<(Seq<char>, Seq<char>)> {
    seq![("status"@, status_word(status))]
}

/// The headers of every answer: it is not to be kept, and where it was shown is
/// not to be told.
pub open spec fn answer_headers() -> Seq<(Seq<char>, Seq<char>)> {
    seq![("cache-control"@, "no-store"@), ("referrer-policy"@, "no-referrer"@)]
}

/// The browser can be sent to the website, if there is one, with any status: see
/// [`can_extend`].
pub open spec fn can_redirect(completion_url: Option<Url>) -> bool {
    completion_url matches Some(site) ==> forall|status: CallbackStatus| #[trigger]
        can_extend(site@.text, site@.query, site@.fragment, status_params(status))
}

/// The answer to a request that ended in `status`: the browser is sent to the
/// website, which is told the status and nothing else; without a website the
/// answer is the HTTP status alone. Either way it has the headers of an answer.
pub open spec fn answers(
    response: CallbackResponse,
    completion_url: Option<Url>,
    status: CallbackStatus,
) -> bool {
    &&& form_view(response.headers@) == answer_headers()
    &&& match completion_url {
        Some(site) => {
            &&& response.status == 303
            &&& response.location matches Some(location) && url_with_params(
                site@.source,
                status_params(status),
            ) == Ok::<Seq<char>, Seq<char>>(location@)
        },
        None => response.status == http_status(status) && response.location is None,
    }
}

/// The answer to a request that ended in `callback_status`; `status` is the HTTP
/// status where there is no website to send the browser to.
pub fn callback_response(
    completion_url: &Option<Url>,
    status: u16,
    callback_status: CallbackStatus,
) -> (response: CallbackResponse)
    requires
        can_redirect(*completion_url),
    ensures
        form_view(response.headers@) == answer_headers(),
        match *completion_url {
            Some(_) => answers(response, *completion_url, callback_status),
            None => response.status == status && response.location is None,
        },
{
    let headers = callback_headers();
    match completion_url {
        Some(site) => {
            let params: Vec<(&str, &str)> = vec![("status", callback_status.as_str())];
            assert(params_view(params@) =~= status_params(callback_status));
            CallbackResponse { status: 303, location: Some(site.with_query(&params)), headers }
        },
        None => CallbackResponse { status, location: None, headers },
    }
}

/// The headers of every answer.
pub fn callback_headers() -> (headers: Vec<(&'static str, &'static str)>)
    ensures
        form_view(headers@) == answer_headers(),
{
    let headers: Vec<(&'static str, &'static str)> = vec![
        ("cache-control", "no-store"),
        ("referrer-policy", "no-referrer"),
    ];
    assert(form_view(headers@) =~= answer_headers());
    headers
}

/// What a request says.
fn callback_outcome(query: &CallbackQuery) -> (outcome: CallbackOutcome)
    ensures
        outcome_view(outcome) == outcome_of(query@),
{
    match (&query.error, &query.error_description, &query.code) {
        (None, None, Some(code)) => if code.as_str().is_empty() {
            Err("authorization code was missing".to_owned())
        } else {
            Ok(code.clone())
        },
        (None, None, None) => Err("authorization code was missing".to_owned()),
        (_, _, Some(_)) => Err(
            "authorization callback contained both a code and an error".to_owned(),
        ),
        (Some(error), Some(description), None) => {
            let mut reason = sanitize_message(error.as_str());
            reason.append(": ");
            reason.append(sanitize_message(description.as_str()).as_str());
            Err(reason)
        },
        (Some(error), None, None) => Err(sanitize_message(error.as_str())),
        (None, Some(description), None) => Err(sanitize_message(description.as_str())),
    }
}

/// Takes a request of the browser. A request that is not of this login changes
/// nothing; the first one that is ends the wait, with its code or with why it
/// has none.
pub fn handle_callback(state: &mut CallbackState, query: &CallbackQuery) -> (reply: CallbackReply)
    requires
        can_redirect(old(state).completion_url),
    ensures
        final(state).expected_state == old(state).expected_state,
        final(state).completion_url == old(state).completion_url,
        final(state).completed == (old(state).completed || query@.state == Some(
            old(state).expected_state@,
        )),
        if delivers(old(state).expected_state@, old(state).completed, query@) {
            reply.delivered matches Some(outcome) && outcome_view(outcome) == outcome_of(query@)
        } else {
            reply.delivered is None
        },
        answers(
            reply.response,
            old(state).completion_url,
            status_of(old(state).expected_state@, old(state).completed, query@),
        ),
{
    if !is_some_text(&query.state, state.expected_state.as_str()) {
        let response = callback_response(&state.completion_url, 400, CallbackStatus::Error);
        return CallbackReply { delivered: None, response };
    }
    if state.completed {
        let response = callback_response(
            &state.completion_url,
            409,
            CallbackStatus::AlreadyCompleted,
        );
        return CallbackReply { delivered: None, response };
    }
    let denied = is_some_text(&query.error, "access_denied") && query.code.is_none();
    let outcome = callback_outcome(query);
    state.completed = true;
    let response = match &outcome {
        Ok(_) => callback_response(&state.completion_url, 200, CallbackStatus::Authorized),
        Err(_) => if denied {
            callback_response(&state.completion_url, 400, CallbackStatus::Denied)
        } else {
            callback_response(&state.completion_url, 400, CallbackStatus::Error)
        },
    };
    CallbackReply { delivered: Some(outcome), response }
}

/// Whether a login that waits has been answered once it has taken `queries`.
pub open spec fn completed_after(expected_state: Seq<char>, queries: Seq<QueryView>) -> bool
    decreases queries.len(),
{
    queries.len() > 0 && (completed_after(expected_state, queries.drop_last())
        || queries.last().state == Some(expected_state))
}

/// What a login is told over `queries`, in order.
pub open spec fn deliveries(expected_state: Seq<char>, queries: Seq<QueryView>) -> Seq<
    Result<Seq<char>, Seq<char>>,
>
    decreases queries.len(),
{
    if queries.len() == 0 {
        seq![]
    } else {
        let before = deliveries(expected_state, queries.drop_last());
        if delivers(
            expected_state,
            completed_after(expected_state, queries.drop_last()),
            queries.last(),
        ) {
            before.push(outcome_of(queries.last()))
        } else {
            before
        }
    }
}

/// Whatever requests come, a login is told one thing at most, and that is what
/// the first request of this login says: requests of anyone else go by unheard.
pub proof fn law_first_matching_request_is_delivered(
    expected_state: Seq<char>,
    queries: Seq<QueryView>,
    first: int,
)
    requires
        0 <= first <= queries.len(),
        forall|i: int| 0 <= i < first ==> (#[trigger] queries[i]).state != Some(expected_state),
        first < queries.len() ==> queries[first].state == Some(expected_state),
    ensures
        deliveries(expected_state, queries) == (if first < queries.len() {
            seq![outcome_of(queries[first])]
        } else {
            seq![]
        }),
        completed_after(expected_state, queries) == (first < queries.len()),
    decreases queries.len(),
{
    if queries.len() > 0 {
        let before = queries.drop_last();
        if first == queries.len() {
            law_first_matching_request_is_delivered(expected_state, before, first - 1);
            assert(queries[first - 1].state != Some(expected_state));
        } else {
            law_first_matching_request_is_delivered(expected_state, before, first);
            if first == before.len() {
                assert(deliveries(expected_state, queries) =~= seq![outcome_of(queries[first])]);
            }
        }
    }
}

/// The browser never gets to see a code: the answer to a request with one code
/// is the answer to the same request with any other.
pub proof fn law_answer_does_not_depend_on_the_code(
    expected_state: Seq<char>,
    completed: bool,
    query: QueryView,
    code: Seq<char>,
)
    requires
        query.code is Some,
        query.code->0.len() > 0,
        code.len() > 0,
    ensures
        status_of(expected_state, completed, query) == status_of(
            expected_state,
            completed,
            QueryView { code: Some(code), ..query },
        ),
{
}

/// What is told of an error of the provider is no longer than two messages, and
/// holds no control character of it.
pub proof fn law_sanitized_messages(message: Seq<char>)
    ensures
        sanitized(message).len() <= crate::text::MAX_MESSAGE_CHARS,
        forall|i: int|
            0 <= i < sanitized(message).len() ==> !crate::text::control(
                #[trigger] sanitized(message)[i],
            ),
{
    let clean = crate::text::without_controls(message);
    assert forall|i: int| 0 <= i < clean.len() implies !crate::text::control(#[trigger] clean[i]) by {
        broadcast use vstd::seq_lib::group_filter_ensures;

    }
}

/// The first request of a login is taken as declined exactly if its error is
/// `access_denied` and it brings no code, whatever it says about the error; and as
/// authorized exactly if it brings a code and speaks of no error.
pub proof fn law_declined_means_access_denied(expected_state: Seq<char>, query: QueryView)
    requires
        query.state == Some(expected_state),
    ensures
        ({
            let status = status_of(expected_state, false, query);
            &&& status == CallbackStatus::Denied <==> query.error == Some("access_denied"@)
                && query.code is None
            &&& status == CallbackStatus::Authorized <==> query.error is None
                && query.error_description is None && (query.code matches Some(code) && code
                != Seq::<char>::empty())
            &&& status != CallbackStatus::AlreadyCompleted
        }),
        status_of(expected_state, true, query) == CallbackStatus::AlreadyCompleted,
{
    if let Some(code) = query.code {
        if code.len() == 0 {
            assert(code =~= Seq::<char>::empty());
        }
    }
}

/// Where there is an error, the status does not depend on its description; and a
/// request of another login is an error whatever else it says.
pub proof fn law_descriptions_do_not_decide(
    expected_state: Seq<char>,
    completed: bool,
    query: QueryView,
    description: Option<Seq<char>>,
)
    ensures
        query.error is Some ==> status_of(expected_state, completed, query) == status_of(
            expected_state,
            completed,
            QueryView { error_description: description, ..query },
        ),
        query.state != Some(expected_state) ==> status_of(expected_state, completed, query)
            == CallbackStatus::Error && !delivers(expected_state, completed, query),
        query.state == Some(expected_state) ==> (delivers(expected_state, completed, query)
            <==> !completed),
{
}

/// What a login is told: the code where the request brings one and speaks of no error;
/// else the error and its description, each cleaned, or what is missing.
pub proof fn law_outcomes_say_what_came(query: QueryView)
    ensures
        ({
            let outcome = outcome_of(query);
            let said = query.error is Some || query.error_description is Some;
            &&& outcome is Ok <==> !said && (query.code matches Some(code) && code.len() > 0)
            &&& outcome is Ok ==> outcome->Ok_0 == query.code->0
            &&& said && query.code is Some ==> outcome == Err::<Seq<char>, Seq<char>>(
                "authorization callback contained both a code and an error"@,
            )
            &&& !said && outcome is Err ==> outcome->Err_0 == "authorization code was missing"@
            &&& query.code is None ==> match (query.error, query.error_description) {
                (Some(error), Some(description)) => outcome->Err_0 == sanitized(error) + ": "@
                    + sanitized(description),
                (Some(error), None) => outcome->Err_0 == sanitized(error),
                (None, Some(description)) => outcome->Err_0 == sanitized(description),
                (None, None) => true,
            }
        }),
{
}

/// The browser is sent to the website with one pair, named `status`, whose value tells
/// the four endings apart; without a website it is answered 200 for a code, 409 for a
/// repeated request and 400 otherwise. No answer may be kept or referred to.
pub proof fn law_answers_tell_the_status(
    response: CallbackResponse,
    completion_url: Option<Url>,
    status: CallbackStatus,
)
    requires
        answers(response, completion_url, status),
    ensures
        ({
            let word = match status {
                CallbackStatus::Authorized => "authorized"@,
                CallbackStatus::Denied => "denied"@,
                CallbackStatus::Error => "error"@,
                CallbackStatus::AlreadyCompleted => "already-completed"@,
            };
            let code: u16 = match status {
                CallbackStatus::Authorized => 200,
                CallbackStatus::AlreadyCompleted => 409,
                _ => 400,
            };
            &&& completion_url matches Some(site) ==> response.status == 303
                && (response.location matches Some(location) && url_with_params(
                site@.source,
                seq![("status"@, word)],
            ) == Ok::<Seq<char>, Seq<char>>(location@))
            &&& completion_url is None ==> response.status == code && response.location is None
            &&& form_view(response.headers@) == seq![
                ("cache-control"@, "no-store"@),
                ("referrer-policy"@, "no-referrer"@),
            ]
        }),
{
}

}
