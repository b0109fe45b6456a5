//! One fetch, as a state machine.
//!
//! A fetch prepares a client that puts the `Authorization` header on every
//! request, sends a GET to the URL, sends a POST with a fixed body to the same
//! URL, and then reads the body of the GET response. The machine decides; a
//! driver acts. [`start`] gives the first [`Action`]; the driver carries it
//! out, reports what came of it as an [`Event`] to [`step`], and goes on with
//! the action that `step` returns, until that action is [`Action::Finish`].
//!
//! Of the POST response only the status is used. Whether the POST is wanted
//! at all is an open question; as long as it is sent, its failure fails the
//! fetch.

use crate::body::decode;
use crate::body::lemma_text_of_encoded;
use crate::body::text_of;
use crate::error::outcome_view;
use crate::error::FetchError;
use crate::error::FetchErrorView;
use crate::header::authorization;
use crate::header::authorization_text;
use crate::header::is_value_bytes;
use crate::header::is_value_char;
use crate::header::is_value_text;
use crate::header::lemma_text_value_bytes;
use crate::header::lemma_authorization_text;
use crate::header::Authorization;
use crate::status::is_success;
use crate::status::spec_is_success;
use vstd::prelude::*;
use vstd::utf8::*;

verus! {

/// The HTTP method of a request.
#[derive(Clone, Copy, Debug, PartialEq, Eq, Structural)]
pub enum Method {
    Get,
    Post,
}

/// A request for the driver to send.
#[derive(Debug, PartialEq, Eq)]
pub struct Request {
    pub method: Method,
    /// Where the request goes. Nothing is checked of it here: a URL that the
    /// transport cannot use comes back as [`Event::Failed`].
    pub url: String,
    /// The body to send, if the request has one.
    pub body: Option<String>,
}

/// A [`Request`] with its texts as sequences of characters.
pub struct RequestView {
    pub method: Method,
    pub url: Seq<char>,
    pub body: Option<Seq<char>>,
}

impl View for Request {
    type V = RequestView;

    open spec fn view(&self) -> RequestView {
        RequestView {
            method: self.method,
            url: self.url@,
            body: match self.body {
                Some(text) => Some(text@),
                None => None,
            },
        }
    }
}

/// What the driver is to do next.
#[derive(Debug, PartialEq, Eq)]
pub enum Action {
    /// Make a client ready that sends this `Authorization` header with every
    /// request. Answered by [`Event::Prepared`].
    Prepare(Authorization),
    /// Send this request and wait for the response. Answered by
    /// [`Event::Response`].
    Send(Request),
    /// Read the body of the GET response in full. Answered by
    /// [`Event::Body`].
    ReadBody,
    /// Stop: the fetch is over, with this result.
    Finish(Result<String, FetchError>),
}

/// An [`Action`] over sequences.
pub enum ActionView {
    Prepare(Seq<u8>),
    Send(RequestView),
    ReadBody,
    Finish(Result<Seq<char>, FetchErrorView>),
}

impl View for Action {
    type V = ActionView;

    open spec fn view(&self) -> ActionView {
        match *self {
            Action::Prepare(header) => ActionView::Prepare(header@),
            Action::Send(request) => ActionView::Send(request@),
            Action::ReadBody => ActionView::ReadBody,
            Action::Finish(outcome) => ActionView::Finish(outcome_view(outcome)),
        }
    }
}

/// What the driver reports of the action it carried out.
#[derive(Debug, PartialEq, Eq)]
pub enum Event {
    /// The client is ready.
    Prepared,
    /// A response arrived, with this status code.
    Response(u16),
    /// The body was read in full: these are its bytes.
    Body(Vec<u8>),
    /// The action could not be carried out. Holds the transport's own
    /// description of the failure.
    Failed(String),
}

/// An [`Event`] over sequences.
pub enum EventView {
    Prepared,
    Response(u16),
    Body(Seq<u8>),
    Failed(Seq<char>),
}

impl View for Event {
    type V = EventView;

    open spec fn view(&self) -> EventView {
        match *self {
            Event::Prepared => EventView::Prepared,
            Event::Response(code) => EventView::Response(code),
            Event::Body(bytes) => EventView::Body(bytes@),
            Event::Failed(reason) => EventView::Failed(reason@),
        }
    }
}

/// How far a fetch has come. Each state but the last waits for the answer to
/// one action.
#[derive(Debug, PartialEq, Eq)]
pub enum State {
    /// The client is being made ready.
    Preparing { url: String },
    /// The GET request is under way.
    AwaitingGet { url: String },
    /// The POST request is under way. The status of the GET response is kept
    /// until the POST response has been looked at.
    AwaitingPost { get_status: u16 },
    /// The body of the GET response is being read.
    AwaitingBody,
    /// The fetch is over.
    Done,
}

/// A [`State`] with its texts as sequences of characters.
pub enum StateView {
    Preparing { url: Seq<char> },
    AwaitingGet { url: Seq<char> },
    AwaitingPost { get_status: u16 },
    AwaitingBody,
    Done,
}

impl View for State {
    type V = StateView;

    open spec fn view(&self) -> StateView {
        match *self {
            State::Preparing { url } => StateView::Preparing { url: url@ },
            State::AwaitingGet { url } => StateView::AwaitingGet { url: url@ },
            State::AwaitingPost { get_status } => StateView::AwaitingPost { get_status },
            State::AwaitingBody => StateView::AwaitingBody,
            State::Done => StateView::Done,
        }
    }
}

/// The GET request for a URL.
pub open spec fn get_request(url: Seq<char>) -> RequestView {
    RequestView { method: Method::Get, url, body: None }
}

/// The POST request for a URL. Its body is the fixed text `Text`.
pub open spec fn post_request(url: Seq<char>) -> RequestView {
    RequestView { method: Method::Post, url, body: Some("Text"@) }
}

/// The end of a fetch, with its result.
pub open spec fn finish(outcome: Result<Seq<char>, FetchErrorView>) -> (StateView, ActionView) {
    (StateView::Done, ActionView::Finish(outcome))
}

/// How a fetch begins. A token that cannot stand in a header value ends it at
/// once, before anything is asked of the driver; any other token has the
/// client made ready with the header `token <token>`.
pub open spec fn first(url: Seq<char>, token: Seq<char>) -> (StateView, ActionView) {
    if is_value_text(token) {
        (
            StateView::Preparing { url },
            ActionView::Prepare(encode_utf8(authorization_text(token))),
        )
    } else {
        finish(Err(FetchErrorView::Header))
    }
}

/// What follows once both responses are in. The status of the POST response
/// is looked at first, then that of the GET response; only if both are in the
/// success class is the body read.
pub open spec fn after_responses(get_status: u16, post_status: u16) -> (StateView, ActionView) {
    if !spec_is_success(post_status) {
        finish(Err(FetchErrorView::Status(post_status)))
    } else if !spec_is_success(get_status) {
        finish(Err(FetchErrorView::Status(get_status)))
    } else {
        (StateView::AwaitingBody, ActionView::ReadBody)
    }
}

/// The transition of the machine: the state and the action that follow when
/// `event` is reported in `state`.
///
/// An event that answers the action under way moves the fetch on. A failure
/// of that action ends the fetch with the transport's description. Any other
/// event, and every event once the fetch is over, ends it as out of turn.
pub open spec fn next(state: StateView, event: EventView) -> (StateView, ActionView) {
    match (state, event) {
        (StateView::Done, _) => finish(Err(FetchErrorView::OutOfTurn)),
        (_, EventView::Failed(reason)) => finish(Err(FetchErrorView::Transport(reason))),
        (StateView::Preparing { url }, EventView::Prepared) => (
            StateView::AwaitingGet { url },
            ActionView::Send(get_request(url)),
        ),
        (StateView::AwaitingGet { url }, EventView::Response(get_status)) => (
            StateView::AwaitingPost { get_status },
            ActionView::Send(post_request(url)),
        ),
        (StateView::AwaitingPost { get_status }, EventView::Response(post_status)) => {
            after_responses(get_status, post_status)
        },
        (StateView::AwaitingBody, EventView::Body(bytes)) => finish(text_of(bytes)),
        _ => finish(Err(FetchErrorView::OutOfTurn)),
    }
}

/// Begins a fetch of `url` with `token` as the credential, and gives the
/// first action.
pub fn start(url: &str, token: &str) -> (r: (State, Action))
    ensures
        r.0@ == first(url@, token@).0,
        r.1@ == first(url@, token@).1,
{
    match authorization(token) {
        Ok(header) => (State::Preparing { url: String::from_str(url) }, Action::Prepare(header)),
        Err(e) => (State::Done, Action::Finish(Err(e))),
    }
}

/// Moves a fetch on by one event, and gives the next action.
pub fn step(state: State, event: Event) -> (r: (State, Action))
    ensures
        r.0@ == next(state@, event@).0,
        r.1@ == next(state@, event@).1,
{
    match (state, event) {
        (State::Done, _) => (State::Done, Action::Finish(Err(FetchError::OutOfTurn))),
        (_, Event::Failed(reason)) => (
            State::Done,
            Action::Finish(Err(FetchError::Transport(reason))),
        ),
        (State::Preparing { url }, Event::Prepared) => {
            let request = Request { method: Method::Get, url: url.clone(), body: None };
            (State::AwaitingGet { url }, Action::Send(request))
        },
        (State::AwaitingGet { url }, Event::Response(get_status)) => {
            let request = Request {
                method: Method::Post,
                url,
                body: Some(String::from_str("Text")),
            };
            (State::AwaitingPost { get_status }, Action::Send(request))
        },
        (State::AwaitingPost { get_status }, Event::Response(post_status)) => {
            if !is_success(post_status) {
                (State::Done, Action::Finish(Err(FetchError::Status(post_status))))
            } else if !is_success(get_status) {
                (State::Done, Action::Finish(Err(FetchError::Status(get_status))))
            } else {
                (State::AwaitingBody, Action::ReadBody)
            }
        },
        (State::AwaitingBody, Event::Body(bytes)) => (State::Done, Action::Finish(decode(bytes))),
        _ => (State::Done, Action::Finish(Err(FetchError::OutOfTurn))),
    }
}

/// Where a fetch stands once the client was made ready and both responses
/// have arrived, the one to the GET with `get_status` and the one to the POST
/// with `post_status`.
pub open spec fn after_exchange(
    url: Seq<char>,
    token: Seq<char>,
    get_status: u16,
    post_status: u16,
) -> (StateView, ActionView) {
    let prepared = next(first(url, token).0, EventView::Prepared);
    let got = next(prepared.0, EventView::Response(get_status));
    next(got.0, EventView::Response(post_status))
}

/// A token that holds a line feed or a NUL fails the fetch with
/// [`FetchError::Header`] as its very first action: the driver is asked for
/// no client and no request.
pub proof fn lemma_control_character_fails_first(url: Seq<char>, token: Seq<char>, i: int)
    requires
        0 <= i < token.len(),
        token[i] == '\n' || token[i] == '\0',
    ensures
        first(url, token) == finish(Err(FetchErrorView::Header)),
{
    assert(!is_value_char(token[i]));
}

/// The header that the driver is handed holds only bytes that may stand in a
/// header value.
pub proof fn lemma_prepared_header_is_sendable(url: Seq<char>, token: Seq<char>)
    requires
        is_value_text(token),
    ensures
        first(url, token).1 matches ActionView::Prepare(header) && is_value_bytes(header),
{
    lemma_authorization_text(token);
    lemma_text_value_bytes(authorization_text(token));
}

/// The requests of a fetch: first a GET, then a POST with the fixed body,
/// both to the URL that the fetch was started with.
pub proof fn lemma_requests_in_order(url: Seq<char>, token: Seq<char>, get_status: u16)
    requires
        is_value_text(token),
    ensures
        ({
            let prepared = next(first(url, token).0, EventView::Prepared);
            let got = next(prepared.0, EventView::Response(get_status));
            &&& prepared.1 == ActionView::Send(get_request(url))
            &&& got.1 == ActionView::Send(post_request(url))
        }),
{
}

/// When both responses are in the success class, the fetch returns the body
/// of the GET response as text, exactly.
pub proof fn lemma_success_returns_body(
    url: Seq<char>,
    token: Seq<char>,
    get_status: u16,
    post_status: u16,
    body: Seq<u8>,
)
    requires
        is_value_text(token),
        spec_is_success(get_status),
        spec_is_success(post_status),
        valid_utf8(body),
    ensures
        after_exchange(url, token, get_status, post_status) == (
            StateView::AwaitingBody,
            ActionView::ReadBody,
        ),
        next(StateView::AwaitingBody, EventView::Body(body)) == finish(Ok(decode_utf8(body))),
{
}

/// A response outside the success class fails the fetch with that status,
/// and so as [`FetchError::Status`], never as a transport failure. Where both
/// responses are outside it, the status of the POST response is reported.
pub proof fn lemma_status_failure(
    url: Seq<char>,
    token: Seq<char>,
    get_status: u16,
    post_status: u16,
)
    requires
        is_value_text(token),
        !spec_is_success(get_status) || !spec_is_success(post_status),
    ensures
        after_exchange(url, token, get_status, post_status) == finish(
            Err(
                FetchErrorView::Status(
                    if spec_is_success(post_status) {
                        get_status
                    } else {
                        post_status
                    },
                ),
            ),
        ),
{
}

/// A POST response outside the success class fails the fetch whatever the GET
/// response was: the body of the GET response is never asked for.
pub proof fn lemma_post_failure_fails(
    url: Seq<char>,
    token: Seq<char>,
    get_status: u16,
    post_status: u16,
)
    requires
        is_value_text(token),
        !spec_is_success(post_status),
    ensures
        after_exchange(url, token, get_status, post_status) == finish(
            Err(FetchErrorView::Status(post_status)),
        ),
{
}

/// A server that sends back as the body exactly the bytes it received as the
/// value of the `Authorization` header makes the fetch return
/// `token <token>`.
pub proof fn lemma_echo_round_trip(
    url: Seq<char>,
    token: Seq<char>,
    get_status: u16,
    post_status: u16,
)
    requires
        is_value_text(token),
        spec_is_success(get_status),
        spec_is_success(post_status),
    ensures
        first(url, token).1 matches ActionView::Prepare(header) && next(
            after_exchange(url, token, get_status, post_status).0,
            EventView::Body(header),
        ) == finish(Ok(authorization_text(token))),
{
    lemma_text_of_encoded(authorization_text(token));
}

/// A failure of the transport ends the fetch from every state in which an
/// action is under way, with the transport's description.
pub proof fn lemma_transport_failure(state: StateView, reason: Seq<char>)
    requires
        state != StateView::Done,
    ensures
        next(state, EventView::Failed(reason)) == finish(
            Err(FetchErrorView::Transport(reason)),
        ),
{
}

/// How many answers a fetch may still wait for.
pub open spec fn remaining(state: StateView) -> nat {
    match state {
        StateView::Preparing { .. } => 4,
        StateView::AwaitingGet { .. } => 3,
        StateView::AwaitingPost { .. } => 2,
        StateView::AwaitingBody => 1,
        StateView::Done => 0,
    }
}

/// Every event moves a fetch on: whatever is reported, fewer answers remain
/// to wait for than before, so nothing is asked of the driver twice and a
/// fetch is over after four events at most. The driver is told to stop
/// exactly when the fetch is over, and a fetch that is over stays over.
pub proof fn lemma_every_event_moves_on(state: StateView, event: EventView)
    ensures
        state != StateView::Done ==> remaining(next(state, event).0) < remaining(state),
        next(state, event).1 is Finish <==> next(state, event).0 == StateView::Done,
        state == StateView::Done ==> next(state, event).0 == StateView::Done,
{
}

/// What a fetch returns over a transport that does not fail, from a server
/// that answers the GET with `get_status` and the POST with `post_status`
/// and sends `body` with the GET response.
pub open spec fn result_of(token: Seq<char>, get_status: u16, post_status: u16, body: Seq<u8>)
    -> Result<Seq<char>, FetchErrorView> {
    if !is_value_text(token) {
        Err(FetchErrorView::Header)
    } else if !spec_is_success(post_status) {
        Err(FetchErrorView::Status(post_status))
    } else if !spec_is_success(get_status) {
        Err(FetchErrorView::Status(get_status))
    } else {
        text_of(body)
    }
}

/// The action that the machine ends with when each of its actions is
/// answered in turn and none fails: the client is made ready, the GET is
/// answered with `get_status`, the POST with `post_status`, and the body, if
/// it is asked for, is `body`.
pub open spec fn last_action(
    url: Seq<char>,
    token: Seq<char>,
    get_status: u16,
    post_status: u16,
    body: Seq<u8>,
) -> ActionView {
    if first(url, token).1 is Finish {
        first(url, token).1
    } else {
        let answered = after_exchange(url, token, get_status, post_status);
        if answered.1 is Finish {
            answered.1
        } else {
            next(answered.0, EventView::Body(body)).1
        }
    }
}

/// The machine computes [`result_of`]: answered in turn and without failure,
/// it ends by telling the driver to stop with exactly that result.
pub proof fn lemma_machine_computes_result(
    url: Seq<char>,
    token: Seq<char>,
    get_status: u16,
    post_status: u16,
    body: Seq<u8>,
)
    ensures
        last_action(url, token, get_status, post_status, body) == ActionView::Finish(
            result_of(token, get_status, post_status, body),
        ),
{
}

} // verus!
