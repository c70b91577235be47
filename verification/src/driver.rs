//! The connection driver: which action follows which event.
//!
//! A connection starts in [`State::AwaitingRequest`] with the action
//! [`Action::Read`] pending. The caller performs the pending action, reports
//! its outcome as an [`Event`] to [`step`], and gets the next state and the
//! next action back, until the action is [`Action::Stop`].

use crate::error::{RenderError, ResponseError};
use crate::message::{bytes_equal, header_value, Request, RequestView, Response, ResponseView};
use vstd::prelude::*;
use vstd::string::StringSliceAdditionalSpecFns;

verus! {

/// The name of the header that decides whether a connection persists.
pub open spec fn connection_name() -> Seq<u8> {
    "Connection".spec_bytes()
}

/// The value of that header that ends the connection.
pub open spec fn close_token() -> Seq<u8> {
    "close".spec_bytes()
}

/// Whether a request asks for the connection to end after its response: its
/// first `Connection` header is there and holds exactly `close`.
pub open spec fn close_requested(request: RequestView) -> bool {
    header_value(request.headers, connection_name()) == Some(close_token())
}

/// The two words byte by byte: `Connection` and `close` in ASCII.
pub proof fn lemma_connection_close_bytes()
    ensures
        connection_name() == seq![
            0x43u8, 0x6f, 0x6e, 0x6e, 0x65, 0x63, 0x74, 0x69, 0x6f, 0x6e,
        ],
        close_token() == seq![0x63u8, 0x6c, 0x6f, 0x73, 0x65],
{
    broadcast use vstd::string::is_ascii_spec_bytes;

    reveal_strlit("Connection");
    reveal_strlit("close");
    assert(vstd::string::is_ascii("Connection"));
    assert(vstd::string::is_ascii("close"));
    assert(connection_name() =~= seq![
        0x43u8, 0x6f, 0x6e, 0x6e, 0x65, 0x63, 0x74, 0x69, 0x6f, 0x6e,
    ]);
    assert(close_token() =~= seq![0x63u8, 0x6c, 0x6f, 0x73, 0x65]);
}

/// Whether `request` asks for the connection to end after its response.
pub fn wants_close(request: &Request) -> (close: bool)
    ensures
        close == close_requested(request@),
{
    match request.header("Connection".as_bytes()) {
        Some(value) => bytes_equal(value.as_slice(), "close".as_bytes()),
        None => false,
    }
}

/// What follows a response once it is written.
#[derive(Debug, PartialEq, Eq)]
pub enum Next<E> {
    /// The connection persists: the next request is read.
    Continue,
    /// The request asked for the connection to end.
    Close,
    /// The response reports this error of the handler, which ends the
    /// connection whether or not the response can be written.
    Fail(E),
}

/// Where a connection stands.
#[derive(Debug, PartialEq, Eq)]
pub enum State<E> {
    /// A request is being read.
    AwaitingRequest,
    /// The handler is at work on a request; `close` is what that request
    /// asked for.
    Dispatching { close: bool },
    /// A response is being written.
    Responding { next: Next<E> },
    /// The connection ended as a request asked.
    Closed,
    /// The connection ended with an error.
    Failed(E),
}

/// The outcome of the action that was pending.
#[derive(Debug, PartialEq, Eq)]
pub enum Event<E> {
    /// The wire codec decoded a request, or failed.
    Read(Result<Request, E>),
    /// The handler answered, or failed.
    Handled(Result<Response, E>),
    /// The wire codec wrote the response, or failed.
    Written(Result<(), E>),
}

/// What an event holds.
pub enum EventView<E> {
    Read(Result<RequestView, E>),
    Handled(Result<ResponseView, E>),
    Written(Result<(), E>),
}

impl<E> View for Event<E> {
    type V = EventView<E>;

    open spec fn view(&self) -> EventView<E> {
        match *self {
            Event::Read(Ok(request)) => EventView::Read(Ok(request@)),
            Event::Read(Err(error)) => EventView::Read(Err(error)),
            Event::Handled(Ok(response)) => EventView::Handled(Ok(response@)),
            Event::Handled(Err(error)) => EventView::Handled(Err(error)),
            Event::Written(outcome) => EventView::Written(outcome),
        }
    }
}

/// What the caller is to do next.
#[derive(Debug, PartialEq, Eq)]
pub enum Action {
    /// Decode one request from the stream.
    Read,
    /// Call the handler with this request and a fresh context.
    Dispatch(Request),
    /// Encode this response and write it to the stream.
    Write(Response),
    /// Nothing more: the connection has ended.
    Stop,
}

/// What an action holds.
pub enum ActionView {
    Read,
    Dispatch(RequestView),
    Write(ResponseView),
    Stop,
}

impl View for Action {
    type V = ActionView;

    open spec fn view(&self) -> ActionView {
        match *self {
            Action::Read => ActionView::Read,
            Action::Dispatch(request) => ActionView::Dispatch(request@),
            Action::Write(response) => ActionView::Write(response@),
            Action::Stop => ActionView::Stop,
        }
    }
}

/// What follows the response to a request that asked for `close`, or did not.
pub open spec fn after_response<E>(close: bool) -> Next<E> {
    if close {
        Next::Close
    } else {
        Next::Continue
    }
}

/// The state and the action that follow the handler's error `error`, given
/// what it renders as: the rendering is written and the error kept for the
/// end; with nothing to write the connection ends at once.
pub open spec fn report<E>(error: E, rendering: Option<ResponseView>) -> (State<E>, ActionView) {
    match rendering {
        Some(page) => (State::Responding { next: Next::Fail(error) }, ActionView::Write(page)),
        None => (State::Failed(error), ActionView::Stop),
    }
}

/// The state and the action that follow `event` in `state`; `None` where
/// `event` is not the outcome of the action that is pending in `state`.
/// `rendering` is what the handler's error renders as, and is read only
/// where `event` is such an error.
///
/// A request or a response that the codec fails on ends the connection with
/// the codec's error. An error of the handler ends the connection with that
/// error: once its rendering is written, at once where it has none, and also
/// where its rendering cannot be written.
pub open spec fn transition<E>(
    state: State<E>,
    event: EventView<E>,
    rendering: Option<ResponseView>,
) -> Option<(State<E>, ActionView)> {
    match (state, event) {
        (State::AwaitingRequest, EventView::Read(Ok(request))) => Some(
            (State::Dispatching { close: close_requested(request) }, ActionView::Dispatch(request)),
        ),
        (State::AwaitingRequest, EventView::Read(Err(error))) => Some(
            (State::Failed(error), ActionView::Stop),
        ),
        (State::Dispatching { close }, EventView::Handled(Ok(response))) => Some(
            (State::Responding { next: after_response(close) }, ActionView::Write(response)),
        ),
        (State::Dispatching { close }, EventView::Handled(Err(error))) => Some(
            report(error, rendering),
        ),
        (State::Responding { next }, EventView::Written(Ok(()))) => Some(
            match next {
                Next::Continue => (State::AwaitingRequest, ActionView::Read),
                Next::Close => (State::Closed, ActionView::Stop),
                Next::Fail(error) => (State::Failed(error), ActionView::Stop),
            },
        ),
        (State::Responding { next }, EventView::Written(Err(error))) => Some(
            match next {
                Next::Fail(kept) => (State::Failed(kept), ActionView::Stop),
                _ => (State::Failed(error), ActionView::Stop),
            },
        ),
        _ => None,
    }
}

/// What the outcome of rendering an error holds.
pub open spec fn rendering_view(rendered: Result<Response, RenderError>) -> Option<ResponseView> {
    match rendered {
        Ok(page) => Some(page@),
        Err(_) => None,
    }
}

/// A step as contracts speak of it: the action by what it holds.
pub open spec fn step_view<E>(step: Option<(State<E>, Action)>) -> Option<(State<E>, ActionView)> {
    match step {
        Some((state, action)) => Some((state, action@)),
        None => None,
    }
}

/// Whether `step` is a step that `event` may lead to from `state`. Where a
/// handler's error is reported while the handler was at work, the step is
/// the one that follows some answer that the error may give when it is asked
/// to render itself; every other step is decided by `state` and `event`
/// alone.
pub open spec fn steps_to<E: ResponseError>(
    state: State<E>,
    event: EventView<E>,
    step: Option<(State<E>, ActionView)>,
) -> bool {
    match (state, event) {
        (State::Dispatching { .. }, EventView::Handled(Err(error))) => exists|
            rendered: Result<Response, RenderError>,
        |
            #[trigger] call_ensures(E::to_response, (&error,), rendered) && step == Some(
                report(error, rendering_view(rendered)),
            ),
        _ => step == transition(state, event, None),
    }
}

/// The state and the action that follow the handler's error `error`, given
/// the outcome of rendering it.
pub fn after_rendering<E>(error: E, rendered: Result<Response, RenderError>) -> (r: (
    State<E>,
    Action,
))
    ensures
        (r.0, r.1@) == report(error, rendering_view(rendered)),
{
    match rendered {
        Ok(page) => (State::Responding { next: Next::Fail(error) }, Action::Write(page)),
        Err(_) => (State::Failed(error), Action::Stop),
    }
}

/// The state in which a connection starts, and its first action.
pub fn start<E>() -> (r: (State<E>, Action))
    ensures
        r.0 == State::<E>::AwaitingRequest,
        r.1@ == ActionView::Read,
{
    (State::AwaitingRequest, Action::Read)
}

/// Takes `state` one step on: the state and the action that follow `event`,
/// or `None` where `event` is not the outcome of the action that is pending
/// in `state`. Where `event` is an error of the handler, the error is asked
/// to render itself, and the step is the one that follows what it answered.
pub fn step<E: ResponseError>(state: State<E>, event: Event<E>) -> (r: Option<(State<E>, Action)>)
    ensures
        steps_to(state, event@, step_view(r)),
{
    match (state, event) {
        (State::AwaitingRequest, Event::Read(Ok(request))) => {
            let close = wants_close(&request);
            Some((State::Dispatching { close }, Action::Dispatch(request)))
        },
        (State::AwaitingRequest, Event::Read(Err(error))) => Some(
            (State::Failed(error), Action::Stop),
        ),
        (State::Dispatching { close }, Event::Handled(Ok(response))) => {
            let next = if close {
                Next::Close
            } else {
                Next::Continue
            };
            Some((State::Responding { next }, Action::Write(response)))
        },
        (State::Dispatching { close: _ }, Event::Handled(Err(error))) => {
            let rendered = error.to_response();
            assert(call_ensures(E::to_response, (&error,), rendered));
            Some(after_rendering(error, rendered))
        },
        (State::Responding { next }, Event::Written(Ok(()))) => Some(
            match next {
                Next::Continue => (State::AwaitingRequest, Action::Read),
                Next::Close => (State::Closed, Action::Stop),
                Next::Fail(error) => (State::Failed(error), Action::Stop),
            },
        ),
        (State::Responding { next }, Event::Written(Err(error))) => Some(
            match next {
                Next::Fail(kept) => (State::Failed(kept), Action::Stop),
                _ => (State::Failed(error), Action::Stop),
            },
        ),
        _ => None,
    }
}

impl<E> State<E> {
    /// Whether the connection has ended.
    pub open spec fn ended(self) -> bool {
        self is Closed || self is Failed
    }

    /// How the connection ended: with success where a request asked for it
    /// to end, with the error where it failed; `None` while it goes on.
    pub open spec fn result(self) -> Option<Result<(), E>> {
        match self {
            State::Closed => Some(Ok(())),
            State::Failed(error) => Some(Err(error)),
            _ => None,
        }
    }

    /// Whether the connection has ended.
    pub fn is_ended(&self) -> (b: bool)
        ensures
            b == self.ended(),
    {
        match self {
            State::Closed => true,
            State::Failed(_) => true,
            _ => false,
        }
    }

    /// How the connection ended; `None` while it goes on.
    pub fn outcome(self) -> (r: Option<Result<(), E>>)
        ensures
            r == self.result(),
    {
        match self {
            State::Closed => Some(Ok(())),
            State::Failed(error) => Some(Err(error)),
            _ => None,
        }
    }
}

} // verus!
