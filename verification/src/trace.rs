//! Whole connections: what the driver asks for over a sequence of events.

use crate::driver::{
    close_requested, rendering_view, report, steps_to, transition, ActionView, EventView, Next,
    State,
};
use crate::error::ResponseError;
use crate::message::{RequestView, ResponseView};
use vstd::prelude::*;

verus! {

/// One outcome that the caller reports. `rendering` is what the handler's
/// error rendered as, and is read only where `event` is such an error.
pub struct Outcome<E> {
    pub event: EventView<E>,
    pub rendering: Option<ResponseView>,
}

/// A connection so far: the state it stands in, and every action that the
/// driver has asked for, the pending one last.
pub struct Trace<E> {
    pub state: State<E>,
    pub actions: Seq<ActionView>,
}

/// The connection on which nothing has happened yet.
pub open spec fn fresh<E>() -> Trace<E> {
    Trace { state: State::AwaitingRequest, actions: seq![ActionView::Read] }
}

/// `trace` after one more outcome; `None` where the outcome is not that of
/// the pending action.
pub open spec fn extend<E>(trace: Trace<E>, outcome: Outcome<E>) -> Option<Trace<E>> {
    match transition(trace.state, outcome.event, outcome.rendering) {
        Some((state, action)) => Some(Trace { state, actions: trace.actions.push(action) }),
        None => None,
    }
}

/// The connection after the outcomes of `script`, in their order; `None`
/// where one of them is not the outcome of the action that was pending.
pub open spec fn run<E>(script: Seq<Outcome<E>>) -> Option<Trace<E>>
    decreases script.len(),
{
    if script.len() == 0 {
        Some(fresh())
    } else {
        match run(script.drop_last()) {
            Some(trace) => extend(trace, script.last()),
            None => None,
        }
    }
}

/// A request was decoded.
pub open spec fn read<E>(request: RequestView) -> Outcome<E> {
    Outcome { event: EventView::Read(Ok(request)), rendering: None }
}

/// The handler answered.
pub open spec fn answered<E>(response: ResponseView) -> Outcome<E> {
    Outcome { event: EventView::Handled(Ok(response)), rendering: None }
}

/// The handler failed with `error`, which rendered as `rendering`.
pub open spec fn failed<E>(error: E, rendering: Option<ResponseView>) -> Outcome<E> {
    Outcome { event: EventView::Handled(Err(error)), rendering }
}

/// The response was written.
pub open spec fn written<E>() -> Outcome<E> {
    Outcome { event: EventView::Written(Ok(())), rendering: None }
}

/// Every step that the driver may take is a transition: the one that follows
/// what the error rendered as, where an error was asked to render itself.
pub proof fn lemma_step_is_transition<E: ResponseError>(
    state: State<E>,
    event: EventView<E>,
    step: Option<(State<E>, ActionView)>,
)
    requires
        steps_to(state, event, step),
    ensures
        exists|rendering: Option<ResponseView>| step == #[trigger] transition(
            state,
            event,
            rendering,
        ),
{
    match (state, event) {
        (State::Dispatching { .. }, EventView::Handled(Err(error))) => {
            let rendered = choose|rendered|
                #[trigger] call_ensures(E::to_response, (&error,), rendered) && step == Some(
                    report(error, rendering_view(rendered)),
                );
            assert(step == transition(state, event, rendering_view(rendered)));
        },
        _ => {
            assert(step == transition(state, event, None));
        },
    }
}

/// An error of the handler that renders is reported as it is: the step that
/// the driver takes on it writes a response with the error's status code as
/// its status and the error's words as its body, and keeps the error for
/// the end of the connection.
pub proof fn lemma_rendering_error_is_reported<E: ResponseError>(
    close: bool,
    error: E,
    step: Option<(State<E>, ActionView)>,
)
    requires
        steps_to(State::Dispatching { close }, EventView::Handled(Err(error)), step),
        error.renders(),
    ensures
        step matches Some((state, ActionView::Write(page))) && state == (State::Responding {
            next: Next::Fail(error),
        }) && page.status == error.status() && page.body == vstd::utf8::encode_utf8(
            error.text(),
        ),
{
    let rendered = choose|rendered|
        #[trigger] call_ensures(E::to_response, (&error,), rendered) && step == Some(
            report(error, rendering_view(rendered)),
        );
    assert(rendered is Ok);
}

/// Running one outcome more is extending the run so far.
pub proof fn lemma_run_push<E>(script: Seq<Outcome<E>>, outcome: Outcome<E>)
    ensures
        run(script.push(outcome)) == match run(script) {
            Some(trace) => extend(trace, outcome),
            None => None,
        },
{
    assert(script.push(outcome).drop_last() =~= script);
}

/// A connection that has ended takes no further step: whatever is reported
/// to it, nothing is read, dispatched or written any more.
pub proof fn lemma_ended_is_final<E>(state: State<E>, outcome: Outcome<E>)
    requires
        state.ended(),
    ensures
        transition(state, outcome.event, outcome.rendering) is None,
{
}

/// The pending action is decided by the state alone: a request is read only
/// while one is awaited, the handler runs only on a request just read, a
/// response is written only after the handler has returned, and the driver
/// stops exactly when the connection has ended.
pub open spec fn pending<E>(state: State<E>, action: ActionView) -> bool {
    match state {
        State::AwaitingRequest => action is Read,
        State::Dispatching { .. } => action is Dispatch,
        State::Responding { .. } => action is Write,
        State::Closed => action is Stop,
        State::Failed(_) => action is Stop,
    }
}

/// Over every run there is one action more than outcomes, and the last
/// action is the one that the state has pending: the driver has stopped
/// exactly when the connection has ended.
pub proof fn lemma_run_pending<E>(script: Seq<Outcome<E>>)
    requires
        run(script) is Some,
    ensures
        run(script).unwrap().actions.len() == script.len() + 1,
        pending(run(script).unwrap().state, run(script).unwrap().actions.last()),
        run(script).unwrap().actions.last() is Stop <==> run(script).unwrap().state.ended(),
    decreases script.len(),
{
    if script.len() > 0 {
        lemma_run_pending(script.drop_last());
    }
}

/// A run's beginning is a run of its own, and its actions are the beginning
/// of the whole run's actions.
pub proof fn lemma_run_prefix<E>(script: Seq<Outcome<E>>, n: int)
    requires
        run(script) is Some,
        0 <= n <= script.len(),
    ensures
        run(script.take(n)) is Some,
        run(script.take(n)).unwrap().actions =~= run(script).unwrap().actions.take(n + 1),
    decreases script.len() - n,
{
    lemma_run_pending(script);
    if n == script.len() {
        assert(script.take(n) =~= script);
    } else {
        lemma_run_prefix(script, n + 1);
        assert(script.take(n + 1).drop_last() =~= script.take(n));
        lemma_run_pending(script.take(n));
    }
}

/// At most one request is in flight. In every run, each action but the
/// first follows the one that its turn requires: a request is dispatched
/// right after it was read, a response is written right after the handler
/// returned, and the next request is read only right after a response was
/// written in full. Once the driver stops it asks for nothing more.
pub proof fn lemma_one_request_in_flight<E>(script: Seq<Outcome<E>>, i: int)
    requires
        run(script) is Some,
        0 <= i < script.len(),
    ensures
        ({
            let actions = run(script).unwrap().actions;
            &&& actions[0] is Read
            &&& actions[i + 1] is Dispatch ==> actions[i] is Read
            &&& actions[i + 1] is Write ==> actions[i] is Dispatch
            &&& actions[i + 1] is Read ==> actions[i] is Write && script[i].event is Written
                && script[i].event->Written_0 is Ok
            &&& !(actions[i] is Stop)
        }),
{
    lemma_run_prefix(script, 0);
    assert(script.take(0) =~= Seq::<Outcome<E>>::empty());
    lemma_run_prefix(script, i);
    lemma_run_prefix(script, i + 1);
    let before = script.take(i);
    let after = script.take(i + 1);
    assert(after.drop_last() =~= before);
    assert(after.last() == script[i]);
    lemma_run_pending(before);
    lemma_run_pending(after);
    lemma_run_push(before, script[i]);
    assert(before.push(script[i]) =~= after);
    lemma_run_pending(script);
    let actions = run(script).unwrap().actions;
    assert(run(before).unwrap().actions.last() == actions.take(i + 1).last());
    assert(run(after).unwrap().actions.last() == actions.take(i + 2).last());
    assert(run(script.take(0)).unwrap().actions[0] == actions.take(1)[0]);
}

/// A persistent connection goes on. Where a request that does not ask for
/// `close` is read while one is awaited, and the handler answers it, the
/// answer is written and the next request is read on the same connection.
pub proof fn lemma_persistent_connection_reads_again<E>(
    script: Seq<Outcome<E>>,
    request: RequestView,
    response: ResponseView,
)
    requires
        run(script) is Some,
        run(script).unwrap().state is AwaitingRequest,
        !close_requested(request),
    ensures
        run(script + seq![read(request), answered(response), written()]) == Some(
            Trace {
                state: State::<E>::AwaitingRequest,
                actions: run(script).unwrap().actions + seq![
                    ActionView::Dispatch(request),
                    ActionView::Write(response),
                    ActionView::Read,
                ],
            },
        ),
{
    let s1 = script.push(read(request));
    let s2 = s1.push(answered(response));
    let s3 = s2.push(written());
    lemma_run_push(script, read(request));
    lemma_run_push(s1, answered(response));
    lemma_run_push(s2, written());
    assert(s3 =~= script + seq![read(request), answered(response), written()]);
    let actions = run(script).unwrap().actions;
    assert(actions.push(ActionView::Dispatch(request)).push(ActionView::Write(response)).push(
        ActionView::Read,
    ) =~= actions + seq![
        ActionView::Dispatch(request),
        ActionView::Write(response),
        ActionView::Read,
    ]);
}

/// On a fresh connection, two requests that do not ask for `close` are both
/// read and answered, one after the other, and a third is then awaited.
pub proof fn lemma_two_requests_are_answered<E>(
    first: RequestView,
    first_response: ResponseView,
    second: RequestView,
    second_response: ResponseView,
)
    requires
        !close_requested(first),
        !close_requested(second),
    ensures
        run::<E>(
            seq![
                read(first),
                answered(first_response),
                written(),
                read(second),
                answered(second_response),
                written(),
            ],
        ) == Some(
            Trace {
                state: State::<E>::AwaitingRequest,
                actions: seq![
                    ActionView::Read,
                    ActionView::Dispatch(first),
                    ActionView::Write(first_response),
                    ActionView::Read,
                    ActionView::Dispatch(second),
                    ActionView::Write(second_response),
                    ActionView::Read,
                ],
            },
        ),
{
    let empty = Seq::<Outcome<E>>::empty();
    let one = seq![read::<E>(first), answered(first_response), written()];
    let two = seq![read::<E>(second), answered(second_response), written()];
    assert(run(empty) == Some(fresh::<E>()));
    lemma_persistent_connection_reads_again(empty, first, first_response);
    assert(empty + one =~= one);
    lemma_persistent_connection_reads_again(one, second, second_response);
    assert(one + two =~= seq![
        read(first),
        answered(first_response),
        written(),
        read(second),
        answered(second_response),
        written(),
    ]);
    assert(fresh::<E>().actions + seq![
        ActionView::Dispatch(first),
        ActionView::Write(first_response),
        ActionView::Read,
    ] + seq![
        ActionView::Dispatch(second),
        ActionView::Write(second_response),
        ActionView::Read,
    ] =~= seq![
        ActionView::Read,
        ActionView::Dispatch(first),
        ActionView::Write(first_response),
        ActionView::Read,
        ActionView::Dispatch(second),
        ActionView::Write(second_response),
        ActionView::Read,
    ]);
}

/// A request that asks for `close` ends the connection. Where it is read
/// while one is awaited, and the handler answers it, the one answer is
/// written, the driver stops with the connection closed, and no outcome
/// whatever makes it read again.
pub proof fn lemma_close_ends_after_one_response<E>(
    script: Seq<Outcome<E>>,
    request: RequestView,
    response: ResponseView,
    later: Outcome<E>,
)
    requires
        run(script) is Some,
        run(script).unwrap().state is AwaitingRequest,
        close_requested(request),
    ensures
        run(script + seq![read(request), answered(response), written()]) == Some(
            Trace {
                state: State::<E>::Closed,
                actions: run(script).unwrap().actions + seq![
                    ActionView::Dispatch(request),
                    ActionView::Write(response),
                    ActionView::Stop,
                ],
            },
        ),
        run((script + seq![read(request), answered(response), written()]).push(later)) is None,
{
    let s1 = script.push(read(request));
    let s2 = s1.push(answered(response));
    let s3 = s2.push(written());
    lemma_run_push(script, read(request));
    lemma_run_push(s1, answered(response));
    lemma_run_push(s2, written());
    lemma_run_push(s3, later);
    assert(s3 =~= script + seq![read(request), answered(response), written()]);
    let actions = run(script).unwrap().actions;
    assert(actions.push(ActionView::Dispatch(request)).push(ActionView::Write(response)).push(
        ActionView::Stop,
    ) =~= actions + seq![
        ActionView::Dispatch(request),
        ActionView::Write(response),
        ActionView::Stop,
    ]);
}

/// An error of the handler that renders is reported and then returned.
/// Where the handler fails on a request and the error renders as `page`,
/// exactly `page` is written, and once it is written the connection has
/// failed with that same error.
pub proof fn lemma_rendered_error_is_written_then_returned<E>(
    script: Seq<Outcome<E>>,
    request: RequestView,
    error: E,
    page: ResponseView,
)
    requires
        run(script) is Some,
        run(script).unwrap().state is AwaitingRequest,
    ensures
        run(script + seq![read(request), failed(error, Some(page)), written()]) == Some(
            Trace {
                state: State::Failed(error),
                actions: run(script).unwrap().actions + seq![
                    ActionView::Dispatch(request),
                    ActionView::Write(page),
                    ActionView::Stop,
                ],
            },
        ),
{
    let s1 = script.push(read(request));
    let s2 = s1.push(failed(error, Some(page)));
    let s3 = s2.push(written());
    lemma_run_push(script, read(request));
    lemma_run_push(s1, failed(error, Some(page)));
    lemma_run_push(s2, written());
    assert(s3 =~= script + seq![read(request), failed(error, Some(page)), written()]);
    let actions = run(script).unwrap().actions;
    assert(actions.push(ActionView::Dispatch(request)).push(ActionView::Write(page)).push(
        ActionView::Stop,
    ) =~= actions + seq![
        ActionView::Dispatch(request),
        ActionView::Write(page),
        ActionView::Stop,
    ]);
}

/// An error of the handler that does not render is returned in silence.
/// Where the handler fails on a request and the error renders as nothing,
/// the driver stops at once: nothing is written after the request was read,
/// and the connection has failed with that same error.
pub proof fn lemma_unrendered_error_writes_nothing<E>(
    script: Seq<Outcome<E>>,
    request: RequestView,
    error: E,
)
    requires
        run(script) is Some,
        run(script).unwrap().state is AwaitingRequest,
    ensures
        run(script + seq![read(request), failed(error, None)]) == Some(
            Trace {
                state: State::Failed(error),
                actions: run(script).unwrap().actions + seq![
                    ActionView::Dispatch(request),
                    ActionView::Stop,
                ],
            },
        ),
{
    let s1 = script.push(read(request));
    let s2 = s1.push(failed(error, None));
    lemma_run_push(script, read(request));
    lemma_run_push(s1, failed(error, None));
    assert(s2 =~= script + seq![read(request), failed(error, None)]);
    let actions = run(script).unwrap().actions;
    assert(actions.push(ActionView::Dispatch(request)).push(ActionView::Stop) =~= actions + seq![
        ActionView::Dispatch(request),
        ActionView::Stop,
    ]);
}

/// A connection closes only because a request asked for it. Every run that
/// ends closed ends with a request that asked for `close`, the handler's
/// answer to it, and that answer written.
pub proof fn lemma_closed_only_on_request<E>(script: Seq<Outcome<E>>)
    requires
        run(script) is Some,
        run(script).unwrap().state is Closed,
    ensures
        script.len() >= 3,
        ({
            let n = script.len() - 3;
            &&& script[n].event matches EventView::Read(Ok(request)) && close_requested(request)
            &&& script[n + 1].event matches EventView::Handled(Ok(response))
                && run(script).unwrap().actions[n + 2] == ActionView::Write(response)
            &&& script[n + 2].event is Written && script[n + 2].event->Written_0 is Ok
        }),
{
    let s3 = script;
    assert(s3.len() > 0);
    let s2 = s3.drop_last();
    assert(run(s2) is Some);
    assert(s2.len() > 0);
    let s1 = s2.drop_last();
    assert(run(s1) is Some);
    assert(s1.len() > 0);
    let s0 = s1.drop_last();
    assert(run(s0) is Some);
    assert(s2.last() == script[script.len() - 2]);
    assert(s1.last() == script[script.len() - 3]);
    lemma_run_pending(s2);
}

/// A failure of the transport ends the connection with that failure: a
/// request that cannot be read, and an answer of the handler that cannot be
/// written, both leave the connection failed with the transport's error, and
/// the driver stops.
pub proof fn lemma_transport_failure_is_fatal<E>(state: State<E>, error: E)
    ensures
        state is AwaitingRequest ==> transition(state, EventView::Read(Err(error)), None) == Some(
            (State::Failed(error), ActionView::Stop),
        ),
        state matches State::Responding { next } && !(next is Fail) ==> transition(
            state,
            EventView::Written(Err(error)),
            None,
        ) == Some((State::Failed(error), ActionView::Stop)),
{
}

/// An error of the handler is the one that ends the connection, whatever
/// becomes of its rendering: written or not, the connection has failed with
/// the handler's error, and a failure of the write does not take its place.
pub proof fn lemma_handler_error_is_returned<E>(
    script: Seq<Outcome<E>>,
    request: RequestView,
    error: E,
    page: ResponseView,
    written: Result<(), E>,
)
    requires
        run(script) is Some,
        run(script).unwrap().state is AwaitingRequest,
    ensures
        run(
            script + seq![
                read(request),
                failed(error, Some(page)),
                Outcome { event: EventView::Written(written), rendering: None },
            ],
        ) == Some(
            Trace {
                state: State::Failed(error),
                actions: run(script).unwrap().actions + seq![
                    ActionView::Dispatch(request),
                    ActionView::Write(page),
                    ActionView::Stop,
                ],
            },
        ),
{
    let last = Outcome::<E> { event: EventView::Written(written), rendering: None };
    let s1 = script.push(read(request));
    let s2 = s1.push(failed(error, Some(page)));
    let s3 = s2.push(last);
    lemma_run_push(script, read(request));
    lemma_run_push(s1, failed(error, Some(page)));
    lemma_run_push(s2, last);
    assert(s3 =~= script + seq![read(request), failed(error, Some(page)), last]);
    let actions = run(script).unwrap().actions;
    assert(actions.push(ActionView::Dispatch(request)).push(ActionView::Write(page)).push(
        ActionView::Stop,
    ) =~= actions + seq![
        ActionView::Dispatch(request),
        ActionView::Write(page),
        ActionView::Stop,
    ]);
}

/// An error of the handler always ends the connection: whether or not it
/// renders, and whether or not the request asked for `close`, no request is
/// read after it.
pub proof fn lemma_handler_error_ends_connection<E>(
    close: bool,
    error: E,
    rendering: Option<ResponseView>,
    outcome: Outcome<E>,
)
    ensures
        ({
            let after = transition(
                State::<E>::Dispatching { close },
                EventView::Handled(Err(error)),
                rendering,
            ).unwrap();
            &&& !(after.1 is Read)
            &&& transition(after.0, outcome.event, outcome.rendering) matches Some(last)
                ==> last.0.ended() && last.1 is Stop
        }),
{
}

} // verus!
