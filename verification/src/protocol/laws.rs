//! What holds of a protocol over any course of events.
use crate::error::McpErrorView;
use crate::json;
use crate::json::JsonView;
use crate::protocol;
use crate::protocol::message::ResponseView;
use crate::protocol::{IncomingView, ProtocolView};
use crate::transport::message::MessageView;
use crate::transport::EventView;
use vstd::prelude::*;

verus! {

/// One thing that happens to a protocol.
pub enum Step<P, W> {
    /// A request is made.
    Request(Option<P>, W),
    /// A request is made whose parameters cannot be turned into JSON.
    BadRequest,
    /// The transport tells something, or is gone.
    Event(Option<EventView>),
    /// A request comes to its end.
    Finish(u64),
    /// The connection is taken up, or given up.
    Connected(bool),
}

impl<R, N, W, P> ProtocolView<R, N, W, P> {
    /// The protocol after one thing happened.
    pub open spec fn step(self, step: Step<P, W>) -> ProtocolView<R, N, W, P> {
        match step {
            Step::Request(on_progress, handler) => self.requested(on_progress, handler),
            Step::BadRequest => ProtocolView { last_id: (self.last_id + 1) as u64, ..self },
            Step::Event(event) => self.notified(event),
            Step::Finish(id) => self.finished(id),
            Step::Connected(connected) => ProtocolView { connected, ..self },
        }
    }

    /// The protocol after several things happened, one after the other.
    pub open spec fn run(self, steps: Seq<Step<P, W>>) -> ProtocolView<R, N, W, P>
        decreases steps.len(),
    {
        if steps.len() == 0 {
            self
        } else {
            self.run(steps.drop_last()).step(steps.last())
        }
    }
}

/// Whatever happens, whoever waits does so under an id that was used, and ids only grow.
pub proof fn ids_stay_in_order<R, N, W, P>(
    protocol: ProtocolView<R, N, W, P>,
    steps: Seq<Step<P, W>>,
)
    requires
        protocol.ids_are_used(),
        protocol.last_id + steps.len() <= u64::MAX,
    ensures
        protocol.run(steps).ids_are_used(),
        protocol.last_id <= protocol.run(steps).last_id <= protocol.last_id + steps.len(),
    decreases steps.len(),
{
    if steps.len() > 0 {
        ids_stay_in_order(protocol, steps.drop_last());
    }
}

/// The id of a request is one under which nobody waits, and nobody hears of progress.
pub proof fn request_id_is_fresh<R, N, W, P>(protocol: ProtocolView<R, N, W, P>)
    requires
        protocol.ids_are_used(),
        protocol.last_id < u64::MAX,
    ensures
        !protocol.response_handlers.contains_key((protocol.last_id + 1) as u64),
        !protocol.progress_handlers.contains_key((protocol.last_id + 1) as u64),
{
}

/// Two requests never have the same id, whatever happens between them.
pub proof fn request_ids_never_repeat<R, N, W, P>(
    protocol: ProtocolView<R, N, W, P>,
    first: (Option<P>, W),
    between: Seq<Step<P, W>>,
    second: (Option<P>, W),
)
    requires
        protocol.ids_are_used(),
        protocol.last_id + between.len() + 2 <= u64::MAX,
    ensures
        protocol.requested(first.0, first.1).last_id < protocol.requested(first.0, first.1).run(
            between,
        ).requested(second.0, second.1).last_id,
{
    ids_stay_in_order(protocol.requested(first.0, first.1), between);
}

/// Under an id that was used and is waited under no more, nobody waits ever again.
proof fn nobody_waits_again<R, N, W, P>(
    protocol: ProtocolView<R, N, W, P>,
    id: u64,
    steps: Seq<Step<P, W>>,
)
    requires
        protocol.ids_are_used(),
        protocol.last_id + steps.len() <= u64::MAX,
        id <= protocol.last_id,
        !protocol.response_handlers.contains_key(id),
    ensures
        !protocol.run(steps).response_handlers.contains_key(id),
    decreases steps.len(),
{
    if steps.len() > 0 {
        ids_stay_in_order(protocol, steps.drop_last());
        nobody_waits_again(protocol, id, steps.drop_last());
    }
}

/// A response is delivered once: a second response under the same id is ignored, whatever
/// happened since.
pub proof fn response_is_delivered_once<R, N, W, P>(
    protocol: ProtocolView<R, N, W, P>,
    first: ResponseView,
    between: Seq<Step<P, W>>,
    second: ResponseView,
)
    requires
        protocol.ids_are_used(),
        protocol.last_id + between.len() <= u64::MAX,
        first.id == second.id,
        protocol.response_handlers.contains_key(first.id),
    ensures
        protocol.reaction(Some(EventView::Message(MessageView::Response(first))))
            == IncomingView::Response(protocol.response_handlers[first.id], first),
        protocol.notified(Some(EventView::Message(MessageView::Response(first)))).run(
            between,
        ).reaction(Some(EventView::Message(MessageView::Response(second))))
            == IncomingView::<W>::Ignored,
{
    let after = protocol.notified(Some(EventView::Message(MessageView::Response(first))));
    nobody_waits_again(after, first.id, between);
}

/// The step is that a response under `id` comes.
pub open spec fn is_response<P, W>(step: Step<P, W>, id: u64) -> bool {
    match step {
        Step::Event(Some(EventView::Message(MessageView::Response(response)))) => response.id == id,
        _ => false,
    }
}

/// No response under `id` is among the steps.
pub open spec fn no_response<P, W>(steps: Seq<Step<P, W>>, id: u64) -> bool {
    forall|i: int| 0 <= i < steps.len() ==> !is_response(#[trigger] steps[i], id)
}

/// Whoever waits keeps waiting until the response comes.
proof fn waiter_stays<R, N, W, P>(
    protocol: ProtocolView<R, N, W, P>,
    id: u64,
    steps: Seq<Step<P, W>>,
)
    requires
        protocol.ids_are_used(),
        protocol.last_id + steps.len() <= u64::MAX,
        protocol.response_handlers.contains_key(id),
        no_response(steps, id),
    ensures
        protocol.run(steps).response_handlers.contains_pair(id, protocol.response_handlers[id]),
    decreases steps.len(),
{
    if steps.len() > 0 {
        let init = steps.drop_last();
        assert forall|i: int| 0 <= i < init.len() implies !is_response(#[trigger] init[i], id) by {
            assert(steps[i] == init[i]);
        }
        ids_stay_in_order(protocol, init);
        waiter_stays(protocol, id, init);
        assert(steps[steps.len() - 1] == steps.last());
    }
}

/// The first response under a request's id goes to the one who waits for that request, whatever
/// else happened since.
pub proof fn response_reaches_its_request<R, N, W, P>(
    protocol: ProtocolView<R, N, W, P>,
    on_progress: Option<P>,
    handler: W,
    between: Seq<Step<P, W>>,
    response: ResponseView,
)
    requires
        protocol.ids_are_used(),
        protocol.last_id + between.len() + 1 <= u64::MAX,
        response.id == protocol.last_id + 1,
        no_response(between, response.id),
    ensures
        protocol.requested(on_progress, handler).run(between).reaction(
            Some(EventView::Message(MessageView::Response(response))),
        ) == IncomingView::Response(handler, response),
{
    waiter_stays(protocol.requested(on_progress, handler), response.id, between);
}

/// A response nobody waits for is ignored, and changes nothing.
pub proof fn stray_response_is_ignored<R, N, W, P>(
    protocol: ProtocolView<R, N, W, P>,
    response: ResponseView,
)
    requires
        !protocol.response_handlers.contains_key(response.id),
    ensures
        protocol.reaction(Some(EventView::Message(MessageView::Response(response))))
            == IncomingView::<W>::Ignored,
        protocol.notified(Some(EventView::Message(MessageView::Response(response)))) == protocol,
{
    assert(protocol.response_handlers.remove(response.id) =~= protocol.response_handlers);
}

/// A request that has come to its end is told of no progress, and no other request's progress is
/// lost.
pub proof fn finished_request_has_no_progress<R, N, W, P>(
    protocol: ProtocolView<R, N, W, P>,
    id: u64,
    other: u64,
)
    ensures
        !protocol.finished(id).progress_handlers.contains_key(id),
        other != id && protocol.progress_handlers.contains_key(other) ==> protocol.finished(
            id,
        ).progress_handlers.contains_pair(other, protocol.progress_handlers[other]),
{
}

/// The answer to a request has the request's id, and either a result or an error, never both.
pub proof fn answer_fits_its_request(id: u64, result: Result<JsonView, McpErrorView>)
    ensures
        ({
            let response = protocol::answer(id, result);
            &&& response.id == id
            &&& response.jsonrpc == "2.0"@
            &&& response.result is Some == result is Ok
            &&& response.error is Some == result is Err
        }),
{
}

impl<R, N, W, P> ProtocolView<R, N, W, P> {
    /// All that a connection sends of itself while events come in, one after the other, until it
    /// listens no longer. `results` holds what the handler came to for each event that is a
    /// request; it says nothing for the others.
    pub open spec fn served(
        self,
        events: Seq<Option<EventView>>,
        results: Seq<Result<JsonView, McpErrorView>>,
    ) -> Seq<ResponseView>
        decreases events.len(),
    {
        if events.len() == 0 {
            Seq::empty()
        } else {
            let later = self.notified(events[0]).served(events.skip(1), results.skip(1));
            match self.reaction(events[0]) {
                IncomingView::Stopped => Seq::empty(),
                IncomingView::Request(request) => Seq::empty().push(
                    protocol::answer(request.id, results[0]),
                ) + later,
                _ => later,
            }
        }
    }

    /// The event is a request that there is a handler for.
    pub open spec fn asks(self, event: Option<EventView>) -> bool {
        event matches Some(EventView::Message(MessageView::Request(request)))
            && self.request_handlers.contains_key(request.method)
    }

    /// How many of the first `n` events are requests that there is a handler for.
    pub open spec fn asked(self, events: Seq<Option<EventView>>, n: nat) -> nat
        decreases n,
    {
        if n == 0 {
            0
        } else {
            self.asked(events, (n - 1) as nat) + if self.asks(events[n - 1]) {
                1nat
            } else {
                0
            }
        }
    }
}

/// The event ends a connection: the transport is closed, or gone.
pub open spec fn ends(event: Option<EventView>) -> bool {
    event is None || event == Some(EventView::Closed)
}

/// How many events come in before the first that ends the connection.
pub open spec fn heard(events: Seq<Option<EventView>>) -> nat
    decreases events.len(),
{
    if events.len() == 0 || ends(events[0]) {
        0
    } else {
        1 + heard(events.skip(1))
    }
}

/// Whether the first event is a request counts for every number of events.
proof fn asked_from_the_first<R, N, W, P>(
    protocol: ProtocolView<R, N, W, P>,
    events: Seq<Option<EventView>>,
    n: nat,
)
    requires
        n < events.len(),
    ensures
        protocol.asked(events, n + 1) == protocol.asked(events.skip(1), n) + if protocol.asks(
            events[0],
        ) {
            1nat
        } else {
            0
        },
    decreases n,
{
    if n > 0 {
        asked_from_the_first(protocol, events, (n - 1) as nat);
        assert(events.skip(1)[n - 1] == events[n as int]);
    } else {
        assert(protocol.asked(events.skip(1), 0) == 0);
        assert(protocol.asked(events, 0) == 0);
        assert(protocol.asked(events, 1) == protocol.asked(events, 0) + if protocol.asks(
            events[0],
        ) {
            1nat
        } else {
            0
        });
    }
}

/// How many requests there were depends on the handlers alone.
proof fn asked_by_handlers<R, N, W, P>(
    protocol: ProtocolView<R, N, W, P>,
    other: ProtocolView<R, N, W, P>,
    events: Seq<Option<EventView>>,
    n: nat,
)
    requires
        protocol.request_handlers == other.request_handlers,
    ensures
        protocol.asked(events, n) == other.asked(events, n),
    decreases n,
{
    if n > 0 {
        asked_by_handlers(protocol, other, events, (n - 1) as nat);
    }
}

/// A connection sends of itself exactly one response for each request that there is a handler
/// for, in the order in which the requests came, and nothing for anything else: not for another
/// request, nor for a response, a notification or an error of the transport. None of these keeps
/// it from what comes later, and nothing is handled once the transport is closed.
pub proof fn each_request_is_answered_once_in_turn<R, N, W, P>(
    protocol: ProtocolView<R, N, W, P>,
    events: Seq<Option<EventView>>,
    results: Seq<Result<JsonView, McpErrorView>>,
)
    requires
        results.len() == events.len(),
    ensures
        heard(events) <= events.len(),
        heard(events) < events.len() ==> ends(events[heard(events) as int]),
        forall|i: int| 0 <= i < heard(events) ==> !ends(#[trigger] events[i]),
        protocol.served(events, results).len() == protocol.asked(events, heard(events)),
        forall|i: int|
            0 <= i < heard(events) && protocol.asks(#[trigger] events[i]) ==> {
                &&& protocol.asked(events, i as nat) < protocol.served(events, results).len()
                &&& protocol.served(events, results)[protocol.asked(events, i as nat) as int]
                    == protocol::answer(events[i]->0->Message_0->Request_0.id, results[i])
            },
    decreases events.len(),
{
    if events.len() > 0 && !ends(events[0]) {
        let next = protocol.notified(events[0]);
        let rest = events.skip(1);
        let later = results.skip(1);
        each_request_is_answered_once_in_turn(next, rest, later);
        let n = heard(rest);
        asked_by_handlers(next, protocol, rest, n);
        asked_from_the_first(protocol, events, n);
        let first = if protocol.asks(events[0]) {
            1int
        } else {
            0
        };
        assert(heard(events) == n + 1);
        let served = protocol.served(events, results);
        assert(served.len() == first + next.served(rest, later).len());
        assert forall|i: int| 0 <= i < n + 1 implies !ends(#[trigger] events[i]) by {
            if i > 0 {
                assert(rest[i - 1] == events[i]);
            }
        }
        if n < rest.len() {
            assert(rest[n as int] == events[n as int + 1]);
        }
        assert forall|i: int| 0 <= i < n + 1 && protocol.asks(#[trigger] events[i]) implies {
            &&& protocol.asked(events, i as nat) < served.len()
            &&& served[protocol.asked(events, i as nat) as int] == protocol::answer(
                events[i]->0->Message_0->Request_0.id,
                results[i],
            )
        } by {
            if i == 0 {
                assert(protocol.asked(events, 0) == 0);
            } else {
                assert(rest[i - 1] == events[i]);
                assert(later[i - 1] == results[i]);
                assert(next.asks(rest[i - 1]));
                asked_by_handlers(next, protocol, rest, (i - 1) as nat);
                asked_from_the_first(protocol, events, (i - 1) as nat);
                let k = next.asked(rest, (i - 1) as nat) as int;
                assert(served[first + k] == next.served(rest, later)[k]);
            }
        }
    }
}

/// A progress token is added under `_meta`, and no other parameter is touched; parameters that
/// are no object stay as they are.
pub proof fn progress_token_touches_nothing_else(params: JsonView, id: u64, name: Seq<char>)
    ensures
        params is Object ==> protocol::with_progress_token(params, id).member("_meta"@) == Some(
            JsonView::Object(Seq::empty().push(("progressToken"@, JsonView::PosInt(id)))),
        ),
        name != "_meta"@ ==> protocol::with_progress_token(params, id).member(name)
            == params.member(name),
        !(params is Object) ==> protocol::with_progress_token(params, id) == params,
{
    if let JsonView::Object(members) = params {
        let token = JsonView::Object(
            Seq::empty().push(("progressToken"@, JsonView::PosInt(id))),
        );
        json::with_member_sets_one_name(members, "_meta"@, token, "_meta"@);
        json::with_member_sets_one_name(members, "_meta"@, token, name);
    }
}

} // verus!
