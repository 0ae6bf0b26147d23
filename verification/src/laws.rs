//! What holds of the dispatcher over whole runs: each flow gets its frames in
//! the order in which the server sent them, whatever other flows do in
//! between, and no request gets a second response.

use vstd::prelude::*;

use crate::dispatch::{
    first_index, fresh_dispatcher, handle_message_spec, http_completed_spec, register_spec,
    tcp_ended_spec, tcp_open_failed_spec, tcp_opened_spec, tcp_payload, ws_ended_spec,
    ws_open_failed_spec, ws_opened_spec, ws_payload, ActionModel, DispatcherModel,
};
use crate::events::TuiEventModel;
use crate::http_proxy::HttpResponseModel;
use crate::messages::{IncomingModel, OutgoingModel};
use crate::state::TunnelConfigModel;
use crate::ws_proxy::{to_local_spec, WsMessageModel};

verus! {

/// Something that happens to the dispatcher of a connection.
pub enum DispatchEvent {
    /// A message from the server arrives at the time `now`.
    Message { msg: IncomingModel, now: u64 },
    /// A forward has its outcome.
    HttpCompleted {
        request_id: Seq<char>,
        outcome: Result<HttpResponseModel, Seq<char>>,
        duration_ms: u64,
    },
    WsOpened { ws_id: Seq<char> },
    WsOpenFailed { ws_id: Seq<char>, error: Seq<char> },
    WsEnded { ws_id: Seq<char> },
    TcpOpened { tcp_id: Seq<char> },
    TcpOpenFailed { tcp_id: Seq<char>, error: Seq<char> },
    TcpEnded { tcp_id: Seq<char> },
    /// A registration is sent.
    Register { token: Seq<char>, config: TunnelConfigModel },
}

/// What one event does: the dispatcher after it and the actions it asks for.
pub open spec fn step(d: DispatcherModel, e: DispatchEvent) -> (DispatcherModel, Seq<ActionModel>) {
    match e {
        DispatchEvent::Message { msg, now } => handle_message_spec(d, msg, now),
        DispatchEvent::HttpCompleted { request_id, outcome, duration_ms } => http_completed_spec(
            d,
            request_id,
            outcome,
            duration_ms,
        ),
        DispatchEvent::WsOpened { ws_id } => ws_opened_spec(d, ws_id),
        DispatchEvent::WsOpenFailed { ws_id, error } => ws_open_failed_spec(d, ws_id, error),
        DispatchEvent::WsEnded { ws_id } => (ws_ended_spec(d, ws_id), Seq::empty()),
        DispatchEvent::TcpOpened { tcp_id } => tcp_opened_spec(d, tcp_id),
        DispatchEvent::TcpOpenFailed { tcp_id, error } => tcp_open_failed_spec(d, tcp_id, error),
        DispatchEvent::TcpEnded { tcp_id } => (tcp_ended_spec(d, tcp_id), Seq::empty()),
        DispatchEvent::Register { token, config } => (
            register_spec(d, token, config).0,
            seq![ActionModel::Send(register_spec(d, token, config).1)],
        ),
    }
}

/// What a run of events does: the dispatcher after it and all the actions it
/// asks for, in order.
pub open spec fn run(d: DispatcherModel, events: Seq<DispatchEvent>) -> (
    DispatcherModel,
    Seq<ActionModel>,
)
    decreases events.len(),
{
    if events.len() == 0 {
        (d, Seq::empty())
    } else {
        let before = run(d, events.drop_last());
        let last = step(before.0, events.last());
        (last.0, before.1 + last.1)
    }
}

/// What `f` picks from `s`, in order.
pub open spec fn picked<A, B>(s: Seq<A>, f: spec_fn(A) -> Option<B>) -> Seq<B>
    decreases s.len(),
{
    if s.len() == 0 {
        Seq::empty()
    } else {
        let before = picked(s.drop_last(), f);
        match f(s.last()) {
            Some(b) => before.push(b),
            None => before,
        }
    }
}

/// Zero or one item as a sequence.
pub open spec fn maybe<B>(item: Option<B>) -> Seq<B> {
    match item {
        Some(b) => seq![b],
        None => Seq::empty(),
    }
}

proof fn lemma_picked_concat<A, B>(x: Seq<A>, y: Seq<A>, f: spec_fn(A) -> Option<B>)
    ensures
        picked(x + y, f) == picked(x, f) + picked(y, f),
    decreases y.len(),
{
    if y.len() == 0 {
        assert(x + y =~= x);
        assert(picked(x, f) + picked(y, f) =~= picked(x, f));
    } else {
        assert((x + y).drop_last() =~= x + y.drop_last());
        assert((x + y).last() == y.last());
        lemma_picked_concat(x, y.drop_last(), f);
        assert(picked(x + y, f) =~= picked(x, f) + picked(y, f));
    }
}

proof fn lemma_picked_short<A, B>(s: Seq<A>, f: spec_fn(A) -> Option<B>)
    requires
        s.len() <= 2,
    ensures
        picked(s, f) == if s.len() == 0 {
            Seq::<B>::empty()
        } else if s.len() == 1 {
            maybe(f(s[0]))
        } else {
            maybe(f(s[0])) + maybe(f(s[1]))
        },
{
    if s.len() == 1 {
        assert(picked(s.drop_last(), f) =~= Seq::<B>::empty());
        assert(picked(s, f) =~= maybe(f(s[0])));
    } else if s.len() == 2 {
        let t = s.drop_last();
        assert(picked(t.drop_last(), f) =~= Seq::<B>::empty());
        assert(picked(t, f) =~= maybe(f(s[0])));
        assert(picked(s, f) =~= maybe(f(s[0])) + maybe(f(s[1])));
    }
}

/// The bytes that an action delivers to the local socket of the TCP flow
/// `flow`, if it delivers any there.
pub open spec fn tcp_delivery(flow: Seq<char>) -> spec_fn(ActionModel) -> Option<Seq<u8>> {
    |a: ActionModel|
        match a {
            ActionModel::TcpToLocal { tcp_id, data } => if tcp_id == flow {
                Some(data)
            } else {
                None
            },
            _ => None,
        }
}

/// The bytes that an event brings from the server for the TCP flow `flow`,
/// if it brings any.
pub open spec fn tcp_arrival(flow: Seq<char>) -> spec_fn(DispatchEvent) -> Option<Seq<u8>> {
    |e: DispatchEvent|
        match e {
            DispatchEvent::Message {
                msg: IncomingModel::TcpData { tcp_id, data, data_encoding },
                ..
            } => if tcp_id == flow {
                Some(tcp_payload(data, data_encoding))
            } else {
                None
            },
            _ => None,
        }
}

/// The event ends the TCP flow `flow`.
pub open spec fn closes_tcp(e: DispatchEvent, flow: Seq<char>) -> bool {
    match e {
        DispatchEvent::Message { msg: IncomingModel::TcpClose { tcp_id, .. }, .. } => tcp_id == flow,
        DispatchEvent::TcpEnded { tcp_id } => tcp_id == flow,
        _ => false,
    }
}

/// The frame that an action hands to the local socket of the WebSocket flow
/// `flow`, if it hands one there.
pub open spec fn ws_delivery(flow: Seq<char>) -> spec_fn(ActionModel) -> Option<WsMessageModel> {
    |a: ActionModel|
        match a {
            ActionModel::WsToLocal { ws_id, message } => if ws_id == flow {
                Some(message)
            } else {
                None
            },
            _ => None,
        }
}

/// The frame that an event brings from the server for the WebSocket flow
/// `flow`, if it brings one.
pub open spec fn ws_arrival(flow: Seq<char>) -> spec_fn(DispatchEvent) -> Option<WsMessageModel> {
    |e: DispatchEvent|
        match e {
            DispatchEvent::Message {
                msg: IncomingModel::WsFrame { ws_id, opcode, data, data_encoding },
                ..
            } => if ws_id == flow {
                Some(to_local_spec(opcode, ws_payload(data, data_encoding)))
            } else {
                None
            },
            _ => None,
        }
}

/// The event ends the WebSocket flow `flow`.
pub open spec fn closes_ws(e: DispatchEvent, flow: Seq<char>) -> bool {
    match e {
        DispatchEvent::Message { msg: IncomingModel::WsClose { ws_id, .. }, .. } => ws_id == flow,
        DispatchEvent::WsEnded { ws_id } => ws_id == flow,
        _ => false,
    }
}

proof fn lemma_tcp_step(d: DispatcherModel, e: DispatchEvent, flow: Seq<char>)
    requires
        d.state.tcp_connections.contains(flow),
        !closes_tcp(e, flow),
    ensures
        step(d, e).0.state.tcp_connections.contains(flow),
        picked(step(d, e).1, tcp_delivery(flow)) == maybe(tcp_arrival(flow)(e)),
{
    let actions = step(d, e).1;
    assert(actions.len() <= 2);
    lemma_picked_short(actions, tcp_delivery(flow));
    assert(picked(actions, tcp_delivery(flow)) =~= maybe(tcp_arrival(flow)(e)));
}

proof fn lemma_ws_step(d: DispatcherModel, e: DispatchEvent, flow: Seq<char>)
    requires
        d.state.ws_proxies.contains(flow),
        !closes_ws(e, flow),
    ensures
        step(d, e).0.state.ws_proxies.contains(flow),
        picked(step(d, e).1, ws_delivery(flow)) == maybe(ws_arrival(flow)(e)),
{
    let actions = step(d, e).1;
    assert(actions.len() <= 2);
    lemma_picked_short(actions, ws_delivery(flow));
    assert(picked(actions, ws_delivery(flow)) =~= maybe(ws_arrival(flow)(e)));
}

/// While a TCP flow is open, the chunks that its local socket is handed are
/// the chunks that the server sent for it, in the order in which they came,
/// whatever else happens in between; and the flow stays open.
pub proof fn lemma_tcp_flow_order(d: DispatcherModel, events: Seq<DispatchEvent>, flow: Seq<char>)
    requires
        d.state.tcp_connections.contains(flow),
        forall|i: int| 0 <= i < events.len() ==> !closes_tcp(#[trigger] events[i], flow),
    ensures
        run(d, events).0.state.tcp_connections.contains(flow),
        picked(run(d, events).1, tcp_delivery(flow)) == picked(events, tcp_arrival(flow)),
    decreases events.len(),
{
    if events.len() > 0 {
        let head = events.drop_last();
        assert forall|i: int| 0 <= i < head.len() implies !closes_tcp(#[trigger] head[i], flow) by {
            assert(head[i] == events[i]);
        }
        lemma_tcp_flow_order(d, head, flow);
        let before = run(d, head);
        assert(!closes_tcp(events[events.len() - 1], flow));
        lemma_tcp_step(before.0, events.last(), flow);
        lemma_picked_concat(before.1, step(before.0, events.last()).1, tcp_delivery(flow));
        assert(picked(events, tcp_arrival(flow)) =~= picked(head, tcp_arrival(flow)) + maybe(
            tcp_arrival(flow)(events.last()),
        ));
    }
}

/// While a WebSocket flow is open, the frames that its local socket is handed
/// are the frames that the server sent for it, in the order in which they
/// came, whatever else happens in between; and the flow stays open.
pub proof fn lemma_ws_flow_order(d: DispatcherModel, events: Seq<DispatchEvent>, flow: Seq<char>)
    requires
        d.state.ws_proxies.contains(flow),
        forall|i: int| 0 <= i < events.len() ==> !closes_ws(#[trigger] events[i], flow),
    ensures
        run(d, events).0.state.ws_proxies.contains(flow),
        picked(run(d, events).1, ws_delivery(flow)) == picked(events, ws_arrival(flow)),
    decreases events.len(),
{
    if events.len() > 0 {
        let head = events.drop_last();
        assert forall|i: int| 0 <= i < head.len() implies !closes_ws(#[trigger] head[i], flow) by {
            assert(head[i] == events[i]);
        }
        lemma_ws_flow_order(d, head, flow);
        let before = run(d, head);
        assert(!closes_ws(events[events.len() - 1], flow));
        lemma_ws_step(before.0, events.last(), flow);
        lemma_picked_concat(before.1, step(before.0, events.last()).1, ws_delivery(flow));
        assert(picked(events, ws_arrival(flow)) =~= picked(head, ws_arrival(flow)) + maybe(
            ws_arrival(flow)(events.last()),
        ));
    }
}

/// Two runs that bring the same chunks for an open TCP flow, in the same
/// order, hand the same chunks to its local socket, in the same order:
/// shuffling the arrivals of other flows in between changes nothing.
pub proof fn lemma_tcp_interleaving(
    d: DispatcherModel,
    first: Seq<DispatchEvent>,
    second: Seq<DispatchEvent>,
    flow: Seq<char>,
)
    requires
        d.state.tcp_connections.contains(flow),
        forall|i: int| 0 <= i < first.len() ==> !closes_tcp(#[trigger] first[i], flow),
        forall|i: int| 0 <= i < second.len() ==> !closes_tcp(#[trigger] second[i], flow),
        picked(first, tcp_arrival(flow)) == picked(second, tcp_arrival(flow)),
    ensures
        picked(run(d, first).1, tcp_delivery(flow)) == picked(run(d, second).1, tcp_delivery(flow)),
{
    lemma_tcp_flow_order(d, first, flow);
    lemma_tcp_flow_order(d, second, flow);
}

/// Two runs that bring the same frames for an open WebSocket flow, in the
/// same order, hand the same frames to its local socket, in the same order.
pub proof fn lemma_ws_interleaving(
    d: DispatcherModel,
    first: Seq<DispatchEvent>,
    second: Seq<DispatchEvent>,
    flow: Seq<char>,
)
    requires
        d.state.ws_proxies.contains(flow),
        forall|i: int| 0 <= i < first.len() ==> !closes_ws(#[trigger] first[i], flow),
        forall|i: int| 0 <= i < second.len() ==> !closes_ws(#[trigger] second[i], flow),
        picked(first, ws_arrival(flow)) == picked(second, ws_arrival(flow)),
    ensures
        picked(run(d, first).1, ws_delivery(flow)) == picked(run(d, second).1, ws_delivery(flow)),
{
    lemma_ws_flow_order(d, first, flow);
    lemma_ws_flow_order(d, second, flow);
}

/// How often `x` occurs in `s`.
pub open spec fn occurrences(s: Seq<Seq<char>>, x: Seq<char>) -> nat
    decreases s.len(),
{
    if s.len() == 0 {
        0
    } else {
        occurrences(s.drop_last(), x) + if s.last() == x {
            1nat
        } else {
            0nat
        }
    }
}

proof fn lemma_first_index(s: Seq<Seq<char>>, x: Seq<char>)
    ensures
        0 <= first_index(s, x) <= s.len(),
        first_index(s, x) < s.len() ==> s[first_index(s, x)] == x,
        first_index(s, x) == s.len() <==> occurrences(s, x) == 0,
    decreases s.len(),
{
    if s.len() > 0 {
        let tail = s.drop_first();
        lemma_first_index(tail, x);
        lemma_occurrences_front(s, x);
    }
}

proof fn lemma_occurrences_front(s: Seq<Seq<char>>, x: Seq<char>)
    requires
        s.len() > 0,
    ensures
        occurrences(s, x) == occurrences(s.drop_first(), x) + if s[0] == x {
            1nat
        } else {
            0nat
        },
    decreases s.len(),
{
    if s.len() == 1 {
        assert(s.drop_first() =~= Seq::<Seq<char>>::empty());
        assert(s.drop_last() =~= Seq::<Seq<char>>::empty());
    } else {
        lemma_occurrences_front(s.drop_last(), x);
        assert(s.drop_last().drop_first() =~= s.drop_first().drop_last());
        assert(s.drop_first().last() == s.last());
        assert(s.drop_last()[0] == s[0]);
    }
}

proof fn lemma_occurrences_remove(s: Seq<Seq<char>>, i: int, x: Seq<char>)
    requires
        0 <= i < s.len(),
    ensures
        occurrences(s.remove(i), x) + (if s[i] == x {
            1nat
        } else {
            0nat
        }) == occurrences(s, x),
    decreases s.len(),
{
    if i == s.len() - 1 {
        assert(s.remove(i) =~= s.drop_last());
    } else {
        lemma_occurrences_remove(s.drop_last(), i, x);
        assert(s.remove(i).drop_last() =~= s.drop_last().remove(i));
        assert(s.remove(i).last() == s.last());
        assert(s.drop_last()[i] == s[i]);
    }
}

/// The action is the response to the request `request`.
pub open spec fn response_to(request: Seq<char>) -> spec_fn(ActionModel) -> Option<ActionModel> {
    |a: ActionModel|
        match a {
            ActionModel::Send(OutgoingModel::TunnelResponse { request_id, .. }) => if request_id
                == request {
                Some(a)
            } else {
                None
            },
            _ => None,
        }
}

/// The event is the arrival of the request `request`.
pub open spec fn request_of(request: Seq<char>) -> spec_fn(DispatchEvent) -> Option<DispatchEvent> {
    |e: DispatchEvent|
        match e {
            DispatchEvent::Message { msg: IncomingModel::TunnelRequest { request_id, .. }, .. } => if request_id
                == request {
                Some(e)
            } else {
                None
            },
            _ => None,
        }
}

proof fn lemma_response_step(d: DispatcherModel, e: DispatchEvent, request: Seq<char>)
    ensures
        picked(step(d, e).1, response_to(request)).len() + occurrences(
            step(d, e).0.in_flight,
            request,
        ) == occurrences(d.in_flight, request) + maybe(request_of(request)(e)).len(),
{
    let actions = step(d, e).1;
    assert(actions.len() <= 2);
    lemma_picked_short(actions, response_to(request));
    match e {
        DispatchEvent::Message { msg, now } => {
            match msg {
                IncomingModel::TunnelRequest { request_id, .. } => {
                    assert(d.in_flight.push(request_id).drop_last() =~= d.in_flight);
                },
                _ => {},
            }
        },
        DispatchEvent::HttpCompleted { request_id, outcome, duration_ms } => {
            lemma_first_index(d.in_flight, request_id);
            if first_index(d.in_flight, request_id) < d.in_flight.len() {
                lemma_occurrences_remove(
                    d.in_flight,
                    first_index(d.in_flight, request_id),
                    request,
                );
            }
        },
        _ => {},
    }
}

/// Over any run, the responses sent for a request and the times it is still
/// in flight add up to the times it was in flight before and the times it
/// arrived: a response is sent only for a request that arrived, bears its
/// identifier, and takes it out of flight.
pub proof fn lemma_responses_balance(
    d: DispatcherModel,
    events: Seq<DispatchEvent>,
    request: Seq<char>,
)
    ensures
        picked(run(d, events).1, response_to(request)).len() + occurrences(
            run(d, events).0.in_flight,
            request,
        ) == occurrences(d.in_flight, request) + picked(events, request_of(request)).len(),
    decreases events.len(),
{
    if events.len() > 0 {
        let head = events.drop_last();
        lemma_responses_balance(d, head, request);
        let before = run(d, head);
        lemma_response_step(before.0, events.last(), request);
        lemma_picked_concat(before.1, step(before.0, events.last()).1, response_to(request));
        assert(picked(events, request_of(request)) =~= picked(head, request_of(request)) + maybe(
            request_of(request)(events.last()),
        ));
    }
}

/// On a connection, whatever happens, a request gets at most as many
/// responses as the times it arrived: one arrival, at most one response.
pub proof fn lemma_at_most_one_response(
    local_host: Seq<char>,
    events: Seq<DispatchEvent>,
    request: Seq<char>,
)
    ensures
        picked(run(fresh_dispatcher(local_host), events).1, response_to(request)).len() <= picked(
            events,
            request_of(request),
        ).len(),
{
    lemma_responses_balance(fresh_dispatcher(local_host), events, request);
}

/// The local port that an action reports for a confirmed HTTP tunnel, if it
/// reports one.
pub open spec fn confirmed_port() -> spec_fn(ActionModel) -> Option<u16> {
    |a: ActionModel|
        match a {
            ActionModel::Notify(TuiEventModel::TunnelRegistered(event)) => Some(event.local_port),
            _ => None,
        }
}

/// The event is the confirmation of an HTTP registration.
pub open spec fn is_http_confirmation(e: DispatchEvent) -> bool {
    e matches DispatchEvent::Message { msg: IncomingModel::TunnelRegistered { .. }, .. }
}

/// Confirmations pair with registrations in order: where the registrations
/// sent reach far enough, the confirmations that come one after another are
/// reported with the local ports of the registrations that wait, oldest
/// first, and each is counted.
pub proof fn lemma_confirmations_pair_in_order(d: DispatcherModel, events: Seq<DispatchEvent>)
    requires
        forall|i: int| 0 <= i < events.len() ==> is_http_confirmation(#[trigger] events[i]),
        d.tunnels_registered + events.len() <= d.state.pending_tunnels.len(),
        d.state.pending_tunnels.len() <= usize::MAX,
    ensures
        run(d, events).0.tunnels_registered == d.tunnels_registered + events.len(),
        run(d, events).0.state.pending_tunnels == d.state.pending_tunnels,
        picked(run(d, events).1, confirmed_port()) == Seq::new(
            events.len(),
            |i: int| d.state.pending_tunnels[d.tunnels_registered + i].local_port,
        ),
    decreases events.len(),
{
    if events.len() == 0 {
        assert(picked(run(d, events).1, confirmed_port()) =~= Seq::new(
            events.len(),
            |i: int| d.state.pending_tunnels[d.tunnels_registered + i].local_port,
        ));
    } else {
        let head = events.drop_last();
        assert forall|i: int| 0 <= i < head.len() implies is_http_confirmation(
            #[trigger] head[i],
        ) by {
            assert(head[i] == events[i]);
        }
        lemma_confirmations_pair_in_order(d, head);
        let before = run(d, head);
        let last = events.last();
        assert(is_http_confirmation(events[events.len() - 1]));
        let actions = step(before.0, last).1;
        lemma_picked_short(actions, confirmed_port());
        lemma_picked_concat(before.1, actions, confirmed_port());
        assert(picked(run(d, events).1, confirmed_port()) =~= Seq::new(
            events.len(),
            |i: int| d.state.pending_tunnels[d.tunnels_registered + i].local_port,
        ));
    }
}

} // verus!
