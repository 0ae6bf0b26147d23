//! The dispatcher of one connection: what each message from the server, and
//! each outcome of the work it asked for, does to the registry, and what has
//! to be done next. The caller performs the actions and reports back.

use vstd::prelude::*;
use vstd::string::*;
use vstd::utf8::*;

use crate::body::{decode_body, decode_body_spec, opt_text};
use crate::encoding::{base64_bytes, base64_fits, decode_base64};
use crate::events::{
    RequestEvent, RequestEventModel, ResponseEvent, ResponseEventModel, TcpTunnelEvent, TuiEvent,
    TuiEventModel, TunnelEvent, TunnelEventModel,
};
use crate::http_proxy::{HttpResponse, HttpResponseModel};
use crate::ids::{RequestId, TcpId, WsId};
use crate::messages::{
    copy_headers, copy_payload, Headers, HeadersModel, IncomingMessage, IncomingModel,
    OutgoingMessage, OutgoingModel,
};
use crate::body::encode_body_spec;
use crate::decode::{frame_message, MalformedFrame};
use crate::events::{TuiCommand, TuiCommandModel};
use crate::state::{
    fresh_state, ClientState, ClientStateModel, PendingTunnel, PendingTunnelModel, TcpTunnelInfo,
    TunnelConfig, TunnelConfigModel, TunnelInfo, TunnelInfoModel,
};
use crate::tcp_proxy;
use crate::text::str_eq;
use crate::ws_proxy;
use crate::ws_proxy::{to_local_spec, WsMessage, WsMessageModel, DEFAULT_CLOSE_CODE};

verus! {

/// The local port that a request goes to when its tunnel is not known.
pub const FALLBACK_LOCAL_PORT: u16 = 3000;

/// Something for the caller to do.
#[derive(Debug, Clone, PartialEq, Eq)]
pub enum Action {
    /// Put a message on the writer's queue.
    Send(OutgoingMessage),
    /// Tell the user interface.
    Notify(TuiEvent),
    /// Forward a request to the local origin, and report the outcome.
    ForwardHttp {
        request_id: RequestId,
        local_host: String,
        local_port: u16,
        method: String,
        path: String,
        query_string: String,
        headers: Headers,
        body: Option<Vec<u8>>,
    },
    /// Dial the local WebSocket, and report the outcome.
    OpenWebSocket {
        ws_id: WsId,
        local_host: String,
        local_port: u16,
        path: String,
        headers: Vec<Vec<String>>,
    },
    /// Hand a frame to the local WebSocket of an open flow.
    WsToLocal { ws_id: WsId, message: WsMessage },
    /// Close the local WebSocket of a flow with this frame, and let the flow go.
    CloseWebSocket { ws_id: WsId, message: WsMessage },
    /// Dial the local TCP socket, and report the outcome.
    ConnectTcp { tcp_id: TcpId, local_port: u16 },
    /// Write bytes to the local TCP socket of an open flow.
    TcpToLocal { tcp_id: TcpId, data: Vec<u8> },
    /// Let the TCP flow go.
    DropTcp { tcp_id: TcpId },
}

/// The model of an [`Action`].
pub enum ActionModel {
    Send(OutgoingModel),
    Notify(TuiEventModel),
    ForwardHttp {
        request_id: Seq<char>,
        local_host: Seq<char>,
        local_port: u16,
        method: Seq<char>,
        path: Seq<char>,
        query_string: Seq<char>,
        headers: HeadersModel,
        body: Option<Seq<u8>>,
    },
    OpenWebSocket {
        ws_id: Seq<char>,
        local_host: Seq<char>,
        local_port: u16,
        path: Seq<char>,
        headers: Seq<Seq<Seq<char>>>,
    },
    WsToLocal { ws_id: Seq<char>, message: WsMessageModel },
    CloseWebSocket { ws_id: Seq<char>, message: WsMessageModel },
    ConnectTcp { tcp_id: Seq<char>, local_port: u16 },
    TcpToLocal { tcp_id: Seq<char>, data: Seq<u8> },
    DropTcp { tcp_id: Seq<char> },
}

impl View for Action {
    type V = ActionModel;

    open spec fn view(&self) -> ActionModel {
        match *self {
            Action::Send(m) => ActionModel::Send(m@),
            Action::Notify(e) => ActionModel::Notify(e@),
            Action::ForwardHttp {
                request_id,
                local_host,
                local_port,
                method,
                path,
                query_string,
                headers,
                body,
            } => ActionModel::ForwardHttp {
                request_id: request_id@,
                local_host: local_host@,
                local_port,
                method: method@,
                path: path@,
                query_string: query_string@,
                headers: headers.deep_view(),
                body: body.deep_view(),
            },
            Action::OpenWebSocket {
                ws_id,
                local_host,
                local_port,
                path,
                headers,
            } => ActionModel::OpenWebSocket {
                ws_id: ws_id@,
                local_host: local_host@,
                local_port,
                path: path@,
                headers: headers.deep_view(),
            },
            Action::WsToLocal { ws_id, message } => ActionModel::WsToLocal {
                ws_id: ws_id@,
                message: message@,
            },
            Action::CloseWebSocket { ws_id, message } => ActionModel::CloseWebSocket {
                ws_id: ws_id@,
                message: message@,
            },
            Action::ConnectTcp { tcp_id, local_port } => ActionModel::ConnectTcp {
                tcp_id: tcp_id@,
                local_port,
            },
            Action::TcpToLocal { tcp_id, data } => ActionModel::TcpToLocal {
                tcp_id: tcp_id@,
                data: data@,
            },
            Action::DropTcp { tcp_id } => ActionModel::DropTcp { tcp_id: tcp_id@ },
        }
    }
}

impl DeepView for Action {
    type V = ActionModel;

    open spec fn deep_view(&self) -> ActionModel {
        self@
    }
}

/// The dispatcher of one connection.
pub struct Dispatcher {
    state: ClientState,
    tunnels_registered: usize,
    tcp_tunnels_registered: usize,
    in_flight: Vec<RequestId>,
}

/// The model of a [`Dispatcher`].
pub struct DispatcherModel {
    /// The registry.
    pub state: ClientStateModel,
    /// How many HTTP registrations the server has confirmed.
    pub tunnels_registered: usize,
    /// How many TCP registrations the server has confirmed.
    pub tcp_tunnels_registered: usize,
    /// The requests that were handed out for forwarding and have no response
    /// yet, oldest first.
    pub in_flight: Seq<Seq<char>>,
}

impl View for Dispatcher {
    type V = DispatcherModel;

    closed spec fn view(&self) -> DispatcherModel {
        DispatcherModel {
            state: self.state@,
            tunnels_registered: self.tunnels_registered,
            tcp_tunnels_registered: self.tcp_tunnels_registered,
            in_flight: self.in_flight.deep_view(),
        }
    }
}

/// The dispatcher of a connection that has just been made.
pub open spec fn fresh_dispatcher(local_host: Seq<char>) -> DispatcherModel {
    DispatcherModel {
        state: fresh_state(local_host),
        tunnels_registered: 0,
        tcp_tunnels_registered: 0,
        in_flight: Seq::empty(),
    }
}

/// A counter's next value; it stays at the largest `usize`.
pub open spec fn bump(n: usize) -> usize {
    if n < usize::MAX {
        (n + 1) as usize
    } else {
        n
    }
}

/// The header lines of a request: each row of at least two cells gives its
/// first as the name and its second as the value; shorter rows are left out.
pub open spec fn header_pairs(rows: Seq<Seq<Seq<char>>>) -> HeadersModel
    decreases rows.len(),
{
    if rows.len() == 0 {
        Seq::empty()
    } else {
        let before = header_pairs(rows.drop_last());
        if rows.last().len() >= 2 {
            before.push((rows.last()[0], rows.last()[1]))
        } else {
            before
        }
    }
}

/// The bytes of a WebSocket frame from the server: base64 is decoded where
/// the frame is tagged so and the text is base64; else the text's own bytes.
pub open spec fn ws_payload(data: Seq<char>, encoding: Option<Seq<char>>) -> Seq<u8> {
    if encoding == Some("base64"@) {
        match base64_bytes(data) {
            Some(bytes) => bytes,
            None => encode_utf8(data),
        }
    } else {
        encode_utf8(data)
    }
}

/// The bytes of a TCP chunk from the server: base64 is decoded where the
/// chunk is tagged so, and malformed base64 gives no bytes; else the text's
/// own bytes.
pub open spec fn tcp_payload(data: Seq<char>, encoding: Option<Seq<char>>) -> Seq<u8> {
    if encoding == Some("base64"@) {
        match base64_bytes(data) {
            Some(bytes) => bytes,
            None => Seq::empty(),
        }
    } else {
        encode_utf8(data)
    }
}

/// The local port of a tunnel, or the fallback port where the tunnel is not
/// known.
pub open spec fn tunnel_port(state: ClientStateModel, tunnel_id: Seq<char>) -> u16 {
    if state.tunnels.contains_key(tunnel_id) {
        state.tunnels[tunnel_id].local_port
    } else {
        FALLBACK_LOCAL_PORT
    }
}

/// The place of the first `x` in `s`, or the length of `s` where there is none.
pub open spec fn first_index(s: Seq<Seq<char>>, x: Seq<char>) -> int
    decreases s.len(),
{
    if s.len() == 0 {
        0
    } else if s[0] == x {
        0
    } else {
        1 + first_index(s.drop_first(), x)
    }
}

/// `s` without its first `x`.
pub open spec fn without_first(s: Seq<Seq<char>>, x: Seq<char>) -> Seq<Seq<char>> {
    if first_index(s, x) < s.len() {
        s.remove(first_index(s, x))
    } else {
        s
    }
}

/// What a message from the server does: the dispatcher after it, and the
/// actions it asks for, in order.
pub open spec fn handle_message_spec(d: DispatcherModel, msg: IncomingModel, now: u64) -> (
    DispatcherModel,
    Seq<ActionModel>,
) {
    match msg {
        IncomingModel::TunnelRegistered { tunnel_id, subdomain, full_url } => {
            let k = d.tunnels_registered as int;
            let (local_host, local_port) = if k < d.state.pending_tunnels.len() {
                (d.state.pending_tunnels[k].local_host, d.state.pending_tunnels[k].local_port)
            } else {
                (d.state.local_host, 0u16)
            };
            (
                DispatcherModel {
                    state: ClientStateModel {
                        tunnels: d.state.tunnels.insert(
                            tunnel_id,
                            TunnelInfoModel { full_url, local_host, local_port },
                        ),
                        ..d.state
                    },
                    tunnels_registered: bump(d.tunnels_registered),
                    ..d
                },
                seq![
                    ActionModel::Notify(
                        TuiEventModel::TunnelRegistered(TunnelEventModel { full_url, local_port }),
                    ),
                ],
            )
        },
        IncomingModel::TcpTunnelRegistered { tcp_tunnel_id, server_port, local_port } => (
            DispatcherModel {
                state: ClientStateModel {
                    tcp_tunnels: d.state.tcp_tunnels.insert(
                        tcp_tunnel_id,
                        TcpTunnelInfo { server_port, local_port },
                    ),
                    ..d.state
                },
                tcp_tunnels_registered: bump(d.tcp_tunnels_registered),
                ..d
            },
            seq![
                ActionModel::Notify(
                    TuiEventModel::TcpTunnelRegistered(TcpTunnelEvent { server_port, local_port }),
                ),
            ],
        ),
        IncomingModel::TunnelRequest {
            request_id,
            tunnel_id,
            method,
            path,
            query_string,
            headers,
            body,
            body_encoding,
            client_ip,
        } => {
            let pairs = header_pairs(headers);
            let bytes = decode_body_spec(body, body_encoding);
            (
                DispatcherModel { in_flight: d.in_flight.push(request_id), ..d },
                seq![
                    ActionModel::Notify(
                        TuiEventModel::RequestReceived(
                            RequestEventModel {
                                request_id,
                                method,
                                path,
                                query_string,
                                headers: pairs,
                                body: bytes,
                                timestamp: now,
                                client_ip,
                            },
                        ),
                    ),
                    ActionModel::ForwardHttp {
                        request_id,
                        local_host: d.state.local_host,
                        local_port: tunnel_port(d.state, tunnel_id),
                        method,
                        path,
                        query_string,
                        headers: pairs,
                        body: bytes,
                    },
                ],
            )
        },
        IncomingModel::WsUpgrade { ws_id, tunnel_id, path, headers } => (
            d,
            seq![
                ActionModel::OpenWebSocket {
                    ws_id,
                    local_host: d.state.local_host,
                    local_port: tunnel_port(d.state, tunnel_id),
                    path,
                    headers,
                },
            ],
        ),
        IncomingModel::WsFrame { ws_id, opcode, data, data_encoding } => {
            if d.state.ws_proxies.contains(ws_id) {
                (
                    d,
                    seq![
                        ActionModel::WsToLocal {
                            ws_id,
                            message: to_local_spec(opcode, ws_payload(data, data_encoding)),
                        },
                    ],
                )
            } else {
                (d, Seq::empty())
            }
        },
        IncomingModel::WsClose { ws_id, code, reason } => {
            if d.state.ws_proxies.contains(ws_id) {
                (
                    DispatcherModel {
                        state: ClientStateModel {
                            ws_proxies: d.state.ws_proxies.remove(ws_id),
                            ..d.state
                        },
                        ..d
                    },
                    seq![
                        ActionModel::CloseWebSocket {
                            ws_id,
                            message: WsMessageModel::Close(
                                Some(
                                    (
                                        match code {
                                            Some(c) => c,
                                            None => DEFAULT_CLOSE_CODE,
                                        },
                                        match reason {
                                            Some(text) => text,
                                            None => Seq::<char>::empty(),
                                        },
                                    ),
                                ),
                            ),
                        },
                    ],
                )
            } else {
                (d, Seq::empty())
            }
        },
        IncomingModel::TcpConnect { tcp_id, tcp_tunnel_id } => {
            if d.state.tcp_tunnels.contains_key(tcp_tunnel_id) {
                (
                    d,
                    seq![
                        ActionModel::ConnectTcp {
                            tcp_id,
                            local_port: d.state.tcp_tunnels[tcp_tunnel_id].local_port,
                        },
                    ],
                )
            } else {
                (d, Seq::empty())
            }
        },
        IncomingModel::TcpData { tcp_id, data, data_encoding } => {
            if d.state.tcp_connections.contains(tcp_id) {
                (
                    d,
                    seq![
                        ActionModel::TcpToLocal { tcp_id, data: tcp_payload(data, data_encoding) },
                    ],
                )
            } else {
                (d, Seq::empty())
            }
        },
        IncomingModel::TcpClose { tcp_id, reason } => {
            if d.state.tcp_connections.contains(tcp_id) {
                (
                    DispatcherModel {
                        state: ClientStateModel {
                            tcp_connections: d.state.tcp_connections.remove(tcp_id),
                            ..d.state
                        },
                        ..d
                    },
                    seq![ActionModel::DropTcp { tcp_id }],
                )
            } else {
                (d, Seq::empty())
            }
        },
        IncomingModel::Heartbeat => (d, Seq::empty()),
        IncomingModel::Error { code, message } => (d, Seq::empty()),
    }
}

fn bump_counter(n: usize) -> (r: usize)
    ensures
        r == bump(n),
{
    if n < usize::MAX {
        n + 1
    } else {
        n
    }
}

/// Turns the header rows of a request into header lines.
pub fn pairs_of_rows(rows: &Vec<Vec<String>>) -> (r: Headers)
    ensures
        r.deep_view() == header_pairs(rows.deep_view()),
{
    let ghost model = rows.deep_view();
    let mut pairs: Headers = Vec::new();
    let mut i: usize = 0;
    assert(pairs.deep_view() =~= header_pairs(model.take(0)));
    while i < rows.len()
        invariant
            i <= rows.len(),
            model == rows.deep_view(),
            model.len() == rows.len(),
            pairs.deep_view() == header_pairs(model.take(i as int)),
        decreases rows.len() - i,
    {
        proof {
            assert(model.take(i + 1).drop_last() =~= model.take(i as int));
            assert(model.take(i + 1).last() == rows@[i as int].deep_view());
        }
        let row = &rows[i];
        if row.len() >= 2 {
            proof {
                assert(row.deep_view()[0] == row@[0]@);
                assert(row.deep_view()[1] == row@[1]@);
            }
            let ghost before = pairs.deep_view();
            pairs.push((row[0].clone(), row[1].clone()));
            assert(pairs.deep_view() =~= before.push((row@[0]@, row@[1]@)));
        }
        i += 1;
    }
    assert(model.take(i as int) =~= model);
    pairs
}

fn is_base64_tag(encoding: &Option<String>) -> (r: bool)
    ensures
        r == (encoding.deep_view() == Some("base64"@)),
{
    match encoding {
        Some(tag) => str_eq(tag.as_str(), "base64"),
        None => false,
    }
}

fn decode_ws_payload(data: String, encoding: &Option<String>) -> (r: Vec<u8>)
    ensures
        r@ == ws_payload(data@, encoding.deep_view()),
{
    if is_base64_tag(encoding) {
        match decode_base64(data.as_str()) {
            Some(bytes) => {
                assert(bytes.deep_view() =~= bytes@);
                bytes
            },
            None => data.as_str().as_bytes_vec(),
        }
    } else {
        data.as_str().as_bytes_vec()
    }
}

fn decode_tcp_payload(data: String, encoding: &Option<String>) -> (r: Vec<u8>)
    ensures
        r@ == tcp_payload(data@, encoding.deep_view()),
{
    if is_base64_tag(encoding) {
        match decode_base64(data.as_str()) {
            Some(bytes) => {
                assert(bytes.deep_view() =~= bytes@);
                bytes
            },
            None => Vec::new(),
        }
    } else {
        data.as_str().as_bytes_vec()
    }
}

fn opt_str(s: &Option<String>) -> (r: Option<&str>)
    ensures
        opt_text(r) == s.deep_view(),
{
    match s {
        Some(text) => Some(text.as_str()),
        None => None,
    }
}

fn one(action: Action) -> (r: Vec<Action>)
    ensures
        r.deep_view() == seq![action@],
{
    let mut actions: Vec<Action> = Vec::new();
    actions.push(action);
    assert(actions.deep_view() =~= seq![action@]);
    actions
}

fn two(first: Action, second: Action) -> (r: Vec<Action>)
    ensures
        r.deep_view() == seq![first@, second@],
{
    let mut actions: Vec<Action> = Vec::new();
    actions.push(first);
    actions.push(second);
    assert(actions.deep_view() =~= seq![first@, second@]);
    actions
}

fn none() -> (r: Vec<Action>)
    ensures
        r.deep_view() == Seq::<ActionModel>::empty(),
{
    let actions: Vec<Action> = Vec::new();
    assert(actions.deep_view() =~= Seq::<ActionModel>::empty());
    actions
}

impl Dispatcher {
    /// The dispatcher of a fresh connection.
    pub fn new(local_host: &str) -> (r: Self)
        ensures
            r@ == fresh_dispatcher(local_host@),
    {
        let r = Dispatcher {
            state: ClientState::new(local_host),
            tunnels_registered: 0,
            tcp_tunnels_registered: 0,
            in_flight: Vec::new(),
        };
        assert(r.in_flight.deep_view() =~= Seq::empty());
        r
    }

    /// The registry.
    pub fn state(&self) -> (r: &ClientState)
        ensures
            r@ == self@.state,
    {
        &self.state
    }

    /// Handles one message from the server.
    ///
    /// A confirmation records its tunnel, paired with the oldest registration
    /// that waits, and tells the interface. A request is handed out for
    /// forwarding, to the tunnel's port or to the fallback port, and is in
    /// flight from then on. An upgrade or a TCP connect asks for a dial. A
    /// frame or a chunk goes to the local socket of its flow where that flow
    /// is open, and is dropped where not. A close lets the flow go. A
    /// heartbeat and an error ask for nothing.
    pub fn handle_message(&mut self, msg: IncomingMessage, now: u64) -> (actions: Vec<Action>)
        ensures
            (final(self)@, actions.deep_view()) == handle_message_spec(old(self)@, msg@, now),
    {
        match msg {
            IncomingMessage::TunnelRegistered { tunnel_id, subdomain, full_url } => {
                let (local_host, local_port) = match self.state.pending_tunnel(
                    self.tunnels_registered,
                ) {
                    Some(pending) => (pending.local_host.clone(), pending.local_port),
                    None => (self.state.local_host().to_string(), 0),
                };
                let event = TunnelEvent { full_url: full_url.clone(), local_port };
                self.state.insert_tunnel(tunnel_id, TunnelInfo { full_url, local_host, local_port });
                self.tunnels_registered = bump_counter(self.tunnels_registered);
                one(Action::Notify(TuiEvent::TunnelRegistered(event)))
            },
            IncomingMessage::TcpTunnelRegistered { tcp_tunnel_id, server_port, local_port } => {
                self.state.insert_tcp_tunnel(tcp_tunnel_id, TcpTunnelInfo { server_port, local_port });
                self.tcp_tunnels_registered = bump_counter(self.tcp_tunnels_registered);
                one(
                    Action::Notify(
                        TuiEvent::TcpTunnelRegistered(TcpTunnelEvent { server_port, local_port }),
                    ),
                )
            },
            IncomingMessage::TunnelRequest {
                request_id,
                tunnel_id,
                method,
                path,
                query_string,
                headers,
                body,
                body_encoding,
                client_ip,
            } => {
                let local_port = match self.state.find_tunnel_port(&tunnel_id) {
                    Some(port) => port,
                    None => FALLBACK_LOCAL_PORT,
                };
                let local_host = self.state.local_host().to_string();
                let body_data = decode_body(opt_str(&body), opt_str(&body_encoding));
                let pairs = pairs_of_rows(&headers);
                let event = RequestEvent {
                    request_id: request_id.clone(),
                    method: method.clone(),
                    path: path.clone(),
                    query_string: query_string.clone(),
                    headers: copy_headers(&pairs),
                    body: copy_payload(&body_data),
                    timestamp: now,
                    client_ip,
                };
                let ghost before = self.in_flight.deep_view();
                self.in_flight.push(request_id.clone());
                assert(self.in_flight.deep_view() =~= before.push(request_id@));
                two(
                    Action::Notify(TuiEvent::RequestReceived(event)),
                    Action::ForwardHttp {
                        request_id,
                        local_host,
                        local_port,
                        method,
                        path,
                        query_string,
                        headers: pairs,
                        body: body_data,
                    },
                )
            },
            IncomingMessage::WsUpgrade { ws_id, tunnel_id, path, headers } => {
                let local_port = match self.state.find_tunnel_port(&tunnel_id) {
                    Some(port) => port,
                    None => FALLBACK_LOCAL_PORT,
                };
                let local_host = self.state.local_host().to_string();
                one(Action::OpenWebSocket { ws_id, local_host, local_port, path, headers })
            },
            IncomingMessage::WsFrame { ws_id, opcode, data, data_encoding } => {
                if self.state.has_ws_proxy(&ws_id) {
                    let decoded = decode_ws_payload(data, &data_encoding);
                    let message = ws_proxy::to_local(opcode.as_str(), decoded);
                    one(Action::WsToLocal { ws_id, message })
                } else {
                    none()
                }
            },
            IncomingMessage::WsClose { ws_id, code, reason } => {
                if self.state.remove_ws_proxy(&ws_id) {
                    let message = ws_proxy::close_frame(code, reason);
                    one(Action::CloseWebSocket { ws_id, message })
                } else {
                    assert(self.state@.ws_proxies =~= old(self).state@.ws_proxies);
                    none()
                }
            },
            IncomingMessage::TcpConnect { tcp_id, tcp_tunnel_id } => {
                match self.state.find_tcp_tunnel(&tcp_tunnel_id) {
                    Some(info) => one(Action::ConnectTcp { tcp_id, local_port: info.local_port }),
                    None => none(),
                }
            },
            IncomingMessage::TcpData { tcp_id, data, data_encoding } => {
                if self.state.has_tcp_connection(&tcp_id) {
                    let decoded = decode_tcp_payload(data, &data_encoding);
                    one(Action::TcpToLocal { tcp_id, data: decoded })
                } else {
                    none()
                }
            },
            IncomingMessage::TcpClose { tcp_id, reason } => {
                if self.state.remove_tcp_connection(&tcp_id) {
                    one(Action::DropTcp { tcp_id })
                } else {
                    assert(self.state@.tcp_connections =~= old(self).state@.tcp_connections);
                    none()
                }
            },
            IncomingMessage::Heartbeat => none(),
            IncomingMessage::Error { code, message } => none(),
        }
    }
}

/// The status of the response that stands for a failed forward.
pub const BAD_GATEWAY: u16 = 502;

/// The body of the response that stands for a failed forward.
pub open spec fn bad_gateway_text(error: Seq<char>) -> Seq<char> {
    "Bad Gateway: "@ + error
}

/// What is reported for the outcome of a forward: the origin's answer, or a
/// `502` with the error in words as plain text.
pub open spec fn reported_response(outcome: Result<HttpResponseModel, Seq<char>>) -> HttpResponseModel {
    match outcome {
        Ok(response) => response,
        Err(error) => HttpResponseModel {
            status: BAD_GATEWAY,
            headers: seq![("content-type"@, "text/plain"@)],
            body: Some(encode_utf8(bad_gateway_text(error))),
        },
    }
}

/// The model of a forward's outcome.
pub open spec fn outcome_model(outcome: Result<HttpResponse, String>) -> Result<
    HttpResponseModel,
    Seq<char>,
> {
    match outcome {
        Ok(response) => Ok(response@),
        Err(error) => Err(error@),
    }
}

/// What the outcome of a forward does. A request that is in flight gets its
/// one response, bearing its identifier, and is in flight no more; an
/// outcome for a request that is not in flight is dropped.
pub open spec fn http_completed_spec(
    d: DispatcherModel,
    request_id: Seq<char>,
    outcome: Result<HttpResponseModel, Seq<char>>,
    duration_ms: u64,
) -> (DispatcherModel, Seq<ActionModel>) {
    if first_index(d.in_flight, request_id) < d.in_flight.len() {
        let response = reported_response(outcome);
        (
            DispatcherModel { in_flight: without_first(d.in_flight, request_id), ..d },
            seq![
                ActionModel::Notify(
                    TuiEventModel::ResponseSent(
                        ResponseEventModel {
                            request_id,
                            status: response.status,
                            headers: response.headers,
                            body: response.body,
                            duration_ms,
                        },
                    ),
                ),
                ActionModel::Send(
                    OutgoingModel::TunnelResponse {
                        request_id,
                        status: response.status,
                        headers: response.headers,
                        body: encode_body_spec(response.body).0,
                        body_encoding: encode_body_spec(response.body).1,
                    },
                ),
            ],
        )
    } else {
        (d, Seq::empty())
    }
}

/// The registration that a tunnel intent asks for.
pub open spec fn registration_frame(
    token: Seq<char>,
    local_host: Seq<char>,
    config: TunnelConfigModel,
) -> OutgoingModel {
    match config {
        TunnelConfigModel::Http { local_port, subdomain } => OutgoingModel::RegisterTunnel {
            token,
            local_host,
            local_port,
            requested_subdomain: subdomain,
        },
        TunnelConfigModel::Tcp { local_port } => OutgoingModel::RegisterTcpTunnel { local_port },
    }
}

/// The registry after a registration was sent: the registration waits, at
/// the end of its queue, for the server's confirmation.
pub open spec fn with_pending(state: ClientStateModel, config: TunnelConfigModel) -> ClientStateModel {
    match config {
        TunnelConfigModel::Http { local_port, subdomain } => ClientStateModel {
            pending_tunnels: state.pending_tunnels.push(
                PendingTunnelModel { local_host: state.local_host, local_port },
            ),
            ..state
        },
        TunnelConfigModel::Tcp { local_port } => ClientStateModel {
            pending_tcp_tunnels: state.pending_tcp_tunnels.push(local_port),
            ..state
        },
    }
}

/// The tunnel intent that a command of the user interface states.
pub open spec fn command_config(cmd: TuiCommandModel) -> TunnelConfigModel {
    match cmd {
        TuiCommandModel::AddHttpTunnel { local_port, subdomain } => TunnelConfigModel::Http {
            local_port,
            subdomain,
        },
        TuiCommandModel::AddTcpTunnel { local_port } => TunnelConfigModel::Tcp { local_port },
    }
}

/// What the news that a local WebSocket is open does: the server is told,
/// and the flow is open from now on.
pub open spec fn ws_opened_spec(d: DispatcherModel, ws_id: Seq<char>) -> (
    DispatcherModel,
    Seq<ActionModel>,
) {
    (
        DispatcherModel {
            state: ClientStateModel { ws_proxies: d.state.ws_proxies.insert(ws_id), ..d.state },
            ..d
        },
        seq![ActionModel::Send(OutgoingModel::WsUpgraded { ws_id, headers: Seq::empty() })],
    )
}

/// What the news that a local WebSocket could not be reached does: the
/// server gets a close with code 1011, and no flow is made.
pub open spec fn ws_open_failed_spec(d: DispatcherModel, ws_id: Seq<char>, error: Seq<char>) -> (
    DispatcherModel,
    Seq<ActionModel>,
) {
    (
        d,
        seq![
            ActionModel::Send(
                OutgoingModel::WsClose {
                    ws_id,
                    code: ws_proxy::LOCAL_FAILURE_CLOSE_CODE,
                    reason: ws_proxy::dial_failure_reason(error),
                },
            ),
        ],
    )
}

/// What the end of a WebSocket flow does: the flow is forgotten.
pub open spec fn ws_ended_spec(d: DispatcherModel, ws_id: Seq<char>) -> DispatcherModel {
    DispatcherModel {
        state: ClientStateModel { ws_proxies: d.state.ws_proxies.remove(ws_id), ..d.state },
        ..d
    }
}

/// What the news that a local TCP socket is connected does: the server is
/// told, and the flow is open from now on.
pub open spec fn tcp_opened_spec(d: DispatcherModel, tcp_id: Seq<char>) -> (
    DispatcherModel,
    Seq<ActionModel>,
) {
    (
        DispatcherModel {
            state: ClientStateModel {
                tcp_connections: d.state.tcp_connections.insert(tcp_id),
                ..d.state
            },
            ..d
        },
        seq![ActionModel::Send(OutgoingModel::TcpConnected { tcp_id })],
    )
}

/// What the news that a local TCP socket could not be reached does: the
/// server gets a close, and no flow is made.
pub open spec fn tcp_open_failed_spec(d: DispatcherModel, tcp_id: Seq<char>, error: Seq<char>) -> (
    DispatcherModel,
    Seq<ActionModel>,
) {
    (
        d,
        seq![
            ActionModel::Send(
                OutgoingModel::TcpClose { tcp_id, reason: tcp_proxy::dial_failure_reason(error) },
            ),
        ],
    )
}

/// What the end of a TCP flow does: the flow is forgotten.
pub open spec fn tcp_ended_spec(d: DispatcherModel, tcp_id: Seq<char>) -> DispatcherModel {
    DispatcherModel {
        state: ClientStateModel {
            tcp_connections: d.state.tcp_connections.remove(tcp_id),
            ..d.state
        },
        ..d
    }
}

/// What sending the registration for a tunnel intent does: the registration
/// is pending, and its frame goes out.
pub open spec fn register_spec(d: DispatcherModel, token: Seq<char>, config: TunnelConfigModel) -> (
    DispatcherModel,
    OutgoingModel,
) {
    (
        DispatcherModel { state: with_pending(d.state, config), ..d },
        registration_frame(token, d.state.local_host, config),
    )
}

impl Dispatcher {
    fn find_in_flight(&self, request_id: &RequestId) -> (r: usize)
        ensures
            r == first_index(self@.in_flight, request_id@),
            r <= self.in_flight.len(),
    {
        let ghost s = self.in_flight.deep_view();
        let mut i: usize = 0;
        assert(s.skip(0) =~= s);
        while i < self.in_flight.len()
            invariant
                i <= self.in_flight.len(),
                s == self.in_flight.deep_view(),
                s.len() == self.in_flight.len(),
                first_index(s, request_id@) == i + first_index(s.skip(i as int), request_id@),
            decreases self.in_flight.len() - i,
        {
            proof {
                assert(s.skip(i as int).drop_first() =~= s.skip(i + 1));
                assert(s.skip(i as int)[0] == self.in_flight@[i as int]@);
            }
            if self.in_flight[i].same(request_id) {
                return i;
            }
            i += 1;
        }
        i
    }

    /// Handles the outcome of a forward that [`Action::ForwardHttp`] asked for.
    pub fn http_completed(
        &mut self,
        request_id: &RequestId,
        outcome: Result<HttpResponse, String>,
        duration_ms: u64,
    ) -> (actions: Vec<Action>)
        requires
            outcome matches Ok(response) ==> (response.body matches Some(bytes) ==> valid_utf8(
                bytes@,
            ) || base64_fits(bytes@.len())),
        ensures
            (final(self)@, actions.deep_view()) == http_completed_spec(
                old(self)@,
                request_id@,
                outcome_model(outcome),
                duration_ms,
            ),
    {
        let at = self.find_in_flight(request_id);
        if at >= self.in_flight.len() {
            return none();
        }
        let ghost before = self.in_flight.deep_view();
        self.in_flight.remove(at);
        assert(self.in_flight.deep_view() =~= before.remove(at as int));
        let response = match outcome {
            Ok(response) => response,
            Err(error) => {
                let mut text = String::from_str("Bad Gateway: ");
                text.append(error.as_str());
                let mut headers: Headers = Vec::new();
                headers.push(("content-type".to_string(), "text/plain".to_string()));
                assert(headers.deep_view() =~= seq![("content-type"@, "text/plain"@)]);
                let bytes = text.as_str().as_bytes_vec();
                assert(bytes.deep_view() =~= bytes@);
                HttpResponse { status: BAD_GATEWAY, headers, body: Some(bytes) }
            },
        };
        proof {
            if outcome is Err {
                encode_utf8_valid_utf8(bad_gateway_text(outcome->Err_0@));
            }
        }
        let event = ResponseEvent {
            request_id: request_id.clone(),
            status: response.status,
            headers: copy_headers(&response.headers),
            body: copy_payload(&response.body),
            duration_ms,
        };
        let frame = OutgoingMessage::tunnel_response(
            request_id,
            response.status,
            response.headers,
            response.body,
        );
        two(Action::Notify(TuiEvent::ResponseSent(event)), Action::Send(frame))
    }

    /// Handles the news that the local WebSocket of a flow is open: the
    /// server is told, and the flow is open from now on.
    pub fn ws_opened(&mut self, ws_id: &WsId) -> (actions: Vec<Action>)
        ensures
            (final(self)@, actions.deep_view()) == ws_opened_spec(old(self)@, ws_id@),
    {
        self.state.insert_ws_proxy(ws_id.clone());
        one(Action::Send(ws_proxy::upgraded(ws_id)))
    }

    /// Handles the news that the local WebSocket could not be reached: the
    /// server gets a close with code 1011, and no flow is made.
    pub fn ws_open_failed(&self, ws_id: &WsId, error: &str) -> (actions: Vec<Action>)
        ensures
            (self@, actions.deep_view()) == ws_open_failed_spec(self@, ws_id@, error@),
    {
        one(Action::Send(ws_proxy::dial_failed(ws_id, error)))
    }

    /// Handles the end of a WebSocket flow, from whichever side: the flow
    /// is forgotten.
    pub fn ws_ended(&mut self, ws_id: &WsId)
        ensures
            final(self)@ == ws_ended_spec(old(self)@, ws_id@),
    {
        self.state.remove_ws_proxy(ws_id);
    }

    /// Handles the news that the local TCP socket of a flow is connected:
    /// the server is told, and the flow is open from now on.
    pub fn tcp_opened(&mut self, tcp_id: &TcpId) -> (actions: Vec<Action>)
        ensures
            (final(self)@, actions.deep_view()) == tcp_opened_spec(old(self)@, tcp_id@),
    {
        self.state.insert_tcp_connection(tcp_id.clone());
        one(Action::Send(OutgoingMessage::tcp_connected(tcp_id)))
    }

    /// Handles the news that the local TCP socket could not be reached: the
    /// server gets a close, and no flow is made.
    pub fn tcp_open_failed(&self, tcp_id: &TcpId, error: &str) -> (actions: Vec<Action>)
        ensures
            (self@, actions.deep_view()) == tcp_open_failed_spec(self@, tcp_id@, error@),
    {
        one(Action::Send(tcp_proxy::dial_failed(tcp_id, error)))
    }

    /// Handles the end of a TCP flow, from whichever side: the flow is
    /// forgotten.
    pub fn tcp_ended(&mut self, tcp_id: &TcpId)
        ensures
            final(self)@ == tcp_ended_spec(old(self)@, tcp_id@),
    {
        self.state.remove_tcp_connection(tcp_id);
    }

    /// Makes the registration for a tunnel intent and notes it as pending.
    pub fn register(&mut self, token: &str, config: &TunnelConfig) -> (frame: OutgoingMessage)
        ensures
            (final(self)@, frame@) == register_spec(old(self)@, token@, config@),
    {
        match config {
            TunnelConfig::Http { local_port, subdomain } => {
                let local_host = self.state.local_host().to_string();
                let frame = OutgoingMessage::register_tunnel(
                    token,
                    local_host.as_str(),
                    *local_port,
                    match subdomain {
                        Some(name) => Some(name.clone()),
                        None => None,
                    },
                );
                self.state.push_pending_tunnel(PendingTunnel { local_host, local_port: *local_port });
                frame
            },
            TunnelConfig::Tcp { local_port } => {
                self.state.push_pending_tcp_tunnel(*local_port);
                OutgoingMessage::register_tcp_tunnel(*local_port)
            },
        }
    }

    /// Handles a command of the user interface: the tunnel it asks for is
    /// registered, and handed back as the intent to keep across connections.
    pub fn handle_command(&mut self, token: &str, cmd: TuiCommand) -> (r: (
        TunnelConfig,
        OutgoingMessage,
    ))
        ensures
            r.0@ == command_config(cmd@),
            (final(self)@, r.1@) == register_spec(old(self)@, token@, command_config(cmd@)),
    {
        let config = match cmd {
            TuiCommand::AddHttpTunnel { local_port, subdomain } => TunnelConfig::Http {
                local_port,
                subdomain,
            },
            TuiCommand::AddTcpTunnel { local_port } => TunnelConfig::Tcp { local_port },
        };
        let frame = self.register(token, &config);
        (config, frame)
    }

    /// Handles one text frame from the server: a frame that is no message of
    /// the protocol is refused and changes nothing.
    pub fn handle_frame(&mut self, text: &str, now: u64) -> (r: Result<Vec<Action>, MalformedFrame>)
        ensures
            match frame_message(text@) {
                Ok(msg) => r is Ok && (final(self)@, r->Ok_0.deep_view()) == handle_message_spec(
                    old(self)@,
                    msg,
                    now,
                ),
                Err(e) => r == Err::<Vec<Action>, MalformedFrame>(e) && final(self)@ == old(self)@,
            },
    {
        match IncomingMessage::from_json(text) {
            Ok(msg) => Ok(self.handle_message(msg, now)),
            Err(e) => Err(e),
        }
    }
}

} // verus!
