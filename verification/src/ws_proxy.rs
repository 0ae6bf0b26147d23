//! The WebSocket proxy's rules: where the local socket is, which upgrade
//! headers are mirrored to it, and which frame stands for which in either
//! direction.

use vstd::prelude::*;
use vstd::string::*;
use vstd::utf8::*;

use crate::encoding::{base64_encode, base64_fits, base64_text, string_from_utf8_lossy, utf8_lossy_text};
use crate::http_proxy::{
    header_name_is_valid, header_name_valid, header_value_is_valid, header_value_valid,
    lemma_with_header, names_distinct, same_name, set_header, with_header,
};
use crate::ids::WsId;
use crate::messages::{Headers, HeadersModel, OutgoingMessage, OutgoingModel};
use crate::text::{decimal, eq_ignore_ascii_case, push_decimal, str_eq};

verus! {

/// The close code sent where none is given: normal closure.
pub const DEFAULT_CLOSE_CODE: u16 = 1000;

/// The close code sent where the local socket could not be reached.
pub const LOCAL_FAILURE_CLOSE_CODE: u16 = 1011;

/// How many frames may wait for a slow local socket, in each direction.
pub const FLOW_QUEUE_CAPACITY: usize = 64;

/// A WebSocket message, as the local socket sends and takes it.
#[derive(Debug, Clone, PartialEq, Eq)]
pub enum WsMessage {
    Text(String),
    Binary(Vec<u8>),
    Ping(Vec<u8>),
    Pong(Vec<u8>),
    /// A close, with its code and reason where it has them.
    Close(Option<(u16, String)>),
    /// A raw frame, which a compliant socket does not hand out.
    Frame,
}

/// The model of a [`WsMessage`].
pub enum WsMessageModel {
    Text(Seq<char>),
    Binary(Seq<u8>),
    Ping(Seq<u8>),
    Pong(Seq<u8>),
    Close(Option<(u16, Seq<char>)>),
    Frame,
}

impl View for WsMessage {
    type V = WsMessageModel;

    open spec fn view(&self) -> WsMessageModel {
        match *self {
            WsMessage::Text(s) => WsMessageModel::Text(s@),
            WsMessage::Binary(b) => WsMessageModel::Binary(b@),
            WsMessage::Ping(b) => WsMessageModel::Ping(b@),
            WsMessage::Pong(b) => WsMessageModel::Pong(b@),
            WsMessage::Close(c) => WsMessageModel::Close(
                match c {
                    Some((code, reason)) => Some((code, reason@)),
                    None => None,
                },
            ),
            WsMessage::Frame => WsMessageModel::Frame,
        }
    }
}

/// The URL of the local WebSocket.
pub open spec fn local_url_spec(local_host: Seq<char>, local_port: u16, path: Seq<char>) -> Seq<
    char,
> {
    "ws://"@ + local_host + ":"@ + decimal(local_port as nat) + path
}

/// Builds `ws://{local_host}:{local_port}{path}`.
pub fn local_url(local_host: &str, local_port: u16, path: &str) -> (r: String)
    ensures
        r@ == local_url_spec(local_host@, local_port, path@),
{
    let mut url = String::from_str("ws://");
    url.append(local_host);
    url.append(":");
    push_decimal(&mut url, local_port as u64);
    url.append(path);
    url
}

/// An upgrade header is mirrored when it has a name and a value, the name is
/// `cookie` or `authorization`, and both are well formed.
pub open spec fn upgrade_header_kept(row: Seq<Seq<char>>) -> bool {
    row.len() >= 2 && (same_name(row[0], "cookie"@) || same_name(row[0], "authorization"@))
        && header_name_valid(row[0]) && header_value_valid(row[1])
}

/// The upgrade headers that are mirrored to the local socket: of the headers
/// that are kept, each name once, at the place where it came first, with the
/// value that came last.
pub open spec fn kept_upgrade_headers(rows: Seq<Seq<Seq<char>>>) -> HeadersModel
    decreases rows.len(),
{
    if rows.len() == 0 {
        Seq::empty()
    } else {
        let before = kept_upgrade_headers(rows.drop_last());
        if upgrade_header_kept(rows.last()) {
            with_header(before, (rows.last()[0], rows.last()[1]))
        } else {
            before
        }
    }
}

/// Selects the upgrade headers that are mirrored to the local socket.
pub fn upgrade_headers(rows: &Vec<Vec<String>>) -> (r: Headers)
    ensures
        r.deep_view() == kept_upgrade_headers(rows.deep_view()),
{
    let ghost model = rows.deep_view();
    let mut kept: Headers = Vec::new();
    let mut i: usize = 0;
    assert(kept.deep_view() =~= kept_upgrade_headers(model.take(0)));
    while i < rows.len()
        invariant
            i <= rows.len(),
            model == rows.deep_view(),
            model.len() == rows.len(),
            kept.deep_view() == kept_upgrade_headers(model.take(i as int)),
        decreases rows.len() - i,
    {
        proof {
            assert(model.take(i + 1).drop_last() =~= model.take(i as int));
            assert(model.take(i + 1).last() == rows@[i as int].deep_view());
        }
        let row = &rows[i];
        if row.len() >= 2 {
            let name = row[0].as_str();
            let value = row[1].as_str();
            proof {
                assert(row.deep_view()[0] == row@[0]@);
                assert(row.deep_view()[1] == row@[1]@);
            }
            let wanted = eq_ignore_ascii_case(name, "cookie") || eq_ignore_ascii_case(
                name,
                "authorization",
            );
            if wanted && header_name_is_valid(name) && header_value_is_valid(value) {
                set_header(&mut kept, &row[0], &row[1]);
            }
        }
        i += 1;
    }
    assert(model.take(i as int) =~= model);
    kept
}

/// What to dial for an upgrade.
#[derive(Debug, Clone, PartialEq, Eq)]
pub struct WsConnectPlan {
    pub url: String,
    pub headers: Headers,
}

/// Prepares the dial of the local WebSocket for an upgrade request.
pub fn connect_plan(local_host: &str, local_port: u16, path: &str, headers: &Vec<Vec<String>>) -> (r:
    WsConnectPlan)
    ensures
        r.url@ == local_url_spec(local_host@, local_port, path@),
        r.headers.deep_view() == kept_upgrade_headers(headers.deep_view()),
{
    WsConnectPlan { url: local_url(local_host, local_port, path), headers: upgrade_headers(headers) }
}

/// The frame that the local socket gets for a frame from the server: the
/// four known opcodes map to their frames, `close` to a normal closure, and
/// any other opcode to a binary frame.
pub open spec fn to_local_spec(opcode: Seq<char>, data: Seq<u8>) -> WsMessageModel {
    if opcode == "text"@ {
        WsMessageModel::Text(utf8_lossy_text(data))
    } else if opcode == "binary"@ {
        WsMessageModel::Binary(data)
    } else if opcode == "ping"@ {
        WsMessageModel::Ping(data)
    } else if opcode == "pong"@ {
        WsMessageModel::Pong(data)
    } else if opcode == "close"@ {
        WsMessageModel::Close(Some((DEFAULT_CLOSE_CODE, Seq::<char>::empty())))
    } else {
        WsMessageModel::Binary(data)
    }
}

/// Makes the frame for the local socket from a frame of the server. A text frame
/// whose bytes are well-formed UTF-8 carries exactly their characters.
pub fn to_local(opcode: &str, data: Vec<u8>) -> (r: WsMessage)
    ensures
        r@ == to_local_spec(opcode@, data@),
        opcode@ == "text"@ && valid_utf8(data@) ==> r@ == WsMessageModel::Text(decode_utf8(data@)),
{
    if str_eq(opcode, "text") {
        WsMessage::Text(string_from_utf8_lossy(data.as_slice()))
    } else if str_eq(opcode, "binary") {
        WsMessage::Binary(data)
    } else if str_eq(opcode, "ping") {
        WsMessage::Ping(data)
    } else if str_eq(opcode, "pong") {
        WsMessage::Pong(data)
    } else if str_eq(opcode, "close") {
        WsMessage::Close(Some((DEFAULT_CLOSE_CODE, String::new())))
    } else {
        WsMessage::Binary(data)
    }
}

/// The close frame for the local socket; code and reason default to normal
/// closure and the empty reason.
pub fn close_frame(code: Option<u16>, reason: Option<String>) -> (r: WsMessage)
    ensures
        r@ == WsMessageModel::Close(
            Some(
                (
                    match code {
                        Some(c) => c,
                        None => DEFAULT_CLOSE_CODE,
                    },
                    match reason {
                        Some(text) => text@,
                        None => Seq::<char>::empty(),
                    },
                ),
            ),
        ),
{
    let code = match code {
        Some(c) => c,
        None => DEFAULT_CLOSE_CODE,
    };
    let reason = match reason {
        Some(text) => text,
        None => String::new(),
    };
    WsMessage::Close(Some((code, reason)))
}

/// One step of a flow that reads from a local socket: the message to send
/// to the server, if any, and whether the flow is over.
#[derive(Debug, Clone, PartialEq, Eq)]
pub struct FlowStep {
    pub frame: Option<OutgoingMessage>,
    pub finished: bool,
}

/// The model of a [`FlowStep`].
pub struct FlowStepModel {
    pub frame: Option<OutgoingModel>,
    pub finished: bool,
}

impl View for FlowStep {
    type V = FlowStepModel;

    open spec fn view(&self) -> FlowStepModel {
        FlowStepModel {
            frame: match self.frame {
                Some(m) => Some(m@),
                None => None,
            },
            finished: self.finished,
        }
    }
}

/// A frame of binary payload on its way to the server: always base64.
pub open spec fn binary_frame(ws_id: Seq<char>, opcode: Seq<char>, data: Seq<u8>) -> OutgoingModel {
    OutgoingModel::WsFrame {
        ws_id,
        opcode,
        data: base64_text(data),
        data_encoding: Some("base64"@),
    }
}

/// What the server gets for a message from the local socket: text goes
/// verbatim and untagged; binary, ping and pong go as base64; a close goes as
/// `ws_close`, with normal closure and the empty reason where it has none,
/// and ends the flow; a raw frame ends the flow without a message.
pub open spec fn from_local_spec(ws_id: Seq<char>, message: WsMessageModel) -> FlowStepModel {
    match message {
        WsMessageModel::Text(text) => FlowStepModel {
            frame: Some(
                OutgoingModel::WsFrame { ws_id, opcode: "text"@, data: text, data_encoding: None },
            ),
            finished: false,
        },
        WsMessageModel::Binary(data) => FlowStepModel {
            frame: Some(binary_frame(ws_id, "binary"@, data)),
            finished: false,
        },
        WsMessageModel::Ping(data) => FlowStepModel {
            frame: Some(binary_frame(ws_id, "ping"@, data)),
            finished: false,
        },
        WsMessageModel::Pong(data) => FlowStepModel {
            frame: Some(binary_frame(ws_id, "pong"@, data)),
            finished: false,
        },
        WsMessageModel::Close(close) => FlowStepModel {
            frame: Some(
                OutgoingModel::WsClose {
                    ws_id,
                    code: match close {
                        Some((code, _)) => code,
                        None => DEFAULT_CLOSE_CODE,
                    },
                    reason: match close {
                        Some((_, reason)) => reason,
                        None => Seq::<char>::empty(),
                    },
                },
            ),
            finished: true,
        },
        WsMessageModel::Frame => FlowStepModel { frame: None, finished: true },
    }
}

/// The payload of a message, where it has one that travels as base64.
pub open spec fn binary_payload(message: WsMessageModel) -> Option<Seq<u8>> {
    match message {
        WsMessageModel::Binary(data) => Some(data),
        WsMessageModel::Ping(data) => Some(data),
        WsMessageModel::Pong(data) => Some(data),
        _ => None,
    }
}

fn binary_to_server(ws_id: &WsId, opcode: &str, data: &Vec<u8>) -> (r: FlowStep)
    requires
        base64_fits(data@.len()),
    ensures
        r@ == (FlowStepModel { frame: Some(binary_frame(ws_id@, opcode@, data@)), finished: false }),
{
    FlowStep {
        frame: Some(
            OutgoingMessage::WsFrame {
                ws_id: ws_id.clone(),
                opcode: opcode.to_string(),
                data: base64_encode(data.as_slice()),
                data_encoding: Some("base64".to_string()),
            },
        ),
        finished: false,
    }
}

/// Makes the message for the server from a message of the local socket.
pub fn from_local(ws_id: &WsId, message: WsMessage) -> (r: FlowStep)
    requires
        binary_payload(message@) matches Some(data) ==> base64_fits(data.len()),
    ensures
        r@ == from_local_spec(ws_id@, message@),
{
    match message {
        WsMessage::Text(text) => FlowStep {
            frame: Some(
                OutgoingMessage::WsFrame {
                    ws_id: ws_id.clone(),
                    opcode: "text".to_string(),
                    data: text,
                    data_encoding: None,
                },
            ),
            finished: false,
        },
        WsMessage::Binary(data) => binary_to_server(ws_id, "binary", &data),
        WsMessage::Ping(data) => binary_to_server(ws_id, "ping", &data),
        WsMessage::Pong(data) => binary_to_server(ws_id, "pong", &data),
        WsMessage::Close(close) => {
            let (code, reason) = match close {
                Some((code, reason)) => (code, reason),
                None => (DEFAULT_CLOSE_CODE, String::new()),
            };
            FlowStep {
                frame: Some(OutgoingMessage::WsClose { ws_id: ws_id.clone(), code, reason }),
                finished: true,
            }
        },
        WsMessage::Frame => FlowStep { frame: None, finished: true },
    }
}

/// The text of the close that reports a failed local dial.
pub open spec fn dial_failure_reason(error: Seq<char>) -> Seq<char> {
    "Local connection failed: "@ + error
}

/// The close that tells the server that the local socket could not be
/// reached: code 1011, and the error in the reason.
pub fn dial_failed(ws_id: &WsId, error: &str) -> (r: OutgoingMessage)
    ensures
        r@ == (OutgoingModel::WsClose {
            ws_id: ws_id@,
            code: LOCAL_FAILURE_CLOSE_CODE,
            reason: dial_failure_reason(error@),
        }),
{
    let mut reason = String::from_str("Local connection failed: ");
    reason.append(error);
    OutgoingMessage::WsClose { ws_id: ws_id.clone(), code: LOCAL_FAILURE_CLOSE_CODE, reason }
}

/// The notice that the local socket is open; it carries no headers, since the
/// local socket's answer is not at hand.
pub fn upgraded(ws_id: &WsId) -> (r: OutgoingMessage)
    ensures
        r@ == (OutgoingModel::WsUpgraded { ws_id: ws_id@, headers: Seq::empty() }),
{
    let headers: Headers = Vec::new();
    assert(headers.deep_view() =~= Seq::empty());
    OutgoingMessage::WsUpgraded { ws_id: ws_id.clone(), headers }
}

/// Where a flow is in its life.
#[derive(Debug, Clone, Copy, PartialEq, Eq, Structural)]
pub enum FlowState {
    /// The local socket is being dialled.
    Connecting,
    /// Frames travel both ways.
    Open,
    /// A close was seen; the flow is winding up.
    Closing,
    /// The dial failed, or the local socket broke.
    Failed,
    /// The flow is over.
    Closed,
}

/// What happens to a flow.
#[derive(Debug, Clone, Copy, PartialEq, Eq, Structural)]
pub enum FlowEvent {
    DialSucceeded,
    DialFailed,
    /// A close came, from the server or from the local socket.
    CloseSeen,
    /// The local socket broke, or handed out what it should not.
    Fault,
    /// The flow's work has ended.
    Finished,
}

/// The life of a flow: from `Connecting` to `Open`, from there to `Closing`
/// or `Failed`, and from those to `Closed`, where it stays. A dial that
/// fails leads from `Connecting` to `Failed`. An event that does not fit the
/// state changes nothing, except that the end of the work closes any flow.
pub open spec fn next_state_spec(state: FlowState, event: FlowEvent) -> FlowState {
    match (state, event) {
        (FlowState::Closed, _) => FlowState::Closed,
        (_, FlowEvent::Finished) => FlowState::Closed,
        (FlowState::Connecting, FlowEvent::DialSucceeded) => FlowState::Open,
        (FlowState::Connecting, FlowEvent::DialFailed) => FlowState::Failed,
        (FlowState::Open, FlowEvent::CloseSeen) => FlowState::Closing,
        (FlowState::Open, FlowEvent::Fault) => FlowState::Failed,
        _ => state,
    }
}

/// How far a state is along the life of a flow.
pub open spec fn state_rank(state: FlowState) -> nat {
    match state {
        FlowState::Connecting => 0,
        FlowState::Open => 1,
        FlowState::Closing => 2,
        FlowState::Failed => 2,
        FlowState::Closed => 3,
    }
}

/// The state that follows an event.
pub fn next_state(state: FlowState, event: FlowEvent) -> (r: FlowState)
    ensures
        r == next_state_spec(state, event),
{
    match (state, event) {
        (FlowState::Closed, _) => FlowState::Closed,
        (_, FlowEvent::Finished) => FlowState::Closed,
        (FlowState::Connecting, FlowEvent::DialSucceeded) => FlowState::Open,
        (FlowState::Connecting, FlowEvent::DialFailed) => FlowState::Failed,
        (FlowState::Open, FlowEvent::CloseSeen) => FlowState::Closing,
        (FlowState::Open, FlowEvent::Fault) => FlowState::Failed,
        _ => state,
    }
}

/// What a step of the reading side means for the life of the flow: a step
/// that ends the flow with a message is a close, one that ends it without is
/// a fault, and any other step changes nothing.
pub fn step_event(step: &FlowStep) -> (r: Option<FlowEvent>)
    ensures
        r == if !step.finished {
            None
        } else if step.frame is Some {
            Some(FlowEvent::CloseSeen)
        } else {
            Some(FlowEvent::Fault)
        },
{
    if !step.finished {
        None
    } else if step.frame.is_some() {
        Some(FlowEvent::CloseSeen)
    } else {
        Some(FlowEvent::Fault)
    }
}

/// A flow never goes back: no event leads to an earlier state, `Closed` is
/// left by none, and frames travel only after a dial that succeeded.
pub proof fn lemma_flow_life(state: FlowState, event: FlowEvent)
    ensures
        state_rank(next_state_spec(state, event)) >= state_rank(state),
        state == FlowState::Closed ==> next_state_spec(state, event) == FlowState::Closed,
        next_state_spec(state, event) == FlowState::Open ==> state == FlowState::Open || (state
            == FlowState::Connecting && event == FlowEvent::DialSucceeded),
        next_state_spec(state, FlowEvent::Finished) == FlowState::Closed,
{
}

/// A name that is mirrored to the local socket.
pub open spec fn mirrored_name() -> spec_fn(Seq<char>) -> bool {
    |name: Seq<char>|
        (same_name(name, "cookie"@) || same_name(name, "authorization"@)) && header_name_valid(
            name,
        )
}

/// Of the upgrade headers, only `cookie` and `authorization` are mirrored to
/// the local socket, each at most once.
pub proof fn lemma_upgrade_headers_bounded(rows: Seq<Seq<Seq<char>>>)
    ensures
        names_distinct(kept_upgrade_headers(rows)),
        forall|i: int|
            0 <= i < kept_upgrade_headers(rows).len() ==> mirrored_name()(
                #[trigger] kept_upgrade_headers(rows)[i].0,
            ),
    decreases rows.len(),
{
    if rows.len() > 0 {
        lemma_upgrade_headers_bounded(rows.drop_last());
        if upgrade_header_kept(rows.last()) {
            lemma_with_header(
                kept_upgrade_headers(rows.drop_last()),
                (rows.last()[0], rows.last()[1]),
                mirrored_name(),
            );
        }
    }
}

} // verus!
