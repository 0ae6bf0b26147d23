//! Reading an incoming text frame: one JSON object whose member `"type"`
//! names the message and decides which members must be there. Members that
//! the message does not know are ignored; a tag that the protocol does not
//! know is an error.

use vstd::prelude::*;
use vstd::string::*;

use crate::ids::{RequestId, TcpId, TcpTunnelId, TunnelId, WsId};
use crate::json::{find_entry, json_document, Json};
use crate::messages::{IncomingMessage, IncomingModel};
use crate::text::str_eq;

verus! {

/// Why a frame was not accepted.
#[derive(Debug, Clone, Copy, PartialEq, Eq, Structural)]
pub enum MalformedFrame {
    /// The text is not a JSON document.
    NotJson,
    /// The document is no object, or has no string member `"type"`.
    MissingTag,
    /// The tag names no message of the protocol.
    UnknownTag,
    /// A required member is missing, or a member has the wrong type.
    BadField,
}

impl MalformedFrame {
    /// The error in words.
    pub fn message(&self) -> (r: &'static str)
        ensures
            r@ == match *self {
                MalformedFrame::NotJson => "frame is not valid JSON"@,
                MalformedFrame::MissingTag => "frame has no message type"@,
                MalformedFrame::UnknownTag => "frame has an unknown message type"@,
                MalformedFrame::BadField => "frame lacks a field or has one of the wrong type"@,
            },
    {
        match self {
            MalformedFrame::NotJson => "frame is not valid JSON",
            MalformedFrame::MissingTag => "frame has no message type",
            MalformedFrame::UnknownTag => "frame has an unknown message type",
            MalformedFrame::BadField => "frame lacks a field or has one of the wrong type",
        }
    }
}

/// A required string: present and a string.
pub open spec fn text_of(j: Option<Json>) -> Option<Seq<char>> {
    match j {
        Some(Json::Str(s)) => Some(s@),
        _ => None,
    }
}

/// An optional string: absent or `null`, or else a string. The outer `None`
/// stands for a member of another type.
pub open spec fn opt_text_of(j: Option<Json>) -> Option<Option<Seq<char>>> {
    match j {
        None => Some(None),
        Some(Json::Null) => Some(None),
        Some(Json::Str(s)) => Some(Some(s@)),
        _ => None,
    }
}

/// A required 16-bit unsigned number.
pub open spec fn port_of(j: Option<Json>) -> Option<u16> {
    match j {
        Some(Json::Number(Some(n))) => if n <= 0xffff {
            Some(n as u16)
        } else {
            None
        },
        _ => None,
    }
}

/// An optional 16-bit unsigned number; the outer `None` stands for a member
/// of another type or out of range.
pub open spec fn opt_port_of(j: Option<Json>) -> Option<Option<u16>> {
    match j {
        None => Some(None),
        Some(Json::Null) => Some(None),
        Some(Json::Number(Some(n))) => if n <= 0xffff {
            Some(Some(n as u16))
        } else {
            None
        },
        _ => None,
    }
}

/// An array of strings.
pub open spec fn is_text_row(j: Json) -> bool {
    match j {
        Json::Array(cells) => forall|k: int| 0 <= k < cells@.len() ==> #[trigger] cells@[k] is Str,
        _ => false,
    }
}

/// The strings of an array of strings.
pub open spec fn text_row(j: Json) -> Seq<Seq<char>> {
    match j {
        Json::Array(cells) => Seq::new(cells@.len(), |k: int| cells@[k]->Str_0@),
        _ => Seq::empty(),
    }
}

/// A required array of arrays of strings.
pub open spec fn rows_of(j: Option<Json>) -> Option<Seq<Seq<Seq<char>>>> {
    match j {
        Some(Json::Array(items)) => if forall|i: int|
            0 <= i < items@.len() ==> is_text_row(#[trigger] items@[i]) {
            Some(Seq::new(items@.len(), |i: int| text_row(items@[i])))
        } else {
            None
        },
        _ => None,
    }
}

/// `tunnel_registered`: the strings `tunnel_id`, `subdomain` and `full_url`.
pub open spec fn decode_tunnel_registered(j: Json) -> Result<IncomingModel, MalformedFrame> {
    let tunnel_id = text_of(j.member("tunnel_id"@));
    let subdomain = text_of(j.member("subdomain"@));
    let full_url = text_of(j.member("full_url"@));
    if tunnel_id is Some && subdomain is Some && full_url is Some {
        Ok(
            IncomingModel::TunnelRegistered {
                tunnel_id: tunnel_id->0,
                subdomain: subdomain->0,
                full_url: full_url->0,
            },
        )
    } else {
        Err(MalformedFrame::BadField)
    }
}

/// `tunnel_request`: the strings `request_id`, `tunnel_id`, `method`, `path`
/// and `query_string`, the rows `headers`, and optionally the strings `body`,
/// `body_encoding` and `client_ip`.
pub open spec fn decode_tunnel_request(j: Json) -> Result<IncomingModel, MalformedFrame> {
    let request_id = text_of(j.member("request_id"@));
    let tunnel_id = text_of(j.member("tunnel_id"@));
    let method = text_of(j.member("method"@));
    let path = text_of(j.member("path"@));
    let query_string = text_of(j.member("query_string"@));
    let headers = rows_of(j.member("headers"@));
    let body = opt_text_of(j.member("body"@));
    let body_encoding = opt_text_of(j.member("body_encoding"@));
    let client_ip = opt_text_of(j.member("client_ip"@));
    if request_id is Some && tunnel_id is Some && method is Some && path is Some
        && query_string is Some && headers is Some && body is Some && body_encoding is Some
        && client_ip is Some {
        Ok(
            IncomingModel::TunnelRequest {
                request_id: request_id->0,
                tunnel_id: tunnel_id->0,
                method: method->0,
                path: path->0,
                query_string: query_string->0,
                headers: headers->0,
                body: body->0,
                body_encoding: body_encoding->0,
                client_ip: client_ip->0,
            },
        )
    } else {
        Err(MalformedFrame::BadField)
    }
}

/// `ws_upgrade`: the strings `ws_id`, `tunnel_id` and `path`, and the rows
/// `headers`.
pub open spec fn decode_ws_upgrade(j: Json) -> Result<IncomingModel, MalformedFrame> {
    let ws_id = text_of(j.member("ws_id"@));
    let tunnel_id = text_of(j.member("tunnel_id"@));
    let path = text_of(j.member("path"@));
    let headers = rows_of(j.member("headers"@));
    if ws_id is Some && tunnel_id is Some && path is Some && headers is Some {
        Ok(
            IncomingModel::WsUpgrade {
                ws_id: ws_id->0,
                tunnel_id: tunnel_id->0,
                path: path->0,
                headers: headers->0,
            },
        )
    } else {
        Err(MalformedFrame::BadField)
    }
}

/// `ws_frame`: the strings `ws_id`, `opcode` and `data`, and optionally the
/// string `data_encoding`.
pub open spec fn decode_ws_frame(j: Json) -> Result<IncomingModel, MalformedFrame> {
    let ws_id = text_of(j.member("ws_id"@));
    let opcode = text_of(j.member("opcode"@));
    let data = text_of(j.member("data"@));
    let data_encoding = opt_text_of(j.member("data_encoding"@));
    if ws_id is Some && opcode is Some && data is Some && data_encoding is Some {
        Ok(
            IncomingModel::WsFrame {
                ws_id: ws_id->0,
                opcode: opcode->0,
                data: data->0,
                data_encoding: data_encoding->0,
            },
        )
    } else {
        Err(MalformedFrame::BadField)
    }
}

/// `ws_close`: the string `ws_id`, and optionally the number `code` and the
/// string `reason`.
pub open spec fn decode_ws_close(j: Json) -> Result<IncomingModel, MalformedFrame> {
    let ws_id = text_of(j.member("ws_id"@));
    let code = opt_port_of(j.member("code"@));
    let reason = opt_text_of(j.member("reason"@));
    if ws_id is Some && code is Some && reason is Some {
        Ok(IncomingModel::WsClose { ws_id: ws_id->0, code: code->0, reason: reason->0 })
    } else {
        Err(MalformedFrame::BadField)
    }
}

/// `tcp_tunnel_registered`: the string `tcp_tunnel_id` and the numbers
/// `server_port` and `local_port`.
pub open spec fn decode_tcp_tunnel_registered(j: Json) -> Result<IncomingModel, MalformedFrame> {
    let tcp_tunnel_id = text_of(j.member("tcp_tunnel_id"@));
    let server_port = port_of(j.member("server_port"@));
    let local_port = port_of(j.member("local_port"@));
    if tcp_tunnel_id is Some && server_port is Some && local_port is Some {
        Ok(
            IncomingModel::TcpTunnelRegistered {
                tcp_tunnel_id: tcp_tunnel_id->0,
                server_port: server_port->0,
                local_port: local_port->0,
            },
        )
    } else {
        Err(MalformedFrame::BadField)
    }
}

/// `tcp_connect`: the strings `tcp_id` and `tcp_tunnel_id`.
pub open spec fn decode_tcp_connect(j: Json) -> Result<IncomingModel, MalformedFrame> {
    let tcp_id = text_of(j.member("tcp_id"@));
    let tcp_tunnel_id = text_of(j.member("tcp_tunnel_id"@));
    if tcp_id is Some && tcp_tunnel_id is Some {
        Ok(IncomingModel::TcpConnect { tcp_id: tcp_id->0, tcp_tunnel_id: tcp_tunnel_id->0 })
    } else {
        Err(MalformedFrame::BadField)
    }
}

/// `tcp_data`: the strings `tcp_id` and `data`, and optionally the string
/// `data_encoding`.
pub open spec fn decode_tcp_data(j: Json) -> Result<IncomingModel, MalformedFrame> {
    let tcp_id = text_of(j.member("tcp_id"@));
    let data = text_of(j.member("data"@));
    let data_encoding = opt_text_of(j.member("data_encoding"@));
    if tcp_id is Some && data is Some && data_encoding is Some {
        Ok(
            IncomingModel::TcpData {
                tcp_id: tcp_id->0,
                data: data->0,
                data_encoding: data_encoding->0,
            },
        )
    } else {
        Err(MalformedFrame::BadField)
    }
}

/// `tcp_close`: the string `tcp_id`, and optionally the string `reason`.
pub open spec fn decode_tcp_close(j: Json) -> Result<IncomingModel, MalformedFrame> {
    let tcp_id = text_of(j.member("tcp_id"@));
    let reason = opt_text_of(j.member("reason"@));
    if tcp_id is Some && reason is Some {
        Ok(IncomingModel::TcpClose { tcp_id: tcp_id->0, reason: reason->0 })
    } else {
        Err(MalformedFrame::BadField)
    }
}

/// `error`: the strings `code` and `message`.
pub open spec fn decode_error(j: Json) -> Result<IncomingModel, MalformedFrame> {
    let code = text_of(j.member("code"@));
    let message = text_of(j.member("message"@));
    if code is Some && message is Some {
        Ok(IncomingModel::Error { code: code->0, message: message->0 })
    } else {
        Err(MalformedFrame::BadField)
    }
}

/// The message that a JSON document stands for: its string member `type`
/// names the message, and the members that the message requires must be
/// there with their types. `heartbeat` requires none.
pub open spec fn document_message(j: Json) -> Result<IncomingModel, MalformedFrame> {
    match text_of(j.member("type"@)) {
        None => Err(MalformedFrame::MissingTag),
        Some(tag) => if tag == "tunnel_registered"@ {
            decode_tunnel_registered(j)
        } else if tag == "tunnel_request"@ {
            decode_tunnel_request(j)
        } else if tag == "ws_upgrade"@ {
            decode_ws_upgrade(j)
        } else if tag == "ws_frame"@ {
            decode_ws_frame(j)
        } else if tag == "ws_close"@ {
            decode_ws_close(j)
        } else if tag == "tcp_tunnel_registered"@ {
            decode_tcp_tunnel_registered(j)
        } else if tag == "tcp_connect"@ {
            decode_tcp_connect(j)
        } else if tag == "tcp_data"@ {
            decode_tcp_data(j)
        } else if tag == "tcp_close"@ {
            decode_tcp_close(j)
        } else if tag == "heartbeat"@ {
            Ok(IncomingModel::Heartbeat)
        } else if tag == "error"@ {
            decode_error(j)
        } else {
            Err(MalformedFrame::UnknownTag)
        },
    }
}

/// The message that a text frame stands for.
pub open spec fn frame_message(text: Seq<char>) -> Result<IncomingModel, MalformedFrame> {
    match json_document(text) {
        None => Err(MalformedFrame::NotJson),
        Some(j) => document_message(j),
    }
}

/// The model of a decoding result.
pub open spec fn decoded_model(r: Result<IncomingMessage, MalformedFrame>) -> Result<
    IncomingModel,
    MalformedFrame,
> {
    match r {
        Ok(m) => Ok(m@),
        Err(e) => Err(e),
    }
}

fn text_field(j: &Json, key: &str) -> (r: Option<String>)
    ensures
        r.deep_view() == text_of(j.member(key@)),
{
    match j.get(key) {
        Some(Json::Str(s)) => Some(s.clone()),
        _ => None,
    }
}

fn opt_text_field(j: &Json, key: &str) -> (r: Option<Option<String>>)
    ensures
        r.deep_view() == opt_text_of(j.member(key@)),
{
    match j.get(key) {
        None => Some(None),
        Some(Json::Null) => Some(None),
        Some(Json::Str(s)) => Some(Some(s.clone())),
        _ => None,
    }
}

fn port_field(j: &Json, key: &str) -> (r: Option<u16>)
    ensures
        r == port_of(j.member(key@)),
{
    match j.get(key) {
        Some(Json::Number(Some(n))) => if *n <= 0xffff {
            Some(*n as u16)
        } else {
            None
        },
        _ => None,
    }
}

fn opt_port_field(j: &Json, key: &str) -> (r: Option<Option<u16>>)
    ensures
        r == opt_port_of(j.member(key@)),
{
    match j.get(key) {
        None => Some(None),
        Some(Json::Null) => Some(None),
        Some(Json::Number(Some(n))) => if *n <= 0xffff {
            Some(Some(*n as u16))
        } else {
            None
        },
        _ => None,
    }
}

fn row_of_texts(j: &Json) -> (r: Option<Vec<String>>)
    ensures
        r is Some <==> is_text_row(*j),
        r matches Some(row) ==> row.deep_view() == text_row(*j),
{
    match j {
        Json::Array(cells) => {
            let mut row: Vec<String> = Vec::new();
            let mut k: usize = 0;
            while k < cells.len()
                invariant
                    *j == Json::Array(*cells),
                    k <= cells.len(),
                    row.len() == k,
                    forall|m: int| 0 <= m < k ==> #[trigger] cells@[m] is Str,
                    forall|m: int| 0 <= m < k ==> #[trigger] row@[m]@ == cells@[m]->Str_0@,
                decreases cells.len() - k,
            {
                match &cells[k] {
                    Json::Str(s) => {
                        row.push(s.clone());
                    },
                    _ => {
                        assert(!(cells@[k as int] is Str));
                        return None;
                    },
                }
                k += 1;
            }
            assert(row.deep_view() =~= text_row(*j));
            Some(row)
        },
        _ => None,
    }
}

fn rows_field(j: &Json, key: &str) -> (r: Option<Vec<Vec<String>>>)
    ensures
        r.deep_view() == rows_of(j.member(key@)),
{
    match j.get(key) {
        Some(Json::Array(items)) => {
            let mut rows: Vec<Vec<String>> = Vec::new();
            let mut i: usize = 0;
            while i < items.len()
                invariant
                    j.member(key@) == Some(Json::Array(*items)),
                    i <= items.len(),
                    rows.len() == i,
                    forall|m: int| 0 <= m < i ==> is_text_row(#[trigger] items@[m]),
                    forall|m: int| 0 <= m < i ==> #[trigger] rows@[m].deep_view() == text_row(items@[m]),
                decreases items.len() - i,
            {
                match row_of_texts(&items[i]) {
                    Some(row) => {
                        rows.push(row);
                    },
                    None => {
                        assert(!is_text_row(items@[i as int]));
                        return None;
                    },
                }
                i += 1;
            }
            assert(rows.deep_view() =~= Seq::new(items@.len(), |i: int| text_row(items@[i])));
            Some(rows)
        },
        _ => None,
    }
}

impl IncomingMessage {
    /// Reads a message from a JSON document.
    pub fn decode(j: &Json) -> (r: Result<IncomingMessage, MalformedFrame>)
        ensures
            decoded_model(r) == document_message(*j),
    {
        let tag = match text_field(j, "type") {
            Some(tag) => tag,
            None => {
                return Err(MalformedFrame::MissingTag);
            },
        };
        let tag = tag.as_str();
        if str_eq(tag, "tunnel_registered") {
            let tunnel_id = text_field(j, "tunnel_id");
            let subdomain = text_field(j, "subdomain");
            let full_url = text_field(j, "full_url");
            match (tunnel_id, subdomain, full_url) {
                (Some(tunnel_id), Some(subdomain), Some(full_url)) => Ok(
                    IncomingMessage::TunnelRegistered {
                        tunnel_id: TunnelId(tunnel_id),
                        subdomain,
                        full_url,
                    },
                ),
                _ => Err(MalformedFrame::BadField),
            }
        } else if str_eq(tag, "tunnel_request") {
            let request_id = text_field(j, "request_id");
            let tunnel_id = text_field(j, "tunnel_id");
            let method = text_field(j, "method");
            let path = text_field(j, "path");
            let query_string = text_field(j, "query_string");
            let headers = rows_field(j, "headers");
            let body = opt_text_field(j, "body");
            let body_encoding = opt_text_field(j, "body_encoding");
            let client_ip = opt_text_field(j, "client_ip");
            match (request_id, tunnel_id, method, path, query_string) {
                (Some(request_id), Some(tunnel_id), Some(method), Some(path), Some(query_string)) => {
                    match (headers, body, body_encoding, client_ip) {
                        (Some(headers), Some(body), Some(body_encoding), Some(client_ip)) => Ok(
                            IncomingMessage::TunnelRequest {
                                request_id: RequestId(request_id),
                                tunnel_id: TunnelId(tunnel_id),
                                method,
                                path,
                                query_string,
                                headers,
                                body,
                                body_encoding,
                                client_ip,
                            },
                        ),
                        _ => Err(MalformedFrame::BadField),
                    }
                },
                _ => Err(MalformedFrame::BadField),
            }
        } else if str_eq(tag, "ws_upgrade") {
            let ws_id = text_field(j, "ws_id");
            let tunnel_id = text_field(j, "tunnel_id");
            let path = text_field(j, "path");
            let headers = rows_field(j, "headers");
            match (ws_id, tunnel_id, path, headers) {
                (Some(ws_id), Some(tunnel_id), Some(path), Some(headers)) => Ok(
                    IncomingMessage::WsUpgrade {
                        ws_id: WsId(ws_id),
                        tunnel_id: TunnelId(tunnel_id),
                        path,
                        headers,
                    },
                ),
                _ => Err(MalformedFrame::BadField),
            }
        } else if str_eq(tag, "ws_frame") {
            let ws_id = text_field(j, "ws_id");
            let opcode = text_field(j, "opcode");
            let data = text_field(j, "data");
            let data_encoding = opt_text_field(j, "data_encoding");
            match (ws_id, opcode, data, data_encoding) {
                (Some(ws_id), Some(opcode), Some(data), Some(data_encoding)) => Ok(
                    IncomingMessage::WsFrame { ws_id: WsId(ws_id), opcode, data, data_encoding },
                ),
                _ => Err(MalformedFrame::BadField),
            }
        } else if str_eq(tag, "ws_close") {
            let ws_id = text_field(j, "ws_id");
            let code = opt_port_field(j, "code");
            let reason = opt_text_field(j, "reason");
            match (ws_id, code, reason) {
                (Some(ws_id), Some(code), Some(reason)) => Ok(
                    IncomingMessage::WsClose { ws_id: WsId(ws_id), code, reason },
                ),
                _ => Err(MalformedFrame::BadField),
            }
        } else if str_eq(tag, "tcp_tunnel_registered") {
            let tcp_tunnel_id = text_field(j, "tcp_tunnel_id");
            let server_port = port_field(j, "server_port");
            let local_port = port_field(j, "local_port");
            match (tcp_tunnel_id, server_port, local_port) {
                (Some(tcp_tunnel_id), Some(server_port), Some(local_port)) => Ok(
                    IncomingMessage::TcpTunnelRegistered {
                        tcp_tunnel_id: TcpTunnelId(tcp_tunnel_id),
                        server_port,
                        local_port,
                    },
                ),
                _ => Err(MalformedFrame::BadField),
            }
        } else if str_eq(tag, "tcp_connect") {
            let tcp_id = text_field(j, "tcp_id");
            let tcp_tunnel_id = text_field(j, "tcp_tunnel_id");
            match (tcp_id, tcp_tunnel_id) {
                (Some(tcp_id), Some(tcp_tunnel_id)) => Ok(
                    IncomingMessage::TcpConnect {
                        tcp_id: TcpId(tcp_id),
                        tcp_tunnel_id: TcpTunnelId(tcp_tunnel_id),
                    },
                ),
                _ => Err(MalformedFrame::BadField),
            }
        } else if str_eq(tag, "tcp_data") {
            let tcp_id = text_field(j, "tcp_id");
            let data = text_field(j, "data");
            let data_encoding = opt_text_field(j, "data_encoding");
            match (tcp_id, data, data_encoding) {
                (Some(tcp_id), Some(data), Some(data_encoding)) => Ok(
                    IncomingMessage::TcpData { tcp_id: TcpId(tcp_id), data, data_encoding },
                ),
                _ => Err(MalformedFrame::BadField),
            }
        } else if str_eq(tag, "tcp_close") {
            let tcp_id = text_field(j, "tcp_id");
            let reason = opt_text_field(j, "reason");
            match (tcp_id, reason) {
                (Some(tcp_id), Some(reason)) => Ok(
                    IncomingMessage::TcpClose { tcp_id: TcpId(tcp_id), reason },
                ),
                _ => Err(MalformedFrame::BadField),
            }
        } else if str_eq(tag, "heartbeat") {
            Ok(IncomingMessage::Heartbeat)
        } else if str_eq(tag, "error") {
            let code = text_field(j, "code");
            let message = text_field(j, "message");
            match (code, message) {
                (Some(code), Some(message)) => Ok(IncomingMessage::Error { code, message }),
                _ => Err(MalformedFrame::BadField),
            }
        } else {
            Err(MalformedFrame::UnknownTag)
        }
    }

    /// Reads a message from a text frame.
    pub fn from_json(json: &str) -> (r: Result<IncomingMessage, MalformedFrame>)
        ensures
            decoded_model(r) == frame_message(json@),
    {
        match Json::parse(json) {
            Some(j) => IncomingMessage::decode(&j),
            None => Err(MalformedFrame::NotJson),
        }
    }
}

/// A member that some message of the protocol reads.
pub open spec fn is_known_member(key: Seq<char>) -> bool {
    key == "type"@ || key == "tunnel_id"@ || key == "subdomain"@ || key == "full_url"@ || key
        == "request_id"@ || key == "method"@ || key == "path"@ || key == "query_string"@ || key
        == "headers"@ || key == "body"@ || key == "body_encoding"@ || key == "client_ip"@ || key
        == "ws_id"@ || key == "opcode"@ || key == "data"@ || key == "data_encoding"@ || key
        == "code"@ || key == "reason"@ || key == "tcp_tunnel_id"@ || key == "server_port"@ || key
        == "local_port"@ || key == "tcp_id"@ || key == "message"@
}

proof fn lemma_find_entry_push(entries: Seq<(String, Json)>, extra: (String, Json), key: Seq<char>)
    requires
        extra.0@ != key,
    ensures
        find_entry(entries.push(extra), key) == find_entry(entries, key),
    decreases entries.len(),
{
    let longer = entries.push(extra);
    if entries.len() == 0 {
        assert(longer[0] == extra);
        assert(longer.drop_first() =~= Seq::<(String, Json)>::empty());
        assert(find_entry(longer.drop_first(), key) is None);
    } else {
        assert(longer[0] == entries[0]);
        assert(longer.drop_first() =~= entries.drop_first().push(extra));
        lemma_find_entry_push(entries.drop_first(), extra, key);
    }
}

/// A member that no message reads changes nothing: a frame with such a
/// member more stands for the message, or the error, that it stands for
/// without it.
pub proof fn lemma_unknown_member_ignored(before: Json, after: Json, extra: (String, Json))
    requires
        before is Object,
        after is Object,
        after->Object_0@ == before->Object_0@.push(extra),
        !is_known_member(extra.0@),
    ensures
        document_message(after) == document_message(before),
{
    let entries = before->Object_0@;
    lemma_find_entry_push(entries, extra, "type"@);
    lemma_find_entry_push(entries, extra, "tunnel_id"@);
    lemma_find_entry_push(entries, extra, "subdomain"@);
    lemma_find_entry_push(entries, extra, "full_url"@);
    lemma_find_entry_push(entries, extra, "request_id"@);
    lemma_find_entry_push(entries, extra, "method"@);
    lemma_find_entry_push(entries, extra, "path"@);
    lemma_find_entry_push(entries, extra, "query_string"@);
    lemma_find_entry_push(entries, extra, "headers"@);
    lemma_find_entry_push(entries, extra, "body"@);
    lemma_find_entry_push(entries, extra, "body_encoding"@);
    lemma_find_entry_push(entries, extra, "client_ip"@);
    lemma_find_entry_push(entries, extra, "ws_id"@);
    lemma_find_entry_push(entries, extra, "opcode"@);
    lemma_find_entry_push(entries, extra, "data"@);
    lemma_find_entry_push(entries, extra, "data_encoding"@);
    lemma_find_entry_push(entries, extra, "code"@);
    lemma_find_entry_push(entries, extra, "reason"@);
    lemma_find_entry_push(entries, extra, "tcp_tunnel_id"@);
    lemma_find_entry_push(entries, extra, "server_port"@);
    lemma_find_entry_push(entries, extra, "local_port"@);
    lemma_find_entry_push(entries, extra, "tcp_id"@);
    lemma_find_entry_push(entries, extra, "message"@);
}

/// A tag that names a message of the protocol.
pub open spec fn is_known_tag(tag: Seq<char>) -> bool {
    tag == "tunnel_registered"@ || tag == "tunnel_request"@ || tag == "ws_upgrade"@ || tag
        == "ws_frame"@ || tag == "ws_close"@ || tag == "tcp_tunnel_registered"@ || tag
        == "tcp_connect"@ || tag == "tcp_data"@ || tag == "tcp_close"@ || tag == "heartbeat"@ || tag
        == "error"@
}

/// A tag that the protocol does not know is an error, and it is the only
/// way to that error: a frame is refused for its tag exactly when it has a
/// tag and the tag names no message.
pub proof fn lemma_unknown_tag(j: Json)
    ensures
        document_message(j) == Err::<IncomingModel, MalformedFrame>(MalformedFrame::UnknownTag) <==> (
        text_of(j.member("type"@)) matches Some(tag) && !is_known_tag(tag)),
        document_message(j) == Err::<IncomingModel, MalformedFrame>(MalformedFrame::MissingTag)
            <==> text_of(j.member("type"@)) is None,
{
}

} // verus!
