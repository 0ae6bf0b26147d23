//! Writing an outgoing message as a text frame: one JSON object, the tag
//! `"type"` first, then the fields in their fixed order, optional fields
//! left out where absent.

use vstd::prelude::*;
use vstd::string::*;

use crate::json::{json_string_text, quote};
use crate::messages::{Headers, HeadersModel, OutgoingMessage, OutgoingModel};
use crate::text::{decimal, push_decimal};

verus! {

/// `prefix`, then `key`, then `value` as a JSON string literal.
pub open spec fn with_text(prefix: Seq<char>, key: Seq<char>, value: Seq<char>) -> Seq<char> {
    prefix + key + json_string_text(value)
}

/// `prefix`, then `key`, then the decimal numeral of `n`.
pub open spec fn with_number(prefix: Seq<char>, key: Seq<char>, n: nat) -> Seq<char> {
    prefix + key + decimal(n)
}

/// As [`with_text`] where the value is present, `prefix` alone where not.
pub open spec fn with_opt_text(prefix: Seq<char>, key: Seq<char>, value: Option<Seq<char>>) -> Seq<
    char,
> {
    match value {
        Some(v) => with_text(prefix, key, v),
        None => prefix,
    }
}

/// `prefix`, then each pair as a two-element JSON array, separated by commas.
pub open spec fn with_pair_items(prefix: Seq<char>, pairs: HeadersModel) -> Seq<char>
    decreases pairs.len(),
{
    if pairs.len() == 0 {
        prefix
    } else {
        let before = with_pair_items(prefix, pairs.drop_last());
        let start = if pairs.len() == 1 {
            before
        } else {
            before + ","@
        };
        start + "["@ + json_string_text(pairs.last().0) + ","@ + json_string_text(pairs.last().1)
            + "]"@
    }
}

/// `prefix`, then `key`, then the pairs as a JSON array of two-element arrays.
pub open spec fn with_pairs(prefix: Seq<char>, key: Seq<char>, pairs: HeadersModel) -> Seq<char> {
    with_pair_items(prefix + key + "["@, pairs) + "]"@
}

/// The text frame of an outgoing message.
pub open spec fn frame_text(m: OutgoingModel) -> Seq<char> {
    match m {
        OutgoingModel::RegisterTunnel { token, local_host, local_port, requested_subdomain } => {
            with_opt_text(
                with_number(
                    with_text(
                        with_text("{\"type\":\"register_tunnel\""@, ",\"token\":"@, token),
                        ",\"local_host\":"@,
                        local_host,
                    ),
                    ",\"local_port\":"@,
                    local_port as nat,
                ),
                ",\"requested_subdomain\":"@,
                requested_subdomain,
            ) + "}"@
        },
        OutgoingModel::TunnelResponse { request_id, status, headers, body, body_encoding } => {
            with_opt_text(
                with_opt_text(
                    with_pairs(
                        with_number(
                            with_text(
                                "{\"type\":\"tunnel_response\""@,
                                ",\"request_id\":"@,
                                request_id,
                            ),
                            ",\"status\":"@,
                            status as nat,
                        ),
                        ",\"headers\":"@,
                        headers,
                    ),
                    ",\"body\":"@,
                    body,
                ),
                ",\"body_encoding\":"@,
                body_encoding,
            ) + "}"@
        },
        OutgoingModel::WsUpgraded { ws_id, headers } => {
            with_pairs(
                with_text("{\"type\":\"ws_upgraded\""@, ",\"ws_id\":"@, ws_id),
                ",\"headers\":"@,
                headers,
            ) + "}"@
        },
        OutgoingModel::WsFrame { ws_id, opcode, data, data_encoding } => {
            with_opt_text(
                with_text(
                    with_text(
                        with_text("{\"type\":\"ws_frame\""@, ",\"ws_id\":"@, ws_id),
                        ",\"opcode\":"@,
                        opcode,
                    ),
                    ",\"data\":"@,
                    data,
                ),
                ",\"data_encoding\":"@,
                data_encoding,
            ) + "}"@
        },
        OutgoingModel::WsClose { ws_id, code, reason } => {
            with_text(
                with_number(
                    with_text("{\"type\":\"ws_close\""@, ",\"ws_id\":"@, ws_id),
                    ",\"code\":"@,
                    code as nat,
                ),
                ",\"reason\":"@,
                reason,
            ) + "}"@
        },
        OutgoingModel::RegisterTcpTunnel { local_port } => {
            with_number("{\"type\":\"register_tcp_tunnel\""@, ",\"local_port\":"@, local_port as nat)
                + "}"@
        },
        OutgoingModel::TcpConnected { tcp_id } => {
            with_text("{\"type\":\"tcp_connected\""@, ",\"tcp_id\":"@, tcp_id) + "}"@
        },
        OutgoingModel::TcpData { tcp_id, data, data_encoding } => {
            with_text(
                with_text(
                    with_text("{\"type\":\"tcp_data\""@, ",\"tcp_id\":"@, tcp_id),
                    ",\"data\":"@,
                    data,
                ),
                ",\"data_encoding\":"@,
                data_encoding,
            ) + "}"@
        },
        OutgoingModel::TcpClose { tcp_id, reason } => {
            with_text(
                with_text("{\"type\":\"tcp_close\""@, ",\"tcp_id\":"@, tcp_id),
                ",\"reason\":"@,
                reason,
            ) + "}"@
        },
        OutgoingModel::Heartbeat => "{\"type\":\"heartbeat\"}"@,
    }
}

fn put_text(out: &mut String, key: &str, value: &str)
    ensures
        final(out)@ == with_text(old(out)@, key@, value@),
{
    out.append(key);
    let literal = quote(value);
    out.append(literal.as_str());
}

fn put_number(out: &mut String, key: &str, n: u16)
    ensures
        final(out)@ == with_number(old(out)@, key@, n as nat),
{
    out.append(key);
    push_decimal(out, n as u64);
}

fn put_opt_text(out: &mut String, key: &str, value: &Option<String>)
    ensures
        final(out)@ == with_opt_text(old(out)@, key@, value.deep_view()),
{
    match value {
        Some(v) => put_text(out, key, v.as_str()),
        None => {},
    }
}

fn put_pairs(out: &mut String, key: &str, pairs: &Headers)
    ensures
        final(out)@ == with_pairs(old(out)@, key@, pairs.deep_view()),
{
    out.append(key);
    out.append("[");
    let ghost start = out@;
    let ghost model = pairs.deep_view();
    let mut i: usize = 0;
    while i < pairs.len()
        invariant
            i <= pairs.len(),
            model == pairs.deep_view(),
            model.len() == pairs.len(),
            out@ == with_pair_items(start, model.take(i as int)),
        decreases pairs.len() - i,
    {
        let ghost done = model.take(i as int);
        let ghost next = model.take(i + 1);
        proof {
            assert(next.drop_last() =~= done);
            assert(next.last() == model[i as int]);
            assert(model[i as int] == (pairs@[i as int].0@, pairs@[i as int].1@));
        }
        if i > 0 {
            out.append(",");
        }
        out.append("[");
        let name = quote(pairs[i].0.as_str());
        out.append(name.as_str());
        out.append(",");
        let value = quote(pairs[i].1.as_str());
        out.append(value.as_str());
        out.append("]");
        i += 1;
    }
    assert(model.take(i as int) =~= model);
    out.append("]");
}

impl OutgoingMessage {
    /// The message as the text frame that goes on the wire.
    pub fn to_json(&self) -> (r: String)
        ensures
            r@ == frame_text(self@),
    {
        match self {
            OutgoingMessage::RegisterTunnel {
                token,
                local_host,
                local_port,
                requested_subdomain,
            } => {
                let mut out = String::from_str("{\"type\":\"register_tunnel\"");
                put_text(&mut out, ",\"token\":", token.as_str());
                put_text(&mut out, ",\"local_host\":", local_host.as_str());
                put_number(&mut out, ",\"local_port\":", *local_port);
                put_opt_text(&mut out, ",\"requested_subdomain\":", requested_subdomain);
                out.append("}");
                out
            },
            OutgoingMessage::TunnelResponse { request_id, status, headers, body, body_encoding } => {
                let mut out = String::from_str("{\"type\":\"tunnel_response\"");
                put_text(&mut out, ",\"request_id\":", request_id.as_str());
                put_number(&mut out, ",\"status\":", *status);
                put_pairs(&mut out, ",\"headers\":", headers);
                put_opt_text(&mut out, ",\"body\":", body);
                put_opt_text(&mut out, ",\"body_encoding\":", body_encoding);
                out.append("}");
                out
            },
            OutgoingMessage::WsUpgraded { ws_id, headers } => {
                let mut out = String::from_str("{\"type\":\"ws_upgraded\"");
                put_text(&mut out, ",\"ws_id\":", ws_id.as_str());
                put_pairs(&mut out, ",\"headers\":", headers);
                out.append("}");
                out
            },
            OutgoingMessage::WsFrame { ws_id, opcode, data, data_encoding } => {
                let mut out = String::from_str("{\"type\":\"ws_frame\"");
                put_text(&mut out, ",\"ws_id\":", ws_id.as_str());
                put_text(&mut out, ",\"opcode\":", opcode.as_str());
                put_text(&mut out, ",\"data\":", data.as_str());
                put_opt_text(&mut out, ",\"data_encoding\":", data_encoding);
                out.append("}");
                out
            },
            OutgoingMessage::WsClose { ws_id, code, reason } => {
                let mut out = String::from_str("{\"type\":\"ws_close\"");
                put_text(&mut out, ",\"ws_id\":", ws_id.as_str());
                put_number(&mut out, ",\"code\":", *code);
                put_text(&mut out, ",\"reason\":", reason.as_str());
                out.append("}");
                out
            },
            OutgoingMessage::RegisterTcpTunnel { local_port } => {
                let mut out = String::from_str("{\"type\":\"register_tcp_tunnel\"");
                put_number(&mut out, ",\"local_port\":", *local_port);
                out.append("}");
                out
            },
            OutgoingMessage::TcpConnected { tcp_id } => {
                let mut out = String::from_str("{\"type\":\"tcp_connected\"");
                put_text(&mut out, ",\"tcp_id\":", tcp_id.as_str());
                out.append("}");
                out
            },
            OutgoingMessage::TcpData { tcp_id, data, data_encoding } => {
                let mut out = String::from_str("{\"type\":\"tcp_data\"");
                put_text(&mut out, ",\"tcp_id\":", tcp_id.as_str());
                put_text(&mut out, ",\"data\":", data.as_str());
                put_text(&mut out, ",\"data_encoding\":", data_encoding.as_str());
                out.append("}");
                out
            },
            OutgoingMessage::TcpClose { tcp_id, reason } => {
                let mut out = String::from_str("{\"type\":\"tcp_close\"");
                put_text(&mut out, ",\"tcp_id\":", tcp_id.as_str());
                put_text(&mut out, ",\"reason\":", reason.as_str());
                out.append("}");
                out
            },
            OutgoingMessage::Heartbeat => String::from_str("{\"type\":\"heartbeat\"}"),
        }
    }
}

} // verus!
