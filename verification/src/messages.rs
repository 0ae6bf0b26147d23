//! The messages of the control channel: what the agent sends and what it
//! receives, each with its mathematical model.

use vstd::prelude::*;
use vstd::string::*;
use vstd::utf8::*;

use crate::body::{encode_body, encode_body_spec};
use crate::encoding::{base64_encode, base64_fits, base64_text};
use crate::ids::{RequestId, TcpId, TcpTunnelId, TunnelId, WsId};

verus! {

/// A list of header lines, each a name and a value.
pub type Headers = Vec<(String, String)>;

/// The model of a list of header lines.
pub type HeadersModel = Seq<(Seq<char>, Seq<char>)>;

/// A signed statement that asks for a registration, for servers that take a
/// signature in place of a token.
#[derive(Debug, Clone, PartialEq, Eq)]
pub struct Attestation {
    pub public_key: String,
    pub requested_subdomain: Option<String>,
    pub timestamp: u64,
    pub signature: String,
}

/// The model of an [`Attestation`].
pub struct AttestationModel {
    pub public_key: Seq<char>,
    pub requested_subdomain: Option<Seq<char>>,
    pub timestamp: u64,
    pub signature: Seq<char>,
}

impl View for Attestation {
    type V = AttestationModel;

    open spec fn view(&self) -> AttestationModel {
        AttestationModel {
            public_key: self.public_key@,
            requested_subdomain: self.requested_subdomain.deep_view(),
            timestamp: self.timestamp,
            signature: self.signature@,
        }
    }
}

/// A message from the agent to the server.
#[allow(inconsistent_fields)]
#[derive(Debug, Clone, PartialEq, Eq)]
pub enum OutgoingMessage {
    RegisterTunnel {
        token: String,
        local_host: String,
        local_port: u16,
        requested_subdomain: Option<String>,
    },
    TunnelResponse {
        request_id: RequestId,
        status: u16,
        headers: Headers,
        body: Option<String>,
        body_encoding: Option<String>,
    },
    WsUpgraded { ws_id: WsId, headers: Headers },
    WsFrame { ws_id: WsId, opcode: String, data: String, data_encoding: Option<String> },
    WsClose { ws_id: WsId, code: u16, reason: String },
    RegisterTcpTunnel { local_port: u16 },
    TcpConnected { tcp_id: TcpId },
    TcpData { tcp_id: TcpId, data: String, data_encoding: String },
    TcpClose { tcp_id: TcpId, reason: String },
    Heartbeat,
}

/// The model of an [`OutgoingMessage`].
#[allow(inconsistent_fields)]
pub enum OutgoingModel {
    RegisterTunnel {
        token: Seq<char>,
        local_host: Seq<char>,
        local_port: u16,
        requested_subdomain: Option<Seq<char>>,
    },
    TunnelResponse {
        request_id: Seq<char>,
        status: u16,
        headers: HeadersModel,
        body: Option<Seq<char>>,
        body_encoding: Option<Seq<char>>,
    },
    WsUpgraded { ws_id: Seq<char>, headers: HeadersModel },
    WsFrame {
        ws_id: Seq<char>,
        opcode: Seq<char>,
        data: Seq<char>,
        data_encoding: Option<Seq<char>>,
    },
    WsClose { ws_id: Seq<char>, code: u16, reason: Seq<char> },
    RegisterTcpTunnel { local_port: u16 },
    TcpConnected { tcp_id: Seq<char> },
    TcpData { tcp_id: Seq<char>, data: Seq<char>, data_encoding: Seq<char> },
    TcpClose { tcp_id: Seq<char>, reason: Seq<char> },
    Heartbeat,
}

impl View for OutgoingMessage {
    type V = OutgoingModel;

    open spec fn view(&self) -> OutgoingModel {
        match *self {
            OutgoingMessage::RegisterTunnel {
                token,
                local_host,
                local_port,
                requested_subdomain,
            } => OutgoingModel::RegisterTunnel {
                token: token@,
                local_host: local_host@,
                local_port,
                requested_subdomain: requested_subdomain.deep_view(),
            },
            OutgoingMessage::TunnelResponse {
                request_id,
                status,
                headers,
                body,
                body_encoding,
            } => OutgoingModel::TunnelResponse {
                request_id: request_id@,
                status,
                headers: headers.deep_view(),
                body: body.deep_view(),
                body_encoding: body_encoding.deep_view(),
            },
            OutgoingMessage::WsUpgraded { ws_id, headers } => OutgoingModel::WsUpgraded {
                ws_id: ws_id@,
                headers: headers.deep_view(),
            },
            OutgoingMessage::WsFrame { ws_id, opcode, data, data_encoding } => OutgoingModel::WsFrame {
                ws_id: ws_id@,
                opcode: opcode@,
                data: data@,
                data_encoding: data_encoding.deep_view(),
            },
            OutgoingMessage::WsClose { ws_id, code, reason } => OutgoingModel::WsClose {
                ws_id: ws_id@,
                code,
                reason: reason@,
            },
            OutgoingMessage::RegisterTcpTunnel { local_port } => OutgoingModel::RegisterTcpTunnel {
                local_port,
            },
            OutgoingMessage::TcpConnected { tcp_id } => OutgoingModel::TcpConnected {
                tcp_id: tcp_id@,
            },
            OutgoingMessage::TcpData { tcp_id, data, data_encoding } => OutgoingModel::TcpData {
                tcp_id: tcp_id@,
                data: data@,
                data_encoding: data_encoding@,
            },
            OutgoingMessage::TcpClose { tcp_id, reason } => OutgoingModel::TcpClose {
                tcp_id: tcp_id@,
                reason: reason@,
            },
            OutgoingMessage::Heartbeat => OutgoingModel::Heartbeat,
        }
    }
}

impl DeepView for OutgoingMessage {
    type V = OutgoingModel;

    open spec fn deep_view(&self) -> OutgoingModel {
        self@
    }
}

/// A message from the server to the agent.
#[allow(inconsistent_fields)]
#[derive(Debug, Clone, PartialEq, Eq)]
pub enum IncomingMessage {
    TunnelRegistered { tunnel_id: TunnelId, subdomain: String, full_url: String },
    TunnelRequest {
        request_id: RequestId,
        tunnel_id: TunnelId,
        method: String,
        path: String,
        query_string: String,
        headers: Vec<Vec<String>>,
        body: Option<String>,
        body_encoding: Option<String>,
        client_ip: Option<String>,
    },
    WsUpgrade { ws_id: WsId, tunnel_id: TunnelId, path: String, headers: Vec<Vec<String>> },
    WsFrame { ws_id: WsId, opcode: String, data: String, data_encoding: Option<String> },
    WsClose { ws_id: WsId, code: Option<u16>, reason: Option<String> },
    TcpTunnelRegistered { tcp_tunnel_id: TcpTunnelId, server_port: u16, local_port: u16 },
    TcpConnect { tcp_id: TcpId, tcp_tunnel_id: TcpTunnelId },
    TcpData { tcp_id: TcpId, data: String, data_encoding: Option<String> },
    TcpClose { tcp_id: TcpId, reason: Option<String> },
    Heartbeat,
    Error { code: String, message: String },
}

/// The model of an [`IncomingMessage`].
#[allow(inconsistent_fields)]
pub enum IncomingModel {
    TunnelRegistered { tunnel_id: Seq<char>, subdomain: Seq<char>, full_url: Seq<char> },
    TunnelRequest {
        request_id: Seq<char>,
        tunnel_id: Seq<char>,
        method: Seq<char>,
        path: Seq<char>,
        query_string: Seq<char>,
        headers: Seq<Seq<Seq<char>>>,
        body: Option<Seq<char>>,
        body_encoding: Option<Seq<char>>,
        client_ip: Option<Seq<char>>,
    },
    WsUpgrade {
        ws_id: Seq<char>,
        tunnel_id: Seq<char>,
        path: Seq<char>,
        headers: Seq<Seq<Seq<char>>>,
    },
    WsFrame {
        ws_id: Seq<char>,
        opcode: Seq<char>,
        data: Seq<char>,
        data_encoding: Option<Seq<char>>,
    },
    WsClose { ws_id: Seq<char>, code: Option<u16>, reason: Option<Seq<char>> },
    TcpTunnelRegistered { tcp_tunnel_id: Seq<char>, server_port: u16, local_port: u16 },
    TcpConnect { tcp_id: Seq<char>, tcp_tunnel_id: Seq<char> },
    TcpData { tcp_id: Seq<char>, data: Seq<char>, data_encoding: Option<Seq<char>> },
    TcpClose { tcp_id: Seq<char>, reason: Option<Seq<char>> },
    Heartbeat,
    Error { code: Seq<char>, message: Seq<char> },
}

impl View for IncomingMessage {
    type V = IncomingModel;

    open spec fn view(&self) -> IncomingModel {
        match *self {
            IncomingMessage::TunnelRegistered {
                tunnel_id,
                subdomain,
                full_url,
            } => IncomingModel::TunnelRegistered {
                tunnel_id: tunnel_id@,
                subdomain: subdomain@,
                full_url: full_url@,
            },
            IncomingMessage::TunnelRequest {
                request_id,
                tunnel_id,
                method,
                path,
                query_string,
                headers,
                body,
                body_encoding,
                client_ip,
            } => IncomingModel::TunnelRequest {
                request_id: request_id@,
                tunnel_id: tunnel_id@,
                method: method@,
                path: path@,
                query_string: query_string@,
                headers: headers.deep_view(),
                body: body.deep_view(),
                body_encoding: body_encoding.deep_view(),
                client_ip: client_ip.deep_view(),
            },
            IncomingMessage::WsUpgrade { ws_id, tunnel_id, path, headers } => IncomingModel::WsUpgrade {
                ws_id: ws_id@,
                tunnel_id: tunnel_id@,
                path: path@,
                headers: headers.deep_view(),
            },
            IncomingMessage::WsFrame { ws_id, opcode, data, data_encoding } => IncomingModel::WsFrame {
                ws_id: ws_id@,
                opcode: opcode@,
                data: data@,
                data_encoding: data_encoding.deep_view(),
            },
            IncomingMessage::WsClose { ws_id, code, reason } => IncomingModel::WsClose {
                ws_id: ws_id@,
                code,
                reason: reason.deep_view(),
            },
            IncomingMessage::TcpTunnelRegistered {
                tcp_tunnel_id,
                server_port,
                local_port,
            } => IncomingModel::TcpTunnelRegistered {
                tcp_tunnel_id: tcp_tunnel_id@,
                server_port,
                local_port,
            },
            IncomingMessage::TcpConnect { tcp_id, tcp_tunnel_id } => IncomingModel::TcpConnect {
                tcp_id: tcp_id@,
                tcp_tunnel_id: tcp_tunnel_id@,
            },
            IncomingMessage::TcpData { tcp_id, data, data_encoding } => IncomingModel::TcpData {
                tcp_id: tcp_id@,
                data: data@,
                data_encoding: data_encoding.deep_view(),
            },
            IncomingMessage::TcpClose { tcp_id, reason } => IncomingModel::TcpClose {
                tcp_id: tcp_id@,
                reason: reason.deep_view(),
            },
            IncomingMessage::Heartbeat => IncomingModel::Heartbeat,
            IncomingMessage::Error { code, message } => IncomingModel::Error {
                code: code@,
                message: message@,
            },
        }
    }
}

impl OutgoingMessage {
    /// A request to register an HTTP tunnel to `local_host:local_port`,
    /// authenticated by `token`, with the subdomain asked for, if any.
    pub fn register_tunnel(
        token: &str,
        local_host: &str,
        local_port: u16,
        requested_subdomain: Option<String>,
    ) -> (r: Self)
        ensures
            r@ == (OutgoingModel::RegisterTunnel {
                token: token@,
                local_host: local_host@,
                local_port,
                requested_subdomain: requested_subdomain.deep_view(),
            }),
    {
        OutgoingMessage::RegisterTunnel {
            token: token.to_string(),
            local_host: local_host.to_string(),
            local_port,
            requested_subdomain,
        }
    }

    /// The response to the request `request_id`, its body encoded by the
    /// body encoding rule.
    pub fn tunnel_response(
        request_id: &RequestId,
        status: u16,
        headers: Headers,
        body: Option<Vec<u8>>,
    ) -> (r: Self)
        requires
            body matches Some(data) ==> valid_utf8(data@) || base64_fits(data@.len()),
        ensures
            r@ == (OutgoingModel::TunnelResponse {
                request_id: request_id@,
                status,
                headers: headers.deep_view(),
                body: encode_body_spec(body.deep_view()).0,
                body_encoding: encode_body_spec(body.deep_view()).1,
            }),
    {
        let (body_str, encoding) = encode_body(body);
        OutgoingMessage::TunnelResponse {
            request_id: request_id.clone(),
            status,
            headers,
            body: body_str,
            body_encoding: encoding,
        }
    }

    /// A request to register a TCP tunnel to `local_port`.
    pub fn register_tcp_tunnel(local_port: u16) -> (r: Self)
        ensures
            r@ == (OutgoingModel::RegisterTcpTunnel { local_port }),
    {
        OutgoingMessage::RegisterTcpTunnel { local_port }
    }

    /// The notice that the local end of the TCP flow `tcp_id` is connected.
    pub fn tcp_connected(tcp_id: &TcpId) -> (r: Self)
        ensures
            r@ == (OutgoingModel::TcpConnected { tcp_id: tcp_id@ }),
    {
        OutgoingMessage::TcpConnected { tcp_id: tcp_id.clone() }
    }

    /// A chunk of bytes read from the local end of the TCP flow `tcp_id`;
    /// always base64.
    pub fn tcp_data(tcp_id: &TcpId, data: &[u8]) -> (r: Self)
        requires
            base64_fits(data@.len()),
        ensures
            r@ == (OutgoingModel::TcpData {
                tcp_id: tcp_id@,
                data: base64_text(data@),
                data_encoding: "base64"@,
            }),
    {
        OutgoingMessage::TcpData {
            tcp_id: tcp_id.clone(),
            data: base64_encode(data),
            data_encoding: "base64".to_string(),
        }
    }

    /// The notice that the TCP flow `tcp_id` is over, and why.
    pub fn tcp_close(tcp_id: &TcpId, reason: &str) -> (r: Self)
        ensures
            r@ == (OutgoingModel::TcpClose { tcp_id: tcp_id@, reason: reason@ }),
    {
        OutgoingMessage::TcpClose { tcp_id: tcp_id.clone(), reason: reason.to_string() }
    }

    /// The agent's heartbeat.
    pub fn heartbeat() -> (r: Self)
        ensures
            r@ == OutgoingModel::Heartbeat,
    {
        OutgoingMessage::Heartbeat
    }
}

/// A copy of a list of header lines.
pub fn copy_headers(headers: &Headers) -> (r: Headers)
    ensures
        r.deep_view() == headers.deep_view(),
{
    let mut copy: Headers = Vec::new();
    let mut i: usize = 0;
    while i < headers.len()
        invariant
            i <= headers.len(),
            copy.len() == i,
            forall|k: int|
                0 <= k < i ==> #[trigger] copy@[k].0@ == headers@[k].0@ && copy@[k].1@
                    == headers@[k].1@,
        decreases headers.len() - i,
    {
        copy.push((headers[i].0.clone(), headers[i].1.clone()));
        i += 1;
    }
    assert(copy.deep_view() =~= headers.deep_view());
    copy
}

/// A copy of an optional payload.
pub fn copy_payload(payload: &Option<Vec<u8>>) -> (r: Option<Vec<u8>>)
    ensures
        r.deep_view() == payload.deep_view(),
{
    match payload {
        Some(bytes) => {
            let copy = bytes.clone();
            assert(copy@ =~= bytes@);
            assert(copy.deep_view() =~= bytes.deep_view());
            Some(copy)
        },
        None => None,
    }
}

} // verus!
