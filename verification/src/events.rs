//! What the agent tells its user interface, and what the interface asks of
//! the agent.

use vstd::prelude::*;
use vstd::string::*;

use crate::ids::RequestId;
use crate::messages::{Headers, HeadersModel};
use crate::text::{decimal, push_decimal};

verus! {

/// An HTTP tunnel was registered.
#[derive(Debug, Clone, PartialEq, Eq)]
pub struct TunnelEvent {
    pub full_url: String,
    pub local_port: u16,
}

/// The model of a [`TunnelEvent`].
pub struct TunnelEventModel {
    pub full_url: Seq<char>,
    pub local_port: u16,
}

impl View for TunnelEvent {
    type V = TunnelEventModel;

    open spec fn view(&self) -> TunnelEventModel {
        TunnelEventModel { full_url: self.full_url@, local_port: self.local_port }
    }
}

impl DeepView for TunnelEvent {
    type V = TunnelEventModel;

    open spec fn deep_view(&self) -> TunnelEventModel {
        self@
    }
}

/// A TCP tunnel was registered.
#[derive(Debug, Clone, Copy, PartialEq, Eq)]
pub struct TcpTunnelEvent {
    pub server_port: u16,
    pub local_port: u16,
}

impl DeepView for TcpTunnelEvent {
    type V = TcpTunnelEvent;

    open spec fn deep_view(&self) -> TcpTunnelEvent {
        *self
    }
}

/// A request arrived.
#[derive(Debug, Clone, PartialEq, Eq)]
pub struct RequestEvent {
    pub request_id: RequestId,
    pub method: String,
    pub path: String,
    pub query_string: String,
    pub headers: Headers,
    pub body: Option<Vec<u8>>,
    /// When the request arrived, in seconds since the epoch.
    pub timestamp: u64,
    pub client_ip: Option<String>,
}

/// The model of a [`RequestEvent`].
pub struct RequestEventModel {
    pub request_id: Seq<char>,
    pub method: Seq<char>,
    pub path: Seq<char>,
    pub query_string: Seq<char>,
    pub headers: HeadersModel,
    pub body: Option<Seq<u8>>,
    pub timestamp: u64,
    pub client_ip: Option<Seq<char>>,
}

impl View for RequestEvent {
    type V = RequestEventModel;

    open spec fn view(&self) -> RequestEventModel {
        RequestEventModel {
            request_id: self.request_id@,
            method: self.method@,
            path: self.path@,
            query_string: self.query_string@,
            headers: self.headers.deep_view(),
            body: self.body.deep_view(),
            timestamp: self.timestamp,
            client_ip: self.client_ip.deep_view(),
        }
    }
}

/// A response went back.
#[derive(Debug, Clone, PartialEq, Eq)]
pub struct ResponseEvent {
    pub request_id: RequestId,
    pub status: u16,
    pub headers: Headers,
    pub body: Option<Vec<u8>>,
    pub duration_ms: u64,
}

/// The model of a [`ResponseEvent`].
pub struct ResponseEventModel {
    pub request_id: Seq<char>,
    pub status: u16,
    pub headers: HeadersModel,
    pub body: Option<Seq<u8>>,
    pub duration_ms: u64,
}

impl View for ResponseEvent {
    type V = ResponseEventModel;

    open spec fn view(&self) -> ResponseEventModel {
        ResponseEventModel {
            request_id: self.request_id@,
            status: self.status,
            headers: self.headers.deep_view(),
            body: self.body.deep_view(),
            duration_ms: self.duration_ms,
        }
    }
}

/// The state of the control connection, as the interface shows it.
#[derive(Debug, Clone, PartialEq, Eq)]
pub enum ConnectionStatus {
    Connecting,
    Connected,
    Reconnecting { attempt: u32, reason: String, next_retry_secs: u64 },
    Disconnected { reason: String },
}

/// The model of a [`ConnectionStatus`].
pub enum ConnectionStatusModel {
    Connecting,
    Connected,
    Reconnecting { attempt: u32, reason: Seq<char>, next_retry_secs: u64 },
    Disconnected { reason: Seq<char> },
}

impl View for ConnectionStatus {
    type V = ConnectionStatusModel;

    open spec fn view(&self) -> ConnectionStatusModel {
        match *self {
            ConnectionStatus::Connecting => ConnectionStatusModel::Connecting,
            ConnectionStatus::Connected => ConnectionStatusModel::Connected,
            ConnectionStatus::Reconnecting {
                attempt,
                reason,
                next_retry_secs,
            } => ConnectionStatusModel::Reconnecting { attempt, reason: reason@, next_retry_secs },
            ConnectionStatus::Disconnected { reason } => ConnectionStatusModel::Disconnected {
                reason: reason@,
            },
        }
    }
}

/// The short label of a status.
pub open spec fn status_label(status: ConnectionStatusModel) -> Seq<char> {
    match status {
        ConnectionStatusModel::Connecting => "Connecting"@,
        ConnectionStatusModel::Connected => "Connected"@,
        ConnectionStatusModel::Reconnecting { attempt, .. } => "Reconnecting ("@ + decimal(
            attempt as nat,
        ) + ")"@,
        ConnectionStatusModel::Disconnected { .. } => "Disconnected"@,
    }
}

impl ConnectionStatus {
    /// The short label of the status: its name, and the attempt's number
    /// while reconnecting.
    pub fn to_string(&self) -> (r: String)
        ensures
            r@ == status_label(self@),
    {
        match self {
            ConnectionStatus::Connecting => String::from_str("Connecting"),
            ConnectionStatus::Connected => String::from_str("Connected"),
            ConnectionStatus::Reconnecting { attempt, .. } => {
                let mut label = String::from_str("Reconnecting (");
                push_decimal(&mut label, *attempt as u64);
                label.append(")");
                label
            },
            ConnectionStatus::Disconnected { .. } => String::from_str("Disconnected"),
        }
    }
}

/// An event from the connection to the interface.
#[derive(Debug, Clone, PartialEq, Eq)]
pub enum TuiEvent {
    TunnelRegistered(TunnelEvent),
    TcpTunnelRegistered(TcpTunnelEvent),
    RequestReceived(RequestEvent),
    ResponseSent(ResponseEvent),
    ConnectionStatus(ConnectionStatus),
}

/// The model of a [`TuiEvent`].
pub enum TuiEventModel {
    TunnelRegistered(TunnelEventModel),
    TcpTunnelRegistered(TcpTunnelEvent),
    RequestReceived(RequestEventModel),
    ResponseSent(ResponseEventModel),
    ConnectionStatus(ConnectionStatusModel),
}

impl View for TuiEvent {
    type V = TuiEventModel;

    open spec fn view(&self) -> TuiEventModel {
        match *self {
            TuiEvent::TunnelRegistered(e) => TuiEventModel::TunnelRegistered(e@),
            TuiEvent::TcpTunnelRegistered(e) => TuiEventModel::TcpTunnelRegistered(e),
            TuiEvent::RequestReceived(e) => TuiEventModel::RequestReceived(e@),
            TuiEvent::ResponseSent(e) => TuiEventModel::ResponseSent(e@),
            TuiEvent::ConnectionStatus(s) => TuiEventModel::ConnectionStatus(s@),
        }
    }
}

/// A command from the interface to the connection.
#[derive(Debug, Clone, PartialEq, Eq)]
pub enum TuiCommand {
    /// Register a new HTTP tunnel.
    AddHttpTunnel { local_port: u16, subdomain: Option<String> },
    /// Register a new TCP tunnel.
    AddTcpTunnel { local_port: u16 },
}

/// The model of a [`TuiCommand`].
pub enum TuiCommandModel {
    AddHttpTunnel { local_port: u16, subdomain: Option<Seq<char>> },
    AddTcpTunnel { local_port: u16 },
}

impl DeepView for TuiCommand {
    type V = TuiCommandModel;

    open spec fn deep_view(&self) -> TuiCommandModel {
        self@
    }
}

impl View for TuiCommand {
    type V = TuiCommandModel;

    open spec fn view(&self) -> TuiCommandModel {
        match *self {
            TuiCommand::AddHttpTunnel { local_port, subdomain } => TuiCommandModel::AddHttpTunnel {
                local_port,
                subdomain: subdomain.deep_view(),
            },
            TuiCommand::AddTcpTunnel { local_port } => TuiCommandModel::AddTcpTunnel { local_port },
        }
    }
}

} // verus!
