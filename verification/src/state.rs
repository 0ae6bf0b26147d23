//! The agent's registry for one connection: the tunnels that the server has
//! confirmed, the registrations that wait for their confirmation, and the
//! flows that are open.

use vstd::prelude::*;
use vstd::string::*;

use crate::ids::{TcpId, TcpTunnelId, TunnelId, WsId};
use crate::registry::IdMap;

verus! {

/// A tunnel that the agent wants to have: the intent that it asserts again
/// on every connection.
#[derive(Debug, PartialEq, Eq)]
pub enum TunnelConfig {
    Http { local_port: u16, subdomain: Option<String> },
    Tcp { local_port: u16 },
}

/// The model of a [`TunnelConfig`].
pub enum TunnelConfigModel {
    Http { local_port: u16, subdomain: Option<Seq<char>> },
    Tcp { local_port: u16 },
}

impl View for TunnelConfig {
    type V = TunnelConfigModel;

    open spec fn view(&self) -> TunnelConfigModel {
        match *self {
            TunnelConfig::Http { local_port, subdomain } => TunnelConfigModel::Http {
                local_port,
                subdomain: subdomain.deep_view(),
            },
            TunnelConfig::Tcp { local_port } => TunnelConfigModel::Tcp { local_port },
        }
    }
}

impl DeepView for TunnelConfig {
    type V = TunnelConfigModel;

    open spec fn deep_view(&self) -> TunnelConfigModel {
        self@
    }
}

impl Clone for TunnelConfig {
    fn clone(&self) -> (r: Self)
        ensures
            r@ == self@,
    {
        match self {
            TunnelConfig::Http { local_port, subdomain } => TunnelConfig::Http {
                local_port: *local_port,
                subdomain: match subdomain {
                    Some(name) => Some(name.clone()),
                    None => None,
                },
            },
            TunnelConfig::Tcp { local_port } => TunnelConfig::Tcp { local_port: *local_port },
        }
    }
}

/// A confirmed HTTP tunnel.
#[derive(Debug, Clone, PartialEq, Eq)]
pub struct TunnelInfo {
    pub full_url: String,
    pub local_host: String,
    pub local_port: u16,
}

/// The model of a [`TunnelInfo`].
pub struct TunnelInfoModel {
    pub full_url: Seq<char>,
    pub local_host: Seq<char>,
    pub local_port: u16,
}

impl View for TunnelInfo {
    type V = TunnelInfoModel;

    open spec fn view(&self) -> TunnelInfoModel {
        TunnelInfoModel {
            full_url: self.full_url@,
            local_host: self.local_host@,
            local_port: self.local_port,
        }
    }
}

/// A confirmed TCP tunnel.
#[derive(Debug, Clone, Copy, PartialEq, Eq)]
pub struct TcpTunnelInfo {
    pub server_port: u16,
    pub local_port: u16,
}

impl View for TcpTunnelInfo {
    type V = TcpTunnelInfo;

    open spec fn view(&self) -> TcpTunnelInfo {
        *self
    }
}

/// An HTTP registration that waits for its confirmation.
#[derive(Debug, Clone, PartialEq, Eq)]
pub struct PendingTunnel {
    pub local_host: String,
    pub local_port: u16,
}

/// The model of a [`PendingTunnel`].
pub struct PendingTunnelModel {
    pub local_host: Seq<char>,
    pub local_port: u16,
}

impl View for PendingTunnel {
    type V = PendingTunnelModel;

    open spec fn view(&self) -> PendingTunnelModel {
        PendingTunnelModel { local_host: self.local_host@, local_port: self.local_port }
    }
}

impl DeepView for PendingTunnel {
    type V = PendingTunnelModel;

    open spec fn deep_view(&self) -> PendingTunnelModel {
        self@
    }
}

/// The registry of one connection.
pub struct ClientState {
    tunnels: IdMap<TunnelInfo>,
    pending_tunnels: Vec<PendingTunnel>,
    tcp_tunnels: IdMap<TcpTunnelInfo>,
    pending_tcp_tunnels: Vec<u16>,
    tcp_connections: IdMap<()>,
    ws_proxies: IdMap<()>,
    local_host: String,
}

/// The model of a [`ClientState`].
pub struct ClientStateModel {
    /// The confirmed HTTP tunnels, by tunnel identifier.
    pub tunnels: Map<Seq<char>, TunnelInfoModel>,
    /// The HTTP registrations sent on this connection, oldest first.
    pub pending_tunnels: Seq<PendingTunnelModel>,
    /// The confirmed TCP tunnels, by tunnel identifier.
    pub tcp_tunnels: Map<Seq<char>, TcpTunnelInfo>,
    /// The local ports of the TCP registrations sent, oldest first.
    pub pending_tcp_tunnels: Seq<u16>,
    /// The open TCP flows.
    pub tcp_connections: Set<Seq<char>>,
    /// The open WebSocket flows.
    pub ws_proxies: Set<Seq<char>>,
    /// The host that requests are forwarded to.
    pub local_host: Seq<char>,
}

/// The registry of a connection that has just been made.
pub open spec fn fresh_state(local_host: Seq<char>) -> ClientStateModel {
    ClientStateModel {
        tunnels: Map::empty(),
        pending_tunnels: Seq::empty(),
        tcp_tunnels: Map::empty(),
        pending_tcp_tunnels: Seq::empty(),
        tcp_connections: Set::empty(),
        ws_proxies: Set::empty(),
        local_host,
    }
}

impl View for ClientState {
    type V = ClientStateModel;

    closed spec fn view(&self) -> ClientStateModel {
        ClientStateModel {
            tunnels: self.tunnels@,
            pending_tunnels: self.pending_tunnels.deep_view(),
            tcp_tunnels: self.tcp_tunnels@,
            pending_tcp_tunnels: self.pending_tcp_tunnels@,
            tcp_connections: self.tcp_connections@.dom(),
            ws_proxies: self.ws_proxies@.dom(),
            local_host: self.local_host@,
        }
    }
}

impl ClientState {
    /// The registry of a fresh connection: nothing confirmed, nothing
    /// pending, no flow open.
    pub fn new(local_host: &str) -> (r: Self)
        ensures
            r@ == fresh_state(local_host@),
    {
        let r = ClientState {
            tunnels: IdMap::new(),
            pending_tunnels: Vec::new(),
            tcp_tunnels: IdMap::new(),
            pending_tcp_tunnels: Vec::new(),
            tcp_connections: IdMap::new(),
            ws_proxies: IdMap::new(),
            local_host: local_host.to_string(),
        };
        proof {
            assert(r.pending_tunnels.deep_view() =~= Seq::empty());
            assert(r.pending_tcp_tunnels@ =~= Seq::empty());
            assert(r.tcp_connections@.dom() =~= Set::empty());
            assert(r.ws_proxies@.dom() =~= Set::empty());
        }
        r
    }

    /// The host that requests are forwarded to.
    pub fn local_host(&self) -> (r: &str)
        ensures
            r@ == self@.local_host,
    {
        self.local_host.as_str()
    }

    /// The local port of a confirmed HTTP tunnel.
    pub fn find_tunnel_port(&self, tunnel_id: &TunnelId) -> (r: Option<u16>)
        ensures
            r == if self@.tunnels.contains_key(tunnel_id@) {
                Some(self@.tunnels[tunnel_id@].local_port)
            } else {
                None
            },
    {
        match self.tunnels.get(tunnel_id.as_str()) {
            Some(info) => Some(info.local_port),
            None => None,
        }
    }

    /// A confirmed TCP tunnel.
    pub fn find_tcp_tunnel(&self, tcp_tunnel_id: &TcpTunnelId) -> (r: Option<TcpTunnelInfo>)
        ensures
            r == if self@.tcp_tunnels.contains_key(tcp_tunnel_id@) {
                Some(self@.tcp_tunnels[tcp_tunnel_id@])
            } else {
                None
            },
    {
        match self.tcp_tunnels.get(tcp_tunnel_id.as_str()) {
            Some(info) => Some(*info),
            None => None,
        }
    }

    /// The HTTP registration sent at place `index`, if there is one.
    pub fn pending_tunnel(&self, index: usize) -> (r: Option<&PendingTunnel>)
        ensures
            match r {
                Some(p) => index < self@.pending_tunnels.len() && p@ == self@.pending_tunnels[
                    index as int
                ],
                None => index >= self@.pending_tunnels.len(),
            },
    {
        if index < self.pending_tunnels.len() {
            Some(&self.pending_tunnels[index])
        } else {
            None
        }
    }

    /// Notes an HTTP registration that was sent.
    pub fn push_pending_tunnel(&mut self, pending: PendingTunnel)
        ensures
            final(self)@ == (ClientStateModel {
                pending_tunnels: old(self)@.pending_tunnels.push(pending@),
                ..old(self)@
            }),
    {
        let ghost before = self.pending_tunnels.deep_view();
        self.pending_tunnels.push(pending);
        assert(self.pending_tunnels.deep_view() =~= before.push(pending@));
    }

    /// Notes a TCP registration that was sent.
    pub fn push_pending_tcp_tunnel(&mut self, local_port: u16)
        ensures
            final(self)@ == (ClientStateModel {
                pending_tcp_tunnels: old(self)@.pending_tcp_tunnels.push(local_port),
                ..old(self)@
            }),
    {
        self.pending_tcp_tunnels.push(local_port);
    }

    /// Records a confirmed HTTP tunnel.
    pub fn insert_tunnel(&mut self, tunnel_id: TunnelId, info: TunnelInfo)
        ensures
            final(self)@ == (ClientStateModel {
                tunnels: old(self)@.tunnels.insert(tunnel_id@, info@),
                ..old(self)@
            }),
    {
        self.tunnels.insert(tunnel_id.0, info);
    }

    /// Records a confirmed TCP tunnel.
    pub fn insert_tcp_tunnel(&mut self, tcp_tunnel_id: TcpTunnelId, info: TcpTunnelInfo)
        ensures
            final(self)@ == (ClientStateModel {
                tcp_tunnels: old(self)@.tcp_tunnels.insert(tcp_tunnel_id@, info),
                ..old(self)@
            }),
    {
        self.tcp_tunnels.insert(tcp_tunnel_id.0, info);
    }

    /// `true` exactly when the WebSocket flow is open.
    pub fn has_ws_proxy(&self, ws_id: &WsId) -> (r: bool)
        ensures
            r == self@.ws_proxies.contains(ws_id@),
    {
        self.ws_proxies.contains(ws_id.as_str())
    }

    /// Records an open WebSocket flow.
    pub fn insert_ws_proxy(&mut self, ws_id: WsId)
        ensures
            final(self)@ == (ClientStateModel {
                ws_proxies: old(self)@.ws_proxies.insert(ws_id@),
                ..old(self)@
            }),
    {
        self.ws_proxies.insert(ws_id.0, ());
        assert(self.ws_proxies@.dom() =~= old(self).ws_proxies@.dom().insert(ws_id@));
    }

    /// Forgets a WebSocket flow; `true` where it was open.
    pub fn remove_ws_proxy(&mut self, ws_id: &WsId) -> (r: bool)
        ensures
            r == old(self)@.ws_proxies.contains(ws_id@),
            final(self)@ == (ClientStateModel {
                ws_proxies: old(self)@.ws_proxies.remove(ws_id@),
                ..old(self)@
            }),
    {
        let removed = self.ws_proxies.remove(ws_id.as_str());
        assert(self.ws_proxies@.dom() =~= old(self).ws_proxies@.dom().remove(ws_id@));
        removed.is_some()
    }

    /// `true` exactly when the TCP flow is open.
    pub fn has_tcp_connection(&self, tcp_id: &TcpId) -> (r: bool)
        ensures
            r == self@.tcp_connections.contains(tcp_id@),
    {
        self.tcp_connections.contains(tcp_id.as_str())
    }

    /// Records an open TCP flow.
    pub fn insert_tcp_connection(&mut self, tcp_id: TcpId)
        ensures
            final(self)@ == (ClientStateModel {
                tcp_connections: old(self)@.tcp_connections.insert(tcp_id@),
                ..old(self)@
            }),
    {
        self.tcp_connections.insert(tcp_id.0, ());
        assert(self.tcp_connections@.dom() =~= old(self).tcp_connections@.dom().insert(tcp_id@));
    }

    /// Forgets a TCP flow; `true` where it was open.
    pub fn remove_tcp_connection(&mut self, tcp_id: &TcpId) -> (r: bool)
        ensures
            r == old(self)@.tcp_connections.contains(tcp_id@),
            final(self)@ == (ClientStateModel {
                tcp_connections: old(self)@.tcp_connections.remove(tcp_id@),
                ..old(self)@
            }),
    {
        let removed = self.tcp_connections.remove(tcp_id.as_str());
        assert(self.tcp_connections@.dom() =~= old(self).tcp_connections@.dom().remove(tcp_id@));
        removed.is_some()
    }
}

} // verus!
