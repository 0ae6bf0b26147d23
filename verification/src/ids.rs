//! The five identifiers of the protocol. The server assigns them; the agent
//! stores and echoes them. Each has a type of its own, so that one kind is
//! never taken for another.

use vstd::prelude::*;
use vstd::std_specs::convert::FromSpecImpl;

verus! {

/// Identifier of an HTTP tunnel.
#[derive(Debug, PartialEq, Eq, Hash)]
pub struct TunnelId(pub String);

impl View for TunnelId {
    type V = Seq<char>;

    open spec fn view(&self) -> Seq<char> {
        self.0@
    }
}

impl DeepView for TunnelId {
    type V = Seq<char>;

    open spec fn deep_view(&self) -> Seq<char> {
        self.0@
    }
}

impl Clone for TunnelId {
    fn clone(&self) -> (r: Self)
        ensures
            r == *self,
    {
        TunnelId(self.0.clone())
    }
}

impl From<String> for TunnelId {
    fn from(s: String) -> (r: Self) {
        TunnelId(s)
    }
}

impl FromSpecImpl<String> for TunnelId {
    open spec fn obeys_from_spec() -> bool {
        true
    }

    open spec fn from_spec(s: String) -> Self {
        TunnelId(s)
    }
}

impl TunnelId {
    /// The identifier's text.
    pub fn as_str(&self) -> (r: &str)
        ensures
            r@ == self@,
    {
        self.0.as_str()
    }

    /// A copy of the identifier's text, as `Display` would write it.
    pub fn to_string(&self) -> (r: String)
        ensures
            r@ == self@,
    {
        self.0.clone()
    }

    /// `true` exactly when both identifiers hold the same text.
    pub fn same(&self, other: &TunnelId) -> (r: bool)
        ensures
            r == (self@ == other@),
    {
        self.0 == other.0
    }
}

/// Identifier of an HTTP request.
#[derive(Debug, PartialEq, Eq, Hash)]
pub struct RequestId(pub String);

impl View for RequestId {
    type V = Seq<char>;

    open spec fn view(&self) -> Seq<char> {
        self.0@
    }
}

impl DeepView for RequestId {
    type V = Seq<char>;

    open spec fn deep_view(&self) -> Seq<char> {
        self.0@
    }
}

impl Clone for RequestId {
    fn clone(&self) -> (r: Self)
        ensures
            r == *self,
    {
        RequestId(self.0.clone())
    }
}

impl From<String> for RequestId {
    fn from(s: String) -> (r: Self) {
        RequestId(s)
    }
}

impl FromSpecImpl<String> for RequestId {
    open spec fn obeys_from_spec() -> bool {
        true
    }

    open spec fn from_spec(s: String) -> Self {
        RequestId(s)
    }
}

impl RequestId {
    /// The identifier's text.
    pub fn as_str(&self) -> (r: &str)
        ensures
            r@ == self@,
    {
        self.0.as_str()
    }

    /// A copy of the identifier's text, as `Display` would write it.
    pub fn to_string(&self) -> (r: String)
        ensures
            r@ == self@,
    {
        self.0.clone()
    }

    /// `true` exactly when both identifiers hold the same text.
    pub fn same(&self, other: &RequestId) -> (r: bool)
        ensures
            r == (self@ == other@),
    {
        self.0 == other.0
    }
}

/// Identifier of a WebSocket flow.
#[derive(Debug, PartialEq, Eq, Hash)]
pub struct WsId(pub String);

impl View for WsId {
    type V = Seq<char>;

    open spec fn view(&self) -> Seq<char> {
        self.0@
    }
}

impl DeepView for WsId {
    type V = Seq<char>;

    open spec fn deep_view(&self) -> Seq<char> {
        self.0@
    }
}

impl Clone for WsId {
    fn clone(&self) -> (r: Self)
        ensures
            r == *self,
    {
        WsId(self.0.clone())
    }
}

impl From<String> for WsId {
    fn from(s: String) -> (r: Self) {
        WsId(s)
    }
}

impl FromSpecImpl<String> for WsId {
    open spec fn obeys_from_spec() -> bool {
        true
    }

    open spec fn from_spec(s: String) -> Self {
        WsId(s)
    }
}

impl WsId {
    /// The identifier's text.
    pub fn as_str(&self) -> (r: &str)
        ensures
            r@ == self@,
    {
        self.0.as_str()
    }

    /// A copy of the identifier's text, as `Display` would write it.
    pub fn to_string(&self) -> (r: String)
        ensures
            r@ == self@,
    {
        self.0.clone()
    }

    /// `true` exactly when both identifiers hold the same text.
    pub fn same(&self, other: &WsId) -> (r: bool)
        ensures
            r == (self@ == other@),
    {
        self.0 == other.0
    }
}

/// Identifier of a TCP tunnel.
#[derive(Debug, PartialEq, Eq, Hash)]
pub struct TcpTunnelId(pub String);

impl View for TcpTunnelId {
    type V = Seq<char>;

    open spec fn view(&self) -> Seq<char> {
        self.0@
    }
}

impl DeepView for TcpTunnelId {
    type V = Seq<char>;

    open spec fn deep_view(&self) -> Seq<char> {
        self.0@
    }
}

impl Clone for TcpTunnelId {
    fn clone(&self) -> (r: Self)
        ensures
            r == *self,
    {
        TcpTunnelId(self.0.clone())
    }
}

impl From<String> for TcpTunnelId {
    fn from(s: String) -> (r: Self) {
        TcpTunnelId(s)
    }
}

impl FromSpecImpl<String> for TcpTunnelId {
    open spec fn obeys_from_spec() -> bool {
        true
    }

    open spec fn from_spec(s: String) -> Self {
        TcpTunnelId(s)
    }
}

impl TcpTunnelId {
    /// The identifier's text.
    pub fn as_str(&self) -> (r: &str)
        ensures
            r@ == self@,
    {
        self.0.as_str()
    }

    /// A copy of the identifier's text, as `Display` would write it.
    pub fn to_string(&self) -> (r: String)
        ensures
            r@ == self@,
    {
        self.0.clone()
    }

    /// `true` exactly when both identifiers hold the same text.
    pub fn same(&self, other: &TcpTunnelId) -> (r: bool)
        ensures
            r == (self@ == other@),
    {
        self.0 == other.0
    }
}

/// Identifier of a TCP flow.
#[derive(Debug, PartialEq, Eq, Hash)]
pub struct TcpId(pub String);

impl View for TcpId {
    type V = Seq<char>;

    open spec fn view(&self) -> Seq<char> {
        self.0@
    }
}

impl DeepView for TcpId {
    type V = Seq<char>;

    open spec fn deep_view(&self) -> Seq<char> {
        self.0@
    }
}

impl Clone for TcpId {
    fn clone(&self) -> (r: Self)
        ensures
            r == *self,
    {
        TcpId(self.0.clone())
    }
}

impl From<String> for TcpId {
    fn from(s: String) -> (r: Self) {
        TcpId(s)
    }
}

impl FromSpecImpl<String> for TcpId {
    open spec fn obeys_from_spec() -> bool {
        true
    }

    open spec fn from_spec(s: String) -> Self {
        TcpId(s)
    }
}

impl TcpId {
    /// The identifier's text.
    pub fn as_str(&self) -> (r: &str)
        ensures
            r@ == self@,
    {
        self.0.as_str()
    }

    /// A copy of the identifier's text, as `Display` would write it.
    pub fn to_string(&self) -> (r: String)
        ensures
            r@ == self@,
    {
        self.0.clone()
    }

    /// `true` exactly when both identifiers hold the same text.
    pub fn same(&self, other: &TcpId) -> (r: bool)
        ensures
            r == (self@ == other@),
    {
        self.0 == other.0
    }
}

} // verus!
