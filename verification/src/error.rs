//! The agent's errors.

use vstd::prelude::*;
use vstd::string::*;

verus! {

/// What can go wrong in the agent. Errors of other libraries are kept by
/// their text.
#[derive(Debug, Clone, PartialEq, Eq)]
pub enum BurrowError {
    ConnectionFailed(String),
    RegistrationFailed(String),
    WebSocket(String),
    Json(String),
    Http(String),
    Io(String),
    Crypto(String),
    Protocol(String),
    Timeout,
    NotConnected,
}

/// The model of a [`BurrowError`].
pub enum BurrowErrorModel {
    ConnectionFailed(Seq<char>),
    RegistrationFailed(Seq<char>),
    WebSocket(Seq<char>),
    Json(Seq<char>),
    Http(Seq<char>),
    Io(Seq<char>),
    Crypto(Seq<char>),
    Protocol(Seq<char>),
    Timeout,
    NotConnected,
}

impl View for BurrowError {
    type V = BurrowErrorModel;

    open spec fn view(&self) -> BurrowErrorModel {
        match *self {
            BurrowError::ConnectionFailed(s) => BurrowErrorModel::ConnectionFailed(s@),
            BurrowError::RegistrationFailed(s) => BurrowErrorModel::RegistrationFailed(s@),
            BurrowError::WebSocket(s) => BurrowErrorModel::WebSocket(s@),
            BurrowError::Json(s) => BurrowErrorModel::Json(s@),
            BurrowError::Http(s) => BurrowErrorModel::Http(s@),
            BurrowError::Io(s) => BurrowErrorModel::Io(s@),
            BurrowError::Crypto(s) => BurrowErrorModel::Crypto(s@),
            BurrowError::Protocol(s) => BurrowErrorModel::Protocol(s@),
            BurrowError::Timeout => BurrowErrorModel::Timeout,
            BurrowError::NotConnected => BurrowErrorModel::NotConnected,
        }
    }
}

/// The error in words.
pub open spec fn error_text(e: BurrowErrorModel) -> Seq<char> {
    match e {
        BurrowErrorModel::ConnectionFailed(s) => "Connection failed: "@ + s,
        BurrowErrorModel::RegistrationFailed(s) => "Registration failed: "@ + s,
        BurrowErrorModel::WebSocket(s) => "WebSocket error: "@ + s,
        BurrowErrorModel::Json(s) => "JSON error: "@ + s,
        BurrowErrorModel::Http(s) => "HTTP error: "@ + s,
        BurrowErrorModel::Io(s) => "IO error: "@ + s,
        BurrowErrorModel::Crypto(s) => "Crypto error: "@ + s,
        BurrowErrorModel::Protocol(s) => "Protocol error: "@ + s,
        BurrowErrorModel::Timeout => "Timeout"@,
        BurrowErrorModel::NotConnected => "Not connected"@,
    }
}

fn labelled(label: &str, detail: &String) -> (r: String)
    ensures
        r@ == label@ + detail@,
{
    let mut text = String::from_str(label);
    text.append(detail.as_str());
    text
}

impl BurrowError {
    /// The error in words.
    pub fn to_string(&self) -> (r: String)
        ensures
            r@ == error_text(self@),
    {
        match self {
            BurrowError::ConnectionFailed(s) => labelled("Connection failed: ", s),
            BurrowError::RegistrationFailed(s) => labelled("Registration failed: ", s),
            BurrowError::WebSocket(s) => labelled("WebSocket error: ", s),
            BurrowError::Json(s) => labelled("JSON error: ", s),
            BurrowError::Http(s) => labelled("HTTP error: ", s),
            BurrowError::Io(s) => labelled("IO error: ", s),
            BurrowError::Crypto(s) => labelled("Crypto error: ", s),
            BurrowError::Protocol(s) => labelled("Protocol error: ", s),
            BurrowError::Timeout => String::from_str("Timeout"),
            BurrowError::NotConnected => String::from_str("Not connected"),
        }
    }
}

} // verus!
