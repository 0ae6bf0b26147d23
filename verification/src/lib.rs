//! Edge-side agent of a reverse-tunnel service: one control connection to a
//! tunnel server, and over it many flows to services on the private network.
//!
//! The library is the agent's logic, from plain values to plain values, each
//! function with its contract:
//!
//! - the wire protocol: [`ids`], [`messages`], [`encode`], [`decode`],
//!   [`body`], with [`json`] and [`encoding`] underneath;
//! - the proxies' rules: [`http_proxy`], [`ws_proxy`], [`tcp_proxy`];
//! - the registry of a connection and its dispatcher: [`registry`],
//!   [`state`], [`dispatch`], and what holds of whole runs in [`laws`];
//! - the connection supervisor: [`connection`];
//! - the collaborators: [`events`], [`tui`] and [`ui`] for the terminal
//!   interface, [`config`] and [`account`] for the commands, [`crypto`] for
//!   the keypair, [`error`].
//!
//! Sockets, timers, tasks and the terminal are the caller's: the dispatcher
//! says what is to be done, the caller does it and reports back.

pub mod account;
pub mod body;
pub mod config;
pub mod connection;
pub mod crypto;
pub mod decode;
pub mod dispatch;
pub mod encode;
pub mod encoding;
pub mod error;
pub mod events;
pub mod http_proxy;
pub mod ids;
pub mod json;
pub mod laws;
pub mod messages;
pub mod registry;
pub mod state;
pub mod tcp_proxy;
pub mod text;
pub mod tui;
pub mod ui;
pub mod ws_proxy;
