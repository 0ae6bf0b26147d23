//! The TCP proxy's rules: where the local socket is, and what the server is
//! told of each read from it.

use vstd::prelude::*;
use vstd::string::*;

use crate::encoding::{base64_fits, base64_text};
use crate::ids::TcpId;
use crate::messages::{OutgoingMessage, OutgoingModel};
use crate::text::{decimal, push_decimal};
use crate::ws_proxy::{FlowStep, FlowStepModel};

verus! {

/// The size of the buffer that the reader reads into.
pub const READ_BUFFER_SIZE: usize = 8192;

/// How many chunks may wait for a slow local socket.
pub const FLOW_QUEUE_CAPACITY: usize = 64;

/// The address of the local socket.
pub open spec fn local_address_spec(local_port: u16) -> Seq<char> {
    "localhost:"@ + decimal(local_port as nat)
}

/// Builds `localhost:{local_port}`.
pub fn local_address(local_port: u16) -> (r: String)
    ensures
        r@ == local_address_spec(local_port),
{
    let mut address = String::from_str("localhost:");
    push_decimal(&mut address, local_port as u64);
    address
}

/// The model of a read's outcome.
pub open spec fn read_model(chunk: Result<Vec<u8>, String>) -> Result<Seq<u8>, Seq<char>> {
    match chunk {
        Ok(bytes) => Ok(bytes@),
        Err(error) => Err(error@),
    }
}

/// What the server is told of a read from the local socket: a chunk goes as
/// `tcp_data`, always base64; the end of the stream goes as `tcp_close` with
/// the reason `closed`, an error as `tcp_close` with the error's text, and
/// both end the flow.
pub open spec fn on_read_spec(tcp_id: Seq<char>, chunk: Result<Seq<u8>, Seq<char>>) -> FlowStepModel {
    match chunk {
        Ok(bytes) => if bytes.len() == 0 {
            FlowStepModel {
                frame: Some(OutgoingModel::TcpClose { tcp_id, reason: "closed"@ }),
                finished: true,
            }
        } else {
            FlowStepModel {
                frame: Some(
                    OutgoingModel::TcpData {
                        tcp_id,
                        data: base64_text(bytes),
                        data_encoding: "base64"@,
                    },
                ),
                finished: false,
            }
        },
        Err(error) => FlowStepModel {
            frame: Some(OutgoingModel::TcpClose { tcp_id, reason: error }),
            finished: true,
        },
    }
}

/// Decides what follows a read from the local socket. A read of no bytes is
/// the end of the stream.
pub fn on_read(tcp_id: &TcpId, chunk: Result<Vec<u8>, String>) -> (r: FlowStep)
    requires
        chunk matches Ok(bytes) ==> base64_fits(bytes@.len()),
    ensures
        r@ == on_read_spec(tcp_id@, read_model(chunk)),
{
    match chunk {
        Ok(bytes) => if bytes.len() == 0 {
            FlowStep { frame: Some(OutgoingMessage::tcp_close(tcp_id, "closed")), finished: true }
        } else {
            FlowStep {
                frame: Some(OutgoingMessage::tcp_data(tcp_id, bytes.as_slice())),
                finished: false,
            }
        },
        Err(error) => FlowStep {
            frame: Some(OutgoingMessage::tcp_close(tcp_id, error.as_str())),
            finished: true,
        },
    }
}

/// The text of the close that reports a failed local dial.
pub open spec fn dial_failure_reason(error: Seq<char>) -> Seq<char> {
    "Connection failed: "@ + error
}

/// The close that tells the server that the local socket could not be
/// reached.
pub fn dial_failed(tcp_id: &TcpId, error: &str) -> (r: OutgoingMessage)
    ensures
        r@ == (OutgoingModel::TcpClose { tcp_id: tcp_id@, reason: dial_failure_reason(error@) }),
{
    let mut reason = String::from_str("Connection failed: ");
    reason.append(error);
    OutgoingMessage::tcp_close(tcp_id, reason.as_str())
}

} // verus!
