//! Decision logic for one accepted connection. The surrounding program does
//! the reading, dialing and writing; this module decides, from the bytes of
//! the first frame and from the outcome of the dial, what must happen next:
//! close silently, reject, or dial, and which response goes on the wire.
//!
//! Per connection the order is fixed: decode the first frame with
//! [`plan_request`]; if it says to dial, attempt the connection under a
//! timeout and classify the result as a [`DialOutcome`]; write the response
//! given by [`response_for_outcome`]; relay bytes only when [`should_relay`]
//! says so. No state survives a connection, so independent connections with
//! identical inputs are decided identically.

use crate::protocol::{Reply, Request, Response, spec_decode_request};
use vstd::prelude::*;

verus! {

/// The most bytes read for one handshake frame: the 8-byte header plus a
/// bounded identifier tail.
pub const MAX_LENGTH: usize = 8 + 128;

/// What to do with a connection after its first frame.
#[derive(Clone, Copy, Debug, PartialEq, Eq, Structural)]
pub enum HandshakeAction {
    /// The frame did not decode: close the connection without writing
    /// anything back.
    CloseSilently,
    /// The frame asked for BIND, which this relay does not support: write
    /// the canonical rejection, then close.
    RejectUnsupported,
    /// The frame asked for CONNECT: dial the destination under the
    /// connection timeout.
    Dial { dest_ip: u32, dest_port: u16 },
}

/// The action the first frame calls for, as a function of its bytes alone.
pub open spec fn spec_plan(s: Seq<u8>) -> HandshakeAction {
    match spec_decode_request(s) {
        Ok(req) => match req.command {
            crate::protocol::Command::Connect => HandshakeAction::Dial {
                dest_ip: req.dest_ip,
                dest_port: req.dest_port,
            },
            crate::protocol::Command::Bind => HandshakeAction::RejectUnsupported,
        },
        Err(_) => HandshakeAction::CloseSilently,
    }
}

/// Decode the first frame of a connection and decide what follows: an
/// undecodable frame aborts the connection with no reply, BIND is rejected
/// deterministically, and CONNECT yields the destination to dial.
pub fn plan_request(input: &[u8]) -> (a: HandshakeAction)
    ensures
        a == spec_plan(input@),
{
    match Request::from_bytes(input) {
        Ok(req) => match req.command {
            crate::protocol::Command::Connect => HandshakeAction::Dial {
                dest_ip: req.dest_ip,
                dest_port: req.dest_port,
            },
            crate::protocol::Command::Bind => HandshakeAction::RejectUnsupported,
        },
        Err(_) => HandshakeAction::CloseSilently,
    }
}

/// How a dial attempt ended. A failure and a timeout put the same rejection
/// on the wire but stay distinct here, so that operators can tell a refused
/// destination from an unreachable or slow one.
#[derive(Clone, Copy, Debug, PartialEq, Eq, Structural)]
pub enum DialOutcome {
    /// The destination accepted within the timeout.
    Connected,
    /// The dial failed (refused, unreachable, ...) before the timeout.
    DialFailed,
    /// The timeout elapsed before the dial completed.
    TimedOut,
}

/// The response owed to the client for each dial outcome: the canonical
/// grant on success, the canonical rejection otherwise.
pub open spec fn spec_response_for(o: DialOutcome) -> Response {
    match o {
        DialOutcome::Connected => Response {
            version: 0,
            reply: Reply::RequestGranted,
            dest_port: 0,
            dest_ip: 0,
        },
        _ => Response { version: 0, reply: Reply::RequestRejected, dest_port: 0, dest_ip: 0 },
    }
}

/// The response to write back once the dial has resolved. It must reach the
/// client before any relayed byte.
pub fn response_for_outcome(o: DialOutcome) -> (r: Response)
    ensures
        r == spec_response_for(o),
{
    match o {
        DialOutcome::Connected => Response::default(),
        DialOutcome::DialFailed => Response::reject_response(),
        DialOutcome::TimedOut => Response::reject_response(),
    }
}

/// Whether the relay phase starts: only a completed dial hands both sockets
/// to the relay; every other outcome closes the connection after the
/// response is written.
pub fn should_relay(o: DialOutcome) -> (b: bool)
    ensures
        b == (o is Connected),
{
    match o {
        DialOutcome::Connected => true,
        _ => false,
    }
}

/// The client is granted exactly when the dial connected, and the port and
/// address fields of the response are always zero: failure and timeout are
/// indistinguishable on the wire.
pub proof fn lemma_grant_iff_connected(o: DialOutcome)
    ensures
        spec_response_for(o).reply is RequestGranted <==> o is Connected,
        o !is Connected ==> spec_response_for(o).reply is RequestRejected,
        spec_response_for(o).dest_port == 0,
        spec_response_for(o).dest_ip == 0,
        spec_response_for(o).version == 0,
{
}

/// Connections are independent: the action planned for a frame and the
/// response owed for a dial outcome are functions of that frame and that
/// outcome alone, so repeated identical requests from separate connections
/// are decided identically, with no cross-connection state.
pub proof fn lemma_connections_independent(
    s1: Seq<u8>,
    s2: Seq<u8>,
    o1: DialOutcome,
    o2: DialOutcome,
)
    requires
        s1 == s2,
        o1 == o2,
    ensures
        spec_plan(s1) == spec_plan(s2),
        spec_response_for(o1) == spec_response_for(o2),
{
}

} // verus!
