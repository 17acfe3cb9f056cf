//! A SOCKS4-style TCP relay core: the fixed-layout wire codec for the
//! handshake request and response, and the decision logic that turns a
//! decoded request and a dial outcome into the reply that goes back on
//! the wire. The sockets themselves (listening, dialing, the byte relay)
//! live outside this crate; everything here is pure and verified.

pub mod handshake;
pub mod protocol;
