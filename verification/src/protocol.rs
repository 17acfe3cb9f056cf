//! Wire codec for the SOCKS4-style handshake: the `Request` and `Response`
//! frames, the `Command` and `Reply` enumerations with their byte mappings,
//! and the decode errors.
//!
//! A request frame is at least 8 bytes: version, command, destination port
//! (big-endian u16), destination address (big-endian u32), then an optional
//! identifier tail. A response frame is exactly 8 bytes with the same layout,
//! a reply code in place of the command, and no tail.

use vstd::prelude::*;

verus! {

/// Why a frame failed to decode.
#[derive(Clone, Copy, Debug, PartialEq, Eq, Structural)]
pub enum Error {
    UnrecognizedCommand,
    UnrecognizedReply,
    InvalidRequest,
}

/// The client's request kind. `Bind` is recognized on the wire but the
/// relay rejects it as unsupported.
#[derive(Clone, Copy, Debug, PartialEq, Eq, Structural)]
pub enum Command {
    Connect,
    Bind,
}

/// The wire byte for each command.
pub open spec fn command_byte(c: Command) -> u8 {
    match c {
        Command::Connect => 1,
        Command::Bind => 2,
    }
}

/// Whether a byte names a known command.
pub open spec fn is_command_byte(b: u8) -> bool {
    b == 1 || b == 2
}

/// The command a known byte names (meaningful only when `is_command_byte`).
pub open spec fn command_of_byte(b: u8) -> Command {
    if b == 1 {
        Command::Connect
    } else {
        Command::Bind
    }
}

/// What decoding a command from a byte sequence yields: the first byte
/// decides; an empty sequence or an unknown byte is an error.
pub open spec fn spec_decode_command(s: Seq<u8>) -> Result<Command, Error> {
    if s.len() == 0 {
        Err(Error::UnrecognizedCommand)
    } else if is_command_byte(s[0]) {
        Ok(command_of_byte(s[0]))
    } else {
        Err(Error::UnrecognizedCommand)
    }
}

impl Command {
    pub fn to_bytes(&self) -> (b: u8)
        ensures
            b == command_byte(*self),
            is_command_byte(b),
    {
        match self {
            Command::Connect => 1,
            Command::Bind => 2,
        }
    }

    pub fn from_bytes(input: &[u8]) -> (res: Result<Self, Error>)
        ensures
            res == spec_decode_command(input@),
    {
        if input.len() == 0 {
            return Err(Error::UnrecognizedCommand);
        }
        match input[0] {
            1 => Ok(Command::Connect),
            2 => Ok(Command::Bind),
            _ => Err(Error::UnrecognizedCommand),
        }
    }
}

/// Every command round-trips through its wire byte.
pub proof fn lemma_command_round_trip(c: Command)
    ensures
        spec_decode_command(seq![command_byte(c)]) == Ok::<Command, Error>(c),
{
}

/// The server's verdict on a request, one byte on the wire. Only the first
/// two are produced by this relay; the identd-related codes belong to the
/// historical protocol and are kept for interoperability.
#[derive(Clone, Copy, Debug, PartialEq, Eq, Structural)]
pub enum Reply {
    RequestGranted,
    RequestRejected,
    NotRunningIdentd,
    CouldNotConfirmId,
}

/// The wire byte for each reply.
pub open spec fn reply_byte(r: Reply) -> u8 {
    match r {
        Reply::RequestGranted => 0x5A,
        Reply::RequestRejected => 0x5B,
        Reply::NotRunningIdentd => 0x5C,
        Reply::CouldNotConfirmId => 0x5D,
    }
}

/// Whether a byte names a known reply.
pub open spec fn is_reply_byte(b: u8) -> bool {
    b == 0x5A || b == 0x5B || b == 0x5C || b == 0x5D
}

/// The reply a known byte names (meaningful only when `is_reply_byte`).
pub open spec fn reply_of_byte(b: u8) -> Reply {
    if b == 0x5A {
        Reply::RequestGranted
    } else if b == 0x5B {
        Reply::RequestRejected
    } else if b == 0x5C {
        Reply::NotRunningIdentd
    } else {
        Reply::CouldNotConfirmId
    }
}

/// What decoding a reply from a byte sequence yields: the first byte
/// decides; an empty sequence or an unknown byte is an error.
pub open spec fn spec_decode_reply(s: Seq<u8>) -> Result<Reply, Error> {
    if s.len() == 0 {
        Err(Error::UnrecognizedReply)
    } else if is_reply_byte(s[0]) {
        Ok(reply_of_byte(s[0]))
    } else {
        Err(Error::UnrecognizedReply)
    }
}

impl Reply {
    pub fn to_bytes(&self) -> (b: u8)
        ensures
            b == reply_byte(*self),
            is_reply_byte(b),
    {
        match self {
            Reply::RequestGranted => 0x5A,
            Reply::RequestRejected => 0x5B,
            Reply::NotRunningIdentd => 0x5C,
            Reply::CouldNotConfirmId => 0x5D,
        }
    }

    pub fn from_bytes(input: &[u8]) -> (res: Result<Self, Error>)
        ensures
            res == spec_decode_reply(input@),
    {
        if input.len() == 0 {
            return Err(Error::UnrecognizedReply);
        }
        match input[0] {
            0x5A => Ok(Reply::RequestGranted),
            0x5B => Ok(Reply::RequestRejected),
            0x5C => Ok(Reply::NotRunningIdentd),
            0x5D => Ok(Reply::CouldNotConfirmId),
            _ => Err(Error::UnrecognizedReply),
        }
    }
}

/// Every reply round-trips through its wire byte.
pub proof fn lemma_reply_round_trip(r: Reply)
    ensures
        spec_decode_reply(seq![reply_byte(r)]) == Ok::<Reply, Error>(r),
{
}

/// A byte outside the reply alphabet never decodes: the error is
/// `UnrecognizedReply`, whatever follows the byte.
pub proof fn lemma_unknown_reply_byte_rejected(s: Seq<u8>)
    requires
        s.len() > 0,
        !is_reply_byte(s[0]),
    ensures
        spec_decode_reply(s) == Err::<Reply, Error>(Error::UnrecognizedReply),
{
}

/// The big-endian u16 read from two bytes, most-significant first.
pub open spec fn be16(hi: u8, lo: u8) -> u16 {
    ((hi as u16) << 8) | (lo as u16)
}

/// The most-significant byte of a u16.
pub open spec fn be16_hi(p: u16) -> u8 {
    (p >> 8) as u8
}

/// The least-significant byte of a u16.
pub open spec fn be16_lo(p: u16) -> u8 {
    (p & 0xFF) as u8
}

/// The big-endian u32 read from four bytes, most-significant first.
pub open spec fn be32(b0: u8, b1: u8, b2: u8, b3: u8) -> u32 {
    ((b0 as u32) << 24) | ((b1 as u32) << 16) | ((b2 as u32) << 8) | (b3 as u32)
}

/// Byte `i` of a u32 in big-endian order, for `i` in 0..4.
pub open spec fn be32_byte(x: u32, i: int) -> u8 {
    if i == 0 {
        ((x >> 24) & 0xFF) as u8
    } else if i == 1 {
        ((x >> 16) & 0xFF) as u8
    } else if i == 2 {
        ((x >> 8) & 0xFF) as u8
    } else {
        (x & 0xFF) as u8
    }
}

/// Splitting a u16 into big-endian bytes and reading them back is the
/// identity, in both directions.
pub proof fn lemma_be16_round_trip(p: u16, hi: u8, lo: u8)
    by (bit_vector)
    ensures
        be16(be16_hi(p), be16_lo(p)) == p,
        be16_hi(be16(hi, lo)) == hi,
        be16_lo(be16(hi, lo)) == lo,
{
}

/// Splitting a u32 into big-endian bytes and reading them back is the
/// identity, in both directions.
pub proof fn lemma_be32_round_trip(x: u32, b0: u8, b1: u8, b2: u8, b3: u8)
    by (bit_vector)
    ensures
        be32(be32_byte(x, 0), be32_byte(x, 1), be32_byte(x, 2), be32_byte(x, 3)) == x,
        be32_byte(be32(b0, b1, b2, b3), 0) == b0,
        be32_byte(be32(b0, b1, b2, b3), 1) == b1,
        be32_byte(be32(b0, b1, b2, b3), 2) == b2,
        be32_byte(be32(b0, b1, b2, b3), 3) == b3,
{
}

/// Read the big-endian u16 at the given pair of bytes.
fn read_be16(hi: u8, lo: u8) -> (p: u16)
    ensures
        p == be16(hi, lo),
{
    ((hi as u16) << 8) | (lo as u16)
}

/// Split a u16 into its big-endian bytes.
fn split_be16(p: u16) -> (r: (u8, u8))
    ensures
        r.0 == be16_hi(p),
        r.1 == be16_lo(p),
{
    assert(p >> 8 < 256 && p & 0xFF < 256) by (bit_vector);
    (((p >> 8) as u8), ((p & 0xFF) as u8))
}

/// Read the big-endian u32 at the given four bytes.
fn read_be32(b0: u8, b1: u8, b2: u8, b3: u8) -> (x: u32)
    ensures
        x == be32(b0, b1, b2, b3),
{
    ((b0 as u32) << 24) | ((b1 as u32) << 16) | ((b2 as u32) << 8) | (b3 as u32)
}

/// Split a u32 into its big-endian bytes.
fn split_be32(x: u32) -> (r: (u8, u8, u8, u8))
    ensures
        r.0 == be32_byte(x, 0),
        r.1 == be32_byte(x, 1),
        r.2 == be32_byte(x, 2),
        r.3 == be32_byte(x, 3),
{
    assert((x >> 24) & 0xFF < 256 && (x >> 16) & 0xFF < 256 && (x >> 8) & 0xFF < 256 && x & 0xFF
        < 256) by (bit_vector);
    (
        (((x >> 24) & 0xFF) as u8),
        (((x >> 16) & 0xFF) as u8),
        (((x >> 8) & 0xFF) as u8),
        ((x & 0xFF) as u8),
    )
}

/// A client's handshake request. On the wire: version, command byte,
/// big-endian port, big-endian address, then the identifier tail (possibly
/// empty).
#[derive(Debug)]
pub struct Request {
    pub version: u8,
    pub command: Command,
    pub dest_port: u16,
    pub dest_ip: u32,
    pub id: Vec<u8>,
}

/// The mathematical value of a `Request`: the same fields with the
/// identifier as a sequence.
#[verifier::ext_equal]
pub struct SpecRequest {
    pub version: u8,
    pub command: Command,
    pub dest_port: u16,
    pub dest_ip: u32,
    pub id: Seq<u8>,
}

impl View for Request {
    type V = SpecRequest;

    open spec fn view(&self) -> SpecRequest {
        SpecRequest {
            version: self.version,
            command: self.command,
            dest_port: self.dest_port,
            dest_ip: self.dest_ip,
            id: self.id@,
        }
    }
}

/// The wire image of a request: an 8-byte header followed by the identifier.
pub open spec fn spec_encode_request(r: SpecRequest) -> Seq<u8> {
    seq![
        r.version,
        command_byte(r.command),
        be16_hi(r.dest_port),
        be16_lo(r.dest_port),
        be32_byte(r.dest_ip, 0),
        be32_byte(r.dest_ip, 1),
        be32_byte(r.dest_ip, 2),
        be32_byte(r.dest_ip, 3),
    ] + r.id
}

/// What decoding a request from a byte sequence yields. Fewer than 8 bytes
/// is `InvalidRequest`; an unknown command byte is `UnrecognizedCommand`;
/// otherwise every byte past the header becomes the identifier.
pub open spec fn spec_decode_request(s: Seq<u8>) -> Result<SpecRequest, Error> {
    if s.len() < 8 {
        Err(Error::InvalidRequest)
    } else if !is_command_byte(s[1]) {
        Err(Error::UnrecognizedCommand)
    } else {
        Ok(
            SpecRequest {
                version: s[0],
                command: command_of_byte(s[1]),
                dest_port: be16(s[2], s[3]),
                dest_ip: be32(s[4], s[5], s[6], s[7]),
                id: s.subrange(8, s.len() as int),
            },
        )
    }
}

impl Request {
    pub fn to_bytes(&self) -> (raw: Vec<u8>)
        ensures
            raw@ == spec_encode_request(self@),
            raw@.len() == 8 + self.id@.len(),
    {
        let mut raw: Vec<u8> = Vec::new();
        raw.push(self.version);
        raw.push(self.command.to_bytes());
        let port = split_be16(self.dest_port);
        raw.push(port.0);
        raw.push(port.1);
        let ip = split_be32(self.dest_ip);
        raw.push(ip.0);
        raw.push(ip.1);
        raw.push(ip.2);
        raw.push(ip.3);
        let ghost header = raw@;
        let n = self.id.len();
        for i in 0..n
            invariant
                n == self.id@.len(),
                raw@ == header + self.id@.subrange(0, i as int),
                header == spec_encode_request(self@).subrange(0, 8),
                header.len() == 8,
        {
            raw.push(self.id[i]);
        }
        assert(raw@ =~= spec_encode_request(self@));
        raw
    }

    pub fn from_bytes(input: &[u8]) -> (res: Result<Self, Error>)
        ensures
            res matches Ok(req) ==> spec_decode_request(input@) == Ok::<SpecRequest, Error>(req@),
            res matches Err(e) ==> spec_decode_request(input@) == Err::<SpecRequest, Error>(e),
    {
        if input.len() < 8 {
            return Err(Error::InvalidRequest);
        }
        let version = input[0];
        let command = match Command::from_bytes(&input[1..input.len()]) {
            Ok(c) => c,
            Err(_) => {
                return Err(Error::UnrecognizedCommand);
            },
        };
        let dest_port = read_be16(input[2], input[3]);
        let dest_ip = read_be32(input[4], input[5], input[6], input[7]);
        let id = vstd::slice::slice_to_vec(vstd::slice::slice_subrange(input, 8, input.len()));
        let req = Request { version, command, dest_port, dest_ip, id };
        assert(req@ =~= spec_decode_request(input@)->Ok_0);
        Ok(req)
    }

    /// The four octets of the destination address, most-significant first.
    pub fn ip_bytes(&self) -> (r: (u8, u8, u8, u8))
        ensures
            r.0 == be32_byte(self.dest_ip, 0),
            r.1 == be32_byte(self.dest_ip, 1),
            r.2 == be32_byte(self.dest_ip, 2),
            r.3 == be32_byte(self.dest_ip, 3),
    {
        split_be32(self.dest_ip)
    }
}

/// Round-trip law for requests: a request frame decodes back to the value
/// it was encoded from, whatever the length of the identifier tail.
pub proof fn lemma_request_round_trip(r: SpecRequest)
    ensures
        spec_decode_request(spec_encode_request(r)) == Ok::<SpecRequest, Error>(r),
{
    let s = spec_encode_request(r);
    lemma_be16_round_trip(r.dest_port, 0, 0);
    lemma_be32_round_trip(r.dest_ip, 0, 0, 0, 0);
    assert(s.subrange(8, s.len() as int) =~= r.id);
    assert(spec_decode_request(s)->Ok_0 =~= r);
}

/// The server's handshake response, exactly 8 bytes on the wire: version,
/// reply byte, big-endian port, big-endian address. On both grant and
/// rejection this relay zeroes the port and address fields; they carry
/// meaning only in diagnostic uses of the protocol.
#[derive(Clone, Copy, Debug, PartialEq, Eq, Structural)]
pub struct Response {
    pub version: u8,
    pub reply: Reply,
    pub dest_port: u16,
    pub dest_ip: u32,
}

/// The wire image of a response: always exactly 8 bytes.
pub open spec fn spec_encode_response(r: Response) -> Seq<u8> {
    seq![
        r.version,
        reply_byte(r.reply),
        be16_hi(r.dest_port),
        be16_lo(r.dest_port),
        be32_byte(r.dest_ip, 0),
        be32_byte(r.dest_ip, 1),
        be32_byte(r.dest_ip, 2),
        be32_byte(r.dest_ip, 3),
    ]
}

/// What decoding a response from a byte sequence yields. A response frame
/// is exactly 8 bytes, so fewer is `InvalidRequest`; an unknown reply byte
/// is `UnrecognizedReply`.
pub open spec fn spec_decode_response(s: Seq<u8>) -> Result<Response, Error> {
    if s.len() < 8 {
        Err(Error::InvalidRequest)
    } else if !is_reply_byte(s[1]) {
        Err(Error::UnrecognizedReply)
    } else {
        Ok(
            Response {
                version: s[0],
                reply: reply_of_byte(s[1]),
                dest_port: be16(s[2], s[3]),
                dest_ip: be32(s[4], s[5], s[6], s[7]),
            },
        )
    }
}

impl Response {
    pub fn to_bytes(&self) -> (raw: Vec<u8>)
        ensures
            raw@ == spec_encode_response(*self),
            raw@.len() == 8,
    {
        let mut raw: Vec<u8> = Vec::new();
        raw.push(self.version);
        raw.push(self.reply.to_bytes());
        let port = split_be16(self.dest_port);
        raw.push(port.0);
        raw.push(port.1);
        let ip = split_be32(self.dest_ip);
        raw.push(ip.0);
        raw.push(ip.1);
        raw.push(ip.2);
        raw.push(ip.3);
        assert(raw@ =~= spec_encode_response(*self));
        raw
    }

    pub fn from_bytes(input: &[u8]) -> (res: Result<Self, Error>)
        ensures
            res == spec_decode_response(input@),
    {
        if input.len() < 8 {
            return Err(Error::InvalidRequest);
        }
        let version = input[0];
        let reply = match Reply::from_bytes(&input[1..input.len()]) {
            Ok(r) => r,
            Err(_) => {
                return Err(Error::UnrecognizedReply);
            },
        };
        let dest_port = read_be16(input[2], input[3]);
        let dest_ip = read_be32(input[4], input[5], input[6], input[7]);
        Ok(Response { version, reply, dest_port, dest_ip })
    }

    /// The canonical rejection: reply `RequestRejected`, every other field
    /// zero. Sent when the command is unsupported or the dial fails or
    /// times out.
    pub fn reject_response() -> (r: Response)
        ensures
            r == (Response {
                version: 0,
                reply: Reply::RequestRejected,
                dest_port: 0,
                dest_ip: 0,
            }),
    {
        Response { version: 0, reply: Reply::RequestRejected, dest_port: 0, dest_ip: 0 }
    }
}

impl Default for Response {
    /// The canonical grant: reply `RequestGranted`, every other field zero.
    /// The port and address are "don't care" fields on success.
    fn default() -> (r: Response)
        ensures
            r == (Response {
                version: 0,
                reply: Reply::RequestGranted,
                dest_port: 0,
                dest_ip: 0,
            }),
    {
        Response { version: 0, reply: Reply::RequestGranted, dest_port: 0, dest_ip: 0 }
    }
}

/// Round-trip law for responses: an encoded response decodes back to the
/// value it was encoded from.
pub proof fn lemma_response_round_trip(r: Response)
    ensures
        spec_decode_response(spec_encode_response(r)) == Ok::<Response, Error>(r),
{
    lemma_be16_round_trip(r.dest_port, 0, 0);
    lemma_be32_round_trip(r.dest_ip, 0, 0, 0, 0);
}

/// Any byte sequence shorter than the 8-byte header is rejected as
/// `InvalidRequest`, whatever its contents.
pub proof fn lemma_short_request_rejected(s: Seq<u8>)
    requires
        s.len() < 8,
    ensures
        spec_decode_request(s) == Err::<SpecRequest, Error>(Error::InvalidRequest),
{
}

/// A long-enough frame whose command byte is unknown is rejected as
/// `UnrecognizedCommand`, whatever the other bytes.
pub proof fn lemma_unknown_command_byte_rejected(s: Seq<u8>)
    requires
        s.len() >= 8,
        !is_command_byte(s[1]),
    ensures
        spec_decode_request(s) == Err::<SpecRequest, Error>(Error::UnrecognizedCommand),
{
}

} // verus!
