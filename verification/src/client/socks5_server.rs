//! The SOCKS5 side of the client: the handshake with a local application,
//! the SOCKS5 UDP datagram format, and the address texts that the tunnel
//! is asked to reach.
use vstd::prelude::*;
use vstd::slice::slice_subrange;
use vstd::slice::slice_to_vec;
use vstd::string::StringExecFns;
use vstd::utf8::*;

use crate::text::decimal;
use crate::text::decimal_value;
use crate::text::is_digit;
use crate::text::lemma_decimal_reads_back;
use crate::text::lemma_decimal_ascii;
use crate::text::lemma_decimal_len;
use crate::tl_frame::tl_udp_frame_fields;
use crate::tl_frame::FrameFault;
use crate::text::push_decimal;
use crate::text::str_from_utf8;
use crate::text::string_from_utf8;
use crate::wire::be16_bytes;
use crate::wire::be16_decode;
use crate::wire::be16_high;
use crate::wire::be16_low;
use crate::wire::be16_value;
use crate::wire::put;
use crate::wire::put_u16;
use crate::wire::put_u8;

verus! {

/// Errors of the client side.
#[derive(Debug, PartialEq, Eq)]
pub enum ClientError {
    /// A SOCKS message did not carry version 5.
    Socks5VersionInvalid,
    /// The request asked for a command other than CONNECT and UDP ASSOCIATE.
    Socks5CmdNotSupported,
    /// The request named its target by an address type that is not handled.
    Socks5AddrTypeNotSupported,
    /// A UDP datagram or tunnel frame ended before one of its fields.
    Socks5UdpDataInvalid,
    /// A domain target's name was not UTF-8; std's error.
    DomainNotUtf8(std::str::Utf8Error),
    /// A frame's address text was not UTF-8; std's error.
    AddrNotUtf8(std::string::FromUtf8Error),
}

/// The kind of a [`ClientError`], without the error that std gave.
#[derive(Clone, Copy, Debug, PartialEq, Eq, Structural)]
pub enum ClientErrorKind {
    Socks5VersionInvalid,
    Socks5CmdNotSupported,
    Socks5AddrTypeNotSupported,
    Socks5UdpDataInvalid,
    DomainNotUtf8,
    AddrNotUtf8,
}

impl ClientError {
    /// The kind of the error.
    pub open spec fn kind(&self) -> ClientErrorKind {
        match self {
            ClientError::Socks5VersionInvalid => ClientErrorKind::Socks5VersionInvalid,
            ClientError::Socks5CmdNotSupported => ClientErrorKind::Socks5CmdNotSupported,
            ClientError::Socks5AddrTypeNotSupported => ClientErrorKind::Socks5AddrTypeNotSupported,
            ClientError::Socks5UdpDataInvalid => ClientErrorKind::Socks5UdpDataInvalid,
            ClientError::DomainNotUtf8(_) => ClientErrorKind::DomainNotUtf8,
            ClientError::AddrNotUtf8(_) => ClientErrorKind::AddrNotUtf8,
        }
    }
}

/// The text of an IPv4 target, `a.b.c.d:port`, from the four address bytes
/// and the two big-endian port bytes at the start of `b`.
pub open spec fn ipv4_addr_text(b: Seq<u8>) -> Seq<char> {
    decimal(b[0] as nat) + seq!['.'] + decimal(b[1] as nat) + seq!['.'] + decimal(b[2] as nat)
        + seq!['.'] + decimal(b[3] as nat) + seq![':'] + decimal(be16_value(b[4], b[5]) as nat)
}

/// The text of a domain target, `name:port`, from a name followed by two
/// big-endian port bytes; nothing where the name is not UTF-8.
pub open spec fn domain_addr_text(b: Seq<u8>) -> Option<Seq<char>> {
    let name = b.subrange(0, b.len() - 2);
    if valid_utf8(name) {
        Some(
            decode_utf8(name) + seq![':'] + decimal(
                be16_value(b[b.len() - 2], b[b.len() - 1]) as nat,
            ),
        )
    } else {
        None
    }
}

/// Writes the IPv4 target held in the first six bytes of `b` (address,
/// then big-endian port) as `a.b.c.d:port`.
pub fn socks5_convert_ipv4_addr(b: &[u8]) -> (s: String)
    requires
        b@.len() >= 6,
    ensures
        s@ == ipv4_addr_text(b@),
{
    let port = be16_decode(b[4], b[5]);
    let mut s = String::new();
    push_decimal(&mut s, b[0] as u32);
    proof { reveal_strlit("."); reveal_strlit(":"); }
    s.append(".");
    push_decimal(&mut s, b[1] as u32);
    s.append(".");
    push_decimal(&mut s, b[2] as u32);
    s.append(".");
    push_decimal(&mut s, b[3] as u32);
    s.append(":");
    push_decimal(&mut s, port as u32);
    assert(s@ =~= ipv4_addr_text(b@));
    s
}

/// Writes a domain target, a name followed by two big-endian port bytes, as
/// `name:port`; fails where the name is not UTF-8.
pub fn socks5_convert_domain_addr(b: &[u8]) -> (r: Result<String, ClientError>)
    requires
        b@.len() >= 2,
    ensures
        match r {
            Ok(s) => domain_addr_text(b@) == Some(s@),
            Err(e) => domain_addr_text(b@) is None && e.kind() == ClientErrorKind::DomainNotUtf8,
        },
        r is Ok <==> valid_utf8(b@.subrange(0, b@.len() - 2)),
        r matches Ok(s) ==> encode_utf8(s@.take(decode_utf8(b@.subrange(0, b@.len() - 2)).len() as int))
            == b@.subrange(0, b@.len() - 2),
{
    let n = b.len();
    let name = slice_subrange(b, 0, n - 2);
    let domain = match str_from_utf8(name) {
        Ok(d) => d,
        Err(e) => return Err(ClientError::DomainNotUtf8(e)),
    };
    let port = be16_decode(b[n - 2], b[n - 1]);
    let mut s = String::from_str(domain);
    proof { reveal_strlit(":"); }
    s.append(":");
    push_decimal(&mut s, port as u32);
    assert(s@ =~= domain_addr_text(b@).unwrap());
    proof {
        let nm = b@.subrange(0, b@.len() - 2);
        decode_utf8_encode_utf8(nm);
        assert(s@.take(decode_utf8(nm).len() as int) =~= decode_utf8(nm));
    }
    Ok(s)
}

/// Takes the next `n` bytes of `buf` at the cursor `buf_index`, of which
/// `buf_left_bytes` are still unread. Where fewer than `n` are left, fails
/// and leaves the cursor where it was.
pub fn socks5_udp_read_buf<'a>(
    buf: &'a [u8],
    buf_left_bytes: &mut usize,
    buf_index: &mut usize,
    n: usize,
) -> (r: Result<&'a [u8], ClientError>)
    requires
        n <= *old(buf_left_bytes) ==> *old(buf_index) + n <= buf@.len(),
    ensures
        match r {
            Ok(b) => {
                &&& n <= *old(buf_left_bytes)
                &&& b@ == buf@.subrange(*old(buf_index) as int, *old(buf_index) + n)
                &&& *final(buf_left_bytes) == *old(buf_left_bytes) - n
                &&& *final(buf_index) == *old(buf_index) + n
            },
            Err(e) => {
                &&& *old(buf_left_bytes) < n
                &&& e == ClientError::Socks5UdpDataInvalid
                &&& *final(buf_left_bytes) == *old(buf_left_bytes)
                &&& *final(buf_index) == *old(buf_index)
            },
        },
{
    if *buf_left_bytes < n {
        return Err(ClientError::Socks5UdpDataInvalid);
    }
    // The slice's length is a usize, so the end cannot overflow.
    assert(buf@.len() == buf.len());
    let end = *buf_index + n;
    let b = slice_subrange(buf, *buf_index, end);
    *buf_left_bytes -= n;
    *buf_index += n;
    Ok(b)
}

/// What a SOCKS5 UDP datagram from the application asks: nothing to relay
/// (`None`: a fragment, or no payload), or the IPv4 target's text and the
/// payload.
pub open spec fn socks5_udp_request(d: Seq<u8>) -> Result<Option<(Seq<char>, Seq<u8>)>, ClientErrorKind> {
    if d.len() < 4 {
        Err(ClientErrorKind::Socks5UdpDataInvalid)
    } else if d[2] != 0 {
        Ok(None)
    } else if d[3] != 1 {
        Err(ClientErrorKind::Socks5AddrTypeNotSupported)
    } else if d.len() < 10 {
        Err(ClientErrorKind::Socks5UdpDataInvalid)
    } else if d.len() == 10 {
        Ok(None)
    } else {
        Ok(Some((ipv4_addr_text(d.subrange(4, 10)), d.subrange(10, d.len() as int))))
    }
}

/// Whether the UDP relay socket is already tied to the application: the
/// relay ties itself to the sender of the first datagram it receives.
#[derive(Clone, Copy, Debug, PartialEq, Eq, Structural)]
pub struct UdpPeerBinding {
    pub connected: bool,
}

impl UdpPeerBinding {
    /// A relay socket not yet tied to a sender.
    pub fn new() -> (b: UdpPeerBinding)
        ensures
            !b.connected,
    {
        UdpPeerBinding { connected: false }
    }

    /// Whether the socket must be tied to the sender of a datagram just
    /// received: only while it is not yet tied.
    pub fn needs_connect(&self) -> (c: bool)
        ensures
            c == !self.connected,
    {
        !self.connected
    }

    /// Records that the socket was tied to a sender; from then on no
    /// datagram ties it again.
    pub fn record_connected(&mut self)
        ensures
            final(self).connected,
    {
        self.connected = true;
    }
}

/// Reads a SOCKS5 UDP datagram that the application sent: a reserved
/// field, the fragment number, the address type, an IPv4 target and the
/// payload. Fragments and empty payloads are dropped (`Ok(None)`).
pub fn parse_socks5_udp_datagram<'a>(datagram: &'a [u8]) -> (r: Result<
    Option<(String, &'a [u8])>,
    ClientError,
>)
    ensures
        match r {
            Ok(None) => socks5_udp_request(datagram@) == Ok::<Option<(Seq<char>, Seq<u8>)>, ClientErrorKind>(None),
            Ok(Some((addr, data))) => socks5_udp_request(datagram@) == Ok::<Option<(Seq<char>, Seq<u8>)>, ClientErrorKind>(Some((addr@, data@))),
            Err(e) => socks5_udp_request(datagram@) == Err::<Option<(Seq<char>, Seq<u8>)>, ClientErrorKind>(e.kind()),
        },
        datagram@.len() >= 4 && datagram@[2] == 0 && datagram@[3] != 1 ==> (r matches Err(e)
            && e.kind() == ClientErrorKind::Socks5AddrTypeNotSupported),
        r matches Ok(Some((addr, data))) ==> datagram@.len() > 10 && datagram@[2] == 0
            && datagram@[3] == 1 && data@ == datagram@.subrange(10, datagram@.len() as int),
{
    let mut buf_left_bytes = datagram.len();
    let mut buf_index: usize = 0;

    let b = socks5_udp_read_buf(datagram, &mut buf_left_bytes, &mut buf_index, 4)?;
    let frag = b[2];
    let addr_type = b[3];

    if frag != 0x00 {
        return Ok(None);
    }
    let dst_addr = if addr_type == 0x01 {
        let b = socks5_udp_read_buf(datagram, &mut buf_left_bytes, &mut buf_index, 6)?;
        socks5_convert_ipv4_addr(b)
    } else {
        return Err(ClientError::Socks5AddrTypeNotSupported);
    };

    if buf_left_bytes == 0 {
        return Ok(None);
    }
    let data = slice_subrange(datagram, buf_index, buf_index + buf_left_bytes);
    assert(datagram@.subrange(4, 10).subrange(0, 6) =~= datagram@.subrange(4, 10));
    Ok(Some((dst_addr, data)))
}

/// The client's error for a frame that could not be read.
pub open spec fn client_frame_error(f: FrameFault) -> ClientErrorKind {
    match f {
        FrameFault::Truncated => ClientErrorKind::Socks5UdpDataInvalid,
        FrameFault::BadUtf8 => ClientErrorKind::AddrNotUtf8,
    }
}

/// Reads a frame that came through the tunnel: the address text of the
/// remote peer and the payload.
pub fn parse_tl_udp_frame<'a>(buf: &'a [u8]) -> (r: Result<(String, &'a [u8]), ClientError>)
    ensures
        match r {
            Ok((addr, data)) => tl_udp_frame_fields(buf@) == Ok::<(Seq<char>, Seq<u8>), FrameFault>((addr@, data@)),
            Err(e) => tl_udp_frame_fields(buf@) matches Err(f) && e.kind() == client_frame_error(f),
        },
{
    let mut buf_left_bytes = buf.len();
    let mut buf_index: usize = 0;

    let b = socks5_udp_read_buf(buf, &mut buf_left_bytes, &mut buf_index, 2)?;
    let addr_len = be16_decode(b[0], b[1]) as usize;
    let b = socks5_udp_read_buf(buf, &mut buf_left_bytes, &mut buf_index, addr_len)?;
    let addr = match string_from_utf8(slice_to_vec(b)) {
        Ok(addr) => addr,
        Err(e) => return Err(ClientError::AddrNotUtf8(e)),
    };
    let b = socks5_udp_read_buf(buf, &mut buf_left_bytes, &mut buf_index, 2)?;
    let data_len = be16_decode(b[0], b[1]) as usize;
    let data = socks5_udp_read_buf(buf, &mut buf_left_bytes, &mut buf_index, data_len)?;
    Ok((addr, data))
}

/// An IP address by its octets.
#[derive(Clone, Copy, Debug, PartialEq, Eq)]
pub enum TargetIp {
    V4([u8; 4]),
    V6([u8; 16]),
}

/// The remote peer that a UDP payload came from, as the application is
/// told of it.
#[derive(Clone, Copy, Debug, PartialEq, Eq)]
pub struct UdpTarget {
    pub ip: TargetIp,
    pub port: u16,
}

/// The address type byte and the octets of an IP address as a SOCKS5 UDP
/// header carries them: 1 before the four octets of an IPv4 address, 2
/// before the sixteen of an IPv6 address.
pub open spec fn socks5_udp_ip_field(ip: TargetIp) -> Seq<u8> {
    match ip {
        TargetIp::V4(o) => seq![1u8] + o@,
        TargetIp::V6(o) => seq![2u8] + o@,
    }
}

/// The SOCKS5 UDP datagram that hands `data` from `target` to the
/// application: reserved bytes, fragment 0, the address, the big-endian
/// port and the payload.
pub open spec fn socks5_udp_reply(target: UdpTarget, data: Seq<u8>) -> Seq<u8> {
    be16_bytes(0) + seq![0u8] + socks5_udp_ip_field(target.ip) + be16_bytes(target.port) + data
}

/// Builds the SOCKS5 UDP datagram that hands `data` from `target` to the
/// application.
pub fn build_socks5_udp_datagram(target: &UdpTarget, data: &[u8]) -> (d: Vec<u8>)
    requires
        data@.len() + 22 <= isize::MAX,
    ensures
        d@ == socks5_udp_reply(*target, data@),
        d@.len() == 6 + ip_octets(target.ip).len() + data@.len(),
        d@.subrange(d@.len() - data@.len(), d@.len() as int) == data@,
{
    let ip_len: usize = match target.ip {
        TargetIp::V4(_) => 4,
        TargetIp::V6(_) => 16,
    };
    let n = 2 + 1 + 1 + ip_len + data.len();
    let mut d: Vec<u8> = Vec::with_capacity(n);
    put_u16(&mut d, 0);
    put_u8(&mut d, 0x00);
    match &target.ip {
        TargetIp::V4(octets) => {
            put_u8(&mut d, 0x01);
            put(&mut d, octets.as_slice());
        },
        TargetIp::V6(octets) => {
            put_u8(&mut d, 0x02);
            put(&mut d, octets.as_slice());
        },
    }
    put_u16(&mut d, target.port);
    put(&mut d, data);
    assert(d@ =~= socks5_udp_reply(*target, data@));
    proof { lemma_udp_reply_layout(*target, data@); }
    d
}

/// The reply that grants a CONNECT request: success, bound to 0.0.0.0:0.
pub fn connect_success_reply() -> (r: [u8; 10])
    ensures
        r@ == seq![5u8, 0u8, 0u8, 1u8, 0u8, 0u8, 0u8, 0u8, 0u8, 0u8],
{
    let r = [0x05, 0x00, 0x00, 0x01, 0x00, 0x00, 0x00, 0x00, 0x00, 0x00];
    assert(r@ =~= seq![5u8, 0u8, 0u8, 1u8, 0u8, 0u8, 0u8, 0u8, 0u8, 0u8]);
    r
}

/// The reply that grants a UDP ASSOCIATE request: success, relay at
/// 0.0.0.0 on `port` (big-endian).
pub fn udp_associate_success_reply(port: u16) -> (r: [u8; 10])
    ensures
        r@ == seq![5u8, 0u8, 0u8, 1u8, 0u8, 0u8, 0u8, 0u8] + be16_bytes(port),
{
    let b0 = be16_low(port);
    let b1 = be16_high(port);
    let r = [0x05, 0x00, 0x00, 0x01, 0x00, 0x00, 0x00, 0x00, b1, b0];
    assert(r@ =~= seq![5u8, 0u8, 0u8, 1u8, 0u8, 0u8, 0u8, 0u8] + be16_bytes(port));
    r
}

/// The commands of a SOCKS5 request that are served.
#[derive(Clone, Copy, Debug, PartialEq, Eq, Structural)]
pub enum Socks5CmdType {
    Connect,
    UdpAssociate,
}

/// A SOCKS5 request: the command, and the target as `host:port` text.
#[derive(Debug, PartialEq, Eq)]
pub struct Socks5Request {
    pub cmd: Socks5CmdType,
    pub dst_addr: String,
}

/// The command that a request's command byte asks for, if it is served:
/// 1 is CONNECT, 3 is UDP ASSOCIATE.
pub open spec fn socks5_cmd(b: u8) -> Option<Socks5CmdType> {
    if b == 1 {
        Some(Socks5CmdType::Connect)
    } else if b == 3 {
        Some(Socks5CmdType::UdpAssociate)
    } else {
        None
    }
}

/// Where the SOCKS5 handshake with the application stands: which bytes it
/// reads next.
#[derive(Clone, Copy, Debug, PartialEq, Eq, Structural)]
pub enum HandshakeState {
    /// Awaits the greeting: version and number of methods.
    Greeting,
    /// Awaits the `count` offered methods, which are not looked at.
    Methods { count: u8 },
    /// Awaits the request header: version, command, reserved, address type.
    RequestHeader,
    /// Awaits an IPv4 target: four address bytes and the port.
    Ipv4Target { cmd: Socks5CmdType },
    /// Awaits the length of a domain target.
    DomainLength { cmd: Socks5CmdType },
    /// Awaits a domain target of `len` bytes and the port.
    DomainTarget { cmd: Socks5CmdType, len: u8 },
}

impl HandshakeState {
    /// The number of bytes that the handshake reads next.
    pub open spec fn spec_bytes_needed(self) -> nat {
        match self {
            HandshakeState::Greeting => 2,
            HandshakeState::Methods { count } => count as nat,
            HandshakeState::RequestHeader => 4,
            HandshakeState::Ipv4Target { .. } => 6,
            HandshakeState::DomainLength { .. } => 1,
            HandshakeState::DomainTarget { len, .. } => (len + 2) as nat,
        }
    }

    /// The number of bytes that the handshake reads next.
    pub fn bytes_needed(&self) -> (n: usize)
        ensures
            n == self.spec_bytes_needed(),
    {
        match self {
            HandshakeState::Greeting => 2,
            HandshakeState::Methods { count } => *count as usize,
            HandshakeState::RequestHeader => 4,
            HandshakeState::Ipv4Target { .. } => 6,
            HandshakeState::DomainLength { .. } => 1,
            HandshakeState::DomainTarget { len, .. } => *len as usize + 2,
        }
    }
}

/// What the handshake does after taking the bytes it awaited.
#[derive(Debug)]
pub enum HandshakeStep {
    /// Read on, in the given state.
    Next(HandshakeState),
    /// Send the given bytes to the application; the handshake goes on in
    /// the given state once the application sends its request.
    Reply(HandshakeState, Vec<u8>),
    /// The request is complete.
    Done(Socks5Request),
    /// The handshake failed.
    Fail(ClientError),
}

/// The mathematical content of a [`HandshakeStep`].
pub enum HandshakeStepModel {
    Next(HandshakeState),
    Reply(HandshakeState, Seq<u8>),
    Done(Socks5CmdType, Seq<char>),
    Fail(ClientErrorKind),
}

impl HandshakeStep {
    pub open spec fn model(&self) -> HandshakeStepModel {
        match self {
            HandshakeStep::Next(s) => HandshakeStepModel::Next(*s),
            HandshakeStep::Reply(s, r) => HandshakeStepModel::Reply(*s, r@),
            HandshakeStep::Done(req) => HandshakeStepModel::Done(req.cmd, req.dst_addr@),
            HandshakeStep::Fail(e) => HandshakeStepModel::Fail(e.kind()),
        }
    }
}

/// What the handshake does in `state` with the awaited bytes `input`.
pub open spec fn handshake_step_model(state: HandshakeState, input: Seq<u8>) -> HandshakeStepModel {
    match state {
        HandshakeState::Greeting => {
            if input[0] != 5 {
                HandshakeStepModel::Fail(ClientErrorKind::Socks5VersionInvalid)
            } else {
                HandshakeStepModel::Next(HandshakeState::Methods { count: input[1] })
            }
        },
        HandshakeState::Methods { .. } => HandshakeStepModel::Reply(
            HandshakeState::RequestHeader,
            seq![5u8, 0u8],
        ),
        HandshakeState::RequestHeader => {
            if input[0] != 5 {
                HandshakeStepModel::Fail(ClientErrorKind::Socks5VersionInvalid)
            } else {
                match socks5_cmd(input[1]) {
                    None => HandshakeStepModel::Fail(ClientErrorKind::Socks5CmdNotSupported),
                    Some(cmd) => {
                        if input[3] == 1 {
                            HandshakeStepModel::Next(HandshakeState::Ipv4Target { cmd })
                        } else if input[3] == 3 {
                            HandshakeStepModel::Next(HandshakeState::DomainLength { cmd })
                        } else {
                            HandshakeStepModel::Fail(ClientErrorKind::Socks5AddrTypeNotSupported)
                        }
                    },
                }
            }
        },
        HandshakeState::Ipv4Target { cmd } => HandshakeStepModel::Done(cmd, ipv4_addr_text(input)),
        HandshakeState::DomainLength { cmd } => HandshakeStepModel::Next(
            HandshakeState::DomainTarget { cmd, len: input[0] },
        ),
        HandshakeState::DomainTarget { cmd, .. } => match domain_addr_text(input) {
            Some(t) => HandshakeStepModel::Done(cmd, t),
            None => HandshakeStepModel::Fail(ClientErrorKind::DomainNotUtf8),
        },
    }
}

/// Takes the bytes that the handshake awaited in `state` and decides what
/// comes next: the method selection answers any greeting of version 5 with
/// "no authentication"; a request of version 5 for CONNECT or UDP
/// ASSOCIATE with an IPv4 or domain target is accepted.
pub fn handshake_step(state: HandshakeState, input: &[u8]) -> (r: HandshakeStep)
    requires
        input@.len() == state.spec_bytes_needed(),
    ensures
        r.model() == handshake_step_model(state, input@),
{
    match state {
        HandshakeState::Greeting => {
            let version = input[0];
            let methods_bytes = input[1];
            if version != 0x05 {
                return HandshakeStep::Fail(ClientError::Socks5VersionInvalid);
            }
            HandshakeStep::Next(HandshakeState::Methods { count: methods_bytes })
        },
        HandshakeState::Methods { .. } => {
            let reply = vec![0x05u8, 0x00u8];
            assert(reply@ =~= seq![5u8, 0u8]);
            HandshakeStep::Reply(HandshakeState::RequestHeader, reply)
        },
        HandshakeState::RequestHeader => {
            let version = input[0];
            let cmd = input[1];
            let addr_type = input[3];
            if version != 0x05 {
                return HandshakeStep::Fail(ClientError::Socks5VersionInvalid);
            }
            let socks5_cmd = if cmd == 0x01 {
                Socks5CmdType::Connect
            } else if cmd == 0x03 {
                Socks5CmdType::UdpAssociate
            } else {
                return HandshakeStep::Fail(ClientError::Socks5CmdNotSupported);
            };
            if addr_type == 0x01 {
                HandshakeStep::Next(HandshakeState::Ipv4Target { cmd: socks5_cmd })
            } else if addr_type == 0x03 {
                HandshakeStep::Next(HandshakeState::DomainLength { cmd: socks5_cmd })
            } else {
                HandshakeStep::Fail(ClientError::Socks5AddrTypeNotSupported)
            }
        },
        HandshakeState::Ipv4Target { cmd } => {
            HandshakeStep::Done(Socks5Request { cmd, dst_addr: socks5_convert_ipv4_addr(input) })
        },
        HandshakeState::DomainLength { cmd } => {
            HandshakeStep::Next(HandshakeState::DomainTarget { cmd, len: input[0] })
        },
        HandshakeState::DomainTarget { cmd, .. } => {
            match socks5_convert_domain_addr(input) {
                Ok(dst_addr) => HandshakeStep::Done(Socks5Request { cmd, dst_addr }),
                Err(e) => HandshakeStep::Fail(e),
            }
        },
    }
}

/// Where the handshake ends when it is fed a byte stream, each step taking
/// the bytes that it awaits from the front of what is left.
pub enum HandshakeRun {
    /// The stream ends before bytes that the handshake awaits.
    Incomplete,
    /// The handshake answers with the given bytes after taking the given
    /// number of bytes.
    Replied(Seq<u8>, nat),
    /// The request is complete after the given number of bytes.
    Finished(Socks5CmdType, Seq<char>, nat),
    /// The handshake fails.
    Failed(ClientErrorKind),
}

/// `run` with `n` more bytes taken before it.
pub open spec fn handshake_run_after(run: HandshakeRun, n: nat) -> HandshakeRun {
    match run {
        HandshakeRun::Replied(r, k) => HandshakeRun::Replied(r, k + n),
        HandshakeRun::Finished(c, a, k) => HandshakeRun::Finished(c, a, k + n),
        _ => run,
    }
}

/// Feeds the stream `s` to the handshake from `state`, one step at a time,
/// until it answers, completes or fails. (A step that took no bytes and
/// read on would never end; no state does so.)
pub open spec fn handshake_run(state: HandshakeState, s: Seq<u8>) -> HandshakeRun
    decreases s.len(),
{
    let n = state.spec_bytes_needed();
    if s.len() < n {
        HandshakeRun::Incomplete
    } else {
        match handshake_step_model(state, s.take(n as int)) {
            HandshakeStepModel::Next(next) => {
                if n > 0 {
                    handshake_run_after(handshake_run(next, s.skip(n as int)), n)
                } else {
                    HandshakeRun::Incomplete
                }
            },
            HandshakeStepModel::Reply(_, r) => HandshakeRun::Replied(r, n),
            HandshakeStepModel::Done(cmd, a) => HandshakeRun::Finished(cmd, a, n),
            HandshakeStepModel::Fail(e) => HandshakeRun::Failed(e),
        }
    }
}

/// The SOCKS5 greeting as one message: version 5, the number of methods,
/// the methods; answered with version 5, "no authentication".
pub open spec fn socks5_greeting(s: Seq<u8>) -> HandshakeRun {
    if s.len() < 2 {
        HandshakeRun::Incomplete
    } else if s[0] != 5 {
        HandshakeRun::Failed(ClientErrorKind::Socks5VersionInvalid)
    } else if s.len() < 2 + s[1] {
        HandshakeRun::Incomplete
    } else {
        HandshakeRun::Replied(seq![5u8, 0u8], (2 + s[1]) as nat)
    }
}

/// The SOCKS5 request as one message: version 5, the command, a reserved
/// byte, the address type, then either four IPv4 bytes and the port, or a
/// length byte, that many name bytes and the port.
pub open spec fn socks5_request(s: Seq<u8>) -> HandshakeRun {
    if s.len() < 4 {
        HandshakeRun::Incomplete
    } else if s[0] != 5 {
        HandshakeRun::Failed(ClientErrorKind::Socks5VersionInvalid)
    } else if socks5_cmd(s[1]) is None {
        HandshakeRun::Failed(ClientErrorKind::Socks5CmdNotSupported)
    } else if s[3] == 1 {
        if s.len() < 10 {
            HandshakeRun::Incomplete
        } else {
            HandshakeRun::Finished(socks5_cmd(s[1]).unwrap(), ipv4_addr_text(s.subrange(4, 10)), 10)
        }
    } else if s[3] == 3 {
        if s.len() < 5 || s.len() < 7 + s[4] {
            HandshakeRun::Incomplete
        } else {
            match domain_addr_text(s.subrange(5, 7 + s[4])) {
                Some(t) => HandshakeRun::Finished(socks5_cmd(s[1]).unwrap(), t, (7 + s[4]) as nat),
                None => HandshakeRun::Failed(ClientErrorKind::DomainNotUtf8),
            }
        }
    } else {
        HandshakeRun::Failed(ClientErrorKind::Socks5AddrTypeNotSupported)
    }
}

/// Reading the handshake piece by piece, as much as each step awaits,
/// comes to the same end as reading each message whole: the greeting from
/// `Greeting`, the request from `RequestHeader`.
#[verifier::spinoff_prover]
#[verifier::rlimit(40)]
pub proof fn lemma_handshake_follows_messages(s: Seq<u8>)
    ensures
        handshake_run(HandshakeState::Greeting, s) == socks5_greeting(s),
        handshake_run(HandshakeState::RequestHeader, s) == socks5_request(s),
{
    reveal_with_fuel(handshake_run, 4);
    if s.len() >= 2 {
        assert(s.take(2)[0] == s[0] && s.take(2)[1] == s[1]);
        let rest = s.skip(2);
        assert(rest.len() == s.len() - 2);
    }
    if s.len() >= 4 {
        let h = s.take(4);
        assert(h[0] == s[0] && h[1] == s[1] && h[3] == s[3]);
        if s.len() >= 10 {
            assert(s.skip(4).take(6) =~= s.subrange(4, 10));
        }
        if s.len() >= 5 {
            let t = s.skip(4);
            assert(t.take(1)[0] == s[4]);
            let u = t.skip(1);
            if s.len() >= 7 + s[4] {
                assert(u.take(s[4] + 2) =~= s.subrange(5, 7 + s[4]));
            }
        }
    }
}

/// The address text of an IPv4 target is ASCII, so its UTF-8 bytes are its
/// characters, and it is at most 21 bytes long.
pub proof fn lemma_ipv4_addr_text_short(b: Seq<u8>)
    requires
        b.len() >= 6,
    ensures
        is_ascii_chars(ipv4_addr_text(b)),
        encode_utf8(ipv4_addr_text(b)).len() == ipv4_addr_text(b).len(),
        ipv4_addr_text(b).len() <= 21,
{
    let t = ipv4_addr_text(b);
    lemma_decimal_ascii(b[0] as nat);
    lemma_decimal_ascii(b[1] as nat);
    lemma_decimal_ascii(b[2] as nat);
    lemma_decimal_ascii(b[3] as nat);
    lemma_decimal_ascii(be16_value(b[4], b[5]) as nat);
    lemma_decimal_len(b[0] as nat);
    lemma_decimal_len(b[1] as nat);
    lemma_decimal_len(b[2] as nat);
    lemma_decimal_len(b[3] as nat);
    lemma_decimal_len(be16_value(b[4], b[5]) as nat);
    broadcast use is_ascii_chars_concat;
    let d0 = decimal(b[0] as nat);
    let d1 = decimal(b[1] as nat);
    let d2 = decimal(b[2] as nat);
    let d3 = decimal(b[3] as nat);
    let dp = decimal(be16_value(b[4], b[5]) as nat);
    let dot = seq!['.'];
    let colon = seq![':'];
    assert(is_ascii_chars(dot));
    assert(is_ascii_chars(colon));
    let t1 = d0 + dot;
    let t2 = t1 + d1;
    let t3 = t2 + dot;
    let t4 = t3 + d2;
    let t5 = t4 + dot;
    let t6 = t5 + d3;
    let t7 = t6 + colon;
    let t8 = t7 + dp;
    assert(is_ascii_chars(t1));
    assert(is_ascii_chars(t2));
    assert(is_ascii_chars(t3));
    assert(is_ascii_chars(t4));
    assert(is_ascii_chars(t5));
    assert(is_ascii_chars(t6));
    assert(is_ascii_chars(t7));
    assert(is_ascii_chars(t8));
    assert(t8 == t);
    is_ascii_chars_encode_utf8(t);
}

/// A SOCKS5 UDP datagram that the relay builds for an IPv4 peer reads back
/// as that peer's address text and the payload; with no payload it is
/// dropped.
pub proof fn lemma_socks5_udp_reply_reads_back(octets: [u8; 4], port: u16, data: Seq<u8>)
    ensures
        socks5_udp_request(socks5_udp_reply(UdpTarget { ip: TargetIp::V4(octets), port }, data))
            == (if data.len() == 0 {
            Ok::<Option<(Seq<char>, Seq<u8>)>, ClientErrorKind>(None)
        } else {
            Ok(Some((ipv4_addr_text(octets@ + be16_bytes(port)), data)))
        }),
{
    let d = socks5_udp_reply(UdpTarget { ip: TargetIp::V4(octets), port }, data);
    assert(d.len() == 10 + data.len());
    assert(d[2] == 0 && d[3] == 1);
    assert(d.subrange(4, 10) =~= octets@ + be16_bytes(port));
    assert(d.subrange(10, d.len() as int) =~= data);
}

/// The octets of an IP address.
pub open spec fn ip_octets(ip: TargetIp) -> Seq<u8> {
    match ip {
        TargetIp::V4(o) => o@,
        TargetIp::V6(o) => o@,
    }
}

/// A domain target keeps its whole name: for any name bytes followed by
/// two port bytes, the text exists exactly when the name is UTF-8, and
/// then its part before the ':' that follows the name encodes back to
/// exactly the name bytes, and its part after that ':' is the decimal port.
pub proof fn lemma_domain_text_keeps_whole_name(name: Seq<u8>, hi: u8, lo: u8)
    ensures
        domain_addr_text(name + seq![hi, lo]) is Some <==> valid_utf8(name),
        valid_utf8(name) ==> ({
            let t = domain_addr_text(name + seq![hi, lo]).unwrap();
            let k = decode_utf8(name).len() as int;
            &&& encode_utf8(t.take(k)) == name
            &&& t[k] == ':'
            &&& t.skip(k + 1) == decimal((hi * 256 + lo) as nat)
        }),
{
    let b = name + seq![hi, lo];
    assert(b.subrange(0, b.len() - 2) =~= name);
    assert(b[b.len() - 2] == hi && b[b.len() - 1] == lo);
    if valid_utf8(name) {
        let t = domain_addr_text(b).unwrap();
        let k = decode_utf8(name).len() as int;
        decode_utf8_encode_utf8(name);
        assert(t.take(k) =~= decode_utf8(name));
        assert(t.skip(k + 1) =~= decimal(be16_value(hi, lo) as nat));
    }
}

/// A SOCKS5 request for a domain target, read whole, names the target by
/// its whole name: for a request of version 5 with a served command, address
/// type 3, a length byte, that many UTF-8 name bytes and the port, the
/// request completes after all its bytes, with a text whose part before the
/// ':' that follows the name encodes back to exactly the name bytes and
/// whose rest is the decimal port.
pub proof fn lemma_domain_request_keeps_whole_name(cmd: u8, rsv: u8, name: Seq<u8>, hi: u8, lo: u8)
    requires
        socks5_cmd(cmd) is Some,
        name.len() <= 255,
        valid_utf8(name),
    ensures
        ({
            let s = seq![5u8, cmd, rsv, 3u8, name.len() as u8] + name + seq![hi, lo];
            let k = decode_utf8(name).len() as int;
            &&& handshake_run(HandshakeState::RequestHeader, s) == socks5_request(s)
            &&& socks5_request(s) matches HandshakeRun::Finished(c, t, used)
            &&& c == socks5_cmd(cmd).unwrap()
            &&& used == s.len()
            &&& encode_utf8(t.take(k)) == name
            &&& t[k] == ':'
            &&& t.skip(k + 1) == decimal((hi * 256 + lo) as nat)
        }),
{
    let s = seq![5u8, cmd, rsv, 3u8, name.len() as u8] + name + seq![hi, lo];
    lemma_handshake_follows_messages(s);
    assert(s[4] == name.len() as u8);
    assert(s.subrange(5, 7 + s[4]) =~= name + seq![hi, lo]);
    lemma_domain_text_keeps_whole_name(name, hi, lo);
}

/// A SOCKS5 UDP datagram from the application is relayed only for an IPv4
/// target: with any other address type (once it is long enough and not a
/// fragment) it is refused; and what is relayed is the IPv4 target's text
/// and exactly all bytes after the ten-byte header.
pub proof fn lemma_udp_request_ipv4_only(d: Seq<u8>)
    ensures
        d.len() >= 4 && d[2] == 0 && d[3] != 1 ==> socks5_udp_request(d) == Err::<
            Option<(Seq<char>, Seq<u8>)>,
            ClientErrorKind,
        >(ClientErrorKind::Socks5AddrTypeNotSupported),
        socks5_udp_request(d) matches Ok(Some((addr, data))) ==> {
            &&& d.len() > 10
            &&& d[2] == 0
            &&& d[3] == 1
            &&& data == d.subrange(10, d.len() as int)
            &&& d == d.take(10) + data
            &&& addr == ipv4_addr_text(d.subrange(4, 10))
        },
{
    if let Ok(Some((addr, data))) = socks5_udp_request(d) {
        assert(d =~= d.take(10) + data);
    }
}

/// The SOCKS5 UDP datagram built for any peer, IPv4 or IPv6, lays out a
/// zero reserved field and fragment, the address type (1 or 2), the
/// address octets, the port that reads back as the peer's port, and then
/// the whole payload as its last bytes.
pub proof fn lemma_udp_reply_layout(target: UdpTarget, data: Seq<u8>)
    ensures
        ({
            let d = socks5_udp_reply(target, data);
            let o = ip_octets(target.ip);
            let k = o.len() as int;
            &&& d.len() == 6 + k + data.len()
            &&& d[0] == 0 && d[1] == 0 && d[2] == 0
            &&& d[3] == (if target.ip is V4 { 1u8 } else { 2u8 })
            &&& k == (if target.ip is V4 { 4int } else { 16int })
            &&& d.subrange(4, 4 + k) == o
            &&& be16_value(d[4 + k], d[5 + k]) == target.port
            &&& d.subrange(6 + k, d.len() as int) == data
            &&& d.subrange(d.len() - data.len(), d.len() as int) == data
        }),
{
    let d = socks5_udp_reply(target, data);
    let o = ip_octets(target.ip);
    let k = o.len() as int;
    crate::wire::lemma_be16_roundtrip(target.port);
    assert(d[4 + k] == be16_bytes(target.port)[0]);
    assert(d[5 + k] == be16_bytes(target.port)[1]);
    assert(d.subrange(4, 4 + k) =~= o);
    assert(d.subrange(6 + k, d.len() as int) =~= data);
}

/// Four parts joined by dots, then a colon and a fifth part.
pub open spec fn host_port_text(
    a: Seq<char>,
    b: Seq<char>,
    c: Seq<char>,
    d: Seq<char>,
    port: Seq<char>,
) -> Seq<char> {
    a + seq!['.'] + b + seq!['.'] + c + seq!['.'] + d + seq![':'] + port
}

/// Whether `s` is a non-empty string of digits that reads back as `v`.
pub open spec fn digits_of(s: Seq<char>, v: nat) -> bool {
    &&& s.len() >= 1
    &&& forall|i: int| 0 <= i < s.len() ==> is_digit(#[trigger] s[i])
    &&& decimal_value(s) == v
}

/// The text of an IPv4 target is four runs of digits joined by dots, a
/// colon and a fifth run of digits; the runs read back, in order, as the
/// four address bytes and the big-endian port.
pub proof fn lemma_ipv4_text_reads_back(b: Seq<u8>)
    requires
        b.len() >= 6,
    ensures
        exists|p0: Seq<char>, p1: Seq<char>, p2: Seq<char>, p3: Seq<char>, pp: Seq<char>|
            #[trigger] host_port_text(p0, p1, p2, p3, pp) == ipv4_addr_text(b)
            && digits_of(p0, b[0] as nat) && digits_of(p1, b[1] as nat)
            && digits_of(p2, b[2] as nat) && digits_of(p3, b[3] as nat)
            && digits_of(pp, (b[4] * 256 + b[5]) as nat),
{
    let p0 = decimal(b[0] as nat);
    let p1 = decimal(b[1] as nat);
    let p2 = decimal(b[2] as nat);
    let p3 = decimal(b[3] as nat);
    let pp = decimal(be16_value(b[4], b[5]) as nat);
    lemma_decimal_reads_back(b[0] as nat);
    lemma_decimal_reads_back(b[1] as nat);
    lemma_decimal_reads_back(b[2] as nat);
    lemma_decimal_reads_back(b[3] as nat);
    lemma_decimal_reads_back(be16_value(b[4], b[5]) as nat);
    assert(host_port_text(p0, p1, p2, p3, pp) == ipv4_addr_text(b));
    assert(digits_of(p0, b[0] as nat));
    assert(digits_of(p1, b[1] as nat));
    assert(digits_of(p2, b[2] as nat));
    assert(digits_of(p3, b[3] as nat));
    assert(digits_of(pp, (b[4] * 256 + b[5]) as nat));
}

} // verus!
