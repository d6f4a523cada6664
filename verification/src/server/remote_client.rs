//! The server's side of UDP relaying: frames that come through the tunnel
//! name the remote peer and carry the payload for it.
use vstd::prelude::*;
use vstd::slice::slice_subrange;
use vstd::slice::slice_to_vec;
use vstd::utf8::*;

use crate::text::string_from_utf8;
use crate::tl_frame::lemma_tl_udp_frame_roundtrip;
use crate::tl_frame::tl_udp_frame;
use crate::tl_frame::tl_udp_frame_fields;
use crate::tl_frame::FrameFault;
use crate::wire::be16_bytes;
use crate::wire::be16_decode;
use crate::wire::lemma_be16_roundtrip;
use crate::wire::be16_value;

verus! {

/// Errors of the server side.
#[derive(Debug, PartialEq, Eq)]
pub enum ServerError {
    /// A frame named a peer by an address text longer than the server takes.
    TlRequestAddrInvalid,
    /// A frame ended before one of its fields.
    TlUdpDataInvalid,
    /// A frame's address text was not UTF-8; std's error.
    AddrNotUtf8(std::string::FromUtf8Error),
}

/// The kind of a [`ServerError`], without the error that std gave.
#[derive(Clone, Copy, Debug, PartialEq, Eq, Structural)]
pub enum ServerErrorKind {
    TlRequestAddrInvalid,
    TlUdpDataInvalid,
    AddrNotUtf8,
}

impl ServerError {
    /// The kind of the error.
    pub open spec fn kind(&self) -> ServerErrorKind {
        match self {
            ServerError::TlRequestAddrInvalid => ServerErrorKind::TlRequestAddrInvalid,
            ServerError::TlUdpDataInvalid => ServerErrorKind::TlUdpDataInvalid,
            ServerError::AddrNotUtf8(_) => ServerErrorKind::AddrNotUtf8,
        }
    }
}

/// The longest address text, in bytes, that the server takes from a frame.
pub const TL_UDP_ADDR_MAX_LEN: u16 = 260;

/// Takes the next `n` bytes of `buf` at the cursor `buf_index`, of which
/// `buf_left_bytes` are still unread. Where fewer than `n` are left, fails
/// and leaves the cursor where it was.
pub fn remote_udp_read_buf<'a>(
    buf: &'a [u8],
    buf_left_bytes: &mut usize,
    buf_index: &mut usize,
    n: usize,
) -> (r: Result<&'a [u8], ServerError>)
    requires
        n <= *old(buf_left_bytes) ==> *old(buf_index) + n <= buf@.len(),
    ensures
        match r {
            Ok(b) => {
                &&& n <= *old(buf_left_bytes)
                &&& b@ == buf@.subrange(*old(buf_index) as int, *old(buf_index) + n)
                &&& *final(buf_left_bytes) == *old(buf_left_bytes) - n
                &&& *final(buf_index) == *old(buf_index) + n
            },
            Err(e) => {
                &&& *old(buf_left_bytes) < n
                &&& e == ServerError::TlUdpDataInvalid
                &&& *final(buf_left_bytes) == *old(buf_left_bytes)
                &&& *final(buf_index) == *old(buf_index)
            },
        },
{
    if *buf_left_bytes < n {
        return Err(ServerError::TlUdpDataInvalid);
    }
    // The slice's length is a usize, so the end cannot overflow.
    assert(buf@.len() == buf.len());
    let end = *buf_index + n;
    let b = slice_subrange(buf, *buf_index, end);
    *buf_left_bytes -= n;
    *buf_index += n;
    Ok(b)
}

/// The server's error for a frame that could not be read.
pub open spec fn server_frame_error(f: FrameFault) -> ServerErrorKind {
    match f {
        FrameFault::Truncated => ServerErrorKind::TlUdpDataInvalid,
        FrameFault::BadUtf8 => ServerErrorKind::AddrNotUtf8,
    }
}

/// What the server takes from a frame: as any reader does, except that an
/// announced address length above [`TL_UDP_ADDR_MAX_LEN`] is refused at once.
pub open spec fn remote_udp_frame(s: Seq<u8>) -> Result<(Seq<char>, Seq<u8>), ServerErrorKind> {
    if s.len() >= 2 && be16_value(s[0], s[1]) > TL_UDP_ADDR_MAX_LEN {
        Err(ServerErrorKind::TlRequestAddrInvalid)
    } else {
        match tl_udp_frame_fields(s) {
            Ok(fields) => Ok(fields),
            Err(f) => Err(server_frame_error(f)),
        }
    }
}

/// Reads a frame that came through the tunnel: the address text of the
/// peer to send to, and the payload.
pub fn parse_remote_udp_frame<'a>(buf: &'a [u8]) -> (r: Result<(String, &'a [u8]), ServerError>)
    ensures
        match r {
            Ok((addr, data)) => remote_udp_frame(buf@) == Ok::<(Seq<char>, Seq<u8>), ServerErrorKind>((addr@, data@)),
            Err(e) => remote_udp_frame(buf@) == Err::<(Seq<char>, Seq<u8>), ServerErrorKind>(e.kind()),
        },
{
    let mut buf_left_bytes = buf.len();
    let mut buf_index: usize = 0;

    let b = remote_udp_read_buf(buf, &mut buf_left_bytes, &mut buf_index, 2)?;
    let addr_len = be16_decode(b[0], b[1]);
    if addr_len > TL_UDP_ADDR_MAX_LEN {
        return Err(ServerError::TlRequestAddrInvalid);
    }
    let b = remote_udp_read_buf(buf, &mut buf_left_bytes, &mut buf_index, addr_len as usize)?;
    let addr = match string_from_utf8(slice_to_vec(b)) {
        Ok(addr) => addr,
        Err(e) => return Err(ServerError::AddrNotUtf8(e)),
    };
    let b = remote_udp_read_buf(buf, &mut buf_left_bytes, &mut buf_index, 2)?;
    let data_len = be16_decode(b[0], b[1]) as usize;
    let data = remote_udp_read_buf(buf, &mut buf_left_bytes, &mut buf_index, data_len)?;
    Ok((addr, data))
}

/// The server reads a frame written for an address text of at most
/// [`TL_UDP_ADDR_MAX_LEN`] bytes and a payload shorter than 65536 bytes as
/// that address text and that payload, whatever bytes follow it.
pub proof fn lemma_server_reads_frame(addr: Seq<char>, data: Seq<u8>, rest: Seq<u8>)
    requires
        encode_utf8(addr).len() <= TL_UDP_ADDR_MAX_LEN,
        data.len() <= 0xffff,
    ensures
        remote_udp_frame(tl_udp_frame(encode_utf8(addr), data) + rest) == Ok::<
            (Seq<char>, Seq<u8>),
            ServerErrorKind,
        >((addr, data)),
{
    lemma_tl_udp_frame_roundtrip(addr, data, rest);
    let n = encode_utf8(addr).len() as u16;
    let s = tl_udp_frame(encode_utf8(addr), data) + rest;
    lemma_be16_roundtrip(n);
    assert(s[0] == be16_bytes(n)[0]);
    assert(s[1] == be16_bytes(n)[1]);
}

} // verus!
