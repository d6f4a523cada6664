//! The frame in which a UDP payload travels through the tunnel: the
//! length of the peer's address text, the address text, the length of the
//! payload and the payload, lengths as big-endian 16-bit numbers.
use vstd::prelude::*;
use vstd::string::StringSliceAdditionalSpecFns;
use vstd::utf8::*;

use crate::wire::be16_bytes;
use crate::wire::be16_value;
use crate::wire::put;
use crate::wire::put_u16;

verus! {

/// The frame that carries `data` for the peer whose address text is
/// encoded as `addr`. Each length is written modulo 65536.
pub open spec fn tl_udp_frame(addr: Seq<u8>, data: Seq<u8>) -> Seq<u8> {
    be16_bytes(addr.len() as u16) + addr + be16_bytes(data.len() as u16) + data
}

/// Frames `data` for the peer named `addr` (its UTF-8 bytes go into the
/// frame). Lengths of 65536 or more are written modulo 65536, as the
/// 16-bit fields hold no more.
pub fn encode_tl_udp_frame(addr: &str, data: &[u8]) -> (frame: Vec<u8>)
    requires
        addr.spec_bytes().len() + data@.len() + 4 <= isize::MAX,
    ensures
        frame@ == tl_udp_frame(addr.spec_bytes(), data@),
{
    let addr_bytes = addr.as_bytes();
    let n = 2 + addr_bytes.len() + 2 + data.len();
    let mut frame: Vec<u8> = Vec::with_capacity(n);
    put_u16(&mut frame, addr_bytes.len() as u16);
    put(&mut frame, addr_bytes);
    put_u16(&mut frame, data.len() as u16);
    put(&mut frame, data);
    frame
}

/// Where reading a frame stopped short.
#[derive(Clone, Copy, Debug, PartialEq, Eq, Structural)]
pub enum FrameFault {
    /// The bytes ended before a length field or before the bytes that a
    /// length field announced.
    Truncated,
    /// The address bytes were not UTF-8.
    BadUtf8,
}

/// What a frame holds: the peer's address text and the payload, read in
/// order (address length, address, payload length, payload). Bytes after
/// the payload are ignored.
pub open spec fn tl_udp_frame_fields(s: Seq<u8>) -> Result<(Seq<char>, Seq<u8>), FrameFault> {
    if s.len() < 2 {
        Err(FrameFault::Truncated)
    } else {
        let alen = be16_value(s[0], s[1]) as int;
        if s.len() - 2 < alen {
            Err(FrameFault::Truncated)
        } else if !valid_utf8(s.subrange(2, 2 + alen)) {
            Err(FrameFault::BadUtf8)
        } else if s.len() - 2 - alen < 2 {
            Err(FrameFault::Truncated)
        } else {
            let dlen = be16_value(s[2 + alen], s[3 + alen]) as int;
            if s.len() - 4 - alen < dlen {
                Err(FrameFault::Truncated)
            } else {
                Ok((decode_utf8(s.subrange(2, 2 + alen)), s.subrange(4 + alen, 4 + alen + dlen)))
            }
        }
    }
}

/// A frame written for an address text and a payload, each shorter than
/// 65536 bytes, reads back as that address text and that payload, whatever
/// bytes follow it.
pub proof fn lemma_tl_udp_frame_roundtrip(addr: Seq<char>, data: Seq<u8>, rest: Seq<u8>)
    requires
        encode_utf8(addr).len() <= 0xffff,
        data.len() <= 0xffff,
    ensures
        tl_udp_frame_fields(tl_udp_frame(encode_utf8(addr), data) + rest) == Ok::<
            (Seq<char>, Seq<u8>),
            FrameFault,
        >((addr, data)),
{
    let a = encode_utf8(addr);
    let s = tl_udp_frame(a, data) + rest;
    let alen = a.len() as int;
    assert((a.len() as u16) as int == alen);
    assert((data.len() as u16) as int == data.len());
    crate::wire::lemma_be16_roundtrip(a.len() as u16);
    crate::wire::lemma_be16_roundtrip(data.len() as u16);
    assert(s[0] == be16_bytes(a.len() as u16)[0]);
    assert(s[1] == be16_bytes(a.len() as u16)[1]);
    assert(s.subrange(2, 2 + alen) =~= a);
    assert(s[2 + alen] == be16_bytes(data.len() as u16)[0]);
    assert(s[3 + alen] == be16_bytes(data.len() as u16)[1]);
    assert(s.subrange(4 + alen, 4 + alen + data.len()) =~= data);
    encode_utf8_valid_utf8(addr);
    encode_utf8_decode_utf8(addr);
}

/// A frame lays out, in order: the address length as two big-endian
/// bytes, the address bytes, the payload length as two big-endian bytes,
/// and the payload; nothing else. (Lengths of 65536 or more wrap.)
pub proof fn lemma_tl_udp_frame_layout(addr: Seq<u8>, data: Seq<u8>)
    ensures
        ({
            let f = tl_udp_frame(addr, data);
            let k = addr.len() as int;
            &&& f.len() == 4 + addr.len() + data.len()
            &&& addr.len() <= 0xffff ==> f[0] * 256 + f[1] == addr.len()
            &&& f.subrange(2, 2 + k) == addr
            &&& data.len() <= 0xffff ==> f[2 + k] * 256 + f[3 + k] == data.len()
            &&& f.subrange(4 + k, f.len() as int) == data
        }),
{
    let f = tl_udp_frame(addr, data);
    let k = addr.len() as int;
    let a = addr.len() as u16;
    let d = data.len() as u16;
    crate::wire::lemma_be16_roundtrip(a);
    crate::wire::lemma_be16_roundtrip(d);
    assert(f[0] == be16_bytes(a)[0] && f[1] == be16_bytes(a)[1]);
    assert(f[2 + k] == be16_bytes(d)[0] && f[3 + k] == be16_bytes(d)[1]);
    assert(f.subrange(2, 2 + k) =~= addr);
    assert(f.subrange(4 + k, f.len() as int) =~= data);
}

} // verus!
