//! How a UDP payload crosses the tunnel from one side to the other.
use vstd::prelude::*;
use vstd::utf8::*;

use crate::client::socks5_server::ipv4_addr_text;
use crate::client::socks5_server::lemma_ipv4_addr_text_short;
use crate::client::socks5_server::socks5_udp_request;
use crate::server::remote_client::lemma_server_reads_frame;
use crate::server::remote_client::remote_udp_frame;
use crate::server::remote_client::ServerErrorKind;
use crate::tl_frame::tl_udp_frame;

verus! {

/// A payload that the client takes from an application's SOCKS5 UDP
/// datagram reaches the server whole: the server reads the frame that the
/// client writes for it as the same target address text and the same
/// payload. (The payload must fit the frame's 16-bit length field.)
pub proof fn lemma_client_datagram_reaches_server(datagram: Seq<u8>, rest: Seq<u8>)
    requires
        datagram.len() <= 0xffff + 10,
    ensures
        socks5_udp_request(datagram) matches Ok(Some((addr, data))) ==> remote_udp_frame(
            tl_udp_frame(encode_utf8(addr), data) + rest,
        ) == Ok::<(Seq<char>, Seq<u8>), ServerErrorKind>((addr, data)),
{
    if let Ok(Some((addr, data))) = socks5_udp_request(datagram) {
        let target = datagram.subrange(4, 10);
        assert(addr == ipv4_addr_text(target));
        lemma_ipv4_addr_text_short(target);
        lemma_server_reads_frame(addr, data, rest);
    }
}

} // verus!
