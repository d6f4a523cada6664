use tl_proxy::client::proxy::client_copy_decision;
use tl_proxy::client::proxy::client_ctl_decision;
use tl_proxy::client::proxy::client_session_continues;
use tl_proxy::client::proxy::ClientRound;
use tl_proxy::client::socks5_server::parse_socks5_udp_datagram;
use tl_proxy::common::TlConnectionType;
use tl_proxy::relay::ReadEvent;
use tl_proxy::relay::RelayAction;
use tl_proxy::server::proxy::server_copy_decision;
use tl_proxy::server::proxy::server_session_continues;
use tl_proxy::server::proxy::ServerRound;
use tl_proxy::server::remote_client::parse_remote_udp_frame;
use tl_proxy::server::remote_client::remote_udp_read_buf;
use tl_proxy::server::remote_client::ServerError;
use tl_proxy::text::push_decimal;
use tl_proxy::tl_frame::encode_tl_udp_frame;
use tl_proxy::wire::be16_decode;
use tl_proxy::wire::be16_high;
use tl_proxy::wire::be16_low;

#[test]
fn connection_type_codes() {
    assert_eq!(TlConnectionType::Tcp.code(), 1);
    assert_eq!(TlConnectionType::Udp.code(), 2);
}

#[test]
fn big_endian_fields() {
    assert_eq!(be16_decode(0x12, 0x34), 0x1234);
    assert_eq!(be16_decode(0xff, 0xff), 0xffff);
    assert_eq!(be16_high(0xabcd), 0xab);
    assert_eq!(be16_low(0xabcd), 0xcd);
}

#[test]
fn decimal_text() {
    let mut s = String::from("n=");
    push_decimal(&mut s, 0);
    assert_eq!(s, "n=0");
    let mut s = String::new();
    push_decimal(&mut s, 4294967295);
    assert_eq!(s, "4294967295");
    let mut s = String::new();
    push_decimal(&mut s, 1000);
    assert_eq!(s, "1000");
}

#[test]
fn frame_from_client_reads_back_on_the_server() {
    let d = [0u8, 0, 0, 1, 255, 255, 255, 255, 0xff, 0xff, 1, 2, 3];
    let (addr, data) = parse_socks5_udp_datagram(&d).unwrap().unwrap();
    let frame = encode_tl_udp_frame(&addr, data);
    let (addr2, data2) = parse_remote_udp_frame(&frame).unwrap();
    assert_eq!(addr2, "255.255.255.255:65535");
    assert_eq!(data2, &[1, 2, 3]);
}

#[test]
fn frame_lengths_wrap_at_16_bits() {
    let data = vec![0u8; 65536 + 3];
    let frame = encode_tl_udp_frame("a", &data);
    assert_eq!(&frame[..5], &[0, 1, b'a', 0, 3]);
    assert_eq!(frame.len(), 5 + 65539);
}

#[test]
fn server_frame_errors() {
    assert_eq!(parse_remote_udp_frame(&[1u8]), Err(ServerError::TlUdpDataInvalid));
    assert_eq!(parse_remote_udp_frame(&[1u8, 5]), Err(ServerError::TlRequestAddrInvalid));
    let mut frame = vec![1u8, 4];
    frame.extend_from_slice(&[b'x'; 260]);
    frame.extend_from_slice(&[0, 1, 42]);
    let (addr, data) = parse_remote_udp_frame(&frame).unwrap();
    assert_eq!(addr.len(), 260);
    assert_eq!(data, &[42]);
    assert_eq!(
        parse_remote_udp_frame(&[0u8, 2, 0xc0, 0x80, 0, 0]),
        Err(ServerError::AddrNotUtf8(String::from_utf8(vec![0xc0, 0x80]).unwrap_err()))
    );
    assert_eq!(parse_remote_udp_frame(&[0u8, 2, b'a']), Err(ServerError::TlUdpDataInvalid));
    assert_eq!(parse_remote_udp_frame(&[0u8, 0, 0, 4, 1]), Err(ServerError::TlUdpDataInvalid));
}

#[test]
fn server_read_buf() {
    let buf = [9u8, 8, 7];
    let mut left = 3;
    let mut index = 0;
    assert_eq!(remote_udp_read_buf(&buf, &mut left, &mut index, 4), Err(ServerError::TlUdpDataInvalid));
    assert_eq!((left, index), (3, 0));
    assert_eq!(remote_udp_read_buf(&buf, &mut left, &mut index, 0), Ok(&buf[0..0]));
    assert_eq!(remote_udp_read_buf(&buf, &mut left, &mut index, 3), Ok(&buf[..]));
    assert_eq!((left, index), (0, 3));
}

#[test]
fn client_relay_decisions() {
    assert_eq!(client_copy_decision(ReadEvent::Read(0)), RelayAction::Stop(false));
    assert_eq!(client_copy_decision(ReadEvent::Read(12)), RelayAction::Forward(12));
    assert_eq!(client_copy_decision(ReadEvent::WouldBlock), RelayAction::Stop(true));
    assert_eq!(client_copy_decision(ReadEvent::IoError), RelayAction::Retry);
    assert_eq!(client_copy_decision(ReadEvent::OtherError), RelayAction::Fail);
    assert_eq!(client_ctl_decision(ReadEvent::Read(0)), RelayAction::Stop(false));
    assert_eq!(client_ctl_decision(ReadEvent::Read(3)), RelayAction::Discard);
    assert_eq!(client_ctl_decision(ReadEvent::WouldBlock), RelayAction::Stop(true));
    assert_eq!(client_ctl_decision(ReadEvent::IoError), RelayAction::Retry);
    assert_eq!(client_ctl_decision(ReadEvent::OtherError), RelayAction::Fail);
}

#[test]
fn server_relay_decisions() {
    assert_eq!(server_copy_decision(ReadEvent::Read(0)), RelayAction::Stop(false));
    assert_eq!(server_copy_decision(ReadEvent::Read(1)), RelayAction::Forward(1));
    assert_eq!(server_copy_decision(ReadEvent::WouldBlock), RelayAction::Stop(true));
    assert_eq!(server_copy_decision(ReadEvent::IoError), RelayAction::Fail);
    assert_eq!(server_copy_decision(ReadEvent::OtherError), RelayAction::Fail);
}


#[test]
fn sessions_end_when_an_end_closes() {
    assert!(client_session_continues(ClientRound::Tunnel(true)));
    assert!(!client_session_continues(ClientRound::Tunnel(false)));
    assert!(!client_session_continues(ClientRound::Application(false)));
    assert!(client_session_continues(ClientRound::Application(true)));
    assert!(!client_session_continues(ClientRound::Control(false)));
    assert!(client_session_continues(ClientRound::Control(true)));
    assert!(client_session_continues(ClientRound::UdpRelay));
    assert!(server_session_continues(ServerRound::Tunnel(true)));
    assert!(!server_session_continues(ServerRound::Tunnel(false)));
    assert!(!server_session_continues(ServerRound::RemoteTcp(false)));
    assert!(server_session_continues(ServerRound::RemoteTcp(true)));
    assert!(server_session_continues(ServerRound::RemoteUdp));
}
