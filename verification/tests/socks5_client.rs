use tl_proxy::client::socks5_server::build_socks5_udp_datagram;
use tl_proxy::client::socks5_server::connect_success_reply;
use tl_proxy::client::socks5_server::handshake_step;
use tl_proxy::client::socks5_server::parse_socks5_udp_datagram;
use tl_proxy::client::socks5_server::parse_tl_udp_frame;
use tl_proxy::client::socks5_server::socks5_convert_domain_addr;
use tl_proxy::client::socks5_server::socks5_convert_ipv4_addr;
use tl_proxy::client::socks5_server::socks5_udp_read_buf;
use tl_proxy::client::socks5_server::udp_associate_success_reply;
use tl_proxy::client::socks5_server::ClientError;
use tl_proxy::client::socks5_server::HandshakeState;
use tl_proxy::client::socks5_server::HandshakeStep;
use tl_proxy::client::socks5_server::Socks5CmdType;
use tl_proxy::client::socks5_server::TargetIp;
use tl_proxy::client::socks5_server::UdpPeerBinding;
use tl_proxy::client::socks5_server::UdpTarget;
use tl_proxy::tl_frame::encode_tl_udp_frame;

/// Drives the handshake over `stream` from `state` the way the relay does,
/// each step taking what it awaits; returns the final step and the number
/// of bytes taken, or `None` when the stream ends first.
fn run(mut state: HandshakeState, stream: &[u8]) -> Option<(HandshakeStep, usize)> {
    let mut pos = 0;
    loop {
        let n = state.bytes_needed();
        if stream.len() < pos + n {
            return None;
        }
        let step = handshake_step(state, &stream[pos..pos + n]);
        pos += n;
        match step {
            HandshakeStep::Next(s) => state = s,
            other => return Some((other, pos)),
        }
    }
}

fn run_request(stream: &[u8]) -> Result<(Socks5CmdType, String, usize), ClientError> {
    match run(HandshakeState::RequestHeader, stream) {
        Some((HandshakeStep::Done(req), n)) => Ok((req.cmd, req.dst_addr, n)),
        Some((HandshakeStep::Fail(e), _)) => Err(e),
        _ => panic!("unexpected end of the request"),
    }
}

#[test]
fn convert_ipv4_addr_writes_dotted_quad_and_port() {
    assert_eq!(socks5_convert_ipv4_addr(&[127, 0, 0, 1, 0x1f, 0x90]), "127.0.0.1:8080");
    assert_eq!(socks5_convert_ipv4_addr(&[0, 0, 0, 0, 0, 0]), "0.0.0.0:0");
    assert_eq!(
        socks5_convert_ipv4_addr(&[255, 255, 255, 255, 0xff, 0xff, 9]),
        "255.255.255.255:65535"
    );
    assert_eq!(socks5_convert_ipv4_addr(&[10, 20, 100, 9, 0, 53]), "10.20.100.9:53");
}

#[test]
fn convert_domain_addr_writes_name_and_port() {
    assert_eq!(
        socks5_convert_domain_addr(b"example.com\x00\x50").unwrap(),
        "example.com:80"
    );
    assert_eq!(socks5_convert_domain_addr(b"\x01\xbb").unwrap(), ":443");
    assert_eq!(
        socks5_convert_domain_addr(b"b\xc3\xbccher.de\x01\x00").unwrap(),
        "b\u{fc}cher.de:256"
    );
    assert_eq!(
        socks5_convert_domain_addr(b"\xff\xfe\x00\x50"),
        Err(ClientError::DomainNotUtf8(std::str::from_utf8(b"\xff\xfe").unwrap_err()))
    );
}

#[test]
fn greeting_is_answered_with_no_authentication() {
    let greeting = [5u8, 2, 0, 1];
    match run(HandshakeState::Greeting, &greeting) {
        Some((HandshakeStep::Reply(next, reply), n)) => {
            assert_eq!(next, HandshakeState::RequestHeader);
            assert_eq!(reply, vec![5, 0]);
            assert_eq!(n, 4);
        }
        _ => panic!("greeting not answered"),
    }
    match run(HandshakeState::Greeting, &[5u8, 0]) {
        Some((HandshakeStep::Reply(_, reply), n)) => {
            assert_eq!(reply, vec![5, 0]);
            assert_eq!(n, 2);
        }
        _ => panic!("greeting without methods not answered"),
    }
}

#[test]
fn greeting_of_another_version_fails() {
    match run(HandshakeState::Greeting, &[4u8, 1, 0]) {
        Some((HandshakeStep::Fail(e), n)) => {
            assert_eq!(e, ClientError::Socks5VersionInvalid);
            assert_eq!(n, 2);
        }
        _ => panic!("greeting of version 4 accepted"),
    }
    assert!(run(HandshakeState::Greeting, &[5u8, 3, 0]).is_none());
}

#[test]
fn request_for_ipv4_target() {
    let req = [5u8, 1, 0, 1, 93, 184, 216, 34, 0, 80, 0xaa];
    assert_eq!(
        run_request(&req),
        Ok((Socks5CmdType::Connect, "93.184.216.34:80".to_string(), 10))
    );
    let req = [5u8, 3, 0, 1, 0, 0, 0, 0, 0, 0];
    assert_eq!(
        run_request(&req),
        Ok((Socks5CmdType::UdpAssociate, "0.0.0.0:0".to_string(), 10))
    );
}

#[test]
fn request_for_domain_target() {
    let mut req = vec![5u8, 1, 0, 3, 11];
    req.extend_from_slice(b"example.org");
    req.extend_from_slice(&[0x01, 0xbb]);
    assert_eq!(
        run_request(&req),
        Ok((Socks5CmdType::Connect, "example.org:443".to_string(), 18))
    );
    let req = [5u8, 1, 0, 3, 2, 0xc3, 0x28, 0, 80];
    assert_eq!(
        run_request(&req),
        Err(ClientError::DomainNotUtf8(std::str::from_utf8(&[0xc3, 0x28]).unwrap_err()))
    );
}

#[test]
fn request_errors_come_in_order() {
    assert_eq!(run_request(&[4u8, 9, 0, 9]), Err(ClientError::Socks5VersionInvalid));
    assert_eq!(run_request(&[5u8, 2, 0, 1]), Err(ClientError::Socks5CmdNotSupported));
    assert_eq!(run_request(&[5u8, 1, 0, 4]), Err(ClientError::Socks5AddrTypeNotSupported));
    assert!(run(HandshakeState::RequestHeader, &[5u8, 1, 0, 1, 1, 2, 3]).is_none());
}

#[test]
fn bytes_needed_per_state() {
    assert_eq!(HandshakeState::Greeting.bytes_needed(), 2);
    assert_eq!(HandshakeState::Methods { count: 7 }.bytes_needed(), 7);
    assert_eq!(HandshakeState::RequestHeader.bytes_needed(), 4);
    assert_eq!(HandshakeState::Ipv4Target { cmd: Socks5CmdType::Connect }.bytes_needed(), 6);
    assert_eq!(HandshakeState::DomainLength { cmd: Socks5CmdType::Connect }.bytes_needed(), 1);
    assert_eq!(
        HandshakeState::DomainTarget { cmd: Socks5CmdType::UdpAssociate, len: 255 }.bytes_needed(),
        257
    );
}

#[test]
fn read_buf_moves_the_cursor_or_fails() {
    let buf = [1u8, 2, 3, 4, 5, 6];
    let mut left = 5;
    let mut index = 1;
    assert_eq!(socks5_udp_read_buf(&buf, &mut left, &mut index, 3), Ok(&buf[1..4]));
    assert_eq!((left, index), (2, 4));
    assert_eq!(
        socks5_udp_read_buf(&buf, &mut left, &mut index, 3),
        Err(ClientError::Socks5UdpDataInvalid)
    );
    assert_eq!((left, index), (2, 4));
    assert_eq!(socks5_udp_read_buf(&buf, &mut left, &mut index, 2), Ok(&buf[4..6]));
    assert_eq!((left, index), (0, 6));
}

#[test]
fn udp_datagram_with_ipv4_target_and_payload() {
    let d = [0u8, 0, 0, 1, 8, 8, 4, 4, 0, 53, 0xde, 0xad];
    let (addr, data) = parse_socks5_udp_datagram(&d).unwrap().unwrap();
    assert_eq!(addr, "8.8.4.4:53");
    assert_eq!(data, &[0xde, 0xad]);
}

#[test]
fn udp_datagram_dropped_or_refused() {
    assert_eq!(parse_socks5_udp_datagram(&[0u8, 0, 1, 1, 8, 8, 4, 4, 0, 53, 1]), Ok(None));
    assert_eq!(parse_socks5_udp_datagram(&[0u8, 0, 0, 1, 8, 8, 4, 4, 0, 53]), Ok(None));
    assert_eq!(
        parse_socks5_udp_datagram(&[0u8, 0, 0, 3, 1, b'a', 0, 53, 1]),
        Err(ClientError::Socks5AddrTypeNotSupported)
    );
    assert_eq!(
        parse_socks5_udp_datagram(&[0u8, 0, 0]),
        Err(ClientError::Socks5UdpDataInvalid)
    );
    assert_eq!(
        parse_socks5_udp_datagram(&[0u8, 0, 0, 1, 8, 8, 4]),
        Err(ClientError::Socks5UdpDataInvalid)
    );
}

#[test]
fn tunnel_frame_reads_back_on_the_client() {
    let frame = encode_tl_udp_frame("1.2.3.4:5", &[9, 8, 7]);
    assert_eq!(frame, vec![0, 9, b'1', b'.', b'2', b'.', b'3', b'.', b'4', b':', b'5', 0, 3, 9, 8, 7]);
    let (addr, data) = parse_tl_udp_frame(&frame).unwrap();
    assert_eq!(addr, "1.2.3.4:5");
    assert_eq!(data, &[9, 8, 7]);
}

#[test]
fn tunnel_frame_errors_on_the_client() {
    assert_eq!(parse_tl_udp_frame(&[0u8]), Err(ClientError::Socks5UdpDataInvalid));
    assert_eq!(parse_tl_udp_frame(&[0u8, 3, b'a']), Err(ClientError::Socks5UdpDataInvalid));
    assert_eq!(
        parse_tl_udp_frame(&[0u8, 1, 0xff, 0, 0]),
        Err(ClientError::AddrNotUtf8(String::from_utf8(vec![0xff]).unwrap_err()))
    );
    assert_eq!(parse_tl_udp_frame(&[0u8, 1, b'a', 0]), Err(ClientError::Socks5UdpDataInvalid));
    assert_eq!(parse_tl_udp_frame(&[0u8, 1, b'a', 0, 2, 1]), Err(ClientError::Socks5UdpDataInvalid));
    let long = vec![0u8; 300];
    let mut frame = vec![0x01u8, 0x2c];
    frame.extend_from_slice(&long);
    frame.extend_from_slice(&[0, 0]);
    let (addr, data) = parse_tl_udp_frame(&frame).unwrap();
    assert_eq!(addr.len(), 300);
    assert!(data.is_empty());
}

#[test]
fn udp_reply_datagram_for_ipv4_and_ipv6() {
    let v4 = UdpTarget { ip: TargetIp::V4([192, 168, 1, 2]), port: 0x1234 };
    assert_eq!(
        build_socks5_udp_datagram(&v4, &[7, 7]),
        vec![0, 0, 0, 1, 192, 168, 1, 2, 0x12, 0x34, 7, 7]
    );
    let mut octets = [0u8; 16];
    octets[15] = 1;
    let v6 = UdpTarget { ip: TargetIp::V6(octets), port: 443 };
    let d = build_socks5_udp_datagram(&v6, &[]);
    assert_eq!(d.len(), 22);
    assert_eq!(&d[..4], &[0, 0, 0, 2]);
    assert_eq!(&d[4..20], &octets);
    assert_eq!(&d[20..], &[0x01, 0xbb]);
}

#[test]
fn udp_reply_datagram_reads_back() {
    let v4 = UdpTarget { ip: TargetIp::V4([1, 22, 133, 4]), port: 65000 };
    let d = build_socks5_udp_datagram(&v4, b"hello");
    let (addr, data) = parse_socks5_udp_datagram(&d).unwrap().unwrap();
    assert_eq!(addr, "1.22.133.4:65000");
    assert_eq!(data, b"hello");
    let empty = build_socks5_udp_datagram(&v4, &[]);
    assert_eq!(parse_socks5_udp_datagram(&empty), Ok(None));
}

#[test]
fn success_replies() {
    assert_eq!(connect_success_reply(), [5, 0, 0, 1, 0, 0, 0, 0, 0, 0]);
    assert_eq!(udp_associate_success_reply(0x1f90), [5, 0, 0, 1, 0, 0, 0, 0, 0x1f, 0x90]);
    assert_eq!(udp_associate_success_reply(1), [5, 0, 0, 1, 0, 0, 0, 0, 0, 1]);
}

#[test]
fn udp_relay_ties_itself_to_the_first_sender_only() {
    let mut binding = UdpPeerBinding::new();
    assert!(binding.needs_connect());
    binding.record_connected();
    assert!(!binding.needs_connect());
    binding.record_connected();
    assert!(!binding.needs_connect());
}
