use bytes::BytesMut;
use ss::codec::packet::{PACKET_CLOSE, PACKET_CONNECT, PACKET_DATA};
use ss::codec::{Addr, Command, MethodType, Packet, RepCode, Target};
use ss::codec::{ADDR_DOMAIN, ADDR_IPV4, ADDR_IPV6};
use ss::error::ProxyError;
use std::convert::TryFrom;
use tokio_tungstenite::tungstenite::Message;

fn v6_octets() -> [u8; 16] {
    [0x20, 0x01, 0x0d, 0xb8, 0, 0, 0, 0, 0, 0, 0, 0, 0, 0, 0, 0x01]
}

#[test]
fn constants_are_the_wire_values() {
    assert_eq!((ADDR_IPV4, ADDR_DOMAIN, ADDR_IPV6), (1, 3, 4));
    assert_eq!((PACKET_CONNECT, PACKET_DATA, PACKET_CLOSE), (1, 2, 3));
}

#[test]
fn method_type_from_byte() {
    assert_eq!(MethodType::try_from(0u8).unwrap(), MethodType::NoAuth);
    assert_eq!(MethodType::try_from(2u8).unwrap(), MethodType::UserPass);
    assert!(matches!(MethodType::try_from(1u8), Err(ProxyError::UnsupportedMethodType)));
    assert!(matches!(MethodType::try_from(255u8), Err(ProxyError::UnsupportedMethodType)));
}

#[test]
fn command_from_and_to_byte() {
    assert_eq!(Command::try_from(1u8).unwrap(), Command::Connect);
    assert_eq!(Command::try_from(2u8).unwrap(), Command::Bind);
    assert_eq!(Command::try_from(3u8).unwrap(), Command::Udp);
    assert!(matches!(Command::try_from(0u8), Err(ProxyError::UnsupportedCommand)));
    assert!(matches!(Command::try_from(4u8), Err(ProxyError::UnsupportedCommand)));
    assert_eq!(u8::from(Command::Connect), 1);
    assert_eq!(u8::from(Command::Bind), 2);
    assert_eq!(u8::from(Command::Udp), 3);
}

#[test]
fn rep_code_from_and_to_byte() {
    let codes = [
        RepCode::Success,
        RepCode::ConnectError,
        RepCode::DisallowConnection,
        RepCode::NetworkUnreachable,
        RepCode::HostUnreachable,
        RepCode::ConnectionRefused,
        RepCode::TTLTimeout,
        RepCode::UnsupportedCommand,
        RepCode::UnsupportedAddrType,
    ];
    for (byte, code) in codes.iter().enumerate() {
        assert_eq!(u8::from(*code), byte as u8);
        assert_eq!(RepCode::try_from(byte as u8).unwrap(), *code);
    }
    assert_eq!(u8::from(RepCode::Undefined), 9);
    assert!(matches!(RepCode::try_from(9u8), Err(ProxyError::InvalidRepCode)));
    assert!(matches!(RepCode::try_from(200u8), Err(ProxyError::InvalidRepCode)));
}

#[test]
fn socks5_form_of_ipv4() {
    let addr = Addr::IpV4(([127, 0, 0, 1], 80));
    assert_eq!(addr.encode(), vec![0x01, 0x7f, 0x00, 0x00, 0x01, 0x00, 0x50]);
}

#[test]
fn socks5_form_of_domain() {
    let addr = Addr::Domain(("example.com".to_string(), 443));
    let mut expected = vec![0x03, 11];
    expected.extend_from_slice(b"example.com");
    expected.extend_from_slice(&[0x01, 0xbb]);
    assert_eq!(addr.encode(), expected);
}

#[test]
fn socks5_form_of_ipv6() {
    let addr = Addr::IpV6((v6_octets(), 0x1234));
    let mut expected = vec![0x04];
    expected.extend_from_slice(&v6_octets());
    expected.extend_from_slice(&[0x12, 0x34]);
    assert_eq!(addr.encode(), expected);
}

#[test]
fn socks5_form_round_trips() {
    let addrs = vec![
        Addr::IpV4(([10, 1, 2, 3], 65535)),
        Addr::Domain(("example.com".to_string(), 443)),
        Addr::Domain((String::new(), 0)),
        Addr::Domain(("bücher.example".to_string(), 8080)),
        Addr::Domain(("a".repeat(255), 1)),
        Addr::IpV6((v6_octets(), 256)),
    ];
    for addr in addrs {
        assert!(addr.is_wf());
        let bytes = addr.encode();
        let (back, used) = Addr::decode(&bytes).unwrap().unwrap();
        assert_eq!(back, addr);
        assert_eq!(used, bytes.len());
    }
}

#[test]
fn socks5_decode_leaves_what_follows() {
    let bytes = [0x01, 1, 2, 3, 4, 0x1f, 0x90, 0xaa, 0xbb];
    let (addr, used) = Addr::decode(&bytes).unwrap().unwrap();
    assert_eq!(addr, Addr::IpV4(([1, 2, 3, 4], 8080)));
    assert_eq!(used, 7);
}

#[test]
fn socks5_decode_asks_for_more() {
    let whole = Addr::Domain(("example.com".to_string(), 443)).encode();
    for cut in 0..whole.len() {
        assert_eq!(Addr::decode(&whole[..cut]).unwrap(), None);
        assert!(Addr::missing(&whole[..cut]) > 0);
    }
    assert_eq!(Addr::missing(&whole), 0);
}

#[test]
fn missing_counts_the_next_read() {
    assert_eq!(Addr::missing(&[]), 1);
    assert_eq!(Addr::missing(&[1]), 6);
    assert_eq!(Addr::missing(&[4]), 18);
    assert_eq!(Addr::missing(&[3]), 1);
    assert_eq!(Addr::missing(&[3, 11]), 13);
    assert_eq!(Addr::missing(&[3, 0]), 2);
    assert_eq!(Addr::missing(&[9]), 0);
    assert_eq!(Addr::missing(&[1, 1, 2, 3, 4, 0, 80]), 0);
}

#[test]
fn socks5_decode_refuses_unknown_type() {
    assert!(matches!(Addr::decode(&[0x02, 1, 2, 3]), Err(ProxyError::UnsupportedAddrType)));
    assert!(matches!(Addr::decode(&[0x00]), Err(ProxyError::UnsupportedAddrType)));
}

#[test]
fn socks5_decode_refuses_bad_utf8() {
    let bytes = [0x03, 2, 0xff, 0xfe, 0x00, 0x50];
    match Addr::decode(&bytes) {
        Err(ProxyError::Unknown(detail)) => assert_eq!(detail, "domain name is not valid utf-8"),
        other => panic!("unexpected {:?}", other),
    }
}

#[test]
fn long_domain_is_not_wf() {
    assert!(!Addr::Domain(("a".repeat(256), 1)).is_wf());
    assert!(Addr::IpV4(([0, 0, 0, 0], 0)).is_wf());
}

#[test]
fn tunnel_form_into_bytes_mut() {
    let mut buf = BytesMut::new();
    Addr::IpV4(([127, 0, 0, 1], 80)).to_bytes(&mut buf);
    assert_eq!(&buf[..], &[0x01, 0x50, 0x00, 0x7f, 0x00, 0x00, 0x01]);

    let mut buf = BytesMut::new();
    buf.extend_from_slice(&[0xee]);
    Addr::Domain(("example.com".to_string(), 443)).to_bytes(&mut buf);
    let mut expected = vec![0xee, 0x03, 0xbb, 0x01];
    expected.extend_from_slice(b"example.com");
    assert_eq!(&buf[..], &expected[..]);

    let mut buf = BytesMut::new();
    Addr::IpV6((v6_octets(), 0x0102)).to_bytes(&mut buf);
    let mut expected = vec![0x04, 0x02, 0x01];
    expected.extend_from_slice(&v6_octets());
    assert_eq!(&buf[..], &expected[..]);
}

#[test]
fn tunnel_form_round_trips() {
    let addrs = vec![
        Addr::IpV4(([192, 168, 0, 1], 0x1234)),
        Addr::Domain(("example.com".to_string(), 443)),
        Addr::Domain((String::new(), 7)),
        Addr::Domain(("x".repeat(300), 7)),
        Addr::IpV6((v6_octets(), 53)),
    ];
    for addr in addrs {
        let mut buf = BytesMut::new();
        addr.to_bytes(&mut buf);
        assert_eq!(Addr::from_bytes(&buf[..]).unwrap(), addr);
    }
}

#[test]
fn tunnel_port_is_little_endian() {
    let addr = Addr::from_bytes(&[0x01, 0x50, 0x00, 1, 2, 3, 4]).unwrap();
    assert_eq!(addr, Addr::IpV4(([1, 2, 3, 4], 80)));
    let addr = Addr::from_bytes(&[0x01, 0x00, 0x50, 1, 2, 3, 4]).unwrap();
    assert_eq!(addr, Addr::IpV4(([1, 2, 3, 4], 0x5000)));
}

#[test]
fn tunnel_form_failures() {
    assert!(matches!(Addr::from_bytes(&[]), Err(ProxyError::Disconnect(_))));
    assert!(matches!(Addr::from_bytes(&[0x01]), Err(ProxyError::Disconnect(_))));
    assert!(matches!(Addr::from_bytes(&[0x09, 0x50]), Err(ProxyError::Disconnect(_))));
    assert!(matches!(Addr::from_bytes(&[0x09, 0x50, 0x00]), Err(ProxyError::UnsupportedAddrType)));
    match Addr::from_bytes(&[0x01, 0x50, 0x00, 1, 2, 3]) {
        Err(ProxyError::Unknown(detail)) => assert_eq!(detail, "address has the wrong length"),
        other => panic!("unexpected {:?}", other),
    }
    assert!(matches!(
        Addr::from_bytes(&[0x01, 0x50, 0x00, 1, 2, 3, 4, 5]),
        Err(ProxyError::Unknown(_))
    ));
    assert!(matches!(Addr::from_bytes(&[0x04, 0x50, 0x00, 1, 2, 3, 4]), Err(ProxyError::Unknown(_))));
}

#[test]
fn tunnel_domain_is_read_leniently() {
    let addr = Addr::from_bytes(&[0x03, 0x01, 0x00, b'a', 0xff, b'b']).unwrap();
    assert_eq!(addr, Addr::Domain(("a\u{fffd}b".to_string(), 1)));
}

#[test]
fn targets() {
    assert_eq!(Addr::IpV4(([1, 2, 3, 4], 5)).target(), Target::V4([1, 2, 3, 4], 5));
    assert_eq!(
        Addr::Domain(("example.com".to_string(), 443)).target(),
        Target::Lookup("example.com".to_string(), 443)
    );
    assert_eq!(
        Addr::IpV6((v6_octets(), 9)).target(),
        Target::V6([0x2001, 0x0db8, 0, 0, 0, 0, 0, 0x0001], 9)
    );
    let mut octets = [0u8; 16];
    for (i, o) in octets.iter_mut().enumerate() {
        *o = (i as u8) * 16 + 1;
    }
    assert_eq!(
        Addr::IpV6((octets, 0)).target(),
        Target::V6([0x0111, 0x2131, 0x4151, 0x6171, 0x8191, 0xa1b1, 0xc1d1, 0xe1f1], 0)
    );
}

#[test]
fn connect_packet_for_ipv4() {
    let msg = Packet::Connect(Addr::IpV4(([127, 0, 0, 1], 80))).to_message().unwrap();
    assert!(msg.is_binary());
    assert_eq!(msg.into_data(), vec![0x01, 0x01, 0x50, 0x00, 0x7f, 0x00, 0x00, 0x01]);
}

#[test]
fn connect_packet_for_domain() {
    let msg = Packet::Connect(Addr::Domain(("example.com".to_string(), 443))).to_message().unwrap();
    assert_eq!(
        msg.into_data(),
        vec![
            0x01, 0x03, 0xbb, 0x01, 0x65, 0x78, 0x61, 0x6d, 0x70, 0x6c, 0x65, 0x2e, 0x63, 0x6f,
            0x6d
        ]
    );
}

#[test]
fn connect_packet_for_ipv6() {
    let msg = Packet::Connect(Addr::IpV6((v6_octets(), 0x0102))).to_message().unwrap();
    let data = msg.into_data();
    assert_eq!(data.len(), 20);
    assert_eq!(&data[..4], &[0x01, 0x04, 0x02, 0x01]);
    assert_eq!(&data[4..], &v6_octets());
}

#[test]
fn data_and_close_packets() {
    let msg = Packet::Data(vec![0xaa, 0xbb, 0xcc]).to_message().unwrap();
    assert_eq!(msg, Message::Binary(vec![0x02, 0xaa, 0xbb, 0xcc]));
    let msg = Packet::Data(Vec::new()).to_message().unwrap();
    assert_eq!(msg, Message::Binary(vec![0x02]));
    let msg = Packet::Close().to_message().unwrap();
    assert_eq!(msg, Message::Binary(vec![0x03]));
}

#[test]
fn packets_round_trip() {
    let packets = vec![
        Packet::Connect(Addr::IpV4(([8, 8, 4, 4], 53))),
        Packet::Connect(Addr::Domain(("example.com".to_string(), 443))),
        Packet::Connect(Addr::Domain(("y".repeat(1000), 1))),
        Packet::Connect(Addr::IpV6((v6_octets(), 65535))),
        Packet::Data(Vec::new()),
        Packet::Data(vec![1, 2, 3]),
        Packet::Data(vec![0x03]),
        Packet::Close(),
    ];
    for packet in packets {
        let copy = Packet::from_bytes(&packet_bytes(&packet)).unwrap();
        assert_eq!(copy, packet);
        let msg = packet.to_message().unwrap();
        assert_eq!(Packet::to_packet(msg).unwrap(), copy);
    }
}

fn packet_bytes(packet: &Packet) -> Vec<u8> {
    match packet {
        Packet::Connect(addr) => {
            let mut buf = BytesMut::new();
            addr.to_bytes(&mut buf);
            let mut out = vec![0x01];
            out.extend_from_slice(&buf[..]);
            out
        }
        Packet::Data(data) => {
            let mut out = vec![0x02];
            out.extend_from_slice(data);
            out
        }
        Packet::Close() => vec![0x03],
    }
}

#[test]
fn text_message_is_no_packet() {
    let msg = Message::text("hello");
    assert!(matches!(Packet::to_packet(msg), Err(ProxyError::PacketNotBinaryMessage)));
    let msg = Message::Ping(vec![0x03]);
    assert!(matches!(Packet::to_packet(msg), Err(ProxyError::PacketNotBinaryMessage)));
    let msg = Message::Close(None);
    assert!(matches!(Packet::to_packet(msg), Err(ProxyError::PacketNotBinaryMessage)));
}

#[test]
fn malformed_payloads() {
    assert!(matches!(Packet::from_bytes(&[]), Err(ProxyError::Disconnect(_))));
    assert!(matches!(Packet::from_bytes(&[0x00]), Err(ProxyError::InvalidPacketType)));
    assert!(matches!(Packet::from_bytes(&[0x04, 1, 2]), Err(ProxyError::InvalidPacketType)));
    assert!(matches!(Packet::from_bytes(&[0x01]), Err(ProxyError::Disconnect(_))));
    assert!(matches!(Packet::from_bytes(&[0x01, 0x01, 0x50]), Err(ProxyError::Disconnect(_))));
    assert!(matches!(
        Packet::from_bytes(&[0x01, 0x07, 0x50, 0x00]),
        Err(ProxyError::UnsupportedAddrType)
    ));
    assert!(matches!(
        Packet::from_bytes(&[0x01, 0x01, 0x50, 0x00, 1, 2]),
        Err(ProxyError::Unknown(_))
    ));
    assert!(matches!(
        Packet::to_packet(Message::Binary(Vec::new())),
        Err(ProxyError::Disconnect(_))
    ));
}

#[test]
fn close_ignores_what_follows_the_tag() {
    assert_eq!(Packet::from_bytes(&[0x03, 9, 9]).unwrap(), Packet::Close());
}
