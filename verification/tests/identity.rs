use olla::device::packet::{from_ip_payload, to_ipv4, to_ipv6, to_tcp, to_udp, IpVersion};
use olla::device::util::{get_destination_identity, get_source_identity};
use olla::addr::Ipv4Address;

fn ipv4(proto: u8, src: [u8; 4], dst: [u8; 4], transport: &[u8]) -> Vec<u8> {
    let total = (20 + transport.len()) as u16;
    let mut p = vec![0x45, 0x00, (total >> 8) as u8, total as u8, 0, 0, 0x40, 0, 64, proto, 0, 0];
    p.extend_from_slice(&src);
    p.extend_from_slice(&dst);
    p.extend_from_slice(transport);
    p
}

fn tcp(src: u16, dst: u16) -> Vec<u8> {
    let mut t = vec![(src >> 8) as u8, src as u8, (dst >> 8) as u8, dst as u8];
    t.extend_from_slice(&[0, 0, 0, 1, 0, 0, 0, 0, 0x50, 0x02, 0xFF, 0xFF, 0, 0, 0, 0]);
    t
}

fn udp(src: u16, dst: u16, data: &[u8]) -> Vec<u8> {
    let len = (8 + data.len()) as u16;
    let mut u = vec![
        (src >> 8) as u8, src as u8, (dst >> 8) as u8, dst as u8, (len >> 8) as u8, len as u8, 0, 0,
    ];
    u.extend_from_slice(data);
    u
}

fn ipv6(next: u8, src: [u8; 16], dst: [u8; 16], transport: &[u8]) -> Vec<u8> {
    let len = transport.len() as u16;
    let mut p = vec![0x60, 0, 0, 0, (len >> 8) as u8, len as u8, next, 64];
    p.extend_from_slice(&src);
    p.extend_from_slice(&dst);
    p.extend_from_slice(transport);
    p
}

#[test]
fn identity_of_minimal_tcp_ipv4() {
    let p = ipv4(6, [192, 168, 1, 10], [8, 8, 8, 8], &tcp(55000, 443));
    assert_eq!(p.len(), 40);
    assert_eq!(get_source_identity(&p), Some("192.168.1.10:55000".to_string()));
    assert_eq!(get_destination_identity(&p), Some("8.8.8.8:443".to_string()));
}

#[test]
fn identity_of_udp_ipv4() {
    let p = ipv4(17, [10, 0, 0, 1], [255, 255, 255, 255], &udp(53, 0, b"hi"));
    assert_eq!(get_source_identity(&p), Some("10.0.0.1:53".to_string()));
    assert_eq!(get_destination_identity(&p), Some("255.255.255.255:0".to_string()));
}

#[test]
fn identity_text_has_no_leading_zeros() {
    let p = ipv4(6, [0, 7, 100, 9], [1, 10, 101, 200], &tcp(65535, 1));
    assert_eq!(get_source_identity(&p), Some("0.7.100.9:65535".to_string()));
    assert_eq!(get_destination_identity(&p), Some("1.10.101.200:1".to_string()));
    let q = ipv4(6, [0, 0, 0, 0], [99, 9, 19, 109], &tcp(10, 10000));
    assert_eq!(get_source_identity(&q), Some("0.0.0.0:10".to_string()));
    assert_eq!(get_destination_identity(&q), Some("99.9.19.109:10000".to_string()));
}

#[test]
fn icmp_echo_request_has_no_identity() {
    let echo = [8u8, 0, 0xF7, 0xFF, 0, 1, 0, 1];
    let p = ipv4(1, [192, 168, 1, 10], [8, 8, 8, 8], &echo);
    assert_eq!(get_source_identity(&p), None);
    assert_eq!(get_destination_identity(&p), None);
}

#[test]
fn icmpv6_has_no_identity() {
    let mut src = [0u8; 16];
    src[15] = 1;
    let p = ipv6(58, src, src, &[128, 0, 0, 0, 0, 1, 0, 1, 0, 0, 0, 0, 0, 0, 0, 0, 0, 0, 0, 0, 0, 0]);
    assert_eq!(get_source_identity(&p), None);
    assert_eq!(get_destination_identity(&p), None);
}

#[test]
fn other_protocols_have_no_identity() {
    for proto in [0u8, 2, 41, 47, 50, 132, 255] {
        let p = ipv4(proto, [1, 1, 1, 1], [2, 2, 2, 2], &tcp(1, 2));
        assert_eq!(get_source_identity(&p), None);
        assert_eq!(get_destination_identity(&p), None);
    }
}

#[test]
fn identity_of_tcp_ipv6() {
    let src = [0x20, 0x01, 0x0d, 0xb8, 0, 0, 0, 0, 0, 0, 0, 0, 0, 0, 0, 1];
    let dst = [0xfe, 0x80, 0, 0, 0, 0, 0, 0, 0x02, 0x11, 0x22, 0xff, 0xfe, 0x33, 0x44, 0x55];
    let p = ipv6(6, src, dst, &tcp(1234, 80));
    assert_eq!(get_source_identity(&p), Some("2001:db8::1:1234".to_string()));
    assert_eq!(get_destination_identity(&p), Some("fe80::211:22ff:fe33:4455:80".to_string()));
}

#[test]
fn identity_of_udp_ipv6() {
    let mut src = [0u8; 16];
    src[15] = 1;
    let dst = [0xff, 0x02, 0, 0, 0, 0, 0, 0, 0, 0, 0, 0, 0, 0, 0, 0xfb];
    let p = ipv6(17, src, dst, &udp(5353, 5353, b""));
    assert_eq!(get_source_identity(&p), Some("::1:5353".to_string()));
    assert_eq!(get_destination_identity(&p), Some("ff02::fb:5353".to_string()));
}

#[test]
fn short_buffers_have_no_identity() {
    let p = ipv4(6, [192, 168, 1, 10], [8, 8, 8, 8], &tcp(55000, 443));
    for len in 0..20 {
        assert_eq!(get_source_identity(&p[..len]), None);
        assert_eq!(get_destination_identity(&p[..len]), None);
    }
    assert_eq!(get_source_identity(&[]), None);
}

#[test]
fn cut_transport_header_has_no_identity() {
    let p = ipv4(6, [192, 168, 1, 10], [8, 8, 8, 8], &tcp(55000, 443));
    for len in 20..40 {
        assert_eq!(get_source_identity(&p[..len]), None);
        assert_eq!(get_destination_identity(&p[..len]), None);
    }
    let u = ipv4(17, [10, 0, 0, 1], [10, 0, 0, 2], &udp(1, 2, b""));
    assert_eq!(get_source_identity(&u), Some("10.0.0.1:1".to_string()));
    for len in 20..28 {
        assert_eq!(get_source_identity(&u[..len]), None);
    }
}

#[test]
fn total_length_bounds_the_transport_header() {
    let mut p = ipv4(6, [192, 168, 1, 10], [8, 8, 8, 8], &tcp(55000, 443));
    p[2] = 0;
    p[3] = 39;
    assert_eq!(get_source_identity(&p), None);
    p[3] = 40;
    assert_eq!(get_source_identity(&p), Some("192.168.1.10:55000".to_string()));
    p[3] = 20;
    assert_eq!(get_destination_identity(&p), None);
}

#[test]
fn unknown_ip_version_has_no_identity() {
    let mut p = ipv4(6, [192, 168, 1, 10], [8, 8, 8, 8], &tcp(55000, 443));
    for version in [0u8, 1, 2, 3, 5, 7, 15] {
        p[0] = (version << 4) | 5;
        assert_eq!(get_source_identity(&p), None);
        assert_eq!(get_destination_identity(&p), None);
    }
}

#[test]
fn ipv6_needs_forty_bytes() {
    let mut src = [0u8; 16];
    src[15] = 1;
    let p = ipv6(6, src, src, &tcp(1, 2));
    assert_eq!(get_source_identity(&p), Some("::1:1".to_string()));
    for len in 0..60 {
        assert_eq!(get_source_identity(&p[..len]), None);
    }
}

#[test]
fn ipv4_options_move_the_transport_header() {
    let mut p = vec![0x46, 0x00, 0, 44, 0, 0, 0x40, 0, 64, 6, 0, 0];
    p.extend_from_slice(&[172, 16, 0, 1]);
    p.extend_from_slice(&[172, 16, 0, 2]);
    p.extend_from_slice(&[1, 1, 1, 1]);
    p.extend_from_slice(&tcp(2222, 22));
    assert_eq!(get_source_identity(&p), Some("172.16.0.1:2222".to_string()));
    assert_eq!(get_destination_identity(&p), Some("172.16.0.2:22".to_string()));
}

#[test]
fn version_of_a_datagram() {
    let p = ipv4(6, [1, 2, 3, 4], [5, 6, 7, 8], &tcp(1, 2));
    assert_eq!(from_ip_payload(&p), Some(IpVersion::V4));
    let mut q = p.clone();
    q[0] = 0x60;
    assert_eq!(from_ip_payload(&q), Some(IpVersion::V6));
    q[0] = 0x50;
    assert_eq!(from_ip_payload(&q), None);
    assert_eq!(from_ip_payload(&p[..19]), None);
}

#[test]
fn ipv4_fields_are_read_from_their_bytes() {
    let p = ipv4(17, [1, 2, 3, 4], [5, 6, 7, 8], &udp(9, 10, b"abc"));
    let d = to_ipv4(&p).unwrap();
    assert_eq!(d.version, 4);
    assert_eq!(d.source, Ipv4Address::new(1, 2, 3, 4));
    assert_eq!(d.destination, Ipv4Address::new(5, 6, 7, 8));
    assert_eq!(d.next_level_protocol, 17);
    assert_eq!(d.payload, udp(9, 10, b"abc"));
    assert!(to_ipv4(&p[..19]).is_none());
    let only_header = to_ipv4(&p[..20]).unwrap();
    assert!(only_header.payload.is_empty());
}

#[test]
fn ipv4_payload_stops_at_total_length() {
    let mut p = ipv4(17, [1, 2, 3, 4], [5, 6, 7, 8], &udp(9, 10, b"abcdef"));
    p[3] = 30;
    let d = to_ipv4(&p).unwrap();
    assert_eq!(d.payload, p[20..30].to_vec());
    p[3] = 10;
    assert!(to_ipv4(&p).unwrap().payload.is_empty());
    p[3] = 200;
    assert_eq!(to_ipv4(&p).unwrap().payload, p[20..].to_vec());
    p[0] = 0x42;
    p[3] = 30;
    assert_eq!(to_ipv4(&p).unwrap().payload, p[20..].to_vec());
    p[3] = 12;
    assert_eq!(to_ipv4(&p).unwrap().payload, p[20..24].to_vec());
}

#[test]
fn ipv6_fields_are_read_from_their_bytes() {
    let src = [1u8, 2, 3, 4, 5, 6, 7, 8, 9, 10, 11, 12, 13, 14, 15, 16];
    let dst = [0xffu8; 16];
    let mut p = ipv6(6, src, dst, &tcp(1, 2));
    let d = to_ipv6(&p).unwrap();
    assert_eq!(d.version, 6);
    assert_eq!(d.source.bits, 0x0102030405060708090a0b0c0d0e0f10);
    assert_eq!(d.destination.bits, u128::MAX);
    assert_eq!(d.next_header, 6);
    assert_eq!(d.payload, tcp(1, 2));
    assert!(to_ipv6(&p[..39]).is_none());
    p[5] = 3;
    assert_eq!(to_ipv6(&p).unwrap().payload, p[40..43].to_vec());
    p[4] = 9;
    assert_eq!(to_ipv6(&p).unwrap().payload, p[40..].to_vec());
}

#[test]
fn ports_are_read_big_endian() {
    let t = to_tcp(&tcp(0x1234, 0xABCD)).unwrap();
    assert_eq!(t.source, 0x1234);
    assert_eq!(t.destination, 0xABCD);
    assert!(to_tcp(&tcp(1, 2)[..19]).is_none());
    let u = to_udp(&udp(0x0102, 0x0304, b"")).unwrap();
    assert_eq!(u.source, 0x0102);
    assert_eq!(u.destination, 0x0304);
    assert!(to_udp(&udp(1, 2, b"")[..7]).is_none());
}
