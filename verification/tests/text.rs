use olla::addr::{Endpoint, IpAddress, Ipv4Address, Ipv6Address};
use olla::text::{digit, push_decimal, push_ipv4, push_signed_decimal};
use olla::tunnels::errors::TunnelError;
use olla::wire::{read_u16_be, read_u32_be};

#[test]
fn digits_are_ascii() {
    let all: String = (0u8..10).map(digit).collect();
    assert_eq!(all, "0123456789");
}

#[test]
fn decimal_has_no_padding() {
    for (n, want) in [
        (0u32, "0"),
        (7, "7"),
        (10, "10"),
        (99, "99"),
        (100, "100"),
        (4242, "4242"),
        (65535, "65535"),
        (1_000_000, "1000000"),
        (u32::MAX, "4294967295"),
    ] {
        let mut s = String::from(">");
        push_decimal(&mut s, n);
        assert_eq!(s, format!(">{}", want));
    }
}

#[test]
fn signed_decimal_has_a_minus_sign() {
    for n in [0i32, 1, -1, -6, 32, 111, -2147483647, i32::MIN, i32::MAX] {
        let mut s = String::from("code: ");
        push_signed_decimal(&mut s, n);
        assert_eq!(s, format!("code: {}", n));
    }
}

#[test]
fn ipv4_is_dotted_decimal() {
    let mut s = String::new();
    push_ipv4(&mut s, Ipv4Address::new(192, 168, 1, 10));
    assert_eq!(s, "192.168.1.10");
    push_ipv4(&mut s, Ipv4Address::new(0, 0, 0, 0));
    assert_eq!(s, "192.168.1.100.0.0.0");
    let mut t = String::new();
    push_ipv4(&mut t, Ipv4Address::new(255, 255, 255, 255));
    assert_eq!(t, "255.255.255.255");
}

#[test]
fn errors_describe_category_message_and_code() {
    assert_eq!(
        TunnelError::IO(("broken pipe".to_string(), 32)).describe(),
        "io error: broken pipe, code: 32"
    );
    assert_eq!(
        TunnelError::Connection(("no such node".to_string(), -6)).describe(),
        "connection error: no such node, code: -6"
    );
    assert_eq!(
        TunnelError::Strict(("too large".to_string(), -3)).describe(),
        "pedantic error: too large, code: -3"
    );
    assert_eq!(TunnelError::IO((String::new(), 0)).describe(), "io error: , code: 0");
}

#[test]
fn addresses_hold_their_parts() {
    let ip = Ipv4Address::new(10, 0, 0, 5);
    assert_eq!(ip.octets(), [10, 0, 0, 5]);
    assert!(!ip.is_unspecified());
    assert!(Ipv4Address::unspecified().is_unspecified());
    assert_eq!(Ipv4Address::unspecified().octets(), [0, 0, 0, 0]);
    assert!(!Ipv4Address::new(0, 0, 0, 1).is_unspecified());
    assert!(!Ipv4Address::new(1, 0, 0, 0).is_unspecified());
    let e = Endpoint::v4(ip, 4242);
    assert_eq!(e, Endpoint::new(IpAddress::V4(ip), 4242));
    assert_ne!(e, Endpoint::v4(ip, 4243));
    assert_ne!(e, Endpoint::new(IpAddress::V6(Ipv6Address { bits: 0x0A000005 }), 4242));
}

#[test]
fn big_endian_reads() {
    let buf = [0x00, 0x12, 0x34, 0x56, 0x78, 0xFF];
    assert_eq!(read_u16_be(&buf, 0), 0x0012);
    assert_eq!(read_u16_be(&buf, 1), 0x1234);
    assert_eq!(read_u16_be(&buf, 4), 0x78FF);
    assert_eq!(read_u32_be(&buf, 0), 0x00123456);
    assert_eq!(read_u32_be(&buf, 2), 0x345678FF);
    assert_eq!(read_u32_be(&[0xFF; 4], 0), u32::MAX);
}
