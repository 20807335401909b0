use olla::addr::{Endpoint, Ipv4Address};
use olla::config::{find_primary, max_fragment_size, NodeConfig};
use olla::tunnels::errors::{
    connect_error, io_error, no_identity_error, shutdown_error, sni_error, tls_connect_error,
    TunnelError, CONNECT_ERROR, DEFAULT_ERROR_CODE, NO_IDENTITY_FOUND, NO_PEER_FOUND,
    PAYLOAD_SIZE_OVERFLOW, SNI_PARSING_ERROR, TLS_CONNECT_ERROR,
};
use olla::tunnels::header::{decode, HeaderFrame};
use olla::tunnels::incoming::tls::{frame_for_peer, payload_size};
use olla::tunnels::incoming::udp::{carries_payload, received, RECV_BUFFER_SIZE};
use olla::tunnels::incoming::worker_count;
use olla::tunnels::outgoing::session::{SessionMode, SessionRules, SessionState};
use olla::tunnels::outgoing::tls::TLSTunnel;
use olla::tunnels::outgoing::udp::UDPTunnel;
use olla::tunnels::TunnelType;

fn rules(session_ttl: u64, keepalive: bool, keepwarm: bool) -> SessionRules {
    SessionRules { session_ttl, keepalive, keepwarm }
}

#[test]
fn error_codes_are_the_documented_ones() {
    assert_eq!(DEFAULT_ERROR_CODE, -1);
    assert_eq!(CONNECT_ERROR, -2);
    assert_eq!(PAYLOAD_SIZE_OVERFLOW, -3);
    assert_eq!(SNI_PARSING_ERROR, -4);
    assert_eq!(TLS_CONNECT_ERROR, -5);
    assert_eq!(NO_PEER_FOUND, -6);
}

#[test]
fn errors_carry_the_os_code_when_present() {
    match io_error("broken pipe".to_string(), Some(32)) {
        TunnelError::IO((m, c)) => assert_eq!((m.as_str(), c), ("broken pipe", 32)),
        other => panic!("{:?}", other),
    }
    match io_error("eof".to_string(), None) {
        TunnelError::IO((m, c)) => assert_eq!((m.as_str(), c), ("eof", -1)),
        other => panic!("{:?}", other),
    }
    match connect_error("refused".to_string(), Some(111)) {
        TunnelError::Connection((m, c)) => assert_eq!((m.as_str(), c), ("refused", 111)),
        other => panic!("{:?}", other),
    }
    match connect_error("dns".to_string(), None) {
        TunnelError::Connection((m, c)) => assert_eq!((m.as_str(), c), ("dns", -2)),
        other => panic!("{:?}", other),
    }
    match shutdown_error("reset".to_string(), None) {
        TunnelError::Connection((m, c)) => assert_eq!((m.as_str(), c), ("reset", -1)),
        other => panic!("{:?}", other),
    }
    match shutdown_error("reset".to_string(), Some(104)) {
        TunnelError::Connection((_, c)) => assert_eq!(c, 104),
        other => panic!("{:?}", other),
    }
    match sni_error("bad name".to_string()) {
        TunnelError::Connection((m, c)) => assert_eq!((m.as_str(), c), ("bad name", -4)),
        other => panic!("{:?}", other),
    }
    match tls_connect_error("handshake".to_string()) {
        TunnelError::Connection((m, c)) => assert_eq!((m.as_str(), c), ("handshake", -5)),
        other => panic!("{:?}", other),
    }
    let e = no_identity_error("icmp".to_string());
    assert_eq!(e.code(), NO_IDENTITY_FOUND);
    assert!(matches!(e, TunnelError::Connection(_)));
}

#[test]
fn only_strict_errors_are_fatal() {
    assert!(TunnelError::Strict(("x".to_string(), -3)).is_fatal());
    assert!(!TunnelError::IO(("x".to_string(), 5)).is_fatal());
    assert!(!TunnelError::Connection(("x".to_string(), -2)).is_fatal());
    assert_eq!(TunnelError::IO(("x".to_string(), 5)).code(), 5);
    assert_eq!(TunnelError::Strict(("x".to_string(), -3)).code(), -3);
}

#[test]
fn tunnel_type_from_words() {
    assert_eq!(TunnelType::from("tls".to_string()), TunnelType::Tls);
    assert_eq!(TunnelType::from("rtmp".to_string()), TunnelType::Rtmp);
    assert_eq!(TunnelType::from("udp".to_string()), TunnelType::Udp);
    assert_eq!(TunnelType::from("tcp".to_string()), TunnelType::Tcp);
    assert_eq!(TunnelType::from("TLS".to_string()), TunnelType::Unknown);
    assert_eq!(TunnelType::from("".to_string()), TunnelType::Unknown);
    assert_eq!(TunnelType::from("udp ".to_string()), TunnelType::Unknown);
    assert_eq!(TunnelType::from("quic".to_string()), TunnelType::Unknown);
}

#[test]
fn new_rules_have_no_mode() {
    let r = SessionRules::new();
    assert_eq!(r, rules(0, false, false));
    assert_eq!(r.mode(), SessionMode::Unset);
}

#[test]
fn keepalive_clears_ttl_and_keepwarm() {
    let r = rules(5000, false, true).set_keepalive(true);
    assert_eq!(r, rules(0, true, false));
    assert_eq!(r.mode(), SessionMode::Permanent);
    let off = rules(5000, false, true).set_keepalive(false);
    assert_eq!(off, rules(5000, false, true));
    assert_eq!(rules(0, true, false).set_keepalive(false), rules(0, false, false));
}

#[test]
fn nonzero_ttl_clears_keepalive() {
    let r = rules(0, true, false).set_session_ttl(10_000);
    assert_eq!(r, rules(10_000, false, false));
    assert_eq!(r.mode(), SessionMode::Fixed);
    assert_eq!(rules(0, true, false).set_session_ttl(0), rules(0, true, false));
    assert_eq!(rules(7, false, true).set_session_ttl(0), rules(0, false, true));
}

#[test]
fn keepwarm_clears_keepalive() {
    let r = rules(0, true, false).set_keepwarm(true);
    assert_eq!(r, rules(0, false, true));
    assert_eq!(r.mode(), SessionMode::Sliding);
    assert_eq!(rules(0, true, false).set_keepwarm(false), rules(0, true, false));
    let sliding = SessionRules::new().set_session_ttl(10_000).set_keepwarm(true);
    assert_eq!(sliding, rules(10_000, false, true));
    assert_eq!(sliding.mode(), SessionMode::Sliding);
}

#[test]
fn at_most_one_mode_after_any_three_setters() {
    for ttl in [0u64, 1, 10_000] {
        for ka in [false, true] {
            for kw in [false, true] {
                for order in 0..6 {
                    let r = SessionRules::new();
                    let r = match order {
                        0 => r.set_session_ttl(ttl).set_keepalive(ka).set_keepwarm(kw),
                        1 => r.set_session_ttl(ttl).set_keepwarm(kw).set_keepalive(ka),
                        2 => r.set_keepalive(ka).set_session_ttl(ttl).set_keepwarm(kw),
                        3 => r.set_keepalive(ka).set_keepwarm(kw).set_session_ttl(ttl),
                        4 => r.set_keepwarm(kw).set_session_ttl(ttl).set_keepalive(ka),
                        _ => r.set_keepwarm(kw).set_keepalive(ka).set_session_ttl(ttl),
                    };
                    if r.keepalive {
                        assert!(!r.keepwarm);
                        assert_eq!(r.session_ttl, 0);
                    }
                }
            }
        }
    }
}

#[test]
fn cold_session_needs_connect() {
    let s = SessionState::new();
    assert!(!s.connected);
    assert_eq!(s.expired_at, None);
    assert!(s.needs_connect(0));
    assert!(s.needs_connect(u64::MAX));
    assert!(!s.is_expired(u64::MAX));
}

#[test]
fn fixed_expiry_is_frozen_at_connect() {
    let r = SessionRules::new().set_session_ttl(1000);
    let s = SessionState::new().connected_at(&r, 50_000);
    assert_eq!(s, SessionState { connected: true, expired_at: Some(51_000) });
    let s = s.sent_at(&r, 50_900);
    assert_eq!(s.expired_at, Some(51_000));
    assert!(!s.needs_connect(50_999));
    assert!(s.needs_connect(51_000));
    assert!(s.needs_connect(60_000));
    let again = s.connected_at(&r, 60_000);
    assert_eq!(again.expired_at, Some(61_000));
    assert!(!again.needs_connect(60_500));
}

#[test]
fn sliding_expiry_moves_with_every_send() {
    let r = SessionRules::new().set_session_ttl(1000).set_keepwarm(true);
    let s = SessionState::new().connected_at(&r, 50_000);
    assert_eq!(s.expired_at, Some(51_000));
    let s = s.sent_at(&r, 50_900);
    assert_eq!(s, SessionState { connected: true, expired_at: Some(51_900) });
    assert!(!s.needs_connect(51_000));
    assert!(s.needs_connect(51_900));
}

#[test]
fn permanent_session_records_no_expiry() {
    let r = SessionRules::new().set_keepalive(true);
    let s = SessionState::new().connected_at(&r, 50_000).sent_at(&r, 60_000);
    assert_eq!(s, SessionState { connected: true, expired_at: None });
    assert!(!s.needs_connect(u64::MAX));
    assert_eq!(s.closed(), SessionState::new());
}

#[test]
fn udp_tunnel_builder() {
    let node = Endpoint::v4(Ipv4Address::new(198, 51, 100, 1), 4242);
    let primary = Endpoint::v4(Ipv4Address::new(10, 0, 0, 5), 4242);
    let t = UDPTunnel::new();
    assert_eq!(t, UDPTunnel::default());
    assert_eq!(t.addr, None);
    assert_eq!(t.primary_node, None);
    assert_eq!(t.rules, rules(0, false, false));
    let t = t.set_addr(node).set_primary_node(primary).set_session_ttl(3000).set_keepwarm(true);
    assert_eq!(t.addr, Some(node));
    assert_eq!(t.primary_node, Some(primary));
    assert_eq!(t.rules, rules(3000, false, true));
    let t = t.set_keepalive(true);
    assert_eq!(t.rules, rules(0, true, false));
    assert_eq!(t.addr, Some(node));
    let t = t.set_session_ttl(1);
    assert_eq!(t.rules, rules(1, false, false));
    let t = t.set_keepalive(true).set_keepwarm(true);
    assert_eq!(t.rules, rules(0, false, true));
}

#[test]
fn udp_tunnel_for_a_configured_node() {
    let node = Endpoint::v4(Ipv4Address::new(198, 51, 100, 1), 4242);
    let primary = Endpoint::v4(Ipv4Address::new(10, 0, 0, 5), 4242);
    let t = UDPTunnel::for_node(node, None, Some(primary));
    assert_eq!(t, UDPTunnel::new().set_addr(node).set_primary_node(primary));
    let t = UDPTunnel::for_node(node, Some(0), None);
    assert_eq!(t, UDPTunnel::new().set_addr(node));
    let t = UDPTunnel::for_node(node, Some(30), None);
    assert_eq!(t.rules, rules(0, true, false));
    assert_eq!(t.addr, Some(node));
    assert_eq!(t.primary_node, None);
    assert_eq!(t.session, SessionState::new());
}

#[test]
fn udp_tunnel_send_cycle() {
    let primary = Endpoint::v4(Ipv4Address::new(10, 0, 0, 5), 4242);
    let mut t = UDPTunnel::new().set_primary_node(primary).set_session_ttl(500);
    assert!(t.needs_connect(1000));
    t.connected(1000);
    assert!(!t.needs_connect(1000));
    let frame = t.frame(&[0xDE, 0xAD, 0xBE, 0xEF]).unwrap();
    assert_eq!(
        &frame[..],
        &[0, 0, 0, 20, 10, 0, 0, 5, 0x10, 0x92, 0, 0, 0, 0, 0, 0, 0xDE, 0xAD, 0xBE, 0xEF]
    );
    t.sent(1400);
    assert_eq!(t.session.expired_at, Some(1500));
    assert!(!t.needs_connect(1499));
    assert!(t.needs_connect(1500));
    t.connected(1500);
    assert_eq!(t.session.expired_at, Some(2000));
    t.lost();
    assert_eq!(t.session, SessionState::new());
    assert!(t.needs_connect(1501));
    assert_eq!(t.primary_node, Some(primary));
    assert_eq!(t.frame(&vec![0u8; 1008]).unwrap_err().code(), -3);
}

#[test]
fn tls_tunnel_builder_and_shutdown() {
    let node = Endpoint::v4(Ipv4Address::new(198, 51, 100, 1), 443);
    let t = TLSTunnel::new();
    assert!(!t.is_configured());
    assert!(!t.prevent_tot);
    let mut t = t
        .set_addr(node)
        .set_session_ttl(10_000)
        .set_keepwarm(true)
        .set_prevent_tot(false)
        .set_ca("ca.pem".to_string())
        .set_sni("relay.example".to_string());
    assert!(t.is_configured());
    assert_eq!(t.addr, Some(node));
    assert_eq!(t.ca.as_deref(), Some("ca.pem"));
    assert_eq!(t.sni.as_deref(), Some("relay.example"));
    assert_eq!(t.rules, rules(10_000, false, true));
    assert!(!t.shutdown());
    assert!(t.needs_connect(5));
    t.connected(5);
    assert_eq!(t.session.expired_at, Some(10_005));
    t.sent(100);
    assert_eq!(t.session.expired_at, Some(10_100));
    let frame = t.frame(b"x").unwrap();
    assert_eq!(&frame[..], &[0, 0, 0, 17, 0, 0, 0, 0, 0, 0, 0, 0, 0, 0, 0, 0, b'x']);
    assert!(t.shutdown());
    assert_eq!(t.session, SessionState::new());
    assert!(!t.shutdown());
    assert_eq!(t.sni.as_deref(), Some("relay.example"));
    let d = TLSTunnel::default();
    assert!(d.addr.is_none() && d.ca.is_none() && d.sni.is_none() && d.primary_node.is_none());
    assert_eq!(d.rules, rules(0, false, false));
    let k = d.set_prevent_tot(true).set_keepwarm(true).set_keepalive(true);
    assert!(k.prevent_tot);
    assert_eq!(k.rules, rules(0, true, false));
}

#[test]
fn payload_size_is_frame_size_less_header() {
    let f = |frame_size| HeaderFrame {
        frame_size,
        primary_node_ip: Ipv4Address::unspecified(),
        primary_node_port: 0,
    };
    assert_eq!(payload_size(&f(20)), Some(4));
    assert_eq!(payload_size(&f(16)), Some(0));
    assert_eq!(payload_size(&f(1023)), Some(1007));
    assert_eq!(payload_size(&f(15)), None);
    assert_eq!(payload_size(&f(0)), None);
    assert_eq!(payload_size(&f(1024)), None);
    assert_eq!(payload_size(&f(u32::MAX)), None);
}

#[test]
fn write_to_a_missing_peer_is_nothing() {
    assert!(matches!(frame_for_peer(false, b"abc"), Ok(None)));
    assert!(matches!(frame_for_peer(false, &vec![0u8; 4000]), Ok(None)));
    let frame = frame_for_peer(true, b"abc").unwrap().unwrap();
    assert_eq!(&frame[..], &[0, 0, 0, 19, 0, 0, 0, 0, 0, 0, 0, 0, 0, 0, 0, 0, b'a', b'b', b'c']);
    assert_eq!(payload_size(&decode(frame[..16].try_into().unwrap())), Some(3));
    assert_eq!(frame_for_peer(true, &vec![0u8; 1008]).unwrap_err().code(), -3);
}

#[test]
fn worker_count_is_at_least_one() {
    assert_eq!(worker_count(None), 1);
    assert_eq!(worker_count(Some(0)), 1);
    assert_eq!(worker_count(Some(1)), 1);
    assert_eq!(worker_count(Some(8)), 8);
}

#[test]
fn received_datagram_is_the_filled_part() {
    let mut buffer = vec![0u8; RECV_BUFFER_SIZE];
    buffer[0] = 1;
    buffer[16] = 2;
    assert_eq!(RECV_BUFFER_SIZE, 1500);
    assert_eq!(received(&buffer, 17), &buffer[..17]);
    assert!(received(&buffer, 0).is_empty());
    assert_eq!(received(&buffer, 1500).len(), 1500);
    assert!(carries_payload(received(&buffer, 17)));
    assert!(!carries_payload(received(&buffer, 16)));
}

fn node_config(id: &str, primary: Option<bool>) -> NodeConfig {
    NodeConfig {
        id: id.to_string(),
        addr: "198.51.100.1:4242".to_string(),
        tunnel: "udp".to_string(),
        keepalive: None,
        primary,
        ca: None,
        sni: None,
    }
}

#[test]
fn primary_is_the_first_node_marked() {
    assert_eq!(find_primary(&vec![]), None);
    let nodes = vec![
        node_config("a", None),
        node_config("b", Some(false)),
        node_config("c", Some(true)),
        node_config("d", Some(true)),
    ];
    assert_eq!(find_primary(&nodes), Some(2));
    assert_eq!(find_primary(&nodes[..2].to_vec()), None);
}

#[test]
fn fragment_size_is_mtu_plus_header() {
    assert_eq!(max_fragment_size(1500), 1516);
    assert_eq!(max_fragment_size(0), 16);
    assert_eq!(max_fragment_size(u16::MAX), 65551);
}
