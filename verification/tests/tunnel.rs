use boringtun::x25519::{PublicKey, StaticSecret};
use wireguard_proxy::tunnel::{
    handle_tunnel_result, network_packet, requires_more_decapsulation, tunnel_settings, TunnOutcome,
    Tunnel, TunnelAction, TUNNEL_BUFFER,
};

fn public_of(secret: [u8; 32]) -> [u8; 32] {
    PublicKey::from(&StaticSecret::from(secret)).to_bytes()
}

fn ipv4_packet() -> Vec<u8> {
    let mut p = vec![0x45, 0, 0, 28, 0, 1, 0, 0, 64, 17, 0, 0, 10, 0, 0, 1, 10, 0, 0, 2];
    p.extend_from_slice(&[1, 2, 3, 4, 5, 6, 7, 8]);
    p
}

#[test]
fn network_results_are_sent_unchanged() {
    match handle_tunnel_result(TunnOutcome::WriteToNetwork(vec![1, 2, 3])) {
        TunnelAction::SendToNetwork(p) => assert_eq!(p, vec![1, 2, 3]),
        other => panic!("unexpected {:?}", other),
    }
}

#[test]
fn ipv4_results_go_to_the_stack_unchanged() {
    match handle_tunnel_result(TunnOutcome::WriteToTunnelV4(vec![9, 8], [10, 0, 0, 1])) {
        TunnelAction::WriteToStack(p) => assert_eq!(p, vec![9, 8]),
        other => panic!("unexpected {:?}", other),
    }
}

#[test]
fn ipv6_results_go_to_the_stack_unchanged() {
    match handle_tunnel_result(TunnOutcome::WriteToTunnelV6(vec![6; 40], [0; 16])) {
        TunnelAction::WriteToStack(p) => assert_eq!(p, vec![6; 40]),
        other => panic!("unexpected {:?}", other),
    }
}

#[test]
fn errors_are_reported() {
    match handle_tunnel_result(TunnOutcome::Failed("InvalidMac".to_string())) {
        TunnelAction::ReportError(text) => assert_eq!(text, "InvalidMac"),
        other => panic!("unexpected {:?}", other),
    }
}

#[test]
fn done_asks_for_nothing() {
    assert!(matches!(handle_tunnel_result(TunnOutcome::Done), TunnelAction::Nothing));
}

#[test]
fn drain_only_after_network_results() {
    assert!(requires_more_decapsulation(&TunnOutcome::WriteToNetwork(vec![])));
    assert!(!requires_more_decapsulation(&TunnOutcome::Done));
    assert!(!requires_more_decapsulation(&TunnOutcome::WriteToTunnelV4(vec![1], [1, 2, 3, 4])));
    assert!(!requires_more_decapsulation(&TunnOutcome::Failed(String::new())));
}

#[test]
fn network_packet_takes_only_network_results() {
    assert_eq!(network_packet(TunnOutcome::WriteToNetwork(vec![4, 5])), Some(vec![4, 5]));
    assert_eq!(network_packet(TunnOutcome::WriteToTunnelV4(vec![4, 5], [0; 4])), None);
    assert_eq!(network_packet(TunnOutcome::Failed("x".to_string())), None);
    assert_eq!(network_packet(TunnOutcome::Done), None);
}

#[test]
fn tunnel_settings_are_fixed() {
    let s = tunnel_settings();
    assert_eq!(s.preshared_key, None);
    assert_eq!(s.persistent_keepalive, Some(1));
    assert_eq!(s.index, 100);
}

#[test]
fn two_tunnels_complete_a_handshake_and_carry_a_packet() {
    let secret_a = [0x11u8; 32];
    let secret_b = [0x22u8; 32];
    let mut a = Tunnel::build_tunnel(public_of(secret_b), secret_a);
    let mut b = Tunnel::build_tunnel(public_of(secret_a), secret_b);

    // Without a session, the packet is queued and a handshake starts.
    let init = match a.send_ip_packet(&ipv4_packet()) {
        TunnelAction::SendToNetwork(p) => p,
        other => panic!("unexpected {:?}", other),
    };
    assert_eq!(init.len(), 148);

    let step = b.receive_datagram(&init);
    assert!(step.drain);
    let response = match step.action {
        TunnelAction::SendToNetwork(p) => p,
        other => panic!("unexpected {:?}", other),
    };
    assert_eq!(response.len(), 92);
    assert_eq!(b.next_queued(), None);

    let step = a.receive_datagram(&response);
    assert!(step.drain);
    let keepalive = match step.action {
        TunnelAction::SendToNetwork(p) => p,
        other => panic!("unexpected {:?}", other),
    };
    assert_eq!(keepalive.len(), 32);
    let queued = a.next_queued().expect("the queued packet is sent once the session exists");
    assert_eq!(queued.len(), 28 + 32);
    assert_eq!(a.next_queued(), None);

    let step = b.receive_datagram(&keepalive);
    assert!(!step.drain);
    assert!(matches!(step.action, TunnelAction::Nothing));

    let step = b.receive_datagram(&queued);
    assert!(!step.drain);
    match step.action {
        TunnelAction::WriteToStack(p) => assert_eq!(p, ipv4_packet()),
        other => panic!("unexpected {:?}", other),
    }
}

#[test]
fn garbage_datagrams_are_reported() {
    let mut a = Tunnel::build_tunnel(public_of([3u8; 32]), [4u8; 32]);
    let step = a.receive_datagram(&[1, 2, 3]);
    assert!(!step.drain);
    assert!(matches!(step.action, TunnelAction::ReportError(_)));
}

#[test]
fn timers_send_at_most_one_buffer() {
    let mut a = Tunnel::build_tunnel(public_of([5u8; 32]), [6u8; 32]);
    if let Some(p) = a.tick_timers() {
        assert!(p.len() <= TUNNEL_BUFFER);
    }
}

#[test]
fn data_packets_grow_by_the_overhead_once_a_session_exists() {
    let secret_a = [0x31u8; 32];
    let secret_b = [0x42u8; 32];
    let mut a = Tunnel::build_tunnel(public_of(secret_b), secret_a);
    let mut b = Tunnel::build_tunnel(public_of(secret_a), secret_b);
    let init = match a.send_ip_packet(&ipv4_packet()) {
        TunnelAction::SendToNetwork(p) => p,
        other => panic!("unexpected {:?}", other),
    };
    let response = match b.receive_datagram(&init).action {
        TunnelAction::SendToNetwork(p) => p,
        other => panic!("unexpected {:?}", other),
    };
    let _ = a.receive_datagram(&response);
    while a.next_queued().is_some() {}
    match a.send_ip_packet(&ipv4_packet()) {
        TunnelAction::SendToNetwork(p) => {
            assert_eq!(p.len(), ipv4_packet().len() + 32);
            match b.receive_datagram(&p).action {
                TunnelAction::WriteToStack(q) => assert_eq!(q, ipv4_packet()),
                other => panic!("unexpected {:?}", other),
            }
        }
        other => panic!("unexpected {:?}", other),
    }
}

#[test]
fn an_oversized_data_datagram_on_a_live_session_is_reported() {
    let secret_a = [0x51u8; 32];
    let secret_b = [0x62u8; 32];
    let mut a = Tunnel::build_tunnel(public_of(secret_b), secret_a);
    let mut b = Tunnel::build_tunnel(public_of(secret_a), secret_b);
    let init = match a.send_ip_packet(&ipv4_packet()) {
        TunnelAction::SendToNetwork(p) => p,
        other => panic!("unexpected {:?}", other),
    };
    let response = match b.receive_datagram(&init).action {
        TunnelAction::SendToNetwork(p) => p,
        other => panic!("unexpected {:?}", other),
    };
    let _ = a.receive_datagram(&response);
    let queued = a.next_queued().expect("queued packet");
    // A data message to b's live session, padded far past the usual buffer.
    let mut big = queued[..16].to_vec();
    big.resize(4000, 0xAB);
    let step = b.receive_datagram(&big);
    assert!(!step.drain);
    assert!(matches!(step.action, TunnelAction::ReportError(_)));
}
