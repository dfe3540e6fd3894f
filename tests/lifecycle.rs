use nysvpn::types::{Timestamp, TunnelStats, TunnelStatus, VpnConfig};
use nysvpn::vpn::{
    begin_connect, connect, disconnect, finish_connect, get_stats, get_status, update_stats,
    TunnelState, VpnError,
};

fn config(server: &str) -> VpnConfig {
    VpnConfig {
        server_addr: server.to_string(),
        server_public_key: "c2VydmVyLXB1YmxpYy1rZXk=".to_string(),
        client_private_key: "Y2xpZW50LXByaXZhdGUta2V5".to_string(),
        client_ip: "10.0.0.2".to_string(),
        dns_servers: vec!["1.1.1.1".to_string()],
        allowed_ips: vec!["0.0.0.0/0".to_string()],
    }
}

fn at(secs: u64) -> Timestamp {
    Timestamp { secs, nanos: 0 }
}

#[test]
fn connect_status_reconnect_disconnect_scenario() {
    let mut state = TunnelState::new();
    let t0 = Timestamp { secs: 1_700_000_000, nanos: 250 };
    assert_eq!(connect(&mut state, config("203.0.113.1:51820"), t0), Ok(()));
    assert_eq!(
        get_status(&state),
        TunnelStatus::Connected { since: t0, server: "203.0.113.1:51820".to_string() }
    );
    let second = connect(&mut state, config("198.51.100.7:51820"), at(1_700_000_100));
    assert_eq!(second, Err(VpnError::AlreadyConnected));
    assert_eq!(second.unwrap_err().message(), "already connected");
    assert_eq!(
        get_status(&state),
        TunnelStatus::Connected { since: t0, server: "203.0.113.1:51820".to_string() }
    );
    assert_eq!(disconnect(&mut state), Ok(()));
    assert_eq!(get_status(&state), TunnelStatus::Disconnected);
}

#[test]
fn second_connect_leaves_handle_untouched() {
    let mut state = TunnelState::new();
    connect(&mut state, config("203.0.113.1:51820"), at(10)).unwrap();
    update_stats(&mut state, 100, 40, at(11));
    let before = get_stats(&state);
    for i in 0..3u64 {
        assert_eq!(
            connect(&mut state, config("198.51.100.7:51820"), at(20 + i)),
            Err(VpnError::AlreadyConnected)
        );
    }
    assert_eq!(get_stats(&state), before);
    assert_eq!(
        get_status(&state),
        TunnelStatus::Connected { since: at(10), server: "203.0.113.1:51820".to_string() }
    );
}

#[test]
fn disconnect_without_connect_fails() {
    let mut state = TunnelState::new();
    for _ in 0..2 {
        let r = disconnect(&mut state);
        assert_eq!(r, Err(VpnError::NotConnected));
        assert_eq!(r.unwrap_err().message(), "not connected");
        assert_eq!(
            get_stats(&state),
            TunnelStats { bytes_sent: 0, bytes_received: 0, last_handshake: None }
        );
        assert_eq!(get_status(&state), TunnelStatus::Disconnected);
    }
}

#[test]
fn reads_are_idempotent() {
    let mut state = TunnelState::new();
    assert_eq!(get_status(&state), get_status(&state));
    assert_eq!(get_stats(&state), get_stats(&state));
    connect(&mut state, config("203.0.113.1:51820"), at(5)).unwrap();
    update_stats(&mut state, 7, 9, at(6));
    assert_eq!(get_status(&state), get_status(&state));
    assert_eq!(get_stats(&state), get_stats(&state));
}

#[test]
fn connect_zeroes_counters_and_sets_handshake() {
    let mut state = TunnelState::new();
    connect(&mut state, config("203.0.113.1:51820"), at(42)).unwrap();
    assert_eq!(
        get_stats(&state),
        TunnelStats { bytes_sent: 0, bytes_received: 0, last_handshake: Some(at(42)) }
    );
}

#[test]
fn counters_sum_forwarded_packet_lengths() {
    let mut state = TunnelState::new();
    connect(&mut state, config("203.0.113.1:51820"), at(100)).unwrap();
    let sent = [60u64, 1500, 40, 576];
    let received = [1400u64, 52, 52];
    let mut t = 100;
    for n in sent {
        t += 1;
        update_stats(&mut state, n, 0, at(t));
    }
    for n in received {
        t += 1;
        update_stats(&mut state, 0, n, at(t));
    }
    let s = get_stats(&state);
    assert_eq!(s.bytes_sent, 60 + 1500 + 40 + 576);
    assert_eq!(s.bytes_received, 1400 + 52 + 52);
    assert_eq!(s.last_handshake, Some(at(t)));
}

#[test]
fn last_handshake_never_moves_back() {
    let mut state = TunnelState::new();
    connect(&mut state, config("203.0.113.1:51820"), at(100)).unwrap();
    update_stats(&mut state, 10, 0, Timestamp { secs: 200, nanos: 5 });
    update_stats(&mut state, 10, 0, Timestamp { secs: 150, nanos: 0 });
    assert_eq!(get_stats(&state).last_handshake, Some(Timestamp { secs: 200, nanos: 5 }));
    update_stats(&mut state, 0, 10, Timestamp { secs: 200, nanos: 9 });
    assert_eq!(get_stats(&state).last_handshake, Some(Timestamp { secs: 200, nanos: 9 }));
    assert_eq!(get_stats(&state).bytes_sent, 20);
    assert_eq!(get_stats(&state).bytes_received, 10);
}

#[test]
fn counters_stop_at_largest_value() {
    let mut state = TunnelState::new();
    connect(&mut state, config("203.0.113.1:51820"), at(1)).unwrap();
    update_stats(&mut state, u64::MAX - 5, 3, at(2));
    update_stats(&mut state, 10, 4, at(3));
    let s = get_stats(&state);
    assert_eq!(s.bytes_sent, u64::MAX);
    assert_eq!(s.bytes_received, 7);
}

#[test]
fn update_stats_without_tunnel_does_nothing() {
    let mut state = TunnelState::new();
    update_stats(&mut state, 500, 500, at(9));
    assert_eq!(
        get_stats(&state),
        TunnelStats { bytes_sent: 0, bytes_received: 0, last_handshake: None }
    );
    assert_eq!(get_status(&state), TunnelStatus::Disconnected);
}

#[test]
fn disconnect_resets_counters() {
    let mut state = TunnelState::new();
    connect(&mut state, config("203.0.113.1:51820"), at(1)).unwrap();
    update_stats(&mut state, 99, 98, at(2));
    disconnect(&mut state).unwrap();
    assert_eq!(
        get_stats(&state),
        TunnelStats { bytes_sent: 0, bytes_received: 0, last_handshake: None }
    );
    assert_eq!(connect(&mut state, config("198.51.100.7:51820"), at(3)), Ok(()));
    assert_eq!(get_stats(&state).bytes_sent, 0);
}

#[test]
fn status_is_connecting_while_provisioning() {
    let mut state = TunnelState::new();
    assert_eq!(begin_connect(&mut state), Ok(()));
    assert!(state.is_connecting());
    assert_eq!(get_status(&state), TunnelStatus::Connecting);
    assert_eq!(begin_connect(&mut state), Err(VpnError::AlreadyConnected));
    assert_eq!(
        connect(&mut state, config("198.51.100.7:51820"), at(1)),
        Err(VpnError::AlreadyConnected)
    );
    assert_eq!(disconnect(&mut state), Err(VpnError::NotConnected));
    assert_eq!(finish_connect(&mut state, config("203.0.113.1:51820"), at(2), Ok(())), Ok(()));
    assert!(state.is_connected());
    assert_eq!(
        get_status(&state),
        TunnelStatus::Connected { since: at(2), server: "203.0.113.1:51820".to_string() }
    );
}

#[test]
fn failed_provisioning_leaves_no_tunnel() {
    let mut state = TunnelState::new();
    begin_connect(&mut state).unwrap();
    let r = finish_connect(
        &mut state,
        config("203.0.113.1:51820"),
        at(2),
        Err("cannot create interface".to_string()),
    );
    assert_eq!(r, Err(VpnError::Provisioning("cannot create interface".to_string())));
    assert_eq!(r.unwrap_err().message(), "cannot create interface");
    assert!(!state.is_connected());
    assert!(!state.is_connecting());
    assert_eq!(get_status(&state), TunnelStatus::Disconnected);
    assert_eq!(disconnect(&mut state), Err(VpnError::NotConnected));
    assert_eq!(connect(&mut state, config("203.0.113.1:51820"), at(3)), Ok(()));
}

#[test]
fn later_picks_the_later_instant() {
    let a = Timestamp { secs: 5, nanos: 10 };
    let b = Timestamp { secs: 5, nanos: 20 };
    let c = Timestamp { secs: 4, nanos: 999_999_999 };
    assert_eq!(a.later(b), b);
    assert_eq!(b.later(a), b);
    assert_eq!(a.later(c), a);
    assert_eq!(c.later(c), c);
}

#[test]
fn mixed_requests_alternate() {
    let mut state = TunnelState::new();
    let mut successes = Vec::new();
    let requests = [true, true, false, false, true, false, true, true, false];
    for (i, is_connect) in requests.into_iter().enumerate() {
        let r = if is_connect {
            connect(&mut state, config("203.0.113.1:51820"), at(i as u64))
        } else {
            disconnect(&mut state)
        };
        if r.is_ok() {
            successes.push(is_connect);
        }
    }
    assert_eq!(successes, vec![true, false, true, false, true, false]);
    assert!(!state.is_connected());
}
