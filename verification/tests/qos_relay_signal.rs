use lumina::addr::PeerAddr;
use lumina::protocol::QosMetrics;
use lumina::qos::{EncoderConfig, QosManager};
use lumina::relay::{RelayAction, RelayPeers};
use lumina::signaling::{signal_url, url_host, payload_message, registration_message, Role, SignalRouter, SignalingMessage, SocketSession};

fn metrics(rtt_ms: u32, dropped_frames: u32) -> QosMetrics {
    QosMetrics { rtt_ms, dropped_frames, avg_decode_time_ms: 5, estimated_bandwidth_kbps: None }
}

fn step(q: &mut QosManager, m: &QosMetrics) -> Option<EncoderConfig> {
    let b = q.current_config.bitrate_kbps;
    let reduced = (b as f32 * 0.7) as u32;
    let raised = (b as f32 * 1.05) as u32;
    q.process_metrics(m, reduced, raised)
}

#[test]
fn qos_high_rtt_cuts_bitrate() {
    let mut q = QosManager::new(10_000, 30);
    let r = step(&mut q, &metrics(200, 0));
    assert_eq!(r, Some(EncoderConfig { bitrate_kbps: 7_000, fps: 30 }));
    let mut q = QosManager::new(600, 30);
    let r = step(&mut q, &metrics(200, 0));
    assert_eq!(r, Some(EncoderConfig { bitrate_kbps: 500, fps: 30 }));
}

#[test]
fn qos_drops_cut_fps() {
    let mut q = QosManager::new(5_000, 30);
    assert_eq!(step(&mut q, &metrics(100, 6)), Some(EncoderConfig { bitrate_kbps: 5_000, fps: 25 }));
    let mut q = QosManager::new(5_000, 17);
    assert_eq!(step(&mut q, &metrics(100, 6)), Some(EncoderConfig { bitrate_kbps: 5_000, fps: 15 }));
    let mut q = QosManager::new(5_000, 3);
    assert_eq!(step(&mut q, &metrics(200, 9)), Some(EncoderConfig { bitrate_kbps: 3_500, fps: 15 }));
}

#[test]
fn qos_good_network_raises_quality() {
    let mut q = QosManager::new(10_000, 59);
    assert_eq!(step(&mut q, &metrics(10, 0)), Some(EncoderConfig { bitrate_kbps: 10_500, fps: 60 }));
    assert_eq!(step(&mut q, &metrics(10, 0)), Some(EncoderConfig { bitrate_kbps: 11_024, fps: 60 }));
    let mut q = QosManager::new(19_900, 60);
    assert_eq!(step(&mut q, &metrics(39, 0)), Some(EncoderConfig { bitrate_kbps: 20_000, fps: 60 }));
}

#[test]
fn qos_steady_network_changes_nothing() {
    let mut q = QosManager::new(8_000, 30);
    assert_eq!(step(&mut q, &metrics(100, 2)), None);
    assert_eq!(q.current_config, EncoderConfig { bitrate_kbps: 8_000, fps: 30 });
    assert_eq!(step(&mut q, &metrics(40, 0)), None);
}

fn v4(a: u32, port: u16) -> PeerAddr {
    PeerAddr { is_v6: false, ip: a as u128, port, flowinfo: 0, scope_id: 0 }
}

#[test]
fn relay_locks_two_peers_and_forwards() {
    let mut r = RelayPeers::new();
    let a = v4(1, 1000);
    let b = v4(2, 2000);
    let c = v4(3, 3000);
    assert_eq!(r.on_packet(a), RelayAction::AwaitPartner);
    assert_eq!(r.on_packet(a), RelayAction::AwaitPartner);
    assert_eq!(r.on_packet(b), RelayAction::Forward(a));
    assert_eq!(r.on_packet(a), RelayAction::Forward(b));
    assert_eq!(r.on_packet(c), RelayAction::DropUnknown);
    assert_eq!(r.peer1, Some(a));
    assert_eq!(r.peer2, Some(b));
    // same address, other port: a different peer
    assert_eq!(r.on_packet(v4(1, 1001)), RelayAction::DropUnknown);
}

#[test]
fn signaling_client_messages() {
    let sid = "LMN-1234-5678".to_string();
    match registration_message(&sid, true) {
        SignalingMessage::RegisterHost { session_id } => assert_eq!(session_id, sid),
        m => panic!("unexpected {:?}", m),
    }
    match registration_message(&sid, false) {
        SignalingMessage::RegisterClient { session_id } => assert_eq!(session_id, sid),
        m => panic!("unexpected {:?}", m),
    }
    match payload_message(&sid, true, "offer".to_string()) {
        SignalingMessage::SignalToClient { session_id, payload } => {
            assert_eq!(session_id, sid);
            assert_eq!(payload, "offer");
        }
        m => panic!("unexpected {:?}", m),
    }
    match payload_message(&sid, false, "answer".to_string()) {
        SignalingMessage::SignalToHost { session_id, payload } => {
            assert_eq!(session_id, sid);
            assert_eq!(payload, "answer");
        }
        m => panic!("unexpected {:?}", m),
    }
}

#[test]
fn signal_router_delivers_to_registered_peers() {
    let mut router = SignalRouter::new();
    let mut host = SocketSession::new();
    let mut client = SocketSession::new();
    let sid = "S1".to_string();
    let to_host = SignalingMessage::SignalToHost { session_id: sid.clone(), payload: "hi".to_string() };
    let to_client = SignalingMessage::SignalToClient { session_id: sid.clone(), payload: "yo".to_string() };
    assert_eq!(router.destination(&to_host), None);
    router.register(&mut host, 7, &SignalingMessage::RegisterHost { session_id: sid.clone() });
    assert_eq!(host.role, Role::Host);
    assert_eq!(host.session_id, "S1");
    assert_eq!(router.destination(&to_host), Some(7));
    assert_eq!(router.destination(&to_client), None);
    router.register(&mut client, 9, &SignalingMessage::RegisterClient { session_id: sid.clone() });
    assert_eq!(router.destination(&to_client), Some(9));
    // a second host for the session replaces the first
    let mut host2 = SocketSession::new();
    router.register(&mut host2, 11, &SignalingMessage::RegisterHost { session_id: sid.clone() });
    assert_eq!(router.destination(&to_host), Some(11));
    // a signal changes no registration
    router.register(&mut client, 13, &to_host);
    assert_eq!(client.role, Role::Client);
    assert_eq!(router.destination(&to_client), Some(9));
    router.disconnect(&client);
    assert_eq!(router.destination(&to_client), None);
    assert_eq!(router.destination(&to_host), Some(11));
    router.disconnect(&host);
    assert_eq!(router.destination(&to_host), None);
    let other = SignalingMessage::SignalToHost { session_id: "S2".to_string(), payload: String::new() };
    assert_eq!(router.destination(&other), None);
}

#[test]
fn signal_url_parses_or_reports() {
    assert_eq!(signal_url("ws://lumina.a4ivi4.dev/ws"), Ok("ws://lumina.a4ivi4.dev/ws".to_string()));
    assert_eq!(signal_url("WS://Example.COM"), Ok("ws://example.com/".to_string()));
    let e = signal_url("not a url").unwrap_err();
    assert!(e.starts_with("Invalid URL: "));
    assert!(e.len() > "Invalid URL: ".len());
    assert_eq!(url_host("ws://lumina.a4ivi4.dev:3000/ws"), Some("lumina.a4ivi4.dev".to_string()));
    assert_eq!(url_host("not a url"), None);
}

#[test]
fn qos_bitrate_stays_in_range() {
    let mut q = QosManager::new(520, 30);
    let c = step(&mut q, &metrics(300, 0)).unwrap();
    assert_eq!(c.bitrate_kbps, 500);
    let mut q = QosManager::new(19_990, 30);
    let c = step(&mut q, &metrics(10, 0)).unwrap();
    assert_eq!(c.bitrate_kbps, 20_000);
}
