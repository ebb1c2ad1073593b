use lumina::addr::{ipv4_from_octets, Endpoint4};
use lumina::input::{input_actions, map_key, map_mouse, InputAction, InputEvent, Key, MouseButton};
use lumina::manager::{require_lan, ConnectionManager, ConnectionPath, PathStep};
use lumina::mdns::{host_id_of, record_host, resolved_lan_address, service_host_name, target_instance_name, HostIp};
use lumina::ui::{
    format_device_id, generate_session_pin, resolve_device_id, lan_machines, machine_display_name, new_device_id, saved_machine,
    session_pin_from_indices, strip_dashes, upsert_machine, AppConfig, SavedMachine,
};

#[test]
fn mouse_and_key_names() {
    assert_eq!(map_mouse("right"), MouseButton::Right);
    assert_eq!(map_mouse("middle"), MouseButton::Middle);
    assert_eq!(map_mouse("left"), MouseButton::Left);
    assert_eq!(map_mouse("whatever"), MouseButton::Left);
    assert_eq!(map_key("enter"), Key::Return);
    assert_eq!(map_key("return"), Key::Return);
    assert_eq!(map_key("command"), Key::Super);
    assert_eq!(map_key("ctrl"), Key::Control);
    assert_eq!(map_key("option"), Key::Alt);
    assert_eq!(map_key("a"), Key::Layout('a'));
    assert_eq!(map_key("é"), Key::Space);
    assert_eq!(map_key("F13"), Key::Space);
    assert_eq!(map_key(""), Key::Space);
}

#[test]
fn input_events_to_actions() {
    assert_eq!(input_actions(InputEvent::MouseScroll { x: 0, y: -3 }), vec![InputAction::ScrollY(-3)]);
    assert_eq!(input_actions(InputEvent::MouseScroll { x: 2, y: 1 }), vec![InputAction::ScrollX(2), InputAction::ScrollY(1)]);
    assert_eq!(input_actions(InputEvent::MouseScroll { x: 0, y: 0 }), vec![]);
    assert_eq!(input_actions(InputEvent::MouseDown { button: "right".into() }), vec![InputAction::Press(MouseButton::Right)]);
    assert_eq!(input_actions(InputEvent::KeyUp { key: "tab".into() }), vec![InputAction::KeyUp(Key::Tab)]);
    assert_eq!(input_actions(InputEvent::TypeString { text: "hi".into() }), vec![InputAction::Type("hi".into())]);
    assert_eq!(input_actions(InputEvent::MouseMove { x: 5, y: 6 }), vec![InputAction::MoveTo { x: 5, y: 6 }]);
}

#[test]
fn mdns_names() {
    assert_eq!(service_host_name("LMN-1"), "LMN-1.local.");
    assert_eq!(target_instance_name("LMN-1"), "LMN-1._lumina._udp.local.");
    assert_eq!(host_id_of("LMN-1234-5678._lumina._udp.local."), "LMN-1234-5678");
    assert_eq!(host_id_of("nodots"), "nodots");
    assert_eq!(host_id_of(".x"), "");
}

#[test]
fn mdns_resolution() {
    let target = target_instance_name("LMN-1");
    let addrs = vec![HostIp::V6, HostIp::V4(ipv4_from_octets(192, 168, 1, 20)), HostIp::V4(7)];
    assert_eq!(
        resolved_lan_address(&target, &"LMN-1._lumina._udp.local.".to_string(), &addrs, 4433),
        Some(Endpoint4 { ip: ipv4_from_octets(192, 168, 1, 20), port: 4433 })
    );
    assert_eq!(resolved_lan_address(&target, &"LMN-2._lumina._udp.local.".to_string(), &addrs, 4433), None);
    assert_eq!(resolved_lan_address(&target, &target, &vec![HostIp::V6], 4433), None);
    let mut found = Vec::new();
    record_host(&mut found, "A._lumina._udp.local.");
    record_host(&mut found, "B._lumina._udp.local.");
    record_host(&mut found, "A._lumina._udp.local.");
    assert_eq!(found, vec!["A".to_string(), "B".to_string()]);
}

#[test]
fn connection_path_order() {
    let m = ConnectionManager::new("stun.example:3478".into(), "ws://signal".into());
    match m.start_path("LMN-1") {
        PathStep::DiscoverLan { device_id, timeout_secs } => {
            assert_eq!(device_id, "LMN-1");
            assert_eq!(timeout_secs, 2);
        }
        s => panic!("unexpected {:?}", s),
    }
    let lan = Endpoint4 { ip: 1, port: 2 };
    match m.after_lan(Ok(lan)) {
        PathStep::Done(Ok(ConnectionPath::DirectLan(a))) => assert_eq!(a, lan),
        s => panic!("unexpected {:?}", s),
    }
    match m.after_lan(Err("timeout".into())) {
        PathStep::DiscoverWan { stun_server } => assert_eq!(stun_server, "stun.example:3478"),
        s => panic!("unexpected {:?}", s),
    }
    match m.after_wan(Ok(lan)) {
        PathStep::Done(Ok(ConnectionPath::P2pWan { our_public_addr })) => assert_eq!(our_public_addr, lan),
        s => panic!("unexpected {:?}", s),
    }
    match m.after_wan(Err("blocked".into())) {
        PathStep::AllocateRelay { relay_host, control_port } => {
            assert_eq!(relay_host, "signal");
            assert_eq!(control_port, 3001);
        }
        s => panic!("unexpected {:?}", s),
    }
}

#[test]
fn relay_fallback_after_failed_stun() {
    let m = ConnectionManager::new("stun.example:3478".into(), "ws://lumina.a4ivi4.dev/ws".into());
    match m.after_wan(Err("blocked".into())) {
        PathStep::AllocateRelay { relay_host, control_port } => {
            assert_eq!(relay_host, "lumina.a4ivi4.dev");
            assert_eq!(control_port, 3001);
        }
        s => panic!("unexpected {:?}", s),
    }
    let control = Endpoint4 { ip: ipv4_from_octets(203, 0, 113, 5), port: 3001 };
    assert_eq!(
        m.after_relay(Ok((control, 40000))),
        Ok(ConnectionPath::Relay(Endpoint4 { ip: control.ip, port: 40000 }))
    );
    assert_eq!(m.after_relay(Err("refused".into())), Err("All connection paths exhausted.".to_string()));
    let bad = ConnectionManager::new("stun.example:3478".into(), "not a url".into());
    match bad.after_wan(Err("blocked".into())) {
        PathStep::Done(Err(e)) => assert_eq!(e, "All connection paths exhausted."),
        s => panic!("unexpected {:?}", s),
    }
}

#[test]
fn device_ids_and_pins() {
    assert_eq!(format_device_id(1000, 9998), "LMN-1000-9998");
    assert_eq!(format_device_id(0, 7), "LMN-0-7");
    let id = new_device_id();
    assert_eq!(id.len(), 13);
    assert!(id.starts_with("LMN-"));
    assert_eq!(session_pin_from_indices(&[0, 1, 2, 3, 4, 5, 6, 7, 8, 9, 30, 31]), "2345-6789-ABYZ");
    let pin = generate_session_pin();
    assert_eq!(pin.len(), 14);
    assert_eq!(&pin[4..5], "-");
    assert_eq!(&pin[9..10], "-");
    assert!(pin.chars().all(|c| c == '-' || "23456789ABCDEFGHJKLMNPQRSTUVWXYZ".contains(c)));
    assert_eq!(strip_dashes("ABCD-2345-WXYZ"), "ABCD2345WXYZ");
    assert_eq!(strip_dashes("--"), "");
}

#[test]
fn saved_machines() {
    assert_eq!(machine_display_name("LMN-1234-5678"), "Machine LMN-");
    let m = saved_machine("LMN-1234-5678", 99);
    assert_eq!(m.id, "LMN-1234-5678");
    assert_eq!(m.name, "Machine LMN-");
    assert!(m.is_online);
    assert_eq!(m.last_connected, 99);
    let old = vec![
        SavedMachine { id: "A".into(), name: "a".into(), is_online: false, last_connected: 1 },
        SavedMachine { id: "LMN-1234-5678".into(), name: "x".into(), is_online: false, last_connected: 2 },
        SavedMachine { id: "B".into(), name: "b".into(), is_online: false, last_connected: 3 },
    ];
    let r = upsert_machine(old, m);
    let ids: Vec<&str> = r.iter().map(|m| m.id.as_str()).collect();
    assert_eq!(ids, vec!["A", "B", "LMN-1234-5678"]);
    assert_eq!(r[2].last_connected, 99);
    let lan = lan_machines(&vec!["X".into(), "ME".into(), "Y".into()], &"ME".to_string());
    assert_eq!(lan.len(), 2);
    assert_eq!(lan[0].id, "X");
    assert_eq!(lan[0].name, "X (LAN)");
    assert_eq!(lan[1].name, "Y (LAN)");
    assert!(lan[1].is_online);
    assert_eq!(lan[1].last_connected, 0);
}

#[test]
fn default_config() {
    let c = AppConfig::default();
    assert_eq!(c.device_id, "");
    assert_eq!(c.signal_server, "ws://lumina.a4ivi4.dev/ws");
    assert_eq!(c.stun_server, "stun.l.google.com:19302");
}

#[test]
fn device_id_resolution_order() {
    let cached = "LMN-1111-2222".to_string();
    let configured = "LMN-3333-4444".to_string();
    assert_eq!(resolve_device_id(&cached, Some(&configured)), (cached.clone(), false));
    assert_eq!(resolve_device_id(&String::new(), Some(&configured)), (configured.clone(), false));
    let (id, generated) = resolve_device_id(&String::new(), Some(&String::new()));
    assert!(generated);
    assert!(id.starts_with("LMN-"));
    let (id, generated) = resolve_device_id(&String::new(), None);
    assert!(generated);
    assert_eq!(id.len(), 13);
}

#[test]
fn only_lan_paths_stream_video() {
    let a = Endpoint4 { ip: 0x7f000001, port: 4433 };
    assert_eq!(require_lan(&ConnectionPath::DirectLan(a)), Ok(a));
    assert_eq!(
        require_lan(&ConnectionPath::P2pWan { our_public_addr: a }),
        Err("Only LAN is currently supported for this video test.".to_string())
    );
}
