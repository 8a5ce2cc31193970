use openless_remote::lan_server::{
    ensure_started, lan_server_is_running, lan_server_last_error, request_lan_server_restart,
    simulate_lan_server_loss, start, LanServer, LanState, Restart,
};

#[test]
fn starts_once() {
    let mut server = LanServer::new();
    assert!(start(&mut server));
    assert!(!start(&mut server));
    assert!(!ensure_started(&mut server));
    assert_eq!(server.state, LanState::Starting);
    server.listener_bound();
    assert!(!ensure_started(&mut server));
    assert!(lan_server_is_running(&server));
    assert_eq!(lan_server_last_error(&server), None);
}

#[test]
fn failed_bind_may_be_tried_again() {
    let mut server = LanServer::new();
    assert!(ensure_started(&mut server));
    server.bind_failed("address in use");
    assert!(!lan_server_is_running(&server));
    assert_eq!(
        lan_server_last_error(&server),
        Some("bind 0.0.0.0:45678 failed: address in use".to_string())
    );
    let restart = request_lan_server_restart(&mut server);
    assert_eq!(restart, Restart { signal_shutdown: false, spawn: true });
    server.listener_bound();
    assert_eq!(lan_server_last_error(&server), None);
}

#[test]
fn restart_leaves_a_live_server_alone() {
    let mut server = LanServer::new();
    start(&mut server);
    let starting = request_lan_server_restart(&mut server);
    assert_eq!(starting, Restart { signal_shutdown: false, spawn: false });
    server.listener_bound();
    let listening = request_lan_server_restart(&mut server);
    assert_eq!(listening, Restart { signal_shutdown: false, spawn: false });
    assert!(server.shutdown_held);
}

#[test]
fn drill_signals_the_listener() {
    let mut server = LanServer::new();
    start(&mut server);
    server.listener_bound();
    assert!(simulate_lan_server_loss(&mut server));
    assert!(!server.shutdown_held);
    assert_eq!(server.state, LanState::Idle);
    assert_eq!(
        lan_server_last_error(&server),
        Some("自测：模拟 LAN 服务丢失".to_string())
    );
    assert!(!simulate_lan_server_loss(&mut server));
    let restart = request_lan_server_restart(&mut server);
    assert_eq!(restart, Restart { signal_shutdown: false, spawn: true });
}
