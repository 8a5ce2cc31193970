use openless_remote::client::{start_flow, Shared};
use openless_remote::hint::Hint;
use openless_remote::protocol::ServerMessage;
use openless_remote::scanner::{
    interface_up, is_pong, local_private_prefixes, probe_addresses, probe_phone, Interface,
    LocalAddress, ScanEnd, ScanStep, Scanner, DISCOVERY_HEARTBEAT_INTERVAL, SCAN_INTERVAL,
    SCAN_PAUSE,
};

fn t(s: &str) -> String {
    s.to_string()
}

fn v4(a: u8, b: u8, c: u8, d: u8, state: Option<&str>) -> Interface<String> {
    Interface { address: LocalAddress::V4(a, b, c, d), operstate: state.map(t) }
}

fn shared(discovered: Option<&str>, announce: bool) -> Shared<String> {
    Shared { active: None, discovered: discovered.map(t), announce }
}

#[test]
fn interfaces_are_up_unless_told_otherwise() {
    assert!(interface_up(&None));
    assert!(interface_up(&Some(t("up\n"))));
    assert!(!interface_up(&Some(t("down\n"))));
    assert!(!interface_up(&Some(t("unknown"))));
    assert!(!interface_up(&Some(t(""))));
}

#[test]
fn private_networks_are_found_once_and_in_order() {
    let interfaces = vec![
        v4(127, 0, 0, 1, None),
        v4(169, 254, 3, 4, None),
        v4(192, 168, 1, 20, Some("up\n")),
        v4(192, 168, 1, 21, None),
        v4(192, 168, 2, 1, Some("down")),
        v4(10, 0, 7, 5, None),
        v4(172, 15, 0, 1, None),
        v4(172, 16, 0, 1, None),
        v4(172, 31, 255, 1, None),
        v4(172, 32, 0, 1, None),
        v4(192, 169, 0, 1, None),
        v4(8, 8, 8, 8, None),
        Interface { address: LocalAddress::V6, operstate: None },
    ];
    assert_eq!(
        local_private_prefixes(&interfaces),
        vec!["10.0.7", "172.16.0", "172.31.255", "192.168.1"]
    );
    assert!(local_private_prefixes(&Vec::new()).is_empty());
}

#[test]
fn all_hosts_of_a_network_are_probed() {
    let addresses = probe_addresses(&vec![t("10.0.0"), t("192.168.1")], 45678);
    assert_eq!(addresses.len(), 508);
    assert_eq!(addresses[0], "10.0.0.1:45678");
    assert_eq!(addresses[253], "10.0.0.254:45678");
    assert_eq!(addresses[254], "192.168.1.1:45678");
    assert_eq!(addresses[507], "192.168.1.254:45678");
    assert!(probe_addresses(&Vec::new(), 45678).is_empty());
}

#[test]
fn the_first_phone_that_answers_is_reported() {
    let mut found = false;
    assert!(!probe_phone(&mut found, false));
    assert!(!found);
    assert!(probe_phone(&mut found, true));
    assert!(!probe_phone(&mut found, true));
    assert!(!probe_phone(&mut found, false));
    assert!(found);
}

#[test]
fn pongs_are_recognised() {
    assert!(is_pong(&ServerMessage::<String>::Pong { session_id: None }.encode()));
    assert!(is_pong("{ \"type\" : \"pong\" }"));
    assert!(!is_pong("{\"type\":\"error\"}"));
    assert!(!is_pong("pong"));
}

#[test]
fn a_session_is_not_disturbed() {
    let mut scanner = Scanner::new(0);
    let busy = Shared { active: Some(t("a")), discovered: None, announce: false };
    assert_eq!(scanner.next(&busy, u64::MAX), ScanStep::Sleep(SCAN_PAUSE));
    assert_eq!(scanner, Scanner::new(0));
}

#[test]
fn a_known_phone_is_pinged_now_and_then() {
    let mut scanner = Scanner::new(10);
    let known = shared(Some("a"), false);
    assert_eq!(
        scanner.next(&known, 10 + DISCOVERY_HEARTBEAT_INTERVAL - 1),
        ScanStep::Sleep(SCAN_PAUSE)
    );
    assert_eq!(
        scanner.next(&known, 10 + DISCOVERY_HEARTBEAT_INTERVAL),
        ScanStep::Ping(t("a"))
    );
    assert_eq!(scanner.last_heartbeat, 10 + DISCOVERY_HEARTBEAT_INTERVAL);
    assert_eq!(scanner.next(&shared(None, false), 11), ScanStep::Discover);
}

#[test]
fn two_failed_pings_in_a_row_forget_a_phone() {
    let mut scanner = Scanner::new(0);
    let mut known = shared(Some("a"), false);
    scanner.last = Some(t("a"));
    let calm = ScanEnd { hint: None, sleep: SCAN_PAUSE, news: false };
    assert_eq!(scanner.ping_ended(&mut known, "a", false), calm);
    assert_eq!(scanner.ping_ended(&mut known, "a", true), calm);
    assert_eq!(scanner.ping_ended(&mut known, "a", false), calm);
    assert_eq!(known, shared(Some("a"), false));
    assert_eq!(
        scanner.ping_ended(&mut known, "a", false),
        ScanEnd {
            hint: Some(Hint::Flash(t("❌ 手机连接断开，正在重新扫描…"))),
            sleep: 0,
            news: true,
        }
    );
    assert_eq!(known, shared(None, true));
    assert_eq!(scanner.last, None);
    assert_eq!(scanner.failures, 0);
}

#[test]
fn a_found_phone_is_announced_once_after_a_loss() {
    let mut scanner = Scanner::new(0);
    let mut known = shared(None, true);
    assert_eq!(
        scanner.discovery_ended(&mut known, None, 5),
        ScanEnd { hint: None, sleep: SCAN_INTERVAL, news: false }
    );
    assert_eq!(scanner.last_heartbeat, 0);
    assert!(known.announce);
    assert_eq!(
        scanner.discovery_ended(&mut known, Some(t("a")), 6),
        ScanEnd {
            hint: Some(Hint::Flash(t("✅ 已自动连接手机 a"))),
            sleep: SCAN_PAUSE,
            news: true,
        }
    );
    assert_eq!(known, shared(Some("a"), false));
    assert_eq!(scanner.last_heartbeat, 6);
    assert_eq!(
        scanner.discovery_ended(&mut known, Some(t("b")), 7),
        ScanEnd { hint: None, sleep: SCAN_PAUSE, news: true }
    );
    assert_eq!(known, shared(Some("b"), false));
}

#[test]
fn a_phone_found_again_after_a_failed_start_is_announced() {
    let mut scanner = Scanner::new(0);
    let mut known = shared(None, false);
    scanner.discovery_ended(&mut known, Some(t("a")), 1);
    let mut flow = start_flow(&mut known, &None, true).unwrap();
    flow.attempt_ended(&mut known, Err(t("first")));
    flow.attempt_ended(&mut known, Err(t("second")));
    assert_eq!(known, shared(None, true));
    assert_eq!(
        scanner.discovery_ended(&mut known, Some(t("a")), 2),
        ScanEnd {
            hint: Some(Hint::Flash(t("✅ 已自动连接手机 a"))),
            sleep: SCAN_PAUSE,
            news: false,
        }
    );
    assert_eq!(known, shared(Some("a"), false));
    assert_eq!(scanner.discovery_ended(&mut known, Some(t("a")), 3).hint, None);
}
