use openless_remote::registry::{Registry, SessionPhase, SessionRecord, HEARTBEAT_TIMEOUT};

fn t(s: &str) -> String {
    s.to_string()
}

fn record(id: &str, owner: &str) -> SessionRecord<String> {
    SessionRecord {
        session_id: t(id),
        owner_client_id: t(owner),
        legacy_owner: false,
        owner_addr: t("10.0.0.2:1"),
        connection: 4,
        previous_first_id: None,
        translation: false,
        last_heartbeat: 0,
        phase: SessionPhase::Recording,
        result: None,
    }
}

#[test]
fn records_are_found_by_id_and_owner() {
    let mut registry = Registry::new();
    assert!(registry.first().is_none());
    registry.insert(record("a", "c"));
    registry.insert(record("b", "d"));
    assert_eq!(registry.get("b").unwrap().owner_client_id, "d");
    assert!(registry.get("x").is_none());
    assert_eq!(registry.owned_by("c").unwrap().session_id, "a");
    assert!(registry.owned_by("e").is_none());
    registry.remove("a");
    assert!(registry.get("a").is_none());
    assert_eq!(registry.first().unwrap().session_id, "b");
    registry.remove("a");
    assert!(registry.get("b").is_some());
}

#[test]
fn inserting_replaces_a_record() {
    let mut registry = Registry::new();
    registry.insert(record("a", "c"));
    registry.insert(record("a", "d"));
    assert_eq!(registry.get("a").unwrap().owner_client_id, "d");
    registry.remove("a");
    assert!(registry.first().is_none());
}

#[test]
fn heartbeats_and_phases_are_kept() {
    let mut registry = Registry::new();
    registry.insert(record("a", "c"));
    assert!(!registry.heartbeat("a", "d", 5));
    assert!(!registry.heartbeat("x", "c", 5));
    assert!(registry.heartbeat("a", "c", 5));
    assert_eq!(registry.get("a").unwrap().last_heartbeat, 5);
    registry.mark_stopping("a");
    assert_eq!(registry.get("a").unwrap().phase, SessionPhase::Stopping);
    registry.mark_pending("a", "r", "text");
    assert_eq!(registry.get("a").unwrap().phase, SessionPhase::ResultPending);
    assert!(!registry.acknowledge("d", "r"));
    assert!(registry.acknowledge("c", "r"));
    assert!(registry.get("a").unwrap().result.is_none());
    assert!(!registry.acknowledge("c", "r"));
}

#[test]
fn sweeping_takes_out_each_silent_session() {
    let mut registry = Registry::new();
    registry.insert(record("a", "c"));
    let mut fresh = record("b", "d");
    fresh.last_heartbeat = HEARTBEAT_TIMEOUT;
    registry.insert(fresh);
    registry.insert(record("e", "f"));
    let mut told: Vec<String> =
        registry.sweep(HEARTBEAT_TIMEOUT + 1).into_iter().map(|e| e.session_id).collect();
    told.sort();
    assert_eq!(told, vec!["a", "e"]);
    assert!(registry.get("a").is_none());
    assert!(registry.get("b").is_some());
}
