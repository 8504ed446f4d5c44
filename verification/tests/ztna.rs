use telemetry_engine::ztna::engine::Severity;
use telemetry_engine::ztna::engine::ZtnaEngine;
use telemetry_engine::ztna::events::ZtnaEntry;
use telemetry_engine::ztna::events::ZtnaEvent;
use telemetry_engine::ztna::state::SessionState;
use telemetry_engine::ztna::state::HEARTBEAT_WINDOW;
use telemetry_engine::ztna::state::IDENTITY_WINDOW;

fn entry(session: &'static str, ts: u64, event: ZtnaEvent) -> ZtnaEntry {
    ZtnaEntry { ts, session, actor: "actor", event, detail: "" }
}

#[test]
fn prepared_session_passes() {
    let mut e = ZtnaEngine::new();
    assert!(e.ingest(&entry("s", 100, ZtnaEvent::IdentityVerified)).is_empty());
    assert!(e.ingest(&entry("s", 110, ZtnaEvent::ResourceAccessed)).is_empty());
    assert!(e.ingest(&entry("s", 120, ZtnaEvent::SessionHeartbeat)).is_empty());
    assert!(e.ingest(&entry("s", 130, ZtnaEvent::PrivilegedActionTaken)).is_empty());
    assert_eq!(e.sessions.get("s").unwrap().privileged_count, 1);
}

#[test]
fn cold_session_breaks_all_three() {
    let mut e = ZtnaEngine::new();
    let v = e.ingest(&entry("s", 10, ZtnaEvent::PrivilegedActionTaken));
    assert_eq!(v.len(), 3);
    assert!(v.iter().all(|v| v.severity == Severity::Critical));
    assert_eq!(v[0].rule, "PRIV-1: SessionHeartbeat required within 30s");
    assert_eq!(v[0].detail, "'s': no SessionHeartbeat on record — session may be spoofed");
    assert_eq!(v[1].rule, "PRIV-2: IdentityVerified required within 5-min window");
    assert_eq!(v[1].detail, "'s': no IdentityVerified on record — identity unconfirmed");
    assert_eq!(
        v[2].rule,
        "PRIV-3: Prior ResourceAccessed required — cold privilege escalation detected"
    );
    assert_eq!(
        v[2].detail,
        "'s': no ResourceAccessed on record — actor escalated to PrivilegedActionTaken without establishing resource-level session context"
    );
}

#[test]
fn expired_heartbeat_and_identity() {
    let mut e = ZtnaEngine::new();
    e.ingest(&entry("s", 0, ZtnaEvent::SessionHeartbeat));
    e.ingest(&entry("s", 0, ZtnaEvent::IdentityVerified));
    e.ingest(&entry("s", 0, ZtnaEvent::ResourceAccessed));
    assert!(e.ingest(&entry("s", HEARTBEAT_WINDOW, ZtnaEvent::PrivilegedActionTaken)).is_empty());
    let v = e.ingest(&entry("s", HEARTBEAT_WINDOW + 1, ZtnaEvent::PrivilegedActionTaken));
    assert_eq!(v.len(), 1);
    assert_eq!(v[0].detail, "'s': last heartbeat 31s ago — window is 30s");
    let v = e.ingest(&entry("s", IDENTITY_WINDOW + 1, ZtnaEvent::PrivilegedActionTaken));
    assert_eq!(v.len(), 2);
    assert_eq!(v[0].detail, "'s': last heartbeat 301s ago — window is 30s");
    assert_eq!(v[1].detail, "'s': last verification 301s ago — window is 300s");
    assert_eq!(e.sessions.get("s").unwrap().privileged_count, 3);
}

#[test]
fn sessions_are_tracked_independently() {
    let mut e = ZtnaEngine::new();
    e.ingest(&entry("a", 1, ZtnaEvent::SessionHeartbeat));
    e.ingest(&entry("a", 2, ZtnaEvent::IdentityVerified));
    e.ingest(&entry("a", 3, ZtnaEvent::ResourceAccessed));
    assert_eq!(e.ingest(&entry("b", 4, ZtnaEvent::PrivilegedActionTaken)).len(), 3);
    assert!(e.ingest(&entry("a", 5, ZtnaEvent::PrivilegedActionTaken)).is_empty());
}

#[test]
fn session_record() {
    let mut s = SessionState::default();
    assert!(!s.heartbeat_fresh(0));
    assert!(!s.identity_fresh(0));
    assert!(!s.has_resource_access());
    s.last_heartbeat_at = Some(100);
    s.last_identity_at = Some(100);
    s.last_resource_at = Some(100);
    assert!(s.heartbeat_fresh(130));
    assert!(!s.heartbeat_fresh(131));
    assert!(!s.heartbeat_fresh(99));
    assert!(s.identity_fresh(400));
    assert!(!s.identity_fresh(401));
    assert!(s.has_resource_access());
}

#[test]
fn names_and_classes() {
    assert_eq!(ZtnaEvent::SessionHeartbeat.name(), "SessionHeartbeat");
    assert_eq!(ZtnaEvent::IdentityVerified.name(), "IdentityVerified");
    assert_eq!(ZtnaEvent::ResourceAccessed.name(), "ResourceAccessed");
    assert_eq!(ZtnaEvent::PrivilegedActionTaken.name(), "PrivilegedActionTaken");
    assert_eq!(ZtnaEvent::SessionHeartbeat.css_class(), "ev-hb");
    assert_eq!(ZtnaEvent::IdentityVerified.css_class(), "ev-id");
    assert_eq!(ZtnaEvent::ResourceAccessed.css_class(), "ev-res");
    assert_eq!(ZtnaEvent::PrivilegedActionTaken.css_class(), "ev-priv");
}
