use telemetry_engine::control_plane::ControlPlaneEngine;
use telemetry_engine::control_plane::ControlPlaneState;
use telemetry_engine::control_plane::CP_WINDOW;
use telemetry_engine::events::ControlPlaneEvent;
use telemetry_engine::events::Event;
use telemetry_engine::events::IdentityEvent;
use telemetry_engine::variance::Severity;

fn role(entity: &'static str, ts: u64) -> Event {
    Event::control_plane(ts, entity, ControlPlaneEvent::RoleAssigned)
}

fn action(entity: &'static str, ts: u64) -> Event {
    Event::control_plane(ts, entity, ControlPlaneEvent::AdminActionTaken)
}

/// Scenario B baseline: valid role → admin action within window → no variance.
#[test]
fn control_plane_happy_path_no_variances() {
    let mut e = ControlPlaneEngine::new();
    assert!(e.ingest(&role("svc_alpha", 1000)).is_empty());
    assert!(e.ingest(&action("svc_alpha", 1030)).is_empty());
    assert!(e.finalize().is_empty());
}

/// Admin action with no prior role assignment → Critical.
#[test]
fn admin_action_no_role() {
    let mut e = ControlPlaneEngine::new();
    let v = e.ingest(&action("rogue_svc", 1100));
    assert_eq!(v.len(), 1);
    assert_eq!(v[0].severity, Severity::Critical);
    assert!(v[0].rule.contains("RoleAssigned"));
}

/// Admin action outside 1-hour window → Critical.
#[test]
fn admin_action_stale_role() {
    let mut e = ControlPlaneEngine::new();
    e.ingest(&role("svc_beta", 1200));
    let v = e.ingest(&action("svc_beta", 5000)); // 3800s > CP_WINDOW (3600s)
    assert_eq!(v.len(), 1);
    assert_eq!(v[0].severity, Severity::Critical);
    assert!(v[0].rule.contains("1-hour window"));
}

/// Multiple services are tracked independently.
#[test]
fn multi_service_isolation() {
    let mut e = ControlPlaneEngine::new();
    e.ingest(&role("svc_alpha", 1000));
    assert!(e.ingest(&action("svc_alpha", 1030)).is_empty());
    let v = e.ingest(&action("rogue_svc", 1100));
    assert!(v.iter().any(|v| v.severity == Severity::Critical));
    let alpha = e.state.get("svc_alpha").unwrap();
    assert!(alpha.admin_action_taken);
}

#[test]
fn missing_role_word_for_word() {
    let mut e = ControlPlaneEngine::new();
    let v = e.ingest(&action("rogue_svc", 1100));
    assert_eq!(v[0].rule, "AdminActionTaken requires prior RoleAssigned");
    assert_eq!(v[0].detail, "'rogue_svc': admin action with no role assignment on record");
}

#[test]
fn stale_role_word_for_word() {
    let mut e = ControlPlaneEngine::new();
    e.ingest(&role("svc_beta", 1200));
    let v = e.ingest(&action("svc_beta", 5000));
    assert_eq!(v[0].rule, "AdminActionTaken must be within 1-hour window of RoleAssigned");
    assert_eq!(
        v[0].detail,
        "'svc_beta': role was assigned 3800s ago — window is 3600s, exceeded by 200s"
    );
}

/// The last second of the hour still counts, the next one does not.
#[test]
fn role_window_edge() {
    let mut e = ControlPlaneEngine::new();
    e.ingest(&role("svc", 1000));
    assert!(e.ingest(&action("svc", 1000 + CP_WINDOW)).is_empty());
    assert_eq!(e.ingest(&action("svc", 1000 + CP_WINDOW + 1)).len(), 1);
    e.ingest(&role("svc", 9000));
    assert!(e.ingest(&action("svc", 9001)).is_empty());
}

#[test]
fn role_record() {
    let mut s = ControlPlaneState::default();
    assert!(!s.has_role());
    assert_eq!(s.role_within(10, 10), None);
    s.role_assigned_at = Some(100);
    assert!(s.has_role());
    assert_eq!(s.role_within(100, 0), Some(100));
    assert_eq!(s.role_within(150, 50), Some(100));
    assert_eq!(s.role_within(151, 50), None);
    assert_eq!(s.role_within(99, 50), None);
}

#[test]
fn control_plane_ignores_other_domains() {
    let mut e = ControlPlaneEngine::new();
    assert!(e.ingest(&Event::identity(1, "x", IdentityEvent::AuthTokenUsed)).is_empty());
    assert!(e.state.get("x").is_none());
}
