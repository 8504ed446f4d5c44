use telemetry_engine::automation::AutomationEngine;
use telemetry_engine::control_plane::ControlPlaneEngine;
use telemetry_engine::engine::Engine;
use telemetry_engine::events::AutomationEvent;
use telemetry_engine::events::ControlPlaneEvent;
use telemetry_engine::events::Event;
use telemetry_engine::events::IdentityEvent;
use telemetry_engine::events::ThermalEvent;
use telemetry_engine::snapshot::snapshot;
use telemetry_engine::snapshot::EntityState;
use telemetry_engine::thermal::ThermalEngine;

fn rows(panel: &EntityState) -> Vec<(&str, &str, &str)> {
    panel.fields.iter().map(|r| (r.0.as_str(), r.1.as_str(), r.2.as_str())).collect()
}

#[test]
fn nothing_known_nothing_shown() {
    let snap = snapshot(
        &Engine::new().state,
        &ControlPlaneEngine::new().state,
        &ThermalEngine::new().state,
        &AutomationEngine::new().state,
        0,
    );
    assert!(snap.is_empty());
}

/// Panels come by name, and under one name by domain.
#[test]
fn panels_in_order() {
    let mut id = Engine::new();
    let mut cp = ControlPlaneEngine::new();
    let mut th = ThermalEngine::new();
    let mut au = AutomationEngine::new();
    for name in ["node", "Zed", "a"] {
        au.ingest(&Event::automation(1, name, AutomationEvent::StateValidated));
    }
    for name in ["node", "node_b"] {
        th.ingest(&Event::thermal(1, name, ThermalEvent::WorkloadScheduled));
        id.ingest(&Event::identity(1, name, IdentityEvent::LoginSuccess));
    }
    for name in ["é", "node", "b"] {
        cp.ingest(&Event::control_plane(1, name, ControlPlaneEvent::RoleAssigned));
    }
    let snap = snapshot(&id.state, &cp.state, &th.state, &au.state, 2);
    let order: Vec<(&str, &str)> = snap.iter().map(|p| (p.0.as_str(), p.1.domain)).collect();
    assert_eq!(
        order,
        vec![
            ("Zed", "Automation"),
            ("a", "Automation"),
            ("b", "ControlPlane"),
            ("node", "Identity"),
            ("node", "ControlPlane"),
            ("node", "Thermal"),
            ("node", "Automation"),
            ("node_b", "Identity"),
            ("node_b", "Thermal"),
            ("é", "ControlPlane"),
        ]
    );
}

#[test]
fn identity_panel_lines() {
    let mut id = Engine::new();
    id.ingest(&Event::identity(10, "a", IdentityEvent::LoginSuccess));
    id.ingest(&Event::identity(20, "b", IdentityEvent::AuthTokenIssued));
    id.ingest(&Event::identity(30, "b", IdentityEvent::AuthTokenUsed));
    let cp = ControlPlaneEngine::new();
    let th = ThermalEngine::new();
    let au = AutomationEngine::new();
    let snap = snapshot(&id.state, &cp.state, &th.state, &au.state, 310);
    assert_eq!(
        rows(&snap[0].1),
        vec![("last_login", "t=10s", "ok"), ("token_issued", "—", "none"), ("token_used", "no", "none")]
    );
    assert_eq!(
        rows(&snap[1].1),
        vec![("last_login", "—", "none"), ("token_issued", "t=20s", "ok"), ("token_used", "yes", "ok")]
    );
    let later = snapshot(&id.state, &cp.state, &th.state, &au.state, 311);
    assert_eq!(rows(&later[0].1)[0], ("last_login", "t=10s ⚠", "fail"));
    // A login that is dated later counts as just made.
    let earlier = snapshot(&id.state, &cp.state, &th.state, &au.state, 5);
    assert_eq!(rows(&earlier[0].1)[0], ("last_login", "t=10s", "ok"));
}

#[test]
fn control_plane_panel_lines() {
    let mut cp = ControlPlaneEngine::new();
    cp.ingest(&Event::control_plane(5, "rogue", ControlPlaneEvent::AdminActionTaken));
    cp.ingest(&Event::control_plane(10, "svc", ControlPlaneEvent::RoleAssigned));
    let id = Engine::new();
    let th = ThermalEngine::new();
    let au = AutomationEngine::new();
    let snap = snapshot(&id.state, &cp.state, &th.state, &au.state, 3610);
    assert_eq!(
        rows(&snap[0].1),
        vec![("role_assigned_at", "—", "none"), ("admin_action", "yes", "ok")]
    );
    assert_eq!(
        rows(&snap[1].1),
        vec![("role_assigned_at", "t=10s", "ok"), ("admin_action", "no", "none")]
    );
    let later = snapshot(&id.state, &cp.state, &th.state, &au.state, 3611);
    assert_eq!(rows(&later[1].1)[0], ("role_assigned_at", "t=10s ⚠", "fail"));
}

#[test]
fn thermal_panel_lines() {
    let mut th = ThermalEngine::new();
    th.ingest(&Event::thermal(100, "r", ThermalEvent::ThermalReading(56)));
    let id = Engine::new();
    let cp = ControlPlaneEngine::new();
    let au = AutomationEngine::new();
    let snap = snapshot(&id.state, &cp.state, &th.state, &au.state, 100);
    assert_eq!(
        rows(&snap[0].1),
        vec![
            ("last_workload_at", "—", "none"),
            ("last_temp", "56°C", "fail"),
            ("bias_count", "1", "warn"),
        ]
    );
    th.ingest(&Event::thermal(200, "r", ThermalEvent::ThermalReading(57)));
    let snap = snapshot(&id.state, &cp.state, &th.state, &au.state, 200);
    assert_eq!(rows(&snap[0].1)[1], ("last_temp", "57°C", "fail"));
    assert_eq!(rows(&snap[0].1)[2], ("bias_count", "2", "fail"));
    th.ingest(&Event::thermal(210, "r", ThermalEvent::ThermalReading(50)));
    let snap = snapshot(&id.state, &cp.state, &th.state, &au.state, 210);
    assert_eq!(rows(&snap[0].1)[1], ("last_temp", "50°C", "ok"));
    assert_eq!(rows(&snap[0].1)[2], ("bias_count", "0", "ok"));
    th.ingest(&Event::thermal(300, "r", ThermalEvent::WorkloadScheduled));
    let snap = snapshot(&id.state, &cp.state, &th.state, &au.state, 2101);
    assert_eq!(rows(&snap[0].1)[0], ("last_workload_at", "t=300s ⚠", "fail"));
    assert_eq!(rows(&snap[0].1)[2], ("bias_count", "0", "ok"));
}

#[test]
fn automation_panel_lines() {
    let mut au = AutomationEngine::new();
    au.ingest(&Event::automation(100, "o", AutomationEvent::StateValidated));
    let id = Engine::new();
    let cp = ControlPlaneEngine::new();
    let th = ThermalEngine::new();
    let snap = snapshot(&id.state, &cp.state, &th.state, &au.state, 400);
    assert_eq!(
        rows(&snap[0].1),
        vec![
            ("last_validated_at", "t=100s", "ok"),
            ("trigger_count", "0", "ok"),
            ("last_trigger_at", "—", "none"),
        ]
    );
    au.ingest(&Event::automation(401, "o", AutomationEvent::AutomationTriggered));
    let snap = snapshot(&id.state, &cp.state, &th.state, &au.state, 401);
    assert_eq!(
        rows(&snap[0].1),
        vec![
            ("last_validated_at", "t=100s ⚠", "fail"),
            ("trigger_count", "1", "warn"),
            ("last_trigger_at", "t=401s", "neutral"),
        ]
    );
}
