use telemetry_engine::engine::Engine;
use telemetry_engine::engine::WINDOW;
use telemetry_engine::events::AutomationEvent;
use telemetry_engine::events::ControlPlaneEvent;
use telemetry_engine::events::Domain;
use telemetry_engine::events::DomainEvent;
use telemetry_engine::events::Event;
use telemetry_engine::events::IdentityEvent;
use telemetry_engine::events::ThermalEvent;
use telemetry_engine::state::AuthState;
use telemetry_engine::variance::Severity;

fn login(entity: &'static str, ts: u64) -> Event {
    Event::identity(ts, entity, IdentityEvent::LoginSuccess)
}

fn issued(entity: &'static str, ts: u64) -> Event {
    Event::identity(ts, entity, IdentityEvent::AuthTokenIssued)
}

fn used(entity: &'static str, ts: u64) -> Event {
    Event::identity(ts, entity, IdentityEvent::AuthTokenUsed)
}

// ── Contract correctness ──────────────────────────────────────────────────────

/// Scenario A baseline: full happy path produces zero variances.
#[test]
fn engine_happy_path_no_variances() {
    let mut e = Engine::new();
    assert!(e.ingest(&login("alice", 0)).is_empty());
    assert!(e.ingest(&issued("alice", 10)).is_empty());
    assert!(e.ingest(&used("alice", 120)).is_empty());
    assert!(e.finalize().is_empty());
}

/// Token used with no prior login at all → Critical.
#[test]
fn token_used_no_login() {
    let mut e = Engine::new();
    let v = e.ingest(&used("bob", 200));
    assert_eq!(v.len(), 2); // Critical (no login) + Warning (no issued)
    assert!(v.iter().any(|v| v.severity == Severity::Critical));
}

/// Token issued with no prior login → Critical.
#[test]
fn token_issued_no_login() {
    let mut e = Engine::new();
    let v = e.ingest(&issued("charlie", 100));
    assert_eq!(v.len(), 1);
    assert_eq!(v[0].severity, Severity::Critical);
}

/// Token used outside the 5-minute window → Critical.
#[test]
fn token_used_expired_window() {
    let mut e = Engine::new();
    e.ingest(&login("dave", 0));
    e.ingest(&issued("dave", 10));
    let v = e.ingest(&used("dave", 700)); // 700s > WINDOW (300s)
    assert_eq!(v.len(), 1);
    assert_eq!(v[0].severity, Severity::Critical);
    assert!(v[0].rule.contains("5-min window"));
}

/// Token used without a prior AuthTokenIssued → Warning.
#[test]
fn token_used_no_issued() {
    let mut e = Engine::new();
    e.ingest(&login("eve", 0));
    let v = e.ingest(&used("eve", 10));
    assert_eq!(v.len(), 1);
    assert_eq!(v[0].severity, Severity::Warning);
    assert!(v[0].rule.contains("AuthTokenIssued"));
}

/// Login with no subsequent token issued → Warning emitted at finalize.
#[test]
fn finalize_orphaned_login() {
    let mut e = Engine::new();
    e.ingest(&login("judy", 900));
    let deferred = e.finalize();
    assert_eq!(deferred.len(), 1);
    let (entity, v) = &deferred[0];
    assert_eq!(entity, "judy");
    assert_eq!(v.severity, Severity::Warning);
    assert!(v.rule.contains("AuthTokenIssued"));
}

/// Multiple users in one stream are tracked independently.
#[test]
fn multi_entity_isolation() {
    let mut e = Engine::new();
    // alice: happy path
    e.ingest(&login("alice", 0));
    e.ingest(&issued("alice", 10));
    assert!(e.ingest(&used("alice", 50)).is_empty());
    // bob: no login
    let v = e.ingest(&used("bob", 60));
    assert!(v.iter().any(|v| v.severity == Severity::Critical));
    // alice's state unaffected
    let alice = e.state.get("alice").unwrap();
    assert!(alice.token_used);
}

// ── Event model ───────────────────────────────────────────────────────────────

/// DomainEvent correctly reports its domain tag.
#[test]
fn domain_event_tag() {
    let ev = DomainEvent::Identity(IdentityEvent::LoginSuccess);
    assert_eq!(ev.domain(), Domain::Identity);
    assert_eq!(ev.name(), "LoginSuccess");
}

/// Event::identity() convenience constructor wraps correctly.
#[test]
fn identity_constructor() {
    let ev = Event::identity(42, "alice", IdentityEvent::AuthTokenUsed);
    assert_eq!(ev.ts, 42);
    assert_eq!(ev.entity, "alice");
    assert_eq!(ev.kind, DomainEvent::Identity(IdentityEvent::AuthTokenUsed));
}

// ── Exact reports and edges ───────────────────────────────────────────────────

/// A token without login and without issue: both reports, in this order, word for word.
#[test]
fn unauthenticated_use_word_for_word() {
    let mut e = Engine::new();
    let v = e.ingest(&used("bob", 200));
    assert_eq!(v.len(), 2);
    assert_eq!(v[0].severity, Severity::Critical);
    assert_eq!(v[0].rule, "AuthTokenUsed requires prior LoginSuccess");
    assert_eq!(v[0].detail, "'bob': no LoginSuccess on record");
    assert_eq!(v[1].severity, Severity::Warning);
    assert_eq!(v[1].rule, "AuthTokenUsed requires prior AuthTokenIssued");
    assert_eq!(v[1].detail, "'bob': no AuthTokenIssued on record");
}

#[test]
fn expired_use_word_for_word() {
    let mut e = Engine::new();
    e.ingest(&login("dave", 0));
    e.ingest(&issued("dave", 10));
    let v = e.ingest(&used("dave", 700));
    assert_eq!(v[0].rule, "AuthTokenUsed must be within 5-min window of LoginSuccess");
    assert_eq!(v[0].detail, "'dave': last login was 700s ago — window is 300s");
}

#[test]
fn issue_without_login_word_for_word() {
    let mut e = Engine::new();
    let v = e.ingest(&issued("charlie", 100));
    assert_eq!(v[0].rule, "AuthTokenIssued requires LoginSuccess within 5-min window");
    assert_eq!(v[0].detail, "'charlie': token issued with no valid login on record");
}

/// The last second of the window still counts, the next one does not.
#[test]
fn login_window_edge() {
    let mut e = Engine::new();
    e.ingest(&login("frank", 1000));
    assert!(e.ingest(&issued("frank", 1000 + WINDOW)).is_empty());
    assert_eq!(e.ingest(&issued("frank", 1000 + WINDOW + 1)).len(), 1);
}

/// A login that is dated later does not count.
#[test]
fn future_login_does_not_count() {
    let mut e = Engine::new();
    e.ingest(&login("grace", 500));
    assert_eq!(e.ingest(&issued("grace", 400)).len(), 1);
}

/// The most recent login within the window is found, whatever the order of the reports.
#[test]
fn most_recent_login_within_window() {
    let mut s = AuthState::default();
    assert!(!s.has_login());
    assert_eq!(s.last_login(), None);
    assert_eq!(s.login_within(100, 300), None);
    s.logins.push(250);
    s.logins.push(900);
    s.logins.push(100);
    assert!(s.has_login());
    assert_eq!(s.last_login(), Some(100));
    assert_eq!(s.login_within(400, 300), Some(250));
    assert_eq!(s.login_within(1000, 300), Some(900));
    assert_eq!(s.login_within(1201, 300), None);
    assert_eq!(s.login_within(50, 300), None);
}

/// The events of other domains teach the identity engine nothing.
#[test]
fn identity_ignores_other_domains() {
    let mut e = Engine::new();
    assert!(e.ingest(&Event::control_plane(1, "x", ControlPlaneEvent::AdminActionTaken)).is_empty());
    assert!(e.ingest(&Event::thermal(2, "x", ThermalEvent::ThermalReading(99))).is_empty());
    assert!(e.ingest(&Event::automation(3, "x", AutomationEvent::AutomationTriggered)).is_empty());
    assert!(e.state.get("x").is_none());
    assert_eq!(e.state.len(), 0);
}

/// At the end of the stream every login without token is reported once; a token settles it.
#[test]
fn finalize_reports_each_orphan_once() {
    let mut e = Engine::new();
    e.ingest(&login("a", 1));
    e.ingest(&login("a", 2));
    e.ingest(&login("b", 3));
    e.ingest(&issued("b", 4));
    e.ingest(&login("c", 5));
    e.ingest(&used("d", 6));
    e.ingest(&login("e", 7));
    e.ingest(&used("e", 8));
    let mut names: Vec<String> = e.finalize().into_iter().map(|p| p.0).collect();
    names.sort();
    assert_eq!(names, vec!["a".to_string(), "c".to_string()]);
    for (name, v) in e.finalize() {
        assert_eq!(v.rule, "LoginSuccess must be followed by AuthTokenIssued");
        assert_eq!(v.detail, format!("'{}': login recorded but token was never issued", name));
    }
    e.ingest(&issued("a", 9));
    let deferred = e.finalize();
    assert_eq!(deferred.len(), 1);
    assert_eq!(deferred[0].0, "c");
}

/// The reports on an entity do not depend on the events of others in between.
#[test]
fn interleaving_changes_no_report() {
    let mut alone = Engine::new();
    let mut mixed = Engine::new();
    let own = [login("m", 0), used("m", 50), issued("m", 600), used("m", 700)];
    for ev in &own {
        mixed.ingest(&login("other", ev.ts));
        let a = alone.ingest(ev);
        let b = mixed.ingest(ev);
        mixed.ingest(&issued("third", ev.ts + 1));
        assert_eq!(a.len(), b.len());
        for i in 0..a.len() {
            assert_eq!(a[i].severity, b[i].severity);
            assert_eq!(a[i].rule, b[i].rule);
            assert_eq!(a[i].detail, b[i].detail);
        }
    }
}

#[test]
fn names_of_events_and_domains() {
    assert_eq!(Domain::Identity.name(), "Identity");
    assert_eq!(Domain::ControlPlane.name(), "ControlPlane");
    assert_eq!(Domain::Thermal.name(), "Thermal");
    assert_eq!(Domain::Automation.name(), "Automation");
    assert_eq!(IdentityEvent::AuthTokenIssued.name(), "AuthTokenIssued");
    assert_eq!(IdentityEvent::AuthTokenUsed.name(), "AuthTokenUsed");
    assert_eq!(ControlPlaneEvent::RoleAssigned.name(), "RoleAssigned");
    assert_eq!(ControlPlaneEvent::AdminActionTaken.name(), "AdminActionTaken");
    let cp = DomainEvent::ControlPlane(ControlPlaneEvent::RoleAssigned);
    assert_eq!(cp.name(), "RoleAssigned");
    assert_eq!(cp.domain(), Domain::ControlPlane);
    let th = DomainEvent::Thermal(ThermalEvent::ThermalReading(50));
    assert_eq!(th.name(), "ThermalReading");
    assert_eq!(th.domain(), Domain::Thermal);
    let au = DomainEvent::Automation(AutomationEvent::StateValidated);
    assert_eq!(au.name(), "StateValidated");
    assert_eq!(au.domain(), Domain::Automation);
    assert_eq!(Severity::Warning.as_str(), "warning");
    assert_eq!(Severity::Critical.as_str(), "critical");
}
