use telemetry_engine::automation::AutomationEngine;
use telemetry_engine::automation::AutomationState;
use telemetry_engine::automation::VALIDATION_WINDOW;
use telemetry_engine::events::AutomationEvent;
use telemetry_engine::events::Event;
use telemetry_engine::events::IdentityEvent;
use telemetry_engine::variance::Severity;

fn validated(entity: &'static str, ts: u64) -> Event {
    Event::automation(ts, entity, AutomationEvent::StateValidated)
}

fn triggered(entity: &'static str, ts: u64) -> Event {
    Event::automation(ts, entity, AutomationEvent::AutomationTriggered)
}

/// Trigger immediately after validation → no variance.
#[test]
fn justified_trigger_no_variance() {
    let mut e = AutomationEngine::new();
    assert!(e.ingest(&validated("orchestrator", 9000)).is_empty());
    assert!(
        e.ingest(&triggered("orchestrator", 9100)).is_empty(),
        "trigger backed by fresh validation should not produce variance"
    );
}

/// Trigger with no validation at all → Warning.
#[test]
fn trigger_no_validation_is_warning() {
    let mut e = AutomationEngine::new();
    let vs = e.ingest(&triggered("orchestrator", 9400));
    assert_eq!(vs.len(), 1);
    assert_eq!(vs[0].severity, Severity::Warning);
}

/// Trigger after validation window expires → Warning.
#[test]
fn trigger_stale_validation_is_warning() {
    let mut e = AutomationEngine::new();
    e.ingest(&validated("orchestrator", 9000));
    let vs = e.ingest(&triggered("orchestrator", 9400)); // 400s > VALIDATION_WINDOW (300s)
    assert_eq!(vs.len(), 1);
    assert_eq!(vs[0].severity, Severity::Warning);
}

/// Second consecutive trigger on stale state → Critical.
#[test]
fn cascade_escalates_to_critical() {
    let mut e = AutomationEngine::new();
    e.ingest(&validated("orchestrator", 9000));
    e.ingest(&triggered("orchestrator", 9400)); // Warning
    let vs = e.ingest(&triggered("orchestrator", 9600)); // Critical
    assert_eq!(vs.len(), 1);
    assert_eq!(vs[0].severity, Severity::Critical);
}

/// StateValidated resets trigger_count — subsequent trigger is justified.
#[test]
fn revalidation_resets_cascade() {
    let mut e = AutomationEngine::new();
    e.ingest(&validated("orchestrator", 9000));
    e.ingest(&triggered("orchestrator", 9400)); // Warning, trigger_count → 1
    e.ingest(&validated("orchestrator", 9500)); // resets trigger_count to 0
    let vs = e.ingest(&triggered("orchestrator", 9550));
    assert!(vs.is_empty(), "trigger after revalidation should be justified");
}

/// Two orchestrators are tracked independently.
#[test]
fn multi_orchestrator_isolation() {
    let mut e = AutomationEngine::new();
    e.ingest(&validated("orchestrator_a", 9000));
    assert!(e.ingest(&triggered("orchestrator_a", 9100)).is_empty());
    // orchestrator_b has no validation
    let vs = e.ingest(&triggered("orchestrator_b", 9200));
    assert_eq!(vs.len(), 1);
    assert_eq!(vs[0].severity, Severity::Warning, "orchestrator_b should flag independently");
}

#[test]
fn cascade_word_for_word() {
    let mut e = AutomationEngine::new();
    let first = e.ingest(&triggered("orchestrator", 9400));
    assert_eq!(
        first[0].rule,
        "AUTO-1: AutomationTriggered must be backed by StateValidated within 5-min window"
    );
    assert_eq!(
        first[0].detail,
        "'orchestrator': automation fired on unvalidated state — no StateValidated within 300s"
    );
    e.ingest(&triggered("orchestrator", 9500));
    let third = e.ingest(&triggered("orchestrator", 9600));
    assert_eq!(
        third[0].rule,
        "AUTO-2: Repeated automation on unvalidated state — amplification invariant violated"
    );
    assert_eq!(
        third[0].detail,
        "'orchestrator': 3 consecutive triggers without StateValidated — automation is amplifying unresolved deviation"
    );
}

/// The last second of the window still counts, the next one does not.
#[test]
fn validation_window_edge() {
    let mut e = AutomationEngine::new();
    e.ingest(&validated("o", 1000));
    assert!(e.ingest(&triggered("o", 1000 + VALIDATION_WINDOW)).is_empty());
    assert_eq!(e.ingest(&triggered("o", 1000 + VALIDATION_WINDOW + 1)).len(), 1);
    let o = e.state.get("o").unwrap();
    assert_eq!(o.trigger_count, 1);
    assert_eq!(o.last_trigger_at, Some(1301));
    assert_eq!(o.last_validated_at, Some(1000));
}

/// A trigger that is backed ends a row of triggers that were not.
#[test]
fn backed_trigger_ends_the_row() {
    let mut e = AutomationEngine::new();
    e.ingest(&validated("o", 1000));
    e.ingest(&triggered("o", 2000));
    assert_eq!(e.state.get("o").unwrap().trigger_count, 1);
    e.ingest(&triggered("o", 1100));
    assert_eq!(e.state.get("o").unwrap().trigger_count, 0);
    let v = e.ingest(&triggered("o", 2100));
    assert_eq!(v[0].severity, Severity::Warning);
}

#[test]
fn validation_record() {
    let mut s = AutomationState::default();
    assert!(!s.has_validation());
    s.last_validated_at = Some(20);
    assert!(s.has_validation());
    assert_eq!(s.validation_within(25, 5), Some(20));
    assert_eq!(s.validation_within(26, 5), None);
    assert_eq!(s.validation_within(19, 5), None);
}

#[test]
fn automation_finalize_and_other_domains() {
    let mut e = AutomationEngine::new();
    e.ingest(&triggered("o", 1));
    assert!(e.finalize().is_empty());
    assert!(e.ingest(&Event::identity(1, "x", IdentityEvent::AuthTokenUsed)).is_empty());
    assert!(e.state.get("x").is_none());
}
