use telemetry_engine::events::Event;
use telemetry_engine::events::IdentityEvent;
use telemetry_engine::events::ThermalEvent;
use telemetry_engine::thermal::ThermalEngine;
use telemetry_engine::thermal::ThermalState;
use telemetry_engine::thermal::JUSTIFICATION_WINDOW;
use telemetry_engine::variance::Severity;

fn workload(entity: &'static str, ts: u64) -> Event {
    Event::thermal(ts, entity, ThermalEvent::WorkloadScheduled)
}

fn reading(entity: &'static str, ts: u64, temp: u64) -> Event {
    Event::thermal(ts, entity, ThermalEvent::ThermalReading(temp))
}

/// rack_a: workload declared, temp above threshold but justified → no variance.
#[test]
fn justified_bias_no_variance() {
    let mut e = ThermalEngine::new();
    assert!(e.ingest(&workload("rack_a", 6000)).is_empty());
    assert!(
        e.ingest(&reading("rack_a", 6300, 52)).is_empty(),
        "bias justified by workload should not produce variance"
    );
}

/// Temp at or below nominal+threshold → no variance even without workload.
#[test]
fn nominal_temp_no_variance() {
    let mut e = ThermalEngine::new();
    let vs = e.ingest(&reading("rack_b", 6000, 48));
    assert!(vs.is_empty(), "temp within threshold should not produce variance");
}

/// First unjustified high reading → Warning.
#[test]
fn first_unjustified_bias_is_warning() {
    let mut e = ThermalEngine::new();
    let vs = e.ingest(&reading("rack_b", 6600, 56));
    assert_eq!(vs.len(), 1);
    assert_eq!(vs[0].severity, Severity::Warning);
}

/// Second consecutive unjustified high reading → Critical.
#[test]
fn sustained_bias_escalates_to_critical() {
    let mut e = ThermalEngine::new();
    e.ingest(&reading("rack_b", 6600, 56));
    let vs = e.ingest(&reading("rack_b", 7200, 61));
    assert_eq!(vs.len(), 1);
    assert_eq!(vs[0].severity, Severity::Critical);
}

/// WorkloadScheduled resets the bias counter — subsequent high reading is justified.
#[test]
fn workload_resets_bias_count() {
    let mut e = ThermalEngine::new();
    e.ingest(&reading("rack_b", 6600, 56));     // bias_count → 1
    e.ingest(&workload("rack_b", 6900));        // resets bias_count to 0
    let vs = e.ingest(&reading("rack_b", 7200, 61));
    assert!(vs.is_empty(), "workload declaration should reset and justify subsequent bias");
}

/// rack_a and rack_b are tracked independently.
#[test]
fn multi_rack_isolation() {
    let mut e = ThermalEngine::new();
    e.ingest(&workload("rack_a", 6000));
    assert!(
        e.ingest(&reading("rack_a", 6300, 52)).is_empty(),
        "rack_a justified bias should not produce variance"
    );
    let vs = e.ingest(&reading("rack_b", 6600, 56));
    assert_eq!(vs.len(), 1);
    assert_eq!(vs[0].severity, Severity::Warning, "rack_b should flag independently");
}

#[test]
fn bias_word_for_word() {
    let mut e = ThermalEngine::new();
    let first = e.ingest(&reading("rack_b", 6600, 56));
    assert_eq!(
        first[0].rule,
        "TH-1: ThermalReading bias must be causally justified by WorkloadScheduled"
    );
    assert_eq!(
        first[0].detail,
        "'rack_b': temp=56°C exceeds nominal+threshold (45+5=50°C) — no workload declared on record"
    );
    let second = e.ingest(&reading("rack_b", 7200, 61));
    assert_eq!(
        second[0].rule,
        "TH-2: Sustained unjustified thermal bias — equilibrium invariant violated"
    );
    assert_eq!(
        second[0].detail,
        "'rack_b': 2 consecutive readings above threshold (last=61°C) with no workload justification"
    );
}

/// Fifty degrees pass, fifty-one do not.
#[test]
fn threshold_edge() {
    let mut e = ThermalEngine::new();
    assert!(e.ingest(&reading("r", 1, 50)).is_empty());
    assert_eq!(e.ingest(&reading("r", 2, 51)).len(), 1);
}

/// The last second of the window still explains a reading, the next one does not.
#[test]
fn justification_window_edge() {
    let mut e = ThermalEngine::new();
    e.ingest(&workload("r", 1000));
    assert!(e.ingest(&reading("r", 1000 + JUSTIFICATION_WINDOW, 70)).is_empty());
    let v = e.ingest(&reading("r", 1000 + JUSTIFICATION_WINDOW + 1, 70));
    assert_eq!(v[0].severity, Severity::Warning);
}

/// A reading that passes ends a row of unjustified ones, and so does a workload.
#[test]
fn bias_count_and_last_temp() {
    let mut e = ThermalEngine::new();
    e.ingest(&reading("r", 100, 60));
    e.ingest(&reading("r", 200, 40));
    let r = e.state.get("r").unwrap();
    assert_eq!(r.bias_count, 0);
    assert_eq!(r.last_temp, Some(40));
    e.ingest(&reading("r", 300, 61));
    let v = e.ingest(&reading("r", 310, 62));
    assert_eq!(v[0].severity, Severity::Critical);
    assert_eq!(e.state.get("r").unwrap().bias_count, 2);
    e.ingest(&workload("r", 400));
    assert_eq!(e.state.get("r").unwrap().bias_count, 0);
    assert_eq!(e.state.get("r").unwrap().last_workload_at, Some(400));
}

/// Two high readings with a nominal one between them are not consecutive.
#[test]
fn nominal_reading_ends_the_row() {
    let mut e = ThermalEngine::new();
    e.ingest(&reading("rack_b", 6600, 56));
    assert!(e.ingest(&reading("rack_b", 6900, 48)).is_empty());
    let v = e.ingest(&reading("rack_b", 7200, 61));
    assert_eq!(v.len(), 1);
    assert_eq!(v[0].severity, Severity::Warning);
    assert_eq!(
        v[0].rule,
        "TH-1: ThermalReading bias must be causally justified by WorkloadScheduled"
    );
    assert_eq!(e.state.get("rack_b").unwrap().bias_count, 1);
}

/// A high reading that a workload explains ends the row too.
#[test]
fn justified_reading_ends_the_row() {
    let mut e = ThermalEngine::new();
    e.ingest(&workload("r", 1000));
    e.ingest(&reading("r", 5000, 60));
    e.ingest(&reading("r", 5001, 60));
    assert_eq!(e.state.get("r").unwrap().bias_count, 2);
    assert!(e.ingest(&reading("r", 1100, 60)).is_empty());
    assert_eq!(e.state.get("r").unwrap().bias_count, 0);
    let v = e.ingest(&reading("r", 5002, 60));
    assert_eq!(v[0].severity, Severity::Warning);
}

#[test]
fn workload_record() {
    let mut s = ThermalState::default();
    assert!(!s.has_workload());
    s.last_workload_at = Some(7);
    assert!(s.has_workload());
    assert_eq!(s.workload_within(10, 3), Some(7));
    assert_eq!(s.workload_within(11, 3), None);
    assert_eq!(s.workload_within(6, 3), None);
}

#[test]
fn thermal_finalize_and_other_domains() {
    let mut e = ThermalEngine::new();
    e.ingest(&reading("r", 100, 60));
    assert!(e.finalize().is_empty());
    assert!(e.ingest(&Event::identity(1, "x", IdentityEvent::AuthTokenUsed)).is_empty());
    assert!(e.state.get("x").is_none());
}
