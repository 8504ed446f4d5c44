use telemetry_engine::automation::AutomationState;
use telemetry_engine::checks::automation::compute_automation_check;
use telemetry_engine::checks::compute_check;
use telemetry_engine::checks::control_plane::compute_cp_check;
use telemetry_engine::checks::identity::compute_identity_check;
use telemetry_engine::checks::table::CheckInfo;
use telemetry_engine::checks::thermal::compute_thermal_check;
use telemetry_engine::control_plane::ControlPlaneState;
use telemetry_engine::events::AutomationEvent;
use telemetry_engine::events::ControlPlaneEvent;
use telemetry_engine::events::Event;
use telemetry_engine::events::IdentityEvent;
use telemetry_engine::events::ThermalEvent;
use telemetry_engine::state::AuthState;
use telemetry_engine::thermal::ThermalState;

fn rows(check: &CheckInfo) -> Vec<(&str, &str, &str)> {
    check.lookup.iter().map(|r| (r.0.as_str(), r.1.as_str(), r.2.as_str())).collect()
}

fn auth(logins: Vec<u64>, token_issued_at: Option<u64>) -> AuthState {
    AuthState { logins, token_issued_at, token_used: false }
}

fn identity(ts: u64, kind: IdentityEvent) -> Event {
    Event::identity(ts, "alice", kind)
}

#[test]
fn login_check() {
    let c = compute_identity_check(&identity(10, IdentityEvent::LoginSuccess), None);
    assert_eq!(c.rule, "Contract 1 — LoginSuccess(entity) → must issue AuthTokenIssued(entity)");
    assert_eq!(
        rows(&c),
        vec![
            ("entity", "alice", "neutral"),
            ("event", "LoginSuccess @ t=10s", "neutral"),
            ("action", "Login time recorded to state", "ok"),
            ("watching for", "AuthTokenIssued within 300s", "neutral"),
        ]
    );
    assert_eq!(c.result, "pending");
    assert_eq!(c.result_text, "⏳ PENDING");
    assert_eq!(
        c.result_detail,
        "Contract 1 is deferred — verified when AuthTokenIssued arrives or the stream ends"
    );
}

#[test]
fn issue_checks() {
    let rule = "Contract 1 check — AuthTokenIssued requires LoginSuccess within 5-min window";
    let ev = identity(500, IdentityEvent::AuthTokenIssued);
    let none = compute_identity_check(&ev, None);
    assert_eq!(none.rule, rule);
    assert_eq!(
        rows(&none),
        vec![
            ("entity", "alice", "neutral"),
            ("event", "AuthTokenIssued @ t=500s", "neutral"),
            ("last_login", "NONE", "fail"),
            ("window", "300s", "neutral"),
            ("verdict", "NO LOGIN ON RECORD", "fail"),
        ]
    );
    assert_eq!(none.result, "fail");
    assert_eq!(none.result_text, "✘ CONTRACT VIOLATED");
    assert_eq!(
        none.result_detail,
        "Token issued without a valid LoginSuccess in the 5-minute window"
    );

    let recent = auth(vec![400], None);
    let pass = compute_identity_check(&ev, Some(&recent));
    assert_eq!(
        rows(&pass)[2..],
        [
            ("last_login", "t=400s", "neutral"),
            ("elapsed", "100s", "ok"),
            ("window", "300s", "neutral"),
            ("verdict", "within window ✔", "ok"),
        ]
    );
    assert_eq!(pass.result, "pass");
    assert_eq!(pass.result_text, "✔ PASS");
    assert_eq!(pass.result_detail, "Login was recent — token issuance is valid");

    let old = auth(vec![100], None);
    let fail = compute_identity_check(&ev, Some(&old));
    assert_eq!(
        rows(&fail)[2..],
        [
            ("last_login", "t=100s", "neutral"),
            ("elapsed", "400s", "fail"),
            ("window", "300s", "neutral"),
            ("verdict", "EXPIRED — 100s over limit", "fail"),
        ]
    );
    assert_eq!(fail.result, "fail");
}

#[test]
fn use_checks() {
    let ev = identity(500, IdentityEvent::AuthTokenUsed);
    let none = compute_identity_check(&ev, None);
    assert_eq!(
        none.rule,
        "Contract 2 check — AuthTokenUsed requires LoginSuccess within window + AuthTokenIssued"
    );
    assert_eq!(
        rows(&none),
        vec![
            ("entity", "alice", "neutral"),
            ("event", "AuthTokenUsed @ t=500s", "neutral"),
            ("last_login", "NONE", "fail"),
            ("login_valid?", "NO — no login on record", "fail"),
            ("token_issued", "NONE", "warn"),
        ]
    );
    assert_eq!(none.result, "fail");
    assert_eq!(none.result_text, "✘ CONTRACT VIOLATED");
    assert_eq!(
        none.result_detail,
        "No LoginSuccess on record — unauthenticated token use detected"
    );

    let good = auth(vec![300], Some(310));
    let pass = compute_identity_check(&ev, Some(&good));
    assert_eq!(
        rows(&pass)[2..],
        [
            ("last_login", "t=300s", "neutral"),
            ("elapsed", "200s", "ok"),
            ("window", "300s", "neutral"),
            ("login_valid?", "YES", "ok"),
            ("token_issued", "t=310s", "ok"),
        ]
    );
    assert_eq!(pass.result, "pass");
    assert_eq!(
        pass.result_detail,
        "Login is recent and token issuance is on record — valid"
    );

    let old = auth(vec![100], Some(110));
    let fail = compute_identity_check(&ev, Some(&old));
    assert_eq!(rows(&fail)[5], ("login_valid?", "NO — expired by 100s", "fail"));
    assert_eq!(fail.result, "fail");
    assert_eq!(
        fail.result_detail,
        "Session expired: login was 400s ago, window is 300s — exceeded by 100s"
    );

    // A login right at the limit counts, but leaves nothing of the window.
    let limit = auth(vec![200], None);
    let warn = compute_identity_check(&ev, Some(&limit));
    assert_eq!(rows(&warn)[5], ("login_valid?", "YES", "ok"));
    assert_eq!(warn.result, "warn");
    assert_eq!(warn.result_text, "⚠ CONTRACT WARNING");
    assert_eq!(
        warn.result_detail,
        "Session expired: login was 300s ago, window is 300s — exceeded by 0s"
    );

    // The last login is over the limit, one that was reported before it is not.
    let unordered = auth(vec![250, 100], None);
    let warn = compute_identity_check(&ev, Some(&unordered));
    assert_eq!(rows(&warn)[3], ("elapsed", "400s", "fail"));
    assert_eq!(rows(&warn)[5], ("login_valid?", "YES", "ok"));
    assert_eq!(warn.result, "warn");
    assert_eq!(
        warn.result_detail,
        "Session expired: login was 400s ago, window is 300s — exceeded by 100s"
    );
}

/// A recent login and no token on record: a warning, as the engine reports it.
#[test]
fn use_of_an_unissued_token() {
    let eve = auth(vec![0], None);
    let ev = Event::identity(10, "eve", IdentityEvent::AuthTokenUsed);
    let c = compute_identity_check(&ev, Some(&eve));
    assert_eq!(
        rows(&c),
        vec![
            ("entity", "eve", "neutral"),
            ("event", "AuthTokenUsed @ t=10s", "neutral"),
            ("last_login", "t=0s", "neutral"),
            ("elapsed", "10s", "ok"),
            ("window", "300s", "neutral"),
            ("login_valid?", "YES", "ok"),
            ("token_issued", "NONE", "warn"),
        ]
    );
    assert_eq!(c.result, "warn");
    assert_eq!(c.result_text, "⚠ CONTRACT WARNING");
    assert_eq!(
        c.result_detail,
        "No AuthTokenIssued on record — use of a token that was never issued"
    );
}

#[test]
fn role_and_action_checks() {
    let role = Event::control_plane(1000, "svc", ControlPlaneEvent::RoleAssigned);
    let pending = compute_cp_check(&role, None);
    assert_eq!(
        pending.rule,
        "Contract CP-1 — RoleAssigned(entity) · role validity window opens"
    );
    assert_eq!(
        rows(&pending),
        vec![
            ("entity", "svc", "neutral"),
            ("event", "RoleAssigned @ t=1000s", "neutral"),
            ("action", "Role timestamp recorded to state", "ok"),
            ("window", "valid for 3600s from now", "neutral"),
        ]
    );
    assert_eq!(pending.result, "pending");
    assert_eq!(
        pending.result_detail,
        "Role assigned — engine will verify any AdminActionTaken arrives within the 1-hour window"
    );

    let action = Event::control_plane(8000, "svc", ControlPlaneEvent::AdminActionTaken);
    let none = compute_cp_check(&action, None);
    assert_eq!(
        none.rule,
        "Contract CP-2 — AdminActionTaken requires RoleAssigned within 1-hour window"
    );
    assert_eq!(
        rows(&none)[2..],
        [
            ("role_assigned", "NONE", "fail"),
            ("role_valid?", "NO — no role assignment on record", "fail"),
        ]
    );
    assert_eq!(none.result, "fail");
    assert_eq!(
        none.result_detail,
        "No role assignment on record — privilege misuse detected"
    );

    let stale = ControlPlaneState { role_assigned_at: Some(4200), admin_action_taken: false };
    let fail = compute_cp_check(&action, Some(&stale));
    assert_eq!(
        rows(&fail)[2..],
        [
            ("role_assigned", "t=4200s", "neutral"),
            ("elapsed", "3800s", "fail"),
            ("window", "3600s", "neutral"),
            ("role_valid?", "NO — expired by 200s", "fail"),
        ]
    );
    assert_eq!(
        fail.result_detail,
        "Role expired: assigned 3800s ago, window is 3600s — exceeded by 200s"
    );

    let current = ControlPlaneState { role_assigned_at: Some(7970), admin_action_taken: false };
    let pass = compute_cp_check(&action, Some(&current));
    assert_eq!(rows(&pass)[3], ("elapsed", "30s", "ok"));
    assert_eq!(rows(&pass)[5], ("role_valid?", "YES", "ok"));
    assert_eq!(pass.result, "pass");
    assert_eq!(pass.result_detail, "Role is current — admin action is authorised");
}

#[test]
fn workload_and_reading_checks() {
    let workload = Event::thermal(2000, "rack", ThermalEvent::WorkloadScheduled);
    let pending = compute_thermal_check(&workload, None);
    assert_eq!(
        pending.rule,
        "Contract TH-1 — WorkloadScheduled(rack) · justification window opens"
    );
    assert_eq!(
        rows(&pending)[2..],
        [
            ("action", "Workload timestamp recorded to state", "ok"),
            ("window", "justification valid for 1800s", "neutral"),
        ]
    );
    assert_eq!(
        pending.result_detail,
        "Workload declared — any ThermalReading above threshold within 30 min is now justified"
    );

    let hot = Event::thermal(2300, "rack", ThermalEvent::ThermalReading(52));
    let first = compute_thermal_check(&hot, None);
    assert_eq!(
        first.rule,
        "Contract TH-1 — ThermalReading bias must be justified by WorkloadScheduled"
    );
    assert_eq!(
        rows(&first),
        vec![
            ("entity", "rack", "neutral"),
            ("event", "ThermalReading @ t=2300s", "neutral"),
            ("temp", "52°C", "fail"),
            ("threshold", "50°C (nominal 45 + bias 5)", "neutral"),
            ("biased?", "YES", "fail"),
            ("last_workload", "NONE", "none"),
            ("justified?", "NO — no workload declared", "fail"),
            ("bias_count", "1 (first occurrence)", "warn"),
        ]
    );
    assert_eq!(first.result, "warn");
    assert_eq!(
        first.result_detail,
        "'rack': temp=52°C exceeds threshold with no workload justification — monitoring for sustained bias"
    );

    let sustained = ThermalState { last_workload_at: Some(400), bias_count: 2, last_temp: Some(60) };
    let third = compute_thermal_check(&hot, Some(&sustained));
    assert_eq!(
        third.rule,
        "Contract TH-2 — Sustained unjustified thermal bias — equilibrium invariant violated"
    );
    assert_eq!(
        rows(&third)[5..],
        [
            ("last_workload", "t=400s", "neutral"),
            ("elapsed", "1900s", "fail"),
            ("justified?", "NO — workload expired 100s ago", "fail"),
            ("bias_count", "3 (sustained)", "fail"),
        ]
    );
    assert_eq!(third.result, "fail");
    assert_eq!(
        third.result_detail,
        "'rack': 3 consecutive readings above threshold (52°C) — no workload justification found"
    );

    let declared = ThermalState { last_workload_at: Some(2000), bias_count: 0, last_temp: None };
    let pass = compute_thermal_check(&hot, Some(&declared));
    assert_eq!(pass.rule, "Contract TH-1 — ThermalReading within justified limits");
    assert_eq!(
        rows(&pass)[5..],
        [
            ("last_workload", "t=2000s", "neutral"),
            ("elapsed", "300s", "ok"),
            ("justified?", "YES — within window", "ok"),
        ]
    );
    assert_eq!(
        pass.result_detail,
        "temp=52°C exceeds threshold but workload declared 300s ago — justified"
    );

    let cool = Event::thermal(2300, "rack", ThermalEvent::ThermalReading(48));
    let nominal = compute_thermal_check(&cool, None);
    assert_eq!(rows(&nominal)[2], ("temp", "48°C", "ok"));
    assert_eq!(rows(&nominal)[4], ("biased?", "NO", "ok"));
    assert_eq!(nominal.result, "pass");
    assert_eq!(nominal.result_detail, "temp=48°C is within nominal range — no thermal bias");
}

#[test]
fn validation_and_trigger_checks() {
    let validated = Event::automation(3000, "orc", AutomationEvent::StateValidated);
    let pending = compute_automation_check(&validated, None);
    assert_eq!(
        pending.rule,
        "Contract AUTO-1 — StateValidated(entity) · validation window opens"
    );
    assert_eq!(
        rows(&pending)[2..],
        [
            ("action", "Validation timestamp recorded, trigger_count reset", "ok"),
            ("window", "automation justified for 300s from now", "neutral"),
        ]
    );
    assert_eq!(
        pending.result_detail,
        "State validated — any AutomationTriggered within the next 5 minutes is considered justified"
    );

    let trigger = Event::automation(11000, "orc", AutomationEvent::AutomationTriggered);
    let none = compute_automation_check(&trigger, None);
    assert_eq!(
        none.rule,
        "Contract AUTO-1 — AutomationTriggered must be backed by StateValidated within 5-min window"
    );
    assert_eq!(
        rows(&none)[2..],
        [
            ("last_validated", "NONE", "fail"),
            ("justified?", "NO — no StateValidated on record", "fail"),
            ("trigger_count", "1 (first stale trigger)", "warn"),
        ]
    );
    assert_eq!(none.result, "warn");
    assert_eq!(
        none.result_detail,
        "'orc': automation fired on unvalidated state — monitoring for cascade"
    );

    let stale = AutomationState {
        last_validated_at: Some(3000),
        trigger_count: 1,
        last_trigger_at: Some(10000),
    };
    let second = compute_automation_check(&trigger, Some(&stale));
    assert_eq!(
        second.rule,
        "Contract AUTO-2 — Repeated automation on unvalidated state — amplification invariant violated"
    );
    assert_eq!(
        rows(&second)[2..],
        [
            ("last_validated", "t=3000s", "neutral"),
            ("elapsed", "8000s", "fail"),
            ("window", "300s", "neutral"),
            ("justified?", "NO — validation expired 7700s ago", "fail"),
            ("trigger_count", "2 (cascade)", "fail"),
        ]
    );
    assert_eq!(second.result, "fail");
    assert_eq!(
        second.result_detail,
        "'orc': 2 consecutive triggers without StateValidated — automation is amplifying unresolved deviation"
    );

    let fresh = AutomationState {
        last_validated_at: Some(10900),
        trigger_count: 0,
        last_trigger_at: None,
    };
    let pass = compute_automation_check(&trigger, Some(&fresh));
    assert_eq!(
        pass.rule,
        "Contract AUTO-1 — AutomationTriggered backed by fresh StateValidated"
    );
    assert_eq!(rows(&pass)[5], ("justified?", "YES — within window", "ok"));
    assert_eq!(pass.result, "pass");
    assert_eq!(
        pass.result_detail,
        "Automation is acting on validated state — trigger is causally justified"
    );
}

/// Each event is held against the record of its own domain.
#[test]
fn check_picks_the_domain() {
    let id = auth(vec![90], Some(95));
    let cp = ControlPlaneState { role_assigned_at: Some(90), admin_action_taken: false };
    let th = ThermalState { last_workload_at: Some(90), bias_count: 0, last_temp: None };
    let au = AutomationState { last_validated_at: Some(90), trigger_count: 0, last_trigger_at: None };
    let events = [
        Event::identity(100, "x", IdentityEvent::AuthTokenUsed),
        Event::control_plane(100, "x", ControlPlaneEvent::AdminActionTaken),
        Event::thermal(100, "x", ThermalEvent::ThermalReading(80)),
        Event::automation(100, "x", AutomationEvent::AutomationTriggered),
    ];
    for ev in &events {
        let known = compute_check(ev, Some(&id), Some(&cp), Some(&th), Some(&au));
        assert_eq!(known.result, "pass");
    }
    let expected = ["fail", "fail", "warn", "warn"];
    for i in 0..events.len() {
        assert_eq!(compute_check(&events[i], None, None, None, None).result, expected[i]);
    }
}
