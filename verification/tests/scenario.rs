use telemetry_engine::events::AutomationEvent;
use telemetry_engine::events::ControlPlaneEvent;
use telemetry_engine::events::DomainEvent;
use telemetry_engine::events::IdentityEvent;
use telemetry_engine::scenario::run_scenario;
use telemetry_engine::scenario::run_script;
use telemetry_engine::scenario::scenario_script;
use telemetry_engine::scenario::ScriptEntry;
use telemetry_engine::scenario::StepData;

fn count(steps: &[StepData], label: &str, severity: &str) -> usize {
    steps
        .iter()
        .filter(|s| s.group_label == label)
        .map(|s| s.variances.iter().filter(|v| v.severity == severity).count())
        .sum()
}

/// What each scenario has to show: nothing where all is legitimate, and nothing missed.
#[test]
fn scenarios_show_what_they_declare() {
    let steps = run_scenario();
    assert_eq!(steps.len(), 15);
    let a = "Scenario A — Legitimate Variation";
    let b = "Scenario B — Privilege Misuse";
    let c = "Scenario C — Silent Scheduler Bias";
    let d = "Scenario D — Automation Amplification";
    assert_eq!((count(&steps, a, "warning"), count(&steps, a, "critical")), (0, 0));
    assert_eq!((count(&steps, b, "warning"), count(&steps, b, "critical")), (0, 2));
    assert_eq!((count(&steps, c, "warning"), count(&steps, c, "critical")), (1, 2));
    assert_eq!((count(&steps, d, "warning"), count(&steps, d, "critical")), (1, 2));
}

#[test]
fn steps_follow_the_script() {
    let script = scenario_script();
    let steps = run_scenario();
    assert_eq!(script.len(), steps.len());
    for i in 0..steps.len() {
        assert_eq!(steps[i].seq, i + 1);
        assert_eq!(steps[i].ts, script[i].ts);
        assert_eq!(steps[i].user, script[i].user);
        assert_eq!(steps[i].event, script[i].kind.name());
        assert_eq!(steps[i].group, script[i].group);
        assert_eq!(steps[i].group_label, script[i].label);
        assert!(!steps[i].is_deferred);
        assert_eq!(steps[i].phases.len(), 3);
        assert_eq!(steps[i].phases[0].0, "Event Arrives");
        assert_eq!(steps[i].phases[1].0, "POC Invariant");
        assert_eq!(steps[i].phases[2].0, "Invariant Result");
    }
}

/// The result of every check, in order.
#[test]
fn check_results_of_the_demonstration() {
    let results: Vec<&str> = run_scenario().iter().map(|s| s.check.result).collect();
    assert_eq!(
        results,
        vec![
            "pending", "pass", "pending", "pass", "pending", "pass", "fail", "pending", "fail",
            "warn", "fail", "fail", "warn", "fail", "fail",
        ]
    );
}

/// A check passes, warns or fails as the engine reports.
#[test]
fn checks_agree_with_reports() {
    for s in run_scenario() {
        let critical = s.variances.iter().any(|v| v.severity == "critical");
        let expected = if s.check.result == "pending" {
            "pending"
        } else if s.variances.is_empty() {
            "pass"
        } else if critical {
            "fail"
        } else {
            "warn"
        };
        assert_eq!(s.check.result, expected);
    }
}

#[test]
fn variances_of_the_demonstration_word_for_word() {
    let steps = run_scenario();
    assert_eq!(
        steps[6].variances[0].detail,
        "'rogue_svc': admin action with no role assignment on record"
    );
    assert_eq!(
        steps[8].variances[0].detail,
        "'svc_beta': role was assigned 3800s ago — window is 3600s, exceeded by 200s"
    );
    assert_eq!(
        steps[11].variances[0].detail,
        "'rack_b': 3 consecutive readings above threshold (last=64°C) with no workload justification"
    );
    assert_eq!(
        steps[14].variances[0].detail,
        "'orchestrator': 3 consecutive triggers without StateValidated — automation is amplifying unresolved deviation"
    );
    assert_eq!(
        steps[14].variances[0].rule,
        "AUTO-2: Repeated automation on unvalidated state — amplification invariant violated"
    );
}

/// Every step shows what is known after its event, by name.
#[test]
fn snapshots_of_the_demonstration() {
    let steps = run_scenario();
    let names = |i: usize| -> Vec<&str> {
        steps[i].state_snap.iter().map(|p| p.0.as_str()).collect()
    };
    assert_eq!(names(0), vec!["svc_alpha"]);
    assert_eq!(names(2), vec!["rack_a", "svc_alpha"]);
    assert_eq!(
        names(14),
        vec!["orchestrator", "rack_a", "rack_b", "rogue_svc", "svc_alpha", "svc_beta"]
    );
    let last = &steps[14].state_snap[0].1;
    assert_eq!(last.domain, "Automation");
    assert_eq!(last.fields[0].1, "t=3000s ⚠");
    assert_eq!(last.fields[1].1, "3");
    assert_eq!(last.fields[2].1, "t=11400s");
}

/// A history lists the events of its user so far, and ends with the step.
#[test]
fn histories_of_the_demonstration() {
    let steps = run_scenario();
    assert_eq!(
        steps[12].history,
        vec![
            (5, 3000, "StateValidated"),
            (6, 3100, "AutomationTriggered"),
            (13, 11000, "AutomationTriggered"),
        ]
    );
    assert_eq!(steps[6].history, vec![(7, 4000, "AdminActionTaken")]);
}

#[test]
fn narratives_of_the_demonstration() {
    let steps = run_scenario();
    assert_eq!(steps[0].phases[0].1, "RoleAssigned — svc_alpha @ t=1000s");
    assert_eq!(steps[14].phases[2].1, "✘ Issue detected — automation amplification proven");
    assert!(steps[0].phases[0].2.starts_with(
        "Scenario A (POC §6) tests three legitimate variations across three domains. Variation 1"
    ));
    assert!(steps[14].phases[2].2.ends_with("(all three detection scenarios)."));
}

fn step(ts: u64, user: &'static str, kind: DomainEvent) -> ScriptEntry {
    ScriptEntry { group: "g", label: "l", ts, user, kind }
}

#[test]
fn empty_script_has_no_steps() {
    assert!(run_script(&Vec::new()).is_empty());
}

/// A script of one's own, with identity events; behind the demonstration there is nothing to tell.
#[test]
fn identity_script() {
    let mut script = vec![
        step(10, "alice", DomainEvent::Identity(IdentityEvent::LoginSuccess)),
        step(20, "alice", DomainEvent::Identity(IdentityEvent::AuthTokenIssued)),
        step(30, "alice", DomainEvent::Identity(IdentityEvent::AuthTokenUsed)),
        step(40, "bob", DomainEvent::Identity(IdentityEvent::AuthTokenUsed)),
    ];
    for i in 0..13 {
        script.push(step(50 + i, "alice", DomainEvent::Identity(IdentityEvent::LoginSuccess)));
    }
    let steps = run_script(&script);
    assert_eq!(steps.len(), 17);
    assert!(steps[2].variances.is_empty());
    assert_eq!(steps[2].check.result, "pass");
    assert_eq!(steps[3].variances.len(), 2);
    assert_eq!(steps[3].check.result, "fail");
    assert_eq!(steps[14].phases.len(), 3);
    assert!(steps[15].phases.is_empty());
    assert_eq!(steps[16].history.len(), 16);
    assert_eq!(steps[16].history[15], (17, 62, "LoginSuccess"));
}

/// A token used under a recent login without having been issued is a warning of the run.
#[test]
fn unissued_token_in_a_script() {
    let steps = run_script(&vec![
        step(0, "eve", DomainEvent::Identity(IdentityEvent::LoginSuccess)),
        step(10, "eve", DomainEvent::Identity(IdentityEvent::AuthTokenUsed)),
    ]);
    assert_eq!(steps[1].check.result, "warn");
    assert_eq!(steps[1].variances.len(), 1);
    assert_eq!(steps[1].variances[0].severity, "warning");
}

/// The events of one domain leave the engines of the others alone.
#[test]
fn domains_are_tracked_independently() {
    let script = vec![
        step(1, "x", DomainEvent::ControlPlane(ControlPlaneEvent::RoleAssigned)),
        step(2, "x", DomainEvent::Automation(AutomationEvent::AutomationTriggered)),
        step(3, "x", DomainEvent::ControlPlane(ControlPlaneEvent::AdminActionTaken)),
    ];
    let steps = run_script(&script);
    assert_eq!(steps[1].variances.len(), 1);
    assert_eq!(steps[1].variances[0].severity, "warning");
    assert!(steps[2].variances.is_empty());
    let domains: Vec<&str> = steps[2].state_snap.iter().map(|p| p.1.domain).collect();
    assert_eq!(domains, vec!["ControlPlane", "Automation"]);
}
