//! What the dashboard tells about each step of the demonstration, in three phases.

use vstd::prelude::*;

verus! {

/// A phase of a step: its label, a heading and a text.
pub type Phase = (&'static str, &'static str, &'static str);

/// The phases of the steps, in the order of the demonstration.
pub const NARRATIVES: [[Phase; 3]; 15] = [
    // Scenario A, step 1: RoleAssigned(svc_alpha, t=1000)
    [
        ("Event Arrives",
         "RoleAssigned — svc_alpha @ t=1000s",
         "Scenario A (POC §6) tests three legitimate variations across three domains. \
          Variation 1 — Approved privilege elevation: svc_alpha is granted a role. \
          Under POC Domain 1 (Identity & Privileged Access), a control-plane action \
          must be causally attributable to a valid authority chain. \
          This role grant establishes that chain."),
        ("POC Invariant",
         "Domain 1 — Authority chain prerequisite",
         "POC Domain 1 invariant: \
          'A control-plane action with material infrastructure impact must be \
          causally attributable to a valid authority chain and declared operational scope.' \
          Engine records role_assigned_at=1000. Authority window: t=1000 → t=4600s. \
          Contract defers — no violation possible until AdminActionTaken arrives."),
        ("Invariant Result",
         "⏳ Pending — authority chain opened",
         "Role on record. The engine watches for AdminActionTaken within the 1-hour window. \
          This is the approved privilege elevation baseline: \
          the causal chain starts with a legitimate, declared grant. \
          Variation 1 of Scenario A is in progress."),
    ],
    // Scenario A, step 2: AdminActionTaken(svc_alpha, t=1030)
    [
        ("Event Arrives",
         "AdminActionTaken — svc_alpha @ t=1030s",
         "svc_alpha acts 30 seconds after its role was granted — \
          well within the 1-hour authority window. \
          This closes variation 1: approved privilege elevation (POC §6, Scenario A). \
          The action is causally attributable to a valid authority chain \
          and declared operational scope — exactly what POC Domain 1 requires."),
        ("POC Invariant",
         "Domain 1 — Control-plane action requires current authority",
         "POC Domain 1 invariant check: role_assigned_at=1000, action at t=1030, \
          elapsed=30s, window=3600s. 30 < 3600 ✔. \
          Causal chain: RoleAssigned(t=1000) → AdminActionTaken(t=1030). \
          Authority is current. Contract CP-2 satisfied."),
        ("Invariant Result",
         "✔ All clear — approved privilege elevation confirmed",
         "Zero violations. Variation 1 cleared. The engine passes authorised privilege use \
          without a false positive — a prerequisite for the POC to be trusted. \
          POC Domain 1 detects: 'Credential-valid misuse · Escalation outside declared authority.' \
          Here, authority is fully declared and current."),
    ],
    // Scenario A, step 3: WorkloadScheduled(rack_a, t=2000)
    [
        ("Event Arrives",
         "WorkloadScheduled — rack_a @ t=2000s",
         "Variation 2 — Authorised workload surge (POC §6, Scenario A). \
          rack_a explicitly declares a high-demand workload before its temperature rises. \
          The scheduler states its intent before imposing physical load. \
          POC Domain 3 (Workload–Thermal Equilibrium): \
          'Bias is not prohibited. Unjustified bias is.' \
          This declaration is the causal justification for any thermal bias that follows."),
        ("POC Invariant",
         "Domain 3 — Workload declaration opens justification window",
         "POC Domain 3 invariant: \
          'Sustained asymmetric GPU density producing persistent thermal bias must be \
          causally attributable to declared workload demand or authorised scheduling logic.' \
          Engine records last_workload_at=2000. Justification window: 1800s. \
          Any ThermalReading above 50°C from rack_a within this window is causally explained."),
        ("Invariant Result",
         "⏳ Pending — thermal justification window open",
         "Workload declared. The engine distinguishes authorised load from silent scheduler bias. \
          rack_a has stated its intent — thermal impact is expected. \
          This is the contrast the POC is built around: \
          the same temperature reading is a pass here and a violation in Scenario C."),
    ],
    // Scenario A, step 4: ThermalReading(rack_a, 52°C, t=2300)
    [
        ("Event Arrives",
         "ThermalReading — rack_a @ t=2300s, 52°C",
         "rack_a reports 52°C — 2°C above the 50°C threshold — 300 seconds after \
          declaring its workload surge. The elevated temperature has a declared cause. \
          POC Domain 3: 'Unjustified bias is prohibited' — but this bias is justified \
          by the WorkloadScheduled at t=2000."),
        ("POC Invariant",
         "Domain 3 — Thermal bias must be causally attributable to declared workload",
         "POC Domain 3 invariant check: temp=52°C > threshold=50°C (biased ✔), \
          WorkloadScheduled at t=2000, elapsed=300s, window=1800s. 300 < 1800 ✔. \
          Bias is causally attributable to declared workload demand. \
          Contract TH-1 satisfied. bias_count stays at 0."),
        ("Invariant Result",
         "✔ All clear — authorised workload surge confirmed",
         "Zero violations. Variation 2 cleared. The engine correctly distinguishes \
          justified elevated temperature from unjustified bias. \
          A threshold-based tool sees '52°C — elevated.' \
          The causal engine sees '52°C, workload declared 300s ago, justified.' \
          This distinction is the POC's core value proposition."),
    ],
    // Scenario A, step 5: StateValidated(orchestrator, t=3000)
    [
        ("Event Arrives",
         "StateValidated — orchestrator @ t=3000s",
         "Variation 3 — Declared scheduling shift (POC §6, Scenario A). \
          The orchestrator ('Mother') validates system state before triggering automation. \
          POC Domain 4 (Automation Amplification Guard): \
          'Automated remediation must be causally justified by validated system state \
          and must not amplify unexplained deviations.' \
          This validation is that justification."),
        ("POC Invariant",
         "Domain 4 — Automation requires fresh StateValidated",
         "POC Domain 4 invariant: \
          'Automated remediation must be causally justified by validated system state.' \
          Engine records last_validated_at=3000, trigger_count reset to 0. \
          Validation window: 300s. \
          Note: this timestamp also anchors Scenario D — \
          the orchestrator will not re-validate before triggering again at t=11000s."),
        ("Invariant Result",
         "⏳ Pending — automation validation window open",
         "System state confirmed coherent. The declared scheduling shift posture is set. \
          Any AutomationTriggered within 5 minutes is acting on confirmed, coherent state. \
          This is variation 3: 'Mother' acting on validated information — \
          the correct behaviour the POC must pass cleanly."),
    ],
    // Scenario A, step 6: AutomationTriggered(orchestrator, t=3100)
    [
        ("Event Arrives",
         "AutomationTriggered — orchestrator @ t=3100s",
         "The orchestrator triggers an automated action 100 seconds after validating state — \
          acting on recently confirmed, coherent system information. \
          This closes variation 3: declared scheduling shift (POC §6, Scenario A). \
          POC Domain 4: automation acting on verified state is the passing case."),
        ("POC Invariant",
         "Domain 4 — AutomationTriggered backed by fresh StateValidated",
         "POC Domain 4 invariant check: StateValidated at t=3000, \
          elapsed=100s, window=300s. 100 < 300 ✔. trigger_count=0. \
          The automation is causally justified by validated system state. \
          Contract AUTO-1 satisfied."),
        ("Invariant Result",
         "✔ All clear — declared scheduling shift confirmed",
         "Scenario A complete. All three variations cleared: \
          approved privilege elevation ✔, authorised workload surge ✔, declared scheduling shift ✔. \
          Zero violations across three domains. \
          POC §6: 'Expected: no invariant violation.' \
          The detection layer produces no false positives on authorised behaviour."),
    ],
    // Scenario B, step 7: AdminActionTaken(rogue_svc, t=4000)
    [
        ("Event Arrives",
         "AdminActionTaken — rogue_svc @ t=4000s",
         "Scenario B — Privilege Misuse (POC §6). \
          rogue_svc attempts a control-plane admin action with no role on record. \
          This is 'credential-valid escalation' (POC §6, Scenario B): \
          the actor carries valid system credentials but was never granted a role. \
          POC Domain 1 detection target: 'Credential-valid misuse · Escalation outside declared authority.'"),
        ("POC Invariant",
         "Domain 1 — Control-plane action requires prior RoleAssigned",
         "POC Domain 1 invariant: \
          'A control-plane action must be causally attributable to a valid authority chain \
          and declared operational scope.' \
          rogue_svc: no RoleAssigned on record. No authority chain. \
          The causal prerequisite is completely absent. \
          Contract CP-1 violated — Critical."),
        ("Invariant Result",
         "✘ Issue detected — credential-valid escalation",
         "IAM invariant violated (POC §6, Scenario B expected: 'IAM invariant violation'). \
          A control-plane action taken with no authority chain. \
          A credential check passes — rogue_svc has valid credentials. \
          The causal engine catches what credentials alone cannot: \
          the absence of a declared, current authority chain."),
    ],
    // Scenario B, step 8: RoleAssigned(svc_beta, t=4200)
    [
        ("Event Arrives",
         "RoleAssigned — svc_beta @ t=4200s",
         "svc_beta receives a legitimate role grant at t=4200s. \
          This sets up the second Scenario B detection: \
          'out-of-scope control-plane mutation' (POC §6). \
          The role is valid now — but the admin action that follows \
          will arrive 200 seconds after the 1-hour window expires. \
          'Credential-valid does not mean currently authorised.'"),
        ("POC Invariant",
         "Domain 1 — Authority window: t=4200 → t=7800s",
         "Engine records role_assigned_at=4200. \
          Authority window: t=4200 → t=7800s (1-hour / 3600s). \
          The role is legitimately assigned. \
          The engine watches: at t=8000s — 200 seconds after window expiry — \
          svc_beta will act. Deterministic proof: 8000 − 4200 = 3800 > 3600."),
        ("Invariant Result",
         "⏳ Pending — window closes at t=7800s",
         "Role on record. The stage is set for out-of-scope mutation detection. \
          POC Domain 1 invariant: authority must be valid at the moment of action. \
          The engine does not care that the role was legitimately granted — \
          what matters is whether it is current when the action arrives."),
    ],
    // Scenario B, step 9: AdminActionTaken(svc_beta, t=8000)
    [
        ("Event Arrives",
         "AdminActionTaken — svc_beta @ t=8000s",
         "svc_beta acts at t=8000s — 200 seconds after its authority window closed at t=7800s. \
          This is 'out-of-scope control-plane mutation' (POC §6, Scenario B): \
          an action taken outside the declared operational scope. \
          The role was legitimately granted; it is no longer current."),
        ("POC Invariant",
         "Domain 1 — Declared operational scope exceeded",
         "POC Domain 1 invariant check: role_assigned_at=4200, action at t=8000, \
          elapsed=3800s, window=3600s. 3800 > 3600 — exceeded by 200s. \
          Authority has lapsed. \
          'A control-plane action must be causally attributable to a valid authority chain \
          and declared operational scope.' The scope has expired. Contract CP-2 violated — Critical."),
        ("Invariant Result",
         "✘ Issue detected — out-of-scope control-plane mutation",
         "IAM invariant violated. Out-of-scope mutation confirmed. \
          Scenario B complete — 2 Critical violations: \
          credential-valid escalation (no authority chain) and \
          out-of-scope mutation (expired authority). \
          POC §1: 'Detect privilege-to-impact inconsistencies' — demonstrated. \
          Standard access logs would show a credentialed action; the causal layer shows an unauthorised one."),
    ],
    // Scenario C, step 10: ThermalReading(rack_b, 56°C, t=9000)
    [
        ("Event Arrives",
         "ThermalReading — rack_b @ t=9000s, 56°C",
         "Scenario C — Silent Scheduler Bias (POC §6). \
          rack_b reports 56°C with no WorkloadScheduled ever declared for this rack. \
          'Sustained rack skew · No declared workload shift.' \
          The scheduler has imposed thermal load on rack_b without declaring intent. \
          POC Domain 2 detection target: 'Silent scheduler bias · Subtle control-plane manipulation.'"),
        ("POC Invariant",
         "Domain 3 — Thermal bias must be causally attributable to declared workload",
         "POC Domain 3 invariant: \
          'Sustained asymmetric GPU density producing persistent thermal bias must be \
          causally attributable to declared workload demand or authorised scheduling logic.' \
          rack_b: no workload on record. temp=56°C > threshold=50°C. \
          No causal justification. bias_count → 1. Contract TH-1 fires."),
        ("Invariant Result",
         "⚠ Warning — control-plane invariant triggered",
         "First detection: rack skew without declared workload. \
          POC §6, Scenario C expected: 'Control-plane and equilibrium invariant violation.' \
          The causal gap is the signal — not the temperature value alone. \
          A threshold tool might not alert on 56°C. \
          The causal engine detects the absence of a declared cause on the first reading."),
    ],
    // Scenario C, step 11: ThermalReading(rack_b, 61°C, t=9600)
    [
        ("Event Arrives",
         "ThermalReading — rack_b @ t=9600s, 61°C",
         "rack_b reaches 61°C — 600 seconds since the first unjustified reading. \
          Still no WorkloadScheduled declared. The bias is sustained, not a transient spike. \
          POC §1 Objective: 'Detect unjustified workload-induced physical bias.' \
          POC Domain 2: 'Sustained workload redistribution must be causally attributable \
          to declared scheduling objectives.' No scheduling objective was declared."),
        ("POC Invariant",
         "Domain 3 — Sustained bias triggers equilibrium invariant",
         "POC Domain 3 invariant escalation: bias_count → 2. \
          Two consecutive unjustified readings (56°C → 61°C). \
          The equilibrium invariant now applies: \
          'Sustained asymmetric GPU density producing persistent thermal bias.' \
          Contract TH-2: 'Sustained unjustified thermal bias — equilibrium invariant violated.'"),
        ("Invariant Result",
         "✘ Issue detected — equilibrium invariant violated",
         "Both invariants now breached: control-plane invariant (no workload declared) \
          and equilibrium invariant (bias sustained across consecutive readings). \
          POC §1: 'Surface stealth manipulations that evade threshold and correlational tools.' \
          No individual reading triggers a hard alarm — the sustained causal gap does. \
          This is a detection pattern conventional monitoring cannot produce."),
    ],
    // Scenario C, step 12: ThermalReading(rack_b, 64°C, t=10200)
    [
        ("Event Arrives",
         "ThermalReading — rack_b @ t=10200s, 64°C",
         "rack_b reaches 64°C — 1200 seconds of sustained, undeclared thermal bias. \
          Three consecutive readings (56 → 61 → 64°C) with no WorkloadScheduled at any point. \
          POC Domain 2 detection target: 'Silent scheduler bias · Undeclared policy drift.' \
          The scheduler silently routed load to rack_b with no declared scheduling objective."),
        ("POC Invariant",
         "Domains 2+3 — Proxy OT impact without direct OT compromise",
         "bias_count → 3. Causal chain from scheduler intent to physical impact: absent. \
          POC Domain 3 detection target: 'Proxy OT impact without direct OT compromise.' \
          The Thermal domain acts as OT-Proxy: physical impact (rising rack temperature) \
          is traceable to an IT-origin action (scheduler decision) through the causal layer — \
          without any direct OT system being compromised."),
        ("Invariant Result",
         "✘ Issue detected — silent scheduler bias proven",
         "Scenario C confirmed — 3 violations (1 Warning + 2 Critical). \
          POC §6: 'Expected: Control-plane and equilibrium invariant violation.' ✔ \
          POC §1: 'Detect unjustified workload-induced physical bias' — demonstrated. \
          POC §1: 'Surface stealth manipulations that evade threshold tools' — demonstrated. \
          A single-point threshold monitor needs all three readings to be alarming; \
          the causal engine detected the gap on the first reading."),
    ],
    // Scenario D, step 13: AutomationTriggered(orchestrator, t=11000)
    [
        ("Event Arrives",
         "AutomationTriggered — orchestrator @ t=11000s",
         "Scenario D — Automation Amplification (POC §6). \
          The orchestrator fires at t=11000s. \
          Last StateValidated: t=3000s (Scenario A) — 8000 seconds ago. \
          'Automated response to incomplete state.' \
          POC Domain 4 detection target: 'Automation feedback instability · \
          AI reacting to manipulated telemetry.'"),
        ("POC Invariant",
         "Domain 4 — Automation requires StateValidated within 5-min window",
         "POC Domain 4 invariant: \
          'Automated remediation must be causally justified by validated system state \
          and must not amplify unexplained deviations.' \
          last_validated_at=3000, elapsed=8000s, window=300s. \
          8000 >> 300 — validation expired 7700s ago. trigger_count → 1. \
          Contract AUTO-1 fires: automation on unvalidated state."),
        ("Invariant Result",
         "⚠ Warning — automated response to incomplete state",
         "Automation invariant partially triggered. \
          POC §6, Scenario D expected: 'Automation invariant violation.' \
          The orchestrator ('Mother') cannot distinguish acting on real current state \
          from acting on stale — or attacker-modified — state. \
          The causal engine can. trigger_count=1: monitoring for amplification cascade."),
    ],
    // Scenario D, step 14: AutomationTriggered(orchestrator, t=11200)
    [
        ("Event Arrives",
         "AutomationTriggered — orchestrator @ t=11200s",
         "The orchestrator triggers again — 200 seconds after the first stale trigger. \
          No StateValidated since t=3000s. \
          Each automated action may modify environment state, \
          but the system never re-checks whether the modification resolved the issue. \
          POC Domain 4 detection target: 'Automation feedback instability.'"),
        ("POC Invariant",
         "Domain 4 — Amplification invariant: repeated triggers on unvalidated state",
         "trigger_count → 2. Two consecutive AutomationTriggered with no intervening StateValidated. \
          Contract AUTO-2: \
          'Repeated automation on unvalidated state — amplification invariant violated.' \
          POC Domain 4: 'Automated remediation must not amplify unexplained deviations.' \
          The system is in a feedback loop it cannot self-correct."),
        ("Invariant Result",
         "✘ Issue detected — amplification invariant violated",
         "Automation amplification invariant violated. \
          POC §1: 'Detect automation acting on unverified state' — demonstrated. \
          Each trigger potentially compounds the deviation. \
          In a real AI-factory: 'Mother' acting confidently and repeatedly \
          on incoherent telemetry — amplifying rather than resolving the problem."),
    ],
    // Scenario D, step 15: AutomationTriggered(orchestrator, t=11400)
    [
        ("Event Arrives",
         "AutomationTriggered — orchestrator @ t=11400s",
         "Third consecutive trigger on unvalidated state. \
          8400 seconds since the last StateValidated. \
          Three automated responses to an environment never re-confirmed. \
          POC Domain 4: 'AI reacting to manipulated telemetry.' \
          The amplification pattern is definitively established."),
        ("POC Invariant",
         "Domain 4 — Amplification cascade: 3 triggers, 28× validation gap",
         "trigger_count → 3. Validation gap: 8400s — 28 times the required window. \
          Every trigger operates on the same stale, unconfirmed state. \
          In production: if the underlying deviation was attacker-injected, \
          each 'Mother' action could be amplifying the attack rather than resolving it. \
          The causal engine halts on the first unvalidated trigger; the system never did."),
        ("Invariant Result",
         "✘ Issue detected — automation amplification proven",
         "Scenario D confirmed — 3 violations (1 Warning + 2 Critical). \
          POC §6: 'Expected: Automation invariant violation.' ✔ \
          All four POC §1 objectives demonstrated across Scenarios A–D: \
          privilege-to-impact inconsistencies ✔ (Scenario B), \
          unjustified workload-induced physical bias ✔ (Scenario C), \
          automation on unverified state ✔ (Scenario D), \
          stealth manipulations evading threshold tools ✔ (all three detection scenarios)."),
    ],
];

} // verus!
