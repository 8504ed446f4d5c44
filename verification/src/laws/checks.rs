//! What the explanation of a check says, told by the event and by what is on record of it.

use vstd::prelude::*;

use crate::automation::AutomationState;
use crate::checks::automation::automation_check;
use crate::checks::control_plane::control_plane_check;
use crate::checks::identity::identity_check;
use crate::checks::table::RowView;
use crate::checks::thermal::thermal_check;
use crate::control_plane::ControlPlaneState;
use crate::events::AutomationEvent;
use crate::events::ControlPlaneEvent;
use crate::events::DomainEvent;
use crate::events::EventView;
use crate::events::IdentityEvent;
use crate::events::ThermalEvent;
use crate::laws::identity::lemma_one_login_counts;
use crate::laws::streams::one_counts;
use crate::state::AuthView;
use crate::store::value_or;
use crate::snapshot::Known;
use crate::text::decimal_text;
use crate::thermal::ThermalState;

verus! {

/// A line that says how a finding counts.
pub open spec fn finding(label: Seq<char>, value: Seq<char>, good: bool) -> RowView {
    (
        label,
        value,
        if good {
            "ok"@
        } else {
            "fail"@
        },
    )
}

/// A point in time.
pub open spec fn at(t: int) -> Seq<char> {
    "t="@ + decimal_text(t as nat) + "s"@
}

/// A length of time.
pub open spec fn lasting(n: int) -> Seq<char> {
    decimal_text(n as nat) + "s"@
}

/// Who, and what when.
pub open spec fn headed(ev: EventView, name: Seq<char>) -> Seq<RowView> {
    seq![("entity"@, ev.entity, "neutral"@), ("event"@, name + " @ "@ + at(ev.ts as int), "neutral"@)]
}

// ── Windows that open ─────────────────────────────────────────────────────────

/// The check of an event that opens a window says who did what when, what was recorded and how
/// long it counts, and stays open. It does not depend on anything on record.
pub proof fn law_opening_checks(
    ev: EventView,
    id: AuthView,
    cp: ControlPlaneState,
    th: ThermalState,
    au: AutomationState,
)
    ensures
        ({
            let login = identity_check(IdentityEvent::LoginSuccess, ev, id);
            let role = control_plane_check(ControlPlaneEvent::RoleAssigned, ev, cp);
            let workload = thermal_check(ThermalEvent::WorkloadScheduled, ev, th);
            let validation = automation_check(AutomationEvent::StateValidated, ev, au);
            &&& login.lookup == headed(ev, ev.kind.label()) + seq![
                ("action"@, "Login time recorded to state"@, "ok"@),
                ("watching for"@, "AuthTokenIssued within "@ + lasting(300), "neutral"@),
            ]
            &&& role.lookup == headed(ev, ev.kind.label()) + seq![
                ("action"@, "Role timestamp recorded to state"@, "ok"@),
                ("window"@, "valid for "@ + lasting(3600) + " from now"@, "neutral"@),
            ]
            &&& workload.lookup == headed(ev, ev.kind.label()) + seq![
                ("action"@, "Workload timestamp recorded to state"@, "ok"@),
                ("window"@, "justification valid for "@ + lasting(1800), "neutral"@),
            ]
            &&& validation.lookup == headed(ev, ev.kind.label()) + seq![
                ("action"@, "Validation timestamp recorded, trigger_count reset"@, "ok"@),
                ("window"@, "automation justified for "@ + lasting(300) + " from now"@, "neutral"@),
            ]
            &&& login.result == "pending"@ && login.result_text == "⏳ PENDING"@
            &&& role.result == "pending"@ && role.result_text == "⏳ PENDING"@
            &&& workload.result == "pending"@ && workload.result_text == "⏳ PENDING"@
            &&& validation.result == "pending"@ && validation.result_text == "⏳ PENDING"@
            &&& login.rule
                == "Contract 1 — LoginSuccess(entity) → must issue AuthTokenIssued(entity)"@
            &&& role.rule == "Contract CP-1 — RoleAssigned(entity) · role validity window opens"@
            &&& workload.rule
                == "Contract TH-1 — WorkloadScheduled(rack) · justification window opens"@
            &&& validation.rule
                == "Contract AUTO-1 — StateValidated(entity) · validation window opens"@
            &&& login.result_detail
                == "Contract 1 is deferred — verified when AuthTokenIssued arrives or the stream ends"@
            &&& role.result_detail
                == "Role assigned — engine will verify any AdminActionTaken arrives within the 1-hour window"@
            &&& workload.result_detail
                == "Workload declared — any ThermalReading above threshold within 30 min is now justified"@
            &&& validation.result_detail
                == "State validated — any AutomationTriggered within the next 5 minutes is considered justified"@
        }),
{
    let login = identity_check(IdentityEvent::LoginSuccess, ev, id);
    let role = control_plane_check(ControlPlaneEvent::RoleAssigned, ev, cp);
    let workload = thermal_check(ThermalEvent::WorkloadScheduled, ev, th);
    let validation = automation_check(AutomationEvent::StateValidated, ev, au);
    assert(login.lookup =~= headed(ev, ev.kind.label()) + seq![
        ("action"@, "Login time recorded to state"@, "ok"@),
        ("watching for"@, "AuthTokenIssued within "@ + lasting(300), "neutral"@),
    ]);
    assert(role.lookup =~= headed(ev, ev.kind.label()) + seq![
        ("action"@, "Role timestamp recorded to state"@, "ok"@),
        ("window"@, "valid for "@ + lasting(3600) + " from now"@, "neutral"@),
    ]);
    assert(workload.lookup =~= headed(ev, ev.kind.label()) + seq![
        ("action"@, "Workload timestamp recorded to state"@, "ok"@),
        ("window"@, "justification valid for "@ + lasting(1800), "neutral"@),
    ]);
    assert(validation.lookup =~= headed(ev, ev.kind.label()) + seq![
        ("action"@, "Validation timestamp recorded, trigger_count reset"@, "ok"@),
        ("window"@, "automation justified for "@ + lasting(300) + " from now"@, "neutral"@),
    ]);
}

// ── Identity ──────────────────────────────────────────────────────────────────

/// The check of a token that is issued gives the last login, its age, whether that is at most
/// 300 seconds, and whether some login counts. It passes exactly where one does.
pub proof fn law_issue_check(ev: EventView, s: AuthView)
    ensures
        ({
            let check = identity_check(IdentityEvent::AuthTokenIssued, ev, s);
            let counts = one_counts(s.logins, ev.ts, 300);
            let age = ev.ts - s.logins.last();
            &&& check.rule
                == "Contract 1 check — AuthTokenIssued requires LoginSuccess within 5-min window"@
            &&& check.lookup == headed(ev, ev.kind.label()) + (if s.logins.len() == 0 {
                seq![
                    ("last_login"@, "NONE"@, "fail"@),
                    ("window"@, lasting(300), "neutral"@),
                    ("verdict"@, "NO LOGIN ON RECORD"@, "fail"@),
                ]
            } else {
                seq![
                    ("last_login"@, at(s.logins.last() as int), "neutral"@),
                    finding("elapsed"@, lasting(age), age <= 300),
                    ("window"@, lasting(300), "neutral"@),
                    finding(
                        "verdict"@,
                        if counts {
                            "within window ✔"@
                        } else {
                            "EXPIRED — "@ + lasting(age - 300) + " over limit"@
                        },
                        counts,
                    ),
                ]
            })
            &&& check.result == (if counts {
                "pass"@
            } else {
                "fail"@
            })
            &&& check.result_text == (if counts {
                "✔ PASS"@
            } else {
                "✘ CONTRACT VIOLATED"@
            })
            &&& check.result_detail == (if counts {
                "Login was recent — token issuance is valid"@
            } else {
                "Token issued without a valid LoginSuccess in the 5-minute window"@
            })
        }),
{
    lemma_one_login_counts(s.logins, ev.ts);
}

/// The check of a token that is used gives the last login, its age, whether that is at most 300
/// seconds, whether some login counts, and the time of the token's issue. It passes exactly
/// where a login counts and the token was issued, and only warns where the issue alone is
/// missing.
pub proof fn law_use_check(ev: EventView, s: AuthView)
    ensures
        ({
            let check = identity_check(IdentityEvent::AuthTokenUsed, ev, s);
            let counts = one_counts(s.logins, ev.ts, 300);
            let age = ev.ts - s.logins.last();
            &&& check.rule
                == "Contract 2 check — AuthTokenUsed requires LoginSuccess within window + AuthTokenIssued"@
            &&& check.lookup == (headed(ev, ev.kind.label()) + (if s.logins.len() == 0 {
                seq![
                    ("last_login"@, "NONE"@, "fail"@),
                    ("login_valid?"@, "NO — no login on record"@, "fail"@),
                ]
            } else {
                seq![
                    ("last_login"@, at(s.logins.last() as int), "neutral"@),
                    finding("elapsed"@, lasting(age), age <= 300),
                    ("window"@, lasting(300), "neutral"@),
                    finding(
                        "login_valid?"@,
                        if counts {
                            "YES"@
                        } else {
                            "NO — expired by "@ + lasting(age - 300)
                        },
                        counts,
                    ),
                ]
            })).push(
                match s.token_issued_at {
                    Some(t) => ("token_issued"@, at(t as int), "ok"@),
                    None => ("token_issued"@, "NONE"@, "warn"@),
                },
            )
            &&& check.result == (if !counts {
                "fail"@
            } else if s.token_issued_at is None {
                "warn"@
            } else {
                "pass"@
            })
            &&& check.result_text == (if !counts {
                "✘ CONTRACT VIOLATED"@
            } else if s.token_issued_at is None {
                "⚠ CONTRACT WARNING"@
            } else {
                "✔ PASS"@
            })
            &&& check.result_detail == (if counts && s.token_issued_at is Some {
                "Login is recent and token issuance is on record — valid"@
            } else if s.logins.len() == 0 {
                "No LoginSuccess on record — unauthenticated token use detected"@
            } else if counts && age < 300 {
                "No AuthTokenIssued on record — use of a token that was never issued"@
            } else {
                "Session expired: login was "@ + lasting(age) + " ago, window is "@ + lasting(300)
                    + " — exceeded by "@ + lasting(age - 300)
            })
        }),
{
    lemma_one_login_counts(s.logins, ev.ts);
}

// ── Control plane ─────────────────────────────────────────────────────────────

/// The check of an admin action gives the time of the role, its age, whether that is at most
/// 3600 seconds, and by how much it is more. It passes exactly where the role counts.
pub proof fn law_admin_action_check(ev: EventView, s: ControlPlaneState)
    ensures
        ({
            let check = control_plane_check(ControlPlaneEvent::AdminActionTaken, ev, s);
            let counts = s.role_assigned_at matches Some(t) && t <= ev.ts <= t + 3600;
            &&& check.rule
                == "Contract CP-2 — AdminActionTaken requires RoleAssigned within 1-hour window"@
            &&& check.lookup == headed(ev, ev.kind.label()) + (match s.role_assigned_at {
                None => seq![
                    ("role_assigned"@, "NONE"@, "fail"@),
                    ("role_valid?"@, "NO — no role assignment on record"@, "fail"@),
                ],
                Some(t) => seq![
                    ("role_assigned"@, at(t as int), "neutral"@),
                    finding("elapsed"@, lasting(ev.ts - t), ev.ts - t <= 3600),
                    ("window"@, lasting(3600), "neutral"@),
                    finding(
                        "role_valid?"@,
                        if counts {
                            "YES"@
                        } else {
                            "NO — expired by "@ + lasting(ev.ts - t - 3600)
                        },
                        counts,
                    ),
                ],
            })
            &&& check.result == (if counts {
                "pass"@
            } else {
                "fail"@
            })
            &&& check.result_text == (if counts {
                "✔ PASS"@
            } else {
                "✘ CONTRACT VIOLATED"@
            })
            &&& check.result_detail == (match s.role_assigned_at {
                None => "No role assignment on record — privilege misuse detected"@,
                Some(t) => if counts {
                    "Role is current — admin action is authorised"@
                } else {
                    "Role expired: assigned "@ + lasting(ev.ts - t) + " ago, window is "@
                        + lasting(3600) + " — exceeded by "@ + lasting(ev.ts - t - 3600)
                },
            })
        }),
{
}

// ── Thermal ───────────────────────────────────────────────────────────────────

/// The check of a reading gives the temperature, whether it is above 50 degrees, the last
/// workload and its age, and whether that is at most 1800 seconds. It passes exactly where the
/// reading is not too high or the workload counts. The first that does not is a warning, every
/// further one fails and gives the length of the row.
pub proof fn law_reading_check(ev: EventView, s: ThermalState, temp: u64)
    requires
        s.last_workload_at matches Some(t) ==> t <= ev.ts,
    ensures
        ({
            let check = thermal_check(ThermalEvent::ThermalReading(temp), ev, s);
            let high = temp > 50;
            let counts = s.last_workload_at matches Some(t) && t <= ev.ts <= t + 1800;
            let found = headed(ev, ev.kind.label()) + seq![
                finding("temp"@, decimal_text(temp as nat) + "°C"@, !high),
                (
                    "threshold"@,
                    decimal_text(50) + "°C (nominal "@ + decimal_text(45) + " + bias "@
                        + decimal_text(5) + ")"@,
                    "neutral"@,
                ),
                finding(
                    "biased?"@,
                    if high {
                        "YES"@
                    } else {
                        "NO"@
                    },
                    !high,
                ),
            ] + (match s.last_workload_at {
                None => seq![
                    ("last_workload"@, "NONE"@, "none"@),
                    ("justified?"@, "NO — no workload declared"@, "fail"@),
                ],
                Some(t) => seq![
                    ("last_workload"@, at(t as int), "neutral"@),
                    finding("elapsed"@, lasting(ev.ts - t), ev.ts - t <= 1800),
                    finding(
                        "justified?"@,
                        if counts {
                            "YES — within window"@
                        } else {
                            "NO — workload expired "@ + lasting(ev.ts - t - 1800) + " ago"@
                        },
                        counts,
                    ),
                ],
            });
            if !high || counts {
                &&& check.rule == "Contract TH-1 — ThermalReading within justified limits"@
                &&& check.lookup == found
                &&& check.result == "pass"@
                &&& check.result_text == "✔ PASS"@
                &&& check.result_detail == (if !high {
                    "temp="@ + decimal_text(temp as nat)
                        + "°C is within nominal range — no thermal bias"@
                } else {
                    "temp="@ + decimal_text(temp as nat)
                        + "°C exceeds threshold but workload declared "@ + lasting(
                        ev.ts - s.last_workload_at->0,
                    ) + " ago — justified"@
                })
            } else if s.bias_count == 0 {
                &&& check.rule
                    == "Contract TH-1 — ThermalReading bias must be justified by WorkloadScheduled"@
                &&& check.lookup == found.push(("bias_count"@, "1 (first occurrence)"@, "warn"@))
                &&& check.result == "warn"@
                &&& check.result_text == "⚠ CONTRACT WARNING"@
                &&& check.result_detail == "'"@ + ev.entity + "': temp="@ + decimal_text(
                    temp as nat,
                )
                    + "°C exceeds threshold with no workload justification — monitoring for sustained bias"@
            } else {
                &&& check.rule
                    == "Contract TH-2 — Sustained unjustified thermal bias — equilibrium invariant violated"@
                &&& check.lookup == found.push(
                    (
                        "bias_count"@,
                        decimal_text((s.bias_count + 1) as nat) + " (sustained)"@,
                        "fail"@,
                    ),
                )
                &&& check.result == "fail"@
                &&& check.result_text == "✘ CONTRACT VIOLATED"@
                &&& check.result_detail == "'"@ + ev.entity + "': "@ + decimal_text(
                    (s.bias_count + 1) as nat,
                ) + " consecutive readings above threshold ("@ + decimal_text(temp as nat)
                    + "°C) — no workload justification found"@
            }
        }),
{
}

// ── Automation ────────────────────────────────────────────────────────────────

/// The check of a trigger gives the last validation, its age, and whether that is at most 300
/// seconds. It passes exactly where the validation counts. The first that does not is a
/// warning, every further one fails and gives the length of the row, whether a validation is
/// out of date or there never was one.
pub proof fn law_trigger_check(ev: EventView, s: AutomationState)
    requires
        s.last_validated_at matches Some(t) ==> t <= ev.ts,
    ensures
        ({
            let check = automation_check(AutomationEvent::AutomationTriggered, ev, s);
            let counts = s.last_validated_at matches Some(t) && t <= ev.ts <= t + 300;
            let found = headed(ev, ev.kind.label()) + (match s.last_validated_at {
                None => seq![
                    ("last_validated"@, "NONE"@, "fail"@),
                    ("justified?"@, "NO — no StateValidated on record"@, "fail"@),
                ],
                Some(t) => seq![
                    ("last_validated"@, at(t as int), "neutral"@),
                    finding("elapsed"@, lasting(ev.ts - t), ev.ts - t <= 300),
                    ("window"@, lasting(300), "neutral"@),
                    finding(
                        "justified?"@,
                        if counts {
                            "YES — within window"@
                        } else {
                            "NO — validation expired "@ + lasting(ev.ts - t - 300) + " ago"@
                        },
                        counts,
                    ),
                ],
            });
            if counts {
                &&& check.rule
                    == "Contract AUTO-1 — AutomationTriggered backed by fresh StateValidated"@
                &&& check.lookup == found
                &&& check.result == "pass"@
                &&& check.result_text == "✔ PASS"@
                &&& check.result_detail
                    == "Automation is acting on validated state — trigger is causally justified"@
            } else if s.trigger_count == 0 {
                &&& check.rule
                    == "Contract AUTO-1 — AutomationTriggered must be backed by StateValidated within 5-min window"@
                &&& check.lookup == found.push(
                    ("trigger_count"@, "1 (first stale trigger)"@, "warn"@),
                )
                &&& check.result == "warn"@
                &&& check.result_text == "⚠ CONTRACT WARNING"@
                &&& check.result_detail == "'"@ + ev.entity
                    + "': automation fired on unvalidated state — monitoring for cascade"@
            } else {
                &&& check.rule
                    == "Contract AUTO-2 — Repeated automation on unvalidated state — amplification invariant violated"@
                &&& check.lookup == found.push(
                    (
                        "trigger_count"@,
                        decimal_text((s.trigger_count + 1) as nat) + " (cascade)"@,
                        "fail"@,
                    ),
                )
                &&& check.result == "fail"@
                &&& check.result_text == "✘ CONTRACT VIOLATED"@
                &&& check.result_detail == "'"@ + ev.entity + "': "@ + decimal_text(
                    (s.trigger_count + 1) as nat,
                )
                    + " consecutive triggers without StateValidated — automation is amplifying unresolved deviation"@
            }
        }),
{
}

// ── Which record a check looks at ─────────────────────────────────────────────

/// An event is checked against what the engine of its own domain has on record of its entity, or
/// against a blank record where there is none.
pub proof fn law_check_looks_at_own_record(known: Known, ev: EventView)
    ensures
        match ev.kind {
            DomainEvent::Identity(event) => known.check(ev) == identity_check(
                event,
                ev,
                value_or(
                    known.identity,
                    ev.entity,
                    AuthView { logins: Seq::empty(), token_issued_at: None, token_used: false },
                ),
            ),
            DomainEvent::ControlPlane(event) => known.check(ev) == control_plane_check(
                event,
                ev,
                value_or(
                    known.control_plane,
                    ev.entity,
                    ControlPlaneState { role_assigned_at: None, admin_action_taken: false },
                ),
            ),
            DomainEvent::Thermal(event) => known.check(ev) == thermal_check(
                event,
                ev,
                value_or(
                    known.thermal,
                    ev.entity,
                    ThermalState { last_workload_at: None, bias_count: 0, last_temp: None },
                ),
            ),
            DomainEvent::Automation(event) => known.check(ev) == automation_check(
                event,
                ev,
                value_or(
                    known.automation,
                    ev.entity,
                    AutomationState {
                        last_validated_at: None,
                        trigger_count: 0,
                        last_trigger_at: None,
                    },
                ),
            ),
        },
{
}

} // verus!
