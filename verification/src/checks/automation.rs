//! The check of automation events.

use vstd::prelude::*;
use vstd::string::*;

use crate::automation::AutomationState;
use crate::automation::VALIDATION_WINDOW;
use crate::checks::table::add_row;
use crate::checks::table::moment;
use crate::checks::table::moment_text;
use crate::checks::table::open_lookup;
use crate::checks::table::opening;
use crate::checks::table::row_views;
use crate::checks::table::seconds;
use crate::checks::table::seconds_text;
use crate::checks::table::status;
use crate::checks::table::status_text;
use crate::checks::table::CheckInfo;
use crate::checks::table::CheckView;
use crate::checks::table::RowView;
use crate::events::AutomationEvent;
use crate::events::DomainEvent;
use crate::events::Event;
use crate::events::EventView;
use crate::freshness::elapsed_since;
use crate::text::decimal;
use crate::text::decimal_text;

verus! {

/// What the lookup finds of the last validation.
pub open spec fn validation_rows(s: AutomationState, ts: u64) -> Seq<RowView> {
    match s.last_validated_at {
        None => seq![
            ("last_validated"@, "NONE"@, "fail"@),
            ("justified?"@, "NO — no StateValidated on record"@, "fail"@),
        ],
        Some(t) => seq![
            ("last_validated"@, moment_text(t), "neutral"@),
            (
                "elapsed"@,
                seconds_text(elapsed_since(t, ts)),
                status_text(elapsed_since(t, ts) <= VALIDATION_WINDOW),
            ),
            ("window"@, seconds_text(VALIDATION_WINDOW as nat), "neutral"@),
            (
                "justified?"@,
                if s.backed(ts) {
                    "YES — within window"@
                } else {
                    "NO — validation expired "@ + seconds_text(
                        (elapsed_since(t, ts) - VALIDATION_WINDOW) as nat,
                    ) + " ago"@
                },
                status_text(s.backed(ts)),
            ),
        ],
    }
}

/// The check of an automation event against what is known of the orchestrator.
pub open spec fn automation_check(
    event: AutomationEvent,
    ev: EventView,
    s: AutomationState,
) -> CheckView {
    match event {
        AutomationEvent::StateValidated => CheckView {
            rule: "Contract AUTO-1 — StateValidated(entity) · validation window opens"@,
            lookup: opening(ev).push(
                ("action"@, "Validation timestamp recorded, trigger_count reset"@, "ok"@),
            ).push(
                (
                    "window"@,
                    "automation justified for "@ + seconds_text(VALIDATION_WINDOW as nat)
                        + " from now"@,
                    "neutral"@,
                ),
            ),
            result: "pending"@,
            result_text: "⏳ PENDING"@,
            result_detail:
                "State validated — any AutomationTriggered within the next 5 minutes is considered justified"@,
        },
        AutomationEvent::AutomationTriggered => {
            let lookup = opening(ev) + validation_rows(s, ev.ts);
            if s.backed(ev.ts) {
                CheckView {
                    rule: "Contract AUTO-1 — AutomationTriggered backed by fresh StateValidated"@,
                    lookup,
                    result: "pass"@,
                    result_text: "✔ PASS"@,
                    result_detail:
                        "Automation is acting on validated state — trigger is causally justified"@,
                }
            } else if s.trigger_count == 0 {
                CheckView {
                    rule:
                        "Contract AUTO-1 — AutomationTriggered must be backed by StateValidated within 5-min window"@,
                    lookup: lookup.push(("trigger_count"@, "1 (first stale trigger)"@, "warn"@)),
                    result: "warn"@,
                    result_text: "⚠ CONTRACT WARNING"@,
                    result_detail: "'"@ + ev.entity
                        + "': automation fired on unvalidated state — monitoring for cascade"@,
                }
            } else {
                CheckView {
                    rule:
                        "Contract AUTO-2 — Repeated automation on unvalidated state — amplification invariant violated"@,
                    lookup: lookup.push(
                        (
                            "trigger_count"@,
                            decimal_text((s.trigger_count + 1) as nat) + " (cascade)"@,
                            "fail"@,
                        ),
                    ),
                    result: "fail"@,
                    result_text: "✘ CONTRACT VIOLATED"@,
                    result_detail: "'"@ + ev.entity + "': "@ + decimal_text(
                        (s.trigger_count + 1) as nat,
                    )
                        + " consecutive triggers without StateValidated — automation is amplifying unresolved deviation"@,
                }
            }
        },
    }
}

/// The check can be put into words: no trigger is dated before the validation that it is held
/// against, and the counter has room.
pub open spec fn automation_checkable(event: AutomationEvent, ts: u64, s: AutomationState) -> bool {
    event == AutomationEvent::AutomationTriggered ==> {
        &&& s.last_validated_at matches Some(t) ==> t <= ts
        &&& !s.backed(ts) ==> s.trigger_count < usize::MAX
    }
}

/// What is known of an orchestrator, if anything is.
pub open spec fn automation_known(pre: Option<&AutomationState>) -> AutomationState {
    match pre {
        Some(s) => *s,
        None => AutomationState::blank(),
    }
}

/// Explains the check of an automation event.
pub fn compute_automation_check(ev: &Event, pre: Option<&AutomationState>) -> (r: CheckInfo)
    requires
        ev.kind is Automation,
        automation_checkable(ev.kind->Automation_0, ev.ts, automation_known(pre)),
    ensures
        r@ == automation_check(ev.kind->Automation_0, ev@, automation_known(pre)),
{
    let s = match pre {
        Some(s) => *s,
        None => AutomationState::default(),
    };
    let mut lookup = open_lookup(ev);
    if let DomainEvent::Automation(AutomationEvent::StateValidated) = ev.kind {
        add_row(
            &mut lookup,
            "action",
            "Validation timestamp recorded, trigger_count reset",
            "ok",
        );
        add_row(
            &mut lookup,
            "window",
            "automation justified for ".to_owned().concat(
                seconds(VALIDATION_WINDOW).as_str(),
            ).concat(" from now").as_str(),
            "neutral",
        );
        return CheckInfo {
            rule: "Contract AUTO-1 — StateValidated(entity) · validation window opens".to_owned(),
            lookup,
            result: "pending",
            result_text: "⏳ PENDING".to_owned(),
            result_detail:
                "State validated — any AutomationTriggered within the next 5 minutes is considered justified".to_owned(),
        };
    }
    let justified = s.validation_within(ev.ts, VALIDATION_WINDOW).is_some();
    match s.last_validated_at {
        None => {
            add_row(&mut lookup, "last_validated", "NONE", "fail");
            add_row(&mut lookup, "justified?", "NO — no StateValidated on record", "fail");
        },
        Some(t) => {
            let elapsed: u64 = ev.ts.saturating_sub(t);
            add_row(&mut lookup, "last_validated", moment(t).as_str(), "neutral");
            add_row(
                &mut lookup,
                "elapsed",
                seconds(elapsed).as_str(),
                status(elapsed <= VALIDATION_WINDOW),
            );
            add_row(&mut lookup, "window", seconds(VALIDATION_WINDOW).as_str(), "neutral");
            let finding = if justified {
                "YES — within window".to_owned()
            } else {
                "NO — validation expired ".to_owned().concat(
                    seconds(elapsed - VALIDATION_WINDOW).as_str(),
                ).concat(" ago")
            };
            add_row(&mut lookup, "justified?", finding.as_str(), status(justified));
        },
    }
    assert(row_views(lookup@) =~= opening(ev@) + validation_rows(s, ev.ts));
    if justified {
        return CheckInfo {
            rule: "Contract AUTO-1 — AutomationTriggered backed by fresh StateValidated".to_owned(),
            lookup,
            result: "pass",
            result_text: "✔ PASS".to_owned(),
            result_detail:
                "Automation is acting on validated state — trigger is causally justified".to_owned(),
        };
    }
    let next_count: usize = s.trigger_count + 1;
    if next_count == 1 {
        add_row(&mut lookup, "trigger_count", "1 (first stale trigger)", "warn");
        CheckInfo {
            rule:
                "Contract AUTO-1 — AutomationTriggered must be backed by StateValidated within 5-min window".to_owned(),
            lookup,
            result: "warn",
            result_text: "⚠ CONTRACT WARNING".to_owned(),
            result_detail: "'".to_owned().concat(ev.entity).concat(
                "': automation fired on unvalidated state — monitoring for cascade",
            ),
        }
    } else {
        add_row(
            &mut lookup,
            "trigger_count",
            decimal(next_count as u64).concat(" (cascade)").as_str(),
            "fail",
        );
        CheckInfo {
            rule:
                "Contract AUTO-2 — Repeated automation on unvalidated state — amplification invariant violated".to_owned(),
            lookup,
            result: "fail",
            result_text: "✘ CONTRACT VIOLATED".to_owned(),
            result_detail: "'".to_owned().concat(ev.entity).concat("': ").concat(
                decimal(next_count as u64).as_str(),
            ).concat(
                " consecutive triggers without StateValidated — automation is amplifying unresolved deviation",
            ),
        }
    }
}

} // verus!
