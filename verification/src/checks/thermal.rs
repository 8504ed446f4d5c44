//! The check of thermal events.

use vstd::prelude::*;
use vstd::string::*;

use crate::checks::table::add_row;
use crate::checks::table::moment;
use crate::checks::table::moment_text;
use crate::checks::table::open_lookup;
use crate::checks::table::opening;
use crate::checks::table::row_views;
use crate::checks::table::seconds;
use crate::checks::table::seconds_text;
use crate::checks::table::status;
use crate::checks::table::status_text;
use crate::checks::table::CheckInfo;
use crate::checks::table::CheckView;
use crate::checks::table::RowView;
use crate::events::DomainEvent;
use crate::events::Event;
use crate::events::EventView;
use crate::events::ThermalEvent;
use crate::freshness::elapsed_since;
use crate::freshness::fresh;
use crate::text::decimal;
use crate::text::decimal_text;
use crate::thermal::biased;
use crate::thermal::ThermalState;
use crate::thermal::BIAS_THRESHOLD;
use crate::thermal::JUSTIFICATION_WINDOW;
use crate::thermal::NOMINAL_TEMP;

verus! {

/// A workload is on record and still counts at `ts`.
pub open spec fn workload_declared(s: ThermalState, ts: u64) -> bool {
    fresh(s.last_workload_at, ts, JUSTIFICATION_WINDOW) is Some
}

/// What the lookup says of the temperature.
pub open spec fn temperature_rows(temp: u64) -> Seq<RowView> {
    seq![
        ("temp"@, decimal_text(temp as nat) + "°C"@, status_text(!biased(temp))),
        (
            "threshold"@,
            decimal_text((NOMINAL_TEMP + BIAS_THRESHOLD) as nat) + "°C (nominal "@ + decimal_text(
                NOMINAL_TEMP as nat,
            ) + " + bias "@ + decimal_text(BIAS_THRESHOLD as nat) + ")"@,
            "neutral"@,
        ),
        (
            "biased?"@,
            if biased(temp) {
                "YES"@
            } else {
                "NO"@
            },
            status_text(!biased(temp)),
        ),
    ]
}

/// What the lookup finds of the last workload.
pub open spec fn workload_rows(s: ThermalState, ts: u64) -> Seq<RowView> {
    match s.last_workload_at {
        None => seq![
            ("last_workload"@, "NONE"@, "none"@),
            ("justified?"@, "NO — no workload declared"@, "fail"@),
        ],
        Some(t) => seq![
            ("last_workload"@, moment_text(t), "neutral"@),
            (
                "elapsed"@,
                seconds_text(elapsed_since(t, ts)),
                status_text(elapsed_since(t, ts) <= JUSTIFICATION_WINDOW),
            ),
            (
                "justified?"@,
                if workload_declared(s, ts) {
                    "YES — within window"@
                } else {
                    "NO — workload expired "@ + seconds_text(
                        (elapsed_since(t, ts) - JUSTIFICATION_WINDOW) as nat,
                    ) + " ago"@
                },
                status_text(workload_declared(s, ts)),
            ),
        ],
    }
}

/// The check of a thermal event against what is known of the rack.
pub open spec fn thermal_check(event: ThermalEvent, ev: EventView, s: ThermalState) -> CheckView {
    match event {
        ThermalEvent::WorkloadScheduled => CheckView {
            rule: "Contract TH-1 — WorkloadScheduled(rack) · justification window opens"@,
            lookup: opening(ev).push(
                ("action"@, "Workload timestamp recorded to state"@, "ok"@),
            ).push(
                (
                    "window"@,
                    "justification valid for "@ + seconds_text(JUSTIFICATION_WINDOW as nat),
                    "neutral"@,
                ),
            ),
            result: "pending"@,
            result_text: "⏳ PENDING"@,
            result_detail:
                "Workload declared — any ThermalReading above threshold within 30 min is now justified"@,
        },
        ThermalEvent::ThermalReading(temp) => {
            let lookup = opening(ev) + temperature_rows(temp) + workload_rows(s, ev.ts);
            if !s.unexplained(temp, ev.ts) {
                CheckView {
                    rule: "Contract TH-1 — ThermalReading within justified limits"@,
                    lookup,
                    result: "pass"@,
                    result_text: "✔ PASS"@,
                    result_detail: if !biased(temp) {
                        "temp="@ + decimal_text(temp as nat)
                            + "°C is within nominal range — no thermal bias"@
                    } else {
                        "temp="@ + decimal_text(temp as nat)
                            + "°C exceeds threshold but workload declared "@ + seconds_text(
                            elapsed_since(s.last_workload_at->0, ev.ts),
                        ) + " ago — justified"@
                    },
                }
            } else if s.bias_count == 0 {
                CheckView {
                    rule:
                        "Contract TH-1 — ThermalReading bias must be justified by WorkloadScheduled"@,
                    lookup: lookup.push(("bias_count"@, "1 (first occurrence)"@, "warn"@)),
                    result: "warn"@,
                    result_text: "⚠ CONTRACT WARNING"@,
                    result_detail: "'"@ + ev.entity + "': temp="@ + decimal_text(temp as nat)
                        + "°C exceeds threshold with no workload justification — monitoring for sustained bias"@,
                }
            } else {
                CheckView {
                    rule:
                        "Contract TH-2 — Sustained unjustified thermal bias — equilibrium invariant violated"@,
                    lookup: lookup.push(
                        (
                            "bias_count"@,
                            decimal_text((s.bias_count + 1) as nat) + " (sustained)"@,
                            "fail"@,
                        ),
                    ),
                    result: "fail"@,
                    result_text: "✘ CONTRACT VIOLATED"@,
                    result_detail: "'"@ + ev.entity + "': "@ + decimal_text(
                        (s.bias_count + 1) as nat,
                    ) + " consecutive readings above threshold ("@ + decimal_text(temp as nat)
                        + "°C) — no workload justification found"@,
                }
            }
        },
    }
}

/// The check can be put into words: no reading is dated before the workload that it is held
/// against, and the counter has room.
pub open spec fn thermal_checkable(event: ThermalEvent, ts: u64, s: ThermalState) -> bool {
    event matches ThermalEvent::ThermalReading(temp) ==> {
        &&& s.last_workload_at matches Some(t) ==> t <= ts
        &&& s.unexplained(temp, ts) ==> s.bias_count < usize::MAX
    }
}

/// What is known of a rack, if anything is.
pub open spec fn thermal_known(pre: Option<&ThermalState>) -> ThermalState {
    match pre {
        Some(s) => *s,
        None => ThermalState::blank(),
    }
}

/// Explains the check of a thermal event.
pub fn compute_thermal_check(ev: &Event, pre: Option<&ThermalState>) -> (r: CheckInfo)
    requires
        ev.kind is Thermal,
        thermal_checkable(ev.kind->Thermal_0, ev.ts, thermal_known(pre)),
    ensures
        r@ == thermal_check(ev.kind->Thermal_0, ev@, thermal_known(pre)),
{
    let s = match pre {
        Some(s) => *s,
        None => ThermalState::default(),
    };
    let mut lookup = open_lookup(ev);
    let temp: u64 = match ev.kind {
        DomainEvent::Thermal(ThermalEvent::ThermalReading(temp)) => temp,
        _ => {
            add_row(&mut lookup, "action", "Workload timestamp recorded to state", "ok");
            add_row(
                &mut lookup,
                "window",
                "justification valid for ".to_owned().concat(
                    seconds(JUSTIFICATION_WINDOW).as_str(),
                ).as_str(),
                "neutral",
            );
            return CheckInfo {
                rule:
                    "Contract TH-1 — WorkloadScheduled(rack) · justification window opens".to_owned(),
                lookup,
                result: "pending",
                result_text: "⏳ PENDING".to_owned(),
                result_detail:
                    "Workload declared — any ThermalReading above threshold within 30 min is now justified".to_owned(),
            };
        },
    };
    let threshold: u64 = NOMINAL_TEMP + BIAS_THRESHOLD;
    let is_biased = temp > threshold;
    let justified = s.workload_within(ev.ts, JUSTIFICATION_WINDOW).is_some();
    add_row(&mut lookup, "temp", decimal(temp).concat("°C").as_str(), status(!is_biased));
    add_row(
        &mut lookup,
        "threshold",
        decimal(threshold).concat("°C (nominal ").concat(decimal(NOMINAL_TEMP).as_str()).concat(
            " + bias ",
        ).concat(decimal(BIAS_THRESHOLD).as_str()).concat(")").as_str(),
        "neutral",
    );
    add_row(
        &mut lookup,
        "biased?",
        if is_biased {
            "YES"
        } else {
            "NO"
        },
        status(!is_biased),
    );
    assert(row_views(lookup@) =~= opening(ev@) + temperature_rows(temp));
    match s.last_workload_at {
        None => {
            add_row(&mut lookup, "last_workload", "NONE", "none");
            add_row(&mut lookup, "justified?", "NO — no workload declared", "fail");
        },
        Some(t) => {
            let elapsed: u64 = ev.ts.saturating_sub(t);
            add_row(&mut lookup, "last_workload", moment(t).as_str(), "neutral");
            add_row(
                &mut lookup,
                "elapsed",
                seconds(elapsed).as_str(),
                status(elapsed <= JUSTIFICATION_WINDOW),
            );
            let finding = if justified {
                "YES — within window".to_owned()
            } else {
                "NO — workload expired ".to_owned().concat(
                    seconds(elapsed - JUSTIFICATION_WINDOW).as_str(),
                ).concat(" ago")
            };
            add_row(&mut lookup, "justified?", finding.as_str(), status(justified));
        },
    }
    assert(row_views(lookup@) =~= opening(ev@) + temperature_rows(temp) + workload_rows(s, ev.ts));
    if !is_biased || justified {
        let result_detail = if !is_biased {
            "temp=".to_owned().concat(decimal(temp).as_str()).concat(
                "°C is within nominal range — no thermal bias",
            )
        } else {
            "temp=".to_owned().concat(decimal(temp).as_str()).concat(
                "°C exceeds threshold but workload declared ",
            ).concat(
                seconds(ev.ts.saturating_sub(s.last_workload_at.unwrap_or(0))).as_str(),
            ).concat(" ago — justified")
        };
        return CheckInfo {
            rule: "Contract TH-1 — ThermalReading within justified limits".to_owned(),
            lookup,
            result: "pass",
            result_text: "✔ PASS".to_owned(),
            result_detail,
        };
    }
    let next_count: usize = s.bias_count + 1;
    if next_count == 1 {
        add_row(&mut lookup, "bias_count", "1 (first occurrence)", "warn");
        CheckInfo {
            rule:
                "Contract TH-1 — ThermalReading bias must be justified by WorkloadScheduled".to_owned(),
            lookup,
            result: "warn",
            result_text: "⚠ CONTRACT WARNING".to_owned(),
            result_detail: "'".to_owned().concat(ev.entity).concat("': temp=").concat(
                decimal(temp).as_str(),
            ).concat(
                "°C exceeds threshold with no workload justification — monitoring for sustained bias",
            ),
        }
    } else {
        add_row(
            &mut lookup,
            "bias_count",
            decimal(next_count as u64).concat(" (sustained)").as_str(),
            "fail",
        );
        CheckInfo {
            rule:
                "Contract TH-2 — Sustained unjustified thermal bias — equilibrium invariant violated".to_owned(),
            lookup,
            result: "fail",
            result_text: "✘ CONTRACT VIOLATED".to_owned(),
            result_detail: "'".to_owned().concat(ev.entity).concat("': ").concat(
                decimal(next_count as u64).as_str(),
            ).concat(" consecutive readings above threshold (").concat(
                decimal(temp).as_str(),
            ).concat("°C) — no workload justification found"),
        }
    }
}

} // verus!
