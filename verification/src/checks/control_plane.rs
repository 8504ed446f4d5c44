//! The check of control plane events.

use vstd::prelude::*;
use vstd::string::*;

use crate::checks::table::add_row;
use crate::checks::table::moment;
use crate::checks::table::moment_text;
use crate::checks::table::open_lookup;
use crate::checks::table::opening;
use crate::checks::table::row_views;
use crate::checks::table::seconds;
use crate::checks::table::seconds_text;
use crate::checks::table::status;
use crate::checks::table::status_text;
use crate::checks::table::CheckInfo;
use crate::checks::table::CheckView;
use crate::checks::table::RowView;
use crate::control_plane::ControlPlaneState;
use crate::control_plane::CP_WINDOW;
use crate::events::ControlPlaneEvent;
use crate::events::DomainEvent;
use crate::events::Event;
use crate::events::EventView;
use crate::freshness::fresh;

verus! {

/// A role is on record and still counts at `ts`.
pub open spec fn authorised(s: ControlPlaneState, ts: u64) -> bool {
    fresh(s.role_assigned_at, ts, CP_WINDOW) is Some
}

/// What the lookup finds of the role.
pub open spec fn role_rows(s: ControlPlaneState, ts: u64) -> Seq<RowView> {
    match s.role_assigned_at {
        None => seq![
            ("role_assigned"@, "NONE"@, "fail"@),
            ("role_valid?"@, "NO — no role assignment on record"@, "fail"@),
        ],
        Some(t) => seq![
            ("role_assigned"@, moment_text(t), "neutral"@),
            ("elapsed"@, seconds_text((ts - t) as nat), status_text(ts - t <= CP_WINDOW)),
            ("window"@, seconds_text(CP_WINDOW as nat), "neutral"@),
            (
                "role_valid?"@,
                if authorised(s, ts) {
                    "YES"@
                } else {
                    "NO — expired by "@ + seconds_text((ts - t - CP_WINDOW) as nat)
                },
                status_text(authorised(s, ts)),
            ),
        ],
    }
}

/// The check of a control plane event against what is known of the entity.
pub open spec fn control_plane_check(
    event: ControlPlaneEvent,
    ev: EventView,
    s: ControlPlaneState,
) -> CheckView {
    match event {
        ControlPlaneEvent::RoleAssigned => CheckView {
            rule: "Contract CP-1 — RoleAssigned(entity) · role validity window opens"@,
            lookup: opening(ev).push(
                ("action"@, "Role timestamp recorded to state"@, "ok"@),
            ).push(
                (
                    "window"@,
                    "valid for "@ + seconds_text(CP_WINDOW as nat) + " from now"@,
                    "neutral"@,
                ),
            ),
            result: "pending"@,
            result_text: "⏳ PENDING"@,
            result_detail:
                "Role assigned — engine will verify any AdminActionTaken arrives within the 1-hour window"@,
        },
        ControlPlaneEvent::AdminActionTaken => {
            let rule =
                "Contract CP-2 — AdminActionTaken requires RoleAssigned within 1-hour window"@;
            let lookup = opening(ev) + role_rows(s, ev.ts);
            if authorised(s, ev.ts) {
                CheckView {
                    rule,
                    lookup,
                    result: "pass"@,
                    result_text: "✔ PASS"@,
                    result_detail: "Role is current — admin action is authorised"@,
                }
            } else {
                CheckView {
                    rule,
                    lookup,
                    result: "fail"@,
                    result_text: "✘ CONTRACT VIOLATED"@,
                    result_detail: match s.role_assigned_at {
                        None => "No role assignment on record — privilege misuse detected"@,
                        Some(t) => "Role expired: assigned "@ + seconds_text((ev.ts - t) as nat)
                            + " ago, window is "@ + seconds_text(CP_WINDOW as nat)
                            + " — exceeded by "@ + seconds_text((ev.ts - t - CP_WINDOW) as nat),
                    },
                }
            }
        },
    }
}

/// The check can be put into words: no admin action is dated before the role that it is held
/// against.
pub open spec fn control_plane_checkable(
    event: ControlPlaneEvent,
    ts: u64,
    s: ControlPlaneState,
) -> bool {
    event == ControlPlaneEvent::AdminActionTaken ==> (s.role_assigned_at matches Some(t) ==> t
        <= ts)
}

/// What is known of an entity, if anything is.
pub open spec fn control_plane_known(pre: Option<&ControlPlaneState>) -> ControlPlaneState {
    match pre {
        Some(s) => *s,
        None => ControlPlaneState::blank(),
    }
}

/// Explains the check of a control plane event.
pub fn compute_cp_check(ev: &Event, pre: Option<&ControlPlaneState>) -> (r: CheckInfo)
    requires
        ev.kind is ControlPlane,
        control_plane_checkable(ev.kind->ControlPlane_0, ev.ts, control_plane_known(pre)),
    ensures
        r@ == control_plane_check(ev.kind->ControlPlane_0, ev@, control_plane_known(pre)),
{
    let s = match pre {
        Some(s) => *s,
        None => ControlPlaneState::default(),
    };
    let mut lookup = open_lookup(ev);
    if let DomainEvent::ControlPlane(ControlPlaneEvent::RoleAssigned) = ev.kind {
        add_row(&mut lookup, "action", "Role timestamp recorded to state", "ok");
        add_row(
            &mut lookup,
            "window",
            "valid for ".to_owned().concat(seconds(CP_WINDOW).as_str()).concat(
                " from now",
            ).as_str(),
            "neutral",
        );
        return CheckInfo {
            rule: "Contract CP-1 — RoleAssigned(entity) · role validity window opens".to_owned(),
            lookup,
            result: "pending",
            result_text: "⏳ PENDING".to_owned(),
            result_detail:
                "Role assigned — engine will verify any AdminActionTaken arrives within the 1-hour window".to_owned(),
        };
    }
    let in_window = s.role_within(ev.ts, CP_WINDOW).is_some();
    match s.role_assigned_at {
        Some(t) => {
            let elapsed: u64 = ev.ts - t;
            add_row(&mut lookup, "role_assigned", moment(t).as_str(), "neutral");
            add_row(
                &mut lookup,
                "elapsed",
                seconds(elapsed).as_str(),
                status(elapsed <= CP_WINDOW),
            );
            add_row(&mut lookup, "window", seconds(CP_WINDOW).as_str(), "neutral");
            let finding = if in_window {
                "YES".to_owned()
            } else {
                "NO — expired by ".to_owned().concat(seconds(elapsed - CP_WINDOW).as_str())
            };
            add_row(&mut lookup, "role_valid?", finding.as_str(), status(in_window));
        },
        None => {
            add_row(&mut lookup, "role_assigned", "NONE", "fail");
            add_row(&mut lookup, "role_valid?", "NO — no role assignment on record", "fail");
        },
    }
    assert(row_views(lookup@) =~= opening(ev@) + role_rows(s, ev.ts));
    let rule =
        "Contract CP-2 — AdminActionTaken requires RoleAssigned within 1-hour window".to_owned();
    if in_window {
        CheckInfo {
            rule,
            lookup,
            result: "pass",
            result_text: "✔ PASS".to_owned(),
            result_detail: "Role is current — admin action is authorised".to_owned(),
        }
    } else {
        let result_detail = match s.role_assigned_at {
            None => "No role assignment on record — privilege misuse detected".to_owned(),
            Some(t) => {
                let elapsed: u64 = ev.ts - t;
                "Role expired: assigned ".to_owned().concat(seconds(elapsed).as_str()).concat(
                    " ago, window is ",
                ).concat(seconds(CP_WINDOW).as_str()).concat(" — exceeded by ").concat(
                    seconds(elapsed - CP_WINDOW).as_str(),
                )
            },
        };
        CheckInfo {
            rule,
            lookup,
            result: "fail",
            result_text: "✘ CONTRACT VIOLATED".to_owned(),
            result_detail,
        }
    }
}

} // verus!
