//! What the snapshot shows, told by what is on record.

use vstd::prelude::*;

use crate::automation::AutomationState;
use crate::checks::table::RowView;
use crate::control_plane::ControlPlaneState;
use crate::events::Domain;
use crate::laws::checks::at;
use crate::ordering::name_before;
use crate::snapshot::lists_tracked;
use crate::snapshot::snapshot_of;
use crate::snapshot::tracked_keys;
use crate::snapshot::EntityStateView;
use crate::snapshot::Key;
use crate::snapshot::Known;
use crate::state::AuthView;
use crate::text::decimal_text;
use crate::thermal::ThermalState;

verus! {

/// A line for a time on record: a dash where there is none, and a mark where it no longer counts.
pub open spec fn time_line(label: Seq<char>, time: Option<u64>, counts: bool) -> RowView {
    match time {
        None => (label, "—"@, "none"@),
        Some(t) => (
            label,
            if counts {
                at(t as int)
            } else {
                at(t as int) + " ⚠"@
            },
            if counts {
                "ok"@
            } else {
                "fail"@
            },
        ),
    }
}

/// A line for something that happened or did not.
pub open spec fn flag_line(label: Seq<char>, set: bool) -> RowView {
    (
        label,
        if set {
            "yes"@
        } else {
            "no"@
        },
        if set {
            "ok"@
        } else {
            "none"@
        },
    )
}

/// A line for a count that should be zero.
pub open spec fn count_line(label: Seq<char>, n: usize) -> RowView {
    (
        label,
        decimal_text(n as nat),
        if n == 0 {
            "ok"@
        } else if n == 1 {
            "warn"@
        } else {
            "fail"@
        },
    )
}

/// The panel of an entity in the identity domain.
pub open spec fn identity_shown(s: AuthView, ts: u64) -> EntityStateView {
    EntityStateView {
        domain: "Identity"@,
        fields: seq![
            time_line(
                "last_login"@,
                if s.logins.len() == 0 {
                    None
                } else {
                    Some(s.logins.last())
                },
                ts <= s.logins.last() + 300,
            ),
            time_line("token_issued"@, s.token_issued_at, true),
            flag_line("token_used"@, s.token_used),
        ],
    }
}

/// The panel of an entity of the control plane.
pub open spec fn control_plane_shown(s: ControlPlaneState, ts: u64) -> EntityStateView {
    EntityStateView {
        domain: "ControlPlane"@,
        fields: seq![
            time_line(
                "role_assigned_at"@,
                s.role_assigned_at,
                s.role_assigned_at matches Some(t) && t <= ts <= t + 3600,
            ),
            flag_line("admin_action"@, s.admin_action_taken),
        ],
    }
}

/// The panel of a rack.
pub open spec fn thermal_shown(s: ThermalState, ts: u64) -> EntityStateView {
    EntityStateView {
        domain: "Thermal"@,
        fields: seq![
            time_line(
                "last_workload_at"@,
                s.last_workload_at,
                s.last_workload_at matches Some(t) && t <= ts <= t + 1800,
            ),
            match s.last_temp {
                None => ("last_temp"@, "—"@, "none"@),
                Some(temp) => (
                    "last_temp"@,
                    decimal_text(temp as nat) + "°C"@,
                    if temp > 50 {
                        "fail"@
                    } else {
                        "ok"@
                    },
                ),
            },
            count_line("bias_count"@, s.bias_count),
        ],
    }
}

/// The panel of an orchestrator.
pub open spec fn automation_shown(s: AutomationState, ts: u64) -> EntityStateView {
    EntityStateView {
        domain: "Automation"@,
        fields: seq![
            time_line(
                "last_validated_at"@,
                s.last_validated_at,
                s.last_validated_at matches Some(t) && t <= ts <= t + 300,
            ),
            count_line("trigger_count"@, s.trigger_count),
            match s.last_trigger_at {
                None => ("last_trigger_at"@, "—"@, "none"@),
                Some(t) => ("last_trigger_at"@, at(t as int), "neutral"@),
            },
        ],
    }
}

/// A panel shows the record of its entity in its domain. A time is marked exactly where its
/// window has passed, a temperature exactly where it is above 50 degrees.
pub proof fn law_panel_shows_record(known: Known, name: Seq<char>, ts: u64)
    ensures
        known.panel((name, Domain::Identity), ts) == identity_shown(known.identity[name], ts),
        known.panel((name, Domain::ControlPlane), ts) == control_plane_shown(
            known.control_plane[name],
            ts,
        ),
        known.panel((name, Domain::Thermal), ts) == thermal_shown(known.thermal[name], ts),
        known.panel((name, Domain::Automation), ts) == automation_shown(known.automation[name], ts),
{
    assert(known.panel((name, Domain::Identity), ts).fields =~= identity_shown(
        known.identity[name],
        ts,
    ).fields);
    assert(known.panel((name, Domain::ControlPlane), ts).fields =~= control_plane_shown(
        known.control_plane[name],
        ts,
    ).fields);
    assert(known.panel((name, Domain::Thermal), ts).fields =~= thermal_shown(
        known.thermal[name],
        ts,
    ).fields);
    assert(known.panel((name, Domain::Automation), ts).fields =~= automation_shown(
        known.automation[name],
        ts,
    ).fields);
}

/// Whether the engine of the domain has a record of the entity.
pub open spec fn on_record(known: Known, key: Key) -> bool {
    match key.1 {
        Domain::Identity => known.identity.contains_key(key.0),
        Domain::ControlPlane => known.control_plane.contains_key(key.0),
        Domain::Thermal => known.thermal.contains_key(key.0),
        Domain::Automation => known.automation.contains_key(key.0),
    }
}

/// The order of domains under one name: identity, control plane, thermal, automation.
pub open spec fn domain_before(a: Domain, b: Domain) -> bool {
    ||| a is Identity && !(b is Identity)
    ||| a is ControlPlane && (b is Thermal || b is Automation)
    ||| a is Thermal && b is Automation
}

/// The snapshot shows one panel for every record and no other, ordered by name and under one name
/// by domain.
pub proof fn law_snapshot_shows_every_record(known: Known, ts: u64)
    requires
        lists_tracked(tracked_keys(known), known),
    ensures
        ({
            let keys = tracked_keys(known);
            let shown = snapshot_of(known, ts);
            &&& shown.len() == keys.len()
            &&& forall|i: int|
                0 <= i < shown.len() ==> #[trigger] shown[i] == (
                    keys[i].0,
                    known.panel(keys[i], ts),
                )
            &&& forall|key: Key| #[trigger] keys.contains(key) <==> on_record(known, key)
            &&& forall|i: int, j: int|
                0 <= i < j < keys.len() ==> {
                    let a = #[trigger] keys[i];
                    let b = #[trigger] keys[j];
                    name_before(a.0, b.0) || a.0 == b.0 && domain_before(a.1, b.1)
                }
        }),
{
    let keys = tracked_keys(known);
    let tracks = |k: Key| known.tracks(k);
    assert forall|key: Key| #[trigger] keys.contains(key) <==> on_record(known, key) by {
        if keys.contains(key) {
            let i = choose|i: int| 0 <= i < keys.len() && keys[i] == key;
            assert(tracks(keys[i]));
        }
        if on_record(known, key) {
            assert(tracks(key));
        }
    }
}

} // verus!
