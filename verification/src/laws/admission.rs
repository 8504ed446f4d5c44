//! Which events the engines admit.

use vstd::prelude::*;

use crate::automation::automation_accepts;
use crate::automation::AutomationModel;
use crate::automation::AutomationState;
use crate::checks::automation::automation_checkable;
use crate::checks::control_plane::control_plane_checkable;
use crate::checks::identity::identity_checkable;
use crate::checks::thermal::thermal_checkable;
use crate::control_plane::control_plane_accepts;
use crate::control_plane::ControlPlaneModel;
use crate::control_plane::ControlPlaneState;
use crate::engine::identity_accepts;
use crate::engine::IdentityModel;
use crate::events::AutomationEvent;
use crate::events::ControlPlaneEvent;
use crate::events::DomainEvent;
use crate::events::EventView;
use crate::events::IdentityEvent;
use crate::events::ThermalEvent;
use crate::laws::identity::lemma_one_login_counts;
use crate::laws::streams::one_counts;
use crate::state::AuthView;
use crate::thermal::thermal_accepts;
use crate::thermal::ThermalModel;
use crate::thermal::ThermalState;

verus! {

/// The identity engine admits every event but the use of a token that has to be reported under a
/// last login dated behind it.
pub proof fn law_identity_admits(model: IdentityModel, ev: EventView)
    ensures
        identity_accepts(model, ev) <==> !{
            &&& ev.kind == DomainEvent::Identity(IdentityEvent::AuthTokenUsed)
            &&& model.contains_key(ev.entity)
            &&& model[ev.entity].logins.len() > 0
            &&& !one_counts(model[ev.entity].logins, ev.ts, 300)
            &&& model[ev.entity].logins.last() > ev.ts
        },
{
    if model.contains_key(ev.entity) {
        lemma_one_login_counts(model[ev.entity].logins, ev.ts);
    }
}

/// The control plane engine admits every event but an admin action dated before the last role.
pub proof fn law_control_plane_admits(model: ControlPlaneModel, ev: EventView)
    ensures
        control_plane_accepts(model, ev) <==> !{
            &&& ev.kind == DomainEvent::ControlPlane(ControlPlaneEvent::AdminActionTaken)
            &&& model.contains_key(ev.entity)
            &&& model[ev.entity].role_assigned_at matches Some(t) && t > ev.ts
        },
{
}

/// The thermal engine admits every event for which its counter has room.
pub proof fn law_thermal_admits(model: ThermalModel, ev: EventView)
    ensures
        !(model.contains_key(ev.entity) && model[ev.entity].bias_count == usize::MAX)
            ==> thermal_accepts(model, ev),
{
}

/// The automation engine admits every event for which its counter has room.
pub proof fn law_automation_admits(model: AutomationModel, ev: EventView)
    ensures
        !(model.contains_key(ev.entity) && model[ev.entity].trigger_count == usize::MAX)
            ==> automation_accepts(model, ev),
{
}

/// Every check can be explained that is not dated before what it looks up, as long as the
/// counters have room.
pub proof fn law_checks_are_explained(
    ts: u64,
    id_event: IdentityEvent,
    id: AuthView,
    cp_event: ControlPlaneEvent,
    cp: ControlPlaneState,
    th_event: ThermalEvent,
    th: ThermalState,
    au_event: AutomationEvent,
    au: AutomationState,
)
    ensures
        (id.logins.len() > 0 ==> id.logins.last() <= ts) ==> identity_checkable(id_event, ts, id),
        identity_checkable(IdentityEvent::LoginSuccess, ts, id),
        (cp.role_assigned_at matches Some(t) ==> t <= ts) ==> control_plane_checkable(
            cp_event,
            ts,
            cp,
        ),
        control_plane_checkable(ControlPlaneEvent::RoleAssigned, ts, cp),
        (th.last_workload_at matches Some(t) ==> t <= ts) && th.bias_count < usize::MAX
            ==> thermal_checkable(th_event, ts, th),
        thermal_checkable(ThermalEvent::WorkloadScheduled, ts, th),
        (au.last_validated_at matches Some(t) ==> t <= ts) && au.trigger_count < usize::MAX
            ==> automation_checkable(au_event, ts, au),
        automation_checkable(AutomationEvent::StateValidated, ts, au),
{
}

} // verus!
