//! The explanation of a check: which rule an event is held against, what the engine finds on
//! record, and what follows.

pub mod automation;
pub mod control_plane;
pub mod identity;
pub mod table;
pub mod thermal;

use vstd::prelude::*;

use crate::automation::AutomationState;
use crate::checks::automation::automation_check;
use crate::checks::automation::automation_checkable;
use crate::checks::automation::automation_known;
use crate::checks::automation::compute_automation_check;
use crate::checks::control_plane::compute_cp_check;
use crate::checks::control_plane::control_plane_check;
use crate::checks::control_plane::control_plane_checkable;
use crate::checks::control_plane::control_plane_known;
use crate::checks::identity::compute_identity_check;
use crate::checks::identity::identity_check;
use crate::checks::identity::identity_checkable;
use crate::checks::identity::identity_known;
use crate::checks::table::CheckInfo;
use crate::checks::table::CheckView;
use crate::checks::thermal::compute_thermal_check;
use crate::checks::thermal::thermal_check;
use crate::checks::thermal::thermal_checkable;
use crate::checks::thermal::thermal_known;
use crate::control_plane::ControlPlaneState;
use crate::events::DomainEvent;
use crate::events::Event;
use crate::events::EventView;
use crate::state::AuthState;
use crate::state::AuthView;
use crate::thermal::ThermalState;

verus! {

/// The check of an event against what the engine of its domain knows of the entity.
pub open spec fn check_of(
    ev: EventView,
    id: AuthView,
    cp: ControlPlaneState,
    th: ThermalState,
    au: AutomationState,
) -> CheckView {
    match ev.kind {
        DomainEvent::Identity(event) => identity_check(event, ev, id),
        DomainEvent::ControlPlane(event) => control_plane_check(event, ev, cp),
        DomainEvent::Thermal(event) => thermal_check(event, ev, th),
        DomainEvent::Automation(event) => automation_check(event, ev, au),
    }
}

/// The check of an event can be put into words.
pub open spec fn checkable(
    ev: EventView,
    id: AuthView,
    cp: ControlPlaneState,
    th: ThermalState,
    au: AutomationState,
) -> bool {
    match ev.kind {
        DomainEvent::Identity(event) => identity_checkable(event, ev.ts, id),
        DomainEvent::ControlPlane(event) => control_plane_checkable(event, ev.ts, cp),
        DomainEvent::Thermal(event) => thermal_checkable(event, ev.ts, th),
        DomainEvent::Automation(event) => automation_checkable(event, ev.ts, au),
    }
}

/// Explains the check of an event, given what each engine knows of the entity beforehand.
pub fn compute_check(
    ev: &Event,
    id_pre: Option<&AuthState>,
    cp_pre: Option<&ControlPlaneState>,
    th_pre: Option<&ThermalState>,
    au_pre: Option<&AutomationState>,
) -> (r: CheckInfo)
    requires
        checkable(
            ev@,
            identity_known(id_pre),
            control_plane_known(cp_pre),
            thermal_known(th_pre),
            automation_known(au_pre),
        ),
    ensures
        r@ == check_of(
            ev@,
            identity_known(id_pre),
            control_plane_known(cp_pre),
            thermal_known(th_pre),
            automation_known(au_pre),
        ),
{
    match &ev.kind {
        DomainEvent::Identity(_) => compute_identity_check(ev, id_pre),
        DomainEvent::ControlPlane(_) => compute_cp_check(ev, cp_pre),
        DomainEvent::Thermal(_) => compute_thermal_check(ev, th_pre),
        DomainEvent::Automation(_) => compute_automation_check(ev, au_pre),
    }
}

} // verus!
