//! The control plane engine: roles assigned, admin actions taken.

use vstd::prelude::*;
use vstd::string::*;

use crate::events::ControlPlaneEvent;
use crate::events::DomainEvent;
use crate::events::Event;
use crate::events::EventView;
use crate::freshness::fresh;
use crate::freshness::keep_fresh;
use crate::store::value_or;
use crate::store::Store;
use crate::text::decimal;
use crate::text::decimal_text;
use crate::variance::about;
use crate::variance::no_variances;
use crate::variance::quoted;
use crate::variance::report;
use crate::variance::variance_views;
use crate::variance::Severity;
use crate::variance::Variance;
use crate::variance::VarianceView;

verus! {

/// How long a role counts, in seconds: one hour.
pub const CP_WINDOW: u64 = 3600;

// ── State ─────────────────────────────────────────────────────────────────────

#[derive(Debug, Clone, Copy, PartialEq, Eq, Structural)]
pub struct ControlPlaneState {
    pub role_assigned_at: Option<u64>,
    pub admin_action_taken: bool,
}

impl View for ControlPlaneState {
    type V = ControlPlaneState;

    open spec fn view(&self) -> ControlPlaneState {
        *self
    }
}

impl Default for ControlPlaneState {
    fn default() -> (r: Self)
        ensures
            r == Self::blank(),
    {
        ControlPlaneState { role_assigned_at: None, admin_action_taken: false }
    }
}

impl ControlPlaneState {
    /// What is known of an entity that no event has mentioned.
    pub open spec fn blank() -> ControlPlaneState {
        ControlPlaneState { role_assigned_at: None, admin_action_taken: false }
    }

    pub fn has_role(&self) -> (r: bool)
        ensures
            r == (self.role_assigned_at is Some),
    {
        self.role_assigned_at.is_some()
    }

    /// Most recent role assignment within `window` seconds of `ts`, if any.
    pub fn role_within(&self, ts: u64, window: u64) -> (r: Option<u64>)
        ensures
            r == fresh(self.role_assigned_at, ts, window),
    {
        keep_fresh(self.role_assigned_at, ts, window)
    }

    /// What is known after an event at `ts`.
    pub open spec fn after(self, event: ControlPlaneEvent, ts: u64) -> ControlPlaneState {
        match event {
            ControlPlaneEvent::RoleAssigned => ControlPlaneState {
                role_assigned_at: Some(ts),
                ..self
            },
            ControlPlaneEvent::AdminActionTaken => ControlPlaneState {
                admin_action_taken: true,
                ..self
            },
        }
    }

    /// What an event at `ts` breaks.
    pub open spec fn verdict(self, event: ControlPlaneEvent, entity: Seq<char>, ts: u64) -> Seq<
        VarianceView,
    > {
        match (event, self.role_assigned_at) {
            (ControlPlaneEvent::RoleAssigned, _) => seq![],
            (ControlPlaneEvent::AdminActionTaken, None) => seq![
                VarianceView {
                    severity: Severity::Critical,
                    rule: "AdminActionTaken requires prior RoleAssigned"@,
                    detail: about(entity, "admin action with no role assignment on record"@),
                },
            ],
            (ControlPlaneEvent::AdminActionTaken, Some(t)) => if fresh(
                self.role_assigned_at,
                ts,
                CP_WINDOW,
            ) is Some {
                seq![]
            } else {
                seq![
                    VarianceView {
                        severity: Severity::Critical,
                        rule: "AdminActionTaken must be within 1-hour window of RoleAssigned"@,
                        detail: about(
                            entity,
                            "role was assigned "@ + decimal_text((ts - t) as nat)
                                + "s ago — window is "@ + decimal_text(CP_WINDOW as nat)
                                + "s, exceeded by "@ + decimal_text((ts - t - CP_WINDOW) as nat)
                                + "s"@,
                        ),
                    },
                ]
            },
        }
    }
}

pub type ControlPlaneStore = Store<ControlPlaneState>;

// ── Engine ────────────────────────────────────────────────────────────────────

/// What the engine knows, by entity.
pub type ControlPlaneModel = Map<Seq<char>, ControlPlaneState>;

/// What the engine knows after an event.
pub open spec fn control_plane_after(model: ControlPlaneModel, ev: EventView) -> ControlPlaneModel {
    match ev.kind {
        DomainEvent::ControlPlane(event) => model.insert(
            ev.entity,
            value_or(model, ev.entity, ControlPlaneState::blank()).after(event, ev.ts),
        ),
        _ => model,
    }
}

/// What the engine reports on an event.
pub open spec fn control_plane_verdict(model: ControlPlaneModel, ev: EventView) -> Seq<VarianceView> {
    match ev.kind {
        DomainEvent::ControlPlane(event) => value_or(
            model,
            ev.entity,
            ControlPlaneState::blank(),
        ).verdict(event, ev.entity, ev.ts),
        _ => seq![],
    }
}

/// The engine can put its report on an event into words: no admin action is dated before the
/// role that it is held against.
pub open spec fn control_plane_accepts(model: ControlPlaneModel, ev: EventView) -> bool {
    ev.kind == DomainEvent::ControlPlane(ControlPlaneEvent::AdminActionTaken) ==> (value_or(
        model,
        ev.entity,
        ControlPlaneState::blank(),
    ).role_assigned_at matches Some(t) ==> t <= ev.ts)
}

pub struct ControlPlaneEngine {
    pub state: ControlPlaneStore,
}

impl ControlPlaneEngine {
    pub fn new() -> (r: Self)
        ensures
            r.state@ == ControlPlaneModel::empty(),
    {
        Self { state: ControlPlaneStore::new() }
    }

    /// Ingest one event, update state, return any variances.
    pub fn ingest(&mut self, ev: &Event) -> (r: Vec<Variance>)
        requires
            control_plane_accepts(old(self).state@, ev@),
        ensures
            final(self).state@ == control_plane_after(old(self).state@, ev@),
            variance_views(r@) == control_plane_verdict(old(self).state@, ev@),
    {
        match &ev.kind {
            DomainEvent::ControlPlane(inner) => match inner {
                ControlPlaneEvent::RoleAssigned => self.on_role_assigned(ev),
                ControlPlaneEvent::AdminActionTaken => self.on_admin_action(ev),
            },
            _ => no_variances(),
        }
    }

    fn on_role_assigned(&mut self, ev: &Event) -> (r: Vec<Variance>)
        requires
            ev.kind == DomainEvent::ControlPlane(ControlPlaneEvent::RoleAssigned),
        ensures
            final(self).state@ == control_plane_after(old(self).state@, ev@),
            variance_views(r@) == control_plane_verdict(old(self).state@, ev@),
    {
        let s = self.state.entry(ev.entity, ControlPlaneState::default());
        s.role_assigned_at = Some(ev.ts);
        no_variances()
    }

    fn on_admin_action(&mut self, ev: &Event) -> (r: Vec<Variance>)
        requires
            ev.kind == DomainEvent::ControlPlane(ControlPlaneEvent::AdminActionTaken),
            control_plane_accepts(old(self).state@, ev@),
        ensures
            final(self).state@ == control_plane_after(old(self).state@, ev@),
            variance_views(r@) == control_plane_verdict(old(self).state@, ev@),
    {
        let s = self.state.entry(ev.entity, ControlPlaneState::default());
        s.admin_action_taken = true;
        let mut out = no_variances();
        if !s.has_role() {
            report(
                &mut out,
                Severity::Critical,
                "AdminActionTaken requires prior RoleAssigned",
                quoted(ev.entity).concat("admin action with no role assignment on record"),
            );
        } else if s.role_within(ev.ts, CP_WINDOW).is_none() {
            let elapsed: u64 = ev.ts - s.role_assigned_at.unwrap_or(0);
            report(
                &mut out,
                Severity::Critical,
                "AdminActionTaken must be within 1-hour window of RoleAssigned",
                quoted(ev.entity).concat(
                    "role was assigned ".to_owned().concat(decimal(elapsed).as_str()).concat(
                        "s ago — window is ",
                    ).concat(decimal(CP_WINDOW).as_str()).concat("s, exceeded by ").concat(
                        decimal(elapsed - CP_WINDOW).as_str(),
                    ).concat("s").as_str(),
                ),
            );
        }
        out
    }

    /// Called at stream end. No control plane rule is deferred to it.
    pub fn finalize(&self) -> (r: Vec<(String, Variance)>)
        ensures
            r@.len() == 0,
    {
        Vec::new()
    }
}

} // verus!
