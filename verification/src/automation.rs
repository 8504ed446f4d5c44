//! The automation engine: states validated, automations triggered.

use vstd::prelude::*;
use vstd::string::*;

use crate::events::AutomationEvent;
use crate::events::DomainEvent;
use crate::events::Event;
use crate::events::EventView;
use crate::freshness::fresh;
use crate::freshness::keep_fresh;
use crate::store::value_or;
use crate::store::Store;
use crate::text::decimal;
use crate::text::decimal_text;
use crate::variance::about;
use crate::variance::no_variances;
use crate::variance::quoted;
use crate::variance::report;
use crate::variance::variance_views;
use crate::variance::Severity;
use crate::variance::Variance;
use crate::variance::VarianceView;

verus! {

/// AutomationTriggered must be backed by a StateValidated within this many seconds.
pub const VALIDATION_WINDOW: u64 = 300;

// ── State ─────────────────────────────────────────────────────────────────────

#[derive(Debug, Clone, Copy, PartialEq, Eq, Structural)]
pub struct AutomationState {
    /// When system state was last explicitly validated.
    pub last_validated_at: Option<u64>,
    /// Consecutive automation triggers without a fresh StateValidated.
    pub trigger_count: usize,
    /// When the most recent trigger fired.
    pub last_trigger_at: Option<u64>,
}

impl View for AutomationState {
    type V = AutomationState;

    open spec fn view(&self) -> AutomationState {
        *self
    }
}

impl Default for AutomationState {
    fn default() -> (r: Self)
        ensures
            r == Self::blank(),
    {
        AutomationState { last_validated_at: None, trigger_count: 0, last_trigger_at: None }
    }
}

impl AutomationState {
    /// What is known of an orchestrator that no event has mentioned.
    pub open spec fn blank() -> AutomationState {
        AutomationState { last_validated_at: None, trigger_count: 0, last_trigger_at: None }
    }

    pub fn has_validation(&self) -> (r: bool)
        ensures
            r == (self.last_validated_at is Some),
    {
        self.last_validated_at.is_some()
    }

    /// Returns the validation timestamp if it falls within `window` seconds of `ts`.
    pub fn validation_within(&self, ts: u64, window: u64) -> (r: Option<u64>)
        ensures
            r == fresh(self.last_validated_at, ts, window),
    {
        keep_fresh(self.last_validated_at, ts, window)
    }

    /// A trigger at `ts` is backed by a validation.
    pub open spec fn backed(self, ts: u64) -> bool {
        fresh(self.last_validated_at, ts, VALIDATION_WINDOW) is Some
    }

    /// What is known after an event at `ts`.
    pub open spec fn after(self, event: AutomationEvent, ts: u64) -> AutomationState {
        match event {
            AutomationEvent::StateValidated => AutomationState {
                last_validated_at: Some(ts),
                trigger_count: 0,
                ..self
            },
            AutomationEvent::AutomationTriggered => AutomationState {
                last_trigger_at: Some(ts),
                trigger_count: if self.backed(ts) {
                    0
                } else {
                    (self.trigger_count + 1) as usize
                },
                ..self
            },
        }
    }

    /// What an event at `ts` breaks: the first trigger without validation is a warning, every
    /// further one in a row is critical.
    pub open spec fn verdict(self, event: AutomationEvent, entity: Seq<char>, ts: u64) -> Seq<
        VarianceView,
    > {
        match event {
            AutomationEvent::StateValidated => seq![],
            AutomationEvent::AutomationTriggered => if self.backed(ts) {
                seq![]
            } else if self.trigger_count == 0 {
                seq![
                    VarianceView {
                        severity: Severity::Warning,
                        rule:
                            "AUTO-1: AutomationTriggered must be backed by StateValidated within 5-min window"@,
                        detail: about(
                            entity,
                            "automation fired on unvalidated state — no StateValidated within "@
                                + decimal_text(VALIDATION_WINDOW as nat) + "s"@,
                        ),
                    },
                ]
            } else {
                seq![
                    VarianceView {
                        severity: Severity::Critical,
                        rule:
                            "AUTO-2: Repeated automation on unvalidated state — amplification invariant violated"@,
                        detail: about(
                            entity,
                            decimal_text((self.trigger_count + 1) as nat)
                                + " consecutive triggers without StateValidated — automation is amplifying unresolved deviation"@,
                        ),
                    },
                ]
            },
        }
    }
}

pub type AutomationStore = Store<AutomationState>;

// ── Engine ────────────────────────────────────────────────────────────────────

/// What the engine knows, by orchestrator.
pub type AutomationModel = Map<Seq<char>, AutomationState>;

/// What the engine knows after an event.
pub open spec fn automation_after(model: AutomationModel, ev: EventView) -> AutomationModel {
    match ev.kind {
        DomainEvent::Automation(event) => model.insert(
            ev.entity,
            value_or(model, ev.entity, AutomationState::blank()).after(event, ev.ts),
        ),
        _ => model,
    }
}

/// What the engine reports on an event.
pub open spec fn automation_verdict(model: AutomationModel, ev: EventView) -> Seq<VarianceView> {
    match ev.kind {
        DomainEvent::Automation(event) => value_or(
            model,
            ev.entity,
            AutomationState::blank(),
        ).verdict(event, ev.entity, ev.ts),
        _ => seq![],
    }
}

/// The orchestrator's counter has room for a trigger without validation.
pub open spec fn automation_accepts(model: AutomationModel, ev: EventView) -> bool {
    let pre = value_or(model, ev.entity, AutomationState::blank());
    ev.kind == DomainEvent::Automation(AutomationEvent::AutomationTriggered) ==> !pre.backed(
        ev.ts,
    ) ==> pre.trigger_count < usize::MAX
}

pub struct AutomationEngine {
    pub state: AutomationStore,
}

impl AutomationEngine {
    pub fn new() -> (r: Self)
        ensures
            r.state@ == AutomationModel::empty(),
    {
        Self { state: AutomationStore::new() }
    }

    /// Ingest one event, update state, return any variances.
    pub fn ingest(&mut self, ev: &Event) -> (r: Vec<Variance>)
        requires
            automation_accepts(old(self).state@, ev@),
        ensures
            final(self).state@ == automation_after(old(self).state@, ev@),
            variance_views(r@) == automation_verdict(old(self).state@, ev@),
    {
        match &ev.kind {
            DomainEvent::Automation(AutomationEvent::StateValidated) => self.on_validated(ev),
            DomainEvent::Automation(AutomationEvent::AutomationTriggered) => self.on_triggered(ev),
            _ => no_variances(),
        }
    }

    fn on_validated(&mut self, ev: &Event) -> (r: Vec<Variance>)
        requires
            ev.kind == DomainEvent::Automation(AutomationEvent::StateValidated),
        ensures
            final(self).state@ == automation_after(old(self).state@, ev@),
            variance_views(r@) == automation_verdict(old(self).state@, ev@),
    {
        let s = self.state.entry(ev.entity, AutomationState::default());
        s.last_validated_at = Some(ev.ts);
        s.trigger_count = 0;
        no_variances()
    }

    fn on_triggered(&mut self, ev: &Event) -> (r: Vec<Variance>)
        requires
            ev.kind == DomainEvent::Automation(AutomationEvent::AutomationTriggered),
            automation_accepts(old(self).state@, ev@),
        ensures
            final(self).state@ == automation_after(old(self).state@, ev@),
            variance_views(r@) == automation_verdict(old(self).state@, ev@),
    {
        let s = self.state.entry(ev.entity, AutomationState::default());
        s.last_trigger_at = Some(ev.ts);
        let mut out = no_variances();
        let justified = s.validation_within(ev.ts, VALIDATION_WINDOW).is_some();
        if justified {
            s.trigger_count = 0;
            return out;
        }
        // Stale or absent validation: escalate on repetition.
        s.trigger_count += 1;
        if s.trigger_count == 1 {
            report(
                &mut out,
                Severity::Warning,
                "AUTO-1: AutomationTriggered must be backed by StateValidated within 5-min window",
                quoted(ev.entity).concat(
                    "automation fired on unvalidated state — no StateValidated within ".to_owned().concat(
                        decimal(VALIDATION_WINDOW).as_str(),
                    ).concat("s").as_str(),
                ),
            );
        } else {
            report(
                &mut out,
                Severity::Critical,
                "AUTO-2: Repeated automation on unvalidated state — amplification invariant violated",
                quoted(ev.entity).concat(
                    decimal(s.trigger_count as u64).concat(
                        " consecutive triggers without StateValidated — automation is amplifying unresolved deviation",
                    ).as_str(),
                ),
            );
        }
        out
    }

    /// Called at stream end. No automation rule is deferred to it.
    pub fn finalize(&self) -> (r: Vec<(String, Variance)>)
        ensures
            r@.len() == 0,
    {
        Vec::new()
    }
}

} // verus!
