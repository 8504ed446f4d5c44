//! The thermal engine: workloads scheduled, temperatures read.

use vstd::prelude::*;
use vstd::string::*;

use crate::events::DomainEvent;
use crate::events::Event;
use crate::events::EventView;
use crate::events::ThermalEvent;
use crate::freshness::fresh;
use crate::freshness::keep_fresh;
use crate::store::value_or;
use crate::store::Store;
use crate::text::decimal;
use crate::text::decimal_text;
use crate::variance::about;
use crate::variance::no_variances;
use crate::variance::quoted;
use crate::variance::report;
use crate::variance::variance_views;
use crate::variance::Severity;
use crate::variance::Variance;
use crate::variance::VarianceView;

verus! {

/// A WorkloadScheduled event justifies thermal bias for this many seconds: 30 minutes.
pub const JUSTIFICATION_WINDOW: u64 = 1800;

/// Baseline temperature in °C.
pub const NOMINAL_TEMP: u64 = 45;

/// °C above nominal that constitutes asymmetric thermal bias.
pub const BIAS_THRESHOLD: u64 = 5;

/// Whether a temperature is above what passes without a workload.
pub open spec fn biased(temp: u64) -> bool {
    temp > NOMINAL_TEMP + BIAS_THRESHOLD
}

// ── State ─────────────────────────────────────────────────────────────────────

#[derive(Debug, Clone, Copy, PartialEq, Eq, Structural)]
pub struct ThermalState {
    /// When the most recent workload was declared for this rack.
    pub last_workload_at: Option<u64>,
    /// Count of consecutive unjustified high-temperature readings.
    pub bias_count: usize,
    /// Most recent temperature reading.
    pub last_temp: Option<u64>,
}

impl View for ThermalState {
    type V = ThermalState;

    open spec fn view(&self) -> ThermalState {
        *self
    }
}

impl Default for ThermalState {
    fn default() -> (r: Self)
        ensures
            r == Self::blank(),
    {
        ThermalState { last_workload_at: None, bias_count: 0, last_temp: None }
    }
}

impl ThermalState {
    /// What is known of a rack that no event has mentioned.
    pub open spec fn blank() -> ThermalState {
        ThermalState { last_workload_at: None, bias_count: 0, last_temp: None }
    }

    pub fn has_workload(&self) -> (r: bool)
        ensures
            r == (self.last_workload_at is Some),
    {
        self.last_workload_at.is_some()
    }

    /// Returns the workload timestamp if it falls within `window` seconds of `ts`.
    pub fn workload_within(&self, ts: u64, window: u64) -> (r: Option<u64>)
        ensures
            r == fresh(self.last_workload_at, ts, window),
    {
        keep_fresh(self.last_workload_at, ts, window)
    }

    /// A reading of `temp` at `ts` is too high and no declared workload explains it.
    pub open spec fn unexplained(self, temp: u64, ts: u64) -> bool {
        biased(temp) && fresh(self.last_workload_at, ts, JUSTIFICATION_WINDOW) is None
    }

    /// What is known after an event at `ts`.
    pub open spec fn after(self, event: ThermalEvent, ts: u64) -> ThermalState {
        match event {
            ThermalEvent::WorkloadScheduled => ThermalState {
                last_workload_at: Some(ts),
                bias_count: 0,
                ..self
            },
            ThermalEvent::ThermalReading(temp) => ThermalState {
                last_temp: Some(temp),
                bias_count: if self.unexplained(temp, ts) {
                    (self.bias_count + 1) as usize
                } else {
                    0
                },
                ..self
            },
        }
    }

    /// What an event at `ts` breaks: the first unexplained reading is a warning, every further
    /// one in a row is critical.
    pub open spec fn verdict(self, event: ThermalEvent, entity: Seq<char>, ts: u64) -> Seq<
        VarianceView,
    > {
        match event {
            ThermalEvent::WorkloadScheduled => seq![],
            ThermalEvent::ThermalReading(temp) => if !self.unexplained(temp, ts) {
                seq![]
            } else if self.bias_count == 0 {
                seq![
                    VarianceView {
                        severity: Severity::Warning,
                        rule:
                            "TH-1: ThermalReading bias must be causally justified by WorkloadScheduled"@,
                        detail: about(
                            entity,
                            "temp="@ + decimal_text(temp as nat)
                                + "°C exceeds nominal+threshold ("@ + decimal_text(
                                NOMINAL_TEMP as nat,
                            ) + "+"@ + decimal_text(BIAS_THRESHOLD as nat) + "="@ + decimal_text(
                                (NOMINAL_TEMP + BIAS_THRESHOLD) as nat,
                            ) + "°C) — no workload declared on record"@,
                        ),
                    },
                ]
            } else {
                seq![
                    VarianceView {
                        severity: Severity::Critical,
                        rule:
                            "TH-2: Sustained unjustified thermal bias — equilibrium invariant violated"@,
                        detail: about(
                            entity,
                            decimal_text((self.bias_count + 1) as nat)
                                + " consecutive readings above threshold (last="@ + decimal_text(
                                temp as nat,
                            ) + "°C) with no workload justification"@,
                        ),
                    },
                ]
            },
        }
    }
}

pub type ThermalStore = Store<ThermalState>;

// ── Engine ────────────────────────────────────────────────────────────────────

/// What the engine knows, by rack.
pub type ThermalModel = Map<Seq<char>, ThermalState>;

/// What the engine knows after an event.
pub open spec fn thermal_after(model: ThermalModel, ev: EventView) -> ThermalModel {
    match ev.kind {
        DomainEvent::Thermal(event) => model.insert(
            ev.entity,
            value_or(model, ev.entity, ThermalState::blank()).after(event, ev.ts),
        ),
        _ => model,
    }
}

/// What the engine reports on an event.
pub open spec fn thermal_verdict(model: ThermalModel, ev: EventView) -> Seq<VarianceView> {
    match ev.kind {
        DomainEvent::Thermal(event) => value_or(model, ev.entity, ThermalState::blank()).verdict(
            event,
            ev.entity,
            ev.ts,
        ),
        _ => seq![],
    }
}

/// The rack's counter has room for an unexplained reading.
pub open spec fn thermal_accepts(model: ThermalModel, ev: EventView) -> bool {
    let pre = value_or(model, ev.entity, ThermalState::blank());
    ev.kind matches DomainEvent::Thermal(ThermalEvent::ThermalReading(temp)) ==> pre.unexplained(
        temp,
        ev.ts,
    ) ==> pre.bias_count < usize::MAX
}

pub struct ThermalEngine {
    pub state: ThermalStore,
}

impl ThermalEngine {
    pub fn new() -> (r: Self)
        ensures
            r.state@ == ThermalModel::empty(),
    {
        Self { state: ThermalStore::new() }
    }

    /// Ingest one event, update state, return any variances.
    pub fn ingest(&mut self, ev: &Event) -> (r: Vec<Variance>)
        requires
            thermal_accepts(old(self).state@, ev@),
        ensures
            final(self).state@ == thermal_after(old(self).state@, ev@),
            variance_views(r@) == thermal_verdict(old(self).state@, ev@),
    {
        match &ev.kind {
            DomainEvent::Thermal(ThermalEvent::WorkloadScheduled) => self.on_workload_scheduled(ev),
            DomainEvent::Thermal(ThermalEvent::ThermalReading(temp)) => self.on_reading(ev, *temp),
            _ => no_variances(),
        }
    }

    fn on_workload_scheduled(&mut self, ev: &Event) -> (r: Vec<Variance>)
        requires
            ev.kind == DomainEvent::Thermal(ThermalEvent::WorkloadScheduled),
        ensures
            final(self).state@ == thermal_after(old(self).state@, ev@),
            variance_views(r@) == thermal_verdict(old(self).state@, ev@),
    {
        let s = self.state.entry(ev.entity, ThermalState::default());
        s.last_workload_at = Some(ev.ts);
        s.bias_count = 0;
        no_variances()
    }

    fn on_reading(&mut self, ev: &Event, temp: u64) -> (r: Vec<Variance>)
        requires
            ev.kind == DomainEvent::Thermal(ThermalEvent::ThermalReading(temp)),
            thermal_accepts(old(self).state@, ev@),
        ensures
            final(self).state@ == thermal_after(old(self).state@, ev@),
            variance_views(r@) == thermal_verdict(old(self).state@, ev@),
    {
        let s = self.state.entry(ev.entity, ThermalState::default());
        s.last_temp = Some(temp);
        let mut out = no_variances();
        let is_biased = temp > NOMINAL_TEMP + BIAS_THRESHOLD;
        let justified = s.workload_within(ev.ts, JUSTIFICATION_WINDOW).is_some();
        if !is_biased || justified {
            // A reading that passes ends the row.
            s.bias_count = 0;
            return out;
        }
        // Unjustified thermal bias: escalate on repetition.
        s.bias_count += 1;
        if s.bias_count == 1 {
            report(
                &mut out,
                Severity::Warning,
                "TH-1: ThermalReading bias must be causally justified by WorkloadScheduled",
                quoted(ev.entity).concat(
                    "temp=".to_owned().concat(decimal(temp).as_str()).concat(
                        "°C exceeds nominal+threshold (",
                    ).concat(decimal(NOMINAL_TEMP).as_str()).concat("+").concat(
                        decimal(BIAS_THRESHOLD).as_str(),
                    ).concat("=").concat(decimal(NOMINAL_TEMP + BIAS_THRESHOLD).as_str()).concat(
                        "°C) — no workload declared on record",
                    ).as_str(),
                ),
            );
        } else {
            report(
                &mut out,
                Severity::Critical,
                "TH-2: Sustained unjustified thermal bias — equilibrium invariant violated",
                quoted(ev.entity).concat(
                    decimal(s.bias_count as u64).concat(
                        " consecutive readings above threshold (last=",
                    ).concat(decimal(temp).as_str()).concat(
                        "°C) with no workload justification",
                    ).as_str(),
                ),
            );
        }
        out
    }

    /// Called at stream end. No thermal rule is deferred to it.
    pub fn finalize(&self) -> (r: Vec<(String, Variance)>)
        ensures
            r@.len() == 0,
    {
        Vec::new()
    }
}

} // verus!
