//! What the thermal engine makes of a stream, told by the events of the stream alone.

use vstd::prelude::*;

use crate::events::DomainEvent;
use crate::events::EventView;
use crate::events::ThermalEvent;
use crate::laws::streams::holds;
use crate::laws::streams::last_counts;
use crate::laws::streams::latest;
use crate::laws::streams::lemma_holds_one_more;
use crate::laws::streams::lemma_taken_of_nothing;
use crate::laws::streams::lemma_taken_one_more;
use crate::laws::streams::taken;
use crate::text::decimal_text;
use crate::thermal::thermal_after;
use crate::thermal::thermal_verdict;
use crate::thermal::ThermalModel;
use crate::thermal::ThermalState;
use crate::variance::Severity;
use crate::variance::VarianceView;

verus! {

/// What the engine knows after a stream of events.
pub open spec fn thermal_from(events: Seq<EventView>) -> ThermalModel
    decreases events.len(),
{
    if events.len() == 0 {
        Map::empty()
    } else {
        thermal_after(thermal_from(events.drop_last()), events.last())
    }
}

/// The times of the workloads of a rack.
pub open spec fn workload_times(events: Seq<EventView>, entity: Seq<char>) -> Seq<u64> {
    taken(
        events,
        |e: EventView|
            e.entity == entity && e.kind == DomainEvent::Thermal(ThermalEvent::WorkloadScheduled),
        |e: EventView| e.ts,
    )
}

/// The temperature of a reading.
pub open spec fn degrees(e: EventView) -> u64 {
    match e.kind {
        DomainEvent::Thermal(ThermalEvent::ThermalReading(temp)) => temp,
        _ => 0,
    }
}

/// Whether an event is a reading of the rack.
pub open spec fn is_reading(e: EventView, entity: Seq<char>) -> bool {
    e.entity == entity && (e.kind matches DomainEvent::Thermal(event) && event is ThermalReading)
}

/// The temperatures of a rack.
pub open spec fn temperatures(events: Seq<EventView>, entity: Seq<char>) -> Seq<u64> {
    taken(events, |e: EventView| is_reading(e, entity), |e: EventView| degrees(e))
}

/// A reading behind the stream is above 50 degrees, and the last workload of the rack was not
/// declared within the 1800 seconds before it.
pub open spec fn too_hot(events: Seq<EventView>, entity: Seq<char>, temp: u64, ts: u64) -> bool {
    temp > 50 && !last_counts(workload_times(events, entity), ts, 1800)
}

/// How many readings of the rack at the end of the stream are too hot, one after the other. The
/// events of other racks and other domains do not interrupt them, every other thermal event of
/// the rack does.
pub open spec fn hot_row(events: Seq<EventView>, entity: Seq<char>) -> nat
    decreases events.len(),
{
    if events.len() == 0 {
        0
    } else if events.last().entity != entity || !(events.last().kind is Thermal) {
        hot_row(events.drop_last(), entity)
    } else if is_reading(events.last(), entity) && too_hot(
        events.drop_last(),
        entity,
        degrees(events.last()),
        events.last().ts,
    ) {
        hot_row(events.drop_last(), entity) + 1
    } else {
        0
    }
}

proof fn lemma_thermal_values(events: Seq<EventView>, entity: Seq<char>)
    ensures
        events.len() == 0 ==> workload_times(events, entity) == Seq::<u64>::empty(),
        events.len() == 0 ==> temperatures(events, entity) == Seq::<u64>::empty(),
        events.len() > 0 ==> workload_times(events, entity) == (if events.last().entity == entity
            && events.last().kind == DomainEvent::Thermal(ThermalEvent::WorkloadScheduled) {
            workload_times(events.drop_last(), entity).push(events.last().ts)
        } else {
            workload_times(events.drop_last(), entity)
        }),
        events.len() > 0 ==> temperatures(events, entity) == (if is_reading(
            events.last(),
            entity,
        ) {
            temperatures(events.drop_last(), entity).push(degrees(events.last()))
        } else {
            temperatures(events.drop_last(), entity)
        }),
{
    let workload = |e: EventView|
        e.entity == entity && e.kind == DomainEvent::Thermal(ThermalEvent::WorkloadScheduled);
    let reading = |e: EventView| is_reading(e, entity);
    let time = |e: EventView| e.ts;
    let temp = |e: EventView| degrees(e);
    if events.len() == 0 {
        lemma_taken_of_nothing(events, workload, time);
        lemma_taken_of_nothing(events, reading, temp);
    } else {
        lemma_taken_one_more(events, workload, time);
        lemma_taken_one_more(events, reading, temp);
    }
}

/// The record of a rack is what its events say: the time of its last workload, its last
/// temperature, and the number of readings in a row that are too hot. Without a thermal event
/// there is no record.
pub proof fn law_thermal_record(events: Seq<EventView>, entity: Seq<char>)
    requires
        events.len() <= usize::MAX,
    ensures
        ({
            let model = thermal_from(events);
            let workloads = workload_times(events, entity);
            let temps = temperatures(events, entity);
            &&& model.contains_key(entity) <==> holds(
                events,
                |e: EventView| e.entity == entity && e.kind is Thermal,
            )
            &&& model.contains_key(entity) <==> workloads.len() + temps.len() > 0
            &&& model.contains_key(entity) ==> {
                &&& model[entity].last_workload_at == latest(workloads)
                &&& model[entity].last_temp == latest(temps)
                &&& model[entity].bias_count == hot_row(events, entity)
            }
            &&& !model.contains_key(entity) ==> hot_row(events, entity) == 0
            &&& hot_row(events, entity) <= events.len()
        }),
    decreases events.len(),
{
    lemma_thermal_values(events, entity);
    if events.len() > 0 {
        law_thermal_record(events.drop_last(), entity);
        lemma_holds_one_more(events, |e: EventView| e.entity == entity && e.kind is Thermal);
        match events.last().kind {
            DomainEvent::Thermal(event) => {
                match event {
                    ThermalEvent::WorkloadScheduled => {},
                    ThermalEvent::ThermalReading(temp) => {
                        assert(degrees(events.last()) == temp);
                    },
                }
            },
            _ => {},
        }
    }
}

/// The declaration of a workload is never reported.
pub proof fn law_workload_report(events: Seq<EventView>, entity: Seq<char>, ts: u64)
    ensures
        thermal_verdict(
            thermal_from(events),
            EventView { ts, entity, kind: DomainEvent::Thermal(ThermalEvent::WorkloadScheduled) },
        ) == Seq::<VarianceView>::empty(),
{
}

/// A reading passes if and only if it is at most 50 degrees or the last workload of the rack was
/// declared at most 1800 seconds earlier. The first reading in a row that does not pass is a
/// warning, every further one is critical and gives the length of the row.
pub proof fn law_reading_report(events: Seq<EventView>, entity: Seq<char>, temp: u64, ts: u64)
    requires
        events.len() <= usize::MAX,
    ensures
        ({
            let row = hot_row(events, entity);
            thermal_verdict(
                thermal_from(events),
                EventView {
                    ts,
                    entity,
                    kind: DomainEvent::Thermal(ThermalEvent::ThermalReading(temp)),
                },
            ) == (if temp <= 50 || last_counts(workload_times(events, entity), ts, 1800) {
                seq![]
            } else if row == 0 {
                seq![
                    VarianceView {
                        severity: Severity::Warning,
                        rule:
                            "TH-1: ThermalReading bias must be causally justified by WorkloadScheduled"@,
                        detail: "'"@ + entity + "': "@ + ("temp="@ + decimal_text(temp as nat)
                            + "°C exceeds nominal+threshold ("@ + decimal_text(45) + "+"@
                            + decimal_text(5) + "="@ + decimal_text(50)
                            + "°C) — no workload declared on record"@),
                    },
                ]
            } else {
                seq![
                    VarianceView {
                        severity: Severity::Critical,
                        rule:
                            "TH-2: Sustained unjustified thermal bias — equilibrium invariant violated"@,
                        detail: "'"@ + entity + "': "@ + (decimal_text(row + 1)
                            + " consecutive readings above threshold (last="@ + decimal_text(
                            temp as nat,
                        ) + "°C) with no workload justification"@),
                    },
                ]
            })
        }),
{
    law_thermal_record(events, entity);
}

/// A higher reading never gets a milder report: where a reading is reported, every higher one in
/// its place is reported too, and with the same severity.
pub proof fn law_hotter_is_not_milder(
    s: ThermalState,
    entity: Seq<char>,
    cool: u64,
    hot: u64,
    ts: u64,
)
    requires
        cool <= hot,
    ensures
        ({
            let mild = s.verdict(ThermalEvent::ThermalReading(cool), entity, ts);
            let harsh = s.verdict(ThermalEvent::ThermalReading(hot), entity, ts);
            &&& mild.len() <= harsh.len() <= 1
            &&& mild.len() == 1 ==> harsh[0].severity == mild[0].severity
        }),
{
}

} // verus!
