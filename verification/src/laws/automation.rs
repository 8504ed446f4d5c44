//! What the automation engine makes of a stream, told by the events of the stream alone.

use vstd::prelude::*;

use crate::automation::automation_after;
use crate::automation::automation_verdict;
use crate::automation::AutomationModel;
use crate::events::AutomationEvent;
use crate::events::DomainEvent;
use crate::events::EventView;
use crate::laws::streams::holds;
use crate::laws::streams::last_counts;
use crate::laws::streams::latest;
use crate::laws::streams::lemma_holds_one_more;
use crate::laws::streams::lemma_taken_of_nothing;
use crate::laws::streams::lemma_taken_one_more;
use crate::laws::streams::taken;
use crate::text::decimal_text;
use crate::variance::Severity;
use crate::variance::VarianceView;

verus! {

/// What the engine knows after a stream of events.
pub open spec fn automation_from(events: Seq<EventView>) -> AutomationModel
    decreases events.len(),
{
    if events.len() == 0 {
        Map::empty()
    } else {
        automation_after(automation_from(events.drop_last()), events.last())
    }
}

/// The times of the events of one kind of an entity.
pub open spec fn automation_times(
    events: Seq<EventView>,
    entity: Seq<char>,
    event: AutomationEvent,
) -> Seq<u64> {
    taken(
        events,
        |e: EventView| e.entity == entity && e.kind == DomainEvent::Automation(event),
        |e: EventView| e.ts,
    )
}

proof fn lemma_automation_times(events: Seq<EventView>, entity: Seq<char>, event: AutomationEvent)
    ensures
        events.len() == 0 ==> automation_times(events, entity, event) == Seq::<u64>::empty(),
        events.len() > 0 ==> automation_times(events, entity, event) == (if events.last().entity
            == entity && events.last().kind == DomainEvent::Automation(event) {
            automation_times(events.drop_last(), entity, event).push(events.last().ts)
        } else {
            automation_times(events.drop_last(), entity, event)
        }),
{
    let pick = |e: EventView| e.entity == entity && e.kind == DomainEvent::Automation(event);
    let time = |e: EventView| e.ts;
    if events.len() == 0 {
        lemma_taken_of_nothing(events, pick, time);
    } else {
        lemma_taken_one_more(events, pick, time);
    }
}

/// A trigger behind the stream has no validation of the orchestrator within the 300 seconds
/// before it.
pub open spec fn unbacked(events: Seq<EventView>, entity: Seq<char>, ts: u64) -> bool {
    !last_counts(automation_times(events, entity, AutomationEvent::StateValidated), ts, 300)
}

/// How many triggers of the orchestrator at the end of the stream are unbacked, one after the
/// other. The events of others and of other domains do not interrupt them, every other
/// automation event of the orchestrator does.
pub open spec fn trigger_row(events: Seq<EventView>, entity: Seq<char>) -> nat
    decreases events.len(),
{
    if events.len() == 0 {
        0
    } else if events.last().entity != entity || !(events.last().kind is Automation) {
        trigger_row(events.drop_last(), entity)
    } else if events.last().kind == DomainEvent::Automation(AutomationEvent::AutomationTriggered)
        && unbacked(events.drop_last(), entity, events.last().ts) {
        trigger_row(events.drop_last(), entity) + 1
    } else {
        0
    }
}

/// The record of an orchestrator is what its events say: the times of its last validation and
/// its last trigger, and the number of unbacked triggers in a row. Without an automation event
/// there is no record.
pub proof fn law_automation_record(events: Seq<EventView>, entity: Seq<char>)
    requires
        events.len() <= usize::MAX,
    ensures
        ({
            let model = automation_from(events);
            let validations = automation_times(events, entity, AutomationEvent::StateValidated);
            let triggers = automation_times(events, entity, AutomationEvent::AutomationTriggered);
            &&& model.contains_key(entity) <==> holds(
                events,
                |e: EventView| e.entity == entity && e.kind is Automation,
            )
            &&& model.contains_key(entity) <==> validations.len() + triggers.len() > 0
            &&& model.contains_key(entity) ==> {
                &&& model[entity].last_validated_at == latest(validations)
                &&& model[entity].last_trigger_at == latest(triggers)
                &&& model[entity].trigger_count == trigger_row(events, entity)
            }
            &&& !model.contains_key(entity) ==> trigger_row(events, entity) == 0
            &&& trigger_row(events, entity) <= events.len()
        }),
    decreases events.len(),
{
    lemma_automation_times(events, entity, AutomationEvent::StateValidated);
    lemma_automation_times(events, entity, AutomationEvent::AutomationTriggered);
    if events.len() > 0 {
        law_automation_record(events.drop_last(), entity);
        lemma_holds_one_more(events, |e: EventView| e.entity == entity && e.kind is Automation);
        match events.last().kind {
            DomainEvent::Automation(event) => {
                match event {
                    AutomationEvent::StateValidated => {},
                    AutomationEvent::AutomationTriggered => {},
                }
            },
            _ => {},
        }
    }
}

/// A validation is never reported.
pub proof fn law_validation_report(events: Seq<EventView>, entity: Seq<char>, ts: u64)
    ensures
        automation_verdict(
            automation_from(events),
            EventView { ts, entity, kind: DomainEvent::Automation(AutomationEvent::StateValidated) },
        ) == Seq::<VarianceView>::empty(),
{
}

/// A trigger passes if and only if the last validation of the orchestrator is at most 300
/// seconds old. The first trigger in a row that does not pass is a warning, every further one is
/// critical and gives the length of the row, whether a validation is out of date or there never
/// was one.
pub proof fn law_trigger_report(events: Seq<EventView>, entity: Seq<char>, ts: u64)
    requires
        events.len() <= usize::MAX,
    ensures
        ({
            let row = trigger_row(events, entity);
            automation_verdict(
                automation_from(events),
                EventView {
                    ts,
                    entity,
                    kind: DomainEvent::Automation(AutomationEvent::AutomationTriggered),
                },
            ) == (if !unbacked(events, entity, ts) {
                seq![]
            } else if row == 0 {
                seq![
                    VarianceView {
                        severity: Severity::Warning,
                        rule:
                            "AUTO-1: AutomationTriggered must be backed by StateValidated within 5-min window"@,
                        detail: "'"@ + entity + "': "@
                            + ("automation fired on unvalidated state — no StateValidated within "@
                            + decimal_text(300) + "s"@),
                    },
                ]
            } else {
                seq![
                    VarianceView {
                        severity: Severity::Critical,
                        rule:
                            "AUTO-2: Repeated automation on unvalidated state — amplification invariant violated"@,
                        detail: "'"@ + entity + "': "@ + (decimal_text(row + 1)
                            + " consecutive triggers without StateValidated — automation is amplifying unresolved deviation"@),
                    },
                ]
            })
        }),
{
    law_automation_record(events, entity);
}

} // verus!
