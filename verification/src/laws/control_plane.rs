//! What the control plane engine makes of a stream, told by the events of the stream alone.

use vstd::prelude::*;

use crate::control_plane::control_plane_after;
use crate::control_plane::control_plane_verdict;
use crate::control_plane::ControlPlaneModel;
use crate::events::ControlPlaneEvent;
use crate::events::DomainEvent;
use crate::events::EventView;
use crate::laws::streams::holds;
use crate::laws::streams::last_counts;
use crate::laws::streams::latest;
use crate::laws::streams::lemma_holds_one_more;
use crate::laws::streams::lemma_taken_of_nothing;
use crate::laws::streams::lemma_taken_one_more;
use crate::laws::streams::taken;
use crate::text::decimal_text;
use crate::variance::Severity;
use crate::variance::VarianceView;

verus! {

/// What the engine knows after a stream of events.
pub open spec fn control_plane_from(events: Seq<EventView>) -> ControlPlaneModel
    decreases events.len(),
{
    if events.len() == 0 {
        Map::empty()
    } else {
        control_plane_after(control_plane_from(events.drop_last()), events.last())
    }
}

/// The times of the events of one kind of an entity.
pub open spec fn control_plane_times(
    events: Seq<EventView>,
    entity: Seq<char>,
    event: ControlPlaneEvent,
) -> Seq<u64> {
    taken(
        events,
        |e: EventView| e.entity == entity && e.kind == DomainEvent::ControlPlane(event),
        |e: EventView| e.ts,
    )
}

proof fn lemma_control_plane_times(events: Seq<EventView>, entity: Seq<char>, event: ControlPlaneEvent)
    ensures
        events.len() == 0 ==> control_plane_times(events, entity, event) == Seq::<u64>::empty(),
        events.len() > 0 ==> control_plane_times(events, entity, event) == (if events.last().entity
            == entity && events.last().kind == DomainEvent::ControlPlane(event) {
            control_plane_times(events.drop_last(), entity, event).push(events.last().ts)
        } else {
            control_plane_times(events.drop_last(), entity, event)
        }),
{
    let pick = |e: EventView| e.entity == entity && e.kind == DomainEvent::ControlPlane(event);
    let time = |e: EventView| e.ts;
    if events.len() == 0 {
        lemma_taken_of_nothing(events, pick, time);
    } else {
        lemma_taken_one_more(events, pick, time);
    }
}

/// The record of an entity is what its events say: the time of the last role that was assigned,
/// and whether an admin action was taken. No other event has a part in either, and without a
/// control plane event there is no record.
pub proof fn law_control_plane_record(events: Seq<EventView>, entity: Seq<char>)
    ensures
        ({
            let model = control_plane_from(events);
            let roles = control_plane_times(events, entity, ControlPlaneEvent::RoleAssigned);
            let actions = control_plane_times(events, entity, ControlPlaneEvent::AdminActionTaken);
            &&& model.contains_key(entity) <==> holds(
                events,
                |e: EventView| e.entity == entity && e.kind is ControlPlane,
            )
            &&& model.contains_key(entity) <==> roles.len() + actions.len() > 0
            &&& model.contains_key(entity) ==> {
                &&& model[entity].role_assigned_at == latest(roles)
                &&& model[entity].admin_action_taken <==> actions.len() > 0
            }
        }),
    decreases events.len(),
{
    lemma_control_plane_times(events, entity, ControlPlaneEvent::RoleAssigned);
    lemma_control_plane_times(events, entity, ControlPlaneEvent::AdminActionTaken);
    if events.len() > 0 {
        law_control_plane_record(events.drop_last(), entity);
        lemma_holds_one_more(events, |e: EventView| e.entity == entity && e.kind is ControlPlane);
        match events.last().kind {
            DomainEvent::ControlPlane(event) => {
                match event {
                    ControlPlaneEvent::RoleAssigned => {},
                    ControlPlaneEvent::AdminActionTaken => {},
                }
            },
            _ => {},
        }
    }
}

/// The assignment of a role is never reported.
pub proof fn law_role_report(events: Seq<EventView>, entity: Seq<char>, ts: u64)
    ensures
        control_plane_verdict(
            control_plane_from(events),
            EventView {
                ts,
                entity,
                kind: DomainEvent::ControlPlane(ControlPlaneEvent::RoleAssigned),
            },
        ) == Seq::<VarianceView>::empty(),
{
}

/// An admin action may be taken if and only if the last role of the entity in the stream was
/// assigned at most 3600 seconds earlier, however many actions came in between. Otherwise that
/// is reported, as critical, and with the time by which the role is over the limit.
pub proof fn law_admin_action_report(events: Seq<EventView>, entity: Seq<char>, ts: u64)
    ensures
        ({
            let roles = control_plane_times(events, entity, ControlPlaneEvent::RoleAssigned);
            control_plane_verdict(
                control_plane_from(events),
                EventView {
                    ts,
                    entity,
                    kind: DomainEvent::ControlPlane(ControlPlaneEvent::AdminActionTaken),
                },
            ) == (if roles.len() == 0 {
                seq![
                    VarianceView {
                        severity: Severity::Critical,
                        rule: "AdminActionTaken requires prior RoleAssigned"@,
                        detail: "'"@ + entity + "': "@
                            + "admin action with no role assignment on record"@,
                    },
                ]
            } else if !last_counts(roles, ts, 3600) {
                seq![
                    VarianceView {
                        severity: Severity::Critical,
                        rule: "AdminActionTaken must be within 1-hour window of RoleAssigned"@,
                        detail: "'"@ + entity + "': "@ + ("role was assigned "@ + decimal_text(
                            (ts - roles.last()) as nat,
                        ) + "s ago — window is "@ + decimal_text(3600) + "s, exceeded by "@
                            + decimal_text((ts - roles.last() - 3600) as nat) + "s"@),
                    },
                ]
            } else {
                seq![]
            })
        }),
{
    law_control_plane_record(events, entity);
}

} // verus!
