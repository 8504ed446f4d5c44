//! What the session engine makes of a stream, told by the events of the stream alone.

use vstd::prelude::*;

use crate::laws::streams::holds;
use crate::laws::streams::last_counts;
use crate::laws::streams::latest;
use crate::laws::streams::lemma_holds_one_more;
use crate::laws::streams::lemma_taken_of_nothing;
use crate::laws::streams::lemma_taken_one_more;
use crate::laws::streams::taken;
use crate::text::decimal_text;
use crate::variance::Severity;
use crate::variance::VarianceView;
use crate::ztna::engine::session_accepts;
use crate::ztna::engine::session_verdict;
use crate::ztna::engine::sessions_from;
use crate::ztna::engine::SessionEvent;
use crate::ztna::events::ZtnaEvent;

verus! {

/// The times of the events of one kind in a session.
pub open spec fn session_times(
    events: Seq<SessionEvent>,
    session: Seq<char>,
    event: ZtnaEvent,
) -> Seq<u64> {
    taken(
        events,
        |e: SessionEvent| e.session == session && e.event == event,
        |e: SessionEvent| e.ts,
    )
}

proof fn lemma_session_times(events: Seq<SessionEvent>, session: Seq<char>, event: ZtnaEvent)
    ensures
        events.len() == 0 ==> session_times(events, session, event) == Seq::<u64>::empty(),
        events.len() > 0 ==> session_times(events, session, event) == (if events.last().session
            == session && events.last().event == event {
            session_times(events.drop_last(), session, event).push(events.last().ts)
        } else {
            session_times(events.drop_last(), session, event)
        }),
{
    let pick = |e: SessionEvent| e.session == session && e.event == event;
    let time = |e: SessionEvent| e.ts;
    if events.len() == 0 {
        lemma_taken_of_nothing(events, pick, time);
    } else {
        lemma_taken_one_more(events, pick, time);
    }
}

/// The record of a session is what its events say: the times of its last heartbeat, its last
/// verification and its last access, and the number of its privileged actions. No event of
/// another kind or session has a part in any of these, and without an event there is no record.
pub proof fn law_session_record(events: Seq<SessionEvent>, session: Seq<char>)
    requires
        events.len() <= usize::MAX,
    ensures
        ({
            let model = sessions_from(events);
            let heartbeats = session_times(events, session, ZtnaEvent::SessionHeartbeat);
            let verifications = session_times(events, session, ZtnaEvent::IdentityVerified);
            let accesses = session_times(events, session, ZtnaEvent::ResourceAccessed);
            let actions = session_times(events, session, ZtnaEvent::PrivilegedActionTaken);
            &&& model.contains_key(session) <==> holds(
                events,
                |e: SessionEvent| e.session == session,
            )
            &&& model.contains_key(session) <==> heartbeats.len() + verifications.len()
                + accesses.len() + actions.len() > 0
            &&& model.contains_key(session) ==> {
                &&& model[session].last_heartbeat_at == latest(heartbeats)
                &&& model[session].last_identity_at == latest(verifications)
                &&& model[session].last_resource_at == latest(accesses)
                &&& model[session].privileged_count == actions.len()
            }
            &&& actions.len() <= events.len()
        }),
    decreases events.len(),
{
    lemma_session_times(events, session, ZtnaEvent::SessionHeartbeat);
    lemma_session_times(events, session, ZtnaEvent::IdentityVerified);
    lemma_session_times(events, session, ZtnaEvent::ResourceAccessed);
    lemma_session_times(events, session, ZtnaEvent::PrivilegedActionTaken);
    if events.len() > 0 {
        law_session_record(events.drop_last(), session);
        lemma_holds_one_more(events, |e: SessionEvent| e.session == session);
        match events.last().event {
            ZtnaEvent::SessionHeartbeat => {},
            ZtnaEvent::IdentityVerified => {},
            ZtnaEvent::ResourceAccessed => {},
            ZtnaEvent::PrivilegedActionTaken => {},
        }
    }
}

/// No event but a privileged action is ever reported.
pub proof fn law_quiet_report(events: Seq<SessionEvent>, ev: SessionEvent)
    requires
        ev.event != ZtnaEvent::PrivilegedActionTaken,
    ensures
        session_verdict(sessions_from(events), ev) == Seq::<VarianceView>::empty(),
{
}

/// A privileged action passes if and only if the last heartbeat of its session is at most 30
/// seconds old, the last verification at most 300 seconds, and there was some access to a
/// resource, in whatever order these came and however many actions before. Each that is missing
/// is reported on its own, as critical, in this order.
pub proof fn law_privileged_action_report(
    events: Seq<SessionEvent>,
    session: Seq<char>,
    ts: u64,
)
    requires
        events.len() <= usize::MAX,
    ensures
        ({
            let heartbeats = session_times(events, session, ZtnaEvent::SessionHeartbeat);
            let verifications = session_times(events, session, ZtnaEvent::IdentityVerified);
            let accesses = session_times(events, session, ZtnaEvent::ResourceAccessed);
            let on_heartbeat = if last_counts(heartbeats, ts, 30) {
                seq![]
            } else {
                seq![
                    VarianceView {
                        severity: Severity::Critical,
                        rule: "PRIV-1: SessionHeartbeat required within 30s"@,
                        detail: "'"@ + session + "': "@ + (if heartbeats.len() == 0 {
                            "no SessionHeartbeat on record — session may be spoofed"@
                        } else {
                            "last heartbeat "@ + decimal_text((ts - heartbeats.last()) as nat)
                                + "s ago — window is "@ + decimal_text(30) + "s"@
                        }),
                    },
                ]
            };
            let on_identity = if last_counts(verifications, ts, 300) {
                seq![]
            } else {
                seq![
                    VarianceView {
                        severity: Severity::Critical,
                        rule: "PRIV-2: IdentityVerified required within 5-min window"@,
                        detail: "'"@ + session + "': "@ + (if verifications.len() == 0 {
                            "no IdentityVerified on record — identity unconfirmed"@
                        } else {
                            "last verification "@ + decimal_text(
                                (ts - verifications.last()) as nat,
                            ) + "s ago — window is "@ + decimal_text(300) + "s"@
                        }),
                    },
                ]
            };
            let on_resource = if accesses.len() > 0 {
                seq![]
            } else {
                seq![
                    VarianceView {
                        severity: Severity::Critical,
                        rule:
                            "PRIV-3: Prior ResourceAccessed required — cold privilege escalation detected"@,
                        detail: "'"@ + session + "': "@
                            + "no ResourceAccessed on record — actor escalated to PrivilegedActionTaken without establishing resource-level session context"@,
                    },
                ]
            };
            let report = session_verdict(
                sessions_from(events),
                SessionEvent { session, event: ZtnaEvent::PrivilegedActionTaken, ts },
            );
            &&& report == on_heartbeat + on_identity + on_resource
            &&& report.len() == 0 <==> last_counts(heartbeats, ts, 30) && last_counts(
                verifications,
                ts,
                300,
            ) && accesses.len() > 0
        }),
{
    law_session_record(events, session);
}

/// No event of the stream is dated before an earlier one.
pub open spec fn sessions_in_order(events: Seq<SessionEvent>) -> bool {
    forall|i: int, j: int|
        0 <= i < j < events.len() ==> (#[trigger] events[i]).ts <= (#[trigger] events[j]).ts
}

proof fn lemma_times_before(events: Seq<SessionEvent>, session: Seq<char>, event: ZtnaEvent, ts: u64)
    requires
        forall|i: int| 0 <= i < events.len() ==> (#[trigger] events[i]).ts <= ts,
    ensures
        session_times(events, session, event).len() > 0 ==> session_times(
            events,
            session,
            event,
        ).last() <= ts,
    decreases events.len(),
{
    lemma_session_times(events, session, event);
    if events.len() > 0 {
        let rest = events.drop_last();
        assert forall|i: int| 0 <= i < rest.len() implies (#[trigger] rest[i]).ts <= ts by {
            assert(events[i].ts <= ts);
        }
        lemma_times_before(rest, session, event, ts);
        assert(events[events.len() - 1].ts <= ts);
    }
}

/// The engine accepts every event of a stream that is in order of time.
pub proof fn law_ordered_sessions_are_accepted(events: Seq<SessionEvent>, n: int)
    requires
        0 <= n < events.len() <= usize::MAX,
        sessions_in_order(events),
    ensures
        session_accepts(sessions_from(events.take(n)), events[n]),
{
    let before = events.take(n);
    assert forall|i: int| 0 <= i < before.len() implies (#[trigger] before[i]).ts
        <= events[n].ts by {
        assert(events[i].ts <= events[n].ts);
    }
    law_session_record(before, events[n].session);
    lemma_times_before(
        before,
        events[n].session,
        ZtnaEvent::SessionHeartbeat,
        events[n].ts,
    );
    lemma_times_before(
        before,
        events[n].session,
        ZtnaEvent::IdentityVerified,
        events[n].ts,
    );
}

} // verus!
