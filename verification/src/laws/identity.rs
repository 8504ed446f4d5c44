//! What the identity engine makes of a stream, told by the events of the stream alone.

use vstd::prelude::*;

use crate::engine::identity_after;
use crate::engine::identity_verdict;
use crate::engine::orphan_variance;
use crate::engine::IdentityModel;
use crate::events::DomainEvent;
use crate::events::EventView;
use crate::events::IdentityEvent;
use crate::freshness::within;
use crate::laws::streams::holds;
use crate::laws::streams::latest;
use crate::laws::streams::lemma_holds_one_more;
use crate::laws::streams::lemma_taken_of_nothing;
use crate::laws::streams::lemma_taken_one_more;
use crate::laws::streams::one_counts;
use crate::laws::streams::taken;
use crate::text::decimal_text;
use crate::variance::Severity;
use crate::variance::VarianceView;

verus! {

/// What the engine knows after a stream of events.
pub open spec fn identity_from(events: Seq<EventView>) -> IdentityModel
    decreases events.len(),
{
    if events.len() == 0 {
        Map::empty()
    } else {
        identity_after(identity_from(events.drop_last()), events.last())
    }
}

/// The times of the events of one kind of an entity.
pub open spec fn identity_times(
    events: Seq<EventView>,
    entity: Seq<char>,
    event: IdentityEvent,
) -> Seq<u64> {
    taken(
        events,
        |e: EventView| e.entity == entity && e.kind == DomainEvent::Identity(event),
        |e: EventView| e.ts,
    )
}

proof fn lemma_identity_times(events: Seq<EventView>, entity: Seq<char>, event: IdentityEvent)
    ensures
        events.len() == 0 ==> identity_times(events, entity, event) == Seq::<u64>::empty(),
        events.len() > 0 ==> identity_times(events, entity, event) == (if events.last().entity
            == entity && events.last().kind == DomainEvent::Identity(event) {
            identity_times(events.drop_last(), entity, event).push(events.last().ts)
        } else {
            identity_times(events.drop_last(), entity, event)
        }),
{
    let pick = |e: EventView| e.entity == entity && e.kind == DomainEvent::Identity(event);
    let time = |e: EventView| e.ts;
    if events.len() == 0 {
        lemma_taken_of_nothing(events, pick, time);
    } else {
        lemma_taken_one_more(events, pick, time);
    }
}

/// The record of an entity is what its events say: all its logins in order, the time of the
/// last token that was issued, and whether one was used. No event of another kind, entity or
/// domain has a part in any of these, and without an identity event there is no record.
pub proof fn law_identity_record(events: Seq<EventView>, entity: Seq<char>)
    ensures
        ({
            let model = identity_from(events);
            let logins = identity_times(events, entity, IdentityEvent::LoginSuccess);
            let issues = identity_times(events, entity, IdentityEvent::AuthTokenIssued);
            let uses = identity_times(events, entity, IdentityEvent::AuthTokenUsed);
            &&& model.contains_key(entity) <==> holds(
                events,
                |e: EventView| e.entity == entity && e.kind is Identity,
            )
            &&& model.contains_key(entity) <==> logins.len() + issues.len() + uses.len() > 0
            &&& model.contains_key(entity) ==> {
                &&& model[entity].logins == logins
                &&& model[entity].token_issued_at == latest(issues)
                &&& model[entity].token_used <==> uses.len() > 0
            }
        }),
    decreases events.len(),
{
    lemma_identity_times(events, entity, IdentityEvent::LoginSuccess);
    lemma_identity_times(events, entity, IdentityEvent::AuthTokenIssued);
    lemma_identity_times(events, entity, IdentityEvent::AuthTokenUsed);
    if events.len() > 0 {
        let rest = events.drop_last();
        law_identity_record(rest, entity);
        lemma_holds_one_more(events, |e: EventView| e.entity == entity && e.kind is Identity);
        match events.last().kind {
            DomainEvent::Identity(event) => {
                match event {
                    IdentityEvent::LoginSuccess => {},
                    IdentityEvent::AuthTokenIssued => {},
                    IdentityEvent::AuthTokenUsed => {},
                }
            },
            _ => {},
        }
    }
}

pub proof fn lemma_one_login_counts(logins: Seq<u64>, ts: u64)
    ensures
        one_counts(logins, ts, 300) <==> exists|i: int|
            0 <= i < logins.len() && within(#[trigger] logins[i], ts, 300),
{
    if one_counts(logins, ts, 300) {
        let i = choose|i: int|
            0 <= i < logins.len() && #[trigger] logins[i] <= ts && ts <= logins[i] + 300;
        assert(within(logins[i], ts, 300));
    }
    if exists|i: int| 0 <= i < logins.len() && within(#[trigger] logins[i], ts, 300) {
        let i = choose|i: int| 0 <= i < logins.len() && within(#[trigger] logins[i], ts, 300);
        assert(logins[i] <= ts && ts <= logins[i] + 300);
    }
}

/// A login is never reported when it arrives.
pub proof fn law_login_report(events: Seq<EventView>, entity: Seq<char>, ts: u64)
    ensures
        identity_verdict(
            identity_from(events),
            EventView { ts, entity, kind: DomainEvent::Identity(IdentityEvent::LoginSuccess) },
        ) == Seq::<VarianceView>::empty(),
{
}

/// A token may be issued if and only if the stream holds a login of the entity at most 300
/// seconds earlier. Otherwise that is reported, as critical.
pub proof fn law_issue_report(events: Seq<EventView>, entity: Seq<char>, ts: u64)
    ensures
        ({
            let logins = identity_times(events, entity, IdentityEvent::LoginSuccess);
            identity_verdict(
                identity_from(events),
                EventView {
                    ts,
                    entity,
                    kind: DomainEvent::Identity(IdentityEvent::AuthTokenIssued),
                },
            ) == (if one_counts(logins, ts, 300) {
                seq![]
            } else {
                seq![
                    VarianceView {
                        severity: Severity::Critical,
                        rule: "AuthTokenIssued requires LoginSuccess within 5-min window"@,
                        detail: "'"@ + entity + "': "@
                            + "token issued with no valid login on record"@,
                    },
                ]
            })
        }),
{
    law_identity_record(events, entity);
    lemma_one_login_counts(identity_times(events, entity, IdentityEvent::LoginSuccess), ts);
}

/// A token may be used if and only if the stream holds a login of the entity at most 300
/// seconds earlier and a token that was issued to it, however often tokens were issued or used
/// before. A missing or expired login is reported as critical, a missing issue as a warning
/// behind it.
pub proof fn law_use_report(events: Seq<EventView>, entity: Seq<char>, ts: u64)
    ensures
        ({
            let logins = identity_times(events, entity, IdentityEvent::LoginSuccess);
            let issues = identity_times(events, entity, IdentityEvent::AuthTokenIssued);
            let on_login = if logins.len() == 0 {
                seq![
                    VarianceView {
                        severity: Severity::Critical,
                        rule: "AuthTokenUsed requires prior LoginSuccess"@,
                        detail: "'"@ + entity + "': "@ + "no LoginSuccess on record"@,
                    },
                ]
            } else if !one_counts(logins, ts, 300) {
                seq![
                    VarianceView {
                        severity: Severity::Critical,
                        rule: "AuthTokenUsed must be within 5-min window of LoginSuccess"@,
                        detail: "'"@ + entity + "': "@ + ("last login was "@ + decimal_text(
                            (ts - logins.last()) as nat,
                        ) + "s ago — window is "@ + decimal_text(300) + "s"@),
                    },
                ]
            } else {
                seq![]
            };
            let on_issue = if issues.len() == 0 {
                seq![
                    VarianceView {
                        severity: Severity::Warning,
                        rule: "AuthTokenUsed requires prior AuthTokenIssued"@,
                        detail: "'"@ + entity + "': "@ + "no AuthTokenIssued on record"@,
                    },
                ]
            } else {
                seq![]
            };
            let report = identity_verdict(
                identity_from(events),
                EventView { ts, entity, kind: DomainEvent::Identity(IdentityEvent::AuthTokenUsed) },
            );
            &&& report == on_login + on_issue
            &&& report.len() == 0 <==> one_counts(logins, ts, 300) && issues.len() > 0
        }),
{
    law_identity_record(events, entity);
    let logins = identity_times(events, entity, IdentityEvent::LoginSuccess);
    let issues = identity_times(events, entity, IdentityEvent::AuthTokenIssued);
    lemma_one_login_counts(logins, ts);
}

/// The end of the stream reports an entity if and only if it logged in and no token was ever
/// issued to it or used by it.
pub proof fn law_orphan_report(events: Seq<EventView>, entity: Seq<char>)
    ensures
        ({
            let model = identity_from(events);
            (model.contains_key(entity) && model[entity].orphaned()) <==> {
                &&& identity_times(events, entity, IdentityEvent::LoginSuccess).len() > 0
                &&& identity_times(events, entity, IdentityEvent::AuthTokenIssued).len() == 0
                &&& identity_times(events, entity, IdentityEvent::AuthTokenUsed).len() == 0
            }
        }),
        orphan_variance(entity) == (VarianceView {
            severity: Severity::Warning,
            rule: "LoginSuccess must be followed by AuthTokenIssued"@,
            detail: "'"@ + entity + "': "@ + "login recorded but token was never issued"@,
        }),
{
    law_identity_record(events, entity);
}

} // verus!
