//! What holds of the engines together, over whole streams of events.

pub mod admission;
pub mod automation;
pub mod checks;
pub mod control_plane;
pub mod demonstration;
pub mod graphs;
pub mod identity;
pub mod panels;
pub mod sessions;
pub mod steps;
pub mod streams;
pub mod texts;
pub mod thermal;
pub mod views;

use vstd::prelude::*;

use crate::automation::automation_after;
use crate::automation::automation_verdict;
use crate::automation::AutomationModel;
use crate::automation::AutomationState;
use crate::control_plane::control_plane_after;
use crate::control_plane::control_plane_verdict;
use crate::control_plane::ControlPlaneModel;
use crate::control_plane::ControlPlaneState;
use crate::engine::identity_after;
use crate::engine::identity_verdict;
use crate::engine::IdentityModel;
use crate::engine::WINDOW;
use crate::events::AutomationEvent;
use crate::events::ControlPlaneEvent;
use crate::events::Domain;
use crate::events::DomainEvent;
use crate::events::EventView;
use crate::events::IdentityEvent;
use crate::events::ThermalEvent;
use crate::freshness::within;
use crate::laws::automation::automation_from;
use crate::laws::control_plane::control_plane_from;
use crate::laws::identity::identity_from;
use crate::laws::identity::lemma_one_login_counts;
use crate::laws::streams::one_counts;
use crate::laws::thermal::thermal_from;
use crate::scenario::history_of;
use crate::scenario::known_after;
use crate::scenario::EntryView;
use crate::snapshot::Key;
use crate::snapshot::Known;
use crate::state::AuthView;
use crate::store::value_at;
use crate::store::value_or;
use crate::thermal::thermal_after;
use crate::thermal::thermal_verdict;
use crate::thermal::ThermalModel;
use crate::thermal::ThermalState;
use crate::variance::has_critical;
use crate::variance::Severity;

verus! {

// ── Streams ───────────────────────────────────────────────────────────────────

/// What the engines know after a stream of events.
pub open spec fn known_from(events: Seq<EventView>) -> Known
    decreases events.len(),
{
    if events.len() == 0 {
        Known::nothing()
    } else {
        known_from(events.drop_last()).after(events.last())
    }
}

/// What the engines know of one entity.
pub struct Record {
    pub identity: Option<AuthView>,
    pub control_plane: Option<ControlPlaneState>,
    pub thermal: Option<ThermalState>,
    pub automation: Option<AutomationState>,
}

impl Known {
    /// What is known of one entity.
    pub open spec fn record(self, entity: Seq<char>) -> Record {
        Record {
            identity: value_at(self.identity, entity),
            control_plane: value_at(self.control_plane, entity),
            thermal: value_at(self.thermal, entity),
            automation: value_at(self.automation, entity),
        }
    }
}

/// The events of one entity.
pub open spec fn own_events(events: Seq<EventView>, entity: Seq<char>) -> Seq<EventView> {
    events.filter(|e: EventView| e.entity == entity)
}

/// Entities are tracked independently: what is known of one of them rests on its own events
/// alone, however they are mixed with those of others.
pub proof fn law_entities_are_independent(events: Seq<EventView>, entity: Seq<char>)
    ensures
        known_from(events).record(entity) == known_from(own_events(events, entity)).record(entity),
    decreases events.len(),
{
    reveal(Seq::filter);
    if events.len() > 0 {
        law_entities_are_independent(events.drop_last(), entity);
        let own = own_events(events.drop_last(), entity);
        if events.last().entity == entity {
            assert(own.push(events.last()).drop_last() =~= own);
        }
    }
}

/// What is reported on an event, and how its check is explained, rests on what is known of its
/// own entity alone.
pub proof fn law_report_rests_on_record(a: Known, b: Known, ev: EventView)
    requires
        a.record(ev.entity) == b.record(ev.entity),
    ensures
        a.verdict(ev) == b.verdict(ev),
        a.check(ev) == b.check(ev),
        a.after(ev).record(ev.entity) == b.after(ev).record(ev.entity),
{
    assert(value_at(a.identity, ev.entity) == value_at(b.identity, ev.entity));
    assert(value_at(a.control_plane, ev.entity) == value_at(b.control_plane, ev.entity));
    assert(value_at(a.thermal, ev.entity) == value_at(b.thermal, ev.entity));
    assert(value_at(a.automation, ev.entity) == value_at(b.automation, ev.entity));
}

/// An event changes what is known of its own entity only.
pub proof fn law_others_are_untouched(known: Known, ev: EventView, other: Seq<char>)
    requires
        other != ev.entity,
    ensures
        known.after(ev).record(other) == known.record(other),
{
}

/// The reports on an entity are the same whether its events come alone or mixed with others.
pub proof fn law_reports_are_independent(events: Seq<EventView>, ev: EventView)
    ensures
        known_from(events).verdict(ev) == known_from(own_events(events, ev.entity)).verdict(ev),
{
    law_entities_are_independent(events, ev.entity);
    law_report_rests_on_record(
        known_from(events),
        known_from(own_events(events, ev.entity)),
        ev,
    );
}

/// Every engine passes over the events of the other domains: it learns nothing from them and
/// reports nothing on them.
pub proof fn law_other_domains_are_ignored(known: Known, ev: EventView)
    ensures
        ev.kind.tag() != Domain::Identity ==> identity_after(known.identity, ev) == known.identity
            && identity_verdict(known.identity, ev).len() == 0,
        ev.kind.tag() != Domain::ControlPlane ==> control_plane_after(known.control_plane, ev)
            == known.control_plane && control_plane_verdict(known.control_plane, ev).len() == 0,
        ev.kind.tag() != Domain::Thermal ==> thermal_after(known.thermal, ev) == known.thermal
            && thermal_verdict(known.thermal, ev).len() == 0,
        ev.kind.tag() != Domain::Automation ==> automation_after(known.automation, ev)
            == known.automation && automation_verdict(known.automation, ev).len() == 0,
{
}

/// The engines run side by side: what they know together is what each of them knows of the
/// stream, and what is reported on an event is what the engine of its domain reports.
pub proof fn law_engines_run_side_by_side(events: Seq<EventView>, ev: EventView)
    ensures
        ({
            let known = known_from(events);
            &&& known.identity == identity_from(events)
            &&& known.control_plane == control_plane_from(events)
            &&& known.thermal == thermal_from(events)
            &&& known.automation == automation_from(events)
            &&& ev.kind is Identity ==> known.verdict(ev) == identity_verdict(known.identity, ev)
            &&& ev.kind is ControlPlane ==> known.verdict(ev) == control_plane_verdict(
                known.control_plane,
                ev,
            )
            &&& ev.kind is Thermal ==> known.verdict(ev) == thermal_verdict(known.thermal, ev)
            &&& ev.kind is Automation ==> known.verdict(ev) == automation_verdict(
                known.automation,
                ev,
            )
        }),
    decreases events.len(),
{
    if events.len() > 0 {
        law_engines_run_side_by_side(events.drop_last(), ev);
    }
}

/// The events of one domain.
pub open spec fn domain_events(events: Seq<EventView>, domain: Domain) -> Seq<EventView> {
    events.filter(|e: EventView| e.kind.tag() == domain)
}

/// Domains are tracked independently: what an engine knows rests on the events of its own domain
/// alone.
pub proof fn law_domains_are_independent(events: Seq<EventView>)
    ensures
        known_from(events).identity == known_from(domain_events(events, Domain::Identity)).identity,
        known_from(events).control_plane == known_from(
            domain_events(events, Domain::ControlPlane),
        ).control_plane,
        known_from(events).thermal == known_from(domain_events(events, Domain::Thermal)).thermal,
        known_from(events).automation == known_from(
            domain_events(events, Domain::Automation),
        ).automation,
    decreases events.len(),
{
    reveal(Seq::filter);
    if events.len() > 0 {
        let rest = events.drop_last();
        law_domains_are_independent(rest);
        let own = domain_events(rest, events.last().kind.tag());
        assert(own.push(events.last()).drop_last() =~= own);
    }
}

/// Whether the stream holds an event of the entity in the domain.
pub open spec fn mentioned(events: Seq<EventView>, key: Key) -> bool {
    exists|i: int|
        0 <= i < events.len() && (#[trigger] events[i]).entity == key.0 && events[i].kind.tag()
            == key.1
}

/// The engines track exactly the entities that the stream mentions, each in the domains of its
/// events. So the snapshot shows a panel for each of these, and no other.
pub proof fn law_tracked_iff_mentioned(events: Seq<EventView>, key: Key)
    ensures
        known_from(events).tracks(key) <==> mentioned(events, key),
    decreases events.len(),
{
    if events.len() > 0 {
        let rest = events.drop_last();
        law_tracked_iff_mentioned(rest, key);
        if mentioned(rest, key) {
            let i = choose|i: int|
                0 <= i < rest.len() && (#[trigger] rest[i]).entity == key.0 && rest[i].kind.tag()
                    == key.1;
            assert(events[i].entity == key.0 && events[i].kind.tag() == key.1);
        }
        if mentioned(events, key) && !mentioned(rest, key) {
            let i = choose|i: int|
                0 <= i < events.len() && (#[trigger] events[i]).entity == key.0
                    && events[i].kind.tag() == key.1;
            if i < rest.len() {
                assert(rest[i].entity == key.0 && rest[i].kind.tag() == key.1);
            }
        }
        if events.last().entity == key.0 && events.last().kind.tag() == key.1 {
            assert(events[events.len() - 1].entity == key.0);
        }
    }
}

/// The events of the first `n` entries of a script.
pub open spec fn scripted_events(script: Seq<EntryView>, n: int) -> Seq<EventView> {
    Seq::new(n as nat, |i: int| script[i].event())
}

/// What a run knows is what the stream of its events leaves behind.
pub proof fn law_run_is_a_stream(script: Seq<EntryView>, n: int)
    requires
        0 <= n <= script.len(),
    ensures
        known_after(script, n) == known_from(scripted_events(script, n)),
    decreases n,
{
    if n > 0 {
        law_run_is_a_stream(script, n - 1);
        assert(scripted_events(script, n).drop_last() =~= scripted_events(script, n - 1));
    }
}

// ── When an event passes ──────────────────────────────────────────────────────

/// A token may be issued exactly under a login that counts.
pub proof fn law_issue_passes(model: IdentityModel, entity: Seq<char>, ts: u64)
    ensures
        identity_verdict(
            model,
            EventView {
                ts,
                entity,
                kind: DomainEvent::Identity(IdentityEvent::AuthTokenIssued),
            },
        ).len() == 0 <==> one_counts(
            value_or(model, entity, AuthView::blank()).logins,
            ts,
            300,
        ),
{
    lemma_one_login_counts(value_or(model, entity, AuthView::blank()).logins, ts);
}

/// A token may be used exactly under a login that counts and after it was issued.
pub proof fn law_use_passes(model: IdentityModel, entity: Seq<char>, ts: u64)
    ensures
        ({
            let s = value_or(model, entity, AuthView::blank());
            identity_verdict(
                model,
                EventView {
                    ts,
                    entity,
                    kind: DomainEvent::Identity(IdentityEvent::AuthTokenUsed),
                },
            ).len() == 0 <==> one_counts(s.logins, ts, 300) && s.token_issued_at is Some
        }),
{
    lemma_one_login_counts(value_or(model, entity, AuthView::blank()).logins, ts);
}

/// An admin action may be taken exactly within the hour that follows the last assignment of a
/// role.
pub proof fn law_admin_action_passes(model: ControlPlaneModel, entity: Seq<char>, ts: u64)
    ensures
        control_plane_verdict(
            model,
            EventView {
                ts,
                entity,
                kind: DomainEvent::ControlPlane(ControlPlaneEvent::AdminActionTaken),
            },
        ).len() == 0 <==> (value_or(
            model,
            entity,
            ControlPlaneState::blank(),
        ).role_assigned_at matches Some(t) && t <= ts <= t + 3600),
{
}

/// A reading passes exactly where it is not too high or a declared workload explains it.
pub proof fn law_reading_passes(model: ThermalModel, entity: Seq<char>, temp: u64, ts: u64)
    ensures
        thermal_verdict(
            model,
            EventView { ts, entity, kind: DomainEvent::Thermal(ThermalEvent::ThermalReading(temp)) },
        ).len() == 0 <==> temp <= 50 || (value_or(
            model,
            entity,
            ThermalState::blank(),
        ).last_workload_at matches Some(t) && t <= ts <= t + 1800),
{
}

/// A trigger passes exactly where a validation still counts.
pub proof fn law_trigger_passes(model: AutomationModel, entity: Seq<char>, ts: u64)
    ensures
        automation_verdict(
            model,
            EventView {
                ts,
                entity,
                kind: DomainEvent::Automation(AutomationEvent::AutomationTriggered),
            },
        ).len() == 0 <==> (value_or(
            model,
            entity,
            AutomationState::blank(),
        ).last_validated_at matches Some(t) && t <= ts <= t + 300),
{
}

// ── Legitimate behaviour raises no alarm ──────────────────────────────────────

/// A login, a token issued and a token used within the window of the login raise no alarm,
/// whatever came before, and leave nothing to report at the end of the stream.
pub proof fn law_authentication_raises_no_alarm(
    known: Known,
    entity: Seq<char>,
    login: u64,
    issue: u64,
    usage: u64,
)
    requires
        login <= issue <= login + 300,
        login <= usage <= login + 300,
    ensures
        ({
            let e0 = EventView {
                ts: login,
                entity,
                kind: DomainEvent::Identity(IdentityEvent::LoginSuccess),
            };
            let e1 = EventView {
                ts: issue,
                entity,
                kind: DomainEvent::Identity(IdentityEvent::AuthTokenIssued),
            };
            let e2 = EventView {
                ts: usage,
                entity,
                kind: DomainEvent::Identity(IdentityEvent::AuthTokenUsed),
            };
            &&& known.verdict(e0).len() == 0
            &&& known.after(e0).verdict(e1).len() == 0
            &&& known.after(e0).after(e1).verdict(e2).len() == 0
            &&& !known.after(e0).after(e1).after(e2).identity[entity].orphaned()
        }),
{
    let before = value_or(known.identity, entity, AuthView::blank());
    let s = before.after(IdentityEvent::LoginSuccess, login);
    let n = before.logins.len() as int;
    assert(s.logins[n] == login);
    assert(s.logged_in(issue, WINDOW) && s.logged_in(usage, WINDOW)) by {
        assert(within(s.logins[n], issue, WINDOW));
        assert(within(s.logins[n], usage, WINDOW));
    }
    let t = s.after(IdentityEvent::AuthTokenIssued, issue);
    assert(t.logged_in(usage, WINDOW)) by {
        assert(within(t.logins[n], usage, WINDOW));
    }
}

/// A role followed within the hour by an admin action raises no alarm, whatever came before.
pub proof fn law_authorised_action_raises_no_alarm(
    known: Known,
    entity: Seq<char>,
    role: u64,
    action: u64,
)
    requires
        role <= action <= role + 3600,
    ensures
        ({
            let e0 = EventView {
                ts: role,
                entity,
                kind: DomainEvent::ControlPlane(ControlPlaneEvent::RoleAssigned),
            };
            let e1 = EventView {
                ts: action,
                entity,
                kind: DomainEvent::ControlPlane(ControlPlaneEvent::AdminActionTaken),
            };
            &&& known.verdict(e0).len() == 0
            &&& known.after(e0).verdict(e1).len() == 0
        }),
{
}

/// A declared workload explains every reading within its window, however high, whatever came
/// before.
pub proof fn law_declared_workload_raises_no_alarm(
    known: Known,
    entity: Seq<char>,
    workload: u64,
    reading: u64,
    temp: u64,
)
    requires
        workload <= reading <= workload + 1800,
    ensures
        ({
            let e0 = EventView {
                ts: workload,
                entity,
                kind: DomainEvent::Thermal(ThermalEvent::WorkloadScheduled),
            };
            let e1 = EventView {
                ts: reading,
                entity,
                kind: DomainEvent::Thermal(ThermalEvent::ThermalReading(temp)),
            };
            &&& known.verdict(e0).len() == 0
            &&& known.after(e0).verdict(e1).len() == 0
        }),
{
}

/// A validation backs every trigger within its window, whatever came before.
pub proof fn law_validated_automation_raises_no_alarm(
    known: Known,
    entity: Seq<char>,
    validation: u64,
    trigger: u64,
)
    requires
        validation <= trigger <= validation + 300,
    ensures
        ({
            let e0 = EventView {
                ts: validation,
                entity,
                kind: DomainEvent::Automation(AutomationEvent::StateValidated),
            };
            let e1 = EventView {
                ts: trigger,
                entity,
                kind: DomainEvent::Automation(AutomationEvent::AutomationTriggered),
            };
            &&& known.verdict(e0).len() == 0
            &&& known.after(e0).verdict(e1).len() == 0
        }),
{
}

// ── Deferred reports ──────────────────────────────────────────────────────────

/// Once a token of an entity was issued or used, no later event lets the end of the stream
/// report its logins.
pub proof fn law_token_settles_logins(s: AuthView, event: IdentityEvent, ts: u64)
    requires
        s.token_issued_at is Some || s.token_used,
    ensures
        !s.orphaned(),
        s.after(event, ts).token_issued_at is Some || s.after(event, ts).token_used,
        !s.after(event, ts).orphaned(),
{
}

/// A login is reported at the end of the stream as long as no token follows.
pub proof fn law_login_without_token_is_reported(s: AuthView, ts: u64)
    requires
        s.token_issued_at is None,
        !s.token_used,
    ensures
        s.after(IdentityEvent::LoginSuccess, ts).orphaned(),
{
}

// ── Checks and reports ────────────────────────────────────────────────────────

/// Whether an event only opens a window and is held against nothing.
pub open spec fn opens_window(kind: DomainEvent) -> bool {
    ||| kind == DomainEvent::Identity(IdentityEvent::LoginSuccess)
    ||| kind == DomainEvent::ControlPlane(ControlPlaneEvent::RoleAssigned)
    ||| kind == DomainEvent::Thermal(ThermalEvent::WorkloadScheduled)
    ||| kind == DomainEvent::Automation(AutomationEvent::StateValidated)
}

/// The explanation of a check agrees with what the engine reports: a passed check goes with no
/// variance, a failed one with a critical variance, a warning with variances none of which is
/// critical.
pub proof fn law_check_agrees_with_report(known: Known, ev: EventView)
    ensures
        known.check(ev).result == (if opens_window(ev.kind) {
            "pending"@
        } else if known.verdict(ev).len() == 0 {
            "pass"@
        } else if has_critical(known.verdict(ev)) {
            "fail"@
        } else {
            "warn"@
        }),
        opens_window(ev.kind) ==> known.verdict(ev).len() == 0,
{
    let verdict = known.verdict(ev);
    if verdict.len() > 0 && verdict[0].severity == Severity::Critical {
        assert(has_critical(verdict));
    }
}

// ── Escalation ────────────────────────────────────────────────────────────────

/// What is known of a rack after a row of readings, each with its temperature and its time.
pub open spec fn readings_after(s: ThermalState, readings: Seq<(u64, u64)>) -> ThermalState
    decreases readings.len(),
{
    if readings.len() == 0 {
        s
    } else {
        readings_after(s, readings.drop_last()).after(
            ThermalEvent::ThermalReading(readings.last().0),
            readings.last().1,
        )
    }
}

/// How many readings at the end of the row are, one after the other, too high without a
/// workload that explains them.
pub open spec fn unexplained_run(s: ThermalState, readings: Seq<(u64, u64)>) -> nat
    decreases readings.len(),
{
    if readings.len() > 0 && s.unexplained(readings.last().0, readings.last().1) {
        unexplained_run(s, readings.drop_last()) + 1
    } else {
        0
    }
}

/// The counter of a rack is the number of consecutive unexplained readings: those at the end of
/// the row, and those before the row where nothing in it interrupts them.
pub proof fn law_bias_is_counted(s: ThermalState, readings: Seq<(u64, u64)>)
    requires
        s.bias_count + readings.len() <= usize::MAX,
    ensures
        readings_after(s, readings).bias_count == unexplained_run(s, readings) + (
        if unexplained_run(s, readings) == readings.len() {
            s.bias_count as int
        } else {
            0
        }),
        readings_after(s, readings).last_workload_at == s.last_workload_at,
        unexplained_run(s, readings) <= readings.len(),
    decreases readings.len(),
{
    if readings.len() > 0 {
        law_bias_is_counted(s, readings.drop_last());
    }
}

/// A reading that is not too high, or that a workload explains, ends a row of unexplained
/// readings, and so does the declaration of a workload.
pub proof fn law_bias_row_ends(s: ThermalState, temp: u64, ts: u64)
    ensures
        !s.unexplained(temp, ts) ==> s.after(ThermalEvent::ThermalReading(temp), ts).bias_count
            == 0,
        s.after(ThermalEvent::WorkloadScheduled, ts).bias_count == 0,
{
}

/// In a row of unexplained readings the first is a warning and every further one is critical.
pub proof fn law_bias_escalates(
    s: ThermalState,
    readings: Seq<(u64, u64)>,
    entity: Seq<char>,
    temp: u64,
    ts: u64,
)
    requires
        s.bias_count == 0,
        readings.len() <= usize::MAX,
        s.unexplained(temp, ts),
    ensures
        ({
            let verdict = readings_after(s, readings).verdict(
                ThermalEvent::ThermalReading(temp),
                entity,
                ts,
            );
            &&& verdict.len() == 1
            &&& verdict[0].severity == (if unexplained_run(s, readings) == 0 {
                Severity::Warning
            } else {
                Severity::Critical
            })
        }),
{
    law_bias_is_counted(s, readings);
}

/// What is known of an orchestrator after a row of triggers.
pub open spec fn triggers_after(s: AutomationState, times: Seq<u64>) -> AutomationState
    decreases times.len(),
{
    if times.len() == 0 {
        s
    } else {
        triggers_after(s, times.drop_last()).after(
            AutomationEvent::AutomationTriggered,
            times.last(),
        )
    }
}

/// Triggers without validation are counted.
pub proof fn law_cascade_is_counted(s: AutomationState, times: Seq<u64>)
    requires
        s.trigger_count + times.len() <= usize::MAX,
        forall|i: int| 0 <= i < times.len() ==> !s.backed(#[trigger] times[i]),
    ensures
        triggers_after(s, times).trigger_count == s.trigger_count + times.len(),
        triggers_after(s, times).last_validated_at == s.last_validated_at,
    decreases times.len(),
{
    if times.len() > 0 {
        let rest = times.drop_last();
        assert forall|i: int| 0 <= i < rest.len() implies !s.backed(#[trigger] rest[i]) by {
            assert(rest[i] == times[i]);
        }
        law_cascade_is_counted(s, rest);
        assert(times.last() == times[times.len() - 1]);
    }
}

/// In a row of triggers without validation the first is a warning and every further one is
/// critical, whether there was a validation before the row or not.
pub proof fn law_cascade_escalates(
    s: AutomationState,
    times: Seq<u64>,
    entity: Seq<char>,
    ts: u64,
)
    requires
        s.trigger_count == 0,
        times.len() <= usize::MAX,
        forall|i: int| 0 <= i < times.len() ==> !s.backed(#[trigger] times[i]),
        !s.backed(ts),
    ensures
        ({
            let verdict = triggers_after(s, times).verdict(
                AutomationEvent::AutomationTriggered,
                entity,
                ts,
            );
            &&& verdict.len() == 1
            &&& verdict[0].severity == (if times.len() == 0 {
                Severity::Warning
            } else {
                Severity::Critical
            })
        }),
{
    law_cascade_is_counted(s, times);
}

/// A validation and a trigger that one backs end a row of triggers without validation. So does
/// nothing having happened yet.
pub proof fn law_cascade_row_ends(s: AutomationState, ts: u64)
    ensures
        s.backed(ts) ==> s.after(AutomationEvent::AutomationTriggered, ts).trigger_count == 0,
        s.after(AutomationEvent::StateValidated, ts).trigger_count == 0,
        AutomationState::blank().trigger_count == 0,
        !AutomationState::blank().backed(ts),
{
}

// ── Histories ─────────────────────────────────────────────────────────────────

/// A history lists events of its user only, each with its number, time and name, in the order
/// of the script.
pub proof fn law_history_is_faithful(script: Seq<EntryView>, n: int, user: Seq<char>)
    requires
        0 <= n <= script.len() <= usize::MAX,
    ensures
        ({
            let history = history_of(script, n, user);
            &&& forall|k: int|
                0 <= k < history.len() ==> {
                    let seen = #[trigger] history[k];
                    let entry = script[seen.0 - 1];
                    &&& 0 < seen.0 <= n
                    &&& entry.user == user
                    &&& seen.1 == entry.ts
                    &&& seen.2 == entry.kind.label()
                }
            &&& forall|j: int, k: int|
                0 <= j < k < history.len() ==> (#[trigger] history[j]).0 < (#[trigger] history[k]).0
        }),
    decreases n,
{
    if n > 0 {
        law_history_is_faithful(script, n - 1, user);
    }
}

/// A history leaves out no event of its user.
pub proof fn law_history_is_complete(script: Seq<EntryView>, n: int, i: int)
    requires
        0 <= i < n <= script.len() <= usize::MAX,
    ensures
        history_of(script, n, script[i].user).contains(
            ((i + 1) as usize, script[i].ts, script[i].kind.label()),
        ),
    decreases n,
{
    let user = script[i].user;
    let seen = ((i + 1) as usize, script[i].ts, script[i].kind.label());
    let history = history_of(script, n, user);
    let shorter = history_of(script, n - 1, user);
    if i == n - 1 {
        assert(history[history.len() - 1] == seen);
    } else {
        law_history_is_complete(script, n - 1, i);
        let k = choose|k: int| 0 <= k < shorter.len() && shorter[k] == seen;
        assert(history[k] == seen);
    }
}

} // verus!
