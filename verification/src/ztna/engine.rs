//! The session engine: a privileged action needs a live heartbeat, a recent verification of
//! the identity and an earlier access to a resource.

use vstd::prelude::*;
use vstd::string::*;

use crate::freshness::within;
use crate::store::value_at;
use crate::store::value_or;
use crate::text::decimal;
use crate::text::decimal_text;
use crate::variance::about;
use crate::variance::no_variances;
use crate::variance::quoted;
use crate::variance::report;
use crate::variance::variance_views;
use crate::variance::VarianceView;
use crate::ztna::events::ZtnaEntry;
use crate::ztna::events::ZtnaEvent;
use crate::ztna::state::SessionState;
use crate::ztna::state::SessionStore;
use crate::ztna::state::HEARTBEAT_WINDOW;
use crate::ztna::state::IDENTITY_WINDOW;

pub use crate::variance::Severity;
pub use crate::variance::Variance;

verus! {

/// What the engine knows, by session.
pub type SessionModel = Map<Seq<char>, SessionState>;

impl SessionState {
    /// What is known after an event at `ts`.
    pub open spec fn after(self, event: ZtnaEvent, ts: u64) -> SessionState {
        match event {
            ZtnaEvent::SessionHeartbeat => SessionState { last_heartbeat_at: Some(ts), ..self },
            ZtnaEvent::IdentityVerified => SessionState { last_identity_at: Some(ts), ..self },
            ZtnaEvent::ResourceAccessed => SessionState { last_resource_at: Some(ts), ..self },
            ZtnaEvent::PrivilegedActionTaken => SessionState {
                privileged_count: (self.privileged_count + 1) as usize,
                ..self
            },
        }
    }

    /// What a missing heartbeat breaks at `ts`.
    pub open spec fn heartbeat_verdict(self, session: Seq<char>, ts: u64) -> Seq<VarianceView> {
        if self.alive(ts) {
            seq![]
        } else {
            seq![
                VarianceView {
                    severity: Severity::Critical,
                    rule: "PRIV-1: SessionHeartbeat required within 30s"@,
                    detail: about(
                        session,
                        match self.last_heartbeat_at {
                            None => "no SessionHeartbeat on record — session may be spoofed"@,
                            Some(t) => "last heartbeat "@ + decimal_text((ts - t) as nat)
                                + "s ago — window is "@ + decimal_text(HEARTBEAT_WINDOW as nat)
                                + "s"@,
                        },
                    ),
                },
            ]
        }
    }

    /// What a missing verification of the identity breaks at `ts`.
    pub open spec fn identity_verdict(self, session: Seq<char>, ts: u64) -> Seq<VarianceView> {
        if self.verified(ts) {
            seq![]
        } else {
            seq![
                VarianceView {
                    severity: Severity::Critical,
                    rule: "PRIV-2: IdentityVerified required within 5-min window"@,
                    detail: about(
                        session,
                        match self.last_identity_at {
                            None => "no IdentityVerified on record — identity unconfirmed"@,
                            Some(t) => "last verification "@ + decimal_text((ts - t) as nat)
                                + "s ago — window is "@ + decimal_text(IDENTITY_WINDOW as nat)
                                + "s"@,
                        },
                    ),
                },
            ]
        }
    }

    /// What a session without any access to a resource breaks.
    pub open spec fn resource_verdict(self, session: Seq<char>) -> Seq<VarianceView> {
        if self.last_resource_at is Some {
            seq![]
        } else {
            seq![
                VarianceView {
                    severity: Severity::Critical,
                    rule:
                        "PRIV-3: Prior ResourceAccessed required — cold privilege escalation detected"@,
                    detail: about(
                        session,
                        "no ResourceAccessed on record — actor escalated to PrivilegedActionTaken without establishing resource-level session context"@,
                    ),
                },
            ]
        }
    }

    /// What an event at `ts` breaks.
    pub open spec fn verdict(self, event: ZtnaEvent, session: Seq<char>, ts: u64) -> Seq<
        VarianceView,
    > {
        if event == ZtnaEvent::PrivilegedActionTaken {
            self.heartbeat_verdict(session, ts) + self.identity_verdict(session, ts)
                + self.resource_verdict(session)
        } else {
            seq![]
        }
    }

    /// A privileged action at `ts` can be put into words and counted: nothing that it is held
    /// against lies in the future, and the counter has room.
    pub open spec fn accepts(self, event: ZtnaEvent, ts: u64) -> bool {
        event == ZtnaEvent::PrivilegedActionTaken ==> {
            &&& self.last_heartbeat_at matches Some(t) ==> t <= ts
            &&& self.last_identity_at matches Some(t) ==> t <= ts
            &&& self.privileged_count < usize::MAX
        }
    }
}

/// An event of a stream: its session, what happened and when.
pub struct SessionEvent {
    pub session: Seq<char>,
    pub event: ZtnaEvent,
    pub ts: u64,
}

/// What the engine knows after an event.
pub open spec fn sessions_after(model: SessionModel, ev: SessionEvent) -> SessionModel {
    model.insert(
        ev.session,
        value_or(model, ev.session, SessionState::blank()).after(ev.event, ev.ts),
    )
}

/// What the engine reports on an event.
pub open spec fn session_verdict(model: SessionModel, ev: SessionEvent) -> Seq<VarianceView> {
    value_or(model, ev.session, SessionState::blank()).verdict(ev.event, ev.session, ev.ts)
}

/// The engine can count an event and put its report on it into words.
pub open spec fn session_accepts(model: SessionModel, ev: SessionEvent) -> bool {
    value_or(model, ev.session, SessionState::blank()).accepts(ev.event, ev.ts)
}

impl View for ZtnaEntry {
    type V = SessionEvent;

    /// What the engine reads of an entry. The actor and the detail are for display only.
    open spec fn view(&self) -> SessionEvent {
        SessionEvent { session: self.session@, event: self.event, ts: self.ts }
    }
}

pub struct ZtnaEngine {
    pub sessions: SessionStore,
}

impl ZtnaEngine {
    pub fn new() -> (r: Self)
        ensures
            r.sessions@ == SessionModel::empty(),
    {
        Self { sessions: SessionStore::new() }
    }

    /// Ingest one entry, update the session's state, return any variances.
    pub fn ingest(&mut self, ev: &ZtnaEntry) -> (r: Vec<Variance>)
        requires
            session_accepts(old(self).sessions@, ev@),
        ensures
            final(self).sessions@ == sessions_after(old(self).sessions@, ev@),
            variance_views(r@) == session_verdict(old(self).sessions@, ev@),
    {
        let s = self.sessions.entry(ev.session, SessionState::default());
        let mut out = no_variances();
        match ev.event {
            ZtnaEvent::SessionHeartbeat => {
                s.last_heartbeat_at = Some(ev.ts);
            },
            ZtnaEvent::IdentityVerified => {
                s.last_identity_at = Some(ev.ts);
            },
            ZtnaEvent::ResourceAccessed => {
                s.last_resource_at = Some(ev.ts);
            },
            ZtnaEvent::PrivilegedActionTaken => {
                // A live heartbeat.
                if !s.heartbeat_fresh(ev.ts) {
                    let detail = match s.last_heartbeat_at {
                        None => "no SessionHeartbeat on record — session may be spoofed".to_owned(),
                        Some(t) => "last heartbeat ".to_owned().concat(
                            decimal(ev.ts - t).as_str(),
                        ).concat("s ago — window is ").concat(
                            decimal(HEARTBEAT_WINDOW).as_str(),
                        ).concat("s"),
                    };
                    report(
                        &mut out,
                        Severity::Critical,
                        "PRIV-1: SessionHeartbeat required within 30s",
                        quoted(ev.session).concat(detail.as_str()),
                    );
                }
                assert(variance_views(out@) =~= s@.heartbeat_verdict(ev.session@, ev.ts));

                // A recent verification of the identity.
                if !s.identity_fresh(ev.ts) {
                    let detail = match s.last_identity_at {
                        None => "no IdentityVerified on record — identity unconfirmed".to_owned(),
                        Some(t) => "last verification ".to_owned().concat(
                            decimal(ev.ts - t).as_str(),
                        ).concat("s ago — window is ").concat(
                            decimal(IDENTITY_WINDOW).as_str(),
                        ).concat("s"),
                    };
                    report(
                        &mut out,
                        Severity::Critical,
                        "PRIV-2: IdentityVerified required within 5-min window",
                        quoted(ev.session).concat(detail.as_str()),
                    );
                }
                assert(variance_views(out@) =~= s@.heartbeat_verdict(ev.session@, ev.ts)
                    + s@.identity_verdict(ev.session@, ev.ts));

                // An earlier access to a resource.
                if !s.has_resource_access() {
                    report(
                        &mut out,
                        Severity::Critical,
                        "PRIV-3: Prior ResourceAccessed required — cold privilege escalation detected",
                        quoted(ev.session).concat(
                            "no ResourceAccessed on record — actor escalated to PrivilegedActionTaken without establishing resource-level session context",
                        ),
                    );
                }
                assert(variance_views(out@) =~= s@.verdict(ev.event, ev.session@, ev.ts));
                s.privileged_count += 1;
            },
        }
        out
    }
}

// ── Laws ──────────────────────────────────────────────────────────────────────

/// What the engine knows after a stream of events.
pub open spec fn sessions_from(events: Seq<SessionEvent>) -> SessionModel
    decreases events.len(),
{
    if events.len() == 0 {
        SessionModel::empty()
    } else {
        sessions_after(sessions_from(events.drop_last()), events.last())
    }
}

/// Sessions are tracked independently: what is known of one of them rests on its own events
/// alone.
pub proof fn law_sessions_are_independent(events: Seq<SessionEvent>, session: Seq<char>)
    ensures
        value_at(sessions_from(events), session) == value_at(
            sessions_from(events.filter(|e: SessionEvent| e.session == session)),
            session,
        ),
    decreases events.len(),
{
    reveal(Seq::filter);
    if events.len() > 0 {
        let rest = events.drop_last();
        law_sessions_are_independent(rest, session);
        let own = rest.filter(|e: SessionEvent| e.session == session);
        if events.last().session == session {
            assert(own.push(events.last()).drop_last() =~= own);
        }
    }
}

/// A privileged action passes exactly with a live heartbeat, a recent verification of the
/// identity and an earlier access to a resource. Every one of them that is missing is reported
/// on its own, and as critical.
pub proof fn law_privileged_action(s: SessionState, session: Seq<char>, ts: u64)
    ensures
        ({
            let verdict = s.verdict(ZtnaEvent::PrivilegedActionTaken, session, ts);
            &&& verdict.len() == 0 <==> s.alive(ts) && s.verified(ts) && s.last_resource_at is Some
            &&& verdict.len() == (if s.alive(ts) {
                0int
            } else {
                1
            }) + (if s.verified(ts) {
                0int
            } else {
                1
            }) + (if s.last_resource_at is Some {
                0int
            } else {
                1
            })
            &&& forall|i: int|
                0 <= i < verdict.len() ==> (#[trigger] verdict[i]).severity == Severity::Critical
        }),
{
}

/// Nothing but a privileged action is ever reported, and nothing else is counted.
pub proof fn law_other_events_pass(s: SessionState, event: ZtnaEvent, session: Seq<char>, ts: u64)
    requires
        event != ZtnaEvent::PrivilegedActionTaken,
    ensures
        s.verdict(event, session, ts).len() == 0,
        s.after(event, ts).privileged_count == s.privileged_count,
{
}

/// A heartbeat, a verification and an access in that order clear a privileged action that
/// follows while the first two still count, whatever came before.
pub proof fn law_prepared_session_raises_no_alarm(
    s: SessionState,
    session: Seq<char>,
    heartbeat: u64,
    verification: u64,
    access: u64,
    action: u64,
)
    requires
        within(heartbeat, action, HEARTBEAT_WINDOW),
        within(verification, action, IDENTITY_WINDOW),
    ensures
        s.after(ZtnaEvent::SessionHeartbeat, heartbeat).after(
            ZtnaEvent::IdentityVerified,
            verification,
        ).after(ZtnaEvent::ResourceAccessed, access).verdict(
            ZtnaEvent::PrivilegedActionTaken,
            session,
            action,
        ).len() == 0,
{
}

} // verus!
