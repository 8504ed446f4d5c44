//! The identity engine: logins, tokens issued, tokens used.

use vstd::prelude::*;
use vstd::string::*;

use crate::events::DomainEvent;
use crate::events::Event;
use crate::events::EventView;
use crate::events::IdentityEvent;
use crate::ordering::lemma_push_contains;
use crate::ordering::lemma_take_one_more;
use crate::state::AuthState;
use crate::state::AuthView;
use crate::state::StateStore;
use crate::store::value_or;
use crate::text::decimal;
use crate::text::decimal_text;
use crate::variance::about;
use crate::variance::no_variances;
use crate::variance::quoted;
use crate::variance::report;
use crate::variance::variance_views;
use crate::variance::Severity;
use crate::variance::Variance;
use crate::variance::VarianceView;

verus! {

/// How long a login counts, in seconds.
pub const WINDOW: u64 = 300;

/// What the engine knows, by entity.
pub type IdentityModel = Map<Seq<char>, AuthView>;

impl AuthView {
    /// What is known after an event at `ts`.
    pub open spec fn after(self, event: IdentityEvent, ts: u64) -> AuthView {
        match event {
            IdentityEvent::LoginSuccess => AuthView { logins: self.logins.push(ts), ..self },
            IdentityEvent::AuthTokenIssued => AuthView { token_issued_at: Some(ts), ..self },
            IdentityEvent::AuthTokenUsed => AuthView { token_used: true, ..self },
        }
    }

    /// Where no login counts at `ts`, the last one is at least not in the future, so that its
    /// age can be told.
    pub open spec fn datable(self, ts: u64) -> bool {
        self.logins.len() > 0 && !self.logged_in(ts, WINDOW) ==> self.logins.last() <= ts
    }

    /// What a token issued at `ts` breaks.
    pub open spec fn issue_verdict(self, entity: Seq<char>, ts: u64) -> Seq<VarianceView> {
        if self.logged_in(ts, WINDOW) {
            seq![]
        } else {
            seq![
                VarianceView {
                    severity: Severity::Critical,
                    rule: "AuthTokenIssued requires LoginSuccess within 5-min window"@,
                    detail: about(entity, "token issued with no valid login on record"@),
                },
            ]
        }
    }

    /// What the missing or expired login of a token used at `ts` breaks.
    pub open spec fn login_verdict(self, entity: Seq<char>, ts: u64) -> Seq<VarianceView> {
        if self.logins.len() == 0 {
            seq![
                VarianceView {
                    severity: Severity::Critical,
                    rule: "AuthTokenUsed requires prior LoginSuccess"@,
                    detail: about(entity, "no LoginSuccess on record"@),
                },
            ]
        } else if !self.logged_in(ts, WINDOW) {
            seq![
                VarianceView {
                    severity: Severity::Critical,
                    rule: "AuthTokenUsed must be within 5-min window of LoginSuccess"@,
                    detail: about(
                        entity,
                        "last login was "@ + decimal_text((ts - self.logins.last()) as nat)
                            + "s ago — window is "@ + decimal_text(WINDOW as nat) + "s"@,
                    ),
                },
            ]
        } else {
            seq![]
        }
    }

    /// What a token used at `ts` breaks.
    pub open spec fn use_verdict(self, entity: Seq<char>, ts: u64) -> Seq<VarianceView> {
        if self.token_issued_at is None {
            self.login_verdict(entity, ts).push(
                VarianceView {
                    severity: Severity::Warning,
                    rule: "AuthTokenUsed requires prior AuthTokenIssued"@,
                    detail: about(entity, "no AuthTokenIssued on record"@),
                },
            )
        } else {
            self.login_verdict(entity, ts)
        }
    }

    /// What an event at `ts` breaks.
    pub open spec fn verdict(self, event: IdentityEvent, entity: Seq<char>, ts: u64) -> Seq<
        VarianceView,
    > {
        match event {
            IdentityEvent::LoginSuccess => seq![],
            IdentityEvent::AuthTokenIssued => self.issue_verdict(entity, ts),
            IdentityEvent::AuthTokenUsed => self.use_verdict(entity, ts),
        }
    }

    /// A login that led to no token.
    pub open spec fn orphaned(self) -> bool {
        self.logins.len() > 0 && self.token_issued_at is None && !self.token_used
    }
}

/// What the engine knows after an event.
pub open spec fn identity_after(model: IdentityModel, ev: EventView) -> IdentityModel {
    match ev.kind {
        DomainEvent::Identity(event) => model.insert(
            ev.entity,
            value_or(model, ev.entity, AuthView::blank()).after(event, ev.ts),
        ),
        _ => model,
    }
}

/// What the engine reports on an event.
pub open spec fn identity_verdict(model: IdentityModel, ev: EventView) -> Seq<VarianceView> {
    match ev.kind {
        DomainEvent::Identity(event) => value_or(model, ev.entity, AuthView::blank()).verdict(
            event,
            ev.entity,
            ev.ts,
        ),
        _ => seq![],
    }
}

/// The engine can put its report on an event into words.
pub open spec fn identity_accepts(model: IdentityModel, ev: EventView) -> bool {
    ev.kind == DomainEvent::Identity(IdentityEvent::AuthTokenUsed) ==> value_or(
        model,
        ev.entity,
        AuthView::blank(),
    ).datable(ev.ts)
}

/// What is reported at the end of the stream for a login that led to no token.
pub open spec fn orphan_variance(entity: Seq<char>) -> VarianceView {
    VarianceView {
        severity: Severity::Warning,
        rule: "LoginSuccess must be followed by AuthTokenIssued"@,
        detail: about(entity, "login recorded but token was never issued"@),
    }
}

/// The entities that a list of deferred reports is about.
pub open spec fn reported_names(s: Seq<(String, Variance)>) -> Seq<Seq<char>> {
    s.map_values(|p: (String, Variance)| p.0@)
}

pub struct Engine {
    pub state: StateStore,
}

impl Engine {
    pub fn new() -> (r: Self)
        ensures
            r.state@ == IdentityModel::empty(),
    {
        Self { state: StateStore::new() }
    }

    /// Ingest one event, update state, evaluate invariants, return any variances.
    pub fn ingest(&mut self, ev: &Event) -> (r: Vec<Variance>)
        requires
            identity_accepts(old(self).state@, ev@),
        ensures
            final(self).state@ == identity_after(old(self).state@, ev@),
            variance_views(r@) == identity_verdict(old(self).state@, ev@),
    {
        match &ev.kind {
            DomainEvent::Identity(inner) => match inner {
                IdentityEvent::LoginSuccess => self.on_login(ev),
                IdentityEvent::AuthTokenIssued => self.on_issued(ev),
                IdentityEvent::AuthTokenUsed => self.on_used(ev),
            },
            _ => no_variances(),
        }
    }

    fn on_login(&mut self, ev: &Event) -> (r: Vec<Variance>)
        requires
            ev.kind == DomainEvent::Identity(IdentityEvent::LoginSuccess),
        ensures
            final(self).state@ == identity_after(old(self).state@, ev@),
            variance_views(r@) == identity_verdict(old(self).state@, ev@),
    {
        let s = self.state.entry(ev.entity, AuthState::default());
        let ghost before = s@;
        s.logins.push(ev.ts);
        assert(s@ =~= before.after(IdentityEvent::LoginSuccess, ev.ts));
        // That a token follows is checked when the stream ends.
        no_variances()
    }

    fn on_issued(&mut self, ev: &Event) -> (r: Vec<Variance>)
        requires
            ev.kind == DomainEvent::Identity(IdentityEvent::AuthTokenIssued),
        ensures
            final(self).state@ == identity_after(old(self).state@, ev@),
            variance_views(r@) == identity_verdict(old(self).state@, ev@),
    {
        let s = self.state.entry(ev.entity, AuthState::default());
        let ghost before = s@;
        s.token_issued_at = Some(ev.ts);
        assert(s@ =~= before.after(IdentityEvent::AuthTokenIssued, ev.ts));
        let mut out = no_variances();

        // A token needs a login within the window.
        assert(s@.logins == before.logins);
        if s.login_within(ev.ts, WINDOW).is_none() {
            report(
                &mut out,
                Severity::Critical,
                "AuthTokenIssued requires LoginSuccess within 5-min window",
                quoted(ev.entity).concat("token issued with no valid login on record"),
            );
        }
        out
    }

    fn on_used(&mut self, ev: &Event) -> (r: Vec<Variance>)
        requires
            ev.kind == DomainEvent::Identity(IdentityEvent::AuthTokenUsed),
            identity_accepts(old(self).state@, ev@),
        ensures
            final(self).state@ == identity_after(old(self).state@, ev@),
            variance_views(r@) == identity_verdict(old(self).state@, ev@),
    {
        let s = self.state.entry(ev.entity, AuthState::default());
        let ghost before = s@;
        s.token_used = true;
        assert(s@ =~= before.after(IdentityEvent::AuthTokenUsed, ev.ts));
        let mut out = no_variances();

        // There has to be a login, within the window.
        if !s.has_login() {
            report(
                &mut out,
                Severity::Critical,
                "AuthTokenUsed requires prior LoginSuccess",
                quoted(ev.entity).concat("no LoginSuccess on record"),
            );
        } else if s.login_within(ev.ts, WINDOW).is_none() {
            let elapsed: u64 = ev.ts - s.last_login().unwrap_or(0);
            report(
                &mut out,
                Severity::Critical,
                "AuthTokenUsed must be within 5-min window of LoginSuccess",
                quoted(ev.entity).concat(
                    "last login was ".to_owned().concat(decimal(elapsed).as_str()).concat(
                        "s ago — window is ",
                    ).concat(decimal(WINDOW).as_str()).concat("s").as_str(),
                ),
            );
        }
        assert(variance_views(out@) =~= before.login_verdict(ev.entity@, ev.ts));

        // A token has to be issued before it is used.
        if s.token_issued_at.is_none() {
            report(
                &mut out,
                Severity::Warning,
                "AuthTokenUsed requires prior AuthTokenIssued",
                quoted(ev.entity).concat("no AuthTokenIssued on record"),
            );
        }
        out
    }

    /// Called once the stream ends. Reports every entity whose login led to no token, once, in
    /// no particular order.
    pub fn finalize(&self) -> (r: Vec<(String, Variance)>)
        ensures
            reported_names(r@).no_duplicates(),
            forall|name: Seq<char>| #[trigger]
                reported_names(r@).contains(name) <==> self.state@.contains_key(name)
                    && self.state@[name].orphaned(),
            forall|i: int| 0 <= i < r@.len() ==> (#[trigger] r@[i]).1@ == orphan_variance(r@[i].0@),
    {
        let mut out: Vec<(String, Variance)> = Vec::new();
        let n: usize = self.state.len();
        let ghost walk = self.state.walk();
        let mut i: usize = 0;
        while i < n
            invariant
                i <= n,
                walk == self.state.walk(),
                n == walk.len(),
                walk.no_duplicates(),
                reported_names(out@).no_duplicates(),
                forall|name: Seq<char>| #[trigger]
                    reported_names(out@).contains(name) <==> walk.take(i as int).contains(name)
                        && self.state@[name].orphaned(),
                forall|k: int| 0 <= k < out@.len() ==> (#[trigger] out@[k]).1@ == orphan_variance(out@[k].0@),
            decreases n - i,
        {
            let (user, s) = self.state.at(i);
            let ghost before = reported_names(out@);
            proof {
                lemma_take_one_more(walk, i as int);
            }
            if s.has_login() && s.token_issued_at.is_none() && !s.token_used {
                let v = Variance {
                    severity: Severity::Warning,
                    rule: "LoginSuccess must be followed by AuthTokenIssued",
                    detail: quoted(user).concat("login recorded but token was never issued"),
                };
                out.push((user.to_owned(), v));
                proof {
                    assert(reported_names(out@) =~= before.push(user@));
                    assert forall|name: Seq<char>|
                        #[trigger] before.push(user@).contains(name) <==> before.contains(name)
                            || name == user@ by {
                        lemma_push_contains(before, user@, name);
                    }
                    if before.contains(user@) {
                        let k = choose|k: int| 0 <= k < i && walk.take(i as int)[k] == user@;
                        assert(walk[k] == walk[i as int]);
                    }
                }
            }
            i += 1;
        }
        assert(walk.take(n as int) =~= walk);
        out
    }
}

} // verus!
