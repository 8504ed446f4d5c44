//! The check of identity events.

use vstd::prelude::*;
use vstd::string::*;

use crate::checks::table::add_row;
use crate::checks::table::moment;
use crate::checks::table::moment_text;
use crate::checks::table::open_lookup;
use crate::checks::table::opening;
use crate::checks::table::row_views;
use crate::checks::table::seconds;
use crate::checks::table::seconds_text;
use crate::checks::table::status;
use crate::checks::table::status_text;
use crate::checks::table::CheckInfo;
use crate::checks::table::CheckView;
use crate::checks::table::RowView;
use crate::engine::WINDOW;
use crate::events::DomainEvent;
use crate::events::Event;
use crate::events::EventView;
use crate::events::IdentityEvent;
use crate::state::AuthState;
use crate::state::AuthView;

verus! {

/// The age of the last login at `ts`.
pub open spec fn login_age(s: AuthView, ts: u64) -> int {
    ts - s.logins.last()
}

/// What the lookup finds of the login behind a token that is issued.
pub open spec fn issue_rows(s: AuthView, ts: u64) -> Seq<RowView> {
    if s.logins.len() == 0 {
        seq![
            ("last_login"@, "NONE"@, "fail"@),
            ("window"@, seconds_text(WINDOW as nat), "neutral"@),
            ("verdict"@, "NO LOGIN ON RECORD"@, "fail"@),
        ]
    } else {
        seq![
            ("last_login"@, moment_text(s.logins.last()), "neutral"@),
            (
                "elapsed"@,
                seconds_text(login_age(s, ts) as nat),
                status_text(login_age(s, ts) <= WINDOW),
            ),
            ("window"@, seconds_text(WINDOW as nat), "neutral"@),
            (
                "verdict"@,
                if s.logged_in(ts, WINDOW) {
                    "within window ✔"@
                } else {
                    "EXPIRED — "@ + seconds_text((login_age(s, ts) - WINDOW) as nat)
                        + " over limit"@
                },
                status_text(s.logged_in(ts, WINDOW)),
            ),
        ]
    }
}

/// What the lookup finds of the login behind a token that is used.
pub open spec fn use_rows(s: AuthView, ts: u64) -> Seq<RowView> {
    if s.logins.len() == 0 {
        seq![
            ("last_login"@, "NONE"@, "fail"@),
            ("login_valid?"@, "NO — no login on record"@, "fail"@),
        ]
    } else {
        seq![
            ("last_login"@, moment_text(s.logins.last()), "neutral"@),
            (
                "elapsed"@,
                seconds_text(login_age(s, ts) as nat),
                status_text(login_age(s, ts) <= WINDOW),
            ),
            ("window"@, seconds_text(WINDOW as nat), "neutral"@),
            (
                "login_valid?"@,
                if s.logged_in(ts, WINDOW) {
                    "YES"@
                } else {
                    "NO — expired by "@ + seconds_text((login_age(s, ts) - WINDOW) as nat)
                },
                status_text(s.logged_in(ts, WINDOW)),
            ),
        ]
    }
}

/// What the lookup finds of the token itself.
pub open spec fn token_row(s: AuthView) -> RowView {
    match s.token_issued_at {
        Some(t) => ("token_issued"@, moment_text(t), "ok"@),
        None => ("token_issued"@, "NONE"@, "warn"@),
    }
}

/// The check of an identity event against what is known of the entity.
pub open spec fn identity_check(event: IdentityEvent, ev: EventView, s: AuthView) -> CheckView {
    match event {
        IdentityEvent::LoginSuccess => CheckView {
            rule: "Contract 1 — LoginSuccess(entity) → must issue AuthTokenIssued(entity)"@,
            lookup: opening(ev).push(
                ("action"@, "Login time recorded to state"@, "ok"@),
            ).push(
                (
                    "watching for"@,
                    "AuthTokenIssued within "@ + seconds_text(WINDOW as nat),
                    "neutral"@,
                ),
            ),
            result: "pending"@,
            result_text: "⏳ PENDING"@,
            result_detail:
                "Contract 1 is deferred — verified when AuthTokenIssued arrives or the stream ends"@,
        },
        IdentityEvent::AuthTokenIssued => {
            let rule =
                "Contract 1 check — AuthTokenIssued requires LoginSuccess within 5-min window"@;
            let lookup = opening(ev) + issue_rows(s, ev.ts);
            if s.logged_in(ev.ts, WINDOW) {
                CheckView {
                    rule,
                    lookup,
                    result: "pass"@,
                    result_text: "✔ PASS"@,
                    result_detail: "Login was recent — token issuance is valid"@,
                }
            } else {
                CheckView {
                    rule,
                    lookup,
                    result: "fail"@,
                    result_text: "✘ CONTRACT VIOLATED"@,
                    result_detail:
                        "Token issued without a valid LoginSuccess in the 5-minute window"@,
                }
            }
        },
        IdentityEvent::AuthTokenUsed => {
            let rule =
                "Contract 2 check — AuthTokenUsed requires LoginSuccess within window + AuthTokenIssued"@;
            let lookup = (opening(ev) + use_rows(s, ev.ts)).push(token_row(s));
            let valid = s.logged_in(ev.ts, WINDOW);
            if valid && s.token_issued_at is Some {
                CheckView {
                    rule,
                    lookup,
                    result: "pass"@,
                    result_text: "✔ PASS"@,
                    result_detail: "Login is recent and token issuance is on record — valid"@,
                }
            } else {
                CheckView {
                    rule,
                    lookup,
                    result: if valid {
                        "warn"@
                    } else {
                        "fail"@
                    },
                    result_text: if valid {
                        "⚠ CONTRACT WARNING"@
                    } else {
                        "✘ CONTRACT VIOLATED"@
                    },
                    result_detail: if valid && login_age(s, ev.ts) < WINDOW {
                        "No AuthTokenIssued on record — use of a token that was never issued"@
                    } else if s.logins.len() == 0 {
                        "No LoginSuccess on record — unauthenticated token use detected"@
                    } else {
                        "Session expired: login was "@ + seconds_text(
                            login_age(s, ev.ts) as nat,
                        ) + " ago, window is "@ + seconds_text(WINDOW as nat)
                            + " — exceeded by "@ + seconds_text(
                            (login_age(s, ev.ts) - WINDOW) as nat,
                        )
                    },
                }
            }
        },
    }
}

/// The check can be put into words: no token is dated before the last login.
pub open spec fn identity_checkable(event: IdentityEvent, ts: u64, s: AuthView) -> bool {
    event != IdentityEvent::LoginSuccess && s.logins.len() > 0 ==> s.logins.last() <= ts
}

/// What is known of an entity, if anything is.
pub open spec fn identity_known(pre: Option<&AuthState>) -> AuthView {
    match pre {
        Some(s) => s@,
        None => AuthView::blank(),
    }
}

/// Explains the check of an identity event.
pub fn compute_identity_check(ev: &Event, pre: Option<&AuthState>) -> (r: CheckInfo)
    requires
        ev.kind is Identity,
        identity_checkable(ev.kind->Identity_0, ev.ts, identity_known(pre)),
    ensures
        r@ == identity_check(ev.kind->Identity_0, ev@, identity_known(pre)),
{
    let ghost s = identity_known(pre);
    let last_login = match pre {
        Some(s) => s.last_login(),
        None => None,
    };
    let valid = match pre {
        Some(s) => s.login_within(ev.ts, WINDOW).is_some(),
        None => false,
    };
    let token_at = match pre {
        Some(s) => s.token_issued_at,
        None => None,
    };
    let mut lookup = open_lookup(ev);
    match ev.kind {
        DomainEvent::Identity(IdentityEvent::AuthTokenIssued) => {
            match last_login {
                None => {
                    add_row(&mut lookup, "last_login", "NONE", "fail");
                    add_row(&mut lookup, "window", seconds(WINDOW).as_str(), "neutral");
                    add_row(&mut lookup, "verdict", "NO LOGIN ON RECORD", "fail");
                },
                Some(t) => {
                    let elapsed: u64 = ev.ts - t;
                    add_row(&mut lookup, "last_login", moment(t).as_str(), "neutral");
                    add_row(
                        &mut lookup,
                        "elapsed",
                        seconds(elapsed).as_str(),
                        status(elapsed <= WINDOW),
                    );
                    add_row(&mut lookup, "window", seconds(WINDOW).as_str(), "neutral");
                    let finding = if valid {
                        "within window ✔".to_owned()
                    } else {
                        "EXPIRED — ".to_owned().concat(seconds(elapsed - WINDOW).as_str()).concat(
                            " over limit",
                        )
                    };
                    add_row(&mut lookup, "verdict", finding.as_str(), status(valid));
                },
            }
            assert(row_views(lookup@) =~= opening(ev@) + issue_rows(s, ev.ts));
            let rule =
                "Contract 1 check — AuthTokenIssued requires LoginSuccess within 5-min window".to_owned();
            if valid {
                CheckInfo {
                    rule,
                    lookup,
                    result: "pass",
                    result_text: "✔ PASS".to_owned(),
                    result_detail: "Login was recent — token issuance is valid".to_owned(),
                }
            } else {
                CheckInfo {
                    rule,
                    lookup,
                    result: "fail",
                    result_text: "✘ CONTRACT VIOLATED".to_owned(),
                    result_detail:
                        "Token issued without a valid LoginSuccess in the 5-minute window".to_owned(),
                }
            }
        },
        DomainEvent::Identity(IdentityEvent::AuthTokenUsed) => {
            match last_login {
                Some(t) => {
                    let elapsed: u64 = ev.ts - t;
                    add_row(&mut lookup, "last_login", moment(t).as_str(), "neutral");
                    add_row(
                        &mut lookup,
                        "elapsed",
                        seconds(elapsed).as_str(),
                        status(elapsed <= WINDOW),
                    );
                    add_row(&mut lookup, "window", seconds(WINDOW).as_str(), "neutral");
                    let finding = if valid {
                        "YES".to_owned()
                    } else {
                        "NO — expired by ".to_owned().concat(seconds(elapsed - WINDOW).as_str())
                    };
                    add_row(&mut lookup, "login_valid?", finding.as_str(), status(valid));
                },
                None => {
                    add_row(&mut lookup, "last_login", "NONE", "fail");
                    add_row(&mut lookup, "login_valid?", "NO — no login on record", "fail");
                },
            }
            assert(row_views(lookup@) =~= opening(ev@) + use_rows(s, ev.ts));
            match token_at {
                Some(t) => add_row(&mut lookup, "token_issued", moment(t).as_str(), "ok"),
                None => add_row(&mut lookup, "token_issued", "NONE", "warn"),
            }
            let rule =
                "Contract 2 check — AuthTokenUsed requires LoginSuccess within window + AuthTokenIssued".to_owned();
            if valid && token_at.is_some() {
                CheckInfo {
                    rule,
                    lookup,
                    result: "pass",
                    result_text: "✔ PASS".to_owned(),
                    result_detail:
                        "Login is recent and token issuance is on record — valid".to_owned(),
                }
            } else {
                let result_detail = match last_login {
                    None =>
                        "No LoginSuccess on record — unauthenticated token use detected".to_owned(),
                    Some(t) => {
                        let elapsed: u64 = ev.ts - t;
                        if elapsed < WINDOW {
                            "No AuthTokenIssued on record — use of a token that was never issued".to_owned()
                        } else {
                            "Session expired: login was ".to_owned().concat(
                                seconds(elapsed).as_str(),
                            ).concat(" ago, window is ").concat(seconds(WINDOW).as_str()).concat(
                                " — exceeded by ",
                            ).concat(seconds(elapsed - WINDOW).as_str())
                        }
                    },
                };
                CheckInfo {
                    rule,
                    lookup,
                    result: if valid {
                        "warn"
                    } else {
                        "fail"
                    },
                    result_text: if valid {
                        "⚠ CONTRACT WARNING".to_owned()
                    } else {
                        "✘ CONTRACT VIOLATED".to_owned()
                    },
                    result_detail,
                }
            }
        },
        _ => {
            add_row(&mut lookup, "action", "Login time recorded to state", "ok");
            add_row(
                &mut lookup,
                "watching for",
                "AuthTokenIssued within ".to_owned().concat(seconds(WINDOW).as_str()).as_str(),
                "neutral",
            );
            CheckInfo {
                rule:
                    "Contract 1 — LoginSuccess(entity) → must issue AuthTokenIssued(entity)".to_owned(),
                lookup,
                result: "pending",
                result_text: "⏳ PENDING".to_owned(),
                result_detail:
                    "Contract 1 is deferred — verified when AuthTokenIssued arrives or the stream ends".to_owned(),
            }
        },
    }
}

} // verus!
