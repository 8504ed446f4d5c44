//! What the small texts have in common: names, numbers, padding, and the order of names.

use vstd::prelude::*;

use crate::events::AutomationEvent;
use crate::events::ControlPlaneEvent;
use crate::events::Domain;
use crate::events::DomainEvent;
use crate::events::IdentityEvent;
use crate::events::ThermalEvent;
use crate::freshness::elapsed_since;
use crate::freshness::fresh;
use crate::freshness::within;
use crate::ordering::name_before;
use crate::text::decimal_text;
use crate::text::padded;
use crate::text::repeated;
use crate::variance::Severity;
use crate::ztna::events::ZtnaEvent;

verus! {

// ── Numbers and padding ───────────────────────────────────────────────────────

/// A decimal text is made of digits, at least one, and begins with a zero only where it is the
/// text of zero.
pub proof fn law_decimal_is_plain(n: nat)
    ensures
        decimal_text(n).len() > 0,
        forall|i: int|
            0 <= i < decimal_text(n).len() ==> '0' <= #[trigger] decimal_text(n)[i] <= '9',
        n > 0 ==> decimal_text(n)[0] != '0',
        n == 0 ==> decimal_text(n) == seq!['0'],
    decreases n,
{
    if n >= 10 {
        law_decimal_is_plain(n / 10);
        assert(decimal_text(n)[0] == decimal_text(n / 10)[0]);
    }
}

/// One more digit on the right multiplies by ten and adds the digit.
pub proof fn law_decimal_grows_by_digits(n: nat, d: nat)
    requires
        n > 0,
        d < 10,
    ensures
        decimal_text(n * 10 + d).drop_last() == decimal_text(n),
        decimal_text(n * 10 + d).last() as nat == '0' as nat + d,
        decimal_text(d).len() == 1,
        decimal_text(d)[0] as nat == '0' as nat + d,
{
    assert((n * 10 + d) / 10 == n);
    assert((n * 10 + d) % 10 == d);
    assert(decimal_text(n * 10 + d).drop_last() =~= decimal_text(n));
}

/// Padding keeps the text, adds blanks behind it, and stops at the width.
pub proof fn law_padding(s: Seq<char>, width: nat)
    ensures
        padded(s, width).len() == (if s.len() < width {
            width
        } else {
            s.len()
        }),
        forall|i: int| 0 <= i < s.len() ==> padded(s, width)[i] == s[i],
        forall|i: int| s.len() <= i < padded(s, width).len() ==> padded(s, width)[i] == ' ',
{
}

/// A repeated character is that character so many times, and nothing else.
pub proof fn law_repetition(c: char, n: nat)
    ensures
        repeated(c, n).len() == n,
        forall|i: int| 0 <= i < n ==> repeated(c, n)[i] == c,
{
}

// ── Windows ───────────────────────────────────────────────────────────────────

/// A window opens at the recorded time and closes behind its last second. Both ends count.
pub proof fn law_window_has_both_ends(t: u64, ts: u64, window: u64)
    ensures
        within(t, ts, window) <==> t <= ts <= t + window,
        fresh(Some(t), ts, window) == (if t <= ts <= t + window {
            Some(t)
        } else {
            None::<u64>
        }),
        fresh(None, ts, window) == None::<u64>,
        t <= ts ==> t + elapsed_since(t, ts) == ts,
        ts < t ==> elapsed_since(t, ts) == 0,
{
}

// ── The order of names ────────────────────────────────────────────────────────

/// Where two names agree up to a position.
pub open spec fn agree_up_to(a: Seq<char>, b: Seq<char>, k: int) -> bool {
    &&& 0 <= k <= a.len()
    &&& k <= b.len()
    &&& forall|i: int| 0 <= i < k ==> a[i] == b[i]
}

/// One name comes before another if and only if it is a proper beginning of it, or has the
/// smaller character at the first position where they differ.
pub proof fn law_names_are_ordered_like_words(a: Seq<char>, b: Seq<char>)
    ensures
        name_before(a, b) <==> exists|k: int| #[trigger]
            agree_up_to(a, b, k) && k < b.len() && (k == a.len() || a[k] < b[k]),
    decreases a.len(),
{
    let x = a.drop_first();
    let y = b.drop_first();
    if a.len() > 0 && b.len() > 0 && a[0] == b[0] {
        law_names_are_ordered_like_words(x, y);
        if name_before(x, y) {
            let k = choose|k: int| #[trigger]
                agree_up_to(x, y, k) && k < y.len() && (k == x.len() || x[k] < y[k]);
            assert forall|i: int| 0 <= i < k + 1 implies a[i] == b[i] by {
                if i > 0 {
                    assert(x[i - 1] == y[i - 1]);
                }
            }
            assert(k < x.len() ==> x[k] == a[k + 1]);
            assert(y[k] == b[k + 1]);
            assert(agree_up_to(a, b, k + 1));
        }
        if exists|k: int| #[trigger]
            agree_up_to(a, b, k) && k < b.len() && (k == a.len() || a[k] < b[k]) {
            let k = choose|k: int| #[trigger]
                agree_up_to(a, b, k) && k < b.len() && (k == a.len() || a[k] < b[k]);
            assert(k > 0);
            assert forall|i: int| 0 <= i < k - 1 implies x[i] == y[i] by {
                assert(a[i + 1] == b[i + 1]);
            }
            assert(k < a.len() ==> x[k - 1] == a[k]);
            assert(y[k - 1] == b[k]);
            assert(agree_up_to(x, y, k - 1));
        }
    } else {
        if name_before(a, b) {
            assert(agree_up_to(a, b, 0));
        }
        if exists|k: int| #[trigger]
            agree_up_to(a, b, k) && k < b.len() && (k == a.len() || a[k] < b[k]) {
            let k = choose|k: int| #[trigger]
                agree_up_to(a, b, k) && k < b.len() && (k == a.len() || a[k] < b[k]);
            if k > 0 {
                assert(a[0] == b[0]);
            }
        }
    }
}

// ── Names of things ───────────────────────────────────────────────────────────

/// Every event is called by its own name and belongs to the domain that it is made for.
pub proof fn law_event_names(temp: u64)
    ensures
        DomainEvent::Identity(IdentityEvent::LoginSuccess).label() == "LoginSuccess"@,
        DomainEvent::Identity(IdentityEvent::AuthTokenIssued).label() == "AuthTokenIssued"@,
        DomainEvent::Identity(IdentityEvent::AuthTokenUsed).label() == "AuthTokenUsed"@,
        DomainEvent::ControlPlane(ControlPlaneEvent::RoleAssigned).label() == "RoleAssigned"@,
        DomainEvent::ControlPlane(ControlPlaneEvent::AdminActionTaken).label()
            == "AdminActionTaken"@,
        DomainEvent::Thermal(ThermalEvent::WorkloadScheduled).label() == "WorkloadScheduled"@,
        DomainEvent::Thermal(ThermalEvent::ThermalReading(temp)).label() == "ThermalReading"@,
        DomainEvent::Automation(AutomationEvent::StateValidated).label() == "StateValidated"@,
        DomainEvent::Automation(AutomationEvent::AutomationTriggered).label()
            == "AutomationTriggered"@,
        forall|e: IdentityEvent| DomainEvent::Identity(e).label() == #[trigger] e.label(),
        forall|e: ControlPlaneEvent| DomainEvent::ControlPlane(e).label() == #[trigger] e.label(),
        forall|e: ThermalEvent| DomainEvent::Thermal(e).label() == #[trigger] e.label(),
        forall|e: AutomationEvent| DomainEvent::Automation(e).label() == #[trigger] e.label(),
{
}

/// The tag of an event tells its domain.
pub proof fn law_event_domains(kind: DomainEvent)
    ensures
        kind is Identity <==> kind.tag() == Domain::Identity,
        kind is ControlPlane <==> kind.tag() == Domain::ControlPlane,
        kind is Thermal <==> kind.tag() == Domain::Thermal,
        kind is Automation <==> kind.tag() == Domain::Automation,
        Domain::Identity.label() == "Identity"@,
        Domain::ControlPlane.label() == "ControlPlane"@,
        Domain::Thermal.label() == "Thermal"@,
        Domain::Automation.label() == "Automation"@,
        Severity::Warning.label() == "warning"@,
        Severity::Critical.label() == "critical"@,
{
}

/// Events of a session are called by their own names and shown in their own styles.
pub proof fn law_session_event_names()
    ensures
        ZtnaEvent::SessionHeartbeat.label() == "SessionHeartbeat"@,
        ZtnaEvent::IdentityVerified.label() == "IdentityVerified"@,
        ZtnaEvent::ResourceAccessed.label() == "ResourceAccessed"@,
        ZtnaEvent::PrivilegedActionTaken.label() == "PrivilegedActionTaken"@,
        ZtnaEvent::SessionHeartbeat.style() == "ev-hb"@,
        ZtnaEvent::IdentityVerified.style() == "ev-id"@,
        ZtnaEvent::ResourceAccessed.style() == "ev-res"@,
        ZtnaEvent::PrivilegedActionTaken.style() == "ev-priv"@,
{
}

} // verus!
