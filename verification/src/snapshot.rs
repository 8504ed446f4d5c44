//! The snapshot of what the engines know: one panel for every entity of every domain.

use vstd::prelude::*;
use vstd::string::*;

use crate::automation::AutomationModel;
use crate::automation::AutomationState;
use crate::automation::AutomationStore;
use crate::automation::VALIDATION_WINDOW;
use crate::checks::table::add_row;
use crate::checks::table::moment;
use crate::checks::table::moment_text;
use crate::checks::table::no_rows;
use crate::checks::table::row_views;
use crate::checks::table::Row;
use crate::checks::table::RowView;
use crate::control_plane::ControlPlaneModel;
use crate::control_plane::ControlPlaneState;
use crate::control_plane::ControlPlaneStore;
use crate::control_plane::CP_WINDOW;
use crate::engine::IdentityModel;
use crate::engine::WINDOW;
use crate::events::Domain;
use crate::freshness::elapsed_since;
use crate::freshness::fresh;
use crate::ordering::ascending;
use crate::ordering::is_before;
use crate::ordering::law_listing_unique;
use crate::ordering::law_name_before_irreflexive;
use crate::ordering::law_name_before_total;
use crate::ordering::law_name_before_transitive;
use crate::ordering::lemma_insert_contains;
use crate::ordering::lemma_skip_one_less;
use crate::ordering::lists;
use crate::ordering::name_before;
use crate::ordering::strict_order;
use crate::state::AuthState;
use crate::state::AuthView;
use crate::state::StateStore;
use crate::store::Store;
use crate::text::decimal;
use crate::text::decimal_text;
use crate::thermal::biased;
use crate::thermal::ThermalModel;
use crate::thermal::ThermalState;
use crate::thermal::ThermalStore;
use crate::thermal::BIAS_THRESHOLD;
use crate::thermal::JUSTIFICATION_WINDOW;
use crate::thermal::NOMINAL_TEMP;

verus! {

/// What one engine knows of one entity, ready for display.
pub struct EntityState {
    pub domain: &'static str,
    /// Label, value and status class of each line.
    pub fields: Vec<Row>,
}

/// A panel, with its texts as character sequences.
pub struct EntityStateView {
    pub domain: Seq<char>,
    pub fields: Seq<RowView>,
}

impl View for EntityState {
    type V = EntityStateView;

    open spec fn view(&self) -> EntityStateView {
        EntityStateView { domain: self.domain@, fields: row_views(self.fields@) }
    }
}

// ── Lines of a panel ──────────────────────────────────────────────────────────

/// A time on record, with a mark where it no longer counts.
pub open spec fn dated_row(label: Seq<char>, at: Option<u64>, counts: bool) -> RowView {
    match at {
        None => (label, "—"@, "none"@),
        Some(t) => if counts {
            (label, moment_text(t), "ok"@)
        } else {
            (label, moment_text(t) + " ⚠"@, "fail"@)
        },
    }
}

/// Something that happened or did not.
pub open spec fn flag_row(label: Seq<char>, set: bool) -> RowView {
    if set {
        (label, "yes"@, "ok"@)
    } else {
        (label, "no"@, "none"@)
    }
}

/// How often something happened that should not.
pub open spec fn count_row(label: Seq<char>, n: usize) -> RowView {
    (
        label,
        decimal_text(n as nat),
        if n == 0 {
            "ok"@
        } else if n == 1 {
            "warn"@
        } else {
            "fail"@
        },
    )
}

fn add_dated(rows: &mut Vec<Row>, label: &str, at: Option<u64>, counts: bool)
    ensures
        row_views(final(rows)@) == row_views(old(rows)@).push(dated_row(label@, at, counts)),
{
    match at {
        None => add_row(rows, label, "—", "none"),
        Some(t) => if counts {
            add_row(rows, label, moment(t).as_str(), "ok")
        } else {
            add_row(rows, label, moment(t).concat(" ⚠").as_str(), "fail")
        },
    }
}

fn add_flag(rows: &mut Vec<Row>, label: &str, set: bool)
    ensures
        row_views(final(rows)@) == row_views(old(rows)@).push(flag_row(label@, set)),
{
    if set {
        add_row(rows, label, "yes", "ok")
    } else {
        add_row(rows, label, "no", "none")
    }
}

fn add_count(rows: &mut Vec<Row>, label: &str, n: usize)
    ensures
        row_views(final(rows)@) == row_views(old(rows)@).push(count_row(label@, n)),
{
    let class = if n == 0 {
        "ok"
    } else if n == 1 {
        "warn"
    } else {
        "fail"
    };
    add_row(rows, label, decimal(n as u64).as_str(), class)
}

// ── Panels ────────────────────────────────────────────────────────────────────

/// What the identity engine knows of an entity, as seen at `ts`.
pub open spec fn identity_panel(s: AuthView, ts: u64) -> EntityStateView {
    EntityStateView {
        domain: Domain::Identity.label(),
        fields: seq![
            if s.logins.len() == 0 {
                dated_row("last_login"@, None, false)
            } else {
                dated_row(
                    "last_login"@,
                    Some(s.logins.last()),
                    elapsed_since(s.logins.last(), ts) <= WINDOW,
                )
            },
            dated_row("token_issued"@, s.token_issued_at, true),
            flag_row("token_used"@, s.token_used),
        ],
    }
}

/// What the control plane engine knows of an entity, as seen at `ts`.
pub open spec fn control_plane_panel(s: ControlPlaneState, ts: u64) -> EntityStateView {
    EntityStateView {
        domain: Domain::ControlPlane.label(),
        fields: seq![
            dated_row(
                "role_assigned_at"@,
                s.role_assigned_at,
                fresh(s.role_assigned_at, ts, CP_WINDOW) is Some,
            ),
            flag_row("admin_action"@, s.admin_action_taken),
        ],
    }
}

/// What the thermal engine knows of a rack, as seen at `ts`.
pub open spec fn thermal_panel(s: ThermalState, ts: u64) -> EntityStateView {
    EntityStateView {
        domain: Domain::Thermal.label(),
        fields: seq![
            dated_row(
                "last_workload_at"@,
                s.last_workload_at,
                fresh(s.last_workload_at, ts, JUSTIFICATION_WINDOW) is Some,
            ),
            match s.last_temp {
                None => ("last_temp"@, "—"@, "none"@),
                Some(t) => (
                    "last_temp"@,
                    decimal_text(t as nat) + "°C"@,
                    if biased(t) {
                        "fail"@
                    } else {
                        "ok"@
                    },
                ),
            },
            count_row("bias_count"@, s.bias_count),
        ],
    }
}

/// What the automation engine knows of an orchestrator, as seen at `ts`.
pub open spec fn automation_panel(s: AutomationState, ts: u64) -> EntityStateView {
    EntityStateView {
        domain: Domain::Automation.label(),
        fields: seq![
            dated_row(
                "last_validated_at"@,
                s.last_validated_at,
                fresh(s.last_validated_at, ts, VALIDATION_WINDOW) is Some,
            ),
            count_row("trigger_count"@, s.trigger_count),
            match s.last_trigger_at {
                None => ("last_trigger_at"@, "—"@, "none"@),
                Some(t) => ("last_trigger_at"@, moment_text(t), "neutral"@),
            },
        ],
    }
}

/// A record that has a panel.
trait Shown: View {
    spec fn panel(record: Self::V, ts: u64) -> EntityStateView;

    fn show(&self, ts: u64) -> (r: EntityState)
        ensures
            r@ == Self::panel(self@, ts),
    ;
}

impl Shown for AuthState {
    spec fn panel(record: AuthView, ts: u64) -> EntityStateView {
        identity_panel(record, ts)
    }

    fn show(&self, ts: u64) -> (r: EntityState) {
        let mut fields = no_rows();
        let last = self.last_login();
        let counts = match last {
            Some(t) => ts.saturating_sub(t) <= WINDOW,
            None => false,
        };
        add_dated(&mut fields, "last_login", last, counts);
        add_dated(&mut fields, "token_issued", self.token_issued_at, true);
        add_flag(&mut fields, "token_used", self.token_used);
        assert(row_views(fields@) =~= identity_panel(self@, ts).fields);
        EntityState { domain: Domain::Identity.name(), fields }
    }
}

impl Shown for ControlPlaneState {
    spec fn panel(record: ControlPlaneState, ts: u64) -> EntityStateView {
        control_plane_panel(record, ts)
    }

    fn show(&self, ts: u64) -> (r: EntityState) {
        let mut fields = no_rows();
        let counts = self.role_within(ts, CP_WINDOW).is_some();
        add_dated(&mut fields, "role_assigned_at", self.role_assigned_at, counts);
        add_flag(&mut fields, "admin_action", self.admin_action_taken);
        assert(row_views(fields@) =~= control_plane_panel(*self, ts).fields);
        EntityState { domain: Domain::ControlPlane.name(), fields }
    }
}

impl Shown for ThermalState {
    spec fn panel(record: ThermalState, ts: u64) -> EntityStateView {
        thermal_panel(record, ts)
    }

    fn show(&self, ts: u64) -> (r: EntityState) {
        let mut fields = no_rows();
        let counts = self.workload_within(ts, JUSTIFICATION_WINDOW).is_some();
        add_dated(&mut fields, "last_workload_at", self.last_workload_at, counts);
        match self.last_temp {
            None => add_row(&mut fields, "last_temp", "—", "none"),
            Some(t) => add_row(
                &mut fields,
                "last_temp",
                decimal(t).concat("°C").as_str(),
                if t > NOMINAL_TEMP + BIAS_THRESHOLD {
                    "fail"
                } else {
                    "ok"
                },
            ),
        }
        add_count(&mut fields, "bias_count", self.bias_count);
        assert(row_views(fields@) =~= thermal_panel(*self, ts).fields);
        EntityState { domain: Domain::Thermal.name(), fields }
    }
}

impl Shown for AutomationState {
    spec fn panel(record: AutomationState, ts: u64) -> EntityStateView {
        automation_panel(record, ts)
    }

    fn show(&self, ts: u64) -> (r: EntityState) {
        let mut fields = no_rows();
        let counts = self.validation_within(ts, VALIDATION_WINDOW).is_some();
        add_dated(&mut fields, "last_validated_at", self.last_validated_at, counts);
        add_count(&mut fields, "trigger_count", self.trigger_count);
        match self.last_trigger_at {
            None => add_row(&mut fields, "last_trigger_at", "—", "none"),
            Some(t) => add_row(&mut fields, "last_trigger_at", moment(t).as_str(), "neutral"),
        }
        assert(row_views(fields@) =~= automation_panel(*self, ts).fields);
        EntityState { domain: Domain::Automation.name(), fields }
    }
}

// ── Snapshot ──────────────────────────────────────────────────────────────────

/// What the four engines know.
pub struct Known {
    pub identity: IdentityModel,
    pub control_plane: ControlPlaneModel,
    pub thermal: ThermalModel,
    pub automation: AutomationModel,
}

/// An entity in a domain.
pub type Key = (Seq<char>, Domain);

impl Known {
    /// Whether the engine of the domain knows the entity.
    pub open spec fn tracks(self, key: Key) -> bool {
        match key.1 {
            Domain::Identity => self.identity.contains_key(key.0),
            Domain::ControlPlane => self.control_plane.contains_key(key.0),
            Domain::Thermal => self.thermal.contains_key(key.0),
            Domain::Automation => self.automation.contains_key(key.0),
        }
    }

    /// What the engine of the domain knows of the entity, as seen at `ts`.
    pub open spec fn panel(self, key: Key, ts: u64) -> EntityStateView {
        match key.1 {
            Domain::Identity => identity_panel(self.identity[key.0], ts),
            Domain::ControlPlane => control_plane_panel(self.control_plane[key.0], ts),
            Domain::Thermal => thermal_panel(self.thermal[key.0], ts),
            Domain::Automation => automation_panel(self.automation[key.0], ts),
        }
    }
}

/// The place of a domain among the panels of one entity.
pub open spec fn rank(domain: Domain) -> int {
    match domain {
        Domain::Identity => 0,
        Domain::ControlPlane => 1,
        Domain::Thermal => 2,
        Domain::Automation => 3,
    }
}

/// The order of the panels: by the entity's name, then by domain.
pub open spec fn panel_before(a: Key, b: Key) -> bool {
    name_before(a.0, b.0) || a.0 == b.0 && rank(a.1) < rank(b.1)
}

/// The sequence lists what the engines track, each once, in the order of the panels.
pub open spec fn lists_tracked(keys: Seq<Key>, known: Known) -> bool {
    lists(keys, |k: Key| known.tracks(k), |a: Key, b: Key| panel_before(a, b))
}

/// What the engines track, in the order of the panels.
pub open spec fn tracked_keys(known: Known) -> Seq<Key> {
    choose|keys: Seq<Key>| lists_tracked(keys, known)
}

/// The snapshot of what the engines know, as seen at `ts`.
pub open spec fn snapshot_of(known: Known, ts: u64) -> Seq<(Seq<char>, EntityStateView)> {
    tracked_keys(known).map_values(|k: Key| (k.0, known.panel(k, ts)))
}

/// The views of named panels.
pub open spec fn panel_views(s: Seq<(String, EntityState)>) -> Seq<(Seq<char>, EntityStateView)> {
    s.map_values(|p: (String, EntityState)| (p.0@, p.1@))
}

/// The order of the panels is a strict order.
pub proof fn law_panel_order_strict()
    ensures
        strict_order(|a: Key, b: Key| panel_before(a, b)),
{
    let before = |a: Key, b: Key| panel_before(a, b);
    assert forall|a: Key| !#[trigger] before(a, a) by {
        law_name_before_irreflexive(a.0);
    }
    assert forall|a: Key, b: Key, c: Key| #[trigger] before(a, b) && #[trigger] before(
        b,
        c,
    ) implies before(a, c) by {
        if name_before(a.0, b.0) && name_before(b.0, c.0) {
            law_name_before_transitive(a.0, b.0, c.0);
        }
    }
}

/// What the engines know determines the order of the panels: there is one listing only.
pub proof fn law_snapshot_order_unique(keys: Seq<Key>, known: Known)
    requires
        lists_tracked(keys, known),
    ensures
        keys == tracked_keys(known),
{
    law_panel_order_strict();
    law_listing_unique(
        keys,
        tracked_keys(known),
        |k: Key| known.tracks(k),
        |a: Key, b: Key| panel_before(a, b),
    );
}

/// The panels stand for the keys, one for one.
spec fn shows(s: Seq<(String, EntityState)>, keys: Seq<Key>, known: Known, ts: u64) -> bool {
    &&& s.len() == keys.len()
    &&& forall|i: int|
        0 <= i < s.len() ==> (#[trigger] s[i]).0@ == keys[i].0 && s[i].1@ == known.panel(keys[i], ts)
}

/// Where a panel of that name belongs: behind all panels of names up to it.
fn place_for(panels: &Vec<(String, EntityState)>, name: &str) -> (r: usize)
    requires
        forall|i: int, j: int|
            0 <= i < j < panels@.len() ==> !name_before(
                (#[trigger] panels@[j]).0@,
                (#[trigger] panels@[i]).0@,
            ),
    ensures
        r <= panels@.len(),
        forall|i: int| 0 <= i < r ==> !name_before(name@, (#[trigger] panels@[i]).0@),
        forall|i: int| r <= i < panels@.len() ==> name_before(name@, (#[trigger] panels@[i]).0@),
{
    let mut p: usize = panels.len();
    while p > 0 && is_before(name, panels[p - 1].0.as_str())
        invariant
            p <= panels@.len(),
            forall|i: int|
                p <= i < panels@.len() ==> name_before(name@, (#[trigger] panels@[i]).0@),
        decreases p,
    {
        p -= 1;
    }
    proof {
        if p > 0 {
            assert forall|i: int| 0 <= i < p implies !name_before(
                name@,
                (#[trigger] panels@[i]).0@,
            ) by {
                let last = panels@[p - 1].0@;
                let here = panels@[i].0@;
                if name_before(name@, here) && i < p - 1 {
                    if here == last {
                    } else {
                        law_name_before_total(here, last);
                        law_name_before_transitive(name@, here, last);
                    }
                }
            }
        }
    }
    p
}

/// Panels in order never go back in the order of names.
proof fn lemma_shown_sorted(s: Seq<(String, EntityState)>, keys: Seq<Key>, known: Known, ts: u64)
    requires
        shows(s, keys, known, ts),
        ascending(keys, |a: Key, b: Key| panel_before(a, b)),
    ensures
        forall|i: int, j: int|
            0 <= i < j < s.len() ==> !name_before((#[trigger] s[j]).0@, (#[trigger] s[i]).0@),
{
    let before = |a: Key, b: Key| panel_before(a, b);
    assert forall|i: int, j: int| 0 <= i < j < s.len() implies !name_before(
        (#[trigger] s[j]).0@,
        (#[trigger] s[i]).0@,
    ) by {
        assert(before(keys[i], keys[j]));
        law_name_before_irreflexive(keys[i].0);
        if name_before(keys[j].0, keys[i].0) && name_before(keys[i].0, keys[j].0) {
            law_name_before_transitive(keys[i].0, keys[j].0, keys[i].0);
        }
    }
}

/// A key of the last domain so far, put behind all names up to its own, keeps the order.
proof fn lemma_insert_in_order(keys: Seq<Key>, p: int, key: Key)
    requires
        ascending(keys, |a: Key, b: Key| panel_before(a, b)),
        0 <= p <= keys.len(),
        !keys.contains(key),
        forall|i: int| 0 <= i < keys.len() ==> rank((#[trigger] keys[i]).1) <= rank(key.1),
        forall|i: int| 0 <= i < p ==> !name_before(key.0, (#[trigger] keys[i]).0),
        forall|i: int| p <= i < keys.len() ==> name_before(key.0, (#[trigger] keys[i]).0),
    ensures
        ascending(keys.insert(p, key), |a: Key, b: Key| panel_before(a, b)),
{
    let before = |a: Key, b: Key| panel_before(a, b);
    let grown = keys.insert(p, key);
    assert forall|i: int, j: int| 0 <= i < j < grown.len() implies before(
        #[trigger] grown[i],
        #[trigger] grown[j],
    ) by {
        if j == p {
            assert(grown[i] == keys[i]);
            if keys[i].0 != key.0 {
                law_name_before_total(keys[i].0, key.0);
            } else {
                assert(keys[i] != key);
            }
        } else if i == p {
            assert(grown[j] == keys[j - 1]);
        } else {
            let a = if i < p { i } else { i - 1 };
            let b = if j < p { j } else { j - 1 };
            assert(before(keys[a], keys[b]));
        }
    }
}

/// Adds the panels of one domain to those of the domains before it.
fn merge(
    panels: &mut Vec<(String, EntityState)>,
    more: Vec<(String, EntityState)>,
    Ghost(keys): Ghost<Seq<Key>>,
    Ghost(domain): Ghost<Domain>,
    Ghost(names): Ghost<Seq<Seq<char>>>,
    Ghost(known): Ghost<Known>,
    Ghost(ts): Ghost<u64>,
) -> (r: Ghost<Seq<Key>>)
    requires
        shows(old(panels)@, keys, known, ts),
        ascending(keys, |a: Key, b: Key| panel_before(a, b)),
        forall|i: int| 0 <= i < keys.len() ==> rank((#[trigger] keys[i]).1) < rank(domain),
        names.no_duplicates(),
        shows(more@, names.map_values(|n: Seq<char>| (n, domain)), known, ts),
    ensures
        shows(final(panels)@, r@, known, ts),
        ascending(r@, |a: Key, b: Key| panel_before(a, b)),
        forall|i: int| 0 <= i < r@.len() ==> rank((#[trigger] r@[i]).1) <= rank(domain),
        forall|k: Key| #[trigger]
            r@.contains(k) <==> keys.contains(k) || k.1 == domain && names.contains(k.0),
{
    let mut more = more;
    let ghost mut have = keys;
    let ghost n = more@.len() as int;
    while more.len() > 0
        invariant
            more@.len() <= n,
            n == names.len(),
            names.no_duplicates(),
            shows(panels@, have, known, ts),
            ascending(have, |a: Key, b: Key| panel_before(a, b)),
            forall|i: int| 0 <= i < have.len() ==> rank((#[trigger] have[i]).1) <= rank(domain),
            forall|k: Key| #[trigger]
                have.contains(k) <==> keys.contains(k) || k.1 == domain && names.skip(
                    more@.len() as int,
                ).contains(k.0),
            forall|i: int| 0 <= i < keys.len() ==> rank((#[trigger] keys[i]).1) < rank(domain),
            shows(
                more@,
                names.take(more@.len() as int).map_values(|m: Seq<char>| (m, domain)),
                known,
                ts,
            ),
        decreases more.len(),
    {
        let ghost left = more@.len() - 1;
        let ghost key = (names[left], domain);
        let ghost shown = more@;
        assert(shown[left].0@ == key.0);
        let last = more.pop();
        if let Some(panel) = last {
            proof {
                lemma_shown_sorted(panels@, have, known, ts);
            }
            let p = place_for(panels, panel.0.as_str());
            let ghost before = panels@;
            panels.insert(p, panel);
            proof {
                assert(!names.skip(left + 1).contains(names[left]));
                assert(!have.contains(key));
                assert forall|i: int| 0 <= i < p implies !name_before(
                    key.0,
                    (#[trigger] have[i]).0,
                ) by {
                    assert(before[i].0@ == have[i].0);
                }
                assert forall|i: int| p <= i < have.len() implies name_before(
                    key.0,
                    (#[trigger] have[i]).0,
                ) by {
                    assert(before[i].0@ == have[i].0);
                }
                lemma_insert_in_order(have, p as int, key);
                let grown = have.insert(p as int, key);
                assert forall|k: Key| #[trigger]
                    grown.contains(k) <==> keys.contains(k) || k.1 == domain && names.skip(
                        left,
                    ).contains(k.0) by {
                    lemma_insert_contains(have, p as int, key, k);
                    lemma_skip_one_less(names, left, k.0);
                }
                assert(shows(panels@, grown, known, ts));
                assert(forall|i: int|
                    0 <= i < grown.len() ==> rank((#[trigger] grown[i]).1) <= rank(domain));
                have = grown;
            }
        }
    }
    proof {
        assert(names.skip(0) =~= names);
    }
    Ghost(have)
}

/// The panels of one domain, in the order in which its store is walked.
fn panels_of<S: Shown>(store: &Store<S>, ts: u64) -> (r: Vec<(String, EntityState)>)
    ensures
        store.walk().no_duplicates(),
        forall|k: Seq<char>| #[trigger] store@.contains_key(k) <==> store.walk().contains(k),
        r@.len() == store.walk().len(),
        forall|i: int|
            0 <= i < r@.len() ==> (#[trigger] r@[i]).0@ == store.walk()[i] && r@[i].1@ == S::panel(
                store@[store.walk()[i]],
                ts,
            ),
{
    let mut r: Vec<(String, EntityState)> = Vec::new();
    let n: usize = store.len();
    for i in 0..n
        invariant
            n == store.walk().len(),
            r@.len() == i,
            forall|j: int|
                0 <= j < i ==> (#[trigger] r@[j]).0@ == store.walk()[j] && r@[j].1@ == S::panel(
                    store@[store.walk()[j]],
                    ts,
                ),
    {
        let (name, record) = store.at(i);
        r.push((name.to_owned(), record.show(ts)));
    }
    r
}

/// The panels of all entities of all domains at `current_ts`, by name and then by domain.
pub fn snapshot(
    id_store: &StateStore,
    cp_store: &ControlPlaneStore,
    th_store: &ThermalStore,
    au_store: &AutomationStore,
    current_ts: u64,
) -> (r: Vec<(String, EntityState)>)
    ensures
        ({
            let known = Known {
                identity: id_store@,
                control_plane: cp_store@,
                thermal: th_store@,
                automation: au_store@,
            };
            &&& lists_tracked(tracked_keys(known), known)
            &&& panel_views(r@) == snapshot_of(known, current_ts)
        }),
{
    let ghost known = Known {
        identity: id_store@,
        control_plane: cp_store@,
        thermal: th_store@,
        automation: au_store@,
    };
    let mut out: Vec<(String, EntityState)> = Vec::new();
    let Ghost(identity) = merge(
        &mut out,
        panels_of(id_store, current_ts),
        Ghost(Seq::empty()),
        Ghost(Domain::Identity),
        Ghost(id_store.walk()),
        Ghost(known),
        Ghost(current_ts),
    );
    let Ghost(control_plane) = merge(
        &mut out,
        panels_of(cp_store, current_ts),
        Ghost(identity),
        Ghost(Domain::ControlPlane),
        Ghost(cp_store.walk()),
        Ghost(known),
        Ghost(current_ts),
    );
    let Ghost(thermal) = merge(
        &mut out,
        panels_of(th_store, current_ts),
        Ghost(control_plane),
        Ghost(Domain::Thermal),
        Ghost(th_store.walk()),
        Ghost(known),
        Ghost(current_ts),
    );
    let Ghost(automation) = merge(
        &mut out,
        panels_of(au_store, current_ts),
        Ghost(thermal),
        Ghost(Domain::Automation),
        Ghost(au_store.walk()),
        Ghost(known),
        Ghost(current_ts),
    );
    proof {
        let tracks = |k: Key| known.tracks(k);
        assert forall|k: Key| #[trigger] tracks(k) implies automation.contains(k) by {
            assert(identity.contains(k) <==> k.1 is Identity && id_store@.contains_key(k.0));
            assert(control_plane.contains(k) <==> identity.contains(k) || k.1 is ControlPlane
                && cp_store@.contains_key(k.0));
            assert(thermal.contains(k) <==> control_plane.contains(k) || k.1 is Thermal
                && th_store@.contains_key(k.0));
        }
        assert forall|i: int| 0 <= i < automation.len() implies tracks(#[trigger] automation[i]) by {
            let k = automation[i];
            assert(automation.contains(k));
            assert(thermal.contains(k) || k.1 is Automation);
            assert(control_plane.contains(k) || rank(k.1) > 1);
            assert(identity.contains(k) || rank(k.1) > 0);
        }
        law_snapshot_order_unique(automation, known);
        assert(panel_views(out@) =~= snapshot_of(known, current_ts));
    }
    out
}

} // verus!
