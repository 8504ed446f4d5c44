//! Runs of scripted events through the four engines, step by step, and the demonstration run.

use vstd::prelude::*;

use crate::automation::automation_accepts;
use crate::automation::automation_after;
use crate::automation::automation_verdict;
use crate::automation::AutomationEngine;
use crate::automation::AutomationState;
use crate::checks::check_of;
use crate::checks::checkable;
use crate::checks::compute_check;
use crate::checks::table::CheckInfo;
use crate::checks::table::CheckView;
use crate::control_plane::control_plane_accepts;
use crate::control_plane::control_plane_after;
use crate::control_plane::control_plane_verdict;
use crate::control_plane::ControlPlaneEngine;
use crate::control_plane::ControlPlaneState;
use crate::engine::identity_accepts;
use crate::engine::identity_after;
use crate::engine::identity_verdict;
use crate::engine::Engine;
use crate::events::AutomationEvent;
use crate::events::ControlPlaneEvent;
use crate::events::Domain;
use crate::events::DomainEvent;
use crate::events::Event;
use crate::events::EventView;
use crate::events::ThermalEvent;
use crate::narratives::Phase;
use crate::narratives::NARRATIVES;
use crate::snapshot::lists_tracked;
use crate::snapshot::panel_views;
use crate::snapshot::snapshot;
use crate::snapshot::snapshot_of;
use crate::snapshot::tracked_keys;
use crate::snapshot::EntityState;
use crate::snapshot::EntityStateView;
use crate::snapshot::Known;
use crate::state::AuthView;
use crate::store::value_or;
use crate::store::Store;
use crate::thermal::thermal_accepts;
use crate::thermal::thermal_after;
use crate::thermal::thermal_verdict;
use crate::thermal::ThermalEngine;
use crate::thermal::ThermalState;
use crate::variance::variance_views;
use crate::variance::Severity;
use crate::variance::Variance;
use crate::variance::VarianceView;

verus! {

// ── Steps ─────────────────────────────────────────────────────────────────────

/// A variance, ready for display.
pub struct VarInfo {
    pub severity: &'static str,
    pub rule: String,
    pub detail: String,
}

/// A variance for display, as character sequences.
pub struct VarInfoView {
    pub severity: Seq<char>,
    pub rule: Seq<char>,
    pub detail: Seq<char>,
}

impl View for VarInfo {
    type V = VarInfoView;

    open spec fn view(&self) -> VarInfoView {
        VarInfoView { severity: self.severity@, rule: self.rule@, detail: self.detail@ }
    }
}

/// An event that was seen: its step, its time and its name.
pub type Seen = (usize, u64, &'static str);

/// An event that was seen, with its name as a character sequence.
pub type SeenView = (usize, u64, Seq<char>);

/// A phase, as character sequences.
pub type PhaseView = (Seq<char>, Seq<char>, Seq<char>);

/// One event of a run, and all that there is to say of it.
pub struct StepData {
    pub seq: usize,
    pub ts: u64,
    pub user: String,
    pub event: &'static str,
    pub group: String,
    pub group_label: String,
    pub is_deferred: bool,
    pub check: CheckInfo,
    pub variances: Vec<VarInfo>,
    pub state_snap: Vec<(String, EntityState)>,
    pub phases: Vec<Phase>,
    /// The events of this user up to and including this step.
    pub history: Vec<Seen>,
}

/// A step, with its texts as character sequences.
pub struct StepView {
    pub seq: usize,
    pub ts: u64,
    pub user: Seq<char>,
    pub event: Seq<char>,
    pub group: Seq<char>,
    pub group_label: Seq<char>,
    pub is_deferred: bool,
    pub check: CheckView,
    pub variances: Seq<VarInfoView>,
    pub state_snap: Seq<(Seq<char>, EntityStateView)>,
    pub phases: Seq<PhaseView>,
    pub history: Seq<SeenView>,
}

/// The views of a list of variances for display.
pub open spec fn var_info_views(s: Seq<VarInfo>) -> Seq<VarInfoView> {
    s.map_values(|v: VarInfo| v@)
}

/// The views of a list of phases.
pub open spec fn phase_views(s: Seq<Phase>) -> Seq<PhaseView> {
    s.map_values(|p: Phase| (p.0@, p.1@, p.2@))
}

/// The views of a list of events that were seen.
pub open spec fn seen_views(s: Seq<Seen>) -> Seq<SeenView> {
    s.map_values(|h: Seen| (h.0, h.1, h.2@))
}

impl View for StepData {
    type V = StepView;

    open spec fn view(&self) -> StepView {
        StepView {
            seq: self.seq,
            ts: self.ts,
            user: self.user@,
            event: self.event@,
            group: self.group@,
            group_label: self.group_label@,
            is_deferred: self.is_deferred,
            check: self.check@,
            variances: var_info_views(self.variances@),
            state_snap: panel_views(self.state_snap@),
            phases: phase_views(self.phases@),
            history: seen_views(self.history@),
        }
    }
}

/// The views of a list of steps.
pub open spec fn step_views(s: Seq<StepData>) -> Seq<StepView> {
    s.map_values(|d: StepData| d@)
}

// ── Scripts ───────────────────────────────────────────────────────────────────

/// An event of a script, and the group that it is shown under.
pub struct ScriptEntry {
    pub group: &'static str,
    pub label: &'static str,
    pub ts: u64,
    pub user: &'static str,
    pub kind: DomainEvent,
}

/// An event of a script, with its texts as character sequences.
pub struct EntryView {
    pub group: Seq<char>,
    pub label: Seq<char>,
    pub ts: u64,
    pub user: Seq<char>,
    pub kind: DomainEvent,
}

impl View for ScriptEntry {
    type V = EntryView;

    open spec fn view(&self) -> EntryView {
        EntryView {
            group: self.group@,
            label: self.label@,
            ts: self.ts,
            user: self.user@,
            kind: self.kind,
        }
    }
}

impl EntryView {
    /// The event itself.
    pub open spec fn event(self) -> EventView {
        EventView { ts: self.ts, entity: self.user, kind: self.kind }
    }
}

/// The views of a script.
pub open spec fn script_views(s: Seq<ScriptEntry>) -> Seq<EntryView> {
    s.map_values(|e: ScriptEntry| e@)
}

// ── What a run amounts to ─────────────────────────────────────────────────────

impl Known {
    /// What the engines know before the first event.
    pub open spec fn nothing() -> Known {
        Known {
            identity: Map::empty(),
            control_plane: Map::empty(),
            thermal: Map::empty(),
            automation: Map::empty(),
        }
    }

    /// What the engines know after an event.
    pub open spec fn after(self, ev: EventView) -> Known {
        Known {
            identity: identity_after(self.identity, ev),
            control_plane: control_plane_after(self.control_plane, ev),
            thermal: thermal_after(self.thermal, ev),
            automation: automation_after(self.automation, ev),
        }
    }

    /// What the engine of the event's domain reports on it.
    pub open spec fn verdict(self, ev: EventView) -> Seq<VarianceView> {
        match ev.kind.tag() {
            Domain::Identity => identity_verdict(self.identity, ev),
            Domain::ControlPlane => control_plane_verdict(self.control_plane, ev),
            Domain::Thermal => thermal_verdict(self.thermal, ev),
            Domain::Automation => automation_verdict(self.automation, ev),
        }
    }

    /// The explanation of the check of an event.
    pub open spec fn check(self, ev: EventView) -> CheckView {
        check_of(
            ev,
            value_or(self.identity, ev.entity, AuthView::blank()),
            value_or(self.control_plane, ev.entity, ControlPlaneState::blank()),
            value_or(self.thermal, ev.entity, ThermalState::blank()),
            value_or(self.automation, ev.entity, AutomationState::blank()),
        )
    }

    /// The engines can put into words all that they have to say of an event.
    pub open spec fn accepts(self, ev: EventView) -> bool {
        &&& checkable(
            ev,
            value_or(self.identity, ev.entity, AuthView::blank()),
            value_or(self.control_plane, ev.entity, ControlPlaneState::blank()),
            value_or(self.thermal, ev.entity, ThermalState::blank()),
            value_or(self.automation, ev.entity, AutomationState::blank()),
        )
        &&& identity_accepts(self.identity, ev)
        &&& control_plane_accepts(self.control_plane, ev)
        &&& thermal_accepts(self.thermal, ev)
        &&& automation_accepts(self.automation, ev)
    }
}

/// What the engines know after the first `n` events of a script.
pub open spec fn known_after(script: Seq<EntryView>, n: int) -> Known
    decreases n,
{
    if n <= 0 {
        Known::nothing()
    } else {
        known_after(script, n - 1).after(script[n - 1].event())
    }
}

/// The engines can put into words all that they have to say of the script.
pub open spec fn runnable(script: Seq<EntryView>) -> bool {
    forall|i: int|
        0 <= i < script.len() ==> known_after(script, i).accepts((#[trigger] script[i]).event())
}

/// The events of a user among the first `n` of a script.
pub open spec fn history_of(script: Seq<EntryView>, n: int, user: Seq<char>) -> Seq<SeenView>
    decreases n,
{
    if n <= 0 {
        Seq::empty()
    } else if script[n - 1].user == user {
        history_of(script, n - 1, user).push(
            (n as usize, script[n - 1].ts, script[n - 1].kind.label()),
        )
    } else {
        history_of(script, n - 1, user)
    }
}

/// What is told of the step at a position, if anything is.
pub open spec fn phases_at(i: int) -> Seq<PhaseView> {
    if 0 <= i < 15 {
        phase_views(NARRATIVES[i]@)
    } else {
        Seq::empty()
    }
}

/// A variance as it is displayed.
pub open spec fn displayed(v: VarianceView) -> VarInfoView {
    VarInfoView { severity: v.severity.label(), rule: v.rule, detail: v.detail }
}

/// The step at a position of a script.
pub open spec fn step_at(script: Seq<EntryView>, i: int) -> StepView {
    let entry = script[i];
    let before = known_after(script, i);
    StepView {
        seq: (i + 1) as usize,
        ts: entry.ts,
        user: entry.user,
        event: entry.kind.label(),
        group: entry.group,
        group_label: entry.label,
        is_deferred: false,
        check: before.check(entry.event()),
        variances: before.verdict(entry.event()).map_values(|v: VarianceView| displayed(v)),
        state_snap: snapshot_of(known_after(script, i + 1), entry.ts),
        phases: phases_at(i),
        history: history_of(script, i + 1, entry.user),
    }
}

/// The steps of a script.
pub open spec fn steps_of(script: Seq<EntryView>) -> Seq<StepView> {
    Seq::new(script.len(), |i: int| step_at(script, i))
}

// ── Running a script ──────────────────────────────────────────────────────────

/// The events of one user.
struct EventLog {
    events: Vec<Seen>,
}

impl View for EventLog {
    type V = Seq<SeenView>;

    closed spec fn view(&self) -> Seq<SeenView> {
        seen_views(self.events@)
    }
}

impl EventLog {
    fn new() -> (r: Self)
        ensures
            r@ == Seq::<SeenView>::empty(),
    {
        let r = EventLog { events: Vec::new() };
        assert(r@ =~= Seq::<SeenView>::empty());
        r
    }

    fn add(&mut self, seq: usize, ts: u64, event: &'static str)
        ensures
            final(self)@ == old(self)@.push((seq, ts, event@)),
    {
        self.events.push((seq, ts, event));
        assert(self@ =~= old(self)@.push((seq, ts, event@)));
    }

    fn copied(&self) -> (r: Vec<Seen>)
        ensures
            seen_views(r@) == self@,
    {
        let mut r: Vec<Seen> = Vec::new();
        for i in 0..self.events.len()
            invariant
                r@ == self.events@.take(i as int),
        {
            r.push(self.events[i]);
        }
        assert(r@ =~= self.events@);
        r
    }
}

fn phases_for(i: usize) -> (r: Vec<Phase>)
    ensures
        phase_views(r@) == phases_at(i as int),
{
    let mut r: Vec<Phase> = Vec::new();
    if i < 15 {
        for k in 0..3
            invariant
                i < 15,
                r@ == NARRATIVES[i as int]@.take(k as int),
        {
            r.push(NARRATIVES[i][k]);
        }
        assert(r@ =~= NARRATIVES[i as int]@);
    }
    assert(phase_views(r@) =~= phases_at(i as int));
    r
}

fn display(variances: &Vec<Variance>) -> (r: Vec<VarInfo>)
    ensures
        var_info_views(r@) == variance_views(variances@).map_values(|v: VarianceView| displayed(v)),
{
    let mut r: Vec<VarInfo> = Vec::new();
    for i in 0..variances.len()
        invariant
            r@.len() == i,
            forall|k: int| 0 <= k < i ==> (#[trigger] r@[k])@ == displayed(variances@[k]@),
    {
        let v = &variances[i];
        r.push(
            VarInfo {
                severity: v.severity.as_str(),
                rule: v.rule.to_owned(),
                detail: v.detail.as_str().to_owned(),
            },
        );
    }
    assert(var_info_views(r@) =~= variance_views(variances@).map_values(
        |v: VarianceView| displayed(v),
    ));
    r
}

/// The engines of the four domains.
struct Engines {
    identity: Engine,
    control_plane: ControlPlaneEngine,
    thermal: ThermalEngine,
    automation: AutomationEngine,
}

impl Engines {
    spec fn known(self) -> Known {
        Known {
            identity: self.identity.state@,
            control_plane: self.control_plane.state@,
            thermal: self.thermal.state@,
            automation: self.automation.state@,
        }
    }

    fn new() -> (r: Self)
        ensures
            r.known() == Known::nothing(),
    {
        Engines {
            identity: Engine::new(),
            control_plane: ControlPlaneEngine::new(),
            thermal: ThermalEngine::new(),
            automation: AutomationEngine::new(),
        }
    }

    fn check(&self, ev: &Event) -> (r: CheckInfo)
        requires
            self.known().accepts(ev@),
        ensures
            r@ == self.known().check(ev@),
    {
        compute_check(
            ev,
            self.identity.state.get(ev.entity),
            self.control_plane.state.get(ev.entity),
            self.thermal.state.get(ev.entity),
            self.automation.state.get(ev.entity),
        )
    }

    /// Hands an event to the engine of its domain.
    fn ingest(&mut self, ev: &Event) -> (r: Vec<Variance>)
        requires
            old(self).known().accepts(ev@),
        ensures
            final(self).known() == old(self).known().after(ev@),
            variance_views(r@) == old(self).known().verdict(ev@),
    {
        match ev.kind.domain() {
            Domain::Identity => self.identity.ingest(ev),
            Domain::ControlPlane => self.control_plane.ingest(ev),
            Domain::Thermal => self.thermal.ingest(ev),
            Domain::Automation => self.automation.ingest(ev),
        }
    }

    fn snapshot(&self, ts: u64) -> (r: Vec<(String, EntityState)>)
        ensures
            lists_tracked(tracked_keys(self.known()), self.known()),
            panel_views(r@) == snapshot_of(self.known(), ts),
    {
        snapshot(
            &self.identity.state,
            &self.control_plane.state,
            &self.thermal.state,
            &self.automation.state,
            ts,
        )
    }
}

/// Runs a script: every event is explained, handed to the engine of its domain, and followed by
/// a snapshot of what the engines then know.
pub fn run_script(script: &Vec<ScriptEntry>) -> (r: Vec<StepData>)
    requires
        runnable(script_views(script@)),
    ensures
        step_views(r@) == steps_of(script_views(script@)),
        forall|i: int|
            0 < i <= script@.len() ==> {
                let known = #[trigger] known_after(script_views(script@), i);
                lists_tracked(tracked_keys(known), known)
            },
{
    let mut engines = Engines::new();
    let mut log: Store<EventLog> = Store::new();
    let mut steps: Vec<StepData> = Vec::new();
    let ghost views = script_views(script@);
    for i in 0..script.len()
        invariant
            views == script_views(script@),
            runnable(views),
            engines.known() == known_after(views, i as int),
            forall|user: Seq<char>| #[trigger]
                value_or(log@, user, Seq::empty()) == history_of(views, i as int, user),
            steps@.len() == i,
            forall|k: int| 0 <= k < i ==> (#[trigger] steps@[k])@ == step_at(views, k),
            forall|k: int|
                0 < k <= i ==> {
                    let known = #[trigger] known_after(views, k);
                    lists_tracked(tracked_keys(known), known)
                },
    {
        let entry = &script[i];
        let seq: usize = i + 1;
        let ev = Event::new(entry.ts, entry.user, entry.kind);
        assert(views[i as int] == entry@);
        assert(ev@ == views[i as int].event());
        let check = engines.check(&ev);
        let variances = engines.ingest(&ev);
        let state_snap = engines.snapshot(entry.ts);

        let ghost before = log@;
        let entries = log.entry(entry.user, EventLog::new());
        entries.add(seq, entry.ts, entry.kind.name());
        let history = entries.copied();
        let step = StepData {
            seq,
            ts: entry.ts,
            user: entry.user.to_owned(),
            event: ev.kind.name(),
            group: entry.group.to_owned(),
            group_label: entry.label.to_owned(),
            is_deferred: false,
            check,
            variances: display(&variances),
            state_snap,
            phases: phases_for(i),
            history,
        };
        proof {
            assert(value_or(before, entry.user@, Seq::empty()) == history_of(
                views,
                i as int,
                entry.user@,
            ));
            assert forall|user: Seq<char>| #[trigger]
                value_or(log@, user, Seq::empty()) == history_of(views, i + 1, user) by {
                assert(value_or(before, user, Seq::empty()) == history_of(views, i as int, user));
            }
            assert(step@ == step_at(views, i as int));
        }
        steps.push(step);
    }
    assert(step_views(steps@) =~= steps_of(views));
    steps
}

// ── Scripts in order of time ──────────────────────────────────────────────────

/// No event of the script is dated before an earlier one.
pub open spec fn in_order(script: Seq<EntryView>) -> bool {
    forall|i: int, j: int|
        0 <= i < j < script.len() ==> (#[trigger] script[i]).ts <= (#[trigger] script[j]).ts
}

/// Nothing is on record that is dated behind `ts`, and no counter is above `n`.
spec fn recorded_by(known: Known, ts: u64, n: int) -> bool {
    &&& forall|e: Seq<char>| #[trigger]
        known.identity.contains_key(e) ==> known.identity[e].logins.len() > 0
            ==> known.identity[e].logins.last() <= ts
    &&& forall|e: Seq<char>| #[trigger]
        known.control_plane.contains_key(e) ==> (known.control_plane[e].role_assigned_at matches Some(
            t,
        ) ==> t <= ts)
    &&& forall|e: Seq<char>| #[trigger]
        known.thermal.contains_key(e) ==> {
            &&& known.thermal[e].last_workload_at matches Some(t) ==> t <= ts
            &&& known.thermal[e].bias_count <= n
        }
    &&& forall|e: Seq<char>| #[trigger]
        known.automation.contains_key(e) ==> {
            &&& known.automation[e].last_validated_at matches Some(t) ==> t <= ts
            &&& known.automation[e].trigger_count <= n
        }
}

proof fn lemma_recorded_by(script: Seq<EntryView>, n: int, ts: u64)
    requires
        0 <= n <= script.len() <= usize::MAX,
        forall|k: int| 0 <= k < n ==> (#[trigger] script[k]).ts <= ts,
    ensures
        recorded_by(known_after(script, n), ts, n),
    decreases n,
{
    if n > 0 {
        lemma_recorded_by(script, n - 1, ts);
        assert(script[n - 1].ts <= ts);
    }
}

/// Every script whose events are in order of time can be run.
pub proof fn law_ordered_script_runs(script: Seq<EntryView>)
    requires
        script.len() <= usize::MAX,
        in_order(script),
    ensures
        runnable(script),
{
    assert forall|i: int| 0 <= i < script.len() implies known_after(script, i).accepts(
        (#[trigger] script[i]).event(),
    ) by {
        lemma_recorded_by(script, i, script[i].ts);
    }
}

// ── The demonstration ─────────────────────────────────────────────────────────

pub const LEGITIMATE: &'static str = "Scenario A — Legitimate Variation";

pub const MISUSE: &'static str = "Scenario B — Privilege Misuse";

pub const BIAS: &'static str = "Scenario C — Silent Scheduler Bias";

pub const AMPLIFICATION: &'static str = "Scenario D — Automation Amplification";

/// An event of the demonstration. It is shown under the name of the entity.
pub open spec fn scripted(
    user: Seq<char>,
    label: Seq<char>,
    ts: u64,
    kind: DomainEvent,
) -> EntryView {
    EntryView { group: user, label, ts, user, kind }
}

/// The events of the demonstration: legitimate variation in three domains, privilege misuse,
/// scheduler bias that no workload explains, and automation on unvalidated state.
pub open spec fn demonstration() -> Seq<EntryView> {
    seq![
        scripted("svc_alpha"@, LEGITIMATE@, 1000, DomainEvent::ControlPlane(ControlPlaneEvent::RoleAssigned)),
        scripted("svc_alpha"@, LEGITIMATE@, 1030, DomainEvent::ControlPlane(ControlPlaneEvent::AdminActionTaken)),
        scripted("rack_a"@, LEGITIMATE@, 2000, DomainEvent::Thermal(ThermalEvent::WorkloadScheduled)),
        scripted("rack_a"@, LEGITIMATE@, 2300, DomainEvent::Thermal(ThermalEvent::ThermalReading(52))),
        scripted("orchestrator"@, LEGITIMATE@, 3000, DomainEvent::Automation(AutomationEvent::StateValidated)),
        scripted("orchestrator"@, LEGITIMATE@, 3100, DomainEvent::Automation(AutomationEvent::AutomationTriggered)),
        scripted("rogue_svc"@, MISUSE@, 4000, DomainEvent::ControlPlane(ControlPlaneEvent::AdminActionTaken)),
        scripted("svc_beta"@, MISUSE@, 4200, DomainEvent::ControlPlane(ControlPlaneEvent::RoleAssigned)),
        scripted("svc_beta"@, MISUSE@, 8000, DomainEvent::ControlPlane(ControlPlaneEvent::AdminActionTaken)),
        scripted("rack_b"@, BIAS@, 9000, DomainEvent::Thermal(ThermalEvent::ThermalReading(56))),
        scripted("rack_b"@, BIAS@, 9600, DomainEvent::Thermal(ThermalEvent::ThermalReading(61))),
        scripted("rack_b"@, BIAS@, 10200, DomainEvent::Thermal(ThermalEvent::ThermalReading(64))),
        scripted("orchestrator"@, AMPLIFICATION@, 11000, DomainEvent::Automation(AutomationEvent::AutomationTriggered)),
        scripted("orchestrator"@, AMPLIFICATION@, 11200, DomainEvent::Automation(AutomationEvent::AutomationTriggered)),
        scripted("orchestrator"@, AMPLIFICATION@, 11400, DomainEvent::Automation(AutomationEvent::AutomationTriggered)),
    ]
}

fn entry(user: &'static str, label: &'static str, ts: u64, kind: DomainEvent) -> (r: ScriptEntry)
    ensures
        r@ == scripted(user@, label@, ts, kind),
{
    ScriptEntry { group: user, label, ts, user, kind }
}

/// The script of the demonstration.
pub fn scenario_script() -> (r: Vec<ScriptEntry>)
    ensures
        script_views(r@) == demonstration(),
{
    let script = vec![
        entry("svc_alpha", LEGITIMATE, 1000, DomainEvent::ControlPlane(ControlPlaneEvent::RoleAssigned)),
        entry("svc_alpha", LEGITIMATE, 1030, DomainEvent::ControlPlane(ControlPlaneEvent::AdminActionTaken)),
        entry("rack_a", LEGITIMATE, 2000, DomainEvent::Thermal(ThermalEvent::WorkloadScheduled)),
        entry("rack_a", LEGITIMATE, 2300, DomainEvent::Thermal(ThermalEvent::ThermalReading(52))),
        entry("orchestrator", LEGITIMATE, 3000, DomainEvent::Automation(AutomationEvent::StateValidated)),
        entry("orchestrator", LEGITIMATE, 3100, DomainEvent::Automation(AutomationEvent::AutomationTriggered)),
        entry("rogue_svc", MISUSE, 4000, DomainEvent::ControlPlane(ControlPlaneEvent::AdminActionTaken)),
        entry("svc_beta", MISUSE, 4200, DomainEvent::ControlPlane(ControlPlaneEvent::RoleAssigned)),
        entry("svc_beta", MISUSE, 8000, DomainEvent::ControlPlane(ControlPlaneEvent::AdminActionTaken)),
        entry("rack_b", BIAS, 9000, DomainEvent::Thermal(ThermalEvent::ThermalReading(56))),
        entry("rack_b", BIAS, 9600, DomainEvent::Thermal(ThermalEvent::ThermalReading(61))),
        entry("rack_b", BIAS, 10200, DomainEvent::Thermal(ThermalEvent::ThermalReading(64))),
        entry("orchestrator", AMPLIFICATION, 11000, DomainEvent::Automation(AutomationEvent::AutomationTriggered)),
        entry("orchestrator", AMPLIFICATION, 11200, DomainEvent::Automation(AutomationEvent::AutomationTriggered)),
        entry("orchestrator", AMPLIFICATION, 11400, DomainEvent::Automation(AutomationEvent::AutomationTriggered)),
    ];
    assert(script_views(script@) =~= demonstration());
    script
}

/// Runs the demonstration.
pub fn run_scenario() -> (r: Vec<StepData>)
    ensures
        step_views(r@) == steps_of(demonstration()),
        forall|i: int|
            0 < i <= demonstration().len() ==> {
                let known = #[trigger] known_after(demonstration(), i);
                lists_tracked(tracked_keys(known), known)
            },
{
    let script = scenario_script();
    proof {
        law_ordered_script_runs(demonstration());
    }
    run_script(&script)
}

/// The variances of the first `n` steps that stand under a label.
pub open spec fn shown_under(steps: Seq<StepView>, n: int, label: Seq<char>) -> Seq<VarInfoView>
    decreases n,
{
    if n <= 0 {
        Seq::empty()
    } else if steps[n - 1].group_label == label {
        shown_under(steps, n - 1, label) + steps[n - 1].variances
    } else {
        shown_under(steps, n - 1, label)
    }
}

/// The severities of the variances that the demonstration shows under a label.
pub open spec fn severities_under(label: Seq<char>) -> Seq<Seq<char>> {
    let steps = steps_of(demonstration());
    shown_under(steps, steps.len() as int, label).map_values(|v: VarInfoView| v.severity)
}

proof fn lemma_demonstration_names_differ()
    ensures
        "svc_alpha"@ != "rogue_svc"@,
        "svc_alpha"@ != "svc_beta"@,
        "rogue_svc"@ != "svc_beta"@,
        "rack_a"@ != "rack_b"@,
        LEGITIMATE@ != MISUSE@,
        LEGITIMATE@ != BIAS@,
        LEGITIMATE@ != AMPLIFICATION@,
        MISUSE@ != BIAS@,
        MISUSE@ != AMPLIFICATION@,
        BIAS@ != AMPLIFICATION@,
{
    reveal_strlit("svc_alpha");
    reveal_strlit("rogue_svc");
    reveal_strlit("svc_beta");
    reveal_strlit("rack_a");
    reveal_strlit("rack_b");
    reveal_strlit("Scenario A — Legitimate Variation");
    reveal_strlit("Scenario B — Privilege Misuse");
    reveal_strlit("Scenario C — Silent Scheduler Bias");
    reveal_strlit("Scenario D — Automation Amplification");
    assert("svc_alpha"@[0] != "rogue_svc"@[0]);
    assert("svc_beta"@[0] != "rogue_svc"@[0]);
    assert("svc_alpha"@[4] != "svc_beta"@[4]);
    assert("rack_a"@[5] != "rack_b"@[5]);
    assert(LEGITIMATE@[9] == 'A');
    assert(MISUSE@[9] == 'B');
    assert(BIAS@[9] == 'C');
    assert(AMPLIFICATION@[9] == 'D');
}

proof fn lemma_next_known(script: Seq<EntryView>, n: int)
    requires
        0 <= n,
    ensures
        known_after(script, n + 1) == known_after(script, n).after(script[n].event()),
{
}

/// What the engines report on the step of the demonstration at a position.
#[verifier::opaque]
spec fn demonstrated(i: int) -> Seq<VarianceView> {
    known_after(demonstration(), i).verdict(demonstration()[i].event())
}

proof fn lemma_demonstrated_control_plane()
    ensures
        demonstrated(0).len() == 0,
        demonstrated(1).len() == 0,
        demonstrated(6).len() == 1 && demonstrated(6)[0].severity == Severity::Critical,
        demonstrated(7).len() == 0,
        demonstrated(8).len() == 1 && demonstrated(8)[0].severity == Severity::Critical,
{
    reveal(demonstrated);
    let d = demonstration();
    lemma_demonstration_names_differ();
    lemma_next_known(d, 0);
    lemma_next_known(d, 1);
    assert(known_after(d, 1).control_plane["svc_alpha"@].role_assigned_at == Some(1000u64));
    assert(!known_after(d, 2).control_plane.contains_key("rogue_svc"@));
    lemma_next_known(d, 2);
    lemma_next_known(d, 3);
    lemma_next_known(d, 4);
    lemma_next_known(d, 5);
    assert(known_after(d, 6).control_plane == known_after(d, 2).control_plane);
    lemma_next_known(d, 6);
    lemma_next_known(d, 7);
    assert(known_after(d, 8).control_plane["svc_beta"@].role_assigned_at == Some(4200u64));
}

proof fn lemma_demonstrated_thermal()
    ensures
        demonstrated(2).len() == 0,
        demonstrated(3).len() == 0,
        demonstrated(9).len() == 1 && demonstrated(9)[0].severity == Severity::Warning,
        demonstrated(10).len() == 1 && demonstrated(10)[0].severity == Severity::Critical,
        demonstrated(11).len() == 1 && demonstrated(11)[0].severity == Severity::Critical,
{
    reveal(demonstrated);
    let d = demonstration();
    lemma_demonstration_names_differ();
    lemma_next_known(d, 0);
    lemma_next_known(d, 1);
    assert(known_after(d, 2).thermal == Known::nothing().thermal);
    lemma_next_known(d, 2);
    lemma_next_known(d, 3);
    assert(known_after(d, 3).thermal["rack_a"@].last_workload_at == Some(2000u64));
    assert(!known_after(d, 4).thermal.contains_key("rack_b"@));
    lemma_next_known(d, 4);
    lemma_next_known(d, 5);
    lemma_next_known(d, 6);
    lemma_next_known(d, 7);
    lemma_next_known(d, 8);
    assert(known_after(d, 9).thermal == known_after(d, 4).thermal);
    lemma_next_known(d, 9);
    assert(known_after(d, 10).thermal["rack_b"@].bias_count == 1);
    assert(known_after(d, 10).thermal["rack_b"@].last_workload_at is None);
    lemma_next_known(d, 10);
    assert(known_after(d, 11).thermal["rack_b"@].bias_count == 2);
    assert(known_after(d, 11).thermal["rack_b"@].last_workload_at is None);
}

proof fn lemma_demonstrated_automation()
    ensures
        demonstrated(4).len() == 0,
        demonstrated(5).len() == 0,
        demonstrated(12).len() == 1 && demonstrated(12)[0].severity == Severity::Warning,
        demonstrated(13).len() == 1 && demonstrated(13)[0].severity == Severity::Critical,
        demonstrated(14).len() == 1 && demonstrated(14)[0].severity == Severity::Critical,
{
    reveal(demonstrated);
    let d = demonstration();
    lemma_next_known(d, 4);
    lemma_next_known(d, 5);
    assert(known_after(d, 5).automation["orchestrator"@].last_validated_at == Some(3000u64));
    assert(known_after(d, 6).automation["orchestrator"@].last_validated_at == Some(3000u64));
    assert(known_after(d, 6).automation["orchestrator"@].trigger_count == 0);
    lemma_next_known(d, 6);
    lemma_next_known(d, 7);
    lemma_next_known(d, 8);
    lemma_next_known(d, 9);
    lemma_next_known(d, 10);
    lemma_next_known(d, 11);
    assert(known_after(d, 12).automation == known_after(d, 6).automation);
    lemma_next_known(d, 12);
    assert(known_after(d, 13).automation["orchestrator"@].trigger_count == 1);
    assert(known_after(d, 13).automation["orchestrator"@].last_validated_at == Some(3000u64));
    lemma_next_known(d, 13);
    assert(known_after(d, 14).automation["orchestrator"@].trigger_count == 2);
    assert(known_after(d, 14).automation["orchestrator"@].last_validated_at == Some(3000u64));
}

/// The severities of what the first `n` steps of the demonstration show under a label.
#[verifier::opaque]
spec fn severities_up_to(n: int, label: Seq<char>) -> Seq<Seq<char>> {
    shown_under(steps_of(demonstration()), n, label).map_values(|v: VarInfoView| v.severity)
}

/// A step adds the severities of its variances under its own label.
proof fn lemma_one_more_shown(n: int, label: Seq<char>)
    requires
        0 <= n < 15,
        demonstration()[n].label == label,
    ensures
        demonstrated(n).len() == 0 ==> severities_up_to(n + 1, label) == severities_up_to(n, label),
        demonstrated(n).len() == 1 ==> severities_up_to(n + 1, label) == severities_up_to(
            n,
            label,
        ).push(demonstrated(n)[0].severity.label()),
{
    reveal(demonstrated);
    reveal(severities_up_to);
    let step = step_at(demonstration(), n);
    assert(step.variances == demonstrated(n).map_values(|v: VarianceView| displayed(v)));
    if demonstrated(n).len() == 0 {
        assert(severities_up_to(n + 1, label) =~= severities_up_to(n, label));
    } else if demonstrated(n).len() == 1 {
        assert(severities_up_to(n + 1, label) =~= severities_up_to(n, label).push(
            demonstrated(n)[0].severity.label(),
        ));
    }
}

/// Steps under other labels add nothing.
proof fn lemma_others_shown(from: int, to: int, label: Seq<char>)
    requires
        0 <= from <= to <= 15,
        forall|i: int| from <= i < to ==> (#[trigger] demonstration()[i]).label != label,
    ensures
        severities_up_to(to, label) == severities_up_to(from, label),
    decreases to - from,
{
    reveal(severities_up_to);
    if from < to {
        lemma_others_shown(from, to - 1, label);
        assert(demonstration()[to - 1].label != label);
    }
}

/// What is shown under a label that no more than the steps of a range carry.
proof fn lemma_shown_in_range(from: int, to: int, label: Seq<char>)
    requires
        0 <= from <= to <= 15,
        forall|i: int|
            0 <= i < 15 && !(from <= i < to) ==> (#[trigger] demonstration()[i]).label != label,
    ensures
        severities_up_to(from, label) == Seq::<Seq<char>>::empty(),
        severities_under(label) == severities_up_to(to, label),
{
    reveal(severities_up_to);
    lemma_others_shown(0, from, label);
    lemma_others_shown(to, 15, label);
    assert(severities_up_to(0, label) =~= Seq::<Seq<char>>::empty());
}

proof fn lemma_demonstration_labels()
    ensures
        forall|i: int| 0 <= i < 15 ==> ((#[trigger] demonstration()[i]).label == LEGITIMATE@ <==> i < 6),
        forall|i: int|
            0 <= i < 15 ==> ((#[trigger] demonstration()[i]).label == MISUSE@ <==> 6 <= i < 9),
        forall|i: int|
            0 <= i < 15 ==> ((#[trigger] demonstration()[i]).label == BIAS@ <==> 9 <= i < 12),
        forall|i: int|
            0 <= i < 15 ==> ((#[trigger] demonstration()[i]).label == AMPLIFICATION@ <==> 12 <= i),
{
    lemma_demonstration_names_differ();
}

proof fn lemma_legitimate_shown()
    ensures
        severities_under(LEGITIMATE@) == Seq::<Seq<char>>::empty(),
{
    lemma_demonstration_labels();
    lemma_demonstrated_control_plane();
    lemma_demonstrated_thermal();
    lemma_demonstrated_automation();
    lemma_shown_in_range(0, 6, LEGITIMATE@);
    lemma_one_more_shown(0, LEGITIMATE@);
    lemma_one_more_shown(1, LEGITIMATE@);
    lemma_one_more_shown(2, LEGITIMATE@);
    lemma_one_more_shown(3, LEGITIMATE@);
    lemma_one_more_shown(4, LEGITIMATE@);
    lemma_one_more_shown(5, LEGITIMATE@);
}

proof fn lemma_misuse_shown()
    ensures
        severities_under(MISUSE@) == seq!["critical"@, "critical"@],
{
    lemma_demonstration_labels();
    lemma_demonstrated_control_plane();
    lemma_shown_in_range(6, 9, MISUSE@);
    lemma_one_more_shown(6, MISUSE@);
    lemma_one_more_shown(7, MISUSE@);
    lemma_one_more_shown(8, MISUSE@);
}

proof fn lemma_bias_shown()
    ensures
        severities_under(BIAS@) == seq!["warning"@, "critical"@, "critical"@],
{
    lemma_demonstration_labels();
    lemma_demonstrated_thermal();
    lemma_shown_in_range(9, 12, BIAS@);
    lemma_one_more_shown(9, BIAS@);
    lemma_one_more_shown(10, BIAS@);
    lemma_one_more_shown(11, BIAS@);
}

proof fn lemma_amplification_shown()
    ensures
        severities_under(AMPLIFICATION@) == seq!["warning"@, "critical"@, "critical"@],
{
    lemma_demonstration_labels();
    lemma_demonstrated_automation();
    lemma_shown_in_range(12, 15, AMPLIFICATION@);
    lemma_one_more_shown(12, AMPLIFICATION@);
    lemma_one_more_shown(13, AMPLIFICATION@);
    lemma_one_more_shown(14, AMPLIFICATION@);
}

/// What the demonstration shows is what its scenarios declare: no variance of legitimate
/// variation, two critical ones of privilege misuse, and of scheduler bias and of automation a
/// warning and two critical ones each.
pub proof fn law_demonstration_shows_what_it_declares()
    ensures
        severities_under(LEGITIMATE@) == Seq::<Seq<char>>::empty(),
        severities_under(MISUSE@) == seq!["critical"@, "critical"@],
        severities_under(BIAS@) == seq!["warning"@, "critical"@, "critical"@],
        severities_under(AMPLIFICATION@) == seq!["warning"@, "critical"@, "critical"@],
{
    lemma_legitimate_shown();
    lemma_misuse_shown();
    lemma_bias_shown();
    lemma_amplification_shown();
}

} // verus!
