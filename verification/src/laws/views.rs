//! What the models stand for: nothing that a caller sees is left out of them.

use vstd::prelude::*;

use crate::automation::AutomationState;
use crate::checks::automation::automation_known;
use crate::checks::control_plane::control_plane_known;
use crate::checks::identity::identity_known;
use crate::checks::table::row_views;
use crate::checks::table::CheckInfo;
use crate::checks::table::Row;
use crate::checks::thermal::thermal_known;
use crate::control_plane::ControlPlaneState;
use crate::engine::reported_names;
use crate::events::Event;
use crate::graph::edge_views;
use crate::graph::CausalEdge;
use crate::graph::CausalGraph;
use crate::graph::Node;
use crate::narratives::Phase;
use crate::scenario::phase_views;
use crate::scenario::script_views;
use crate::scenario::seen_views;
use crate::scenario::step_views;
use crate::scenario::var_info_views;
use crate::scenario::ScriptEntry;
use crate::scenario::Seen;
use crate::scenario::StepData;
use crate::scenario::VarInfo;
use crate::snapshot::panel_views;
use crate::snapshot::EntityState;
use crate::state::AuthState;
use crate::store::value_at;
use crate::store::value_or;
use crate::thermal::ThermalState;
use crate::variance::variance_views;
use crate::variance::Variance;
use crate::ztna::events::ZtnaEntry;
use crate::ztna::state::SessionState;

verus! {

/// The model of a value holds each of its parts.
pub proof fn law_models_hold_all_parts(
    event: Event,
    variance: Variance,
    check: CheckInfo,
    panel: EntityState,
    auth: AuthState,
    node: Node,
    edge: CausalEdge,
    graph: CausalGraph,
)
    ensures
        event@.ts == event.ts && event@.entity == event.entity@ && event@.kind == event.kind,
        variance@.severity == variance.severity && variance@.rule == variance.rule@
            && variance@.detail == variance.detail@,
        check@.rule == check.rule@ && check@.lookup == row_views(check.lookup@) && check@.result
            == check.result@ && check@.result_text == check.result_text@ && check@.result_detail
            == check.result_detail@,
        panel@.domain == panel.domain@ && panel@.fields == row_views(panel.fields@),
        auth@.logins == auth.logins@ && auth@.token_issued_at == auth.token_issued_at
            && auth@.token_used == auth.token_used,
        node@.id == node.id@ && node@.kind == node.kind,
        edge@.entity == edge.entity@ && edge@.from_event == edge.from_event@ && edge@.to_event
            == edge.to_event@ && edge@.satisfied == edge.satisfied,
        graph@.nodes == graph.nodes@ && graph@.edges == edge_views(graph.edges@),
{
}

/// The records that need no model stand for themselves.
pub proof fn law_plain_records_are_their_own_models(
    cp: ControlPlaneState,
    th: ThermalState,
    au: AutomationState,
    session: SessionState,
    entry: ZtnaEntry,
)
    ensures
        cp@ == cp,
        th@ == th,
        au@ == au,
        session@ == session,
        entry@.session == entry.session@ && entry@.event == entry.event && entry@.ts == entry.ts,
{
}

/// The model of a step and of an entry of a script holds each of their parts.
pub proof fn law_step_models_hold_all_parts(step: StepData, v: VarInfo, entry: ScriptEntry)
    ensures
        step@.seq == step.seq && step@.ts == step.ts && step@.user == step.user@,
        step@.event == step.event@ && step@.group == step.group@ && step@.group_label
            == step.group_label@,
        step@.is_deferred == step.is_deferred && step@.check == step.check@,
        step@.variances == var_info_views(step.variances@),
        step@.state_snap == panel_views(step.state_snap@),
        step@.phases == phase_views(step.phases@),
        step@.history == seen_views(step.history@),
        v@.severity == v.severity@ && v@.rule == v.rule@ && v@.detail == v.detail@,
        entry@.group == entry.group@ && entry@.label == entry.label@ && entry@.ts == entry.ts,
        entry@.user == entry.user@ && entry@.kind == entry.kind,
        entry@.event().ts == entry.ts && entry@.event().entity == entry.user@
            && entry@.event().kind == entry.kind,
{
}

/// The model of a list holds the model of each of its items, in order.
pub proof fn law_lists_are_modelled_item_by_item(
    variances: Seq<Variance>,
    rows: Seq<Row>,
    panels: Seq<(String, EntityState)>,
    infos: Seq<VarInfo>,
    phases: Seq<Phase>,
    seen: Seq<Seen>,
    steps: Seq<StepData>,
    script: Seq<ScriptEntry>,
    edges: Seq<CausalEdge>,
    reports: Seq<(String, Variance)>,
    i: int,
)
    ensures
        variance_views(variances).len() == variances.len(),
        0 <= i < variances.len() ==> variance_views(variances)[i] == variances[i]@,
        row_views(rows).len() == rows.len(),
        0 <= i < rows.len() ==> row_views(rows)[i] == (rows[i].0@, rows[i].1@, rows[i].2@),
        panel_views(panels).len() == panels.len(),
        0 <= i < panels.len() ==> panel_views(panels)[i] == (panels[i].0@, panels[i].1@),
        var_info_views(infos).len() == infos.len(),
        0 <= i < infos.len() ==> var_info_views(infos)[i] == infos[i]@,
        phase_views(phases).len() == phases.len(),
        0 <= i < phases.len() ==> phase_views(phases)[i] == (
            phases[i].0@,
            phases[i].1@,
            phases[i].2@,
        ),
        seen_views(seen).len() == seen.len(),
        0 <= i < seen.len() ==> seen_views(seen)[i] == (seen[i].0, seen[i].1, seen[i].2@),
        step_views(steps).len() == steps.len(),
        0 <= i < steps.len() ==> step_views(steps)[i] == steps[i]@,
        script_views(script).len() == script.len(),
        0 <= i < script.len() ==> script_views(script)[i] == script[i]@,
        edge_views(edges).len() == edges.len(),
        0 <= i < edges.len() ==> edge_views(edges)[i] == edges[i]@,
        reported_names(reports).len() == reports.len(),
        0 <= i < reports.len() ==> reported_names(reports)[i] == reports[i].0@,
{
}

/// A record that is handed to a check stands for itself, and a missing one for a blank one.
pub proof fn law_missing_record_is_blank(
    id: &AuthState,
    cp: &ControlPlaneState,
    th: &ThermalState,
    au: &AutomationState,
)
    ensures
        identity_known(Some(id)) == id@,
        control_plane_known(Some(cp)) == *cp,
        thermal_known(Some(th)) == *th,
        automation_known(Some(au)) == *au,
        identity_known(None).logins.len() == 0 && identity_known(None).token_issued_at is None
            && !identity_known(None).token_used,
        control_plane_known(None).role_assigned_at is None && !control_plane_known(
            None,
        ).admin_action_taken,
        thermal_known(None).last_workload_at is None && thermal_known(None).bias_count == 0
            && thermal_known(None).last_temp is None,
        automation_known(None).last_validated_at is None && automation_known(None).trigger_count
            == 0 && automation_known(None).last_trigger_at is None,
{
}

/// A lookup gives what the map holds, and otherwise what was offered.
pub proof fn law_lookup<V>(map: Map<Seq<char>, V>, key: Seq<char>, otherwise: V)
    ensures
        map.contains_key(key) ==> value_or(map, key, otherwise) == map[key] && value_at(map, key)
            == Some(map[key]),
        !map.contains_key(key) ==> value_or(map, key, otherwise) == otherwise && value_at(map, key)
            == None::<V>,
{
}

} // verus!
