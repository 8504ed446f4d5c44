//! How a causal graph is rendered, told by its nodes and edges.

use vstd::prelude::*;

use crate::graph::bar_text;
use crate::graph::edge_text;
use crate::graph::edges_text;
use crate::graph::entities_of;
use crate::graph::entities_text;
use crate::graph::graph_text;
use crate::graph::heading_text;
use crate::graph::law_entities_are_listed;
use crate::graph::legend_text;
use crate::graph::owes;
use crate::graph::CausalEdgeView;
use crate::graph::CausalGraphView;
use crate::graph::NodeKind;
use crate::graph::NodeView;
use crate::ordering::name_before;
use crate::text::joined;
use crate::text::padded;
use crate::text::repeated;

verus! {

/// An edge is green with a tick where the transition was observed and red with a cross where it
/// is missing, and names both of its events.
pub proof fn law_edge_is_rendered(edge: CausalEdgeView)
    ensures
        edge.satisfied ==> edge_text(edge) == "    "@ + "\x1b[32m"@ + "✔"@ + "  "@ + padded(
            edge.from_event,
            22,
        ) + " →  "@ + edge.to_event + "\x1b[0m"@ + "\n"@,
        !edge.satisfied ==> edge_text(edge) == "    "@ + "\x1b[31m"@ + "✘"@ + "  "@ + padded(
            edge.from_event,
            22,
        ) + " →  "@ + edge.to_event + "\x1b[0m"@ + "\n"@,
{
}

/// The edges under an entity are its own, all of them, in the order in which they were added.
pub proof fn law_section_holds_own_edges(edges: Seq<CausalEdgeView>, entity: Seq<char>)
    ensures
        edges_text(edges, entity) == joined(
            edges.filter(|e: CausalEdgeView| e.entity == entity),
            |e: CausalEdgeView| edge_text(e),
        ),
    decreases edges.len(),
{
    reveal(Seq::filter);
    if edges.len() > 0 {
        let rest = edges.drop_last();
        let own = rest.filter(|e: CausalEdgeView| e.entity == entity);
        law_section_holds_own_edges(rest, entity);
        assert(own.push(edges.last()).drop_last() =~= own);
    }
}

/// The heading of an entity calls it a batch exactly where the graph has a batch of that name.
pub proof fn law_heading_is_rendered(nodes: Set<NodeView>, entity: Seq<char>)
    ensures
        nodes.contains(NodeView { id: entity, kind: NodeKind::Batch }) ==> heading_text(
            nodes,
            entity,
        ) == "\n  "@ + "\x1b[1m"@ + "\x1b[33m"@ + "["@ + "batch"@ + ": "@ + entity + "]"@
            + "\x1b[0m"@ + "\n"@,
        !nodes.contains(NodeView { id: entity, kind: NodeKind::Batch }) ==> heading_text(
            nodes,
            entity,
        ) == "\n  "@ + "\x1b[1m"@ + "\x1b[33m"@ + "["@ + "user "@ + ": "@ + entity + "]"@
            + "\x1b[0m"@ + "\n"@,
{
}

/// The sections stand in the order of the names, each with its heading and its edges.
pub proof fn law_sections_follow_names(graph: CausalGraphView, names: Seq<Seq<char>>)
    ensures
        entities_text(graph, names) == joined(
            names,
            |n: Seq<char>| heading_text(graph.nodes, n) + edges_text(graph.edges, n),
        ),
    decreases names.len(),
{
    if names.len() > 0 {
        law_sections_follow_names(graph, names.drop_last());
    }
}

/// The whole text: the legend between bars, the sections of exactly the entities that have edges,
/// each once and in the order of their names, and a bar at the end.
pub proof fn law_graph_is_rendered(graph: CausalGraphView)
    ensures
        ({
            let bar = "\x1b[2m"@ + repeated('─', 68) + "\x1b[0m"@;
            let legend = "\n"@ + bar + "\n  "@ + "\x1b[1m"@ + "\x1b[36m"@
                + "CAUSAL GRAPH — required transition analysis"@ + "\x1b[0m"@ + "\n"@ + bar
                + "\n  "@ + "\x1b[32m"@ + "✔ green"@ + "\x1b[0m"@
                + " = contract edge satisfied\n  "@ + "\x1b[31m"@ + "✘ red  "@ + "\x1b[0m"@
                + " = required successor MISSING  ← broken contract\n"@ + bar + "\n"@;
            let names = entities_of(graph.edges);
            &&& bar_text() == bar
            &&& legend_text() == legend
            &&& graph_text(graph) == legend + entities_text(graph, names) + "\n"@ + bar + "\n"@
            &&& forall|i: int|
                0 <= i < graph.edges.len() ==> names.contains((#[trigger] graph.edges[i]).entity)
            &&& forall|k: int|
                0 <= k < names.len() ==> exists|i: int|
                    0 <= i < graph.edges.len() && (#[trigger] graph.edges[i]).entity
                        == #[trigger] names[k]
            &&& forall|j: int, k: int|
                0 <= j < k < names.len() ==> name_before(#[trigger] names[j], #[trigger] names[k])
        }),
{
    let names = entities_of(graph.edges);
    law_entities_are_listed(graph.edges);
    let owing = |n: Seq<char>| owes(graph.edges, n);
    assert forall|i: int| 0 <= i < graph.edges.len() implies names.contains(
        (#[trigger] graph.edges[i]).entity,
    ) by {
        assert(owing(graph.edges[i].entity));
    }
    assert forall|k: int| 0 <= k < names.len() implies exists|i: int|
        0 <= i < graph.edges.len() && (#[trigger] graph.edges[i]).entity == #[trigger] names[k] by {
        assert(owing(names[k]));
    }
}

} // verus!
