//! The causal graph: entities, and the transitions between events that they owe.

use vstd::prelude::*;
use vstd::string::*;

use crate::ordering::ascending;
use crate::ordering::is_before;
use crate::ordering::law_listing_unique;
use crate::ordering::law_name_before_irreflexive;
use crate::ordering::law_name_before_total;
use crate::ordering::law_name_before_transitive;
use crate::ordering::lemma_insert_contains;
use crate::ordering::lemma_push_contains;
use crate::ordering::lists;
use crate::ordering::name_before;
use crate::text::pad_right;
use crate::text::padded;
use crate::text::push_repeated;
use crate::text::repeated;

verus! {

// ── Colours of a terminal ─────────────────────────────────────────────────────

pub const GREEN: &'static str = "\x1b[32m";

pub const RED: &'static str = "\x1b[31m";

pub const YELLOW: &'static str = "\x1b[33m";

pub const CYAN: &'static str = "\x1b[36m";

pub const BOLD: &'static str = "\x1b[1m";

pub const DIM: &'static str = "\x1b[2m";

pub const RESET: &'static str = "\x1b[0m";

// ── Nodes ─────────────────────────────────────────────────────────────────────

#[derive(Debug, Clone, Copy, PartialEq, Eq, Hash, Structural)]
pub enum NodeKind {
    User,
    Batch,
}

/// An entity of the graph.
#[derive(Debug, Clone, PartialEq, Eq, Hash)]
pub struct Node {
    pub id: String,
    pub kind: NodeKind,
}

/// A node, with its name as a character sequence.
pub struct NodeView {
    pub id: Seq<char>,
    pub kind: NodeKind,
}

impl View for Node {
    type V = NodeView;

    open spec fn view(&self) -> NodeView {
        NodeView { id: self.id@, kind: self.kind }
    }
}

impl Node {
    pub fn user(id: &str) -> (r: Self)
        ensures
            r@ == (NodeView { id: id@, kind: NodeKind::User }),
    {
        Node { id: id.to_owned(), kind: NodeKind::User }
    }

    pub fn batch(id: &str) -> (r: Self)
        ensures
            r@ == (NodeView { id: id@, kind: NodeKind::Batch }),
    {
        Node { id: id.to_owned(), kind: NodeKind::Batch }
    }
}

/// A set of nodes. No two of its nodes agree in name and kind.
pub struct NodeSet {
    items: Vec<Node>,
}

impl View for NodeSet {
    type V = Set<NodeView>;

    closed spec fn view(&self) -> Set<NodeView> {
        Set::new(|n: NodeView| exists|i: int| 0 <= i < self.items@.len() && self.items@[i]@ == n)
    }
}

impl NodeSet {
    #[verifier::type_invariant]
    spec fn distinct(self) -> bool {
        forall|i: int, j: int|
            0 <= i < j < self.items@.len() ==> (#[trigger] self.items@[i])@ != (
            #[trigger] self.items@[j])@
    }

    pub fn new() -> (r: Self)
        ensures
            r@ == Set::<NodeView>::empty(),
    {
        let r = NodeSet { items: Vec::new() };
        assert(r@ =~= Set::<NodeView>::empty());
        r
    }

    pub fn contains(&self, node: &Node) -> (r: bool)
        ensures
            r == self@.contains(node@),
    {
        let mut i: usize = 0;
        while i < self.items.len()
            invariant
                i <= self.items@.len(),
                forall|j: int| 0 <= j < i ==> (#[trigger] self.items@[j])@ != node@,
            decreases self.items@.len() - i,
        {
            let item = &self.items[i];
            if item.id == node.id && item.kind == node.kind {
                assert(self.items@[i as int]@ == node@);
                return true;
            }
            i += 1;
        }
        false
    }

    /// Adds a node. Returns whether it is new to the set.
    pub fn insert(&mut self, node: Node) -> (r: bool)
        ensures
            r == !old(self)@.contains(node@),
            final(self)@ == old(self)@.insert(node@),
    {
        if self.contains(&node) {
            assert(self@ =~= old(self)@.insert(node@));
            return false;
        }
        proof {
            use_type_invariant(&*self);
        }
        let mut items: Vec<Node> = Vec::new();
        std::mem::swap(&mut items, &mut self.items);
        let ghost before = items@;
        items.push(node);
        *self = NodeSet { items };
        proof {
            let after = self.items@;
            assert forall|n: NodeView| self@.contains(n) <==> old(self)@.insert(node@).contains(
                n,
            ) by {
                if old(self)@.contains(n) {
                    let i = choose|i: int| 0 <= i < before.len() && before[i]@ == n;
                    assert(after[i]@ == n);
                }
                if n == node@ {
                    assert(after[before.len() as int]@ == n);
                }
                if self@.contains(n) && n != node@ {
                    let i = choose|i: int| 0 <= i < after.len() && after[i]@ == n;
                    assert(before[i]@ == n);
                }
            }
            assert(self@ =~= old(self)@.insert(node@));
        }
        true
    }
}

// ── Edges ─────────────────────────────────────────────────────────────────────

/// A transition that an entity owes.
#[derive(Debug, Clone)]
pub struct CausalEdge {
    pub entity: String,
    pub from_event: &'static str,
    pub to_event: &'static str,
    /// Whether the second event was observed behind the first.
    pub satisfied: bool,
}

/// An edge, with its texts as character sequences.
pub struct CausalEdgeView {
    pub entity: Seq<char>,
    pub from_event: Seq<char>,
    pub to_event: Seq<char>,
    pub satisfied: bool,
}

impl View for CausalEdge {
    type V = CausalEdgeView;

    open spec fn view(&self) -> CausalEdgeView {
        CausalEdgeView {
            entity: self.entity@,
            from_event: self.from_event@,
            to_event: self.to_event@,
            satisfied: self.satisfied,
        }
    }
}

/// The views of a list of edges.
pub open spec fn edge_views(s: Seq<CausalEdge>) -> Seq<CausalEdgeView> {
    s.map_values(|e: CausalEdge| e@)
}

// ── Graph ─────────────────────────────────────────────────────────────────────

pub struct CausalGraph {
    pub nodes: NodeSet,
    pub edges: Vec<CausalEdge>,
}

/// The nodes of a graph, and its edges in the order in which they were added.
pub struct CausalGraphView {
    pub nodes: Set<NodeView>,
    pub edges: Seq<CausalEdgeView>,
}

impl View for CausalGraph {
    type V = CausalGraphView;

    open spec fn view(&self) -> CausalGraphView {
        CausalGraphView { nodes: self.nodes@, edges: edge_views(self.edges@) }
    }
}

impl CausalGraph {
    pub fn new() -> (r: Self)
        ensures
            r@ == (CausalGraphView { nodes: Set::empty(), edges: Seq::empty() }),
    {
        let r = CausalGraph { nodes: NodeSet::new(), edges: Vec::new() };
        assert(r@.edges =~= Seq::<CausalEdgeView>::empty());
        r
    }

    /// Adds a node, unless the graph has it already.
    pub fn add_node(&mut self, node: Node)
        ensures
            final(self)@ == (CausalGraphView {
                nodes: old(self)@.nodes.insert(node@),
                edges: old(self)@.edges,
            }),
    {
        self.nodes.insert(node);
    }

    /// Adds an edge behind all others.
    pub fn add_edge(
        &mut self,
        entity: &str,
        from_event: &'static str,
        to_event: &'static str,
        satisfied: bool,
    )
        ensures
            final(self)@ == (CausalGraphView {
                nodes: old(self)@.nodes,
                edges: old(self)@.edges.push(
                    CausalEdgeView {
                        entity: entity@,
                        from_event: from_event@,
                        to_event: to_event@,
                        satisfied,
                    },
                ),
            }),
    {
        self.edges.push(CausalEdge { entity: entity.to_owned(), from_event, to_event, satisfied });
        assert(self@.edges =~= old(self)@.edges.push(self.edges@.last()@));
    }
}

/// Adding a node a second time changes nothing, and the order in which nodes are added does not
/// matter.
pub proof fn law_nodes_are_a_set(nodes: Set<NodeView>, a: NodeView, b: NodeView)
    ensures
        nodes.insert(a).insert(a) == nodes.insert(a),
        nodes.insert(a).insert(b) == nodes.insert(b).insert(a),
{
    assert(nodes.insert(a).insert(a) =~= nodes.insert(a));
    assert(nodes.insert(a).insert(b) =~= nodes.insert(b).insert(a));
}

// ── Rendering ─────────────────────────────────────────────────────────────────

/// Whether some edge belongs to the entity.
pub open spec fn owes(edges: Seq<CausalEdgeView>, entity: Seq<char>) -> bool {
    exists|i: int| 0 <= i < edges.len() && (#[trigger] edges[i]).entity == entity
}

/// The sequence names the entities that have edges, each once, in the order of names.
pub open spec fn names_entities(names: Seq<Seq<char>>, edges: Seq<CausalEdgeView>) -> bool {
    lists(names, |n: Seq<char>| owes(edges, n), |a: Seq<char>, b: Seq<char>| name_before(a, b))
}

/// The entities that have edges, in the order of names.
pub open spec fn entities_of(edges: Seq<CausalEdgeView>) -> Seq<Seq<char>> {
    choose|names: Seq<Seq<char>>| names_entities(names, edges)
}

/// A horizontal line.
pub open spec fn bar_text() -> Seq<char> {
    DIM@ + repeated('─', 68) + RESET@
}

/// One edge on a line of its own.
pub open spec fn edge_text(edge: CausalEdgeView) -> Seq<char> {
    "    "@ + (if edge.satisfied {
        GREEN@
    } else {
        RED@
    }) + (if edge.satisfied {
        "✔"@
    } else {
        "✘"@
    }) + "  "@ + padded(edge.from_event, 22) + " →  "@ + edge.to_event + RESET@ + "\n"@
}

/// The edges of one entity, in the order in which they were added.
pub open spec fn edges_text(edges: Seq<CausalEdgeView>, entity: Seq<char>) -> Seq<char>
    decreases edges.len(),
{
    if edges.len() == 0 {
        Seq::empty()
    } else if edges.last().entity == entity {
        edges_text(edges.drop_last(), entity) + edge_text(edges.last())
    } else {
        edges_text(edges.drop_last(), entity)
    }
}

/// The heading of one entity.
pub open spec fn heading_text(nodes: Set<NodeView>, entity: Seq<char>) -> Seq<char> {
    "\n  "@ + BOLD@ + YELLOW@ + "["@ + (if nodes.contains(
        NodeView { id: entity, kind: NodeKind::Batch },
    ) {
        "batch"@
    } else {
        "user "@
    }) + ": "@ + entity + "]"@ + RESET@ + "\n"@
}

/// The entities, each with its edges.
pub open spec fn entities_text(graph: CausalGraphView, names: Seq<Seq<char>>) -> Seq<char>
    decreases names.len(),
{
    if names.len() == 0 {
        Seq::empty()
    } else {
        entities_text(graph, names.drop_last()) + (heading_text(graph.nodes, names.last())
            + edges_text(graph.edges, names.last()))
    }
}

/// What stands above the entities.
pub open spec fn legend_text() -> Seq<char> {
    "\n"@ + bar_text() + "\n  "@ + BOLD@ + CYAN@ + "CAUSAL GRAPH — required transition analysis"@
        + RESET@ + "\n"@ + bar_text() + "\n  "@ + GREEN@ + "✔ green"@ + RESET@
        + " = contract edge satisfied\n  "@ + RED@ + "✘ red  "@ + RESET@
        + " = required successor MISSING  ← broken contract\n"@ + bar_text() + "\n"@
}

/// The whole graph as a text for a terminal.
pub open spec fn graph_text(graph: CausalGraphView) -> Seq<char> {
    legend_text() + entities_text(graph, entities_of(graph.edges)) + "\n"@ + bar_text() + "\n"@
}

/// The entities of a graph have only one order.
pub proof fn law_entities_unique(names: Seq<Seq<char>>, edges: Seq<CausalEdgeView>)
    requires
        names_entities(names, edges),
    ensures
        names == entities_of(edges),
{
    let before = |a: Seq<char>, b: Seq<char>| name_before(a, b);
    assert forall|a: Seq<char>| !#[trigger] before(a, a) by {
        law_name_before_irreflexive(a);
    }
    assert forall|a: Seq<char>, b: Seq<char>, c: Seq<char>| #[trigger]
        before(a, b) && #[trigger] before(b, c) implies before(a, c) by {
        law_name_before_transitive(a, b, c);
    }
    law_listing_unique(names, entities_of(edges), |n: Seq<char>| owes(edges, n), before);
}

/// A sorted row of names has a place for one more name.
proof fn lemma_name_fits(names: Seq<Seq<char>>, name: Seq<char>) -> (r: Seq<Seq<char>>)
    requires
        ascending(names, |a: Seq<char>, b: Seq<char>| name_before(a, b)),
    ensures
        ascending(r, |a: Seq<char>, b: Seq<char>| name_before(a, b)),
        forall|n: Seq<char>| #[trigger] r.contains(n) <==> names.contains(n) || n == name,
    decreases names.len(),
{
    let before = |a: Seq<char>, b: Seq<char>| name_before(a, b);
    if names.contains(name) {
        names
    } else if names.len() == 0 || name_before(names.last(), name) {
        let r = names.push(name);
        assert forall|n: Seq<char>| #[trigger] r.contains(n) <==> names.contains(n) || n == name by {
            lemma_push_contains(names, name, n);
        }
        assert forall|i: int, j: int| 0 <= i < j < r.len() implies before(
            #[trigger] r[i],
            #[trigger] r[j],
        ) by {
            if j == names.len() && i < names.len() - 1 {
                assert(before(names[i], names.last()));
                law_name_before_transitive(names[i], names.last(), name);
            }
        }
        r
    } else {
        let last = names.last();
        let rest = names.drop_last();
        assert(names[names.len() - 1] == last);
        law_name_before_total(last, name);
        let inner = lemma_name_fits(rest, name);
        let r = inner.push(last);
        assert forall|n: Seq<char>| #[trigger] r.contains(n) <==> names.contains(n) || n == name by {
            lemma_push_contains(inner, last, n);
            lemma_push_contains(rest, last, n);
            assert(rest.push(last) =~= names);
        }
        assert forall|i: int, j: int| 0 <= i < j < r.len() implies before(
            #[trigger] r[i],
            #[trigger] r[j],
        ) by {
            if j == inner.len() {
                assert(inner.contains(inner[i]));
                if inner[i] != name {
                    let k = choose|k: int| 0 <= k < rest.len() && rest[k] == inner[i];
                    assert(before(names[k], names[names.len() - 1]));
                }
            } else {
                assert(before(inner[i], inner[j]));
            }
        }
        r
    }
}

/// Every graph has its entities in an order: each entity that has edges is named once, and no
/// other is.
pub proof fn law_entities_are_listed(edges: Seq<CausalEdgeView>)
    ensures
        names_entities(entities_of(edges), edges),
    decreases edges.len(),
{
    let owing = |n: Seq<char>| owes(edges, n);
    if edges.len() == 0 {
        assert(names_entities(Seq::empty(), edges));
    } else {
        let rest = edges.drop_last();
        law_entities_are_listed(rest);
        let fewer = entities_of(rest);
        let names = lemma_name_fits(fewer, edges.last().entity);
        let owing_rest = |n: Seq<char>| owes(rest, n);
        assert forall|n: Seq<char>| #[trigger] owing(n) implies names.contains(n) by {
            if n != edges.last().entity {
                let i = choose|i: int| 0 <= i < edges.len() && (#[trigger] edges[i]).entity == n;
                assert(rest[i].entity == n);
                assert(owing_rest(n));
            }
        }
        assert forall|k: int| 0 <= k < names.len() implies owing(#[trigger] names[k]) by {
            assert(names.contains(names[k]));
            if fewer.contains(names[k]) {
                let m = choose|m: int| 0 <= m < fewer.len() && fewer[m] == names[k];
                assert(owing_rest(fewer[m]));
                let i = choose|i: int|
                    0 <= i < rest.len() && (#[trigger] rest[i]).entity == names[k];
                assert(edges[i].entity == names[k]);
            } else {
                assert(edges[edges.len() - 1].entity == names[k]);
            }
        }
        assert(names_entities(names, edges));
    }
}

/// A new edge adds its line at the end of its entity's section and leaves all other sections as
/// they are.
pub proof fn law_edge_extends_its_section(
    edges: Seq<CausalEdgeView>,
    edge: CausalEdgeView,
    entity: Seq<char>,
)
    ensures
        edges_text(edges.push(edge), entity) == (if edge.entity == entity {
            edges_text(edges, entity) + edge_text(edge)
        } else {
            edges_text(edges, entity)
        }),
{
    assert(edges.push(edge).drop_last() =~= edges);
}

/// The views of a list of names.
spec fn name_views(s: Seq<String>) -> Seq<Seq<char>> {
    s.map_values(|n: String| n@)
}

/// Adds a name to a sorted list, unless the list has it already.
fn insert_name(names: &mut Vec<String>, name: &String)
    requires
        ascending(name_views(old(names)@), |a: Seq<char>, b: Seq<char>| name_before(a, b)),
    ensures
        ascending(name_views(final(names)@), |a: Seq<char>, b: Seq<char>| name_before(a, b)),
        forall|n: Seq<char>| #[trigger]
            name_views(final(names)@).contains(n) <==> name_views(old(names)@).contains(n) || n
                == name@,
{
    let ghost before = |a: Seq<char>, b: Seq<char>| name_before(a, b);
    let ghost have = name_views(names@);
    let mut p: usize = 0;
    while p < names.len() && is_before(names[p].as_str(), name.as_str())
        invariant
            p <= names@.len(),
            have == name_views(names@),
            forall|i: int| 0 <= i < p ==> name_before(#[trigger] have[i], name@),
        decreases names@.len() - p,
    {
        assert(have[p as int] == names@[p as int]@);
        p += 1;
    }
    if p < names.len() {
        assert(have[p as int] == names@[p as int]@);
        if names[p] == *name {
            assert(have.contains(name@));
            return;
        }
    }
    names.insert(p, name.as_str().to_owned());
    proof {
        let grown = name_views(names@);
        assert(grown =~= have.insert(p as int, name@));
        assert forall|n: Seq<char>| #[trigger]
            grown.contains(n) <==> have.contains(n) || n == name@ by {
            lemma_insert_contains(have, p as int, name@, n);
        }
        assert forall|i: int| p <= i < have.len() implies name_before(name@, #[trigger] have[i]) by {
            law_name_before_total(have[p as int], name@);
            if i > p {
                assert(before(have[p as int], have[i]));
                law_name_before_transitive(name@, have[p as int], have[i]);
            }
        }
        assert forall|i: int, j: int| 0 <= i < j < grown.len() implies before(
            #[trigger] grown[i],
            #[trigger] grown[j],
        ) by {
            if i != p && j != p {
                let a = if i < p { i } else { i - 1 };
                let b = if j < p { j } else { j - 1 };
                assert(before(have[a], have[b]));
            } else if j == p {
                assert(grown[i] == have[i]);
            } else {
                assert(grown[j] == have[j - 1]);
            }
        }
    }
}

fn bar() -> (r: String)
    ensures
        r@ == bar_text(),
{
    let mut out = DIM.to_owned();
    push_repeated(&mut out, '─', 68);
    out.concat(RESET)
}

fn legend() -> (r: String)
    ensures
        r@ == legend_text(),
{
    let bar = bar();
    "\n".to_owned().concat(bar.as_str()).concat("\n  ").concat(BOLD).concat(CYAN).concat(
        "CAUSAL GRAPH — required transition analysis",
    ).concat(RESET).concat("\n").concat(bar.as_str()).concat("\n  ").concat(GREEN).concat(
        "✔ green",
    ).concat(RESET).concat(" = contract edge satisfied\n  ").concat(RED).concat("✘ red  ").concat(
        RESET,
    ).concat(" = required successor MISSING  ← broken contract\n").concat(bar.as_str()).concat(
        "\n",
    )
}

fn edge_line(edge: &CausalEdge) -> (r: String)
    ensures
        r@ == edge_text(edge@),
{
    let (color, sym) = if edge.satisfied {
        (GREEN, "✔")
    } else {
        (RED, "✘")
    };
    "    ".to_owned().concat(color).concat(sym).concat("  ").concat(
        pad_right(edge.from_event, 22).as_str(),
    ).concat(" →  ").concat(edge.to_event).concat(RESET).concat("\n")
}

impl CausalGraph {
    /// The edges of one entity, a line each.
    fn edge_lines(&self, entity: &String) -> (r: String)
        ensures
            r@ == edges_text(self@.edges, entity@),
    {
        let mut out = String::new();
        let ghost edges = self@.edges;
        for i in 0..self.edges.len()
            invariant
                edges == self@.edges,
                out@ == edges_text(edges.take(i as int), entity@),
        {
            proof {
                assert(edges.take(i + 1).drop_last() =~= edges.take(i as int));
                assert(edges.take(i + 1).last() == self.edges@[i as int]@);
            }
            if self.edges[i].entity == *entity {
                out.append(edge_line(&self.edges[i]).as_str());
            }
        }
        assert(edges.take(edges.len() as int) =~= edges);
        out
    }

    fn heading(&self, entity: &String) -> (r: String)
        ensures
            r@ == heading_text(self@.nodes, entity@),
    {
        let kind_label = if self.nodes.contains(&Node::batch(entity.as_str())) {
            "batch"
        } else {
            "user "
        };
        "\n  ".to_owned().concat(BOLD).concat(YELLOW).concat("[").concat(kind_label).concat(
            ": ",
        ).concat(entity.as_str()).concat("]").concat(RESET).concat("\n")
    }

    /// The graph as a text for a terminal: the entities in the order of names, and under each
    /// its edges, green where the transition was observed and red where it is missing.
    pub fn render(&self) -> (r: String)
        ensures
            r@ == graph_text(self@),
    {
        let names = self.entities();
        let mut middle = String::new();
        let ghost all = name_views(names@);
        proof {
            law_entities_unique(all, self@.edges);
        }
        for i in 0..names.len()
            invariant
                all == name_views(names@),
                middle@ == entities_text(self@, all.take(i as int)),
        {
            proof {
                assert(all.take(i + 1).drop_last() =~= all.take(i as int));
                assert(all.take(i + 1).last() == names@[i as int]@);
            }
            middle.append(
                self.heading(&names[i]).concat(self.edge_lines(&names[i]).as_str()).as_str(),
            );
        }
        assert(all.take(all.len() as int) =~= all);
        legend().concat(middle.as_str()).concat("\n").concat(bar().as_str()).concat("\n")
    }

    /// The entities that have edges, in the order of names.
    fn entities(&self) -> (r: Vec<String>)
        ensures
            names_entities(name_views(r@), self@.edges),
    {
        let mut names: Vec<String> = Vec::new();
        let ghost edges = self@.edges;
        for i in 0..self.edges.len()
            invariant
                edges == self@.edges,
                ascending(name_views(names@), |a: Seq<char>, b: Seq<char>| name_before(a, b)),
                forall|n: Seq<char>| #[trigger]
                    name_views(names@).contains(n) <==> owes(edges.take(i as int), n),
        {
            let ghost before = name_views(names@);
            insert_name(&mut names, &self.edges[i].entity);
            proof {
                let entity = self.edges@[i as int].entity@;
                assert(edges[i as int].entity == entity);
                assert forall|n: Seq<char>| #[trigger]
                    name_views(names@).contains(n) <==> owes(edges.take(i + 1), n) by {
                    assert(name_views(names@).contains(n) <==> before.contains(n) || n == entity);
                    if owes(edges.take(i as int), n) {
                        let k = choose|k: int|
                            0 <= k < i && (#[trigger] edges.take(i as int)[k]).entity == n;
                        assert(edges.take(i + 1)[k].entity == n);
                    }
                    if n == entity {
                        assert(edges.take(i + 1)[i as int].entity == n);
                    }
                    if owes(edges.take(i + 1), n) && n != entity {
                        let k = choose|k: int|
                            0 <= k < i + 1 && (#[trigger] edges.take(i + 1)[k]).entity == n;
                        assert(edges.take(i as int)[k].entity == n);
                    }
                }
            }
        }
        proof {
            assert(edges.take(edges.len() as int) =~= edges);
            let owing = |n: Seq<char>| owes(edges, n);
            let shown = name_views(names@);
            assert forall|n: Seq<char>| #[trigger] owing(n) implies shown.contains(n) by {}
            assert forall|i: int| 0 <= i < shown.len() implies owing(#[trigger] shown[i]) by {
                assert(shown.contains(shown[i]));
            }
        }
        names
    }
}

} // verus!
