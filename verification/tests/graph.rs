use telemetry_engine::graph::CausalGraph;
use telemetry_engine::graph::Node;
use telemetry_engine::graph::NodeKind;
use telemetry_engine::graph::NodeSet;

#[test]
fn nodes_have_a_kind() {
    let u = Node::user("alice");
    assert_eq!(u.id, "alice");
    assert_eq!(u.kind, NodeKind::User);
    let b = Node::batch("nightly");
    assert_eq!(b.id, "nightly");
    assert_eq!(b.kind, NodeKind::Batch);
}

/// A node is added once; the same name as another kind is another node.
#[test]
fn nodes_are_added_once() {
    let mut set = NodeSet::new();
    assert!(set.insert(Node::user("x")));
    assert!(!set.insert(Node::user("x")));
    assert!(!set.contains(&Node::batch("x")));
    assert!(set.insert(Node::batch("x")));
    assert!(set.contains(&Node::user("x")));
    assert!(set.contains(&Node::batch("x")));
    assert!(!set.contains(&Node::user("y")));
}

#[test]
fn graph_collects_nodes_and_edges() {
    let mut g = CausalGraph::new();
    assert!(g.edges.is_empty());
    g.add_node(Node::user("alice"));
    g.add_node(Node::user("alice"));
    g.add_edge("alice", "LoginSuccess", "AuthTokenIssued", true);
    g.add_edge("alice", "AuthTokenIssued", "AuthTokenUsed", false);
    assert!(g.nodes.contains(&Node::user("alice")));
    assert_eq!(g.edges.len(), 2);
    assert_eq!(g.edges[0].entity, "alice");
    assert_eq!(g.edges[0].from_event, "LoginSuccess");
    assert_eq!(g.edges[0].to_event, "AuthTokenIssued");
    assert!(g.edges[0].satisfied);
    assert!(!g.edges[1].satisfied);
}

fn bar() -> String {
    format!("\x1b[2m{}\x1b[0m", "─".repeat(68))
}

fn legend() -> String {
    format!(
        "\n{bar}\n  \x1b[1m\x1b[36mCAUSAL GRAPH — required transition analysis\x1b[0m\n{bar}\n  \x1b[32m✔ green\x1b[0m = contract edge satisfied\n  \x1b[31m✘ red  \x1b[0m = required successor MISSING  ← broken contract\n{bar}\n",
        bar = bar()
    )
}

#[test]
fn empty_graph_renders_its_legend() {
    assert_eq!(CausalGraph::new().render(), format!("{}\n{}\n", legend(), bar()));
}

/// Entities by name, each with its edges in the order in which they were added.
#[test]
fn graph_renders_by_entity() {
    let mut g = CausalGraph::new();
    g.add_node(Node::batch("nightly"));
    g.add_node(Node::user("alice"));
    g.add_edge("nightly", "BatchStarted", "BatchFinished", false);
    g.add_edge("alice", "LoginSuccess", "AuthTokenIssued", true);
    g.add_edge("nightly", "AnEventWithAVeryLongName", "Next", true);
    g.add_edge("alice", "AuthTokenIssued", "AuthTokenUsed", false);
    let expected = format!(
        "{legend}\n  \x1b[1m\x1b[33m[user : alice]\x1b[0m\n    \x1b[32m✔  LoginSuccess           →  AuthTokenIssued\x1b[0m\n    \x1b[31m✘  AuthTokenIssued        →  AuthTokenUsed\x1b[0m\n\n  \x1b[1m\x1b[33m[batch: nightly]\x1b[0m\n    \x1b[31m✘  BatchStarted           →  BatchFinished\x1b[0m\n    \x1b[32m✔  AnEventWithAVeryLongName →  Next\x1b[0m\n\n{bar}\n",
        legend = legend(),
        bar = bar()
    );
    assert_eq!(g.render(), expected);
}

/// An entity that is no batch is shown as a user, known or not.
#[test]
fn unknown_entity_is_shown_as_user() {
    let mut g = CausalGraph::new();
    g.add_edge("ghost", "A", "B", true);
    assert!(g.render().contains("[user : ghost]"));
}
