use ten_graph_delete::delete::graph_delete_extension_node;
use ten_graph_delete::delete::graph_restore;
use ten_graph_delete::delete::DeleteGraphNodeResponsePayload;
use ten_graph_delete::graph::Graph;
use ten_graph_delete::graph::GraphConnection;
use ten_graph_delete::graph::GraphDestination;
use ten_graph_delete::graph::GraphLoc;
use ten_graph_delete::graph::GraphMessageFlow;
use ten_graph_delete::graph::GraphNode;
use ten_graph_delete::graph::GraphNodeType;

fn ext_node(name: &str, addon: &str, app: Option<&str>, group: Option<&str>) -> GraphNode {
    GraphNode {
        type_: GraphNodeType::Extension,
        name: name.to_string(),
        addon: Some(addon.to_string()),
        extension_group: group.map(|s| s.to_string()),
        app: app.map(|s| s.to_string()),
    }
}

fn loc(ext: &str, app: Option<&str>) -> GraphLoc {
    GraphLoc { extension: Some(ext.to_string()), app: app.map(|s| s.to_string()) }
}

fn dest(ext: &str, app: Option<&str>) -> GraphDestination {
    GraphDestination { loc: loc(ext, app) }
}

fn flow(name: &str, dests: Vec<GraphDestination>) -> GraphMessageFlow {
    GraphMessageFlow { name: name.to_string(), dest: dests }
}

fn bare_conn(src: &str, src_app: Option<&str>) -> GraphConnection {
    GraphConnection {
        loc: loc(src, src_app),
        cmd: None,
        data: None,
        audio_frame: None,
        video_frame: None,
    }
}

/// Deleting an identity that matches no node leaves the graph deep-equal to
/// its pre-call state and reports success (no snapshot to validate).
#[test]
fn noop_delete_leaves_graph_unchanged() {
    let mut graph = Graph {
        nodes: vec![ext_node("b", "addon_b", None, None)],
        connections: None,
    };
    let original = graph.clone();
    let snapshot = graph_delete_extension_node(
        &mut graph,
        "a".to_string(),
        "addon_a".to_string(),
        None,
        None,
    );
    assert!(snapshot.is_none());
    assert_eq!(graph, original);
}

/// The full cascade scenario: node `a` (addon `addon1`, no app, no group),
/// a connection `a -> b` carrying a cmd flow to `b`, and a connection
/// `b -> a` carrying a data flow to `a`.  Deleting `a` removes the node,
/// drops the whole `a -> b` connection (its source matches), strips `a` from
/// the `b -> a` data flow, drops the emptied flow and then the emptied
/// connection, leaving the connection container absent.
#[test]
fn cascade_scenario_removes_node_and_connections() {
    let mut graph = Graph {
        nodes: vec![
            ext_node("a", "addon1", None, None),
            ext_node("b", "addon2", None, None),
        ],
        connections: Some(vec![
            GraphConnection {
                loc: loc("a", None),
                cmd: Some(vec![flow("hello", vec![dest("b", None)])]),
                data: None,
                audio_frame: None,
                video_frame: None,
            },
            GraphConnection {
                loc: loc("b", None),
                cmd: None,
                data: Some(vec![flow("bytes", vec![dest("a", None)])]),
                audio_frame: None,
                video_frame: None,
            },
        ]),
    };
    let snapshot = graph_delete_extension_node(
        &mut graph,
        "a".to_string(),
        "addon1".to_string(),
        None,
        None,
    );
    assert!(snapshot.is_some());
    assert_eq!(graph.nodes, vec![ext_node("b", "addon2", None, None)]);
    assert!(graph.connections.is_none());
}

/// When the external validator rejects the mutated graph, restoring the
/// snapshot leaves the graph deep-equal, field for field, to its pre-call
/// state.
#[test]
fn rollback_restores_pre_call_graph() {
    let mut graph = Graph {
        nodes: vec![
            ext_node("a", "addon1", None, None),
            ext_node("b", "addon2", None, None),
        ],
        connections: Some(vec![GraphConnection {
            loc: loc("b", None),
            cmd: Some(vec![flow("ping", vec![dest("a", None), dest("b", None)])]),
            data: None,
            audio_frame: None,
            video_frame: None,
        }]),
    };
    let original = graph.clone();
    let snapshot = graph_delete_extension_node(
        &mut graph,
        "a".to_string(),
        "addon1".to_string(),
        None,
        None,
    );
    let snapshot = snapshot.expect("node a should have been deleted");
    assert_ne!(graph, original);
    // The caller's validator rejects the candidate here; roll back.
    graph_restore(&mut graph, snapshot);
    assert_eq!(graph, original);
}

/// Calling deletion twice with the same identity after a successful first
/// deletion is a no-op the second time.
#[test]
fn second_delete_is_noop() {
    let mut graph = Graph {
        nodes: vec![
            ext_node("a", "addon1", None, None),
            ext_node("b", "addon2", None, None),
        ],
        connections: Some(vec![GraphConnection {
            loc: loc("b", None),
            cmd: Some(vec![flow("ping", vec![dest("a", None), dest("b", None)])]),
            data: None,
            audio_frame: None,
            video_frame: None,
        }]),
    };
    let first = graph_delete_extension_node(
        &mut graph,
        "a".to_string(),
        "addon1".to_string(),
        None,
        None,
    );
    assert!(first.is_some());
    let after_first = graph.clone();
    let second = graph_delete_extension_node(
        &mut graph,
        "a".to_string(),
        "addon1".to_string(),
        None,
        None,
    );
    assert!(second.is_none());
    assert_eq!(graph, after_first);
}

/// An unset `app` matches only an unset `app`: a node bound to an app is not
/// deleted by a target without one, and vice versa.
#[test]
fn none_app_matches_only_none() {
    let mut graph = Graph {
        nodes: vec![ext_node("a", "addon1", Some("app1"), None)],
        connections: None,
    };
    let original = graph.clone();
    let snapshot = graph_delete_extension_node(
        &mut graph,
        "a".to_string(),
        "addon1".to_string(),
        None,
        None,
    );
    assert!(snapshot.is_none());
    assert_eq!(graph, original);

    let mut graph = Graph {
        nodes: vec![ext_node("a", "addon1", None, None)],
        connections: None,
    };
    let original = graph.clone();
    let snapshot = graph_delete_extension_node(
        &mut graph,
        "a".to_string(),
        "addon1".to_string(),
        Some("app1".to_string()),
        None,
    );
    assert!(snapshot.is_none());
    assert_eq!(graph, original);
}

/// A destination whose `app` is unset is stripped only when the target's
/// `app` is unset too.
#[test]
fn destination_app_none_only_stripped_for_none_target() {
    let conn = GraphConnection {
        loc: loc("b", None),
        cmd: Some(vec![flow("ping", vec![dest("a", None), dest("b", None)])]),
        data: None,
        audio_frame: None,
        video_frame: None,
    };
    // Target app set: the app-less destination to `a` survives, though the
    // app-less node `a` itself is out of the target's scope as well.
    let mut graph = Graph {
        nodes: vec![
            ext_node("a", "addon1", Some("app1"), None),
            ext_node("b", "addon2", None, None),
        ],
        connections: Some(vec![conn]),
    };
    let snapshot = graph_delete_extension_node(
        &mut graph,
        "a".to_string(),
        "addon1".to_string(),
        Some("app1".to_string()),
        None,
    );
    assert!(snapshot.is_some());
    let conns = graph.connections.as_ref().expect("connection should remain");
    assert_eq!(conns.len(), 1);
    let cmd = conns[0].cmd.as_ref().expect("cmd flows should remain");
    assert_eq!(cmd[0].dest, vec![dest("a", None), dest("b", None)]);
}

/// The identity tuple is not assumed unique: every matching node is removed
/// in one call.
#[test]
fn removes_every_matching_node() {
    let mut graph = Graph {
        nodes: vec![
            ext_node("a", "addon1", None, None),
            ext_node("b", "addon2", None, None),
            ext_node("a", "addon1", None, None),
        ],
        connections: None,
    };
    let snapshot = graph_delete_extension_node(
        &mut graph,
        "a".to_string(),
        "addon1".to_string(),
        None,
        None,
    );
    assert!(snapshot.is_some());
    assert_eq!(graph.nodes, vec![ext_node("b", "addon2", None, None)]);
}

/// All four identity fields must match: a different addon or a different
/// extension group keeps the node.
#[test]
fn partial_identity_is_not_deleted() {
    let mut graph = Graph {
        nodes: vec![
            ext_node("a", "other_addon", None, None),
            ext_node("a", "addon1", None, Some("group1")),
        ],
        connections: None,
    };
    let original = graph.clone();
    let snapshot = graph_delete_extension_node(
        &mut graph,
        "a".to_string(),
        "addon1".to_string(),
        None,
        None,
    );
    assert!(snapshot.is_none());
    assert_eq!(graph, original);
}

/// Only the `Extension` node variant participates: a non-extension node with
/// the same identity fields is kept.
#[test]
fn non_extension_node_is_kept() {
    let mut graph = Graph {
        nodes: vec![GraphNode {
            type_: GraphNodeType::Subgraph,
            name: "a".to_string(),
            addon: Some("addon1".to_string()),
            extension_group: None,
            app: None,
        }],
        connections: None,
    };
    let original = graph.clone();
    let snapshot = graph_delete_extension_node(
        &mut graph,
        "a".to_string(),
        "addon1".to_string(),
        None,
        None,
    );
    assert!(snapshot.is_none());
    assert_eq!(graph, original);
}

/// A category container whose flows all empty out is normalized to absent,
/// never left present-but-empty, while populated categories survive.
#[test]
fn emptied_category_container_becomes_absent() {
    let mut graph = Graph {
        nodes: vec![
            ext_node("a", "addon1", None, None),
            ext_node("b", "addon2", None, None),
            ext_node("c", "addon3", None, None),
        ],
        connections: Some(vec![GraphConnection {
            loc: loc("b", None),
            cmd: Some(vec![flow("ping", vec![dest("a", None)])]),
            data: Some(vec![flow("bytes", vec![dest("c", None)])]),
            audio_frame: None,
            video_frame: None,
        }]),
    };
    let snapshot = graph_delete_extension_node(
        &mut graph,
        "a".to_string(),
        "addon1".to_string(),
        None,
        None,
    );
    assert!(snapshot.is_some());
    let conns = graph.connections.as_ref().expect("connection should remain");
    assert_eq!(conns.len(), 1);
    assert!(conns[0].cmd.is_none());
    let data = conns[0].data.as_ref().expect("data flows should remain");
    assert_eq!(data, &vec![flow("bytes", vec![dest("c", None)])]);
}

/// A connection whose own source names the target forfeits the whole record,
/// even when it still carries flows to unrelated destinations.
#[test]
fn source_match_drops_whole_connection() {
    let mut graph = Graph {
        nodes: vec![
            ext_node("a", "addon1", None, None),
            ext_node("b", "addon2", None, None),
        ],
        connections: Some(vec![
            GraphConnection {
                loc: loc("a", None),
                cmd: Some(vec![flow("ping", vec![dest("b", None)])]),
                data: None,
                audio_frame: None,
                video_frame: None,
            },
            GraphConnection {
                loc: loc("b", None),
                cmd: Some(vec![flow("pong", vec![dest("b", None)])]),
                data: None,
                audio_frame: None,
                video_frame: None,
            },
        ]),
    };
    let snapshot = graph_delete_extension_node(
        &mut graph,
        "a".to_string(),
        "addon1".to_string(),
        None,
        None,
    );
    assert!(snapshot.is_some());
    let conns = graph.connections.as_ref().expect("b's connection should remain");
    assert_eq!(conns.len(), 1);
    assert_eq!(conns[0].loc, loc("b", None));
}

/// Cascade completeness on concrete values: after the deletion no connection
/// source and no destination anywhere, in any category, names the deleted
/// node with the matching app value.
#[test]
fn no_reference_to_deleted_node_survives() {
    let a_dest = || dest("a", None);
    let mut graph = Graph {
        nodes: vec![
            ext_node("a", "addon1", None, None),
            ext_node("b", "addon2", None, None),
            ext_node("c", "addon3", None, None),
        ],
        connections: Some(vec![
            GraphConnection {
                loc: loc("b", None),
                cmd: Some(vec![
                    flow("f1", vec![a_dest(), dest("c", None)]),
                    flow("f2", vec![a_dest()]),
                ]),
                data: Some(vec![flow("f3", vec![dest("c", None)])]),
                audio_frame: Some(vec![flow("f4", vec![a_dest(), dest("a", Some("app1"))])]),
                video_frame: Some(vec![flow("f5", vec![a_dest(), a_dest()])]),
            },
            GraphConnection {
                loc: loc("c", None),
                cmd: None,
                data: Some(vec![flow("f6", vec![dest("b", None), a_dest()])]),
                audio_frame: None,
                video_frame: None,
            },
        ]),
    };
    let snapshot = graph_delete_extension_node(
        &mut graph,
        "a".to_string(),
        "addon1".to_string(),
        None,
        None,
    );
    assert!(snapshot.is_some());
    let names_target = |l: &GraphLoc| l.extension.as_deref() == Some("a") && l.app.is_none();
    let conns = graph.connections.as_ref().expect("connections should remain");
    for conn in conns {
        assert!(!names_target(&conn.loc));
        for category in [&conn.cmd, &conn.data, &conn.audio_frame, &conn.video_frame] {
            if let Some(flows) = category {
                assert!(!flows.is_empty());
                for f in flows {
                    assert!(!f.dest.is_empty());
                    for d in &f.dest {
                        assert!(!names_target(&d.loc));
                    }
                }
            }
        }
    }
    // The destination bound to a different app survives the cascade.
    let audio = conns[0].audio_frame.as_ref().expect("audio flows should remain");
    assert_eq!(audio, &vec![flow("f4", vec![dest("a", Some("app1"))])]);
}

/// A connection that never carried any flows is pruned once a deletion runs,
/// and an emptied connection list collapses to an absent container.
#[test]
fn empty_connection_is_pruned() {
    let mut graph = Graph {
        nodes: vec![
            ext_node("a", "addon1", None, None),
            ext_node("b", "addon2", None, None),
        ],
        connections: Some(vec![bare_conn("b", None)]),
    };
    let snapshot = graph_delete_extension_node(
        &mut graph,
        "a".to_string(),
        "addon1".to_string(),
        None,
        None,
    );
    assert!(snapshot.is_some());
    assert!(graph.connections.is_none());
}

/// The response payload reports the success flag it was built with.
#[test]
fn response_payload_reports_success() {
    let payload = DeleteGraphNodeResponsePayload { success: true };
    assert!(payload.success);
    assert_eq!(payload, DeleteGraphNodeResponsePayload { success: true });
}

/// One exact expected value for the whole cascade: surviving nodes,
/// connections, flows and destinations keep their relative order, and only
/// the target's references disappear.
#[test]
fn exact_post_deletion_graph() {
    let mut graph = Graph {
        nodes: vec![
            ext_node("a", "addon1", None, None),
            ext_node("b", "addon2", None, None),
            ext_node("c", "addon3", None, None),
        ],
        connections: Some(vec![GraphConnection {
            loc: loc("b", None),
            cmd: Some(vec![
                flow("f1", vec![dest("a", None), dest("c", None)]),
                flow("f2", vec![dest("a", None)]),
            ]),
            data: Some(vec![flow("f3", vec![dest("c", None)])]),
            audio_frame: None,
            video_frame: None,
        }]),
    };
    let snapshot = graph_delete_extension_node(
        &mut graph,
        "a".to_string(),
        "addon1".to_string(),
        None,
        None,
    );
    assert!(snapshot.is_some());
    let expected = Graph {
        nodes: vec![
            ext_node("b", "addon2", None, None),
            ext_node("c", "addon3", None, None),
        ],
        connections: Some(vec![GraphConnection {
            loc: loc("b", None),
            cmd: Some(vec![flow("f1", vec![dest("c", None)])]),
            data: Some(vec![flow("f3", vec![dest("c", None)])]),
            audio_frame: None,
            video_frame: None,
        }]),
    };
    assert_eq!(graph, expected);
}
