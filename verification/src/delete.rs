//! Transactional deletion of extension nodes, with the cascading cleanup of
//! every reference to them.
//!
//! The mathematical model comes first: spec functions that define, category
//! by category, what the graph looks like once a target identity has been
//! deleted.  The executable functions then carry contracts pinning their
//! results to that model.  External structural validation is a capability of
//! the caller: [`graph_delete_extension_node`] mutates the graph and hands
//! back the rollback snapshot, and [`graph_restore`] reinstates the snapshot
//! when the caller's validator rejects the mutated graph.

use vstd::prelude::*;

use crate::graph::lemma_take_succ;
use crate::graph::lemma_vec_push_deep_view;
use crate::graph::ConnView;
use crate::graph::DestView;
use crate::graph::FlowView;
use crate::graph::Graph;
use crate::graph::GraphConnection;
use crate::graph::GraphDestination;
use crate::graph::GraphLoc;
use crate::graph::GraphMessageFlow;
use crate::graph::GraphNode;
use crate::graph::GraphNodeType;
use crate::graph::GraphView;
use crate::graph::LocView;
use crate::graph::NodeView;

verus! {

/// Result payload reported once a deletion request has been carried out.
#[derive(Clone, Copy, PartialEq, Eq, Structural, Debug)]
pub struct DeleteGraphNodeResponsePayload {
    pub success: bool,
}

/// The identity a deletion aims at: extension nodes are matched on all four
/// fields, connection sources and destinations on `name` and `app`.
#[verifier::ext_equal]
pub struct DeleteTarget {
    pub name: Seq<char>,
    pub addon: Seq<char>,
    pub app: Option<Seq<char>>,
    pub extension_group: Option<Seq<char>>,
}

/// The target identity named by the four caller-supplied values.
pub open spec fn target_of(
    name: String,
    addon: String,
    app: Option<String>,
    extension_group: Option<String>,
) -> DeleteTarget {
    DeleteTarget {
        name: name@,
        addon: addon@,
        app: app.deep_view(),
        extension_group: extension_group.deep_view(),
    }
}

/// Whether a node is an extension node with exactly the target identity.
/// `None` fields match only `None`.
pub open spec fn node_matches(n: NodeView, t: DeleteTarget) -> bool {
    &&& n.type_ is Extension
    &&& n.name == t.name
    &&& n.addon == Some(t.addon)
    &&& n.app == t.app
    &&& n.extension_group == t.extension_group
}

/// Whether a location names the target: its extension equals the target name
/// and its app equals the target app, `None` matching only `None`.
pub open spec fn loc_matches(l: LocView, name: Seq<char>, app: Option<Seq<char>>) -> bool {
    l.extension == Some(name) && l.app == app
}

/// The destination list with every destination naming the target removed.
pub open spec fn delete_dests(ds: Seq<DestView>, name: Seq<char>, app: Option<Seq<char>>) -> Seq<DestView>
    decreases ds.len(),
{
    if ds.len() == 0 {
        Seq::empty()
    } else {
        let rest = delete_dests(ds.drop_last(), name, app);
        if loc_matches(ds.last().loc, name, app) {
            rest
        } else {
            rest.push(ds.last())
        }
    }
}

/// One flow after the cascade: its destination list filtered.
pub open spec fn flow_after(f: FlowView, name: Seq<char>, app: Option<Seq<char>>) -> FlowView {
    FlowView { name: f.name, dest: delete_dests(f.dest, name, app) }
}

/// One category's flow list after the cascade: destinations filtered first,
/// then flows left without destinations dropped.
pub open spec fn delete_flows(fs: Seq<FlowView>, name: Seq<char>, app: Option<Seq<char>>) -> Seq<FlowView>
    decreases fs.len(),
{
    if fs.len() == 0 {
        Seq::empty()
    } else {
        let rest = delete_flows(fs.drop_last(), name, app);
        let f = flow_after(fs.last(), name, app);
        if f.dest.len() == 0 {
            rest
        } else {
            rest.push(f)
        }
    }
}

/// One category container after the cascade: a container whose flow list
/// becomes empty is normalized to absent, never left present-but-empty.
pub open spec fn flows_opt_after(
    c: Option<Seq<FlowView>>,
    name: Seq<char>,
    app: Option<Seq<char>>,
) -> Option<Seq<FlowView>> {
    match c {
        None => None,
        Some(fs) => {
            let kept = delete_flows(fs, name, app);
            if kept.len() == 0 {
                None
            } else {
                Some(kept)
            }
        },
    }
}

/// A connection after all four categories have been cascaded independently.
pub open spec fn connection_after(c: ConnView, name: Seq<char>, app: Option<Seq<char>>) -> ConnView {
    ConnView {
        loc: c.loc,
        cmd: flows_opt_after(c.cmd, name, app),
        data: flows_opt_after(c.data, name, app),
        audio_frame: flows_opt_after(c.audio_frame, name, app),
        video_frame: flows_opt_after(c.video_frame, name, app),
    }
}

/// Whether a category container is present with at least one flow.
pub open spec fn flows_present(c: Option<Seq<FlowView>>) -> bool {
    c matches Some(fs) && fs.len() > 0
}

/// Whether a connection still carries any flow in any category and is
/// therefore kept by the pruner.
pub open spec fn connection_kept(c: ConnView) -> bool {
    ||| flows_present(c.cmd)
    ||| flows_present(c.data)
    ||| flows_present(c.audio_frame)
    ||| flows_present(c.video_frame)
}

/// The connection list after the cascade: connections whose own source names
/// the target are dropped whole; the rest are cascaded per category and then
/// dropped if no category keeps any flow.
pub open spec fn delete_connections(cs: Seq<ConnView>, name: Seq<char>, app: Option<Seq<char>>) -> Seq<ConnView>
    decreases cs.len(),
{
    if cs.len() == 0 {
        Seq::empty()
    } else {
        let rest = delete_connections(cs.drop_last(), name, app);
        let c = cs.last();
        if loc_matches(c.loc, name, app) {
            rest
        } else {
            let after = connection_after(c, name, app);
            if connection_kept(after) {
                rest.push(after)
            } else {
                rest
            }
        }
    }
}

/// The connection container after the cascade: an emptied list collapses to
/// absent, never to present-but-empty.
pub open spec fn connections_opt_after(
    cs: Option<Seq<ConnView>>,
    name: Seq<char>,
    app: Option<Seq<char>>,
) -> Option<Seq<ConnView>> {
    match cs {
        None => None,
        Some(v) => {
            let kept = delete_connections(v, name, app);
            if kept.len() == 0 {
                None
            } else {
                Some(kept)
            }
        },
    }
}

/// The node list with every node of the target identity removed.
pub open spec fn delete_nodes(ns: Seq<NodeView>, t: DeleteTarget) -> Seq<NodeView>
    decreases ns.len(),
{
    if ns.len() == 0 {
        Seq::empty()
    } else {
        let rest = delete_nodes(ns.drop_last(), t);
        if node_matches(ns.last(), t) {
            rest
        } else {
            rest.push(ns.last())
        }
    }
}

/// Whether the graph holds at least one node of the target identity.
pub open spec fn graph_has_target(g: GraphView, t: DeleteTarget) -> bool {
    exists|i: int| 0 <= i < g.nodes.len() && node_matches(g.nodes[i], t)
}

/// The whole graph once the target has been deleted: matching nodes removed
/// and every reference to the target cascaded out of the connections.
pub open spec fn graph_after_delete(g: GraphView, t: DeleteTarget) -> GraphView {
    GraphView {
        nodes: delete_nodes(g.nodes, t),
        connections: connections_opt_after(g.connections, t.name, t.app),
    }
}

fn string_opt_eq(a: &Option<String>, b: &Option<String>) -> (r: bool)
    ensures
        r == (a.deep_view() == b.deep_view()),
{
    match (a, b) {
        (Some(x), Some(y)) => *x == *y,
        (None, None) => true,
        _ => false,
    }
}

fn node_is_target(
    n: &GraphNode,
    name: &String,
    addon: &String,
    app: &Option<String>,
    extension_group: &Option<String>,
) -> (r: bool)
    ensures
        r == node_matches(n@, target_of(*name, *addon, *app, *extension_group)),
{
    let type_ok = n.type_ == GraphNodeType::Extension;
    let addon_ok = match &n.addon {
        Some(a) => *a == *addon,
        None => false,
    };
    type_ok && n.name == *name && addon_ok && string_opt_eq(&n.app, app)
        && string_opt_eq(&n.extension_group, extension_group)
}

fn loc_is_target(l: &GraphLoc, name: &String, app: &Option<String>) -> (r: bool)
    ensures
        r == loc_matches(l@, name@, app.deep_view()),
{
    let ext_ok = match &l.extension {
        Some(e) => *e == *name,
        None => false,
    };
    ext_ok && string_opt_eq(&l.app, app)
}

fn graph_has_target_node(
    graph: &Graph,
    name: &String,
    addon: &String,
    app: &Option<String>,
    extension_group: &Option<String>,
) -> (r: bool)
    ensures
        r == graph_has_target(graph@, target_of(*name, *addon, *app, *extension_group)),
{
    let ghost t = target_of(*name, *addon, *app, *extension_group);
    let mut found = false;
    let mut i: usize = 0;
    while i < graph.nodes.len()
        invariant
            i <= graph.nodes.len(),
            t == target_of(*name, *addon, *app, *extension_group),
            found == exists|j: int| 0 <= j < i && #[trigger] node_matches(graph@.nodes[j], t),
        decreases graph.nodes.len() - i,
    {
        if node_is_target(&graph.nodes[i], name, addon, app, extension_group) {
            found = true;
            proof {
                assert(node_matches(graph@.nodes[i as int], t));
            }
        }
        i += 1;
    }
    found
}

fn delete_dests_exec(dest: &Vec<GraphDestination>, name: &String, app: &Option<String>) -> (r: Vec<
    GraphDestination,
>)
    ensures
        r.deep_view() == delete_dests(dest.deep_view(), name@, app.deep_view()),
{
    let mut r: Vec<GraphDestination> = Vec::new();
    let mut i: usize = 0;
    while i < dest.len()
        invariant
            i <= dest.len(),
            r.deep_view() =~= delete_dests(dest.deep_view().take(i as int), name@, app.deep_view()),
        decreases dest.len() - i,
    {
        proof {
            lemma_take_succ(dest.deep_view(), i as int);
        }
        let d = &dest[i];
        if !loc_is_target(&d.loc, name, app) {
            let c = d.clone();
            let ghost cg = c;
            let ghost pre = r;
            r.push(c);
            proof {
                assert(cg.deep_view() == dest.deep_view()[i as int]);
                lemma_vec_push_deep_view(pre, r, cg);
            }
        }
        i += 1;
    }
    proof {
        assert(dest.deep_view().take(dest.len() as int) =~= dest.deep_view());
    }
    r
}

fn delete_flows_exec(flows: &Vec<GraphMessageFlow>, name: &String, app: &Option<String>) -> (r: Vec<
    GraphMessageFlow,
>)
    ensures
        r.deep_view() == delete_flows(flows.deep_view(), name@, app.deep_view()),
{
    let mut r: Vec<GraphMessageFlow> = Vec::new();
    let mut i: usize = 0;
    while i < flows.len()
        invariant
            i <= flows.len(),
            r.deep_view() =~= delete_flows(flows.deep_view().take(i as int), name@, app.deep_view()),
        decreases flows.len() - i,
    {
        proof {
            lemma_take_succ(flows.deep_view(), i as int);
        }
        let f = &flows[i];
        let kept_dest = delete_dests_exec(&f.dest, name, app);
        if kept_dest.len() > 0 {
            let kept_flow = GraphMessageFlow { name: f.name.clone(), dest: kept_dest };
            let ghost kg = kept_flow;
            let ghost pre = r;
            proof {
                assert(kg.deep_view() == flow_after(flows.deep_view()[i as int], name@, app.deep_view()));
            }
            r.push(kept_flow);
            proof {
                lemma_vec_push_deep_view(pre, r, kg);
            }
        }
        i += 1;
    }
    proof {
        assert(flows.deep_view().take(flows.len() as int) =~= flows.deep_view());
    }
    r
}

fn flows_opt_after_exec(
    flows: &Option<Vec<GraphMessageFlow>>,
    name: &String,
    app: &Option<String>,
) -> (r: Option<Vec<GraphMessageFlow>>)
    ensures
        r.deep_view() == flows_opt_after(flows.deep_view(), name@, app.deep_view()),
{
    match flows {
        None => None,
        Some(fs) => {
            let kept = delete_flows_exec(fs, name, app);
            if kept.len() == 0 {
                None
            } else {
                Some(kept)
            }
        },
    }
}

fn connection_after_exec(conn: &GraphConnection, name: &String, app: &Option<String>) -> (r:
    GraphConnection)
    ensures
        r@ == connection_after(conn@, name@, app.deep_view()),
{
    GraphConnection {
        loc: conn.loc.clone(),
        cmd: flows_opt_after_exec(&conn.cmd, name, app),
        data: flows_opt_after_exec(&conn.data, name, app),
        audio_frame: flows_opt_after_exec(&conn.audio_frame, name, app),
        video_frame: flows_opt_after_exec(&conn.video_frame, name, app),
    }
}

fn connection_has_flows(conn: &GraphConnection) -> (r: bool)
    ensures
        r == connection_kept(conn@),
{
    let has_cmd = match &conn.cmd {
        Some(fs) => fs.len() > 0,
        None => false,
    };
    let has_data = match &conn.data {
        Some(fs) => fs.len() > 0,
        None => false,
    };
    let has_audio = match &conn.audio_frame {
        Some(fs) => fs.len() > 0,
        None => false,
    };
    let has_video = match &conn.video_frame {
        Some(fs) => fs.len() > 0,
        None => false,
    };
    has_cmd || has_data || has_audio || has_video
}

fn delete_connections_exec(conns: &Vec<GraphConnection>, name: &String, app: &Option<String>) -> (r:
    Vec<GraphConnection>)
    ensures
        r.deep_view() == delete_connections(conns.deep_view(), name@, app.deep_view()),
{
    let mut r: Vec<GraphConnection> = Vec::new();
    let mut i: usize = 0;
    while i < conns.len()
        invariant
            i <= conns.len(),
            r.deep_view() =~= delete_connections(
                conns.deep_view().take(i as int),
                name@,
                app.deep_view(),
            ),
        decreases conns.len() - i,
    {
        proof {
            lemma_take_succ(conns.deep_view(), i as int);
        }
        let conn = &conns[i];
        if !loc_is_target(&conn.loc, name, app) {
            let after = connection_after_exec(conn, name, app);
            if connection_has_flows(&after) {
                let ghost ag = after;
                let ghost pre = r;
                r.push(after);
                proof {
                    lemma_vec_push_deep_view(pre, r, ag);
                }
            }
        }
        i += 1;
    }
    proof {
        assert(conns.deep_view().take(conns.len() as int) =~= conns.deep_view());
    }
    r
}

fn remove_target_nodes(
    graph: &mut Graph,
    name: &String,
    addon: &String,
    app: &Option<String>,
    extension_group: &Option<String>,
)
    ensures
        final(graph)@.nodes == delete_nodes(
            old(graph)@.nodes,
            target_of(*name, *addon, *app, *extension_group),
        ),
        final(graph)@.connections == old(graph)@.connections,
{
    let ghost t = target_of(*name, *addon, *app, *extension_group);
    let mut kept: Vec<GraphNode> = Vec::new();
    let mut i: usize = 0;
    while i < graph.nodes.len()
        invariant
            i <= graph.nodes.len(),
            t == target_of(*name, *addon, *app, *extension_group),
            kept.deep_view() =~= delete_nodes(graph@.nodes.take(i as int), t),
        decreases graph.nodes.len() - i,
    {
        proof {
            lemma_take_succ(graph@.nodes, i as int);
        }
        let node = &graph.nodes[i];
        if !node_is_target(node, name, addon, app, extension_group) {
            let c = node.clone();
            let ghost cg = c;
            let ghost pre = kept;
            kept.push(c);
            proof {
                assert(cg.deep_view() == graph@.nodes[i as int]);
                lemma_vec_push_deep_view(pre, kept, cg);
            }
        }
        i += 1;
    }
    proof {
        assert(graph@.nodes.take(graph.nodes.len() as int) =~= graph@.nodes);
    }
    graph.nodes = kept;
}

fn prune_connections(graph: &mut Graph, name: &String, app: &Option<String>)
    ensures
        final(graph)@.connections == connections_opt_after(
            old(graph)@.connections,
            name@,
            app.deep_view(),
        ),
        final(graph)@.nodes == old(graph)@.nodes,
{
    let kept = match &graph.connections {
        None => None,
        Some(conns) => {
            let kept = delete_connections_exec(conns, name, app);
            if kept.len() == 0 {
                None
            } else {
                Some(kept)
            }
        },
    };
    graph.connections = kept;
}

/// Deletes every extension node with the given identity and cascades the
/// removal through all connections, in place.
///
/// When no node matches, the graph is left untouched and no snapshot is
/// returned: the operation is a successful no-op and nothing remains to be
/// validated.  When at least one node matches, the graph becomes the
/// cascaded candidate and the returned snapshot equals the pre-call graph;
/// the caller must run its external structural validator on the mutated
/// graph and, on rejection, hand the snapshot to [`graph_restore`].
pub fn graph_delete_extension_node(
    graph: &mut Graph,
    pkg_name: String,
    addon: String,
    app: Option<String>,
    extension_group: Option<String>,
) -> (snapshot: Option<Graph>)
    ensures
        ({
            let t = target_of(pkg_name, addon, app, extension_group);
            let g0 = old(graph)@;
            &&& (snapshot is Some) == graph_has_target(g0, t)
            &&& (snapshot matches Some(s) ==> s@ == g0 && final(graph)@ == graph_after_delete(
                g0,
                t,
            ))
            &&& (snapshot is None ==> final(graph)@ == g0)
        }),
{
    if !graph_has_target_node(graph, &pkg_name, &addon, &app, &extension_group) {
        return None;
    }
    let snapshot = graph.clone();
    remove_target_nodes(graph, &pkg_name, &addon, &app, &extension_group);
    prune_connections(graph, &pkg_name, &app);
    Some(snapshot)
}

/// Restores the rollback snapshot, making the live graph deep-equal to the
/// graph as it stood before the failed deletion.
pub fn graph_restore(graph: &mut Graph, snapshot: Graph)
    ensures
        final(graph)@ == snapshot@,
{
    *graph = snapshot;
}

} // verus!
