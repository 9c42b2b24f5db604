//! Graph-wide guarantees of a deletion, stated over the model and proved for
//! every graph and every target identity.

use vstd::prelude::*;

use crate::delete::connection_after;
use crate::delete::delete_connections;
use crate::delete::delete_dests;
use crate::delete::delete_flows;
use crate::delete::delete_nodes;
use crate::delete::flows_opt_after;
use crate::delete::graph_after_delete;
use crate::delete::graph_has_target;
use crate::delete::loc_matches;
use crate::delete::node_matches;
use crate::delete::DeleteTarget;
use crate::graph::ConnView;
use crate::graph::DestView;
use crate::graph::FlowView;
use crate::graph::GraphView;
use crate::graph::NodeView;

verus! {

/// No destination in the list names the target.
pub open spec fn dests_clean(ds: Seq<DestView>, name: Seq<char>, app: Option<Seq<char>>) -> bool {
    forall|j: int| 0 <= j < ds.len() ==> !loc_matches((#[trigger] ds[j]).loc, name, app)
}

/// No destination of any flow in the list names the target.
pub open spec fn flows_clean(fs: Seq<FlowView>, name: Seq<char>, app: Option<Seq<char>>) -> bool {
    forall|i: int| 0 <= i < fs.len() ==> dests_clean((#[trigger] fs[i]).dest, name, app)
}

/// No destination of any flow in the category container names the target.
pub open spec fn flows_opt_clean(
    c: Option<Seq<FlowView>>,
    name: Seq<char>,
    app: Option<Seq<char>>,
) -> bool {
    c matches Some(fs) ==> flows_clean(fs, name, app)
}

/// Neither the connection's own source nor any destination it carries, in
/// any of the four categories, names the target.
pub open spec fn connection_clean(c: ConnView, name: Seq<char>, app: Option<Seq<char>>) -> bool {
    &&& !loc_matches(c.loc, name, app)
    &&& flows_opt_clean(c.cmd, name, app)
    &&& flows_opt_clean(c.data, name, app)
    &&& flows_opt_clean(c.audio_frame, name, app)
    &&& flows_opt_clean(c.video_frame, name, app)
}

/// Every connection in the list is clean of the target.
pub open spec fn connections_clean(cs: Seq<ConnView>, name: Seq<char>, app: Option<Seq<char>>) -> bool {
    forall|i: int| 0 <= i < cs.len() ==> connection_clean(#[trigger] cs[i], name, app)
}

/// Nothing anywhere in the graph's connections names the target, neither as
/// a connection source nor as a destination.
pub open spec fn graph_clean(g: GraphView, name: Seq<char>, app: Option<Seq<char>>) -> bool {
    g.connections matches Some(cs) ==> connections_clean(cs, name, app)
}

proof fn lemma_delete_dests_clean(ds: Seq<DestView>, name: Seq<char>, app: Option<Seq<char>>)
    ensures
        dests_clean(delete_dests(ds, name, app), name, app),
    decreases ds.len(),
{
    if ds.len() > 0 {
        lemma_delete_dests_clean(ds.drop_last(), name, app);
    }
}

proof fn lemma_delete_flows_clean(fs: Seq<FlowView>, name: Seq<char>, app: Option<Seq<char>>)
    ensures
        flows_clean(delete_flows(fs, name, app), name, app),
    decreases fs.len(),
{
    if fs.len() > 0 {
        lemma_delete_flows_clean(fs.drop_last(), name, app);
        lemma_delete_dests_clean(fs.last().dest, name, app);
    }
}

proof fn lemma_flows_opt_after_clean(
    c: Option<Seq<FlowView>>,
    name: Seq<char>,
    app: Option<Seq<char>>,
)
    ensures
        flows_opt_clean(flows_opt_after(c, name, app), name, app),
{
    match c {
        Some(fs) => lemma_delete_flows_clean(fs, name, app),
        None => {},
    }
}

proof fn lemma_connection_after_clean(c: ConnView, name: Seq<char>, app: Option<Seq<char>>)
    requires
        !loc_matches(c.loc, name, app),
    ensures
        connection_clean(connection_after(c, name, app), name, app),
{
    lemma_flows_opt_after_clean(c.cmd, name, app);
    lemma_flows_opt_after_clean(c.data, name, app);
    lemma_flows_opt_after_clean(c.audio_frame, name, app);
    lemma_flows_opt_after_clean(c.video_frame, name, app);
}

proof fn lemma_delete_connections_clean(cs: Seq<ConnView>, name: Seq<char>, app: Option<Seq<char>>)
    ensures
        connections_clean(delete_connections(cs, name, app), name, app),
    decreases cs.len(),
{
    if cs.len() > 0 {
        lemma_delete_connections_clean(cs.drop_last(), name, app);
        let c = cs.last();
        if !loc_matches(c.loc, name, app) {
            lemma_connection_after_clean(c, name, app);
        }
    }
}

/// Cascade completeness: after a deletion, nothing in the graph's
/// connections still names the deleted identity — no connection source and
/// no destination, in any category, carries the target's name with the
/// target's app value.
pub proof fn lemma_cascade_completeness(g: GraphView, t: DeleteTarget)
    ensures
        graph_clean(graph_after_delete(g, t), t.name, t.app),
{
    match g.connections {
        Some(cs) => lemma_delete_connections_clean(cs, t.name, t.app),
        None => {},
    }
}

/// Every flow in the list reaches at least one destination.
pub open spec fn flows_all_nonempty(fs: Seq<FlowView>) -> bool {
    forall|i: int| 0 <= i < fs.len() ==> (#[trigger] fs[i]).dest.len() > 0
}

/// Every flow in the category container reaches at least one destination,
/// and the container itself is never present-but-empty.
pub open spec fn flows_opt_normalized(c: Option<Seq<FlowView>>) -> bool {
    c matches Some(fs) ==> fs.len() > 0 && flows_all_nonempty(fs)
}

/// All four category containers of the connection are normalized.
pub open spec fn connection_normalized(c: ConnView) -> bool {
    &&& flows_opt_normalized(c.cmd)
    &&& flows_opt_normalized(c.data)
    &&& flows_opt_normalized(c.audio_frame)
    &&& flows_opt_normalized(c.video_frame)
}

/// Every connection in the list is normalized in every category.
pub open spec fn connections_all_normalized(cs: Seq<ConnView>) -> bool {
    forall|i: int| 0 <= i < cs.len() ==> connection_normalized(#[trigger] cs[i])
}

/// The graph's connection container is absent rather than present-but-empty,
/// and every remaining connection is normalized in every category.
pub open spec fn graph_normalized(g: GraphView) -> bool {
    g.connections matches Some(cs) ==> cs.len() > 0 && connections_all_normalized(cs)
}

proof fn lemma_delete_flows_normalized(fs: Seq<FlowView>, name: Seq<char>, app: Option<Seq<char>>)
    ensures
        flows_all_nonempty(delete_flows(fs, name, app)),
    decreases fs.len(),
{
    if fs.len() > 0 {
        lemma_delete_flows_normalized(fs.drop_last(), name, app);
    }
}

proof fn lemma_connection_after_normalized(c: ConnView, name: Seq<char>, app: Option<Seq<char>>)
    ensures
        connection_normalized(connection_after(c, name, app)),
{
    if let Some(fs) = c.cmd {
        lemma_delete_flows_normalized(fs, name, app);
    }
    if let Some(fs) = c.data {
        lemma_delete_flows_normalized(fs, name, app);
    }
    if let Some(fs) = c.audio_frame {
        lemma_delete_flows_normalized(fs, name, app);
    }
    if let Some(fs) = c.video_frame {
        lemma_delete_flows_normalized(fs, name, app);
    }
}

proof fn lemma_delete_connections_normalized(
    cs: Seq<ConnView>,
    name: Seq<char>,
    app: Option<Seq<char>>,
)
    ensures
        connections_all_normalized(delete_connections(cs, name, app)),
    decreases cs.len(),
{
    if cs.len() > 0 {
        lemma_delete_connections_normalized(cs.drop_last(), name, app);
        let c = cs.last();
        if !loc_matches(c.loc, name, app) {
            lemma_connection_after_normalized(c, name, app);
        }
    }
}

/// Normalization: after a deletion no category container anywhere is
/// present-but-empty, every remaining flow still reaches a destination, and
/// the connection container collapses to absent when no connection remains.
pub proof fn lemma_delete_normalizes(g: GraphView, t: DeleteTarget)
    ensures
        graph_normalized(graph_after_delete(g, t)),
{
    match g.connections {
        Some(cs) => lemma_delete_connections_normalized(cs, t.name, t.app),
        None => {},
    }
}

/// No node in the list has the target identity.
pub open spec fn nodes_none_match(ns: Seq<NodeView>, t: DeleteTarget) -> bool {
    forall|i: int| 0 <= i < ns.len() ==> !node_matches(#[trigger] ns[i], t)
}

proof fn lemma_delete_nodes_complete(ns: Seq<NodeView>, t: DeleteTarget)
    ensures
        nodes_none_match(delete_nodes(ns, t), t),
    decreases ns.len(),
{
    if ns.len() > 0 {
        lemma_delete_nodes_complete(ns.drop_last(), t);
    }
}

/// Idempotence of the no-op path: a deletion removes every node of the
/// target identity, so repeating it with the same identity finds no node and
/// is the successful no-op that leaves the graph untouched.
pub proof fn lemma_second_delete_is_noop(g: GraphView, t: DeleteTarget)
    ensures
        !graph_has_target(graph_after_delete(g, t), t),
{
    lemma_delete_nodes_complete(g.nodes, t);
}

} // verus!
