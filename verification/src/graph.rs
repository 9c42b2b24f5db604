//! The in-memory graph model: nodes, connections, message flows and
//! destinations, together with their mathematical views and deep,
//! view-preserving clones.

use vstd::prelude::*;

verus! {

/// The kind of participant a node is; only extension nodes take part in the
/// deletion flow.
#[derive(Clone, Copy, PartialEq, Eq, Structural, Debug)]
pub enum GraphNodeType {
    Extension,
    Subgraph,
    Selector,
}

/// An `(extension, app)` pair locating a graph participant.
#[derive(Debug, PartialEq, Eq)]
pub struct GraphLoc {
    pub extension: Option<String>,
    pub app: Option<String>,
}

/// A receiving endpoint of a message flow.
#[derive(Debug, PartialEq, Eq)]
pub struct GraphDestination {
    pub loc: GraphLoc,
}

/// A named group of destinations for one message category.
#[derive(Debug, PartialEq, Eq)]
pub struct GraphMessageFlow {
    pub name: String,
    pub dest: Vec<GraphDestination>,
}

/// An edge record: a source location plus up to four optional categories of
/// message flows.
#[derive(Debug, PartialEq, Eq)]
pub struct GraphConnection {
    pub loc: GraphLoc,
    pub cmd: Option<Vec<GraphMessageFlow>>,
    pub data: Option<Vec<GraphMessageFlow>>,
    pub audio_frame: Option<Vec<GraphMessageFlow>>,
    pub video_frame: Option<Vec<GraphMessageFlow>>,
}

/// A participant in the graph, identified (for extension nodes) by its
/// `name`, `addon`, `app` and `extension_group` fields.
#[derive(Debug, PartialEq, Eq)]
pub struct GraphNode {
    pub type_: GraphNodeType,
    pub name: String,
    pub addon: Option<String>,
    pub extension_group: Option<String>,
    pub app: Option<String>,
}

/// A message-flow graph: an ordered node list and an optional ordered
/// connection list.  An absent connection list and an empty present one are
/// semantically different values.
#[derive(Debug, PartialEq, Eq)]
pub struct Graph {
    pub nodes: Vec<GraphNode>,
    pub connections: Option<Vec<GraphConnection>>,
}

/// Mathematical value of a [`GraphLoc`].
#[verifier::ext_equal]
pub struct LocView {
    pub extension: Option<Seq<char>>,
    pub app: Option<Seq<char>>,
}

/// Mathematical value of a [`GraphDestination`].
#[verifier::ext_equal]
pub struct DestView {
    pub loc: LocView,
}

/// Mathematical value of a [`GraphMessageFlow`].
#[verifier::ext_equal]
pub struct FlowView {
    pub name: Seq<char>,
    pub dest: Seq<DestView>,
}

/// Mathematical value of a [`GraphConnection`].
#[verifier::ext_equal]
pub struct ConnView {
    pub loc: LocView,
    pub cmd: Option<Seq<FlowView>>,
    pub data: Option<Seq<FlowView>>,
    pub audio_frame: Option<Seq<FlowView>>,
    pub video_frame: Option<Seq<FlowView>>,
}

/// Mathematical value of a [`GraphNode`].
#[verifier::ext_equal]
pub struct NodeView {
    pub type_: GraphNodeType,
    pub name: Seq<char>,
    pub addon: Option<Seq<char>>,
    pub extension_group: Option<Seq<char>>,
    pub app: Option<Seq<char>>,
}

/// Mathematical value of a [`Graph`]: every field of every reachable value,
/// so equality of views is field-for-field deep equality of graphs.
#[verifier::ext_equal]
pub struct GraphView {
    pub nodes: Seq<NodeView>,
    pub connections: Option<Seq<ConnView>>,
}

impl View for GraphLoc {
    type V = LocView;

    open spec fn view(&self) -> LocView {
        LocView { extension: self.extension.deep_view(), app: self.app.deep_view() }
    }
}

impl DeepView for GraphLoc {
    type V = LocView;

    open spec fn deep_view(&self) -> LocView {
        self.view()
    }
}

impl View for GraphDestination {
    type V = DestView;

    open spec fn view(&self) -> DestView {
        DestView { loc: self.loc@ }
    }
}

impl DeepView for GraphDestination {
    type V = DestView;

    open spec fn deep_view(&self) -> DestView {
        self.view()
    }
}

impl View for GraphMessageFlow {
    type V = FlowView;

    open spec fn view(&self) -> FlowView {
        FlowView { name: self.name@, dest: self.dest.deep_view() }
    }
}

impl DeepView for GraphMessageFlow {
    type V = FlowView;

    open spec fn deep_view(&self) -> FlowView {
        self.view()
    }
}

impl View for GraphConnection {
    type V = ConnView;

    open spec fn view(&self) -> ConnView {
        ConnView {
            loc: self.loc@,
            cmd: self.cmd.deep_view(),
            data: self.data.deep_view(),
            audio_frame: self.audio_frame.deep_view(),
            video_frame: self.video_frame.deep_view(),
        }
    }
}

impl DeepView for GraphConnection {
    type V = ConnView;

    open spec fn deep_view(&self) -> ConnView {
        self.view()
    }
}

impl View for GraphNode {
    type V = NodeView;

    open spec fn view(&self) -> NodeView {
        NodeView {
            type_: self.type_,
            name: self.name@,
            addon: self.addon.deep_view(),
            extension_group: self.extension_group.deep_view(),
            app: self.app.deep_view(),
        }
    }
}

impl DeepView for GraphNode {
    type V = NodeView;

    open spec fn deep_view(&self) -> NodeView {
        self.view()
    }
}

impl View for Graph {
    type V = GraphView;

    open spec fn view(&self) -> GraphView {
        GraphView { nodes: self.nodes.deep_view(), connections: self.connections.deep_view() }
    }
}

impl DeepView for Graph {
    type V = GraphView;

    open spec fn deep_view(&self) -> GraphView {
        self.view()
    }
}

/// Pushing onto a vector appends the element's view to the vector's deep view.
pub(crate) proof fn lemma_vec_push_deep_view<T: DeepView>(pre: Vec<T>, post: Vec<T>, x: T)
    requires
        post@ == pre@.push(x),
    ensures
        post.deep_view() =~= pre.deep_view().push(x.deep_view()),
{
}

/// Extending a prefix by one element appends that element.
pub(crate) proof fn lemma_take_succ<A>(s: Seq<A>, i: int)
    requires
        0 <= i < s.len(),
    ensures
        s.take(i + 1) =~= s.take(i).push(s[i]),
        s.take(i + 1).drop_last() =~= s.take(i),
        s.take(i + 1).last() == s[i],
{
}

fn clone_opt_string(s: &Option<String>) -> (res: Option<String>)
    ensures
        res.deep_view() == s.deep_view(),
{
    match s {
        Some(v) => Some(v.clone()),
        None => None,
    }
}

impl Clone for GraphLoc {
    fn clone(&self) -> (res: Self)
        ensures
            res@ == self@,
    {
        GraphLoc {
            extension: clone_opt_string(&self.extension),
            app: clone_opt_string(&self.app),
        }
    }
}

impl Clone for GraphDestination {
    fn clone(&self) -> (res: Self)
        ensures
            res@ == self@,
    {
        GraphDestination { loc: self.loc.clone() }
    }
}

fn clone_dest_vec(v: &Vec<GraphDestination>) -> (res: Vec<GraphDestination>)
    ensures
        res.deep_view() == v.deep_view(),
{
    let mut res: Vec<GraphDestination> = Vec::new();
    let mut i: usize = 0;
    while i < v.len()
        invariant
            i <= v.len(),
            res.deep_view() =~= v.deep_view().take(i as int),
        decreases v.len() - i,
    {
        let c = v[i].clone();
        let ghost cg = c;
        let ghost pre = res;
        res.push(c);
        proof {
            assert(cg.deep_view() == v.deep_view()[i as int]);
            lemma_vec_push_deep_view(pre, res, cg);
            lemma_take_succ(v.deep_view(), i as int);
        }
        i += 1;
    }
    proof {
        assert(v.deep_view().take(v.len() as int) =~= v.deep_view());
    }
    res
}

impl Clone for GraphMessageFlow {
    fn clone(&self) -> (res: Self)
        ensures
            res@ == self@,
    {
        GraphMessageFlow { name: self.name.clone(), dest: clone_dest_vec(&self.dest) }
    }
}

fn clone_flow_vec(v: &Vec<GraphMessageFlow>) -> (res: Vec<GraphMessageFlow>)
    ensures
        res.deep_view() == v.deep_view(),
{
    let mut res: Vec<GraphMessageFlow> = Vec::new();
    let mut i: usize = 0;
    while i < v.len()
        invariant
            i <= v.len(),
            res.deep_view() =~= v.deep_view().take(i as int),
        decreases v.len() - i,
    {
        let c = v[i].clone();
        let ghost cg = c;
        let ghost pre = res;
        res.push(c);
        proof {
            assert(cg.deep_view() == v.deep_view()[i as int]);
            lemma_vec_push_deep_view(pre, res, cg);
            lemma_take_succ(v.deep_view(), i as int);
        }
        i += 1;
    }
    proof {
        assert(v.deep_view().take(v.len() as int) =~= v.deep_view());
    }
    res
}

fn clone_opt_flow_vec(v: &Option<Vec<GraphMessageFlow>>) -> (res: Option<Vec<GraphMessageFlow>>)
    ensures
        res.deep_view() == v.deep_view(),
{
    match v {
        Some(flows) => Some(clone_flow_vec(flows)),
        None => None,
    }
}

impl Clone for GraphConnection {
    fn clone(&self) -> (res: Self)
        ensures
            res@ == self@,
    {
        GraphConnection {
            loc: self.loc.clone(),
            cmd: clone_opt_flow_vec(&self.cmd),
            data: clone_opt_flow_vec(&self.data),
            audio_frame: clone_opt_flow_vec(&self.audio_frame),
            video_frame: clone_opt_flow_vec(&self.video_frame),
        }
    }
}

impl Clone for GraphNode {
    fn clone(&self) -> (res: Self)
        ensures
            res@ == self@,
    {
        GraphNode {
            type_: self.type_,
            name: self.name.clone(),
            addon: clone_opt_string(&self.addon),
            extension_group: clone_opt_string(&self.extension_group),
            app: clone_opt_string(&self.app),
        }
    }
}

fn clone_node_vec(v: &Vec<GraphNode>) -> (res: Vec<GraphNode>)
    ensures
        res.deep_view() == v.deep_view(),
{
    let mut res: Vec<GraphNode> = Vec::new();
    let mut i: usize = 0;
    while i < v.len()
        invariant
            i <= v.len(),
            res.deep_view() =~= v.deep_view().take(i as int),
        decreases v.len() - i,
    {
        let c = v[i].clone();
        let ghost cg = c;
        let ghost pre = res;
        res.push(c);
        proof {
            assert(cg.deep_view() == v.deep_view()[i as int]);
            lemma_vec_push_deep_view(pre, res, cg);
            lemma_take_succ(v.deep_view(), i as int);
        }
        i += 1;
    }
    proof {
        assert(v.deep_view().take(v.len() as int) =~= v.deep_view());
    }
    res
}

fn clone_conn_vec(v: &Vec<GraphConnection>) -> (res: Vec<GraphConnection>)
    ensures
        res.deep_view() == v.deep_view(),
{
    let mut res: Vec<GraphConnection> = Vec::new();
    let mut i: usize = 0;
    while i < v.len()
        invariant
            i <= v.len(),
            res.deep_view() =~= v.deep_view().take(i as int),
        decreases v.len() - i,
    {
        let c = v[i].clone();
        let ghost cg = c;
        let ghost pre = res;
        res.push(c);
        proof {
            assert(cg.deep_view() == v.deep_view()[i as int]);
            lemma_vec_push_deep_view(pre, res, cg);
            lemma_take_succ(v.deep_view(), i as int);
        }
        i += 1;
    }
    proof {
        assert(v.deep_view().take(v.len() as int) =~= v.deep_view());
    }
    res
}

impl Clone for Graph {
    /// A true deep copy: the clone's view equals the original's view, so the
    /// clone can serve as a rollback snapshot.
    fn clone(&self) -> (res: Self)
        ensures
            res@ == self@,
    {
        let connections = match &self.connections {
            Some(conns) => Some(clone_conn_vec(conns)),
            None => None,
        };
        Graph { nodes: clone_node_vec(&self.nodes), connections }
    }
}

} // verus!
