//! The graph and its storage interface.
//!
//! A [`Graph`] owns nodes, each under an identifier that the store assigns,
//! and directed edges between them. Contracts speak of a store through its
//! view, a [`GraphView`]: the map from identifiers to nodes and the set of
//! edges. [`PetgraphGraph`] is the in-memory store.

use crate::shapes::Circle;
use petgraph::stable_graph::NodeIndex as PetgraphNodeIndex;
use petgraph::stable_graph::StableGraph;
use petgraph::Directed;
use vstd::multiset::Multiset;
use vstd::prelude::*;

verus! {

/// The identifier of a node. The store that holds the node assigns it, and
/// it names that node until the node is removed.
pub type NodeIndex = usize;

/// A node of the diagram: a circle in the world and a title.
#[derive(Debug)]
pub struct Node {
    pub circle: Circle,
    pub title: String,
}

/// What a [`Node`] is to a contract: its circle and the characters of its
/// title.
pub struct NodeView {
    pub circle: Circle,
    pub title: Seq<char>,
}

impl View for Node {
    type V = NodeView;

    open spec fn view(&self) -> NodeView {
        NodeView { circle: self.circle, title: self.title@ }
    }
}

impl Node {
    /// The node with the given circle, whose radius is positive, and title.
    pub fn new(circle: Circle, title: String) -> (node: Node)
        requires
            circle.wf(),
        ensures
            node@ == (NodeView { circle, title: title@ }),
            node.wf(),
    {
        Node { circle, title }
    }

    /// A node's circle has a positive radius.
    pub open spec fn wf(&self) -> bool {
        self.circle.wf()
    }
}

impl NodeView {
    /// A node's circle has a positive radius.
    pub open spec fn wf(self) -> bool {
        self.circle.wf()
    }
}

impl Clone for Node {
    fn clone(&self) -> (node: Node)
        ensures
            node@ == self@,
    {
        Node { circle: self.circle, title: self.title.clone() }
    }
}

impl PartialEq for Node {
    fn eq(&self, other: &Node) -> (equal: bool) {
        self.circle == other.circle && self.title == other.title
    }
}

impl vstd::std_specs::cmp::PartialEqSpecImpl for Node {
    open spec fn obeys_eq_spec() -> bool {
        true
    }

    open spec fn eq_spec(&self, other: &Node) -> bool {
        self@ == other@
    }
}

/// Why a store refused an operation.
#[derive(Clone, Copy, Debug, PartialEq, Eq, Structural)]
pub enum GraphError {
    /// The operation named a node that the store does not hold.
    NotFound,
    /// The store could not be reached.
    BackendUnavailable,
}

/// What a store holds: its nodes by identifier, and its edges as ordered
/// pairs of identifiers.
#[verifier::ext_equal]
pub struct GraphView {
    pub nodes: Map<NodeIndex, NodeView>,
    pub edges: Set<(NodeIndex, NodeIndex)>,
}

impl GraphView {
    /// The graph with no node and no edge.
    pub open spec fn empty() -> GraphView {
        GraphView { nodes: Map::empty(), edges: Set::empty() }
    }

    /// The graph has finitely many nodes, each with a circle of positive
    /// radius, and every edge joins two nodes of the graph.
    pub open spec fn wf(self) -> bool {
        &&& self.nodes.dom().finite()
        &&& self.nodes_wf()
        &&& self.edges_joined()
    }

    /// Every edge joins two nodes of the graph.
    pub open spec fn edges_joined(self) -> bool {
        forall|from: NodeIndex, to: NodeIndex| #[trigger]
            self.edges.contains((from, to)) ==> self.contains(from) && self.contains(to)
    }

    /// Whether `index` names a node of the graph.
    pub open spec fn contains(self, index: NodeIndex) -> bool {
        self.nodes.dom().contains(index)
    }

    /// Every node of the graph has a circle of positive radius.
    pub open spec fn nodes_wf(self) -> bool {
        forall|index: NodeIndex| #[trigger] self.contains(index) ==> self.nodes[index].wf()
    }

    /// The graph with `node` under `index`, in place of what was there.
    pub open spec fn with_node(self, index: NodeIndex, node: NodeView) -> GraphView {
        GraphView { nodes: self.nodes.insert(index, node), edges: self.edges }
    }

    /// The graph without the node `index` and without every edge that
    /// starts or ends there.
    pub open spec fn without_node(self, index: NodeIndex) -> GraphView {
        GraphView {
            nodes: self.nodes.remove(index),
            edges: self.edges.filter(|e: (NodeIndex, NodeIndex)| e.0 != index && e.1 != index),
        }
    }

    /// The graph with an edge from `from` to `to`. An edge that is already
    /// there is not added again.
    pub open spec fn with_edge(self, from: NodeIndex, to: NodeIndex) -> GraphView {
        GraphView { nodes: self.nodes, edges: self.edges.insert((from, to)) }
    }

    /// The nodes that an edge leads to from `index`.
    pub open spec fn neighbors(self, index: NodeIndex) -> Set<NodeIndex> {
        Set::new(|to: NodeIndex| self.edges.contains((index, to)))
    }
}

/// Whether a store may answer an operation with `error`, where `found` says
/// that every node the operation names is in the store and `available` that
/// the store can always be reached.
pub open spec fn may_fail_with(error: GraphError, found: bool, available: bool) -> bool {
    match error {
        GraphError::NotFound => !found,
        GraphError::BackendUnavailable => !available,
    }
}

/// What holds after `add_edge(from, to)`: the edge is in the graph, once, or
/// the call failed and the graph is as it was.
pub open spec fn add_edge_outcome(
    before: GraphView,
    from: NodeIndex,
    to: NodeIndex,
    after: GraphView,
    result: Result<(), GraphError>,
    available: bool,
) -> bool {
    match result {
        Ok(_) => {
            &&& before.contains(from)
            &&& before.contains(to)
            &&& after == before.with_edge(from, to)
        },
        Err(error) => {
            &&& after == before
            &&& may_fail_with(error, before.contains(from) && before.contains(to), available)
        },
    }
}

/// What holds after `add_node(node)`: the node is in the graph under an
/// identifier that named no node, or the call failed and the graph is as it
/// was.
pub open spec fn add_node_outcome(
    before: GraphView,
    node: NodeView,
    after: GraphView,
    result: Result<NodeIndex, GraphError>,
    available: bool,
) -> bool {
    match result {
        Ok(index) => !before.contains(index) && after == before.with_node(index, node),
        Err(error) => after == before && may_fail_with(error, true, available),
    }
}

/// What holds after `add_node_with_edge(from, node)`: the node is in the
/// graph under an identifier that named no node, with an edge from `from` to
/// it, or the call failed and the graph is as it was. Nothing in between is
/// left behind.
pub open spec fn add_node_with_edge_outcome(
    before: GraphView,
    from: NodeIndex,
    node: NodeView,
    after: GraphView,
    result: Result<NodeIndex, GraphError>,
    available: bool,
) -> bool {
    match result {
        Ok(index) => {
            &&& before.contains(from)
            &&& !before.contains(index)
            &&& after == before.with_node(index, node).with_edge(from, index)
        },
        Err(error) => after == before && may_fail_with(error, before.contains(from), available),
    }
}

/// What holds of the answer of `get_node(index)`.
pub open spec fn get_node_outcome(
    graph: GraphView,
    index: NodeIndex,
    result: Result<Node, GraphError>,
    available: bool,
) -> bool {
    match result {
        Ok(node) => graph.contains(index) && node@ == graph.nodes[index],
        Err(error) => may_fail_with(error, graph.contains(index), available),
    }
}

/// What holds of the answer of `neighbors(index)`.
pub open spec fn neighbors_outcome(
    graph: GraphView,
    index: NodeIndex,
    result: Result<Vec<NodeIndex>, GraphError>,
    available: bool,
) -> bool {
    match result {
        Ok(indices) => indices@.no_duplicates() && indices@.to_set() == graph.neighbors(index),
        Err(error) => may_fail_with(error, true, available),
    }
}

/// The identifiers in `indices` grow from each to the next.
pub open spec fn is_increasing(indices: Seq<NodeIndex>) -> bool {
    forall|i: int, j: int| 0 <= i < j < indices.len() ==> indices[i] < indices[j]
}

/// What holds of the answer of `node_indices()`: it lists every node once,
/// by increasing identifier. This is the order in which a store shows its
/// nodes, and the one a hit test goes by.
pub open spec fn node_indices_outcome(
    graph: GraphView,
    result: Result<Vec<NodeIndex>, GraphError>,
    available: bool,
) -> bool {
    match result {
        Ok(indices) => {
            &&& is_increasing(indices@)
            &&& indices@.no_duplicates()
            &&& indices@.to_set() == graph.nodes.dom()
        },
        Err(error) => may_fail_with(error, true, available),
    }
}

/// What holds after `remove_node(index)`: the node and its edges are gone,
/// or the call failed and the graph is as it was.
pub open spec fn remove_node_outcome(
    before: GraphView,
    index: NodeIndex,
    after: GraphView,
    result: Result<(), GraphError>,
    available: bool,
) -> bool {
    match result {
        Ok(_) => before.contains(index) && after == before.without_node(index),
        Err(error) => after == before && may_fail_with(error, before.contains(index), available),
    }
}

/// What holds after `set_node(index, node)`: the node under `index` is
/// `node`, or the call failed and the graph is as it was.
pub open spec fn set_node_outcome(
    before: GraphView,
    index: NodeIndex,
    node: NodeView,
    after: GraphView,
    result: Result<(), GraphError>,
    available: bool,
) -> bool {
    match result {
        Ok(_) => before.contains(index) && after == before.with_node(index, node),
        Err(error) => after == before && may_fail_with(error, before.contains(index), available),
    }
}

/// A store of nodes and edges.
///
/// An operation either succeeds, and then changes the view exactly as its
/// contract says, or fails and leaves the view as it was. It fails with
/// `NotFound` only where it names a node that is not there, and with
/// `BackendUnavailable` only in a store that does not claim
/// [`Graph::always_available`]; where neither can be, it succeeds.
pub trait Graph: Sized {
    /// What the store holds.
    spec fn view(&self) -> GraphView;

    /// The store's own invariant. It is kept by every operation.
    spec fn inv(&self) -> bool;

    /// Whether the store can always be reached, so that no operation on it
    /// fails with `BackendUnavailable`.
    spec fn always_available() -> bool;

    /// In a store that keeps its invariant every edge joins two nodes of it.
    proof fn lemma_inv_implies_wf(&self)
        requires
            self.inv(),
        ensures
            self@.wf(),
    ;

    /// Adds an edge from `from` to `to`, both of which must be in the store.
    /// Adding an edge that is there already changes nothing.
    fn add_edge(&mut self, from: NodeIndex, to: NodeIndex) -> (result: Result<(), GraphError>)
        requires
            old(self).inv(),
        ensures
            final(self).inv(),
            add_edge_outcome(
                old(self)@,
                from,
                to,
                final(self)@,
                result,
                Self::always_available(),
            ),
    ;

    /// Stores `node`, whose radius is positive, under an identifier that no
    /// node of the store has, and returns that identifier.
    fn add_node(&mut self, node: Node) -> (result: Result<NodeIndex, GraphError>)
        requires
            old(self).inv(),
            node.wf(),
        ensures
            final(self).inv(),
            add_node_outcome(old(self)@, node@, final(self)@, result, Self::always_available()),
    ;

    /// Stores `node`, whose radius is positive, under an identifier that no
    /// node of the store has, adds an edge from `from` to it, and returns
    /// the identifier. Both happen or neither: where the call fails, the
    /// store holds what it held before.
    fn add_node_with_edge(&mut self, from: NodeIndex, node: Node) -> (result: Result<
        NodeIndex,
        GraphError,
    >)
        requires
            old(self).inv(),
            node.wf(),
        ensures
            final(self).inv(),
            add_node_with_edge_outcome(
                old(self)@,
                from,
                node@,
                final(self)@,
                result,
                Self::always_available(),
            ),
    ;

    /// Returns a copy of the node under `index`.
    fn get_node(&self, index: NodeIndex) -> (result: Result<Node, GraphError>)
        requires
            self.inv(),
        ensures
            get_node_outcome(self@, index, result, Self::always_available()),
    ;

    /// Returns the nodes that an edge leads to from `index`, each once, in an
    /// order of the store's choosing. A node that is not in the store has
    /// none.
    fn neighbors(&self, index: NodeIndex) -> (result: Result<Vec<NodeIndex>, GraphError>)
        requires
            self.inv(),
        ensures
            neighbors_outcome(self@, index, result, Self::always_available()),
    ;

    /// Returns the identifiers of all nodes, each once, from the lowest to
    /// the highest.
    fn node_indices(&self) -> (result: Result<Vec<NodeIndex>, GraphError>)
        requires
            self.inv(),
        ensures
            node_indices_outcome(self@, result, Self::always_available()),
    ;

    /// Removes the node under `index` and every edge that starts or ends
    /// there.
    fn remove_node(&mut self, index: NodeIndex) -> (result: Result<(), GraphError>)
        requires
            old(self).inv(),
        ensures
            final(self).inv(),
            remove_node_outcome(old(self)@, index, final(self)@, result, Self::always_available()),
    ;

    /// Puts `node`, whose radius is positive, in place of the node under
    /// `index`.
    fn set_node(&mut self, index: NodeIndex, node: Node) -> (result: Result<(), GraphError>)
        requires
            old(self).inv(),
            node.wf(),
        ensures
            final(self).inv(),
            set_node_outcome(
                old(self)@,
                index,
                node@,
                final(self)@,
                result,
                Self::always_available(),
            ),
    ;
}

/// A node that was added is found under the identifier that `add_node`
/// returned, and it is the node that was handed in. In a store that is
/// always available the lookup succeeds.
pub proof fn lemma_added_node_is_found(
    before: GraphView,
    node: NodeView,
    after: GraphView,
    index: NodeIndex,
    found: Result<Node, GraphError>,
    available: bool,
)
    requires
        add_node_outcome(before, node, after, Ok(index), available),
        get_node_outcome(after, index, found, available),
    ensures
        found matches Ok(got) ==> got@ == node,
        found matches Err(error) ==> error == GraphError::BackendUnavailable && !available,
        forall|other: NodeIndex|
            other != index ==> after.contains(other) == before.contains(other)
                && after.nodes[other] == before.nodes[other],
        after.edges == before.edges,
{
}

/// Adding an edge a second time succeeds or fails, and changes nothing
/// either way: after the first call there is one edge from `from` to `to`,
/// `to` is a neighbor of `from`, and the second call adds no other.
pub proof fn lemma_add_edge_is_idempotent(
    before: GraphView,
    from: NodeIndex,
    to: NodeIndex,
    once: GraphView,
    twice: GraphView,
    second: Result<(), GraphError>,
    available: bool,
)
    requires
        add_edge_outcome(before, from, to, once, Ok(()), available),
        add_edge_outcome(once, from, to, twice, second, available),
    ensures
        twice == once,
        once.edges.contains((from, to)),
        once.neighbors(from).contains(to),
        second matches Err(error) ==> error == GraphError::BackendUnavailable && !available,
        forall|a: NodeIndex, b: NodeIndex|
            (a, b) != (from, to) ==> once.edges.contains((a, b)) == before.edges.contains((a, b)),
{
    assert(once.with_edge(from, to).edges =~= once.edges);
}

/// Removing a node removes it and every edge that starts or ends at it, and
/// nothing else. Afterwards a lookup of the node fails, the node has no
/// neighbors, and no answer of `neighbors` holds it.
pub proof fn lemma_removed_node_is_gone(
    before: GraphView,
    index: NodeIndex,
    after: GraphView,
    available: bool,
    other: NodeIndex,
    found: Result<Node, GraphError>,
    targets: Result<Vec<NodeIndex>, GraphError>,
)
    requires
        remove_node_outcome(before, index, after, Ok(()), available),
        get_node_outcome(after, index, found, available),
        neighbors_outcome(after, other, targets, available),
    ensures
        !after.contains(index),
        found is Err,
        available ==> found == Err::<Node, GraphError>(GraphError::NotFound),
        targets matches Ok(indices) ==> !indices@.contains(index),
        after.neighbors(index) == Set::<NodeIndex>::empty(),
        forall|from: NodeIndex, to: NodeIndex|
            #[trigger] after.edges.contains((from, to)) <==> from != index && to != index
                && before.edges.contains((from, to)),
        forall|kept: NodeIndex|
            kept != index ==> after.contains(kept) == before.contains(kept) && after.nodes[kept]
                == before.nodes[kept],
{
    assert(after.neighbors(index) =~= Set::<NodeIndex>::empty());
    if let Ok(indices) = targets {
        if indices@.contains(index) {
            assert(indices@.to_set().contains(index));
            assert(after.neighbors(other).contains(index));
        }
    }
}

/// In a graph whose edges all join nodes of it, an identifier that names no
/// node is a neighbor of no node and has no neighbors. So a removed node is
/// not heard of again until its identifier is given to another node.
pub proof fn lemma_absent_node_is_no_neighbor(graph: GraphView, index: NodeIndex)
    requires
        graph.wf(),
        !graph.contains(index),
    ensures
        graph.neighbors(index) == Set::<NodeIndex>::empty(),
        forall|other: NodeIndex| !(#[trigger] graph.neighbors(other)).contains(index),
{
    assert forall|other: NodeIndex| !(#[trigger] graph.neighbors(other)).contains(index) by {
        if graph.edges.contains((other, index)) {
            assert(graph.contains(index));
        }
    }
    assert forall|to: NodeIndex| !graph.neighbors(index).contains(to) by {
        if graph.edges.contains((index, to)) {
            assert(graph.contains(index));
        }
    }
    assert(graph.neighbors(index) =~= Set::<NodeIndex>::empty());
}

/// Every change that a store makes keeps the graph well formed: putting a
/// node of positive radius in, taking a node out with its edges, and joining
/// two nodes that are there.
pub proof fn lemma_changes_keep_wf(
    graph: GraphView,
    index: NodeIndex,
    node: NodeView,
    from: NodeIndex,
    to: NodeIndex,
)
    requires
        graph.wf(),
    ensures
        GraphView::empty().wf(),
        node.wf() ==> graph.with_node(index, node).wf(),
        graph.without_node(index).wf(),
        graph.contains(from) && graph.contains(to) ==> graph.with_edge(from, to).wf(),
        node.wf() && graph.contains(from) ==> graph.with_node(index, node).with_edge(
            from,
            index,
        ).wf(),
{
    let put = graph.with_node(index, node);
    let taken = graph.without_node(index);
    assert forall|a: NodeIndex, b: NodeIndex| #[trigger]
        put.edges.contains((a, b)) implies put.contains(a) && put.contains(b) by {
        assert(graph.edges.contains((a, b)));
    }
    assert forall|a: NodeIndex, b: NodeIndex| #[trigger]
        taken.edges.contains((a, b)) implies taken.contains(a) && taken.contains(b) by {
        assert(graph.edges.contains((a, b)));
    }
    assert forall|a: NodeIndex| #[trigger] taken.contains(a) implies taken.nodes[a].wf() by {
        assert(graph.contains(a));
    }
    if node.wf() {
        assert forall|a: NodeIndex| #[trigger] put.contains(a) implies put.nodes[a].wf() by {
            if a != index {
                assert(graph.contains(a));
            }
        }
        if graph.contains(from) {
            let linked = put.with_edge(from, index);
            assert forall|a: NodeIndex, b: NodeIndex| #[trigger]
                linked.edges.contains((a, b)) implies linked.contains(a) && linked.contains(
                b,
            ) by {
                if (a, b) != (from, index) {
                    assert(put.edges.contains((a, b)));
                }
            }
            assert forall|a: NodeIndex| #[trigger]
                linked.contains(a) implies linked.nodes[a].wf() by {
                assert(put.contains(a));
            }
        }
    }
    if graph.contains(from) && graph.contains(to) {
        let joined = graph.with_edge(from, to);
        assert forall|a: NodeIndex, b: NodeIndex| #[trigger]
            joined.edges.contains((a, b)) implies joined.contains(a) && joined.contains(b) by {
            if (a, b) != (from, to) {
                assert(graph.edges.contains((a, b)));
            }
        }
        assert forall|a: NodeIndex| #[trigger] joined.contains(a) implies joined.nodes[a].wf() by {
            assert(graph.contains(a));
        }
    }
}

#[verifier::external_type_specification]
#[verifier::external_body]
#[verifier::reject_recursive_types(N)]
#[verifier::reject_recursive_types(E)]
#[verifier::reject_recursive_types(Ty)]
#[verifier::reject_recursive_types(Ix)]
pub struct ExStableGraph<N, E, Ty, Ix>(StableGraph<N, E, Ty, Ix>);

#[verifier::external_type_specification]
#[verifier::external_body]
pub struct ExDirected(Directed);

/// The arena that the in-memory store keeps its nodes and edges in.
pub type Arena = StableGraph<Node, (), Directed, usize>;

/// The nodes that a `StableGraph` holds, by index.
pub uninterp spec fn stored_nodes(graph: Arena) -> Map<NodeIndex, NodeView>;

/// The edges that a `StableGraph` holds, as pairs of source and target. An
/// edge that was added twice is in it twice.
pub uninterp spec fn stored_edges(graph: Arena) -> Multiset<(NodeIndex, NodeIndex)>;

/// `StableGraph::default`: a graph with no node and no edge.
#[verifier::external_body]
fn stable_graph_new() -> (arena: Arena)
    ensures
        stored_nodes(arena).dom() == Set::<NodeIndex>::empty(),
        stored_edges(arena).len() == 0,
{
    StableGraph::default()
}

/// `StableGraph::add_node`: stores the weight under an index that was vacant
/// and returns that index; the edges stay as they were.
#[verifier::external_body]
fn stable_graph_add_node(graph: &mut Arena, node: Node) -> (index: NodeIndex)
    ensures
        !stored_nodes(*old(graph)).dom().contains(index),
        stored_nodes(*final(graph)) == stored_nodes(*old(graph)).insert(index, node@),
        stored_edges(*final(graph)) == stored_edges(*old(graph)),
{
    graph.add_node(node).index()
}

/// `StableGraph::contains_node`: whether a node is stored under the index.
#[verifier::external_body]
fn stable_graph_contains_node(graph: &Arena, index: NodeIndex) -> (found: bool)
    ensures
        found == stored_nodes(*graph).dom().contains(index),
{
    graph.contains_node(PetgraphNodeIndex::new(index))
}

/// `StableGraph::node_weight`: the weight stored under the index, or `None`
/// where the index is vacant.
#[verifier::external_body]
fn stable_graph_node_weight<'a>(graph: &'a Arena, index: NodeIndex) -> (weight: Option<&'a Node>)
    ensures
        weight is Some == stored_nodes(*graph).dom().contains(index),
        weight matches Some(node) ==> node@ == stored_nodes(*graph)[index],
{
    graph.node_weight(PetgraphNodeIndex::new(index))
}

/// `IndexMut<NodeIndex>` of `StableGraph`, which panics on a vacant index:
/// assigning through it replaces the weight under the index and nothing else.
#[verifier::external_body]
fn stable_graph_set_node_weight(graph: &mut Arena, index: NodeIndex, node: Node)
    requires
        stored_nodes(*old(graph)).dom().contains(index),
    ensures
        stored_nodes(*final(graph)) == stored_nodes(*old(graph)).insert(index, node@),
        stored_edges(*final(graph)) == stored_edges(*old(graph)),
{
    graph[PetgraphNodeIndex::new(index)] = node;
}

/// `StableGraph::remove_node`: on a vacant index it returns `None` and
/// changes nothing; otherwise it returns the weight, vacates the index and
/// removes every edge that starts or ends there.
#[verifier::external_body]
fn stable_graph_remove_node(graph: &mut Arena, index: NodeIndex) -> (removed: Option<Node>)
    ensures
        removed is Some == stored_nodes(*old(graph)).dom().contains(index),
        removed matches Some(node) ==> node@ == stored_nodes(*old(graph))[index],
        removed is Some ==> stored_nodes(*final(graph)) == stored_nodes(*old(graph)).remove(index),
        removed is Some ==> stored_edges(*final(graph)) == stored_edges(*old(graph)).filter(
            |e: (NodeIndex, NodeIndex)| e.0 != index && e.1 != index,
        ),
        removed is None ==> stored_nodes(*final(graph)) == stored_nodes(*old(graph)),
        removed is None ==> stored_edges(*final(graph)) == stored_edges(*old(graph)),
{
    graph.remove_node(PetgraphNodeIndex::new(index))
}

/// `StableGraph::update_edge`, which panics where an endpoint is vacant:
/// where an edge from `from` to `to` exists it adds none, otherwise it adds
/// one; the nodes stay as they were.
#[verifier::external_body]
fn stable_graph_update_edge(graph: &mut Arena, from: NodeIndex, to: NodeIndex)
    requires
        stored_nodes(*old(graph)).dom().contains(from),
        stored_nodes(*old(graph)).dom().contains(to),
    ensures
        stored_nodes(*final(graph)) == stored_nodes(*old(graph)),
        stored_edges(*final(graph)) == if stored_edges(*old(graph)).count((from, to)) > 0 {
            stored_edges(*old(graph))
        } else {
            stored_edges(*old(graph)).insert((from, to))
        },
{
    graph.update_edge(PetgraphNodeIndex::new(from), PetgraphNodeIndex::new(to), ());
}

/// `StableGraph::neighbors`: the target of every edge that starts at the
/// index, once for each such edge; none where the index is vacant.
#[verifier::external_body]
fn stable_graph_neighbors(graph: &Arena, index: NodeIndex) -> (targets: Vec<NodeIndex>)
    ensures
        forall|to: NodeIndex| #[trigger]
            targets@.to_multiset().count(to) == stored_edges(*graph).count((index, to)),
{
    graph.neighbors(PetgraphNodeIndex::new(index)).map(|to| to.index()).collect()
}

/// `StableGraph::node_indices`: the occupied indices, in increasing order.
#[verifier::external_body]
fn stable_graph_node_indices(graph: &Arena) -> (indices: Vec<NodeIndex>)
    ensures
        forall|i: int, j: int| 0 <= i < j < indices@.len() ==> indices@[i] < indices@[j],
        forall|index: NodeIndex|
            indices@.contains(index) <==> stored_nodes(*graph).dom().contains(index),
{
    graph.node_indices().map(|index| index.index()).collect()
}

/// The in-memory store: nodes in an arena, addressed by index. What it holds
/// is lost when it is dropped. The index of a removed node may be given to a
/// node added later.
pub struct PetgraphGraph(Arena);

impl PetgraphGraph {
    /// An empty store.
    pub fn new() -> (graph: PetgraphGraph)
        ensures
            graph.inv(),
            graph@ == GraphView::empty(),
    {
        let graph = PetgraphGraph(stable_graph_new());
        proof {
            broadcast use vstd::multiset::group_multiset_axioms;

            assert(graph@.nodes =~= Map::empty());
            assert(graph@.edges =~= Set::empty());
        }
        graph
    }
}

impl Default for PetgraphGraph {
    fn default() -> (graph: PetgraphGraph)
        ensures
            graph.inv(),
            graph@ == GraphView::empty(),
    {
        PetgraphGraph::new()
    }
}

impl Graph for PetgraphGraph {
    closed spec fn view(&self) -> GraphView {
        GraphView { nodes: stored_nodes(self.0), edges: stored_edges(self.0).dom() }
    }

    /// There are finitely many nodes, each of positive radius; no edge is
    /// stored twice, and every edge joins two stored nodes.
    closed spec fn inv(&self) -> bool {
        &&& stored_nodes(self.0).dom().finite()
        &&& forall|index: NodeIndex| #[trigger]
            stored_nodes(self.0).dom().contains(index) ==> stored_nodes(self.0)[index].wf()
        &&& forall|from: NodeIndex, to: NodeIndex|
            {
                let count = #[trigger] stored_edges(self.0).count((from, to));
                &&& count <= 1
                &&& count > 0 ==> stored_nodes(self.0).dom().contains(from) && stored_nodes(
                    self.0,
                ).dom().contains(to)
            }
    }

    open spec fn always_available() -> bool {
        true
    }

    proof fn lemma_inv_implies_wf(&self) {
        assert forall|from: NodeIndex, to: NodeIndex| #[trigger]
            self@.edges.contains((from, to)) implies self@.contains(from) && self@.contains(to) by {
            assert(stored_edges(self.0).count((from, to)) > 0);
        }
        assert forall|index: NodeIndex| #[trigger]
            self@.contains(index) implies self@.nodes[index].wf() by {
            assert(stored_nodes(self.0).dom().contains(index));
        }
    }

    fn add_edge(&mut self, from: NodeIndex, to: NodeIndex) -> (result: Result<(), GraphError>) {
        if !stable_graph_contains_node(&self.0, from) || !stable_graph_contains_node(&self.0, to) {
            return Err(GraphError::NotFound);
        }
        stable_graph_update_edge(&mut self.0, from, to);
        proof {
            broadcast use vstd::multiset::group_multiset_axioms;
            broadcast use vstd::multiset::group_multiset_properties;

            assert(self@.edges =~= old(self)@.edges.insert((from, to)));
        }
        Ok(())
    }

    fn add_node(&mut self, node: Node) -> (result: Result<NodeIndex, GraphError>) {
        let index = stable_graph_add_node(&mut self.0, node);
        Ok(index)
    }

    fn add_node_with_edge(&mut self, from: NodeIndex, node: Node) -> (result: Result<
        NodeIndex,
        GraphError,
    >) {
        if !stable_graph_contains_node(&self.0, from) {
            return Err(GraphError::NotFound);
        }
        let index = stable_graph_add_node(&mut self.0, node);
        stable_graph_update_edge(&mut self.0, from, index);
        proof {
            broadcast use vstd::multiset::group_multiset_axioms;
            broadcast use vstd::multiset::group_multiset_properties;

            assert(stored_edges(old(self).0).count((from, index)) == 0);
            assert(self@.edges =~= old(self)@.edges.insert((from, index)));
        }
        Ok(index)
    }

    fn get_node(&self, index: NodeIndex) -> (result: Result<Node, GraphError>) {
        match stable_graph_node_weight(&self.0, index) {
            Some(node) => Ok(node.clone()),
            None => Err(GraphError::NotFound),
        }
    }

    fn neighbors(&self, index: NodeIndex) -> (result: Result<Vec<NodeIndex>, GraphError>) {
        let targets = stable_graph_neighbors(&self.0, index);
        proof {
            broadcast use vstd::multiset::group_multiset_axioms;

            targets@.to_multiset_ensures();
            assert forall|to: NodeIndex|
                targets@.to_multiset().contains(to) implies targets@.to_multiset().count(to)
                == 1 by {
                assert(stored_edges(self.0).count((index, to)) <= 1);
            }
            targets@.lemma_multiset_has_no_duplicates_conv();
            assert forall|to: NodeIndex| targets@.to_set().contains(to) == self@.neighbors(
                index,
            ).contains(to) by {
                assert(targets@.contains(to) <==> targets@.to_multiset().count(to) > 0);
            }
            assert(targets@.to_set() =~= self@.neighbors(index));
        }
        Ok(targets)
    }

    fn node_indices(&self) -> (result: Result<Vec<NodeIndex>, GraphError>) {
        let indices = stable_graph_node_indices(&self.0);
        proof {
            assert(indices@.to_set() =~= self@.nodes.dom());
        }
        Ok(indices)
    }

    fn remove_node(&mut self, index: NodeIndex) -> (result: Result<(), GraphError>) {
        match stable_graph_remove_node(&mut self.0, index) {
            Some(_) => {
                proof {
                    broadcast use vstd::multiset::group_multiset_axioms;

                    assert(self@.edges =~= old(self)@.without_node(index).edges);
                }
                Ok(())
            },
            None => Err(GraphError::NotFound),
        }
    }

    fn set_node(&mut self, index: NodeIndex, node: Node) -> (result: Result<(), GraphError>) {
        if !stable_graph_contains_node(&self.0, index) {
            return Err(GraphError::NotFound);
        }
        stable_graph_set_node_weight(&mut self.0, index, node);
        Ok(())
    }
}

} // verus!
