//! Dependency graphs between items, held in `petgraph` graph maps.
//!
//! What a graph holds is named below as its sequence of nodes and its
//! sequence of edges (source, target, label), each in the order the graph
//! keeps them.

use vstd::prelude::*;
use vstd::std_specs::cmp::PartialEqSpec;
use std::hash::BuildHasher;
use std::rc::Rc;
use petgraph::graphmap::{DiGraphMap, GraphMap};
use petgraph::visit::{Bfs, EdgeFiltered};
use petgraph::Directed;
use crate::items::{DepLocality, Item};

verus! {

#[verifier::external_type_specification]
#[verifier::external_body]
#[verifier::reject_recursive_types(N)]
#[verifier::reject_recursive_types(E)]
#[verifier::reject_recursive_types(Ty)]
#[verifier::reject_recursive_types(S)]
pub struct ExGraphMap<N, E, Ty, S: BuildHasher>(GraphMap<N, E, Ty, S>);

#[verifier::external_type_specification]
#[verifier::external_body]
pub struct ExDirected(Directed);

/// The dependencies of an item: an edge from each item to the items it
/// depends on, labelled with the locality of the dependency.
pub type DepGraph = DiGraphMap<Item, DepLocality>;

/// The nodes of a dependency graph, in the graph's order.
pub uninterp spec fn dep_graph_nodes(g: DepGraph) -> Seq<Item>;

/// The edges of a dependency graph, in the graph's order.
pub uninterp spec fn dep_graph_edges(g: DepGraph) -> Seq<(Item, Item, DepLocality)>;

/// The items that `a` has an edge to, in the order of `a`'s adjacency list
/// in `g`, as `GraphMap::neighbors` yields them.
pub uninterp spec fn dep_graph_neighbors(g: DepGraph, a: Item) -> Seq<Item>;

/// Whether `g` has an edge from `a` to `b`.
pub open spec fn has_edge(g: DepGraph, a: Item, b: Item) -> bool {
    exists|e: int|
        0 <= e < dep_graph_edges(g).len() && (#[trigger] dep_graph_edges(g)[e]).0 == a
            && dep_graph_edges(g)[e].1 == b
}

/// The first item of `order` with an edge to `order[k]` stands at `j`.
pub open spec fn is_first_parent(g: DepGraph, order: Seq<Item>, k: int, j: int) -> bool {
    &&& 0 <= j < k
    &&& has_edge(g, order[j], order[k])
    &&& forall|i: int| 0 <= i < j ==> !has_edge(g, order[i], order[k])
}

/// `order` lists, without repetition, `root` and then every item reachable
/// from it along the edges of `g`, each after an item with an edge to it,
/// breadth first: items whose first parent in `order` comes earlier come
/// earlier.
pub open spec fn is_traversal_from(g: DepGraph, root: Item, order: Seq<Item>) -> bool {
    &&& order.len() >= 1
    &&& order[0] == root
    &&& forall|i: int, j: int| 0 <= i < j < order.len() ==> order[i] != order[j]
    &&& forall|i: int|
        1 <= i < order.len() ==> exists|j: int| 0 <= j < i && has_edge(g, order[j], #[trigger] order[i])
    &&& forall|i: int, e: int|
        0 <= i < order.len() && 0 <= e < dep_graph_edges(g).len() && #[trigger] dep_graph_edges(
            g,
        )[e].0 == #[trigger] order[i] ==> order.contains(dep_graph_edges(g)[e].1)
    &&& forall|k1: int, k2: int, j1: int, j2: int|
        1 <= k1 < k2 < order.len() && #[trigger] is_first_parent(g, order, k1, j1)
            && #[trigger] is_first_parent(g, order, k2, j2) ==> j1 <= j2
}

/// Items of `order` with the same first parent come in the order of that
/// parent's neighbours.
pub open spec fn follows_neighbour_order(g: DepGraph, order: Seq<Item>) -> bool {
    forall|k1: int, k2: int, j: int|
        1 <= k1 < k2 < order.len() && #[trigger] is_first_parent(g, order, k1, j)
            && #[trigger] is_first_parent(g, order, k2, j) ==> exists|p1: int, p2: int|
            0 <= p1 < p2 < dep_graph_neighbors(g, order[j]).len() && dep_graph_neighbors(
                g,
                order[j],
            )[p1] == order[k1] && dep_graph_neighbors(g, order[j])[p2] == order[k2]
}

/// Whether a dependency is compiled together with its dependent.
pub fn is_local(locality: &DepLocality) -> (b: bool)
    ensures
        b == (*locality == DepLocality::Local),
{
    match locality {
        DepLocality::Local => true,
        DepLocality::External => false,
    }
}

/// `GraphMap::nodes`, collected: the nodes of the graph in its order.
#[verifier::external_body]
fn node_list(g: &DepGraph) -> (v: Vec<Item>)
    ensures
        v@ == dep_graph_nodes(*g),
{
    g.nodes().collect()
}

/// `GraphMap::all_edges`, collected with each label copied out: the edges of
/// the graph in its order.
#[verifier::external_body]
fn edge_list(g: &DepGraph) -> (v: Vec<(Item, Item, DepLocality)>)
    ensures
        v@ == dep_graph_edges(*g),
{
    g.all_edges().map(|e| (e.0, e.1, *e.2)).collect()
}

/// `Bfs` started from `root` on the graph filtered to its local edges, then
/// stepped with `Bfs::next` on the whole graph until it is done: the nodes in
/// the order visited. Visiting takes the nodes first in, first out, and
/// follows every outgoing edge of each, in the order `neighbors` yields them,
/// so the result lists `root` and every item reachable from it, breadth
/// first.
#[verifier::external_body]
fn breadth_first_order(g: &DepGraph, root: Item) -> (order: Vec<Item>)
    ensures
        is_traversal_from(*g, root, order@),
        forall|k1: int, k2: int, j: int|
            1 <= k1 < k2 < order@.len() && #[trigger] is_first_parent(*g, order@, k1, j)
                && #[trigger] is_first_parent(*g, order@, k2, j) ==> exists|p1: int, p2: int|
                0 <= p1 < p2 < dep_graph_neighbors(*g, order@[j]).len() && dep_graph_neighbors(
                    *g,
                    order@[j],
                )[p1] == order@[k1] && dep_graph_neighbors(*g, order@[j])[p2] == order@[k2],
{
    let mut order = Vec::new();
    let mut bfs = Bfs::new(&EdgeFiltered::from_fn(g, |e: (Item, Item, &DepLocality)| is_local(e.2)), root);
    while let Some(node) = bfs.next(&g) {
        order.push(node)
    }
    order
}

/// The items met by walking the dependency graph from `root`, in the order
/// they are met: `root` first, then every item reachable from it, breadth
/// first, the items first met from one item in the order of its neighbours. The walk follows every edge, `External` ones included: the search
/// is set up on the local edges, but each step takes the whole graph.
pub fn walk_local_dependencies(graph: &DepGraph, root: Item) -> (order: Vec<Item>)
    ensures
        is_traversal_from(*graph, root, order@),
        follows_neighbour_order(*graph, order@),
{
    breadth_first_order(graph, root)
}

/// A shared dependency graph, compared by its nodes and edges in order.
#[derive(Debug, Clone)]
pub struct DepGraphWrapper(pub Rc<DepGraph>);

impl PartialEq for DepGraphWrapper {
    fn eq(&self, other: &DepGraphWrapper) -> (r: bool) {
        let edges = edge_list(&*self.0);
        let other_edges = edge_list(&*other.0);
        if edges.len() != other_edges.len() {
            return false;
        }
        let mut i: usize = 0;
        while i < edges.len()
            invariant
                edges@ == dep_graph_edges(*self.0),
                other_edges@ == dep_graph_edges(*other.0),
                edges@.len() == other_edges@.len(),
                i <= edges@.len(),
                forall|j: int| 0 <= j < i ==> edges@[j] == other_edges@[j],
            decreases edges@.len() - i,
        {
            let (a, b, l) = edges[i];
            let (c, d, m) = other_edges[i];
            if !(a == c && b == d && l == m) {
                return false;
            }
            i = i + 1;
        }
        assert(edges@ =~= other_edges@);
        let nodes = node_list(&*self.0);
        let other_nodes = node_list(&*other.0);
        if nodes.len() != other_nodes.len() {
            return false;
        }
        let mut i: usize = 0;
        while i < nodes.len()
            invariant
                nodes@ == dep_graph_nodes(*self.0),
                other_nodes@ == dep_graph_nodes(*other.0),
                nodes@.len() == other_nodes@.len(),
                i <= nodes@.len(),
                forall|j: int| 0 <= j < i ==> nodes@[j] == other_nodes@[j],
            decreases nodes@.len() - i,
        {
            if nodes[i] != other_nodes[i] {
                return false;
            }
            i = i + 1;
        }
        assert(nodes@ =~= other_nodes@);
        true
    }
}

impl vstd::std_specs::cmp::PartialEqSpecImpl for DepGraphWrapper {
    open spec fn obeys_eq_spec() -> bool {
        true
    }

    open spec fn eq_spec(&self, other: &DepGraphWrapper) -> bool {
        dep_graph_edges(*self.0) == dep_graph_edges(*other.0) && dep_graph_nodes(*self.0)
            == dep_graph_nodes(*other.0)
    }
}

impl Eq for DepGraphWrapper {}

/// Comparing dependency graphs is an equivalence: every graph equals itself,
/// the comparison is symmetric, and it is transitive.
pub proof fn lemma_dep_graph_eq_is_equivalence(a: DepGraphWrapper, b: DepGraphWrapper, c: DepGraphWrapper)
    ensures
        a.eq_spec(&a),
        a.eq_spec(&b) ==> b.eq_spec(&a),
        a.eq_spec(&b) && b.eq_spec(&c) ==> a.eq_spec(&c),
{
}

} // verus!
