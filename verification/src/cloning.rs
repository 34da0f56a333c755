//! Cloning a node with its successor subgraph, cycles included.

use vstd::prelude::*;

use crate::flow_node::FlowNodeView;
use crate::graph::{closed_below, edge_turned, start_turned, Graph};
use crate::node_core::{lists, NodeCoreView};
use crate::types::{CloneMemo, NodeRef};

verus! {

broadcast use vstd::std_specs::hash::group_hash_axioms;

/// The node `b` can be reached from `a` in `steps` steps, along edges and flow
/// starts, by way of nodes outside `avoid`.
pub open spec fn reaches_in(
    g: Seq<FlowNodeView>,
    avoid: Set<u64>,
    a: NodeRef,
    b: NodeRef,
    steps: nat,
) -> bool
    decreases steps,
{
    &&& !avoid.contains(a)
    &&& if steps == 0 {
        a == b
    } else {
        exists|t: NodeRef| #[trigger]
            g[a as int].leads_to(t) && reaches_in(g, avoid, t, b, (steps - 1) as nat)
    }
}

/// The node `b` can be reached from `a` by way of nodes outside `avoid`.
pub open spec fn reaches(g: Seq<FlowNodeView>, avoid: Set<u64>, a: NodeRef, b: NodeRef) -> bool {
    exists|steps: nat| reaches_in(g, avoid, a, b, steps)
}

/// In the graph `g1` the memo gives the copy of the node `k` of the graph
/// `g0`, with every edge and the start leading on to copies.
pub open spec fn has_copy(
    g0: Seq<FlowNodeView>,
    g1: Seq<FlowNodeView>,
    memo: Map<u64, NodeRef>,
    k: u64,
) -> bool {
    &&& memo.contains_key(k)
    &&& k < g0.len()
    &&& g0.len() <= memo[k] < g1.len()
    &&& g1[memo[k] as int] == g0[k as int].cloned(memo[k], memo)
    &&& forall|t: NodeRef| #[trigger] g0[k as int].leads_to(t) ==> memo.contains_key(t)
}

/// The memo knows all that another one does, and the same of it.
pub open spec fn extends(memo: Map<u64, NodeRef>, earlier: Map<u64, NodeRef>) -> bool {
    forall|k: u64| #[trigger]
        earlier.contains_key(k) ==> memo.contains_key(k) && memo[k] == earlier[k]
}

/// What cloning from `node` does: the nodes that were there stay as they are,
/// and each node that can be reached from `node` without passing one that the
/// memo knew gets one copy. The copies are all that is added.
pub open spec fn cloned_from(
    g0: Seq<FlowNodeView>,
    memo0: Map<u64, NodeRef>,
    node: NodeRef,
    g1: Seq<FlowNodeView>,
    memo1: Map<u64, NodeRef>,
) -> bool {
    &&& g0.is_prefix_of(g1)
    &&& extends(memo1, memo0)
    &&& memo1.contains_key(node)
    &&& forall|k: u64| #[trigger]
        memo1.contains_key(k) && !memo0.contains_key(k) ==> has_copy(g0, g1, memo1, k) && reaches(
            g0,
            memo0.dom(),
            node,
            k,
        )
    &&& forall|k: u64, l: u64| #[trigger]
        memo1.contains_key(k) && #[trigger] memo1.contains_key(l) && !memo0.contains_key(k)
            && !memo0.contains_key(l) && memo1[k] == memo1[l] ==> k == l
    &&& forall|j: int| g0.len() <= j < g1.len() ==> #[trigger] is_copy(memo0, memo1, j)
}

/// The place `j` holds the copy of a node that the memo has learnt of.
pub open spec fn is_copy(memo0: Map<u64, NodeRef>, memo1: Map<u64, NodeRef>, j: int) -> bool {
    exists|k: u64| #[trigger]
        memo1.contains_key(k) && !memo0.contains_key(k) && memo1[k] == j
}

/// The memo knows nodes of the graph only.
pub open spec fn memo_within(memo: Map<u64, NodeRef>, keys: nat, values: nat) -> bool {
    forall|k: u64| #[trigger] memo.contains_key(k) ==> k < keys && memo[k] < values
}

spec fn unknown(dom: Set<u64>, n: nat) -> nat
    decreases n,
{
    if n == 0 {
        0
    } else {
        unknown(dom, (n - 1) as nat) + if dom.contains((n - 1) as u64) {
            0nat
        } else {
            1nat
        }
    }
}

proof fn lemma_unknown_shrinks(dom: Set<u64>, bigger: Set<u64>, n: nat)
    requires
        dom.subset_of(bigger),
    ensures
        unknown(bigger, n) <= unknown(dom, n),
        forall|k: u64|
            k < n && n <= u64::MAX + 1 && #[trigger] bigger.contains(k) && !dom.contains(k)
                ==> unknown(bigger, n) < unknown(dom, n),
    decreases n,
{
    if n > 0 {
        lemma_unknown_shrinks(dom, bigger, (n - 1) as nat);
    }
}

proof fn lemma_reaches_in(
    g0: Seq<FlowNodeView>,
    g1: Seq<FlowNodeView>,
    n: nat,
    avoid0: Set<u64>,
    avoid1: Set<u64>,
    a: NodeRef,
    b: NodeRef,
    steps: nat,
)
    requires
        n <= g0.len(),
        g0.is_prefix_of(g1),
        closed_below(g0, n),
        avoid0.subset_of(avoid1),
        a < n,
        reaches_in(g1, avoid1, a, b, steps),
    ensures
        reaches_in(g0, avoid0, a, b, steps),
    decreases steps,
{
    if steps > 0 {
        let t = choose|t: NodeRef| #[trigger]
            g1[a as int].leads_to(t) && reaches_in(g1, avoid1, t, b, (steps - 1) as nat);
        assert(g1[a as int] == g0[a as int]);
        assert(g0[a as int].mentions(t));
        lemma_reaches_in(g0, g1, n, avoid0, avoid1, t, b, (steps - 1) as nat);
        assert(g0[a as int].leads_to(t));
    }
}

/// A step to a node that is not to be avoided goes before a path.
proof fn lemma_reaches_step(
    g0: Seq<FlowNodeView>,
    g1: Seq<FlowNodeView>,
    n: nat,
    avoid0: Set<u64>,
    avoid1: Set<u64>,
    node: NodeRef,
    a: NodeRef,
    b: NodeRef,
)
    requires
        n <= g0.len(),
        g0.is_prefix_of(g1),
        closed_below(g0, n),
        avoid0.subset_of(avoid1),
        node < n,
        !avoid0.contains(node),
        g0[node as int].leads_to(a),
        reaches(g1, avoid1, a, b),
    ensures
        reaches(g0, avoid0, node, b),
{
    assert(g0[node as int].mentions(a));
    let steps = choose|steps: nat| reaches_in(g1, avoid1, a, b, steps);
    lemma_reaches_in(g0, g1, n, avoid0, avoid1, a, b, steps);
    assert(reaches_in(g0, avoid0, node, b, steps + 1));
}

/// A copy stays one when the graph and the memo grow.
proof fn lemma_copy_stays(
    g0: Seq<FlowNodeView>,
    g1: Seq<FlowNodeView>,
    memo1: Map<u64, NodeRef>,
    g2: Seq<FlowNodeView>,
    memo2: Map<u64, NodeRef>,
    k: u64,
)
    requires
        has_copy(g0, g1, memo1, k),
        extends(memo2, memo1),
        memo1[k] < g2.len(),
        g2[memo1[k] as int] == g1[memo1[k] as int],
    ensures
        has_copy(g0, g2, memo2, k),
{
    let v = g0[k as int];
    assert(memo2[k] == memo1[k]);
    assert forall|action: Seq<char>| #[trigger] v.core.successors.contains_key(action) implies memo1[v.core.successors[action]]
        == memo2[v.core.successors[action]] by {
        assert(v.leads_to(v.core.successors[action]));
    }
    if v.kind.start() is Some {
        assert(v.leads_to(v.kind.start()->0));
    }
    assert(v.core.successors.map_values(|t: NodeRef| memo1[t]) =~= v.core.successors.map_values(
        |t: NodeRef| memo2[t],
    ));
}

/// The copy of a node while its edges are being turned to copies: the first
/// `j` of them are.
spec fn half_turned(
    v: FlowNodeView,
    id: u64,
    memo: Map<u64, NodeRef>,
    edges: Seq<(String, NodeRef)>,
    j: int,
    w: FlowNodeView,
) -> bool {
    &&& w.kind == v.kind
    &&& w.core == (NodeCoreView { successors: w.core.successors, ..v.core.copied(id) })
    &&& w.core.successors.dom() == v.core.successors.dom()
    &&& forall|i: int|
        0 <= i < edges.len() ==> {
            let e = #[trigger] edges[i];
            &&& v.core.successors.contains_key(e.0@)
            &&& v.core.successors[e.0@] == e.1
            &&& if i < j {
                memo.contains_key(e.1) && w.core.successors[e.0@] == memo[e.1]
            } else {
                w.core.successors[e.0@] == e.1
            }
        }
    &&& forall|a: int, b: int|
        0 <= a < b < edges.len() ==> (#[trigger] edges[a]).0@ != (#[trigger] edges[b]).0@
    &&& forall|action: Seq<char>| #[trigger]
        v.core.successors.contains_key(action) ==> exists|i: int|
            0 <= i < edges.len() && (#[trigger] edges[i]).0@ == action
}

/// The state in which the node itself is half copied and every other node that
/// the memo has learnt of is copied.
spec fn in_progress(
    g0: Seq<FlowNodeView>,
    memo0: Map<u64, NodeRef>,
    n: nat,
    node: NodeRef,
    g: Seq<FlowNodeView>,
    memo: Map<u64, NodeRef>,
    edges: Seq<(String, NodeRef)>,
    j: int,
) -> bool {
    &&& n <= g0.len()
    &&& g0.len() < g.len()
    &&& closed_below(g0, n)
    &&& node < n
    &&& g0.is_prefix_of(g)
    &&& extends(memo, memo0)
    &&& !memo0.contains_key(node)
    &&& memo.contains_key(node)
    &&& memo[node] == g0.len()
    &&& memo_within(memo, n, g.len())
    &&& half_turned(g0[node as int], memo[node], memo, edges, j, g[g0.len() as int])
    &&& forall|k: u64| #[trigger]
        memo.contains_key(k) && !memo0.contains_key(k) && k != node ==> has_copy(g0, g, memo, k)
            && memo[k] != g0.len() && reaches(g0, memo0.dom(), node, k)
    &&& forall|k: u64, l: u64| #[trigger]
        memo.contains_key(k) && #[trigger] memo.contains_key(l) && !memo0.contains_key(k)
            && !memo0.contains_key(l) && memo[k] == memo[l] ==> k == l
    &&& forall|i: int| g0.len() <= i < g.len() ==> #[trigger] is_copy(memo0, memo, i)
}

proof fn lemma_progress_begins(
    g0: Seq<FlowNodeView>,
    memo0: Map<u64, NodeRef>,
    n: nat,
    node: NodeRef,
    g: Seq<FlowNodeView>,
    memo: Map<u64, NodeRef>,
    edges: Seq<(String, NodeRef)>,
)
    requires
        n <= g0.len() <= u64::MAX,
        closed_below(g0, n),
        node < n,
        !memo0.contains_key(node),
        memo_within(memo0, n, g0.len()),
        g == g0.push(
            FlowNodeView {
                core: g0[node as int].core.copied(g0.len() as u64),
                ..g0[node as int]
            },
        ),
        memo == memo0.insert(node, g0.len() as u64),
        lists(
            edges.map_values(|e: (String, NodeRef)| e.0@),
            g0[node as int].core.successors.dom(),
        ),
        forall|i: int|
            0 <= i < edges.len() ==> g0[node as int].core.successors[(#[trigger] edges[i]).0@]
                == edges[i].1,
    ensures
        in_progress(g0, memo0, n, node, g, memo, edges, 0),
{
    let names = edges.map_values(|e: (String, NodeRef)| e.0@);
    let v = g0[node as int];
    assert forall|i: int| 0 <= i < edges.len() implies v.core.successors.contains_key(
        (#[trigger] edges[i]).0@,
    ) by {
        assert(names[i] == edges[i].0@);
        assert(names.to_set().contains(names[i]));
    }
    assert forall|a: int, b: int| 0 <= a < b < edges.len() implies (#[trigger] edges[a]).0@ != (
    #[trigger] edges[b]).0@ by {
        assert(names[a] != names[b]);
    }
    assert forall|action: Seq<char>| #[trigger] v.core.successors.contains_key(action) implies exists|
        i: int,
    |
        0 <= i < edges.len() && (#[trigger] edges[i]).0@ == action by {
        assert(names.to_set().contains(action));
        let i = choose|i: int| 0 <= i < names.len() && names[i] == action;
        assert(edges[i].0@ == action);
    }
    assert forall|i: int| g0.len() <= i < g.len() implies #[trigger] is_copy(memo0, memo, i) by {
        assert(memo.contains_key(node) && memo[node] == i);
    }
}

proof fn lemma_still_closed(g0: Seq<FlowNodeView>, g: Seq<FlowNodeView>, n: nat)
    requires
        n <= g0.len(),
        g0.is_prefix_of(g),
        closed_below(g0, n),
    ensures
        closed_below(g, n),
{
    assert forall|i: int, t: NodeRef|
        0 <= i < n && i < g.len() && #[trigger] g[i].mentions(t) implies t < n by {
        assert(g0[i].mentions(t));
    }
}

proof fn lemma_edge_leads(
    g0: Seq<FlowNodeView>,
    memo0: Map<u64, NodeRef>,
    n: nat,
    node: NodeRef,
    g: Seq<FlowNodeView>,
    memo: Map<u64, NodeRef>,
    edges: Seq<(String, NodeRef)>,
    j: int,
)
    requires
        in_progress(g0, memo0, n, node, g, memo, edges, j),
        0 <= j < edges.len(),
    ensures
        g0[node as int].leads_to(edges[j].1),
        edges[j].1 < n,
        closed_below(g, n),
{
    let v = g0[node as int];
    assert(v.core.successors.contains_key(edges[j].0@));
    assert(v.mentions(edges[j].1));
    lemma_still_closed(g0, g, n);
}

/// Cloning from a node that an edge or the start leads to keeps the state.
proof fn lemma_progress_grows(
    g0: Seq<FlowNodeView>,
    memo0: Map<u64, NodeRef>,
    n: nat,
    node: NodeRef,
    g1: Seq<FlowNodeView>,
    memo1: Map<u64, NodeRef>,
    edges: Seq<(String, NodeRef)>,
    j: int,
    t: NodeRef,
    g2: Seq<FlowNodeView>,
    memo2: Map<u64, NodeRef>,
)
    requires
        in_progress(g0, memo0, n, node, g1, memo1, edges, j),
        g0[node as int].leads_to(t),
        cloned_from(g1, memo1, t, g2, memo2),
        memo_within(memo2, n, g2.len()),
    ensures
        in_progress(g0, memo0, n, node, g2, memo2, edges, j),
{
    assert forall|k: u64| #[trigger]
        memo2.contains_key(k) && !memo0.contains_key(k) && k != node implies has_copy(
        g0,
        g2,
        memo2,
        k,
    ) && memo2[k] != g0.len() && reaches(g0, memo0.dom(), node, k) by {
        if memo1.contains_key(k) {
            lemma_copy_stays(g0, g1, memo1, g2, memo2, k);
        } else {
            assert(has_copy(g1, g2, memo2, k));
            assert(g1[k as int] == g0[k as int]);
            assert(has_copy(g0, g2, memo2, k));
            lemma_reaches_step(g0, g1, n, memo0.dom(), memo1.dom(), node, t, k);
        }
    }
    assert forall|k: u64, l: u64| #[trigger]
        memo2.contains_key(k) && #[trigger] memo2.contains_key(l) && !memo0.contains_key(k)
            && !memo0.contains_key(l) && memo2[k] == memo2[l] implies k == l by {
        if memo1.contains_key(k) {
            assert(memo1[k] == memo2[k]);
            if !memo1.contains_key(l) {
                assert(has_copy(g1, g2, memo2, l));
            } else {
                assert(memo1[l] == memo2[l]);
            }
        } else if memo1.contains_key(l) {
            assert(has_copy(g1, g2, memo2, k));
            assert(memo1[l] == memo2[l]);
        }
    }
    assert forall|i: int| g0.len() <= i < g2.len() implies #[trigger] is_copy(memo0, memo2, i) by {
        if i < g1.len() {
            assert(is_copy(memo0, memo1, i));
            let k = choose|k: u64| #[trigger]
                memo1.contains_key(k) && !memo0.contains_key(k) && memo1[k] == i;
            assert(memo2.contains_key(k) && memo2[k] == i);
        } else {
            assert(is_copy(memo1, memo2, i));
            let k = choose|k: u64| #[trigger]
                memo2.contains_key(k) && !memo1.contains_key(k) && memo2[k] == i;
            assert(memo2.contains_key(k) && !memo0.contains_key(k));
        }
    }
    let w = g1[g0.len() as int];
    assert(g2[g0.len() as int] == w);
    assert(half_turned(g0[node as int], memo1[node], memo1, edges, j, w));
    assert(half_turned(g0[node as int], memo2[node], memo2, edges, j, w));
}

/// Turning one more edge to the copy of its target.
proof fn lemma_progress_turns(
    g0: Seq<FlowNodeView>,
    memo0: Map<u64, NodeRef>,
    n: nat,
    node: NodeRef,
    g: Seq<FlowNodeView>,
    memo: Map<u64, NodeRef>,
    edges: Seq<(String, NodeRef)>,
    j: int,
    h: Seq<FlowNodeView>,
)
    requires
        in_progress(g0, memo0, n, node, g, memo, edges, j),
        0 <= j < edges.len(),
        memo.contains_key(edges[j].1),
        h == edge_turned(g, memo[node], edges[j].0@, memo[edges[j].1]),
    ensures
        in_progress(g0, memo0, n, node, h, memo, edges, j + 1),
{
    assert forall|k: u64| #[trigger]
        memo.contains_key(k) && !memo0.contains_key(k) && k != node implies has_copy(
        g0,
        h,
        memo,
        k,
    ) by {
        lemma_copy_stays(g0, g, memo, h, memo, k);
    }
    let v = g0[node as int];
    let w = g[g0.len() as int];
    let x = h[g0.len() as int];
    assert(v.core.successors.contains_key(edges[j].0@));
    assert(x.core.successors.dom() =~= v.core.successors.dom());
    assert(half_turned(v, memo[node], memo, edges, j + 1, x));
    assert(g0.is_prefix_of(h)) by {
        assert forall|i: int| 0 <= i < g0.len() implies g0[i] == h[i] by {
            assert(g0[i] == g[i]);
        }
    }
}

/// All edges turned and the start too: the copy is complete.
proof fn lemma_progress_ends(
    g0: Seq<FlowNodeView>,
    memo0: Map<u64, NodeRef>,
    n: nat,
    node: NodeRef,
    g: Seq<FlowNodeView>,
    memo: Map<u64, NodeRef>,
    edges: Seq<(String, NodeRef)>,
    h: Seq<FlowNodeView>,
)
    requires
        in_progress(g0, memo0, n, node, g, memo, edges, edges.len() as int),
        g0[node as int].kind.start() is Some ==> memo.contains_key(
            g0[node as int].kind.start()->0,
        ),
        h == start_turned(
            g,
            memo[node],
            match g0[node as int].kind.start() {
                Some(s) => Some(memo[s]),
                None => None,
            },
        ),
    ensures
        cloned_from(g0, memo0, node, h, memo),
{
    let v = g0[node as int];
    let w = h[g0.len() as int];
    assert forall|action: Seq<char>| #[trigger] v.core.successors.contains_key(action) implies memo.contains_key(
    v.core.successors[action]) && w.core.successors[action] == memo[v.core.successors[action]] by {
        let i = choose|i: int| 0 <= i < edges.len() && (#[trigger] edges[i]).0@ == action;
        assert(edges[i].0@ == action);
    }
    assert(w.core.successors =~= v.core.successors.map_values(|t: NodeRef| memo[t]));
    assert(w == v.cloned(memo[node], memo));
    assert(has_copy(g0, h, memo, node));
    assert(reaches_in(g0, memo0.dom(), node, node, 0));
    assert forall|k: u64| #[trigger] memo.contains_key(k) && !memo0.contains_key(k) implies has_copy(
        g0,
        h,
        memo,
        k,
    ) && reaches(g0, memo0.dom(), node, k) by {
        if k != node {
            lemma_copy_stays(g0, g, memo, h, memo, k);
        }
    }
    assert(g0.is_prefix_of(h)) by {
        assert forall|i: int| 0 <= i < g0.len() implies g0[i] == h[i] by {
            assert(g0[i] == g[i]);
        }
    }
}

impl Graph {
    /// Deep-clone a node and its successor subgraph (cycle-safe via the memo).
    pub fn clone_graph(&mut self, node: NodeRef, memo: &mut CloneMemo) -> (r: NodeRef)
        requires
            old(self).wf(),
            node < old(self)@.len(),
            memo_within(old(memo)@, old(self)@.len(), old(self)@.len()),
        ensures
            final(self).wf(),
            cloned_from(old(self)@, old(memo)@, node, final(self)@, final(memo)@),
            memo_within(final(memo)@, old(self)@.len(), final(self)@.len()),
            r == final(memo)@[node],
    {
        let ghost n = self@.len();
        proof {
            self.lemma_linked();
        }
        self.clone_below(node, memo, Ghost(n))
    }

    fn clone_below(&mut self, node: NodeRef, memo: &mut CloneMemo, Ghost(n): Ghost<nat>) -> (r:
        NodeRef)
        requires
            old(self).wf(),
            n <= old(self)@.len(),
            closed_below(old(self)@, n),
            node < n,
            memo_within(old(memo)@, n, old(self)@.len()),
        ensures
            final(self).wf(),
            cloned_from(old(self)@, old(memo)@, node, final(self)@, final(memo)@),
            memo_within(final(memo)@, n, final(self)@.len()),
            r == final(memo)@[node],
        decreases unknown(old(memo)@.dom(), n),
    {
        let found = match memo.get(&node) {
            Some(c) => Some(*c),
            None => None,
        };
        if let Some(c) = found {
            return c;
        }
        let ghost g0 = self@;
        let ghost memo0 = memo@;
        let id = self.len() as u64;
        let copy = self.node(node).copied(id);
        let edges = copy.node_core().successor_entries();
        let start = copy.start_node();
        proof {
            assert forall|t: NodeRef| #[trigger] copy@.mentions(t) implies t < n by {
                assert(g0[node as int].mentions(t));
            }
        }
        self.place(copy);
        memo.insert(node, id);
        proof {
            assert(memo@.dom().contains(node));
            lemma_unknown_shrinks(memo0.dom(), memo@.dom(), n);
            lemma_progress_begins(g0, memo0, n, node, self@, memo@, edges@);
        }
        for j in 0..edges.len()
            invariant
                memo0 == old(memo)@,
                in_progress(g0, memo0, n, node, self@, memo@, edges@, j as int),
                self.wf(),
                id == g0.len(),
                unknown(memo@.dom(), n) < unknown(memo0.dom(), n),
        {
            let ghost g1 = self@;
            let ghost memo1 = memo@;
            let target = edges[j].1;
            proof {
                lemma_edge_leads(g0, memo0, n, node, g1, memo1, edges@, j as int);
            }
            let c = self.clone_below(target, memo, Ghost(n));
            let ghost g2 = self@;
            self.turn_edge(id, edges[j].0.clone(), c);
            proof {
                lemma_unknown_shrinks(memo1.dom(), memo@.dom(), n);
                lemma_progress_grows(
                    g0,
                    memo0,
                    n,
                    node,
                    g1,
                    memo1,
                    edges@,
                    j as int,
                    target,
                    g2,
                    memo@,
                );
                lemma_progress_turns(g0, memo0, n, node, g2, memo@, edges@, j as int, self@);
            }
        }
        let ghost g1 = self@;
        let ghost memo1 = memo@;
        if let Some(s) = start {
            proof {
                assert(g0[node as int].leads_to(s));
                assert(g0[node as int].mentions(s));
                lemma_still_closed(g0, g1, n);
            }
            let c = self.clone_below(s, memo, Ghost(n));
            let ghost g2 = self@;
            self.turn_start(id, c);
            proof {
                lemma_progress_grows(
                    g0,
                    memo0,
                    n,
                    node,
                    g1,
                    memo1,
                    edges@,
                    edges.len() as int,
                    s,
                    g2,
                    memo@,
                );
                lemma_progress_ends(g0, memo0, n, node, g2, memo@, edges@, self@);
            }
        } else {
            proof {
                assert(g1 =~= start_turned(g1, id, None));
                lemma_progress_ends(g0, memo0, n, node, g1, memo@, edges@, g1);
            }
        }
        id
    }
}

} // verus!
