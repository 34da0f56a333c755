//! What holds of the engine across its parts: params and edges of nodes, and the
//! isolation that cloned graphs give. The modules below state, part by part, what every
//! call gives for every input.

pub mod flows;
pub mod graphs;
pub mod nodes;
pub mod running;
pub mod texts;

use tokio_util::sync::CancellationToken;
use vstd::prelude::*;

use crate::cloning::{cloned_from, has_copy, is_copy};
use crate::flow::walk;
use crate::flow_node::FlowNodeView;
use crate::graph::{core_set, Graph};
use crate::node_core::{NodeCoreView, NodeOpts};
use crate::types::{edge_key, Action, NodeRef};

verus! {

/// A node's own params win over the bundle's, and those over the flow's; a key
/// that none of them has is not there.
pub proof fn law_param_layers(
    node: NodeCoreView,
    flow: Map<Seq<char>, serde_json::Value>,
    bundle: Map<Seq<char>, serde_json::Value>,
    key: Seq<char>,
)
    ensures
        node.injected(flow.union_prefer_right(bundle)).params.get(key) == (if node.own_params is Some
            && node.own_params->0.contains_key(key) {
            node.own_params->0.get(key)
        } else if bundle.contains_key(key) {
            bundle.get(key)
        } else {
            flow.get(key)
        }),
{
}

/// Injected params are defaults only: they never change a node's own, and each
/// injection replaces what the one before it left.
pub proof fn law_injection_is_fresh(
    node: NodeCoreView,
    first: Map<Seq<char>, serde_json::Value>,
    second: Map<Seq<char>, serde_json::Value>,
)
    ensures
        node.injected(first).own_params == node.own_params,
        node.injected(first).injected(second) == node.injected(second),
{
}

/// A wired edge is the one that its action follows, and no other action is
/// affected by it.
pub proof fn law_wired_edge_is_followed(
    node: NodeCoreView,
    wired: Action,
    target: NodeRef,
    action: Action,
)
    ensures
        node.with_edge(edge_key(wired), target).successor(wired) == Some(target),
        edge_key(action) != edge_key(wired) ==> node.with_edge(edge_key(wired), target).successor(
            action,
        ) == node.successor(action),
{
}

/// An action without an edge ends the flow, and so does every action of a node
/// without edges.
pub proof fn law_no_edge_no_successor(node: NodeCoreView, action: Action)
    ensures
        !node.successors.contains_key(edge_key(action)) ==> node.successor(action) is None,
        node.successors.dom().is_empty() ==> node.successor(action) is None
            && !node.likely_typo(action),
        action is None ==> !node.likely_typo(action),
{
}

/// Default options leave a node as it was made: a single attempt, no timeout,
/// sequential.
pub proof fn law_default_opts_change_nothing(name: Seq<char>)
    ensures
        NodeCoreView::fresh(name).with_opts(NodeOpts::plain()) == NodeCoreView::fresh(name),
{
}

/// What happens to a node on account of runs.
pub enum RunEvent {
    /// It enters a run with this token.
    Enter(CancellationToken),
    /// One of its runs is over.
    Leave,
}

/// The node after a series of such events.
pub open spec fn after_runs(node: NodeCoreView, events: Seq<RunEvent>) -> NodeCoreView
    decreases events.len(),
{
    if events.len() == 0 {
        node
    } else {
        let before = after_runs(node, events.drop_last());
        match events.last() {
            RunEvent::Enter(signal) => before.under(signal),
            RunEvent::Leave => before.left(),
        }
    }
}

/// How many runs of a series were entered and are not over.
pub open spec fn open_runs(events: Seq<RunEvent>) -> int
    decreases events.len(),
{
    if events.len() == 0 {
        0
    } else {
        open_runs(events.drop_last()) + match events.last() {
            RunEvent::Enter(_) => 1int,
            RunEvent::Leave => -1int,
        }
    }
}

/// The token of the last run entered in a series.
pub open spec fn last_entered(events: Seq<RunEvent>) -> Option<CancellationToken>
    decreases events.len(),
{
    if events.len() == 0 {
        None
    } else {
        match events.last() {
            RunEvent::Enter(signal) => Some(signal),
            RunEvent::Leave => last_entered(events.drop_last()),
        }
    }
}

/// No run is over before it was entered, and there are never more at once than the
/// machine can count.
pub open spec fn orderly_runs(events: Seq<RunEvent>) -> bool {
    forall|k: int| 0 <= k <= events.len() ==> 0 <= #[trigger] open_runs(events.take(k)) <= u64::MAX
}

/// A node has a token exactly while it is inside a run, however its runs overlap,
/// and it is the token of the run that it entered last. Once all of them are over
/// the node is as it was outside them.
pub proof fn law_token_lasts_as_long_as_runs(node: NodeCoreView, events: Seq<RunEvent>)
    requires
        node.runs == 0,
        node.signal is None,
        orderly_runs(events),
    ensures
        after_runs(node, events) == (NodeCoreView {
            runs: open_runs(events) as u64,
            signal: if open_runs(events) > 0 {
                last_entered(events)
            } else {
                None
            },
            ..node
        }),
        open_runs(events) > 0 ==> after_runs(node, events).signal is Some,
        open_runs(events) == 0 ==> after_runs(node, events) == node,
    decreases events.len(),
{
    assert(events.take(events.len() as int) =~= events);
    assert(0 <= open_runs(events.take(events.len() as int)) <= u64::MAX);
    if events.len() > 0 {
        let before = events.drop_last();
        assert forall|k: int| 0 <= k <= before.len() implies 0 <= #[trigger] open_runs(
            before.take(k),
        ) <= u64::MAX by {
            assert(before.take(k) =~= events.take(k));
            assert(0 <= open_runs(events.take(k)) <= u64::MAX);
        }
        law_token_lasts_as_long_as_runs(node, before);
    }
}

/// The nodes of a graph have tokens exactly inside runs.
pub proof fn law_token_exactly_inside_runs(graph: Graph, i: int)
    requires
        graph.wf(),
        0 <= i < graph@.len(),
    ensures
        graph@[i].core.signal is Some <==> graph@[i].core.runs > 0,
{
    graph.lemma_token(i);
}

/// No two nodes of a graph have the same id.
pub proof fn law_ids_are_unique(graph: Graph, i: int, j: int)
    requires
        graph.wf(),
        0 <= i < graph@.len(),
        0 <= j < graph@.len(),
        graph@[i].core.id == graph@[j].core.id,
    ensures
        i == j,
{
    graph.lemma_ids(i);
    graph.lemma_ids(j);
}

/// A clone behaves as the original does: whatever actions the nodes return, the
/// walk from the clone visits the copies of the nodes that the walk from the
/// original visits, and ends where that one ends. A copy has the name, the
/// config and the params of its original. Cycles are preserved.
pub proof fn law_clone_walks_alike(
    g0: Seq<FlowNodeView>,
    node: NodeRef,
    g1: Seq<FlowNodeView>,
    memo: Map<u64, NodeRef>,
    actions: Seq<Action>,
)
    requires
        cloned_from(g0, Map::empty(), node, g1, memo),
    ensures
        match walk(g0, Some(node), actions) {
            Some(k) => {
                &&& memo.contains_key(k)
                &&& walk(g1, Some(memo[node]), actions) == Some(memo[k])
                &&& g1[memo[k] as int].core == (NodeCoreView {
                    successors: g1[memo[k] as int].core.successors,
                    ..g0[k as int].core.copied(memo[k])
                })
            },
            None => walk(g1, Some(memo[node]), actions) is None,
        },
    decreases actions.len(),
{
    if actions.len() == 0 {
        assert(has_copy(g0, g1, memo, node));
    } else {
        let before = actions.drop_last();
        law_clone_walks_alike(g0, node, g1, memo, before);
        if let Some(k) = walk(g0, Some(node), before) {
            assert(has_copy(g0, g1, memo, k));
            let v = g0[k as int];
            let key = edge_key(actions.last());
            if v.core.successors.contains_key(key) {
                let t = v.core.successors[key];
                assert(v.leads_to(t));
                assert(has_copy(g0, g1, memo, t));
            }
        }
    }
}

/// A clone is cut off from the graph that was there, as far as edges and starts
/// lead: none of them leads to a node that was there before. The sub-flow of a
/// Subflow and the branches of a fork are not cloned and stay shared.
pub proof fn law_clone_is_separate(
    g0: Seq<FlowNodeView>,
    node: NodeRef,
    g1: Seq<FlowNodeView>,
    memo: Map<u64, NodeRef>,
    copy: NodeRef,
    target: NodeRef,
)
    requires
        cloned_from(g0, Map::empty(), node, g1, memo),
        g0.len() <= copy < g1.len(),
        g1[copy as int].leads_to(target),
    ensures
        g0.len() <= target < g1.len(),
{
    assert(is_copy(Map::empty(), memo, copy as int));
    let k = choose|k: u64| #[trigger] memo.contains_key(k) && memo[k] == copy;
    assert(has_copy(g0, g1, memo, k));
    let v = g0[k as int];
    let w = g1[copy as int];
    if w.kind.start() == Some(target) {
        let s = v.kind.start()->0;
        assert(v.leads_to(s));
        assert(has_copy(g0, g1, memo, s));
    } else {
        let a = choose|a: Seq<char>| #[trigger]
            w.core.successors.contains_key(a) && w.core.successors[a] == target;
        let t = v.core.successors[a];
        assert(v.core.successors.contains_key(a));
        assert(v.leads_to(t));
        assert(has_copy(g0, g1, memo, t));
    }
}

/// Running over a clone leaves the original alone: the params injected along a
/// walk from the clone, and the edges wired there, change no node that was there
/// before.
pub proof fn law_clone_leaves_original(
    g0: Seq<FlowNodeView>,
    node: NodeRef,
    g1: Seq<FlowNodeView>,
    memo: Map<u64, NodeRef>,
    actions: Seq<Action>,
    params: Map<Seq<char>, serde_json::Value>,
    i: int,
)
    requires
        cloned_from(g0, Map::empty(), node, g1, memo),
        walk(g1, Some(memo[node]), actions) is Some,
        0 <= i < g0.len(),
    ensures
        ({
            let at = walk(g1, Some(memo[node]), actions)->0;
            core_set(g1, at, g1[at as int].core.injected(params))[i] == g0[i]
        }),
{
    law_clone_walks_alike(g0, node, g1, memo, actions);
    let k = walk(g0, Some(node), actions)->0;
    assert(has_copy(g0, g1, memo, k));
    assert(g1[i] == g0[i]);
}

/// The graph still has the edges of an earlier one. What else a run does to its
/// nodes, such as the params it injects, is left open.
pub open spec fn keeps_edges(g: Seq<FlowNodeView>, h: Seq<FlowNodeView>) -> bool {
    &&& g.len() <= h.len()
    &&& forall|i: int|
        0 <= i < g.len() ==> (#[trigger] h[i]).core.successors == g[i].core.successors
}

/// Two clones of one graph share no node that edges lead to: bundles that run at
/// the same time over clones of their own never visit the same node. Sub-flows and
/// branches, which are not cloned, are shared by all clones.
pub proof fn law_clones_never_meet(
    g0: Seq<FlowNodeView>,
    node: NodeRef,
    g1: Seq<FlowNodeView>,
    memo1: Map<u64, NodeRef>,
    h: Seq<FlowNodeView>,
    g2: Seq<FlowNodeView>,
    memo2: Map<u64, NodeRef>,
    actions1: Seq<Action>,
    actions2: Seq<Action>,
)
    requires
        cloned_from(g0, Map::empty(), node, g1, memo1),
        keeps_edges(g1, h),
        cloned_from(h, Map::empty(), node, g2, memo2),
        walk(g2, Some(memo1[node]), actions1) is Some,
        walk(g2, Some(memo2[node]), actions2) is Some,
    ensures
        walk(g2, Some(memo1[node]), actions1) != walk(g2, Some(memo2[node]), actions2),
{
    law_clone_walks_alike(h, node, g2, memo2, actions2);
    let k2 = walk(h, Some(node), actions2)->0;
    assert(has_copy(h, g2, memo2, k2));
    assert forall|i: int| 0 <= i < g1.len() implies (#[trigger] g2[i]).core.successors
        == g1[i].core.successors by {
        assert(g2[i] == h[i]);
    }
    lemma_same_walk(g0, node, g1, memo1, g2, actions1);
    law_clone_walks_alike(g0, node, g1, memo1, actions1);
    let k1 = walk(g0, Some(node), actions1)->0;
    assert(has_copy(g0, g1, memo1, k1));
}

/// A walk from a clone stays the same as long as the edges do.
proof fn lemma_same_walk(
    g0: Seq<FlowNodeView>,
    node: NodeRef,
    g1: Seq<FlowNodeView>,
    memo: Map<u64, NodeRef>,
    g2: Seq<FlowNodeView>,
    actions: Seq<Action>,
)
    requires
        cloned_from(g0, Map::empty(), node, g1, memo),
        keeps_edges(g1, g2),
    ensures
        walk(g2, Some(memo[node]), actions) == walk(g1, Some(memo[node]), actions),
    decreases actions.len(),
{
    if actions.len() > 0 {
        let before = actions.drop_last();
        lemma_same_walk(g0, node, g1, memo, g2, before);
        law_clone_walks_alike(g0, node, g1, memo, before);
        if let Some(k) = walk(g0, Some(node), before) {
            assert(has_copy(g0, g1, memo, k));
            assert(g2[memo[k] as int].core.successors == g1[memo[k] as int].core.successors);
        }
    }
}

} // verus!
