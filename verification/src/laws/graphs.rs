//! What holds of nodes in a graph: what each kind of node stands for, wiring, and
//! the copies that cloning makes.

use tokio_util::sync::CancellationToken;
use vstd::prelude::*;

use crate::batch_flow::BatchFlow;
use crate::cloning::{cloned_from, has_copy, is_copy, memo_within, reaches, reaches_in};
use crate::flow::Flow;
use crate::flow_node::{FlowNode, FlowNodeView, Kind};
use crate::fork_join::ForkJoin;
use crate::graph::{
    branches_resolved, core_set, edge_turned, linked, start_turned, Graph, OnBuilder, Wired,
};
use crate::json::{entries, shape, Shape};
use crate::node_core::{NodeCore, NodeCoreView};
use crate::subflow::Subflow;
use crate::types::{Action, CloneMemo, HookRef, NodeRef, Params};

verus! {

/* -------------------------------- nodes -------------------------------- */

/// A node of a graph stands for what it was made of: its own name, config, params and
/// edges, and the config of its kind, each setting under its own name.
pub proof fn law_node_stands_for_its_parts(
    plain: NodeCore,
    flow: Flow,
    batch: BatchFlow,
    sub: Subflow,
    fork: ForkJoin,
)
    ensures
        FlowNode::Node(plain)@.core == plain@,
        FlowNode::Node(plain)@.kind is Plain,
        FlowNode::Flow(flow)@.core == flow@.core,
        FlowNode::Flow(flow)@.kind == (Kind::Flow {
            start: flow@.start_node,
            max_steps: flow@.max_steps,
            hooks: flow@.hooks,
            ops: flow@.ops,
        }),
        FlowNode::BatchFlow(batch)@.core == batch@.core,
        FlowNode::BatchFlow(batch)@.kind == (Kind::BatchFlow {
            start: batch@.start_node,
            max_steps: batch@.max_steps,
            hooks: batch@.hooks,
            concurrency: batch@.concurrency,
            fail_fast: batch@.fail_fast,
            clone_shared: batch@.clone_shared,
            ops: batch@.ops,
        }),
        FlowNode::Subflow(sub)@.core == sub@.core,
        FlowNode::Subflow(sub)@.kind == (Kind::Subflow {
            sub: sub@.sub,
            clone_shared: sub@.clone_shared,
            ops: sub@.ops,
        }),
        FlowNode::ForkJoin(fork)@.core == fork@.core,
        FlowNode::ForkJoin(fork)@.kind == (Kind::ForkJoin {
            branches: fork@.branches,
            resolved: fork@.resolved,
            concurrency: fork@.concurrency,
            fail_fast: fork@.fail_fast,
            clone_shared: fork@.clone_shared,
            ops: fork@.ops,
        }),
{
}

/// A node leads on exactly along its edges and, where it is a flow, to its start; it
/// mentions besides exactly its sub-flow or its branches.
pub proof fn law_what_a_node_refers_to(v: FlowNodeView, node: NodeRef, action: Seq<char>)
    ensures
        v.core.successors.contains_key(action) ==> v.leads_to(v.core.successors[action])
            && v.mentions(v.core.successors[action]),
        v.leads_to(node) && v.kind.start() != Some(node) ==> exists|a: Seq<char>| #[trigger]
            v.core.successors.contains_key(a) && v.core.successors[a] == node,
        v.kind.start() == Some(node) ==> v.leads_to(node) && v.mentions(node),
        v.kind is Flow ==> v.kind.start() == v.kind->Flow_start,
        v.kind is BatchFlow ==> v.kind.start() == v.kind->BatchFlow_start,
        !(v.kind is Flow || v.kind is BatchFlow) ==> v.kind.start() is None,
        v.mentions(node) && !v.leads_to(node) ==> (v.kind is Subflow && v.kind->sub == node) || (
        v.kind is ForkJoin && (v.kind->branches.contains(node) || v.kind->resolved.contains(
            node,
        ))),
        v.kind is Subflow ==> v.mentions(v.kind->sub),
        v.kind is ForkJoin && v.kind->branches.contains(node) ==> v.mentions(node),
        v.kind is ForkJoin && v.kind->resolved.contains(node) ==> v.mentions(node),
{
}

/// A flow that starts elsewhere keeps its hooks, its step budget and the rest of its
/// config; a node that is no flow has no start to turn.
pub proof fn law_start_turns_alone(kind: Kind, node: Option<NodeRef>)
    ensures
        kind is Flow ==> kind.with_start(node) == (Kind::Flow {
            start: node,
            max_steps: kind->Flow_max_steps,
            hooks: kind->Flow_hooks,
            ops: kind->Flow_ops,
        }),
        kind is BatchFlow ==> kind.with_start(node) == (Kind::BatchFlow {
            start: node,
            max_steps: kind->BatchFlow_max_steps,
            hooks: kind->BatchFlow_hooks,
            concurrency: kind->BatchFlow_concurrency,
            fail_fast: kind->BatchFlow_fail_fast,
            clone_shared: kind->BatchFlow_clone_shared,
            ops: kind->BatchFlow_ops,
        }),
        !(kind is Flow || kind is BatchFlow) ==> kind.with_start(node) == kind,
{
}

/// A hook set that is registered comes last, behind the ones that were there, and
/// nothing else about the flow changes. A node that is no flow takes none.
pub proof fn law_hooks_are_registered_in_order(kind: Kind, hook: HookRef, other: HookRef)
    ensures
        kind is Flow ==> kind.with_hooks(hook).with_hooks(other) == (Kind::Flow {
            start: kind->Flow_start,
            max_steps: kind->Flow_max_steps,
            hooks: kind->Flow_hooks + seq![hook, other],
            ops: kind->Flow_ops,
        }),
        kind is BatchFlow ==> kind.with_hooks(hook).with_hooks(other) == (Kind::BatchFlow {
            start: kind->BatchFlow_start,
            max_steps: kind->BatchFlow_max_steps,
            hooks: kind->BatchFlow_hooks + seq![hook, other],
            concurrency: kind->BatchFlow_concurrency,
            fail_fast: kind->BatchFlow_fail_fast,
            clone_shared: kind->BatchFlow_clone_shared,
            ops: kind->BatchFlow_ops,
        }),
        !(kind is Flow || kind is BatchFlow) ==> kind.with_hooks(hook) == kind,
{
    if kind is Flow {
        assert(kind->Flow_hooks.push(hook).push(other) =~= kind->Flow_hooks + seq![hook, other]);
    }
    if kind is BatchFlow {
        assert(kind->BatchFlow_hooks.push(hook).push(other) =~= kind->BatchFlow_hooks
            + seq![hook, other]);
    }
}

/// The branches that a fork runs replace those of the run before, and the branches
/// that it was made with stay.
pub proof fn law_branches_are_resolved_anew(kind: Kind, nodes: Seq<NodeRef>)
    ensures
        kind is ForkJoin ==> kind.with_resolved(nodes) == (Kind::ForkJoin {
            branches: kind->ForkJoin_branches,
            resolved: nodes,
            concurrency: kind->ForkJoin_concurrency,
            fail_fast: kind->ForkJoin_fail_fast,
            clone_shared: kind->ForkJoin_clone_shared,
            ops: kind->ForkJoin_ops,
        }),
        !(kind is ForkJoin) ==> kind.with_resolved(nodes) == kind,
{
}

/// A node of any kind tells its own name, params and token, and follows its own edges;
/// only a flow has a start. Its own params are set without touching its kind.
pub proof fn law_node_of_a_graph_tells(
    node: &FlowNode,
    core: &NodeCore,
    start: Option<NodeRef>,
    name: &str,
    params: Params,
    key: &str,
    param: Option<serde_json::Value>,
    signal: Option<CancellationToken>,
    set: &mut FlowNode,
    own: serde_json::Value,
)
    requires
        old(set).wf(),
        call_ensures(FlowNode::node_core, (node,), core),
        call_ensures(FlowNode::start_node, (node,), start),
        call_ensures(FlowNode::name, (node,), name),
        call_ensures(FlowNode::params, (node,), params),
        call_ensures(FlowNode::param, (node, key), param),
        call_ensures(FlowNode::signal, (node,), signal),
        call_ensures(FlowNode::set_params, (set, own), ()),
    ensures
        core@ == node@.core,
        node@.kind is Flow ==> start == node@.kind->Flow_start,
        node@.kind is BatchFlow ==> start == node@.kind->BatchFlow_start,
        !(node@.kind is Flow || node@.kind is BatchFlow) ==> start is None,
        name@ == node@.core.name,
        entries(params) == node@.core.params,
        param is Some <==> node@.core.params.contains_key(key@),
        param is Some ==> param->0 == node@.core.params[key@],
        signal == node@.core.signal,
        final(set)@.kind == old(set)@.kind,
        shape(own) matches Shape::Object(m) ==> final(set)@.core.params == m
            && final(set)@.core.own_params == Some(m),
        !(shape(own) is Object) ==> final(set)@.core.own_params is Some
            && !final(set)@.core.params.contains_key(key@),
        final(set)@.core == (NodeCoreView {
            params: final(set)@.core.params,
            own_params: final(set)@.core.own_params,
            ..old(set)@.core
        }),
{
}

/* -------------------------------- graphs ------------------------------- */

/// What is done to one node of a graph is done to that node only.
pub proof fn law_one_node_changes(
    g: Seq<FlowNodeView>,
    node: NodeRef,
    core: NodeCoreView,
    action: Seq<char>,
    target: NodeRef,
    start: Option<NodeRef>,
    branches: Seq<NodeRef>,
    i: int,
)
    requires
        node < g.len(),
        0 <= i < g.len(),
    ensures
        core_set(g, node, core).len() == g.len(),
        core_set(g, node, core)[node as int].core == core,
        core_set(g, node, core)[node as int].kind == g[node as int].kind,
        edge_turned(g, node, action, target).len() == g.len(),
        edge_turned(g, node, action, target)[node as int].core.successors.get(action) == Some(
            target,
        ),
        edge_turned(g, node, action, target)[node as int].kind == g[node as int].kind,
        edge_turned(g, node, action, target)[node as int].core == (NodeCoreView {
            successors: g[node as int].core.successors.insert(action, target),
            ..g[node as int].core
        }),
        start_turned(g, node, start).len() == g.len(),
        start_turned(g, node, start)[node as int].core == g[node as int].core,
        start_turned(g, node, start)[node as int].kind == g[node as int].kind.with_start(start),
        g[node as int].kind is Flow || g[node as int].kind is BatchFlow ==> start_turned(
            g,
            node,
            start,
        )[node as int].kind.start() == start,
        branches_resolved(g, node, branches).len() == g.len(),
        branches_resolved(g, node, branches)[node as int].core == g[node as int].core,
        branches_resolved(g, node, branches)[node as int].kind
            == g[node as int].kind.with_resolved(branches),
        g[node as int].kind is ForkJoin ==> branches_resolved(
            g,
            node,
            branches,
        )[node as int].kind->resolved == branches,
        i != node ==> {
            &&& core_set(g, node, core)[i] == g[i]
            &&& edge_turned(g, node, action, target)[i] == g[i]
            &&& start_turned(g, node, start)[i] == g[i]
            &&& branches_resolved(g, node, branches)[i] == g[i]
        },
{
}

/// A node that is added takes the next place, as it is; the others stay.
pub proof fn law_added_node(
    graph: &mut Graph,
    node: FlowNode,
    r: NodeRef,
    later: &Graph,
    found: &FlowNode,
    i: int,
)
    requires
        old(graph).wf(),
        node.wf(),
        forall|t: NodeRef| #[trigger] node@.mentions(t) ==> t < old(graph)@.len(),
        call_ensures(Graph::add, (graph, node), r),
        *later == *final(graph),
        call_ensures(Graph::node, (later, r), found),
    ensures
        r == old(graph)@.len(),
        final(graph)@.len() == old(graph)@.len() + 1,
        0 <= i < old(graph)@.len() ==> final(graph)@[i] == old(graph)@[i],
        found@.core.id == r,
        found@.core == (NodeCoreView { id: r, ..node@.core }),
        found@.kind == node@.kind,
{
}

/// The size of a graph, the nodes it has and the nodes it can take.
pub proof fn law_graph_size(
    graph: &Graph,
    fresh: Graph,
    node: NodeRef,
    candidate: &FlowNode,
    len: usize,
    has: bool,
    admitted: bool,
    t: NodeRef,
)
    requires
        candidate.wf(),
        call_ensures(Graph::new, (), fresh),
        call_ensures(Graph::len, (graph,), len),
        call_ensures(Graph::contains, (graph, node), has),
        call_ensures(Graph::admits, (graph, candidate), admitted),
    ensures
        fresh@.len() == 0,
        len == graph@.len(),
        has <==> node < len,
        admitted && candidate@.mentions(t) ==> t < len,
        !admitted ==> exists|u: NodeRef| #[trigger] candidate@.mentions(u) && u >= len,
{
}

/// Wired in a graph, by name or fluently, an edge is the one that the name resolves to
/// from then on; the default edge is the one that no name resolves to. The other names
/// of the node, and all other nodes, stay as they were.
pub proof fn law_wired_graph_leads_on(
    graph: &mut Graph,
    node: NodeRef,
    successor: NodeRef,
    name: &str,
    r: Wired,
    later: &Graph,
    found: &FlowNode,
    action: &Action,
    leads: Option<NodeRef>,
    i: int,
)
    requires
        old(graph).wf(),
        node < old(graph)@.len(),
        successor < old(graph)@.len(),
        0 <= i < old(graph)@.len(),
        call_ensures(Graph::next_action, (graph, node, successor, name), r),
        *later == *final(graph),
        call_ensures(Graph::node, (later, node), found),
        call_ensures(FlowNode::resolve_successor, (found, action), leads),
    ensures
        r.node == successor,
        r.warning is Some <==> old(graph)@[node as int].core.successors.contains_key(name@),
        *action is Some && action->0@ == name@ ==> leads == Some(successor),
        *action is None && name@ == "default"@ ==> leads == Some(successor),
        *action is Some && action->0@ != name@ ==> leads
            == old(graph)@[node as int].core.successors.get(action->0@),
        *action is None && name@ != "default"@ ==> leads
            == old(graph)@[node as int].core.successors.get("default"@),
        final(graph)@.len() == old(graph)@.len(),
        i != node ==> final(graph)@[i] == old(graph)@[i],
        found@.kind == old(graph)@[node as int].kind,
        found@.core == (NodeCoreView {
            successors: found@.core.successors,
            ..old(graph)@[node as int].core
        }),
{
}

/// The default edge is the one that a node without a name for its action follows, and
/// wiring it disturbs no name.
pub proof fn law_wired_default_leads_on(
    graph: &mut Graph,
    node: NodeRef,
    successor: NodeRef,
    r: Wired,
    later: &Graph,
    found: &FlowNode,
    action: &Action,
    leads: Option<NodeRef>,
)
    requires
        old(graph).wf(),
        node < old(graph)@.len(),
        successor < old(graph)@.len(),
        call_ensures(Graph::next, (graph, node, successor), r),
        *later == *final(graph),
        call_ensures(Graph::node, (later, node), found),
        call_ensures(FlowNode::resolve_successor, (found, action), leads),
    ensures
        r.node == successor,
        r.warning is Some <==> old(graph)@[node as int].core.successors.contains_key("default"@),
        *action is None ==> leads == Some(successor),
        *action is Some && action->0@ == "default"@ ==> leads == Some(successor),
        *action is Some && action->0@ != "default"@ ==> leads
            == old(graph)@[node as int].core.successors.get(action->0@),
{
}

/// Fluent wiring wires the edge that it names, at the node that it names.
pub proof fn law_fluent_wiring_leads_on(
    before: &Graph,
    node: NodeRef,
    name: &str,
    builder: OnBuilder,
    graph: &mut Graph,
    successor: NodeRef,
    r: Wired,
    later: &Graph,
    found: &FlowNode,
    action: &Action,
    leads: Option<NodeRef>,
)
    requires
        old(graph).wf(),
        *before == *old(graph),
        node < old(graph)@.len(),
        successor < old(graph)@.len(),
        call_ensures(Graph::on, (before, node, name), builder),
        call_ensures(OnBuilder::to, (builder, graph, successor), r),
        *later == *final(graph),
        call_ensures(Graph::node, (later, node), found),
        call_ensures(FlowNode::resolve_successor, (found, action), leads),
    ensures
        r.node == successor,
        r.warning is Some <==> before@[node as int].core.successors.contains_key(name@),
        *action is Some && action->0@ == name@ ==> leads == Some(successor),
        *action is Some && action->0@ != name@ ==> leads
            == before@[node as int].core.successors.get(action->0@),
{
}

/// Params of a node in a graph: its own replace what was in force, and a flow's are
/// defaults below them, key by key. No other node notices.
pub proof fn law_graph_params(
    own: &mut Graph,
    node: NodeRef,
    params: serde_json::Value,
    inject: &mut Graph,
    injected: &Params,
    key: Seq<char>,
    i: int,
)
    requires
        old(own).wf(),
        node < old(own)@.len(),
        old(inject).wf(),
        *old(inject) == *final(own),
        0 <= i < old(own)@.len(),
        call_ensures(Graph::set_params, (own, node, params), ()),
        call_ensures(Graph::inject_params, (inject, node, injected), ()),
    ensures
        ({
            let is_own = shape(params) matches Shape::Object(m) && m.contains_key(key);
            let after = final(inject)@[node as int].core;
            &&& is_own ==> after.params.get(key) == Some(shape(params)->Object_0[key])
            &&& !is_own ==> after.params.get(key) == entries(*injected).get(key)
            &&& after == (NodeCoreView {
                params: after.params,
                own_params: after.own_params,
                ..old(own)@[node as int].core
            })
        }),
        final(inject)@[node as int].kind == old(own)@[node as int].kind,
        final(inject)@.len() == old(own)@.len(),
        i != node ==> final(inject)@[i] == old(own)@[i],
{
}

/// A node of a graph that enters a run and leaves it again is as it was outside runs;
/// in between it has the token of the run.
pub proof fn law_run_leaves_no_trace(
    enter: &mut Graph,
    node: NodeRef,
    signal: &CancellationToken,
    leave: &mut Graph,
)
    requires
        old(enter).wf(),
        node < old(enter)@.len(),
        old(enter)@[node as int].core.runs == 0,
        old(enter)@[node as int].core.signal is None,
        *old(leave) == *final(enter),
        call_ensures(Graph::set_signal, (enter, node, signal), ()),
        call_ensures(Graph::leave_run, (leave, node), ()),
    ensures
        final(enter)@[node as int].core.signal == Some(*signal),
        final(enter)@[node as int].core.runs == 1,
        final(leave)@ == old(enter)@,
{
    assert(final(leave)@ =~= old(enter)@);
}

/// The start of a flow, its hooks and the branches of a fork, set in a graph, are what
/// the node has from then on. No other node notices.
pub proof fn law_graph_kinds(
    start: &mut Graph,
    hooked: &mut Graph,
    resolve: &mut Graph,
    at: NodeRef,
    node: NodeRef,
    r: NodeRef,
    hooks: HookRef,
    branches: Vec<NodeRef>,
    i: int,
)
    requires
        old(start).wf(),
        old(hooked).wf(),
        old(resolve).wf(),
        *old(hooked) == *old(start),
        *old(resolve) == *old(start),
        at < old(start)@.len(),
        node < old(start)@.len(),
        0 <= i < old(start)@.len(),
        forall|t: NodeRef| #[trigger] branches@.contains(t) ==> t < old(start)@.len(),
        call_ensures(Graph::start, (start, at, node), r),
        call_ensures(Graph::use_hooks, (hooked, at, hooks), ()),
        call_ensures(Graph::resolve_branches, (resolve, at, branches), ()),
    ensures
        r == node,
        ({
            let kind = old(start)@[at as int].kind;
            &&& kind is Flow ==> final(start)@[at as int].kind->Flow_start == Some(node)
            &&& kind is BatchFlow ==> final(start)@[at as int].kind->BatchFlow_start == Some(node)
            &&& kind is Flow ==> final(hooked)@[at as int].kind->Flow_hooks == kind->Flow_hooks.push(
                hooks,
            )
            &&& kind is BatchFlow ==> final(hooked)@[at as int].kind->BatchFlow_hooks
                == kind->BatchFlow_hooks.push(hooks)
            &&& kind is ForkJoin ==> final(resolve)@[at as int].kind->ForkJoin_resolved == branches@
            &&& kind is ForkJoin ==> final(resolve)@[at as int].kind->ForkJoin_branches
                == kind->ForkJoin_branches
        }),
        final(start)@[at as int].kind == old(start)@[at as int].kind.with_start(Some(node)),
        final(hooked)@[at as int].kind == old(start)@[at as int].kind.with_hooks(hooks),
        final(resolve)@[at as int].kind == old(start)@[at as int].kind.with_resolved(branches@),
        final(start)@[at as int].core == old(start)@[at as int].core,
        final(hooked)@[at as int].core == old(start)@[at as int].core,
        final(resolve)@[at as int].core == old(start)@[at as int].core,
        i != at ==> final(start)@[i] == old(start)@[i] && final(hooked)@[i] == old(start)@[i]
            && final(resolve)@[i] == old(start)@[i],
{
}

/// Forgetting keeps every node before the place and drops every node from it on; where
/// a node that would stay mentions one that would not, nothing is forgotten.
pub proof fn law_forgetting_keeps_the_first(
    graph: &mut Graph,
    len: usize,
    r: bool,
    i: int,
    node: NodeRef,
)
    requires
        old(graph).wf(),
        call_ensures(Graph::forget_from, (graph, len), r),
    ensures
        r ==> final(graph)@.len() == len,
        !r ==> final(graph)@ == old(graph)@,
        0 <= i < final(graph)@.len() ==> final(graph)@[i] == old(graph)@[i],
        len <= old(graph)@.len() && 0 <= i < len && old(graph)@[i].mentions(node) && node >= len
            ==> !r,
        len > old(graph)@.len() ==> !r,
        len <= old(graph)@.len() && !r ==> exists|k: int, t: NodeRef|
            0 <= k < len && #[trigger] old(graph)@[k].mentions(t) && t >= len,
        len == old(graph)@.len() ==> r,
{
    if len == old(graph)@.len() {
        old(graph).lemma_linked();
        assert(linked(old(graph)@));
    }
}

/* ------------------------------- cloning ------------------------------- */

/// The copy that cloning makes of a node has the name, the timeout, the retries, the
/// pause, the concurrency, the failure policy and the params of the node, and the
/// config of its kind. It is another node, outside any run, and its edges and its
/// start lead, name by name, to the copies of where those of the node lead. Sub-flow
/// and branches are the same.
pub proof fn law_copy_is_like_its_original(
    g0: Seq<FlowNodeView>,
    memo0: Map<u64, NodeRef>,
    node: NodeRef,
    g1: Seq<FlowNodeView>,
    memo1: Map<u64, NodeRef>,
    k: u64,
    action: Seq<char>,
)
    requires
        cloned_from(g0, memo0, node, g1, memo1),
        memo1.contains_key(k),
        !memo0.contains_key(k),
    ensures
        k < g0.len(),
        g0.len() <= memo1[k] < g1.len(),
        ({
            let a = g0[k as int].core;
            let c = g1[memo1[k] as int].core;
            &&& c.id == memo1[k]
            &&& c.name == a.name
            &&& c.timeout_ms == a.timeout_ms
            &&& c.max_retries == a.max_retries
            &&& c.wait_ms == a.wait_ms
            &&& c.concurrency == a.concurrency
            &&& c.fail_fast == a.fail_fast
            &&& c.batch == a.batch
            &&& c.params == a.params
            &&& c.own_params == a.own_params
            &&& c.runs == 0
            &&& c.signal is None
            &&& c.successors.contains_key(action) <==> a.successors.contains_key(action)
            &&& a.successors.contains_key(action) ==> memo1.contains_key(a.successors[action])
                && c.successors[action] == memo1[a.successors[action]]
        }),
        ({
            let a = g0[k as int].kind;
            let c = g1[memo1[k] as int].kind;
            &&& a is Plain ==> c is Plain
            &&& a is Flow ==> {
                &&& c is Flow
                &&& c->Flow_max_steps == a->Flow_max_steps
                &&& c->Flow_hooks == a->Flow_hooks
                &&& c->Flow_ops == a->Flow_ops
                &&& a->Flow_start is None ==> c->Flow_start is None
                &&& a->Flow_start is Some ==> memo1.contains_key(a->Flow_start->0)
                    && c->Flow_start == Some(memo1[a->Flow_start->0])
            }
            &&& a is BatchFlow ==> {
                &&& c is BatchFlow
                &&& c->BatchFlow_max_steps == a->BatchFlow_max_steps
                &&& c->BatchFlow_hooks == a->BatchFlow_hooks
                &&& c->BatchFlow_concurrency == a->BatchFlow_concurrency
                &&& c->BatchFlow_fail_fast == a->BatchFlow_fail_fast
                &&& c->BatchFlow_clone_shared == a->BatchFlow_clone_shared
                &&& c->BatchFlow_ops == a->BatchFlow_ops
                &&& a->BatchFlow_start is None ==> c->BatchFlow_start is None
                &&& a->BatchFlow_start is Some ==> memo1.contains_key(a->BatchFlow_start->0)
                    && c->BatchFlow_start == Some(memo1[a->BatchFlow_start->0])
            }
            &&& a is Subflow ==> c == a
            &&& a is ForkJoin ==> c == a
        }),
{
    assert(has_copy(g0, g1, memo1, k));
    let v = g0[k as int];
    if v.core.successors.contains_key(action) {
        assert(v.leads_to(v.core.successors[action]));
    }
    if let Some(s) = v.kind.start() {
        assert(v.leads_to(s));
    }
}

/// Cloning adds copies and touches nothing else: the nodes that were there stay, each
/// under its place, what the memo knew it still knows, each place that was added holds
/// the copy of exactly one node, and the start of the cloning has a copy.
pub proof fn law_cloning_only_adds_copies(
    g0: Seq<FlowNodeView>,
    memo0: Map<u64, NodeRef>,
    node: NodeRef,
    g1: Seq<FlowNodeView>,
    memo1: Map<u64, NodeRef>,
    i: int,
    k: u64,
    l: u64,
)
    requires
        cloned_from(g0, memo0, node, g1, memo1),
    ensures
        g0.len() <= g1.len(),
        0 <= i < g0.len() ==> g1[i] == g0[i],
        memo0.contains_key(k) ==> memo1.contains_key(k) && memo1[k] == memo0[k],
        memo1.contains_key(node),
        g0.len() <= i < g1.len() ==> exists|m: u64| #[trigger]
            memo1.contains_key(m) && !memo0.contains_key(m) && memo1[m] == i,
        memo1.contains_key(k) && memo1.contains_key(l) && !memo0.contains_key(k)
            && !memo0.contains_key(l) && k != l ==> memo1[k] != memo1[l],
{
    if g0.len() <= i < g1.len() {
        assert(is_copy(memo0, memo1, i));
    }
}

/// The nodes that get a copy are those that edges and starts lead to from the node,
/// and no others: they include all that theirs lead to, and every set that includes
/// the node and all that its members lead to includes them.
pub proof fn law_cloning_copies_what_is_reachable(
    g0: Seq<FlowNodeView>,
    node: NodeRef,
    g1: Seq<FlowNodeView>,
    memo: Map<u64, NodeRef>,
    k: u64,
    action: Seq<char>,
    region: Set<u64>,
)
    requires
        cloned_from(g0, Map::empty(), node, g1, memo),
        memo.contains_key(k),
        region.contains(node),
        forall|a: u64, act: Seq<char>|
            region.contains(a) && #[trigger] g0[a as int].core.successors.contains_key(act)
                ==> region.contains(g0[a as int].core.successors[act]),
        forall|a: u64|
            region.contains(a) && (#[trigger] g0[a as int]).kind is Flow
                && g0[a as int].kind->Flow_start is Some ==> region.contains(
                g0[a as int].kind->Flow_start->0,
            ),
        forall|a: u64|
            region.contains(a) && (#[trigger] g0[a as int]).kind is BatchFlow
                && g0[a as int].kind->BatchFlow_start is Some ==> region.contains(
                g0[a as int].kind->BatchFlow_start->0,
            ),
    ensures
        region.contains(k),
        g0[k as int].core.successors.contains_key(action) ==> memo.contains_key(
            g0[k as int].core.successors[action],
        ),
        g0[k as int].kind is Flow && g0[k as int].kind->Flow_start is Some ==> memo.contains_key(
            g0[k as int].kind->Flow_start->0,
        ),
        g0[k as int].kind is BatchFlow && g0[k as int].kind->BatchFlow_start is Some
            ==> memo.contains_key(g0[k as int].kind->BatchFlow_start->0),
{
    let none = Map::<u64, NodeRef>::empty();
    assert(has_copy(g0, g1, memo, k));
    assert(reaches(g0, none.dom(), node, k));
    let steps = choose|steps: nat| reaches_in(g0, none.dom(), node, k, steps);
    lemma_region(g0, none.dom(), node, k, steps, region);
    law_copy_is_like_its_original(g0, none, node, g1, memo, k, action);
}

proof fn lemma_region(
    g: Seq<FlowNodeView>,
    avoid: Set<u64>,
    a: NodeRef,
    b: NodeRef,
    steps: nat,
    region: Set<u64>,
)
    requires
        reaches_in(g, avoid, a, b, steps),
        region.contains(a),
        forall|a: u64, act: Seq<char>|
            region.contains(a) && #[trigger] g[a as int].core.successors.contains_key(act)
                ==> region.contains(g[a as int].core.successors[act]),
        forall|a: u64|
            region.contains(a) && (#[trigger] g[a as int]).kind is Flow
                && g[a as int].kind->Flow_start is Some ==> region.contains(
                g[a as int].kind->Flow_start->0,
            ),
        forall|a: u64|
            region.contains(a) && (#[trigger] g[a as int]).kind is BatchFlow
                && g[a as int].kind->BatchFlow_start is Some ==> region.contains(
                g[a as int].kind->BatchFlow_start->0,
            ),
    ensures
        region.contains(b),
    decreases steps,
{
    if steps > 0 {
        let t = choose|t: NodeRef| #[trigger]
            g[a as int].leads_to(t) && reaches_in(g, avoid, t, b, (steps - 1) as nat);
        assert(region.contains(t)) by {
            if g[a as int].kind.start() != Some(t) {
                let act = choose|act: Seq<char>| #[trigger]
                    g[a as int].core.successors.contains_key(act)
                        && g[a as int].core.successors[act] == t;
                assert(region.contains(g[a as int].core.successors[act]));
            }
        }
        lemma_region(g, avoid, t, b, (steps - 1) as nat, region);
    }
}

/// A node that is cloned in a graph gets a copy that has its name, its config and its
/// params, in a place that was not taken; whatever name it resolves, it leads on
/// exactly where the node does, to the copy of that. The memo finds the copy again.
pub proof fn law_cloned_node_in_graph(
    graph: &mut Graph,
    node: NodeRef,
    memo: &mut CloneMemo,
    r: NodeRef,
    before: &Graph,
    after: &Graph,
    original: &FlowNode,
    copy: &FlowNode,
    action: &Action,
    led: Option<NodeRef>,
    leads: Option<NodeRef>,
)
    requires
        old(graph).wf(),
        node < old(graph)@.len(),
        memo_within(old(memo)@, old(graph)@.len(), old(graph)@.len()),
        !old(memo)@.contains_key(node),
        *before == *old(graph),
        *after == *final(graph),
        call_ensures(Graph::clone_graph, (graph, node, memo), r),
        call_ensures(Graph::node, (before, node), original),
        call_ensures(Graph::node, (after, r), copy),
        call_ensures(FlowNode::resolve_successor, (original, action), led),
        call_ensures(FlowNode::resolve_successor, (copy, action), leads),
    ensures
        final(memo)@.contains_key(node),
        r == final(memo)@[node],
        before@.len() <= r < after@.len(),
        copy@.core.id == r,
        copy@.core.name == original@.core.name,
        copy@.core.timeout_ms == original@.core.timeout_ms,
        copy@.core.max_retries == original@.core.max_retries,
        copy@.core.wait_ms == original@.core.wait_ms,
        copy@.core.concurrency == original@.core.concurrency,
        copy@.core.fail_fast == original@.core.fail_fast,
        copy@.core.batch == original@.core.batch,
        copy@.core.params == original@.core.params,
        copy@.core.own_params == original@.core.own_params,
        copy@.core.signal is None,
        leads is Some <==> led is Some,
        led is Some ==> leads == Some(final(memo)@[led->0]),
{
    let key = match *action {
        Some(name) => name@,
        None => "default"@,
    };
    law_copy_is_like_its_original(
        old(graph)@,
        old(memo)@,
        node,
        final(graph)@,
        final(memo)@,
        node,
        key,
    );
}

/// A node that the memo knows is not cloned again: its copy is the one that the memo
/// has, and it is found at once.
pub proof fn law_known_node_is_not_cloned_again(
    graph: &mut Graph,
    node: NodeRef,
    memo: &mut CloneMemo,
    r: NodeRef,
)
    requires
        old(graph).wf(),
        node < old(graph)@.len(),
        memo_within(old(memo)@, old(graph)@.len(), old(graph)@.len()),
        old(memo)@.contains_key(node),
        call_ensures(Graph::clone_graph, (graph, node, memo), r),
    ensures
        r == old(memo)@[node],
        final(graph)@ == old(graph)@,
        final(memo)@ == old(memo)@,
{
    let g0 = old(graph)@;
    let g1 = final(graph)@;
    let memo0 = old(memo)@;
    let memo1 = final(memo)@;
    assert(memo1.contains_key(node) && memo1[node] == memo0[node]);
    assert forall|k: u64| memo1.contains_key(k) implies memo0.contains_key(k) by {
        if !memo0.contains_key(k) {
            assert(reaches(g0, memo0.dom(), node, k));
        }
    }
    assert forall|k: u64| memo0.contains_key(k) implies memo1.contains_key(k) && memo1[k]
        == memo0[k] by {}
    assert(memo1 =~= memo0);
    if g1.len() > g0.len() {
        assert(is_copy(memo0, memo1, g0.len() as int));
    }
    assert(g1 =~= g0);
}

/// In a graph any two nodes can be wired under any name, any node takes any params,
/// enters and leaves runs and can be cloned, and any flow can start at any node.
pub proof fn law_graph_takes_anything(
    graph: &mut Graph,
    node: NodeRef,
    other: NodeRef,
    name: &str,
    params: serde_json::Value,
    injected: &Params,
    signal: &CancellationToken,
    hooks: HookRef,
    memo: &mut CloneMemo,
    len: usize,
)
    requires
        old(graph).wf(),
        node < old(graph)@.len(),
        other < old(graph)@.len(),
        old(memo)@ == Map::<u64, NodeRef>::empty(),
    ensures
        call_requires(Graph::next, (graph, node, other)),
        call_requires(Graph::next_action, (graph, node, other, name)),
        call_requires(Graph::set_params, (graph, node, params)),
        call_requires(Graph::inject_params, (graph, node, injected)),
        call_requires(Graph::set_signal, (graph, node, signal)),
        call_requires(Graph::leave_run, (graph, node)),
        call_requires(Graph::start, (graph, node, other)),
        call_requires(Graph::use_hooks, (graph, node, hooks)),
        call_requires(Graph::forget_from, (graph, len)),
        call_requires(Graph::clone_graph, (graph, node, memo)),
{
}

} // verus!
