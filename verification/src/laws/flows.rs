//! What holds of flows: how they are made, how a run opens, moves and closes, and how
//! batch flows, forks and sub-flows carry out their parts.

use tokio_util::sync::CancellationToken;
use vstd::prelude::*;

use crate::batch_flow::{
    batch_run, bundle_shareds, law_batch_stops, present, stops, AfterBundle, BatchFlow, BatchRun,
    BundleFailure, BundleLoop, BundleOutcome, BundlePlan, BundleReport, BundleRun, BundleStep,
    Launched, ParallelBundles,
};
use crate::error::{FlowError, FlowResult};
use crate::flow::{
    close_nested, names, open_nested, open_run, orchestrate, visit_made, Arrival, Budget, Execution,
    Finishing, Flow, Opening, Scope, Traversal, TraversalView, Visit, Visiting,
};
use crate::flow_node::FlowNodeView;
use crate::fork_join::{
    branch_path, branch_shareds, joined_slots, BranchReport, ForkJoin, ForkPlan,
};
use crate::graph::Graph;
use crate::hooks::{ErrorCtx, ErrorPolicy};
use crate::internal::Retrying;
use crate::json::{entries, fields, shape, Shape};
use crate::node_core::{NodeCoreView, NodeOpts};
use crate::pool::{Pool, Unit};
use crate::signal::upstream;
use crate::subflow::{sub_run, SubRun, Subflow};
use crate::types::{Action, HookRef, NodeRef, OpsRef, Params, Shared, SharedCloner};

verus! {

/* -------------------------------- making ------------------------------- */

/// A flow is made with a budget of a thousand visits, no hooks and no overrides, from
/// the start that it was given.
pub proof fn law_fresh_flow(start: NodeRef, ops: OpsRef, plain: Flow, custom: Flow, empty: Flow)
    requires
        call_ensures(Flow::new, (start,), plain),
        call_ensures(Flow::with_ops, (start, ops), custom),
        call_ensures(Flow::empty, (), empty),
    ensures
        plain@.start_node == Some(start),
        plain@.max_steps == 1000,
        plain@.hooks.len() == 0,
        plain@.ops is None,
        plain@.core.name == "Flow"@,
        plain@.core.max_retries == 0,
        plain@.core.timeout_ms == 0,
        plain@.core.own_params is None,
        custom@ == (crate::flow::FlowView { ops: Some(ops), ..plain@ }),
        empty@ == (crate::flow::FlowView { start_node: None, ..plain@ }),
{
}

/// A batch flow is made sequential, going on after failures, with a budget of a
/// thousand visits, no hooks and no overrides, from the start that it was given.
pub proof fn law_fresh_batch_flow(
    start: NodeRef,
    ops: OpsRef,
    plain: BatchFlow,
    custom: BatchFlow,
    bare: BatchFlow,
    unstarted: BatchFlow,
)
    requires
        call_ensures(BatchFlow::new, (start,), plain),
        call_ensures(BatchFlow::with_ops, (start, ops), custom),
        call_ensures(BatchFlow::without_start, (ops,), bare),
        call_ensures(BatchFlow::unstarted, (), unstarted),
    ensures
        plain@.start_node == Some(start),
        plain@.max_steps == 1000,
        plain@.hooks.len() == 0,
        plain@.concurrency == 1,
        !plain@.fail_fast,
        plain@.clone_shared is None,
        plain@.ops is None,
        plain@.core.name == "BatchFlow"@,
        custom@ == (crate::batch_flow::BatchFlowView { ops: Some(ops), ..plain@ }),
        bare@ == (crate::batch_flow::BatchFlowView { start_node: None, ..custom@ }),
        unstarted@ == (crate::batch_flow::BatchFlowView { start_node: None, ..plain@ }),
{
}

/// A fork is made to run all its branches at once, going on after failures; a sub-flow
/// is made with the flow that it runs.
pub proof fn law_fresh_fork_and_subflow(
    branches: Vec<NodeRef>,
    sub: NodeRef,
    ops: OpsRef,
    fork: ForkJoin,
    custom_fork: ForkJoin,
    subflow: Subflow,
    custom_subflow: Subflow,
)
    requires
        call_ensures(ForkJoin::new, (branches,), fork),
        call_ensures(ForkJoin::with_ops, (branches, ops), custom_fork),
        call_ensures(Subflow::new, (sub,), subflow),
        call_ensures(Subflow::with_ops, (sub, ops), custom_subflow),
    ensures
        fork@.branches == branches@,
        fork@.concurrency == 0,
        !fork@.fail_fast,
        fork@.clone_shared is None,
        fork@.ops is None,
        fork@.core.name == "ForkJoin"@,
        custom_fork@ == (crate::fork_join::ForkJoinView { ops: Some(ops), ..fork@ }),
        subflow@.sub == sub,
        subflow@.clone_shared is None,
        subflow@.ops is None,
        subflow@.core.name == "Subflow"@,
        subflow@.core.max_retries == 0,
        custom_subflow@ == (crate::subflow::SubflowView { ops: Some(ops), ..subflow@ }),
{
}

/// Each setting of a flow is set by its own builder, which leaves the others alone.
pub proof fn law_flow_builders(
    flow: Flow,
    max_steps: usize,
    name: String,
    opts: NodeOpts,
    stepped: Flow,
    named: Flow,
    configured: Flow,
)
    requires
        flow.wf(),
        call_ensures(Flow::with_max_steps, (flow, max_steps), stepped),
        call_ensures(Flow::with_name, (flow, name), named),
        call_ensures(Flow::with_node_opts, (flow, opts), configured),
    ensures
        stepped@ == (crate::flow::FlowView { max_steps, ..flow@ }),
        named@ == (crate::flow::FlowView {
            core: NodeCoreView { name: name@, ..flow@.core },
            ..flow@
        }),
        configured@ == (crate::flow::FlowView { core: configured@.core, ..flow@ }),
        configured@.core.timeout_ms == opts.timeout_ms,
        configured@.core.max_retries == opts.max_retries,
        configured@.core.wait_ms == opts.wait_ms,
        configured@.core.params == flow@.core.params,
        configured@.core.successors == flow@.core.successors,
{
}

/// Each setting of a batch flow is set by its own builder, which leaves the others
/// alone. A concurrency of `0` counts as `1`.
pub proof fn law_batch_flow_builders(
    flow: BatchFlow,
    n: usize,
    flag: bool,
    cloner: SharedCloner,
    name: String,
    opts: NodeOpts,
    widened: BatchFlow,
    strict: BatchFlow,
    cloning: BatchFlow,
    stepped: BatchFlow,
    named: BatchFlow,
    configured: BatchFlow,
)
    requires
        flow.wf(),
        call_ensures(BatchFlow::with_concurrency, (flow, n), widened),
        call_ensures(BatchFlow::with_fail_fast, (flow, flag), strict),
        call_ensures(BatchFlow::with_clone_shared, (flow, cloner), cloning),
        call_ensures(BatchFlow::with_max_steps, (flow, n), stepped),
        call_ensures(BatchFlow::with_name, (flow, name), named),
        call_ensures(BatchFlow::with_node_opts, (flow, opts), configured),
    ensures
        n >= 1 ==> widened@.concurrency == n,
        n == 0 ==> widened@.concurrency == 1,
        widened@ == (crate::batch_flow::BatchFlowView {
            concurrency: widened@.concurrency,
            ..flow@
        }),
        strict@ == (crate::batch_flow::BatchFlowView { fail_fast: flag, ..flow@ }),
        cloning@ == (crate::batch_flow::BatchFlowView { clone_shared: Some(cloner), ..flow@ }),
        stepped@ == (crate::batch_flow::BatchFlowView { max_steps: n, ..flow@ }),
        named@ == (crate::batch_flow::BatchFlowView {
            core: NodeCoreView { name: name@, ..flow@.core },
            ..flow@
        }),
        configured@ == (crate::batch_flow::BatchFlowView { core: configured@.core, ..flow@ }),
        configured@.core.timeout_ms == opts.timeout_ms,
        configured@.core.max_retries == opts.max_retries,
        configured@.core.wait_ms == opts.wait_ms,
{
}

/// Each setting of a fork or a sub-flow is set by its own builder, which leaves the
/// others alone.
pub proof fn law_fork_and_subflow_builders(
    fork: ForkJoin,
    subflow: Subflow,
    n: usize,
    flag: bool,
    cloner: SharedCloner,
    opts: NodeOpts,
    widened: ForkJoin,
    strict: ForkJoin,
    cloning: ForkJoin,
    configured: ForkJoin,
    sub_cloning: Subflow,
    sub_configured: Subflow,
)
    requires
        fork.wf(),
        subflow.wf(),
        call_ensures(ForkJoin::with_concurrency, (fork, n), widened),
        call_ensures(ForkJoin::with_fail_fast, (fork, flag), strict),
        call_ensures(ForkJoin::with_clone_shared, (fork, cloner), cloning),
        call_ensures(ForkJoin::with_node_opts, (fork, opts), configured),
        call_ensures(Subflow::with_clone_shared, (subflow, cloner), sub_cloning),
        call_ensures(Subflow::with_node_opts, (subflow, opts), sub_configured),
    ensures
        widened@ == (crate::fork_join::ForkJoinView { concurrency: n, ..fork@ }),
        strict@ == (crate::fork_join::ForkJoinView { fail_fast: flag, ..fork@ }),
        cloning@ == (crate::fork_join::ForkJoinView { clone_shared: Some(cloner), ..fork@ }),
        configured@ == (crate::fork_join::ForkJoinView { core: configured@.core, ..fork@ }),
        configured@.core.max_retries == opts.max_retries,
        configured@.core.wait_ms == opts.wait_ms,
        configured@.core.timeout_ms == opts.timeout_ms,
        sub_cloning@ == (crate::subflow::SubflowView { clone_shared: Some(cloner), ..subflow@ }),
        sub_configured@ == (crate::subflow::SubflowView { core: sub_configured@.core, ..subflow@ }),
        sub_configured@.core.max_retries == opts.max_retries,
        sub_configured@.core.wait_ms == opts.wait_ms,
        sub_configured@.core.timeout_ms == opts.timeout_ms,
{
}

/// Hooks that a flow or batch flow is given come behind the ones that it has, and a
/// start replaces the one that it has.
pub proof fn law_flow_start_and_hooks(
    flow: &mut Flow,
    hooked: &mut Flow,
    batch: &mut BatchFlow,
    hooked_batch: &mut BatchFlow,
    node: NodeRef,
    hooks: HookRef,
    r: NodeRef,
    r_batch: NodeRef,
    same: &Flow,
    same_batch: &BatchFlow,
)
    requires
        old(flow).wf(),
        old(hooked).wf(),
        old(batch).wf(),
        old(hooked_batch).wf(),
        call_ensures(Flow::start, (flow, node), r),
        call_ensures(Flow::use_hooks, (hooked, hooks), same),
        call_ensures(BatchFlow::start, (batch, node), r_batch),
        call_ensures(BatchFlow::use_hooks, (hooked_batch, hooks), same_batch),
    ensures
        r == node,
        r_batch == node,
        final(flow)@ == (crate::flow::FlowView { start_node: Some(node), ..old(flow)@ }),
        final(hooked)@ == (crate::flow::FlowView {
            hooks: old(hooked)@.hooks.push(hooks),
            ..old(hooked)@
        }),
        final(batch)@ == (crate::batch_flow::BatchFlowView {
            start_node: Some(node),
            ..old(batch)@
        }),
        final(hooked_batch)@ == (crate::batch_flow::BatchFlowView {
            hooks: old(hooked_batch)@.hooks.push(hooks),
            ..old(hooked_batch)@
        }),
{
}

/// Flows, forks and sub-flows tell what they were given.
pub proof fn law_flows_tell_their_config(
    flow: &Flow,
    batch: &BatchFlow,
    fork: &ForkJoin,
    sub: &Subflow,
    start: Option<NodeRef>,
    steps: usize,
    ops: Option<OpsRef>,
    hooks: Vec<HookRef>,
    batch_start: Option<NodeRef>,
    batch_steps: usize,
    batch_ops: Option<OpsRef>,
    batch_hooks: Vec<HookRef>,
    batch_cloner: Option<SharedCloner>,
    fork_ops: Option<OpsRef>,
    fork_cloner: Option<SharedCloner>,
    fork_branches: &[NodeRef],
    sub_ops: Option<OpsRef>,
    sub_cloner: Option<SharedCloner>,
    sub_flow: &NodeRef,
)
    requires
        call_ensures(Flow::start_node, (flow,), start),
        call_ensures(Flow::max_steps, (flow,), steps),
        call_ensures(Flow::ops, (flow,), ops),
        call_ensures(Flow::hooks, (flow,), hooks),
        call_ensures(BatchFlow::start_node, (batch,), batch_start),
        call_ensures(BatchFlow::max_steps, (batch,), batch_steps),
        call_ensures(BatchFlow::ops, (batch,), batch_ops),
        call_ensures(BatchFlow::hooks, (batch,), batch_hooks),
        call_ensures(BatchFlow::clone_shared, (batch,), batch_cloner),
        call_ensures(ForkJoin::ops, (fork,), fork_ops),
        call_ensures(ForkJoin::clone_shared, (fork,), fork_cloner),
        call_ensures(ForkJoin::branches, (fork,), fork_branches),
        call_ensures(Subflow::ops, (sub,), sub_ops),
        call_ensures(Subflow::clone_shared, (sub,), sub_cloner),
        call_ensures(Subflow::sub, (sub,), sub_flow),
    ensures
        start == flow@.start_node,
        steps == flow@.max_steps,
        ops == flow@.ops,
        hooks@ == flow@.hooks,
        batch_start == batch@.start_node,
        batch_steps == batch@.max_steps,
        batch_ops == batch@.ops,
        batch_hooks@ == batch@.hooks,
        batch_cloner == batch@.clone_shared,
        fork_ops == fork@.ops,
        fork_cloner == fork@.clone_shared,
        fork_branches@ == fork@.branches,
        sub_ops == sub@.ops,
        sub_cloner == sub@.clone_shared,
        *sub_flow == sub@.sub,
{
}

/* ------------------------------ traversal ------------------------------ */

/// A budget of `max` visits begins unspent; each step is counted, as far as the
/// machine can count, and the step behind the last allowed one is an error that
/// names the limit.
pub proof fn law_budget_counts_steps(
    max: usize,
    fresh: Budget,
    budget: &mut Budget,
    r: FlowResult<()>,
)
    requires
        call_ensures(Budget::new, (max,), fresh),
        call_ensures(Budget::spend, (budget,), r),
    ensures
        fresh.steps == 0,
        fresh.max == max,
        final(budget).max == old(budget).max,
        old(budget).steps < usize::MAX ==> final(budget).steps == old(budget).steps + 1,
        old(budget).steps == usize::MAX ==> final(budget).steps == usize::MAX,
        r is Ok <==> final(budget).steps <= old(budget).max,
        r is Err ==> r->Err_0 == (FlowError::Cycle { max_steps: old(budget).max }),
        old(budget).steps < old(budget).max ==> r == Ok::<(), FlowError>(()),
        old(budget).max <= old(budget).steps && old(budget).max < usize::MAX ==> r == Err::<
            (),
            FlowError,
        >(FlowError::Cycle { max_steps: old(budget).max }),
{
}

/// The texts of a path are the texts of its names, one by one.
pub proof fn law_path_texts(path: Seq<String>, i: int)
    ensures
        names(path).len() == path.len(),
        0 <= i < path.len() ==> names(path)[i] == path[i]@,
{
}

/// A traversal begins at the start, behind the path that led to it; without a start
/// there is none, and the error says so.
pub proof fn law_traversal_begins(
    start: Option<NodeRef>,
    path: &Vec<String>,
    r: FlowResult<Traversal>,
    i: int,
)
    requires
        call_ensures(orchestrate, (start, path), r),
    ensures
        r is Ok <==> start is Some,
        r is Ok ==> {
            &&& r->Ok_0@.curr == start
            &&& r->Ok_0@.last_action is None
            &&& r->Ok_0@.path.len() == path@.len()
            &&& 0 <= i < path@.len() ==> r->Ok_0@.path[i] == path@[i]@
        },
        r is Err ==> r->Err_0 is Flow && r->Err_0->Flow_0@
            == "Flow has no start node. Call flow.start(node) or pass it to the constructor."@,
{
}

/// A flow runs from its own start, and propagates its own params.
pub proof fn law_flow_executes(
    flow: &Flow,
    path: &Vec<String>,
    r: FlowResult<Execution>,
    key: Seq<char>,
    i: int,
)
    requires
        call_ensures(Flow::execute, (flow, path), r),
    ensures
        r is Ok <==> flow@.start_node is Some,
        r is Ok ==> {
            &&& r->Ok_0.traversal@.curr == flow@.start_node
            &&& r->Ok_0.traversal@.last_action is None
            &&& r->Ok_0.traversal@.path.len() == path@.len()
            &&& 0 <= i < path@.len() ==> r->Ok_0.traversal@.path[i] == path@[i]@
            &&& entries(r->Ok_0.params).get(key) == flow@.core.params.get(key)
        },
        r is Err ==> r->Err_0 is Flow && r->Err_0->Flow_0@
            == "Flow has no start node. Call flow.start(node) or pass it to the constructor."@,
{
}

/// Without a node to go to a traversal is finished, with the action of the last node.
/// Otherwise it takes a step: within the budget and not cancelled, it visits that
/// node, whose name comes last on the path, and which has, key by key, its own params
/// and below them the flow's. Beyond the budget the cycle error comes, whether
/// cancelled or not. No other node changes, and of that one nothing but its params.
pub proof fn law_visit_takes_a_step(
    t: Traversal,
    graph: &mut Graph,
    params: &Params,
    budget: &mut Budget,
    cancelled: bool,
    r: Visit,
    key: Seq<char>,
    i: int,
)
    requires
        old(graph).wf(),
        t@.curr is Some ==> t@.curr->0 < old(graph)@.len(),
        0 <= i < old(graph)@.len(),
        call_ensures(Traversal::visit_unless, (t, graph, params, budget, cancelled), r),
    ensures
        r is Finished <==> t@.curr is None,
        r is Finished ==> r->Finished_0 == t@.last_action && *final(budget) == *old(budget),
        t@.curr is Some ==> {
            &&& final(budget).max == old(budget).max
            &&& old(budget).steps < usize::MAX ==> final(budget).steps == old(budget).steps + 1
            &&& old(budget).steps == usize::MAX ==> final(budget).steps == usize::MAX
            &&& final(budget).steps <= old(budget).max && !cancelled ==> r is Run
            &&& final(budget).steps <= old(budget).max && cancelled ==> r == Visit::Failed(
                FlowError::Aborted,
            )
        },
        t@.curr is Some && old(budget).steps >= old(budget).max && old(budget).max < usize::MAX
            ==> r == Visit::Failed(FlowError::Cycle { max_steps: old(budget).max }),
        r is Run ==> {
            &&& t@.curr is Some
            &&& r->Run_0.node() == t@.curr->0
            &&& r->Run_0.path().len() == t@.path.len() + 1
            &&& r->Run_0.path().drop_last() == t@.path
            &&& r->Run_0.path().last() == old(graph)@[t@.curr->0 as int].core.name
            &&& ({
                let before = old(graph)@[t@.curr->0 as int];
                let after = final(graph)@[t@.curr->0 as int];
                let is_own = before.core.own_params is Some
                    && before.core.own_params->0.contains_key(key);
                &&& is_own ==> after.core.params.get(key) == before.core.own_params->0.get(key)
                &&& !is_own ==> after.core.params.get(key) == entries(*params).get(key)
                &&& after.core == (NodeCoreView { params: after.core.params, ..before.core })
                &&& after.kind == before.kind
            })
        },
        !(r is Run) ==> final(graph)@ == old(graph)@,
        final(graph)@.len() == old(graph)@.len(),
        t@.curr != Some(i as u64) || i > u64::MAX ==> final(graph)@[i] == old(graph)@[i],
{
    if r is Run {
        assert(r->Run_0.path().drop_last() =~= t@.path);
    }
}

/// The same, stated of what a step of a traversal makes of the graph and the budget.
pub proof fn law_step_of_a_traversal(
    t: TraversalView,
    g0: Seq<FlowNodeView>,
    b0: Budget,
    params: Map<Seq<char>, serde_json::Value>,
    cancelled: bool,
    g1: Seq<FlowNodeView>,
    b1: Budget,
    r: Visit,
    key: Seq<char>,
    i: int,
)
    requires
        visit_made(t, g0, b0, params, cancelled, g1, b1, r),
        t.curr is Some ==> t.curr->0 < g0.len(),
    ensures
        t.curr is None ==> r == Visit::Finished(t.last_action) && g1 == g0 && b1 == b0,
        t.curr is Some && b0.steps < usize::MAX ==> b1.steps == b0.steps + 1 && b1.max == b0.max,
        t.curr is Some && b0.steps >= b0.max && b0.steps < usize::MAX ==> r == Visit::Failed(
            FlowError::Cycle { max_steps: b0.max },
        ) && g1 == g0,
        t.curr is Some && b0.steps < b0.max && cancelled ==> r == Visit::Failed(FlowError::Aborted)
            && g1 == g0,
        t.curr is Some && b0.steps < b0.max && !cancelled ==> {
            let node = t.curr->0 as int;
            let own = g0[node].core.own_params;
            &&& r is Run
            &&& r->Run_0.node() == node
            &&& r->Run_0.path() == t.path + seq![g0[node].core.name]
            &&& g1.len() == g0.len()
            &&& own is Some && own->0.contains_key(key) ==> g1[node].core.params.get(key)
                == own->0.get(key)
            &&& own is None || !own->0.contains_key(key) ==> g1[node].core.params.get(key)
                == params.get(key)
            &&& g1[node].core == (NodeCoreView { params: g1[node].core.params, ..g0[node].core })
            &&& g1[node].kind == g0[node].kind
            &&& 0 <= i < g0.len() && i != node ==> g1[i] == g0[i]
        },
{
    if r is Run {
        assert(r->Run_0.path() =~= t.path + seq![g0[t.curr->0 as int].core.name]);
    }
}

/// A visit is made only after the token has answered that it is not cancelled.
pub proof fn law_visit_asks_the_token(
    t: Traversal,
    graph: &mut Graph,
    params: &Params,
    budget: &mut Budget,
    signal: &CancellationToken,
    r: Visit,
)
    requires
        old(graph).wf(),
        t@.curr is Some ==> t@.curr->0 < old(graph)@.len(),
        call_ensures(Traversal::visit, (t, graph, params, budget, signal), r),
    ensures
        r is Finished <==> t@.curr is None,
        r is Run ==> call_ensures(CancellationToken::is_cancelled, (signal,), false)
            && r->Run_0.node() == t@.curr->0 && r->Run_0.path() == t@.path.push(
            old(graph)@[t@.curr->0 as int].core.name,
        ),
        r == Visit::Failed(FlowError::Aborted) ==> call_ensures(
            CancellationToken::is_cancelled,
            (signal,),
            true,
        ),
        t@.curr is Some && old(budget).steps >= old(budget).max && old(budget).max < usize::MAX
            ==> r == Visit::Failed(FlowError::Cycle { max_steps: old(budget).max }),
        t@.curr is Some && old(budget).steps < old(budget).max ==> r is Run || r == Visit::Failed(
            FlowError::Aborted,
        ),
{
}

/// From a node the traversal goes where the edge under the whole text of its action
/// leads, and along the default edge where it returned none; without such an edge it
/// goes nowhere. It remembers the action and the path. The node's error ends it.
pub proof fn law_arrival_follows_the_edge(
    at: Visiting,
    graph: &Graph,
    action: Action,
    r: FlowResult<Arrival>,
    error: FlowError,
    failed: FlowResult<Arrival>,
)
    requires
        graph.wf(),
        at.node() < graph@.len(),
        call_ensures(Visiting::arrived, (at, graph, Ok(action)), r),
        call_ensures(Visiting::arrived, (at, graph, Err(error)), failed),
    ensures
        r is Ok,
        r->Ok_0.next@.last_action == action,
        r->Ok_0.next@.path == at.path(),
        action is Some ==> r->Ok_0.next@.curr == graph@[at.node() as int].core.successors.get(
            action->0@,
        ),
        action is None ==> r->Ok_0.next@.curr == graph@[at.node() as int].core.successors.get(
            "default"@,
        ),
        r->Ok_0.warning is Some ==> action is Some && r->Ok_0.next@.curr is None,
        action is None ==> r->Ok_0.warning is None,
        failed is Err,
        failed->Err_0 == error,
{
}

/// A visit hands on the node that it is at, and the path that names it last.
pub proof fn law_visit_tells(at: &Visiting, node: NodeRef, path: &Vec<String>, i: int)
    requires
        call_ensures(Visiting::node_ref, (at,), node),
        call_ensures(Visiting::visited, (at,), path),
    ensures
        node == at.node(),
        path@.len() == at.path().len(),
        0 <= i < path@.len() ==> path@[i]@ == at.path()[i],
{
}

/* --------------------------------- runs -------------------------------- */

/// A top-level run of a flow has the flow's own hooks, an empty path, a budget of the
/// flow's own steps, unspent, and the token that it was given or one of its own; the
/// flow itself gets that token. Only flows and batch flows can be run.
pub proof fn law_run_opens(
    graph: &mut Graph,
    flow: NodeRef,
    signal: Option<CancellationToken>,
    r: Option<Opening>,
    i: int,
)
    requires
        old(graph).wf(),
        flow < old(graph)@.len(),
        0 <= i < old(graph)@.len(),
        call_ensures(open_run, (graph, flow, signal), r),
    ensures
        ({
            let kind = old(graph)@[flow as int].kind;
            &&& r is Some <==> kind is Flow || kind is BatchFlow
            &&& r is Some && kind is Flow ==> r->0.scope.hooks@ == kind->Flow_hooks
                && r->0.scope.budget.max == kind->Flow_max_steps
            &&& r is Some && kind is BatchFlow ==> r->0.scope.hooks@ == kind->BatchFlow_hooks
                && r->0.scope.budget.max == kind->BatchFlow_max_steps
        }),
        r is Some ==> {
            &&& r->0.scope.budget.steps == 0
            &&& r->0.scope.path@.len() == 0
            &&& signal is Some ==> r->0.scope.signal == signal->0
            &&& signal is None ==> upstream(r->0.scope.signal) is None
            &&& old(graph)@[flow as int].core.runs < u64::MAX ==> final(graph)@[flow as int].core.runs == old(graph)@[flow as int].core.runs + 1
            &&& final(graph)@[flow as int].core == (NodeCoreView {
                runs: final(graph)@[flow as int].core.runs,
                signal: Some(r->0.scope.signal),
                ..old(graph)@[flow as int].core
            })
            &&& final(graph)@[flow as int].kind == old(graph)@[flow as int].kind
        },
        r is None ==> final(graph)@ == old(graph)@,
        i != flow ==> final(graph)@[i] == old(graph)@[i],
{
}

/// A nested run has the flow's own hooks and then the parent's, the path that led to
/// it, a budget of its own, unspent, and the parent's token.
pub proof fn law_nested_run_opens(
    graph: &mut Graph,
    flow: NodeRef,
    parent_hooks: &Vec<HookRef>,
    path: &Vec<String>,
    signal: &CancellationToken,
    r: Option<Scope>,
    i: int,
    j: int,
)
    requires
        old(graph).wf(),
        flow < old(graph)@.len(),
        0 <= i < old(graph)@.len(),
        call_ensures(open_nested, (graph, flow, parent_hooks, path, signal), r),
    ensures
        ({
            let kind = old(graph)@[flow as int].kind;
            &&& r is Some <==> kind is Flow || kind is BatchFlow
            &&& r is Some && kind is Flow ==> {
                &&& r->0.hooks@.take(kind->Flow_hooks.len() as int) == kind->Flow_hooks
                &&& r->0.hooks@.len() == kind->Flow_hooks.len() + parent_hooks@.len()
                &&& 0 <= j < parent_hooks@.len() ==> r->0.hooks@[kind->Flow_hooks.len() + j]
                    == parent_hooks@[j]
                &&& r->0.budget.max == kind->Flow_max_steps
            }
            &&& r is Some && kind is BatchFlow ==> {
                &&& r->0.hooks@.take(kind->BatchFlow_hooks.len() as int) == kind->BatchFlow_hooks
                &&& r->0.hooks@.len() == kind->BatchFlow_hooks.len() + parent_hooks@.len()
                &&& 0 <= j < parent_hooks@.len() ==> r->0.hooks@[kind->BatchFlow_hooks.len() + j]
                    == parent_hooks@[j]
                &&& r->0.budget.max == kind->BatchFlow_max_steps
            }
        }),
        r is Some ==> {
            &&& r->0.budget.steps == 0
            &&& r->0.path@ == path@
            &&& r->0.signal == *signal
            &&& old(graph)@[flow as int].core.runs < u64::MAX ==> final(graph)@[flow as int].core.runs == old(graph)@[flow as int].core.runs + 1
            &&& final(graph)@[flow as int].core == (NodeCoreView {
                runs: final(graph)@[flow as int].core.runs,
                signal: Some(*signal),
                ..old(graph)@[flow as int].core
            })
            &&& final(graph)@[flow as int].kind == old(graph)@[flow as int].kind
        },
        r is None ==> final(graph)@ == old(graph)@,
        i != flow ==> final(graph)@[i] == old(graph)@[i],
{
    let kind = old(graph)@[flow as int].kind;
    if r is Some && kind is Flow {
        assert(r->0.hooks@.take(kind->Flow_hooks.len() as int) =~= kind->Flow_hooks);
    }
    if r is Some && kind is BatchFlow {
        assert(r->0.hooks@.take(kind->BatchFlow_hooks.len() as int) =~= kind->BatchFlow_hooks);
    }
}

/// A nested run that opens and closes leaves the graph as it was, and comes to what
/// its orchestration came to.
pub proof fn law_nested_run_closes(
    open: &mut Graph,
    flow: NodeRef,
    parent_hooks: &Vec<HookRef>,
    path: &Vec<String>,
    signal: &CancellationToken,
    scope: Option<Scope>,
    close: &mut Graph,
    outcome: FlowResult<Action>,
    r: FlowResult<Action>,
)
    requires
        old(open).wf(),
        flow < old(open)@.len(),
        old(open)@[flow as int].core.runs == 0,
        old(open)@[flow as int].core.signal is None,
        call_ensures(open_nested, (open, flow, parent_hooks, path, signal), scope),
        scope is Some,
        *old(close) == *final(open),
        call_ensures(close_nested, (close, flow, outcome), r),
    ensures
        r == outcome,
        final(close)@ == old(open)@,
{
    assert(final(close)@ =~= old(open)@);
}

/// A failing `on_start` hook ends a run before anything runs, with the hook's error
/// and the flow outside runs again; otherwise the run goes on with the scope that it
/// was opened with.
pub proof fn law_run_starts(
    open: &mut Graph,
    flow: NodeRef,
    signal: Option<CancellationToken>,
    opening: Option<Opening>,
    start: &mut Graph,
    reply: FlowResult<()>,
    r: FlowResult<Scope>,
)
    requires
        old(open).wf(),
        flow < old(open)@.len(),
        old(open)@[flow as int].core.runs == 0,
        old(open)@[flow as int].core.signal is None,
        call_ensures(open_run, (open, flow, signal), opening),
        opening is Some,
        *old(start) == *final(open),
        call_ensures(Opening::started, (opening->0, start, flow, reply), r),
    ensures
        reply is Ok ==> r is Ok && r->Ok_0 == opening->0.scope && final(start)@ == final(open)@,
        reply is Err ==> r is Err && r->Err_0 == reply->Err_0 && final(start)@ == old(open)@,
{
    if reply is Err {
        assert(final(start)@ =~= old(open)@);
    }
}

/// `on_end` is told the action that the run came to, and none where it failed. Its
/// error replaces whatever the run came to; otherwise that is what comes out.
pub proof fn law_run_ends(
    outcome: FlowResult<Action>,
    fin: Finishing,
    at: &Finishing,
    told: &Action,
    graph: &mut Graph,
    flow: NodeRef,
    reply: FlowResult<()>,
    r: FlowResult<Action>,
    i: int,
)
    requires
        old(graph).wf(),
        flow < old(graph)@.len(),
        0 <= i < old(graph)@.len(),
        call_ensures(Finishing::new, (outcome,), fin),
        *at == fin,
        call_ensures(Finishing::action, (at,), told),
        call_ensures(Finishing::ended, (fin, graph, flow, reply), r),
    ensures
        outcome is Ok ==> *told == outcome->Ok_0,
        outcome is Err ==> *told is None,
        reply is Ok ==> r == outcome,
        reply is Err ==> r is Err && r->Err_0 == reply->Err_0,
        old(graph)@[flow as int].core.runs <= 1 ==> final(graph)@[flow as int].core.signal is None,
        old(graph)@[flow as int].core.runs <= 1 ==> final(graph)@[flow as int].core.runs == 0,
        old(graph)@[flow as int].core.runs > 1 ==> final(graph)@[flow as int].core.signal == old(graph)@[flow as int].core.signal && final(graph)@[flow as int].core.runs == old(graph)@[flow as int].core.runs - 1,
        final(graph)@[flow as int].core == (NodeCoreView {
            runs: final(graph)@[flow as int].core.runs,
            signal: final(graph)@[flow as int].core.signal,
            ..old(graph)@[flow as int].core
        }),
        final(graph)@[flow as int].kind == old(graph)@[flow as int].kind,
        i != flow ==> final(graph)@[i] == old(graph)@[i],
{
}

/* ------------------------------- batches ------------------------------- */

/// The bundles of a batch flow are the elements of the array that `prep()` gave, and
/// nothing else has any. They run at once exactly where the batch flow allows more
/// than one and there are some, which takes a start node.
pub proof fn law_bundles_are_planned(
    flow: &BatchFlow,
    prep_res: serde_json::Value,
    r: FlowResult<BundlePlan>,
)
    requires
        call_ensures(BatchFlow::execute, (flow, prep_res), r),
    ensures
        ({
            let parallel = flow@.concurrency >= 2 && shape(prep_res) is Array
                && shape(prep_res)->Array_0.len() > 0;
            &&& r is Err <==> parallel && flow@.start_node is None
            &&& r is Ok && parallel ==> r->Ok_0 is Parallel
            &&& !parallel ==> r is Ok && r->Ok_0 is Sequential
        }),
        r is Ok && r->Ok_0 is Parallel ==> {
            let p = r->Ok_0->Parallel_0;
            &&& p.bundles@ == shape(prep_res)->Array_0
            &&& Some(p.start) == flow@.start_node
            &&& p.name@ == flow@.core.name
            &&& p.max_steps == flow@.max_steps
            &&& entries(p.params) == flow@.core.params
            &&& p.concurrency == flow@.concurrency
            &&& p.fail_fast == flow@.fail_fast
        },
        r is Ok && r->Ok_0 is Sequential ==> {
            let l = r->Ok_0->Sequential_0;
            &&& l.wf()
            &&& shape(prep_res) is Array ==> l.bundles() == shape(prep_res)->Array_0
            &&& !(shape(prep_res) is Array) ==> l.bundles().len() == 0
            &&& l.fail_fast() == flow@.fail_fast
            &&& l.settled().len() == 0
        },
        r is Err ==> r->Err_0 is Flow && r->Err_0->Flow_0@
            == "BatchFlow has no start node. Call bf.start(node) or pass it to the constructor."@,
{
}

/// Bundles that run one after the other run in order, each with params that have, key
/// by key, the bundle's value where the bundle has the key and otherwise the flow's.
/// A cancelled run fails before the next bundle, unless there is none left.
pub proof fn law_bundle_params_win_over_the_flows(
    at: BundleLoop,
    params: &Params,
    cancelled: bool,
    r: BundleStep,
    run: &BundleRun,
    handed: &Params,
    key: Seq<char>,
)
    requires
        at.wf(),
        call_ensures(BundleLoop::step_unless, (at, params, cancelled), r),
        r is Run ==> *run == r->Run_0,
        r is Run ==> call_ensures(BundleRun::params, (run,), handed),
    ensures
        r is Done <==> at.settled().len() == at.bundles().len(),
        r is Done ==> r->Done_0@ == at.bundles(),
        at.settled().len() != at.bundles().len() && cancelled ==> r == BundleStep::Failed(
            FlowError::Aborted,
        ),
        at.settled().len() != at.bundles().len() && !cancelled ==> {
            let bundle = at.bundles()[at.settled().len() as int];
            let wins = shape(bundle) is Object && shape(bundle)->Object_0.contains_key(key);
            &&& r is Run
            &&& r->Run_0.from() == at
            &&& wins ==> entries(*handed).get(key) == Some(shape(bundle)->Object_0[key])
            &&& !wins ==> entries(*handed).get(key) == entries(*params).get(key)
        },
{
}

/// The same, stated of what the loop hands out, whatever the token answers.
pub proof fn law_stepped_bundle_params(
    at: BundleLoop,
    params: Params,
    cancelled: bool,
    r: BundleStep,
    key: Seq<char>,
)
    requires
        at.stepped(params, cancelled, r),
        r is Run,
    ensures
        ({
            let bundle = at.bundles()[at.settled().len() as int];
            let handed = r->Run_0.bundle_params();
            &&& !cancelled
            &&& at.settled().len() != at.bundles().len()
            &&& fields(bundle).contains_key(key) ==> handed.contains_key(key) && handed[key]
                == fields(bundle)[key]
            &&& !fields(bundle).contains_key(key) && entries(params).contains_key(key)
                ==> handed.contains_key(key) && handed[key] == entries(params)[key]
            &&& !fields(bundle).contains_key(key) && !entries(params).contains_key(key)
                ==> !handed.contains_key(key)
        }),
{
}

/// The loop goes on to a bundle only after the token has answered that it is not
/// cancelled, and with the same params.
pub proof fn law_bundle_step_asks_the_token(
    at: BundleLoop,
    params: &Params,
    signal: &CancellationToken,
    r: BundleStep,
    key: Seq<char>,
)
    requires
        at.wf(),
        call_ensures(BundleLoop::step, (at, params, signal), r),
    ensures
        r is Done <==> at.settled().len() == at.bundles().len(),
        r is Run ==> call_ensures(CancellationToken::is_cancelled, (signal,), false),
        r is Failed ==> r->Failed_0 is Aborted && call_ensures(
            CancellationToken::is_cancelled,
            (signal,),
            true,
        ),
        r is Run ==> {
            let bundle = at.bundles()[at.settled().len() as int];
            let wins = shape(bundle) is Object && shape(bundle)->Object_0.contains_key(key);
            &&& r->Run_0.from() == at
            &&& wins ==> r->Run_0.bundle_params().get(key) == Some(shape(bundle)->Object_0[key])
            &&& !wins ==> r->Run_0.bundle_params().get(key) == entries(*params).get(key)
        },
{
}

/// A bundle that came out well is followed by the next one. One that failed ends the
/// batch with its error under `fail_fast`, and a cancellation always does; any other
/// failure, a timeout too, is reported.
pub proof fn law_failed_bundle_is_reported(
    run: BundleRun,
    action: Action,
    fine: AfterBundle,
    error: FlowError,
    failed: AfterBundle,
)
    requires
        run.wf(),
        call_ensures(BundleRun::settled, (run, Ok(action)), fine),
        call_ensures(BundleRun::settled, (run, Err(error)), failed),
    ensures
        fine is Next,
        fine->Next_0.wf(),
        fine->Next_0.bundles() == run.from().bundles(),
        fine->Next_0.fail_fast() == run.from().fail_fast(),
        fine->Next_0.settled().len() == run.from().settled().len() + 1,
        failed is Report <==> !(error is Aborted) && !run.from().fail_fast(),
        failed is Report ==> failed->Report_0.failure() == error && failed->Report_0.from()
            == run.from() && failed->Report_0.wf(),
        !(failed is Report) ==> failed == AfterBundle::Failed(error),
{
}

/// After a reported bundle the next one follows, whatever the hooks decided; a failing
/// hook ends the batch with its own error. The hooks are told of the batch flow.
pub proof fn law_reported_bundle_goes_on(
    report: BundleReport,
    at: &BundleReport,
    reply: FlowResult<Option<ErrorPolicy>>,
    r: FlowResult<BundleLoop>,
    batch_flow: NodeRef,
    shared: &Shared,
    path: &[String],
    ctx: ErrorCtx,
)
    requires
        report.wf(),
        *at == report,
        call_ensures(BundleReport::fired, (report, reply), r),
        call_ensures(BundleReport::ctx, (at, batch_flow, shared, path), ctx),
    ensures
        reply is Ok ==> {
            &&& r is Ok
            &&& r->Ok_0.wf()
            &&& r->Ok_0.bundles() == report.from().bundles()
            &&& r->Ok_0.fail_fast() == report.from().fail_fast()
            &&& r->Ok_0.settled().len() == report.from().settled().len() + 1
        },
        reply is Err ==> r is Err && r->Err_0 == reply->Err_0,
        ctx.node == batch_flow,
        *ctx.shared == *shared,
        ctx.path@ == path@,
        *ctx.error == report.failure(),
{
}

/// A bundle ends the batch exactly where it was cancelled, where it failed under
/// `fail_fast`, or where it failed and a hook failed over it. In the last case the
/// batch comes to the hook's error, and otherwise to the bundle's.
pub proof fn law_what_ends_a_batch(fail_fast: bool, b: BundleOutcome)
    ensures
        b.outcome is Ok ==> stops(fail_fast, b) is None,
        b.outcome is Err && (b.outcome->Err_0 is Aborted || fail_fast) ==> stops(fail_fast, b)
            == Some(b.outcome->Err_0),
        b.outcome is Err && !(b.outcome->Err_0 is Aborted) && !fail_fast && b.reply is Ok ==> stops(
            fail_fast,
            b,
        ) is None,
        b.outcome is Err && !(b.outcome->Err_0 is Aborted) && !fail_fast && b.reply is Err
            ==> stops(fail_fast, b) == Some(b.reply->Err_0),
{
}

/// Under `fail_fast` the first bundle that fails is the last one to run, and its error
/// is what the batch comes to.
pub proof fn law_fail_fast_stops_at_the_first_failure(
    bundles: nat,
    settled: Seq<BundleOutcome>,
    k: int,
)
    requires
        0 <= k < bundles,
        k < settled.len(),
        forall|i: int| 0 <= i < k ==> (#[trigger] settled[i]).outcome is Ok,
        settled[k].outcome is Err,
    ensures
        batch_run(bundles, true, settled) == (BatchRun {
            ran: (k + 1) as nat,
            error: Some(settled[k].outcome->Err_0),
        }),
{
    assert forall|i: int| 0 <= i < k implies stops(true, #[trigger] settled[i]) is None by {
        assert(settled[i].outcome is Ok);
    }
    law_batch_stops(bundles, true, settled, k);
}

/// A cancelled bundle is the last one to run, with or without `fail_fast`, and the
/// batch comes to the cancellation.
pub proof fn law_cancelled_bundle_ends_the_batch(
    bundles: nat,
    fail_fast: bool,
    settled: Seq<BundleOutcome>,
    k: int,
)
    requires
        0 <= k < bundles,
        k < settled.len(),
        forall|i: int|
            0 <= i < k ==> (#[trigger] settled[i]).outcome is Ok || (!fail_fast && !(
            settled[i].outcome->Err_0 is Aborted) && settled[i].reply is Ok),
        settled[k].outcome is Err,
        settled[k].outcome->Err_0 is Aborted,
    ensures
        batch_run(bundles, fail_fast, settled) == (BatchRun {
            ran: (k + 1) as nat,
            error: Some(FlowError::Aborted),
        }),
{
    assert forall|i: int| 0 <= i < k implies stops(fail_fast, #[trigger] settled[i]) is None by {
        assert(settled[i].outcome is Ok || (!fail_fast && !(settled[i].outcome->Err_0 is Aborted)
            && settled[i].reply is Ok));
    }
    law_batch_stops(bundles, fail_fast, settled, k);
}

/// A bundle that runs beside others gets a flow of its own, over a copy of the graph:
/// from the copy of the start node, with the batch flow's step budget, without hooks,
/// under the batch flow's name and the word for a bundle, which comes last on its
/// path. Its params are its own, and have, key by key, the bundle's value where the
/// bundle has the key and otherwise the batch flow's.
pub proof fn law_launched_bundle(
    plan: &ParallelBundles,
    graph: &mut Graph,
    index: usize,
    path: &Vec<String>,
    r: Launched,
    key: Seq<char>,
    i: int,
)
    requires
        old(graph).wf(),
        plan.start < old(graph)@.len(),
        index < plan.bundles@.len(),
        0 <= i < old(graph)@.len(),
        call_ensures(ParallelBundles::launch, (plan, graph, index, path), r),
    ensures
        r.runner == final(graph)@.len() - 1,
        final(graph)@[i] == old(graph)@[i],
        names(r.path@).drop_last() == names(path@),
        names(r.path@).last() == plan.name@ + "~bundle"@,
        r.copies@.contains_key(plan.start),
        old(graph)@.len() <= r.copies@[plan.start] < r.runner,
        ({
            let runner = final(graph)@[r.runner as int];
            let bundle = plan.bundles@[index as int];
            let wins = shape(bundle) is Object && shape(bundle)->Object_0.contains_key(key);
            &&& runner.kind is Flow
            &&& runner.kind->Flow_start == Some(r.copies@[plan.start])
            &&& runner.kind->Flow_max_steps == plan.max_steps
            &&& runner.kind->Flow_hooks.len() == 0
            &&& runner.kind->Flow_ops is None
            &&& runner.core.id == r.runner
            &&& runner.core.name == plan.name@ + "~bundle"@
            &&& runner.core.timeout_ms == 0
            &&& runner.core.max_retries == 0
            &&& runner.core.wait_ms == 0
            &&& runner.core.concurrency == 1
            &&& !runner.core.fail_fast
            &&& !runner.core.batch
            &&& runner.core.runs == 0
            &&& runner.core.signal is None
            &&& runner.core.own_params == Some(runner.core.params)
            &&& wins ==> runner.core.params.get(key) == Some(shape(bundle)->Object_0[key])
            &&& !wins ==> runner.core.params.get(key) == entries(plan.params).get(key)
            &&& forall|a: Seq<char>| !#[trigger] runner.core.successors.contains_key(a)
        }),
        ({
            let original = old(graph)@[plan.start as int].core;
            let copy = final(graph)@[r.copies@[plan.start] as int].core;
            &&& copy.name == original.name
            &&& copy.max_retries == original.max_retries
            &&& copy.timeout_ms == original.timeout_ms
            &&& copy.own_params == original.own_params
        }),
{
    let cloned = final(graph)@.drop_last();
    assert(names(r.path@).drop_last() =~= names(path@));
    crate::laws::graphs::law_copy_is_like_its_original(
        old(graph)@,
        Map::empty(),
        plan.start,
        cloned,
        r.copies@,
        plan.start,
        key,
    );
    assert(cloned[r.copies@[plan.start] as int] == final(graph)@[r.copies@[plan.start] as int]);
    assert(cloned[i] == final(graph)@[i]);
}

/// Bundles that run at once are taken by as many workers as the batch flow allows. One
/// that came out well settles with its own shared; one that failed is reported exactly
/// where it was not cancelled and there is no `fail_fast`. A reported bundle comes to
/// its shared, whatever the hooks decide; a failing hook replaces its error.
pub proof fn law_parallel_bundle_settles(
    plan: &ParallelBundles,
    signal: &CancellationToken,
    pool: Pool<Shared>,
    action: Action,
    shared: Shared,
    fine: Unit<Shared, BundleFailure>,
    error: FlowError,
    failed: Unit<Shared, BundleFailure>,
    reply: FlowResult<Option<ErrorPolicy>>,
    after: FlowResult<Shared>,
)
    requires
        call_ensures(ParallelBundles::pool, (plan, signal), pool),
        call_ensures(ParallelBundles::settled, (plan, Ok(action), shared), fine),
        call_ensures(ParallelBundles::settled, (plan, Err(error), shared), failed),
        failed is Report ==> call_ensures(BundleFailure::fired, (failed->Report_0, reply), after),
    ensures
        pool@.slots.len() == plan.bundles@.len(),
        pool@.sequential <==> plan.concurrency <= 1,
        plan.concurrency > 1 && plan.bundles@.len() >= plan.concurrency ==> pool@.workers
            == plan.concurrency,
        plan.concurrency > 1 && 0 < plan.bundles@.len() < plan.concurrency ==> pool@.workers
            == plan.bundles@.len(),
        upstream(pool@.linked) == Some(*signal),
        fine == Unit::<Shared, BundleFailure>::Settle(Ok(shared)),
        failed is Report <==> !(error is Aborted) && !plan.fail_fast,
        failed is Report ==> failed->Report_0.error == error && failed->Report_0.shared == shared,
        !(failed is Report) ==> failed == Unit::<Shared, BundleFailure>::Settle(Err(error)),
        failed is Report && reply is Ok ==> after == Ok::<Shared, FlowError>(shared),
        failed is Report && reply is Err ==> after is Err && after->Err_0 == reply->Err_0,
{
}

/// The shareds that are merged are those that are there, in bundle order: splitting
/// the slots anywhere splits the shareds likewise, a filled slot gives its shared and
/// an empty one nothing.
pub proof fn law_merged_in_bundle_order(
    first: Seq<Option<Shared>>,
    second: Seq<Option<Shared>>,
    s: Shared,
)
    ensures
        present(first + second) == present(first) + present(second),
        present(seq![Some(s)]) == seq![s],
        present(seq![None::<Shared>]).len() == 0,
        present(Seq::<Option<Shared>>::empty()).len() == 0,
    decreases second.len(),
{
    reveal_with_fuel(present, 2);
    let one = seq![Some(s)];
    assert(one.drop_last() =~= Seq::<Option<Shared>>::empty());
    assert(present(one) =~= seq![s]);
    let none = seq![None::<Shared>];
    assert(none.drop_last() =~= Seq::<Option<Shared>>::empty());
    if second.len() == 0 {
        assert(first + second =~= first);
        assert(present(first) + present(second) =~= present(first));
    } else {
        law_merged_in_bundle_order(first, second.drop_last(), s);
        assert((first + second).drop_last() =~= first + second.drop_last());
        assert((first + second).last() == second.last());
        assert(present(first + second) =~= present(first) + present(second));
    }
}

/// Where every bundle left a shared, the shareds are merged one by one, in order.
pub proof fn law_all_shareds_are_merged(slots: Vec<Option<Shared>>, r: Vec<Shared>)
    requires
        forall|i: int| 0 <= i < slots@.len() ==> (#[trigger] slots@[i]) is Some,
        call_ensures(bundle_shareds, (slots,), r),
    ensures
        r@.len() == slots@.len(),
        forall|i: int| 0 <= i < r@.len() ==> Some(#[trigger] r@[i]) == slots@[i],
{
    lemma_all_present(slots@);
}

proof fn lemma_all_present(slots: Seq<Option<Shared>>)
    requires
        forall|i: int| 0 <= i < slots.len() ==> (#[trigger] slots[i]) is Some,
    ensures
        present(slots).len() == slots.len(),
        forall|i: int| 0 <= i < slots.len() ==> Some(#[trigger] present(slots)[i]) == slots[i],
    decreases slots.len(),
{
    if slots.len() > 0 {
        let before = slots.drop_last();
        assert forall|i: int| 0 <= i < before.len() implies (#[trigger] before[i]) is Some by {
            assert(before[i] == slots[i]);
        }
        lemma_all_present(before);
        assert(slots[slots.len() - 1] is Some);
        assert forall|i: int| 0 <= i < slots.len() implies Some(#[trigger] present(slots)[i])
            == slots[i] by {
            if i < before.len() {
                assert(Some(present(before)[i]) == before[i]);
            }
        }
    }
}

/* -------------------------------- forks -------------------------------- */

/// A fork runs the branches of the current run, under its own failure policy and
/// retries, and as many at once as it allows: all of them where it names no number.
pub proof fn law_fork_follows_its_config(
    fork: &ForkJoin,
    plan: ForkPlan,
    at: &ForkPlan,
    signal: &CancellationToken,
    pool: Pool<Option<Shared>>,
    attempts: Retrying<Vec<Option<Shared>>>,
)
    requires
        call_ensures(ForkJoin::exec_with_retry, (fork,), plan),
        *at == plan,
        call_ensures(ForkPlan::pool, (at, signal), pool),
        call_ensures(ForkPlan::attempts, (at,), attempts),
    ensures
        plan.branches@ == fork@.resolved,
        plan.fail_fast == fork@.fail_fast,
        fork@.concurrency > 0 ==> plan.limit == fork@.concurrency,
        fork@.concurrency == 0 && fork@.resolved.len() > 0 ==> plan.limit == fork@.resolved.len(),
        fork@.concurrency == 0 && fork@.resolved.len() == 0 ==> plan.limit == 1,
        plan.max_retries == fork@.core.max_retries,
        plan.wait_ms == fork@.core.wait_ms,
        pool@.slots.len() == fork@.resolved.len(),
        fork@.concurrency == 0 && fork@.resolved.len() > 0 ==> pool@.workers
            == fork@.resolved.len(),
        fork@.concurrency == 1 ==> pool@.workers == 1,
        fork@.concurrency > 1 && fork@.resolved.len() >= fork@.concurrency ==> pool@.workers
            == fork@.concurrency,
        upstream(pool@.linked) == Some(*signal),
        attempts.max_retries() == fork@.core.max_retries,
        attempts.wait() == fork@.core.wait_ms,
        attempts.outcomes().len() == 0,
{
}

/// A branch that came out well settles with its own context. One that failed is
/// reported exactly where it was not cancelled and there is no `fail_fast`. A reported
/// branch leaves an empty slot, whatever the hooks decide; a failing hook replaces its
/// error.
pub proof fn law_branch_settles(
    plan: &ForkPlan,
    action: Action,
    shared: Shared,
    fine: Unit<Option<Shared>, BranchReport>,
    error: FlowError,
    failed: Unit<Option<Shared>, BranchReport>,
    reply: FlowResult<Option<ErrorPolicy>>,
    after: FlowResult<Option<Shared>>,
)
    requires
        call_ensures(ForkPlan::settled, (plan, Ok(action), shared), fine),
        call_ensures(ForkPlan::settled, (plan, Err(error), shared), failed),
        failed is Report ==> call_ensures(BranchReport::fired, (failed->Report_0, reply), after),
    ensures
        fine == Unit::<Option<Shared>, BranchReport>::Settle(Ok(Some(shared))),
        failed is Report <==> !(error is Aborted) && !plan.fail_fast,
        failed is Report ==> failed->Report_0.error == error && failed->Report_0.shared == shared,
        !(failed is Report) ==> failed == Unit::<Option<Shared>, BranchReport>::Settle(Err(error)),
        failed is Report && reply is Ok ==> after is Ok && after->Ok_0 is None,
        failed is Report && reply is Err ==> after is Err && after->Err_0 == reply->Err_0,
{
}

/// The hooks are told of the branch, or of the batch flow, over the context that the
/// branch or bundle ran over.
pub proof fn law_unit_hooks_are_told(
    branch: &BranchReport,
    bundle: &BundleFailure,
    node: NodeRef,
    path: &[String],
    of_branch: ErrorCtx,
    of_bundle: ErrorCtx,
)
    requires
        call_ensures(BranchReport::ctx, (branch, node, path), of_branch),
        call_ensures(BundleFailure::ctx, (bundle, node, path), of_bundle),
    ensures
        of_branch.node == node,
        *of_branch.shared == branch.shared,
        of_branch.path@ == path@,
        *of_branch.error == branch.error,
        of_bundle.node == node,
        *of_bundle.shared == bundle.shared,
        of_bundle.path@ == path@,
        *of_bundle.error == bundle.error,
{
}

/// `join()` gets one entry per branch, in order: the context of a branch that came out
/// well, and nothing of one that failed or never ran.
pub proof fn law_joined_slot_by_slot(
    slots: Vec<Option<Option<Shared>>>,
    r: Vec<Option<Shared>>,
    i: int,
)
    requires
        call_ensures(joined_slots, (slots,), r),
    ensures
        r@.len() == slots@.len(),
        0 <= i < slots@.len() && slots@[i] is Some ==> r@[i] == slots@[i]->0,
        0 <= i < slots@.len() && slots@[i] is None ==> r@[i] is None,
{
}

/// Of a fallback's array `join()` gets one entry per element, in order, and nothing of
/// a null one; of a fallback that is no array it gets no entries.
pub proof fn law_fallback_slot_by_slot(
    exec_res: &serde_json::Value,
    r: Vec<Option<Shared>>,
    i: int,
)
    requires
        call_ensures(branch_shareds, (exec_res,), r),
    ensures
        shape(*exec_res) is Array ==> r@.len() == shape(*exec_res)->Array_0.len(),
        !(shape(*exec_res) is Array) ==> r@.len() == 0,
        shape(*exec_res) is Array && 0 <= i < r@.len() ==> {
            let v = shape(*exec_res)->Array_0[i];
            &&& shape(v) is Null ==> r@[i] is None
            &&& !(shape(v) is Null) ==> r@[i] == Some(v)
        },
{
}

/// The path of a branch, or of a sub-flow, is the one that led there and its own name.
/// Each attempt at a sub-flow starts from the context that was derived.
pub proof fn law_parts_have_their_path(
    graph: &Graph,
    branch: NodeRef,
    subflow: NodeRef,
    derived: &Shared,
    path: &Vec<String>,
    of_branch: Vec<String>,
    of_sub: Option<SubRun>,
)
    requires
        graph.wf(),
        branch < graph@.len(),
        subflow < graph@.len(),
        call_ensures(branch_path, (graph, branch, path), of_branch),
        call_ensures(sub_run, (graph, subflow, derived, path), of_sub),
    ensures
        names(of_branch@).drop_last() == names(path@),
        names(of_branch@).last() == graph@[branch as int].core.name,
        of_sub is Some <==> graph@[subflow as int].kind is Subflow,
        of_sub is Some ==> {
            &&& of_sub->0.sub == graph@[subflow as int].kind->Subflow_sub
            &&& of_sub->0.shared == *derived
            &&& names(of_sub->0.path@).drop_last() == names(path@)
            &&& names(of_sub->0.path@).last() == graph@[of_sub->0.sub as int].core.name
        },
{
    assert(names(of_branch@).drop_last() =~= names(path@));
    if of_sub is Some {
        assert(names(of_sub->0.path@).drop_last() =~= names(path@));
    }
}

/// A sub-flow is attempted with its own retries.
pub proof fn law_subflow_retries(sub: &Subflow, r: Retrying<Shared>)
    requires
        call_ensures(Subflow::exec_with_retry, (sub,), r),
    ensures
        r.max_retries() == sub@.core.max_retries,
        r.wait() == sub@.core.wait_ms,
        r.outcomes().len() == 0,
{
}

/// A traversal visits any node of the graph, and every node, bundle and run may come
/// out any way at all.
pub proof fn law_any_flow_can_go_on(
    t: Traversal,
    graph: &mut Graph,
    params: &Params,
    budget: &mut Budget,
    cancelled: bool,
    at: Visiting,
    seen: &Graph,
    outcome: FlowResult<Action>,
    flow: NodeRef,
    signal: Option<CancellationToken>,
    bundles: BundleLoop,
    run: BundleRun,
    report: BundleReport,
    policy: FlowResult<Option<ErrorPolicy>>,
    plan: &ParallelBundles,
    index: usize,
    path: &Vec<String>,
    fin: Finishing,
    reply: FlowResult<()>,
)
    requires
        old(graph).wf(),
        t@.curr is Some ==> t@.curr->0 < old(graph)@.len(),
        seen.wf(),
        at.node() < seen@.len(),
        flow < old(graph)@.len(),
        bundles.wf(),
        run.wf(),
        report.wf(),
        plan.start < old(graph)@.len(),
        index < plan.bundles@.len(),
    ensures
        call_requires(Traversal::visit_unless, (t, graph, params, budget, cancelled)),
        call_requires(Visiting::arrived, (at, seen, outcome)),
        call_requires(open_run, (graph, flow, signal)),
        call_requires(close_nested, (graph, flow, outcome)),
        call_requires(Finishing::ended, (fin, graph, flow, reply)),
        call_requires(BundleLoop::step_unless, (bundles, params, cancelled)),
        call_requires(BundleRun::settled, (run, outcome)),
        call_requires(BundleReport::fired, (report, policy)),
        call_requires(ParallelBundles::launch, (plan, graph, index, path)),
{
}

} // verus!
