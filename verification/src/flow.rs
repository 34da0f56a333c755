//! [`Flow`]: orchestrates a graph of nodes from a start node, following the
//! [`Action`] each node returns. Supports hooks ([`Flow::use_hooks`]), a cycle
//! guard (`max_steps`), cancellation, and can itself be used as a node inside
//! another flow.

use tokio_util::sync::CancellationToken;
use vstd::prelude::*;

use crate::error::{FlowError, FlowResult};
use crate::flow_node::{FlowNode, FlowNodeView, Kind};
use crate::graph::{core_set, Graph};
use crate::json::entries;
use crate::node_core::{lists, unwired_text, NodeCore, NodeCoreView, NodeOpts};
use crate::signal::{answers, ask, run_signal, upstream};
use crate::types::{Action, HookRef, NodeRef, OpsRef, Params};

verus! {

/// What a [`Flow`] stands for.
#[verifier::ext_equal]
pub struct FlowView {
    pub core: NodeCoreView,
    pub start_node: Option<NodeRef>,
    pub max_steps: usize,
    pub hooks: Seq<HookRef>,
    pub ops: Option<OpsRef>,
}

impl FlowView {
    /// A flow with the default config.
    pub open spec fn fresh(start: Option<NodeRef>) -> FlowView {
        FlowView {
            core: NodeCoreView::fresh("Flow"@),
            start_node: start,
            max_steps: 1000,
            hooks: Seq::empty(),
            ops: None,
        }
    }
}

/// Orchestrates a graph of nodes.
pub struct Flow {
    pub(crate) core: NodeCore,
    pub(crate) start_node: Option<NodeRef>,
    pub(crate) max_steps: usize,
    pub(crate) hooks: Vec<HookRef>,
    pub(crate) ops: Option<OpsRef>,
}

impl View for Flow {
    type V = FlowView;

    open(crate) spec fn view(&self) -> FlowView {
        FlowView {
            core: self.core@,
            start_node: self.start_node,
            max_steps: self.max_steps,
            hooks: self.hooks@,
            ops: self.ops,
        }
    }
}

impl Flow {
    pub open(crate) spec fn wf(self) -> bool {
        self.core.wf()
    }

    /// A flow starting at `start`.
    pub fn new(start: NodeRef) -> (r: Self)
        ensures
            r.wf(),
            r@ == FlowView::fresh(Some(start)),
    {
        Flow::starting_at(Some(start))
    }

    /// A flow starting at `start`, with custom `prep`/`post` ops.
    pub fn with_ops(start: NodeRef, ops: OpsRef) -> (r: Self)
        ensures
            r.wf(),
            r@ == (FlowView { ops: Some(ops), ..FlowView::fresh(Some(start)) }),
    {
        let mut f = Flow::starting_at(Some(start));
        f.ops = Some(ops);
        f
    }

    /// A flow with no start node yet (set it via [`Flow::start`]).
    pub fn empty() -> (r: Self)
        ensures
            r.wf(),
            r@ == FlowView::fresh(None),
    {
        Flow::starting_at(None)
    }

    fn starting_at(start: Option<NodeRef>) -> (r: Self)
        ensures
            r.wf(),
            r@ == FlowView::fresh(start),
    {
        Flow {
            core: NodeCore::named("Flow".to_owned()),
            start_node: start,
            max_steps: 1000,
            hooks: Vec::new(),
            ops: None,
        }
    }

    /// Max node visits per run before [`crate::FlowError::Cycle`] is thrown.
    /// Default: 1000.
    pub fn with_max_steps(self, max_steps: usize) -> (r: Self)
        requires
            self.wf(),
        ensures
            r.wf(),
            r@ == (FlowView { max_steps, ..self@ }),
    {
        let mut f = self;
        f.max_steps = max_steps;
        f
    }

    pub fn with_name(self, name: String) -> (r: Self)
        requires
            self.wf(),
        ensures
            r.wf(),
            r@ == (FlowView { core: NodeCoreView { name: name@, ..self@.core }, ..self@ }),
    {
        let mut f = self;
        f.core.set_name(name);
        f
    }

    pub fn with_node_opts(self, opts: NodeOpts) -> (r: Self)
        requires
            self.wf(),
        ensures
            r.wf(),
            r@ == (FlowView { core: self@.core.with_opts(opts), ..self@ }),
    {
        let mut f = self;
        f.core.apply_opts(opts);
        f
    }

    /// Set the starting node. Returns it so wiring chains naturally.
    pub fn start(&mut self, node: NodeRef) -> (r: NodeRef)
        requires
            old(self).wf(),
        ensures
            final(self).wf(),
            final(self)@ == (FlowView { start_node: Some(node), ..old(self)@ }),
            r == node,
    {
        self.start_node = Some(node);
        node
    }

    /// Register a hook set. Multiple sets are composed (node hooks fan out in
    /// registration order; `on_error` is first-wins).
    pub fn use_hooks(&mut self, hooks: HookRef) -> (r: &Self)
        requires
            old(self).wf(),
        ensures
            final(self).wf(),
            final(self)@ == (FlowView { hooks: old(self)@.hooks.push(hooks), ..old(self)@ }),
            *r == *final(self),
    {
        self.hooks.push(hooks);
        self
    }

    pub fn start_node(&self) -> (r: Option<NodeRef>)
        ensures
            r == self@.start_node,
    {
        self.start_node
    }

    pub fn max_steps(&self) -> (r: usize)
        ensures
            r == self@.max_steps,
    {
        self.max_steps
    }

    /// The overrides of the flow's own `prep`/`post`, if it has any.
    pub fn ops(&self) -> (r: Option<OpsRef>)
        ensures
            r == self@.ops,
    {
        self.ops
    }

    pub fn hooks(&self) -> (r: Vec<HookRef>)
        ensures
            r@ == self@.hooks,
    {
        self.hooks.clone()
    }
}

/* ------------------------------ traversal ------------------------------ */

/// Per-run step budget (cycle guard).
pub struct Budget {
    pub steps: usize,
    pub max: usize,
}

impl Budget {
    pub fn new(max: usize) -> (r: Self)
        ensures
            r == (Budget { steps: 0, max }),
    {
        Budget { steps: 0, max }
    }

    /// The budget after one more step.
    pub open spec fn spent(self) -> Budget {
        Budget { steps: next_step(self.steps as nat) as usize, max: self.max }
    }

    /// Takes a step: an error once there were more than `max` of them.
    pub fn spend(&mut self) -> (r: FlowResult<()>)
        ensures
            *final(self) == old(self).spent(),
            r == (if final(self).steps > final(self).max {
                Err(FlowError::Cycle { max_steps: final(self).max })
            } else {
                Ok(())
            }),
    {
        if self.steps < usize::MAX {
            self.steps = self.steps + 1;
        }
        if self.steps > self.max {
            Err(FlowError::cycle(self.max))
        } else {
            Ok(())
        }
    }
}

/// The number of the step after `steps` steps. It stays at the largest number
/// that the machine can count to.
pub open spec fn next_step(steps: nat) -> nat {
    if steps < usize::MAX {
        steps + 1
    } else {
        steps
    }
}

/// The message of a traversal without a start node.
pub open spec fn no_start_text() -> Seq<char> {
    "Flow has no start node. Call flow.start(node) or pass it to the constructor."@
}

/// The texts of a path.
pub open spec fn names(path: Seq<String>) -> Seq<Seq<char>> {
    path.map_values(|s: String| s@)
}

/// A path with one more name.
pub(crate) fn path_to(path: &Vec<String>, name: &str) -> (r: Vec<String>)
    ensures
        names(r@) == names(path@).push(name@),
{
    let mut r = path.clone();
    let ghost before = r@;
    r.push(name.to_owned());
    assert(before =~= path@);
    assert(names(r@) =~= names(path@).push(name@));
    r
}

/// Core graph traversal shared by [`Flow`] and [`crate::BatchFlow`], between two
/// nodes.
pub struct Traversal {
    curr: Option<NodeRef>,
    last_action: Action,
    path: Vec<String>,
}

/// What a [`Traversal`] stands for.
#[verifier::ext_equal]
pub struct TraversalView {
    /// The node to visit next; `None` once there is none.
    pub curr: Option<NodeRef>,
    /// The action of the node visited last.
    pub last_action: Action,
    /// The names of the nodes visited so far, behind the path that led here.
    pub path: Seq<Seq<char>>,
}

/// What a traversal does next.
pub enum Visit {
    /// There is no node left: the action of the last one.
    Finished(Action),
    /// The step budget is used up, or the run was cancelled.
    Failed(FlowError),
    /// Run the node's lifecycle, and hand what came of it to
    /// [`Visiting::arrived`].
    Run(Visiting),
}

/// A traversal at a node.
pub struct Visiting {
    node: NodeRef,
    path: Vec<String>,
}

/// A traversal after a node.
pub struct Arrival {
    pub next: Traversal,
    /// The warning to log, where the action leads nowhere though other edges
    /// exist.
    pub warning: Option<String>,
}

impl View for Traversal {
    type V = TraversalView;

    closed spec fn view(&self) -> TraversalView {
        TraversalView {
            curr: self.curr,
            last_action: self.last_action,
            path: names(self.path@),
        }
    }
}

impl TraversalView {
    /// The traversal after the node that it is at has returned an action: the
    /// action's edge leads on.
    pub open spec fn after(self, g: Seq<FlowNodeView>, action: Action) -> TraversalView {
        let node = self.curr->0;
        TraversalView {
            curr: g[node as int].core.successor(action),
            last_action: action,
            path: self.path.push(g[node as int].core.name),
        }
    }
}

/// Begins a traversal at `start`, with the path that led here.
pub fn orchestrate(start: Option<NodeRef>, path: &Vec<String>) -> (r: FlowResult<Traversal>)
    ensures
        match r {
            Ok(t) => start is Some && t@ == (TraversalView {
                curr: start,
                last_action: None,
                path: names(path@),
            }),
            Err(e) => start is None && e is Flow && e->Flow_0@ == no_start_text(),
        },
{
    match start {
        Some(_) => {
            let path2 = path.clone();
            assert(path2@ =~= path@);
            Ok(Traversal { curr: start, last_action: None, path: path2 })
        },
        None => Err(
            FlowError::flow(
                "Flow has no start node. Call flow.start(node) or pass it to the constructor.".to_owned(),
            ),
        ),
    }
}

/// The orchestration of a flow, about to begin.
pub struct Execution {
    pub traversal: Traversal,
    /// The params that the flow propagates to every node.
    pub params: Params,
}

impl Flow {
    /// What runs between the flow's own `prep` and `post`: a traversal from the
    /// start node, with the params that the flow has now.
    pub fn execute(&self, path: &Vec<String>) -> (r: FlowResult<Execution>)
        ensures
            match r {
                Ok(x) => {
                    &&& self@.start_node is Some
                    &&& x.traversal@ == (TraversalView {
                        curr: self@.start_node,
                        last_action: None,
                        path: names(path@),
                    })
                    &&& entries(x.params) == self@.core.params
                },
                Err(e) => {
                    &&& self@.start_node is None
                    &&& e is Flow
                    &&& e->Flow_0@ == no_start_text()
                },
            },
    {
        let params = self.core.params();
        match orchestrate(self.start_node, path) {
            Ok(traversal) => Ok(Execution { traversal, params }),
            Err(e) => Err(e),
        }
    }
}

/// What comes of going on to the next node: whether the step is within budget,
/// whether the run was cancelled, and the params that the node then has.
pub open spec fn visit_made(
    t: TraversalView,
    g0: Seq<FlowNodeView>,
    b0: Budget,
    params: Map<Seq<char>, serde_json::Value>,
    cancelled: bool,
    g1: Seq<FlowNodeView>,
    b1: Budget,
    r: Visit,
) -> bool {
    match t.curr {
        None => r == Visit::Finished(t.last_action) && g1 == g0 && b1 == b0,
        Some(node) => {
            &&& b1 == b0.spent()
            &&& if b1.steps > b1.max {
                g1 == g0 && r == Visit::Failed(FlowError::Cycle { max_steps: b1.max })
            } else if cancelled {
                g1 == g0 && r == Visit::Failed(FlowError::Aborted)
            } else {
                &&& g1 == core_set(g0, node, g0[node as int].core.injected(params))
                &&& r is Run
                &&& r->Run_0.node() == node
                &&& r->Run_0.path() == t.path.push(g0[node as int].core.name)
            }
        },
    }
}

impl Traversal {
    /// Goes on to the next node, unless the token answers that the run was
    /// cancelled. The flow's params are injected into the node.
    pub fn visit(
        self,
        graph: &mut Graph,
        params: &Params,
        budget: &mut Budget,
        signal: &CancellationToken,
    ) -> (r: Visit)
        requires
            old(graph).wf(),
            self@.curr is Some ==> self@.curr->0 < old(graph)@.len(),
        ensures
            final(graph).wf(),
            exists|cancelled: bool|
                {
                    &&& #[trigger] answers(*signal, cancelled)
                    &&& visit_made(
                        self@,
                        old(graph)@,
                        *old(budget),
                        entries(*params),
                        cancelled,
                        final(graph)@,
                        *final(budget),
                        r,
                    )
                },
    {
        let cancelled = ask(CancellationToken::is_cancelled, signal);
        assert(answers(*signal, cancelled));
        self.visit_unless(graph, params, budget, cancelled)
    }

    /// Goes on to the next node, where the state of the token is known.
    pub fn visit_unless(
        self,
        graph: &mut Graph,
        params: &Params,
        budget: &mut Budget,
        cancelled: bool,
    ) -> (r: Visit)
        requires
            old(graph).wf(),
            self@.curr is Some ==> self@.curr->0 < old(graph)@.len(),
        ensures
            final(graph).wf(),
            visit_made(
                self@,
                old(graph)@,
                *old(budget),
                entries(*params),
                cancelled,
                final(graph)@,
                *final(budget),
                r,
            ),
    {
        match self.curr {
            None => Visit::Finished(self.last_action),
            Some(node) => {
                if let Err(e) = budget.spend() {
                    return Visit::Failed(e);
                }
                if cancelled {
                    return Visit::Failed(FlowError::Aborted);
                }
                graph.inject_params(node, params);
                let path = path_to(&self.path, graph.node(node).name());
                Visit::Run(Visiting { node, path })
            },
        }
    }
}

impl Visiting {
    /// The node that is visited.
    pub closed spec fn node(self) -> NodeRef {
        self.node
    }

    /// The names of the nodes visited so far, this one last.
    pub closed spec fn path(self) -> Seq<Seq<char>> {
        names(self.path@)
    }

    /// The node whose lifecycle is to be run.
    pub fn node_ref(&self) -> (r: NodeRef)
        ensures
            r == self.node(),
    {
        self.node
    }

    /// The path to hand to the node's lifecycle.
    pub fn visited(&self) -> (r: &Vec<String>)
        ensures
            names(r@) == self.path(),
    {
        &self.path
    }

    /// The node's lifecycle came out: its action leads on, its error ends the
    /// traversal.
    pub fn arrived(self, graph: &Graph, outcome: FlowResult<Action>) -> (r: FlowResult<Arrival>)
        requires
            graph.wf(),
            self.node() < graph@.len(),
        ensures
            match outcome {
                Ok(action) => {
                    &&& r is Ok
                    &&& r->Ok_0.next@ == (TraversalView {
                        curr: graph@[self.node() as int].core.successor(action),
                        last_action: action,
                        path: self.path(),
                    })
                    &&& r->Ok_0.next@.curr is Some ==> r->Ok_0.next@.curr->0 < graph@.len()
                    &&& r->Ok_0.warning is Some <==> graph@[self.node() as int].core.likely_typo(
                        action,
                    )
                    &&& r->Ok_0.warning is Some ==> exists|have: Seq<Seq<char>>|
                        lists(have, graph@[self.node() as int].core.successors.dom())
                            && r->Ok_0.warning->0@ == #[trigger] unwired_text(
                            graph@[self.node() as int].core.name,
                            action->0@,
                            have,
                        )
                },
                Err(e) => r == Err::<Arrival, FlowError>(e),
            },
    {
        match outcome {
            Ok(action) => {
                let n = graph.node(self.node).node_core();
                let curr = n.resolve_successor(&action);
                let warning = n.unwired_warning(&action);
                proof {
                    if let Some(t) = curr {
                        graph.lemma_edges_stay_inside(self.node, action);
                    }
                }
                let next = Traversal { curr, last_action: action, path: self.path };
                Ok(Arrival { next, warning })
            },
            Err(e) => Err(e),
        }
    }
}

/// How a traversal ends.
pub enum TripEnd {
    /// At a node whose action leads nowhere.
    Finished(Action),
    /// With the step budget used up.
    Cycle { max_steps: usize },
    /// Not yet: at a node that has returned nothing so far.
    Underway,
}

/// A whole traversal of an undisturbed run.
pub struct Trip {
    /// The nodes visited, in turn.
    pub visits: Seq<NodeRef>,
    pub end: TripEnd,
}

/// The traversal whose nodes return these actions, in turn.
pub open spec fn trip(
    g: Seq<FlowNodeView>,
    t: TraversalView,
    budget: Budget,
    actions: Seq<Action>,
) -> Trip
    decreases actions.len(),
{
    match t.curr {
        None => Trip { visits: Seq::empty(), end: TripEnd::Finished(t.last_action) },
        Some(node) => if budget.spent().steps > budget.max {
            Trip { visits: Seq::empty(), end: TripEnd::Cycle { max_steps: budget.max } }
        } else if actions.len() == 0 {
            Trip { visits: Seq::empty(), end: TripEnd::Underway }
        } else {
            let rest = trip(g, t.after(g, actions[0]), budget.spent(), actions.drop_first());
            Trip { visits: seq![node] + rest.visits, end: rest.end }
        },
    }
}

/// A visit and the arrival that follows it make one step of a traversal: it takes
/// one step of the budget, the action's edge leads on, and the path has one more
/// name.
pub proof fn law_visit_and_arrival_make_a_step(
    t: TraversalView,
    g0: Seq<FlowNodeView>,
    b0: Budget,
    params: Map<Seq<char>, serde_json::Value>,
    g1: Seq<FlowNodeView>,
    b1: Budget,
    at: Visiting,
    g2: Seq<FlowNodeView>,
    action: Action,
)
    requires
        visit_made(t, g0, b0, params, false, g1, b1, Visit::Run(at)),
        g2[at.node() as int].core.name == g0[at.node() as int].core.name,
    ensures
        b1 == b0.spent(),
        t.curr == Some(at.node()),
        t.after(g2, action) == (TraversalView {
            curr: g2[at.node() as int].core.successor(action),
            last_action: action,
            path: at.path(),
        }),
{
}

/// The node that the edges lead to from `start`, by these actions in turn.
pub open spec fn walk(
    g: Seq<FlowNodeView>,
    start: Option<NodeRef>,
    actions: Seq<Action>,
) -> Option<NodeRef>
    decreases actions.len(),
{
    if actions.len() == 0 {
        start
    } else {
        match walk(g, start, actions.drop_last()) {
            Some(node) => g[node as int].core.successor(actions.last()),
            None => None,
        }
    }
}

proof fn lemma_walk_first(g: Seq<FlowNodeView>, start: NodeRef, actions: Seq<Action>)
    requires
        actions.len() > 0,
    ensures
        walk(g, Some(start), actions) == walk(
            g,
            g[start as int].core.successor(actions[0]),
            actions.drop_first(),
        ),
    decreases actions.len(),
{
    reveal_with_fuel(walk, 2);
    let next = g[start as int].core.successor(actions[0]);
    if actions.len() == 1 {
        assert(actions.drop_last() =~= Seq::<Action>::empty());
        assert(actions.drop_first() =~= Seq::<Action>::empty());
    } else {
        lemma_walk_first(g, start, actions.drop_last());
        assert(actions.drop_last().drop_first() =~= actions.drop_first().drop_last());
    }
}

/// A flow follows the wired edges: each node visited is the one that the
/// actions of the nodes before it lead to, from the start on.
pub proof fn law_flow_follows_edges(
    g: Seq<FlowNodeView>,
    t: TraversalView,
    budget: Budget,
    actions: Seq<Action>,
)
    ensures
        trip(g, t, budget, actions).visits.len() <= actions.len(),
        forall|i: int|
            0 <= i < trip(g, t, budget, actions).visits.len() ==> Some(
                #[trigger] trip(g, t, budget, actions).visits[i],
            ) == walk(g, t.curr, actions.take(i)),
    decreases actions.len(),
{
    let whole = trip(g, t, budget, actions);
    if t.curr is Some && !(budget.spent().steps > budget.max) && actions.len() > 0 {
        let node = t.curr->0;
        let rest = trip(g, t.after(g, actions[0]), budget.spent(), actions.drop_first());
        law_flow_follows_edges(g, t.after(g, actions[0]), budget.spent(), actions.drop_first());
        assert forall|i: int| 0 <= i < whole.visits.len() implies Some(#[trigger] whole.visits[i])
            == walk(g, t.curr, actions.take(i)) by {
            if i > 0 {
                assert(whole.visits[i] == rest.visits[i - 1]);
                lemma_walk_first(g, node, actions.take(i));
                assert(actions.take(i).drop_first() =~= actions.drop_first().take(i - 1));
            } else {
                assert(actions.take(0) =~= Seq::<Action>::empty());
            }
        }
    }
}

/// The traversal after its nodes have returned these actions, in turn.
pub open spec fn travelled(
    g: Seq<FlowNodeView>,
    t: TraversalView,
    actions: Seq<Action>,
) -> TraversalView
    decreases actions.len(),
{
    if actions.len() == 0 {
        t
    } else {
        travelled(g, t, actions.drop_last()).after(g, actions.last())
    }
}

/// The path lists the nodes visited so far: behind the path that led to the flow
/// come the names of the nodes visited, in order, each visit once.
pub proof fn law_path_lists_visited_nodes(
    g: Seq<FlowNodeView>,
    t: TraversalView,
    actions: Seq<Action>,
)
    requires
        forall|i: int|
            0 <= i < actions.len() ==> (#[trigger] walk(g, t.curr, actions.take(i))) is Some,
    ensures
        travelled(g, t, actions).curr == walk(g, t.curr, actions),
        travelled(g, t, actions).path == t.path + Seq::new(
            actions.len(),
            |i: int| g[walk(g, t.curr, actions.take(i))->0 as int].core.name,
        ),
    decreases actions.len(),
{
    let names_of = |acts: Seq<Action>|
        Seq::new(acts.len(), |i: int| g[walk(g, t.curr, acts.take(i))->0 as int].core.name);
    if actions.len() == 0 {
        assert(t.path + names_of(actions) =~= t.path);
    } else {
        let before = actions.drop_last();
        assert forall|i: int| 0 <= i < before.len() implies (#[trigger] walk(
            g,
            t.curr,
            before.take(i),
        )) is Some by {
            assert(before.take(i) =~= actions.take(i));
        }
        law_path_lists_visited_nodes(g, t, before);
        assert(actions.take(before.len() as int) =~= before);
        assert(walk(g, t.curr, actions.take(before.len() as int)) is Some);
        assert forall|i: int| 0 <= i < before.len() implies #[trigger] before.take(i)
            == actions.take(i) by {
            assert(before.take(i) =~= actions.take(i));
        }
        assert(t.path + names_of(actions) =~= (t.path + names_of(before)).push(
            g[walk(g, t.curr, before)->0 as int].core.name,
        ));
    }
}

/// The cycle guard: a run never visits more than `max_steps` nodes.
pub proof fn law_cycle_guard_bounds_visits(
    g: Seq<FlowNodeView>,
    t: TraversalView,
    budget: Budget,
    actions: Seq<Action>,
)
    requires
        budget.steps <= budget.max < usize::MAX,
    ensures
        trip(g, t, budget, actions).visits.len() <= budget.max - budget.steps,
    decreases actions.len(),
{
    if t.curr is Some && !(budget.spent().steps > budget.max) && actions.len() > 0 {
        law_cycle_guard_bounds_visits(
            g,
            t.after(g, actions[0]),
            budget.spent(),
            actions.drop_first(),
        );
    }
}

/// A flow whose edges lead nowhere after `k` nodes, within its budget, visits
/// exactly those and comes to the action of the last one.
pub proof fn law_flow_finishes(
    g: Seq<FlowNodeView>,
    t: TraversalView,
    budget: Budget,
    actions: Seq<Action>,
    k: nat,
)
    requires
        k <= actions.len(),
        budget.steps + k <= budget.max,
        walk(g, t.curr, actions.take(k as int)) is None,
        forall|i: int|
            0 <= i < k ==> (#[trigger] walk(g, t.curr, actions.take(i))) is Some,
    ensures
        trip(g, t, budget, actions).visits.len() == k,
        trip(g, t, budget, actions).end == TripEnd::Finished(
            if k == 0 {
                t.last_action
            } else {
                actions[k - 1]
            },
        ),
    decreases k,
{
    if k == 0 {
        assert(actions.take(0) =~= Seq::<Action>::empty());
    } else {
        assert(walk(g, t.curr, actions.take(0)) is Some);
        assert(actions.take(0) =~= Seq::<Action>::empty());
        let node = t.curr->0;
        let next = t.after(g, actions[0]);
        let rest = actions.drop_first();
        assert forall|i: int| 0 <= i <= k - 1 implies (#[trigger] walk(g, next.curr, rest.take(i)))
            == walk(g, t.curr, actions.take(i + 1)) by {
            lemma_walk_first(g, node, actions.take(i + 1));
            assert(actions.take(i + 1).drop_first() =~= rest.take(i));
        }
        law_flow_finishes(g, next, budget.spent(), rest, (k - 1) as nat);
    }
}

/// A flow whose edges lead on and on uses its budget up: it visits as many
/// nodes as the budget allows and comes to a cycle error.
pub proof fn law_endless_flow_is_stopped(
    g: Seq<FlowNodeView>,
    t: TraversalView,
    budget: Budget,
    actions: Seq<Action>,
)
    requires
        budget.steps <= budget.max < usize::MAX,
        actions.len() == budget.max - budget.steps,
        forall|i: int|
            0 <= i <= actions.len() ==> (#[trigger] walk(g, t.curr, actions.take(i))) is Some,
    ensures
        trip(g, t, budget, actions).visits.len() == budget.max - budget.steps,
        trip(g, t, budget, actions).end == (TripEnd::Cycle { max_steps: budget.max }),
    decreases actions.len(),
{
    assert(walk(g, t.curr, actions.take(0)) is Some);
    assert(actions.take(0) =~= Seq::<Action>::empty());
    if actions.len() > 0 {
        let node = t.curr->0;
        let next = t.after(g, actions[0]);
        let rest = actions.drop_first();
        assert forall|i: int| 0 <= i <= rest.len() implies (#[trigger] walk(
            g,
            next.curr,
            rest.take(i),
        )) is Some by {
            lemma_walk_first(g, node, actions.take(i + 1));
            assert(actions.take(i + 1).drop_first() =~= rest.take(i));
            assert(walk(g, t.curr, actions.take(i + 1)) is Some);
        }
        law_endless_flow_is_stopped(g, next, budget.spent(), rest);
    }
}

/* -------------------------------- runs --------------------------------- */

/// What a flow or batch flow runs with.
pub struct Scope {
    pub hooks: Vec<HookRef>,
    pub path: Vec<String>,
    pub budget: Budget,
    pub signal: CancellationToken,
}

/// The node is a flow or a batch flow.
pub open spec fn is_flow(kind: Kind) -> bool {
    kind is Flow || kind is BatchFlow
}

/// The hooks of a flow or batch flow.
pub open spec fn own_hooks(kind: Kind) -> Seq<HookRef> {
    match kind {
        Kind::Flow { hooks, .. } => hooks,
        Kind::BatchFlow { hooks, .. } => hooks,
        _ => Seq::empty(),
    }
}

/// The step budget that a flow or batch flow starts a run with.
pub open spec fn full_budget(kind: Kind) -> Budget {
    Budget {
        steps: 0,
        max: match kind {
            Kind::Flow { max_steps, .. } => max_steps,
            Kind::BatchFlow { max_steps, .. } => max_steps,
            _ => 0,
        },
    }
}

fn config_of(node: &FlowNode) -> (r: Option<(Vec<HookRef>, usize)>)
    ensures
        match r {
            Some((hooks, max_steps)) => is_flow(node@.kind) && hooks@ == own_hooks(node@.kind)
                && max_steps == full_budget(node@.kind).max,
            None => !is_flow(node@.kind),
        },
{
    match node {
        FlowNode::Flow(f) => Some((f.hooks(), f.max_steps)),
        FlowNode::BatchFlow(f) => Some((f.hooks(), f.max_steps)),
        _ => None,
    }
}

/// Opens a top-level run of a flow or batch flow: its own hooks, an empty path
/// and a full step budget. Pass `Some(token)` to make the run cancellable.
/// `None`: the node is no flow.
pub fn open_run(
    graph: &mut Graph,
    flow: NodeRef,
    signal: Option<CancellationToken>,
) -> (r: Option<Opening>)
    requires
        old(graph).wf(),
        flow < old(graph)@.len(),
    ensures
        final(graph).wf(),
        match r {
            Some(o) => {
                let s = o.scope;
                &&& is_flow(old(graph)@[flow as int].kind)
                &&& s.hooks@ == own_hooks(old(graph)@[flow as int].kind)
                &&& s.budget == full_budget(old(graph)@[flow as int].kind)
                &&& s.path@.len() == 0
                &&& match signal {
                    Some(t) => s.signal == t,
                    None => upstream(s.signal) is None,
                }
                &&& final(graph)@ == core_set(
                    old(graph)@,
                    flow,
                    old(graph)@[flow as int].core.under(s.signal),
                )
            },
            None => !is_flow(old(graph)@[flow as int].kind) && final(graph)@ == old(graph)@,
        },
{
    match config_of(graph.node(flow)) {
        Some((hooks, max_steps)) => {
            let signal = run_signal(signal);
            graph.set_signal(flow, &signal);
            let budget = Budget::new(max_steps);
            Some(Opening { scope: Scope { hooks, path: Vec::new(), budget, signal } })
        },
        None => None,
    }
}

/// Opens a run of a flow or batch flow nested in another: its own hooks before
/// the parent's, the path that led to it, which names it last, a step budget of
/// its own, and the parent's token. `None`: the node is no flow. Close it with
/// [`close_nested`].
pub fn open_nested(
    graph: &mut Graph,
    flow: NodeRef,
    parent_hooks: &Vec<HookRef>,
    path: &Vec<String>,
    signal: &CancellationToken,
) -> (r: Option<Scope>)
    requires
        old(graph).wf(),
        flow < old(graph)@.len(),
    ensures
        final(graph).wf(),
        match r {
            Some(s) => {
                &&& is_flow(old(graph)@[flow as int].kind)
                &&& s.hooks@ == own_hooks(old(graph)@[flow as int].kind) + parent_hooks@
                &&& s.budget == full_budget(old(graph)@[flow as int].kind)
                &&& s.path@ == path@
                &&& s.signal == *signal
                &&& final(graph)@ == core_set(
                    old(graph)@,
                    flow,
                    old(graph)@[flow as int].core.under(*signal),
                )
            },
            None => !is_flow(old(graph)@[flow as int].kind) && final(graph)@ == old(graph)@,
        },
{
    match config_of(graph.node(flow)) {
        Some((hooks, max_steps)) => {
            let mut hooks = hooks;
            let ghost own = hooks@;
            let mut parents = parent_hooks.clone();
            hooks.append(&mut parents);
            assert(hooks@ =~= own + parent_hooks@);
            let own_path = path.clone();
            assert(own_path@ =~= path@);
            graph.set_signal(flow, signal);
            Some(Scope { hooks, path: own_path, budget: Budget::new(max_steps), signal: signal.clone() })
        },
        None => None,
    }
}

/// Closes a nested run, whatever it came to: the token is taken back from the
/// flow unless it is in another run.
pub fn close_nested(graph: &mut Graph, flow: NodeRef, outcome: FlowResult<Action>) -> (r: FlowResult<
    Action,
>)
    requires
        old(graph).wf(),
        flow < old(graph)@.len(),
    ensures
        final(graph).wf(),
        final(graph)@ == core_set(old(graph)@, flow, old(graph)@[flow as int].core.left()),
        r == outcome,
{
    graph.leave_run(flow);
    outcome
}

/// A top-level run before `on_start`.
pub struct Opening {
    pub scope: Scope,
}

impl Opening {
    /// The `on_start` round came out: its error ends the run at once, without
    /// orchestration and without `on_end`, and the token is taken back.
    pub fn started(
        self,
        graph: &mut Graph,
        flow: NodeRef,
        reply: FlowResult<()>,
    ) -> (r: FlowResult<Scope>)
        requires
            old(graph).wf(),
            flow < old(graph)@.len(),
        ensures
            final(graph).wf(),
            match reply {
                Ok(_) => r == Ok::<Scope, FlowError>(self.scope) && final(graph)@ == old(graph)@,
                Err(e) => r == Err::<Scope, FlowError>(e) && final(graph)@ == core_set(
                    old(graph)@,
                    flow,
                    old(graph)@[flow as int].core.left(),
                ),
            },
    {
        match reply {
            Ok(_) => Ok(self.scope),
            Err(e) => {
                graph.leave_run(flow);
                Err(e)
            },
        }
    }
}

/// A top-level run after its orchestration, before `on_end`.
pub struct Finishing {
    outcome: FlowResult<Action>,
    action: Action,
}

impl Finishing {
    /// What the orchestration came to.
    pub closed spec fn outcome(self) -> FlowResult<Action> {
        self.outcome
    }

    /// The action that `on_end` is told: none where the run failed.
    pub open spec fn told(self) -> Action {
        match self.outcome() {
            Ok(a) => a,
            Err(_) => None,
        }
    }

    pub closed spec fn wf(self) -> bool {
        self.action == self.told()
    }

    pub fn new(outcome: FlowResult<Action>) -> (r: Self)
        ensures
            r.wf(),
            r.outcome() == outcome,
    {
        let action = match &outcome {
            Ok(Some(a)) => Some(a.clone()),
            _ => None,
        };
        Finishing { outcome, action }
    }

    /// The action to tell the `on_end` hooks.
    pub fn action(&self) -> (r: &Action)
        requires
            self.wf(),
        ensures
            *r == self.told(),
    {
        &self.action
    }

    /// The `on_end` round came out: its error replaces whatever the run came to.
    /// The run is over, and the token is taken back from the flow unless it is in
    /// another run.
    pub fn ended(
        self,
        graph: &mut Graph,
        flow: NodeRef,
        reply: FlowResult<()>,
    ) -> (r: FlowResult<Action>)
        requires
            old(graph).wf(),
            flow < old(graph)@.len(),
        ensures
            final(graph).wf(),
            final(graph)@ == core_set(old(graph)@, flow, old(graph)@[flow as int].core.left()),
            r == run_result(self.outcome(), reply),
    {
        graph.leave_run(flow);
        match reply {
            Err(e) => Err(e),
            Ok(_) => self.outcome,
        }
    }
}

/// What a top-level run comes to.
pub open spec fn run_result(outcome: FlowResult<Action>, on_end: FlowResult<()>) -> FlowResult<
    Action,
> {
    match on_end {
        Err(e) => Err(e),
        Ok(_) => outcome,
    }
}

} // verus!
