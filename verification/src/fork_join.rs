//! [`ForkJoin`]: fan out to N **distinct** branch nodes (typically
//! [`crate::Flow`] / [`crate::Subflow`] sub-agents), run them concurrently
//! (bounded by `concurrency`), each over its own isolated copy of the shared
//! context, then join their resulting contexts back into the parent.

use tokio_util::sync::CancellationToken;
use vstd::prelude::*;

use crate::error::{FlowError, FlowResult};
use crate::flow::{names, path_to};
use crate::graph::Graph;
use crate::hooks::{ErrorCtx, ErrorPolicy};
use crate::internal::{retrying, Retrying};
use crate::json::{elements, open_value, shape, Opened};
use crate::node_core::{NodeCore, NodeCoreView, NodeOpts};
use crate::pool::{
    is_reported, law_slots_keep_item_order, pool_run, results_are, run_parallel, settle_unit,
    succeeded, within, Pool, PoolEvent, PoolView, Unit,
};
use crate::signal::linked_to;
use crate::types::{Action, NodeRef, OpsRef, Shared, SharedCloner};

verus! {

/// What a [`ForkJoin`] stands for.
#[verifier::ext_equal]
pub struct ForkJoinView {
    pub core: NodeCoreView,
    /// The branches it was made with.
    pub branches: Seq<NodeRef>,
    /// The branches of the current run.
    pub resolved: Seq<NodeRef>,
    pub concurrency: usize,
    pub fail_fast: bool,
    pub clone_shared: Option<SharedCloner>,
    pub ops: Option<OpsRef>,
}

impl ForkJoinView {
    /// A fork with the default config.
    pub open spec fn fresh(branches: Seq<NodeRef>) -> ForkJoinView {
        ForkJoinView {
            core: NodeCoreView::fresh("ForkJoin"@),
            branches,
            resolved: Seq::empty(),
            concurrency: 0,
            fail_fast: false,
            clone_shared: None,
            ops: None,
        }
    }
}

/// Fan out to N distinct branch nodes in parallel (isolated shareds), then join.
///
/// Each branch runs its own full lifecycle (hooks fire per branch, gates work
/// per branch, retry applies) over a private shared clone, so branches neither
/// observe nor clobber one another.
pub struct ForkJoin {
    pub(crate) core: NodeCore,
    pub(crate) branches: Vec<NodeRef>,
    pub(crate) resolved: Vec<NodeRef>,
    pub(crate) concurrency: usize,
    pub(crate) fail_fast: bool,
    pub(crate) clone_shared: Option<SharedCloner>,
    pub(crate) ops: Option<OpsRef>,
}

impl View for ForkJoin {
    type V = ForkJoinView;

    open(crate) spec fn view(&self) -> ForkJoinView {
        ForkJoinView {
            core: self.core@,
            branches: self.branches@,
            resolved: self.resolved@,
            concurrency: self.concurrency,
            fail_fast: self.fail_fast,
            clone_shared: self.clone_shared,
            ops: self.ops,
        }
    }
}

impl ForkJoin {
    pub open(crate) spec fn wf(self) -> bool {
        self.core.wf()
    }

    pub fn new(branches: Vec<NodeRef>) -> (r: Self)
        ensures
            r.wf(),
            r@ == ForkJoinView::fresh(branches@),
    {
        ForkJoin {
            core: NodeCore::named("ForkJoin".to_owned()),
            branches,
            resolved: Vec::new(),
            concurrency: 0,
            fail_fast: false,
            clone_shared: None,
            ops: None,
        }
    }

    /// A fork with custom ops.
    pub fn with_ops(branches: Vec<NodeRef>, ops: OpsRef) -> (r: Self)
        ensures
            r.wf(),
            r@ == (ForkJoinView { ops: Some(ops), ..ForkJoinView::fresh(branches@) }),
    {
        let mut f = ForkJoin::new(branches);
        f.ops = Some(ops);
        f
    }

    /// `0` (default) = run ALL resolved branches in flight (clamped to branch
    /// count); `>0` = bound parallelism.
    pub fn with_concurrency(self, concurrency: usize) -> (r: Self)
        requires
            self.wf(),
        ensures
            r.wf(),
            r@ == (ForkJoinView { concurrency, ..self@ }),
    {
        let mut f = self;
        f.concurrency = concurrency;
        f
    }

    /// `true`: a failing branch cancels the rest. Default `false`: a failed
    /// branch yields a `None` slot (and fires `on_error`) while siblings finish.
    pub fn with_fail_fast(self, fail_fast: bool) -> (r: Self)
        requires
            self.wf(),
        ensures
            r.wf(),
            r@ == (ForkJoinView { fail_fast, ..self@ }),
    {
        let mut f = self;
        f.fail_fast = fail_fast;
        f
    }

    /// How to copy the parent shared per branch. Default: deep clone.
    pub fn with_clone_shared(self, cloner: SharedCloner) -> (r: Self)
        requires
            self.wf(),
        ensures
            r.wf(),
            r@ == (ForkJoinView { clone_shared: Some(cloner), ..self@ }),
    {
        let mut f = self;
        f.clone_shared = Some(cloner);
        f
    }

    pub fn with_node_opts(self, opts: NodeOpts) -> (r: Self)
        requires
            self.wf(),
        ensures
            r.wf(),
            r@ == (ForkJoinView { core: self@.core.with_opts(opts), ..self@ }),
    {
        let mut f = self;
        f.core.apply_opts(opts);
        f
    }

    /// The overrides of the fork, if it has any.
    pub fn ops(&self) -> (r: Option<OpsRef>)
        ensures
            r == self@.ops,
    {
        self.ops
    }

    /// The strategy for copying `shared` per branch, if it has one.
    pub fn clone_shared(&self) -> (r: Option<SharedCloner>)
        ensures
            r == self@.clone_shared,
    {
        self.clone_shared
    }

    pub fn branches(&self) -> (r: &[NodeRef])
        ensures
            r@ == self@.branches,
    {
        self.branches.as_slice()
    }
}

/// How many branches run at a time: as many as `concurrency` allows, or all of
/// them where it is `0`.
pub open spec fn branch_limit(concurrency: nat, branches: nat) -> nat {
    if concurrency > 0 {
        concurrency
    } else if branches > 0 {
        branches
    } else {
        1
    }
}

/// The fan-out of a [`ForkJoin`].
pub struct ForkPlan {
    /// The branches to run, in order.
    pub branches: Vec<NodeRef>,
    pub limit: usize,
    pub fail_fast: bool,
    pub max_retries: u32,
    pub wait_ms: u64,
}

impl ForkPlan {
    /// The workers that take the branches, in one attempt at the fan-out. A
    /// branch settles with the context that it ran over, or with `None` where
    /// it failed while the rest go on.
    pub fn pool(&self, signal: &CancellationToken) -> (r: Pool<Option<Shared>>)
        ensures
            r.wf(),
            r@ == PoolView::<Option<Shared>>::fresh(
                self.branches@.len(),
                self.limit as nat,
                r@.linked,
            ),
            linked_to(r@.linked, Some(signal)),
    {
        run_parallel(self.branches.len(), self.limit, Some(signal))
    }

    /// The attempts at the fan-out as a whole. Each comes to what `join()` gets.
    pub fn attempts(&self) -> (r: Retrying<Vec<Option<Shared>>>)
        ensures
            r.is_new(self.max_retries as nat, self.wait_ms),
    {
        retrying(self.max_retries, self.wait_ms)
    }
}

/// A branch that failed while the rest go on.
pub struct BranchReport {
    pub error: FlowError,
    /// The context that it ran over.
    pub shared: Shared,
}

impl ForkPlan {
    /// A branch came out over its own context: the context is its slot.
    pub fn settled(&self, outcome: FlowResult<Action>, shared: Shared) -> (r: Unit<
        Option<Shared>,
        BranchReport,
    >)
        ensures
            r == match outcome {
                Ok(_) => Unit::Settle(Ok(Some(shared))),
                Err(e) => if is_reported(e, self.fail_fast) {
                    Unit::Report(BranchReport { error: e, shared })
                } else {
                    Unit::Settle(Err(e))
                },
            },
            r is Report <==> outcome is Err && !(outcome->Err_0 is Aborted) && !self.fail_fast,
    {
        match settle_unit(outcome, self.fail_fast) {
            Unit::Settle(Ok(_)) => Unit::Settle(Ok(Some(shared))),
            Unit::Settle(Err(e)) => Unit::Settle(Err(e)),
            Unit::Report(error) => Unit::Report(BranchReport { error, shared }),
        }
    }
}

impl BranchReport {
    /// What the `on_error` hooks are told: the branch is the node, over its own
    /// context.
    pub fn ctx<'a>(&'a self, branch: NodeRef, path: &'a [String]) -> (r: ErrorCtx<'a>)
        ensures
            r.node == branch,
            *r.shared == self.shared,
            r.path == path,
            *r.error == self.error,
    {
        ErrorCtx { node: branch, shared: &self.shared, path, error: &self.error }
    }

    /// The `on_error` round came out. Whatever it decided, the branch has a `None`
    /// slot; a failing hook replaces the error and propagates.
    pub fn fired(self, reply: FlowResult<Option<ErrorPolicy>>) -> (r: FlowResult<Option<Shared>>)
        ensures
            r == match reply {
                Ok(_) => Ok(None::<Shared>),
                Err(e) => Err(e),
            },
    {
        match reply {
            Ok(_) => Ok(None),
            Err(e) => Err(e),
        }
    }
}

impl ForkJoin {
    /// The fan-out over the branches of the current run.
    pub fn exec_with_retry(&self) -> (r: ForkPlan)
        ensures
            r.branches@ == self@.resolved,
            r.limit == branch_limit(self@.concurrency as nat, self@.resolved.len()),
            r.fail_fast == self@.fail_fast,
            r.max_retries == self@.core.max_retries,
            r.wait_ms == self@.core.wait_ms,
    {
        let limit = if self.concurrency > 0 {
            self.concurrency
        } else if self.resolved.len() > 0 {
            self.resolved.len()
        } else {
            1
        };
        ForkPlan {
            branches: self.resolved.clone(),
            limit,
            fail_fast: self.fail_fast,
            max_retries: self.core.max_retries(),
            wait_ms: self.core.wait_ms(),
        }
    }
}

/// The path to hand to a branch: the fork's, and the branch's name.
pub fn branch_path(graph: &Graph, branch: NodeRef, path: &Vec<String>) -> (r: Vec<String>)
    requires
        graph.wf(),
        branch < graph@.len(),
    ensures
        names(r@) == names(path@).push(graph@[branch as int].core.name),
{
    path_to(path, graph.node(branch).name())
}

/// A slot that is empty, or whose branch failed, has nothing.
pub open spec fn flattened(slots: Seq<Option<Option<Shared>>>) -> Seq<Option<Shared>> {
    slots.map_values(
        |s: Option<Option<Shared>>|
            match s {
                Some(o) => o,
                None => None,
            },
    )
}

/// The branch contexts that `join()` gets of a fan-out: one entry per branch (in
/// order); `None` where a branch failed or never ran, and only there.
pub fn joined_slots(slots: Vec<Option<Option<Shared>>>) -> (r: Vec<Option<Shared>>)
    ensures
        r@ == flattened(slots@),
{
    let mut flat: Vec<Option<Shared>> = Vec::new();
    for i in 0..slots.len()
        invariant
            flat@ == flattened(slots@.take(i as int)),
    {
        let s = match &slots[i] {
            Some(Some(s)) => Some(s.clone()),
            _ => None,
        };
        flat.push(s);
        assert(flat@ =~= flattened(slots@.take(i + 1)));
    }
    assert(slots@.take(slots.len() as int) =~= slots@);
    flat
}

/// What `join()` gets of an element that `exec_fallback()` gave: nothing of null.
pub open spec fn joined_as(v: serde_json::Value) -> Option<Shared> {
    if shape(v) is Null {
        None
    } else {
        Some(v)
    }
}

/// The branch contexts that `join()` gets of what `exec_fallback()` gave in place
/// of the whole fan-out: one entry per element of an array (in order), `None` for
/// null. A result that is no array has none.
pub fn branch_shareds(exec_res: &serde_json::Value) -> (r: Vec<Option<Shared>>)
    ensures
        r@ == elements(*exec_res).map_values(|v: serde_json::Value| joined_as(v)),
{
    let items = match open_value(exec_res.clone()) {
        Opened::Array(a) => a,
        _ => Vec::new(),
    };
    let mut r: Vec<Option<Shared>> = Vec::new();
    for i in 0..items.len()
        invariant
            r@ == items@.take(i as int).map_values(|v: serde_json::Value| joined_as(v)),
    {
        let v = &items[i];
        r.push(
            if v.is_null() {
                None
            } else {
                Some(v.clone())
            },
        );
        assert(r@ =~= items@.take(i + 1).map_values(|v: serde_json::Value| joined_as(v)));
    }
    assert(items@.take(items.len() as int) =~= items@);
    assert(items@ =~= elements(*exec_res));
    r
}

/// `join()` gets, branch by branch, what each branch settled with, whatever the
/// order in which they come out: in its own place the context of each branch that
/// came out well, a null context too, and `None` where a branch failed or never
/// ran.
pub proof fn law_join_gets_branches_in_order(
    branches: nat,
    concurrency: nat,
    linked: CancellationToken,
    events: Seq<PoolEvent<Option<Shared>>>,
    f: spec_fn(nat) -> Option<Shared>,
)
    requires
        within(events, branches),
        results_are(events, f),
    ensures
        ({
            let slots = pool_run(
                PoolView::<Option<Shared>>::fresh(branches, concurrency, linked),
                events,
            ).slots;
            flattened(slots) == Seq::new(
                branches,
                |i: int|
                    if succeeded(events, i as nat) {
                        f(i as nat)
                    } else {
                        None
                    },
            )
        }),
{
    law_slots_keep_item_order(branches, concurrency, linked, events, f);
    let slots = pool_run(
        PoolView::<Option<Shared>>::fresh(branches, concurrency, linked),
        events,
    ).slots;
    let expected = Seq::new(
        branches,
        |i: int|
            if succeeded(events, i as nat) {
                f(i as nat)
            } else {
                None
            },
    );
    assert forall|i: int| 0 <= i < branches implies flattened(slots)[i] == expected[i] by {
        let n = i as nat;
        assert(slots[n as int] == (if succeeded(events, n) {
            Some(f(n))
        } else {
            None
        }));
    }
    assert(flattened(slots) =~= expected);
}

} // verus!
