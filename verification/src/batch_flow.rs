//! [`BatchFlow`]: a flow that runs its orchestration once per "bundle" from
//! `prep()`, merging each bundle into the params. `concurrency` controls
//! parallel bundles; `fail_fast` controls whether one bundle's failure cancels
//! the rest.
//!
//! In parallel mode (`concurrency > 1`) each bundle gets a **fresh node graph**
//! (cloned) and its **own cloned shared**, so concurrent bundles neither race
//! on node params/state nor stomp each other's shared. In sequential mode
//! (`concurrency == 1`) bundles accumulate into the single real `shared`.

use tokio_util::sync::CancellationToken;
use vstd::prelude::*;
use vstd::string::StringExecFns;

use crate::cloning::{cloned_from, memo_within};
use crate::error::{FlowError, FlowResult};
use crate::flow::{names, path_to, Flow};
use crate::flow_node::{FlowNode, FlowNodeView, Kind};
use crate::graph::Graph;
use crate::hooks::{ErrorCtx, ErrorPolicy};
use crate::json::{elements, entries, fields, object_value, open_value, Opened};
use crate::node_core::{NodeCore, NodeCoreView, NodeOpts};
use crate::pool::{is_reported, run_parallel, settle_unit, Pool, PoolView, Unit};
use crate::signal::{answers, ask, linked_to};
use crate::types::{
    merge_params, Action, CloneMemo, HookRef, NodeRef, OpsRef, Params, Shared, SharedCloner,
};

verus! {

/// What a [`BatchFlow`] stands for.
#[verifier::ext_equal]
pub struct BatchFlowView {
    pub core: NodeCoreView,
    pub start_node: Option<NodeRef>,
    pub max_steps: usize,
    pub hooks: Seq<HookRef>,
    pub concurrency: usize,
    pub fail_fast: bool,
    pub clone_shared: Option<SharedCloner>,
    pub ops: Option<OpsRef>,
}

impl BatchFlowView {
    /// A batch flow with the default config.
    pub open spec fn fresh(start: Option<NodeRef>) -> BatchFlowView {
        BatchFlowView {
            core: NodeCoreView::fresh("BatchFlow"@),
            start_node: start,
            max_steps: 1000,
            hooks: Seq::empty(),
            concurrency: 1,
            fail_fast: false,
            clone_shared: None,
            ops: None,
        }
    }
}

/// A flow that runs its orchestration once per bundle from `prep()`.
pub struct BatchFlow {
    pub(crate) core: NodeCore,
    pub(crate) start_node: Option<NodeRef>,
    pub(crate) max_steps: usize,
    pub(crate) hooks: Vec<HookRef>,
    pub(crate) concurrency: usize,
    pub(crate) fail_fast: bool,
    pub(crate) clone_shared: Option<SharedCloner>,
    pub(crate) ops: Option<OpsRef>,
}

impl View for BatchFlow {
    type V = BatchFlowView;

    open(crate) spec fn view(&self) -> BatchFlowView {
        BatchFlowView {
            core: self.core@,
            start_node: self.start_node,
            max_steps: self.max_steps,
            hooks: self.hooks@,
            concurrency: self.concurrency,
            fail_fast: self.fail_fast,
            clone_shared: self.clone_shared,
            ops: self.ops,
        }
    }
}

impl BatchFlow {
    pub open(crate) spec fn wf(self) -> bool {
        self.core.wf()
    }

    pub fn new(start: NodeRef) -> (r: Self)
        ensures
            r.wf(),
            r@ == BatchFlowView::fresh(Some(start)),
    {
        BatchFlow::starting_at(Some(start))
    }

    /// A batch flow with custom ops.
    pub fn with_ops(start: NodeRef, ops: OpsRef) -> (r: Self)
        ensures
            r.wf(),
            r@ == (BatchFlowView { ops: Some(ops), ..BatchFlowView::fresh(Some(start)) }),
    {
        let mut f = BatchFlow::starting_at(Some(start));
        f.ops = Some(ops);
        f
    }

    /// A batch flow with custom ops and no start node yet.
    pub fn without_start(ops: OpsRef) -> (r: Self)
        ensures
            r.wf(),
            r@ == (BatchFlowView { ops: Some(ops), ..BatchFlowView::fresh(None) }),
    {
        let mut f = BatchFlow::starting_at(None);
        f.ops = Some(ops);
        f
    }

    /// A batch flow with no start node yet (set it via [`BatchFlow::start`]).
    pub fn unstarted() -> (r: Self)
        ensures
            r.wf(),
            r@ == BatchFlowView::fresh(None),
    {
        BatchFlow::starting_at(None)
    }

    fn starting_at(start: Option<NodeRef>) -> (r: Self)
        ensures
            r.wf(),
            r@ == BatchFlowView::fresh(start),
    {
        BatchFlow {
            core: NodeCore::named("BatchFlow".to_owned()),
            start_node: start,
            max_steps: 1000,
            hooks: Vec::new(),
            concurrency: 1,
            fail_fast: false,
            clone_shared: None,
            ops: None,
        }
    }

    /// `1` (default) = sequential bundles; `>1` = bounded parallel + isolation.
    /// `0` counts as `1`.
    pub fn with_concurrency(self, concurrency: usize) -> (r: Self)
        requires
            self.wf(),
        ensures
            r.wf(),
            r@ == (BatchFlowView {
                concurrency: if concurrency == 0 {
                    1
                } else {
                    concurrency
                },
                ..self@
            }),
    {
        let mut f = self;
        f.concurrency = if concurrency == 0 {
            1
        } else {
            concurrency
        };
        f
    }

    /// `true`: the first bundle failure throws and cancels in-flight bundles.
    pub fn with_fail_fast(self, fail_fast: bool) -> (r: Self)
        requires
            self.wf(),
        ensures
            r.wf(),
            r@ == (BatchFlowView { fail_fast, ..self@ }),
    {
        let mut f = self;
        f.fail_fast = fail_fast;
        f
    }

    /// Custom strategy for copying `shared` per bundle (parallel mode).
    pub fn with_clone_shared(self, cloner: SharedCloner) -> (r: Self)
        requires
            self.wf(),
        ensures
            r.wf(),
            r@ == (BatchFlowView { clone_shared: Some(cloner), ..self@ }),
    {
        let mut f = self;
        f.clone_shared = Some(cloner);
        f
    }

    pub fn with_max_steps(self, max_steps: usize) -> (r: Self)
        requires
            self.wf(),
        ensures
            r.wf(),
            r@ == (BatchFlowView { max_steps, ..self@ }),
    {
        let mut f = self;
        f.max_steps = max_steps;
        f
    }

    pub fn with_name(self, name: String) -> (r: Self)
        requires
            self.wf(),
        ensures
            r.wf(),
            r@ == (BatchFlowView { core: NodeCoreView { name: name@, ..self@.core }, ..self@ }),
    {
        let mut f = self;
        f.core.set_name(name);
        f
    }

    pub fn with_node_opts(self, opts: NodeOpts) -> (r: Self)
        requires
            self.wf(),
        ensures
            r.wf(),
            r@ == (BatchFlowView { core: self@.core.with_opts(opts), ..self@ }),
    {
        let mut f = self;
        f.core.apply_opts(opts);
        f
    }

    /// Set the starting node. Returns it so wiring chains naturally.
    pub fn start(&mut self, node: NodeRef) -> (r: NodeRef)
        requires
            old(self).wf(),
        ensures
            final(self).wf(),
            final(self)@ == (BatchFlowView { start_node: Some(node), ..old(self)@ }),
            r == node,
    {
        self.start_node = Some(node);
        node
    }

    /// Register a hook set.
    pub fn use_hooks(&mut self, hooks: HookRef) -> (r: &Self)
        requires
            old(self).wf(),
        ensures
            final(self).wf(),
            final(self)@ == (BatchFlowView { hooks: old(self)@.hooks.push(hooks), ..old(self)@ }),
            *r == *final(self),
    {
        self.hooks.push(hooks);
        self
    }

    pub fn start_node(&self) -> (r: Option<NodeRef>)
        ensures
            r == self@.start_node,
    {
        self.start_node
    }

    pub fn max_steps(&self) -> (r: usize)
        ensures
            r == self@.max_steps,
    {
        self.max_steps
    }

    /// The overrides of the batch flow, if it has any.
    pub fn ops(&self) -> (r: Option<OpsRef>)
        ensures
            r == self@.ops,
    {
        self.ops
    }

    /// The strategy for copying `shared` per bundle, if it has one.
    pub fn clone_shared(&self) -> (r: Option<SharedCloner>)
        ensures
            r == self@.clone_shared,
    {
        self.clone_shared
    }

    pub fn hooks(&self) -> (r: Vec<HookRef>)
        ensures
            r@ == self@.hooks,
    {
        self.hooks.clone()
    }
}

/* ------------------------------- bundles ------------------------------- */

/// The message of a parallel batch flow without a start node.
pub open spec fn no_start_text() -> Seq<char> {
    "BatchFlow has no start node. Call bf.start(node) or pass it to the constructor."@
}

/// How the bundles of a batch flow are carried out.
pub enum BundlePlan {
    /// Several at once, each over a fresh node graph and its own shared.
    Parallel(ParallelBundles),
    /// One after the other, over the real `shared` and the single node graph.
    Sequential(BundleLoop),
}

/// Bundles that run several at once.
pub struct ParallelBundles {
    pub bundles: Vec<serde_json::Value>,
    /// The node that the graph of each bundle is cloned from.
    pub start: NodeRef,
    /// The batch flow's name, step budget and params when the bundles began.
    pub name: String,
    pub max_steps: usize,
    pub params: Params,
    pub concurrency: usize,
    pub fail_fast: bool,
}

impl ParallelBundles {
    /// The workers that take the bundles. What a bundle settles with is the
    /// shared that it ran over.
    pub fn pool(&self, signal: &CancellationToken) -> (r: Pool<Shared>)
        ensures
            r.wf(),
            r@ == PoolView::<Shared>::fresh(
                self.bundles@.len(),
                self.concurrency as nat,
                r@.linked,
            ),
            linked_to(r@.linked, Some(signal)),
    {
        run_parallel(self.bundles.len(), self.concurrency, Some(signal))
    }
}

impl BatchFlow {
    /// What becomes of what `prep()` gave: an array is the bundles, anything
    /// else is no bundles. Several at once are run only where the batch flow
    /// allows it and there are bundles, and take a start node.
    pub fn execute(&self, prep_res: serde_json::Value) -> (r: FlowResult<BundlePlan>)
        ensures
            ({
                let parallel = self@.concurrency > 1 && elements(prep_res).len() > 0;
                match r {
                    Ok(BundlePlan::Parallel(p)) => {
                        &&& parallel
                        &&& p.bundles@ == elements(prep_res)
                        &&& self@.start_node == Some(p.start)
                        &&& p.name@ == self@.core.name
                        &&& p.max_steps == self@.max_steps
                        &&& entries(p.params) == self@.core.params
                        &&& p.concurrency == self@.concurrency
                        &&& p.fail_fast == self@.fail_fast
                    },
                    Ok(BundlePlan::Sequential(l)) => {
                        &&& !parallel
                        &&& l.wf()
                        &&& l.bundles() == elements(prep_res)
                        &&& l.fail_fast() == self@.fail_fast
                        &&& l.settled() == Seq::<BundleOutcome>::empty()
                    },
                    Err(e) => {
                        &&& parallel
                        &&& self@.start_node is None
                        &&& e is Flow
                        &&& e->Flow_0@ == no_start_text()
                    },
                }
            }),
    {
        let bundles = match open_value(prep_res) {
            Opened::Array(a) => a,
            _ => Vec::new(),
        };
        if self.concurrency > 1 && bundles.len() > 0 {
            match self.start_node {
                Some(start) => Ok(
                    BundlePlan::Parallel(
                        ParallelBundles {
                            bundles,
                            start,
                            name: self.core.name().to_owned(),
                            max_steps: self.max_steps,
                            params: self.core.params(),
                            concurrency: self.concurrency,
                            fail_fast: self.fail_fast,
                        },
                    ),
                ),
                None => Err(
                    FlowError::flow(
                        "BatchFlow has no start node. Call bf.start(node) or pass it to the constructor.".to_owned(),
                    ),
                ),
            }
        } else {
            Ok(
                BundlePlan::Sequential(
                    BundleLoop {
                        bundles,
                        next: 0,
                        fail_fast: self.fail_fast,
                        settled: Ghost(Seq::empty()),
                    },
                ),
            )
        }
    }
}

/* ------------------------- one after the other ------------------------- */

/// How one bundle came out, and how the `on_error` round came out if it was
/// asked.
pub struct BundleOutcome {
    pub outcome: FlowResult<Action>,
    pub reply: FlowResult<Option<ErrorPolicy>>,
}

/// The error with which a bundle ends the whole batch, if it does: a
/// cancellation always, any failure under `fail_fast`, and otherwise only a
/// failing `on_error` hook.
pub open spec fn stops(fail_fast: bool, b: BundleOutcome) -> Option<FlowError> {
    match b.outcome {
        Ok(_) => None,
        Err(e) => if e is Aborted || fail_fast {
            Some(e)
        } else {
            match b.reply {
                Ok(_) => None,
                Err(he) => Some(he),
            }
        },
    }
}

/// A whole batch: how many bundles ran, and the error that ended it, if one did.
pub struct BatchRun {
    pub ran: nat,
    pub error: Option<FlowError>,
}

/// The batch of `bundles` bundles that come out like this, in turn.
pub open spec fn batch_run(bundles: nat, fail_fast: bool, settled: Seq<BundleOutcome>) -> BatchRun
    decreases bundles,
{
    if bundles == 0 {
        BatchRun { ran: 0, error: None }
    } else {
        match stops(fail_fast, settled[0]) {
            Some(e) => BatchRun { ran: 1, error: Some(e) },
            None => {
                let rest = batch_run((bundles - 1) as nat, fail_fast, settled.drop_first());
                BatchRun { ran: rest.ran + 1, error: rest.error }
            },
        }
    }
}

/// Where no bundle ends the batch, every bundle runs.
pub proof fn law_every_bundle_runs(bundles: nat, fail_fast: bool, settled: Seq<BundleOutcome>)
    requires
        settled.len() == bundles,
        forall|i: int| 0 <= i < bundles ==> stops(fail_fast, #[trigger] settled[i]) is None,
    ensures
        batch_run(bundles, fail_fast, settled) == (BatchRun { ran: bundles, error: None }),
    decreases bundles,
{
    if bundles > 0 {
        assert(stops(fail_fast, settled[0]) is None);
        let rest = settled.drop_first();
        assert forall|i: int| 0 <= i < bundles - 1 implies stops(
            fail_fast,
            #[trigger] rest[i],
        ) is None by {
            assert(rest[i] == settled[i + 1]);
        }
        law_every_bundle_runs((bundles - 1) as nat, fail_fast, rest);
    }
}

/// The first bundle that ends the batch is the last one to run, and its error
/// is what the batch comes to.
pub proof fn law_batch_stops(
    bundles: nat,
    fail_fast: bool,
    settled: Seq<BundleOutcome>,
    k: int,
)
    requires
        0 <= k < bundles,
        k < settled.len(),
        forall|i: int| 0 <= i < k ==> stops(fail_fast, #[trigger] settled[i]) is None,
        stops(fail_fast, settled[k]) is Some,
    ensures
        batch_run(bundles, fail_fast, settled) == (BatchRun {
            ran: (k + 1) as nat,
            error: stops(fail_fast, settled[k]),
        }),
    decreases bundles,
{
    if k > 0 {
        assert(stops(fail_fast, settled[0]) is None);
        let rest = settled.drop_first();
        assert forall|i: int| 0 <= i < k - 1 implies stops(fail_fast, #[trigger] rest[i]) is None by {
            assert(rest[i] == settled[i + 1]);
        }
        assert(rest[k - 1] == settled[k]);
        law_batch_stops((bundles - 1) as nat, fail_fast, rest, k - 1);
    }
}

/// Without `fail_fast`, failing bundles do not keep the others from running, as
/// long as nothing is cancelled and no hook fails.
pub proof fn law_failed_bundles_do_not_stop_others(bundles: nat, settled: Seq<BundleOutcome>)
    requires
        settled.len() == bundles,
        forall|i: int|
            0 <= i < bundles ==> (#[trigger] settled[i]).reply is Ok && settled[i].outcome != Err::<
                Action,
                FlowError,
            >(FlowError::Aborted),
    ensures
        batch_run(bundles, false, settled) == (BatchRun { ran: bundles, error: None }),
{
    assert forall|i: int| 0 <= i < bundles implies stops(false, #[trigger] settled[i]) is None by {
        assert(settled[i].reply is Ok);
    }
    law_every_bundle_runs(bundles, false, settled);
}

/// Bundles that run one after the other, between two of them.
pub struct BundleLoop {
    bundles: Vec<serde_json::Value>,
    next: usize,
    fail_fast: bool,
    settled: Ghost<Seq<BundleOutcome>>,
}

/// What the loop does next.
pub enum BundleStep {
    /// Every bundle ran: `post()` gets the bundles.
    Done(Vec<serde_json::Value>),
    /// The run was cancelled.
    Failed(FlowError),
    /// Orchestrate one bundle, and hand what came of it to
    /// [`BundleRun::settled`].
    Run(BundleRun),
}

/// A bundle that is being run.
pub struct BundleRun {
    params: Params,
    state: BundleLoop,
}

/// What follows a bundle.
pub enum AfterBundle {
    /// The next one.
    Next(BundleLoop),
    /// Nothing: the batch ends with this error.
    Failed(FlowError),
    /// Fire `on_error`, and hand what came of it to [`BundleReport::fired`].
    Report(BundleReport),
}

/// A bundle that failed while the rest go on.
pub struct BundleReport {
    error: FlowError,
    outcome: Ghost<FlowResult<Action>>,
    state: BundleLoop,
}

impl BundleLoop {
    pub closed spec fn bundles(self) -> Seq<serde_json::Value> {
        self.bundles@
    }

    pub closed spec fn fail_fast(self) -> bool {
        self.fail_fast
    }

    /// How the bundles so far came out.
    pub closed spec fn settled(self) -> Seq<BundleOutcome> {
        self.settled@
    }

    pub closed spec fn wf(self) -> bool {
        &&& self.next == self.settled@.len()
        &&& self.settled@.len() <= self.bundles.len()
        &&& forall|i: int|
            0 <= i < self.settled@.len() ==> stops(
                self.fail_fast,
                #[trigger] self.settled@[i],
            ) is None
    }

    /// The same loop with one more bundle settled.
    pub open spec fn moved_on(self, from: BundleLoop, b: BundleOutcome) -> bool {
        &&& self.wf()
        &&& self.bundles() == from.bundles()
        &&& self.fail_fast() == from.fail_fast()
        &&& self.settled() == from.settled().push(b)
    }

    /// The batch ends with this bundle, and with this error.
    pub open spec fn ends_with(self, b: BundleOutcome, error: FlowError) -> bool {
        &&& stops(self.fail_fast(), b) == Some(error)
        &&& batch_run(self.bundles().len(), self.fail_fast(), self.settled().push(b)) == (BatchRun {
            ran: self.settled().len() + 1,
            error: Some(error),
        })
    }

    /// Goes on to the next bundle, which runs with the flow's params under it,
    /// unless the token answers that the run was cancelled.
    pub fn step(self, params: &Params, signal: &CancellationToken) -> (r: BundleStep)
        requires
            self.wf(),
        ensures
            exists|cancelled: bool|
                {
                    &&& #[trigger] answers(*signal, cancelled)
                    &&& self.stepped(*params, cancelled, r)
                },
            r matches BundleStep::Run(b) ==> forall|key: Seq<char>| #[trigger]
                b.bundle_params().get(key) == (if fields(
                    self.bundles()[self.settled().len() as int],
                ).contains_key(key) {
                    fields(self.bundles()[self.settled().len() as int]).get(key)
                } else {
                    entries(*params).get(key)
                }),
    {
        let cancelled = ask(CancellationToken::is_cancelled, signal);
        assert(answers(*signal, cancelled));
        self.step_unless(params, cancelled)
    }

    /// What comes of going on to the next bundle.
    pub open spec fn stepped(self, params: Params, cancelled: bool, r: BundleStep) -> bool {
        if self.settled().len() == self.bundles().len() {
            &&& r is Done
            &&& r->Done_0@ == self.bundles()
            &&& batch_run(self.bundles().len(), self.fail_fast(), self.settled()) == (BatchRun {
                ran: self.bundles().len(),
                error: None,
            })
        } else if cancelled {
            r == BundleStep::Failed(FlowError::Aborted)
        } else {
            &&& r is Run
            &&& r->Run_0.wf()
            &&& r->Run_0.from() == self
            &&& r->Run_0.bundle_params() == entries(params).union_prefer_right(
                fields(self.bundles()[self.settled().len() as int]),
            )
        }
    }

    /// Goes on to the next bundle, where the state of the token is known.
    pub fn step_unless(self, params: &Params, cancelled: bool) -> (r: BundleStep)
        requires
            self.wf(),
        ensures
            self.stepped(*params, cancelled, r),
            r matches BundleStep::Run(b) ==> forall|key: Seq<char>| #[trigger]
                b.bundle_params().get(key) == (if fields(
                    self.bundles()[self.settled().len() as int],
                ).contains_key(key) {
                    fields(self.bundles()[self.settled().len() as int]).get(key)
                } else {
                    entries(*params).get(key)
                }),
    {
        if self.next >= self.bundles.len() {
            proof {
                law_every_bundle_runs(self.bundles@.len(), self.fail_fast, self.settled@);
            }
            return BundleStep::Done(self.bundles);
        }
        if cancelled {
            return BundleStep::Failed(FlowError::Aborted);
        }
        let params = merge_params(params, &self.bundles[self.next]);
        BundleStep::Run(BundleRun { params, state: self })
    }

    fn advance(self, Ghost(b): Ghost<BundleOutcome>) -> (r: BundleLoop)
        requires
            self.wf(),
            self.settled().len() < self.bundles().len(),
            stops(self.fail_fast(), b) is None,
        ensures
            r.moved_on(self, b),
    {
        BundleLoop {
            bundles: self.bundles,
            next: self.next + 1,
            fail_fast: self.fail_fast,
            settled: Ghost(self.settled@.push(b)),
        }
    }

    proof fn lemma_ends(self, b: BundleOutcome)
        requires
            self.wf(),
            self.settled().len() < self.bundles().len(),
            stops(self.fail_fast(), b) is Some,
        ensures
            self.ends_with(b, stops(self.fail_fast(), b)->0),
    {
        let settled = self.settled@.push(b);
        let k = self.settled@.len() as int;
        assert forall|i: int| 0 <= i < k implies stops(
            self.fail_fast,
            #[trigger] settled[i],
        ) is None by {
            assert(settled[i] == self.settled@[i]);
        }
        law_batch_stops(self.bundles@.len(), self.fail_fast, settled, k);
    }
}

impl BundleRun {
    /// The loop that the bundle belongs to.
    pub closed spec fn from(self) -> BundleLoop {
        self.state
    }

    pub closed spec fn wf(self) -> bool {
        self.state.wf() && self.state.settled().len() < self.state.bundles().len()
    }

    pub closed spec fn bundle_params(self) -> Map<Seq<char>, serde_json::Value> {
        entries(self.params)
    }

    /// The params to orchestrate the bundle with.
    pub fn params(&self) -> (r: &Params)
        ensures
            entries(*r) == self.bundle_params(),
    {
        &self.params
    }

    /// The bundle's orchestration came out.
    pub fn settled(self, outcome: FlowResult<Action>) -> (r: AfterBundle)
        requires
            self.wf(),
        ensures
            match r {
                AfterBundle::Next(l) => outcome is Ok && l.moved_on(
                    self.from(),
                    BundleOutcome { outcome, reply: Ok(None) },
                ),
                AfterBundle::Failed(e) => outcome == Err::<Action, FlowError>(e)
                    && self.from().ends_with(BundleOutcome { outcome, reply: Ok(None) }, e),
                AfterBundle::Report(b) => {
                    &&& b.wf()
                    &&& b.from() == self.from()
                    &&& outcome == Err::<Action, FlowError>(b.failure())
                    &&& !(b.failure() is Aborted)
                    &&& !self.from().fail_fast()
                },
            },
            r is Report <==> outcome is Err && !(outcome->Err_0 is Aborted)
                && !self.from().fail_fast(),
    {
        let ghost b = BundleOutcome { outcome, reply: Ok(None) };
        proof {
            if stops(self.state.fail_fast, b) is Some {
                self.state.lemma_ends(b);
            }
        }
        match settle_unit(outcome, self.state.fail_fast) {
            Unit::Settle(Ok(_)) => AfterBundle::Next(self.state.advance(Ghost(b))),
            Unit::Settle(Err(e)) => AfterBundle::Failed(e),
            Unit::Report(error) => AfterBundle::Report(
                BundleReport { error, outcome: Ghost(outcome), state: self.state },
            ),
        }
    }
}

impl BundleReport {
    pub closed spec fn failure(self) -> FlowError {
        self.error
    }

    /// The loop that the bundle belongs to.
    pub closed spec fn from(self) -> BundleLoop {
        self.state
    }

    pub closed spec fn wf(self) -> bool {
        &&& self.state.wf()
        &&& self.state.settled().len() < self.state.bundles().len()
        &&& !self.state.fail_fast()
        &&& !(self.error is Aborted)
    }

    /// What the `on_error` hooks are told: the batch flow is the node.
    pub fn ctx<'a>(
        &'a self,
        batch_flow: NodeRef,
        shared: &'a Shared,
        path: &'a [String],
    ) -> (r: ErrorCtx<'a>)
        ensures
            r.node == batch_flow,
            r.shared == shared,
            r.path == path,
            *r.error == self.failure(),
    {
        ErrorCtx { node: batch_flow, shared, path, error: &self.error }
    }

    /// The `on_error` round came out: the next bundle follows whatever it
    /// decided, and its error ends the batch.
    pub fn fired(self, reply: FlowResult<Option<ErrorPolicy>>) -> (r: FlowResult<BundleLoop>)
        requires
            self.wf(),
        ensures
            ({
                let b = BundleOutcome { outcome: Err(self.failure()), reply };
                match r {
                    Ok(l) => reply is Ok && l.moved_on(self.from(), b),
                    Err(e) => reply == Err::<Option<ErrorPolicy>, FlowError>(e)
                        && self.from().ends_with(b, e),
                }
            }),
    {
        let ghost b = BundleOutcome { outcome: Err(self.error), reply };
        match reply {
            Ok(_) => Ok(self.state.advance(Ghost(b))),
            Err(e) => {
                proof {
                    self.state.lemma_ends(b);
                }
                Err(e)
            },
        }
    }
}

/* --------------------------- several at once --------------------------- */

/// The runner of a bundle, and the copies that it runs over.
pub struct Launched {
    /// The flow to run.
    pub runner: NodeRef,
    /// The path to hand to it: the batch flow's, and the runner's name.
    pub path: Vec<String>,
    /// Each node of the original graph and its copy.
    pub copies: CloneMemo,
}

impl ParallelBundles {
    /// The flow that runs one of the bundles: from the copy of the start node, with
    /// the bundle on top of the batch flow's params as its own.
    pub open spec fn runner_of(self, index: int, id: u64, start: NodeRef) -> FlowNodeView {
        FlowNodeView {
            core: NodeCoreView {
                id,
                ..NodeCoreView::fresh(self.name@ + "~bundle"@).with_own(
                    entries(self.params).union_prefer_right(fields(self.bundles@[index])),
                )
            },
            kind: Kind::Flow {
                start: Some(start),
                max_steps: self.max_steps,
                hooks: Seq::empty(),
                ops: None,
            },
        }
    }

    /// Gives one bundle a **fresh node graph**: a clone of the graph at the start
    /// node, and a flow that runs it.
    pub fn launch(&self, graph: &mut Graph, index: usize, path: &Vec<String>) -> (r: Launched)
        requires
            old(graph).wf(),
            self.start < old(graph)@.len(),
            index < self.bundles@.len(),
        ensures
            final(graph).wf(),
            ({
                let cloned = final(graph)@.drop_last();
                &&& r.runner == cloned.len()
                &&& names(r.path@) == names(path@).push(self.name@ + "~bundle"@)
                &&& final(graph)@.len() > old(graph)@.len()
                &&& cloned_from(old(graph)@, Map::empty(), self.start, cloned, r.copies@)
                &&& memo_within(r.copies@, old(graph)@.len(), cloned.len())
                &&& final(graph)@.last() == self.runner_of(
                    index as int,
                    r.runner,
                    r.copies@[self.start],
                )
            }),
    {
        let mut name = self.name.clone();
        name.append("~bundle");
        let params = merge_params(&self.params, &self.bundles[index]);
        let mut copies = CloneMemo::new();
        assert(copies@ == Map::<u64, NodeRef>::empty());
        let path = path_to(path, name.as_str());
        let start = graph.clone_graph(self.start, &mut copies);
        let ghost cloned = graph@;
        let flow = Flow::new(start).with_max_steps(self.max_steps).with_name(name);
        let mut runner = FlowNode::Flow(flow);
        runner.set_params(object_value(params));
        let runner = graph.add(runner);
        assert(graph@.drop_last() =~= cloned);
        Launched { runner, path, copies }
    }

    /// A bundle came out over its own shared, which is merged.
    pub fn settled(&self, outcome: FlowResult<Action>, shared: Shared) -> (r: Unit<
        Shared,
        BundleFailure,
    >)
        ensures
            r == match outcome {
                Ok(_) => Unit::Settle(Ok(shared)),
                Err(e) => if is_reported(e, self.fail_fast) {
                    Unit::Report(BundleFailure { error: e, shared })
                } else {
                    Unit::Settle(Err(e))
                },
            },
            r is Report <==> outcome is Err && !(outcome->Err_0 is Aborted) && !self.fail_fast,
    {
        match settle_unit(outcome, self.fail_fast) {
            Unit::Settle(Ok(_)) => Unit::Settle(Ok(shared)),
            Unit::Settle(Err(e)) => Unit::Settle(Err(e)),
            Unit::Report(error) => Unit::Report(BundleFailure { error, shared }),
        }
    }
}

/// A bundle that failed while the rest go on.
pub struct BundleFailure {
    pub error: FlowError,
    /// The shared that it ran over.
    pub shared: Shared,
}

impl BundleFailure {
    /// What the `on_error` hooks are told: the batch flow is the node, over the
    /// bundle's own shared.
    pub fn ctx<'a>(&'a self, batch_flow: NodeRef, path: &'a [String]) -> (r: ErrorCtx<'a>)
        ensures
            r.node == batch_flow,
            *r.shared == self.shared,
            r.path == path,
            *r.error == self.error,
    {
        ErrorCtx { node: batch_flow, shared: &self.shared, path, error: &self.error }
    }

    /// The `on_error` round came out. Whatever it decided, the bundle's shared is
    /// merged as it is; a failing hook replaces the error and propagates.
    pub fn fired(self, reply: FlowResult<Option<ErrorPolicy>>) -> (r: FlowResult<Shared>)
        ensures
            r == match reply {
                Ok(_) => Ok(self.shared),
                Err(e) => Err(e),
            },
    {
        match reply {
            Ok(_) => Ok(self.shared),
            Err(e) => Err(e),
        }
    }
}

/// The values that are there, in order.
pub open spec fn present(slots: Seq<Option<Shared>>) -> Seq<Shared>
    decreases slots.len(),
{
    if slots.len() == 0 {
        Seq::empty()
    } else {
        match slots.last() {
            Some(s) => present(slots.drop_last()).push(s),
            None => present(slots.drop_last()),
        }
    }
}

/// The shareds that the bundles ran over, in bundle order, to be merged.
pub fn bundle_shareds(slots: Vec<Option<Shared>>) -> (r: Vec<Shared>)
    ensures
        r@ == present(slots@),
{
    let mut r: Vec<Shared> = Vec::new();
    for i in 0..slots.len()
        invariant
            r@ == present(slots@.take(i as int)),
    {
        assert(slots@.take(i + 1).drop_last() =~= slots@.take(i as int));
        if let Some(s) = &slots[i] {
            r.push(s.clone());
        }
    }
    assert(slots@.take(slots.len() as int) =~= slots@);
    r
}

} // verus!
