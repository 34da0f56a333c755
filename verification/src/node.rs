//! The life of a node: how its work is attempted, and the full lifecycle with
//! gate, timeout, cancellation and error policy around `prep → exec → post`.

use tokio_util::sync::CancellationToken;
use vstd::prelude::*;

use crate::error::{FlowError, FlowResult};
use crate::graph::{core_set, Graph};
use crate::hooks::{ErrorCtx, ErrorPolicy, NodeEndCtx};
use crate::internal::{retrying, Retrying};
use crate::json::{array_value, elements, null_value, open_value, shape, Opened};
use crate::node_core::{ignored_text, NodeCore, NodeCoreView};
use crate::pool::{
    is_reported, law_slots_keep_item_order, pool_run, results_are, run_parallel, settle_unit,
    succeeded, within, Pool, PoolEvent, PoolView, Unit,
};
use crate::signal::{linked_to, run_signal, upstream};
use crate::types::{Action, NodeRef, Shared};

verus! {

/* -------------------------------- exec --------------------------------- */

/// How a node's `exec()` is carried out.
pub enum ExecPlan {
    /// `exec()` on the whole of what `prep()` gave, with the node's retries.
    Single(Retrying<serde_json::Value>),
    /// The bounded-parallel per-item loop.
    Batch(BatchExec),
}

/// The per-item loop of a batch node.
pub struct BatchExec {
    /// The items of `prep()`'s array.
    pub items: Vec<serde_json::Value>,
    pub concurrency: usize,
    pub fail_fast: bool,
    pub max_retries: u32,
    pub wait_ms: u64,
}

impl BatchExec {
    /// The loop that a node's config asks for.
    pub open spec fn follows(self, node: NodeCoreView, prep_res: serde_json::Value) -> bool {
        &&& self.items@ == elements(prep_res)
        &&& self.concurrency == node.concurrency
        &&& self.fail_fast == node.fail_fast
        &&& self.max_retries == node.max_retries
        &&& self.wait_ms == node.wait_ms
    }

    /// The workers that take the items.
    pub fn pool(&self, signal: &CancellationToken) -> (r: Pool<serde_json::Value>)
        ensures
            r.wf(),
            r@ == PoolView::<serde_json::Value>::fresh(
                self.items@.len(),
                self.concurrency as nat,
                r@.linked,
            ),
            linked_to(r@.linked, Some(signal)),
    {
        run_parallel(self.items.len(), self.concurrency, Some(signal))
    }

    /// The retries that each item has for itself.
    pub fn attempts(&self) -> (r: Retrying<serde_json::Value>)
        ensures
            r.is_new(self.max_retries as nat, self.wait_ms),
    {
        retrying(self.max_retries, self.wait_ms)
    }
}

/// `exec()` with the node's retry policy, or, for batch nodes, the
/// bounded-parallel per-item loop over `prep()`'s array. What is no array has
/// no items.
pub fn exec_with_retry(node: &NodeCore, prep_res: &serde_json::Value) -> (r: ExecPlan)
    ensures
        match r {
            ExecPlan::Batch(b) => node@.batch && b.follows(node@, *prep_res),
            ExecPlan::Single(t) => !node@.batch && t.is_new(
                node@.max_retries as nat,
                node@.wait_ms,
            ),
        },
{
    if node.is_batch() {
        let items = match open_value(prep_res.clone()) {
            Opened::Array(a) => a,
            _ => Vec::new(),
        };
        ExecPlan::Batch(
            BatchExec {
                items,
                concurrency: node.concurrency(),
                fail_fast: node.fail_fast(),
                max_retries: node.max_retries(),
                wait_ms: node.wait_ms(),
            },
        )
    } else {
        ExecPlan::Single(retrying(node.max_retries(), node.wait_ms()))
    }
}

/// The array holds what each slot holds, and null for an empty slot.
pub open spec fn gathers(slots: Seq<Option<serde_json::Value>>, r: serde_json::Value) -> bool {
    &&& shape(r) is Array
    &&& elements(r).len() == slots.len()
    &&& forall|i: int|
        0 <= i < slots.len() ==> match #[trigger] slots[i] {
            Some(v) => elements(r)[i] == v,
            None => shape(elements(r)[i]) is Null,
        }
}

/// The result of a batch: one element per item, in item order. An item that
/// never ran has null.
pub fn gather(slots: Vec<Option<serde_json::Value>>) -> (r: serde_json::Value)
    ensures
        gathers(slots@, r),
{
    let mut items: Vec<serde_json::Value> = Vec::new();
    for i in 0..slots.len()
        invariant
            items.len() == i,
            forall|j: int|
                0 <= j < i ==> match #[trigger] slots@[j] {
                    Some(v) => items@[j] == v,
                    None => shape(items@[j]) is Null,
                },
    {
        let v = match &slots[i] {
            Some(v) => v.clone(),
            None => null_value(),
        };
        items.push(v);
    }
    array_value(items)
}

/// The result of a batch keeps item order: whatever the order in which items come
/// out, each item that came out well has its result in its own place, and every
/// other place is null.
pub proof fn law_batch_result_keeps_item_order(
    items: nat,
    concurrency: nat,
    linked: CancellationToken,
    events: Seq<PoolEvent<serde_json::Value>>,
    f: spec_fn(nat) -> serde_json::Value,
    r: serde_json::Value,
)
    requires
        within(events, items),
        results_are(events, f),
        gathers(
            pool_run(PoolView::<serde_json::Value>::fresh(items, concurrency, linked), events).slots,
            r,
        ),
    ensures
        elements(r).len() == items,
        forall|i: nat|
            i < items ==> if succeeded(events, i) {
                #[trigger] elements(r)[i as int] == f(i)
            } else {
                shape(elements(r)[i as int]) is Null
            },
{
    law_slots_keep_item_order(items, concurrency, linked, events, f);
    let slots = pool_run(PoolView::<serde_json::Value>::fresh(items, concurrency, linked), events).slots;
    assert forall|i: nat| i < items implies if succeeded(events, i) {
        #[trigger] elements(r)[i as int] == f(i)
    } else {
        shape(elements(r)[i as int]) is Null
    } by {
        assert(slots[i as int] == (if succeeded(events, i) {
            Some(f(i))
        } else {
            None
        }));
    }
}

/// An item that failed while the rest go on.
pub struct ItemReport {
    pub error: FlowError,
}

impl BatchExec {
    /// An item came out of its attempts and its fallback.
    pub fn settled(&self, result: FlowResult<serde_json::Value>) -> (r: Unit<
        serde_json::Value,
        ItemReport,
    >)
        ensures
            r == match result {
                Ok(v) => Unit::Settle(Ok(v)),
                Err(e) => if is_reported(e, self.fail_fast) {
                    Unit::Report(ItemReport { error: e })
                } else {
                    Unit::Settle(Err(e))
                },
            },
            r is Report <==> result is Err && !(result->Err_0 is Aborted) && !self.fail_fast,
    {
        match settle_unit(result, self.fail_fast) {
            Unit::Settle(r) => Unit::Settle(r),
            Unit::Report(error) => Unit::Report(ItemReport { error }),
        }
    }
}

impl ItemReport {
    /// What the `on_error` hooks are told.
    pub fn ctx<'a>(&'a self, node: NodeRef, shared: &'a Shared, path: &'a [String]) -> (r: ErrorCtx<
        'a,
    >)
        ensures
            r.node == node,
            r.shared == shared,
            r.path == path,
            *r.error == self.error,
    {
        ErrorCtx { node, shared, path, error: &self.error }
    }

    /// The `on_error` round came out. Whatever it decided, the item comes to null;
    /// a failing hook replaces the error and propagates.
    pub fn fired(self, reply: FlowResult<Option<ErrorPolicy>>) -> (r: FlowResult<serde_json::Value>)
        ensures
            match reply {
                Ok(_) => r is Ok && shape(r->Ok_0) is Null,
                Err(e) => r == Err::<serde_json::Value, FlowError>(e),
            },
    {
        match reply {
            Ok(_) => Ok(null_value()),
            Err(e) => Err(e),
        }
    }
}

/* --------------------------------- work -------------------------------- */

/// What the work of a node does next. `prep()` comes to a `P` and `exec()` to an
/// `E`. A flow's work has the same order: its orchestration is its `exec`.
pub enum WorkStep<P, E> {
    /// Run `prep()`, and hand what came of it to [`Preparing::prepared`].
    Prep(Preparing),
    /// Run `exec()` on what `prep()` gave, and hand what came of it to
    /// [`Executing::executed`].
    Exec(Executing<P>),
    /// Run `post()` on what both gave, and hand what came of it to
    /// [`Posting::posted`].
    Post(Posting<P, E>),
    /// The work is done.
    Done(FlowResult<Action>),
}

/// Work before `prep()`.
pub struct Preparing;

/// Work before `exec()`.
pub struct Executing<P> {
    pub prep_res: P,
}

/// Work before `post()`.
pub struct Posting<P, E> {
    pub prep_res: P,
    pub exec_res: E,
}

/// What follows `prep()`: its error ends the work.
pub open spec fn after_prep<P, E>(prep: FlowResult<P>) -> WorkStep<P, E> {
    match prep {
        Ok(prep_res) => WorkStep::Exec(Executing { prep_res }),
        Err(e) => WorkStep::Done(Err(e)),
    }
}

/// What follows `exec()`: its error ends the work.
pub open spec fn after_exec<P, E>(prep_res: P, exec: FlowResult<E>) -> WorkStep<P, E> {
    match exec {
        Ok(exec_res) => WorkStep::Post(Posting { prep_res, exec_res }),
        Err(e) => WorkStep::Done(Err(e)),
    }
}

/// The work of a node begins with `prep()`.
pub fn begin_work<P, E>() -> (r: WorkStep<P, E>)
    ensures
        r == WorkStep::<P, E>::Prep(Preparing),
{
    WorkStep::Prep(Preparing)
}

impl Preparing {
    /// `prep()` came out.
    pub fn prepared<P, E>(self, prep: FlowResult<P>) -> (r: WorkStep<P, E>)
        ensures
            r == after_prep::<P, E>(prep),
    {
        match prep {
            Ok(prep_res) => WorkStep::Exec(Executing { prep_res }),
            Err(e) => WorkStep::Done(Err(e)),
        }
    }
}

impl<P> Executing<P> {
    /// `exec()` came out.
    pub fn executed<E>(self, exec: FlowResult<E>) -> (r: WorkStep<P, E>)
        ensures
            r == after_exec(self.prep_res, exec),
    {
        match exec {
            Ok(exec_res) => WorkStep::Post(Posting { prep_res: self.prep_res, exec_res }),
            Err(e) => WorkStep::Done(Err(e)),
        }
    }
}

impl<P, E> Posting<P, E> {
    /// `post()` came out: it decides what the work comes to.
    pub fn posted(self, post: FlowResult<Action>) -> (r: WorkStep<P, E>)
        ensures
            r == WorkStep::<P, E>::Done(post),
    {
        WorkStep::Done(post)
    }
}

/// What the work comes to, given how its parts come out if they run.
pub open spec fn work_result<P, E>(
    prep: FlowResult<P>,
    exec: FlowResult<E>,
    post: FlowResult<Action>,
) -> FlowResult<Action> {
    match after_prep::<P, E>(prep) {
        WorkStep::Exec(at) => match after_exec(at.prep_res, exec) {
            WorkStep::Post(_) => post,
            WorkStep::Done(r) => r,
            _ => arbitrary(),
        },
        WorkStep::Done(r) => r,
        _ => arbitrary(),
    }
}

/// `prep → exec → post`: `exec()` runs exactly after a `prep()` that came out well,
/// on what it gave; `post()` runs exactly after an `exec()` that came out well, on
/// what both gave; the first error ends the work, and otherwise it comes to what
/// `post()` decides.
pub proof fn law_work_runs_in_order<P, E>(
    prep: FlowResult<P>,
    exec: FlowResult<E>,
    post: FlowResult<Action>,
)
    ensures
        after_prep::<P, E>(prep) is Exec <==> prep is Ok,
        prep is Ok ==> after_prep::<P, E>(prep) == WorkStep::<P, E>::Exec(
            Executing { prep_res: prep->Ok_0 },
        ),
        prep is Ok ==> (after_exec(prep->Ok_0, exec) is Post <==> exec is Ok),
        prep is Ok && exec is Ok ==> after_exec(prep->Ok_0, exec) == WorkStep::Post(
            Posting { prep_res: prep->Ok_0, exec_res: exec->Ok_0 },
        ),
        work_result(prep, exec, post) == (match (prep, exec) {
            (Err(e), _) => Err(e),
            (Ok(_), Err(e)) => Err(e),
            (Ok(_), Ok(_)) => post,
        }),
{
}

/* ------------------------------ lifecycle ------------------------------ */

/// The full lifecycle of a node, waiting for its gate.
///
/// Cancellation ([`FlowError::Aborted`]) is terminal: it bypasses `on_error`
/// and always propagates. Any other failure consults `on_error`, which may
/// route to a recovery edge (skipping `post()`).
pub struct Lifecycle {
    /// The budget of the node's work (ms); `0` = none.
    pub timeout_ms: u64,
}

/// Where a lifecycle stands.
pub enum Phase {
    /// Run the node's work (see [`begin_work`]), raced against the timeout and the
    /// token, and hand what came of it to [`Racing::finished`].
    Race(Racing),
    /// Fire `on_error`, and hand what came of it to [`Consulting::answered`].
    Consult(Consulting),
    /// Fire `on_node_end`, and hand what came of it to [`Ending::ended`].
    End(Ending),
}

/// A node at work.
pub struct Racing {
    pub timeout_ms: u64,
}

/// A node that failed, before the error policy is known.
pub struct Consulting {
    pub error: FlowError,
}

/// A node that is done, before `on_node_end`.
pub struct Ending {
    /// The action the node produced (or a gating/routing one).
    pub action: Action,
    /// True when a gate skipped the node's work.
    pub skipped: bool,
    /// The error, when the node failed (after error policy was consulted).
    pub thrown: Option<FlowError>,
}

/// What follows the outcome of a gate or of the work.
pub open spec fn concluded(outcome: FlowResult<Action>, skipped: bool) -> Phase {
    match outcome {
        Ok(action) => Phase::End(Ending { action, skipped, thrown: None }),
        Err(e) => if e is Aborted {
            Phase::End(Ending { action: None, skipped, thrown: Some(e) })
        } else {
            Phase::Consult(Consulting { error: e })
        },
    }
}

/// What follows the `on_node_start` round.
pub open spec fn gated(timeout_ms: u64, gate: FlowResult<Action>) -> Phase {
    match gate {
        Ok(None) => Phase::Race(Racing { timeout_ms }),
        Ok(Some(_)) => concluded(gate, true),
        Err(_) => concluded(gate, false),
    }
}

/// What follows the error policy.
pub open spec fn answered(error: FlowError, policy: FlowResult<Option<ErrorPolicy>>) -> Ending {
    match policy {
        Ok(Some(ErrorPolicy::Route(a))) => Ending { action: Some(a), skipped: false, thrown: None },
        Ok(_) => Ending { action: None, skipped: false, thrown: Some(error) },
        Err(e) => Ending { action: None, skipped: false, thrown: Some(e) },
    }
}

/// What the lifecycle comes to.
pub open spec fn ended(ending: Ending, reply: FlowResult<()>) -> FlowResult<Action> {
    match reply {
        Err(e) => Err(e),
        Ok(_) => match ending.thrown {
            Some(e) => Err(e),
            None => Ok(ending.action),
        },
    }
}

fn conclude(outcome: FlowResult<Action>, skipped: bool) -> (r: Phase)
    ensures
        r == concluded(outcome, skipped),
{
    match outcome {
        Ok(action) => Phase::End(Ending { action, skipped, thrown: None }),
        Err(e) => {
            if e.is_aborted() {
                Phase::End(Ending { action: None, skipped, thrown: Some(e) })
            } else {
                Phase::Consult(Consulting { error: e })
            }
        },
    }
}

/// Begins the lifecycle of a node: it gets the token of the run, and its timeout
/// is the one that its work will be raced against.
pub fn run_lifecycle(graph: &mut Graph, node: NodeRef, signal: &CancellationToken) -> (r: Lifecycle)
    requires
        old(graph).wf(),
        node < old(graph)@.len(),
    ensures
        final(graph).wf(),
        final(graph)@ == core_set(
            old(graph)@,
            node,
            old(graph)@[node as int].core.under(*signal),
        ),
        r.timeout_ms == old(graph)@[node as int].core.timeout_ms,
{
    graph.set_signal(node, signal);
    Lifecycle { timeout_ms: graph.node(node).node_core().timeout_ms() }
}

impl Lifecycle {
    /// The `on_node_start` round came out: a gate skips the node's work, an
    /// error counts as the node's own.
    pub fn gated(self, gate: FlowResult<Action>) -> (r: Phase)
        ensures
            r == gated(self.timeout_ms, gate),
    {
        match gate {
            Ok(None) => Phase::Race(Racing { timeout_ms: self.timeout_ms }),
            Ok(Some(g)) => conclude(Ok(Some(g)), true),
            Err(e) => conclude(Err(e), false),
        }
    }
}

impl Racing {
    /// The raced work came out.
    pub fn finished(self, outcome: FlowResult<Action>) -> (r: Phase)
        ensures
            r == concluded(outcome, false),
    {
        conclude(outcome, false)
    }
}

impl Consulting {
    /// What the `on_error` hooks are told.
    pub fn ctx<'a>(&'a self, node: NodeRef, shared: &'a Shared, path: &'a [String]) -> (r: ErrorCtx<
        'a,
    >)
        ensures
            r.node == node,
            r.shared == shared,
            r.path == path,
            *r.error == self.error,
    {
        ErrorCtx { node, shared, path, error: &self.error }
    }

    /// The `on_error` round came out: a route replaces the error, and a failing
    /// hook replaces it by its own.
    pub fn answered(self, policy: FlowResult<Option<ErrorPolicy>>) -> (r: Ending)
        ensures
            r == answered(self.error, policy),
    {
        match policy {
            Ok(Some(ErrorPolicy::Route(a))) => Ending {
                action: Some(a),
                skipped: false,
                thrown: None,
            },
            Ok(_) => Ending { action: None, skipped: false, thrown: Some(self.error) },
            Err(e) => Ending { action: None, skipped: false, thrown: Some(e) },
        }
    }
}

impl Ending {
    /// What the `on_node_end` hooks are told.
    pub fn ctx<'a>(
        &'a self,
        node: NodeRef,
        shared: &'a Shared,
        path: &'a [String],
        duration_ms: u64,
    ) -> (r: NodeEndCtx<'a>)
        ensures
            r.node == node,
            r.shared == shared,
            r.path == path,
            *r.action == self.action,
            r.duration_ms == duration_ms,
            r.skipped == self.skipped,
            r.error == (match self.thrown {
                Some(e) => Some(&e),
                None => None,
            }),
    {
        NodeEndCtx {
            node,
            shared,
            path,
            action: &self.action,
            duration_ms,
            skipped: self.skipped,
            error: self.thrown.as_ref(),
        }
    }

    /// The `on_node_end` round came out: its error replaces whatever the node
    /// came to. The node's run is over, and the token is taken back from it unless
    /// it is in another run.
    pub fn ended(
        self,
        graph: &mut Graph,
        node: NodeRef,
        reply: FlowResult<()>,
    ) -> (r: FlowResult<Action>)
        requires
            old(graph).wf(),
            node < old(graph)@.len(),
        ensures
            final(graph).wf(),
            final(graph)@ == core_set(old(graph)@, node, old(graph)@[node as int].core.left()),
            r == ended(self, reply),
    {
        graph.leave_run(node);
        match reply {
            Err(e) => Err(e),
            Ok(_) => match self.thrown {
                Some(e) => Err(e),
                None => Ok(self.action),
            },
        }
    }
}

/// What the `on_node_end` hooks of a lifecycle are told, given how its gate, its
/// work (if it runs) and its error policy (if it is asked) come out.
pub open spec fn lifecycle_ending(
    gate: FlowResult<Action>,
    work: FlowResult<Action>,
    policy: FlowResult<Option<ErrorPolicy>>,
) -> Ending {
    let phase = match gated(0, gate) {
        Phase::Race(_) => concluded(work, false),
        p => p,
    };
    match phase {
        Phase::Consult(c) => answered(c.error, policy),
        Phase::End(e) => e,
        Phase::Race(_) => arbitrary(),
    }
}

/// The error policy is asked.
pub open spec fn lifecycle_consults(gate: FlowResult<Action>, work: FlowResult<Action>) -> bool {
    match gated(0, gate) {
        Phase::Race(_) => concluded(work, false) is Consult,
        p => p is Consult,
    }
}

/// A gated node never runs its work; its hooks are told that it was skipped,
/// and the flow routes via the gating action.
pub proof fn law_gate_skips_work(
    timeout_ms: u64,
    action: String,
    work: FlowResult<Action>,
    policy: FlowResult<Option<ErrorPolicy>>,
)
    ensures
        !(gated(timeout_ms, Ok(Some(action))) is Race),
        lifecycle_ending(Ok(Some(action)), work, policy) == (Ending {
            action: Some(action),
            skipped: true,
            thrown: None,
        }),
        ended(lifecycle_ending(Ok(Some(action)), work, policy), Ok(())) == Ok::<Action, FlowError>(
            Some(action),
        ),
{
}

/// Cancellation is terminal: from a gate or from the work, it is never put to
/// the error policy, so no route can replace it, and it is what the lifecycle
/// comes to unless an `on_node_end` hook fails.
pub proof fn law_cancellation_is_terminal(
    gate: FlowResult<Action>,
    work: FlowResult<Action>,
    policy: FlowResult<Option<ErrorPolicy>>,
)
    requires
        gate == Err::<Action, FlowError>(FlowError::Aborted) || (gate == Ok::<Action, FlowError>(
            None,
        ) && work == Err::<Action, FlowError>(FlowError::Aborted)),
    ensures
        !lifecycle_consults(gate, work),
        ended(lifecycle_ending(gate, work, policy), Ok(())) == Err::<Action, FlowError>(
            FlowError::Aborted,
        ),
{
}

/// Any failure but a cancellation, a timeout too, can be routed to a recovery
/// edge; without a route the error propagates, and a failing `on_error` hook
/// replaces it.
pub proof fn law_failures_are_routable(
    error: FlowError,
    route: String,
    hook_error: FlowError,
)
    requires
        !(error is Aborted),
    ensures
        lifecycle_consults(Ok(None), Err(error)),
        ended(
            lifecycle_ending(Ok(None), Err(error), Ok(Some(ErrorPolicy::Route(route)))),
            Ok(()),
        ) == Ok::<Action, FlowError>(Some(route)),
        ended(
            lifecycle_ending(Ok(None), Err(error), Ok(Some(ErrorPolicy::Throw))),
            Ok(()),
        ) == Err::<Action, FlowError>(error),
        ended(lifecycle_ending(Ok(None), Err(error), Ok(None)), Ok(())) == Err::<
            Action,
            FlowError,
        >(error),
        ended(lifecycle_ending(Ok(None), Err(error), Err(hook_error)), Ok(())) == Err::<
            Action,
            FlowError,
        >(hook_error),
{
}

/// A node that runs undisturbed comes to the action of its own work, and its
/// hooks are told that nothing was skipped.
pub proof fn law_work_decides_the_action(
    action: Action,
    policy: FlowResult<Option<ErrorPolicy>>,
)
    ensures
        !lifecycle_consults(Ok(None), Ok(action)),
        lifecycle_ending(Ok(None), Ok(action), policy) == (Ending {
            action,
            skipped: false,
            thrown: None,
        }),
        ended(lifecycle_ending(Ok(None), Ok(action), policy), Ok(())) == Ok::<Action, FlowError>(
            action,
        ),
{
}

/// `on_node_end` has the last word: whatever a node came to, an error of its
/// `on_node_end` hooks replaces it.
pub proof fn law_node_end_error_replaces(ending: Ending, error: FlowError)
    ensures
        ended(ending, Err(error)) == Err::<Action, FlowError>(error),
{
}

/* ------------------------------ bare nodes ----------------------------- */

/// What it takes to run a node in isolation.
pub struct BareRun {
    /// The warning to log, where the node has successors that are ignored.
    pub warning: Option<String>,
    pub signal: CancellationToken,
    pub path: Vec<String>,
}

/// Prepares to run a node in isolation (successors are ignored; use a
/// [`crate::Flow`] to traverse them). Pass `Some(token)` to make it
/// cancellable.
pub fn bare_run(
    graph: &Graph,
    node: NodeRef,
    signal: Option<CancellationToken>,
) -> (r: BareRun)
    requires
        graph.wf(),
        node < graph@.len(),
    ensures
        match r.warning {
            Some(w) => !graph@[node as int].core.successors.dom().is_empty() && w@ == ignored_text(
                graph@[node as int].core.name,
            ),
            None => graph@[node as int].core.successors.dom().is_empty(),
        },
        match signal {
            Some(s) => r.signal == s,
            None => upstream(r.signal) is None,
        },
        r.path@.len() == 1,
        r.path@[0]@ == graph@[node as int].core.name,
{
    let n = graph.node(node).node_core();
    let warning = n.ignored_warning();
    let mut path: Vec<String> = Vec::new();
    path.push(n.name().to_owned());
    BareRun { warning, signal: run_signal(signal), path }
}

} // verus!
