//! What holds of work that is being run: races, retries, failed units, pools of
//! workers, the lifecycle of a node and rounds of hooks.

use tokio_util::sync::CancellationToken;
use vstd::prelude::*;

use crate::error::{FlowError, FlowResult};
use crate::graph::Graph;
use crate::hooks::{
    fire_on_end, fire_on_error, fire_on_node_end, fire_on_node_start, fire_on_retry, fire_on_start,
    law_first_gate_wins, ErrorAsked, ErrorCtx, ErrorPolicy, ErrorReply, ErrorRound, ErrorStep,
    FanOut, FanOutAsked, FanOutStep, GateAsked, GateRound, GateStep, NodeEndCtx, RetryCtx,
};
use crate::internal::{
    race_abort, race_entry, race_work, retrying, AfterAttempt, Backoff, Pause, Retrying,
};
use crate::json::{shape, Shape};
use crate::node::{
    bare_run, begin_work, exec_with_retry, gather, run_lifecycle, BareRun, BatchExec, Consulting,
    Ending, ExecPlan, Executing, ItemReport, Lifecycle, Phase, Posting, Preparing, Racing, WorkStep,
};
use crate::node_core::{NodeCore, NodeCoreView};
use crate::pool::{
    law_in_flight_is_bounded, orderly, pool_run, run_parallel, settle_unit, Pool, PoolEvent,
    PoolView, Ticket, Unit,
};
use crate::signal::{link_signal, run_signal, upstream};
use crate::types::{Action, HookRef, NodeRef, Shared};

verus! {

/* -------------------------------- races -------------------------------- */

/// Work starts exactly where the token was not cancelled.
pub proof fn law_race_starts_uncancelled(cancelled: bool, r: FlowResult<()>)
    requires
        call_ensures(race_entry, (cancelled,), r),
    ensures
        cancelled ==> r == Err::<(), FlowError>(FlowError::Aborted),
        !cancelled ==> r == Ok::<(), FlowError>(()),
{
}

/// A race against a timeout and a cancellation is over once one of the three has
/// happened: finished work wins over both, and a timeout over a cancellation. A
/// timeout of `0` never expires.
pub proof fn law_race_is_decided_by_the_first<T>(
    work: Option<FlowResult<T>>,
    timeout_ms: u64,
    expired: bool,
    cancelled: bool,
    r: Option<FlowResult<T>>,
)
    requires
        call_ensures(race_work::<T>, (work, timeout_ms, expired, cancelled), r),
    ensures
        work is Some ==> r == work,
        work is None && expired && timeout_ms != 0 ==> r == Some(
            Err::<T, FlowError>(FlowError::Timeout { timeout_ms }),
        ),
        work is None && (!expired || timeout_ms == 0) && cancelled ==> r == Some(
            Err::<T, FlowError>(FlowError::Aborted),
        ),
        work is None && (!expired || timeout_ms == 0) && !cancelled ==> r is None,
{
}

/// A race against a cancellation alone knows no timeout.
pub proof fn law_race_abort_is_decided_by_the_first<T>(
    work: Option<FlowResult<T>>,
    cancelled: bool,
    r: Option<FlowResult<T>>,
)
    requires
        call_ensures(race_abort::<T>, (work, cancelled), r),
    ensures
        work is Some ==> r == work,
        work is None && cancelled ==> r == Some(Err::<T, FlowError>(FlowError::Aborted)),
        work is None && !cancelled ==> r is None,
{
}

/// A linked token has the parent upstream and is another token; without a parent, and
/// for a run that nobody can cancel, it is on its own.
pub proof fn law_linked_tokens(
    parent: CancellationToken,
    child: CancellationToken,
    alone: CancellationToken,
    given: CancellationToken,
    unasked: CancellationToken,
)
    requires
        call_ensures(link_signal, (Some(&parent),), child),
        call_ensures(link_signal, (None,), alone),
        call_ensures(run_signal, (Some(parent),), given),
        call_ensures(run_signal, (None,), unasked),
    ensures
        upstream(child) == Some(parent),
        child != parent,
        upstream(alone) is None,
        given == parent,
        upstream(unasked) is None,
{
}

/* ------------------------------- retries ------------------------------- */

/// Before the first attempt there are as many retries as were asked for.
pub proof fn law_retries_begin<T>(max_retries: u32, wait_ms: u64, r: Retrying<T>)
    requires
        call_ensures(retrying::<T>, (max_retries, wait_ms), r),
    ensures
        r.wf(),
        r.max_retries() == max_retries,
        r.wait() == wait_ms,
        r.outcomes().len() == 0,
        r.replies().len() == 0,
{
}

/// An attempt that succeeds ends the loop with what it gave. One that fails is made
/// again while there are retries left, whatever the error is: only a cancellation is
/// not. The last failure goes to the fallback.
pub proof fn law_only_cancellation_is_not_retried<T>(
    at: Retrying<T>,
    value: T,
    done: AfterAttempt<T>,
    error: FlowError,
    failed: AfterAttempt<T>,
)
    requires
        at.wf(),
        call_ensures(Retrying::<T>::settled, (at, Ok(value)), done),
        call_ensures(Retrying::<T>::settled, (at, Err(error)), failed),
    ensures
        done == AfterAttempt::<T>::Done(Ok(value)),
        error is Aborted ==> failed == AfterAttempt::<T>::Done(Err(error)),
        !(error is Aborted) && at.outcomes().len() < at.max_retries() ==> failed is Retry
            && failed->Retry_0.failure() == error,
        !(error is Aborted) && at.outcomes().len() >= at.max_retries() ==> failed
            == AfterAttempt::<T>::GiveUp(error),
        error is Flow || error is Cycle || error is Timeout || error is Msg || error is User
            ==> !(failed is Done),
{
}

/// Between a failed attempt and the next one the loop stays the same: one attempt
/// more is counted, the number of retries and the pause are kept, the pause is made
/// where there is one, and a failing hook ends the loop with its own error.
pub proof fn law_next_attempt_follows<T>(
    at: Retrying<T>,
    error: FlowError,
    failed: AfterAttempt<T>,
    reply: FlowResult<()>,
    r: FlowResult<Pause<T>>,
)
    requires
        at.wf(),
        call_ensures(Retrying::<T>::settled, (at, Err(error)), failed),
        failed is Retry,
        call_ensures(Backoff::<T>::fired, (failed->Retry_0, reply), r),
    ensures
        reply is Ok ==> {
            &&& r is Ok
            &&& r->Ok_0.next.wf()
            &&& r->Ok_0.next.outcomes().len() == at.outcomes().len() + 1
            &&& r->Ok_0.next.max_retries() == at.max_retries()
            &&& r->Ok_0.next.wait() == at.wait()
            &&& at.wait() == 0 ==> r->Ok_0.sleep_ms is None
            &&& at.wait() > 0 ==> r->Ok_0.sleep_ms == Some(at.wait())
        },
        reply is Err ==> r is Err && r->Err_0 == reply->Err_0,
{
}

/// The hooks of a retry are told the error, the number of the attempt that failed,
/// from `0` on, and the pause.
pub proof fn law_retry_hooks_are_told<T>(
    at: Retrying<T>,
    error: FlowError,
    failed: AfterAttempt<T>,
    back: &Backoff<T>,
    node: NodeRef,
    shared: &Shared,
    path: &[String],
    ctx: RetryCtx,
)
    requires
        at.wf(),
        call_ensures(Retrying::<T>::settled, (at, Err(error)), failed),
        failed == AfterAttempt::Retry(*back),
        call_ensures(Backoff::<T>::ctx, (back, node, shared, path), ctx),
    ensures
        ctx.node == node,
        *ctx.shared == *shared,
        ctx.path@ == path@,
        *ctx.error == error,
        ctx.attempt == at.outcomes().len(),
        ctx.wait_ms == at.wait(),
{
}

/* -------------------------------- units -------------------------------- */

/// Without `fail_fast` every failure of an item, branch or bundle other than a
/// cancellation, a timeout too, is reported and never settles as an error; under
/// `fail_fast` none is reported. A cancellation always settles as one, and what came
/// out well settles with what it gave.
pub proof fn law_failed_unit_is_reported<R>(
    value: R,
    fine: Unit<R, FlowError>,
    error: FlowError,
    fail_fast: bool,
    failed: Unit<R, FlowError>,
)
    requires
        call_ensures(settle_unit::<R>, (Ok(value), fail_fast), fine),
        call_ensures(settle_unit::<R>, (Err(error), fail_fast), failed),
    ensures
        fine == Unit::<R, FlowError>::Settle(Ok(value)),
        failed is Report <==> !(error is Aborted) && !fail_fast,
        failed is Report ==> failed->Report_0 == error,
        !(failed is Report) ==> failed == Unit::<R, FlowError>::Settle(Err(error)),
{
}

/// The same of an item of a batch node. A reported item comes to null, whatever the
/// hooks decide; a failing hook replaces its error.
pub proof fn law_failed_item_is_reported(
    exec: &BatchExec,
    value: serde_json::Value,
    fine: Unit<serde_json::Value, ItemReport>,
    error: FlowError,
    failed: Unit<serde_json::Value, ItemReport>,
    reply: FlowResult<Option<ErrorPolicy>>,
    after: FlowResult<serde_json::Value>,
)
    requires
        call_ensures(BatchExec::settled, (exec, Ok(value)), fine),
        call_ensures(BatchExec::settled, (exec, Err(error)), failed),
        failed is Report ==> call_ensures(ItemReport::fired, (failed->Report_0, reply), after),
    ensures
        fine == Unit::<serde_json::Value, ItemReport>::Settle(Ok(value)),
        failed is Report <==> !(error is Aborted) && !exec.fail_fast,
        failed is Report ==> failed->Report_0.error == error,
        !(failed is Report) ==> failed == Unit::<serde_json::Value, ItemReport>::Settle(Err(error)),
        failed is Report && reply is Ok ==> after is Ok && shape(after->Ok_0) is Null,
        failed is Report && reply is Err ==> after is Err && after->Err_0 == reply->Err_0,
{
}

/// A batch node runs its items, one of them per element of the array that `prep()`
/// gave and none of anything else, under the node's own concurrency, failure policy,
/// retries and pause; any other node makes one attempt at the whole, with the node's
/// retries.
pub proof fn law_exec_follows_the_config(
    node: &NodeCore,
    prep_res: &serde_json::Value,
    plan: ExecPlan,
)
    requires
        call_ensures(exec_with_retry, (node, prep_res), plan),
    ensures
        plan is Batch <==> node@.batch,
        plan matches ExecPlan::Batch(b) ==> {
            &&& shape(*prep_res) matches Shape::Array(a) ==> b.items@ == a
            &&& !(shape(*prep_res) is Array) ==> b.items@.len() == 0
            &&& b.concurrency == node@.concurrency
            &&& b.fail_fast == node@.fail_fast
            &&& b.max_retries == node@.max_retries
            &&& b.wait_ms == node@.wait_ms
        },
        plan matches ExecPlan::Single(t) ==> {
            &&& t.wf()
            &&& t.max_retries() == node@.max_retries
            &&& t.wait() == node@.wait_ms
            &&& t.outcomes().len() == 0
        },
{
}

/// The items of a batch node are taken by as many workers as its concurrency allows,
/// each item with the node's retries for itself.
pub proof fn law_items_run_under_the_config(
    exec: &BatchExec,
    signal: &CancellationToken,
    pool: Pool<serde_json::Value>,
    attempts: Retrying<serde_json::Value>,
)
    requires
        call_ensures(BatchExec::pool, (exec, signal), pool),
        call_ensures(BatchExec::attempts, (exec,), attempts),
    ensures
        pool@.slots.len() == exec.items@.len(),
        pool@.claimed == 0,
        pool@.failure is None,
        pool@.sequential <==> exec.concurrency <= 1,
        pool@.workers >= 1,
        pool@.workers == 1 || pool@.workers == exec.concurrency || pool@.workers
            == exec.items@.len(),
        exec.concurrency <= 1 ==> pool@.workers == 1,
        exec.concurrency > 1 && exec.items@.len() >= exec.concurrency ==> pool@.workers
            == exec.concurrency,
        exec.concurrency > 1 && 0 < exec.items@.len() < exec.concurrency ==> pool@.workers
            == exec.items@.len(),
        upstream(pool@.linked) == Some(*signal),
        attempts.max_retries() == exec.max_retries,
        attempts.wait() == exec.wait_ms,
        attempts.outcomes().len() == 0,
{
}

/// What a batch comes to has one element per item, in order: what the item came to,
/// and null where it never ran.
pub proof fn law_gathered_in_order(
    slots: Vec<Option<serde_json::Value>>,
    r: serde_json::Value,
    i: int,
)
    requires
        call_ensures(gather, (slots,), r),
    ensures
        shape(r) is Array,
        shape(r)->Array_0.len() == slots@.len(),
        0 <= i < slots@.len() && slots@[i] is Some ==> shape(r)->Array_0[i] == slots@[i]->0,
        0 <= i < slots@.len() && slots@[i] is None ==> shape(shape(r)->Array_0[i]) is Null,
{
}

/* -------------------------------- pools -------------------------------- */

/// A pool begins with one empty slot per item, nothing handed out and nothing failed.
/// It has one worker where items run one after the other, and otherwise as many as
/// `concurrency` allows and there are items for. Its token is a child of the parent.
pub proof fn law_pool_begins<R>(
    items: usize,
    concurrency: usize,
    parent: Option<&CancellationToken>,
    r: Pool<R>,
)
    requires
        call_ensures(run_parallel::<R>, (items, concurrency, parent), r),
    ensures
        r.wf(),
        r@.slots.len() == items,
        forall|i: int| 0 <= i < items ==> (#[trigger] r@.slots[i]) is None,
        r@.claimed == 0,
        r@.in_flight.len() == 0,
        r@.failure is None,
        r@.sequential <==> concurrency <= 1,
        r@.workers >= 1,
        concurrency <= 1 ==> r@.workers == 1,
        concurrency > 1 && concurrency <= items ==> r@.workers == concurrency,
        concurrency > 1 && 0 < items < concurrency ==> r@.workers == items,
        items == 0 ==> r@.workers == 1,
        parent is Some ==> upstream(r@.linked) == Some(*parent->0) && r@.linked != *parent->0,
        parent is None ==> upstream(r@.linked) is None,
{
}

/// A worker that asks gets the first item that nobody got, as long as there is one,
/// nothing has failed and the token is not cancelled. A cancelled token counts as a
/// failure only where items run one after the other. Asking changes nothing else.
pub proof fn law_claimed_item<R>(pool: &mut Pool<R>, cancelled: bool, r: Option<Ticket>)
    requires
        old(pool).wf(),
        old(pool)@.in_flight.len() < old(pool)@.workers,
        call_ensures(Pool::<R>::claim_unless, (pool, cancelled), r),
    ensures
        r is Some <==> old(pool)@.failure is None && old(pool)@.claimed < old(pool)@.slots.len()
            && !cancelled,
        r is Some ==> {
            &&& r->0.item() == old(pool)@.claimed
            &&& final(pool)@.claimed == old(pool)@.claimed + 1
            &&& final(pool)@.in_flight == old(pool)@.in_flight.insert(old(pool)@.claimed)
            &&& final(pool)@.failure is None
        },
        r is None ==> final(pool)@.claimed == old(pool)@.claimed && final(pool)@.in_flight
            == old(pool)@.in_flight,
        r is None && old(pool)@.failure is Some ==> final(pool)@.failure == old(pool)@.failure,
        r is None && old(pool)@.failure is None ==> final(pool)@.failure == (if cancelled
            && old(pool)@.sequential && old(pool)@.claimed < old(pool)@.slots.len() {
            Some(FlowError::Aborted)
        } else {
            None
        }),
        final(pool)@.slots == old(pool)@.slots,
        final(pool)@.workers == old(pool)@.workers,
        final(pool)@.sequential == old(pool)@.sequential,
        final(pool)@.linked == old(pool)@.linked,
{
}

/// An item that comes out well fills its own slot and no other. One that fails fills
/// none: its error is kept unless an earlier one was, and where several run at once
/// the token that the others race is the one to cancel. Either way a worker is free
/// again, and nothing else changes.
pub proof fn law_settled_item<R>(
    pool: &mut Pool<R>,
    ticket: Ticket,
    result: FlowResult<R>,
    stop: Option<CancellationToken>,
    i: int,
)
    requires
        old(pool).wf(),
        old(pool)@.in_flight.contains(ticket.item()),
        0 <= i < old(pool)@.slots.len(),
        call_ensures(Pool::<R>::settle, (pool, ticket, result), stop),
    ensures
        final(pool)@.slots.len() == old(pool)@.slots.len(),
        result is Ok && i == ticket.item() ==> final(pool)@.slots[i] == Some(result->Ok_0),
        result is Err || i != ticket.item() ==> final(pool)@.slots[i] == old(pool)@.slots[i],
        result is Ok || old(pool)@.failure is Some ==> final(pool)@.failure == old(pool)@.failure,
        result is Err && old(pool)@.failure is None ==> final(pool)@.failure == Some(
            result->Err_0,
        ),
        stop is Some <==> result is Err && !old(pool)@.sequential,
        stop is Some ==> stop->0 == old(pool)@.linked,
        !final(pool)@.in_flight.contains(ticket.item()),
        forall|j: nat|
            j != ticket.item() ==> (#[trigger] final(pool)@.in_flight.contains(j) <==> old(pool)@.in_flight.contains(j)),
        final(pool)@.in_flight.len() < final(pool)@.workers,
        final(pool)@.claimed == old(pool)@.claimed,
        final(pool)@.workers == old(pool)@.workers,
        final(pool)@.sequential == old(pool)@.sequential,
        final(pool)@.linked == old(pool)@.linked,
{
}

/// A pool comes to its failure where something failed, and otherwise to its slots.
pub proof fn law_finished_pool<R>(pool: Pool<R>, r: FlowResult<Vec<Option<R>>>)
    requires
        call_ensures(Pool::<R>::finish, (pool,), r),
    ensures
        r is Err <==> pool@.failure is Some,
        r is Err ==> r->Err_0 == pool@.failure->0,
        r is Ok ==> r->Ok_0@ == pool@.slots,
{
}

/// What a pool tells of itself.
pub proof fn law_pool_tells<R>(
    pool: &Pool<R>,
    workers: usize,
    room: bool,
    signal: CancellationToken,
    ticket: &Ticket,
    index: usize,
)
    requires
        pool.wf(),
        call_ensures(Pool::<R>::workers, (pool,), workers),
        call_ensures(Pool::<R>::has_room, (pool,), room),
        call_ensures(Pool::<R>::signal, (pool,), signal),
        call_ensures(Ticket::index, (ticket,), index),
    ensures
        workers == pool@.workers,
        room <==> pool@.in_flight.len() < pool@.workers,
        signal == pool@.linked,
        index == ticket.item(),
{
}

/// At no moment are more items in flight than `concurrency` allows, nor more than
/// there are, and one after the other it is one at a time. As long as there are fewer,
/// another one may start.
pub proof fn law_concurrency_is_kept_and_used<R>(
    items: nat,
    concurrency: nat,
    linked: CancellationToken,
    events: Seq<PoolEvent<R>>,
)
    requires
        orderly(PoolView::<R>::fresh(items, concurrency, linked), events),
    ensures
        ({
            let end = pool_run(PoolView::<R>::fresh(items, concurrency, linked), events);
            &&& concurrency <= 1 ==> end.in_flight.len() <= 1
            &&& concurrency > 1 ==> end.in_flight.len() <= concurrency
            &&& end.in_flight.len() <= items || items == 0
            &&& concurrency > 1 && end.in_flight.len() < concurrency && end.in_flight.len() < items
                ==> end.has_room()
            &&& end.in_flight.len() == 0 ==> end.has_room()
        }),
{
    law_in_flight_is_bounded(items, concurrency, linked, events);
    crate::pool::law_workers_stay(items, concurrency, linked, events);
}

/// What is offered to a worker is the first item left, exactly where nothing has
/// failed and nothing is cancelled, and asking takes that item and no other out of the
/// ones left.
pub proof fn law_offered_item<R>(p: PoolView<R>, cancelled: bool)
    ensures
        p.offer(cancelled) is Some <==> p.failure is None && p.claimed < p.slots.len()
            && !cancelled,
        p.offer(cancelled) is Some ==> p.offer(cancelled)->0 == p.claimed && p.asked(cancelled)
            == (PoolView {
            claimed: p.claimed + 1,
            in_flight: p.in_flight.insert(p.claimed),
            ..p
        }),
        p.offer(cancelled) is None && !(cancelled && p.sequential && p.failure is None && p.claimed
            < p.slots.len()) ==> p.asked(cancelled) == p,
        cancelled && p.sequential && p.failure is None && p.claimed < p.slots.len() ==> p.asked(
            cancelled,
        ) == (PoolView { failure: Some(FlowError::Aborted), ..p }),
{
}

/// A worker gets an item only after the token has answered that it is not cancelled,
/// and goes without one that is left only after it has answered that it is.
pub proof fn law_claim_asks_the_token<R>(pool: &mut Pool<R>, r: Option<Ticket>)
    requires
        old(pool).wf(),
        old(pool)@.in_flight.len() < old(pool)@.workers,
        call_ensures(Pool::<R>::claim, (pool,), r),
    ensures
        r is Some ==> {
            &&& call_ensures(CancellationToken::is_cancelled, (&old(pool)@.linked,), false)
            &&& old(pool)@.failure is None
            &&& r->0.item() == old(pool)@.claimed
            &&& old(pool)@.claimed < old(pool)@.slots.len()
            &&& final(pool)@.claimed == old(pool)@.claimed + 1
        },
        r is None && old(pool)@.failure is None && old(pool)@.claimed < old(pool)@.slots.len()
            ==> call_ensures(CancellationToken::is_cancelled, (&old(pool)@.linked,), true),
        final(pool)@.slots == old(pool)@.slots,
{
}

/* --------------------------------- work -------------------------------- */

/// Work begins with `prep()`. Its result goes to `exec()`, both results go to
/// `post()`, and `post()` decides; the first error is what the work comes to, and
/// nothing runs behind it.
pub proof fn law_work_passes_results_on<P, E>(
    first: WorkStep<P, E>,
    prep: FlowResult<P>,
    second: WorkStep<P, E>,
    exec: FlowResult<E>,
    third: WorkStep<P, E>,
    post: FlowResult<Action>,
    last: WorkStep<P, E>,
)
    requires
        call_ensures(begin_work::<P, E>, (), first),
        call_ensures(Preparing::prepared::<P, E>, (Preparing, prep), second),
        second is Exec ==> call_ensures(Executing::<P>::executed::<E>, (second->Exec_0, exec), third),
        third is Post ==> call_ensures(Posting::<P, E>::posted, (third->Post_0, post), last),
    ensures
        first is Prep,
        prep is Ok ==> second is Exec && second->Exec_0.prep_res == prep->Ok_0,
        prep is Err ==> second == WorkStep::<P, E>::Done(Err(prep->Err_0)),
        prep is Ok && exec is Ok ==> third is Post && third->Post_0.prep_res == prep->Ok_0
            && third->Post_0.exec_res == exec->Ok_0,
        prep is Ok && exec is Err ==> third == WorkStep::<P, E>::Done(Err(exec->Err_0)),
        prep is Ok && exec is Ok ==> last == WorkStep::<P, E>::Done(post),
{
}

/* ------------------------------ lifecycle ------------------------------ */

/// A lifecycle begins with the node's own timeout, and with the run's token on the
/// node. Nothing else changes.
pub proof fn law_lifecycle_begins(
    graph: &mut Graph,
    node: NodeRef,
    signal: &CancellationToken,
    r: Lifecycle,
    i: int,
)
    requires
        old(graph).wf(),
        node < old(graph)@.len(),
        0 <= i < old(graph)@.len(),
        call_ensures(run_lifecycle, (graph, node, signal), r),
    ensures
        r.timeout_ms == old(graph)@[node as int].core.timeout_ms,
        old(graph)@[node as int].core.runs < u64::MAX ==> final(graph)@[node as int].core.runs
            == old(graph)@[node as int].core.runs + 1,
        final(graph)@[node as int].core == (NodeCoreView {
            runs: final(graph)@[node as int].core.runs,
            signal: Some(*signal),
            ..old(graph)@[node as int].core
        }),
        final(graph)@[node as int].kind == old(graph)@[node as int].kind,
        i != node ==> final(graph)@[i] == old(graph)@[i],
{
}

/// The work is run exactly where no hook gates the node or fails, and against the
/// timeout that the lifecycle has. A gate ends the node with the gating action, as
/// skipped. A failing hook counts as the node's own failure: it is put to the error
/// policy, unless it is a cancellation.
pub proof fn law_gate_decides_on_the_work(life: Lifecycle, gate: FlowResult<Action>, r: Phase)
    requires
        call_ensures(Lifecycle::gated, (life, gate), r),
    ensures
        r is Race <==> gate is Ok && gate->Ok_0 is None,
        r is Race ==> r->Race_0.timeout_ms == life.timeout_ms,
        gate is Ok && gate->Ok_0 is Some ==> r == Phase::End(
            Ending { action: gate->Ok_0, skipped: true, thrown: None },
        ),
        r is Consult <==> gate is Err && !(gate->Err_0 is Aborted),
        r is Consult ==> r->Consult_0.error == gate->Err_0,
        gate is Err && gate->Err_0 is Aborted ==> r == Phase::End(
            Ending { action: None, skipped: false, thrown: Some(FlowError::Aborted) },
        ),
{
}

/// Work that came out well ends the node with its action. Work that failed is put to
/// the error policy, whatever the error is, a timeout too: only a cancellation is not,
/// and ends the node as itself.
pub proof fn law_finished_work(at: Racing, outcome: FlowResult<Action>, r: Phase)
    requires
        call_ensures(Racing::finished, (at, outcome), r),
    ensures
        outcome is Ok ==> r == Phase::End(
            Ending { action: outcome->Ok_0, skipped: false, thrown: None },
        ),
        r is Consult <==> outcome is Err && !(outcome->Err_0 is Aborted),
        r is Consult ==> r->Consult_0.error == outcome->Err_0,
        outcome is Err && outcome->Err_0 is Aborted ==> r == Phase::End(
            Ending { action: None, skipped: false, thrown: Some(FlowError::Aborted) },
        ),
{
}

/// A route replaces the error by its action. Any other decision, and none, leaves the
/// error; a failing hook replaces it by its own. A copy of a decision is the same one.
pub proof fn law_policy_decides_on_the_error(
    at: Consulting,
    policy: FlowResult<Option<ErrorPolicy>>,
    r: Ending,
    decided: &ErrorPolicy,
    copy: ErrorPolicy,
)
    requires
        call_ensures(Consulting::answered, (at, policy), r),
        call_ensures(<ErrorPolicy as Clone>::clone, (decided,), copy),
    ensures
        copy == *decided,
        !r.skipped,
        policy is Ok && policy->Ok_0 is Some && policy->Ok_0->0 is Route ==> r.action == Some(
            policy->Ok_0->0->Route_0,
        ) && r.thrown is None,
        policy is Ok && (policy->Ok_0 is None || policy->Ok_0->0 is Throw) ==> r.action is None
            && r.thrown == Some(at.error),
        policy is Err ==> r.action is None && r.thrown == Some(policy->Err_0),
{
}

/// A node that is done comes to its error where it has one, and otherwise to its
/// action; a failing `on_node_end` hook replaces either. One of the node's runs is
/// over, and no other node notices.
pub proof fn law_node_comes_to(
    ending: Ending,
    graph: &mut Graph,
    node: NodeRef,
    reply: FlowResult<()>,
    r: FlowResult<Action>,
    i: int,
)
    requires
        old(graph).wf(),
        node < old(graph)@.len(),
        0 <= i < old(graph)@.len(),
        call_ensures(Ending::ended, (ending, graph, node, reply), r),
    ensures
        reply is Err ==> r is Err && r->Err_0 == reply->Err_0,
        reply is Ok && ending.thrown is Some ==> r is Err && r->Err_0 == ending.thrown->0,
        reply is Ok && ending.thrown is None ==> r == Ok::<Action, FlowError>(ending.action),
        old(graph)@[node as int].core.runs <= 1 ==> final(graph)@[node as int].core.signal is None
            && final(graph)@[node as int].core.runs == 0,
        old(graph)@[node as int].core.runs > 1 ==> final(graph)@[node as int].core.signal == old(graph)@[node as int].core.signal && final(graph)@[node as int].core.runs == old(graph)@[node as int].core.runs - 1,
        final(graph)@[node as int].core == (NodeCoreView {
            runs: final(graph)@[node as int].core.runs,
            signal: final(graph)@[node as int].core.signal,
            ..old(graph)@[node as int].core
        }),
        final(graph)@[node as int].kind == old(graph)@[node as int].kind,
        final(graph)@.len() == old(graph)@.len(),
        i != node ==> final(graph)@[i] == old(graph)@[i],
{
}

/// What the hooks of a node are told is what happened to that node.
pub proof fn law_node_hooks_are_told(
    at: &Consulting,
    ending: &Ending,
    item: &ItemReport,
    node: NodeRef,
    shared: &Shared,
    path: &[String],
    duration_ms: u64,
    failed: ErrorCtx,
    done: NodeEndCtx,
    reported: ErrorCtx,
)
    requires
        call_ensures(Consulting::ctx, (at, node, shared, path), failed),
        call_ensures(Ending::ctx, (ending, node, shared, path, duration_ms), done),
        call_ensures(ItemReport::ctx, (item, node, shared, path), reported),
    ensures
        failed.node == node,
        *failed.shared == *shared,
        failed.path@ == path@,
        *failed.error == at.error,
        done.node == node,
        *done.shared == *shared,
        done.path@ == path@,
        *done.action == ending.action,
        done.duration_ms == duration_ms,
        done.skipped == ending.skipped,
        done.error is Some <==> ending.thrown is Some,
        ending.thrown is Some ==> *done.error->0 == ending.thrown->0,
        reported.node == node,
        *reported.shared == *shared,
        reported.path@ == path@,
        *reported.error == item.error,
{
}

/// A node that is run on its own has itself as path, and the token that it was given.
pub proof fn law_bare_run(
    graph: &Graph,
    node: NodeRef,
    signal: Option<CancellationToken>,
    r: BareRun,
    action: Seq<char>,
)
    requires
        graph.wf(),
        node < graph@.len(),
        call_ensures(bare_run, (graph, node, signal), r),
    ensures
        graph@[node as int].core.successors.contains_key(action) ==> r.warning is Some,
        r.warning is Some ==> r.warning->0@ == "[focket-rs] "@ + graph@[node as int].core.name
            + " has successors; run() ignores them. Use a Flow."@ && exists|a: Seq<char>| #[trigger]
            graph@[node as int].core.successors.contains_key(a),
        signal is Some ==> r.signal == signal->0,
        signal is None ==> upstream(r.signal) is None,
        r.path@.len() == 1,
        r.path@[0]@ == graph@[node as int].core.name,
{
    let edges = graph@[node as int].core.successors;
    if edges.contains_key(action) {
        assert(edges.dom().contains(action));
    }
    if r.warning is Some {
        let a = choose|a: Seq<char>| edges.dom().contains(a);
        assert(edges.contains_key(a));
    }
}

/* -------------------------------- hooks -------------------------------- */

/// Every round is over the hooks that it was given, all of them, in order, and has
/// asked none of them yet.
pub proof fn law_rounds_begin(
    hooks: &Vec<HookRef>,
    start: FanOut,
    node_start: GateRound,
    node_end: FanOut,
    retry: FanOut,
    error: ErrorRound,
    end: FanOut,
)
    requires
        call_ensures(fire_on_start, (hooks,), start),
        call_ensures(fire_on_node_start, (hooks,), node_start),
        call_ensures(fire_on_node_end, (hooks,), node_end),
        call_ensures(fire_on_retry, (hooks,), retry),
        call_ensures(fire_on_error, (hooks,), error),
        call_ensures(fire_on_end, (hooks,), end),
    ensures
        start.wf() && start.round().hooks() == hooks@ && start.round().replies().len() == 0,
        node_start.wf() && node_start.round().hooks() == hooks@
            && node_start.round().replies().len() == 0,
        node_end.wf() && node_end.round().hooks() == hooks@ && node_end.round().replies().len()
            == 0,
        retry.wf() && retry.round().hooks() == hooks@ && retry.round().replies().len() == 0,
        error.wf() && error.round().hooks() == hooks@ && error.round().replies().len() == 0,
        end.wf() && end.round().hooks() == hooks@ && end.round().replies().len() == 0,
{
}

/// A fan-out asks the first hook that it has not asked, until there is none. An error
/// ends it at once; any other reply is noted, and the next hook follows.
pub proof fn law_fan_out_goes_on(
    at: FanOut,
    next: FanOutStep,
    reply: FlowResult<()>,
    r: FlowResult<FanOut>,
)
    requires
        at.wf(),
        call_ensures(FanOut::step, (at,), next),
        next is Call ==> call_ensures(FanOutAsked::returned, (next->asked, reply), r),
    ensures
        at.round().replies().len() < at.round().hooks().len() ==> next is Call,
        next is Call ==> next->hook == at.round().hooks()[at.round().replies().len() as int],
        next is Call && reply is Ok ==> r is Ok && r->Ok_0.wf() && r->Ok_0.round().hooks()
            == at.round().hooks() && r->Ok_0.round().replies().len() == at.round().replies().len()
            + 1,
        next is Call && reply is Err ==> r is Err && r->Err_0 == reply->Err_0,
        next is Done ==> at.round().replies().len() == at.round().hooks().len(),
{
}

/// A gate round asks every hook in turn, though one of them has gated the node, and
/// comes to the action of the first that did. An error ends it at once.
pub proof fn law_gate_round_goes_on(
    at: GateRound,
    next: GateStep,
    reply: FlowResult<Action>,
    r: FlowResult<GateRound>,
    k: int,
)
    requires
        at.wf(),
        call_ensures(GateRound::step, (at,), next),
        next is Call ==> call_ensures(GateAsked::returned, (next->asked, reply), r),
        forall|i: int|
            0 <= i < at.round().replies().len() ==> (#[trigger] at.round().replies()[i]) is Ok,
        0 <= k <= at.round().replies().len(),
        forall|i: int| 0 <= i < k ==> (#[trigger] at.round().replies()[i])->Ok_0 is None,
        k < at.round().replies().len() ==> at.round().replies()[k]->Ok_0 is Some,
    ensures
        at.round().replies().len() < at.round().hooks().len() ==> next is Call,
        next is Call ==> next->hook == at.round().hooks()[at.round().replies().len() as int],
        next is Call && reply is Ok ==> r is Ok && r->Ok_0.wf() && r->Ok_0.round().hooks()
            == at.round().hooks() && r->Ok_0.round().replies() == at.round().replies().push(reply),
        next is Call && reply is Err ==> r is Err && r->Err_0 == reply->Err_0,
        next is Done && k < at.round().replies().len() ==> next->Done_0
            == at.round().replies()[k]->Ok_0,
        next is Done && k == at.round().replies().len() ==> next->Done_0 is None,
{
    if next is Done {
        law_first_gate_wins(at.round().hooks(), at.round().replies(), k);
    }
}

/// An error round asks hook by hook until one decides: a decision and an error end it
/// at once with that, and only a hook that leaves it open is followed by another.
pub proof fn law_error_round_goes_on(
    at: ErrorRound,
    next: ErrorStep,
    reply: FlowResult<Option<ErrorPolicy>>,
    r: FlowResult<ErrorReply>,
)
    requires
        at.wf(),
        call_ensures(ErrorRound::step, (at,), next),
        next is Call ==> call_ensures(ErrorAsked::returned, (next->asked, reply), r),
    ensures
        at.round().replies().len() < at.round().hooks().len() ==> next is Call,
        next is Call ==> next->hook == at.round().hooks()[at.round().replies().len() as int],
        next is Call && reply is Ok && reply->Ok_0 is Some ==> r is Ok && r->Ok_0
            == ErrorReply::Decided(reply->Ok_0->0),
        next is Call && reply is Ok && reply->Ok_0 is None ==> {
            &&& r is Ok
            &&& r->Ok_0 is Next
            &&& r->Ok_0->Next_0.wf()
            &&& r->Ok_0->Next_0.round().hooks() == at.round().hooks()
            &&& r->Ok_0->Next_0.round().replies().len() == at.round().replies().len() + 1
        },
        next is Call && reply is Err ==> r is Err && r->Err_0 == reply->Err_0,
        next is Done ==> at.round().replies().len() == at.round().hooks().len(),
{
}

/// Every attempt, item, gate, decision and reply may come out any way at all.
pub proof fn law_anything_may_come_out<T>(
    at: Retrying<T>,
    outcome: FlowResult<T>,
    back: Backoff<T>,
    reply: FlowResult<()>,
    pool: &mut Pool<T>,
    cancelled: bool,
    ticket: Ticket,
    graph: &mut Graph,
    node: NodeRef,
    signal: &CancellationToken,
    ending: Ending,
    asked: FanOutAsked,
    gate_asked: GateAsked,
    gate: FlowResult<Action>,
    error_asked: ErrorAsked,
    policy: FlowResult<Option<ErrorPolicy>>,
)
    requires
        at.wf(),
        back.wf(),
        old(pool).wf(),
        old(graph).wf(),
        node < old(graph)@.len(),
        asked.wf(),
        gate_asked.wf(),
        error_asked.wf(),
    ensures
        call_requires(Retrying::<T>::settled, (at, outcome)),
        call_requires(Backoff::<T>::fired, (back, reply)),
        old(pool)@.in_flight.len() < old(pool)@.workers ==> call_requires(
            Pool::<T>::claim_unless,
            (pool, cancelled),
        ) && call_requires(Pool::<T>::claim, (pool,)),
        old(pool)@.in_flight.contains(ticket.item()) ==> call_requires(
            Pool::<T>::settle,
            (pool, ticket, outcome),
        ),
        call_requires(run_lifecycle, (graph, node, signal)),
        call_requires(Ending::ended, (ending, graph, node, reply)),
        call_requires(FanOutAsked::returned, (asked, reply)),
        call_requires(GateAsked::returned, (gate_asked, gate)),
        call_requires(ErrorAsked::returned, (error_asked, policy)),
{
}

} // verus!
