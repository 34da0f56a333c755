//! Engine internals: the race against timeout and cancellation, isolation,
//! and the shared retry loop. Each is a small machine
//! that says what to do next and is told what came of it.

use vstd::prelude::*;

pub use crate::pool::run_parallel;
pub use crate::signal::link_signal;

use crate::error::{FlowError, FlowResult};
use crate::hooks::RetryCtx;
use crate::types::{NodeRef, Shared};

verus! {

/// Produce an isolated copy of `shared` for a parallel branch / bundle /
/// sub-flow. Default: deep clone. Pass a cloner for a custom strategy.
pub fn isolated<F: Fn(&Shared) -> Shared>(shared: &Shared, cloner: Option<&F>) -> (r: Shared)
    requires
        cloner is Some ==> call_requires(*cloner->0, (shared,)),
    ensures
        match cloner {
            Some(c) => call_ensures(*c, (shared,), r),
            None => r == *shared,
        },
{
    match cloner {
        Some(c) => c(shared),
        None => shared.clone(),
    }
}

/// Whether raced work may start at all: not under a cancelled token.
pub fn race_entry(cancelled: bool) -> (r: FlowResult<()>)
    ensures
        r == (if cancelled {
            Err(FlowError::Aborted)
        } else {
            Ok(())
        }),
{
    if cancelled {
        Err(FlowError::Aborted)
    } else {
        Ok(())
    }
}

/// How a race stands: work that has finished wins over a timeout (`timeout_ms`
/// of `0` is none) that has expired, and that over a cancellation.
pub open spec fn race_verdict<T>(
    work: Option<FlowResult<T>>,
    timeout_ms: u64,
    expired: bool,
    cancelled: bool,
) -> Option<FlowResult<T>> {
    if work is Some {
        work
    } else if timeout_ms > 0 && expired {
        Some(Err(FlowError::Timeout { timeout_ms }))
    } else if cancelled {
        Some(Err(FlowError::Aborted))
    } else {
        None
    }
}

/// Race `work` against a per-node timeout (`timeout_ms`) and/or cancellation.
/// The first to settle wins: timeout → [`FlowError::Timeout`]; cancel →
/// [`FlowError::Aborted`]; otherwise `work`'s output. `None`: still open.
pub fn race_work<T>(
    work: Option<FlowResult<T>>,
    timeout_ms: u64,
    expired: bool,
    cancelled: bool,
) -> (r: Option<FlowResult<T>>)
    ensures
        r == race_verdict(work, timeout_ms, expired, cancelled),
{
    match work {
        Some(w) => Some(w),
        None => {
            if timeout_ms > 0 && expired {
                Some(Err(FlowError::timeout(timeout_ms)))
            } else if cancelled {
                Some(Err(FlowError::Aborted))
            } else {
                None
            }
        },
    }
}

/// Resolve with `work`'s output, or fail with [`FlowError::Aborted`] if the
/// signal is cancelled. `None`: still open.
pub fn race_abort<T>(work: Option<FlowResult<T>>, cancelled: bool) -> (r: Option<FlowResult<T>>)
    ensures
        r == race_verdict(work, 0, false, cancelled),
{
    race_work(work, 0, false, cancelled)
}

/// Work that has finished wins whatever else has happened, so its result is
/// never lost; work that has not loses to an expired timeout first.
pub proof fn law_race_order<T>(
    work: FlowResult<T>,
    timeout_ms: u64,
    expired: bool,
    cancelled: bool,
)
    ensures
        race_verdict(Some(work), timeout_ms, expired, cancelled) == Some(work),
        timeout_ms > 0 ==> race_verdict(None::<FlowResult<T>>, timeout_ms, true, cancelled) == Some(
            Err::<T, FlowError>(FlowError::Timeout { timeout_ms }),
        ),
        race_verdict(None::<FlowResult<T>>, timeout_ms, false, true) == Some(
            Err::<T, FlowError>(FlowError::Aborted),
        ),
        race_verdict(None::<FlowResult<T>>, timeout_ms, false, false) is None,
{
}

/// A timeout of `0` is none: without cancellation the work is waited for.
pub proof fn law_no_timeout_by_default<T>(expired: bool)
    ensures
        race_verdict(None::<FlowResult<T>>, 0, expired, false) is None,
{
}

/* ------------------------------- retries ------------------------------- */

/// A failure that another attempt may mend: any but a cancellation.
pub open spec fn retryable<T>(outcome: FlowResult<T>) -> bool {
    outcome is Err && !(outcome->Err_0 is Aborted)
}

/// How the attempts end.
pub enum RetryEnd<T> {
    /// With this result.
    Returned(FlowResult<T>),
    /// With the fallback deciding on the last error.
    Fallback(FlowError),
}

/// A whole retry loop: the number of attempts made, and how they end.
pub struct RetryRun<T> {
    pub attempts: nat,
    pub end: RetryEnd<T>,
}

/// The retry loop whose attempts come out as `outcomes`, and whose `on_retry`
/// rounds come out as `replies`, in turn.
pub open spec fn retry_run<T>(
    max_retries: nat,
    outcomes: Seq<FlowResult<T>>,
    replies: Seq<FlowResult<()>>,
) -> RetryRun<T>
    decreases max_retries,
{
    if !retryable(outcomes[0]) {
        RetryRun { attempts: 1, end: RetryEnd::Returned(outcomes[0]) }
    } else if max_retries == 0 {
        RetryRun { attempts: 1, end: RetryEnd::Fallback(outcomes[0]->Err_0) }
    } else {
        match replies[0] {
            Ok(_) => {
                let rest = retry_run(
                    (max_retries - 1) as nat,
                    outcomes.drop_first(),
                    replies.drop_first(),
                );
                RetryRun { attempts: rest.attempts + 1, end: rest.end }
            },
            Err(e) => RetryRun { attempts: 1, end: RetryEnd::Returned(Err(e)) },
        }
    }
}

spec fn all_retryable<T>(outcomes: Seq<FlowResult<T>>, k: int) -> bool {
    forall|i: int| 0 <= i < k ==> retryable(#[trigger] outcomes[i])
}

spec fn all_ok(replies: Seq<FlowResult<()>>, k: int) -> bool {
    forall|i: int| 0 <= i < k ==> (#[trigger] replies[i]) is Ok
}

proof fn lemma_all_retryable<T>(outcomes: Seq<FlowResult<T>>, k: int)
    requires
        all_retryable(outcomes, k),
    ensures
        forall|i: int|
            0 <= i < k ==> (#[trigger] outcomes[i]) is Err && !(outcomes[i]->Err_0 is Aborted),
{
    assert forall|i: int| 0 <= i < k implies (#[trigger] outcomes[i]) is Err && !(
    outcomes[i]->Err_0 is Aborted) by {
        assert(retryable(outcomes[i]));
    }
}

proof fn lemma_retry_shift<T>(outcomes: Seq<FlowResult<T>>, replies: Seq<FlowResult<()>>, k: int)
    requires
        0 < k,
        k <= outcomes.len(),
        all_retryable(outcomes, k),
        all_ok(replies, k - 1),
        k - 1 <= replies.len(),
    ensures
        retryable(outcomes[0]),
        all_retryable(outcomes.drop_first(), k - 1),
        k > 1 ==> replies[0] is Ok && all_ok(replies.drop_first(), k - 2),
{
    let rest = outcomes.drop_first();
    assert forall|i: int| 0 <= i < k - 1 implies retryable(#[trigger] rest[i]) by {
        assert(rest[i] == outcomes[i + 1]);
    }
    if k > 1 {
        let after = replies.drop_first();
        assert forall|i: int| 0 <= i < k - 2 implies (#[trigger] after[i]) is Ok by {
            assert(after[i] == replies[i + 1]);
        }
    }
}

/// There is never more than one attempt beyond `max_retries`.
pub proof fn law_retry_budget<T>(
    max_retries: nat,
    outcomes: Seq<FlowResult<T>>,
    replies: Seq<FlowResult<()>>,
)
    ensures
        1 <= retry_run(max_retries, outcomes, replies).attempts <= 1 + max_retries,
    decreases max_retries,
{
    if max_retries > 0 {
        law_retry_budget((max_retries - 1) as nat, outcomes.drop_first(), replies.drop_first());
    }
}

/// When every attempt fails, with whatever errors but a cancellation, and no hook
/// does, there are exactly `1 + max_retries` attempts, and the fallback decides on the
/// last error.
pub proof fn law_retry_exhausts<T>(
    max_retries: nat,
    outcomes: Seq<FlowResult<T>>,
    replies: Seq<FlowResult<()>>,
)
    requires
        outcomes.len() == max_retries + 1,
        replies.len() == max_retries,
        forall|i: int|
            0 <= i < outcomes.len() ==> (#[trigger] outcomes[i]) is Err && !(
            outcomes[i]->Err_0 is Aborted),
        forall|i: int| 0 <= i < replies.len() ==> (#[trigger] replies[i]) is Ok,
    ensures
        retry_run(max_retries, outcomes, replies) == (RetryRun {
            attempts: max_retries + 1,
            end: RetryEnd::<T>::Fallback(outcomes[max_retries as int]->Err_0),
        }),
    decreases max_retries,
{
    assert(all_retryable(outcomes, outcomes.len() as int));
    assert(all_ok(replies, replies.len() as int));
    lemma_retry_shift(outcomes, replies, outcomes.len() as int);
    if max_retries > 0 {
        lemma_all_retryable(outcomes.drop_first(), outcomes.len() - 1);
        law_retry_exhausts(
            (max_retries - 1) as nat,
            outcomes.drop_first(),
            replies.drop_first(),
        );
    }
}

/// The first attempt that succeeds or is cancelled is the last one, and its
/// outcome is the result: a cancellation is never retried.
pub proof fn law_retry_stops<T>(
    max_retries: nat,
    outcomes: Seq<FlowResult<T>>,
    replies: Seq<FlowResult<()>>,
    k: int,
)
    requires
        0 <= k <= max_retries,
        outcomes.len() > k,
        replies.len() >= k,
        forall|i: int|
            0 <= i < k ==> (#[trigger] outcomes[i]) is Err && !(outcomes[i]->Err_0 is Aborted),
        forall|i: int| 0 <= i < k ==> (#[trigger] replies[i]) is Ok,
        outcomes[k] is Ok || outcomes[k]->Err_0 is Aborted,
    ensures
        retry_run(max_retries, outcomes, replies) == (RetryRun {
            attempts: (k + 1) as nat,
            end: RetryEnd::Returned(outcomes[k]),
        }),
    decreases max_retries,
{
    if k > 0 {
        assert(all_retryable(outcomes, k));
        assert(all_ok(replies, k - 1));
        lemma_retry_shift(outcomes, replies, k);
        assert(replies[0] is Ok);
        let after = replies.drop_first();
        assert forall|i: int| 0 <= i < k - 1 implies (#[trigger] after[i]) is Ok by {
            assert(after[i] == replies[i + 1]);
        }
        let rest = outcomes.drop_first();
        assert(rest[k - 1] == outcomes[k]);
        lemma_all_retryable(rest, k - 1);
        law_retry_stops((max_retries - 1) as nat, rest, after, k - 1);
    }
}

/// A failing `on_retry` hook ends the loop with the hook's error.
pub proof fn law_retry_hook_error<T>(
    max_retries: nat,
    outcomes: Seq<FlowResult<T>>,
    replies: Seq<FlowResult<()>>,
    k: int,
)
    requires
        0 <= k < max_retries,
        outcomes.len() > k,
        replies.len() > k,
        forall|i: int|
            0 <= i <= k ==> (#[trigger] outcomes[i]) is Err && !(outcomes[i]->Err_0 is Aborted),
        forall|i: int| 0 <= i < k ==> (#[trigger] replies[i]) is Ok,
        replies[k] is Err,
    ensures
        retry_run(max_retries, outcomes, replies) == (RetryRun {
            attempts: (k + 1) as nat,
            end: RetryEnd::<T>::Returned(Err(replies[k]->Err_0)),
        }),
    decreases max_retries,
{
    assert(outcomes[0] is Err);
    if k > 0 {
        assert(replies[0] is Ok);
        let rest = outcomes.drop_first();
        let after = replies.drop_first();
        assert forall|i: int| 0 <= i <= k - 1 implies (#[trigger] rest[i]) is Err && !(
        rest[i]->Err_0 is Aborted) by {
            assert(rest[i] == outcomes[i + 1]);
        }
        assert forall|i: int| 0 <= i < k - 1 implies (#[trigger] after[i]) is Ok by {
            assert(after[i] == replies[i + 1]);
        }
        assert(after[k - 1] == replies[k]);
        law_retry_hook_error((max_retries - 1) as nat, rest, after, k - 1);
    }
}

/// The shared retry loop used by single-item and batch execution, about to make
/// an attempt. `max_retries` is the number of retries **after** the first
/// attempt.
pub struct Retrying<T> {
    attempt: u32,
    max_retries: u32,
    wait_ms: u64,
    outcomes: Ghost<Seq<FlowResult<T>>>,
    replies: Ghost<Seq<FlowResult<()>>>,
}

/// The shared retry loop before its first attempt. Cancellation
/// ([`FlowError::Aborted`]) is **never** retried: it propagates immediately so a
/// cancel doesn't burn the retry budget. After the final failure the fallback
/// decides the outcome.
pub fn retrying<T>(max_retries: u32, wait_ms: u64) -> (r: Retrying<T>)
    ensures
        r.is_new(max_retries as nat, wait_ms),
{
    Retrying {
        attempt: 0,
        max_retries,
        wait_ms,
        outcomes: Ghost(Seq::empty()),
        replies: Ghost(Seq::empty()),
    }
}

/// What follows an attempt.
pub enum AfterAttempt<T> {
    /// The loop ends with this result.
    Done(FlowResult<T>),
    /// The last attempt failed: the fallback decides the outcome.
    GiveUp(FlowError),
    /// Fire `on_retry`, and hand what came of it to [`Backoff::fired`].
    Retry(Backoff<T>),
}

/// A failed attempt that is to be made again.
pub struct Backoff<T> {
    error: FlowError,
    attempt: u32,
    max_retries: u32,
    wait_ms: u64,
    outcomes: Ghost<Seq<FlowResult<T>>>,
    replies: Ghost<Seq<FlowResult<()>>>,
}

/// The pause before the next attempt.
pub struct Pause<T> {
    /// How long to sleep, if at all.
    pub sleep_ms: Option<u64>,
    pub next: Retrying<T>,
}

impl<T> Retrying<T> {
    /// The number of retries after the first attempt.
    pub closed spec fn max_retries(self) -> nat {
        self.max_retries as nat
    }

    /// The pause between attempts.
    pub closed spec fn wait(self) -> u64 {
        self.wait_ms
    }

    /// How the attempts so far came out.
    pub closed spec fn outcomes(self) -> Seq<FlowResult<T>> {
        self.outcomes@
    }

    /// How the `on_retry` rounds so far came out.
    pub closed spec fn replies(self) -> Seq<FlowResult<()>> {
        self.replies@
    }

    pub closed spec fn wf(self) -> bool {
        &&& self.attempt <= self.max_retries
        &&& self.outcomes@.len() == self.attempt
        &&& self.replies@.len() == self.attempt
        &&& all_retryable(self.outcomes@, self.attempt as int)
        &&& all_ok(self.replies@, self.attempt as int)
    }

    /// The loop before its first attempt.
    pub open spec fn is_new(self, max_retries: nat, wait_ms: u64) -> bool {
        &&& self.wf()
        &&& self.max_retries() == max_retries
        &&& self.wait() == wait_ms
        &&& self.outcomes() == Seq::<FlowResult<T>>::empty()
        &&& self.replies() == Seq::<FlowResult<()>>::empty()
    }

    /// The attempt came out.
    pub fn settled(self, outcome: FlowResult<T>) -> (r: AfterAttempt<T>)
        requires
            self.wf(),
        ensures
            match r {
                AfterAttempt::Done(v) => {
                    &&& v == outcome
                    &&& !retryable(outcome)
                    &&& retry_run(self.max_retries(), self.outcomes().push(outcome), self.replies())
                        == (RetryRun {
                        attempts: self.outcomes().len() + 1,
                        end: RetryEnd::Returned(outcome),
                    })
                },
                AfterAttempt::GiveUp(e) => {
                    &&& retryable(outcome)
                    &&& outcome == Err::<T, FlowError>(e)
                    &&& self.outcomes().len() == self.max_retries()
                    &&& retry_run(self.max_retries(), self.outcomes().push(outcome), self.replies())
                        == (RetryRun {
                        attempts: self.max_retries() + 1,
                        end: RetryEnd::<T>::Fallback(e),
                    })
                },
                AfterAttempt::Retry(b) => {
                    &&& b.wf()
                    &&& retryable(outcome)
                    &&& outcome == Err::<T, FlowError>(b.failure())
                    &&& self.outcomes().len() < self.max_retries()
                    &&& b.max_retries() == self.max_retries()
                    &&& b.wait() == self.wait()
                    &&& b.outcomes() == self.outcomes().push(outcome)
                    &&& b.replies() == self.replies()
                },
            },
            r is Done <==> outcome is Ok || outcome->Err_0 is Aborted,
            r is Retry <==> outcome is Err && !(outcome->Err_0 is Aborted)
                && self.outcomes().len() < self.max_retries(),
    {
        let ghost outcomes = self.outcomes@.push(outcome);
        let ghost k = self.attempt as int;
        proof {
            assert forall|i: int| 0 <= i < k implies retryable(#[trigger] outcomes[i]) by {
                assert(outcomes[i] == self.outcomes@[i]);
            }
            lemma_all_retryable(outcomes, k);
            if !retryable(outcome) {
                law_retry_stops(self.max_retries as nat, outcomes, self.replies@, k);
            } else if self.attempt == self.max_retries {
                law_retry_exhausts(self.max_retries as nat, outcomes, self.replies@);
            }
        }
        match outcome {
            Ok(v) => AfterAttempt::Done(Ok(v)),
            Err(e) => {
                if e.is_aborted() {
                    AfterAttempt::Done(Err(e))
                } else if self.attempt == self.max_retries {
                    AfterAttempt::GiveUp(e)
                } else {
                    AfterAttempt::Retry(
                        Backoff {
                            error: e,
                            attempt: self.attempt,
                            max_retries: self.max_retries,
                            wait_ms: self.wait_ms,
                            outcomes: Ghost(outcomes),
                            replies: self.replies,
                        },
                    )
                }
            },
        }
    }
}

impl<T> Backoff<T> {
    pub closed spec fn failure(self) -> FlowError {
        self.error
    }

    pub closed spec fn max_retries(self) -> nat {
        self.max_retries as nat
    }

    pub closed spec fn wait(self) -> u64 {
        self.wait_ms
    }

    pub closed spec fn outcomes(self) -> Seq<FlowResult<T>> {
        self.outcomes@
    }

    pub closed spec fn replies(self) -> Seq<FlowResult<()>> {
        self.replies@
    }

    pub closed spec fn wf(self) -> bool {
        &&& self.attempt < self.max_retries
        &&& self.outcomes@.len() == self.attempt + 1
        &&& self.outcomes@.last() == Err::<T, FlowError>(self.error)
        &&& self.replies@.len() == self.attempt
        &&& all_retryable(self.outcomes@, self.attempt + 1)
        &&& all_ok(self.replies@, self.attempt as int)
    }

    /// What the `on_retry` hooks are told: the error, the number of the failed
    /// attempt (from `0`), and the pause.
    pub fn ctx<'a>(&'a self, node: NodeRef, shared: &'a Shared, path: &'a [String]) -> (r: RetryCtx<
        'a,
    >)
        requires
            self.wf(),
        ensures
            r.node == node,
            r.shared == shared,
            r.path == path,
            *r.error == self.failure(),
            r.attempt == self.outcomes().len() - 1,
            r.wait_ms == self.wait(),
    {
        RetryCtx {
            node,
            shared,
            path,
            error: &self.error,
            attempt: self.attempt,
            wait_ms: self.wait_ms,
        }
    }

    /// The `on_retry` round came out: its error ends the loop, otherwise the
    /// next attempt follows, after a pause where there is one to make.
    pub fn fired(self, reply: FlowResult<()>) -> (r: FlowResult<Pause<T>>)
        requires
            self.wf(),
        ensures
            match r {
                Ok(p) => {
                    &&& reply is Ok
                    &&& p.sleep_ms == (if self.wait() > 0 {
                        Some(self.wait())
                    } else {
                        None
                    })
                    &&& p.next.wf()
                    &&& p.next.max_retries() == self.max_retries()
                    &&& p.next.wait() == self.wait()
                    &&& p.next.outcomes() == self.outcomes()
                    &&& p.next.replies() == self.replies().push(reply)
                },
                Err(e) => {
                    &&& reply == Err::<(), FlowError>(e)
                    &&& retry_run(self.max_retries(), self.outcomes(), self.replies().push(reply))
                        == (RetryRun {
                        attempts: self.outcomes().len(),
                        end: RetryEnd::<T>::Returned(Err(e)),
                    })
                },
            },
    {
        let ghost replies = self.replies@.push(reply);
        let ghost k = self.attempt as int;
        proof {
            assert forall|i: int| 0 <= i < k implies (#[trigger] replies[i]) is Ok by {
                assert(replies[i] == self.replies@[i]);
            }
        }
        match reply {
            Ok(_) => {
                let sleep_ms = if self.wait_ms > 0 {
                    Some(self.wait_ms)
                } else {
                    None
                };
                let next = Retrying {
                    attempt: self.attempt + 1,
                    max_retries: self.max_retries,
                    wait_ms: self.wait_ms,
                    outcomes: self.outcomes,
                    replies: Ghost(replies),
                };
                Ok(Pause { sleep_ms, next })
            },
            Err(e) => {
                proof {
                    lemma_all_retryable(self.outcomes@, k + 1);
                    law_retry_hook_error(self.max_retries as nat, self.outcomes@, replies, k);
                }
                Err(e)
            },
        }
    }
}

} // verus!
