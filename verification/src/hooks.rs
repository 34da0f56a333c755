//! Cross-cutting hooks for tracing, logging, metrics, and error recovery: what
//! they are told, what they can decide, and how several hook sets compose.
//!
//! Side-effecting hooks (`on_start`/`on_node_end`/`on_retry`/`on_end`) fan out
//! in registration order; routing hooks are first-wins (`on_node_start`'s gate,
//! `on_error`'s route, and `on_error` short-circuits after the first `Some`).
//! A round hands out one hook at a time and takes back what it returned.

use vstd::prelude::*;

use crate::error::{FlowError, FlowResult};
use crate::types::{Action, HookRef, NodeRef, Shared};

verus! {

/// Context passed to per-node hooks.
pub struct NodeHookCtx<'a> {
    /// The node that is/about to run.
    pub node: NodeRef,
    /// The shared context (read-only).
    pub shared: &'a Shared,
    /// Ordered list of node names visited so far in this run (path tracing).
    pub path: &'a [String],
}

/// Context for `on_node_end`.
pub struct NodeEndCtx<'a> {
    pub node: NodeRef,
    pub shared: &'a Shared,
    pub path: &'a [String],
    /// The action the node produced (or a gating/routing one).
    pub action: &'a Action,
    /// Wall-clock duration of the node lifecycle.
    pub duration_ms: u64,
    /// True when an `on_node_start` gate skipped this node's lifecycle.
    pub skipped: bool,
    /// The error, when the node failed (after error policy was consulted).
    pub error: Option<&'a FlowError>,
}

/// Context for `on_retry`.
pub struct RetryCtx<'a> {
    pub node: NodeRef,
    pub shared: &'a Shared,
    pub path: &'a [String],
    pub error: &'a FlowError,
    pub attempt: u32,
    pub wait_ms: u64,
}

/// Context for `on_error`.
pub struct ErrorCtx<'a> {
    pub node: NodeRef,
    pub shared: &'a Shared,
    pub path: &'a [String],
    pub error: &'a FlowError,
}

/// What an `on_error` hook can decide.
#[derive(Debug, PartialEq, Eq)]
pub enum ErrorPolicy {
    /// Route to the successor wired for this action (`post()` is skipped).
    Route(String),
    /// Propagate the error (same as returning `None`).
    Throw,
}

impl Clone for ErrorPolicy {
    fn clone(&self) -> (r: Self)
        ensures
            r == *self,
    {
        match self {
            ErrorPolicy::Route(action) => ErrorPolicy::Route(action.clone()),
            ErrorPolicy::Throw => ErrorPolicy::Throw,
        }
    }
}

/// A round of calls to the hooks of a run: which hooks there are, and what the
/// ones called so far replied.
pub struct Round<T> {
    hooks: Vec<HookRef>,
    next: usize,
    replies: Ghost<Seq<FlowResult<T>>>,
}

impl<T> Round<T> {
    /// All hooks of the round, in registration order.
    pub closed spec fn hooks(self) -> Seq<HookRef> {
        self.hooks@
    }

    /// What the hooks called so far replied, in the order of the calls.
    pub closed spec fn replies(self) -> Seq<FlowResult<T>> {
        self.replies@
    }

    /// The hooks called so far and the one that is next.
    pub open spec fn asked(self) -> Seq<HookRef> {
        self.hooks().take(self.replies().len() as int + 1)
    }

    pub closed spec fn wf(self) -> bool {
        self.next == self.replies@.len() && self.replies@.len() <= self.hooks.len()
    }

    fn new(hooks: &Vec<HookRef>) -> (r: Self)
        ensures
            r.wf(),
            r.hooks() == hooks@,
            r.replies() == Seq::<FlowResult<T>>::empty(),
    {
        Round { hooks: hooks.clone(), next: 0, replies: Ghost(Seq::empty()) }
    }

    /// The first hook that was not called.
    fn current(&self) -> (r: Option<HookRef>)
        requires
            self.wf(),
        ensures
            match r {
                Some(h) => self.replies().len() < self.hooks().len() && h
                    == self.hooks()[self.replies().len() as int],
                None => self.replies().len() == self.hooks().len(),
            },
    {
        if self.next < self.hooks.len() {
            Some(self.hooks[self.next])
        } else {
            None
        }
    }

    fn noted(self, Ghost(reply): Ghost<FlowResult<T>>) -> (r: Self)
        requires
            self.wf(),
            self.replies().len() < self.hooks().len(),
        ensures
            r.wf(),
            r.hooks() == self.hooks(),
            r.replies() == self.replies().push(reply),
    {
        Round {
            hooks: self.hooks,
            next: self.next + 1,
            replies: Ghost(self.replies@.push(reply)),
        }
    }
}

/// `on_start`, `on_node_end`, `on_retry`, `on_end`: fan out in order, up to the
/// first error.
pub struct FanOut {
    round: Round<()>,
}

/// A fan-out that waits for the reply of a hook.
pub struct FanOutAsked {
    round: Round<()>,
}

/// What a fan-out does next.
pub enum FanOutStep {
    /// Call the hook, and hand its reply to [`FanOutAsked::returned`].
    Call { hook: HookRef, asked: FanOutAsked },
    /// Every hook was called.
    Done,
}

impl FanOut {
    pub closed spec fn round(self) -> Round<()> {
        self.round
    }

    pub closed spec fn wf(self) -> bool {
        self.round.wf() && forall|i: int|
            0 <= i < self.round.replies().len() ==> (#[trigger] self.round.replies()[i]) is Ok
    }

    /// The round before its first call.
    pub open spec fn is_new(self, hooks: Seq<HookRef>) -> bool {
        &&& self.wf()
        &&& self.round().hooks() == hooks
        &&& self.round().replies() == Seq::<FlowResult<()>>::empty()
    }

    fn new(hooks: &Vec<HookRef>) -> (r: Self)
        ensures
            r.is_new(hooks@),
    {
        FanOut { round: Round::new(hooks) }
    }

    /// The next hook, in registration order.
    pub fn step(self) -> (r: FanOutStep)
        requires
            self.wf(),
        ensures
            match r {
                FanOutStep::Call { hook, asked } => {
                    &&& asked.wf()
                    &&& asked.round() == self.round()
                    &&& self.round().replies().len() < self.round().hooks().len()
                    &&& hook == self.round().hooks()[self.round().replies().len() as int]
                },
                FanOutStep::Done => {
                    &&& self.round().replies().len() == self.round().hooks().len()
                    &&& fan_out_run(self.round().hooks(), self.round().replies()) == (Fired {
                        called: self.round().hooks(),
                        outcome: Ok(()),
                    })
                },
            },
    {
        match self.round.current() {
            Some(hook) => FanOutStep::Call { hook, asked: FanOutAsked { round: self.round } },
            None => {
                proof {
                    law_fan_out_in_order(self.round.hooks(), self.round.replies());
                }
                FanOutStep::Done
            },
        }
    }
}

impl FanOutAsked {
    pub closed spec fn round(self) -> Round<()> {
        self.round
    }

    pub closed spec fn wf(self) -> bool {
        &&& self.round.wf()
        &&& self.round.replies().len() < self.round.hooks().len()
        &&& forall|i: int|
            0 <= i < self.round.replies().len() ==> (#[trigger] self.round.replies()[i]) is Ok
    }

    /// What the hook returned: an error ends the round.
    pub fn returned(self, reply: FlowResult<()>) -> (r: FlowResult<FanOut>)
        requires
            self.wf(),
        ensures
            match r {
                Ok(f) => {
                    &&& reply is Ok
                    &&& f.wf()
                    &&& f.round().hooks() == self.round().hooks()
                    &&& f.round().replies() == self.round().replies().push(reply)
                },
                Err(e) => {
                    &&& reply == Err::<(), FlowError>(e)
                    &&& fan_out_run(self.round().hooks(), self.round().replies().push(reply)) == (
                    Fired {
                        called: self.round().asked(),
                        outcome: reply,
                    })
                },
            },
    {
        match reply {
            Ok(_) => Ok(FanOut { round: self.round.noted(Ghost(reply)) }),
            Err(e) => {
                proof {
                    let replies = self.round.replies().push(reply);
                    law_fan_out_stops_at_error(
                        self.round.hooks(),
                        replies,
                        self.round.replies().len() as int,
                    );
                }
                Err(e)
            },
        }
    }
}

/// `on_start`: fan out in order.
pub fn fire_on_start(hooks: &Vec<HookRef>) -> (r: FanOut)
    ensures
        r.is_new(hooks@),
{
    FanOut::new(hooks)
}

/// `on_node_end`: fan out in order.
pub fn fire_on_node_end(hooks: &Vec<HookRef>) -> (r: FanOut)
    ensures
        r.is_new(hooks@),
{
    FanOut::new(hooks)
}

/// `on_retry`: fan out in order.
pub fn fire_on_retry(hooks: &Vec<HookRef>) -> (r: FanOut)
    ensures
        r.is_new(hooks@),
{
    FanOut::new(hooks)
}

/// `on_end`: fan out in order.
pub fn fire_on_end(hooks: &Vec<HookRef>) -> (r: FanOut)
    ensures
        r.is_new(hooks@),
{
    FanOut::new(hooks)
}

/// A round of `on_node_start`: all hooks run (side effects); the first
/// non-`None` gate wins.
pub struct GateRound {
    round: Round<Action>,
    gate: Action,
}

/// A gate round that waits for the reply of a hook.
pub struct GateAsked {
    round: Round<Action>,
    gate: Action,
}

/// What a gate round does next.
pub enum GateStep {
    /// Call the hook, and hand its reply to [`GateAsked::returned`].
    Call { hook: HookRef, asked: GateAsked },
    /// Every hook was called: the gating action, if any of them set one.
    Done(Action),
}

/// The action that the replies gate with: that of the first reply with one.
spec fn gate_of(gate: Action, replies: Seq<FlowResult<Action>>) -> Action
    decreases replies.len(),
{
    if replies.len() == 0 {
        gate
    } else {
        let before = gate_of(gate, replies.drop_last());
        if before is None {
            replies.last()->Ok_0
        } else {
            before
        }
    }
}

spec fn gate_round_ok(round: Round<Action>, gate: Action) -> bool {
    &&& round.wf()
    &&& forall|i: int| 0 <= i < round.replies().len() ==> (#[trigger] round.replies()[i]) is Ok
    &&& gate == gate_of(None, round.replies())
}

impl GateRound {
    pub closed spec fn round(self) -> Round<Action> {
        self.round
    }

    pub closed spec fn wf(self) -> bool {
        gate_round_ok(self.round, self.gate)
    }

    /// The round before its first call.
    pub open spec fn is_new(self, hooks: Seq<HookRef>) -> bool {
        &&& self.wf()
        &&& self.round().hooks() == hooks
        &&& self.round().replies() == Seq::<FlowResult<Action>>::empty()
    }

    /// The next hook, in registration order; after the last one, what they gate with.
    pub fn step(self) -> (r: GateStep)
        requires
            self.wf(),
        ensures
            match r {
                GateStep::Call { hook, asked } => {
                    &&& asked.wf()
                    &&& asked.round() == self.round()
                    &&& self.round().replies().len() < self.round().hooks().len()
                    &&& hook == self.round().hooks()[self.round().replies().len() as int]
                },
                GateStep::Done(gate) => {
                    &&& self.round().replies().len() == self.round().hooks().len()
                    &&& gate_run(self.round().hooks(), None, self.round().replies()) == (Fired {
                        called: self.round().hooks(),
                        outcome: Ok(gate),
                    })
                },
            },
    {
        match self.round.current() {
            Some(hook) => GateStep::Call {
                hook,
                asked: GateAsked { round: self.round, gate: self.gate },
            },
            None => {
                proof {
                    lemma_gate_run(self.round.hooks(), None, self.round.replies());
                }
                GateStep::Done(self.gate)
            },
        }
    }
}

impl GateAsked {
    pub closed spec fn round(self) -> Round<Action> {
        self.round
    }

    pub closed spec fn wf(self) -> bool {
        gate_round_ok(self.round, self.gate) && self.round.replies().len()
            < self.round.hooks().len()
    }

    /// What the hook returned: the first gate stays, an error ends the round.
    pub fn returned(self, reply: FlowResult<Action>) -> (r: FlowResult<GateRound>)
        requires
            self.wf(),
        ensures
            match r {
                Ok(f) => {
                    &&& reply is Ok
                    &&& f.wf()
                    &&& f.round().hooks() == self.round().hooks()
                    &&& f.round().replies() == self.round().replies().push(reply)
                },
                Err(e) => {
                    &&& reply == Err::<Action, FlowError>(e)
                    &&& gate_run(self.round().hooks(), None, self.round().replies().push(reply))
                        == (Fired {
                        called: self.round().asked(),
                        outcome: reply,
                    })
                },
            },
    {
        let ghost replies = self.round.replies().push(reply);
        assert(replies.drop_last() =~= self.round.replies());
        match reply {
            Ok(a) => {
                let round = self.round.noted(Ghost(reply));
                let gate = match self.gate {
                    Some(g) => Some(g),
                    None => a,
                };
                Ok(GateRound { round, gate })
            },
            Err(e) => {
                proof {
                    law_gate_round_stops_at_error(
                        self.round.hooks(),
                        None,
                        replies,
                        self.round.replies().len() as int,
                    );
                }
                Err(e)
            },
        }
    }
}

/// `on_node_start`: all hooks run (side effects); the first non-`None` gate
/// wins.
pub fn fire_on_node_start(hooks: &Vec<HookRef>) -> (r: GateRound)
    ensures
        r.is_new(hooks@),
{
    GateRound { round: Round::new(hooks), gate: None }
}

/// A round of `on_error`: the first `Some` wins **and short-circuits** (later
/// hooks do not run).
pub struct ErrorRound {
    round: Round<Option<ErrorPolicy>>,
}

/// An error round that waits for the reply of a hook.
pub struct ErrorAsked {
    round: Round<Option<ErrorPolicy>>,
}

/// What an error round does next.
pub enum ErrorStep {
    /// Call the hook, and hand its reply to [`ErrorAsked::returned`].
    Call { hook: HookRef, asked: ErrorAsked },
    /// No hook decided anything.
    Done,
}

/// Where an error round stands after a hook.
pub enum ErrorReply {
    /// The hook decided.
    Decided(ErrorPolicy),
    /// It did not: the other hooks are next.
    Next(ErrorRound),
}

spec fn error_round_ok(round: Round<Option<ErrorPolicy>>) -> bool {
    &&& round.wf()
    &&& forall|i: int|
        0 <= i < round.replies().len() ==> (#[trigger] round.replies()[i]) == Ok::<
            Option<ErrorPolicy>,
            FlowError,
        >(None)
}

impl ErrorRound {
    pub closed spec fn round(self) -> Round<Option<ErrorPolicy>> {
        self.round
    }

    pub closed spec fn wf(self) -> bool {
        error_round_ok(self.round)
    }

    /// The round before its first call.
    pub open spec fn is_new(self, hooks: Seq<HookRef>) -> bool {
        &&& self.wf()
        &&& self.round().hooks() == hooks
        &&& self.round().replies() == Seq::<FlowResult<Option<ErrorPolicy>>>::empty()
    }

    /// The next hook, in registration order.
    pub fn step(self) -> (r: ErrorStep)
        requires
            self.wf(),
        ensures
            match r {
                ErrorStep::Call { hook, asked } => {
                    &&& asked.wf()
                    &&& asked.round() == self.round()
                    &&& self.round().replies().len() < self.round().hooks().len()
                    &&& hook == self.round().hooks()[self.round().replies().len() as int]
                },
                ErrorStep::Done => {
                    &&& self.round().replies().len() == self.round().hooks().len()
                    &&& error_run(self.round().hooks(), self.round().replies()) == (Fired {
                        called: self.round().hooks(),
                        outcome: Ok(None::<ErrorPolicy>),
                    })
                },
            },
    {
        match self.round.current() {
            Some(hook) => ErrorStep::Call { hook, asked: ErrorAsked { round: self.round } },
            None => {
                proof {
                    let hooks = self.round.hooks();
                    law_first_policy_wins(hooks, self.round.replies(), hooks.len() as int);
                    assert(hooks.take(hooks.len() as int) =~= hooks);
                }
                ErrorStep::Done
            },
        }
    }
}

impl ErrorAsked {
    pub closed spec fn round(self) -> Round<Option<ErrorPolicy>> {
        self.round
    }

    pub closed spec fn wf(self) -> bool {
        error_round_ok(self.round) && self.round.replies().len() < self.round.hooks().len()
    }

    /// What the hook returned: a decision or an error ends the round.
    pub fn returned(self, reply: FlowResult<Option<ErrorPolicy>>) -> (r: FlowResult<ErrorReply>)
        requires
            self.wf(),
        ensures
            match r {
                Ok(ErrorReply::Next(f)) => {
                    &&& reply == Ok::<Option<ErrorPolicy>, FlowError>(None)
                    &&& f.wf()
                    &&& f.round().hooks() == self.round().hooks()
                    &&& f.round().replies() == self.round().replies().push(reply)
                },
                Ok(ErrorReply::Decided(p)) => {
                    &&& reply == Ok::<Option<ErrorPolicy>, FlowError>(Some(p))
                    &&& error_run(self.round().hooks(), self.round().replies().push(reply)) == (
                    Fired {
                        called: self.round().asked(),
                        outcome: reply,
                    })
                },
                Err(e) => {
                    &&& reply == Err::<Option<ErrorPolicy>, FlowError>(e)
                    &&& error_run(self.round().hooks(), self.round().replies().push(reply)) == (
                    Fired {
                        called: self.round().asked(),
                        outcome: reply,
                    })
                },
            },
    {
        proof {
            if reply != Ok::<Option<ErrorPolicy>, FlowError>(None) {
                law_first_policy_wins(
                    self.round.hooks(),
                    self.round.replies().push(reply),
                    self.round.replies().len() as int,
                );
            }
        }
        match reply {
            Ok(Some(p)) => Ok(ErrorReply::Decided(p)),
            Ok(None) => Ok(ErrorReply::Next(ErrorRound { round: self.round.noted(Ghost(reply)) })),
            Err(e) => Err(e),
        }
    }
}

/// `on_error`: first `Some` wins **and short-circuits** (later hooks do not run).
pub fn fire_on_error(hooks: &Vec<HookRef>) -> (r: ErrorRound)
    ensures
        r.is_new(hooks@),
{
    ErrorRound { round: Round::new(hooks) }
}

/// How a round of hooks ends: which hooks were called, and what came of it.
pub struct Fired<T> {
    pub called: Seq<HookRef>,
    pub outcome: FlowResult<T>,
}

/// A fan-out whose hooks give these replies, in turn.
pub open spec fn fan_out_run(hooks: Seq<HookRef>, replies: Seq<FlowResult<()>>) -> Fired<()>
    decreases hooks.len(),
{
    if hooks.len() == 0 {
        Fired { called: Seq::empty(), outcome: Ok(()) }
    } else {
        match replies[0] {
            Ok(_) => {
                let rest = fan_out_run(hooks.drop_first(), replies.drop_first());
                Fired { called: seq![hooks[0]] + rest.called, outcome: rest.outcome }
            },
            Err(e) => Fired { called: seq![hooks[0]], outcome: Err(e) },
        }
    }
}

/// A gate round whose hooks give these replies, in turn.
pub open spec fn gate_run(
    hooks: Seq<HookRef>,
    gate: Action,
    replies: Seq<FlowResult<Action>>,
) -> Fired<Action>
    decreases hooks.len(),
{
    if hooks.len() == 0 {
        Fired { called: Seq::empty(), outcome: Ok(gate) }
    } else {
        match replies[0] {
            Ok(a) => {
                let next = if gate is None {
                    a
                } else {
                    gate
                };
                let rest = gate_run(hooks.drop_first(), next, replies.drop_first());
                Fired { called: seq![hooks[0]] + rest.called, outcome: rest.outcome }
            },
            Err(e) => Fired { called: seq![hooks[0]], outcome: Err(e) },
        }
    }
}

/// An error round whose hooks give these replies, in turn.
pub open spec fn error_run(
    hooks: Seq<HookRef>,
    replies: Seq<FlowResult<Option<ErrorPolicy>>>,
) -> Fired<Option<ErrorPolicy>>
    decreases hooks.len(),
{
    if hooks.len() == 0 {
        Fired { called: Seq::empty(), outcome: Ok(None) }
    } else {
        match replies[0] {
            Ok(Some(p)) => Fired { called: seq![hooks[0]], outcome: Ok(Some(p)) },
            Ok(None) => {
                let rest = error_run(hooks.drop_first(), replies.drop_first());
                Fired { called: seq![hooks[0]] + rest.called, outcome: rest.outcome }
            },
            Err(e) => Fired { called: seq![hooks[0]], outcome: Err(e) },
        }
    }
}

/// Side-effecting hooks fan out in registration order: where none fails, every
/// hook is called once, in order.
pub proof fn law_fan_out_in_order(hooks: Seq<HookRef>, replies: Seq<FlowResult<()>>)
    requires
        replies.len() == hooks.len(),
        forall|i: int| 0 <= i < replies.len() ==> (#[trigger] replies[i]) is Ok,
    ensures
        fan_out_run(hooks, replies).called == hooks,
        fan_out_run(hooks, replies).outcome == Ok::<(), FlowError>(()),
    decreases hooks.len(),
{
    if hooks.len() > 0 {
        assert(replies[0] is Ok);
        let rest = replies.drop_first();
        assert forall|i: int| 0 <= i < rest.len() implies (#[trigger] rest[i]) is Ok by {
            assert(rest[i] == replies[i + 1]);
        }
        law_fan_out_in_order(hooks.drop_first(), rest);
        assert(seq![hooks[0]] + hooks.drop_first() =~= hooks);
    } else {
        assert(fan_out_run(hooks, replies).called =~= hooks);
    }
}

/// The first failing hook ends a fan-out: its error comes out, and no hook
/// behind it is called.
pub proof fn law_fan_out_stops_at_error(
    hooks: Seq<HookRef>,
    replies: Seq<FlowResult<()>>,
    k: int,
)
    requires
        0 <= k < hooks.len(),
        k < replies.len(),
        forall|i: int| 0 <= i < k ==> (#[trigger] replies[i]) is Ok,
        replies[k] is Err,
    ensures
        fan_out_run(hooks, replies).called == hooks.take(k + 1),
        fan_out_run(hooks, replies).outcome == replies[k],
    decreases hooks.len(),
{
    if k == 0 {
        assert(seq![hooks[0]] =~= hooks.take(1));
    } else {
        assert(replies[0] is Ok);
        let rest = replies.drop_first();
        assert forall|i: int| 0 <= i < k - 1 implies (#[trigger] rest[i]) is Ok by {
            assert(rest[i] == replies[i + 1]);
        }
        law_fan_out_stops_at_error(hooks.drop_first(), rest, k - 1);
        assert(seq![hooks[0]] + hooks.drop_first().take(k) =~= hooks.take(k + 1));
    }
}

/// The first hook that gates a node wins, and all hooks run none the less.
pub proof fn law_first_gate_wins(
    hooks: Seq<HookRef>,
    replies: Seq<FlowResult<Action>>,
    k: int,
)
    requires
        replies.len() == hooks.len(),
        0 <= k <= hooks.len(),
        forall|i: int| 0 <= i < replies.len() ==> (#[trigger] replies[i]) is Ok,
        forall|i: int| 0 <= i < k ==> (#[trigger] replies[i])->Ok_0 is None,
        k < hooks.len() ==> replies[k]->Ok_0 is Some,
    ensures
        gate_run(hooks, None, replies).called == hooks,
        gate_run(hooks, None, replies).outcome == (if k < hooks.len() {
            replies[k]
        } else {
            Ok(None)
        }),
    decreases hooks.len(),
{
    if hooks.len() > 0 {
        assert(replies[0] is Ok);
        let rest = replies.drop_first();
        assert forall|i: int| 0 <= i < rest.len() implies (#[trigger] rest[i]) is Ok by {
            assert(rest[i] == replies[i + 1]);
        }
        if k == 0 {
            lemma_set_gate_stays(hooks.drop_first(), replies[0]->Ok_0, rest);
        } else {
            assert(replies[0]->Ok_0 is None);
            assert forall|i: int| 0 <= i < k - 1 implies (#[trigger] rest[i])->Ok_0 is None by {
                assert(rest[i] == replies[i + 1]);
            }
            law_first_gate_wins(hooks.drop_first(), rest, k - 1);
        }
        assert(seq![hooks[0]] + hooks.drop_first() =~= hooks);
    } else {
        assert(gate_run(hooks, None, replies).called =~= hooks);
    }
}

proof fn lemma_set_gate_stays(
    hooks: Seq<HookRef>,
    gate: Action,
    replies: Seq<FlowResult<Action>>,
)
    requires
        gate is Some,
        replies.len() == hooks.len(),
        forall|i: int| 0 <= i < replies.len() ==> (#[trigger] replies[i]) is Ok,
    ensures
        gate_run(hooks, gate, replies).called == hooks,
        gate_run(hooks, gate, replies).outcome == Ok::<Action, FlowError>(gate),
    decreases hooks.len(),
{
    if hooks.len() > 0 {
        assert(replies[0] is Ok);
        let rest = replies.drop_first();
        assert forall|i: int| 0 <= i < rest.len() implies (#[trigger] rest[i]) is Ok by {
            assert(rest[i] == replies[i + 1]);
        }
        lemma_set_gate_stays(hooks.drop_first(), gate, rest);
        assert(seq![hooks[0]] + hooks.drop_first() =~= hooks);
    } else {
        assert(gate_run(hooks, gate, replies).called =~= hooks);
    }
}

proof fn lemma_gate_run(hooks: Seq<HookRef>, gate: Action, replies: Seq<FlowResult<Action>>)
    requires
        replies.len() == hooks.len(),
        forall|i: int| 0 <= i < replies.len() ==> (#[trigger] replies[i]) is Ok,
    ensures
        gate_run(hooks, gate, replies).called == hooks,
        gate_run(hooks, gate, replies).outcome == Ok::<Action, FlowError>(gate_of(gate, replies)),
    decreases hooks.len(),
{
    if hooks.len() > 0 {
        assert(replies[0] is Ok);
        let next = if gate is None {
            replies[0]->Ok_0
        } else {
            gate
        };
        let rest = replies.drop_first();
        assert forall|i: int| 0 <= i < rest.len() implies (#[trigger] rest[i]) is Ok by {
            assert(rest[i] == replies[i + 1]);
        }
        lemma_gate_run(hooks.drop_first(), next, rest);
        lemma_gate_of_first(gate, replies);
        assert(seq![hooks[0]] + hooks.drop_first() =~= hooks);
    } else {
        assert(gate_run(hooks, gate, replies).called =~= hooks);
    }
}

proof fn lemma_gate_of_first(gate: Action, replies: Seq<FlowResult<Action>>)
    requires
        replies.len() > 0,
    ensures
        gate_of(gate, replies) == gate_of(
            if gate is None {
                replies[0]->Ok_0
            } else {
                gate
            },
            replies.drop_first(),
        ),
    decreases replies.len(),
{
    reveal_with_fuel(gate_of, 2);
    if replies.len() > 1 {
        lemma_gate_of_first(gate, replies.drop_last());
        assert(replies.drop_last().drop_first() =~= replies.drop_first().drop_last());
    } else {
        assert(replies.drop_last() =~= Seq::<FlowResult<Action>>::empty());
    }
}

/// A failing `on_node_start` hook ends the round: its error comes out, and no
/// hook behind it is called.
pub proof fn law_gate_round_stops_at_error(
    hooks: Seq<HookRef>,
    gate: Action,
    replies: Seq<FlowResult<Action>>,
    k: int,
)
    requires
        0 <= k < hooks.len(),
        k < replies.len(),
        forall|i: int| 0 <= i < k ==> (#[trigger] replies[i]) is Ok,
        replies[k] is Err,
    ensures
        gate_run(hooks, gate, replies).called == hooks.take(k + 1),
        gate_run(hooks, gate, replies).outcome == replies[k],
    decreases hooks.len(),
{
    if k == 0 {
        assert(seq![hooks[0]] =~= hooks.take(1));
    } else {
        assert(replies[0] is Ok);
        let next = if gate is None {
            replies[0]->Ok_0
        } else {
            gate
        };
        let rest = replies.drop_first();
        assert forall|i: int| 0 <= i < k - 1 implies (#[trigger] rest[i]) is Ok by {
            assert(rest[i] == replies[i + 1]);
        }
        law_gate_round_stops_at_error(hooks.drop_first(), next, rest, k - 1);
        assert(seq![hooks[0]] + hooks.drop_first().take(k) =~= hooks.take(k + 1));
    }
}

/// `on_error` is first-wins and short-circuits: the hooks are asked in order up
/// to the first one that decides or fails, whose reply comes out.
pub proof fn law_first_policy_wins(
    hooks: Seq<HookRef>,
    replies: Seq<FlowResult<Option<ErrorPolicy>>>,
    k: int,
)
    requires
        0 <= k <= hooks.len(),
        k <= replies.len(),
        k < hooks.len() ==> k < replies.len(),
        forall|i: int|
            0 <= i < k ==> (#[trigger] replies[i]) == Ok::<Option<ErrorPolicy>, FlowError>(None),
        k < hooks.len() ==> replies[k] != Ok::<Option<ErrorPolicy>, FlowError>(None),
    ensures
        error_run(hooks, replies).called == hooks.take(
            if k < hooks.len() {
                k + 1
            } else {
                k
            },
        ),
        error_run(hooks, replies).outcome == (if k < hooks.len() {
            replies[k]
        } else {
            Ok(None)
        }),
    decreases hooks.len(),
{
    if hooks.len() == 0 {
        assert(error_run(hooks, replies).called =~= hooks.take(0));
    } else if k == 0 {
        assert(seq![hooks[0]] =~= hooks.take(1));
    } else {
        assert(replies[0] == Ok::<Option<ErrorPolicy>, FlowError>(None));
        let rest = replies.drop_first();
        assert forall|i: int| 0 <= i < k - 1 implies (#[trigger] rest[i]) == Ok::<
            Option<ErrorPolicy>,
            FlowError,
        >(None) by {
            assert(rest[i] == replies[i + 1]);
        }
        law_first_policy_wins(hooks.drop_first(), rest, k - 1);
        let m = if k < hooks.len() {
            k + 1
        } else {
            k
        };
        assert(seq![hooks[0]] + hooks.drop_first().take(m - 1) =~= hooks.take(m));
    }
}

} // verus!
