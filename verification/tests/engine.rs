//! Whole runs, driven step by step: a driver that carries out what the library
//! asks for, one call after the other, and scenarios that run through it. Items
//! that run several at a time come out in reverse, unless a scenario asks for them
//! in order.

use focket_rs::batch_flow::{bundle_shareds, AfterBundle, BundlePlan, BundleStep};
use focket_rs::flow::{close_nested, open_nested, open_run, orchestrate, Finishing, Scope, Traversal, Visit};
use focket_rs::fork_join::{branch_path, branch_shareds, joined_slots};
use focket_rs::hooks::{ErrorReply, ErrorStep, FanOut, FanOutStep, GateStep};
use focket_rs::internal::{isolated, race_entry, race_work, AfterAttempt, Retrying};
use focket_rs::node::{
    bare_run, begin_work, exec_with_retry, gather, run_lifecycle, ExecPlan, Phase, WorkStep,
};
use focket_rs::pool::{Pool, Unit};
use focket_rs::subflow::sub_run;
use focket_rs::{
    fire_on_end, fire_on_error, fire_on_node_end, fire_on_node_start, fire_on_retry,
    fire_on_start, Action, BatchFlow, Budget, CancellationToken, CloneMemo, ErrorCtx, ErrorPolicy,
    Flow, FlowError, FlowNode, FlowResult, ForkJoin, Graph, HookRef, NodeCore, NodeEndCtx,
    NodeHookCtx, NodeOpts, NodeRef, OpsRef, Params, RetryCtx, SharedCloner, Subflow,
};
use serde_json::Value;
use std::cell::{Cell, RefCell};
use std::collections::HashMap;
use std::rc::Rc;

/* ------------------------------- the driver ------------------------------- */

type Res<T> = FlowResult<T>;

fn j(text: &str) -> Value {
    serde_json::from_str(text).unwrap()
}

/// What a node's code sees of its node.
struct Cx {
    params: Params,
    signal: Option<CancellationToken>,
}

impl Cx {
    fn param(&self, key: &str) -> Value {
        self.params.get(key).cloned().unwrap_or(Value::Null)
    }
}

/// A node's code.
struct Code {
    prep: Box<dyn Fn(&Cx, &mut Value) -> Res<Value>>,
    exec: Box<dyn Fn(&Cx, &Value) -> Res<Value>>,
    post: Box<dyn Fn(&Cx, &mut Value, &Value, &Value) -> Res<Action>>,
    fallback: Box<dyn Fn(&Value, FlowError) -> Res<Value>>,
    item: Box<dyn Fn(&Value, &CancellationToken) -> Res<Value>>,
    item_fallback: Box<dyn Fn(&Value, FlowError) -> Res<Value>>,
    /// The work never finishes by itself.
    hangs: bool,
}

fn code() -> Code {
    Code {
        prep: Box::new(|_, _| Ok(Value::Null)),
        exec: Box::new(|_, _| Ok(Value::Null)),
        post: Box::new(|_, _, _, _| Ok(None)),
        fallback: Box::new(|_, e| Err(e)),
        item: Box::new(|_, _| Ok(Value::Null)),
        item_fallback: Box::new(|_, e| Err(e)),
        hangs: false,
    }
}

impl Code {
    fn prep(mut self, f: impl Fn(&Cx, &mut Value) -> Res<Value> + 'static) -> Self {
        self.prep = Box::new(f);
        self
    }
    fn exec(mut self, f: impl Fn(&Cx, &Value) -> Res<Value> + 'static) -> Self {
        self.exec = Box::new(f);
        self
    }
    fn post(
        mut self,
        f: impl Fn(&Cx, &mut Value, &Value, &Value) -> Res<Action> + 'static,
    ) -> Self {
        self.post = Box::new(f);
        self
    }
    fn fallback(mut self, f: impl Fn(&Value, FlowError) -> Res<Value> + 'static) -> Self {
        self.fallback = Box::new(f);
        self
    }
    fn item(mut self, f: impl Fn(&Value, &CancellationToken) -> Res<Value> + 'static) -> Self {
        self.item = Box::new(f);
        self
    }
    fn item_fallback(mut self, f: impl Fn(&Value, FlowError) -> Res<Value> + 'static) -> Self {
        self.item_fallback = Box::new(f);
        self
    }
    fn hangs(mut self) -> Self {
        self.hangs = true;
        self
    }
}

/// A hook set. The node hooks get the node's name first.
struct Hook {
    on_start: Box<dyn Fn() -> Res<()>>,
    on_node_start: Box<dyn Fn(&str, NodeHookCtx) -> Res<Action>>,
    on_node_end: Box<dyn Fn(&str, NodeEndCtx) -> Res<()>>,
    on_retry: Box<dyn Fn(RetryCtx) -> Res<()>>,
    on_error: Box<dyn Fn(&str, ErrorCtx) -> Res<Option<ErrorPolicy>>>,
    on_end: Box<dyn Fn(&Action) -> Res<()>>,
}

fn hook() -> Hook {
    Hook {
        on_start: Box::new(|| Ok(())),
        on_node_start: Box::new(|_, _| Ok(None)),
        on_node_end: Box::new(|_, _| Ok(())),
        on_retry: Box::new(|_| Ok(())),
        on_error: Box::new(|_, _| Ok(None)),
        on_end: Box::new(|_| Ok(())),
    }
}

impl Hook {
    fn start(mut self, f: impl Fn() -> Res<()> + 'static) -> Self {
        self.on_start = Box::new(f);
        self
    }
    fn node_start(mut self, f: impl Fn(&str, NodeHookCtx) -> Res<Action> + 'static) -> Self {
        self.on_node_start = Box::new(f);
        self
    }
    fn node_end(mut self, f: impl Fn(&str, NodeEndCtx) -> Res<()> + 'static) -> Self {
        self.on_node_end = Box::new(f);
        self
    }
    fn retry(mut self, f: impl Fn(RetryCtx) -> Res<()> + 'static) -> Self {
        self.on_retry = Box::new(f);
        self
    }
    fn error(
        mut self,
        f: impl Fn(&str, ErrorCtx) -> Res<Option<ErrorPolicy>> + 'static,
    ) -> Self {
        self.on_error = Box::new(f);
        self
    }
    fn end(mut self, f: impl Fn(&Action) -> Res<()> + 'static) -> Self {
        self.on_end = Box::new(f);
        self
    }
}

/// Overrides of the node kinds, as far as a scenario needs them.
struct Ops {
    prep: Box<dyn Fn(&mut Value) -> Res<Value>>,
    flow_post: Box<dyn Fn(&Action) -> Res<Action>>,
    merge: Box<dyn Fn(&mut Value, &[Value]) -> Res<()>>,
    batch_post: Box<dyn Fn(&mut Value, &[Value]) -> Res<Action>>,
    derive: Option<Box<dyn Fn(&Value) -> Res<Value>>>,
    reduce: Box<dyn Fn(&Value, &mut Value) -> Res<()>>,
    make_branches: Option<Box<dyn Fn(&Value) -> Vec<NodeRef>>>,
    join: Box<dyn Fn(&mut Value, &[Option<Value>]) -> Res<()>>,
    fallback: Box<dyn Fn(&Value, FlowError) -> Res<Value>>,
}

fn ops() -> Ops {
    Ops {
        prep: Box::new(|_| Ok(Value::Null)),
        flow_post: Box::new(|a| Ok(a.clone())),
        merge: Box::new(|_, _| Ok(())),
        batch_post: Box::new(|_, _| Ok(None)),
        derive: None,
        reduce: Box::new(|_, _| Ok(())),
        make_branches: None,
        join: Box::new(|_, _| Ok(())),
        fallback: Box::new(|_, e| Err(e)),
    }
}

type Copier = Box<dyn Fn(&Value) -> Value>;

struct Engine {
    graph: RefCell<Graph>,
    code: RefCell<HashMap<NodeRef, Rc<Code>>>,
    hooks: RefCell<Vec<Rc<Hook>>>,
    ops: RefCell<Vec<Rc<Ops>>>,
    copiers: RefCell<Vec<Rc<Copier>>>,
    warnings: RefCell<Vec<String>>,
    in_order: Cell<bool>,
}

struct Site<'a> {
    node: NodeRef,
    hooks: &'a Vec<HookRef>,
    path: &'a Vec<String>,
    signal: &'a CancellationToken,
}

fn engine() -> Engine {
    Engine {
        graph: RefCell::new(Graph::new()),
        code: RefCell::new(HashMap::new()),
        hooks: RefCell::new(vec![]),
        ops: RefCell::new(vec![]),
        copiers: RefCell::new(vec![]),
        warnings: RefCell::new(vec![]),
        in_order: Cell::new(false),
    }
}

fn named(name: &str) -> NodeCore {
    NodeCore::named(name.to_string())
}

fn drain<T>(
    in_order: bool,
    mut pool: Pool<T>,
    f: &dyn Fn(usize, &CancellationToken) -> Res<T>,
) -> Res<Vec<Option<T>>> {
    let signal = pool.signal();
    loop {
        let mut open = vec![];
        for _ in 0..pool.workers() {
            assert!(pool.has_room());
            if let Some(t) = pool.claim() {
                open.push(t);
            }
        }
        if open.is_empty() {
            return pool.finish();
        }
        if in_order {
            open.reverse();
        }
        while let Some(t) = open.pop() {
            let r = match race_entry(signal.is_cancelled()) {
                Ok(()) => f(t.index(), &signal),
                Err(e) => Err(e),
            };
            if let Some(siblings) = pool.settle(t, r) {
                siblings.cancel();
            }
        }
    }
}

impl Engine {
    fn put(&self, node: FlowNode) -> NodeRef {
        assert!(self.graph.borrow().admits(&node));
        self.graph.borrow_mut().add(node)
    }

    fn add(&self, c: NodeCore, code: Code) -> NodeRef {
        let id = self.put(FlowNode::Node(c));
        self.code.borrow_mut().insert(id, Rc::new(code));
        id
    }

    /// Gives the copies of cloned nodes their code.
    fn adopt(&self, copies: &CloneMemo) {
        for (from, to) in copies {
            let c = self.code.borrow().get(from).cloned();
            if let Some(c) = c {
                self.code.borrow_mut().insert(*to, c);
            }
        }
    }

    fn flow(&self, f: Flow) -> NodeRef {
        self.put(FlowNode::Flow(f))
    }

    fn batch(&self, f: BatchFlow) -> NodeRef {
        self.put(FlowNode::BatchFlow(f))
    }

    fn sub(&self, s: Subflow) -> NodeRef {
        self.put(FlowNode::Subflow(s))
    }

    fn fork(&self, f: ForkJoin) -> NodeRef {
        self.put(FlowNode::ForkJoin(f))
    }

    fn hook(&self, h: Hook) -> HookRef {
        self.hooks.borrow_mut().push(Rc::new(h));
        self.hooks.borrow().len() as u64 - 1
    }

    fn use_hooks(&self, flow: NodeRef, h: Hook) {
        let h = self.hook(h);
        self.graph.borrow_mut().use_hooks(flow, h);
    }

    fn ops(&self, o: Ops) -> OpsRef {
        self.ops.borrow_mut().push(Rc::new(o));
        self.ops.borrow().len() as u64 - 1
    }

    fn copier(&self, f: impl Fn(&Value) -> Value + 'static) -> SharedCloner {
        self.copiers.borrow_mut().push(Rc::new(Box::new(f)));
        self.copiers.borrow().len() as u64 - 1
    }

    fn next(&self, a: NodeRef, b: NodeRef) -> NodeRef {
        let w = self.graph.borrow_mut().next(a, b);
        self.warn(w.warning);
        w.node
    }

    fn on(&self, a: NodeRef, action: &str, b: NodeRef) -> NodeRef {
        let mut g = self.graph.borrow_mut();
        let on = g.on(a, action);
        let w = on.to(&mut g, b);
        self.warn(w.warning);
        w.node
    }

    fn set_params(&self, node: NodeRef, params: &str) {
        self.graph.borrow_mut().set_params(node, j(params));
    }

    fn name(&self, node: NodeRef) -> String {
        self.graph.borrow().node(node).name().to_string()
    }

    fn warn(&self, w: Option<String>) {
        self.warnings.borrow_mut().extend(w);
    }

    fn warned(&self, part: &str) -> bool {
        self.warnings.borrow().iter().any(|w| w.contains(part))
    }

    fn get_hook(&self, h: HookRef) -> Rc<Hook> {
        self.hooks.borrow()[h as usize].clone()
    }

    fn get_ops(&self, o: Option<OpsRef>) -> Rc<Ops> {
        match o {
            Some(o) => self.ops.borrow()[o as usize].clone(),
            None => Rc::new(ops()),
        }
    }

    fn copy_of(&self, shared: &Value, copier: Option<SharedCloner>) -> Value {
        let c = copier.map(|c| self.copiers.borrow()[c as usize].clone());
        let call = c.map(|c| move |v: &Value| c(v));
        isolated(shared, call.as_ref())
    }

    fn cx(&self, node: NodeRef) -> Cx {
        let g = self.graph.borrow();
        Cx { params: g.node(node).params(), signal: g.node(node).signal() }
    }

    fn fan_out(&self, mut round: FanOut, call: &dyn Fn(&Hook) -> Res<()>) -> Res<()> {
        loop {
            match round.step() {
                FanOutStep::Done => return Ok(()),
                FanOutStep::Call { hook, asked } => {
                    round = asked.returned(call(&self.get_hook(hook)))?;
                }
            }
        }
    }

    fn gate(&self, at: &Site, shared: &Value) -> Res<Action> {
        let name = self.name(at.node);
        let mut round = fire_on_node_start(at.hooks);
        loop {
            match round.step() {
                GateStep::Done(gate) => return Ok(gate),
                GateStep::Call { hook, asked } => {
                    let ctx = NodeHookCtx { node: at.node, shared, path: at.path };
                    round = asked.returned((self.get_hook(hook).on_node_start)(&name, ctx))?;
                }
            }
        }
    }

    fn policy(&self, hooks: &Vec<HookRef>, ctx: ErrorCtx) -> Res<Option<ErrorPolicy>> {
        let name = self.name(ctx.node);
        let mut round = fire_on_error(hooks);
        loop {
            match round.step() {
                ErrorStep::Done => return Ok(None),
                ErrorStep::Call { hook, asked } => {
                    let again = ErrorCtx {
                        node: ctx.node,
                        shared: ctx.shared,
                        path: ctx.path,
                        error: ctx.error,
                    };
                    match asked.returned((self.get_hook(hook).on_error)(&name, again))? {
                        ErrorReply::Decided(p) => return Ok(Some(p)),
                        ErrorReply::Next(r) => round = r,
                    }
                }
            }
        }
    }

    fn retry<T>(
        &self,
        at: &Site,
        shared: &Value,
        mut attempts: Retrying<T>,
        run: &dyn Fn() -> Res<T>,
        fallback: &dyn Fn(FlowError) -> Res<T>,
    ) -> Res<T> {
        loop {
            match attempts.settled(run()) {
                AfterAttempt::Done(r) => return r,
                AfterAttempt::GiveUp(e) => return fallback(e),
                AfterAttempt::Retry(b) => {
                    let told = &b;
                    let reply = self.fan_out(fire_on_retry(at.hooks), &|h| {
                        (h.on_retry)(told.ctx(at.node, shared, at.path))
                    });
                    attempts = b.fired(reply)?.next;
                }
            }
        }
    }

    fn live(
        &self,
        node: NodeRef,
        shared: &mut Value,
        hooks: &Vec<HookRef>,
        path: &Vec<String>,
        signal: &CancellationToken,
    ) -> Res<Action> {
        let scope = open_nested(&mut self.graph.borrow_mut(), node, hooks, path, signal);
        match scope {
            Some(mut scope) => {
                let r = self.execute(node, shared, &mut scope);
                close_nested(&mut self.graph.borrow_mut(), node, r)
            }
            None => self.live_node(&Site { node, hooks, path, signal }, shared),
        }
    }

    fn live_node(&self, at: &Site, shared: &mut Value) -> Res<Action> {
        let life = run_lifecycle(&mut self.graph.borrow_mut(), at.node, at.signal);
        let mut phase = life.gated(self.gate(at, shared));
        loop {
            phase = match phase {
                Phase::Race(racing) => {
                    let outcome = match race_entry(at.signal.is_cancelled()) {
                        Ok(()) => {
                            let done = self.work(at, shared);
                            let (ms, stop) = (racing.timeout_ms, at.signal.is_cancelled());
                            race_work(done, ms, ms > 0, stop).expect("the work hangs")
                        }
                        Err(e) => Err(e),
                    };
                    racing.finished(outcome)
                }
                Phase::Consult(c) => {
                    let policy = self.policy(at.hooks, c.ctx(at.node, shared, at.path));
                    Phase::End(c.answered(policy))
                }
                Phase::End(ending) => {
                    let name = self.name(at.node);
                    let reply = self.fan_out(fire_on_node_end(at.hooks), &|h| {
                        (h.on_node_end)(&name, ending.ctx(at.node, shared, at.path, 7))
                    });
                    return ending.ended(&mut self.graph.borrow_mut(), at.node, reply);
                }
            };
        }
    }

    /// What a node's work comes to; `None` if it hangs.
    fn work(&self, at: &Site, shared: &mut Value) -> Option<Res<Action>> {
        let fork_or_sub = match self.graph.borrow().node(at.node) {
            FlowNode::Subflow(_) => 1,
            FlowNode::ForkJoin(_) => 2,
            _ => 0,
        };
        if fork_or_sub == 1 {
            return Some(self.work_sub(at, shared));
        }
        if fork_or_sub == 2 {
            return Some(self.work_fork(at, shared));
        }
        let code = self.code.borrow()[&at.node].clone();
        let cx = self.cx(at.node);
        let mut step = begin_work();
        loop {
            step = match step {
                WorkStep::Prep(w) => w.prepared((code.prep)(&cx, shared)),
                WorkStep::Exec(w) => {
                    let e = self.exec(at, &code, &cx, shared, &w.prep_res);
                    if code.hangs {
                        return None;
                    }
                    w.executed(e)
                }
                WorkStep::Post(w) => {
                    let a = (code.post)(&cx, shared, &w.prep_res, &w.exec_res);
                    w.posted(a)
                }
                WorkStep::Done(r) => return Some(r),
            };
        }
    }

    fn exec(&self, at: &Site, code: &Code, cx: &Cx, shared: &Value, p: &Value) -> Res<Value> {
        let plan = exec_with_retry(self.graph.borrow().node(at.node).node_core(), p);
        match plan {
            ExecPlan::Single(attempts) => self.retry(
                at,
                shared,
                attempts,
                &|| (code.exec)(cx, p),
                &|e| (code.fallback)(p, e),
            ),
            ExecPlan::Batch(batch) => {
                let slots = drain(self.in_order.get(), batch.pool(at.signal), &|i, signal| {
                    let item = &batch.items[i];
                    let r = self.retry(
                        at,
                        shared,
                        batch.attempts(),
                        &|| (code.item)(item, signal),
                        &|e| (code.item_fallback)(item, e),
                    );
                    match batch.settled(r) {
                        Unit::Settle(r) => r,
                        Unit::Report(report) => {
                            let ctx = report.ctx(at.node, shared, at.path);
                            let reply = self.policy(at.hooks, ctx);
                            report.fired(reply)
                        }
                    }
                })?;
                Ok(gather(slots))
            }
        }
    }

    fn work_sub(&self, at: &Site, shared: &mut Value) -> Res<Action> {
        let (attempts, ops, copier) = match self.graph.borrow().node(at.node) {
            FlowNode::Subflow(s) => {
                (s.exec_with_retry(), self.get_ops(s.ops()), s.clone_shared())
            }
            _ => unreachable!(),
        };
        let mut attempts = Some(attempts);
        let mut step = begin_work();
        loop {
            step = match step {
                WorkStep::Prep(w) => w.prepared(match &ops.derive {
                    Some(f) => f(shared),
                    None => Ok(self.copy_of(shared, copier)),
                }),
                WorkStep::Exec(w) => {
                    let derived = &w.prep_res;
                    let run = || {
                        let run = sub_run(&self.graph.borrow(), at.node, derived, at.path);
                        let mut s = run.unwrap();
                        self.live(s.sub, &mut s.shared, at.hooks, &s.path, at.signal)?;
                        Ok(s.shared)
                    };
                    let fallback = |e| (ops.fallback)(derived, e);
                    let a = attempts.take().unwrap();
                    let e = self.retry(at, shared, a, &run, &fallback);
                    w.executed(e)
                }
                WorkStep::Post(w) => {
                    let folded = (ops.reduce)(&w.exec_res, shared);
                    w.posted(folded.map(|_| None))
                }
                WorkStep::Done(r) => return r,
            };
        }
    }

    fn work_fork(&self, at: &Site, shared: &mut Value) -> Res<Action> {
        let (default, ops, copier) = match self.graph.borrow().node(at.node) {
            FlowNode::ForkJoin(f) => {
                (f.branches().to_vec(), self.get_ops(f.ops()), f.clone_shared())
            }
            _ => unreachable!(),
        };
        let mut step = begin_work();
        loop {
            step = match step {
                WorkStep::Prep(w) => {
                    let branches = match &ops.make_branches {
                        Some(f) => f(shared),
                        None => default.clone(),
                    };
                    self.graph.borrow_mut().resolve_branches(at.node, branches);
                    w.prepared(Ok(shared.clone()))
                }
                WorkStep::Exec(w) => {
                    let e = self.fan(at, shared, &w.prep_res, &ops, copier);
                    w.executed(e)
                }
                WorkStep::Post(w) => {
                    let joined = (ops.join)(shared, &w.exec_res);
                    w.posted(joined.map(|_| None))
                }
                WorkStep::Done(r) => return r,
            };
        }
    }

    fn fan(
        &self,
        at: &Site,
        shared: &Value,
        prep_res: &Value,
        ops: &Ops,
        copier: Option<SharedCloner>,
    ) -> Res<Vec<Option<Value>>> {
        let plan = match self.graph.borrow().node(at.node) {
            FlowNode::ForkJoin(f) => f.exec_with_retry(),
            _ => unreachable!(),
        };
        let run = || {
            let slots = drain(self.in_order.get(), plan.pool(at.signal), &|i, signal| {
                let branch = plan.branches[i];
                let mut own = self.copy_of(prep_res, copier);
                let path = branch_path(&self.graph.borrow(), branch, at.path);
                let r = self.live(branch, &mut own, at.hooks, &path, signal);
                match plan.settled(r, own) {
                    Unit::Settle(r) => r,
                    Unit::Report(report) => {
                        let reply = self.policy(at.hooks, report.ctx(branch, at.path));
                        report.fired(reply)
                    }
                }
            })?;
            Ok(joined_slots(slots))
        };
        let fallback = |e| Ok(branch_shareds(&(ops.fallback)(prep_res, e)?));
        self.retry(at, shared, plan.attempts(), &run, &fallback)
    }

    fn execute(&self, node: NodeRef, shared: &mut Value, scope: &mut Scope) -> Res<Action> {
        let ops = match self.graph.borrow().node(node) {
            FlowNode::Flow(f) => Some(self.get_ops(f.ops())),
            _ => None,
        };
        let ops = match ops {
            Some(o) => o,
            None => return self.execute_batch(node, shared, scope),
        };
        let mut step = begin_work();
        loop {
            step = match step {
                WorkStep::Prep(w) => w.prepared((ops.prep)(shared)),
                WorkStep::Exec(w) => {
                    let Scope { hooks, path, budget, signal } = &mut *scope;
                    let begun = match self.graph.borrow().node(node) {
                        FlowNode::Flow(f) => f.execute(path),
                        _ => unreachable!(),
                    };
                    let e = begun.and_then(|b| {
                        self.traverse(b.traversal, shared, &b.params, budget, hooks, signal)
                    });
                    w.executed(e)
                }
                WorkStep::Post(w) => {
                    let _: &Value = &w.prep_res;
                    let a = (ops.flow_post)(&w.exec_res);
                    w.posted(a)
                }
                WorkStep::Done(r) => return r,
            };
        }
    }

    fn flow_config(&self, node: NodeRef) -> (Params, Option<NodeRef>) {
        let g = self.graph.borrow();
        (g.node(node).params(), g.node(node).start_node())
    }

    fn traverse(
        &self,
        mut t: Traversal,
        shared: &mut Value,
        params: &Params,
        budget: &mut Budget,
        hooks: &Vec<HookRef>,
        signal: &CancellationToken,
    ) -> Res<Action> {
        loop {
            let visit = t.visit(&mut self.graph.borrow_mut(), params, budget, signal);
            match visit {
                Visit::Finished(a) => return Ok(a),
                Visit::Failed(e) => return Err(e),
                Visit::Run(v) => {
                    let r = self.live(v.node_ref(), shared, hooks, v.visited(), signal);
                    let arrival = v.arrived(&self.graph.borrow(), r)?;
                    self.warn(arrival.warning);
                    t = arrival.next;
                }
            }
        }
    }

    fn execute_batch(&self, node: NodeRef, shared: &mut Value, scope: &mut Scope) -> Res<Action> {
        let ops = match self.graph.borrow().node(node) {
            FlowNode::BatchFlow(b) => self.get_ops(b.ops()),
            _ => unreachable!(),
        };
        let mut step = begin_work();
        loop {
            step = match step {
                WorkStep::Prep(w) => w.prepared((ops.prep)(shared)),
                WorkStep::Exec(w) => {
                    let prep_res: &Value = &w.prep_res;
                    let e = self.bundles(node, shared, scope, &ops, prep_res.clone());
                    w.executed(e)
                }
                WorkStep::Post(w) => {
                    let a = (ops.batch_post)(shared, &w.exec_res);
                    w.posted(a)
                }
                WorkStep::Done(r) => return r,
            };
        }
    }

    fn bundles(
        &self,
        node: NodeRef,
        shared: &mut Value,
        scope: &mut Scope,
        ops: &Ops,
        prep_res: Value,
    ) -> Res<Vec<Value>> {
        let (plan, copier) = match self.graph.borrow().node(node) {
            FlowNode::BatchFlow(b) => (b.execute(prep_res)?, b.clone_shared()),
            _ => unreachable!(),
        };
        let Scope { hooks, path, budget, signal } = scope;
        match plan {
            BundlePlan::Parallel(plan) => {
                let slots = drain(self.in_order.get(), plan.pool(signal), &|i, signal| {
                    let mut own = self.copy_of(shared, copier);
                    let l = plan.launch(&mut self.graph.borrow_mut(), i, path);
                    self.adopt(&l.copies);
                    let r = self.live(l.runner, &mut own, hooks, &l.path, signal);
                    match plan.settled(r, own) {
                        Unit::Settle(r) => r,
                        Unit::Report(report) => {
                            let reply = self.policy(hooks, report.ctx(node, path));
                            report.fired(reply)
                        }
                    }
                })?;
                (ops.merge)(shared, &bundle_shareds(slots))?;
                Ok(plan.bundles)
            }
            BundlePlan::Sequential(mut state) => loop {
                let (params, start) = self.flow_config(node);
                match state.step(&params, signal) {
                    BundleStep::Done(b) => return Ok(b),
                    BundleStep::Failed(e) => return Err(e),
                    BundleStep::Run(run) => {
                        let r = orchestrate(start, path).and_then(|t| {
                            self.traverse(t, shared, run.params(), budget, hooks, signal)
                        });
                        state = match run.settled(r) {
                            AfterBundle::Next(s) => s,
                            AfterBundle::Failed(e) => return Err(e),
                            AfterBundle::Report(report) => {
                                let reply = self.policy(hooks, report.ctx(node, shared, path));
                                report.fired(reply)?
                            }
                        };
                    }
                }
            },
        }
    }

    /// Runs a node in isolation; a flow then fires no start and end hooks.
    fn run_bare(
        &self,
        node: NodeRef,
        shared: &mut Value,
        signal: Option<CancellationToken>,
    ) -> Res<Action> {
        let bare = bare_run(&self.graph.borrow(), node, signal);
        self.warn(bare.warning);
        self.live(node, shared, &vec![], &bare.path, &bare.signal)
    }

    fn run(
        &self,
        node: NodeRef,
        shared: &mut Value,
        signal: Option<CancellationToken>,
    ) -> Res<Action> {
        let opening = open_run(&mut self.graph.borrow_mut(), node, signal.clone());
        let opening = match opening {
            Some(o) => o,
            None => return self.run_bare(node, shared, signal),
        };
        let reply = self.fan_out(fire_on_start(&opening.scope.hooks), &|h| (h.on_start)());
        let mut scope = opening.started(&mut self.graph.borrow_mut(), node, reply)?;
        let finishing = Finishing::new(self.execute(node, shared, &mut scope));
        let reply = self
            .fan_out(fire_on_end(&scope.hooks), &|h| (h.on_end)(finishing.action()));
        finishing.ended(&mut self.graph.borrow_mut(), node, reply)
    }
}

fn log() -> Rc<RefCell<Vec<String>>> {
    Rc::new(RefCell::new(vec![]))
}

fn failing(text: &'static str) -> Code {
    code().exec(move |_, _| Err(FlowError::msg(text.to_string())))
}

fn act(name: &str) -> Action {
    Some(name.to_string())
}

/* ------------------------------- bare nodes ------------------------------- */

fn abc() -> Code {
    code()
        .prep(|_, s| Ok(Value::from(format!("v{}", s["value"].as_i64().unwrap()))))
        .exec(|_, p| Ok(Value::from(p.as_str().unwrap()[1..].parse::<i64>().unwrap() * 2)))
        .post(|_, s, p, e| {
            let line = format!("{}:{}", p.as_str().unwrap(), e);
            s["log"].as_array_mut().unwrap().push(Value::from(line));
            Ok(act(if e.as_i64().unwrap() > 10 { "large" } else { "small" }))
        })
}

#[test]
fn lifecycle_order_and_data_flow() {
    let e = engine();
    let n = e.add(named("ABCNode"), abc());
    let mut shared = j(r#"{"value": 6, "log": []}"#);
    assert_eq!(e.run(n, &mut shared, None).unwrap(), act("large"));
    assert_eq!(shared["log"], j(r#"["v6:12"]"#));
}

#[test]
fn set_params_stores_params() {
    let e = engine();
    let n = e.add(named("ABCNode"), abc());
    e.set_params(n, r#"{"x": 1}"#);
    assert_eq!(e.graph.borrow().node(n).param("x"), Some(j("1")));
    assert_eq!(e.graph.borrow().node(n).param("y"), None);
}

#[test]
fn name_defaults_and_custom() {
    let e = engine();
    let a = e.add(NodeCore::new(), code());
    let b = e.add(NodeCore::with_opts(NodeOpts::new().name("custom".to_string())), code());
    assert_eq!(e.name(a), "Node");
    assert_eq!(e.name(b), "custom");
}

#[test]
fn next_wires_default_and_named_edges_and_chains() {
    let e = engine();
    let (a, b, c) = (e.add(named("A"), abc()), e.add(named("B"), abc()), e.add(named("C"), abc()));
    assert_eq!(e.next(a, b), b);
    let w = e.graph.borrow_mut().next_action(a, c, "custom");
    assert_eq!(w.node, c);
    let g = e.graph.borrow();
    assert_eq!(g.node(a).resolve_successor(&None), Some(b));
    assert_eq!(g.node(a).resolve_successor(&act("custom")), Some(c));
    assert_eq!(g.node(a).resolve_successor(&act("default")), Some(b));
    assert_eq!(g.node(a).resolve_successor(&act("other")), None);
}

#[test]
fn on_to_fluent_wiring() {
    let e = engine();
    let (a, b) = (e.add(named("A"), abc()), e.add(named("B"), abc()));
    assert_eq!(e.on(a, "ok", b), b);
    assert_eq!(e.graph.borrow().node(a).resolve_successor(&act("ok")), Some(b));
}

#[test]
fn run_warns_when_node_has_successors() {
    let e = engine();
    let (a, b) = (e.add(named("HasSucc"), abc()), e.add(named("B"), abc()));
    e.next(a, b);
    e.run(a, &mut j(r#"{"value": 1, "log": []}"#), None).unwrap();
    assert_eq!(
        *e.warnings.borrow(),
        vec!["[focket-rs] HasSucc has successors; run() ignores them. Use a Flow."]
    );
}

#[test]
fn clean_termination_does_not_warn() {
    let e = engine();
    let a = e.add(named("CleanTerm"), abc());
    e.run(a, &mut j(r#"{"value": 1, "log": []}"#), None).unwrap();
    let f = e.flow(Flow::new(a));
    e.run(f, &mut j(r#"{"value": 1, "log": []}"#), None).unwrap();
    assert!(e.warnings.borrow().is_empty());
}

#[test]
fn unwired_named_action_warns_typo_detection() {
    let e = engine();
    let b = e.add(named("BoomUnwired"), code().post(|_, _, _, _| Ok(act("nope"))));
    let o = e.add(named("Other"), abc());
    e.on(b, "other", o);
    let f = e.flow(Flow::new(b));
    let mut shared = j(r#"{"value": 1, "log": []}"#);
    assert_eq!(e.run(f, &mut shared, None).unwrap(), act("nope"));
    assert!(e.warned("'nope'"));
    assert_eq!(
        *e.warnings.borrow(),
        vec![
            "[focket-rs] BoomUnwired returned action 'nope' but no such edge is wired (have: other). Flow ends."
        ]
    );
}

#[test]
fn next_warns_when_overwriting_existing_edge() {
    let e = engine();
    let a = e.add(named("OverwriteA"), code());
    let (b1, b2) = (e.add(named("B1"), code()), e.add(named("B2"), code()));
    e.next(a, b1);
    assert!(e.warnings.borrow().is_empty());
    e.next(a, b2);
    assert_eq!(
        *e.warnings.borrow(),
        vec!["[focket-rs] OverwriteA: overwriting existing edge for action 'default'"]
    );
    assert_eq!(e.graph.borrow().node(a).resolve_successor(&None), Some(b2));
}

/* --------------------------------- retries -------------------------------- */

fn counting(calls: &Rc<Cell<usize>>, fail_below: usize) -> Code {
    let calls = calls.clone();
    code().exec(move |_, _| {
        calls.set(calls.get() + 1);
        if calls.get() < fail_below {
            return Err(FlowError::msg(format!("fail {}", calls.get())));
        }
        Ok(Value::from("ok"))
    })
}

#[test]
fn max_retries_default_zero_is_single_attempt() {
    let e = engine();
    let calls = Rc::new(Cell::new(0));
    let n = e.add(named("CountExec"), counting(&calls, 0));
    e.run(n, &mut j("{}"), None).unwrap();
    assert_eq!(calls.get(), 1);
}

#[test]
fn max_retries_counts_retries_after_first_attempt() {
    let e = engine();
    let calls = Rc::new(Cell::new(0));
    let c = NodeCore::with_opts(NodeOpts::new().max_retries(2));
    let n = e.add(c, counting(&calls, 3));
    assert_eq!(e.run(n, &mut j("{}"), None).unwrap(), None);
    assert_eq!(calls.get(), 3);
}

#[test]
fn exec_fallback_called_after_final_failure() {
    let e = engine();
    let c = failing("always")
        .fallback(|_, err| Ok(Value::from(format!("recovered:{}", err.message()))))
        .post(|_, s, _, r| {
            s["fb"] = r.clone();
            Ok(None)
        });
    let n = e.add(NodeCore::with_opts(NodeOpts::new().max_retries(1)), c);
    let mut shared = j("{}");
    e.run(n, &mut shared, None).unwrap();
    assert_eq!(shared["fb"], j(r#""recovered:always""#));
}

#[test]
fn default_exec_fallback_rethrows() {
    let e = engine();
    let n = e.add(NodeCore::with_opts(NodeOpts::new().max_retries(2)), failing("boom"));
    assert_eq!(e.run(n, &mut j("{}"), None).unwrap_err().message(), "boom");
}

#[test]
fn retry_node_terminates_via_fallback() {
    let e = engine();
    let c = failing("x").fallback(|_, _| Ok(Value::from("done")));
    let n = e.add(NodeCore::with_opts(NodeOpts::new().max_retries(3).wait_ms(1)), c);
    e.run(n, &mut j("{}"), None).unwrap();
    assert_eq!(e.graph.borrow().node(n).node_core().max_retries(), 3);
}

#[test]
fn an_exec_that_aborts_is_not_retried() {
    let e = engine();
    let attempts = Rc::new(Cell::new(0));
    let seen = attempts.clone();
    let c = code().exec(move |_, _| {
        seen.set(seen.get() + 1);
        Err(FlowError::Aborted)
    });
    let n = e.add(NodeCore::with_opts(NodeOpts::new().max_retries(5)), c);
    let f = e.flow(Flow::new(n));
    assert!(e.run(f, &mut j("{}"), None).unwrap_err().is_aborted());
    assert_eq!(attempts.get(), 1);
}

#[test]
fn on_retry_fires_for_each_retry() {
    let e = engine();
    let attempts = Rc::new(RefCell::new(vec![]));
    let c = failing("x").fallback(|_, _| Ok(Value::from("done")));
    let n = e.add(NodeCore::with_opts(NodeOpts::new().max_retries(3).wait_ms(1)), c);
    let f = e.flow(Flow::new(n));
    let seen = attempts.clone();
    e.use_hooks(
        f,
        hook().retry(move |ctx| {
            assert_eq!(ctx.wait_ms, 1);
            assert_eq!(ctx.error.message(), "x");
            seen.borrow_mut().push(ctx.attempt);
            Ok(())
        }),
    );
    e.run(f, &mut j("{}"), None).unwrap();
    assert_eq!(*attempts.borrow(), vec![0, 1, 2]);
}

#[test]
fn on_retry_hook_error_propagates_and_stops_retrying() {
    let e = engine();
    let attempts = Rc::new(Cell::new(0));
    let a = attempts.clone();
    let c = code().exec(move |_, _| {
        a.set(a.get() + 1);
        Err(FlowError::msg("exec fail".to_string()))
    });
    let n = e.add(NodeCore::with_opts(NodeOpts::new().max_retries(3)), c);
    let f = e.flow(Flow::new(n));
    e.use_hooks(f, hook().retry(|_| Err(FlowError::msg("retry hook boom".to_string()))));
    assert_eq!(e.run(f, &mut j("{}"), None).unwrap_err().message(), "retry hook boom");
    assert_eq!(attempts.get(), 1);
}

/* ------------------------------- batch nodes ------------------------------ */

fn keep_result(c: Code, key: &'static str) -> Code {
    c.post(move |_, s, _, r| {
        s[key] = r.clone();
        Ok(None)
    })
}

fn times_ten() -> Code {
    let c = code()
        .prep(|_, _| Ok(j("[1, 2, 3]")))
        .item(|i, _| Ok(Value::from(i.as_i64().unwrap() * 10)));
    keep_result(c, "batch")
}

#[test]
fn batch_processes_each_item_preserves_order_sequential() {
    let e = engine();
    let n = e.add(NodeCore::with_opts(NodeOpts::batch()), times_ten());
    let mut shared = j("{}");
    e.run(n, &mut shared, None).unwrap();
    assert_eq!(shared["batch"], j("[10, 20, 30]"));
}

#[test]
fn parallel_batch_preserves_order_though_items_finish_in_reverse() {
    for concurrency in [2, 3, 4] {
        let e = engine();
        let opts = NodeOpts::batch().concurrency(concurrency);
        let n = e.add(NodeCore::with_opts(opts), times_ten());
        let mut shared = j("{}");
        e.run(n, &mut shared, None).unwrap();
        assert_eq!(shared["batch"], j("[10, 20, 30]"));
    }
}

fn bad_item() -> Code {
    let c = code().prep(|_, _| Ok(j("[1, 2, 3]"))).item(|i, _| {
        if i.as_i64() == Some(2) {
            return Err(FlowError::msg("bad item".to_string()));
        }
        Ok(Value::from(format!("i{i}")))
    });
    keep_result(c, "bf")
}

#[test]
fn batch_fail_fast_false_yields_null_slot_and_continues() {
    let e = engine();
    let n = e.add(NodeCore::with_opts(NodeOpts::batch()), bad_item());
    let mut shared = j("{}");
    e.run(n, &mut shared, None).unwrap();
    assert_eq!(shared["bf"], j(r#"["i1", null, "i3"]"#));
}

#[test]
fn batch_fail_fast_true_first_failure_throws() {
    let e = engine();
    let n = e.add(NodeCore::with_opts(NodeOpts::batch().fail_fast(true)), bad_item());
    assert_eq!(e.run(n, &mut j("{}"), None).unwrap_err().message(), "bad item");
}

#[test]
fn batch_empty_array_is_fine() {
    let e = engine();
    let c = keep_result(code().prep(|_, _| Ok(j("[]"))), "empty");
    let n = e.add(NodeCore::with_opts(NodeOpts::batch()), c);
    let mut shared = j("{}");
    e.run(n, &mut shared, None).unwrap();
    assert_eq!(shared["empty"], j("[]"));
}

#[test]
fn batch_prep_void_runs_over_empty_array() {
    let e = engine();
    let c = keep_result(code().item(|item, _| Ok(item.clone())), "b");
    let n = e.add(NodeCore::with_opts(NodeOpts::batch()), c);
    let mut shared = j("{}");
    e.run(n, &mut shared, None).unwrap();
    assert_eq!(shared["b"], j("[]"));
}

#[test]
fn batch_default_exec_item_noop_yields_null_per_item() {
    let e = engine();
    let c = keep_result(code().prep(|_, _| Ok(j("[1, 2]"))), "nb");
    let n = e.add(NodeCore::with_opts(NodeOpts::batch()), c);
    let mut shared = j("{}");
    e.run(n, &mut shared, None).unwrap();
    assert_eq!(shared["nb"], j("[null, null]"));
}

#[test]
fn every_item_has_retries_of_its_own() {
    let e = engine();
    let calls = Rc::new(RefCell::new(HashMap::new()));
    let seen = calls.clone();
    let c = code().prep(|_, _| Ok(j("[1, 2]"))).item(move |i, _| {
        let mut m = seen.borrow_mut();
        let k = m.entry(i.as_i64().unwrap()).or_insert(0);
        *k += 1;
        if *k < 2 {
            return Err(FlowError::msg("flaky".to_string()));
        }
        Ok(i.clone())
    });
    let n = e.add(
        NodeCore::with_opts(NodeOpts::batch().max_retries(1)),
        keep_result(c, "out"),
    );
    let mut shared = j("{}");
    e.run(n, &mut shared, None).unwrap();
    assert_eq!(shared["out"], j("[1, 2]"));
    assert_eq!(calls.borrow()[&1], 2);
    assert_eq!(calls.borrow()[&2], 2);
}

#[test]
fn batch_exec_item_fallback_recovers_per_item() {
    let e = engine();
    let c = bad_item().item_fallback(|i, err| {
        assert_eq!(err.message(), "bad item");
        Ok(Value::from(format!("recovered:{i}")))
    });
    let n = e.add(NodeCore::with_opts(NodeOpts::batch()), keep_result(c, "out"));
    let mut shared = j("{}");
    e.run(n, &mut shared, None).unwrap();
    assert_eq!(shared["out"], j(r#"["i1", "recovered:2", "i3"]"#));
}

#[test]
fn batch_fail_fast_concurrency_throws_item_error() {
    let e = engine();
    let opts = NodeOpts::batch().concurrency(3).fail_fast(true);
    let n = e.add(NodeCore::with_opts(opts), bad_item());
    assert_eq!(e.run(n, &mut j("{}"), None).unwrap_err().message(), "bad item");
}

#[test]
fn batch_fail_fast_stops_the_items_behind_a_failure() {
    let e = engine();
    let ran = log();
    let seen = ran.clone();
    let c = code().prep(|_, _| Ok(j("[1, 2, 3, 4, 5]"))).item(move |i, signal| {
        seen.borrow_mut().push(i.to_string());
        assert!(!signal.is_cancelled());
        if i.as_i64() == Some(2) {
            return Err(FlowError::msg("two".to_string()));
        }
        Ok(i.clone())
    });
    let opts = NodeOpts::batch().concurrency(2).fail_fast(true);
    let n = e.add(NodeCore::with_opts(opts), c);
    assert_eq!(e.run(n, &mut j("{}"), None).unwrap_err().message(), "two");
    assert_eq!(*ran.borrow(), vec!["2"]); // its sibling was cancelled, the rest never started
}

#[test]
fn batch_item_throwing_abort_is_rethrown_not_swallowed() {
    let e = engine();
    let c = code().prep(|_, _| Ok(j("[1, 2]"))).item(|_, _| Err(FlowError::Aborted));
    let n = e.add(NodeCore::with_opts(NodeOpts::batch().fail_fast(false)), c);
    let f = e.flow(Flow::new(n));
    let called = Rc::new(Cell::new(false));
    let c = called.clone();
    e.use_hooks(
        f,
        hook().error(move |_, _| {
            c.set(true);
            Ok(None)
        }),
    );
    assert!(e.run(f, &mut j("{}"), None).unwrap_err().is_aborted());
    assert!(!called.get()); // an abort never reaches on_error
}

#[test]
fn a_failed_item_is_reported_once() {
    let e = engine();
    let errors = log();
    let n = e.add(NodeCore::with_opts(NodeOpts::batch()), bad_item());
    let f = e.flow(Flow::new(n));
    let seen = errors.clone();
    e.use_hooks(
        f,
        hook().error(move |_, ctx| {
            seen.borrow_mut().push(ctx.error.message());
            Ok(None)
        }),
    );
    let mut shared = j("{}");
    e.run(f, &mut shared, None).unwrap();
    assert_eq!(*errors.borrow(), vec!["bad item"]);
    assert_eq!(shared["bf"], j(r#"["i1", null, "i3"]"#));
}

#[test]
fn batch_item_failure_hook_throws() {
    let e = engine();
    let bad = code().prep(|_, _| Ok(j("[1]"))).item(|_, _| Err(msg("bad item")));
    let n = e.add(NodeCore::with_opts(NodeOpts::batch().fail_fast(false)), bad);
    let f = e.flow(Flow::new(n));
    e.use_hooks(f, hook().error(|_, _| Err(msg("hook boom"))));
    assert_eq!(e.run(f, &mut j("{}"), None).unwrap_err().message(), "hook boom");
}

/* ---------------------------------- hooks --------------------------------- */

#[test]
fn hooks_start_end_once_node_hooks_per_node() {
    let e = engine();
    let (a, b) = (e.add(named("A"), code()), e.add(named("B"), code()));
    e.next(a, b);
    let f = e.flow(Flow::new(a));
    let seen = log();
    let (l1, l2, l3, l4) = (seen.clone(), seen.clone(), seen.clone(), seen.clone());
    e.use_hooks(
        f,
        hook()
            .start(move || {
                l1.borrow_mut().push("start".to_string());
                Ok(())
            })
            .node_start(move |n, _| {
                l2.borrow_mut().push(format!("+{n}"));
                Ok(None)
            })
            .node_end(move |n, ctx| {
                assert_eq!(ctx.duration_ms, 7);
                l3.borrow_mut().push(format!("-{n}"));
                Ok(())
            })
            .end(move |_| {
                l4.borrow_mut().push("end".to_string());
                Ok(())
            }),
    );
    e.run(f, &mut j(r#"{"n": 0}"#), None).unwrap();
    assert_eq!(*seen.borrow(), vec!["start", "+A", "-A", "+B", "-B", "end"]);
}

#[test]
fn path_lists_the_nodes_visited_so_far() {
    let e = engine();
    let (a, b) = (e.add(named("A"), code()), e.add(named("B"), code()));
    let leaf = e.add(named("Leaf"), code());
    let inner = e.flow(Flow::new(leaf).with_name("Inner".to_string()));
    e.next(a, b);
    e.next(b, inner);
    let f = e.flow(Flow::new(a));
    let paths = log();
    let seen = paths.clone();
    e.use_hooks(
        f,
        hook().node_start(move |_, ctx| {
            seen.borrow_mut().push(ctx.path.join("/"));
            Ok(None)
        }),
    );
    e.run(f, &mut j("{}"), None).unwrap();
    assert_eq!(*paths.borrow(), vec!["A", "A/B", "A/B/Inner/Leaf"]);
}

#[test]
fn on_error_returning_action_routes_and_skips_post() {
    let e = engine();
    let posted = Rc::new(Cell::new(false));
    let p = posted.clone();
    let risky = e.add(
        named("Risky"),
        failing("fail").post(move |_, _, _, _| {
            p.set(true);
            Ok(None)
        }),
    );
    let recover = e.add(
        named("Recover"),
        code().post(|_, s, _, _| {
            s["recovered"] = Value::from(true);
            Ok(None)
        }),
    );
    e.on(risky, "recover", recover);
    let f = e.flow(Flow::new(risky));
    e.use_hooks(f, hook().error(|_, _| Ok(Some(ErrorPolicy::Route("recover".to_string())))));
    let mut shared = j("{}");
    e.run(f, &mut shared, None).unwrap();
    assert_eq!(shared["recovered"], Value::from(true));
    assert!(!posted.get());
}

#[test]
fn on_error_returning_nothing_propagates() {
    for policy in [None, Some(ErrorPolicy::Throw)] {
        let e = engine();
        let n = e.add(named("Risky"), failing("boom"));
        let f = e.flow(Flow::new(n));
        e.use_hooks(f, hook().error(move |_, _| Ok(policy.clone())));
        assert_eq!(e.run(f, &mut j("{}"), None).unwrap_err().message(), "boom");
    }
}

#[test]
fn multiple_hook_sets_compose_fan_out_and_first_wins() {
    let e = engine();
    let a = e.add(named("A"), failing("boom"));
    let f = e.flow(Flow::new(a));
    let order = log();
    let (o1, o2) = (order.clone(), order.clone());
    e.use_hooks(
        f,
        hook().node_start(move |_, _| {
            o1.borrow_mut().push("h1-start".to_string());
            Ok(None)
        }),
    );
    e.use_hooks(
        f,
        hook()
            .node_start(move |_, _| {
                o2.borrow_mut().push("h2-start".to_string());
                Ok(None)
            })
            .error(|_, _| Ok(Some(ErrorPolicy::Route("first-wins".to_string())))),
    );
    assert_eq!(e.run(f, &mut j("{}"), None).unwrap(), act("first-wins"));
    assert_eq!(*order.borrow(), vec!["h1-start", "h2-start"]);
}

#[test]
fn on_node_start_gate_skips_lifecycle_and_routes() {
    let e = engine();
    let ran = Rc::new(Cell::new(false));
    let (r1, r2) = (ran.clone(), ran.clone());
    let g = e.add(
        named("Gated"),
        code()
            .prep(move |_, _| {
                r1.set(true);
                Ok(Value::Null)
            })
            .post(move |_, _, _, _| {
                r2.set(true);
                Ok(None)
            }),
    );
    let other = e.add(
        named("Elsewhere"),
        code().post(|_, s, _, _| {
            s["landed"] = Value::from("elsewhere");
            Ok(None)
        }),
    );
    e.on(g, "skip", other);
    let f = e.flow(Flow::new(g));
    e.use_hooks(
        f,
        hook().node_start(|n, _| Ok(if n == "Gated" { act("skip") } else { None })),
    );
    let mut shared = j(r#"{"ran": false, "landed": ""}"#);
    e.run(f, &mut shared, None).unwrap();
    assert!(!ran.get());
    assert_eq!(shared["landed"], Value::from("elsewhere"));
}

#[test]
fn gate_fires_on_node_end_with_skipped_true() {
    let e = engine();
    let a = e.add(named("A"), code());
    let f = e.flow(Flow::new(a));
    let skipped = Rc::new(Cell::new(None));
    let s = skipped.clone();
    e.use_hooks(
        f,
        hook().node_start(|_, _| Ok(act("x"))).node_end(move |_, ctx| {
            assert_eq!(*ctx.action, act("x"));
            assert!(ctx.error.is_none());
            s.set(Some(ctx.skipped));
            Ok(())
        }),
    );
    e.run(f, &mut j("{}"), None).unwrap();
    assert_eq!(skipped.get(), Some(true));
}

#[test]
fn on_node_end_reports_error_when_node_fails() {
    let e = engine();
    let n = e.add(named("Boom"), failing("kaboom"));
    let f = e.flow(Flow::new(n));
    let reported = Rc::new(RefCell::new(None));
    let r = reported.clone();
    e.use_hooks(
        f,
        hook().node_end(move |_, ctx| {
            assert!(!ctx.skipped);
            assert!(ctx.action.is_none());
            *r.borrow_mut() = ctx.error.map(|e| e.message());
            Ok(())
        }),
    );
    assert!(e.run(f, &mut j("{}"), None).is_err());
    assert_eq!(*reported.borrow(), Some("kaboom".to_string()));
}

fn one_node_flow(e: &Engine, c: Code) -> NodeRef {
    let n = e.add(named("A"), c);
    e.flow(Flow::new(n))
}

fn msg(text: &str) -> FlowError {
    FlowError::msg(text.to_string())
}

#[test]
fn on_node_start_hook_error_propagates() {
    let e = engine();
    let ran = Rc::new(Cell::new(false));
    let r = ran.clone();
    let f = one_node_flow(
        &e,
        code().prep(move |_, _| {
            r.set(true);
            Ok(Value::Null)
        }),
    );
    e.use_hooks(f, hook().node_start(|_, _| Err(msg("gate boom"))));
    assert_eq!(e.run(f, &mut j("{}"), None).unwrap_err().message(), "gate boom");
    assert!(!ran.get());
}

#[test]
fn on_error_hook_error_replaces_original() {
    let e = engine();
    let f = one_node_flow(&e, failing("original"));
    e.use_hooks(f, hook().error(|_, _| Err(msg("hook boom"))));
    assert_eq!(e.run(f, &mut j("{}"), None).unwrap_err().message(), "hook boom");
}

#[test]
fn on_node_end_hook_error_replaces_result() {
    let e = engine();
    let f = one_node_flow(&e, code());
    e.use_hooks(f, hook().node_end(|_, _| Err(msg("end boom"))));
    assert_eq!(e.run(f, &mut j("{}"), None).unwrap_err().message(), "end boom");
}

#[test]
fn on_start_hook_error_skips_on_end() {
    let e = engine();
    let (ran, ended) = (Rc::new(Cell::new(false)), Rc::new(Cell::new(false)));
    let (r, d) = (ran.clone(), ended.clone());
    let f = one_node_flow(
        &e,
        code().prep(move |_, _| {
            r.set(true);
            Ok(Value::Null)
        }),
    );
    e.use_hooks(
        f,
        hook().start(|| Err(msg("start boom"))).end(move |_| {
            d.set(true);
            Ok(())
        }),
    );
    assert_eq!(e.run(f, &mut j("{}"), None).unwrap_err().message(), "start boom");
    assert!(!ran.get());
    assert!(!ended.get());
}

#[test]
fn on_end_hook_error_propagates() {
    for c in [code(), failing("boom")] {
        let e = engine();
        let f = one_node_flow(&e, c);
        e.use_hooks(f, hook().end(|_| Err(msg("onend boom"))));
        assert_eq!(e.run(f, &mut j("{}"), None).unwrap_err().message(), "onend boom");
    }
}

#[test]
fn on_end_is_told_the_action_or_nothing_after_a_failure() {
    for (c, want) in [
        (code().post(|_, _, _, _| Ok(act("fin"))), act("fin")),
        (failing("boom"), None),
    ] {
        let e = engine();
        let f = one_node_flow(&e, c);
        let told = Rc::new(RefCell::new(act("unset")));
        let t = told.clone();
        e.use_hooks(
            f,
            hook().end(move |a| {
                *t.borrow_mut() = a.clone();
                Ok(())
            }),
        );
        let _ = e.run(f, &mut j("{}"), None);
        assert_eq!(*told.borrow(), want);
    }
}

/* ---------------------------------- flows --------------------------------- */

#[test]
fn flow_orchestrates_conditional_graph() {
    let e = engine();
    let inc = Rc::new(Cell::new(0));
    let make = || {
        let (i1, i2) = (inc.clone(), inc.clone());
        code()
            .exec(move |_, _| {
                i1.set(i1.get() + 1);
                Ok(Value::Null)
            })
            .post(move |_, _, _, _| Ok(act(if i2.get() < 3 { "continue" } else { "done" })))
    };
    let a = e.add(named("IncA"), make());
    let b = e.add(named("IncB"), make());
    let done = e.add(named("Done"), code().post(|_, _, _, _| Ok(act("finished"))));
    e.on(a, "continue", b);
    e.on(a, "done", done);
    e.on(b, "continue", b);
    e.on(b, "done", done);
    let f = e.flow(Flow::new(a));
    let mut shared = j(r#"{"counter": 0, "results": []}"#);
    assert_eq!(e.run(f, &mut shared, None).unwrap(), act("finished"));
    assert_eq!(inc.get(), 3);
}

#[test]
fn flow_start_returns_the_node() {
    let e = engine();
    let a = e.add(named("Inc"), code());
    let mut f = Flow::empty();
    assert_eq!(f.start(a), a);
    assert_eq!(f.start_node(), Some(a));
    let f = e.flow(Flow::empty());
    assert_eq!(e.graph.borrow_mut().start(f, a), a);
    assert_eq!(e.graph.borrow().node(f).start_node(), Some(a));
}

#[test]
fn flow_throws_when_no_start_node() {
    let e = engine();
    let f = e.flow(Flow::empty());
    let err = e.run(f, &mut j(r#"{"counter": 0, "results": []}"#), None).unwrap_err();
    assert!(err.message().contains("no start node"));
    assert!(matches!(err, FlowError::Flow(_)));
}

#[test]
fn flow_params_propagate_to_every_node() {
    let e = engine();
    let p = e.add(
        named("P"),
        code().post(|cx, s, _, _| {
            let n = s["counter"].as_i64().unwrap() * cx.param("multiplier").as_i64().unwrap_or(1);
            Ok(act(if n > 10 { "big" } else { "small" }))
        }),
    );
    let f = e.flow(Flow::new(p));
    e.set_params(f, r#"{"multiplier": 5}"#);
    let mut shared = j(r#"{"counter": 3, "results": []}"#);
    assert_eq!(e.run(f, &mut shared, None).unwrap(), act("big"));
}

#[test]
fn cycle_guard_throws_flow_cycle_error() {
    let e = engine();
    let visits = Rc::new(Cell::new(0));
    let v = visits.clone();
    let l = e.add(
        named("Loop"),
        code().post(move |_, _, _, _| {
            v.set(v.get() + 1);
            Ok(act("again"))
        }),
    );
    e.on(l, "again", l);
    let f = e.flow(Flow::new(l).with_max_steps(5));
    let err = e.run(f, &mut j("{}"), None).unwrap_err();
    assert!(matches!(err, FlowError::Cycle { max_steps: 5 }));
    assert_eq!(visits.get(), 5);
}

#[test]
fn flow_without_steps_visits_nothing() {
    let e = engine();
    let visits = Rc::new(Cell::new(0));
    let n = e.add(named("A"), counting(&visits, 0));
    let f = e.flow(Flow::new(n).with_max_steps(0));
    let err = e.run(f, &mut j("{}"), None).unwrap_err();
    assert!(matches!(err, FlowError::Cycle { max_steps: 0 }));
    assert_eq!(visits.get(), 0);
}

#[test]
fn node_own_params_not_clobbered_by_flow_params() {
    let e = engine();
    let n = e.add(
        named("N"),
        code().post(|cx, s, _, _| {
            s["seen"]["node"] = Value::from("N");
            s["seen"]["flowKey"] = cx.param("flowKey");
            s["seen"]["nodeKey"] = cx.param("nodeKey");
            Ok(None)
        }),
    );
    e.set_params(n, r#"{"nodeKey": "from-node"}"#);
    let f = e.flow(Flow::new(n));
    e.set_params(f, r#"{"flowKey": "from-flow", "nodeKey": "from-flow-too"}"#);
    let mut shared = j(r#"{"seen": {}}"#);
    e.run(f, &mut shared, None).unwrap();
    assert_eq!(shared["seen"]["flowKey"], Value::from("from-flow"));
    assert_eq!(shared["seen"]["nodeKey"], Value::from("from-node"));
}

#[test]
fn flow_ops_custom_post_overrides_echo() {
    let e = engine();
    let n = e.add(named("F"), code().post(|_, _, _, _| Ok(act("raw"))));
    let mut o = ops();
    o.flow_post = Box::new(|told| {
        assert_eq!(*told, act("raw"));
        Ok(act("wrapped"))
    });
    let o = e.ops(o);
    let f = e.flow(Flow::with_ops(n, o));
    assert_eq!(e.run(f, &mut j("{}"), None).unwrap(), act("wrapped"));
}

#[test]
fn flow_can_be_used_as_node_inside_another_flow() {
    let e = engine();
    let leaf = e.add(
        named("Leaf"),
        code().post(|_, s, _, _| {
            s["trace"].as_array_mut().unwrap().push(Value::from("leaf"));
            Ok(None)
        }),
    );
    let inner = e.flow(Flow::new(leaf));
    let outer = e.flow(Flow::new(inner));
    let mut shared = j(r#"{"trace": []}"#);
    e.run(outer, &mut shared, None).unwrap();
    assert_eq!(shared["trace"], j(r#"["leaf"]"#));
}

#[test]
fn nested_hooks_run_before_the_parents() {
    let e = engine();
    let leaf = e.add(named("Leaf"), code());
    let inner = e.flow(Flow::new(leaf));
    let outer = e.flow(Flow::new(inner));
    let order = log();
    let (o1, o2) = (order.clone(), order.clone());
    e.use_hooks(
        outer,
        hook().node_start(move |n, _| {
            o1.borrow_mut().push(format!("outer:{n}"));
            Ok(None)
        }),
    );
    e.use_hooks(
        inner,
        hook().node_start(move |n, _| {
            o2.borrow_mut().push(format!("inner:{n}"));
            Ok(None)
        }),
    );
    e.run(outer, &mut j("{}"), None).unwrap();
    assert_eq!(*order.borrow(), vec!["inner:Leaf", "outer:Leaf"]);
}

#[test]
fn each_flow_has_its_own_step_budget() {
    let e = engine();
    let chain: Vec<NodeRef> = (0..4).map(|i| e.add(named(&format!("N{i}")), code())).collect();
    for i in 1..4 {
        e.next(chain[i - 1], chain[i]);
    }
    let inner = e.flow(Flow::new(chain[0]).with_max_steps(4));
    let outer = e.flow(Flow::new(inner).with_max_steps(1));
    assert_eq!(e.run(outer, &mut j("{}"), None).unwrap(), None);
}

/* -------------------------------- batch flows ----------------------------- */

fn bundles(text: &'static str) -> Ops {
    let mut o = ops();
    o.prep = Box::new(move |_| Ok(j(text)));
    o
}

const ABC: &str = r#"[{"name": "a"}, {"name": "b"}, {"name": "c"}]"#;
const IDS: &str = r#"[{"id": "a"}, {"id": "b"}, {"id": "c"}]"#;

fn collector() -> Code {
    code().post(|cx, s, _, _| {
        s["seen"].as_array_mut().unwrap().push(cx.param("name"));
        Ok(None)
    })
}

fn boom_b() -> Code {
    code().post(|cx, s, _, _| {
        if cx.param("name") == Value::from("b") {
            return Err(msg("bundle b failed"));
        }
        s["seen"].as_array_mut().unwrap().push(cx.param("name"));
        Ok(None)
    })
}

#[test]
fn batch_flow_runs_once_per_bundle_merging_params() {
    let e = engine();
    let n = e.add(named("Collector"), collector());
    let o = e.ops(bundles(ABC));
    let bf = e.batch(BatchFlow::with_ops(n, o));
    let mut shared = j(r#"{"seen": []}"#);
    e.run(bf, &mut shared, None).unwrap();
    assert_eq!(shared["seen"], j(r#"["a", "b", "c"]"#));
}

#[test]
fn batch_flow_fail_fast_false_keeps_going() {
    let e = engine();
    let n = e.add(named("Boom"), boom_b());
    let o = e.ops(bundles(ABC));
    let bf = e.batch(BatchFlow::with_ops(n, o));
    let mut shared = j(r#"{"seen": []}"#);
    e.run(bf, &mut shared, None).unwrap();
    assert_eq!(shared["seen"], j(r#"["a", "c"]"#));
}

#[test]
fn a_failed_bundle_ends_a_sequential_fail_fast_batch() {
    let e = engine();
    let n = e.add(named("Boom"), boom_b());
    let o = e.ops(bundles(ABC));
    let bf = e.batch(BatchFlow::with_ops(n, o).with_fail_fast(true));
    let mut shared = j(r#"{"seen": []}"#);
    assert_eq!(e.run(bf, &mut shared, None).unwrap_err().message(), "bundle b failed");
    assert_eq!(shared["seen"], j(r#"["a"]"#));
}

#[test]
fn a_hook_that_throws_for_a_sequential_batch_ends_it() {
    let e = engine();
    let n = e.add(named("Boom"), boom_b());
    let o = e.ops(bundles(ABC));
    let bf = e.batch(BatchFlow::with_ops(n, o));
    e.use_hooks(
        bf,
        hook().error(|n, _| if n == "BatchFlow" { Err(msg("hook threw")) } else { Ok(None) }),
    );
    let mut shared = j(r#"{"seen": []}"#);
    assert_eq!(e.run(bf, &mut shared, None).unwrap_err().message(), "hook threw");
    assert_eq!(shared["seen"], j(r#"["a"]"#));
}

#[test]
fn batch_flow_sequential_shares_one_budget() {
    let e = engine();
    let n = e.add(named("Collector"), collector());
    let o = e.ops(bundles(ABC));
    let bf = e.batch(BatchFlow::with_ops(n, o).with_max_steps(2).with_fail_fast(true));
    let mut shared = j(r#"{"seen": []}"#);
    let err = e.run(bf, &mut shared, None).unwrap_err();
    assert!(matches!(err, FlowError::Cycle { max_steps: 2 }));
    assert_eq!(shared["seen"], j(r#"["a", "b"]"#));
}

#[test]
fn batch_flow_sequential_pre_aborted_token() {
    let e = engine();
    let ran = Rc::new(Cell::new(false));
    let r = ran.clone();
    let w = code().prep(move |_, _| {
        r.set(true);
        Ok(Value::Null)
    });
    let n = e.add(named("W"), w);
    let o = e.ops(bundles(TWO));
    let bf = e.batch(BatchFlow::with_ops(n, o).with_concurrency(1));
    let token = CancellationToken::new();
    token.cancel();
    assert!(e.run(bf, &mut j("{}"), Some(token)).unwrap_err().is_aborted());
    assert!(!ran.get());
}

#[test]
fn a_cancel_between_bundles_ends_the_batch() {
    let e = engine();
    let token = CancellationToken::new();
    let t = token.clone();
    let n = e.add(
        named("Cancels"),
        code().post(move |cx, s, _, _| {
            s["seen"].as_array_mut().unwrap().push(cx.param("name"));
            t.cancel();
            Ok(None)
        }),
    );
    let o = e.ops(bundles(ABC));
    let bf = e.batch(BatchFlow::with_ops(n, o));
    let mut shared = j(r#"{"seen": []}"#);
    assert!(e.run(bf, &mut shared, Some(token)).unwrap_err().is_aborted());
    assert_eq!(shared["seen"], j(r#"["a"]"#));
}

fn touch() -> Code {
    code().post(|cx, s, _, _| {
        s["collected"].as_array_mut().unwrap().push(cx.param("id"));
        s["touched"] = Value::from(s["touched"].as_i64().unwrap() + 1);
        Ok(None)
    })
}

fn folding(text: &'static str) -> Ops {
    let mut o = bundles(text);
    o.merge = Box::new(|parent, own| {
        let all: Vec<Value> =
            own.iter().flat_map(|b| b["collected"].as_array().unwrap().clone()).collect();
        parent["collected"] = Value::Array(all);
        Ok(())
    });
    o
}

#[test]
fn batch_flow_parallel_clones_shared_and_merge_folds_back() {
    let e = engine();
    let n = e.add(named("Worker"), touch());
    let o = e.ops(folding(IDS));
    let bf = e.batch(BatchFlow::with_ops(n, o).with_concurrency(3));
    let mut shared = j(r#"{"collected": [], "touched": 0}"#);
    e.run(bf, &mut shared, None).unwrap();
    // bundles came out in reverse, and are merged in bundle order
    assert_eq!(shared["collected"], j(r#"["a", "b", "c"]"#));
    assert_eq!(shared["touched"], j("0"));
}

#[test]
fn batch_flow_parallel_leaves_the_original_graph_alone() {
    let e = engine();
    let n = e.add(named("Worker"), touch());
    e.set_params(n, r#"{"own": 1}"#);
    let o = e.ops(folding(IDS));
    let bf = e.batch(BatchFlow::with_ops(n, o).with_concurrency(2));
    let before = e.graph.borrow().len();
    e.run(bf, &mut j(r#"{"collected": [], "touched": 0}"#), None).unwrap();
    let g = e.graph.borrow();
    assert_eq!(Value::Object(g.node(n).params()), j(r#"{"own": 1}"#));
    assert_eq!(g.len(), before + 6); // a copy of the worker and a runner per bundle
    let runner = g.node(before as u64 + 1);
    assert_eq!(runner.name(), "BatchFlow~bundle");
    assert_eq!(runner.start_node(), Some(before as u64));
    assert_eq!(Value::Object(runner.params()), j(r#"{"id": "b"}"#));
    let copy = g.node(before as u64);
    assert_eq!(copy.name(), "Worker");
    assert_eq!(Value::Object(copy.params()), j(r#"{"own": 1, "id": "b"}"#));
}

#[test]
fn batch_flow_sequential_accumulates_into_real_shared() {
    let e = engine();
    let n = e.add(named("Collector"), touch());
    let o = e.ops(bundles(r#"[{"id": "a"}, {"id": "b"}]"#));
    let bf = e.batch(BatchFlow::with_ops(n, o).with_concurrency(1));
    let mut shared = j(r#"{"collected": [], "touched": 0}"#);
    e.run(bf, &mut shared, None).unwrap();
    assert_eq!(shared["collected"], j(r#"["a", "b"]"#));
    assert_eq!(shared["touched"], j("2"));
}

#[test]
fn batch_flow_parallel_with_no_start_node_throws() {
    let e = engine();
    let o = e.ops(bundles(r#"[{"x": 1}, {"x": 2}]"#));
    let bf = e.batch(BatchFlow::without_start(o).with_concurrency(3));
    let f = e.flow(Flow::new(bf));
    let err = e.run(f, &mut j("{}"), None).unwrap_err();
    assert_eq!(
        err.message(),
        "BatchFlow has no start node. Call bf.start(node) or pass it to the constructor."
    );
}

#[test]
fn batch_flow_sequential_with_no_start_node_reports_each_bundle() {
    let e = engine();
    let o = e.ops(bundles(IDS));
    let bf = e.batch(BatchFlow::without_start(o));
    let errors = log();
    let seen = errors.clone();
    e.use_hooks(
        bf,
        hook().error(move |_, ctx| {
            seen.borrow_mut().push(ctx.error.message());
            Ok(None)
        }),
    );
    e.run(bf, &mut j("{}"), None).unwrap();
    let text = "Flow has no start node. Call flow.start(node) or pass it to the constructor.";
    assert_eq!(*errors.borrow(), vec![text; 3]);
}

#[test]
fn batch_flow_parallel_fail_fast_rethrows_bundle_error() {
    let e = engine();
    let n = e.add(named("Worker"), bad_bundle("b", "bundle b"));
    let o = e.ops(bundles(IDS));
    let bf = e.batch(BatchFlow::with_ops(n, o).with_concurrency(3).with_fail_fast(true));
    let f = e.flow(Flow::new(bf));
    assert_eq!(e.run(f, &mut j("{}"), None).unwrap_err().message(), "bundle b");
}

#[test]
fn a_failed_bundle_is_reported_for_the_worker_and_for_the_batch() {
    let e = engine();
    let n = e.add(named("Worker"), bad_bundle("a", "bundle a failed"));
    let merged = Rc::new(Cell::new(0));
    let m = merged.clone();
    let mut o = bundles(IDS);
    o.merge = Box::new(move |_, own| {
        m.set(own.len());
        Ok(())
    });
    let o = e.ops(o);
    let bf = e.batch(BatchFlow::with_ops(n, o).with_concurrency(3));
    let errors = log();
    let seen = errors.clone();
    e.use_hooks(
        bf,
        hook().error(move |n, ctx| {
            seen.borrow_mut().push(format!("{n}:{}", ctx.error.message()));
            Ok(None)
        }),
    );
    e.run(bf, &mut j("{}"), None).unwrap();
    // once from the worker's lifecycle, once for the failed bundle
    assert_eq!(*errors.borrow(), vec!["Worker:bundle a failed", "BatchFlow:bundle a failed"]);
    assert_eq!(merged.get(), 3);
}

#[test]
fn a_hook_that_throws_for_the_batch_ends_it() {
    let e = engine();
    let n = e.add(named("Worker"), bad_bundle("a", "bundle a failed"));
    let o = e.ops(bundles(IDS));
    let bf = e.batch(BatchFlow::with_ops(n, o).with_concurrency(3));
    e.use_hooks(
        bf,
        hook().error(|n, _| if n == "BatchFlow" { Err(msg("hook threw")) } else { Ok(None) }),
    );
    assert_eq!(e.run(bf, &mut j("{}"), None).unwrap_err().message(), "hook threw");
}

#[test]
fn each_bundle_gets_a_copy_of_its_own() {
    let e = engine();
    let n = e.add(named("Worker"), touch());
    let o = e.ops(folding(IDS));
    let copies = Rc::new(Cell::new(0));
    let c = copies.clone();
    let copier = e.copier(move |v| {
        c.set(c.get() + 1);
        let mut v = v.clone();
        v["collected"] = j(r#"["seed"]"#);
        v
    });
    let bf = BatchFlow::with_ops(n, o).with_concurrency(2).with_clone_shared(copier);
    let bf = e.batch(bf);
    let mut shared = j(r#"{"collected": [], "touched": 0}"#);
    e.run(bf, &mut shared, None).unwrap();
    assert_eq!(copies.get(), 3);
    assert_eq!(shared["collected"], j(r#"["seed", "a", "seed", "b", "seed", "c"]"#));
}

#[test]
fn a_batch_without_bundles_needs_no_start() {
    for text in ["[]", "null", "7"] {
        let e = engine();
        let merged = Rc::new(Cell::new(false));
        let m = merged.clone();
        let mut o = bundles(text);
        o.merge = Box::new(move |_, _| {
            m.set(true);
            Ok(())
        });
        o.batch_post = Box::new(|_, b| Ok(Some(format!("{}", b.len()))));
        let o = e.ops(o);
        // no start node either: without bundles none is needed
        let bf = e.batch(BatchFlow::without_start(o).with_concurrency(4));
        assert_eq!(e.run(bf, &mut j("{}"), None).unwrap(), act("0"));
        assert!(!merged.get());
    }
}

#[test]
fn batch_flow_ops_custom_post() {
    let e = engine();
    let n = e.add(named("W"), code());
    let mut o = bundles(r#"[{"id": "a"}]"#);
    o.batch_post = Box::new(|_, b| {
        assert_eq!(b.len(), 1);
        Ok(act("bundles-done"))
    });
    let o = e.ops(o);
    let bf = e.batch(BatchFlow::with_ops(n, o));
    assert_eq!(e.run(bf, &mut j("{}"), None).unwrap(), act("bundles-done"));
}

#[test]
fn batch_flow_unstarted_then_start_and_own_hooks() {
    let e = engine();
    let (starts, ends) = (Rc::new(Cell::new(0)), Rc::new(Cell::new(0)));
    let (s1, e1) = (starts.clone(), ends.clone());
    let n = e.add(named("W"), code());
    let mut bf = BatchFlow::unstarted().with_name("bf".to_string()).with_max_steps(42);
    assert_eq!(bf.start_node(), None);
    assert_eq!(bf.start(n), n);
    assert_eq!(bf.start_node(), Some(n));
    assert_eq!(bf.max_steps(), 42);
    let h = e.hook(
        hook()
            .start(move || {
                s1.set(s1.get() + 1);
                Ok(())
            })
            .end(move |_| {
                e1.set(e1.get() + 1);
                Ok(())
            }),
    );
    bf.use_hooks(h);
    assert_eq!(bf.hooks(), vec![h]);
    let bf = e.batch(bf);
    assert_eq!(e.name(bf), "bf");
    e.run(bf, &mut j("{}"), None).unwrap();
    assert_eq!((starts.get(), ends.get()), (1, 1));
}

/* --------------------------------- subflows ------------------------------- */

#[test]
fn subflow_runs_isolated_context_and_reduces_back() {
    let e = engine();
    let r = e.add(
        named("Research"),
        code().post(|_, s, _, _| {
            s["findings"] = j(r#"["f1", "f2"]"#);
            Ok(None)
        }),
    );
    let inner = e.flow(Flow::new(r));
    let mut o = ops();
    o.derive = Some(Box::new(|s| {
        let mut d = j(r#"{"findings": []}"#);
        d["question"] = s["question"].clone();
        Ok(d)
    }));
    o.reduce = Box::new(|sub, s| {
        let all: Vec<&str> =
            sub["findings"].as_array().unwrap().iter().map(|v| v.as_str().unwrap()).collect();
        s["answer"] = Value::from(all.join(","));
        Ok(())
    });
    let o = e.ops(o);
    let sub = e.sub(Subflow::with_ops(inner, o));
    let f = e.flow(Flow::new(sub));
    let mut shared = j(r#"{"question": "what is X?"}"#);
    e.run(f, &mut shared, None).unwrap();
    assert_eq!(shared["answer"], Value::from("f1,f2"));
    assert!(shared.get("findings").is_none());
}

fn mutate() -> Code {
    code().post(|_, s, _, _| {
        s["list"].as_array_mut().unwrap().push(Value::from("x"));
        Ok(None)
    })
}

#[test]
fn subflow_mutations_do_not_leak_into_parent() {
    let e = engine();
    let m = e.add(named("Mutate"), mutate());
    let inner = e.flow(Flow::new(m));
    let sub = e.sub(Subflow::new(inner));
    let f = e.flow(Flow::new(sub));
    let mut shared = j(r#"{"list": []}"#);
    e.run(f, &mut shared, None).unwrap();
    assert_eq!(shared["list"], j("[]"));
}

#[test]
fn subflow_retries_start_from_the_derived_context() {
    let e = engine();
    let lens = Rc::new(RefCell::new(vec![]));
    let l = lens.clone();
    let m = e.add(
        named("Mutate"),
        code().post(move |_, s, _, _| {
            let list = s["list"].as_array_mut().unwrap();
            list.push(Value::from("x"));
            l.borrow_mut().push(list.len());
            if l.borrow().len() < 3 {
                return Err(msg("again"));
            }
            Ok(None)
        }),
    );
    let inner = e.flow(Flow::new(m));
    let mut o = ops();
    o.reduce = Box::new(|sub, s| {
        s["list"] = sub["list"].clone();
        Ok(())
    });
    let o = e.ops(o);
    let sub = Subflow::with_ops(inner, o).with_node_opts(NodeOpts::new().max_retries(2));
    let sub = e.sub(sub);
    let mut shared = j(r#"{"list": []}"#);
    e.run(sub, &mut shared, None).unwrap();
    assert_eq!(*lens.borrow(), vec![1, 1, 1]);
    assert_eq!(shared["list"], j(r#"["x"]"#));
}

#[test]
fn subflow_inherits_parent_hooks_for_tracing() {
    let e = engine();
    let leaf = e.add(named("Leaf"), code());
    let inner = e.flow(Flow::new(leaf).with_name("inner".to_string()));
    let sub = Subflow::new(inner).with_node_opts(NodeOpts::new().name("sub".to_string()));
    let sub = e.sub(sub);
    let f = e.flow(Flow::new(sub));
    let names = log();
    let n = names.clone();
    e.use_hooks(
        f,
        hook().node_start(move |name, _| {
            n.borrow_mut().push(name.to_string());
            Ok(None)
        }),
    );
    e.run(f, &mut j("{}"), None).unwrap();
    assert_eq!(*names.borrow(), vec!["sub", "Leaf"]);
}

#[test]
fn a_subflow_fallback_can_recover() {
    let e = engine();
    let bad = e.add(named("Bad"), failing("inner boom"));
    let inner = e.flow(Flow::new(bad));
    let mut o = ops();
    o.fallback = Box::new(|_, err| Ok(Value::from(format!("fb:{}", err.message()))));
    o.reduce = Box::new(|sub, s| {
        s["got"] = sub.clone();
        Ok(())
    });
    let o = e.ops(o);
    let sub = e.sub(Subflow::with_ops(inner, o));
    let mut shared = j("{}");
    e.run(sub, &mut shared, None).unwrap();
    assert_eq!(shared["got"], Value::from("fb:inner boom"));
}

#[test]
fn subflow_default_exec_fallback_rethrows() {
    let e = engine();
    let leaf = e.add(named("L"), bad_branch("leaf fail"));
    let inner = e.flow(Flow::new(leaf));
    let sub = e.sub(Subflow::new(inner));
    let f = e.flow(Flow::new(sub));
    assert_eq!(e.run(f, &mut j("{}"), None).unwrap_err().message(), "leaf fail");
}

#[test]
fn subflow_clone_shared_option_uses_override() {
    let e = engine();
    let seen = Rc::new(RefCell::new(String::new()));
    let s = seen.clone();
    let leaf = code().prep(move |_, shared| {
        *s.borrow_mut() = shared["tag"].as_str().unwrap().to_string();
        Ok(Value::Null)
    });
    let leaf = e.add(named("Leaf"), leaf);
    let inner = e.flow(Flow::new(leaf));
    let copier = e.copier(|s| {
        let mut d = j("{}");
        d["tag"] = Value::from(format!("{}-cloned", s["tag"].as_str().unwrap()));
        d
    });
    let sub = e.sub(Subflow::new(inner).with_clone_shared(copier));
    let f = e.flow(Flow::new(sub));
    let mut shared = j(r#"{"tag": "orig"}"#);
    e.run(f, &mut shared, None).unwrap();
    assert_eq!(*seen.borrow(), "orig-cloned");
    assert_eq!(shared["tag"], Value::from("orig"));
}

/* ---------------------------------- forks --------------------------------- */

fn topic(e: &Engine, name: &str) -> NodeRef {
    let n = e.add(
        named(&format!("Agent:{name}")),
        code().post(|cx, s, _, _| {
            s["results"].as_array_mut().unwrap().push(cx.param("topic"));
            Ok(None)
        }),
    );
    e.graph.borrow_mut().set_params(n, j(&format!(r#"{{"topic": "{name}"}}"#)));
    n
}

fn slots_into(slots: &Rc<RefCell<Vec<Option<Value>>>>) -> Ops {
    let slots = slots.clone();
    let mut o = ops();
    o.join = Box::new(move |_, b| {
        *slots.borrow_mut() = b.to_vec();
        Ok(())
    });
    o
}

#[test]
fn fork_join_fans_out_and_joins_results() {
    let e = engine();
    let branches = vec![topic(&e, "A"), topic(&e, "B"), topic(&e, "C")];
    let mut o = ops();
    o.join = Box::new(|s, b| {
        let all: Vec<Value> =
            b.iter().flatten().flat_map(|v| v["results"].as_array().unwrap().clone()).collect();
        s["results"] = Value::Array(all);
        Ok(())
    });
    let o = e.ops(o);
    let fan = e.fork(ForkJoin::with_ops(branches, o));
    let f = e.flow(Flow::new(fan));
    let mut shared = j(r#"{"results": []}"#);
    e.run(f, &mut shared, None).unwrap();
    assert_eq!(shared["results"], j(r#"["A", "B", "C"]"#));
}

#[test]
fn fork_join_fail_fast_false_yields_none_slot() {
    let e = engine();
    let good = || {
        code().post(|_, s, _, _| {
            s["ok"] = Value::from(true);
            Ok(None)
        })
    };
    let bad = code().prep(|_, _| Err(msg("boom")));
    let branches =
        vec![e.add(named("Good"), good()), e.add(named("Bad"), bad), e.add(named("Good"), good())];
    let slots = Rc::new(RefCell::new(vec![]));
    let o = e.ops(slots_into(&slots));
    let fan = e.fork(ForkJoin::with_ops(branches, o));
    let f = e.flow(Flow::new(fan));
    let errors = log();
    let seen = errors.clone();
    e.use_hooks(
        f,
        hook().error(move |n, ctx| {
            seen.borrow_mut().push(format!("{n}@{}", ctx.path.join("/")));
            Ok(None)
        }),
    );
    e.run(f, &mut j(r#"{"ok": false}"#), None).unwrap();
    let ok = Some(j(r#"{"ok": true}"#));
    assert_eq!(*slots.borrow(), vec![ok.clone(), None, ok]);
    // once from the branch's own lifecycle, once from the fork
    assert_eq!(*errors.borrow(), vec!["Bad@ForkJoin/Bad", "Bad@ForkJoin"]);
}

fn writer(e: &Engine, id: &str) -> NodeRef {
    let n = e.add(
        named(&format!("Writer:{id}")),
        code().post(|cx, s, _, _| {
            s["log"] = Value::Array(vec![cx.param("id")]);
            s["val"] = Value::from(999);
            Ok(None)
        }),
    );
    e.graph.borrow_mut().set_params(n, j(&format!(r#"{{"id": "{id}"}}"#)));
    n
}

#[test]
fn fork_join_branches_are_isolated() {
    let e = engine();
    let branches = vec![writer(&e, "x"), writer(&e, "y")];
    let slots = Rc::new(RefCell::new(vec![]));
    let o = e.ops(slots_into(&slots));
    let fan = e.fork(ForkJoin::with_ops(branches, o).with_concurrency(2));
    let f = e.flow(Flow::new(fan));
    let mut shared = j(r#"{"val": 0, "log": []}"#);
    e.run(f, &mut shared, None).unwrap();
    assert_eq!(
        *slots.borrow(),
        vec![
            Some(j(r#"{"val": 999, "log": ["x"]}"#)),
            Some(j(r#"{"val": 999, "log": ["y"]}"#))
        ]
    );
    assert_eq!(shared["val"], j("0"));
}

#[test]
fn a_failing_branch_stops_its_siblings() {
    let e = engine();
    let ran = log();
    let seen = ran.clone();
    let bad = e.add(named("Boom"), code().prep(|_, _| Err(msg("boom"))));
    let other = e.add(
        named("Other"),
        code().prep(move |_, _| {
            seen.borrow_mut().push("other".to_string());
            Ok(Value::Null)
        }),
    );
    // reverse order: the failing branch comes out first, its sibling is stopped
    let fan = e.fork(ForkJoin::new(vec![other, bad]).with_fail_fast(true));
    let f = e.flow(Flow::new(fan));
    assert_eq!(e.run(f, &mut j("{}"), None).unwrap_err().message(), "boom");
    assert!(ran.borrow().is_empty());
}

#[test]
fn fork_join_branch_throwing_abort_is_rethrown() {
    let e = engine();
    let boom = e.add(named("Boom"), code().prep(|_, _| Err(FlowError::Aborted)));
    let ok = e.add(named("Ok"), code());
    let o = e.ops(ops());
    let fan = e.fork(ForkJoin::with_ops(vec![boom, ok], o).with_fail_fast(false));
    let f = e.flow(Flow::new(fan));
    assert!(e.run(f, &mut j("{}"), None).unwrap_err().is_aborted());
}

#[test]
fn a_fork_fallback_gives_one_slot_per_element() {
    let e = engine();
    let bad = e.add(named("Bad"), code().prep(|_, _| Err(msg("boom"))));
    let slots = Rc::new(RefCell::new(vec![]));
    let mut o = slots_into(&slots);
    o.fallback = Box::new(|_, err| {
        assert_eq!(err.message(), "boom");
        Ok(j(r#"["rescued", null]"#))
    });
    let o = e.ops(o);
    let fan = e.fork(ForkJoin::with_ops(vec![bad], o).with_fail_fast(true));
    e.run(fan, &mut j("{}"), None).unwrap();
    assert_eq!(*slots.borrow(), vec![Some(Value::from("rescued")), None]);
}

#[test]
fn fork_join_post_non_array_exec_res_yields_empty_slots() {
    let e = engine();
    let bad = e.add(named("B"), bad_branch("boom"));
    let mut o = ops();
    o.fallback = Box::new(|_, _| Ok(Value::from("not-an-array")));
    o.join = Box::new(|s, b| {
        s["slots"] = Value::from(b.len());
        Ok(())
    });
    let o = e.ops(o);
    let fan = e.fork(ForkJoin::with_ops(vec![bad], o).with_fail_fast(true));
    let f = e.flow(Flow::new(fan));
    let mut shared = j("{}");
    e.run(f, &mut shared, None).unwrap();
    assert_eq!(shared["slots"], j("0"));
}

#[test]
fn branches_are_made_for_each_shared() {
    let e = engine();
    let (x, y) = (writer(&e, "x"), writer(&e, "y"));
    let slots = Rc::new(RefCell::new(vec![]));
    let mut o = slots_into(&slots);
    o.make_branches = Some(Box::new(move |s| if s["both"] == true { vec![x, y] } else { vec![] }));
    let o = e.ops(o);
    let fan = e.fork(ForkJoin::with_ops(vec![], o));
    e.run(fan, &mut j(r#"{"both": true}"#), None).unwrap();
    assert_eq!(slots.borrow().len(), 2);
    e.run(fan, &mut j(r#"{"both": false}"#), None).unwrap();
    assert_eq!(slots.borrow().len(), 0);
}

#[test]
fn fork_join_clone_shared_override() {
    let e = engine();
    let branches = vec![id_worker(&e, "W", "x"), id_worker(&e, "W", "y")];
    let mut o = ops();
    o.join = Box::new(|s, b| {
        s["tags"] = Value::Array(b.iter().flatten().map(|b| b["tagged"].clone()).collect());
        Ok(())
    });
    let o = e.ops(o);
    let copier = e.copier(|s| {
        let mut c = s.clone();
        c["tagged"] = Value::from(true);
        c
    });
    let fan = e.fork(ForkJoin::with_ops(branches, o).with_clone_shared(copier));
    let f = e.flow(Flow::new(fan));
    let mut shared = j(r#"{"out": [], "tagged": false}"#);
    e.run(f, &mut shared, None).unwrap();
    assert_eq!(shared["tags"], j("[true, true]"));
}

#[test]
fn fork_join_of_subflows_parallel_sub_agents_then_synthesize() {
    let e = engine();
    let mut outs = vec![];
    let mut branches = vec![];
    for t in ["RAG", "fine-tuning", "hybrid"] {
        let research = e.add(
            named("Research"),
            code().post(|_, s, _, _| {
                let topic = s["topic"].as_str().unwrap().to_string();
                s["findings"] = Value::Array(vec![Value::from(format!("about-{topic}"))]);
                Ok(None)
            }),
        );
        let inner = e.flow(Flow::new(research).with_name(format!("research:{t}")));
        let out = Rc::new(RefCell::new(Value::Null));
        let o2 = out.clone();
        let mut o = ops();
        o.derive = Some(Box::new(move |_| {
            let mut d = j(r#"{"findings": []}"#);
            d["topic"] = Value::from(t);
            Ok(d)
        }));
        o.reduce = Box::new(move |sub, _| {
            *o2.borrow_mut() = sub["findings"][0].clone();
            Ok(())
        });
        let o = e.ops(o);
        let opts = NodeOpts::new().name(format!("branch:{t}"));
        branches.push(e.sub(Subflow::with_ops(inner, o).with_node_opts(opts)));
        outs.push(out);
    }
    let mut o = ops();
    o.join = Box::new(move |s, _| {
        s["report"] = Value::Array(outs.iter().map(|o| o.borrow().clone()).collect());
        Ok(())
    });
    let o = e.ops(o);
    let fan = e.fork(ForkJoin::with_ops(branches, o).with_concurrency(3));
    let f = e.flow(Flow::new(fan));
    let mut shared = j(r#"{"question": "RAG vs fine-tuning", "report": []}"#);
    e.run(f, &mut shared, None).unwrap();
    assert_eq!(shared["report"], j(r#"["about-RAG", "about-fine-tuning", "about-hybrid"]"#));
    assert!(shared.get("topic").is_none());
}

/* ------------------------- timeouts and cancellation ---------------------- */

#[test]
fn slow_node_exceeds_timeout_throws() {
    let e = engine();
    let n = e.add(NodeCore::with_opts(NodeOpts::new().timeout_ms(40)), code().hangs());
    let f = e.flow(Flow::new(n));
    let err = e.run(f, &mut j("{}"), None).unwrap_err();
    assert!(matches!(err, FlowError::Timeout { timeout_ms: 40 }));
}

#[test]
fn timeout_can_be_routed_via_on_error() {
    let e = engine();
    let posted = Rc::new(Cell::new(false));
    let p = posted.clone();
    let slow = code().hangs().post(move |_, _, _, _| {
        p.set(true);
        Ok(None)
    });
    let slow = e.add(NodeCore::with_opts(NodeOpts::new().timeout_ms(30)), slow);
    let recover = e.add(
        named("Recover"),
        code().post(|_, s, _, _| {
            s["result"] = Value::from("recovered");
            Ok(None)
        }),
    );
    e.on(slow, "timeout", recover);
    let f = e.flow(Flow::new(slow));
    e.use_hooks(
        f,
        hook().error(|_, ctx| {
            Ok(if matches!(ctx.error, FlowError::Timeout { .. }) {
                Some(ErrorPolicy::Route("timeout".to_string()))
            } else {
                None
            })
        }),
    );
    let mut shared = j("{}");
    e.run(f, &mut shared, None).unwrap();
    assert_eq!(shared["result"], Value::from("recovered"));
    assert!(!posted.get());
}

#[test]
fn abort_is_terminal_bypasses_on_error() {
    let e = engine();
    let token = CancellationToken::new();
    let t = token.clone();
    let n = e.add(
        named("Slow"),
        code().hangs().prep(move |_, _| {
            t.cancel();
            Ok(Value::Null)
        }),
    );
    let f = e.flow(Flow::new(n));
    let called = Rc::new(Cell::new(false));
    let c = called.clone();
    e.use_hooks(
        f,
        hook().error(move |_, _| {
            c.set(true);
            Ok(None)
        }),
    );
    assert!(e.run(f, &mut j("{}"), Some(token)).unwrap_err().is_aborted());
    assert!(!called.get());
}

#[test]
fn abort_propagates_through_nested_flow() {
    let e = engine();
    let token = CancellationToken::new();
    let t = token.clone();
    let n = e.add(
        named("Leaf"),
        code().hangs().prep(move |cx, _| {
            assert!(!cx.signal.as_ref().unwrap().is_cancelled());
            t.cancel();
            assert!(cx.signal.as_ref().unwrap().is_cancelled());
            Ok(Value::Null)
        }),
    );
    let inner = e.flow(Flow::new(n));
    let outer = e.flow(Flow::new(inner));
    assert!(e.run(outer, &mut j("{}"), Some(token)).unwrap_err().is_aborted());
}

#[test]
fn no_node_is_visited_under_a_cancelled_token() {
    let e = engine();
    let calls = Rc::new(Cell::new(0));
    let n = e.add(named("A"), counting(&calls, 0));
    let f = e.flow(Flow::new(n));
    let token = CancellationToken::new();
    token.cancel();
    assert!(e.run(f, &mut j("{}"), Some(token)).unwrap_err().is_aborted());
    assert_eq!(calls.get(), 0);
}

#[test]
fn a_bare_node_under_a_cancelled_token_does_not_run() {
    let e = engine();
    let calls = Rc::new(Cell::new(0));
    let n = e.add(named("A"), counting(&calls, 0));
    let token = CancellationToken::new();
    token.cancel();
    assert!(e.run(n, &mut j("{}"), Some(token)).unwrap_err().is_aborted());
    assert_eq!(calls.get(), 0);
}

#[test]
fn cancelling_between_nodes_stops_the_flow() {
    let e = engine();
    let token = CancellationToken::new();
    let t = token.clone();
    let a = e.add(
        named("A"),
        code().post(move |_, _, _, _| {
            t.cancel();
            Ok(None)
        }),
    );
    let calls = Rc::new(Cell::new(0));
    let b = e.add(named("B"), counting(&calls, 0));
    e.next(a, b);
    let f = e.flow(Flow::new(a));
    assert!(e.run(f, &mut j("{}"), Some(token)).unwrap_err().is_aborted());
    assert_eq!(calls.get(), 0);
}

/* --------------------------------- cloning -------------------------------- */

#[test]
fn clone_deep_clones_successor_subgraph_preserving_methods() {
    let e = engine();
    let a = e.add(named("A"), code().exec(|_, _| Ok(j("1"))));
    let b = e.add(named("B"), code().exec(|_, _| Ok(j("2"))));
    e.next(a, b);
    e.on(b, "loop", a);
    let mut memo = CloneMemo::new();
    let a2 = e.graph.borrow_mut().clone_graph(a, &mut memo);
    e.adopt(&memo);
    assert_ne!(a2, a);
    let g = e.graph.borrow();
    let b2 = g.node(a2).resolve_successor(&None).unwrap();
    assert_ne!(b2, b);
    assert_eq!(g.node(b2).name(), "B");
    assert_eq!(g.node(b2).resolve_successor(&act("loop")), Some(a2));
    assert_eq!(g.node(a).resolve_successor(&None), Some(b));
    assert_eq!(g.node(b).resolve_successor(&act("loop")), Some(a));
    assert_eq!(memo.len(), 2);
    assert_eq!((memo[&a], memo[&b]), (a2, b2));
    assert_eq!(g.len(), 4);
    assert_eq!(g.node(a2).node_core().id(), a2);
    drop(g);
    let exec = |n: NodeRef| (e.code.borrow()[&n].clone().exec)(&e.cx(n), &Value::Null).unwrap();
    assert_eq!(exec(b2), j("2"));
    assert_eq!(exec(a2), j("1"));
}

#[test]
fn clone_copies_params_dicts_not_shares() {
    let e = engine();
    let a = e.add(named("A"), code());
    e.set_params(a, r#"{"x": 1}"#);
    let a2 = e.graph.borrow_mut().clone_graph(a, &mut CloneMemo::new());
    e.set_params(a2, r#"{"x": 2}"#);
    let g = e.graph.borrow();
    assert_eq!(g.node(a).node_core().own_params().unwrap()["x"], j("1"));
    assert_eq!(g.node(a2).node_core().own_params().unwrap()["x"], j("2"));
}

#[test]
fn a_cloned_flow_starts_at_the_copy_of_its_start() {
    let e = engine();
    let (leaf, after) = (e.add(named("Leaf"), code()), e.add(named("After"), code()));
    e.next(leaf, after);
    let f = e.flow(Flow::new(leaf).with_max_steps(9));
    let mut memo = CloneMemo::new();
    let f2 = e.graph.borrow_mut().clone_graph(f, &mut memo);
    let g = e.graph.borrow();
    let leaf2 = g.node(f2).start_node().unwrap();
    assert_ne!(leaf2, leaf);
    assert_eq!(g.node(leaf2).resolve_successor(&None), Some(memo[&after]));
    assert_eq!(g.node(f2).resolve_successor(&None), None);
    match g.node(f2) {
        FlowNode::Flow(f) => assert_eq!(f.max_steps(), 9),
        _ => panic!("the clone of a flow is a flow"),
    }
}

#[test]
fn a_flow_that_leads_back_to_itself_is_cloned_once() {
    let e = engine();
    let a = e.add(named("A"), code());
    let f = e.flow(Flow::new(a));
    e.next(a, f); // the flow contains a node that leads back to the flow
    let mut memo = CloneMemo::new();
    let f2 = e.graph.borrow_mut().clone_graph(f, &mut memo);
    let again = e.graph.borrow_mut().clone_graph(f, &mut memo);
    assert_eq!(again, f2);
    let a2 = e.graph.borrow().node(f2).start_node().unwrap();
    assert_eq!(e.graph.borrow().node(a2).resolve_successor(&None), Some(f2));
    let empty = e.flow(Flow::empty());
    let empty2 = e.graph.borrow_mut().clone_graph(empty, &mut CloneMemo::new());
    assert_eq!(e.graph.borrow().node(empty2).start_node(), None);
}

#[test]
fn a_cloned_batch_flow_keeps_its_config() {
    let e = engine();
    let a = e.add(named("A"), code());
    let bf = e.batch(BatchFlow::new(a).with_name("bf".to_string()).with_concurrency(4));
    let bf2 = e.graph.borrow_mut().clone_graph(bf, &mut CloneMemo::new());
    let g = e.graph.borrow();
    assert_eq!(g.node(bf2).name(), "bf");
    assert_ne!(g.node(bf2).start_node(), Some(a));
    assert_eq!(g.node(g.node(bf2).start_node().unwrap()).name(), "A");
}

#[test]
fn clones_share_branches_and_sub_flows() {
    let e = engine();
    let a = e.add(named("A"), code());
    let sub = e.sub(Subflow::new(a));
    let fan = e.fork(ForkJoin::new(vec![a, sub]));
    let fan2 = e.graph.borrow_mut().clone_graph(fan, &mut CloneMemo::new());
    let sub2 = e.graph.borrow_mut().clone_graph(sub, &mut CloneMemo::new());
    let g = e.graph.borrow();
    match g.node(fan2) {
        FlowNode::ForkJoin(f) => assert_eq!(f.branches(), [a, sub]), // branches stay shared
        _ => panic!("the clone of a fork is a fork"),
    }
    match g.node(sub2) {
        FlowNode::Subflow(s) => assert_eq!(*s.sub(), a),
        _ => panic!("the clone of a subflow is a subflow"),
    }
}

#[test]
fn a_clone_walks_as_the_original_does() {
    let e = engine();
    let nodes: Vec<NodeRef> = (0..4).map(|i| e.add(named(&format!("N{i}")), code())).collect();
    e.next(nodes[0], nodes[1]);
    e.on(nodes[1], "back", nodes[0]);
    e.on(nodes[1], "on", nodes[2]);
    e.next(nodes[2], nodes[2]);
    let copy = e.graph.borrow_mut().clone_graph(nodes[0], &mut CloneMemo::new());
    let g = e.graph.borrow();
    assert_eq!(g.len(), 7); // the unreachable node has no copy
    let actions = [None, act("back"), None, act("on"), None, None, act("end")];
    let (mut x, mut y) = (Some(nodes[0]), Some(copy));
    for a in &actions {
        assert_eq!(g.node(x.unwrap()).name(), g.node(y.unwrap()).name());
        assert_ne!(x, y);
        x = g.node(x.unwrap()).resolve_successor(a);
        y = g.node(y.unwrap()).resolve_successor(a);
    }
    assert_eq!((x, y), (None, None));
}

/* ------------------------- configuration and edge runs -------------------- */

fn ok_leaf() -> Code {
    code().post(|_, s, _, _| {
        s["ok"] = Value::from(true);
        Ok(None)
    })
}

#[test]
fn hooks_all_defaults_are_noops() {
    let e = engine();
    let f = one_node_flow(&e, code());
    e.use_hooks(f, hook());
    e.run(f, &mut j("{}"), None).unwrap();
}

#[test]
fn fork_join_getters_and_opts() {
    let e = engine();
    let branches = vec![id_worker(&e, "W", "x"), id_worker(&e, "W", "y")];
    let opts = NodeOpts::new().name("fan".to_string());
    let fan = e.fork(ForkJoin::new(branches.clone()).with_concurrency(2).with_node_opts(opts));
    assert_eq!(e.name(fan), "fan");
    let g = e.graph.borrow();
    match g.node(fan) {
        FlowNode::ForkJoin(f) => {
            assert_eq!(f.branches().len(), 2);
            assert_eq!(f.branches()[0], branches[0]);
        }
        _ => panic!("a fork stays a fork"),
    }
}

#[test]
fn fork_join_default_opts_runs_all_branches() {
    let e = engine();
    let branches = vec![id_worker(&e, "OutWriter", "x"), id_worker(&e, "OutWriter", "y")];
    let mut o = ops();
    o.join = Box::new(|s, b| {
        let all: Vec<Value> =
            b.iter().flatten().flat_map(|v| v["out"].as_array().unwrap().clone()).collect();
        s["out"] = Value::Array(all);
        Ok(())
    });
    let o = e.ops(o);
    let fan = e.fork(ForkJoin::with_ops(branches, o));
    let f = e.flow(Flow::new(fan));
    let mut shared = j(r#"{"out": []}"#);
    e.run(f, &mut shared, None).unwrap();
    assert_eq!(shared["out"], j(r#"["x", "y"]"#));
}

#[test]
fn fork_join_explicit_concurrency_bounds_parallelism() {
    let e = engine();
    let (active, max_active) = (Rc::new(Cell::new(0)), Rc::new(Cell::new(0)));
    let counter = || {
        let (a1, a2, m) = (active.clone(), active.clone(), max_active.clone());
        code()
            .prep(move |_, _| {
                a1.set(a1.get() + 1);
                m.set(m.get().max(a1.get()));
                Ok(Value::Null)
            })
            .post(move |_, _, _, _| {
                a2.set(a2.get() - 1);
                Ok(None)
            })
    };
    let branches: Vec<NodeRef> = (0..4).map(|_| e.add(named("W"), counter())).collect();
    let fan = e.fork(ForkJoin::new(branches).with_concurrency(2));
    let f = e.flow(Flow::new(fan));
    e.run(f, &mut j("{}"), None).unwrap();
    assert!(max_active.get() <= 2);
    // two at a time are handed out, and no more until one comes out
    let plan = match e.graph.borrow().node(fan) {
        FlowNode::ForkJoin(f) => f.exec_with_retry(),
        _ => panic!("a fork stays a fork"),
    };
    assert_eq!(plan.branches.len(), 4);
    let mut pool = plan.pool(&CancellationToken::new());
    let first = pool.claim().unwrap();
    assert!(pool.has_room());
    let _second = pool.claim().unwrap();
    assert!(!pool.has_room());
    assert!(pool.settle(first, Ok(None)).is_none());
    assert!(pool.has_room());
}

fn bad_branch(text: &'static str) -> Code {
    code().prep(move |_, _| Err(msg(text)))
}

/// A node that adds the id among its params to `out`.
fn id_worker(e: &Engine, name: &str, id: &str) -> NodeRef {
    let n = e.add(
        named(&format!("{name}:{id}")),
        code().post(|cx, s, _, _| {
            s["out"].as_array_mut().unwrap().push(cx.param("id"));
            Ok(None)
        }),
    );
    e.graph.borrow_mut().set_params(n, j(&format!(r#"{{"id": "{id}"}}"#)));
    n
}

/// A node that waits for good, while its run is cancelled.
fn cancelled_in_prep(token: &CancellationToken) -> Code {
    let t = token.clone();
    code().hangs().prep(move |_, _| {
        t.cancel();
        Ok(Value::Null)
    })
}

/// A worker that fails for one bundle.
fn bad_bundle(id: &'static str, text: &'static str) -> Code {
    code().prep(move |cx, _| {
        if cx.param("id") == Value::from(id) {
            return Err(msg(text));
        }
        Ok(Value::Null)
    })
}

const TWO: &str = r#"[{"id": "a"}, {"id": "b"}]"#;

#[test]
fn fork_join_undefined_slot_via_join() {
    let e = engine();
    let ok = code().post(|_, s, _, _| {
        s["slots"] = Value::from(s["slots"].as_i64().unwrap_or(0) + 1);
        Ok(None)
    });
    let branches = vec![e.add(named("Boom"), bad_branch("boom")), e.add(named("Ok"), ok)];
    let mut o = ops();
    o.join = Box::new(|s, b| {
        s["slots"] = Value::from(b.iter().filter(|x| x.is_some()).count());
        Ok(())
    });
    let o = e.ops(o);
    let fan = e.fork(ForkJoin::with_ops(branches, o));
    let f = e.flow(Flow::new(fan));
    let mut shared = j(r#"{"slots": 0}"#);
    e.run(f, &mut shared, None).unwrap();
    assert_eq!(shared["slots"], j("1"));
}

#[test]
fn fork_join_fail_fast_false_with_on_error_invokes_it() {
    let e = engine();
    let branches = vec![e.add(named("Boom"), bad_branch("boom")), e.add(named("Ok"), code())];
    let o = e.ops(ops());
    let fan =
        e.fork(ForkJoin::with_ops(branches, o).with_fail_fast(false).with_concurrency(2));
    let f = e.flow(Flow::new(fan));
    let errs = Rc::new(Cell::new(0));
    let n = errs.clone();
    e.use_hooks(
        f,
        hook().error(move |_, _| {
            n.set(n.get() + 1);
            Ok(None)
        }),
    );
    e.run(f, &mut j("{}"), None).unwrap();
    assert!(errs.get() >= 1);
}

#[test]
fn fork_join_branch_failure_hook_throws() {
    let e = engine();
    let branches = vec![e.add(named("B"), bad_branch("branch boom"))];
    let o = e.ops(ops());
    let fan = e.fork(ForkJoin::with_ops(branches, o).with_fail_fast(false));
    let f = e.flow(Flow::new(fan));
    e.use_hooks(f, hook().error(|_, _| Err(msg("hook boom"))));
    assert_eq!(e.run(f, &mut j("{}"), None).unwrap_err().message(), "hook boom");
}

#[test]
fn subflow_getters_and_retry_then_success() {
    let e = engine();
    let calls = Rc::new(Cell::new(0));
    let c = calls.clone();
    let flaky = ok_leaf().prep(move |_, _| {
        c.set(c.get() + 1);
        if c.get() == 1 {
            return Err(msg("first attempt fails"));
        }
        Ok(Value::Null)
    });
    let leaf = e.add(named("Leaf"), flaky);
    let inner = e.flow(Flow::new(leaf));
    let opts = NodeOpts::new().name("sub".to_string()).max_retries(1).wait_ms(1);
    let sub = e.sub(Subflow::new(inner).with_node_opts(opts));
    assert_eq!(e.name(sub), "sub");
    assert_eq!(e.graph.borrow().node(sub).node_core().max_retries(), 1);
    let f = e.flow(Flow::new(sub));
    let mut shared = j("{}");
    e.run(f, &mut shared, None).unwrap();
    assert_eq!(calls.get(), 2);
    assert!(shared.get("ok").is_none()); // nothing is folded back unless asked for
}

#[test]
fn subflow_sub_getter_returns_nested_flow() {
    let e = engine();
    let inner = one_node_flow(&e, code());
    assert_eq!(*Subflow::new(inner).sub(), inner);
}

#[test]
fn flow_with_node_opts_applies_name() {
    let e = engine();
    let n = e.add(named("A"), code());
    let opts = NodeOpts::new().name("NamedFlow".to_string());
    let f = e.flow(Flow::new(n).with_node_opts(opts));
    assert_eq!(e.name(f), "NamedFlow");
}

#[test]
fn flow_clone_preserves_hooks_and_start() {
    let e = engine();
    let starts = Rc::new(Cell::new(0));
    let s = starts.clone();
    let hit = code().post(|_, s, _, _| {
        s["hit"] = Value::from(true);
        Ok(None)
    });
    let leaf = e.add(named("L"), hit);
    let f = e.flow(Flow::new(leaf));
    e.use_hooks(
        f,
        hook().start(move || {
            s.set(s.get() + 1);
            Ok(())
        }),
    );
    let mut memo = CloneMemo::new();
    let f2 = e.graph.borrow_mut().clone_graph(f, &mut memo);
    let c = e.code.borrow()[&leaf].clone();
    e.code.borrow_mut().insert(memo[&leaf], c);
    match (e.graph.borrow().node(f), e.graph.borrow().node(f2)) {
        (FlowNode::Flow(a), FlowNode::Flow(b)) => assert_eq!(a.hooks(), b.hooks()),
        _ => panic!("the clone of a flow is a flow"),
    }
    // run as a node, a flow does not fire its start hooks
    let mut shared = j(r#"{"hit": false}"#);
    let bare = bare_run(&e.graph.borrow(), f2, None);
    e.live(f2, &mut shared, &vec![], &bare.path, &bare.signal).unwrap();
    assert_eq!(shared["hit"], j("true"));
    assert_eq!(starts.get(), 0);
}

#[test]
fn flow_node_params_method() {
    let e = engine();
    let n = e.add(named("A"), code());
    e.set_params(n, r#"{"x": 1, "y": 2}"#);
    let p = e.graph.borrow().node(n).params();
    assert_eq!(p["x"], j("1"));
    assert_eq!(p["y"], j("2"));
}

#[test]
fn default_on_retry_body_runs() {
    let e = engine();
    let calls = Rc::new(Cell::new(0));
    let c = calls.clone();
    let once = code().exec(move |_, _| {
        c.set(c.get() + 1);
        if c.get() == 1 {
            return Err(msg("once"));
        }
        Ok(Value::from("ok"))
    });
    let n = e.add(NodeCore::with_opts(NodeOpts::new().max_retries(1).wait_ms(1)), once);
    let f = e.flow(Flow::new(n));
    e.use_hooks(f, hook());
    e.run(f, &mut j("{}"), None).unwrap();
    assert_eq!(calls.get(), 2);
}

#[test]
fn flow_ops_prep_error_propagates() {
    let e = engine();
    let n = e.add(named("A"), code());
    let mut o = ops();
    o.prep = Box::new(|_| Err(msg("flow prep boom")));
    let o = e.ops(o);
    let f = e.flow(Flow::with_ops(n, o));
    assert_eq!(e.run(f, &mut j("{}"), None).unwrap_err().message(), "flow prep boom");
}

#[test]
fn flow_with_void_prep_still_orchestrates() {
    let e = engine();
    let leaf = e.add(named("Leaf"), ok_leaf());
    let o = e.ops(ops());
    let w = e.flow(Flow::with_ops(leaf, o));
    let f = e.flow(Flow::new(w));
    let mut shared = j(r#"{"ok": false}"#);
    e.run(f, &mut shared, None).unwrap();
    assert_eq!(shared["ok"], j("true"));
}

#[test]
fn flow_with_value_prep_still_orchestrates() {
    let e = engine();
    let leaf = code().post(|_, s, _, _| {
        s["v"] = Value::from(1);
        Ok(None)
    });
    let leaf = e.add(named("Leaf"), leaf);
    let mut o = ops();
    o.prep = Box::new(|_| Ok(Value::from("prep-val")));
    let o = e.ops(o);
    let w = e.flow(Flow::with_ops(leaf, o));
    let f = e.flow(Flow::new(w));
    let mut shared = j(r#"{"v": 0}"#);
    e.run(f, &mut shared, None).unwrap();
    assert_eq!(shared["v"], j("1"));
}

#[test]
fn node_under_timeout_completes_normally() {
    let e = engine();
    let quick = code().prep(|_, s| {
        s["ok"] = Value::from(true);
        Ok(Value::Null)
    });
    let n = e.add(NodeCore::with_opts(NodeOpts::new().timeout_ms(500)), quick);
    let f = e.flow(Flow::new(n));
    let mut shared = j("{}");
    e.run(f, &mut shared, None).unwrap();
    assert_eq!(shared["ok"], j("true"));
}

#[test]
fn a_timed_out_node_does_not_run_post() {
    let e = engine();
    let post_ran = Rc::new(Cell::new(false));
    let p = post_ran.clone();
    let late = code().hangs().post(move |_, _, _, _| {
        p.set(true);
        Ok(None)
    });
    let n = e.add(NodeCore::with_opts(NodeOpts::new().timeout_ms(30)), late);
    let f = e.flow(Flow::new(n));
    let err = e.run(f, &mut j("{}"), None).unwrap_err();
    assert!(matches!(err, FlowError::Timeout { .. }));
    assert!(!post_ran.get());
}

#[test]
fn batch_fail_fast_false_does_not_cancel_siblings() {
    let e = engine();
    let w = code()
        .prep(|_, _| Ok(j(r#"["a", "b", "c"]"#)))
        .item(|item, _| {
            if *item == Value::from("a") {
                return Err(msg("a failed"));
            }
            Ok(item.clone())
        })
        .post(|_, s, _, r| {
            s["batchOut"] = r.clone();
            Ok(None)
        });
    let opts = NodeOpts::batch().concurrency(3).fail_fast(false);
    let n = e.add(NodeCore::with_opts(opts), w);
    let f = e.flow(Flow::new(n));
    let mut shared = j("{}");
    e.run(f, &mut shared, None).unwrap();
    assert_eq!(shared["batchOut"], j(r#"[null, "b", "c"]"#));
}

#[test]
fn batch_flow_new_constructor_and_with_node_opts() {
    let e = engine();
    let n = e.add(named("W"), code());
    let opts = NodeOpts::new().name("bf2".to_string());
    let bf = e.batch(BatchFlow::new(n).with_node_opts(opts));
    assert_eq!(e.name(bf), "bf2");
    e.run(bf, &mut j("{}"), None).unwrap();
}

#[test]
fn batch_flow_prep_error_propagates() {
    let e = engine();
    let n = e.add(named("W"), code());
    let mut o = ops();
    o.prep = Box::new(|_| Err(msg("prep boom")));
    let o = e.ops(o);
    let bf = e.batch(BatchFlow::with_ops(n, o));
    assert_eq!(e.run(bf, &mut j("{}"), None).unwrap_err().message(), "prep boom");
}

#[test]
fn batch_flow_merge_error_propagates() {
    let e = engine();
    let n = e.add(named("W"), code());
    let mut o = bundles(r#"[{"id": "a"}]"#);
    o.merge = Box::new(|_, _| Err(msg("merge boom")));
    let o = e.ops(o);
    let bf = e.batch(BatchFlow::with_ops(n, o).with_concurrency(2));
    assert_eq!(e.run(bf, &mut j("{}"), None).unwrap_err().message(), "merge boom");
}

#[test]
fn batch_flow_run_start_and_end_hook_errors() {
    let e = engine();
    let n = e.add(named("W"), code());
    let bf = e.batch(BatchFlow::new(n));
    e.use_hooks(bf, hook().start(|| Err(msg("start boom"))));
    assert_eq!(e.run(bf, &mut j("{}"), None).unwrap_err().message(), "start boom");
    let bf = e.batch(BatchFlow::new(n));
    e.use_hooks(bf, hook().end(|_| Err(msg("onend boom"))));
    assert_eq!(e.run(bf, &mut j("{}"), None).unwrap_err().message(), "onend boom");
}

#[test]
fn batch_flow_clone_no_start_and_cycle_memo_hit() {
    let e = engine();
    let bf = e.batch(BatchFlow::unstarted());
    let bf2 = e.graph.borrow_mut().clone_graph(bf, &mut CloneMemo::new());
    assert_eq!(e.graph.borrow().node(bf2).start_node(), None);
    let w = e.add(named("W"), code());
    e.next(w, w);
    let bf = e.batch(BatchFlow::new(w));
    let bf2 = e.graph.borrow_mut().clone_graph(bf, &mut CloneMemo::new());
    let g = e.graph.borrow();
    let w2 = g.node(bf2).start_node().unwrap();
    assert_ne!(w2, w);
    assert_eq!(g.node(w2).resolve_successor(&None), Some(w2));
}

#[test]
fn batch_flow_parallel_params_do_not_race() {
    let e = engine();
    let seen = log();
    let s = seen.clone();
    let race = code().post(move |cx, _, _, _| {
        s.borrow_mut().push(cx.param("id").as_str().unwrap().to_string());
        Ok(None)
    });
    let n = e.add(named("Worker"), race);
    let o = e.ops(bundles(IDS));
    let bf = e.batch(BatchFlow::with_ops(n, o).with_concurrency(3));
    e.run(bf, &mut j("{}"), None).unwrap();
    let mut seen = seen.borrow().clone();
    seen.sort();
    assert_eq!(seen, vec!["a", "b", "c"]);
}

#[test]
fn batch_flow_sequential_non_fail_fast_continues() {
    let e = engine();
    let w = code().post(|cx, s, _, _| {
        let id = cx.param("id");
        if id == Value::from("a") {
            return Err(msg("seq a"));
        }
        s["seen"].as_array_mut().unwrap().push(id);
        Ok(None)
    });
    let n = e.add(named("Worker"), w);
    let o = e.ops(bundles(r#"[{"id": "a"}, {"id": "b"}]"#));
    let bf = e.batch(BatchFlow::with_ops(n, o).with_concurrency(1));
    let f = e.flow(Flow::new(bf));
    let errs = Rc::new(Cell::new(0));
    let c = errs.clone();
    e.use_hooks(
        f,
        hook().error(move |_, _| {
            c.set(c.get() + 1);
            Ok(None)
        }),
    );
    let mut shared = j(r#"{"seen": []}"#);
    e.run(f, &mut shared, None).unwrap();
    assert_eq!(shared["seen"], j(r#"["b"]"#));
    assert!(errs.get() >= 1);
}

#[test]
fn batch_flow_parallel_fail_fast_false_without_on_error_completes() {
    let e = engine();
    let w = code().post(|cx, _, _, _| {
        if cx.param("id") == Value::from("b") {
            return Err(msg("b"));
        }
        Ok(None)
    });
    let n = e.add(named("Worker"), w);
    let o = e.ops(bundles(r#"[{"id": "a"}, {"id": "b"}]"#));
    let bf = e.batch(BatchFlow::with_ops(n, o).with_concurrency(3));
    let f = e.flow(Flow::new(bf));
    e.run(f, &mut j("{}"), None).unwrap();
}

#[test]
fn batch_flow_void_prep_uses_empty_bundles() {
    let e = engine();
    let n = e.add(named("Worker"), ok_leaf());
    let o = e.ops(ops());
    let bf = e.batch(BatchFlow::with_ops(n, o).with_concurrency(3));
    let f = e.flow(Flow::new(bf));
    let mut shared = j(r#"{"ok": false}"#);
    e.run(f, &mut shared, None).unwrap();
    assert_eq!(shared["ok"], j("false"));
}

/* ------------------- runs that fail, stop, and are cloned ----------------- */

#[test]
fn cloning_a_flow_clones_its_start_node_subgraph() {
    let e = engine();
    let hit = code().post(|_, s, _, _| {
        s["hit"] = Value::from(true);
        Ok(None)
    });
    let leaf = e.add(named("Leaf"), hit);
    let f = e.flow(Flow::new(leaf));
    let mut memo = CloneMemo::new();
    let f2 = e.graph.borrow_mut().clone_graph(f, &mut memo);
    e.adopt(&memo);
    assert_eq!(e.graph.borrow().node(f2).resolve_successor(&None), None);
    let mut shared = j(r#"{"hit": false}"#);
    e.run_bare(f2, &mut shared, None).unwrap();
    assert_eq!(shared["hit"], j("true"));
    let f3 = e.graph.borrow_mut().clone_graph(f, &mut CloneMemo::new());
    let g = e.graph.borrow();
    assert_eq!(g.node(f).start_node(), Some(leaf));
    assert_ne!(g.node(f3).start_node(), Some(leaf));
    assert_ne!(g.node(f3).start_node(), g.node(f2).start_node());
}

#[test]
fn node_with_retries_does_not_burn_them_on_abort() {
    let e = engine();
    let attempts = Rc::new(Cell::new(0));
    let token = CancellationToken::new();
    let (seen, t) = (attempts.clone(), token.clone());
    let c = code().hangs().exec(move |_, _| {
        seen.set(seen.get() + 1);
        t.cancel();
        Ok(Value::from("ok"))
    });
    let n = e.add(NodeCore::with_opts(NodeOpts::new().max_retries(5)), c);
    let f = e.flow(Flow::new(n));
    assert!(e.run(f, &mut j("{}"), Some(token)).unwrap_err().is_aborted());
    assert_eq!(attempts.get(), 1);
}

#[test]
fn aborting_run_rejects_with_abort_error() {
    let e = engine();
    let token = CancellationToken::new();
    let n = e.add(named("Slow"), cancelled_in_prep(&token));
    let f = e.flow(Flow::new(n));
    assert!(e.run(f, &mut j("{}"), Some(token)).unwrap_err().is_aborted());
}

#[test]
fn cancelling_batch_node_mid_run_propagates_abort() {
    let e = engine();
    let token = CancellationToken::new();
    let t = token.clone();
    let mid = code().prep(|_, _| Ok(j("[1, 2, 3, 4]"))).item(move |item, _| {
        t.cancel();
        Ok(item.clone())
    });
    let n = e.add(NodeCore::with_opts(NodeOpts::batch().concurrency(2)), mid);
    let f = e.flow(Flow::new(n));
    assert!(e.run(f, &mut j("{}"), Some(token)).unwrap_err().is_aborted());
}

#[test]
fn fork_join_fail_fast_rethrows_and_aborts() {
    let e = engine();
    let branches =
        vec![e.add(named("Boom"), bad_branch("boom")), e.add(named("Hang"), code())];
    let fan = e.fork(ForkJoin::new(branches).with_fail_fast(true));
    let f = e.flow(Flow::new(fan));
    assert_eq!(e.run(f, &mut j("{}"), None).unwrap_err().message(), "boom");
}

#[test]
fn subflow_inner_failure_exercises_exec_fallback() {
    let e = engine();
    let leaf = e.add(named("Leaf"), bad_branch("leaf fail"));
    let inner = e.flow(Flow::new(leaf));
    let called = Rc::new(Cell::new(false));
    let c = called.clone();
    let mut o = ops();
    o.derive = Some(Box::new(|s| Ok(s.clone())));
    o.fallback = Box::new(move |_, err| {
        assert_eq!(err.message(), "leaf fail");
        c.set(true);
        Err(msg("propagated"))
    });
    let o = e.ops(o);
    let sub = e.sub(Subflow::with_ops(inner, o));
    let f = e.flow(Flow::new(sub));
    assert_eq!(e.run(f, &mut j("{}"), None).unwrap_err().message(), "propagated");
    assert!(called.get());
}

#[test]
fn batch_flow_parallel_non_fail_fast_on_error_fires_and_merge_folds() {
    let e = engine();
    let w = code().post(|cx, s, _, _| {
        let id = cx.param("id");
        if id == Value::from("b") {
            return Err(msg("bundle b"));
        }
        s["seen"].as_array_mut().unwrap().push(id);
        Ok(None)
    });
    let n = e.add(named("Worker"), w);
    let mut o = bundles(IDS);
    o.merge = Box::new(|parent, own| {
        let all: Vec<Value> =
            own.iter().flat_map(|b| b["seen"].as_array().unwrap().clone()).collect();
        parent["seen"] = Value::Array(all);
        Ok(())
    });
    let o = e.ops(o);
    let bf = e.batch(BatchFlow::with_ops(n, o).with_concurrency(3));
    let f = e.flow(Flow::new(bf));
    let errs = Rc::new(Cell::new(0));
    let c = errs.clone();
    e.use_hooks(
        f,
        hook().error(move |_, _| {
            c.set(c.get() + 1);
            Ok(None)
        }),
    );
    let mut shared = j(r#"{"seen": []}"#);
    e.run(f, &mut shared, None).unwrap();
    assert_eq!(shared["seen"], j(r#"["a", "c"]"#));
    assert!(errs.get() >= 1);
}

#[test]
fn batch_flow_sequential_fail_fast_rethrows() {
    let e = engine();
    let seq = code().post(|cx, _, _, _| {
        if cx.param("id") == Value::from("a") {
            return Err(msg("seq a"));
        }
        Ok(None)
    });
    let n = e.add(named("Worker"), seq);
    let o = e.ops(bundles(TWO));
    let bf = BatchFlow::with_ops(n, o).with_concurrency(1).with_fail_fast(true);
    let bf = e.batch(bf);
    let f = e.flow(Flow::new(bf));
    assert_eq!(e.run(f, &mut j("{}"), None).unwrap_err().message(), "seq a");
}

#[test]
fn bare_node_run_honors_signal() {
    let e = engine();
    let token = CancellationToken::new();
    let n = e.add(named("Slow"), cancelled_in_prep(&token));
    assert!(e.run(n, &mut j("{}"), Some(token)).unwrap_err().is_aborted());
}

#[test]
fn orchestration_aborts_at_node_boundary_when_pre_aborted() {
    let e = engine();
    let token = CancellationToken::new();
    token.cancel();
    let branches = vec![e.add(named("N"), code()), e.add(named("N"), code())];
    let fan = e.fork(ForkJoin::new(branches).with_concurrency(2));
    let f = e.flow(Flow::new(fan));
    assert!(e.run(f, &mut j("{}"), Some(token)).unwrap_err().is_aborted());
}

#[test]
fn batch_flow_parallel_cancel_mid_run_rethrows_abort() {
    let e = engine();
    let token = CancellationToken::new();
    let n = e.add(named("Worker"), cancelled_in_prep(&token));
    let o = e.ops(bundles(TWO));
    let bf = e.batch(BatchFlow::with_ops(n, o).with_concurrency(3));
    let f = e.flow(Flow::new(bf));
    let called = Rc::new(Cell::new(false));
    let c = called.clone();
    e.use_hooks(
        f,
        hook().error(move |_, _| {
            c.set(true);
            Ok(None)
        }),
    );
    assert!(e.run(f, &mut j("{}"), Some(token)).unwrap_err().is_aborted());
    assert!(!called.get());
}

#[test]
fn batch_flow_sequential_cancel_mid_run_rethrows_abort() {
    let e = engine();
    let token = CancellationToken::new();
    let n = e.add(named("Worker"), cancelled_in_prep(&token));
    let o = e.ops(bundles(TWO));
    let bf = e.batch(BatchFlow::with_ops(n, o).with_concurrency(1));
    let f = e.flow(Flow::new(bf));
    assert!(e.run(f, &mut j("{}"), Some(token)).unwrap_err().is_aborted());
}

#[test]
fn fork_join_no_branches_uses_make_branches() {
    let e = engine();
    let w = code().post(|_, s, _, _| {
        s["out"] = Value::from("ran");
        Ok(None)
    });
    let w = e.add(named("W"), w);
    let mut o = ops();
    o.make_branches = Some(Box::new(move |_| vec![w]));
    o.join = Box::new(|s, b| {
        if let Some(Some(b)) = b.first() {
            s["out"] = b["out"].clone();
        }
        Ok(())
    });
    let o = e.ops(o);
    let fan = e.fork(ForkJoin::with_ops(vec![], o));
    let f = e.flow(Flow::new(fan));
    let mut shared = j("{}");
    e.run(f, &mut shared, None).unwrap();
    assert_eq!(shared["out"], Value::from("ran"));
}

#[test]
fn batch_flow_parallel_zero_bundles_skips_parallel() {
    let e = engine();
    let n = e.add(named("N"), code());
    let merged = Rc::new(Cell::new(false));
    let m = merged.clone();
    let mut o = bundles("[]");
    o.merge = Box::new(move |_, _| {
        m.set(true);
        Ok(())
    });
    let o = e.ops(o);
    let bf = e.batch(BatchFlow::with_ops(n, o).with_concurrency(4));
    let f = e.flow(Flow::new(bf));
    e.run(f, &mut j("{}"), None).unwrap();
    assert!(!merged.get());
}

#[test]
fn batch_fail_fast_false_with_on_error_invokes_it() {
    let e = engine();
    let bad = code().prep(|_, _| Ok(j("[1, 2]"))).item(|item, _| {
        if *item == j("1") {
            return Err(msg("bad"));
        }
        Ok(Value::from("ok"))
    });
    let opts = NodeOpts::batch().concurrency(2).fail_fast(false);
    let n = e.add(NodeCore::with_opts(opts), bad);
    let f = e.flow(Flow::new(n));
    let errs = Rc::new(Cell::new(0));
    let c = errs.clone();
    e.use_hooks(
        f,
        hook().error(move |_, _| {
            c.set(c.get() + 1);
            Ok(None)
        }),
    );
    e.run(f, &mut j("{}"), None).unwrap();
    assert!(errs.get() >= 1);
}

#[test]
fn batch_flow_parallel_clone_shared_override() {
    let e = engine();
    let w = code().post(|_, s, _, _| {
        let tagged = s["tagged"].as_bool().unwrap_or(false);
        s["seen"].as_array_mut().unwrap().push(Value::from(tagged));
        Ok(None)
    });
    let n = e.add(named("W"), w);
    let mut o = bundles(TWO);
    o.merge = Box::new(|parent, own| {
        let all: Vec<Value> =
            own.iter().flat_map(|b| b["seen"].as_array().unwrap().clone()).collect();
        parent["seen"] = Value::Array(all);
        Ok(())
    });
    let o = e.ops(o);
    let copier = e.copier(|s| {
        let mut c = s.clone();
        c["tagged"] = Value::from(true);
        c
    });
    let bf = BatchFlow::with_ops(n, o).with_concurrency(2).with_clone_shared(copier);
    let bf = e.batch(bf);
    let mut shared = j(r#"{"seen": []}"#);
    e.run(bf, &mut shared, None).unwrap();
    assert_eq!(shared["seen"], j("[true, true]"));
}

#[test]
fn batch_flow_clone_node_clones_start_graph() {
    let e = engine();
    let hit = code().post(|cx, s, _, _| {
        s["hits"].as_array_mut().unwrap().push(cx.param("id"));
        Ok(None)
    });
    let w = e.add(named("W"), hit);
    let o = e.ops(bundles(TWO));
    let bf = e.batch(BatchFlow::with_ops(w, o));
    let mut memo = CloneMemo::new();
    let bf2 = e.graph.borrow_mut().clone_graph(bf, &mut memo);
    e.adopt(&memo);
    let mut shared = j(r#"{"hits": []}"#);
    e.run_bare(bf2, &mut shared, None).unwrap();
    assert_eq!(shared["hits"], j(r#"["a", "b"]"#));
    let bf3 = e.graph.borrow_mut().clone_graph(bf, &mut CloneMemo::new());
    assert_ne!(bf3, bf);
    assert_eq!(e.graph.borrow().node(bf).start_node(), Some(w));
    assert_ne!(e.graph.borrow().node(bf3).start_node(), Some(w));
}

#[test]
fn fork_join_exec_fallback_recovers() {
    let e = engine();
    let bad = e.add(named("B"), bad_branch("branch boom"));
    let mut o = ops();
    o.fallback = Box::new(|_, _| Ok(j(r#"["fb"]"#)));
    o.join = Box::new(|s, b| {
        let got = b.iter().map(|s| s.clone().unwrap_or(Value::Null)).collect();
        s["slots"] = Value::Array(got);
        Ok(())
    });
    let o = e.ops(o);
    let fan = e.fork(ForkJoin::with_ops(vec![bad], o).with_fail_fast(true));
    let f = e.flow(Flow::new(fan));
    let mut shared = j("{}");
    e.run(f, &mut shared, None).unwrap();
    assert_eq!(shared["slots"], j(r#"["fb"]"#));
}

#[test]
fn fork_join_clone_node() {
    let e = engine();
    let branches = vec![id_worker(&e, "W", "x"), id_worker(&e, "W", "y")];
    let count = Rc::new(Cell::new(0));
    let c = count.clone();
    let mut o = ops();
    o.join = Box::new(move |_, b| {
        c.set(b.len());
        Ok(())
    });
    let o = e.ops(o);
    let fan = e.fork(ForkJoin::with_ops(branches, o));
    let fan2 = e.graph.borrow_mut().clone_graph(fan, &mut CloneMemo::new());
    let f = e.flow(Flow::new(fan2));
    e.run(f, &mut j(r#"{"out": []}"#), None).unwrap();
    assert_eq!(count.get(), 2);
}

#[test]
fn batch_item_retries_per_item() {
    let e = engine();
    let attempts = Rc::new(Cell::new(0));
    let a = attempts.clone();
    let c = code().prep(|_, _| Ok(j("[1]"))).item(move |i, _| {
        a.set(a.get() + 1);
        if a.get() <= 2 {
            return Err(msg("flaky"));
        }
        Ok(i.clone())
    });
    let opts = NodeOpts::batch().max_retries(2).wait_ms(1);
    let n = e.add(NodeCore::with_opts(opts), keep_result(c, "out"));
    let mut shared = j("{}");
    e.run(n, &mut shared, None).unwrap();
    assert_eq!(attempts.get(), 3);
    assert_eq!(shared["out"], j("[1]"));
}

#[test]
fn batch_flow_parallel_bundle_failure_hook_throws() {
    let e = engine();
    let n = e.add(named("W"), bad_bundle("b", "bundle b"));
    let o = e.ops(bundles(TWO));
    let bf = e.batch(BatchFlow::with_ops(n, o).with_concurrency(2));
    let f = e.flow(Flow::new(bf));
    e.use_hooks(f, hook().error(|_, _| Err(msg("hook boom"))));
    assert_eq!(e.run(f, &mut j("{}"), None).unwrap_err().message(), "hook boom");
}

#[test]
fn flow_clone_cycle_memo_hit_and_empty_clone() {
    let e = engine();
    let w = e.add(named("W"), code());
    e.next(w, w);
    let f = e.flow(Flow::new(w));
    let f2 = e.graph.borrow_mut().clone_graph(f, &mut CloneMemo::new());
    let w2 = e.graph.borrow().node(f2).start_node().unwrap();
    assert_ne!(w2, w);
    assert_eq!(e.graph.borrow().node(w2).resolve_successor(&None), Some(w2));
    let empty = e.flow(Flow::empty());
    let empty2 = e.graph.borrow_mut().clone_graph(empty, &mut CloneMemo::new());
    assert_eq!(e.graph.borrow().node(empty2).start_node(), None);
}

#[test]
fn batch_flow_sequential_bundle_failure_hook_throws() {
    let e = engine();
    let seq = code().post(|cx, _, _, _| {
        if cx.param("id") == Value::from("b") {
            return Err(msg("bundle b"));
        }
        Ok(None)
    });
    let n = e.add(named("W"), seq);
    let o = e.ops(bundles(TWO));
    let bf = e.batch(BatchFlow::with_ops(n, o).with_concurrency(1));
    let f = e.flow(Flow::new(bf));
    e.use_hooks(f, hook().error(|_, _| Err(msg("hook boom"))));
    assert_eq!(e.run(f, &mut j("{}"), None).unwrap_err().message(), "hook boom");
}

#[test]
fn a_branch_that_succeeds_over_a_null_context_is_joined_as_null() {
    let e = engine();
    let n = e.add(named("N"), code());
    let bad = e.add(named("Bad"), bad_branch("boom"));
    let slots = Rc::new(RefCell::new(vec![]));
    let o = e.ops(slots_into(&slots));
    let fan = e.fork(ForkJoin::with_ops(vec![n, bad], o));
    assert_eq!(e.run(fan, &mut Value::Null, None).unwrap(), None);
    assert_eq!(*slots.borrow(), vec![Some(Value::Null), None]);
}

#[test]
fn a_run_leaves_no_token_behind() {
    let e = engine();
    let token = CancellationToken::new();
    let seen = |cx: &Cx, _: &mut Value| {
        assert!(cx.signal.is_some());
        Ok(Value::Null)
    };
    let leaf = e.add(named("Leaf"), code().prep(seen));
    let bad = e.add(named("Bad"), bad_branch("boom"));
    e.next(leaf, bad);
    let inner = e.flow(Flow::new(leaf));
    let sub = e.sub(Subflow::new(inner));
    let fan = e.fork(ForkJoin::new(vec![sub]));
    let outer = e.flow(Flow::new(fan));
    let all = [leaf, bad, inner, sub, fan, outer];
    let outside = || all.iter().all(|n| e.graph.borrow().node(*n).signal().is_none());
    assert!(outside());
    e.run(outer, &mut j("{}"), Some(token.clone())).unwrap();
    assert!(outside());
    // a run that fails, and one that fails to start
    assert_eq!(e.run(inner, &mut j("{}"), Some(token)).unwrap_err().message(), "boom");
    assert!(outside());
    e.use_hooks(outer, hook().start(|| Err(msg("start boom"))));
    assert_eq!(e.run(outer, &mut j("{}"), None).unwrap_err().message(), "start boom");
    assert!(outside());
    // and a bare node
    e.run(leaf, &mut j("{}"), Some(CancellationToken::new())).unwrap();
    assert!(outside());
}

#[test]
fn cooperative_cancel_exec_reads_signal() {
    let e = engine();
    let token = CancellationToken::new();
    let saw = Rc::new(Cell::new(false));
    let (t, s) = (token.clone(), saw.clone());
    let fetchy = code().exec(move |cx, _| {
        let signal = cx.signal.as_ref().unwrap();
        s.set(!signal.is_cancelled());
        t.cancel();
        // the wait for the reply ends with whichever comes first
        if signal.is_cancelled() {
            Err(FlowError::Aborted)
        } else {
            Err(msg("completed"))
        }
    });
    let n = e.add(named("Fetchy"), fetchy);
    let f = e.flow(Flow::new(n));
    assert!(e.run(f, &mut j("{}"), Some(token)).unwrap_err().is_aborted());
    assert!(saw.get());
}

#[test]
fn fork_join_fail_fast_cancels_sibling_branches() {
    let e = engine();
    e.in_order.set(true);
    let finished = Rc::new(Cell::new(0));
    let hang = || {
        let n = finished.clone();
        code().prep(move |_, _| {
            n.set(n.get() + 1);
            Ok(Value::Null)
        })
    };
    let branches = vec![
        e.add(named("Boom"), bad_branch("boom")),
        e.add(named("Hang"), hang()),
        e.add(named("Hang"), hang()),
    ];
    let fan = e.fork(ForkJoin::new(branches).with_concurrency(3).with_fail_fast(true));
    let f = e.flow(Flow::new(fan));
    assert_eq!(e.run(f, &mut j("{}"), None).unwrap_err().message(), "boom");
    assert_eq!(finished.get(), 0); // both were in flight and were stopped
}

#[test]
fn batch_flow_fail_fast_cancels_in_flight_bundles() {
    let e = engine();
    e.in_order.set(true);
    let finished = Rc::new(Cell::new(0));
    let n = finished.clone();
    let w = code().prep(move |cx, _| {
        if cx.param("id") == Value::from("a") {
            return Err(msg("bundle a failed"));
        }
        n.set(n.get() + 1);
        Ok(Value::Null)
    });
    let w = e.add(named("Worker"), w);
    let o = e.ops(bundles(IDS));
    let bf = e.batch(BatchFlow::with_ops(w, o).with_concurrency(3).with_fail_fast(true));
    assert_eq!(e.run(bf, &mut j("{}"), None).unwrap_err().message(), "bundle a failed");
    assert_eq!(finished.get(), 0); // the others were in flight and were stopped
}

#[test]
fn the_work_of_a_node_runs_in_order() {
    for fails in 0..4 {
        let e = engine();
        let seen = log();
        let (s1, s2, s3) = (seen.clone(), seen.clone(), seen.clone());
        let c = code()
            .prep(move |_, _| {
                s1.borrow_mut().push("prep".to_string());
                if fails == 1 { Err(msg("prep")) } else { Ok(Value::from("p")) }
            })
            .exec(move |_, p| {
                s2.borrow_mut().push(format!("exec({p})"));
                if fails == 2 { Err(msg("exec")) } else { Ok(Value::from("e")) }
            })
            .post(move |_, _, p, r| {
                s3.borrow_mut().push(format!("post({p},{r})"));
                if fails == 3 { Err(msg("post")) } else { Ok(act("done")) }
            });
        let n = e.add(named("N"), c);
        let r = e.run(n, &mut j("{}"), None);
        let all = ["prep", r#"exec("p")"#, r#"post("p","e")"#];
        let ran = if fails == 0 { 3 } else { fails };
        assert_eq!(*seen.borrow(), all[..ran].to_vec());
        match r {
            Ok(a) => assert_eq!((fails, a), (0, act("done"))),
            Err(err) => assert_eq!(err.message(), ["", "prep", "exec", "post"][fails]),
        }
    }
}
