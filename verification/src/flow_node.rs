//! [`FlowNode`]: a node of a graph, of any kind.

use tokio_util::sync::CancellationToken;
use vstd::prelude::*;

use crate::batch_flow::BatchFlow;
use crate::flow::Flow;
use crate::fork_join::ForkJoin;
use crate::json::{entries, fields};
use crate::node_core::{NodeCore, NodeCoreView};
use crate::subflow::Subflow;
use crate::types::{Action, HookRef, NodeRef, OpsRef, Params, SharedCloner, DEFAULT_ACTION};

verus! {

/// What a node has besides its core.
#[verifier::ext_equal]
pub enum Kind {
    Plain,
    Flow {
        start: Option<NodeRef>,
        max_steps: usize,
        hooks: Seq<HookRef>,
        ops: Option<OpsRef>,
    },
    BatchFlow {
        start: Option<NodeRef>,
        max_steps: usize,
        hooks: Seq<HookRef>,
        concurrency: usize,
        fail_fast: bool,
        clone_shared: Option<SharedCloner>,
        ops: Option<OpsRef>,
    },
    Subflow { sub: NodeRef, clone_shared: Option<SharedCloner>, ops: Option<OpsRef> },
    ForkJoin {
        branches: Seq<NodeRef>,
        resolved: Seq<NodeRef>,
        concurrency: usize,
        fail_fast: bool,
        clone_shared: Option<SharedCloner>,
        ops: Option<OpsRef>,
    },
}

impl Kind {
    /// The node that a flow starts at.
    pub open spec fn start(self) -> Option<NodeRef> {
        match self {
            Kind::Flow { start, .. } => start,
            Kind::BatchFlow { start, .. } => start,
            _ => None,
        }
    }

    /// A flow that starts elsewhere; a node that is no flow stays as it is.
    pub open spec fn with_start(self, node: Option<NodeRef>) -> Kind {
        match self {
            Kind::Flow { start, max_steps, hooks, ops } => Kind::Flow {
                start: node,
                max_steps,
                hooks,
                ops,
            },
            Kind::BatchFlow { start, max_steps, hooks, concurrency, fail_fast, clone_shared, ops } =>
                Kind::BatchFlow {
                start: node,
                max_steps,
                hooks,
                concurrency,
                fail_fast,
                clone_shared,
                ops,
            },
            k => k,
        }
    }

    /// A flow with one more hook set; a node that is no flow stays as it is.
    pub open spec fn with_hooks(self, hook: HookRef) -> Kind {
        match self {
            Kind::Flow { start, max_steps, hooks, ops } => Kind::Flow {
                start,
                max_steps,
                hooks: hooks.push(hook),
                ops,
            },
            Kind::BatchFlow { start, max_steps, hooks, concurrency, fail_fast, clone_shared, ops } =>
                Kind::BatchFlow {
                start,
                max_steps,
                hooks: hooks.push(hook),
                concurrency,
                fail_fast,
                clone_shared,
                ops,
            },
            k => k,
        }
    }

    /// A fork that runs these branches; a node that is no fork stays as it is.
    pub open spec fn with_resolved(self, nodes: Seq<NodeRef>) -> Kind {
        match self {
            Kind::ForkJoin { branches, resolved, concurrency, fail_fast, clone_shared, ops } =>
                Kind::ForkJoin {
                branches,
                resolved: nodes,
                concurrency,
                fail_fast,
                clone_shared,
                ops,
            },
            k => k,
        }
    }

    /// The node is the sub-flow or one of the branches.
    pub open spec fn delegates_to(self, node: NodeRef) -> bool {
        match self {
            Kind::Subflow { sub, .. } => sub == node,
            Kind::ForkJoin { branches, resolved, .. } => branches.contains(node)
                || resolved.contains(node),
            _ => false,
        }
    }
}

/// What a [`FlowNode`] stands for.
#[verifier::ext_equal]
pub struct FlowNodeView {
    pub core: NodeCoreView,
    pub kind: Kind,
}

impl FlowNodeView {
    /// An edge, or the start of the flow that the node is, leads to `node`.
    pub open spec fn leads_to(self, node: NodeRef) -> bool {
        (exists|action: Seq<char>| #[trigger]
            self.core.successors.contains_key(action) && self.core.successors[action] == node)
            || self.kind.start() == Some(node)
    }

    /// The node refers to `node` in any way.
    pub open spec fn mentions(self, node: NodeRef) -> bool {
        self.leads_to(node) || self.kind.delegates_to(node)
    }

    /// The copy of the node under another id whose edges and start lead to the
    /// copies that the memo knows. Sub-flow and branches stay shared.
    pub open spec fn cloned(self, id: u64, memo: Map<u64, NodeRef>) -> FlowNodeView {
        FlowNodeView {
            core: NodeCoreView {
                successors: self.core.successors.map_values(|t: NodeRef| memo[t]),
                ..self.core.copied(id)
            },
            kind: self.kind.with_start(
                match self.kind.start() {
                    Some(s) => Some(memo[s]),
                    None => None,
                },
            ),
        }
    }
}

/// A node of a graph: one with a lifecycle of its own, or one of the node
/// kinds that the engine provides.
pub enum FlowNode {
    Node(NodeCore),
    Flow(Flow),
    BatchFlow(BatchFlow),
    Subflow(Subflow),
    ForkJoin(ForkJoin),
}

impl View for FlowNode {
    type V = FlowNodeView;

    open spec fn view(&self) -> FlowNodeView {
        match self {
            FlowNode::Node(c) => FlowNodeView { core: c@, kind: Kind::Plain },
            FlowNode::Flow(f) => FlowNodeView {
                core: f@.core,
                kind: Kind::Flow {
                    start: f@.start_node,
                    max_steps: f@.max_steps,
                    hooks: f@.hooks,
                    ops: f@.ops,
                },
            },
            FlowNode::BatchFlow(f) => FlowNodeView {
                core: f@.core,
                kind: Kind::BatchFlow {
                    start: f@.start_node,
                    max_steps: f@.max_steps,
                    hooks: f@.hooks,
                    concurrency: f@.concurrency,
                    fail_fast: f@.fail_fast,
                    clone_shared: f@.clone_shared,
                    ops: f@.ops,
                },
            },
            FlowNode::Subflow(s) => FlowNodeView {
                core: s@.core,
                kind: Kind::Subflow { sub: s@.sub, clone_shared: s@.clone_shared, ops: s@.ops },
            },
            FlowNode::ForkJoin(f) => FlowNodeView {
                core: f@.core,
                kind: Kind::ForkJoin {
                    branches: f@.branches,
                    resolved: f@.resolved,
                    concurrency: f@.concurrency,
                    fail_fast: f@.fail_fast,
                    clone_shared: f@.clone_shared,
                    ops: f@.ops,
                },
            },
        }
    }
}

impl FlowNode {
    pub open spec fn wf(self) -> bool {
        match self {
            FlowNode::Node(c) => c.wf(),
            FlowNode::Flow(f) => f.wf(),
            FlowNode::BatchFlow(f) => f.wf(),
            FlowNode::Subflow(s) => s.wf(),
            FlowNode::ForkJoin(f) => f.wf(),
        }
    }

    /// Access the node's plumbing (name, params, successors, config).
    pub fn node_core(&self) -> (r: &NodeCore)
        ensures
            r@ == self@.core,
            r.wf() == self.wf(),
    {
        match self {
            FlowNode::Node(c) => c,
            FlowNode::Flow(f) => &f.core,
            FlowNode::BatchFlow(f) => &f.core,
            FlowNode::Subflow(s) => &s.core,
            FlowNode::ForkJoin(f) => &f.core,
        }
    }

    pub(crate) fn node_core_mut(&mut self) -> (r: &mut NodeCore)
        ensures
            r@ == old(self)@.core,
            r.wf() == old(self).wf(),
            final(self)@ == (FlowNodeView { core: final(r)@, ..old(self)@ }),
            final(self).wf() == final(r).wf(),
    {
        match self {
            FlowNode::Node(c) => c,
            FlowNode::Flow(f) => &mut f.core,
            FlowNode::BatchFlow(f) => &mut f.core,
            FlowNode::Subflow(s) => &mut s.core,
            FlowNode::ForkJoin(f) => &mut f.core,
        }
    }

    /// The node that a flow starts at; a node that is no flow has none.
    pub fn start_node(&self) -> (r: Option<NodeRef>)
        ensures
            r == self@.kind.start(),
    {
        match self {
            FlowNode::Flow(f) => f.start_node,
            FlowNode::BatchFlow(f) => f.start_node,
            _ => None,
        }
    }

    /// Human-readable name, used in tracing/hooks.
    pub fn name(&self) -> (r: &str)
        ensures
            r@ == self@.core.name,
    {
        self.node_core().name()
    }

    /// Resolve the successor for an action (`None` = clean termination).
    pub fn resolve_successor(&self, action: &Action) -> (r: Option<NodeRef>)
        requires
            self.wf(),
        ensures
            r == self@.core.successor(*action),
            r == self@.core.successors.get(
                match *action {
                    Some(name) => name@,
                    None => DEFAULT_ACTION@,
                },
            ),
    {
        self.node_core().resolve_successor(action)
    }

    /// Set this node's own params (they win over flow-injected params).
    pub fn set_params(&mut self, params: serde_json::Value)
        requires
            old(self).wf(),
        ensures
            final(self).wf(),
            final(self)@ == (FlowNodeView {
                core: old(self)@.core.with_own(fields(params)),
                ..old(self)@
            }),
    {
        self.node_core_mut().set_params(params);
    }

    /// A copy of the current params dict.
    pub fn params(&self) -> (r: Params)
        ensures
            entries(r) == self@.core.params,
    {
        self.node_core().params()
    }

    /// One param value by key.
    pub fn param(&self, key: &str) -> (r: Option<serde_json::Value>)
        ensures
            r == self@.core.params.get(key@),
    {
        self.node_core().param(key)
    }

    /// The cancellation token for the current run (cooperative cancellation).
    pub fn signal(&self) -> (r: Option<CancellationToken>)
        ensures
            r == self@.core.signal,
    {
        self.node_core().signal()
    }

    pub(crate) fn set_start(&mut self, node: NodeRef)
        requires
            old(self).wf(),
        ensures
            final(self).wf(),
            final(self)@ == (FlowNodeView {
                kind: old(self)@.kind.with_start(Some(node)),
                ..old(self)@
            }),
    {
        match self {
            FlowNode::Flow(f) => {
                f.start_node = Some(node);
            },
            FlowNode::BatchFlow(f) => {
                f.start_node = Some(node);
            },
            _ => {},
        }
    }

    pub(crate) fn use_hooks(&mut self, hooks: HookRef)
        requires
            old(self).wf(),
        ensures
            final(self).wf(),
            final(self)@ == (FlowNodeView {
                kind: old(self)@.kind.with_hooks(hooks),
                ..old(self)@
            }),
    {
        match self {
            FlowNode::Flow(f) => {
                f.hooks.push(hooks);
            },
            FlowNode::BatchFlow(f) => {
                f.hooks.push(hooks);
            },
            _ => {},
        }
    }

    pub(crate) fn set_resolved(&mut self, nodes: Vec<NodeRef>)
        requires
            old(self).wf(),
        ensures
            final(self).wf(),
            final(self)@ == (FlowNodeView {
                kind: old(self)@.kind.with_resolved(nodes@),
                ..old(self)@
            }),
    {
        match self {
            FlowNode::ForkJoin(f) => {
                f.resolved = nodes;
            },
            _ => {},
        }
    }

    /// A copy of the node under another id, outside any run.
    pub(crate) fn copied(&self, id: u64) -> (r: FlowNode)
        requires
            self.wf(),
        ensures
            r.wf(),
            r@ == (FlowNodeView { core: self@.core.copied(id), ..self@ }),
    {
        let core = self.node_core().copied(id);
        match self {
            FlowNode::Node(_) => FlowNode::Node(core),
            FlowNode::Flow(f) => FlowNode::Flow(
                Flow {
                    core,
                    start_node: f.start_node,
                    max_steps: f.max_steps,
                    hooks: f.hooks.clone(),
                    ops: f.ops,
                },
            ),
            FlowNode::BatchFlow(f) => FlowNode::BatchFlow(
                BatchFlow {
                    core,
                    start_node: f.start_node,
                    max_steps: f.max_steps,
                    hooks: f.hooks.clone(),
                    concurrency: f.concurrency,
                    fail_fast: f.fail_fast,
                    clone_shared: f.clone_shared,
                    ops: f.ops,
                },
            ),
            FlowNode::Subflow(s) => FlowNode::Subflow(
                Subflow { core, sub: s.sub, clone_shared: s.clone_shared, ops: s.ops },
            ),
            FlowNode::ForkJoin(f) => FlowNode::ForkJoin(
                ForkJoin {
                    core,
                    branches: f.branches.clone(),
                    resolved: f.resolved.clone(),
                    concurrency: f.concurrency,
                    fail_fast: f.fail_fast,
                    clone_shared: f.clone_shared,
                    ops: f.ops,
                },
            ),
        }
    }
}

} // verus!
