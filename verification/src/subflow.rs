//! [`Subflow`]: run a nested flow over an **isolated** context derived from
//! the parent shared, then fold selected results back. The sub-flow sees only
//! the derived context and cannot mutate the parent's shared directly.

use vstd::prelude::*;

use crate::flow::{names, path_to};
use crate::flow_node::FlowNode;
use crate::graph::Graph;
use crate::internal::{retrying, Retrying};
use crate::node_core::{NodeCore, NodeCoreView, NodeOpts};
use crate::types::{NodeRef, OpsRef, Shared, SharedCloner};

verus! {

/// What a [`Subflow`] stands for.
#[verifier::ext_equal]
pub struct SubflowView {
    pub core: NodeCoreView,
    pub sub: NodeRef,
    pub clone_shared: Option<SharedCloner>,
    pub ops: Option<OpsRef>,
}

/// Run a nested flow (usually a [`crate::Flow`]) over an isolated context,
/// then fold results back. The nested flow inherits the parent's hooks
/// (tracing continuity) and cancellation token, and is retried per the
/// Subflow's `max_retries`/`wait_ms`.
pub struct Subflow {
    pub(crate) core: NodeCore,
    pub(crate) sub: NodeRef,
    pub(crate) clone_shared: Option<SharedCloner>,
    pub(crate) ops: Option<OpsRef>,
}

impl View for Subflow {
    type V = SubflowView;

    open(crate) spec fn view(&self) -> SubflowView {
        SubflowView {
            core: self.core@,
            sub: self.sub,
            clone_shared: self.clone_shared,
            ops: self.ops,
        }
    }
}

impl Subflow {
    pub open(crate) spec fn wf(self) -> bool {
        self.core.wf()
    }

    /// A subflow with the default config.
    pub fn new(sub: NodeRef) -> (r: Self)
        ensures
            r.wf(),
            r@ == (SubflowView {
                core: NodeCoreView::fresh("Subflow"@),
                sub,
                clone_shared: None,
                ops: None,
            }),
    {
        Subflow {
            core: NodeCore::named("Subflow".to_owned()),
            sub,
            clone_shared: None,
            ops: None,
        }
    }

    /// A subflow with custom ops.
    pub fn with_ops(sub: NodeRef, ops: OpsRef) -> (r: Self)
        ensures
            r.wf(),
            r@ == (SubflowView {
                core: NodeCoreView::fresh("Subflow"@),
                sub,
                clone_shared: None,
                ops: Some(ops),
            }),
    {
        let mut s = Subflow::new(sub);
        s.ops = Some(ops);
        s
    }

    /// How the isolated sub-context is derived by default. Without it the
    /// parent shared is cloned.
    pub fn with_clone_shared(self, cloner: SharedCloner) -> (r: Self)
        requires
            self.wf(),
        ensures
            r.wf(),
            r@ == (SubflowView { clone_shared: Some(cloner), ..self@ }),
    {
        let mut s = self;
        s.clone_shared = Some(cloner);
        s
    }

    pub fn with_node_opts(self, opts: NodeOpts) -> (r: Self)
        requires
            self.wf(),
        ensures
            r.wf(),
            r@ == (SubflowView { core: self@.core.with_opts(opts), ..self@ }),
    {
        let mut s = self;
        s.core.apply_opts(opts);
        s
    }

    /// The overrides of the subflow, if it has any.
    pub fn ops(&self) -> (r: Option<OpsRef>)
        ensures
            r == self@.ops,
    {
        self.ops
    }

    /// The strategy for deriving the sub-context, if it has one.
    pub fn clone_shared(&self) -> (r: Option<SharedCloner>)
        ensures
            r == self@.clone_shared,
    {
        self.clone_shared
    }

    pub fn sub(&self) -> (r: &NodeRef)
        ensures
            *r == self@.sub,
    {
        &self.sub
    }
}

impl Subflow {
    /// The attempts at the nested flow: as many as the Subflow's retries allow.
    pub fn exec_with_retry(&self) -> (r: Retrying<Shared>)
        ensures
            r.is_new(self@.core.max_retries as nat, self@.core.wait_ms),
    {
        retrying(self.core.max_retries(), self.core.wait_ms())
    }
}

/// What one attempt at a nested flow runs with.
pub struct SubRun {
    pub sub: NodeRef,
    pub shared: Shared,
    pub path: Vec<String>,
}

/// Prepares an attempt at the nested flow of a [`Subflow`]. Every attempt starts
/// from the derived context as it was: what a failed attempt did to its own is
/// not seen again. `None`: the node is no Subflow.
pub fn sub_run(
    graph: &Graph,
    subflow: NodeRef,
    derived: &Shared,
    path: &Vec<String>,
) -> (r: Option<SubRun>)
    requires
        graph.wf(),
        subflow < graph@.len(),
    ensures
        match r {
            Some(s) => {
                &&& graph@[subflow as int].kind is Subflow
                &&& s.sub == graph@[subflow as int].kind->sub
                &&& s.sub < graph@.len()
                &&& s.shared == *derived
                &&& names(s.path@) == names(path@).push(graph@[s.sub as int].core.name)
            },
            None => !(graph@[subflow as int].kind is Subflow),
        },
{
    match graph.node(subflow) {
        FlowNode::Subflow(s) => {
            let sub = s.sub;
            proof {
                graph.lemma_delegates_stay_inside(subflow, sub);
            }
            Some(
                SubRun {
                    sub,
                    shared: derived.clone(),
                    path: path_to(path, graph.node(sub).name()),
                },
            )
        },
        _ => None,
    }
}

} // verus!
