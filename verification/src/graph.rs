//! [`Graph`]: the arena that holds the nodes of one or more flows, and their
//! wiring.

use tokio_util::sync::CancellationToken;
use vstd::prelude::*;

use crate::flow_node::{FlowNode, FlowNodeView};
use crate::json::{entries, fields};
use crate::node_core::{lists, overwrite_text, NodeCoreView};
use crate::types::{edge_key, Action, HookRef, NodeRef, Params, DEFAULT_ACTION};

verus! {

/// What wiring an edge gives back.
pub struct Wired {
    /// The successor, for chaining.
    pub node: NodeRef,
    /// The warning to log, where the edge replaces another.
    pub warning: Option<String>,
}

impl Wired {
    /// The successor, and the warning exactly where the node had such an edge.
    pub open spec fn reports(self, core: NodeCoreView, action: Seq<char>, successor: NodeRef) -> bool {
        &&& self.node == successor
        &&& match self.warning {
            Some(w) => core.successors.contains_key(action) && w@ == overwrite_text(
                core.name,
                action,
            ),
            None => !core.successors.contains_key(action),
        }
    }
}

/// Fluent wiring builder returned by [`Graph::on`].
pub struct OnBuilder<'a> {
    node: NodeRef,
    action: &'a str,
}

impl<'a> OnBuilder<'a> {
    pub closed spec fn node(self) -> NodeRef {
        self.node
    }

    pub closed spec fn action(self) -> Seq<char> {
        self.action@
    }

    /// Wire `successor` as the successor for the action.
    pub fn to(self, graph: &mut Graph, successor: NodeRef) -> (r: Wired)
        requires
            old(graph).wf(),
            self.node() < old(graph)@.len(),
            successor < old(graph)@.len(),
        ensures
            final(graph).wf(),
            final(graph)@ == edge_turned(old(graph)@, self.node(), self.action(), successor),
            r.reports(old(graph)@[self.node() as int].core, self.action(), successor),
    {
        graph.next_action(self.node, successor, self.action)
    }
}

/// The nodes of one or more flows. A node's id is its place in the graph.
pub struct Graph {
    nodes: Vec<FlowNode>,
}

impl View for Graph {
    type V = Seq<FlowNodeView>;

    closed spec fn view(&self) -> Seq<FlowNodeView> {
        self.nodes@.map_values(|n: FlowNode| n@)
    }
}

/// Every node refers to nodes of the graph only.
pub open spec fn linked(g: Seq<FlowNodeView>) -> bool {
    closed_below(g, g.len())
}

/// The first `n` nodes refer to one another only.
pub open spec fn closed_below(g: Seq<FlowNodeView>, n: nat) -> bool {
    forall|i: int, t: NodeRef|
        0 <= i < n && i < g.len() && #[trigger] g[i].mentions(t) ==> t < n
}

/// The graph with another core at a node.
pub open spec fn core_set(
    g: Seq<FlowNodeView>,
    node: NodeRef,
    core: NodeCoreView,
) -> Seq<FlowNodeView> {
    g.update(node as int, FlowNodeView { core, ..g[node as int] })
}

/// The graph with an edge wired.
pub open spec fn edge_turned(
    g: Seq<FlowNodeView>,
    node: NodeRef,
    action: Seq<char>,
    target: NodeRef,
) -> Seq<FlowNodeView> {
    core_set(g, node, g[node as int].core.with_edge(action, target))
}

/// The graph with a fork that runs these branches.
pub open spec fn branches_resolved(
    g: Seq<FlowNodeView>,
    fork: NodeRef,
    resolved: Seq<NodeRef>,
) -> Seq<FlowNodeView> {
    g.update(
        fork as int,
        FlowNodeView { kind: g[fork as int].kind.with_resolved(resolved), ..g[fork as int] },
    )
}

/// The graph with a flow starting elsewhere.
pub open spec fn start_turned(
    g: Seq<FlowNodeView>,
    node: NodeRef,
    target: Option<NodeRef>,
) -> Seq<FlowNodeView> {
    g.update(
        node as int,
        FlowNodeView { kind: g[node as int].kind.with_start(target), ..g[node as int] },
    )
}

/// An edge to a node of the graph keeps the graph linked.
proof fn lemma_linked_after_edge(
    g: Seq<FlowNodeView>,
    i: NodeRef,
    action: Seq<char>,
    t: NodeRef,
)
    requires
        linked(g),
        0 <= i < g.len(),
        t < g.len(),
    ensures
        linked(edge_turned(g, i, action, t)),
{
    let h = edge_turned(g, i, action, t);
    assert forall|k: int, u: NodeRef| 0 <= k < h.len() && #[trigger] h[k].mentions(u) implies u
        < g.len() by {
        if k == i {
            if u != t {
                if exists|a: Seq<char>| #[trigger]
                    h[k].core.successors.contains_key(a) && h[k].core.successors[a] == u {
                    let a = choose|a: Seq<char>| #[trigger]
                        h[k].core.successors.contains_key(a) && h[k].core.successors[a] == u;
                    assert(g[i as int].core.successors.contains_key(a));
                }
                assert(g[i as int].mentions(u));
            }
        } else {
            assert(g[k].mentions(u));
        }
    }
}

/// Another core with the same edges keeps the graph linked.
proof fn lemma_linked_after_core(g: Seq<FlowNodeView>, i: NodeRef, core: NodeCoreView)
    requires
        linked(g),
        i < g.len(),
        core.successors == g[i as int].core.successors,
    ensures
        linked(core_set(g, i, core)),
{
    let h = core_set(g, i, core);
    assert forall|k: int, u: NodeRef| 0 <= k < h.len() && #[trigger] h[k].mentions(u) implies u
        < g.len() by {
        assert(g[k].mentions(u));
    }
}

/// A start that is a node of the graph keeps the graph linked.
proof fn lemma_linked_after_start(g: Seq<FlowNodeView>, i: NodeRef, t: NodeRef)
    requires
        linked(g),
        0 <= i < g.len(),
        t < g.len(),
    ensures
        linked(start_turned(g, i, Some(t))),
{
    let h = start_turned(g, i, Some(t));
    assert forall|k: int, u: NodeRef| 0 <= k < h.len() && #[trigger] h[k].mentions(u) implies u
        < g.len() by {
        if k == i {
            if u != t {
                assert(g[i as int].mentions(u));
            }
        } else {
            assert(g[k].mentions(u));
        }
    }
}

fn all_below(nodes: &Vec<NodeRef>, len: usize) -> (r: bool)
    ensures
        r == (forall|t: NodeRef| #[trigger] nodes@.contains(t) ==> t < len),
{
    for i in 0..nodes.len()
        invariant
            forall|j: int| 0 <= j < i ==> (#[trigger] nodes@[j]) < len,
    {
        if nodes[i] >= len as u64 {
            assert(nodes@.contains(nodes@[i as int]));
            return false;
        }
    }
    true
}

/// True of a node that refers to the first `len` nodes only.
fn refers_below(node: &FlowNode, len: usize) -> (r: bool)
    requires
        node.wf(),
    ensures
        r == (forall|t: NodeRef| #[trigger] node@.mentions(t) ==> t < len),
{
    let edges = node.node_core().successor_entries();
    let ghost names = edges@.map_values(|e: (String, NodeRef)| e.0@);
    for i in 0..edges.len()
        invariant
            names == edges@.map_values(|e: (String, NodeRef)| e.0@),
            lists(names, node@.core.successors.dom()),
            forall|i: int|
                0 <= i < edges.len() ==> node@.core.successors[(#[trigger] edges[i]).0@]
                    == edges[i].1,
            forall|j: int| 0 <= j < i ==> (#[trigger] edges@[j]).1 < len,
    {
        if edges[i].1 >= len as u64 {
            proof {
                let e = edges@[i as int];
                assert(names[i as int] == e.0@);
                assert(names.to_set().contains(e.0@));
                assert(node@.core.successors.contains_key(e.0@));
                assert(node@.mentions(e.1));
            }
            return false;
        }
    }
    proof {
        assert forall|action: Seq<char>| #[trigger]
            node@.core.successors.contains_key(action) implies node@.core.successors[action]
            < len by {
            assert(names.to_set().contains(action));
            let i = choose|i: int| 0 <= i < names.len() && names[i] == action;
            assert(edges@[i].0@ == action);
        }
    }
    if let Some(s) = node.start_node() {
        if s >= len as u64 {
            assert(node@.mentions(s));
            return false;
        }
    }
    let r = match node {
        FlowNode::Subflow(s) => s.sub < len as u64,
        FlowNode::ForkJoin(f) => {
            let fixed = all_below(&f.branches, len);
            let current = all_below(&f.resolved, len);
            fixed && current
        },
        _ => true,
    };
    proof {
        assert(r == forall|t: NodeRef| #[trigger]
            node@.kind.delegates_to(t) ==> t < len) by {
            match node {
                FlowNode::Subflow(s) => {
                    assert(node@.kind.delegates_to(s.sub));
                },
                FlowNode::ForkJoin(f) => {
                    if !r {
                        let t = choose|t: NodeRef|
                            (f.branches@.contains(t) || f.resolved@.contains(t)) && t
                                >= len;
                        assert(node@.kind.delegates_to(t));
                    }
                },
                _ => {},
            }
        }
        if !r {
            let t = choose|t: NodeRef| #[trigger]
                node@.kind.delegates_to(t) && t >= len;
            assert(node@.mentions(t));
        }
    }
    r
}

impl Graph {
    /// Every node has its place as id and refers to nodes of the graph only.
    pub closed spec fn wf(self) -> bool {
        &&& forall|i: int| 0 <= i < self.nodes.len() ==> (#[trigger] self.nodes@[i]).wf()
        &&& forall|i: int| 0 <= i < self@.len() ==> (#[trigger] self@[i]).core.id == i
        &&& linked(self@)
    }

    /// A well-formed graph is linked.
    pub(crate) proof fn lemma_linked(self)
        requires
            self.wf(),
        ensures
            linked(self@),
    {
    }

    /// A node's id is its place.
    pub(crate) proof fn lemma_ids(self, i: int)
        requires
            self.wf(),
            0 <= i < self@.len(),
        ensures
            self@[i].core.id == i,
    {
    }

    /// A node has a token exactly inside runs.
    pub(crate) proof fn lemma_token(self, i: int)
        requires
            self.wf(),
            0 <= i < self@.len(),
        ensures
            self@[i].core.signal is Some <==> self@[i].core.runs > 0,
    {
        assert(self.nodes@[i].wf());
        match self.nodes@[i] {
            FlowNode::Node(c) => c.lemma_token(),
            FlowNode::Flow(f) => f.core.lemma_token(),
            FlowNode::BatchFlow(f) => f.core.lemma_token(),
            FlowNode::Subflow(f) => f.core.lemma_token(),
            FlowNode::ForkJoin(f) => f.core.lemma_token(),
        }
    }

    /// Where an action leads is a node of the graph.
    pub(crate) proof fn lemma_edges_stay_inside(self, node: NodeRef, action: Action)
        requires
            self.wf(),
            node < self@.len(),
        ensures
            self@[node as int].core.successor(action) matches Some(t) ==> t < self@.len(),
    {
        let v = self@[node as int];
        if let Some(t) = v.core.successor(action) {
            assert(v.core.successors.contains_key(edge_key(action)));
            assert(v.mentions(t));
        }
    }

    /// A sub-flow or branch is a node of the graph.
    pub(crate) proof fn lemma_delegates_stay_inside(self, node: NodeRef, target: NodeRef)
        requires
            self.wf(),
            node < self@.len(),
            self@[node as int].kind.delegates_to(target),
        ensures
            target < self@.len(),
    {
        assert(self@[node as int].mentions(target));
    }

    /// A graph without nodes.
    pub fn new() -> (r: Self)
        ensures
            r.wf(),
            r@.len() == 0,
    {
        Graph { nodes: Vec::new() }
    }

    /// The number of nodes.
    pub fn len(&self) -> (r: usize)
        ensures
            r == self@.len(),
    {
        self.nodes.len()
    }

    /// True of the ids that the graph has given out.
    pub fn contains(&self, node: NodeRef) -> (r: bool)
        ensures
            r == (node < self@.len()),
    {
        node < self.nodes.len() as u64
    }

    /// True of a node that refers to nodes of the graph only, so that it can be
    /// added.
    pub fn admits(&self, node: &FlowNode) -> (r: bool)
        requires
            node.wf(),
        ensures
            r == (forall|t: NodeRef| #[trigger] node@.mentions(t) ==> t < self@.len()),
    {
        refers_below(node, self.nodes.len())
    }

    /// Adds a node and gives its id.
    pub fn add(&mut self, node: FlowNode) -> (r: NodeRef)
        requires
            old(self).wf(),
            node.wf(),
            forall|t: NodeRef| #[trigger] node@.mentions(t) ==> t < old(self)@.len(),
        ensures
            final(self).wf(),
            r == old(self)@.len(),
            final(self)@ == old(self)@.push(
                FlowNodeView { core: NodeCoreView { id: r, ..node@.core }, ..node@ },
            ),
    {
        let id = self.nodes.len() as u64;
        let mut node = node;
        let ghost before = node@;
        node.node_core_mut().set_id(id);
        proof {
            assert forall|t: NodeRef| #[trigger] node@.mentions(t) implies t < self@.len() by {
                assert(before.mentions(t));
            }
        }
        self.place(node);
        id
    }

    /// A node by its id.
    pub fn node(&self, node: NodeRef) -> (r: &FlowNode)
        requires
            self.wf(),
            node < self@.len(),
        ensures
            r.wf(),
            r@ == self@[node as int],
    {
        &self.nodes[node as usize]
    }

    /// Wire the default-edge successor. Gives the successor for chaining.
    pub fn next(&mut self, node: NodeRef, successor: NodeRef) -> (r: Wired)
        requires
            old(self).wf(),
            node < old(self)@.len(),
            successor < old(self)@.len(),
        ensures
            final(self).wf(),
            final(self)@ == edge_turned(old(self)@, node, DEFAULT_ACTION@, successor),
            r.reports(old(self)@[node as int].core, DEFAULT_ACTION@, successor),
    {
        self.next_action(node, successor, DEFAULT_ACTION)
    }

    /// Wire a successor for a named action. Gives the successor for chaining.
    pub fn next_action(&mut self, node: NodeRef, successor: NodeRef, action: &str) -> (r: Wired)
        requires
            old(self).wf(),
            node < old(self)@.len(),
            successor < old(self)@.len(),
        ensures
            final(self).wf(),
            final(self)@ == edge_turned(old(self)@, node, action@, successor),
            r.reports(old(self)@[node as int].core, action@, successor),
    {
        let ghost g = self@;
        let i = node as usize;
        let warning = self.nodes[i].node_core_mut().set_successor(action, successor);
        proof {
            assert(self@ =~= edge_turned(g, node, action@, successor));
            lemma_linked_after_edge(g, node, action@, successor);
        }
        Wired { node: successor, warning }
    }

    /// Fluent wiring: `graph.on(node, "ok").to(&mut graph, other)`.
    pub fn on<'a>(&self, node: NodeRef, action: &'a str) -> (r: OnBuilder<'a>)
        requires
            node < self@.len(),
        ensures
            r.node() == node,
            r.action() == action@,
    {
        OnBuilder { node, action }
    }

    /// Set a node's own params (they win over flow-injected params).
    pub fn set_params(&mut self, node: NodeRef, params: serde_json::Value)
        requires
            old(self).wf(),
            node < old(self)@.len(),
        ensures
            final(self).wf(),
            final(self)@ == core_set(
                old(self)@,
                node,
                old(self)@[node as int].core.with_own(fields(params)),
            ),
    {
        let ghost g = self@;
        let i = node as usize;
        self.nodes[i].set_params(params);
        proof {
            let core = g[node as int].core.with_own(fields(params));
            assert(self@ =~= core_set(g, node, core));
            lemma_linked_after_core(g, node, core);
        }
    }

    /// Inject params from a flow/bundle into a node, below its own.
    pub fn inject_params(&mut self, node: NodeRef, injected: &Params)
        requires
            old(self).wf(),
            node < old(self)@.len(),
        ensures
            final(self).wf(),
            final(self)@ == core_set(
                old(self)@,
                node,
                old(self)@[node as int].core.injected(entries(*injected)),
            ),
    {
        let ghost g = self@;
        let i = node as usize;
        self.nodes[i].node_core_mut().inject_params(injected);
        proof {
            let core = g[node as int].core.injected(entries(*injected));
            assert(self@ =~= core_set(g, node, core));
            lemma_linked_after_core(g, node, core);
        }
    }

    /// Hand a node the token of the run that it takes part in.
    pub fn set_signal(&mut self, node: NodeRef, signal: &CancellationToken)
        requires
            old(self).wf(),
            node < old(self)@.len(),
        ensures
            final(self).wf(),
            final(self)@ == core_set(
                old(self)@,
                node,
                old(self)@[node as int].core.under(*signal),
            ),
    {
        let ghost g = self@;
        let i = node as usize;
        self.nodes[i].node_core_mut().set_signal(signal.clone());
        proof {
            let core = g[node as int].core.under(*signal);
            assert(self@ =~= core_set(g, node, core));
            lemma_linked_after_core(g, node, core);
        }
    }

    /// One of the node's runs is over. The token is taken back with the last one.
    pub fn leave_run(&mut self, node: NodeRef)
        requires
            old(self).wf(),
            node < old(self)@.len(),
        ensures
            final(self).wf(),
            final(self)@ == core_set(old(self)@, node, old(self)@[node as int].core.left()),
    {
        let ghost g = self@;
        let i = node as usize;
        self.nodes[i].node_core_mut().leave_run();
        proof {
            let core = g[node as int].core.left();
            assert(self@ =~= core_set(g, node, core));
            lemma_linked_after_core(g, node, core);
        }
    }

    /// Set the starting node of a flow. Gives it so wiring chains naturally. A
    /// node that is no flow has no start and stays as it is.
    pub fn start(&mut self, flow: NodeRef, node: NodeRef) -> (r: NodeRef)
        requires
            old(self).wf(),
            flow < old(self)@.len(),
            node < old(self)@.len(),
        ensures
            final(self).wf(),
            final(self)@ == start_turned(old(self)@, flow, Some(node)),
            r == node,
    {
        self.turn_start(flow, node);
        node
    }

    /// Register a hook set on a flow. A node that is no flow stays as it is.
    pub fn use_hooks(&mut self, flow: NodeRef, hooks: HookRef)
        requires
            old(self).wf(),
            flow < old(self)@.len(),
        ensures
            final(self).wf(),
            final(self)@ == old(self)@.update(
                flow as int,
                FlowNodeView {
                    kind: old(self)@[flow as int].kind.with_hooks(hooks),
                    ..old(self)@[flow as int]
                },
            ),
    {
        let ghost g = self@;
        let i = flow as usize;
        self.nodes[i].use_hooks(hooks);
        proof {
            let h = g.update(
                flow as int,
                FlowNodeView { kind: g[flow as int].kind.with_hooks(hooks), ..g[flow as int] },
            );
            assert(self@ =~= h);
            assert forall|k: int, u: NodeRef| 0 <= k < h.len() && #[trigger] h[k].mentions(u) implies u
                < g.len() by {
                assert(g[k].mentions(u));
            }
        }
    }

    /// Set the branches that a fork runs for the current `shared`. A node that is
    /// no fork stays as it is.
    pub fn resolve_branches(&mut self, fork: NodeRef, resolved: Vec<NodeRef>)
        requires
            old(self).wf(),
            fork < old(self)@.len(),
            forall|t: NodeRef| #[trigger] resolved@.contains(t) ==> t < old(self)@.len(),
        ensures
            final(self).wf(),
            final(self)@ == branches_resolved(old(self)@, fork, resolved@),
    {
        let ghost g = self@;
        let i = fork as usize;
        self.nodes[i].set_resolved(resolved);
        proof {
            let h = branches_resolved(g, fork, resolved@);
            assert(self@ =~= h);
            assert forall|k: int, u: NodeRef| 0 <= k < h.len() && #[trigger] h[k].mentions(u) implies u
                < g.len() by {
                if !resolved@.contains(u) || k != i {
                    assert(g[k].mentions(u));
                }
            }
        }
    }

    /// Forgets the nodes from the place `len` on, such as clones that have served
    /// their run. Nothing is forgotten where a node before that place refers to one
    /// of them.
    pub fn forget_from(&mut self, len: usize) -> (r: bool)
        requires
            old(self).wf(),
        ensures
            final(self).wf(),
            r == (len <= old(self)@.len() && forall|i: int, t: NodeRef|
                0 <= i < len && #[trigger] old(self)@[i].mentions(t) ==> t < len),
            final(self)@ == (if r {
                old(self)@.take(len as int)
            } else {
                old(self)@
            }),
    {
        if len > self.nodes.len() {
            return false;
        }
        let ghost g = self@;
        for k in 0..len
            invariant
                self@ == g,
                self.wf(),
                len <= self.nodes.len(),
                forall|i: int, t: NodeRef| 0 <= i < k && #[trigger] g[i].mentions(t) ==> t < len,
        {
            assert(self.nodes@[k as int].wf());
            if !refers_below(&self.nodes[k], len) {
                let ghost t = choose|t: NodeRef| #[trigger]
                    self.nodes@[k as int]@.mentions(t) && t >= len;
                assert(g[k as int].mentions(t));
                return false;
            }
            assert(g[k as int] == self.nodes@[k as int]@);
        }
        self.nodes.truncate(len);
        assert(self@ =~= g.take(len as int));
        true
    }

    /// Puts a node into the next place.
    pub(crate) fn place(&mut self, node: FlowNode)
        requires
            old(self).wf(),
            node.wf(),
            node@.core.id == old(self)@.len(),
            forall|t: NodeRef| #[trigger] node@.mentions(t) ==> t <= old(self)@.len(),
        ensures
            final(self).wf(),
            final(self)@ == old(self)@.push(node@),
    {
        let ghost g = self@;
        let ghost v = node@;
        self.nodes.push(node);
        proof {
            assert(self@ =~= g.push(v));
            assert forall|k: int, u: NodeRef|
                0 <= k < self@.len() && #[trigger] self@[k].mentions(u) implies u
                < self@.len() by {
                if k < g.len() {
                    assert(g[k].mentions(u));
                }
            }
        }
    }

    /// Turns an edge to a node of the graph.
    pub(crate) fn turn_edge(&mut self, node: NodeRef, action: String, target: NodeRef)
        requires
            old(self).wf(),
            node < old(self)@.len(),
            target < old(self)@.len(),
        ensures
            final(self).wf(),
            final(self)@ == edge_turned(old(self)@, node, action@, target),
    {
        let ghost g = self@;
        let i = node as usize;
        self.nodes[i].node_core_mut().replace_successor(action, target);
        proof {
            assert(self@ =~= edge_turned(g, node, action@, target));
            lemma_linked_after_edge(g, node, action@, target);
        }
    }

    /// Turns the start of a flow to a node of the graph.
    pub(crate) fn turn_start(&mut self, node: NodeRef, target: NodeRef)
        requires
            old(self).wf(),
            node < old(self)@.len(),
            target < old(self)@.len(),
        ensures
            final(self).wf(),
            final(self)@ == start_turned(old(self)@, node, Some(target)),
    {
        let ghost g = self@;
        let i = node as usize;
        self.nodes[i].set_start(target);
        proof {
            assert(self@ =~= start_turned(g, node, Some(target)));
            lemma_linked_after_start(g, node, target);
        }
    }
}

} // verus!
