//! [`NodeCore`]: the plumbing every node has: identity, retry/timeout config,
//! params, successor edges, and the per-run cancellation signal.

use tokio_util::sync::CancellationToken;
use vstd::prelude::*;
use vstd::string::StringExecFns;

use crate::json::{entries, fields, no_entries, object_extend, object_get};
use crate::text::joined;
use crate::types::{edge_key, to_params, Action, NodeRef, Params, DEFAULT_ACTION};

verus! {

/// Construction options for a node.
#[derive(Debug)]
pub struct NodeOpts {
    /// Human-readable name used in tracing/hooks. `None` keeps the node's name.
    pub name: Option<String>,
    /// Per-node wall-clock budget (ms) for the whole `prep→exec→post`
    /// lifecycle. `0` (default) = no timeout.
    pub timeout_ms: u64,
    /// Number of retries **after** the first attempt (total attempts =
    /// `1 + max_retries`). Default `0` = a single attempt.
    pub max_retries: u32,
    /// Backoff between retries (ms).
    pub wait_ms: u64,
    /// Batch parallelism: `1` (default) = sequential, `>1` = bounded parallel.
    /// `0` keeps the node's setting.
    pub concurrency: usize,
    /// Batch failure policy: `false` (default) = failed items/branches become
    /// `null` slots; `true` = first failure throws and cancels siblings.
    pub fail_fast: bool,
    /// Whether this node processes `prep()`'s array item-by-item.
    pub batch: bool,
}

impl NodeOpts {
    /// No name, a single attempt, no timeout, sequential, no batch.
    pub open spec fn plain() -> NodeOpts {
        NodeOpts {
            name: None,
            timeout_ms: 0,
            max_retries: 0,
            wait_ms: 0,
            concurrency: 1,
            fail_fast: false,
            batch: false,
        }
    }
}

impl Default for NodeOpts {
    fn default() -> (r: Self)
        ensures
            r == NodeOpts::plain(),
    {
        NodeOpts {
            name: None,
            timeout_ms: 0,
            max_retries: 0,
            wait_ms: 0,
            concurrency: 1,
            fail_fast: false,
            batch: false,
        }
    }
}

impl Clone for NodeOpts {
    fn clone(&self) -> (r: Self)
        ensures
            r == *self,
    {
        let name = match &self.name {
            Some(n) => Some(n.clone()),
            None => None,
        };
        NodeOpts {
            name,
            timeout_ms: self.timeout_ms,
            max_retries: self.max_retries,
            wait_ms: self.wait_ms,
            concurrency: self.concurrency,
            fail_fast: self.fail_fast,
            batch: self.batch,
        }
    }
}

impl NodeOpts {
    pub fn new() -> (r: Self)
        ensures
            r == NodeOpts::plain(),
    {
        NodeOpts::default()
    }

    /// Options for a batch node (one `exec` per item).
    pub fn batch() -> (r: Self)
        ensures
            r == (NodeOpts { batch: true, ..NodeOpts::plain() }),
    {
        let mut o = NodeOpts::default();
        o.batch = true;
        o
    }

    pub fn name(self, name: String) -> (r: Self)
        ensures
            r == (NodeOpts { name: Some(name), ..self }),
    {
        let mut o = self;
        o.name = Some(name);
        o
    }

    pub fn timeout_ms(self, ms: u64) -> (r: Self)
        ensures
            r == (NodeOpts { timeout_ms: ms, ..self }),
    {
        let mut o = self;
        o.timeout_ms = ms;
        o
    }

    pub fn max_retries(self, n: u32) -> (r: Self)
        ensures
            r == (NodeOpts { max_retries: n, ..self }),
    {
        let mut o = self;
        o.max_retries = n;
        o
    }

    pub fn wait_ms(self, ms: u64) -> (r: Self)
        ensures
            r == (NodeOpts { wait_ms: ms, ..self }),
    {
        let mut o = self;
        o.wait_ms = ms;
        o
    }

    pub fn concurrency(self, n: usize) -> (r: Self)
        ensures
            r == (NodeOpts { concurrency: n, ..self }),
    {
        let mut o = self;
        o.concurrency = n;
        o
    }

    pub fn fail_fast(self, f: bool) -> (r: Self)
        ensures
            r == (NodeOpts { fail_fast: f, ..self }),
    {
        let mut o = self;
        o.fail_fast = f;
        o
    }
}

/// What a [`NodeCore`] stands for.
#[verifier::ext_equal]
pub struct NodeCoreView {
    /// The node's id, once a graph holds it.
    pub id: u64,
    pub name: Seq<char>,
    pub timeout_ms: u64,
    pub max_retries: u32,
    pub wait_ms: u64,
    pub concurrency: usize,
    pub fail_fast: bool,
    pub batch: bool,
    /// The params in force.
    pub params: Map<Seq<char>, serde_json::Value>,
    /// The params that were set on the node itself.
    pub own_params: Option<Map<Seq<char>, serde_json::Value>>,
    /// The successor of each action.
    pub successors: Map<Seq<char>, NodeRef>,
    /// How many runs the node is in.
    pub runs: u64,
    /// The token of the run that it entered last, if inside one.
    pub signal: Option<CancellationToken>,
}

/// The number of runs after one more was entered. It stays at the largest number
/// that the machine can count to.
pub open spec fn one_more(runs: u64) -> u64 {
    if runs < u64::MAX {
        (runs + 1) as u64
    } else {
        runs
    }
}

impl NodeCoreView {
    /// A node with the default config, no params and no edges.
    pub open spec fn fresh(name: Seq<char>) -> NodeCoreView {
        NodeCoreView {
            id: 0,
            name,
            timeout_ms: 0,
            max_retries: 0,
            wait_ms: 0,
            concurrency: 1,
            fail_fast: false,
            batch: false,
            params: no_entries(),
            own_params: None,
            successors: Map::empty(),
            runs: 0,
            signal: None,
        }
    }

    /// The node with options applied: the name and a non-zero concurrency
    /// replace the node's only where they were given.
    pub open spec fn with_opts(self, opts: NodeOpts) -> NodeCoreView {
        NodeCoreView {
            name: match opts.name {
                Some(n) => n@,
                None => self.name,
            },
            timeout_ms: opts.timeout_ms,
            max_retries: opts.max_retries,
            wait_ms: opts.wait_ms,
            concurrency: if opts.concurrency > 0 {
                opts.concurrency
            } else {
                self.concurrency
            },
            fail_fast: opts.fail_fast,
            batch: opts.batch,
            ..self
        }
    }

    /// The node with params of its own.
    pub open spec fn with_own(self, own: Map<Seq<char>, serde_json::Value>) -> NodeCoreView {
        NodeCoreView { params: own, own_params: Some(own), ..self }
    }

    /// The node inside a flow with the given params: its own params on top.
    pub open spec fn injected(self, params: Map<Seq<char>, serde_json::Value>) -> NodeCoreView {
        NodeCoreView {
            params: match self.own_params {
                Some(own) => params.union_prefer_right(own),
                None => params,
            },
            ..self
        }
    }

    /// The node with an edge wired.
    pub open spec fn with_edge(self, action: Seq<char>, node: NodeRef) -> NodeCoreView {
        NodeCoreView { successors: self.successors.insert(action, node), ..self }
    }

    /// The node as a run with the given token sees it.
    pub open spec fn under(self, signal: CancellationToken) -> NodeCoreView {
        NodeCoreView { runs: one_more(self.runs), signal: Some(signal), ..self }
    }

    /// The node after one of its runs. The token is taken back when the last one
    /// is over.
    pub open spec fn left(self) -> NodeCoreView {
        if self.runs > 1 {
            NodeCoreView { runs: (self.runs - 1) as u64, ..self }
        } else {
            NodeCoreView { runs: 0, signal: None, ..self }
        }
    }

    /// The same node under another id, outside any run.
    pub open spec fn copied(self, id: u64) -> NodeCoreView {
        NodeCoreView { id, runs: 0, signal: None, ..self }
    }

    /// Where an action leads.
    pub open spec fn successor(self, action: Action) -> Option<NodeRef> {
        if self.successors.contains_key(edge_key(action)) {
            Some(self.successors[edge_key(action)])
        } else {
            None
        }
    }

    /// An action was named, no edge is wired for it, and other edges are: a
    /// likely typo.
    pub open spec fn likely_typo(self, action: Action) -> bool {
        action is Some && !self.successors.dom().is_empty() && self.successor(action) is None
    }
}

/// The names of a set, each of them once, in some order.
pub open spec fn lists(names: Seq<Seq<char>>, keys: Set<Seq<char>>) -> bool {
    names.no_duplicates() && names.to_set() =~= keys
}

/// The warning on an action that leads nowhere although other edges exist.
pub open spec fn unwired_text(name: Seq<char>, action: Seq<char>, have: Seq<Seq<char>>) -> Seq<
    char,
> {
    "[focket-rs] "@ + name + " returned action '"@ + action
        + "' but no such edge is wired (have: "@ + joined(have) + "). Flow ends."@
}

/// The warning on an edge that replaces another.
pub open spec fn overwrite_text(name: Seq<char>, action: Seq<char>) -> Seq<char> {
    "[focket-rs] "@ + name + ": overwriting existing edge for action '"@ + action + "'"@
}

/// The warning on a node that runs on its own although it has successors.
pub open spec fn ignored_text(name: Seq<char>) -> Seq<char> {
    "[focket-rs] "@ + name + " has successors; run() ignores them. Use a Flow."@
}

spec fn edge_at(edges: Seq<(String, NodeRef)>, key: Seq<char>, i: int) -> bool {
    0 <= i < edges.len() && edges[i].0@ == key
}

spec fn distinct(edges: Seq<(String, NodeRef)>) -> bool {
    forall|i: int, j: int|
        0 <= i < j < edges.len() ==> (#[trigger] edges[i]).0@ != (#[trigger] edges[j]).0@
}

spec fn edge_map(edges: Seq<(String, NodeRef)>) -> Map<Seq<char>, NodeRef> {
    Map::new(
        |key: Seq<char>| exists|i: int| edge_at(edges, key, i),
        |key: Seq<char>| edges[choose|i: int| edge_at(edges, key, i)].1,
    )
}

proof fn lemma_edge(edges: Seq<(String, NodeRef)>, i: int)
    requires
        distinct(edges),
        0 <= i < edges.len(),
    ensures
        edge_map(edges).contains_key(edges[i].0@),
        edge_map(edges)[edges[i].0@] == edges[i].1,
{
    assert(edge_at(edges, edges[i].0@, i));
    let j = choose|j: int| edge_at(edges, edges[i].0@, j);
    assert(i == j);
}

/// The per-node state the engine needs.
pub struct NodeCore {
    id: u64,
    name: String,
    timeout_ms: u64,
    max_retries: u32,
    wait_ms: u64,
    concurrency: usize,
    fail_fast: bool,
    batch: bool,
    params: Params,
    own_params: Option<Params>,
    successors: Vec<(String, NodeRef)>,
    runs: u64,
    signal: Option<CancellationToken>,
}

impl View for NodeCore {
    type V = NodeCoreView;

    closed spec fn view(&self) -> NodeCoreView {
        NodeCoreView {
            id: self.id,
            name: self.name@,
            timeout_ms: self.timeout_ms,
            max_retries: self.max_retries,
            wait_ms: self.wait_ms,
            concurrency: self.concurrency,
            fail_fast: self.fail_fast,
            batch: self.batch,
            params: entries(self.params),
            own_params: match self.own_params {
                Some(p) => Some(entries(p)),
                None => None,
            },
            successors: edge_map(self.successors@),
            runs: self.runs,
            signal: self.signal,
        }
    }
}

impl Default for NodeCore {
    fn default() -> (r: Self)
        ensures
            r.wf(),
            r@ == NodeCoreView::fresh("Node"@),
    {
        NodeCore::new()
    }
}

impl NodeCore {
    /// No action has two edges, and the node has a token exactly inside runs.
    pub closed spec fn wf(self) -> bool {
        &&& distinct(self.successors@)
        &&& self.signal is Some <==> self.runs > 0
    }

    /// A node has a token exactly inside runs.
    pub(crate) proof fn lemma_token(self)
        requires
            self.wf(),
        ensures
            self@.signal is Some <==> self@.runs > 0,
    {
    }

    pub fn new() -> (r: Self)
        ensures
            r.wf(),
            r@ == NodeCoreView::fresh("Node"@),
    {
        NodeCore::named("Node".to_owned())
    }

    pub fn named(name: String) -> (r: Self)
        ensures
            r.wf(),
            r@ == NodeCoreView::fresh(name@),
    {
        let r = NodeCore {
            id: 0,
            name,
            timeout_ms: 0,
            max_retries: 0,
            wait_ms: 0,
            concurrency: 1,
            fail_fast: false,
            batch: false,
            params: Params::new(),
            own_params: None,
            successors: Vec::new(),
            runs: 0,
            signal: None,
        };
        assert(r@ =~= NodeCoreView::fresh(name@));
        r
    }

    pub fn with_opts(opts: NodeOpts) -> (r: Self)
        ensures
            r.wf(),
            r@ == NodeCoreView::fresh("Node"@).with_opts(opts),
    {
        let mut c = NodeCore::new();
        c.apply_opts(opts);
        c
    }

    pub fn apply_opts(&mut self, opts: NodeOpts)
        requires
            old(self).wf(),
        ensures
            final(self).wf(),
            final(self)@ == old(self)@.with_opts(opts),
    {
        if let Some(n) = opts.name {
            self.name = n;
        }
        self.timeout_ms = opts.timeout_ms;
        self.max_retries = opts.max_retries;
        self.wait_ms = opts.wait_ms;
        if opts.concurrency > 0 {
            self.concurrency = opts.concurrency;
        }
        self.fail_fast = opts.fail_fast;
        self.batch = opts.batch;
    }

    pub fn set_name(&mut self, name: String)
        requires
            old(self).wf(),
        ensures
            final(self).wf(),
            final(self)@ == (NodeCoreView { name: name@, ..old(self)@ }),
    {
        self.name = name;
    }

    /// The place in a graph that the node takes.
    pub(crate) fn set_id(&mut self, id: u64)
        requires
            old(self).wf(),
        ensures
            final(self).wf(),
            final(self)@ == (NodeCoreView { id, ..old(self)@ }),
    {
        self.id = id;
    }

    /// The node's id in the graph that holds it. A core that no graph holds has 0.
    pub fn id(&self) -> (r: u64)
        ensures
            r == self@.id,
    {
        self.id
    }

    pub fn name(&self) -> (r: &str)
        ensures
            r@ == self@.name,
    {
        self.name.as_str()
    }

    pub fn timeout_ms(&self) -> (r: u64)
        ensures
            r == self@.timeout_ms,
    {
        self.timeout_ms
    }

    pub fn max_retries(&self) -> (r: u32)
        ensures
            r == self@.max_retries,
    {
        self.max_retries
    }

    pub fn wait_ms(&self) -> (r: u64)
        ensures
            r == self@.wait_ms,
    {
        self.wait_ms
    }

    pub fn concurrency(&self) -> (r: usize)
        ensures
            r == self@.concurrency,
    {
        self.concurrency
    }

    pub fn fail_fast(&self) -> (r: bool)
        ensures
            r == self@.fail_fast,
    {
        self.fail_fast
    }

    pub fn is_batch(&self) -> (r: bool)
        ensures
            r == self@.batch,
    {
        self.batch
    }

    /// A copy of the current params dict.
    pub fn params(&self) -> (r: Params)
        ensures
            entries(r) == self@.params,
    {
        self.params.clone()
    }

    /// One param value by key.
    pub fn param(&self, key: &str) -> (r: Option<serde_json::Value>)
        ensures
            r == self@.params.get(key@),
    {
        match object_get(&self.params, key) {
            Some(v) => Some(v.clone()),
            None => None,
        }
    }

    /// Params set explicitly by the user (these win over flow-injected params).
    pub fn own_params(&self) -> (r: Option<Params>)
        ensures
            self@.own_params == match r {
                Some(p) => Some(entries(p)),
                None => None,
            },
    {
        match &self.own_params {
            Some(p) => Some(p.clone()),
            None => None,
        }
    }

    /// Set this node's own parameters. They are preserved when the node runs
    /// inside a flow: flow-level params merge in as defaults, but the node's
    /// own params win.
    pub fn set_params(&mut self, params: serde_json::Value)
        requires
            old(self).wf(),
        ensures
            final(self).wf(),
            final(self)@ == old(self)@.with_own(fields(params)),
    {
        self.set_params_map(to_params(params));
    }

    /// [`set_params`](Self::set_params) with an already-materialized dict.
    pub fn set_params_map(&mut self, params: Params)
        requires
            old(self).wf(),
        ensures
            final(self).wf(),
            final(self)@ == old(self)@.with_own(entries(params)),
    {
        self.own_params = Some(params.clone());
        self.params = params;
    }

    /// Inject params from a flow/bundle. The node's own params (if any) are
    /// merged on top so explicitly-configured nodes keep their config.
    pub fn inject_params(&mut self, injected: &Params)
        requires
            old(self).wf(),
        ensures
            final(self).wf(),
            final(self)@ == old(self)@.injected(entries(*injected)),
    {
        let mut m = injected.clone();
        if let Some(own) = &self.own_params {
            object_extend(&mut m, own.clone());
        }
        self.params = m;
    }

    pub fn has_successors(&self) -> (r: bool)
        ensures
            r == !self@.successors.dom().is_empty(),
    {
        if self.successors.len() > 0 {
            proof {
                assert(edge_at(self.successors@, self.successors@[0].0@, 0));
                assert(self@.successors.dom().contains(self.successors@[0].0@));
            }
            true
        } else {
            assert(self@.successors.dom() =~= Set::empty());
            false
        }
    }

    fn copy_edges(&self) -> (r: Vec<(String, NodeRef)>)
        ensures
            r@ == self.successors@,
    {
        let mut r: Vec<(String, NodeRef)> = Vec::new();
        for i in 0..self.successors.len()
            invariant
                r@ == self.successors@.take(i as int),
        {
            let e = &self.successors[i];
            r.push((e.0.clone(), e.1));
            assert(r@ =~= self.successors@.take(i + 1));
        }
        assert(r@ =~= self.successors@);
        r
    }

    /// Every edge once, in an order that is left open.
    pub fn successor_entries(&self) -> (r: Vec<(String, NodeRef)>)
        requires
            self.wf(),
        ensures
            lists(r@.map_values(|e: (String, NodeRef)| e.0@), self@.successors.dom()),
            forall|i: int|
                0 <= i < r.len() ==> self@.successors[(#[trigger] r[i]).0@] == r[i].1,
    {
        let r = self.copy_edges();
        proof {
            let names = r@.map_values(|e: (String, NodeRef)| e.0@);
            assert forall|key: Seq<char>| #[trigger]
                names.to_set().contains(key) == self@.successors.dom().contains(key) by {
                if self@.successors.dom().contains(key) {
                    let i = choose|i: int| edge_at(self.successors@, key, i);
                    assert(names[i] == key);
                }
                if names.to_set().contains(key) {
                    let i = choose|i: int| 0 <= i < names.len() && names[i] == key;
                    assert(edge_at(self.successors@, key, i));
                }
            }
            assert forall|i: int| 0 <= i < r.len() implies self@.successors[(#[trigger] r[i]).0@]
                == r[i].1 by {
                lemma_edge(self.successors@, i);
            }
        }
        r
    }

    /// The position of the edge wired for an action.
    fn find_edge(&self, action: &String) -> (r: Option<usize>)
        requires
            self.wf(),
        ensures
            match r {
                Some(i) => edge_at(self.successors@, action@, i as int)
                    && self@.successors.contains_key(action@) && self@.successors[action@]
                    == self.successors@[i as int].1,
                None => !self@.successors.contains_key(action@) && forall|i: int|
                    0 <= i < self.successors.len() ==> (#[trigger] self.successors@[i]).0@
                        != action@,
            },
    {
        for i in 0..self.successors.len()
            invariant
                self.wf(),
                forall|j: int|
                    0 <= j < i ==> (#[trigger] self.successors@[j]).0@ != action@,
        {
            if self.successors[i].0 == *action {
                proof {
                    lemma_edge(self.successors@, i as int);
                }
                return Some(i);
            }
        }
        None
    }

    /// Wire a successor for an action. Where that replaces an edge, returns
    /// the warning to log.
    pub fn set_successor(&mut self, action: &str, node: NodeRef) -> (warning: Option<String>)
        requires
            old(self).wf(),
        ensures
            final(self).wf(),
            final(self)@ == old(self)@.with_edge(action@, node),
            match warning {
                Some(w) => old(self)@.successors.contains_key(action@) && w@ == overwrite_text(
                    old(self)@.name,
                    action@,
                ),
                None => !old(self)@.successors.contains_key(action@),
            },
    {
        let key = action.to_owned();
        let warning = match self.find_edge(&key) {
            Some(_) => {
                let mut w = "[focket-rs] ".to_owned();
                w.append(self.name.as_str());
                w.append(": overwriting existing edge for action '");
                w.append(action);
                w.append("'");
                Some(w)
            },
            None => None,
        };
        self.replace_successor(key, node);
        warning
    }

    /// Like [`set_successor`](Self::set_successor) but never warns (used by
    /// graph cloning, which rewrites edges it just created).
    pub(crate) fn replace_successor(&mut self, action: String, node: NodeRef)
        requires
            old(self).wf(),
        ensures
            final(self).wf(),
            final(self)@ == old(self)@.with_edge(action@, node),
    {
        let ghost before = self.successors@;
        match self.find_edge(&action) {
            Some(i) => {
                self.successors[i] = (action, node);
            },
            None => {
                self.successors.push((action, node));
            },
        }
        proof {
            let after = self.successors@;
            assert(distinct(after));
            let m = edge_map(before).insert(action@, node);
            assert forall|key: Seq<char>| #[trigger]
                edge_map(after).contains_key(key) == m.contains_key(key) by {
                if edge_map(after).contains_key(key) {
                    let i = choose|i: int| edge_at(after, key, i);
                    if key != action@ {
                        assert(edge_at(before, key, i));
                    }
                }
                if m.contains_key(key) {
                    if key != action@ {
                        let i = choose|i: int| edge_at(before, key, i);
                        assert(edge_at(after, key, i));
                    } else if exists|i: int| edge_at(before, key, i) {
                        let i = choose|i: int| edge_at(before, key, i);
                        assert(edge_at(after, key, i));
                    } else {
                        assert(edge_at(after, key, before.len() as int));
                    }
                }
            }
            assert forall|key: Seq<char>| m.contains_key(key) implies #[trigger] edge_map(after)[key]
                == m[key] by {
                assert(edge_map(after).contains_key(key));
                let i = choose|i: int| edge_at(after, key, i);
                lemma_edge(after, i);
                if key != action@ {
                    lemma_edge(before, i);
                }
            }
            assert(edge_map(after) =~= m);
        }
    }

    /// Resolve the successor for an action. Clean termination (no match)
    /// returns `None`.
    pub fn resolve_successor(&self, action: &Action) -> (r: Option<NodeRef>)
        requires
            self.wf(),
        ensures
            r == self@.successor(*action),
            r == self@.successors.get(
                match *action {
                    Some(name) => name@,
                    None => DEFAULT_ACTION@,
                },
            ),
    {
        let key = match action {
            Some(name) => name.clone(),
            None => DEFAULT_ACTION.to_owned(),
        };
        match self.find_edge(&key) {
            Some(i) => Some(self.successors[i].1),
            None => None,
        }
    }

    /// The warning to log when a *named* action is returned that isn't wired
    /// but other edges exist, i.e. a likely typo. It lists the wired actions
    /// in an order that is left open.
    pub fn unwired_warning(&self, action: &Action) -> (r: Option<String>)
        requires
            self.wf(),
        ensures
            r is Some <==> self@.likely_typo(*action),
            r is Some ==> exists|have: Seq<Seq<char>>|
                lists(have, self@.successors.dom()) && r->0@ == #[trigger] unwired_text(
                    self@.name,
                    (*action)->0@,
                    have,
                ),
    {
        let name = match action {
            Some(name) => name,
            None => {
                return None;
            },
        };
        if !self.has_successors() {
            return None;
        }
        if let Some(_) = self.find_edge(name) {
            return None;
        }
        let mut w = "[focket-rs] ".to_owned();
        w.append(self.name.as_str());
        w.append(" returned action '");
        w.append(name.as_str());
        w.append("' but no such edge is wired (have: ");
        let edges = self.successor_entries();
        let ghost have = edges@.map_values(|e: (String, NodeRef)| e.0@);
        let ghost head = w@;
        for i in 0..edges.len()
            invariant
                have == edges@.map_values(|e: (String, NodeRef)| e.0@),
                w@ == head + joined(have.take(i as int)),
        {
            proof {
                let next = have.take(i + 1);
                assert(next.drop_last() =~= have.take(i as int));
                assert(next.last() == edges@[i as int].0@);
            }
            if i > 0 {
                w.append(", ");
            }
            w.append(edges[i].0.as_str());
        }
        w.append("). Flow ends.");
        proof {
            assert(have.take(edges.len() as int) =~= have);
            assert(w@ =~= unwired_text(self@.name, name@, have));
        }
        Some(w)
    }

    /// The warning to log when the node is run on its own although it has
    /// successors.
    pub fn ignored_warning(&self) -> (r: Option<String>)
        ensures
            match r {
                Some(w) => !self@.successors.dom().is_empty() && w@ == ignored_text(self@.name),
                None => self@.successors.dom().is_empty(),
            },
    {
        if !self.has_successors() {
            return None;
        }
        let mut w = "[focket-rs] ".to_owned();
        w.append(self.name.as_str());
        w.append(" has successors; run() ignores them. Use a Flow.");
        Some(w)
    }

    /// The cancellation token for the current run, if inside one. Inside several
    /// runs at once it is that of the run entered last.
    pub fn signal(&self) -> (r: Option<CancellationToken>)
        ensures
            r == self@.signal,
    {
        match &self.signal {
            Some(s) => Some(s.clone()),
            None => None,
        }
    }

    pub(crate) fn set_signal(&mut self, signal: CancellationToken)
        requires
            old(self).wf(),
        ensures
            final(self).wf(),
            final(self)@ == old(self)@.under(signal),
    {
        if self.runs < u64::MAX {
            self.runs = self.runs + 1;
        }
        self.signal = Some(signal);
    }

    pub(crate) fn leave_run(&mut self)
        requires
            old(self).wf(),
        ensures
            final(self).wf(),
            final(self)@ == old(self)@.left(),
    {
        if self.runs > 1 {
            self.runs = self.runs - 1;
        } else {
            self.runs = 0;
            self.signal = None;
        }
    }

    /// A copy of the node under another id. It has the config, the params and
    /// the edges of the node, and no run signal.
    pub(crate) fn copied(&self, id: u64) -> (r: NodeCore)
        requires
            self.wf(),
        ensures
            r.wf(),
            r@ == self@.copied(id),
            r@ == (NodeCoreView { id, runs: 0, signal: None, ..self@ }),
    {
        let successors = self.copy_edges();
        let own_params = self.own_params();
        NodeCore {
            id,
            name: self.name.clone(),
            timeout_ms: self.timeout_ms,
            max_retries: self.max_retries,
            wait_ms: self.wait_ms,
            concurrency: self.concurrency,
            fail_fast: self.fail_fast,
            batch: self.batch,
            params: self.params.clone(),
            own_params,
            successors,
            runs: 0,
            signal: None,
        }
    }
}

} // verus!
