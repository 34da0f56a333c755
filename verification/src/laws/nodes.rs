//! What holds of a single node: its options, its params, its edges, its runs and
//! the warnings about it.

use tokio_util::sync::CancellationToken;
use vstd::prelude::*;

use crate::json::{elements, entries, fields, shape, Shape};
use crate::node_core::{lists, one_more, NodeCore, NodeCoreView, NodeOpts};
use crate::text::joined;
use crate::types::{merge_params, to_params, Action, NodeRef, Params, DEFAULT_ACTION};

verus! {

/* ------------------------------- options ------------------------------- */

/// A node is made with a single attempt, no timeout, no pause, sequential, without
/// params of its own or anybody else's, without edges and outside any run.
pub proof fn law_fresh_node(name: String, named: NodeCore, unnamed: NodeCore)
    requires
        call_ensures(NodeCore::named, (name,), named),
        call_ensures(NodeCore::new, (), unnamed),
    ensures
        named@.id == 0,
        named@.name == name@,
        named@.timeout_ms == 0,
        named@.max_retries == 0,
        named@.wait_ms == 0,
        named@.concurrency == 1,
        !named@.fail_fast,
        !named@.batch,
        forall|key: Seq<char>| !#[trigger] named@.params.contains_key(key),
        named@.own_params is None,
        forall|action: Seq<char>| !#[trigger] named@.successors.contains_key(action),
        named@.runs == 0,
        named@.signal is None,
        unnamed@ == (NodeCoreView { name: "Node"@, ..named@ }),
{
}

/// Options are made with a single attempt, no timeout, no pause and sequential, and
/// those of a batch node differ in that only.
pub proof fn law_fresh_options(plain: NodeOpts, batch: NodeOpts)
    requires
        call_ensures(NodeOpts::new, (), plain),
        call_ensures(NodeOpts::batch, (), batch),
    ensures
        plain.name is None,
        plain.timeout_ms == 0,
        plain.max_retries == 0,
        plain.wait_ms == 0,
        plain.concurrency == 1,
        !plain.fail_fast,
        !plain.batch,
        batch == (NodeOpts { batch: true, ..plain }),
{
}

/// Each option is set by its own setter, which leaves the others alone.
pub proof fn law_option_setters(
    opts: NodeOpts,
    name: String,
    ms: u64,
    retries: u32,
    n: usize,
    flag: bool,
    named: NodeOpts,
    timed: NodeOpts,
    retried: NodeOpts,
    paused: NodeOpts,
    widened: NodeOpts,
    strict: NodeOpts,
)
    requires
        call_ensures(NodeOpts::name, (opts, name), named),
        call_ensures(NodeOpts::timeout_ms, (opts, ms), timed),
        call_ensures(NodeOpts::max_retries, (opts, retries), retried),
        call_ensures(NodeOpts::wait_ms, (opts, ms), paused),
        call_ensures(NodeOpts::concurrency, (opts, n), widened),
        call_ensures(NodeOpts::fail_fast, (opts, flag), strict),
    ensures
        named == (NodeOpts { name: Some(name), ..opts }),
        timed == (NodeOpts { timeout_ms: ms, ..opts }),
        retried == (NodeOpts { max_retries: retries, ..opts }),
        paused == (NodeOpts { wait_ms: ms, ..opts }),
        widened == (NodeOpts { concurrency: n, ..opts }),
        strict == (NodeOpts { fail_fast: flag, ..opts }),
{
}

/// Options that are applied to a node are what the node is asked for afterwards: a
/// name and a concurrency where one was given, and each of the rest in any case.
pub proof fn law_applied_options_are_in_force(node: &mut NodeCore, opts: NodeOpts)
    requires
        old(node).wf(),
        call_ensures(NodeCore::apply_opts, (node, opts), ()),
    ensures
        opts.name is Some ==> final(node)@.name == opts.name->0@,
        opts.name is None ==> final(node)@.name == old(node)@.name,
        final(node)@.timeout_ms == opts.timeout_ms,
        final(node)@.max_retries == opts.max_retries,
        final(node)@.wait_ms == opts.wait_ms,
        opts.concurrency >= 1 ==> final(node)@.concurrency == opts.concurrency,
        opts.concurrency == 0 ==> final(node)@.concurrency == old(node)@.concurrency,
        final(node)@.fail_fast == opts.fail_fast,
        final(node)@.batch == opts.batch,
        final(node)@.id == old(node)@.id,
        final(node)@.params == old(node)@.params,
        final(node)@.own_params == old(node)@.own_params,
        final(node)@.successors == old(node)@.successors,
        final(node)@.runs == old(node)@.runs,
        final(node)@.signal == old(node)@.signal,
{
}

/// A node that is made with options has them in force, and is otherwise as any node is
/// made; what is made by default is what is made without options; a copy of options is
/// the same options; a name that is set replaces the name and nothing else.
pub proof fn law_node_made_with_options(
    opts: NodeOpts,
    made: NodeCore,
    plain: NodeCore,
    default_opts: NodeOpts,
    fresh_opts: NodeOpts,
    default_node: NodeCore,
    copy: NodeOpts,
    named: &mut NodeCore,
    name: String,
)
    requires
        old(named).wf(),
        call_ensures(NodeCore::with_opts, (opts,), made),
        call_ensures(NodeCore::new, (), plain),
        call_ensures(<NodeOpts as Default>::default, (), default_opts),
        call_ensures(NodeOpts::new, (), fresh_opts),
        call_ensures(<NodeCore as Default>::default, (), default_node),
        call_ensures(<NodeOpts as Clone>::clone, (&opts,), copy),
        call_ensures(NodeCore::set_name, (named, name), ()),
    ensures
        opts.name is Some ==> made@.name == opts.name->0@,
        opts.name is None ==> made@.name == "Node"@,
        made@.timeout_ms == opts.timeout_ms,
        made@.max_retries == opts.max_retries,
        made@.wait_ms == opts.wait_ms,
        opts.concurrency >= 1 ==> made@.concurrency == opts.concurrency,
        opts.concurrency == 0 ==> made@.concurrency == 1,
        made@.fail_fast == opts.fail_fast,
        made@.batch == opts.batch,
        made@.params == plain@.params,
        made@.own_params is None,
        made@.successors == plain@.successors,
        made@.signal is None,
        default_opts == fresh_opts,
        default_node@ == plain@,
        copy == opts,
        final(named)@ == (NodeCoreView { name: name@, ..old(named)@ }),
{
}

/// Options that give a name and a concurrency leave nothing of earlier ones in force.
pub proof fn law_last_options_win(node: NodeCoreView, first: NodeOpts, last: NodeOpts)
    requires
        last.name is Some,
        last.concurrency > 0,
    ensures
        node.with_opts(first).with_opts(last) == node.with_opts(last),
{
}

/// A node tells what it was given.
pub proof fn law_node_tells_its_config(
    node: &NodeCore,
    id: u64,
    name: &str,
    timeout_ms: u64,
    max_retries: u32,
    wait_ms: u64,
    concurrency: usize,
    fail_fast: bool,
    batch: bool,
    signal: Option<CancellationToken>,
)
    requires
        call_ensures(NodeCore::id, (node,), id),
        call_ensures(NodeCore::name, (node,), name),
        call_ensures(NodeCore::timeout_ms, (node,), timeout_ms),
        call_ensures(NodeCore::max_retries, (node,), max_retries),
        call_ensures(NodeCore::wait_ms, (node,), wait_ms),
        call_ensures(NodeCore::concurrency, (node,), concurrency),
        call_ensures(NodeCore::fail_fast, (node,), fail_fast),
        call_ensures(NodeCore::is_batch, (node,), batch),
        call_ensures(NodeCore::signal, (node,), signal),
    ensures
        id == node@.id,
        name@ == node@.name,
        timeout_ms == node@.timeout_ms,
        max_retries == node@.max_retries,
        wait_ms == node@.wait_ms,
        concurrency == node@.concurrency,
        fail_fast == node@.fail_fast,
        batch == node@.batch,
        signal == node@.signal,
{
}

/* -------------------------------- params ------------------------------- */

/// Only an object has fields, and they are its entries, all of them; only an array
/// has elements, and they are all there, in order.
pub proof fn law_json_contents(v: serde_json::Value)
    ensures
        shape(v) matches Shape::Object(m) ==> fields(v) == m,
        !(shape(v) is Object) ==> forall|key: Seq<char>| !#[trigger] fields(v).contains_key(key),
        shape(v) matches Shape::Array(a) ==> elements(v) == a,
        !(shape(v) is Array) ==> elements(v).len() == 0,
{
}

/// Turned into params, an object keeps every entry, and anything else has none.
pub proof fn law_to_params_keeps_objects(v: serde_json::Value, r: Params, key: Seq<char>)
    requires
        call_ensures(to_params, (v,), r),
    ensures
        shape(v) matches Shape::Object(m) ==> entries(r).get(key) == m.get(key),
        !(shape(v) is Object) ==> entries(r).get(key) is None,
{
}

/// Of two params dicts merged, the one on top has its way for every key that it has,
/// and the other for every key that only it has.
pub proof fn law_merge_prefers_the_top(
    base: &Params,
    over: &serde_json::Value,
    r: Params,
    key: Seq<char>,
)
    requires
        call_ensures(merge_params, (base, over), r),
    ensures
        (shape(*over) matches Shape::Object(m) && m.contains_key(key)) ==> entries(r).contains_key(key)
            && entries(r)[key] == shape(*over)->Object_0[key],
        !(shape(*over) matches Shape::Object(m) && m.contains_key(key)) ==> entries(r).get(key)
            == entries(*base).get(key),
{
}

/// Params that a node is given as its own are the ones in force, all of them and no
/// others, and nothing else about the node changes.
pub proof fn law_own_params_are_in_force(
    node: &mut NodeCore,
    params: serde_json::Value,
    key: Seq<char>,
)
    requires
        old(node).wf(),
        call_ensures(NodeCore::set_params, (node, params), ()),
    ensures
        final(node)@.own_params is Some,
        shape(params) matches Shape::Object(m) ==> final(node)@.params == m
            && final(node)@.own_params->0 == m,
        !(shape(params) is Object) ==> !final(node)@.params.contains_key(key)
            && !final(node)@.own_params->0.contains_key(key),
        final(node)@ == (NodeCoreView {
            params: final(node)@.params,
            own_params: final(node)@.own_params,
            ..old(node)@
        }),
{
}

/// The same of params that are a dict already.
pub proof fn law_own_params_map_is_in_force(node: &mut NodeCore, params: Params)
    requires
        old(node).wf(),
        call_ensures(NodeCore::set_params_map, (node, params), ()),
    ensures
        final(node)@.params == entries(params),
        final(node)@.own_params == Some(entries(params)),
        final(node)@ == (NodeCoreView {
            params: entries(params),
            own_params: Some(entries(params)),
            ..old(node)@
        }),
{
}

/// Params that a flow injects are defaults, key by key: a node's own value wins, any
/// other key has the flow's value, and a key of neither is not there. What an earlier
/// flow injected is gone. Nothing else about the node changes.
pub proof fn law_injected_params_are_defaults(
    node: &mut NodeCore,
    injected: &Params,
    key: Seq<char>,
)
    requires
        old(node).wf(),
        call_ensures(NodeCore::inject_params, (node, injected), ()),
    ensures
        (old(node)@.own_params matches Some(own) && own.contains_key(key))
            ==> final(node)@.params.contains_key(key) && final(node)@.params[key]
            == old(node)@.own_params->0[key],
        !(old(node)@.own_params matches Some(own) && own.contains_key(key))
            ==> final(node)@.params.get(key) == entries(*injected).get(key),
        final(node)@ == (NodeCoreView { params: final(node)@.params, ..old(node)@ }),
{
}

/// A node's own params outlast every injection, and come out whole.
pub proof fn law_own_params_outlast_injection(
    node: NodeCoreView,
    own: Map<Seq<char>, serde_json::Value>,
    first: Map<Seq<char>, serde_json::Value>,
    second: Map<Seq<char>, serde_json::Value>,
    key: Seq<char>,
)
    ensures
        own.contains_key(key) ==> node.with_own(own).injected(first).injected(second).params.get(key)
            == own.get(key),
        !own.contains_key(key) ==> node.with_own(own).injected(first).injected(second).params.get(
            key,
        ) == second.get(key),
        node.own_params is None ==> node.injected(first).injected(second).params == second,
        node.injected(first).with_own(own) == node.with_own(own),
{
}

/// A param is read by its key, from the params in force.
pub proof fn law_param_reads(
    node: &NodeCore,
    key: &str,
    one: Option<serde_json::Value>,
    all: Params,
    own: Option<Params>,
)
    requires
        call_ensures(NodeCore::param, (node, key), one),
        call_ensures(NodeCore::params, (node,), all),
        call_ensures(NodeCore::own_params, (node,), own),
    ensures
        one is Some <==> node@.params.contains_key(key@),
        one is Some ==> one->0 == node@.params[key@],
        entries(all) == node@.params,
        own is Some <==> node@.own_params is Some,
        own is Some ==> entries(own->0) == node@.own_params->0,
{
}

/* -------------------------------- edges -------------------------------- */

/// The key of the default edge.
pub proof fn law_default_action_text()
    ensures
        DEFAULT_ACTION@ == "default"@,
        DEFAULT_ACTION@.len() == 7,
{
    reveal_strlit("default");
}

/// The edge wired under the whole text of a name is the one that the name follows,
/// and the edge wired as the default is the one that no name follows.
pub proof fn law_wired_name_is_followed(node: NodeCoreView, name: String, target: NodeRef)
    ensures
        node.with_edge(name@, target).successor(Some(name)) == Some(target),
        node.with_edge(DEFAULT_ACTION@, target).successor(None) == Some(target),
        node.with_edge("default"@, target).successor(None) == Some(target),
{
}

/// A name leads exactly where an edge under the whole text of it leads, and no name
/// where the default edge leads; without such an edge there is nowhere to go.
pub proof fn law_action_reads_its_edge(node: NodeCoreView, name: String)
    ensures
        node.successors.contains_key(name@) ==> node.successor(Some(name)) == Some(
            node.successors[name@],
        ),
        !node.successors.contains_key(name@) ==> node.successor(Some(name)) is None,
        node.successors.contains_key("default"@) ==> node.successor(None) == Some(
            node.successors["default"@],
        ),
        !node.successors.contains_key("default"@) ==> node.successor(None) is None,
{
}

/// Edges under different names do not disturb each other, however alike the names
/// are; of two under one name the later stays.
pub proof fn law_edges_are_kept_apart(
    node: NodeCoreView,
    one: String,
    first: NodeRef,
    other: String,
    second: NodeRef,
)
    ensures
        ({
            let both = node.with_edge(one@, first).with_edge(other@, second);
            &&& both.successor(Some(other)) == Some(second)
            &&& one@ != other@ ==> both.successor(Some(one)) == Some(first)
            &&& one@ == other@ ==> both == node.with_edge(one@, second)
            &&& one@ != "default"@ && other@ != "default"@ ==> both.successor(None)
                == node.successor(None)
        }),
        one@ != "default"@ ==> node.with_edge("default"@, first).successor(Some(one))
            == node.successor(Some(one)),
{
}

/// Wiring an edge changes nothing about a node but that edge.
pub proof fn law_wiring_changes_one_edge(
    node: NodeCoreView,
    action: Seq<char>,
    target: NodeRef,
    other: Seq<char>,
)
    ensures
        node.with_edge(action, target).successors.get(action) == Some(target),
        other != action ==> node.with_edge(action, target).successors.get(other)
            == node.successors.get(other),
        node.with_edge(action, target) == (NodeCoreView {
            successors: node.with_edge(action, target).successors,
            ..node
        }),
{
}

/// An edge wired on a node is the one that its action resolves to from then on, and
/// every other action resolves as it did before. A warning comes exactly where the
/// node had such an edge.
pub proof fn law_wire_then_resolve(
    node: &mut NodeCore,
    name: &str,
    target: NodeRef,
    warning: Option<String>,
    before: &NodeCore,
    after: &NodeCore,
    action: &Action,
    led: Option<NodeRef>,
    leads: Option<NodeRef>,
)
    requires
        old(node).wf(),
        *before == *old(node),
        *after == *final(node),
        call_ensures(NodeCore::set_successor, (node, name, target), warning),
        call_ensures(NodeCore::resolve_successor, (before, action), led),
        call_ensures(NodeCore::resolve_successor, (after, action), leads),
    ensures
        after.wf(),
        *action is Some && action->0@ == name@ ==> leads == Some(target) && (warning is Some
            <==> led is Some),
        *action is Some && action->0@ != name@ ==> leads == led,
        *action is None && name@ == "default"@ ==> leads == Some(target) && (warning is Some
            <==> led is Some),
        *action is None && name@ != "default"@ ==> leads == led,
        warning is Some ==> warning->0@ == "[focket-rs] "@ + before@.name
            + ": overwriting existing edge for action '"@ + name@ + "'"@,
{
}

/// Every edge is listed once, with the node that it leads to, and nothing else is.
pub proof fn law_edges_are_listed(
    node: &NodeCore,
    edges: Vec<(String, NodeRef)>,
    has: bool,
    action: Seq<char>,
)
    requires
        node.wf(),
        call_ensures(NodeCore::successor_entries, (node,), edges),
        call_ensures(NodeCore::has_successors, (node,), has),
    ensures
        node@.successors.contains_key(action) <==> exists|i: int|
            0 <= i < edges@.len() && (#[trigger] edges@[i]).0@ == action,
        forall|i: int|
            0 <= i < edges@.len() ==> node@.successors.contains_key((#[trigger] edges@[i]).0@)
                && node@.successors[edges@[i].0@] == edges@[i].1,
        forall|i: int, j: int|
            0 <= i < edges@.len() && 0 <= j < edges@.len() && (#[trigger] edges@[i]).0@ == (
            #[trigger] edges@[j]).0@ ==> i == j,
        has <==> edges@.len() > 0,
{
    let names = edges@.map_values(|e: (String, NodeRef)| e.0@);
    assert forall|i: int| 0 <= i < edges@.len() implies node@.successors.contains_key(
        (#[trigger] edges@[i]).0@,
    ) && node@.successors[edges@[i].0@] == edges@[i].1 by {
        assert(names[i] == edges@[i].0@);
        assert(names.to_set().contains(edges@[i].0@));
        assert(edges[i] == edges@[i]);
    }
    assert forall|a: Seq<char>| node@.successors.contains_key(a) implies exists|i: int|
        0 <= i < edges@.len() && (#[trigger] edges@[i]).0@ == a by {
        assert(names.to_set().contains(a));
        let i = choose|i: int| 0 <= i < names.len() && names[i] == a;
        assert(edges@[i].0@ == a);
    }
    assert forall|i: int, j: int|
        0 <= i < edges@.len() && 0 <= j < edges@.len() && (#[trigger] edges@[i]).0@ == (
        #[trigger] edges@[j]).0@ implies i == j by {
        assert(names[i] == names[j]);
    }
    if has {
        let a = choose|a: Seq<char>| node@.successors.dom().contains(a);
        assert(node@.successors.contains_key(a));
    } else if edges@.len() > 0 {
        assert(node@.successors.dom().contains(edges@[0].0@));
    }
}

/// A list of names holds each name of the set once: as many of them as there are,
/// every one of them, and none besides.
pub proof fn law_listed_names(names: Seq<Seq<char>>, keys: Set<Seq<char>>, name: Seq<char>)
    requires
        lists(names, keys),
    ensures
        keys.contains(name) <==> exists|i: int| 0 <= i < names.len() && names[i] == name,
        forall|i: int, j: int|
            0 <= i < names.len() && 0 <= j < names.len() && names[i] == names[j] ==> i == j,
        keys.finite(),
        names.len() == keys.len(),
{
    names.unique_seq_to_set();
    assert(names.to_set() =~= keys);
    assert(names.to_set().contains(name) == keys.contains(name));
}

/// A returned name is taken for a typo exactly where no edge is wired under it
/// although some edge is; returning no name is never one.
pub proof fn law_typo_is_an_unwired_name(node: NodeCoreView, name: String, some: Seq<char>)
    ensures
        node.likely_typo(Some(name)) ==> !node.successors.contains_key(name@) && exists|a: Seq<char>| #[trigger]
            node.successors.contains_key(a),
        node.successors.contains_key(some) && !node.successors.contains_key(name@)
            ==> node.likely_typo(Some(name)),
        !node.likely_typo(None),
{
    if node.likely_typo(Some(name)) {
        let a = choose|a: Seq<char>| node.successors.dom().contains(a);
        assert(node.successors.contains_key(a));
    }
    if node.successors.contains_key(some) {
        assert(node.successors.dom().contains(some));
    }
}

/// The warning on such a name comes exactly there, and says which node returned
/// which action and which edges the node has, each of them once.
pub proof fn law_unwired_warning(
    node: &NodeCore,
    action: &Action,
    leads: Option<NodeRef>,
    has: bool,
    warning: Option<String>,
)
    requires
        node.wf(),
        call_ensures(NodeCore::resolve_successor, (node, action), leads),
        call_ensures(NodeCore::has_successors, (node,), has),
        call_ensures(NodeCore::unwired_warning, (node, action), warning),
    ensures
        warning is Some <==> *action is Some && has && leads is None,
        warning is Some ==> exists|have: Seq<Seq<char>>|
            {
                &&& #[trigger] lists(have, node@.successors.dom())
                &&& warning->0@ == "[focket-rs] "@ + node@.name + " returned action '"@
                    + action->0@ + "' but no such edge is wired (have: "@ + joined(have)
                    + "). Flow ends."@
            },
{
}

/// The warning on a node that is run on its own comes exactly where it has edges.
pub proof fn law_ignored_warning(node: &NodeCore, has: bool, warning: Option<String>)
    requires
        call_ensures(NodeCore::has_successors, (node,), has),
        call_ensures(NodeCore::ignored_warning, (node,), warning),
    ensures
        warning is Some <==> has,
        warning is Some ==> warning->0@ == "[focket-rs] "@ + node@.name
            + " has successors; run() ignores them. Use a Flow."@,
{
}

/* --------------------------------- runs -------------------------------- */

/// Entering a run gives the node the token of that run, whatever it had, and counts
/// one more run as far as the machine can count; leaving one counts one less, and
/// takes the token back with the last. Nothing else about the node changes.
pub proof fn law_enter_and_leave(node: NodeCoreView, signal: CancellationToken)
    ensures
        node.under(signal).signal == Some(signal),
        node.runs < u64::MAX ==> node.under(signal).runs == node.runs + 1,
        node.runs == u64::MAX ==> node.under(signal).runs == u64::MAX,
        node.under(signal) == (NodeCoreView {
            runs: node.under(signal).runs,
            signal: node.under(signal).signal,
            ..node
        }),
        node.runs >= 2 ==> node.left().runs == node.runs - 1 && node.left().signal == node.signal,
        node.runs <= 1 ==> node.left().runs == 0 && node.left().signal is None,
        node.left() == (NodeCoreView {
            runs: node.left().runs,
            signal: node.left().signal,
            ..node
        }),
        one_more(node.runs) >= node.runs,
{
}

/// A copy of a node has the name, the config, the params and the edges of the node,
/// under an id of its own and outside any run.
pub proof fn law_copied_node(node: NodeCoreView, id: u64)
    ensures
        node.copied(id).id == id,
        node.copied(id).name == node.name,
        node.copied(id).timeout_ms == node.timeout_ms,
        node.copied(id).max_retries == node.max_retries,
        node.copied(id).wait_ms == node.wait_ms,
        node.copied(id).concurrency == node.concurrency,
        node.copied(id).fail_fast == node.fail_fast,
        node.copied(id).batch == node.batch,
        node.copied(id).params == node.params,
        node.copied(id).own_params == node.own_params,
        node.copied(id).successors == node.successors,
        node.copied(id).runs == 0,
        node.copied(id).signal is None,
{
}

/// A node takes any options, any params and any edge, and answers for any action.
pub proof fn law_node_takes_anything(
    node: &mut NodeCore,
    opts: NodeOpts,
    params: serde_json::Value,
    dict: Params,
    injected: &Params,
    name: &str,
    target: NodeRef,
    asked: &NodeCore,
    action: &Action,
)
    requires
        old(node).wf(),
        asked.wf(),
    ensures
        call_requires(NodeCore::apply_opts, (node, opts)),
        call_requires(NodeCore::set_params, (node, params)),
        call_requires(NodeCore::set_params_map, (node, dict)),
        call_requires(NodeCore::inject_params, (node, injected)),
        call_requires(NodeCore::set_successor, (node, name, target)),
        call_requires(NodeCore::resolve_successor, (asked, action)),
        call_requires(NodeCore::unwired_warning, (asked, action)),
        call_requires(NodeCore::successor_entries, (asked,)),
        call_requires(to_params, (params,)),
        call_requires(merge_params, (injected, &params)),
{
}

} // verus!
