//! The vocabulary of the engine: actions, handles, shared context and params.

use std::collections::HashMap;
use vstd::prelude::*;

use crate::json::{entries, fields, object_extend, open_value, Opened};

verus! {

/// The key of the edge that an unnamed action follows.
pub const DEFAULT_ACTION: &'static str = "default";

/// The shared context threaded through a whole flow. The *same* mutable value
/// is handed to every node's `prep()`/`post()`.
pub type Shared = serde_json::Value;

/// Node-specific config dictionary, propagated by flows and merged under the
/// node's own params.
pub type Params = serde_json::Map<String, serde_json::Value>;

/// The output of a node's `post()`: selects the next edge in the graph.
/// `None` follows the default edge, `Some(name)` the edge wired for `name`.
pub type Action = Option<String>;

/// A node, by its id in the [`crate::Graph`] that holds it.
pub type NodeRef = u64;

/// A hook set, by the number under which it was registered.
pub type HookRef = u64;

/// A strategy for copying `shared`, by the number under which it was registered.
pub type SharedCloner = u64;

/// Overrides for one of the node kinds that the engine provides, by the number
/// under which they were registered.
pub type OpsRef = u64;

/// A foreign error, by the number under which it is kept.
pub type ErrorRef = u64;

/// Memo map used by graph cloning to preserve cycles (node id → its clone).
pub type CloneMemo = HashMap<u64, NodeRef>;

/// The key of the edge that an action follows.
pub open spec fn edge_key(action: Action) -> Seq<char> {
    match action {
        Some(name) => name@,
        None => DEFAULT_ACTION@,
    }
}

/// Convert a value into [`Params`]: an object passes through, anything else
/// becomes an empty dict.
pub fn to_params(v: serde_json::Value) -> (r: Params)
    ensures
        entries(r) == fields(v),
{
    match open_value(v) {
        Opened::Object(m) => m,
        _ => Params::new(),
    }
}

/// Merge a bundle on top of a params dict: the bundle's fields win, and a
/// bundle that is no object changes nothing.
pub fn merge_params(base: &Params, over: &serde_json::Value) -> (r: Params)
    ensures
        entries(r) == entries(*base).union_prefer_right(fields(*over)),
{
    let mut m = base.clone();
    match open_value(over.clone()) {
        Opened::Object(o) => {
            object_extend(&mut m, o);
        },
        _ => {
            assert(entries(m) =~= entries(*base).union_prefer_right(fields(*over)));
        },
    }
    m
}

} // verus!
