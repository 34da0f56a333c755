//! A minimal node-graph workflow engine.
//!
//! One durable primitive, a `prep → exec → post` **node** wired into a directed
//! graph, plus a hooks layer for tracing and error recovery, built-in cycle
//! protection, retries, timeouts, cancellation, and bounded parallelism.
//!
//! This library holds the graph and every decision of the engine, each with a
//! contract. It runs no node and waits for nothing: a driver around it
//! runs what the machines here ask for and hands back what came of it.

pub mod batch_flow;
pub mod cloning;
pub mod error;
pub mod flow;
pub mod flow_node;
pub mod fork_join;
pub mod graph;
pub mod hooks;
pub mod internal;
pub mod json;
pub mod laws;
pub mod node;
pub mod node_core;
pub mod pool;
pub mod signal;
pub mod subflow;
pub mod text;
pub mod types;

pub use batch_flow::BatchFlow;
pub use error::{FlowError, FlowResult};
pub use flow::{Budget, Flow};
pub use flow_node::FlowNode;
pub use fork_join::ForkJoin;
pub use graph::{Graph, OnBuilder};
pub use hooks::{
    fire_on_end, fire_on_error, fire_on_node_end, fire_on_node_start, fire_on_retry, fire_on_start,
    ErrorCtx, ErrorPolicy, NodeEndCtx, NodeHookCtx, RetryCtx,
};
pub use node_core::{NodeCore, NodeOpts};
pub use subflow::Subflow;
pub use tokio_util::sync::CancellationToken;
pub use types::{
    merge_params, to_params, Action, CloneMemo, ErrorRef, HookRef, NodeRef, OpsRef, Params,
    Shared, SharedCloner, DEFAULT_ACTION,
};
