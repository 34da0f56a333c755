//! The error type of the engine.

use vstd::prelude::*;
use vstd::string::StringExecFns;

use crate::text::{decimal, push_decimal};
use crate::types::ErrorRef;

verus! {

/// The single error type of the engine, also returned from user lifecycle code.
#[derive(Debug)]
pub enum FlowError {
    /// Generic engine misuse (for example a flow with no start node).
    Flow(String),
    /// A flow exceeded its `max_steps` budget (infinite-loop guard).
    Cycle { max_steps: usize },
    /// A node's lifecycle exceeded its `timeout_ms` budget. It takes the
    /// ordinary `on_error` path, so it can be routed to a recovery node.
    Timeout { timeout_ms: u64 },
    /// A run was cancelled. Cancellation is terminal: it is never retried and
    /// never routed.
    Aborted,
    /// An error raised by user code with a plain message.
    Msg(String),
    /// A foreign error raised by user code: the text it displays, and the handle
    /// under which its owner keeps it.
    User { text: String, handle: ErrorRef },
}

/// What a fallible step of the engine gives.
pub type FlowResult<T> = Result<T, FlowError>;

impl FlowError {
    /// The text that an error displays.
    pub open spec fn text(self) -> Seq<char> {
        match self {
            FlowError::Flow(m) => m@,
            FlowError::Cycle { max_steps } => "Flow exceeded maxSteps="@ + decimal(max_steps as nat)
                + " — likely an infinite loop. Pass a higher { maxSteps } if this is intended."@,
            FlowError::Timeout { timeout_ms } => "Node exceeded timeoutMs="@ + decimal(
                timeout_ms as nat,
            ) + "."@,
            FlowError::Aborted => "Flow aborted."@,
            FlowError::Msg(m) => m@,
            FlowError::User { text, handle } => text@,
        }
    }

    /// Generic engine error with a message.
    pub fn flow(msg: String) -> (e: FlowError)
        ensures
            e == FlowError::Flow(msg),
    {
        FlowError::Flow(msg)
    }

    /// `max_steps` budget exceeded.
    pub fn cycle(max_steps: usize) -> (e: FlowError)
        ensures
            e == (FlowError::Cycle { max_steps }),
    {
        FlowError::Cycle { max_steps }
    }

    /// Per-node timeout expired.
    pub fn timeout(timeout_ms: u64) -> (e: FlowError)
        ensures
            e == (FlowError::Timeout { timeout_ms }),
    {
        FlowError::Timeout { timeout_ms }
    }

    /// A user-code error with a plain message.
    pub fn msg(msg: String) -> (e: FlowError)
        ensures
            e == FlowError::Msg(msg),
    {
        FlowError::Msg(msg)
    }

    /// A foreign error from user code, given as the text it displays and the
    /// handle under which it is kept.
    pub fn user(text: String, handle: ErrorRef) -> (e: FlowError)
        ensures
            e == (FlowError::User { text, handle }),
    {
        FlowError::User { text, handle }
    }

    /// True for [`FlowError::Aborted`] only.
    pub fn is_aborted(&self) -> (r: bool)
        ensures
            r == (*self is Aborted),
    {
        matches!(self, FlowError::Aborted)
    }

    /// The `timeout_ms` budget, if this is a [`FlowError::Timeout`].
    pub fn timeout_ms(&self) -> (r: Option<u64>)
        ensures
            r == match *self {
                FlowError::Timeout { timeout_ms } => Some(timeout_ms),
                _ => None,
            },
    {
        match self {
            FlowError::Timeout { timeout_ms } => Some(*timeout_ms),
            _ => None,
        }
    }

    /// The text that the error displays.
    pub fn message(&self) -> (r: String)
        ensures
            r@ == self.text(),
    {
        match self {
            FlowError::Flow(m) => m.clone(),
            FlowError::Cycle { max_steps } => {
                let mut s = "Flow exceeded maxSteps=".to_owned();
                push_decimal(&mut s, *max_steps as u64);
                s.append(
                    " — likely an infinite loop. Pass a higher { maxSteps } if this is intended.",
                );
                s
            },
            FlowError::Timeout { timeout_ms } => {
                let mut s = "Node exceeded timeoutMs=".to_owned();
                push_decimal(&mut s, *timeout_ms);
                s.append(".");
                s
            },
            FlowError::Aborted => "Flow aborted.".to_owned(),
            FlowError::Msg(m) => m.clone(),
            FlowError::User { text, .. } => text.clone(),
        }
    }
}

} // verus!
