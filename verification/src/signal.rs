//! Cancellation signals: the tokens of `tokio_util` and how runs link them.

use tokio_util::sync::CancellationToken;
use vstd::prelude::*;

verus! {

/// A cancellation token: `tokio_util::sync::CancellationToken`.
#[verifier::external_type_specification]
#[verifier::external_body]
pub struct ExCancellationToken(tokio_util::sync::CancellationToken);

/// The token that a token was made a child of, so that it is cancelled
/// whenever that one is. A token made on its own has none.
pub uninterp spec fn upstream(
    t: tokio_util::sync::CancellationToken,
) -> Option<tokio_util::sync::CancellationToken>;

/// `CancellationToken::new` makes a token that no other token cancels.
pub assume_specification[ CancellationToken::new ]() -> (t: CancellationToken)
    ensures
        upstream(t) is None,
;

/// `CancellationToken::child_token` makes a token of its own that is cancelled
/// whenever its parent is.
pub assume_specification[ CancellationToken::child_token ](t: &CancellationToken) -> (r:
    CancellationToken)
    ensures
        upstream(r) == Some(*t),
        r != *t,
;

/// `CancellationToken::clone` gives another handle of the same token: the two
/// are cancelled together.
pub assume_specification[ <CancellationToken as Clone>::clone ](t: &CancellationToken) -> (r:
    CancellationToken)
    ensures
        r == *t,
;

/// `CancellationToken::is_cancelled` reads the state that other handles of the
/// token may change at any time, so nothing is claimed of what it returns.
pub assume_specification[ CancellationToken::is_cancelled ](t: &CancellationToken) -> bool
;

/// The token was asked, and gave this answer.
pub open spec fn answers(t: CancellationToken, cancelled: bool) -> bool {
    call_ensures(CancellationToken::is_cancelled, (&t,), cancelled)
}

/// Asks a token a question: the answer is the one that the question gave.
pub(crate) fn ask<F: Fn(&CancellationToken) -> bool>(question: F, t: &CancellationToken) -> (r: bool)
    requires
        call_requires(question, (t,)),
    ensures
        call_ensures(question, (t,), r),
{
    question(t)
}

/// A token of its own that is cancelled when `parent` is.
pub open spec fn linked_to(t: CancellationToken, parent: Option<&CancellationToken>) -> bool {
    match parent {
        Some(p) => upstream(t) == Some(*p) && t != *p,
        None => upstream(t) is None,
    }
}

/// Create a token that is cancelled when `parent` is (linked), and can also be
/// cancelled directly (used by `fail_fast` to cancel in-flight siblings).
pub fn link_signal(parent: Option<&CancellationToken>) -> (t: CancellationToken)
    ensures
        linked_to(t, parent),
{
    match parent {
        Some(p) => p.child_token(),
        None => CancellationToken::new(),
    }
}

/// The token of a run: the caller's, or a token that nobody cancels.
pub fn run_signal(signal: Option<CancellationToken>) -> (t: CancellationToken)
    ensures
        match signal {
            Some(s) => t == s,
            None => upstream(t) is None,
        },
{
    match signal {
        Some(s) => s,
        None => CancellationToken::new(),
    }
}

} // verus!
