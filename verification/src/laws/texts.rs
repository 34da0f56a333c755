//! What holds of errors and of the texts that they and the warnings are made of.

use vstd::prelude::*;

use crate::error::FlowError;
use crate::internal::isolated;
use crate::text::{decimal, digit_char, joined};
use crate::types::{ErrorRef, Shared};

verus! {

/// The number that a text stands for in decimal notation.
pub open spec fn number(text: Seq<char>) -> int
    decreases text.len(),
{
    if text.len() == 0 {
        0
    } else {
        10 * number(text.drop_last()) + (text.last() as int - '0' as int)
    }
}

/// The decimal notation of a number stands for that number. It is made of digits, and
/// only that of `0` begins with a zero.
pub proof fn law_decimal_reads_back(n: nat)
    ensures
        number(decimal(n)) == n,
        decimal(n).len() >= 1,
        forall|i: int| 0 <= i < decimal(n).len() ==> '0' <= #[trigger] decimal(n)[i] <= '9',
        n > 0 ==> decimal(n)[0] != '0',
        n == 0 ==> decimal(n) == seq!['0'],
    decreases n,
{
    reveal_with_fuel(number, 2);
    if n < 10 {
        assert(decimal(n).drop_last() =~= Seq::<char>::empty());
        assert(decimal(n).last() == digit_char(n));
        if n == 0 {
            assert(decimal(n) =~= seq!['0']);
        }
    } else {
        law_decimal_reads_back(n / 10);
        assert(decimal(n).drop_last() =~= decimal(n / 10));
        assert(decimal(n).last() == digit_char(n % 10));
        assert(decimal(n)[0] == decimal(n / 10)[0]);
    }
}

/// Different numbers have different notations.
pub proof fn law_decimal_tells_numbers_apart(n: nat, m: nat)
    requires
        decimal(n) == decimal(m),
    ensures
        n == m,
{
    law_decimal_reads_back(n);
    law_decimal_reads_back(m);
}

/// A list of texts has each of them in order, with a comma and a blank between
/// neighbours and none at the ends.
pub proof fn law_joined_in_order(first: Seq<char>, rest: Seq<Seq<char>>)
    ensures
        joined(Seq::<Seq<char>>::empty()).len() == 0,
        joined(seq![first]) == first,
        rest.len() > 0 ==> joined(seq![first] + rest) == first + ", "@ + joined(rest),
    decreases rest.len(),
{
    reveal_with_fuel(joined, 3);
    let all = seq![first] + rest;
    if rest.len() == 1 {
        assert(all.drop_last() =~= seq![first]);
        assert(all.last() == rest[0]);
        assert(joined(rest) == rest[0]);
    } else if rest.len() > 1 {
        law_joined_in_order(first, rest.drop_last());
        assert(all.drop_last() =~= seq![first] + rest.drop_last());
        assert(all.last() == rest.last());
        assert(joined(all) =~= first + ", "@ + joined(rest));
    }
}

/// An error displays what it is about: a message of the engine or of user code as it
/// is, and a limit that was exceeded by its number.
pub proof fn law_error_messages(e: &FlowError, r: String)
    requires
        call_ensures(FlowError::message, (e,), r),
    ensures
        *e is Flow ==> r@ == e->Flow_0@,
        *e is Cycle ==> r@ == "Flow exceeded maxSteps="@ + decimal(e->max_steps as nat)
            + " — likely an infinite loop. Pass a higher { maxSteps } if this is intended."@,
        *e is Timeout ==> r@ == "Node exceeded timeoutMs="@ + decimal(e->timeout_ms as nat)
            + "."@,
        *e is Aborted ==> r@ == "Flow aborted."@,
        *e is Msg ==> r@ == e->Msg_0@,
        *e is User ==> r@ == e->text@,
{
}

/// Each kind of error is made as what it is. Only a cancellation counts as one, and
/// only a timeout has a budget that it exceeded.
pub proof fn law_error_kinds(
    text: String,
    n: usize,
    ms: u64,
    handle: ErrorRef,
    flow: FlowError,
    cycle: FlowError,
    timeout: FlowError,
    msg: FlowError,
    user: FlowError,
    e: &FlowError,
    aborted: bool,
    budget: Option<u64>,
)
    requires
        call_ensures(FlowError::flow, (text,), flow),
        call_ensures(FlowError::cycle, (n,), cycle),
        call_ensures(FlowError::timeout, (ms,), timeout),
        call_ensures(FlowError::msg, (text,), msg),
        call_ensures(FlowError::user, (text, handle), user),
        call_ensures(FlowError::is_aborted, (e,), aborted),
        call_ensures(FlowError::timeout_ms, (e,), budget),
    ensures
        flow is Flow && flow->Flow_0@ == text@,
        cycle is Cycle && cycle->max_steps == n,
        timeout is Timeout && timeout->timeout_ms == ms,
        msg is Msg && msg->Msg_0@ == text@,
        user is User && user->text@ == text@ && user->handle == handle,
        aborted <==> *e is Aborted,
        budget is Some <==> *e is Timeout,
        budget is Some ==> budget->0 == e->timeout_ms,
{
}

/// A shared that is isolated is the same value, unless a strategy of its own says
/// otherwise.
pub proof fn law_isolated_shared<F: Fn(&Shared) -> Shared>(
    shared: &Shared,
    cloner: F,
    plain: Shared,
    custom: Shared,
)
    requires
        call_requires(cloner, (shared,)),
        call_ensures(isolated::<F>, (shared, None), plain),
        call_ensures(isolated::<F>, (shared, Some(&cloner)), custom),
    ensures
        plain == *shared,
        call_ensures(cloner, (shared,), custom),
{
}

} // verus!
