//! Bounded parallelism over a list of items: which item a worker takes next,
//! where its result goes, and when the workers stop.

use tokio_util::sync::CancellationToken;
use vstd::prelude::*;

use crate::error::{FlowError, FlowResult};
use crate::signal::{answers, ask, link_signal, linked_to};

verus! {

/// What a [`Pool`] stands for.
#[verifier::ext_equal]
pub struct PoolView<R> {
    /// One item after the other, in place of several at once.
    pub sequential: bool,
    /// How many items may be in flight at a time.
    pub workers: nat,
    /// How many items were handed out, from the first on.
    pub claimed: nat,
    /// The items that were handed out and have not come out.
    pub in_flight: Set<nat>,
    /// One slot per item.
    pub slots: Seq<Option<R>>,
    /// The first failure.
    pub failure: Option<FlowError>,
    /// The token that the items race.
    pub linked: CancellationToken,
}

/// The number of workers: one for a sequential run, and never more than there
/// are items.
pub open spec fn worker_count(items: nat, concurrency: nat) -> nat {
    if concurrency <= 1 || items == 0 {
        1
    } else if concurrency < items {
        concurrency
    } else {
        items
    }
}

impl<R> PoolView<R> {
    /// No item handed out yet.
    pub open spec fn fresh(items: nat, concurrency: nat, linked: CancellationToken) -> PoolView<R> {
        PoolView {
            sequential: concurrency <= 1,
            workers: worker_count(items, concurrency),
            claimed: 0,
            in_flight: Set::empty(),
            slots: Seq::new(items, |i: int| None),
            failure: None,
            linked,
        }
    }

    /// Only items that were handed out are in flight, and no more of them than
    /// there are workers.
    pub open spec fn valid(self) -> bool {
        &&& self.claimed <= self.slots.len()
        &&& self.in_flight.finite()
        &&& self.in_flight.len() <= self.workers
        &&& forall|i: nat| #[trigger] self.in_flight.contains(i) ==> i < self.claimed
    }

    /// A worker is free to take an item.
    pub open spec fn has_room(self) -> bool {
        self.in_flight.len() < self.workers
    }

    /// There is an item left that may be handed out.
    pub open spec fn has_next(self) -> bool {
        self.failure is None && self.claimed < self.slots.len()
    }

    /// The item that a worker gets: the first one left, unless the signal is
    /// cancelled.
    pub open spec fn offer(self, cancelled: bool) -> Option<nat> {
        if self.has_next() && !cancelled {
            Some(self.claimed)
        } else {
            None
        }
    }

    /// The pool after a worker has asked for an item. One after the other, a
    /// cancelled signal is a failure; otherwise the workers just stop.
    pub open spec fn asked(self, cancelled: bool) -> PoolView<R> {
        if !self.has_next() {
            self
        } else if !cancelled {
            PoolView {
                claimed: self.claimed + 1,
                in_flight: self.in_flight.insert(self.claimed),
                ..self
            }
        } else if self.sequential {
            PoolView { failure: Some(FlowError::Aborted), ..self }
        } else {
            self
        }
    }

    /// The pool after an item has come out: its slot is filled, or the failure
    /// is kept unless there is one.
    pub open spec fn settled(self, item: nat, result: FlowResult<R>) -> PoolView<R> {
        let rest = PoolView { in_flight: self.in_flight.remove(item), ..self };
        match result {
            Ok(v) => PoolView { slots: self.slots.update(item as int, Some(v)), ..rest },
            Err(e) => if self.failure is None {
                PoolView { failure: Some(e), ..rest }
            } else {
                rest
            },
        }
    }

    /// The token to cancel when an item comes out: on a failure among several at
    /// once, the one that its siblings race.
    pub open spec fn stops(self, result: FlowResult<R>) -> Option<CancellationToken> {
        if result is Err && !self.sequential {
            Some(self.linked)
        } else {
            None
        }
    }

    /// What the pool comes to: the first failure, or the slots in item order.
    pub open spec fn outcome(self) -> FlowResult<Seq<Option<R>>> {
        match self.failure {
            Some(e) => Err(e),
            None => Ok(self.slots),
        }
    }
}

/// What can happen to a pool.
pub enum PoolEvent<R> {
    /// A worker asks for an item.
    Ask { cancelled: bool },
    /// An item that a worker took has come out.
    Settle { item: nat, result: FlowResult<R> },
}

/// The pool after one event.
pub open spec fn pool_step<R>(p: PoolView<R>, event: PoolEvent<R>) -> PoolView<R> {
    match event {
        PoolEvent::Ask { cancelled } => p.asked(cancelled),
        PoolEvent::Settle { item, result } => p.settled(item, result),
    }
}

/// The pool after a series of events.
pub open spec fn pool_run<R>(p: PoolView<R>, events: Seq<PoolEvent<R>>) -> PoolView<R>
    decreases events.len(),
{
    if events.len() == 0 {
        p
    } else {
        pool_step(pool_run(p, events.drop_last()), events.last())
    }
}

/// The items that workers got during a series of events, in turn.
pub open spec fn handed_out<R>(p: PoolView<R>, events: Seq<PoolEvent<R>>) -> Seq<nat>
    decreases events.len(),
{
    if events.len() == 0 {
        Seq::empty()
    } else {
        let before = handed_out(p, events.drop_last());
        match events.last() {
            PoolEvent::Ask { cancelled } => match pool_run(p, events.drop_last()).offer(cancelled) {
                Some(item) => before.push(item),
                None => before,
            },
            PoolEvent::Settle { item, result } => before,
        }
    }
}

/// Only items of the list come out.
pub open spec fn within<R>(events: Seq<PoolEvent<R>>, items: nat) -> bool {
    forall|k: int|
        0 <= k < events.len() ==> match #[trigger] events[k] {
            PoolEvent::Settle { item, result } => item < items,
            PoolEvent::Ask { cancelled } => true,
        }
}

proof fn lemma_within<R>(events: Seq<PoolEvent<R>>, items: nat)
    requires
        within(events, items),
        events.len() > 0,
    ensures
        within(events.drop_last(), items),
        events.last() matches PoolEvent::Settle { item, result } ==> item < items,
{
    let before = events.drop_last();
    assert forall|k: int| 0 <= k < before.len() implies match #[trigger] before[k] {
        PoolEvent::Settle { item, result } => item < items,
        PoolEvent::Ask { cancelled } => true,
    } by {
        assert(before[k] == events[k]);
    }
    assert(events[events.len() - 1] == events.last());
}

/// Items are handed out in order, each of them once, whatever happens.
pub proof fn law_items_handed_out_in_order<R>(
    items: nat,
    concurrency: nat,
    linked: CancellationToken,
    events: Seq<PoolEvent<R>>,
)
    requires
        within(events, items),
    ensures
        ({
            let p = PoolView::<R>::fresh(items, concurrency, linked);
            &&& pool_run(p, events).claimed <= items
            &&& handed_out(p, events) == Seq::new(pool_run(p, events).claimed, |i: int| i as nat)
        }),
{
    let p = PoolView::<R>::fresh(items, concurrency, linked);
    lemma_items_in_order(p, events);
    assert(handed_out(p, events) =~= Seq::new(pool_run(p, events).claimed, |i: int| i as nat));
}

proof fn lemma_items_in_order<R>(p: PoolView<R>, events: Seq<PoolEvent<R>>)
    requires
        p.claimed == 0,
        within(events, p.slots.len()),
    ensures
        pool_run(p, events).slots.len() == p.slots.len(),
        pool_run(p, events).claimed <= p.slots.len(),
        handed_out(p, events).len() == pool_run(p, events).claimed,
        forall|i: int|
            0 <= i < handed_out(p, events).len() ==> (#[trigger] handed_out(p, events)[i]) == i,
    decreases events.len(),
{
    if events.len() > 0 {
        lemma_within(events, p.slots.len());
        lemma_items_in_order(p, events.drop_last());
    }
}

/// After the first failure no item is handed out any more, and the failure
/// stays the one that comes out, whatever happens.
pub proof fn law_nothing_starts_after_failure<R>(p: PoolView<R>, events: Seq<PoolEvent<R>>)
    requires
        p.failure is Some,
    ensures
        handed_out(p, events).len() == 0,
        pool_run(p, events).claimed == p.claimed,
        pool_run(p, events).outcome() == Err::<Seq<Option<R>>, FlowError>(p.failure->0),
    decreases events.len(),
{
    if events.len() > 0 {
        law_nothing_starts_after_failure(p, events.drop_last());
    }
}

/// The first failure of an item stops the rest: it is what comes out, and no
/// item is handed out behind it, whatever else happens.
pub proof fn law_first_failure_stops_the_rest<R>(
    p: PoolView<R>,
    item: nat,
    error: FlowError,
    events: Seq<PoolEvent<R>>,
)
    requires
        p.failure is None,
    ensures
        handed_out(p.settled(item, Err(error)), events).len() == 0,
        pool_run(p.settled(item, Err(error)), events).outcome() == Err::<
            Seq<Option<R>>,
            FlowError,
        >(error),
{
    law_nothing_starts_after_failure(p.settled(item, Err(error)), events);
}

/// Every item that came out well came out as `f` says.
pub open spec fn results_are<R>(events: Seq<PoolEvent<R>>, f: spec_fn(nat) -> R) -> bool {
    forall|k: int|
        0 <= k < events.len() ==> match #[trigger] events[k] {
            PoolEvent::Settle { item, result } => result matches Ok(v) ==> v == f(item),
            PoolEvent::Ask { cancelled } => true,
        }
}

/// The item came out well.
pub open spec fn succeeded<R>(events: Seq<PoolEvent<R>>, item: nat) -> bool {
    exists|k: int|
        0 <= k < events.len() && match #[trigger] events[k] {
            PoolEvent::Settle { item: i, result } => i == item && result is Ok,
            PoolEvent::Ask { cancelled } => false,
        }
}

/// Order is preserved: whatever the order in which items come out, the slot of
/// each item holds the result of that item if it came out well, and nothing
/// otherwise.
pub proof fn law_slots_keep_item_order<R>(
    items: nat,
    concurrency: nat,
    linked: CancellationToken,
    events: Seq<PoolEvent<R>>,
    f: spec_fn(nat) -> R,
)
    requires
        within(events, items),
        results_are(events, f),
    ensures
        ({
            let end = pool_run(PoolView::<R>::fresh(items, concurrency, linked), events);
            &&& end.slots.len() == items
            &&& forall|i: nat|
                i < items ==> #[trigger] end.slots[i as int] == (if succeeded(events, i) {
                    Some(f(i))
                } else {
                    None
                })
        }),
    decreases events.len(),
{
    if events.len() > 0 {
        let before = events.drop_last();
        let p = PoolView::<R>::fresh(items, concurrency, linked);
        assert forall|k: int| 0 <= k < before.len() implies match #[trigger] before[k] {
            PoolEvent::Settle { item, result } => result matches Ok(v) ==> v == f(item),
            PoolEvent::Ask { cancelled } => true,
        } by {
            assert(before[k] == events[k]);
        }
        lemma_within(events, items);
        law_slots_keep_item_order(items, concurrency, linked, before, f);
        let mid = pool_run(p, before);
        let end = pool_run(p, events);
        let last = events[events.len() - 1];
        assert forall|i: nat| i < items implies #[trigger] end.slots[i as int] == (if succeeded(
            events,
            i,
        ) {
            Some(f(i))
        } else {
            None
        }) by {
            assert(mid.slots[i as int] == (if succeeded(before, i) {
                Some(f(i))
            } else {
                None
            }));
            if succeeded(before, i) {
                let k = choose|k: int|
                    0 <= k < before.len() && match #[trigger] before[k] {
                        PoolEvent::Settle { item: j, result } => j == i && result is Ok,
                        PoolEvent::Ask { cancelled } => false,
                    };
                assert(events[k] == before[k]);
                assert(succeeded(events, i));
            }
            if succeeded(events, i) {
                let k = choose|k: int|
                    0 <= k < events.len() && match #[trigger] events[k] {
                        PoolEvent::Settle { item: j, result } => j == i && result is Ok,
                        PoolEvent::Ask { cancelled } => false,
                    };
                if k < before.len() {
                    assert(before[k] == events[k]);
                    assert(succeeded(before, i));
                } else {
                    assert(events[k] == last);
                }
            }
            match last {
                PoolEvent::Settle { item, result } => {
                    if result is Ok && item == i {
                        assert(succeeded(events, i));
                    }
                },
                PoolEvent::Ask { cancelled } => {},
            }
        }
    }
}

/// How often workers asked for an item.
pub open spec fn times_asked<R>(events: Seq<PoolEvent<R>>) -> nat
    decreases events.len(),
{
    if events.len() == 0 {
        0
    } else {
        times_asked(events.drop_last()) + if events.last() is Ask {
            1nat
        } else {
            0nat
        }
    }
}

/// Nothing is cancelled and no item fails.
pub open spec fn undisturbed<R>(events: Seq<PoolEvent<R>>) -> bool {
    forall|k: int|
        0 <= k < events.len() ==> match #[trigger] events[k] {
            PoolEvent::Settle { item, result } => result is Ok,
            PoolEvent::Ask { cancelled } => !cancelled,
        }
}

/// Undisturbed workers get every item: each time one asks it gets the next item
/// as long as there is one, and the slots are what comes out. A failed item that
/// was reported, so that it came out with a stand-in, disturbs nothing.
pub proof fn law_undisturbed_pool_runs_everything<R>(
    items: nat,
    concurrency: nat,
    linked: CancellationToken,
    events: Seq<PoolEvent<R>>,
)
    requires
        within(events, items),
        undisturbed(events),
    ensures
        ({
            let end = pool_run(PoolView::<R>::fresh(items, concurrency, linked), events);
            &&& end.claimed == (if times_asked(events) < items {
                times_asked(events)
            } else {
                items
            })
            &&& end.slots.len() == items
            &&& end.outcome() == Ok::<Seq<Option<R>>, FlowError>(end.slots)
        }),
    decreases events.len(),
{
    if events.len() > 0 {
        let before = events.drop_last();
        assert forall|k: int| 0 <= k < before.len() implies match #[trigger] before[k] {
            PoolEvent::Settle { item, result } => result is Ok,
            PoolEvent::Ask { cancelled } => !cancelled,
        } by {
            assert(before[k] == events[k]);
        }
        assert(events[events.len() - 1] == events.last());
        lemma_within(events, items);
        law_undisturbed_pool_runs_everything(items, concurrency, linked, before);
    }
}

/// Under a signal that was cancelled from the start no item runs. One after the
/// other that is a failure; in parallel every slot stays empty.
pub proof fn law_cancelled_pool_runs_nothing<R>(
    items: nat,
    concurrency: nat,
    linked: CancellationToken,
    events: Seq<PoolEvent<R>>,
)
    requires
        items > 0,
        events.len() > 0,
        forall|k: int|
            0 <= k < events.len() ==> (#[trigger] events[k]) == (PoolEvent::<R>::Ask {
                cancelled: true,
            }),
    ensures
        ({
            let p = PoolView::<R>::fresh(items, concurrency, linked);
            &&& handed_out(p, events).len() == 0
            &&& pool_run(p, events).outcome() == (if concurrency <= 1 {
                Err(FlowError::Aborted)
            } else {
                Ok(p.slots)
            })
        }),
    decreases events.len(),
{
    let before = events.drop_last();
    let p = PoolView::<R>::fresh(items, concurrency, linked);
    assert(events[events.len() - 1] == (PoolEvent::<R>::Ask { cancelled: true }));
    if before.len() > 0 {
        assert forall|k: int| 0 <= k < before.len() implies (#[trigger] before[k]) == (PoolEvent::<
            R,
        >::Ask { cancelled: true }) by {
            assert(before[k] == events[k]);
        }
        law_cancelled_pool_runs_nothing(items, concurrency, linked, before);
        lemma_all_cancelled(p, before);
    } else {
        assert(pool_run(p, before) == p);
        assert(handed_out(p, before).len() == 0);
    }
}

proof fn lemma_all_cancelled<R>(p: PoolView<R>, events: Seq<PoolEvent<R>>)
    requires
        forall|k: int|
            0 <= k < events.len() ==> (#[trigger] events[k]) == (PoolEvent::<R>::Ask {
                cancelled: true,
            }),
    ensures
        pool_run(p, events).slots == p.slots,
        pool_run(p, events).claimed == p.claimed,
        !p.sequential ==> pool_run(p, events) == p,
    decreases events.len(),
{
    if events.len() > 0 {
        let before = events.drop_last();
        assert(events[events.len() - 1] == (PoolEvent::<R>::Ask { cancelled: true }));
        assert forall|k: int| 0 <= k < before.len() implies (#[trigger] before[k]) == (PoolEvent::<
            R,
        >::Ask { cancelled: true }) by {
            assert(before[k] == events[k]);
        }
        lemma_all_cancelled(p, before);
    }
}

/// Workers keep to their turn: each takes an item only while fewer than the
/// workers are in flight, and what comes out is in flight.
pub open spec fn orderly<R>(p: PoolView<R>, events: Seq<PoolEvent<R>>) -> bool
    decreases events.len(),
{
    if events.len() == 0 {
        true
    } else {
        let mid = pool_run(p, events.drop_last());
        orderly(p, events.drop_last()) && match events.last() {
            PoolEvent::Ask { cancelled } => mid.has_room(),
            PoolEvent::Settle { item, result } => mid.in_flight.contains(item),
        }
    }
}

/// The item came out, well or not.
pub open spec fn came_out<R>(events: Seq<PoolEvent<R>>, item: nat) -> bool {
    exists|k: int|
        0 <= k < events.len() && match #[trigger] events[k] {
            PoolEvent::Settle { item: i, result } => i == item,
            PoolEvent::Ask { cancelled } => false,
        }
}

/// At no moment are more items in flight than `concurrency` allows, nor more than
/// there are items, and at least one is allowed. What is in flight is what was
/// handed out and has not come out.
pub proof fn law_in_flight_is_bounded<R>(
    items: nat,
    concurrency: nat,
    linked: CancellationToken,
    events: Seq<PoolEvent<R>>,
)
    requires
        orderly(PoolView::<R>::fresh(items, concurrency, linked), events),
    ensures
        ({
            let end = pool_run(PoolView::<R>::fresh(items, concurrency, linked), events);
            &&& end.valid()
            &&& end.in_flight.len() <= worker_count(items, concurrency)
            &&& forall|i: nat| #[trigger]
                end.in_flight.contains(i) <==> i < end.claimed && !came_out(events, i)
        }),
    decreases events.len(),
{
    let p = PoolView::<R>::fresh(items, concurrency, linked);
    lemma_config_stays(p, events);
    if events.len() > 0 {
        let before = events.drop_last();
        let last = events.last();
        law_in_flight_is_bounded(items, concurrency, linked, before);
        lemma_config_stays(p, before);
        let mid = pool_run(p, before);
        let end = pool_run(p, events);
        assert forall|i: nat| came_out(events, i) == (came_out(before, i) || (last matches PoolEvent::Settle {
            item,
            result,
        } && item == i)) by {
            lemma_came_out(events, i);
        }
        assert forall|i: nat| #[trigger]
            end.in_flight.contains(i) <==> i < end.claimed && !came_out(events, i) by {
            assert(came_out(events, i) == (came_out(before, i) || (last matches PoolEvent::Settle {
                item,
                result,
            } && item == i)));
            if i == mid.claimed {
                lemma_nothing_out_unclaimed(p, before, i);
            }
            assert(mid.in_flight.contains(i) <==> i < mid.claimed && !came_out(before, i));
        }
    }
}

proof fn lemma_config_stays<R>(p: PoolView<R>, events: Seq<PoolEvent<R>>)
    ensures
        pool_run(p, events).sequential == p.sequential,
        pool_run(p, events).workers == p.workers,
        pool_run(p, events).linked == p.linked,
    decreases events.len(),
{
    if events.len() > 0 {
        lemma_config_stays(p, events.drop_last());
    }
}

proof fn lemma_came_out<R>(events: Seq<PoolEvent<R>>, i: nat)
    requires
        events.len() > 0,
    ensures
        came_out(events, i) == (came_out(events.drop_last(), i) || (events.last() matches PoolEvent::Settle {
            item,
            result,
        } && item == i)),
{
    let before = events.drop_last();
    assert(events[events.len() - 1] == events.last());
    if came_out(before, i) {
        let k = choose|k: int|
            0 <= k < before.len() && match #[trigger] before[k] {
                PoolEvent::Settle { item, result } => item == i,
                PoolEvent::Ask { cancelled } => false,
            };
        assert(events[k] == before[k]);
    }
    if came_out(events, i) {
        let k = choose|k: int|
            0 <= k < events.len() && match #[trigger] events[k] {
                PoolEvent::Settle { item, result } => item == i,
                PoolEvent::Ask { cancelled } => false,
            };
        if k < before.len() {
            assert(before[k] == events[k]);
        }
    }
}

/// An item that was not handed out has not come out.
proof fn lemma_nothing_out_unclaimed<R>(p: PoolView<R>, events: Seq<PoolEvent<R>>, i: nat)
    requires
        p.valid(),
        orderly(p, events),
        pool_run(p, events).claimed <= i,
    ensures
        !came_out(events, i),
        pool_run(p, events).valid(),
    decreases events.len(),
{
    if events.len() > 0 {
        lemma_nothing_out_unclaimed(p, events.drop_last(), i);
        lemma_came_out(events, i);
    }
}

/// A pool keeps the workers that it began with, one where items run one after the
/// other, and otherwise as many as `concurrency` allows and there are items for.
pub proof fn law_workers_stay<R>(
    items: nat,
    concurrency: nat,
    linked: CancellationToken,
    events: Seq<PoolEvent<R>>,
)
    ensures
        ({
            let end = pool_run(PoolView::<R>::fresh(items, concurrency, linked), events);
            &&& concurrency <= 1 || items == 0 ==> end.workers == 1
            &&& 1 < concurrency <= items ==> end.workers == concurrency
            &&& concurrency > 1 && 0 < items <= concurrency ==> end.workers == items
            &&& end.linked == linked
            &&& end.sequential <==> concurrency <= 1
        }),
{
    lemma_config_stays(PoolView::<R>::fresh(items, concurrency, linked), events);
}

/// Sequentially one item follows the other: when an item is handed out, every
/// item before it has come out.
pub proof fn law_one_after_the_other<R>(
    items: nat,
    concurrency: nat,
    linked: CancellationToken,
    events: Seq<PoolEvent<R>>,
    cancelled: bool,
    earlier: nat,
)
    requires
        concurrency <= 1,
        orderly(PoolView::<R>::fresh(items, concurrency, linked), events),
        pool_run(PoolView::<R>::fresh(items, concurrency, linked), events).has_room(),
        pool_run(PoolView::<R>::fresh(items, concurrency, linked), events).offer(
            cancelled,
        ) matches Some(item) && earlier < item,
    ensures
        came_out(events, earlier),
{
    let p = PoolView::<R>::fresh(items, concurrency, linked);
    law_in_flight_is_bounded(items, concurrency, linked, events);
    lemma_config_stays(p, events);
    let end = pool_run(p, events);
    assert(end.in_flight =~= Set::empty());
    assert(!end.in_flight.contains(earlier));
}

/// A failure among several at once stops its siblings: the token that every one
/// of them races is to be cancelled, and no other. One after the other there is
/// nothing to stop, and an item that came out well stops nothing.
pub proof fn law_failure_stops_siblings<R>(
    items: nat,
    concurrency: nat,
    linked: CancellationToken,
    events: Seq<PoolEvent<R>>,
    result: FlowResult<R>,
)
    ensures
        pool_run(PoolView::<R>::fresh(items, concurrency, linked), events).stops(result) == (
        if result is Err && concurrency > 1 {
            Some(linked)
        } else {
            None
        }),
{
    lemma_config_stays(PoolView::<R>::fresh(items, concurrency, linked), events);
}

/// Runs a mapper over items with bounded `concurrency`, preserving order, with
/// **cancellation**: each in-flight item races a linked child of the parent
/// token, and on any failure the linked token is cancelled so siblings stop.
/// `concurrency <= 1` runs sequentially; `> 1` runs in parallel.
pub struct Pool<R> {
    sequential: bool,
    workers: usize,
    cursor: usize,
    open: usize,
    in_flight: Ghost<Set<nat>>,
    slots: Vec<Option<R>>,
    failure: Option<FlowError>,
    linked: CancellationToken,
}

/// An item that a worker took.
pub struct Ticket {
    index: usize,
}

impl Ticket {
    pub closed spec fn item(self) -> nat {
        self.index as nat
    }

    /// The place of the item in the list.
    pub fn index(&self) -> (r: usize)
        ensures
            r == self.item(),
    {
        self.index
    }
}

impl<R> View for Pool<R> {
    type V = PoolView<R>;

    closed spec fn view(&self) -> PoolView<R> {
        PoolView {
            sequential: self.sequential,
            workers: self.workers as nat,
            claimed: self.cursor as nat,
            in_flight: self.in_flight@,
            slots: self.slots@,
            failure: self.failure,
            linked: self.linked,
        }
    }
}

/// Begins to run `items` items with bounded `concurrency`, under a child of the
/// parent token.
pub fn run_parallel<R>(
    items: usize,
    concurrency: usize,
    parent: Option<&CancellationToken>,
) -> (r: Pool<R>)
    ensures
        r.wf(),
        r@ == PoolView::<R>::fresh(items as nat, concurrency as nat, r@.linked),
        linked_to(r@.linked, parent),
{
    let linked = link_signal(parent);
    let mut slots: Vec<Option<R>> = Vec::new();
    for i in 0..items
        invariant
            slots@ == Seq::new(i as nat, |j: int| None::<R>),
    {
        slots.push(None);
        assert(slots@ =~= Seq::new((i + 1) as nat, |j: int| None::<R>));
    }
    let workers = if concurrency <= 1 || items == 0 {
        1
    } else if concurrency < items {
        concurrency
    } else {
        items
    };
    Pool {
        sequential: concurrency <= 1,
        workers,
        cursor: 0,
        open: 0,
        in_flight: Ghost(Set::empty()),
        slots,
        failure: None,
        linked,
    }
}

impl<R> Pool<R> {
    /// The items in flight are counted.
    pub closed spec fn counted(self) -> bool {
        self.open == self.in_flight@.len()
    }

    pub open spec fn wf(self) -> bool {
        self@.valid() && self.counted()
    }

    /// How many workers take items at a time.
    pub fn workers(&self) -> (r: usize)
        ensures
            r == self@.workers,
    {
        self.workers
    }

    /// A worker is free to take an item.
    pub fn has_room(&self) -> (r: bool)
        requires
            self.wf(),
        ensures
            r == self@.has_room(),
    {
        self.open < self.workers
    }

    /// The token that the items race.
    pub fn signal(&self) -> (r: CancellationToken)
        ensures
            r == self@.linked,
    {
        self.linked.clone()
    }

    /// The next item for a worker, by what the linked token answers; `None`: the
    /// worker stops.
    pub fn claim(&mut self) -> (r: Option<Ticket>)
        requires
            old(self).wf(),
            old(self)@.has_room(),
        ensures
            final(self).wf(),
            exists|cancelled: bool|
                {
                    &&& #[trigger] answers(old(self)@.linked, cancelled)
                    &&& final(self)@ == old(self)@.asked(cancelled)
                    &&& old(self)@.offer(cancelled) == match r {
                        Some(t) => Some(t.item()),
                        None => None,
                    }
                },
            r matches Some(t) ==> final(self).is_open(t),
    {
        let cancelled = ask(CancellationToken::is_cancelled, &self.linked);
        assert(answers(self.linked, cancelled));
        self.claim_unless(cancelled)
    }

    /// The next item for a worker, where the state of the token is known.
    pub fn claim_unless(&mut self, cancelled: bool) -> (r: Option<Ticket>)
        requires
            old(self).wf(),
            old(self)@.has_room(),
        ensures
            final(self).wf(),
            final(self)@ == old(self)@.asked(cancelled),
            old(self)@.offer(cancelled) == match r {
                Some(t) => Some(t.item()),
                None => None,
            },
            r matches Some(t) ==> final(self).is_open(t),
    {
        if self.failure.is_some() || self.cursor >= self.slots.len() {
            return None;
        }
        if cancelled {
            if self.sequential {
                self.failure = Some(FlowError::Aborted);
            }
            return None;
        }
        let index = self.cursor;
        assert(!self@.in_flight.contains(index as nat));
        self.cursor = index + 1;
        self.open = self.open + 1;
        self.in_flight = Ghost(self.in_flight@.insert(index as nat));
        Some(Ticket { index })
    }

    /// The ticket is one that this pool can take back.
    pub open spec fn is_open(self, t: Ticket) -> bool {
        self@.in_flight.contains(t.item())
    }

    /// An item came out. What it gives is a token to cancel: on a failure in
    /// parallel mode the linked one, so that in-flight siblings stop.
    #[must_use]
    pub fn settle(&mut self, ticket: Ticket, result: FlowResult<R>) -> (stop: Option<
        CancellationToken,
    >)
        requires
            old(self).wf(),
            old(self).is_open(ticket),
        ensures
            final(self).wf(),
            final(self)@ == old(self)@.settled(ticket.item(), result),
            final(self)@.has_room(),
            stop == old(self)@.stops(result),
    {
        assert(self@.in_flight.contains(ticket.item()));
        self.open = self.open - 1;
        self.in_flight = Ghost(self.in_flight@.remove(ticket.index as nat));
        match result {
            Ok(v) => {
                self.slots[ticket.index] = Some(v);
                None
            },
            Err(e) => {
                if self.failure.is_none() {
                    self.failure = Some(e);
                }
                if self.sequential {
                    None
                } else {
                    Some(self.linked.clone())
                }
            },
        }
    }

    /// What all items came to, once the workers have stopped.
    pub fn finish(self) -> (r: FlowResult<Vec<Option<R>>>)
        ensures
            self@.outcome() == match r {
                Ok(slots) => Ok(slots@),
                Err(e) => Err(e),
            },
    {
        match self.failure {
            Some(e) => Err(e),
            None => Ok(self.slots),
        }
    }
}

/* ------------------- failed items, branches and bundles ------------------- */

/// What becomes of an item, branch or bundle that comes to `R`.
pub enum Unit<R, T> {
    /// It settles with this result.
    Settle(FlowResult<R>),
    /// It failed and the rest go on: fire `on_error`, and hand what came of it to
    /// the report.
    Report(T),
}

/// A failure that is reported while the rest go on: not a cancellation, and not
/// under `fail_fast`.
pub open spec fn is_reported(error: FlowError, fail_fast: bool) -> bool {
    !(error is Aborted) && !fail_fast
}

/// The failure policy of batch nodes, forks and batch flows: a cancellation
/// always propagates, any failure does under `fail_fast`, and otherwise it is
/// reported.
pub fn settle_unit<R>(result: FlowResult<R>, fail_fast: bool) -> (r: Unit<R, FlowError>)
    ensures
        r == match result {
            Ok(v) => Unit::Settle(Ok(v)),
            Err(e) => if is_reported(e, fail_fast) {
                Unit::Report(e)
            } else {
                Unit::Settle(Err(e))
            },
        },
        r is Report <==> result is Err && !(result->Err_0 is Aborted) && !fail_fast,
{
    match result {
        Ok(v) => Unit::Settle(Ok(v)),
        Err(e) => {
            if e.is_aborted() || fail_fast {
                Unit::Settle(Err(e))
            } else {
                Unit::Report(e)
            }
        },
    }
}

} // verus!
