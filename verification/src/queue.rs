//! The bounded queues between the game and the media workers.
//!
//! The queues hold no lock of their own. A taker that finds `must_wait` true waits for a push or
//! for the queue to close before it pops.
use std::collections::VecDeque;

use vstd::prelude::*;

use crate::error::ErrorKind;

verus! {

/// The queue was closed and takes nothing more.
#[derive(Debug, Clone, Copy, PartialEq, Eq, Structural)]
pub struct QueueClosed;

/// Which queue an error text speaks of.
#[derive(Debug, Clone, Copy, PartialEq, Eq, Structural)]
pub enum QueueKind {
    Latest,
    Bounded,
}

impl QueueClosed {
    /// The kind of the error.
    pub fn kind(&self) -> (kind: ErrorKind)
        ensures
            kind == ErrorKind::BrokenPipe,
    {
        ErrorKind::BrokenPipe
    }

    /// The text of the error.
    pub fn message(&self, kind: QueueKind) -> (text: &'static str)
        ensures
            text@ == match kind {
                QueueKind::Latest => "latest-frame queue is closed"@,
                QueueKind::Bounded => "bounded media queue is closed"@,
            },
    {
        match kind {
            QueueKind::Latest => "latest-frame queue is closed",
            QueueKind::Bounded => "bounded media queue is closed",
        }
    }
}

/// A queue of one place, where a new item replaces the one that was not taken in time.
pub struct LatestQueue<T> {
    pub item: Option<T>,
    pub closed: bool,
}

impl<T> LatestQueue<T> {
    /// The queue after `item` arrived: nothing arrives once it is closed.
    pub open spec fn spec_push(self, item: T) -> LatestQueue<T> {
        if self.closed {
            self
        } else {
            LatestQueue { item: Some(item), closed: false }
        }
    }

    /// The queue after its item was taken.
    pub open spec fn spec_pop(self) -> LatestQueue<T> {
        LatestQueue { item: None, closed: self.closed }
    }

    /// The queue after it was closed.
    pub open spec fn spec_close(self) -> LatestQueue<T> {
        LatestQueue { item: self.item, closed: true }
    }

    /// An open queue without an item.
    pub fn new() -> (queue: LatestQueue<T>)
        ensures
            queue == (LatestQueue { item: None::<T>, closed: false }),
    {
        LatestQueue { item: None, closed: false }
    }

    /// Puts `item` in, in place of the one that is there.
    pub fn push(&mut self, item: T) -> (result: Result<(), QueueClosed>)
        ensures
            *final(self) == old(self).spec_push(item),
            result == (if old(self).closed {
                Err(QueueClosed)
            } else {
                Ok::<(), QueueClosed>(())
            }),
    {
        if self.closed {
            return Err(QueueClosed);
        }
        self.item = Some(item);
        Ok(())
    }

    /// Whether a taker has to wait: there is no item, and one can still come.
    pub fn must_wait(&self) -> (wait: bool)
        ensures
            wait == (self.item is None && !self.closed),
    {
        self.item.is_none() && !self.closed
    }

    /// Takes the item, if there is one.
    pub fn pop(&mut self) -> (item: Option<T>)
        ensures
            item == old(self).item,
            *final(self) == old(self).spec_pop(),
    {
        self.item.take()
    }

    /// Closes the queue. The item that it holds can still be taken.
    pub fn close(&mut self)
        ensures
            *final(self) == old(self).spec_close(),
    {
        self.closed = true;
    }
}

/// The queue after `items` arrived in order.
pub open spec fn latest_after<T>(queue: LatestQueue<T>, items: Seq<T>) -> LatestQueue<T>
    decreases items.len(),
{
    if items.len() == 0 {
        queue
    } else {
        latest_after(queue, items.drop_last()).spec_push(items.last())
    }
}

/// However many frames arrive between two takes, the taker gets the newest one.
pub proof fn law_newest_frame_wins<T>(queue: LatestQueue<T>, items: Seq<T>)
    requires
        !queue.closed,
        items.len() > 0,
    ensures
        latest_after(queue, items) == (LatestQueue { item: Some(items.last()), closed: false }),
    decreases items.len(),
{
    if items.len() > 1 {
        law_newest_frame_wins(queue, items.drop_last());
    } else {
        assert(items.drop_last() == Seq::<T>::empty());
        assert(latest_after(queue, items.drop_last()) == queue);
    }
}

/// A closed queue hands out what it held when it closed, once, and keeps no taker waiting.
pub proof fn law_closed_latest_queue_drains<T>(queue: LatestQueue<T>, late: T)
    ensures
        queue.spec_close().spec_push(late) == queue.spec_close(),
        queue.spec_close().item == queue.item,
        queue.spec_close().spec_pop().item is None,
        queue.spec_close().spec_pop().closed,
{
}

/// A queue of bounded length, where a new item displaces the oldest one when it is full.
pub struct BoundedQueue<T> {
    capacity: usize,
    items: VecDeque<T>,
    closed: bool,
}

/// Whether `after` is the queue `before`, which has been closed if `closes` holds.
pub open spec fn closed_if<T>(before: BoundedQueue<T>, after: BoundedQueue<T>, closes: bool) -> bool {
    &&& after@ == before@
    &&& after.spec_capacity() == before.spec_capacity()
    &&& after.spec_closed() == (before.spec_closed() || closes)
}

/// The contents after `item` arrived in a queue of the given capacity.
pub open spec fn bounded_push<T>(items: Seq<T>, capacity: int, item: T) -> Seq<T> {
    if items.len() >= capacity {
        items.drop_first().push(item)
    } else {
        items.push(item)
    }
}

/// The contents after `arrivals` came in order.
pub open spec fn bounded_after<T>(items: Seq<T>, capacity: int, arrivals: Seq<T>) -> Seq<T>
    decreases arrivals.len(),
{
    if arrivals.len() == 0 {
        items
    } else {
        bounded_push(
            bounded_after(items, capacity, arrivals.drop_last()),
            capacity,
            arrivals.last(),
        )
    }
}

impl<T> View for BoundedQueue<T> {
    type V = Seq<T>;

    closed spec fn view(&self) -> Seq<T> {
        self.items@
    }
}

impl<T> BoundedQueue<T> {
    /// How many items the queue holds at most.
    pub closed spec fn spec_capacity(&self) -> int {
        self.capacity as int
    }

    /// Whether the queue was closed.
    pub closed spec fn spec_closed(&self) -> bool {
        self.closed
    }

    /// Whether the queue keeps to a capacity of at least one.
    pub open spec fn wf(&self) -> bool {
        0 < self.spec_capacity() && self@.len() <= self.spec_capacity()
    }

    /// An open queue without items.
    pub fn new(capacity: usize) -> (queue: BoundedQueue<T>)
        requires
            capacity > 0,
        ensures
            queue.wf(),
            queue@ == Seq::<T>::empty(),
            queue.spec_capacity() == capacity,
            !queue.spec_closed(),
    {
        BoundedQueue { capacity, items: VecDeque::with_capacity(capacity), closed: false }
    }

    /// Puts `item` in, in place of the oldest one where the queue is full.
    pub fn push(&mut self, item: T) -> (result: Result<(), QueueClosed>)
        requires
            old(self).wf(),
        ensures
            final(self).wf(),
            final(self).spec_capacity() == old(self).spec_capacity(),
            final(self).spec_closed() == old(self).spec_closed(),
            match result {
                Ok(()) => !old(self).spec_closed() && final(self)@ == bounded_push(
                    old(self)@,
                    old(self).spec_capacity(),
                    item,
                ),
                Err(QueueClosed) => old(self).spec_closed() && final(self)@ == old(self)@,
            },
    {
        if self.closed {
            return Err(QueueClosed);
        }
        if self.items.len() == self.capacity {
            let _ = self.items.pop_front();
        }
        self.items.push_back(item);
        Ok(())
    }

    /// Whether a taker has to wait: there is no item, and one can still come.
    pub fn must_wait(&self) -> (wait: bool)
        ensures
            wait == (self@.len() == 0 && !self.spec_closed()),
    {
        self.items.len() == 0 && !self.closed
    }

    /// Takes the oldest item, if there is one.
    pub fn pop(&mut self) -> (item: Option<T>)
        requires
            old(self).wf(),
        ensures
            final(self).wf(),
            final(self).spec_capacity() == old(self).spec_capacity(),
            final(self).spec_closed() == old(self).spec_closed(),
            match item {
                Some(item) => old(self)@.len() > 0 && item == old(self)@[0] && final(self)@
                    == old(self)@.drop_first(),
                None => old(self)@.len() == 0 && final(self)@ == old(self)@,
            },
    {
        self.items.pop_front()
    }

    /// Closes the queue. The items that it holds can still be taken.
    pub fn close(&mut self)
        ensures
            final(self).spec_closed(),
            final(self)@ == old(self)@,
            final(self).spec_capacity() == old(self).spec_capacity(),
    {
        self.closed = true;
    }
}

/// Items that arrive faster than they are taken displace the oldest ones: of all that arrived,
/// the queue holds the last ones, as many as fit, in the order in which they came.
pub proof fn law_bounded_queue_keeps_the_newest<T>(
    items: Seq<T>,
    capacity: int,
    arrivals: Seq<T>,
)
    requires
        0 < capacity,
        items.len() <= capacity,
    ensures
        ({
            let all = items + arrivals;
            let excess = if all.len() > capacity {
                all.len() - capacity
            } else {
                0
            };
            bounded_after(items, capacity, arrivals) == all.skip(excess)
        }),
    decreases arrivals.len(),
{
    let all = items + arrivals;
    if arrivals.len() == 0 {
        assert(all.skip(0) == items);
    } else {
        law_bounded_queue_keeps_the_newest(items, capacity, arrivals.drop_last());
        let before = items + arrivals.drop_last();
        assert(all == before.push(arrivals.last()));
        if before.len() >= capacity {
            let held = before.skip(before.len() - capacity);
            assert(held.drop_first().push(arrivals.last()) == all.skip(all.len() - capacity));
        } else {
            assert(before.skip(0) == before);
            assert(all.skip(0) == all);
        }
    }
}

/// A frame is handed out once: the one that was put in last while the queue was open, and after
/// it was taken there is none until the next one comes. Closing a queue keeps its frame.
pub proof fn law_frame_is_taken_once<T>(queue: LatestQueue<T>, item: T)
    ensures
        !queue.closed ==> queue.spec_push(item).item == Some(item),
        !queue.closed ==> !queue.spec_push(item).closed,
        queue.closed ==> queue.spec_push(item) == queue,
        queue.spec_pop().item is None,
        queue.spec_pop().closed == queue.closed,
        queue.spec_close().item == queue.item,
        queue.spec_close().closed,
{
}

/// A new item is always the newest one in the queue. While there is room all others stay, and
/// after that the oldest one makes room, and no other.
pub proof fn law_only_the_oldest_item_makes_room<T>(items: Seq<T>, capacity: int, item: T)
    requires
        0 < capacity,
        items.len() <= capacity,
    ensures
        ({
            let pushed = bounded_push(items, capacity, item);
            &&& pushed.last() == item
            &&& items.len() < capacity ==> pushed.drop_last() == items
            &&& items.len() == capacity ==> pushed.drop_last() == items.drop_first()
        }),
{
    assert(items.push(item).drop_last() == items);
    assert(items.len() == capacity ==> items.drop_first().push(item).drop_last()
        == items.drop_first());
}

/// A queue is closed by whoever asks for it, and by nothing else, and closing it keeps its items.
pub proof fn law_closing_keeps_the_items<T>(
    before: BoundedQueue<T>,
    after: BoundedQueue<T>,
    closes: bool,
)
    requires
        closed_if(before, after, closes),
    ensures
        after@ == before@,
        after.spec_capacity() == before.spec_capacity(),
        closes ==> after.spec_closed(),
        !closes ==> after.spec_closed() == before.spec_closed(),
        before.spec_closed() ==> after.spec_closed(),
{
}

} // verus!
