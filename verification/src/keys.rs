//! The ring of key events between the terminal and the game.
use vstd::prelude::*;

verus! {

/// The number of slots of the ring. One of them is always free.
pub const KEY_QUEUE_LEN: usize = 32;

/// A ring of key events. When it is full, a new event displaces the oldest one.
pub struct KeyQueue {
    pub slots: [u16; KEY_QUEUE_LEN],
    pub write_idx: usize,
    pub read_idx: usize,
}

/// The key event of a slot: the key in the low byte, the press flag above it.
pub open spec fn unpacked(slot: u16) -> (bool, u8) {
    (slot / 256 == 1, (slot % 256) as u8)
}

/// The pending events after one more arrived: the ring is a bounded queue that keeps one slot
/// free.
pub open spec fn key_push(events: Seq<(bool, u8)>, event: (bool, u8)) -> Seq<(bool, u8)> {
    crate::queue::bounded_push(events, KEY_QUEUE_LEN - 1, event)
}

/// The slot at the given distance from the reading end.
pub open spec fn slot_index(read_idx: int, distance: int) -> int {
    if read_idx + distance < KEY_QUEUE_LEN {
        read_idx + distance
    } else {
        read_idx + distance - KEY_QUEUE_LEN
    }
}

/// How many slots lie between the two ends.
pub open spec fn ring_length(read_idx: int, write_idx: int) -> int {
    if read_idx <= write_idx {
        write_idx - read_idx
    } else {
        write_idx + KEY_QUEUE_LEN - read_idx
    }
}

impl View for KeyQueue {
    type V = Seq<(bool, u8)>;

    /// The pending events, oldest first.
    open spec fn view(&self) -> Seq<(bool, u8)> {
        Seq::new(
            ring_length(self.read_idx as int, self.write_idx as int) as nat,
            |i: int| unpacked(self.slots@[slot_index(self.read_idx as int, i)]),
        )
    }
}

impl KeyQueue {
    /// Whether both ends lie in the ring and every pending slot holds a packed event.
    pub open spec fn wf(&self) -> bool {
        &&& self.write_idx < KEY_QUEUE_LEN
        &&& self.read_idx < KEY_QUEUE_LEN
        &&& forall|i: int|
            0 <= i < KEY_QUEUE_LEN ==> #[trigger] self.slots@[i] < 0x200
    }

    /// A ring without events.
    pub fn new() -> (queue: KeyQueue)
        ensures
            queue.wf(),
            queue@ == Seq::<(bool, u8)>::empty(),
    {
        KeyQueue { slots: [0;KEY_QUEUE_LEN], write_idx: 0, read_idx: 0 }
    }

    /// Adds an event, in place of the oldest one where the ring is full.
    pub fn enqueue_key(&mut self, pressed: bool, doom_key: u8)
        requires
            old(self).wf(),
        ensures
            final(self).wf(),
            final(self)@ == key_push(old(self)@, (pressed, doom_key)),
            final(self).read_idx != final(self).write_idx,
    {
        let next: usize = (self.write_idx + 1) % KEY_QUEUE_LEN;
        if next == self.read_idx {
            self.read_idx = (self.read_idx + 1) % KEY_QUEUE_LEN;
        }
        let slot: u16 = if pressed {
            0x100 + doom_key as u16
        } else {
            doom_key as u16
        };
        let write_idx: usize = self.write_idx;
        self.slots[write_idx] = slot;
        self.write_idx = next;
        assert(self@ == key_push(old(self)@, (pressed, doom_key)));
    }

    /// Takes the oldest event: one for a press or zero for a release, and the key.
    pub fn pop_key(&mut self) -> (event: Option<(i32, u8)>)
        requires
            old(self).wf(),
        ensures
            final(self).wf(),
            match event {
                Some((pressed, key)) => {
                    &&& old(self)@.len() > 0
                    &&& pressed == (if old(self)@[0].0 {
                        1int
                    } else {
                        0int
                    })
                    &&& key == old(self)@[0].1
                    &&& final(self)@ == old(self)@.drop_first()
                },
                None => old(self)@.len() == 0 && *final(self) == *old(self),
            },
    {
        if self.read_idx == self.write_idx {
            return None;
        }
        let slot: u16 = self.slots[self.read_idx];
        self.read_idx = (self.read_idx + 1) % KEY_QUEUE_LEN;
        assert(self@ == old(self)@.drop_first());
        Some(((slot / 256) as i32, (slot % 256) as u8))
    }
}

/// Of the key events that arrived while the game took none, the ring holds the last ones, as many
/// as fit, in the order in which they came.
pub proof fn law_key_ring_keeps_the_newest(
    events: Seq<(bool, u8)>,
    arrivals: Seq<(bool, u8)>,
)
    requires
        events.len() < KEY_QUEUE_LEN,
    ensures
        ({
            let all = events + arrivals;
            let excess = if all.len() > KEY_QUEUE_LEN - 1 {
                all.len() - (KEY_QUEUE_LEN - 1)
            } else {
                0
            };
            crate::queue::bounded_after(events, KEY_QUEUE_LEN - 1, arrivals) == all.skip(excess)
        }),
{
    crate::queue::law_bounded_queue_keeps_the_newest(events, KEY_QUEUE_LEN - 1, arrivals);
}

/// A pushed event is never lost to the ring appearing empty: after a push there is one to take.
pub proof fn law_full_ring_is_not_empty(events: Seq<(bool, u8)>, event: (bool, u8))
    requires
        events.len() < KEY_QUEUE_LEN,
    ensures
        0 < key_push(events, event).len() < KEY_QUEUE_LEN,
        key_push(events, event).last() == event,
{
}

/// A new event is always the newest one in the ring. The ring of 32 slots holds 31 events: while
/// there is room all others stay, and after that the oldest one makes room, and no other.
pub proof fn law_only_the_oldest_event_makes_room(events: Seq<(bool, u8)>, event: (bool, u8))
    requires
        events.len() <= 31,
    ensures
        ({
            let pushed = key_push(events, event);
            &&& pushed.last() == event
            &&& events.len() < 31 ==> pushed.drop_last() == events
            &&& events.len() == 31 ==> pushed.drop_last() == events.drop_first()
        }),
{
    assert(events.push(event).drop_last() == events);
    assert(events.len() == 31 ==> events.drop_first().push(event).drop_last()
        == events.drop_first());
}

} // verus!
