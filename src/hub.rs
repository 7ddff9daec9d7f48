//! A bounded fan-out hub: one publisher writes into a ring of fixed
//! capacity, and each subscriber reads through a cursor of its own. A
//! subscriber that falls more than a ring behind is told how many records it
//! missed and resumes from the oldest one still held.
use vstd::prelude::*;

verus! {

/// Capacity of the hub that carries telemetry records.
pub const HUB_CAPACITY: usize = 100;

pub struct Hub<T> {
    slots: Vec<T>,
    capacity: usize,
    published: u64,
    history: Ghost<Seq<T>>,
}

/// A read cursor into a `Hub`: the position of the next record to read.
pub struct Subscriber {
    next: u64,
}

/// The outcome of one read from a `Hub`.
#[derive(Debug, PartialEq, Eq)]
pub enum Received<T> {
    /// The next record.
    Item(T),
    /// The cursor fell behind; this many records were overwritten unread, and
    /// the cursor now stands at the oldest record still held.
    Lagged(u64),
    /// Nothing new has been published.
    Empty,
}

/// Position of the oldest record still held after `published` records went
/// into a ring of `capacity` slots.
pub open spec fn oldest_held(published: nat, capacity: nat) -> nat {
    if published > capacity {
        (published - capacity) as nat
    } else {
        0
    }
}

proof fn lemma_mod_distinct(i: int, j: int, c: int)
    requires
        0 < c,
        0 <= i,
        j - c < i < j,
    ensures
        i % c != j % c,
{
    vstd::arithmetic::div_mod::lemma_sub_mod_noop(j, i, c);
    vstd::arithmetic::div_mod::lemma_small_mod((j - i) as nat, c as nat);
    if i % c == j % c {
        assert((j % c) - (i % c) == 0);
        assert(0int % c == 0) by {
            vstd::arithmetic::div_mod::lemma_small_mod(0, c as nat);
        }
    }
}

/// A position in `[0, published)` maps to a slot that a ring holding
/// `min(published, capacity)` slots has.
proof fn lemma_slot_index(i: int, p: int, c: int)
    requires
        0 < c,
        0 <= i < p,
    ensures
        0 <= i % c < (if p < c { p } else { c }),
        p < c ==> i % c == i,
{
    vstd::arithmetic::div_mod::lemma_mod_pos_bound(i, c);
    if p < c {
        vstd::arithmetic::div_mod::lemma_small_mod(i as nat, c as nat);
    }
}

impl<T: Copy> Hub<T> {
    /// Every record ever published, oldest first.
    pub closed spec fn history(&self) -> Seq<T> {
        self.history@
    }

    pub closed spec fn capacity(&self) -> nat {
        self.capacity as nat
    }

    /// Position of the oldest record the ring still holds.
    pub open spec fn oldest(&self) -> nat {
        oldest_held(self.history().len(), self.capacity())
    }

    pub closed spec fn wf(&self) -> bool {
        &&& 0 < self.capacity
        &&& self.history@.len() == self.published
        &&& self.slots@.len() == if self.published < self.capacity {
            self.published as int
        } else {
            self.capacity as int
        }
        &&& forall|i: int|
            #![trigger self.history@[i]]
            oldest_held(self.published as nat, self.capacity as nat) <= i < self.published
                ==> self.slots@[i % (self.capacity as int)] == self.history@[i]
    }

    /// An empty hub whose ring holds `capacity` records.
    pub fn new(capacity: usize) -> (r: Hub<T>)
        requires
            0 < capacity,
        ensures
            r.wf(),
            r.history() == Seq::<T>::empty(),
            r.capacity() == capacity,
    {
        Hub { slots: Vec::new(), capacity, published: 0, history: Ghost(Seq::empty()) }
    }

    pub fn capacity_of(&self) -> (r: usize)
        requires
            self.wf(),
        ensures
            r == self.capacity(),
    {
        self.capacity
    }

    /// Number of records published so far.
    pub fn published(&self) -> (r: u64)
        requires
            self.wf(),
        ensures
            r == self.history().len(),
    {
        self.published
    }

    /// Writes `v` into the ring, overwriting the oldest record when it is
    /// full. Never waits for subscribers, and keeps the record when there are
    /// none.
    pub fn publish(&mut self, v: T)
        requires
            old(self).wf(),
            old(self).history().len() < u64::MAX,
        ensures
            final(self).wf(),
            final(self).history() == old(self).history().push(v),
            final(self).capacity() == old(self).capacity(),
    {
        let ghost old_hist = self.history@;
        let ghost old_slots = self.slots@;
        let ghost p = self.published as int;
        let ghost c = self.capacity as int;
        if self.slots.len() < self.capacity {
            self.slots.push(v);
        } else {
            proof {
                lemma_slot_index(p, p + 1, c);
            }
            let idx = (self.published % (self.capacity as u64)) as usize;
            self.slots.set(idx, v);
        }
        self.published = self.published + 1;
        self.history = Ghost(old_hist.push(v));
        assert forall|i: int|
            #![trigger self.history@[i]]
            oldest_held(self.published as nat, self.capacity as nat) <= i < self.published
                implies self.slots@[i % c] == self.history@[i] by {
            lemma_slot_index(i, p + 1, c);
            if i < p {
                assert(i % c != p % c) by {
                    lemma_mod_distinct(i, p, c);
                }
                lemma_slot_index(i, p, c);
                assert(old_hist[i] == self.history@[i]);
                assert(old_slots[i % c] == old_hist[i]);
                assert(self.slots@[i % c] == old_slots[i % c]);
            } else {
                if p < c {
                    vstd::arithmetic::div_mod::lemma_small_mod(p as nat, c as nat);
                }
            }
        }
    }

    /// A cursor that starts after the records already published.
    pub fn subscribe(&self) -> (r: Subscriber)
        requires
            self.wf(),
        ensures
            r.position() == self.history().len(),
    {
        Subscriber { next: self.published }
    }

    /// Reads the record at `sub`'s position and advances it. A cursor that
    /// stands before the oldest record held is moved there and told how many
    /// records it missed; one at or past the end reads nothing.
    pub fn try_recv(&self, sub: &mut Subscriber) -> (r: Received<T>)
        requires
            self.wf(),
        ensures
            old(sub).position() >= self.history().len() ==> r == Received::<T>::Empty
                && final(sub).position() == old(sub).position(),
            old(sub).position() < self.oldest() ==> r == Received::<T>::Lagged(
                (self.oldest() - old(sub).position()) as u64,
            ) && final(sub).position() == self.oldest(),
            self.oldest() <= old(sub).position() < self.history().len() ==> r
                == Received::Item(self.history()[old(sub).position() as int])
                && final(sub).position() == old(sub).position() + 1,
    {
        if sub.next >= self.published {
            return Received::Empty;
        }
        let oldest: u64 = if self.published > self.capacity as u64 {
            self.published - self.capacity as u64
        } else {
            0
        };
        if sub.next < oldest {
            let missed = oldest - sub.next;
            sub.next = oldest;
            return Received::Lagged(missed);
        }
        proof {
            lemma_slot_index(sub.next as int, self.published as int, self.capacity as int);
        }
        let idx = (sub.next % (self.capacity as u64)) as usize;
        let v = self.slots[idx];
        assert(self.history@[sub.next as int] == self.slots@[sub.next as int % (self.capacity as int)]);
        sub.next = sub.next + 1;
        Received::Item(v)
    }
}

impl Subscriber {
    pub closed spec fn position(&self) -> nat {
        self.next as nat
    }
}

} // verus!
