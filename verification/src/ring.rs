//! Storage-independent bounded ring indices.

use core::ops::Range;
use vstd::prelude::*;

verus! {

/// The smaller of two numbers.
pub open spec fn min(a: int, b: int) -> int {
    if a <= b {
        a
    } else {
        b
    }
}

/// The smaller of two sizes.
pub fn min_size(a: usize, b: usize) -> (m: usize)
    ensures
        m == min(a as int, b as int),
{
    if a <= b {
        a
    } else {
        b
    }
}

/// Positions of a queue in storage of `capacity` slots: `len` slots are
/// occupied, starting at `head` and wrapping around at the end.
pub struct Ring {
    capacity: usize,
    head: usize,
    len: usize,
}

impl Ring {
    /// Number of slots.
    pub closed spec fn capacity(self) -> int {
        self.capacity as int
    }

    /// Slot of the oldest element.
    pub closed spec fn head(self) -> int {
        self.head as int
    }

    /// Number of occupied slots.
    pub closed spec fn len(self) -> int {
        self.len as int
    }

    /// The head is a slot, and no more slots are occupied than there are.
    pub open spec fn wf(self) -> bool {
        &&& 0 <= self.head() < self.capacity() <= usize::MAX
        &&& 0 <= self.len() <= self.capacity()
    }

    /// Slot of the `i`-th oldest element.
    pub open spec fn slot(self, i: int) -> int {
        if i < self.capacity() - self.head() {
            self.head() + i
        } else {
            i - (self.capacity() - self.head())
        }
    }

    /// Number of elements that can be read without wrapping around.
    pub open spec fn readable_len(self) -> int {
        min(self.len(), self.capacity() - self.head())
    }

    /// Number of elements that can be written without wrapping around.
    pub open spec fn writable_len(self) -> int {
        min(self.capacity() - self.len(), self.capacity() - self.slot(self.len()))
    }

    /// An empty ring.
    pub fn new(capacity: usize) -> (ring: Self)
        requires
            capacity > 0,
        ensures
            ring.wf(),
            ring.capacity() == capacity,
            ring.head() == 0,
            ring.len() == 0,
    {
        Ring { capacity, head: 0, len: 0 }
    }

    /// Nothing is occupied.
    pub fn is_empty(&self) -> (empty: bool)
        ensures
            empty == (self.len() == 0),
    {
        self.len == 0
    }

    /// Every slot is occupied.
    pub fn is_full(&self) -> (full: bool)
        ensures
            full == (self.len() == self.capacity()),
    {
        self.len == self.capacity
    }

    /// The slots of the oldest elements, at most `limit` and up to the end of
    /// the storage.
    pub fn readable(&self, limit: usize) -> (range: Range<usize>)
        requires
            self.wf(),
        ensures
            range.start == self.head(),
            range.end - range.start == min(self.readable_len(), limit as int),
            range.end <= self.capacity(),
    {
        let count = min_size(min_size(self.len, self.capacity - self.head), limit);
        self.head..self.head + count
    }

    /// The free slots after the newest element, at most `limit` and up to the
    /// end of the free stretch or of the storage.
    pub fn writable(&self, limit: usize) -> (range: Range<usize>)
        requires
            self.wf(),
        ensures
            range.start == self.slot(self.len()),
            range.end - range.start == min(self.writable_len(), limit as int),
            range.end <= self.capacity(),
    {
        // Avoid overflowing head + len even if used with very large storage.
        let tail = if self.len >= self.capacity - self.head {
            self.len - (self.capacity - self.head)
        } else {
            self.head + self.len
        };
        let count = min_size(min_size(self.capacity - self.len, self.capacity - tail), limit);
        tail..tail + count
    }

    /// Takes the first `count` writable slots into use.
    pub fn produce(&mut self, count: usize)
        requires
            old(self).wf(),
            count <= old(self).writable_len(),
        ensures
            final(self).wf(),
            final(self).capacity() == old(self).capacity(),
            final(self).head() == old(self).head(),
            final(self).len() == old(self).len() + count,
    {
        self.len = self.len + count;
    }

    /// Frees the first `count` readable slots.
    pub fn consume(&mut self, count: usize)
        requires
            old(self).wf(),
            count <= old(self).readable_len(),
        ensures
            final(self).wf(),
            final(self).capacity() == old(self).capacity(),
            final(self).head() == old(self).slot(count as int),
            final(self).len() == old(self).len() - count,
    {
        let sum = self.head + count;
        proof {
            if sum == self.capacity {
                assert(sum as int % self.capacity as int == 0) by (nonlinear_arith)
                    requires
                        sum == self.capacity,
                        sum > 0,
                ;
            } else {
                vstd::arithmetic::div_mod::lemma_small_mod(sum as nat, self.capacity as nat);
            }
        }
        self.head = sum % self.capacity;
        self.len = self.len - count;
    }
}

// ---------------------------------------------------------------------------
// Laws
// ---------------------------------------------------------------------------

/// Different elements are in different slots, and every slot is in the storage.
pub proof fn law_slots_are_distinct(ring: Ring, i: int, j: int)
    requires
        ring.wf(),
        0 <= i < j < ring.capacity(),
    ensures
        ring.slot(i) != ring.slot(j),
        0 <= ring.slot(i) < ring.capacity(),
        0 <= ring.slot(j) < ring.capacity(),
{
}

/// The slot of an element is its position counted on from the head, around the
/// storage.
pub proof fn law_slot_wraps(ring: Ring, i: int)
    requires
        ring.wf(),
        0 <= i < ring.capacity(),
    ensures
        ring.slot(i) == (ring.head() + i) % ring.capacity(),
{
    let sum = ring.head() + i;
    if sum < ring.capacity() {
        vstd::arithmetic::div_mod::lemma_small_mod(sum as nat, ring.capacity() as nat);
    } else {
        vstd::arithmetic::div_mod::lemma_small_mod(
            (sum - ring.capacity()) as nat,
            ring.capacity() as nat,
        );
        vstd::arithmetic::div_mod::lemma_mod_add_multiples_vanish(
            sum - ring.capacity(),
            ring.capacity(),
        );
    }
}

/// Something can be read from a ring that is not empty, and something can be
/// written to a ring that is not full.
pub proof fn law_progress(ring: Ring)
    requires
        ring.wf(),
    ensures
        ring.len() > 0 <==> ring.readable_len() > 0,
        ring.len() < ring.capacity() <==> ring.writable_len() > 0,
{
}

/// A read that stops at the end of the storage is completed by one more:
/// afterwards the rest is in one piece from slot zero.
pub proof fn law_two_reads_drain(before: Ring, after: Ring)
    requires
        before.wf(),
        after.wf(),
        after.capacity() == before.capacity(),
        after.head() == before.slot(before.readable_len()),
        after.len() == before.len() - before.readable_len(),
    ensures
        after.readable_len() == after.len(),
        after.len() > 0 ==> after.head() == 0,
{
}

/// Where a ring is read and written: a read starts at the head and a write
/// behind the newest element, counted on around the storage; neither goes on
/// past the end of the storage, past what it may take, or past its limit, and
/// each goes as far as one of these.
pub proof fn law_stretches(
    ring: &Ring,
    limit: usize,
    readable: Range<usize>,
    writable: Range<usize>,
)
    requires
        ring.wf(),
        call_ensures(Ring::readable, (ring, limit), readable),
        call_ensures(Ring::writable, (ring, limit), writable),
    ensures
        readable.start == ring.head(),
        ring.len() < ring.capacity() ==> writable.start == (ring.head() + ring.len())
            % ring.capacity(),
        ({
            let count = readable.end - readable.start;
            &&& 0 <= count <= limit && count <= ring.len() && readable.end <= ring.capacity()
            &&& count == limit || count == ring.len() || readable.end == ring.capacity()
        }),
        ({
            let count = writable.end - writable.start;
            &&& 0 <= count <= limit && ring.len() + count <= ring.capacity() && writable.end
                <= ring.capacity()
            &&& count == limit || ring.len() + count == ring.capacity() || writable.end
                == ring.capacity()
        }),
{
    if ring.len() < ring.capacity() {
        law_slot_wraps(*ring, ring.len());
    }
}

/// What producing and consuming do: the former makes a ring longer, the latter
/// shorter, with its head moved on around the storage; a new ring is empty.
pub proof fn law_positions_move(
    producing: &mut Ring,
    more: usize,
    consuming: &mut Ring,
    less: usize,
    capacity: usize,
    fresh: Ring,
    empty: bool,
    full: bool,
)
    requires
        old(producing).wf(),
        more <= old(producing).writable_len(),
        call_ensures(Ring::produce, (producing, more), ()),
        old(consuming).wf(),
        less <= old(consuming).readable_len(),
        call_ensures(Ring::consume, (consuming, less), ()),
        capacity > 0,
        call_ensures(Ring::new, (capacity,), fresh),
        call_ensures(Ring::is_empty, (consuming,), empty),
        call_ensures(Ring::is_full, (consuming,), full),
    ensures
        final(producing).capacity() == old(producing).capacity(),
        final(producing).head() == old(producing).head(),
        final(producing).len() == old(producing).len() + more,
        final(consuming).capacity() == old(consuming).capacity(),
        less < old(consuming).capacity() ==> final(consuming).head() == (old(consuming).head()
            + less) % old(consuming).capacity(),
        less == old(consuming).capacity() ==> final(consuming).head() == old(consuming).head(),
        final(consuming).len() == old(consuming).len() - less,
        fresh.capacity() == capacity && fresh.head() == 0 && fresh.len() == 0,
        empty <==> old(consuming).len() == 0,
        full <==> old(consuming).len() == old(consuming).capacity(),
{
    if less < old(consuming).capacity() {
        law_slot_wraps(*old(consuming), less as int);
    }
}

/// The smaller of two sizes is one of them, and neither is smaller.
pub proof fn law_smaller_size(a: usize, b: usize, m: usize)
    requires
        call_ensures(min_size, (a, b), m),
    ensures
        m == a || m == b,
        m <= a && m <= b,
{
}

} // verus!
