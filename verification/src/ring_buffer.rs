//! The shared core of a channel: a fixed ring of slots, a wrapping write
//! cursor, and the subscriber accounting that governs broadcast and
//! disconnection.

use crate::swap_slot::SwapSlot;
use std::sync::Arc;
use vstd::arithmetic::div_mod::{lemma_fundamental_div_mod, lemma_mod_multiples_vanish};
use vstd::prelude::*;
use vstd::wrapping::usize_specs;

verus! {

/// Error of a broadcast that found no receivers; it hands the unsent value
/// back to the caller.
#[derive(Debug, PartialEq, Eq)]
pub struct SendError<T>(pub T);

/// Error of a receive that found nothing to deliver.
#[derive(Debug, PartialEq, Eq, Structural, Clone, Copy)]
pub enum TryRecvError {
    /// Nothing is buffered right now, but the sending side is still alive.
    Empty,
    /// The sending side is gone and everything buffered has been drained.
    Disconnected,
}

/// The number of distinct `usize` values: cursor arithmetic wraps at this
/// modulus.
pub open spec fn index_modulus() -> int {
    usize::MAX as int + 1
}

/// The cursor one step past `w`, wrapping around the index range.
pub open spec fn next_index(w: usize) -> usize {
    usize_specs::wrapping_add(w, 1)
}

/// Wrapping difference `w - r`: how far cursor `w` is ahead of cursor `r`.
pub open spec fn gap(w: usize, r: usize) -> int {
    usize_specs::wrapping_sub(w, r) as int
}

/// Where a lapped reader restarts: the oldest write still in a ring of
/// `size` cells, plus `skip` more.
pub open spec fn catch_up(w: usize, size: usize, skip: usize) -> usize {
    usize_specs::wrapping_add(usize_specs::wrapping_sub(w, size), (1 + skip) as usize)
}

/// The shared state of one channel: `size` slots, of which `size - 1` hold
/// the retained backlog, a monotonically advancing (wrapping) write cursor,
/// the number of live subscribers, and a liveness flag for the sending side.
pub struct RingBuffer<T, S: SwapSlot<T>> {
    /// The circular buffer of slots.
    pub buffer: Vec<S>,
    /// Number of cells; one more than the capacity, so that a full ring is
    /// distinguishable from an empty one.
    pub size: usize,
    /// Write cursor. It only ever steps forward, wrapping around the integer
    /// range; slot selection is `wi % size`.
    pub wi: usize,
    /// Number of live subscribers; a broadcast with none fails.
    pub sub_count: usize,
    /// False once the sending side has closed the channel; never true again.
    pub is_available: bool,
    /// The values broadcast since creation (or since the write cursor was
    /// forced to a new value), oldest first.
    pub hist: Ghost<Seq<T>>,
}

impl<T, S: SwapSlot<T>> RingBuffer<T, S> {
    /// The capacity `N`: how many messages a lagging reader can still recover.
    pub open spec fn capacity(self) -> int {
        self.size - 1
    }

    /// How many of the most recent writes are pinned to a slot by `wf`:
    /// writes older than the ring, and writes from before a wrap of the
    /// cursor range, are no longer tied down.
    pub open spec fn window(self) -> int {
        vstd::math::min(
            self.hist@.len() as int,
            vstd::math::min(self.size as int, self.wi as int),
        )
    }

    /// The buffer cell that holds the write `k` places behind the cursor,
    /// for `k` small enough that no wrap is involved.
    pub open spec fn cell(self, k: int) -> int {
        (self.wi - k) % (self.size as int)
    }

    /// The value written `k` places behind the cursor.
    pub open spec fn recent(self, k: int) -> T {
        self.hist@[self.hist@.len() - k]
    }

    /// Well-formedness: the slots the reader protocol may hand out hold
    /// exactly the most recent writes.
    pub open spec fn wf(self) -> bool {
        &&& 2 <= self.size
        &&& self.buffer@.len() == self.size
        &&& forall|k: int|
            1 <= k <= self.window() ==> self.buffer@[#[trigger] self.cell(k)].contents()
                == Some(self.recent(k))
    }

    /// The position `try_recv` reads for a reader at `r0` with skip policy
    /// `skip`: the reader's own cursor, unless the writer has lapped it, in
    /// which case the reader first jumps to `catch_up`.
    pub open spec fn read_position(self, r0: usize, skip: usize) -> usize {
        if gap(self.wi, r0) >= self.size {
            catch_up(self.wi, self.size, skip)
        } else {
            r0
        }
    }

    /// The index into `hist` of the next value a reader at cursor `r` would
    /// take, counting from the front.
    pub open spec fn reader_mark(self, r: usize) -> int {
        self.hist@.len() - gap(self.wi, r)
    }

    /// A ring with capacity `size`: `size + 1` empty cells, cursor at zero,
    /// one subscriber, sending side available.
    pub fn new(size: usize) -> (r: Self)
        requires
            1 <= size < usize::MAX,
        ensures
            r.wf(),
            r.size == size + 1,
            r.wi == 0,
            r.sub_count == 1,
            r.is_available,
            r.hist@ == Seq::<T>::empty(),
    {
        let size = size + 1;
        let mut buffer: Vec<S> = Vec::new();
        let mut i: usize = 0;
        while i < size
            invariant
                i == buffer@.len(),
                i <= size,
            decreases size - i,
        {
            buffer.push(S::none());
            i = i + 1;
        }
        Self {
            buffer,
            size,
            wi: 0,
            sub_count: 1,
            is_available: true,
            hist: Ghost(Seq::empty()),
        }
    }

    /// Publish `object` into the slot under the write cursor and advance the
    /// cursor, unless no subscriber is left, in which case the value comes
    /// back unchanged and the ring is untouched.
    pub fn broadcast(&mut self, object: T) -> (r: Result<(), SendError<T>>)
        requires
            old(self).wf(),
        ensures
            final(self).wf(),
            old(self).sub_count == 0 ==> (r matches Err(e) && e == SendError(object)
                && *final(self) == *old(self)),
            old(self).sub_count > 0 ==> {
                &&& r is Ok
                &&& final(self).wi == next_index(old(self).wi)
                &&& final(self).hist@ == old(self).hist@.push(object)
                &&& final(self).size == old(self).size
                &&& final(self).sub_count == old(self).sub_count
                &&& final(self).is_available == old(self).is_available
                &&& final(self).buffer@.len() == old(self).buffer@.len()
                &&& final(self).buffer@[old(self).wi as int % old(self).size as int].contents()
                    == Some(object)
                &&& forall|i: int|
                    0 <= i < old(self).buffer@.len() && i != old(self).wi as int % old(
                        self,
                    ).size as int ==> final(self).buffer@[i] == old(self).buffer@[i]
            },
    {
        if self.sub_count == 0 {
            return Err(SendError(object));
        }
        let idx = self.wi % self.size;
        self.buffer[idx].store(object);
        proof {
            self.hist@ = self.hist@.push(object);
        }
        self.wi = self.wi.wrapping_add(1);
        proof {
            lemma_broadcast_preserves_wf(*old(self), *self, object);
        }
        Ok(())
    }

    /// Receive the next message for the reader cursor `ri` with skip policy
    /// `skip_items`, never blocking.
    ///
    /// A caught-up cursor (`ri == wi`) means nothing is buffered: the result is
    /// `Empty` while the sending side lives, `Disconnected` once it is gone.
    /// Otherwise the position `read_position` is consulted — the reader's own
    /// cursor, or the catch-up position if the writer has lapped it — and its
    /// slot's contents are handed out, advancing the cursor past the
    /// position that was read. A cell that was never written reads as
    /// `Empty` and leaves the cursor at the position it would have read.
    pub fn try_recv(&self, ri: &mut usize, skip_items: usize) -> (r: Result<Arc<T>, TryRecvError>)
        requires
            self.wf(),
            skip_items + 2 <= self.size,
        ensures
            ({
                let d0 = gap(self.wi, *old(ri));
                let p = self.read_position(*old(ri), skip_items);
                if d0 == 0 {
                    &&& *final(ri) == *old(ri)
                    &&& r == Err::<Arc<T>, TryRecvError>(
                        if self.is_available {
                            TryRecvError::Empty
                        } else {
                            TryRecvError::Disconnected
                        },
                    )
                } else {
                    &&& 1 <= gap(self.wi, p) <= self.capacity()
                    &&& match self.buffer@[p as int % self.size as int].contents() {
                        Some(v) => r matches Ok(a) && a == v && *final(ri) == next_index(p),
                        None => r == Err::<Arc<T>, TryRecvError>(TryRecvError::Empty) && *final(ri)
                            == p,
                    }
                }
            }),
    {
        proof {
            lemma_catch_up_gap(self.wi, self.size, skip_items);
        }
        if *ri == self.wi {
            if self.is_available {
                return Err(TryRecvError::Empty);
            } else {
                return Err(TryRecvError::Disconnected);
            }
        }
        let mut local_ri: usize = *ri;
        if self.wi.wrapping_sub(local_ri) >= self.size {
            // The writer has lapped this reader: jump to the oldest retained
            // write, plus the skip allowance, before reading.
            local_ri = self.wi.wrapping_sub(self.size).wrapping_add(1 + skip_items);
            *ri = local_ri;
        }
        let val = self.buffer[local_ri % self.size].load();
        match val {
            Some(a) => {
                *ri = local_ri.wrapping_add(1);
                Ok(a)
            },
            None => Err(TryRecvError::Empty),
        }
    }

    /// Close the channel: the sending side is no longer available. Idempotent.
    pub fn close(&mut self)
        ensures
            *final(self) == (RingBuffer { is_available: false, ..*old(self) }),
            old(self).wf() ==> final(self).wf(),
    {
        self.is_available = false;
        proof {
            if old(self).wf() {
                lemma_wf_depends_on_geometry(*old(self), *self);
            }
        }
    }

    /// Whether the sending side is still available.
    pub fn is_available(&self) -> (r: bool)
        ensures
            r == self.is_available,
    {
        self.is_available
    }

    /// The capacity of the queue.
    pub fn len(&self) -> (r: usize)
        requires
            self.wf(),
        ensures
            r == self.capacity(),
    {
        self.size - 1
    }

    /// Whether nothing has been published yet (the cursor never moved).
    pub fn is_empty(&self) -> (r: bool)
        ensures
            r == (self.wi == 0),
    {
        self.wi == 0
    }

    /// Whether the subscriber cursor `ri` has consumed everything published.
    pub fn is_sub_empty(&self, ri: usize) -> (r: bool)
        ensures
            r == (self.wi == ri),
    {
        self.wi == ri
    }

    /// Record one more live subscriber.
    pub fn inc_sub_count(&mut self)
        requires
            old(self).sub_count < usize::MAX,
        ensures
            *final(self) == (RingBuffer { sub_count: (old(self).sub_count + 1) as usize, ..*old(self) }),
            old(self).wf() ==> final(self).wf(),
    {
        self.sub_count = self.sub_count + 1;
        proof {
            if old(self).wf() {
                lemma_wf_depends_on_geometry(*old(self), *self);
            }
        }
    }

    /// Record that one subscriber went away.
    pub fn dec_sub_count(&mut self)
        requires
            old(self).sub_count > 0,
        ensures
            *final(self) == (RingBuffer { sub_count: (old(self).sub_count - 1) as usize, ..*old(self) }),
            old(self).wf() ==> final(self).wf(),
    {
        self.sub_count = self.sub_count - 1;
        proof {
            if old(self).wf() {
                lemma_wf_depends_on_geometry(*old(self), *self);
            }
        }
    }

    /// The number of live subscribers currently on record.
    pub fn sub_count(&self) -> (r: usize)
        ensures
            r == self.sub_count,
    {
        self.sub_count
    }

    /// Overwrite the subscriber count with a fresh census.
    pub fn set_sub_count(&mut self, n: usize)
        ensures
            *final(self) == (RingBuffer { sub_count: n, ..*old(self) }),
            old(self).wf() ==> final(self).wf(),
    {
        self.sub_count = n;
        proof {
            if old(self).wf() {
                lemma_wf_depends_on_geometry(*old(self), *self);
            }
        }
    }

    /// The current write cursor.
    pub fn write_index(&self) -> (r: usize)
        ensures
            r == self.wi,
    {
        self.wi
    }

    /// Force the write cursor to `w`. The recorded history starts afresh:
    /// whatever the slots hold is no longer tied to any position.
    pub fn set_write_index(&mut self, w: usize)
        requires
            old(self).wf(),
        ensures
            final(self).wf(),
            *final(self) == (RingBuffer { wi: w, hist: Ghost(Seq::<T>::empty()), ..*old(self) }),
    {
        self.wi = w;
        proof {
            self.hist@ = Seq::empty();
        }
    }
}

/// Well-formedness only looks at the ring's geometry — cells, cursor and
/// history — never at the subscriber accounting or the liveness flag.
pub proof fn lemma_wf_depends_on_geometry<T, S: SwapSlot<T>>(
    a: RingBuffer<T, S>,
    b: RingBuffer<T, S>,
)
    requires
        a.wf(),
        b.buffer == a.buffer,
        b.size == a.size,
        b.wi == a.wi,
        b.hist == a.hist,
    ensures
        b.wf(),
{
    assert forall|k: int| 1 <= k <= b.window() implies b.buffer@[
        #[trigger] b.cell(k)
    ].contents() == Some(b.recent(k)) by {
        assert(b.cell(k) == a.cell(k));
        assert(a.buffer@[a.cell(k)].contents() == Some(a.recent(k)));
    };
}

/// `(a + c) % m`, for a shift `c` below the modulus, in terms of `a % m`.
proof fn lemma_mod_shift(a: int, c: int, m: int)
    requires
        0 <= a,
        0 <= c < m,
    ensures
        (a + c) % m == if a % m + c < m {
            a % m + c
        } else {
            a % m + c - m
        },
{
    lemma_fundamental_div_mod(a, m);
    let d = a / m;
    let r = a % m;
    assert(a == m * d + r);
    if r + c < m {
        assert(a + c == m * d + (r + c));
        lemma_mod_multiples_vanish(d, r + c, m);
        assert((a + c) % m == (r + c) % m);
        assert((r + c) % m == r + c) by {
            vstd::arithmetic::div_mod::lemma_small_mod((r + c) as nat, m as nat);
        };
    } else {
        assert(a + c == m * (d + 1) + (r + c - m)) by (nonlinear_arith)
            requires
                a == m * d + r,
        ;
        lemma_mod_multiples_vanish(d + 1, r + c - m, m);
        assert((a + c) % m == (r + c - m) % m);
        assert((r + c - m) % m == r + c - m) by {
            vstd::arithmetic::div_mod::lemma_small_mod((r + c - m) as nat, m as nat);
        };
    }
}

/// Two positions that differ by less than `size` land in different cells.
proof fn lemma_cells_distinct(b: int, c: int, size: int)
    requires
        0 <= b,
        0 < c < size,
    ensures
        (b + c) % size != b % size,
{
    lemma_mod_shift(b, c, size);
    vstd::arithmetic::div_mod::lemma_mod_bound(b, size);
}

/// Broadcasting keeps the ring well-formed: the window slides forward by one
/// over the freshly written slot.
proof fn lemma_broadcast_preserves_wf<T, S: SwapSlot<T>>(
    pre: RingBuffer<T, S>,
    post: RingBuffer<T, S>,
    object: T,
)
    requires
        pre.wf(),
        post.size == pre.size,
        post.wi == next_index(pre.wi),
        post.hist@ == pre.hist@.push(object),
        post.buffer@.len() == pre.buffer@.len(),
        post.buffer@[pre.wi as int % pre.size as int].contents() == Some(object),
        forall|i: int|
            0 <= i < pre.buffer@.len() && i != pre.wi as int % pre.size as int
                ==> post.buffer@[i] == pre.buffer@[i],
    ensures
        post.wf(),
{
    if pre.wi == usize::MAX {
        // The cursor wrapped: the new window is empty.
        assert(post.wi == 0);
        assert(post.window() == 0);
    } else {
        assert(post.wi == pre.wi + 1);
        assert forall|k: int| 1 <= k <= post.window() implies post.buffer@[
            #[trigger] post.cell(k)
        ].contents() == Some(post.recent(k)) by {
            let size = pre.size as int;
            if k == 1 {
                assert(post.cell(1) == pre.wi as int % size);
                assert(post.recent(1) == object);
            } else {
                // The slot for offset `k` now is the slot for offset `k - 1`
                // before the write, and that slot was not overwritten.
                assert(pre.cell(k - 1) == post.cell(k));
                assert(1 <= k - 1 <= pre.window());
                assert(pre.buffer@[pre.cell(k - 1)].contents() == Some(pre.recent(k - 1)));
                lemma_cells_distinct(pre.wi as int - (k - 1), k - 1, size);
                assert(post.cell(k) != pre.wi as int % size);
                assert(post.buffer@[post.cell(k)] == pre.buffer@[pre.cell(k - 1)]);
                assert(post.recent(k) == pre.recent(k - 1));
            }
        };
    }
}

/// The catch-up position of a lapped reader sits `size - 1 - skip` places
/// behind the write cursor: inside the ring, past the slot the writer will
/// fill next.
proof fn lemma_catch_up_gap(w: usize, size: usize, skip: usize)
    requires
        2 <= size,
        skip + 2 <= size,
    ensures
        gap(w, catch_up(w, size, skip)) == size - 1 - skip,
{
}

/// Publication order, delivery: a reader position within the retained
/// window receives exactly the history entry `gap` places behind the write
/// cursor — never an older value, never one out of turn.
pub proof fn lemma_window_delivery<T, S: SwapSlot<T>>(ring: RingBuffer<T, S>, p: usize)
    requires
        ring.wf(),
        1 <= gap(ring.wi, p) <= ring.window(),
    ensures
        ring.buffer@[p as int % ring.size as int].contents() == Some(
            ring.hist@[ring.hist@.len() - gap(ring.wi, p)],
        ),
{
    let d = gap(ring.wi, p);
    // The window never reaches past the cursor's distance from zero, so no
    // wrap separates `p` from the cursor and `p` is the plain difference.
    assert(d <= ring.wi);
    assert(p == ring.wi - d);
    assert(ring.cell(d) == p as int % ring.size as int);
    assert(ring.buffer@[ring.cell(d)].contents() == Some(ring.recent(d)));
}

/// Publication order, progress: a receive that consumed position `p`
/// advances the reader's history mark by exactly one, so successive
/// receives take strictly later entries.
pub proof fn lemma_receive_advances_mark<T, S: SwapSlot<T>>(ring: RingBuffer<T, S>, p: usize)
    requires
        1 <= gap(ring.wi, p),
    ensures
        ring.reader_mark(next_index(p)) == ring.reader_mark(p) + 1,
{
}

/// Publication order, stability: an accepted broadcast moves the cursor one
/// ahead and grows the history by one, so every reader's history mark stays
/// where it was.
pub proof fn lemma_broadcast_preserves_mark<T, S: SwapSlot<T>>(
    pre: RingBuffer<T, S>,
    post: RingBuffer<T, S>,
    object: T,
    r: usize,
)
    requires
        post.wi == next_index(pre.wi),
        post.hist@ == pre.hist@.push(object),
        gap(pre.wi, r) < usize::MAX as int,
    ensures
        post.reader_mark(r) == pre.reader_mark(r),
{
}

/// Publication order, one receive step: the position a receive consults
/// never stands earlier in the history than the reader's own cursor — a
/// lap jump only moves forward — and, within the retained window, its slot
/// holds exactly the entry at that position's mark, with the advanced
/// cursor marking the entry right after it. Chained over successive
/// receives, with `lemma_broadcast_preserves_mark` for the broadcasts in
/// between, this makes every received sequence a subsequence of the
/// published one, in publication order.
pub proof fn lemma_receive_in_publication_order<T, S: SwapSlot<T>>(
    ring: RingBuffer<T, S>,
    r0: usize,
    skip: usize,
)
    requires
        ring.wf(),
        skip + 2 <= ring.size,
        gap(ring.wi, r0) != 0,
    ensures
        ring.reader_mark(ring.read_position(r0, skip)) >= ring.reader_mark(r0),
        ring.reader_mark(next_index(ring.read_position(r0, skip))) == ring.reader_mark(
            ring.read_position(r0, skip),
        ) + 1,
        gap(ring.wi, ring.read_position(r0, skip)) <= ring.window() ==> ring.buffer@[
            ring.read_position(r0, skip) as int % ring.size as int
        ].contents() == Some(ring.hist@[ring.reader_mark(ring.read_position(r0, skip))]),
{
    let p = ring.read_position(r0, skip);
    lemma_read_position_bound(ring, r0, skip);
    if gap(ring.wi, r0) >= ring.size {
        lemma_catch_up_gap(ring.wi, ring.size, skip);
    }
    lemma_receive_advances_mark(ring, p);
    if gap(ring.wi, p) <= ring.window() {
        lemma_window_delivery(ring, p);
    }
}

/// Bounded loss: whatever a reader's lag, the position a receive actually
/// consults lies at least one and at most `capacity` places behind the
/// write cursor; messages older than that are unobservable.
pub proof fn lemma_read_position_bound<T, S: SwapSlot<T>>(
    ring: RingBuffer<T, S>,
    r0: usize,
    skip: usize,
)
    requires
        ring.wf(),
        skip + 2 <= ring.size,
        gap(ring.wi, r0) != 0,
    ensures
        1 <= gap(ring.wi, ring.read_position(r0, skip)) <= ring.capacity(),
{
    if gap(ring.wi, r0) >= ring.size {
        lemma_catch_up_gap(ring.wi, ring.size, skip);
    }
}

/// Skip policy: once the writer has lapped a reader, the next receive
/// starts at `wi - size + 1 + skip` — the oldest retained write plus the
/// skip allowance — leaving the reader `size - 1 - skip` behind the cursor.
pub proof fn lemma_skip_policy<T, S: SwapSlot<T>>(ring: RingBuffer<T, S>, r0: usize, skip: usize)
    requires
        2 <= ring.size,
        skip + 2 <= ring.size,
        gap(ring.wi, r0) >= ring.size,
    ensures
        ring.read_position(r0, skip) == catch_up(ring.wi, ring.size, skip),
        gap(ring.wi, ring.read_position(r0, skip)) == ring.size - 1 - skip,
{
    lemma_catch_up_gap(ring.wi, ring.size, skip);
}

} // verus!
