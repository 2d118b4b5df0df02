//! The fixed-capacity FIFO ring buffer behind the dashboard's trend
//! history and the graphs window.
//!
//! A [`RingBuffer`] holds at most its capacity of samples: `push`
//! appends the newest sample and, once the buffer is full, evicts the
//! oldest one by overwriting its slot in place. The storage is allocated
//! once, at construction, and never grows. The capacity is clamped to at
//! least one, so every index computation stays inside the storage.
//!
//! The abstract state of a buffer is the sequence of its live samples,
//! oldest first (its view, `b@`).
use vstd::prelude::*;

verus! {

/// Default history depth: 300 samples, ten minutes at the 2 s poll.
pub const HISTORY_CAPACITY: usize = 300;

/// Slot index `i` places past `head` in storage of size `cap`, wrapping
/// once (`head < cap`, `0 <= i < cap`).
pub open spec fn wrap(head: int, i: int, cap: int) -> int {
    if head + i < cap { head + i } else { head + i - cap }
}

/// The samples a bounded FIFO of capacity `cap` holds after `v` is
/// pushed onto `s`: `v` is appended, and the oldest sample is dropped
/// when `s` was already full.
pub open spec fn ring_push<T>(s: Seq<T>, cap: nat, v: T) -> Seq<T> {
    if s.len() < cap { s.push(v) } else { s.drop_first().push(v) }
}

/// The samples after pushing every element of `items`, in order, onto `s`.
pub open spec fn ring_push_all<T>(s: Seq<T>, cap: nat, items: Seq<T>) -> Seq<T>
    decreases items.len(),
{
    if items.len() == 0 {
        s
    } else {
        ring_push(ring_push_all(s, cap, items.drop_last()), cap, items.last())
    }
}

/// The newest `cap` elements of `items` (all of them when there are fewer).
pub open spec fn newest<T>(items: Seq<T>, cap: nat) -> Seq<T> {
    if items.len() <= cap { items } else { items.subrange(items.len() - cap, items.len() as int) }
}

/// Pushing any sequence of samples, one by one, into an empty buffer of
/// capacity `cap` leaves exactly the newest `cap` of them, oldest first:
/// the oldest are evicted in order and the survivors keep their order.
pub proof fn lemma_push_all_keeps_newest<T>(cap: nat, items: Seq<T>)
    requires
        cap >= 1,
    ensures
        ring_push_all(Seq::<T>::empty(), cap, items) == newest(items, cap),
    decreases items.len(),
{
    if items.len() > 0 {
        let p = items.drop_last();
        lemma_push_all_keeps_newest(cap, p);
        if p.len() < cap {
            assert(p.push(items.last()) =~= items);
        } else {
            assert(newest(p, cap).drop_first().push(items.last())
                =~= items.subrange(items.len() - cap, items.len() as int));
        }
    }
}

/// After `n` pushes into an empty buffer of capacity `cap`: the buffer
/// holds `min(n, cap)` samples, is full exactly when `n >= cap`, and its
/// samples, oldest first, are the last `min(n, cap)` values pushed, in
/// push order.
pub proof fn lemma_pushes_fill<T>(cap: nat, items: Seq<T>)
    requires
        cap >= 1,
    ensures
        ({
            let b = ring_push_all(Seq::<T>::empty(), cap, items);
            let k = if items.len() < cap { items.len() } else { cap };
            &&& b.len() == k
            &&& (b.len() == cap) == (items.len() >= cap)
            &&& forall|i: int| 0 <= i < k ==> #[trigger] b[i] == items[items.len() - k + i]
        }),
{
    lemma_push_all_keeps_newest(cap, items);
}

/// Each further push extends the pushes before it: pushing `items` and
/// then `v` is pushing `items` followed by `v`.
pub proof fn lemma_push_all_step<T>(s: Seq<T>, cap: nat, items: Seq<T>, v: T)
    ensures
        ring_push_all(s, cap, items.push(v)) == ring_push(ring_push_all(s, cap, items), cap, v),
{
    assert(items.push(v).drop_last() =~= items);
}

/// One push keeps the buffer within its capacity, makes the pushed value
/// the newest sample, and never shrinks a buffer that was not full.
pub proof fn lemma_push_bounded<T>(s: Seq<T>, cap: nat, v: T)
    requires
        cap >= 1,
        s.len() <= cap,
    ensures
        ring_push(s, cap, v).len() <= cap,
        ring_push(s, cap, v).last() == v,
        s.len() < cap ==> ring_push(s, cap, v).len() == s.len() + 1,
        s.len() == cap ==> ring_push(s, cap, v).len() == cap,
{
}

/// A fixed-capacity FIFO ring buffer: `push` appends the newest sample
/// and evicts the oldest once the capacity is reached.
///
/// The live samples occupy the `len` slots starting at `head` (wrapping
/// at the capacity), each of them `Some`.
#[derive(Debug, Clone)]
pub struct RingBuffer<T> {
    data: Vec<Option<T>>,
    head: usize,
    len: usize,
}

impl<T> View for RingBuffer<T> {
    type V = Seq<T>;

    /// The live samples, oldest first.
    closed spec fn view(&self) -> Seq<T> {
        Seq::new(self.len as nat, |i: int| self.data@[wrap(self.head as int, i, self.data@.len() as int)]->0)
    }
}

impl<T> RingBuffer<T> {
    /// The buffer's internal invariant: a nonzero capacity, the head and
    /// the live window inside the storage, and every live slot filled.
    pub closed spec fn wf(&self) -> bool {
        &&& self.data@.len() >= 1
        &&& self.head < self.data@.len()
        &&& self.len <= self.data@.len()
        &&& forall|i: int| 0 <= i < self.len ==> (#[trigger] self.data@[wrap(self.head as int, i, self.data@.len() as int)]) is Some
    }

    /// The fixed capacity (the maximum number of live samples).
    pub closed spec fn cap(&self) -> nat {
        self.data@.len()
    }

    /// Every valid buffer holds at least one slot and at most its
    /// capacity of samples.
    pub proof fn lemma_bounds(&self)
        requires
            self.wf(),
        ensures
            1 <= self.cap(),
            self@.len() <= self.cap(),
    {
    }

    /// A buffer at the default [`HISTORY_CAPACITY`] depth.
    pub fn new() -> (b: Self)
        ensures
            b.wf(),
            b@ == Seq::<T>::empty(),
            b.cap() == HISTORY_CAPACITY,
    {
        Self::with_capacity(HISTORY_CAPACITY)
    }

    /// An empty buffer of `capacity` slots, clamped to at least one.
    pub fn with_capacity(capacity: usize) -> (b: Self)
        ensures
            b.wf(),
            b@ == Seq::<T>::empty(),
            b.cap() == if capacity == 0 { 1 } else { capacity as nat },
    {
        let capacity = if capacity == 0 { 1 } else { capacity };
        let mut data: Vec<Option<T>> = Vec::with_capacity(capacity);
        let mut k: usize = 0;
        while k < capacity
            invariant
                k <= capacity,
                data@.len() == k,
            decreases capacity - k,
        {
            data.push(None);
            k = k + 1;
        }
        let b = RingBuffer { data, head: 0, len: 0 };
        assert(b@ =~= Seq::<T>::empty());
        b
    }

    /// Appends `value` as the newest sample; once the buffer is full the
    /// oldest sample is evicted (its slot is overwritten in place).
    pub fn push(&mut self, value: T)
        requires
            old(self).wf(),
        ensures
            final(self).wf(),
            final(self).cap() == old(self).cap(),
            final(self)@ == ring_push(old(self)@, old(self).cap(), value),
    {
        let cap = self.data.len();
        let ghost old_self = *self;
        let ghost v = value;
        if self.len == cap {
            let h = self.head;
            self.data.set(h, Some(value));
            self.head = if h + 1 < cap { h + 1 } else { 0 };
            assert forall|i: int| 0 <= i < self.len implies
                (#[trigger] self.data@[wrap(self.head as int, i, cap as int)]) is Some by {
                if i < cap - 1 {
                    assert(wrap(self.head as int, i, cap as int) == wrap(h as int, i + 1, cap as int));
                    assert(old_self.data@[wrap(h as int, i + 1, cap as int)] is Some);
                }
            }
            assert(self@ =~= old_self@.drop_first().push(v)) by {
                assert forall|i: int| 0 <= i < self.len implies self@[i] == old_self@.drop_first().push(v)[i] by {
                    if i < cap - 1 {
                        assert(wrap(self.head as int, i, cap as int) == wrap(h as int, i + 1, cap as int));
                    } else {
                        assert(wrap(self.head as int, i, cap as int) == h);
                    }
                }
            }
        } else {
            let h = self.head;
            let len = self.len;
            let idx = if len < cap - h { h + len } else { len - (cap - h) };
            assert(idx == wrap(h as int, len as int, cap as int));
            self.data.set(idx, Some(value));
            self.len = len + 1;
            assert forall|i: int| 0 <= i < self.len implies
                (#[trigger] self.data@[wrap(self.head as int, i, cap as int)]) is Some by {
                if i < len {
                    assert(old_self.data@[wrap(h as int, i, cap as int)] is Some);
                }
            }
            assert(self@ =~= old_self@.push(v)) by {
                assert forall|i: int| 0 <= i < self.len implies self@[i] == old_self@.push(v)[i] by {
                    if i < len {
                        assert(wrap(h as int, i, cap as int) != idx);
                    }
                }
            }
        }
    }

    /// The number of live samples.
    pub fn len(&self) -> (n: usize)
        requires
            self.wf(),
        ensures
            n == self@.len(),
    {
        self.len
    }

    /// Whether no samples are stored.
    pub fn is_empty(&self) -> (b: bool)
        requires
            self.wf(),
        ensures
            b == (self@.len() == 0),
    {
        self.len == 0
    }

    /// Whether the buffer holds its full capacity of samples.
    pub fn is_full(&self) -> (b: bool)
        requires
            self.wf(),
        ensures
            b == (self@.len() == self.cap()),
    {
        self.len == self.data.len()
    }

    /// The fixed capacity (the clamped value from construction).
    pub fn capacity(&self) -> (c: usize)
        requires
            self.wf(),
        ensures
            c == self.cap(),
    {
        self.data.len()
    }

    /// The newest sample (the last one pushed), if any.
    pub fn last(&self) -> (r: Option<&T>)
        requires
            self.wf(),
        ensures
            r == (if self@.len() == 0 { None } else { Some(&self@.last()) }),
    {
        if self.len == 0 {
            return None;
        }
        let cap = self.data.len();
        let h = self.head;
        let k = self.len - 1;
        let idx = if k < cap - h { h + k } else { k - (cap - h) };
        assert(idx == wrap(h as int, k as int, cap as int));
        assert(self.data@[idx as int] is Some);
        self.data[idx].as_ref()
    }

    /// The live samples, oldest first.
    pub fn iter(&self) -> (it: RingIter<'_, T>)
        requires
            self.wf(),
        ensures
            it.wf(),
            it@ == self@,
    {
        let it = RingIter { data: &self.data, idx: self.head, remaining: self.len };
        assert(it@ =~= self@);
        it
    }

    /// Drops every sample; the storage is kept and reused.
    pub fn clear(&mut self)
        requires
            old(self).wf(),
        ensures
            final(self).wf(),
            final(self).cap() == old(self).cap(),
            final(self)@ == Seq::<T>::empty(),
    {
        let cap = self.data.len();
        let mut k: usize = 0;
        while k < cap
            invariant
                k <= cap,
                self.data@.len() == cap,
            decreases cap - k,
        {
            self.data.set(k, None);
            k = k + 1;
        }
        self.head = 0;
        self.len = 0;
        assert(self@ =~= Seq::<T>::empty());
    }
}

impl<T> Default for RingBuffer<T> {
    /// An empty buffer at the default [`HISTORY_CAPACITY`] depth.
    fn default() -> (b: Self)
        ensures
            b.wf(),
            b@ == Seq::<T>::empty(),
            b.cap() == HISTORY_CAPACITY,
    {
        Self::new()
    }
}

/// A cursor over a [`RingBuffer`]'s live samples, oldest first.
pub struct RingIter<'a, T> {
    data: &'a Vec<Option<T>>,
    idx: usize,
    remaining: usize,
}

impl<'a, T> View for RingIter<'a, T> {
    type V = Seq<T>;

    /// The samples not yet handed out, oldest first.
    closed spec fn view(&self) -> Seq<T> {
        Seq::new(self.remaining as nat, |i: int| self.data@[wrap(self.idx as int, i, self.data@.len() as int)]->0)
    }
}

impl<'a, T> RingIter<'a, T> {
    /// The cursor's internal invariant (that of the buffer it walks).
    pub closed spec fn wf(&self) -> bool {
        &&& self.data@.len() >= 1
        &&& self.idx < self.data@.len()
        &&& self.remaining <= self.data@.len()
        &&& forall|i: int| 0 <= i < self.remaining ==> (#[trigger] self.data@[wrap(self.idx as int, i, self.data@.len() as int)]) is Some
    }

    /// Hands out the oldest remaining sample, or `None` once every sample
    /// has been handed out.
    pub fn next(&mut self) -> (r: Option<&'a T>)
        requires
            old(self).wf(),
        ensures
            final(self).wf(),
            old(self)@.len() == 0 ==> r is None && final(self)@ == old(self)@,
            old(self)@.len() > 0 ==> r == Some(&old(self)@[0]) && final(self)@ == old(self)@.drop_first(),
    {
        if self.remaining == 0 {
            return None;
        }
        let ghost old_self = *self;
        let cap = self.data.len();
        let i = self.idx;
        assert(wrap(i as int, 0, cap as int) == i);
        let value = self.data[i].as_ref();
        self.remaining = self.remaining - 1;
        self.idx = if i + 1 < cap { i + 1 } else { 0 };
        assert forall|j: int| 0 <= j < self.remaining implies
            (#[trigger] self.data@[wrap(self.idx as int, j, cap as int)]) is Some by {
            assert(wrap(self.idx as int, j, cap as int) == wrap(i as int, j + 1, cap as int));
            assert(old_self.data@[wrap(i as int, j + 1, cap as int)] is Some);
        }
        assert(self@ =~= old_self@.drop_first()) by {
            assert forall|j: int| 0 <= j < self.remaining implies self@[j] == old_self@.drop_first()[j] by {
                assert(wrap(self.idx as int, j, cap as int) == wrap(i as int, j + 1, cap as int));
            }
        }
        value
    }

    /// The exact number of samples left: `(n, Some(n))`.
    pub fn size_hint(&self) -> (r: (usize, Option<usize>))
        requires
            self.wf(),
        ensures
            r.0 == self@.len(),
            r.1 == Some(self@.len() as usize),
    {
        (self.remaining, Some(self.remaining))
    }
}

/// The three trend series in lockstep: the memory clock, the VDDCR_SOC
/// rail and the memory bandwidth, one sample type for all three. The
/// buffers share one capacity and receive one push per poll, so each
/// holds the same number of samples.
#[derive(Debug, Clone)]
pub struct HistoryState<T> {
    /// The memory clock series.
    pub mclk: RingBuffer<T>,
    /// The VDDCR_SOC rail series.
    pub vddcr_soc: RingBuffer<T>,
    /// The memory bandwidth series.
    pub bandwidth: RingBuffer<T>,
}

impl<T> HistoryState<T> {
    /// The three series share one capacity and one length.
    pub open spec fn in_lockstep(&self) -> bool {
        &&& self.vddcr_soc.cap() == self.mclk.cap()
        &&& self.bandwidth.cap() == self.mclk.cap()
        &&& self.vddcr_soc@.len() == self.mclk@.len()
        &&& self.bandwidth@.len() == self.mclk@.len()
    }

    /// Every series is a valid buffer, and the three are in lockstep.
    pub open spec fn wf(&self) -> bool {
        &&& self.mclk.wf()
        &&& self.vddcr_soc.wf()
        &&& self.bandwidth.wf()
        &&& self.in_lockstep()
    }

    /// Three empty series at the default [`HISTORY_CAPACITY`] depth.
    pub fn new() -> (h: Self)
        ensures
            h.wf(),
            h.mclk.cap() == HISTORY_CAPACITY,
            h.mclk@ == Seq::<T>::empty(),
            h.vddcr_soc@ == Seq::<T>::empty(),
            h.bandwidth@ == Seq::<T>::empty(),
    {
        HistoryState { mclk: RingBuffer::new(), vddcr_soc: RingBuffer::new(), bandwidth: RingBuffer::new() }
    }

    /// Appends one poll's sample to all three series; each evicts its
    /// oldest sample once full.
    pub fn push(&mut self, mclk_mhz: T, vddcr_soc_mv: T, bandwidth_gbps: T)
        requires
            old(self).wf(),
        ensures
            final(self).wf(),
            final(self).mclk.cap() == old(self).mclk.cap(),
            final(self).mclk@ == ring_push(old(self).mclk@, old(self).mclk.cap(), mclk_mhz),
            final(self).vddcr_soc@ == ring_push(old(self).vddcr_soc@, old(self).mclk.cap(), vddcr_soc_mv),
            final(self).bandwidth@ == ring_push(old(self).bandwidth@, old(self).mclk.cap(), bandwidth_gbps),
    {
        self.mclk.push(mclk_mhz);
        self.vddcr_soc.push(vddcr_soc_mv);
        self.bandwidth.push(bandwidth_gbps);
    }

    /// The number of samples stored (the same in all three series).
    pub fn len(&self) -> (n: usize)
        requires
            self.wf(),
        ensures
            n == self.mclk@.len(),
            n == self.vddcr_soc@.len(),
            n == self.bandwidth@.len(),
    {
        self.mclk.len()
    }

    /// Whether no sample has been appended.
    pub fn is_empty(&self) -> (b: bool)
        requires
            self.wf(),
        ensures
            b == (self.mclk@.len() == 0),
    {
        self.mclk.is_empty()
    }

    /// Drops every sample from all three series; the storage is kept.
    pub fn clear(&mut self)
        requires
            old(self).wf(),
        ensures
            final(self).wf(),
            final(self).mclk.cap() == old(self).mclk.cap(),
            final(self).mclk@ == Seq::<T>::empty(),
            final(self).vddcr_soc@ == Seq::<T>::empty(),
            final(self).bandwidth@ == Seq::<T>::empty(),
    {
        self.mclk.clear();
        self.vddcr_soc.clear();
        self.bandwidth.clear();
    }
}

impl<T> Default for HistoryState<T> {
    /// Three empty series at the default depth.
    fn default() -> (h: Self)
        ensures
            h.wf(),
            h.mclk.cap() == HISTORY_CAPACITY,
            h.mclk@ == Seq::<T>::empty(),
            h.vddcr_soc@ == Seq::<T>::empty(),
            h.bandwidth@ == Seq::<T>::empty(),
    {
        Self::new()
    }
}

} // verus!
