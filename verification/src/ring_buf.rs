//! A fixed-size byte ring buffer whose free and filled space is handed out as
//! contiguous regions, so that a DMA engine can fill or drain it directly.
use vstd::prelude::*;

verus! {

/// Capacity of a ring buffer, in bytes.
pub const RINGBUF_SIZE: usize = 512;

/// A ring buffer of `RINGBUF_SIZE` bytes.
///
/// The live bytes run from `start` up to `end`, wrapping at the end of the
/// storage; `start == end` means either empty or full, which `empty` tells
/// apart.
pub struct RingBuf {
    buf: Vec<u8>,
    start: usize,
    end: usize,
    empty: bool,
}

impl View for RingBuf {
    type V = Seq<u8>;

    /// The bytes held, oldest first.
    closed spec fn view(&self) -> Seq<u8> {
        Seq::new(self.len_spec(), |k: int| self.buf@[self.slot(k)])
    }
}

impl RingBuf {
    /// The storage is of the right size and both indices lie inside it.
    pub closed spec fn wf(&self) -> bool {
        &&& self.buf@.len() == RINGBUF_SIZE
        &&& self.start < RINGBUF_SIZE
        &&& self.end < RINGBUF_SIZE
        &&& self.empty ==> self.start == self.end
    }

    /// Storage index of the `k`-th byte counted from `start`.
    closed spec fn slot(&self, k: int) -> int {
        if self.start + k < RINGBUF_SIZE {
            self.start + k
        } else {
            self.start + k - RINGBUF_SIZE
        }
    }

    /// Number of bytes held.
    closed spec fn len_spec(&self) -> nat {
        if self.empty {
            0
        } else if self.start < self.end {
            (self.end - self.start) as nat
        } else {
            (RINGBUF_SIZE - self.start + self.end) as nat
        }
    }

    /// Storage index at which the next pushed byte goes.
    pub closed spec fn end_pos(&self) -> int {
        self.end as int
    }

    /// Storage index of the oldest byte held.
    pub closed spec fn start_pos(&self) -> int {
        self.start as int
    }

    /// Length of the contiguous free region that starts at `end_pos`.
    pub closed spec fn push_len(&self) -> nat {
        if self.start == self.end && !self.empty {
            0
        } else if self.start <= self.end {
            (RINGBUF_SIZE - self.end) as nat
        } else {
            (self.start - self.end) as nat
        }
    }

    /// Length of the contiguous filled region that starts at `start_pos`.
    pub closed spec fn pop_len(&self) -> nat {
        if self.empty {
            0
        } else if self.end <= self.start {
            (RINGBUF_SIZE - self.start) as nat
        } else {
            (self.end - self.start) as nat
        }
    }

    /// Bytes already written into the free region, not yet pushed.
    pub closed spec fn pending(&self) -> Seq<u8> {
        self.buf@.subrange(self.end as int, self.end + self.push_len())
    }

    proof fn lemma_layout(&self)
        requires
            self.wf(),
        ensures
            self@.len() <= RINGBUF_SIZE,
            self.end == self.slot(self@.len() as int),
            self.push_len() > 0 <==> self@.len() < RINGBUF_SIZE,
            self.push_len() <= RINGBUF_SIZE - self@.len(),
            self.end + self.push_len() <= RINGBUF_SIZE,
            self.pop_len() > 0 <==> self@.len() > 0,
            self.pop_len() <= self@.len(),
            self.start + self.pop_len() <= RINGBUF_SIZE,
            forall|k: int| 0 <= k < self@.len() ==> 0 <= #[trigger] self.slot(k) < RINGBUF_SIZE,
    {
    }

    /// Where the regions lie: the end index follows the start index by the
    /// number of bytes held, the free region runs from the end index to the
    /// start index or the end of storage, whichever comes first, and the
    /// filled region from the start index to the end index or the end of
    /// storage; `pending` covers the whole free region.
    pub proof fn lemma_regions(&self)
        requires
            self.wf(),
        ensures
            0 <= self.start_pos() < RINGBUF_SIZE,
            self.pending().len() == self.push_len(),
            self@.len() <= RINGBUF_SIZE,
            self.end_pos() == (self.start_pos() + self@.len()) % (RINGBUF_SIZE as int),
            self.push_len() == if self@.len() == RINGBUF_SIZE {
                0
            } else if self.start_pos() <= self.end_pos() {
                RINGBUF_SIZE - self.end_pos()
            } else {
                self.start_pos() - self.end_pos()
            },
            self.pop_len() == if self@.len() == 0 {
                0
            } else if self.end_pos() <= self.start_pos() {
                RINGBUF_SIZE - self.start_pos()
            } else {
                self.end_pos() - self.start_pos()
            },
    {
        self.lemma_layout();
    }

    /// A storage index in the free region holds no live byte.
    proof fn lemma_free_slot(&self, pos: int)
        requires
            self.wf(),
            self.end <= pos < self.end + self.push_len(),
        ensures
            forall|k: int| 0 <= k < self@.len() ==> #[trigger] self.slot(k) != pos,
    {
    }

    /// An empty ring buffer.
    pub fn new() -> (r: Self)
        ensures
            r.wf(),
            r@ == Seq::<u8>::empty(),
            r.start_pos() == 0,
            r.end_pos() == 0,
    {
        let r = RingBuf { buf: vec![0u8; RINGBUF_SIZE], start: 0, end: 0, empty: true };
        assert(r@ =~= Seq::<u8>::empty());
        r
    }

    /// The contiguous free region, as its storage index and length. The
    /// length is zero only when the buffer is full, and the index is then 0.
    pub fn push_buf(&self) -> (r: (usize, usize))
        requires
            self.wf(),
        ensures
            r.1 == self.push_len(),
            r.1 > 0 ==> r.0 == self.end_pos(),
            r.1 == 0 ==> r.0 == 0,
            r.1 > 0 <==> self@.len() < RINGBUF_SIZE,
            r.1 <= RINGBUF_SIZE - self@.len(),
            r.0 + r.1 <= RINGBUF_SIZE,
    {
        proof {
            self.lemma_layout();
        }
        if self.start == self.end && !self.empty {
            return (0, 0);
        }
        let n = if self.start <= self.end {
            RINGBUF_SIZE - self.end
        } else {
            self.start - self.end
        };
        (self.end, n)
    }

    /// Writes one byte into the free region, at storage index `pos`.
    pub fn write(&mut self, pos: usize, byte: u8)
        requires
            old(self).wf(),
            old(self).end_pos() <= pos < old(self).end_pos() + old(self).push_len(),
        ensures
            final(self).wf(),
            final(self)@ == old(self)@,
            final(self).end_pos() == old(self).end_pos(),
            final(self).start_pos() == old(self).start_pos(),
            final(self).push_len() == old(self).push_len(),
            final(self).pop_len() == old(self).pop_len(),
            final(self).pending() == old(self).pending().update(pos - old(self).end_pos(), byte),
    {
        proof {
            old(self).lemma_layout();
            old(self).lemma_free_slot(pos as int);
        }
        self.buf.set(pos, byte);
        proof {
            assert(self@ =~= old(self)@);
            assert(self.pending() =~= old(self).pending().update(pos - old(self).end_pos(), byte));
        }
    }

    /// Makes the first `n` bytes of the free region part of the contents.
    pub fn push(&mut self, n: usize)
        requires
            old(self).wf(),
            n <= old(self).push_len(),
        ensures
            final(self).wf(),
            final(self)@ == old(self)@ + old(self).pending().take(n as int),
            final(self)@.len() == old(self)@.len() + n,
            final(self).start_pos() == old(self).start_pos(),
            final(self).end_pos() == (old(self).end_pos() + n) % (RINGBUF_SIZE as int),
            final(self).pop_len() >= old(self).pop_len(),
            n < old(self).push_len() ==> final(self).pending() == old(self).pending().skip(
                n as int,
            ),
            n == 0 ==> *final(self) == *old(self),
    {
        proof {
            self.lemma_layout();
        }
        if n == 0 {
            assert(self@ =~= old(self)@ + old(self).pending().take(0));
            return;
        }
        self.end = Self::wrap(self.end + n);
        self.empty = false;
        proof {
            let o = *old(self);
            assert(self.buf@ == o.buf@);
            assert(self@.len() == o@.len() + n);
            assert forall|k: int| 0 <= k < self@.len() implies #[trigger] self@[k] == (o@
                + o.pending().take(n as int))[k] by {
                if k < o@.len() {
                    assert(self.slot(k) == o.slot(k));
                } else {
                    assert(self.slot(k) == o.end + (k - o@.len()));
                }
            }
            assert(self@ =~= o@ + o.pending().take(n as int));
            if n < o.push_len() {
                assert(self.pending() =~= o.pending().skip(n as int));
            }
        }
    }

    /// The contiguous filled region, as its storage index and length. The
    /// length is zero only when the buffer is empty, and the index is then 0.
    pub fn pop_buf(&self) -> (r: (usize, usize))
        requires
            self.wf(),
        ensures
            r.1 == self.pop_len(),
            r.1 > 0 ==> r.0 == self.start_pos(),
            r.1 == 0 ==> r.0 == 0,
            r.1 > 0 <==> self@.len() > 0,
            r.1 <= self@.len(),
            r.0 + r.1 <= RINGBUF_SIZE,
    {
        proof {
            self.lemma_layout();
        }
        if self.empty {
            return (0, 0);
        }
        let n = if self.end <= self.start {
            RINGBUF_SIZE - self.start
        } else {
            self.end - self.start
        };
        (self.start, n)
    }

    /// Reads the byte at storage index `pos` of the filled region.
    pub fn read(&self, pos: usize) -> (r: u8)
        requires
            self.wf(),
            self.start_pos() <= pos < self.start_pos() + self.pop_len(),
        ensures
            r == self@[pos - self.start_pos()],
    {
        proof {
            self.lemma_layout();
            assert(self.slot(pos - self.start) == pos);
        }
        self.buf[pos]
    }

    /// Drops the `n` oldest bytes, which must lie in the filled region.
    pub fn pop(&mut self, n: usize)
        requires
            old(self).wf(),
            n <= old(self).pop_len(),
        ensures
            final(self).wf(),
            final(self)@ == old(self)@.skip(n as int),
            old(self)@ == old(self)@.take(n as int) + final(self)@,
            final(self)@.len() == old(self)@.len() - n,
            final(self).start_pos() == (old(self).start_pos() + n) % (RINGBUF_SIZE as int),
            final(self).end_pos() == old(self).end_pos(),
            old(self).pop_len() <= old(self)@.len(),
            final(self).push_len() >= old(self).push_len(),
            final(self).pending().take(old(self).push_len() as int) == old(self).pending(),
            n == 0 ==> *final(self) == *old(self),
    {
        proof {
            self.lemma_layout();
        }
        if n == 0 {
            assert(self@ =~= old(self)@.skip(0));
            assert(self@ =~= old(self)@.take(0) + self@);
            return;
        }
        self.start = Self::wrap(self.start + n);
        self.empty = self.start == self.end;
        proof {
            let o = *old(self);
            assert(self.buf@ == o.buf@);
            assert(self@.len() == o@.len() - n);
            assert forall|k: int| 0 <= k < self@.len() implies #[trigger] self@[k] == o@.skip(
                n as int,
            )[k] by {
                assert(self.slot(k) == o.slot(k + n));
            }
            assert(self@ =~= o@.skip(n as int));
            assert(o@ =~= o@.take(n as int) + self@);
            assert(self.pending().take(o.push_len() as int) =~= o.pending());
        }
    }

    /// Copies as many leading bytes of `data` as fit in the contiguous free
    /// region into it and pushes them; returns how many were taken.
    pub fn push_slice(&mut self, data: &[u8]) -> (n: usize)
        requires
            old(self).wf(),
        ensures
            final(self).wf(),
            n == vstd::math::min(old(self).push_len() as int, data@.len() as int),
            final(self)@ == old(self)@ + data@.take(n as int),
            final(self).start_pos() == old(self).start_pos(),
            final(self).end_pos() == (old(self).end_pos() + n) % (RINGBUF_SIZE as int),
            final(self).pop_len() >= old(self).pop_len(),
    {
        let (pos, room) = self.push_buf();
        let n = if room < data.len() {
            room
        } else {
            data.len()
        };
        let mut i: usize = 0;
        while i < n
            invariant
                self.wf(),
                0 <= i <= n,
                n <= room,
                room == old(self).push_len(),
                n <= data@.len(),
                room > 0 ==> pos == old(self).end_pos(),
                self@ == old(self)@,
                self.end_pos() == old(self).end_pos(),
                self.start_pos() == old(self).start_pos(),
                self.push_len() == old(self).push_len(),
                self.pop_len() == old(self).pop_len(),
                self.pending().take(i as int) == data@.take(i as int),
            decreases n - i,
        {
            let ghost before = self.pending();
            self.write(pos + i, data[i]);
            proof {
                assert(self.pending() == before.update(i as int, data@[i as int]));
                assert(self.pending().take(i + 1) =~= data@.take(i + 1));
            }
            i = i + 1;
        }
        self.push(n);
        n
    }

    /// A copy of the contiguous filled region, oldest byte first.
    pub fn filled(&self) -> (r: Vec<u8>)
        requires
            self.wf(),
        ensures
            r@ == self@.take(self.pop_len() as int),
            r@.len() == self.pop_len(),
            self.pop_len() <= self@.len(),
            self.pop_len() > 0 <==> self@.len() > 0,
    {
        proof {
            self.lemma_layout();
        }
        let (pos, n) = self.pop_buf();
        let mut out: Vec<u8> = Vec::new();
        let mut i: usize = 0;
        while i < n
            invariant
                self.wf(),
                0 <= i <= n,
                n == self.pop_len(),
                n > 0 ==> pos == self.start_pos(),
                pos + n <= RINGBUF_SIZE,
                n <= self@.len(),
                out@ == self@.take(i as int),
            decreases n - i,
        {
            let b = self.read(pos + i);
            out.push(b);
            proof {
                assert(out@ =~= self@.take(i + 1));
            }
            i = i + 1;
        }
        out
    }

    /// Folds the one-past-the-end storage index back to 0.
    pub fn wrap(n: usize) -> (r: usize)
        requires
            n <= RINGBUF_SIZE,
        ensures
            r == if n == RINGBUF_SIZE {
                0
            } else {
                n
            },
    {
        if n == RINGBUF_SIZE {
            0
        } else {
            n
        }
    }
}

/// The bytes a run of steps pushed, in order. A step is `(true, bytes)`
/// for a push of `bytes` and `(false, bytes)` for a pop that took `bytes`.
pub open spec fn pushed_bytes(steps: Seq<(bool, Seq<u8>)>) -> Seq<u8>
    decreases steps.len(),
{
    if steps.len() == 0 {
        Seq::empty()
    } else if steps.last().0 {
        pushed_bytes(steps.drop_last()) + steps.last().1
    } else {
        pushed_bytes(steps.drop_last())
    }
}

/// The bytes a run of steps popped, in order.
pub open spec fn popped_bytes(steps: Seq<(bool, Seq<u8>)>) -> Seq<u8>
    decreases steps.len(),
{
    if steps.len() == 0 {
        Seq::empty()
    } else if steps.last().0 {
        popped_bytes(steps.drop_last())
    } else {
        popped_bytes(steps.drop_last()) + steps.last().1
    }
}

/// `contents` are the views of a ring buffer before and after each of
/// `steps`, starting from an empty buffer: a push appends its bytes (as
/// `push` and `push_slice` do), a pop removes its bytes from the front (as
/// `pop` does, taking the bytes `filled` or `read` showed).
pub open spec fn is_run(contents: Seq<Seq<u8>>, steps: Seq<(bool, Seq<u8>)>) -> bool {
    &&& contents.len() == steps.len() + 1
    &&& contents[0] == Seq::<u8>::empty()
    &&& forall|i: int|
        0 <= i < steps.len() ==> if (#[trigger] steps[i]).0 {
            contents[i + 1] == contents[i] + steps[i].1
        } else {
            contents[i] == steps[i].1 + contents[i + 1]
        }
}

/// The ring buffer is a FIFO queue of bytes: over any run of pushes and
/// pops from an empty buffer, the bytes pushed are the bytes popped
/// followed by the bytes still held, so nothing is lost, reordered or
/// duplicated, and what was popped is a prefix of what was pushed.
pub proof fn lemma_fifo_run(contents: Seq<Seq<u8>>, steps: Seq<(bool, Seq<u8>)>)
    requires
        is_run(contents, steps),
    ensures
        pushed_bytes(steps) == popped_bytes(steps) + contents.last(),
        popped_bytes(steps).is_prefix_of(pushed_bytes(steps)),
        contents.last().len() == pushed_bytes(steps).len() - popped_bytes(steps).len(),
    decreases steps.len(),
{
    let n = steps.len() as int;
    if n == 0 {
        assert(pushed_bytes(steps) =~= popped_bytes(steps) + contents.last());
    } else {
        let ps = steps.drop_last();
        let cs = contents.drop_last();
        assert(is_run(cs, ps)) by {
            assert forall|i: int| 0 <= i < ps.len() implies if (#[trigger] ps[i]).0 {
                cs[i + 1] == cs[i] + ps[i].1
            } else {
                cs[i] == ps[i].1 + cs[i + 1]
            } by {
                assert(ps[i] == steps[i]);
            }
        }
        lemma_fifo_run(cs, ps);
        assert(cs.last() == contents[n - 1]);
        let st = steps[n - 1];
        assert(steps.last() == st);
        if st.0 {
            assert(pushed_bytes(steps) =~= popped_bytes(steps) + contents.last());
        } else {
            assert(pushed_bytes(steps) =~= popped_bytes(steps) + contents.last());
        }
    }
    assert(pushed_bytes(steps).subrange(0, popped_bytes(steps).len() as int) =~= popped_bytes(
        steps,
    ));
}

} // verus!
