//! Splitting backplane memory transfers into bus transactions that never
//! exceed the transfer limit and never cross a backplane window boundary.
use vstd::prelude::*;
use vstd::bytes::*;
use crate::cyw43::bits::{cmd_word, spec_cmd_word};
use crate::cyw43::bus::{spec_window_of, spec_window_writes, Driver, SpiOp};
use crate::cyw43::consts::{
    BACKPLANE_ADDRESS_MASK, BACKPLANE_MAX_TRANSFER_SIZE, BACKPLANE_WINDOW_SIZE, FUNC_BACKPLANE,
};
use crate::cyw43::headers::le32;

verus! {

/// One transaction of a backplane transfer: `len` bytes at backplane
/// address `addr`, which are bytes `offset..offset + len` of the data.
#[derive(Clone, Copy, Debug, PartialEq, Eq, Structural)]
pub struct Chunk {
    pub addr: u32,
    pub offset: usize,
    pub len: usize,
}

/// Length of the transaction at `addr` with `remaining` bytes left: as much
/// as fits under the transfer limit and before the end of the window.
pub open spec fn spec_chunk_len(addr: int, remaining: int) -> int {
    vstd::math::min(
        vstd::math::min(remaining, BACKPLANE_MAX_TRANSFER_SIZE as int),
        BACKPLANE_WINDOW_SIZE - addr % (BACKPLANE_WINDOW_SIZE as int),
    )
}

/// The transactions of a transfer of `remaining` bytes starting at backplane
/// address `addr` and data offset `offset`.
pub open spec fn spec_plan(addr: int, offset: int, remaining: int) -> Seq<Chunk>
    decreases remaining,
{
    if remaining <= 0 {
        Seq::empty()
    } else {
        let l = spec_chunk_len(addr, remaining);
        if l <= 0 {
            Seq::empty()
        } else {
            seq![Chunk { addr: addr as u32, offset: offset as usize, len: l as usize }] + spec_plan(
                addr + l,
                offset + l,
                remaining - l,
            )
        }
    }
}

proof fn lemma_mask_is_mod(addr: u32)
    ensures
        addr & BACKPLANE_ADDRESS_MASK == addr % 0x8000,
{
    assert(addr & 0x7FFFu32 == addr % 0x8000) by (bit_vector);
}

/// Splits a transfer of `len` bytes at backplane address `addr`. The address
/// must be 4-byte aligned, and the transfer must not run past the end of the
/// 32-bit address space.
pub fn plan_chunks(addr: u32, len: usize) -> (r: Vec<Chunk>)
    requires
        addr % 4 == 0,
        addr + len <= u32::MAX,
    ensures
        r@ == spec_plan(addr as int, 0, len as int),
{
    let mut out: Vec<Chunk> = Vec::new();
    let mut a = addr;
    let mut offset: usize = 0;
    let mut remaining = len;
    while remaining > 0
        invariant
            a as int == addr + offset,
            offset + remaining == len,
            addr + len <= u32::MAX,
            out@ + spec_plan(a as int, offset as int, remaining as int) == spec_plan(
                addr as int,
                0,
                len as int,
            ),
        decreases remaining,
    {
        proof {
            lemma_mask_is_mod(a);
        }
        let window_offs = a & BACKPLANE_ADDRESS_MASK;
        let window_remaining = BACKPLANE_WINDOW_SIZE - window_offs as usize;
        let mut n = if remaining < BACKPLANE_MAX_TRANSFER_SIZE {
            remaining
        } else {
            BACKPLANE_MAX_TRANSFER_SIZE
        };
        if window_remaining < n {
            n = window_remaining;
        }
        let ghost rest = spec_plan(a as int + n, offset as int + n, remaining as int - n);
        assert(spec_plan(a as int, offset as int, remaining as int) == seq![
            Chunk { addr: a, offset, len: n },
        ] + rest);
        out.push(Chunk { addr: a, offset, len: n });
        assert(out@ + rest =~= spec_plan(addr as int, 0, len as int));
        a = a + n as u32;
        offset = offset + n;
        remaining = remaining - n;
    }
    assert(out@ =~= out@ + spec_plan(a as int, offset as int, remaining as int));
    out
}

/// The transactions of a transfer are contiguous, cover the data exactly,
/// stay under the transfer limit and never cross a window boundary.
pub proof fn lemma_plan_shape(addr: int, offset: int, remaining: int)
    requires
        addr >= 0,
        offset >= 0,
        remaining >= 0,
        addr + remaining <= u32::MAX,
        offset + remaining <= usize::MAX,
    ensures
        ({
            let p = spec_plan(addr, offset, remaining);
            &&& remaining > 0 ==> p.len() > 0 && p[0].offset == offset && p[0].addr == addr as u32
            &&& remaining == 0 ==> p.len() == 0
            &&& forall|i: int|
                0 <= i < p.len() ==> {
                    &&& 0 < #[trigger] p[i].len <= BACKPLANE_MAX_TRANSFER_SIZE
                    &&& (p[i].addr as int) % (BACKPLANE_WINDOW_SIZE as int) + p[i].len
                        <= BACKPLANE_WINDOW_SIZE
                    &&& p[i].addr as int - addr == p[i].offset - offset
                    &&& offset <= p[i].offset
                    &&& p[i].offset + p[i].len <= offset + remaining
                }
            &&& forall|i: int|
                0 < i < p.len() ==> #[trigger] p[i].offset == p[i - 1].offset + p[i - 1].len
            &&& p.len() > 0 ==> p[p.len() - 1].offset + p[p.len() - 1].len == offset + remaining
        }),
    decreases remaining,
{
    let p = spec_plan(addr, offset, remaining);
    if remaining > 0 {
        let l = spec_chunk_len(addr, remaining);
        assert(0 < l <= remaining);
        let c0 = Chunk { addr: addr as u32, offset: offset as usize, len: l as usize };
        let rest = spec_plan(addr + l, offset + l, remaining - l);
        lemma_plan_shape(addr + l, offset + l, remaining - l);
        assert(p == seq![c0] + rest);
        assert(p[0] == c0);
        assert(c0.addr as int == addr && c0.offset as int == offset && c0.len as int == l);
        assert forall|i: int| 0 < i < p.len() implies #[trigger] p[i].offset == p[i - 1].offset
            + p[i - 1].len by {
            assert(p[i] == rest[i - 1]);
            if i > 1 {
                assert(p[i - 1] == rest[i - 2]);
            } else {
                assert(remaining - l > 0);
            }
        }
        assert forall|i: int| 0 <= i < p.len() implies {
            &&& 0 < #[trigger] p[i].len <= BACKPLANE_MAX_TRANSFER_SIZE
            &&& (p[i].addr as int) % (BACKPLANE_WINDOW_SIZE as int) + p[i].len
                <= BACKPLANE_WINDOW_SIZE
            &&& p[i].addr as int - addr == p[i].offset - offset
            &&& offset <= p[i].offset
            &&& p[i].offset + p[i].len <= offset + remaining
        } by {
            if i > 0 {
                assert(p[i] == rest[i - 1]);
            }
        }
    }
}

/// Every byte of a transfer is carried by exactly one of its transactions:
/// the one returned, whose address for that byte is the byte's own address.
pub proof fn lemma_plan_covers(addr: int, offset: int, remaining: int, k: int) -> (i: int)
    requires
        addr >= 0,
        offset >= 0,
        addr + remaining <= u32::MAX,
        offset + remaining <= usize::MAX,
        offset <= k < offset + remaining,
    ensures
        ({
            let p = spec_plan(addr, offset, remaining);
            &&& 0 <= i < p.len()
            &&& p[i].offset <= k < p[i].offset + p[i].len
            &&& p[i].addr + (k - p[i].offset) == addr + (k - offset)
            &&& forall|j: int|
                0 <= j < p.len() && j != i ==> !(#[trigger] p[j].offset <= k < p[j].offset
                    + p[j].len)
        }),
    decreases remaining,
{
    let p = spec_plan(addr, offset, remaining);
    lemma_plan_shape(addr, offset, remaining);
    let l = spec_chunk_len(addr, remaining);
    let c0 = Chunk { addr: addr as u32, offset: offset as usize, len: l as usize };
    let rest = spec_plan(addr + l, offset + l, remaining - l);
    assert(p == seq![c0] + rest);
    lemma_plan_shape(addr + l, offset + l, remaining - l);
    if k < offset + l {
        assert forall|j: int| 0 <= j < p.len() && j != 0 implies !(#[trigger] p[j].offset <= k
            < p[j].offset + p[j].len) by {
            assert(p[j] == rest[j - 1]);
        }
        0
    } else {
        let i0 = lemma_plan_covers(addr + l, offset + l, remaining - l, k);
        assert(p[i0 + 1] == rest[i0]);
        assert forall|j: int| 0 <= j < p.len() && j != i0 + 1 implies !(#[trigger] p[j].offset
            <= k < p[j].offset + p[j].len) by {
            if j > 0 {
                assert(p[j] == rest[j - 1]);
            }
        }
        i0 + 1
    }
}

/// Number of zero bytes that pad a transfer of `len` bytes to a multiple of
/// four.
pub open spec fn spec_pad_len(len: int) -> int {
    if len % 4 != 0 {
        4 - len % 4
    } else {
        0
    }
}

/// Number of padding bytes after a transfer of `len` bytes.
pub fn pad_len(len: usize) -> (r: usize)
    ensures
        r == spec_pad_len(len as int),
        r < 4,
        (len + r) % 4 == 0,
{
    if len % 4 != 0 {
        4 - len % 4
    } else {
        0
    }
}

/// The transaction that writes `data` (one chunk) to backplane address
/// `addr`: command, data, then zero padding to a 4-byte boundary.
pub fn bp_write_op(addr: u32, data: &[u8]) -> (r: SpiOp)
    requires
        data@.len() <= BACKPLANE_MAX_TRANSFER_SIZE,
    ensures
        r.write@ == le32(
            spec_cmd_word(true, true, FUNC_BACKPLANE, addr & BACKPLANE_ADDRESS_MASK, data@.len() as u32),
        ) + data@ + Seq::new(spec_pad_len(data@.len() as int) as nat, |i: int| 0u8),
        r.read_len == 0,
{
    let len = data.len();
    let cmd = cmd_word(true, true, FUNC_BACKPLANE, addr & BACKPLANE_ADDRESS_MASK, len as u32);
    let mut w = u32_to_le_bytes(cmd);
    let ghost head = w@;
    let mut i: usize = 0;
    while i < len
        invariant
            0 <= i <= len,
            len == data@.len(),
            w@ == head + data@.take(i as int),
        decreases len - i,
    {
        w.push(data[i]);
        assert(w@ =~= head + data@.take(i + 1));
        i = i + 1;
    }
    let pad = pad_len(len);
    let mut k: usize = 0;
    while k < pad
        invariant
            0 <= k <= pad,
            pad < 4,
            len == data@.len(),
            w@ == head + data@ + Seq::new(k as nat, |i: int| 0u8),
        decreases pad - k,
    {
        w.push(0u8);
        assert(w@ =~= head + data@ + Seq::new((k + 1) as nat, |i: int| 0u8));
        k = k + 1;
    }
    assert(data@.take(len as int) =~= data@);
    SpiOp { write: w, read_len: 0 }
}

/// The transaction that reads `len` bytes (one chunk) at backplane address
/// `addr`: the 4-byte response delay, the data, then padding to a 4-byte
/// boundary are clocked in.
pub fn bp_read_op(addr: u32, len: usize) -> (r: SpiOp)
    requires
        len <= BACKPLANE_MAX_TRANSFER_SIZE,
    ensures
        r.write@ == le32(
            spec_cmd_word(false, true, FUNC_BACKPLANE, addr & BACKPLANE_ADDRESS_MASK, len as u32),
        ),
        r.read_len == 4 + len + spec_pad_len(len as int),
{
    let cmd = cmd_word(false, true, FUNC_BACKPLANE, addr & BACKPLANE_ADDRESS_MASK, len as u32);
    SpiOp { write: u32_to_le_bytes(cmd), read_len: 4 + len + pad_len(len) }
}

/// The data carried by the response to a chunk read of `len` bytes: the
/// bytes after the response delay.
pub fn bp_read_payload(resp: &[u8], len: usize) -> (r: Vec<u8>)
    requires
        4 + len <= resp@.len(),
    ensures
        r@ == resp@.subrange(4, 4 + len),
{
    let _n = resp.len();
    let s = vstd::slice::slice_subrange(resp, 4, 4 + len);
    vstd::slice::slice_to_vec(s)
}

/// One transaction of a backplane transfer, with the window register writes
/// that must precede it.
pub struct BpTransfer {
    pub window: Vec<(u32, u8)>,
    pub op: SpiOp,
    pub chunk: Chunk,
}

/// The window the driver records before transaction `i` of `plan`.
pub open spec fn spec_window_before(start: u32, plan: Seq<Chunk>, i: int) -> u32 {
    if i == 0 {
        start
    } else {
        spec_window_of(plan[i - 1].addr)
    }
}

/// `n` zero bytes.
pub open spec fn zeros(n: int) -> Seq<u8> {
    Seq::new(n as nat, |i: int| 0u8)
}

impl Driver {
    /// The transactions that write `data` to backplane memory at `addr`, each
    /// preceded by the window writes it needs. The address must be 4-byte
    /// aligned.
    pub fn bp_write(&mut self, addr: u32, data: &[u8]) -> (r: Vec<BpTransfer>)
        requires
            addr % 4 == 0,
            addr + data@.len() <= u32::MAX,
        ensures
            ({
                let plan = spec_plan(addr as int, 0, data@.len() as int);
                &&& r@.len() == plan.len()
                &&& forall|i: int|
                    0 <= i < plan.len() ==> {
                        let c = plan[i];
                        &&& (#[trigger] r@[i]).chunk == c
                        &&& r@[i].window@ == spec_window_writes(
                            spec_window_before(old(self).window(), plan, i),
                            spec_window_of(c.addr),
                        )
                        &&& r@[i].op.write@ == le32(
                            spec_cmd_word(
                                true,
                                true,
                                FUNC_BACKPLANE,
                                c.addr & BACKPLANE_ADDRESS_MASK,
                                c.len as u32,
                            ),
                        ) + data@.subrange(c.offset as int, c.offset + c.len) + zeros(
                            spec_pad_len(c.len as int),
                        )
                        &&& r@[i].op.read_len == 0
                    }
                &&& final(self).window() == spec_window_before(
                    old(self).window(),
                    plan,
                    plan.len() as int,
                )
            }),
    {
        let _n = data.len();
        let plan = plan_chunks(addr, data.len());
        proof {
            lemma_plan_shape(addr as int, 0, data@.len() as int);
        }
        let ghost start = self.window();
        let mut out: Vec<BpTransfer> = Vec::new();
        let mut i: usize = 0;
        while i < plan.len()
            invariant
                0 <= i <= plan@.len(),
                plan@ == spec_plan(addr as int, 0, data@.len() as int),
                data@.len() <= usize::MAX,
                forall|j: int|
                    0 <= j < plan@.len() ==> {
                        &&& 0 < #[trigger] plan@[j].len <= BACKPLANE_MAX_TRANSFER_SIZE
                        &&& plan@[j].offset + plan@[j].len <= data@.len()
                    },
                out@.len() == i,
                self.window() == spec_window_before(start, plan@, i as int),
                forall|j: int|
                    0 <= j < i ==> {
                        let c = plan@[j];
                        &&& (#[trigger] out@[j]).chunk == c
                        &&& out@[j].window@ == spec_window_writes(
                            spec_window_before(start, plan@, j),
                            spec_window_of(c.addr),
                        )
                        &&& out@[j].op.write@ == le32(
                            spec_cmd_word(
                                true,
                                true,
                                FUNC_BACKPLANE,
                                c.addr & BACKPLANE_ADDRESS_MASK,
                                c.len as u32,
                            ),
                        ) + data@.subrange(c.offset as int, c.offset + c.len) + zeros(
                            spec_pad_len(c.len as int),
                        )
                        &&& out@[j].op.read_len == 0
                    },
            decreases plan@.len() - i,
        {
            let c = plan[i];
            assert(0 < plan@[i as int].len <= BACKPLANE_MAX_TRANSFER_SIZE);
            let window = self.backplane_set_window(c.addr);
            let piece = vstd::slice::slice_subrange(data, c.offset, c.offset + c.len);
            let op = bp_write_op(c.addr, piece);
            assert(zeros(spec_pad_len(c.len as int)) =~= Seq::new(
                spec_pad_len(piece@.len() as int) as nat,
                |k: int| 0u8,
            ));
            out.push(BpTransfer { window, op, chunk: c });
            i = i + 1;
        }
        out
    }

    /// The transactions that read `len` bytes of backplane memory at `addr`,
    /// each preceded by the window writes it needs. The address must be
    /// 4-byte aligned.
    pub fn bp_read(&mut self, addr: u32, len: usize) -> (r: Vec<BpTransfer>)
        requires
            addr % 4 == 0,
            addr + len <= u32::MAX,
        ensures
            ({
                let plan = spec_plan(addr as int, 0, len as int);
                &&& r@.len() == plan.len()
                &&& forall|i: int|
                    0 <= i < plan.len() ==> {
                        let c = plan[i];
                        &&& (#[trigger] r@[i]).chunk == c
                        &&& r@[i].window@ == spec_window_writes(
                            spec_window_before(old(self).window(), plan, i),
                            spec_window_of(c.addr),
                        )
                        &&& r@[i].op.write@ == le32(
                            spec_cmd_word(
                                false,
                                true,
                                FUNC_BACKPLANE,
                                c.addr & BACKPLANE_ADDRESS_MASK,
                                c.len as u32,
                            ),
                        )
                        &&& r@[i].op.read_len == 4 + c.len + spec_pad_len(c.len as int)
                    }
                &&& final(self).window() == spec_window_before(
                    old(self).window(),
                    plan,
                    plan.len() as int,
                )
            }),
    {
        let plan = plan_chunks(addr, len);
        proof {
            lemma_plan_shape(addr as int, 0, len as int);
        }
        let ghost start = self.window();
        let mut out: Vec<BpTransfer> = Vec::new();
        let mut i: usize = 0;
        while i < plan.len()
            invariant
                0 <= i <= plan@.len(),
                plan@ == spec_plan(addr as int, 0, len as int),
                forall|j: int|
                    0 <= j < plan@.len() ==> 0 < #[trigger] plan@[j].len
                        <= BACKPLANE_MAX_TRANSFER_SIZE,
                out@.len() == i,
                self.window() == spec_window_before(start, plan@, i as int),
                forall|j: int|
                    0 <= j < i ==> {
                        let c = plan@[j];
                        &&& (#[trigger] out@[j]).chunk == c
                        &&& out@[j].window@ == spec_window_writes(
                            spec_window_before(start, plan@, j),
                            spec_window_of(c.addr),
                        )
                        &&& out@[j].op.write@ == le32(
                            spec_cmd_word(
                                false,
                                true,
                                FUNC_BACKPLANE,
                                c.addr & BACKPLANE_ADDRESS_MASK,
                                c.len as u32,
                            ),
                        )
                        &&& out@[j].op.read_len == 4 + c.len + spec_pad_len(c.len as int)
                    },
            decreases plan@.len() - i,
        {
            let c = plan[i];
            assert(0 < plan@[i as int].len <= BACKPLANE_MAX_TRANSFER_SIZE);
            let window = self.backplane_set_window(c.addr);
            let op = bp_read_op(c.addr, c.len);
            out.push(BpTransfer { window, op, chunk: c });
            i = i + 1;
        }
        out
    }
}


/// Number of data bytes the transactions `ts` carry in all.
pub open spec fn total_len(ts: Seq<BpTransfer>) -> int
    decreases ts.len(),
{
    if ts.len() == 0 {
        0
    } else {
        total_len(ts.drop_last()) + ts.last().chunk.len
    }
}

proof fn lemma_total_len_take(ts: Seq<BpTransfer>, i: int)
    requires
        0 <= i < ts.len(),
    ensures
        total_len(ts.take(i + 1)) == total_len(ts.take(i)) + ts[i].chunk.len,
        total_len(ts.take(i)) >= 0,
    decreases i,
{
    assert(ts.take(i + 1).drop_last() =~= ts.take(i));
    if i > 0 {
        lemma_total_len_take(ts, i - 1);
    } else {
        assert(ts.take(0) =~= Seq::<BpTransfer>::empty());
    }
}

/// Joins the data of the responses to the read transactions `transfers`:
/// response `i` answers transaction `i`, and its data follows the 4-byte
/// response delay. The data of transaction `i` lands right after that of
/// the transactions before it.
pub fn bp_read_assemble(transfers: &Vec<BpTransfer>, resps: &Vec<Vec<u8>>) -> (r: Vec<u8>)
    requires
        resps@.len() == transfers@.len(),
        forall|i: int|
            0 <= i < transfers@.len() ==> 4 + (#[trigger] transfers@[i]).chunk.len
                <= resps@[i]@.len(),
    ensures
        r@.len() == total_len(transfers@),
        forall|i: int, j: int|
            0 <= i < transfers@.len() && 0 <= j < (#[trigger] transfers@[i]).chunk.len ==> r@[total_len(
                transfers@.take(i),
            ) + j] == #[trigger] resps@[i]@[4 + j],
{
    let mut out: Vec<u8> = Vec::new();
    let mut i: usize = 0;
    proof {
        assert(transfers@.take(0) =~= Seq::<BpTransfer>::empty());
    }
    while i < transfers.len()
        invariant
            0 <= i <= transfers@.len(),
            resps@.len() == transfers@.len(),
            forall|i: int|
                0 <= i < transfers@.len() ==> 4 + (#[trigger] transfers@[i]).chunk.len
                    <= resps@[i]@.len(),
            out@.len() == total_len(transfers@.take(i as int)),
            forall|m: int, j: int|
                0 <= m < i && 0 <= j < (#[trigger] transfers@[m]).chunk.len ==> out@[total_len(
                    transfers@.take(m),
                ) + j] == #[trigger] resps@[m]@[4 + j],
        decreases transfers@.len() - i,
    {
        proof {
            lemma_total_len_take(transfers@, i as int);
        }
        let len = transfers[i].chunk.len;
        let resp = &resps[i];
        let rlen = resp.len();
        let ghost before = out@;
        let mut j: usize = 0;
        while j < len
            invariant
                0 <= j <= len,
                rlen == resp@.len(),
                len == transfers@[i as int].chunk.len,
                4 + len <= resp@.len(),
                resp == resps@[i as int],
                out@.len() == before.len() + j,
                forall|k: int| 0 <= k < before.len() ==> out@[k] == before[k],
                forall|k: int| 0 <= k < j ==> out@[before.len() + k] == #[trigger] resp@[4 + k],
            decreases len - j,
        {
            out.push(resp[4 + j]);
            j = j + 1;
        }
        proof {
            assert forall|m: int, jj: int|
                0 <= m < i + 1 && 0 <= jj < (#[trigger] transfers@[m]).chunk.len implies out@[total_len(
                    transfers@.take(m),
                ) + jj] == #[trigger] resps@[m]@[4 + jj] by {
                if m < i {
                    lemma_total_len_take(transfers@, m);
                    if m + 1 < i {
                        lemma_total_len_mono(transfers@, m + 1, i as int);
                    }
                    assert(total_len(transfers@.take(m)) + jj < before.len());
                }
            }
        }
        i = i + 1;
    }
    proof {
        assert(transfers@.take(transfers@.len() as int) =~= transfers@);
    }
    out
}

proof fn lemma_total_len_mono(ts: Seq<BpTransfer>, a: int, b: int)
    requires
        0 <= a <= b <= ts.len(),
    ensures
        total_len(ts.take(a)) <= total_len(ts.take(b)),
    decreases b - a,
{
    if a < b {
        lemma_total_len_take(ts, b - 1);
        lemma_total_len_mono(ts, a, b - 1);
    }
}

/// A read gives back the memory it reads: when every response carries, after
/// the response delay, the bytes of `mem` at its transaction's address, the
/// joined data of the transactions of a read of `len` bytes at `addr` is
/// `mem` from `addr` to `addr + len`.
pub proof fn lemma_read_gives_memory(
    addr: u32,
    len: usize,
    transfers: Seq<BpTransfer>,
    resps: Seq<Vec<u8>>,
    data: Seq<u8>,
    mem: Seq<u8>,
)
    requires
        addr + len <= u32::MAX,
        addr + len <= mem.len(),
        transfers.len() == spec_plan(addr as int, 0, len as int).len(),
        forall|i: int|
            0 <= i < transfers.len() ==> (#[trigger] transfers[i]).chunk == spec_plan(
                addr as int,
                0,
                len as int,
            )[i],
        resps.len() == transfers.len(),
        forall|i: int, j: int|
            0 <= i < transfers.len() && 0 <= j < (#[trigger] transfers[i]).chunk.len ==> #[trigger] resps[i]@[4 + j]
                == mem[transfers[i].chunk.addr + j],
        data.len() == total_len(transfers),
        forall|i: int, j: int|
            0 <= i < transfers.len() && 0 <= j < (#[trigger] transfers[i]).chunk.len ==> data[total_len(
                transfers.take(i),
            ) + j] == #[trigger] resps[i]@[4 + j],
    ensures
        data == mem.subrange(addr as int, addr + len),
{
    let plan = spec_plan(addr as int, 0, len as int);
    lemma_plan_shape(addr as int, 0, len as int);
    lemma_offsets_are_totals(transfers, plan, transfers.len() as int);
    if len == 0 {
        assert(transfers.len() == 0);
        assert(data =~= mem.subrange(addr as int, addr + len));
    } else {
        let n = transfers.len() as int;
        assert(n > 0);
        assert(plan[n - 1].offset + plan[n - 1].len == len);
        assert(total_len(transfers.take(n)) == len);
        assert(transfers.take(n) =~= transfers);
        assert(data.len() == len);
        assert forall|k: int| 0 <= k < len implies data[k] == mem[addr + k] by {
            let i = lemma_plan_covers(addr as int, 0, len as int, k);
            lemma_offsets_are_totals(transfers, plan, i);
            let j = k - plan[i].offset;
            assert(transfers[i].chunk == plan[i]);
            assert(0 <= j < transfers[i].chunk.len);
            assert(data[total_len(transfers.take(i)) + j] == resps[i]@[4 + j]);
            assert(resps[i]@[4 + j] == mem[transfers[i].chunk.addr + j]);
        }
        assert(data =~= mem.subrange(addr as int, addr + len));
    }
}

/// For the transactions of a plan, the data before transaction `n` is as
/// long as that transaction's offset says.
proof fn lemma_offsets_are_totals(ts: Seq<BpTransfer>, plan: Seq<Chunk>, n: int)
    requires
        ts.len() == plan.len(),
        0 <= n <= ts.len(),
        forall|i: int| 0 <= i < ts.len() ==> (#[trigger] ts[i]).chunk == plan[i],
        plan.len() > 0 ==> plan[0].offset == 0,
        forall|i: int| 0 < i < plan.len() ==> #[trigger] plan[i].offset == plan[i - 1].offset
            + plan[i - 1].len,
    ensures
        n < ts.len() ==> total_len(ts.take(n)) == plan[n].offset,
        n == ts.len() && n > 0 ==> total_len(ts.take(n)) == plan[n - 1].offset + plan[n - 1].len,
        n == 0 ==> total_len(ts.take(n)) == 0,
    decreases n,
{
    if n == 0 {
        assert(ts.take(0) =~= Seq::<BpTransfer>::empty());
    } else {
        lemma_offsets_are_totals(ts, plan, n - 1);
        lemma_total_len_take(ts, n - 1);
    }
}

} // verus!
