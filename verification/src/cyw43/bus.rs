//! Register accesses over the gSPI bus, as the bytes each transaction sends
//! and the bytes it reads back, and the driver's backplane window state.
use vstd::prelude::*;
use vstd::bytes::*;
use crate::cyw43::bits::{cmd_word, spec_cmd_word, spec_swap16, swap16};
use crate::cyw43::consts::{
    BACKPLANE_ADDRESS_32BIT_FLAG, BACKPLANE_ADDRESS_MASK, FUNC_BACKPLANE, FUNC_BUS,
    REG_BACKPLANE_BACKPLANE_ADDRESS_HIGH, REG_BACKPLANE_BACKPLANE_ADDRESS_LOW,
    REG_BACKPLANE_BACKPLANE_ADDRESS_MID,
};
use crate::cyw43::headers::le32;

verus! {

/// One chip-select-framed bus transaction: `write` is clocked out, then
/// `read_len` bytes are clocked in.
pub struct SpiOp {
    pub write: Vec<u8>,
    pub read_len: usize,
}

/// Bytes clocked in after a read command: the function-1 (backplane) reads
/// are preceded by a 4-byte response delay.
pub open spec fn spec_read_len(func: u32) -> usize {
    if func == FUNC_BACKPLANE {
        8
    } else {
        4
    }
}

/// The transaction that reads `len` bytes of register `addr` of function `func`.
pub fn readn_op(func: u32, addr: u32, len: u32) -> (r: SpiOp)
    ensures
        r.write@ == le32(spec_cmd_word(false, true, func, addr, len)),
        r.read_len == spec_read_len(func),
{
    let cmd = cmd_word(false, true, func, addr, len);
    let read_len: usize = if func == FUNC_BACKPLANE {
        8
    } else {
        4
    };
    SpiOp { write: u32_to_le_bytes(cmd), read_len }
}

/// The register value carried by the response to a read: its last four
/// bytes, little-endian.
pub fn readn_value(resp: &[u8]) -> (r: u32)
    requires
        resp@.len() >= 4,
    ensures
        le32(r) == resp@.subrange(resp@.len() - 4, resp@.len() as int),
{
    proof {
        lemma_auto_spec_u32_to_from_le_bytes();
    }
    let n = resp.len();
    let s = vstd::slice::slice_subrange(resp, n - 4, n);
    u32_from_le_bytes(s)
}

/// The transaction that writes the `len` low bytes of `val` to register
/// `addr` of function `func`.
pub fn writen_op(func: u32, addr: u32, val: u32, len: u32) -> (r: SpiOp)
    ensures
        r.write@ == le32(spec_cmd_word(true, true, func, addr, len)) + le32(val),
        r.read_len == 0,
{
    let cmd = cmd_word(true, true, func, addr, len);
    let mut w = u32_to_le_bytes(cmd);
    let mut v = u32_to_le_bytes(val);
    w.append(&mut v);
    SpiOp { write: w, read_len: 0 }
}

/// The transaction that reads a 32-bit bus register before the bus is in
/// 32-bit mode, with each 16-bit half of the command byte-swapped.
pub fn read32_swapped_op(addr: u32) -> (r: SpiOp)
    ensures
        r.write@ == le32(spec_swap16(spec_cmd_word(false, true, FUNC_BUS, addr, 4))),
        r.read_len == 4,
{
    let cmd = cmd_word(false, true, FUNC_BUS, addr, 4);
    SpiOp { write: u32_to_le_bytes(swap16(cmd)), read_len: 4 }
}

/// The register value carried by the response to a swapped read.
pub fn read32_swapped_value(resp: &[u8]) -> (r: u32)
    requires
        resp@.len() == 4,
    ensures
        le32(spec_swap16(r)) == resp@,
{
    proof {
        lemma_auto_spec_u32_to_from_le_bytes();
        crate::cyw43::bits::lemma_swap16_involution(spec_u32_from_le_bytes(resp@));
    }
    let v = u32_from_le_bytes(resp);
    assert(resp@.subrange(0, 4) =~= resp@);
    swap16(v)
}

/// The transaction that writes a 32-bit bus register before the bus is in
/// 32-bit mode: command and value are both byte-swapped.
pub fn write32_swapped_op(addr: u32, val: u32) -> (r: SpiOp)
    ensures
        r.write@ == le32(spec_swap16(spec_cmd_word(true, true, FUNC_BUS, addr, 4))) + le32(
            spec_swap16(val),
        ),
        r.read_len == 0,
{
    let cmd = cmd_word(true, true, FUNC_BUS, addr, 4);
    let mut w = u32_to_le_bytes(swap16(cmd));
    let mut v = u32_to_le_bytes(swap16(val));
    w.append(&mut v);
    SpiOp { write: w, read_len: 0 }
}

/// Address of a backplane register on the bus: its offset in the current
/// window, flagged when the access is 32 bits wide.
pub open spec fn spec_bus_addr(addr: u32, len: u32) -> u32 {
    (addr & BACKPLANE_ADDRESS_MASK) | (if len == 4 {
        BACKPLANE_ADDRESS_32BIT_FLAG
    } else {
        0
    })
}

/// The window (high bits) of a backplane address.
pub open spec fn spec_window_of(addr: u32) -> u32 {
    addr & !BACKPLANE_ADDRESS_MASK
}

/// The window register writes, as (register, value) pairs in order
/// high, mid, low, that move the chip from window `old` to window `new`:
/// one for each of the three window bytes that differs.
pub open spec fn spec_window_writes(old: u32, new: u32) -> Seq<(u32, u8)> {
    (if (new >> 24u32) as u8 != (old >> 24u32) as u8 {
        seq![(REG_BACKPLANE_BACKPLANE_ADDRESS_HIGH, (new >> 24u32) as u8)]
    } else {
        Seq::empty()
    }) + (if (new >> 16u32) as u8 != (old >> 16u32) as u8 {
        seq![(REG_BACKPLANE_BACKPLANE_ADDRESS_MID, (new >> 16u32) as u8)]
    } else {
        Seq::empty()
    }) + (if (new >> 8u32) as u8 != (old >> 8u32) as u8 {
        seq![(REG_BACKPLANE_BACKPLANE_ADDRESS_LOW, (new >> 8u32) as u8)]
    } else {
        Seq::empty()
    })
}

/// The chip's three window registers (high, mid, low) after `writes`.
pub open spec fn spec_apply_window_writes(regs: (u8, u8, u8), writes: Seq<(u32, u8)>) -> (
    u8,
    u8,
    u8,
)
    decreases writes.len(),
{
    if writes.len() == 0 {
        regs
    } else {
        let (reg, val) = writes[0];
        let next = if reg == REG_BACKPLANE_BACKPLANE_ADDRESS_HIGH {
            (val, regs.1, regs.2)
        } else if reg == REG_BACKPLANE_BACKPLANE_ADDRESS_MID {
            (regs.0, val, regs.2)
        } else if reg == REG_BACKPLANE_BACKPLANE_ADDRESS_LOW {
            (regs.0, regs.1, val)
        } else {
            regs
        };
        spec_apply_window_writes(next, writes.subrange(1, writes.len() as int))
    }
}

/// The window registers of a chip whose window is `w`.
pub open spec fn spec_window_regs(w: u32) -> (u8, u8, u8) {
    ((w >> 24u32) as u8, (w >> 16u32) as u8, (w >> 8u32) as u8)
}

/// Performing the window writes planned from the cached window `old` on a
/// chip whose registers hold `old` leaves them holding `new`.
pub proof fn lemma_window_writes_sync(old: u32, new: u32)
    ensures
        spec_apply_window_writes(spec_window_regs(old), spec_window_writes(old, new))
            == spec_window_regs(new),
{
    let w = spec_window_writes(old, new);
    reveal_with_fuel(spec_apply_window_writes, 4);
    let h: Seq<(u32, u8)> = if (new >> 24u32) as u8 != (old >> 24u32) as u8 {
        seq![(REG_BACKPLANE_BACKPLANE_ADDRESS_HIGH, (new >> 24u32) as u8)]
    } else {
        Seq::empty()
    };
    let m: Seq<(u32, u8)> = if (new >> 16u32) as u8 != (old >> 16u32) as u8 {
        seq![(REG_BACKPLANE_BACKPLANE_ADDRESS_MID, (new >> 16u32) as u8)]
    } else {
        Seq::empty()
    };
    let l: Seq<(u32, u8)> = if (new >> 8u32) as u8 != (old >> 8u32) as u8 {
        seq![(REG_BACKPLANE_BACKPLANE_ADDRESS_LOW, (new >> 8u32) as u8)]
    } else {
        Seq::empty()
    };
    assert(w == h + m + l);
    let r0 = spec_window_regs(old);
    let r1 = if h.len() == 1 {
        ((new >> 24u32) as u8, r0.1, r0.2)
    } else {
        r0
    };
    let r2 = if m.len() == 1 {
        (r1.0, (new >> 16u32) as u8, r1.2)
    } else {
        r1
    };
    let r3 = if l.len() == 1 {
        (r2.0, r2.1, (new >> 8u32) as u8)
    } else {
        r2
    };
    assert(spec_apply_window_writes(r0, h + m + l) == spec_apply_window_writes(r1, m + l)) by {
        if h.len() == 1 {
            assert((h + m + l).subrange(1, (h + m + l).len() as int) =~= m + l);
        } else {
            assert(h + m + l =~= m + l);
        }
    }
    assert(spec_apply_window_writes(r1, m + l) == spec_apply_window_writes(r2, l)) by {
        if m.len() == 1 {
            assert((m + l).subrange(1, (m + l).len() as int) =~= l);
        } else {
            assert(m + l =~= l);
        }
    }
    assert(spec_apply_window_writes(r2, l) == r3) by {
        if l.len() == 1 {
            assert(l.subrange(1, 1) =~= Seq::<(u32, u8)>::empty());
        }
    }
}

/// The driver's record of the chip state it relies on.
pub struct Driver {
    backplane_window: u32,
}

impl Driver {
    /// The backplane window the chip is believed to be set to.
    pub closed spec fn window(&self) -> u32 {
        self.backplane_window
    }

    /// A driver that knows nothing of the chip's window yet: the recorded
    /// window matches no real window, so the first access sets all three
    /// window registers.
    pub fn new() -> (r: Self)
        ensures
            r.window() == 0xAAAA_AAAAu32,
    {
        Driver { backplane_window: 0xAAAA_AAAA }
    }

    /// Moves the window to the one holding `addr`: returns the window
    /// register writes needed (each to be done as a one-byte function-1 write).
    pub fn backplane_set_window(&mut self, addr: u32) -> (r: Vec<(u32, u8)>)
        ensures
            final(self).window() == spec_window_of(addr),
            r@ == spec_window_writes(old(self).window(), spec_window_of(addr)),
    {
        let new_window = addr & !BACKPLANE_ADDRESS_MASK;
        let old_window = self.backplane_window;
        let mut writes: Vec<(u32, u8)> = Vec::new();
        if (new_window >> 24u32) as u8 != (old_window >> 24u32) as u8 {
            writes.push((REG_BACKPLANE_BACKPLANE_ADDRESS_HIGH, (new_window >> 24u32) as u8));
        }
        if (new_window >> 16u32) as u8 != (old_window >> 16u32) as u8 {
            writes.push((REG_BACKPLANE_BACKPLANE_ADDRESS_MID, (new_window >> 16u32) as u8));
        }
        if (new_window >> 8u32) as u8 != (old_window >> 8u32) as u8 {
            writes.push((REG_BACKPLANE_BACKPLANE_ADDRESS_LOW, (new_window >> 8u32) as u8));
        }
        self.backplane_window = new_window;
        assert(writes@ =~= spec_window_writes(old_window, new_window));
        writes
    }

    /// A backplane register read of `len` bytes at `addr`: the window writes
    /// to do first, then the read transaction.
    pub fn backplane_readn(&mut self, addr: u32, len: u32) -> (r: (Vec<(u32, u8)>, SpiOp))
        ensures
            final(self).window() == spec_window_of(addr),
            r.0@ == spec_window_writes(old(self).window(), spec_window_of(addr)),
            r.1.write@ == le32(
                spec_cmd_word(false, true, FUNC_BACKPLANE, spec_bus_addr(addr, len), len),
            ),
            r.1.read_len == 8,
    {
        let writes = self.backplane_set_window(addr);
        let mut bus_addr = addr & BACKPLANE_ADDRESS_MASK;
        if len == 4 {
            bus_addr = bus_addr | BACKPLANE_ADDRESS_32BIT_FLAG;
        }
        assert(bus_addr == spec_bus_addr(addr, len)) by {
            if len != 4 {
                let a = addr & BACKPLANE_ADDRESS_MASK;
                assert(a | 0 == a) by (bit_vector);
            }
        }
        (writes, readn_op(FUNC_BACKPLANE, bus_addr, len))
    }

    /// A backplane register write of the `len` low bytes of `val` at
    /// `addr`: the window writes to do first, then the write transaction.
    pub fn backplane_writen(&mut self, addr: u32, val: u32, len: u32) -> (r: (
        Vec<(u32, u8)>,
        SpiOp,
    ))
        ensures
            final(self).window() == spec_window_of(addr),
            r.0@ == spec_window_writes(old(self).window(), spec_window_of(addr)),
            r.1.write@ == le32(
                spec_cmd_word(true, true, FUNC_BACKPLANE, spec_bus_addr(addr, len), len),
            ) + le32(val),
            r.1.read_len == 0,
    {
        let writes = self.backplane_set_window(addr);
        let mut bus_addr = addr & BACKPLANE_ADDRESS_MASK;
        if len == 4 {
            bus_addr = bus_addr | BACKPLANE_ADDRESS_32BIT_FLAG;
        }
        assert(bus_addr == spec_bus_addr(addr, len)) by {
            if len != 4 {
                let a = addr & BACKPLANE_ADDRESS_MASK;
                assert(a | 0 == a) by (bit_vector);
            }
        }
        (writes, writen_op(FUNC_BACKPLANE, bus_addr, val, len))
    }
}

/// Asking twice for the same window issues no writes the second time.
pub proof fn lemma_window_writes_idempotent(d: Driver, addr: u32)
    requires
        d.window() == spec_window_of(addr),
    ensures
        spec_window_writes(d.window(), spec_window_of(addr)) == Seq::<(u32, u8)>::empty(),
{
    assert(spec_window_writes(d.window(), spec_window_of(addr)) =~= Seq::<(u32, u8)>::empty());
}

/// The bus address of a backplane register access is the address's offset
/// in its 32 KiB window, with the 32-bit flag (0x8000) set exactly for
/// 4-byte accesses; 1- and 2-byte accesses address the offset alone.
pub proof fn lemma_bus_addr_is_window_offset(addr: u32, len: u32)
    ensures
        len == 4 ==> spec_bus_addr(addr, len) == addr % 0x8000 + 0x8000,
        len != 4 ==> spec_bus_addr(addr, len) == addr % 0x8000,
        (spec_bus_addr(addr, len) >= 0x8000) == (len == 4),
{
    assert((addr & 0x7FFFu32) | 0x8000u32 == addr % 0x8000 + 0x8000) by (bit_vector);
    assert((addr & 0x7FFFu32) | 0u32 == addr % 0x8000) by (bit_vector);
}

} // verus!
