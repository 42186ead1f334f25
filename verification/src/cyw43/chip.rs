//! The CYW43439 chip: its address map, its cores, and the register
//! sequences that take a core in and out of reset.
use vstd::prelude::*;
use crate::cyw43::consts::{
    AI_IOCTRL_BIT_CLOCK_EN, AI_IOCTRL_BIT_FGC, AI_IOCTRL_OFFSET, AI_RESETCTRL_BIT_RESET,
    AI_RESETCTRL_OFFSET,
};

verus! {

/// Offset of a core's wrapper registers from its base.
pub const WRAPPER_REGISTER_OFFSET: u32 = 0x100000;

/// Address map and channel-spec encoding of a chip.
#[derive(Clone, Copy, Debug, PartialEq, Eq, Structural)]
pub struct Chip {
    pub arm_core_base_address: u32,
    pub socsram_base_address: u32,
    pub socsram_wrapper_base_address: u32,
    pub sdiod_core_base_address: u32,
    pub pmu_base_address: u32,
    pub chip_ram_size: u32,
    pub atcm_ram_base_address: u32,
    pub socram_srmem_size: u32,
    pub chanspec_band_mask: u32,
    pub chanspec_band_2g: u32,
    pub chanspec_band_5g: u32,
    pub chanspec_band_shift: u32,
    pub chanspec_bw_10: u32,
    pub chanspec_bw_20: u32,
    pub chanspec_bw_40: u32,
    pub chanspec_bw_mask: u32,
    pub chanspec_bw_shift: u32,
    pub chanspec_ctl_sb_lower: u32,
    pub chanspec_ctl_sb_upper: u32,
    pub chanspec_ctl_sb_none: u32,
    pub chanspec_ctl_sb_mask: u32,
}

/// Data for the CYW43439.
pub open spec fn spec_chip() -> Chip {
    Chip {
        arm_core_base_address: (0x18003000 + WRAPPER_REGISTER_OFFSET) as u32,
        socsram_base_address: 0x18004000,
        socsram_wrapper_base_address: (0x18004000 + WRAPPER_REGISTER_OFFSET) as u32,
        sdiod_core_base_address: 0x18002000,
        pmu_base_address: 0x18000000,
        chip_ram_size: (512 * 1024) as u32,
        atcm_ram_base_address: 0,
        socram_srmem_size: (64 * 1024) as u32,
        chanspec_band_mask: 0xc000,
        chanspec_band_2g: 0x0000,
        chanspec_band_5g: 0xc000,
        chanspec_band_shift: 14,
        chanspec_bw_10: 0x0800,
        chanspec_bw_20: 0x1000,
        chanspec_bw_40: 0x1800,
        chanspec_bw_mask: 0x3800,
        chanspec_bw_shift: 11,
        chanspec_ctl_sb_lower: 0x0000,
        chanspec_ctl_sb_upper: 0x0100,
        chanspec_ctl_sb_none: 0x0000,
        chanspec_ctl_sb_mask: 0x0700,
    }
}

/// The CYW43439's data.
pub fn chip() -> (c: Chip)
    ensures
        c == spec_chip(),
{
    Chip {
        arm_core_base_address: 0x18003000 + WRAPPER_REGISTER_OFFSET,
        socsram_base_address: 0x18004000,
        socsram_wrapper_base_address: 0x18004000 + WRAPPER_REGISTER_OFFSET,
        sdiod_core_base_address: 0x18002000,
        pmu_base_address: 0x18000000,
        chip_ram_size: 512 * 1024,
        atcm_ram_base_address: 0,
        socram_srmem_size: 64 * 1024,
        chanspec_band_mask: 0xc000,
        chanspec_band_2g: 0x0000,
        chanspec_band_5g: 0xc000,
        chanspec_band_shift: 14,
        chanspec_bw_10: 0x0800,
        chanspec_bw_20: 0x1000,
        chanspec_bw_40: 0x1800,
        chanspec_bw_mask: 0x3800,
        chanspec_bw_shift: 11,
        chanspec_ctl_sb_lower: 0x0000,
        chanspec_ctl_sb_upper: 0x0100,
        chanspec_ctl_sb_none: 0x0000,
        chanspec_ctl_sb_mask: 0x0700,
    }
}

/// A core of the chip.
#[derive(Clone, Copy, Debug, PartialEq, Eq, Structural)]
pub enum Core {
    WLAN,
    SOCSRAM,
    SDIOD,
}

impl Core {
    /// Base backplane address of the core's registers.
    pub open spec fn spec_base_addr(self) -> u32 {
        match self {
            Core::WLAN => spec_chip().arm_core_base_address,
            Core::SOCSRAM => spec_chip().socsram_wrapper_base_address,
            Core::SDIOD => spec_chip().sdiod_core_base_address,
        }
    }

    /// Base backplane address of the core's registers.
    pub fn base_addr(&self) -> (r: u32)
        ensures
            r == self.spec_base_addr(),
    {
        let c = chip();
        match self {
            Core::WLAN => c.arm_core_base_address,
            Core::SOCSRAM => c.socsram_wrapper_base_address,
            Core::SDIOD => c.sdiod_core_base_address,
        }
    }
}

/// A one-byte backplane register access, or a pause.
#[derive(Clone, Copy, Debug, PartialEq, Eq, Structural)]
pub enum BpOp {
    /// Read the byte at this backplane address (the value is not used).
    Read8(u32),
    /// Write the byte to this backplane address.
    Write8(u32, u8),
    /// Wait this many milliseconds.
    DelayMs(u32),
}

/// Backplane address of a core's I/O control register.
pub open spec fn spec_ioctrl(core: Core) -> u32 {
    (core.spec_base_addr() + AI_IOCTRL_OFFSET) as u32
}

/// Backplane address of a core's reset control register.
pub open spec fn spec_resetctrl(core: Core) -> u32 {
    (core.spec_base_addr() + AI_RESETCTRL_OFFSET) as u32
}

/// Address of the reset control register, which `core_disable` reads
/// (twice: the first read is a dummy) to learn whether the core is already
/// in reset.
pub fn core_resetctrl_addr(core: Core) -> (r: u32)
    ensures
        r == spec_resetctrl(core),
{
    core.base_addr() + AI_RESETCTRL_OFFSET
}

/// Address of the I/O control register, read by `core_is_up`.
pub fn core_ioctrl_addr(core: Core) -> (r: u32)
    ensures
        r == spec_ioctrl(core),
{
    core.base_addr() + AI_IOCTRL_OFFSET
}

/// The accesses that put `core` into reset, given the value its reset
/// control register holds: none when it is already in reset.
pub fn core_disable(core: Core, resetctrl: u8) -> (r: Vec<BpOp>)
    ensures
        resetctrl & AI_RESETCTRL_BIT_RESET != 0 ==> r@ == Seq::<BpOp>::empty(),
        resetctrl & AI_RESETCTRL_BIT_RESET == 0 ==> r@ == seq![
            BpOp::Write8(spec_ioctrl(core), 0),
            BpOp::Read8(spec_ioctrl(core)),
            BpOp::DelayMs(1),
            BpOp::Write8(spec_resetctrl(core), AI_RESETCTRL_BIT_RESET),
            BpOp::Read8(spec_resetctrl(core)),
        ],
{
    let mut ops: Vec<BpOp> = Vec::new();
    if resetctrl & AI_RESETCTRL_BIT_RESET != 0 {
        assert(ops@ =~= Seq::<BpOp>::empty());
        return ops;
    }
    let io = core_ioctrl_addr(core);
    let rst = core_resetctrl_addr(core);
    ops.push(BpOp::Write8(io, 0));
    ops.push(BpOp::Read8(io));
    ops.push(BpOp::DelayMs(1));
    ops.push(BpOp::Write8(rst, AI_RESETCTRL_BIT_RESET));
    ops.push(BpOp::Read8(rst));
    assert(ops@ =~= seq![
        BpOp::Write8(spec_ioctrl(core), 0),
        BpOp::Read8(spec_ioctrl(core)),
        BpOp::DelayMs(1),
        BpOp::Write8(spec_resetctrl(core), AI_RESETCTRL_BIT_RESET),
        BpOp::Read8(spec_resetctrl(core)),
    ]);
    ops
}

/// The accesses that take `core`, once disabled, out of reset with its
/// clock running.
pub fn core_reset(core: Core) -> (r: Vec<BpOp>)
    ensures
        r@ == core_reset_spec(core),
{
    let io = core_ioctrl_addr(core);
    let rst = core_resetctrl_addr(core);
    let mut ops: Vec<BpOp> = Vec::new();
    ops.push(BpOp::Write8(io, AI_IOCTRL_BIT_FGC | AI_IOCTRL_BIT_CLOCK_EN));
    ops.push(BpOp::Read8(io));
    ops.push(BpOp::Write8(rst, 0));
    ops.push(BpOp::DelayMs(1));
    ops.push(BpOp::Write8(io, AI_IOCTRL_BIT_CLOCK_EN));
    ops.push(BpOp::Read8(io));
    ops.push(BpOp::DelayMs(1));
    assert(ops@ =~= seq![
        BpOp::Write8(spec_ioctrl(core), AI_IOCTRL_BIT_FGC | AI_IOCTRL_BIT_CLOCK_EN),
        BpOp::Read8(spec_ioctrl(core)),
        BpOp::Write8(spec_resetctrl(core), 0),
        BpOp::DelayMs(1),
        BpOp::Write8(spec_ioctrl(core), AI_IOCTRL_BIT_CLOCK_EN),
        BpOp::Read8(spec_ioctrl(core)),
        BpOp::DelayMs(1),
    ]);
    ops
}

/// Whether a core's I/O control register has the clock enabled without the
/// force-gated clock; only then is its reset control register read.
pub fn core_ioctrl_ok(ioctrl: u8) -> (r: bool)
    ensures
        r == (ioctrl & (AI_IOCTRL_BIT_FGC | AI_IOCTRL_BIT_CLOCK_EN) == AI_IOCTRL_BIT_CLOCK_EN),
{
    ioctrl & (AI_IOCTRL_BIT_FGC | AI_IOCTRL_BIT_CLOCK_EN) == AI_IOCTRL_BIT_CLOCK_EN
}

/// Whether a core is up, from its I/O control and reset control registers:
/// clock enabled without force-gated clock, and out of reset.
pub fn core_is_up(ioctrl: u8, resetctrl: u8) -> (r: bool)
    ensures
        r == spec_core_is_up(ioctrl, resetctrl),
{
    if !core_ioctrl_ok(ioctrl) {
        return false;
    }
    if resetctrl & AI_RESETCTRL_BIT_RESET != 0 {
        return false;
    }
    true
}

/// Whether the I/O control and reset control register values describe a
/// core that is up.
pub open spec fn spec_core_is_up(ioctrl: u8, resetctrl: u8) -> bool {
    ioctrl & (AI_IOCTRL_BIT_FGC | AI_IOCTRL_BIT_CLOCK_EN) == AI_IOCTRL_BIT_CLOCK_EN && resetctrl
        & AI_RESETCTRL_BIT_RESET == 0
}

/// The last values `core_reset` writes to a core's I/O control and reset
/// control registers are values for which `core_is_up` reports the core up.
pub proof fn lemma_reset_leaves_core_up(core: Core)
    ensures
        ({
            let ops = core_reset_spec(core);
            &&& ops[4] == BpOp::Write8(spec_ioctrl(core), AI_IOCTRL_BIT_CLOCK_EN)
            &&& ops[2] == BpOp::Write8(spec_resetctrl(core), 0)
            &&& forall|k: int| 4 < k < ops.len() ==> !(#[trigger] ops[k] is Write8)
            &&& forall|k: int|
                2 < k < ops.len() ==> !(#[trigger] ops[k] matches BpOp::Write8(x, _) && x
                    == spec_resetctrl(core))
            &&& spec_core_is_up(AI_IOCTRL_BIT_CLOCK_EN, 0)
        }),
{
    assert(1u8 & (2u8 | 1u8) == 1u8 && 0u8 & 1u8 == 0u8) by (bit_vector);
    assert(spec_ioctrl(core) != spec_resetctrl(core));
}

/// The accesses `core_reset` returns.
pub open spec fn core_reset_spec(core: Core) -> Seq<BpOp> {
    seq![
        BpOp::Write8(spec_ioctrl(core), AI_IOCTRL_BIT_FGC | AI_IOCTRL_BIT_CLOCK_EN),
        BpOp::Read8(spec_ioctrl(core)),
        BpOp::Write8(spec_resetctrl(core), 0),
        BpOp::DelayMs(1),
        BpOp::Write8(spec_ioctrl(core), AI_IOCTRL_BIT_CLOCK_EN),
        BpOp::Read8(spec_ioctrl(core)),
        BpOp::DelayMs(1),
    ]
}

} // verus!
