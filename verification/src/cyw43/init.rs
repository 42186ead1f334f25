//! Bringing the chip up: the order of the power, bus, clock, firmware and
//! core steps, and the checks between them, as a step function from the
//! current stage and the last value read to the next stage and action.
use vstd::prelude::*;
use crate::cyw43::chip::{spec_chip, Core};
use crate::cyw43::consts::{
    FEEDBEAD, FUNC_BACKPLANE, FUNC_BUS, REG_BACKPLANE_CHIP_CLOCK_CSR,
    REG_BACKPLANE_FUNCTION2_WATERMARK, REG_BUS_CTRL, REG_BUS_FEEDBEAD, REG_BUS_STATUS,
    REG_BUS_TEST, STATUS_F2_RX_READY, TEST_PATTERN,
};

verus! {

/// Value written to the bus control register: 32-bit words, big endian.
pub const BUS_CTRL_32BIT_BE: u32 = 0x00010033;
/// Clock control value that requests the ALP clock.
pub const CLOCK_CSR_ALP_REQUEST: u8 = 0x08;
/// Clock control bit set once the ALP clock runs.
pub const CLOCK_CSR_ALP_AVAILABLE: u32 = 0x40;
/// Clock control bit set once the HT clock runs.
pub const CLOCK_CSR_HT_AVAILABLE: u32 = 0x80;
/// Backplane address of the chip identifier.
pub const CHIP_ID_ADDR: u32 = 0x1800_0000;
/// SOCSRAM bank index register (base + 0x10) and the bank selected.
pub const SOCSRAM_BANKX_INDEX: u32 = 0x1800_4010;
/// SOCSRAM bank PDA register (base + 0x44).
pub const SOCSRAM_BANKX_PDA: u32 = 0x1800_4044;
/// SDIO core interrupt mask register (base + 0x24).
pub const SDIOD_INT_HOST_MASK: u32 = 0x1800_2024;
/// Interrupt mask set on the SDIO core.
pub const SDIOD_INT_MASK_VALUE: u32 = 0xF0;
/// F2 watermark value.
pub const F2_WATERMARK: u8 = 32;

/// Stage of the bring-up.
#[derive(Clone, Copy, Debug, PartialEq, Eq, Structural)]
pub enum InitState {
    Strap,
    PowerOff,
    HoldOff,
    PowerOn,
    HoldOn,
    Ping,
    PingCheck,
    TestRead,
    TestCheck,
    BusPing,
    BusPingCheck,
    BusTestCheck,
    AlpCheck,
    ChipId,
    DisableWlan,
    ResetSocsram,
    SocsramIndex,
    SocsramPda,
    UploadFirmware,
    VerifyCheck,
    StartWlan,
    CheckWlan,
    WlanUpCheck,
    HtCheck,
    Watermark,
    F2Check,
    LoadClm,
    Done,
    Failed,
}

/// What the bring-up asks of the hardware side next. Actions that read
/// hand the value read to the next step; the others hand 0.
#[derive(Clone, Copy, Debug, PartialEq, Eq, Structural)]
pub enum InitAction {
    /// Drive the data pin low as an output (strap for gSPI mode).
    StrapGspi,
    /// Drive the power pin low.
    PowerLow,
    /// Drive the power pin high.
    PowerHigh,
    /// Wait this many milliseconds.
    DelayMs(u32),
    /// Read a bus register in the byte-swapped 16-bit mode.
    Read32Swapped(u32),
    /// Write a bus register in the byte-swapped 16-bit mode.
    Write32Swapped(u32, u32),
    /// Read a 32-bit register of a function.
    Read32(u32, u32),
    /// Read an 8-bit register of a function.
    Read8(u32, u32),
    /// Write an 8-bit register of a function.
    Write8(u32, u32, u8),
    /// Read a 16-bit backplane word.
    BpRead16(u32),
    /// Write a 32-bit backplane word.
    BpWrite32(u32, u32),
    /// Disable a core.
    CoreDisable(Core),
    /// Reset a core.
    CoreReset(Core),
    /// Tell whether a core is up: hand 1 if so, 0 if not.
    CheckCoreUp(Core),
    /// Write the firmware to RAM.
    UploadFirmware,
    /// Read the firmware back and compare it, chunk by chunk, with
    /// `verify_chunk`: hand 1 if every chunk matched, 0 if not.
    VerifyFirmware,
    /// Write the NVRAM image and its length word.
    UploadNvram,
    /// Send the CLM blob.
    LoadClm,
    /// The chip is up.
    Finish,
    /// A check failed: the bring-up stops here.
    Fail,
}

/// The bring-up as a step function. From `s`, with `v` the value the
/// previous action read, gives the next stage and the action to perform.
/// Waits for the ping, the ALP clock, the HT clock and F2 readiness read
/// again until the bit shows; the test pattern, the bus-mode ping, the
/// firmware read-back and the core check fail the bring-up when they do
/// not match.
pub open spec fn spec_init_step(s: InitState, v: u32) -> (InitState, InitAction) {
    match s {
        InitState::Strap => (InitState::PowerOff, InitAction::StrapGspi),
        InitState::PowerOff => (InitState::HoldOff, InitAction::PowerLow),
        InitState::HoldOff => (InitState::PowerOn, InitAction::DelayMs(20)),
        InitState::PowerOn => (InitState::HoldOn, InitAction::PowerHigh),
        InitState::HoldOn => (InitState::Ping, InitAction::DelayMs(250)),
        InitState::Ping => (InitState::PingCheck, InitAction::Read32Swapped(REG_BUS_FEEDBEAD)),
        InitState::PingCheck => if v == FEEDBEAD {
            (InitState::TestRead, InitAction::Write32Swapped(REG_BUS_TEST, TEST_PATTERN))
        } else {
            (InitState::PingCheck, InitAction::Read32Swapped(REG_BUS_FEEDBEAD))
        },
        InitState::TestRead => (InitState::TestCheck, InitAction::Read32Swapped(REG_BUS_TEST)),
        InitState::TestCheck => if v == TEST_PATTERN {
            (InitState::BusPing, InitAction::Write32Swapped(REG_BUS_CTRL, BUS_CTRL_32BIT_BE))
        } else {
            (InitState::Failed, InitAction::Fail)
        },
        InitState::BusPing => (InitState::BusPingCheck, InitAction::Read32(FUNC_BUS, REG_BUS_FEEDBEAD)),
        InitState::BusPingCheck => if v == FEEDBEAD {
            (InitState::BusTestCheck, InitAction::Read32(FUNC_BUS, REG_BUS_TEST))
        } else {
            (InitState::Failed, InitAction::Fail)
        },
        InitState::BusTestCheck => if v == TEST_PATTERN {
            (
                InitState::AlpCheck,
                InitAction::Write8(FUNC_BACKPLANE, REG_BACKPLANE_CHIP_CLOCK_CSR, CLOCK_CSR_ALP_REQUEST),
            )
        } else {
            (InitState::Failed, InitAction::Fail)
        },
        InitState::AlpCheck => if v & CLOCK_CSR_ALP_AVAILABLE != 0 {
            (InitState::ChipId, InitAction::BpRead16(CHIP_ID_ADDR))
        } else {
            (InitState::AlpCheck, InitAction::Read8(FUNC_BACKPLANE, REG_BACKPLANE_CHIP_CLOCK_CSR))
        },
        InitState::ChipId => (InitState::DisableWlan, InitAction::CoreDisable(Core::WLAN)),
        InitState::DisableWlan => (InitState::ResetSocsram, InitAction::CoreReset(Core::SOCSRAM)),
        InitState::ResetSocsram => (InitState::SocsramIndex, InitAction::BpWrite32(SOCSRAM_BANKX_INDEX, 3)),
        InitState::SocsramIndex => (InitState::SocsramPda, InitAction::BpWrite32(SOCSRAM_BANKX_PDA, 0)),
        InitState::SocsramPda => (InitState::UploadFirmware, InitAction::UploadFirmware),
        InitState::UploadFirmware => (InitState::VerifyCheck, InitAction::VerifyFirmware),
        InitState::VerifyCheck => if v != 0 {
            (InitState::StartWlan, InitAction::UploadNvram)
        } else {
            (InitState::Failed, InitAction::Fail)
        },
        InitState::StartWlan => (InitState::CheckWlan, InitAction::CoreReset(Core::WLAN)),
        InitState::CheckWlan => (InitState::WlanUpCheck, InitAction::CheckCoreUp(Core::WLAN)),
        InitState::WlanUpCheck => if v != 0 {
            (InitState::HtCheck, InitAction::Read8(FUNC_BACKPLANE, REG_BACKPLANE_CHIP_CLOCK_CSR))
        } else {
            (InitState::Failed, InitAction::Fail)
        },
        InitState::HtCheck => if v & CLOCK_CSR_HT_AVAILABLE != 0 {
            (InitState::Watermark, InitAction::BpWrite32(SDIOD_INT_HOST_MASK, SDIOD_INT_MASK_VALUE))
        } else {
            (InitState::HtCheck, InitAction::Read8(FUNC_BACKPLANE, REG_BACKPLANE_CHIP_CLOCK_CSR))
        },
        InitState::Watermark => (
            InitState::F2Check,
            InitAction::Write8(FUNC_BACKPLANE, REG_BACKPLANE_FUNCTION2_WATERMARK, F2_WATERMARK),
        ),
        InitState::F2Check => if v & STATUS_F2_RX_READY != 0 {
            (InitState::LoadClm, InitAction::LoadClm)
        } else {
            (InitState::F2Check, InitAction::Read32(FUNC_BUS, REG_BUS_STATUS))
        },
        InitState::LoadClm => (InitState::Done, InitAction::Finish),
        InitState::Done => (InitState::Done, InitAction::Finish),
        InitState::Failed => (InitState::Failed, InitAction::Fail),
    }
}

/// One step of the bring-up.
pub fn init_step(s: InitState, v: u32) -> (r: (InitState, InitAction))
    ensures
        r == spec_init_step(s, v),
{
    match s {
        InitState::Strap => (InitState::PowerOff, InitAction::StrapGspi),
        InitState::PowerOff => (InitState::HoldOff, InitAction::PowerLow),
        InitState::HoldOff => (InitState::PowerOn, InitAction::DelayMs(20)),
        InitState::PowerOn => (InitState::HoldOn, InitAction::PowerHigh),
        InitState::HoldOn => (InitState::Ping, InitAction::DelayMs(250)),
        InitState::Ping => (InitState::PingCheck, InitAction::Read32Swapped(REG_BUS_FEEDBEAD)),
        InitState::PingCheck => if v == FEEDBEAD {
            (InitState::TestRead, InitAction::Write32Swapped(REG_BUS_TEST, TEST_PATTERN))
        } else {
            (InitState::PingCheck, InitAction::Read32Swapped(REG_BUS_FEEDBEAD))
        },
        InitState::TestRead => (InitState::TestCheck, InitAction::Read32Swapped(REG_BUS_TEST)),
        InitState::TestCheck => if v == TEST_PATTERN {
            (InitState::BusPing, InitAction::Write32Swapped(REG_BUS_CTRL, BUS_CTRL_32BIT_BE))
        } else {
            (InitState::Failed, InitAction::Fail)
        },
        InitState::BusPing => (InitState::BusPingCheck, InitAction::Read32(FUNC_BUS, REG_BUS_FEEDBEAD)),
        InitState::BusPingCheck => if v == FEEDBEAD {
            (InitState::BusTestCheck, InitAction::Read32(FUNC_BUS, REG_BUS_TEST))
        } else {
            (InitState::Failed, InitAction::Fail)
        },
        InitState::BusTestCheck => if v == TEST_PATTERN {
            (
                InitState::AlpCheck,
                InitAction::Write8(FUNC_BACKPLANE, REG_BACKPLANE_CHIP_CLOCK_CSR, CLOCK_CSR_ALP_REQUEST),
            )
        } else {
            (InitState::Failed, InitAction::Fail)
        },
        InitState::AlpCheck => if v & CLOCK_CSR_ALP_AVAILABLE != 0 {
            (InitState::ChipId, InitAction::BpRead16(CHIP_ID_ADDR))
        } else {
            (InitState::AlpCheck, InitAction::Read8(FUNC_BACKPLANE, REG_BACKPLANE_CHIP_CLOCK_CSR))
        },
        InitState::ChipId => (InitState::DisableWlan, InitAction::CoreDisable(Core::WLAN)),
        InitState::DisableWlan => (InitState::ResetSocsram, InitAction::CoreReset(Core::SOCSRAM)),
        InitState::ResetSocsram => (InitState::SocsramIndex, InitAction::BpWrite32(SOCSRAM_BANKX_INDEX, 3)),
        InitState::SocsramIndex => (InitState::SocsramPda, InitAction::BpWrite32(SOCSRAM_BANKX_PDA, 0)),
        InitState::SocsramPda => (InitState::UploadFirmware, InitAction::UploadFirmware),
        InitState::UploadFirmware => (InitState::VerifyCheck, InitAction::VerifyFirmware),
        InitState::VerifyCheck => if v != 0 {
            (InitState::StartWlan, InitAction::UploadNvram)
        } else {
            (InitState::Failed, InitAction::Fail)
        },
        InitState::StartWlan => (InitState::CheckWlan, InitAction::CoreReset(Core::WLAN)),
        InitState::CheckWlan => (InitState::WlanUpCheck, InitAction::CheckCoreUp(Core::WLAN)),
        InitState::WlanUpCheck => if v != 0 {
            (InitState::HtCheck, InitAction::Read8(FUNC_BACKPLANE, REG_BACKPLANE_CHIP_CLOCK_CSR))
        } else {
            (InitState::Failed, InitAction::Fail)
        },
        InitState::HtCheck => if v & CLOCK_CSR_HT_AVAILABLE != 0 {
            (InitState::Watermark, InitAction::BpWrite32(SDIOD_INT_HOST_MASK, SDIOD_INT_MASK_VALUE))
        } else {
            (InitState::HtCheck, InitAction::Read8(FUNC_BACKPLANE, REG_BACKPLANE_CHIP_CLOCK_CSR))
        },
        InitState::Watermark => (
            InitState::F2Check,
            InitAction::Write8(FUNC_BACKPLANE, REG_BACKPLANE_FUNCTION2_WATERMARK, F2_WATERMARK),
        ),
        InitState::F2Check => if v & STATUS_F2_RX_READY != 0 {
            (InitState::LoadClm, InitAction::LoadClm)
        } else {
            (InitState::F2Check, InitAction::Read32(FUNC_BUS, REG_BUS_STATUS))
        },
        InitState::LoadClm => (InitState::Done, InitAction::Finish),
        InitState::Done => (InitState::Done, InitAction::Finish),
        InitState::Failed => (InitState::Failed, InitAction::Fail),
    }
}

/// The fixed backplane addresses the bring-up writes are those of the
/// chip's cores: the SOCSRAM bank index and PDA registers and the SDIO
/// core's interrupt mask.
pub proof fn lemma_core_register_addresses()
    ensures
        SOCSRAM_BANKX_INDEX == spec_chip().socsram_base_address + 0x10,
        SOCSRAM_BANKX_PDA == spec_chip().socsram_base_address + 0x44,
        SDIOD_INT_HOST_MASK == spec_chip().sdiod_core_base_address + 0x24,
{
}

/// The bring-up fails only where a check does not match: the test pattern
/// read back in either bus mode, the bus-mode ping, the firmware read-back
/// or the core check.
pub proof fn lemma_fails_only_on_mismatch(s: InitState, v: u32)
    ensures
        spec_init_step(s, v).0 == InitState::Failed && s != InitState::Failed ==> {
            ||| s == InitState::TestCheck && v != TEST_PATTERN
            ||| s == InitState::BusPingCheck && v != FEEDBEAD
            ||| s == InitState::BusTestCheck && v != TEST_PATTERN
            ||| s == InitState::VerifyCheck && v == 0
            ||| s == InitState::WlanUpCheck && v == 0
        },
        spec_init_step(s, v).1 == InitAction::Fail <==> spec_init_step(s, v).0
            == InitState::Failed,
{
}

/// Whether a chunk of firmware read back matches what was written.
pub fn verify_chunk(expected: &[u8], got: &[u8]) -> (r: bool)
    ensures
        r == (expected@ == got@),
{
    if expected.len() != got.len() {
        return false;
    }
    let mut i: usize = 0;
    while i < expected.len()
        invariant
            0 <= i <= expected@.len(),
            expected@.len() == got@.len(),
            forall|k: int| 0 <= k < i ==> expected@[k] == got@[k],
        decreases expected@.len() - i,
    {
        if expected[i] != got[i] {
            return false;
        }
        i = i + 1;
    }
    assert(expected@ =~= got@);
    true
}

/// The actions of a run of the bring-up from stage `s`, where `vals[i]` is
/// the value handed to step `i` (what the previous action read, 0 after an
/// action that reads nothing).
pub open spec fn run_from(s: InitState, vals: Seq<u32>) -> Seq<InitAction>
    decreases vals.len(),
{
    if vals.len() == 0 {
        Seq::empty()
    } else {
        let (next, action) = spec_init_step(s, vals[0]);
        seq![action] + run_from(next, vals.drop_first())
    }
}

/// The readings handed to the steps of a bring-up in which every reading
/// matches (the ping and the ALP clock and F2 readiness each read once more
/// before they show).
pub open spec fn matching_readings() -> Seq<u32> {
    seq![
        0u32, 0, 0, 0, 0, 0, 0xFEEDBEAD, 0, 0x12345678, 0, 0xFEEDBEAD, 0x12345678, 0, 0x40, 0, 0, 0, 0, 0, 0, 1, 0, 0, 1, 0x80, 0, 0, 0x20, 0,
    ]
}

/// The actions the original performs, in its order, on those readings:
/// strap, power cycle with its waits, ping, test pattern, 32-bit big-endian
/// bus mode, the same checks in that mode, ALP clock, chip id, WLAN core
/// disabled, SOCSRAM reset and set up, firmware written and read back,
/// NVRAM written, then the WLAN core taken out of reset and checked up, HT
/// clock, interrupt mask, F2 watermark, F2 readiness and the CLM blob.
pub open spec fn original_bring_up() -> Seq<InitAction> {
    seq![
        InitAction::StrapGspi,
        InitAction::PowerLow,
        InitAction::DelayMs(20),
        InitAction::PowerHigh,
        InitAction::DelayMs(250),
        InitAction::Read32Swapped(0x14),
        InitAction::Write32Swapped(0x18, 0x12345678),
        InitAction::Read32Swapped(0x18),
        InitAction::Write32Swapped(0x0, 0x00010033),
        InitAction::Read32(0, 0x14),
        InitAction::Read32(0, 0x18),
        InitAction::Write8(1, 0x1000E, 0x08),
        InitAction::Read8(1, 0x1000E),
        InitAction::BpRead16(0x1800_0000),
        InitAction::CoreDisable(Core::WLAN),
        InitAction::CoreReset(Core::SOCSRAM),
        InitAction::BpWrite32(0x1800_4010, 3),
        InitAction::BpWrite32(0x1800_4044, 0),
        InitAction::UploadFirmware,
        InitAction::VerifyFirmware,
        InitAction::UploadNvram,
        InitAction::CoreReset(Core::WLAN),
        InitAction::CheckCoreUp(Core::WLAN),
        InitAction::Read8(1, 0x1000E),
        InitAction::BpWrite32(0x1800_2024, 0xF0),
        InitAction::Write8(1, 0x10008, 32),
        InitAction::Read32(0, 0x8),
        InitAction::LoadClm,
        InitAction::Finish,
    ]
}

proof fn lemma_run_follows_steps(
    stages: Seq<InitState>,
    vals: Seq<u32>,
    acts: Seq<InitAction>,
    i: int,
)
    requires
        stages.len() == vals.len() + 1,
        acts.len() == vals.len(),
        0 <= i <= vals.len(),
        forall|j: int|
            0 <= j < vals.len() ==> spec_init_step(stages[j], #[trigger] vals[j]) == (
                stages[j + 1],
                acts[j],
            ),
    ensures
        run_from(stages[i], vals.subrange(i, vals.len() as int)) == acts.subrange(
            i,
            acts.len() as int,
        ),
    decreases vals.len() - i,
{
    if i < vals.len() {
        lemma_run_follows_steps(stages, vals, acts, i + 1);
        let rest = vals.subrange(i, vals.len() as int);
        assert(rest[0] == vals[i]);
        assert(rest.drop_first() =~= vals.subrange(i + 1, vals.len() as int));
        assert(acts.subrange(i, acts.len() as int) =~= seq![acts[i]] + acts.subrange(
            i + 1,
            acts.len() as int,
        ));
    } else {
        assert(acts.subrange(i, acts.len() as int) =~= Seq::<InitAction>::empty());
    }
}

/// The bring-up performs the original's steps in the original's order when
/// every reading matches: the run from `Strap` on `matching_readings` is
/// `original_bring_up`.
pub proof fn lemma_bring_up_order()
    ensures
        run_from(InitState::Strap, matching_readings()) == original_bring_up(),
{
    let stages: Seq<InitState> = seq![
        InitState::Strap,
        InitState::PowerOff,
        InitState::HoldOff,
        InitState::PowerOn,
        InitState::HoldOn,
        InitState::Ping,
        InitState::PingCheck,
        InitState::TestRead,
        InitState::TestCheck,
        InitState::BusPing,
        InitState::BusPingCheck,
        InitState::BusTestCheck,
        InitState::AlpCheck,
        InitState::AlpCheck,
        InitState::ChipId,
        InitState::DisableWlan,
        InitState::ResetSocsram,
        InitState::SocsramIndex,
        InitState::SocsramPda,
        InitState::UploadFirmware,
        InitState::VerifyCheck,
        InitState::StartWlan,
        InitState::CheckWlan,
        InitState::WlanUpCheck,
        InitState::HtCheck,
        InitState::Watermark,
        InitState::F2Check,
        InitState::F2Check,
        InitState::LoadClm,
        InitState::Done,
    ];
    let vals = matching_readings();
    let acts = original_bring_up();
    assert(0u32 & 0x40u32 == 0 && 0x40u32 & 0x40u32 != 0 && 0x80u32 & 0x80u32 != 0 && 0u32
        & 0x20u32 == 0 && 0x20u32 & 0x20u32 != 0) by (bit_vector);
    assert(spec_init_step(InitState::Strap, 0u32) == (InitState::PowerOff, InitAction::StrapGspi));
    assert(spec_init_step(InitState::PowerOff, 0) == (InitState::HoldOff, InitAction::PowerLow));
    assert(spec_init_step(InitState::HoldOff, 0) == (InitState::PowerOn, InitAction::DelayMs(20)));
    assert(spec_init_step(InitState::PowerOn, 0) == (InitState::HoldOn, InitAction::PowerHigh));
    assert(spec_init_step(InitState::HoldOn, 0) == (InitState::Ping, InitAction::DelayMs(250)));
    assert(spec_init_step(InitState::Ping, 0) == (InitState::PingCheck, InitAction::Read32Swapped(0x14)));
    assert(spec_init_step(InitState::PingCheck, 0xFEEDBEAD) == (InitState::TestRead, InitAction::Write32Swapped(0x18, 0x12345678)));
    assert(spec_init_step(InitState::TestRead, 0) == (InitState::TestCheck, InitAction::Read32Swapped(0x18)));
    assert(spec_init_step(InitState::TestCheck, 0x12345678) == (InitState::BusPing, InitAction::Write32Swapped(0x0, 0x00010033)));
    assert(spec_init_step(InitState::BusPing, 0) == (InitState::BusPingCheck, InitAction::Read32(0, 0x14)));
    assert(spec_init_step(InitState::BusPingCheck, 0xFEEDBEAD) == (InitState::BusTestCheck, InitAction::Read32(0, 0x18)));
    assert(spec_init_step(InitState::BusTestCheck, 0x12345678) == (InitState::AlpCheck, InitAction::Write8(1, 0x1000E, 0x08)));
    assert(spec_init_step(InitState::AlpCheck, 0) == (InitState::AlpCheck, InitAction::Read8(1, 0x1000E)));
    assert(spec_init_step(InitState::AlpCheck, 0x40) == (InitState::ChipId, InitAction::BpRead16(0x1800_0000)));
    assert(spec_init_step(InitState::ChipId, 0) == (InitState::DisableWlan, InitAction::CoreDisable(Core::WLAN)));
    assert(spec_init_step(InitState::DisableWlan, 0) == (InitState::ResetSocsram, InitAction::CoreReset(Core::SOCSRAM)));
    assert(spec_init_step(InitState::ResetSocsram, 0) == (InitState::SocsramIndex, InitAction::BpWrite32(0x1800_4010, 3)));
    assert(spec_init_step(InitState::SocsramIndex, 0) == (InitState::SocsramPda, InitAction::BpWrite32(0x1800_4044, 0)));
    assert(spec_init_step(InitState::SocsramPda, 0) == (InitState::UploadFirmware, InitAction::UploadFirmware));
    assert(spec_init_step(InitState::UploadFirmware, 0) == (InitState::VerifyCheck, InitAction::VerifyFirmware));
    assert(spec_init_step(InitState::VerifyCheck, 1) == (InitState::StartWlan, InitAction::UploadNvram));
    assert(spec_init_step(InitState::StartWlan, 0) == (InitState::CheckWlan, InitAction::CoreReset(Core::WLAN)));
    assert(spec_init_step(InitState::CheckWlan, 0) == (InitState::WlanUpCheck, InitAction::CheckCoreUp(Core::WLAN)));
    assert(spec_init_step(InitState::WlanUpCheck, 1) == (InitState::HtCheck, InitAction::Read8(1, 0x1000E)));
    assert(spec_init_step(InitState::HtCheck, 0x80) == (InitState::Watermark, InitAction::BpWrite32(0x1800_2024, 0xF0)));
    assert(spec_init_step(InitState::Watermark, 0) == (InitState::F2Check, InitAction::Write8(1, 0x10008, 32)));
    assert(spec_init_step(InitState::F2Check, 0) == (InitState::F2Check, InitAction::Read32(0, 0x8)));
    assert(spec_init_step(InitState::F2Check, 0x20) == (InitState::LoadClm, InitAction::LoadClm));
    assert(spec_init_step(InitState::LoadClm, 0) == (InitState::Done, InitAction::Finish));
    assert forall|j: int|
        0 <= j < vals.len() implies spec_init_step(stages[j], #[trigger] vals[j]) == (
            stages[j + 1],
            acts[j],
        ) by {
        assert(vals[j] == matching_readings()[j]);
    }
    lemma_run_follows_steps(stages, vals, acts, 0);
    assert(vals.subrange(0, vals.len() as int) =~= vals);
    assert(acts.subrange(0, acts.len() as int) =~= acts);
}

/// Whatever the readings, the NVRAM upload is followed by taking the WLAN
/// core out of reset, and every core reset is followed by the check of
/// that same core when a check comes next.
pub proof fn lemma_wlan_started_after_nvram(s: InitState, v: u32, w: u32)
    ensures
        spec_init_step(s, v).1 == InitAction::UploadNvram ==> spec_init_step(
            spec_init_step(s, v).0,
            w,
        ).1 == InitAction::CoreReset(Core::WLAN),
        forall|c: Core, d: Core|
            spec_init_step(s, v).1 == InitAction::CoreReset(c) && spec_init_step(
                spec_init_step(s, v).0,
                w,
            ).1 == InitAction::CheckCoreUp(d) ==> c == d,
        spec_init_step(s, v).1 == InitAction::CoreReset(Core::WLAN) ==> spec_init_step(
            spec_init_step(s, v).0,
            w,
        ).1 == InitAction::CheckCoreUp(Core::WLAN),
{
}

} // verus!
