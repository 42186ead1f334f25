//! Boot-time configuration of an nRF chip (nRF52, nRF5340 application and
//! network cores, nRF9160): clock sources, debug port protection, and the
//! rules for programming the UICR, whose flash cells can only be cleared
//! from 1 to 0 without an erase.
use vstd::prelude::*;

verus! {

/// High frequency clock source.
#[derive(Clone, Copy, Debug, PartialEq, Eq, Structural)]
pub enum HfclkSource {
    /// Internal source
    Internal,
    /// External source from xtal.
    ExternalXtal,
}

/// Low frequency clock source
#[derive(Clone, Copy, Debug, PartialEq, Eq, Structural)]
pub enum LfclkSource {
    /// Internal RC oscillator
    InternalRC,
    /// Synthesized from the high frequency clock source.
    Synthesized,
    /// External source from xtal.
    ExternalXtal,
    /// External source from xtal with low swing applied.
    ExternalLowSwing,
    /// External source from xtal with full swing applied.
    ExternalFullSwing,
}

/// SWD access port protection setting.
#[derive(Clone, Copy, Debug, PartialEq, Eq, Structural)]
pub enum Debug {
    /// Debugging is allowed (APPROTECT is disabled). Default.
    Allowed,
    /// Debugging is not allowed (APPROTECT is enabled).
    Disallowed,
    /// APPROTECT is not configured (neither to enable it or disable it).
    /// This can be useful if you're already doing it by other means and
    /// you don't want the HAL to touch UICR.
    NotConfigured,
}

/// Configuration for peripherals. Default configuration should work on any nRF chip.
#[derive(Clone, Copy, Debug, PartialEq, Eq, Structural)]
pub struct Config {
    /// High frequency clock source.
    pub hfclk_source: HfclkSource,
    /// Low frequency clock source.
    pub lfclk_source: LfclkSource,
    /// Enable or disable the debug port.
    pub debug: Debug,
}

impl Default for Config {
    /// Everything internal, debugging allowed.
    fn default() -> (r: Self)
        ensures
            r == (Config {
                hfclk_source: HfclkSource::Internal,
                lfclk_source: LfclkSource::InternalRC,
                debug: Debug::Allowed,
            }),
    {
        Config {
            hfclk_source: HfclkSource::Internal,
            lfclk_source: LfclkSource::InternalRC,
            debug: Debug::Allowed,
        }
    }
}

/// UICR word selecting the first reset pin.
pub const UICR_PSELRESET1: u32 = 0x10001200;
/// UICR word selecting the second reset pin.
pub const UICR_PSELRESET2: u32 = 0x10001204;
/// UICR word configuring the NFC pins.
pub const UICR_NFCPINS: u32 = 0x1000120C;
/// UICR word configuring access port protection.
pub const UICR_APPROTECT: u32 = 0x10001208;
/// APPROTECT value that enables protection.
pub const APPROTECT_ENABLED: u32 = 0x0000_0000;
/// APPROTECT value that disables protection in software.
pub const APPROTECT_DISABLED: u32 = 0x0000_005a;
/// FICR register holding the chip variant.
pub const FICR_INFO_VARIANT: u32 = 0x1000_0104;
/// Register that disables access port protection until the next reset.
pub const APPROTECT_DISABLE: u32 = 0x4000_0558;
/// The pin the nRF52840 wires to the reset function.
pub const RESET_PIN: u32 = 18;
/// Build code letter from which nRF52 chips need APPROTECT disabled
/// explicitly.
pub const BUILD_CODE_F: u8 = 0x46;
/// nRF5340 application core: UICR word configuring access port protection.
pub const NRF53_APP_UICR_APPROTECT: u32 = 0x00FF8000;
/// nRF5340 application core: UICR word configuring secure access port
/// protection.
pub const NRF53_APP_UICR_SECUREAPPROTECT: u32 = 0x00FF801C;
/// nRF5340 application core: UICR word configuring the NFC pins.
pub const NRF53_APP_UICR_NFCPINS: u32 = 0x00FF8028;
/// nRF5340 network core: UICR word configuring access port protection.
pub const NRF53_NET_UICR_APPROTECT: u32 = 0x01FF8000;
/// nRF5340: APPROTECT value that disables protection in software.
pub const NRF53_APPROTECT_DISABLED: u32 = 0x50FA50FA;
/// nRF9160: UICR word configuring access port protection.
pub const NRF91_UICR_APPROTECT: u32 = 0x00FF8000;
/// nRF9160: UICR word configuring secure access port protection.
pub const NRF91_UICR_SECUREAPPROTECT: u32 = 0x00FF802C;

/// What programming a UICR word to a value takes.
#[derive(Clone, Copy, Debug, PartialEq, Eq, Structural)]
pub enum UicrWrite {
    /// The word already holds the value.
    Unchanged,
    /// The value can be written: it only clears bits.
    Program,
}

/// Whether a UICR word holding `curr` can be brought to `value` without an
/// erase: it already holds it, or the value only clears bits.
pub open spec fn spec_uicr_writable(curr: u32, value: u32) -> bool {
    curr == value || (!curr & value) == 0
}

/// A UICR word can be brought to a value exactly when every bit the value
/// sets is already set in the word (flash cells only go from 1 to 0): in
/// particular an erased (all-ones) word can take any value, and a word of
/// all zeros only zero.
pub proof fn lemma_uicr_writable_bits(curr: u32, value: u32)
    ensures
        spec_uicr_writable(curr, value) == (curr & value == value),
        spec_uicr_writable(0xFFFF_FFFFu32, value),
        spec_uicr_writable(0u32, value) == (value == 0),
{
    assert(((curr == value || (!curr & value) == 0) == (curr & value == value))
        && (!0xFFFF_FFFFu32 & value) == 0 && ((!0u32 & value == 0) == (value == 0))) by (bit_vector);
}

/// Whether a UICR word holding `curr` can be brought to `value`; a write
/// that would set a cleared bit cannot be done.
pub fn uicr_writable(curr: u32, value: u32) -> (r: bool)
    ensures
        r == spec_uicr_writable(curr, value),
{
    curr == value || (!curr) & value == 0
}

/// Decides how to bring a UICR word that holds `curr` to `value`, which
/// must be possible without an erase.
pub fn uicr_write(curr: u32, value: u32) -> (r: UicrWrite)
    requires
        spec_uicr_writable(curr, value),
    ensures
        r == (if curr == value {
            UicrWrite::Unchanged
        } else {
            UicrWrite::Program
        }),
{
    if curr == value {
        return UicrWrite::Unchanged;
    }
    UicrWrite::Program
}

/// Whether a UICR write changed the word (and so a reset is needed).
pub fn uicr_write_changes(w: UicrWrite) -> (r: bool)
    ensures
        r == (w == UicrWrite::Program),
{
    match w {
        UicrWrite::Program => true,
        UicrWrite::Unchanged => false,
    }
}

/// Programming flash can only clear bits: the word afterwards holds the
/// bitwise and of what it held and what was written. When `uicr_write`
/// decides to program, the word ends up holding exactly the value, and a
/// second write of the same value finds nothing to do.
pub proof fn lemma_uicr_program_reaches_value(curr: u32, value: u32)
    requires
        curr != value,
        (!curr & value) == 0,
    ensures
        curr & value == value,
{
    assert((!curr & value) == 0 ==> curr & value == value) by (bit_vector);
}

/// One boot-time register step.
#[derive(Clone, Copy, Debug, PartialEq, Eq, Structural)]
pub enum Step {
    /// Bring the UICR word at this address to this value (see `uicr_write`).
    Uicr(u32, u32),
    /// Write this value to this register.
    Register(u32, u32),
    /// Write this value to the CTRL-AP's APPROTECT.DISABLE register.
    CtrlApApprotectDisable(u32),
    /// Write this value to the CTRL-AP's SECUREAPPROTECT.DISABLE register.
    CtrlApSecureApprotectDisable(u32),
}

/// Whether the chip variant must be read before planning the debug steps:
/// only on an nRF52 that is to allow debugging.
pub fn needs_variant(config: &Config, options: &ChipOptions) -> (r: bool)
    ensures
        r == (config.debug == Debug::Allowed && options.family == Family::Nrf52),
{
    match (config.debug, options.family) {
        (Debug::Allowed, Family::Nrf52) => true,
        _ => false,
    }
}

/// The build code letter of a variant word.
pub fn build_code(variant: u32) -> (r: u8)
    ensures
        r == (variant >> 8u32) as u8,
{
    (variant >> 8u32) as u8
}

/// Chip family.
#[derive(Clone, Copy, Debug, PartialEq, Eq, Structural)]
pub enum Family {
    /// An nRF52 series chip.
    Nrf52,
    /// The application core of an nRF5340.
    Nrf5340App,
    /// The network core of an nRF5340.
    Nrf5340Net,
    /// An nRF9160.
    Nrf9160,
}

/// Build-time options of the chip that change the boot steps.
#[derive(Clone, Copy, Debug, PartialEq, Eq, Structural)]
pub struct ChipOptions {
    /// The chip family.
    pub family: Family,
    /// The firmware runs in the non-secure domain (nRF5340 application core
    /// and nRF9160 only).
    pub non_secure: bool,
    /// The pin the chip wires to the reset function (nRF52 only).
    pub reset_pin: u32,
    /// Use the reset pin as an ordinary GPIO: leave PSELRESET alone (nRF52
    /// only).
    pub reset_pin_as_gpio: bool,
    /// Use the NFC pins as ordinary GPIOs (nRF52 and nRF5340 application
    /// core only).
    pub nfc_pins_as_gpio: bool,
}

impl Default for ChipOptions {
    /// An nRF52840 with the reset and NFC pins in their default roles.
    fn default() -> (r: Self)
        ensures
            r == (ChipOptions {
                family: Family::Nrf52,
                non_secure: false,
                reset_pin: RESET_PIN,
                reset_pin_as_gpio: false,
                nfc_pins_as_gpio: false,
            }),
    {
        ChipOptions {
            family: Family::Nrf52,
            non_secure: false,
            reset_pin: RESET_PIN,
            reset_pin_as_gpio: false,
            nfc_pins_as_gpio: false,
        }
    }
}

/// Whether the options are meaningful for the family: the reset pin can
/// only be freed on an nRF52, the NFC pins only on an nRF52 or an nRF5340
/// application core, and only the nRF5340 application core and the nRF9160
/// have a non-secure domain.
pub open spec fn spec_options_valid(options: ChipOptions) -> bool {
    &&& options.reset_pin_as_gpio ==> options.family == Family::Nrf52
    &&& options.nfc_pins_as_gpio ==> (options.family == Family::Nrf52 || options.family
        == Family::Nrf5340App)
    &&& options.non_secure ==> (options.family == Family::Nrf5340App || options.family
        == Family::Nrf9160)
}

/// Whether the options are meaningful for the family.
pub fn options_valid(options: &ChipOptions) -> (r: bool)
    ensures
        r == spec_options_valid(*options),
{
    let reset_ok = !options.reset_pin_as_gpio || options.family == Family::Nrf52;
    let nfc_ok = !options.nfc_pins_as_gpio || options.family == Family::Nrf52 || options.family
        == Family::Nrf5340App;
    let ns_ok = !options.non_secure || options.family == Family::Nrf5340App || options.family
        == Family::Nrf9160;
    reset_ok && nfc_ok && ns_ok
}

/// The default configuration for a chip: everything internal, debugging
/// allowed, except that non-secure firmware leaves the debug port alone,
/// taking the secure firmware to configure it.
pub fn default_config(options: &ChipOptions) -> (r: Config)
    ensures
        r == (Config {
            hfclk_source: HfclkSource::Internal,
            lfclk_source: LfclkSource::InternalRC,
            debug: if options.non_secure {
                Debug::NotConfigured
            } else {
                Debug::Allowed
            },
        }),
{
    Config {
        hfclk_source: HfclkSource::Internal,
        lfclk_source: LfclkSource::InternalRC,
        debug: if options.non_secure {
            Debug::NotConfigured
        } else {
            Debug::Allowed
        },
    }
}

/// The debug port steps for a family: with debugging allowed, an nRF52 of
/// build code `build` F or later has APPROTECT disabled in UICR and in its
/// register, an nRF5340 core has it disabled in UICR and in its CTRL-AP (the
/// application core also its secure APPROTECT), and an nRF9160 needs
/// nothing; with debugging disallowed, APPROTECT (and on the nRF5340
/// application core and nRF9160 also SECUREAPPROTECT) is enabled in UICR.
pub open spec fn spec_debug_steps(debug: Debug, family: Family, build: u8) -> Seq<Step> {
    match debug {
        Debug::Allowed => match family {
            Family::Nrf52 => if build >= BUILD_CODE_F {
                seq![
                    Step::Uicr(UICR_APPROTECT, APPROTECT_DISABLED),
                    Step::Register(APPROTECT_DISABLE, APPROTECT_DISABLED),
                ]
            } else {
                Seq::empty()
            },
            Family::Nrf5340App => seq![
                Step::Uicr(NRF53_APP_UICR_APPROTECT, NRF53_APPROTECT_DISABLED),
                Step::CtrlApApprotectDisable(NRF53_APPROTECT_DISABLED),
                Step::Uicr(NRF53_APP_UICR_SECUREAPPROTECT, NRF53_APPROTECT_DISABLED),
                Step::CtrlApSecureApprotectDisable(NRF53_APPROTECT_DISABLED),
            ],
            Family::Nrf5340Net => seq![
                Step::Uicr(NRF53_NET_UICR_APPROTECT, NRF53_APPROTECT_DISABLED),
                Step::CtrlApApprotectDisable(NRF53_APPROTECT_DISABLED),
            ],
            Family::Nrf9160 => Seq::empty(),
        },
        Debug::Disallowed => match family {
            Family::Nrf52 => seq![Step::Uicr(UICR_APPROTECT, APPROTECT_ENABLED)],
            Family::Nrf5340App => seq![
                Step::Uicr(NRF53_APP_UICR_APPROTECT, APPROTECT_ENABLED),
                Step::Uicr(NRF53_APP_UICR_SECUREAPPROTECT, APPROTECT_ENABLED),
            ],
            Family::Nrf5340Net => seq![Step::Uicr(NRF53_NET_UICR_APPROTECT, APPROTECT_ENABLED)],
            Family::Nrf9160 => seq![
                Step::Uicr(NRF91_UICR_APPROTECT, APPROTECT_ENABLED),
                Step::Uicr(NRF91_UICR_SECUREAPPROTECT, APPROTECT_ENABLED),
            ],
        },
        Debug::NotConfigured => Seq::empty(),
    }
}

/// The register steps before the reset decision: access port protection as
/// configured (`spec_debug_steps`), then on an nRF52 the reset pin selection
/// unless the reset pin is a GPIO, then the NFC pin configuration when the
/// NFC pins are GPIOs.
pub open spec fn spec_uicr_plan(config: Config, build: u8, options: ChipOptions) -> Seq<Step> {
    let reset_steps = if options.family == Family::Nrf52 && !options.reset_pin_as_gpio {
        seq![
            Step::Uicr(UICR_PSELRESET1, options.reset_pin),
            Step::Uicr(UICR_PSELRESET2, options.reset_pin),
        ]
    } else {
        Seq::empty()
    };
    let nfc_steps = if options.nfc_pins_as_gpio {
        if options.family == Family::Nrf5340App {
            seq![Step::Uicr(NRF53_APP_UICR_NFCPINS, 0)]
        } else {
            seq![Step::Uicr(UICR_NFCPINS, 0)]
        }
    } else {
        Seq::empty()
    };
    spec_debug_steps(config.debug, options.family, build) + reset_steps + nfc_steps
}

/// Plans the register steps before the reset decision. `build` is the
/// build code letter read from an nRF52; it is only looked at when
/// debugging is allowed on an nRF52.
pub fn uicr_plan(config: &Config, build: u8, options: &ChipOptions) -> (r: Vec<Step>)
    requires
        spec_options_valid(*options),
    ensures
        r@ == spec_uicr_plan(*config, build, *options),
{
    let mut steps: Vec<Step> = Vec::new();
    match (config.debug, options.family) {
        (Debug::Allowed, Family::Nrf52) => {
            if build >= BUILD_CODE_F {
                steps.push(Step::Uicr(UICR_APPROTECT, APPROTECT_DISABLED));
                steps.push(Step::Register(APPROTECT_DISABLE, APPROTECT_DISABLED));
            }
        },
        (Debug::Allowed, Family::Nrf5340App) => {
            steps.push(Step::Uicr(NRF53_APP_UICR_APPROTECT, NRF53_APPROTECT_DISABLED));
            steps.push(Step::CtrlApApprotectDisable(NRF53_APPROTECT_DISABLED));
            steps.push(Step::Uicr(NRF53_APP_UICR_SECUREAPPROTECT, NRF53_APPROTECT_DISABLED));
            steps.push(Step::CtrlApSecureApprotectDisable(NRF53_APPROTECT_DISABLED));
        },
        (Debug::Allowed, Family::Nrf5340Net) => {
            steps.push(Step::Uicr(NRF53_NET_UICR_APPROTECT, NRF53_APPROTECT_DISABLED));
            steps.push(Step::CtrlApApprotectDisable(NRF53_APPROTECT_DISABLED));
        },
        (Debug::Allowed, Family::Nrf9160) => {},
        (Debug::Disallowed, Family::Nrf52) => {
            steps.push(Step::Uicr(UICR_APPROTECT, APPROTECT_ENABLED));
        },
        (Debug::Disallowed, Family::Nrf5340App) => {
            steps.push(Step::Uicr(NRF53_APP_UICR_APPROTECT, APPROTECT_ENABLED));
            steps.push(Step::Uicr(NRF53_APP_UICR_SECUREAPPROTECT, APPROTECT_ENABLED));
        },
        (Debug::Disallowed, Family::Nrf5340Net) => {
            steps.push(Step::Uicr(NRF53_NET_UICR_APPROTECT, APPROTECT_ENABLED));
        },
        (Debug::Disallowed, Family::Nrf9160) => {
            steps.push(Step::Uicr(NRF91_UICR_APPROTECT, APPROTECT_ENABLED));
            steps.push(Step::Uicr(NRF91_UICR_SECUREAPPROTECT, APPROTECT_ENABLED));
        },
        (Debug::NotConfigured, _) => {},
    }
    assert(steps@ =~= spec_debug_steps(config.debug, options.family, build));
    let ghost debug_steps = steps@;
    if options.family == Family::Nrf52 && !options.reset_pin_as_gpio {
        steps.push(Step::Uicr(UICR_PSELRESET1, options.reset_pin));
        steps.push(Step::Uicr(UICR_PSELRESET2, options.reset_pin));
    }
    if options.nfc_pins_as_gpio {
        if options.family == Family::Nrf5340App {
            steps.push(Step::Uicr(NRF53_APP_UICR_NFCPINS, 0));
        } else {
            steps.push(Step::Uicr(UICR_NFCPINS, 0));
        }
    }
    assert(steps@ =~= spec_uicr_plan(*config, build, *options));
    steps
}

/// Whether the UICR writes done leave a reset owed: whether any of them
/// changed a word.
pub fn needs_reset(writes: &[UicrWrite]) -> (r: bool)
    ensures
        r == exists|i: int| 0 <= i < writes@.len() && writes@[i] == UicrWrite::Program,
{
    let mut i: usize = 0;
    while i < writes.len()
        invariant
            0 <= i <= writes@.len(),
            forall|j: int| 0 <= j < i ==> writes@[j] != UicrWrite::Program,
        decreases writes@.len() - i,
    {
        if uicr_write_changes(writes[i]) {
            return true;
        }
        i = i + 1;
    }
    false
}

/// One start-up step after the reset decision.
#[derive(Clone, Copy, Debug, PartialEq, Eq, Structural)]
pub enum ClockStep {
    /// Start the high frequency crystal and wait until it runs.
    StartHfclk,
    /// Write this value to LFCLKSRC.
    SetLfclkSource(u32),
    /// Start the low frequency clock and wait until it runs.
    StartLfclk,
    /// Disable the UARTE instance with this number (the nRF9160 boots with
    /// them enabled).
    DisableUarte(u8),
}

/// Whether a family can take a low frequency clock source: the nRF5340 and
/// nRF9160 have only the internal RC oscillator and the crystal.
pub open spec fn spec_source_supported(family: Family, src: LfclkSource) -> bool {
    family == Family::Nrf52 || src == LfclkSource::InternalRC || src == LfclkSource::ExternalXtal
}

/// Whether a family can take a low frequency clock source.
pub fn source_supported(family: Family, src: LfclkSource) -> (r: bool)
    ensures
        r == spec_source_supported(family, src),
{
    match (family, src) {
        (Family::Nrf52, _) => true,
        (_, LfclkSource::InternalRC) => true,
        (_, LfclkSource::ExternalXtal) => true,
        _ => false,
    }
}

/// nRF52 LFCLKSRC value for a low frequency clock source: SRC in bits 1..0
/// (0 RC, 1 crystal, 2 synthesized), BYPASS in bit 16, EXTERNAL in bit 17.
pub open spec fn spec_lfclksrc(src: LfclkSource) -> u32 {
    match src {
        LfclkSource::InternalRC => 0,
        LfclkSource::Synthesized => 2,
        LfclkSource::ExternalXtal => 1,
        LfclkSource::ExternalLowSwing => 1 | (1u32 << 17u32),
        LfclkSource::ExternalFullSwing => 1 | (1u32 << 17u32) | (1u32 << 16u32),
    }
}

/// The nRF52 LFCLKSRC fields of each source: SRC (bits 1..0) is 0 for the
/// RC oscillator, 2 when synthesized and 1 for every crystal source;
/// EXTERNAL (bit 17) is set exactly for the two external sources and BYPASS
/// (bit 16) exactly for the full-swing one; no other bit is set.
pub proof fn lemma_lfclksrc_fields(src: LfclkSource)
    ensures
        spec_lfclksrc(src) & 3 == (match src {
            LfclkSource::InternalRC => 0u32,
            LfclkSource::Synthesized => 2u32,
            _ => 1u32,
        }),
        (spec_lfclksrc(src) >> 17u32) & 1 == 1 <==> (src == LfclkSource::ExternalLowSwing || src
            == LfclkSource::ExternalFullSwing),
        (spec_lfclksrc(src) >> 16u32) & 1 == 1 <==> src == LfclkSource::ExternalFullSwing,
        spec_lfclksrc(src) & !0x3_0003u32 == 0,
{
    assert(0u32 & 3 == 0 && 2u32 & 3 == 2 && 1u32 & 3 == 1 && (0u32 >> 17u32) & 1 == 0 && (2u32
        >> 17u32) & 1 == 0 && (1u32 >> 17u32) & 1 == 0 && (0u32 >> 16u32) & 1 == 0 && (2u32
        >> 16u32) & 1 == 0 && (1u32 >> 16u32) & 1 == 0 && 0u32 & !0x3_0003u32 == 0 && 2u32
        & !0x3_0003u32 == 0 && 1u32 & !0x3_0003u32 == 0) by (bit_vector);
    let lo: u32 = 1u32 | (1u32 << 17u32);
    let fu: u32 = 1u32 | (1u32 << 17u32) | (1u32 << 16u32);
    assert(lo & 3 == 1 && (lo >> 17u32) & 1 == 1 && (lo >> 16u32) & 1 == 0 && lo & !0x3_0003u32
        == 0) by (bit_vector)
        requires
            lo == 1u32 | (1u32 << 17u32),
    ;
    assert(fu & 3 == 1 && (fu >> 17u32) & 1 == 1 && (fu >> 16u32) & 1 == 1 && fu & !0x3_0003u32
        == 0) by (bit_vector)
        requires
            fu == 1u32 | (1u32 << 17u32) | (1u32 << 16u32),
    ;
}

/// The nRF52 LFCLKSRC value for `src`.
pub fn lfclksrc(src: LfclkSource) -> (r: u32)
    ensures
        r == spec_lfclksrc(src),
{
    match src {
        LfclkSource::InternalRC => 0,
        LfclkSource::Synthesized => 2,
        LfclkSource::ExternalXtal => 1,
        LfclkSource::ExternalLowSwing => 1 | (1u32 << 17u32),
        LfclkSource::ExternalFullSwing => 1 | (1u32 << 17u32) | (1u32 << 16u32),
    }
}

/// nRF9160 LFCLKSRC value: SRC 1 for the RC oscillator (LFRC), 2 for the
/// crystal (LFXO).
pub open spec fn spec_lfclksrc_nrf91(src: LfclkSource) -> u32 {
    if src == LfclkSource::ExternalXtal {
        2
    } else {
        1
    }
}

/// The clock start-up steps for a configuration on a family: the crystal
/// when it is the high frequency source, the low frequency source (not
/// written on an nRF5340), the low frequency clock's start, and on an
/// nRF9160 the disabling of both UARTEs.
pub open spec fn spec_clock_plan(config: Config, family: Family) -> Seq<ClockStep> {
    let hf = if config.hfclk_source == HfclkSource::ExternalXtal {
        seq![ClockStep::StartHfclk]
    } else {
        Seq::empty()
    };
    let src = match family {
        Family::Nrf52 => seq![ClockStep::SetLfclkSource(spec_lfclksrc(config.lfclk_source))],
        Family::Nrf9160 => seq![ClockStep::SetLfclkSource(spec_lfclksrc_nrf91(config.lfclk_source))],
        _ => Seq::empty(),
    };
    let tail = if family == Family::Nrf9160 {
        seq![ClockStep::DisableUarte(0), ClockStep::DisableUarte(1)]
    } else {
        Seq::empty()
    };
    hf + src + seq![ClockStep::StartLfclk] + tail
}

/// Plans the start-up after the reset decision.
pub fn clock_plan(config: &Config, family: Family) -> (r: Vec<ClockStep>)
    requires
        spec_source_supported(family, config.lfclk_source),
    ensures
        r@ == spec_clock_plan(*config, family),
{
    let mut steps: Vec<ClockStep> = Vec::new();
    match config.hfclk_source {
        HfclkSource::Internal => {},
        HfclkSource::ExternalXtal => {
            steps.push(ClockStep::StartHfclk);
        },
    }
    match family {
        Family::Nrf52 => {
            steps.push(ClockStep::SetLfclkSource(lfclksrc(config.lfclk_source)));
        },
        Family::Nrf9160 => {
            let v: u32 = match config.lfclk_source {
                LfclkSource::ExternalXtal => 2,
                _ => 1,
            };
            steps.push(ClockStep::SetLfclkSource(v));
        },
        _ => {},
    }
    steps.push(ClockStep::StartLfclk);
    if family == Family::Nrf9160 {
        steps.push(ClockStep::DisableUarte(0));
        steps.push(ClockStep::DisableUarte(1));
    }
    assert(steps@ =~= spec_clock_plan(*config, family));
    steps
}

} // verus!
