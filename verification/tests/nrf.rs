use embassy_drivers::nrf::{
    build_code, clock_plan, default_config, lfclksrc, needs_reset, needs_variant, options_valid,
    source_supported, uicr_plan, uicr_writable, uicr_write, uicr_write_changes, ChipOptions,
    Family, NRF53_APPROTECT_DISABLED, NRF53_APP_UICR_APPROTECT, NRF53_APP_UICR_NFCPINS,
    NRF53_APP_UICR_SECUREAPPROTECT, NRF53_NET_UICR_APPROTECT, NRF91_UICR_APPROTECT,
    NRF91_UICR_SECUREAPPROTECT, ClockStep, Config, HfclkSource, LfclkSource, Step, UicrWrite,
    APPROTECT_DISABLE, APPROTECT_DISABLED, APPROTECT_ENABLED, RESET_PIN, UICR_APPROTECT,
    UICR_NFCPINS, UICR_PSELRESET1, UICR_PSELRESET2,
};

#[test]
fn default_config_is_internal_with_debug() {
    let c = Config::default();
    assert_eq!(c.hfclk_source, HfclkSource::Internal);
    assert_eq!(c.lfclk_source, LfclkSource::InternalRC);
    assert_eq!(c.debug, embassy_drivers::nrf::Debug::Allowed);
}

#[test]
fn uicr_writes_only_clear_bits() {
    assert_eq!(uicr_write(0x5a, 0x5a), UicrWrite::Unchanged);
    assert_eq!(uicr_write(0xFFFF_FFFF, 0x5a), UicrWrite::Program);
    assert_eq!(uicr_write(0xFFFF_FFFF & 0x5a, 0x5a), UicrWrite::Unchanged);
    assert!(!uicr_writable(0, 0x5a));
    assert!(uicr_writable(0xFF, 0x5a));
    assert!(uicr_writable(0, 0));
    assert_eq!(uicr_write(0x5a, 0), UicrWrite::Program);
    assert!(uicr_write_changes(UicrWrite::Program));
    assert!(!uicr_write_changes(UicrWrite::Unchanged));
}

#[test]
fn debug_and_reset_pin_plans() {
    let c = Config::default();
    let o = ChipOptions::default();
    assert!(needs_variant(&c, &o));
    assert_eq!(build_code(0x0000_4600), b'F');
    assert_eq!(
        uicr_plan(&c, b'F', &o),
        vec![
            Step::Uicr(UICR_APPROTECT, APPROTECT_DISABLED),
            Step::Register(APPROTECT_DISABLE, APPROTECT_DISABLED),
            Step::Uicr(UICR_PSELRESET1, RESET_PIN),
            Step::Uicr(UICR_PSELRESET2, RESET_PIN),
        ]
    );
    assert_eq!(
        uicr_plan(&c, b'E', &o),
        vec![Step::Uicr(UICR_PSELRESET1, RESET_PIN), Step::Uicr(UICR_PSELRESET2, RESET_PIN)]
    );
    let d = Config { debug: embassy_drivers::nrf::Debug::Disallowed, ..Config::default() };
    assert!(!needs_variant(&d, &o));
    assert_eq!(uicr_plan(&d, 0, &o)[0], Step::Uicr(UICR_APPROTECT, APPROTECT_ENABLED));
    let n = Config { debug: embassy_drivers::nrf::Debug::NotConfigured, ..Config::default() };
    assert_eq!(uicr_plan(&n, b'F', &o).len(), 2);
}

#[test]
fn clock_plans() {
    assert_eq!(lfclksrc(LfclkSource::InternalRC), 0);
    assert_eq!(lfclksrc(LfclkSource::ExternalXtal), 1);
    assert_eq!(lfclksrc(LfclkSource::Synthesized), 2);
    assert_eq!(lfclksrc(LfclkSource::ExternalLowSwing), 0x2_0001);
    assert_eq!(lfclksrc(LfclkSource::ExternalFullSwing), 0x3_0001);
    assert_eq!(
        clock_plan(&Config::default(), Family::Nrf52),
        vec![ClockStep::SetLfclkSource(0), ClockStep::StartLfclk]
    );
    let x = Config { hfclk_source: HfclkSource::ExternalXtal, lfclk_source: LfclkSource::ExternalXtal, debug: embassy_drivers::nrf::Debug::Allowed };
    assert_eq!(
        clock_plan(&x, Family::Nrf52),
        vec![ClockStep::StartHfclk, ClockStep::SetLfclkSource(1), ClockStep::StartLfclk]
    );
}

#[test]
fn reset_and_nfc_pin_options() {
    let c = Config::default();
    let gpio_reset = ChipOptions { reset_pin_as_gpio: true, ..ChipOptions::default() };
    assert_eq!(
        uicr_plan(&c, b'E', &gpio_reset),
        Vec::<Step>::new()
    );
    let nfc = ChipOptions { nfc_pins_as_gpio: true, reset_pin: 21, ..ChipOptions::default() };
    assert_eq!(
        uicr_plan(&c, b'E', &nfc),
        vec![
            Step::Uicr(UICR_PSELRESET1, 21),
            Step::Uicr(UICR_PSELRESET2, 21),
            Step::Uicr(UICR_NFCPINS, 0),
        ]
    );
    assert_eq!(ChipOptions::default().reset_pin, 18);
}

#[test]
fn reset_owed_when_any_word_changed() {
    assert!(!needs_reset(&[]));
    assert!(!needs_reset(&[UicrWrite::Unchanged, UicrWrite::Unchanged]));
    assert!(needs_reset(&[UicrWrite::Unchanged, UicrWrite::Program]));
}

#[test]
fn other_families_debug_steps() {
    let allowed = Config::default();
    let denied = Config { debug: embassy_drivers::nrf::Debug::Disallowed, ..Config::default() };
    let app = ChipOptions { family: Family::Nrf5340App, ..ChipOptions::default() };
    assert!(!needs_variant(&allowed, &app));
    assert_eq!(
        uicr_plan(&allowed, 0, &app),
        vec![
            Step::Uicr(NRF53_APP_UICR_APPROTECT, 0x50FA_50FA),
            Step::CtrlApApprotectDisable(NRF53_APPROTECT_DISABLED),
            Step::Uicr(NRF53_APP_UICR_SECUREAPPROTECT, 0x50FA_50FA),
            Step::CtrlApSecureApprotectDisable(NRF53_APPROTECT_DISABLED),
        ]
    );
    assert_eq!(
        uicr_plan(&denied, 0, &app),
        vec![
            Step::Uicr(0x00FF_8000, 0),
            Step::Uicr(0x00FF_801C, 0),
        ]
    );
    let nfc = ChipOptions { nfc_pins_as_gpio: true, ..app };
    assert_eq!(uicr_plan(&Config { debug: embassy_drivers::nrf::Debug::NotConfigured, ..allowed }, 0, &nfc),
        vec![Step::Uicr(NRF53_APP_UICR_NFCPINS, 0)]);
    let net = ChipOptions { family: Family::Nrf5340Net, ..ChipOptions::default() };
    assert_eq!(
        uicr_plan(&allowed, 0, &net),
        vec![
            Step::Uicr(NRF53_NET_UICR_APPROTECT, 0x50FA_50FA),
            Step::CtrlApApprotectDisable(0x50FA_50FA),
        ]
    );
    assert_eq!(uicr_plan(&denied, 0, &net), vec![Step::Uicr(0x01FF_8000, 0)]);
    let n91 = ChipOptions { family: Family::Nrf9160, ..ChipOptions::default() };
    assert!(uicr_plan(&allowed, b'F', &n91).is_empty());
    assert_eq!(
        uicr_plan(&denied, 0, &n91),
        vec![Step::Uicr(NRF91_UICR_APPROTECT, 0), Step::Uicr(NRF91_UICR_SECUREAPPROTECT, 0)]
    );
}

#[test]
fn family_options_and_defaults() {
    assert!(options_valid(&ChipOptions::default()));
    let n91 = ChipOptions { family: Family::Nrf9160, ..ChipOptions::default() };
    assert!(!options_valid(&ChipOptions { reset_pin_as_gpio: true, ..n91 }));
    assert!(!options_valid(&ChipOptions { nfc_pins_as_gpio: true, ..n91 }));
    assert!(options_valid(&ChipOptions { non_secure: true, ..n91 }));
    assert!(!options_valid(&ChipOptions { non_secure: true, ..ChipOptions::default() }));
    assert_eq!(
        default_config(&ChipOptions { non_secure: true, ..n91 }).debug,
        embassy_drivers::nrf::Debug::NotConfigured
    );
    assert_eq!(default_config(&n91), Config::default());
}

#[test]
fn other_families_clock_plans() {
    assert!(!source_supported(Family::Nrf9160, LfclkSource::Synthesized));
    assert!(source_supported(Family::Nrf5340App, LfclkSource::ExternalXtal));
    assert!(source_supported(Family::Nrf52, LfclkSource::ExternalFullSwing));
    let x = Config { lfclk_source: LfclkSource::ExternalXtal, ..Config::default() };
    assert_eq!(
        clock_plan(&x, Family::Nrf9160),
        vec![
            ClockStep::SetLfclkSource(2),
            ClockStep::StartLfclk,
            ClockStep::DisableUarte(0),
            ClockStep::DisableUarte(1),
        ]
    );
    assert_eq!(clock_plan(&Config::default(), Family::Nrf9160)[0], ClockStep::SetLfclkSource(1));
    assert_eq!(clock_plan(&x, Family::Nrf5340Net), vec![ClockStep::StartLfclk]);
}
