use embassy_drivers::adc::resolution::{Res, Resolution};
use embassy_drivers::adc::resolution_v4::{Res as ResV4, Resolution as ResolutionV4};
use embassy_drivers::crc::{Crc, CRC};
use embassy_drivers::exti::{ExtiManager, PinWithInterrupt, Port, Sealed};
use embassy_drivers::flash::Error;
use embassy_drivers::peripheral::{OwnedInterrupt, PeripheralMutex, PeripheralState};
use embassy_drivers::usart::{self, sealed, Uart};

#[test]
fn max_counts() {
    assert_eq!(Resolution::TwelveBit.to_max_count(), 4095);
    assert_eq!(Resolution::TenBit.to_max_count(), 1023);
    assert_eq!(Resolution::EightBit.to_max_count(), 255);
    assert_eq!(Resolution::SixBit.to_max_count(), 63);
    assert_eq!(ResolutionV4::SixteenBit.to_max_count(), 65535);
    assert_eq!(ResolutionV4::FourteenBit.to_max_count(), 16383);
    assert_eq!(ResolutionV4::TwelveBit.to_max_count(), 4095);
    assert_eq!(ResolutionV4::TenBit.to_max_count(), 1023);
    assert_eq!(ResolutionV4::EightBit.to_max_count(), 255);
}

#[test]
fn default_resolutions_and_fields() {
    assert_eq!(Resolution::default(), Resolution::TwelveBit);
    assert_eq!(ResolutionV4::default(), ResolutionV4::SixteenBit);
    assert_eq!(Resolution::SixBit.res(), Res::SIXBIT);
    assert_eq!(Resolution::TwelveBit.res(), Res::TWELVEBIT);
    assert_eq!(ResolutionV4::FourteenBit.res(), ResV4::FOURTEENBITV);
    assert_eq!(ResolutionV4::EightBit.res(), ResV4::EIGHTBIT);
}

#[test]
fn crc_gives_back_its_peripheral() {
    let c = Crc::new(CRC);
    let _p: CRC = c.release();
}

#[test]
fn flash_errors_compare() {
    assert_eq!(Error::Failed, Error::Failed);
    assert_ne!(Error::AddressMisaligned, Error::BufferMisaligned);
}

struct Counter {
    hits: u32,
}

#[derive(Default)]
struct Irq {
    enabled: bool,
    handler: bool,
}

impl OwnedInterrupt for Irq {
    fn number(&self) -> u16 {
        5
    }
    fn is_enabled(&self) -> bool {
        self.enabled
    }
    fn has_handler(&self) -> bool {
        self.handler
    }
    fn disable(&mut self) {
        self.enabled = false;
    }
    fn enable(&mut self) {
        self.enabled = true;
    }
    fn remove_handler(&mut self) {
        self.handler = false;
    }
}

impl PeripheralState for Counter {
    type Interrupt = Irq;
    fn on_interrupt(&mut self) {
        self.hits += 1;
    }
}

#[test]
fn mutex_runs_closure_with_interrupt_disabled() {
    let mut m = PeripheralMutex::new(Counter { hits: 0 }, Irq { enabled: true, handler: true });
    let seen = m.with(|mut s, i| {
        let was = i.enabled;
        s.hits += 10;
        (s, i, was)
    });
    assert!(!seen);
    m.on_interrupt();
    let (s, i) = m.free();
    assert_eq!(s.hits, 11);
    assert!(!i.enabled);
    assert!(!i.handler);
    assert!(m.try_free().is_none());
}

#[test]
fn mutex_try_free_once() {
    let mut m = PeripheralMutex::new(Counter { hits: 3 }, Irq::default());
    let r = m.try_free();
    assert_eq!(r.map(|(s, _)| s.hits), Some(3));
    assert!(m.try_free().is_none());
    m.on_interrupt();
}

struct Pin3;
impl Sealed for Pin3 {}
impl PinWithInterrupt for Pin3 {
    type Interrupt = u8;
    fn port(&self) -> Port {
        Port::PB
    }
    fn line(&self) -> u8 {
        3
    }
}

#[test]
fn exti_pins_from_manager() {
    let mgr: &'static mut ExtiManager<u32> = Box::leak(Box::new(ExtiManager::new((), 7u32)));
    let _pin = mgr.new_pin(Pin3, 2u8);
    assert_eq!(Pin3.port(), Port::PB);
    assert_eq!(Pin3.line(), 3);
}

struct Usart1;
impl sealed::Instance for Usart1 {
    fn regs(&self) -> sealed::Usart {
        sealed::Usart(0x4001_1000)
    }
}
impl usart::Instance for Usart1 {}
struct Pa10;
impl sealed::RxPin<Usart1> for Pa10 {
    fn af_num(&self) -> u8 {
        7
    }
}
impl usart::RxPin<Usart1> for Pa10 {}
struct Pa9;
impl sealed::TxPin<Usart1> for Pa9 {
    fn af_num(&self) -> u8 {
        7
    }
}
impl usart::TxPin<Usart1> for Pa9 {}
struct Pa11;
impl sealed::CtsPin<Usart1> for Pa11 {
    fn af_num(&self) -> u8 {
        7
    }
}
impl usart::CtsPin<Usart1> for Pa11 {}
struct Pa12;
impl sealed::RtsPin<Usart1> for Pa12 {
    fn af_num(&self) -> u8 {
        7
    }
}
impl usart::RtsPin<Usart1> for Pa12 {}

#[test]
fn usart_default_config_and_construction() {
    let c = usart::Config::default();
    assert_eq!((c.baudrate, c.data_bits, c.stop_bits), (115200, 8, 1));
    let _u: Uart<'_, Usart1> = Uart::new(Usart1, Pa10, Pa9, Pa11, Pa12, c);
    assert_eq!(sealed::Instance::regs(&Usart1), sealed::Usart(0x4001_1000));
}
