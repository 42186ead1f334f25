//! External interrupt (EXTI) lines for GPIO pins: a manager that owns the
//! system configuration controller and hands out edge-waiting pins.
use vstd::prelude::*;

verus! {

/// GPIO port of a pin.
#[derive(Clone, Copy, Debug, PartialEq, Eq, Structural)]
pub enum Port {
    PA,
    PB,
    PC,
    PD,
    PE,
    PH,
}

/// Marks the types that may implement [`PinWithInterrupt`].
pub trait Sealed {

}

/// A pin that can raise an external interrupt.
pub trait PinWithInterrupt: Sealed {
    /// The interrupt line the pin's EXTI line is routed to.
    type Interrupt;

    /// The pin's port.
    fn port(&self) -> Port;

    /// The pin's EXTI line (its pin number, 0 to 15).
    fn line(&self) -> u8;
}

/// Owns the system configuration controller, which routes GPIO ports to
/// EXTI lines.
pub struct ExtiManager<SYSCFG> {
    syscfg: SYSCFG,
}

/// A pin whose edges can be waited for.
pub struct ExtiPin<T, I, SYSCFG: 'static> {
    pin: T,
    interrupt: I,
    mgr: &'static mut ExtiManager<SYSCFG>,
}

impl<SYSCFG> ExtiManager<SYSCFG> {
    /// The system configuration controller owned.
    pub closed spec fn spec_syscfg(&self) -> SYSCFG {
        self.syscfg
    }

    /// Takes the EXTI peripheral and the system configuration controller.
    pub fn new<EXTI>(_exti: EXTI, syscfg: SYSCFG) -> (r: Self)
        ensures
            r.spec_syscfg() == syscfg,
    {
        ExtiManager { syscfg }
    }

    /// Makes `pin`, whose interrupt line is `interrupt`, wait-able.
    pub fn new_pin<T, I>(&'static mut self, pin: T, interrupt: I) -> (r: ExtiPin<T, I, SYSCFG>)
        where
            T: PinWithInterrupt<Interrupt = I>,
        ensures
            r.spec_pin() == pin,
            r.spec_interrupt() == interrupt,
            r.spec_mgr().spec_syscfg() == old(self).spec_syscfg(),
    {
        ExtiPin { pin, interrupt, mgr: self }
    }
}

impl<T, I, SYSCFG: 'static> ExtiPin<T, I, SYSCFG> {
    /// The pin.
    pub closed spec fn spec_pin(&self) -> T {
        self.pin
    }

    /// The pin's interrupt line.
    pub closed spec fn spec_interrupt(&self) -> I {
        self.interrupt
    }

    /// The manager the pin was made from, as it stands.
    pub closed spec fn spec_mgr(&self) -> ExtiManager<SYSCFG> {
        *self.mgr
    }
}

} // verus!
