//! USART configuration and construction.
use vstd::prelude::*;
use core::marker::PhantomData;

pub mod sealed;

verus! {

/// Frame configuration of a USART.
#[non_exhaustive]
#[derive(Clone, Copy, Debug, PartialEq, Eq, Structural)]
pub struct Config {
    pub baudrate: u32,
    pub data_bits: u8,
    pub stop_bits: u8,
}

impl Default for Config {
    /// 115200 baud, 8 data bits, 1 stop bit.
    fn default() -> (r: Self)
        ensures
            r == (Config { baudrate: 115200, data_bits: 8, stop_bits: 1 }),
    {
        Config { baudrate: 115200, data_bits: 8, stop_bits: 1 }
    }
}

/// A USART instance.
pub trait Instance: sealed::Instance {

}

/// A pin that can be the receive line of instance `T`.
pub trait RxPin<T: Instance>: sealed::RxPin<T> {

}

/// A pin that can be the transmit line of instance `T`.
pub trait TxPin<T: Instance>: sealed::TxPin<T> {

}

/// A pin that can be the clear-to-send line of instance `T`.
pub trait CtsPin<T: Instance>: sealed::CtsPin<T> {

}

/// A pin that can be the request-to-send line of instance `T`.
pub trait RtsPin<T: Instance>: sealed::RtsPin<T> {

}

/// A pin that can be the clock line of instance `T`.
pub trait CkPin<T: Instance>: sealed::CkPin<T> {

}

/// A USART driver.
pub struct Uart<'d, T: Instance> {
    inner: T,
    phantom: PhantomData<&'d mut T>,
}

impl<'d, T: Instance> Uart<'d, T> {
    /// The instance driven.
    pub closed spec fn spec_inner(&self) -> T {
        self.inner
    }

    /// Takes the instance and its pins.
    pub fn new<RX: RxPin<T>, TX: TxPin<T>, CTS: CtsPin<T>, RTS: RtsPin<T>>(
        inner: T,
        rx: RX,
        tx: TX,
        cts: CTS,
        rts: RTS,
        config: Config,
    ) -> (r: Self)
        ensures
            r.spec_inner() == inner,
    {
        Uart { inner, phantom: PhantomData }
    }
}

} // verus!
