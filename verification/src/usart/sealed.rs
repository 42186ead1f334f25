//! The sealed halves of the USART traits, which carry what only this crate
//! may provide.
use vstd::prelude::*;

verus! {

/// Base address of a USART register block.
#[derive(Clone, Copy, Debug, PartialEq, Eq, Structural)]
pub struct Usart(pub usize);

pub trait Instance {
    /// The instance's register block.
    fn regs(&self) -> Usart;
}

pub trait RxPin<T: Instance> {
    /// Alternate function number that connects the pin to the instance.
    fn af_num(&self) -> u8;
}

pub trait TxPin<T: Instance> {
    /// Alternate function number that connects the pin to the instance.
    fn af_num(&self) -> u8;
}

pub trait CtsPin<T: Instance> {
    /// Alternate function number that connects the pin to the instance.
    fn af_num(&self) -> u8;
}

pub trait RtsPin<T: Instance> {
    /// Alternate function number that connects the pin to the instance.
    fn af_num(&self) -> u8;
}

pub trait CkPin<T: Instance> {
    /// Alternate function number that connects the pin to the instance.
    fn af_num(&self) -> u8;
}

} // verus!
