//! The CRC32 unit: the driver owns the peripheral while it is in use.
use vstd::prelude::*;

verus! {

/// The CRC peripheral.
pub struct CRC;

/// A CRC32 unit in use.
pub struct Crc {
    _peripheral: CRC,
}

impl Crc {
    /// The peripheral owned.
    pub closed spec fn peripheral(&self) -> CRC {
        self._peripheral
    }

    /// Takes the peripheral. The unit's clock is then enabled and the unit
    /// reset to its default value (0xFFFF_FFFF).
    pub fn new(peripheral: CRC) -> (r: Self)
        ensures
            r.peripheral() == peripheral,
    {
        Crc { _peripheral: peripheral }
    }

    /// Reclaims the CRC peripheral. The unit's clock is then disabled.
    pub fn release(self) -> (r: CRC)
        ensures
            r == self.peripheral(),
    {
        self._peripheral
    }
}

} // verus!
