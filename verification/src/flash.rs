//! The interface of a flash memory device.
use vstd::prelude::*;

verus! {

/// Errors of flash operations.
#[non_exhaustive]
#[derive(Clone, Copy, Debug, PartialEq, Eq, Structural)]
pub enum Error {
    Failed,
    AddressMisaligned,
    BufferMisaligned,
}

/// Whether `n` is a power of two.
pub open spec fn is_power_of_two(n: usize) -> bool {
    exists|k: nat| k < usize::BITS && vstd::arithmetic::power2::pow2(k) == n
}

/// A flash memory device.
pub trait Flash {
    /// The device's read size, in bytes.
    spec fn spec_read_size(&self) -> usize;

    /// The device's write size, in bytes.
    spec fn spec_write_size(&self) -> usize;

    /// The device's erase size, in bytes.
    spec fn spec_erase_size(&self) -> usize;

    /// Reads data from the flash device.
    ///
    /// address must be a multiple of self.read_size().
    /// buf.len() must be a multiple of self.read_size().
    fn read(&mut self, address: usize, buf: &mut [u8]) -> Result<(), Error>
        requires
            old(self).spec_read_size() > 0,
            address % old(self).spec_read_size() == 0,
            old(buf)@.len() as int % (old(self).spec_read_size() as int) == 0,
    ;

    /// Writes data to the flash device.
    ///
    /// address must be a multiple of self.write_size().
    /// buf.len() must be a multiple of self.write_size().
    fn write(&mut self, address: usize, buf: &[u8]) -> Result<(), Error>
        requires
            old(self).spec_write_size() > 0,
            address % old(self).spec_write_size() == 0,
            buf@.len() as int % (old(self).spec_write_size() as int) == 0,
    ;

    /// Erases a single page from the flash device.
    ///
    /// address must be a multiple of self.erase_size().
    fn erase(&mut self, address: usize) -> Result<(), Error>
        requires
            old(self).spec_erase_size() > 0,
            address % old(self).spec_erase_size() == 0,
    ;

    /// Returns the total size, in bytes.
    /// This is not guaranteed to be a power of 2.
    fn size(&self) -> usize;

    /// Returns the read size in bytes.
    /// This is guaranteed to be a power of 2.
    fn read_size(&self) -> (r: usize)
        ensures
            is_power_of_two(r),
            r == self.spec_read_size(),
    ;

    /// Returns the write size in bytes.
    /// This is guaranteed to be a power of 2.
    fn write_size(&self) -> (r: usize)
        ensures
            is_power_of_two(r),
            r == self.spec_write_size(),
    ;

    /// Returns the erase size in bytes.
    /// This is guaranteed to be a power of 2.
    fn erase_size(&self) -> (r: usize)
        ensures
            is_power_of_two(r),
            r == self.spec_erase_size(),
    ;
}

} // verus!
