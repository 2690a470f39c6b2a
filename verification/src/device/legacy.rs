//! Legacy peripherals. The serial port here is a stub: it accepts every
//! access and transfers nothing.

use vstd::prelude::*;

use crate::memory::{Addressable, Error, MemoryAddr};

verus! {

/// A placeholder serial port: every read and write is accepted and reports
/// zero bytes transferred.
pub struct Serial {}

impl Serial {
    /// Create a serial port.
    pub fn new() -> Serial {
        Serial {  }
    }
}

impl Addressable for Serial {
    fn read(&self, buf: &mut Vec<u8>, addr: MemoryAddr) -> (r: Result<usize, Error>)
        ensures
            r == Ok::<usize, Error>(0usize),
            final(buf)@ == old(buf)@,
    {
        Ok(0)
    }

    fn write(&mut self, buf: &[u8], addr: MemoryAddr) -> (r: Result<usize, Error>)
        ensures
            r == Ok::<usize, Error>(0usize),
            *final(self) == *old(self),
    {
        Ok(0)
    }
}

} // verus!
