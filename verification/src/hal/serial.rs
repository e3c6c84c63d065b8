//! Serial ports.

use vstd::prelude::*;

use crate::hal::common::HalResult;

verus! {

pub trait SerialDevice {
    fn open(port: &str, baud_rate: u32) -> HalResult<Self> where Self: Sized;

    /// Reads into `buffer`; the result is the number of bytes read.
    fn read(&mut self, buffer: &mut [u8]) -> HalResult<usize>;

    /// Writes `data`; the result is the number of bytes written.
    fn write(&mut self, data: &[u8]) -> HalResult<usize>;

    fn close(self) -> HalResult<()>;
}

} // verus!
