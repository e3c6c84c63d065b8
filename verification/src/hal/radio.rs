//! Radio transceivers.

use vstd::prelude::*;

use crate::hal::common::HalResult;

verus! {

pub trait RadioDevice {
    fn new() -> HalResult<Self> where Self: Sized;

    fn set_channel(&mut self, channel: u8) -> HalResult<()>;

    /// Sets the data rate, given as text such as "250kbps" or "1Mbps".
    fn set_datarate(&mut self, datarate: &str) -> HalResult<()>;

    fn set_tx_power(&mut self, power_level: i8) -> HalResult<()>;

    fn transmit(&mut self, payload: &[u8]) -> HalResult<()>;

    /// Receives into `buffer`; the result is the number of bytes received.
    fn receive(&mut self, buffer: &mut [u8]) -> HalResult<usize>;
}

} // verus!
