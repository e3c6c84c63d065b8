//! Hardware abstraction: the device capabilities a platform provides.

use vstd::prelude::*;

pub mod common;
pub mod gpio;
pub mod network;
pub mod platforms;
pub mod radio;
pub mod serial;
pub mod timers;

pub use common::{HalError, HalResult, HardwareId};
pub use gpio::{GpioPin, PinMode, PinState};
pub use network::NetworkInterface;
pub use radio::RadioDevice;
pub use serial::SerialDevice;
pub use timers::Timer;

verus! {

/// The devices of one platform.
pub trait PlatformHal {
    type Serial: SerialDevice;

    type Gpio: GpioPin;

    type Timer: Timer;

    type Network: NetworkInterface;

    type Radio: RadioDevice;

    fn new() -> Self where Self: Sized;

    fn platform_name(&self) -> &'static str;
}

} // verus!
