//! General-purpose input/output pins.

use vstd::prelude::*;

use crate::hal::common::HalResult;

verus! {

#[derive(Debug, Clone, Copy)]
pub enum PinMode {
    Input,
    Output,
    InputPullUp,
    InputPullDown,
}

#[derive(Debug, Clone, Copy, PartialEq, Eq, Structural)]
pub enum PinState {
    Low,
    High,
}

pub trait GpioPin {
    /// How the platform names a pin.
    type PinIdentifier;

    fn new(identifier: Self::PinIdentifier) -> HalResult<Self> where Self: Sized;

    fn set_mode(&mut self, mode: PinMode) -> HalResult<()>;

    fn read(&self) -> HalResult<PinState>;

    fn write(&mut self, state: PinState) -> HalResult<()>;
}

} // verus!
