//! The Ryze Tello: a stand-in device set on which no operation is supported
//! yet.

use std::time::Duration;
use vstd::prelude::*;

use crate::hal::common::{HalError, HalResult, HardwareId};
use crate::hal::gpio::{GpioPin, PinMode, PinState};
use crate::hal::network::{IpAddress, NetworkInterface};
use crate::hal::radio::RadioDevice;
use crate::hal::serial::SerialDevice;
use crate::hal::timers::Timer;
use crate::hal::PlatformHal;

verus! {

pub struct TelloHal;

pub struct DummySerial;

impl SerialDevice for DummySerial {
    fn open(_port: &str, _baud_rate: u32) -> (result: HalResult<Self>)
        ensures
            result matches Err(HalError::UnsupportedOperation),
    {
        Err(HalError::UnsupportedOperation)
    }

    fn read(&mut self, _buffer: &mut [u8]) -> (result: HalResult<usize>)
        ensures
            result matches Err(HalError::UnsupportedOperation),
            final(_buffer)@ == old(_buffer)@,
    {
        Err(HalError::UnsupportedOperation)
    }

    fn write(&mut self, _data: &[u8]) -> (result: HalResult<usize>)
        ensures
            result matches Err(HalError::UnsupportedOperation),
    {
        Err(HalError::UnsupportedOperation)
    }

    fn close(self) -> (result: HalResult<()>)
        ensures
            result matches Err(HalError::UnsupportedOperation),
    {
        Err(HalError::UnsupportedOperation)
    }
}

pub struct DummyGpio;

impl GpioPin for DummyGpio {
    type PinIdentifier = u32;

    fn new(_identifier: Self::PinIdentifier) -> (result: HalResult<Self>)
        ensures
            result matches Err(HalError::UnsupportedOperation),
    {
        Err(HalError::UnsupportedOperation)
    }

    fn set_mode(&mut self, _mode: PinMode) -> (result: HalResult<()>)
        ensures
            result matches Err(HalError::UnsupportedOperation),
    {
        Err(HalError::UnsupportedOperation)
    }

    fn read(&self) -> (result: HalResult<PinState>)
        ensures
            result matches Err(HalError::UnsupportedOperation),
    {
        Err(HalError::UnsupportedOperation)
    }

    fn write(&mut self, _state: PinState) -> (result: HalResult<()>)
        ensures
            result matches Err(HalError::UnsupportedOperation),
    {
        Err(HalError::UnsupportedOperation)
    }
}

pub struct DummyTimer;

impl Timer for DummyTimer {
    type TimerId = u32;

    fn new(_id: Self::TimerId) -> (result: HalResult<Self>)
        ensures
            result matches Err(HalError::UnsupportedOperation),
    {
        Err(HalError::UnsupportedOperation)
    }

    fn start<F: FnMut() + Send + 'static>(
        &mut self,
        _duration: Duration,
        _periodic: bool,
        _callback: F,
    ) -> (result: HalResult<()>)
        ensures
            result matches Err(HalError::UnsupportedOperation),
    {
        Err(HalError::UnsupportedOperation)
    }

    fn stop(&mut self) -> (result: HalResult<()>)
        ensures
            result matches Err(HalError::UnsupportedOperation),
    {
        Err(HalError::UnsupportedOperation)
    }
}

pub struct DummyNetwork;

impl NetworkInterface for DummyNetwork {
    fn new(_interface_name: &str) -> (result: HalResult<Self>)
        ensures
            result matches Err(HalError::UnsupportedOperation),
    {
        Err(HalError::UnsupportedOperation)
    }

    fn get_id(&self) -> (id: HardwareId)
        ensures
            id.0@ == "dummy_hw_id"@,
    {
        HardwareId("dummy_hw_id".to_string())
    }

    fn get_ip_address(&self) -> (result: HalResult<IpAddress>)
        ensures
            result matches Err(HalError::UnsupportedOperation),
    {
        Err(HalError::UnsupportedOperation)
    }

    fn send(&mut self, _data: &[u8], _destination_ip: IpAddress, _port: u16) -> (result: HalResult<
        (),
    >)
        ensures
            result matches Err(HalError::UnsupportedOperation),
    {
        Err(HalError::UnsupportedOperation)
    }

    fn receive(&mut self, _buffer: &mut [u8]) -> (result: HalResult<(usize, IpAddress, u16)>)
        ensures
            result matches Err(HalError::UnsupportedOperation),
            final(_buffer)@ == old(_buffer)@,
    {
        Err(HalError::UnsupportedOperation)
    }
}

pub struct DummyRadio;

impl RadioDevice for DummyRadio {
    fn new() -> (result: HalResult<Self>)
        ensures
            result matches Err(HalError::UnsupportedOperation),
    {
        Err(HalError::UnsupportedOperation)
    }

    fn set_channel(&mut self, _channel: u8) -> (result: HalResult<()>)
        ensures
            result matches Err(HalError::UnsupportedOperation),
    {
        Err(HalError::UnsupportedOperation)
    }

    fn set_datarate(&mut self, _datarate: &str) -> (result: HalResult<()>)
        ensures
            result matches Err(HalError::UnsupportedOperation),
    {
        Err(HalError::UnsupportedOperation)
    }

    fn set_tx_power(&mut self, _power_level: i8) -> (result: HalResult<()>)
        ensures
            result matches Err(HalError::UnsupportedOperation),
    {
        Err(HalError::UnsupportedOperation)
    }

    fn transmit(&mut self, _payload: &[u8]) -> (result: HalResult<()>)
        ensures
            result matches Err(HalError::UnsupportedOperation),
    {
        Err(HalError::UnsupportedOperation)
    }

    fn receive(&mut self, _buffer: &mut [u8]) -> (result: HalResult<usize>)
        ensures
            result matches Err(HalError::UnsupportedOperation),
            final(_buffer)@ == old(_buffer)@,
    {
        Err(HalError::UnsupportedOperation)
    }
}

impl PlatformHal for TelloHal {
    type Serial = DummySerial;

    type Gpio = DummyGpio;

    type Timer = DummyTimer;

    type Network = DummyNetwork;

    type Radio = DummyRadio;

    fn new() -> Self {
        TelloHal
    }

    fn platform_name(&self) -> (name: &'static str)
        ensures
            name@ == "Ryze Tello"@,
    {
        "Ryze Tello"
    }
}

} // verus!
