//! Types shared by all device capabilities.

use vstd::prelude::*;

verus! {

/// Identifies a piece of hardware, for example by its MAC address or serial
/// number.
pub struct HardwareId(pub String);

#[derive(Debug)]
pub enum HalError {
    DeviceNotFound,
    InitializationFailed,
    ReadError(String),
    WriteError(String),
    UnsupportedOperation,
    InvalidParameter(String),
    Other(String),
}

pub type HalResult<T> = Result<T, HalError>;

} // verus!
