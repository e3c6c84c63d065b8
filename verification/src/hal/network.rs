//! Network interfaces.

use vstd::prelude::*;

use crate::hal::common::{HalResult, HardwareId};

verus! {

#[derive(Debug)]
pub enum IpAddress {
    V4([u8; 4]),
    V6([u16; 8]),
}

impl Clone for IpAddress {
    fn clone(&self) -> (copy: Self)
        ensures
            copy == *self,
    {
        match self {
            IpAddress::V4(octets) => IpAddress::V4(*octets),
            IpAddress::V6(groups) => IpAddress::V6(*groups),
        }
    }
}

pub trait NetworkInterface {
    fn new(interface_name: &str) -> HalResult<Self> where Self: Sized;

    /// The hardware address of the interface.
    fn get_id(&self) -> HardwareId;

    fn get_ip_address(&self) -> HalResult<IpAddress>;

    fn send(&mut self, data: &[u8], destination_ip: IpAddress, port: u16) -> HalResult<()>;

    /// Receives into `buffer`; the result is the number of bytes read, the
    /// source address and the source port.
    fn receive(&mut self, buffer: &mut [u8]) -> HalResult<(usize, IpAddress, u16)>;
}

} // verus!
