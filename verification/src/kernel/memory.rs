//! The memory-management capability the kernel expects from its
//! environment.

use vstd::prelude::*;

use crate::kernel::process::ProcessId;
use crate::kernel::KernelResult;

verus! {

pub type Address = usize;

pub type Size = usize;

/// A block of memory allocated to a process.
pub struct MemoryRegion {
    pub start_address: Address,
    pub size: Size,
    pub process_id: ProcessId,
}

pub trait MemoryManagement {
    fn allocate(pid: ProcessId, size: Size) -> KernelResult<Address>;

    fn deallocate(pid: ProcessId, address: Address) -> KernelResult<()>;
}

} // verus!
