//! Memory fences.

use vstd::prelude::*;

use crate::device::thread::{DeviceInstruction, KernelScope};

verus! {

/// Orders this thread's memory accesses for the threads of its block.
pub fn threadfence_block(scope: &mut KernelScope)
    ensures
        final(scope).registers() == old(scope).registers(),
        final(scope).issued() == old(scope).issued().push(DeviceInstruction::FenceBlock),
{
    scope.issue(DeviceInstruction::FenceBlock);
}

/// Orders this thread's memory accesses for the threads of the device.
pub fn threadfence(scope: &mut KernelScope)
    ensures
        final(scope).registers() == old(scope).registers(),
        final(scope).issued() == old(scope).issued().push(DeviceInstruction::FenceDevice),
{
    scope.issue(DeviceInstruction::FenceDevice);
}

/// Orders this thread's memory accesses for the whole system, the host
/// included.
pub fn threadfence_system(scope: &mut KernelScope)
    ensures
        final(scope).registers() == old(scope).registers(),
        final(scope).issued() == old(scope).issued().push(DeviceInstruction::FenceSystem),
{
    scope.issue(DeviceInstruction::FenceSystem);
}

} // verus!
