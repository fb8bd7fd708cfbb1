//! Peer-to-peer access between devices.

use vstd::prelude::*;

use crate::driver::context::{after_bind, DriverContext};
use crate::driver::error::{status_result, DriverError, IntoResult};

verus! {

/// The status of enabling access that is enabled already.
pub const CUDA_ERROR_PEER_ACCESS_ALREADY_ENABLED: u32 = 704;

/// The status of disabling access that is not enabled.
pub const CUDA_ERROR_PEER_ACCESS_NOT_ENABLED: u32 = 705;

/// Checks whether `from` can directly access memory on `to`.
///
/// This is a query only: it does not enable access.
pub fn can_access_peer<D: DriverContext>(from: &D, to: &D) -> (r: Result<bool, DriverError>)
    ensures
        exists|a: i32, b: i32, answer: (u32, i32)|
            {
                &&& #[trigger] call_ensures(D::cu_device, (from,), a)
                &&& #[trigger] call_ensures(D::cu_device, (to,), b)
                &&& #[trigger] call_ensures(D::device_can_access_peer, (from, a, b), answer)
                &&& r == status_result(answer.0, answer.1 != 0)
            },
{
    let a: i32 = from.cu_device();
    let b: i32 = to.cu_device();
    let answer = from.device_can_access_peer(a, b);
    match answer.result() {
        Ok(can_access) => Ok(can_access != 0),
        Err(error) => Err(error),
    }
}

/// The result of a call whose status `benign` also counts as success.
pub open spec fn unless_benign(code: u32, benign: u32) -> Result<(), DriverError> {
    if code == benign {
        Ok(())
    } else {
        status_result(code, ())
    }
}

/// Enables direct access from `from`'s context to `to`'s device memory, in
/// this direction only.
///
/// Succeeds where access was enabled or was already enabled.
pub fn enable_peer_access<D: DriverContext>(from: &D, to: &D) -> (r: Result<(), DriverError>)
    ensures
        after_bind(
            from,
            r,
            |r: Result<(), DriverError>|
                exists|peer: u64, code: u32|
                    #[trigger] call_ensures(D::cu_ctx, (to,), peer) && #[trigger] call_ensures(
                        D::ctx_enable_peer_access,
                        (from, peer, 0u32),
                        code,
                    ) && r == unless_benign(code, CUDA_ERROR_PEER_ACCESS_ALREADY_ENABLED),
        ),
{
    match from.bind_to_thread() {
        Ok(()) => {},
        Err(error) => return Err(error),
    }
    let peer: u64 = to.cu_ctx();
    let code: u32 = from.ctx_enable_peer_access(peer, 0);
    if code == CUDA_ERROR_PEER_ACCESS_ALREADY_ENABLED {
        Ok(())
    } else {
        code.result()
    }
}

/// Disables direct access from `from`'s context to `to`'s device memory.
///
/// Succeeds where access was disabled or was not enabled.
pub fn disable_peer_access<D: DriverContext>(from: &D, to: &D) -> (r: Result<(), DriverError>)
    ensures
        after_bind(
            from,
            r,
            |r: Result<(), DriverError>|
                exists|peer: u64, code: u32|
                    #[trigger] call_ensures(D::cu_ctx, (to,), peer) && #[trigger] call_ensures(
                        D::ctx_disable_peer_access,
                        (from, peer),
                        code,
                    ) && r == unless_benign(code, CUDA_ERROR_PEER_ACCESS_NOT_ENABLED),
        ),
{
    match from.bind_to_thread() {
        Ok(()) => {},
        Err(error) => return Err(error),
    }
    let peer: u64 = to.cu_ctx();
    let code: u32 = from.ctx_disable_peer_access(peer);
    if code == CUDA_ERROR_PEER_ACCESS_NOT_ENABLED {
        Ok(())
    } else {
        code.result()
    }
}

} // verus!
