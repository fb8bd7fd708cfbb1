//! Device memory and page-locked host memory: allocation, copies and fills.
//!
//! Addresses are numbers. The calls that are enqueued on a stream
//! return before the device has done the work. An allocation, and a copy from
//! the host, need the context to be current on the calling thread.

use vstd::prelude::*;

use crate::driver::context::{bound, DriverContext};
use crate::driver::error::{status_result, DriverError, IntoResult};

verus! {

/// Allocates `num_bytes` of device memory in stream order.
pub fn malloc_async<D: DriverContext>(ctx: &D, stream: u64, num_bytes: usize) -> (r: Result<
    u64,
    DriverError,
>)
    requires
        bound(ctx),
    ensures
        exists|out: (u32, u64)|
            #[trigger] call_ensures(D::mem_alloc_async, (ctx, num_bytes, stream), out) && r
                == status_result(out.0, out.1),
{
    ctx.mem_alloc_async(num_bytes, stream).result()
}

/// Frees device memory in stream order.
pub fn free_async<D: DriverContext>(ctx: &D, dptr: u64, stream: u64) -> (r: Result<(), DriverError>)
    ensures
        exists|code: u32|
            #[trigger] call_ensures(D::mem_free_async, (ctx, dptr, stream), code) && r
                == status_result(code, ()),
{
    ctx.mem_free_async(dptr, stream).result()
}

/// Allocates `num_bytes` of device memory.
pub fn malloc_sync<D: DriverContext>(ctx: &D, num_bytes: usize) -> (r: Result<u64, DriverError>)
    requires
        bound(ctx),
    ensures
        exists|out: (u32, u64)|
            #[trigger] call_ensures(D::mem_alloc, (ctx, num_bytes), out) && r == status_result(
                out.0,
                out.1,
            ),
{
    ctx.mem_alloc(num_bytes).result()
}

/// Frees device memory.
pub fn free_sync<D: DriverContext>(ctx: &D, dptr: u64) -> (r: Result<(), DriverError>)
    ensures
        exists|code: u32|
            #[trigger] call_ensures(D::mem_free, (ctx, dptr), code) && r == status_result(code, ()),
{
    ctx.mem_free(dptr).result()
}

/// Whether `r` is what a copy of `src` to the device, enqueued on the stream,
/// can return.
pub open spec fn copied_async<D: DriverContext>(
    ctx: &D,
    dst: u64,
    src: &[u8],
    stream: u64,
    r: Result<(), DriverError>,
) -> bool {
    exists|code: u32|
        #[trigger] call_ensures(D::memcpy_htod_async, (ctx, dst, src, stream), code) && r
            == status_result(code, ())
}

/// Whether `r` is what a blocking copy of `src` to the device can return.
pub open spec fn copied_sync<D: DriverContext>(
    ctx: &D,
    dst: u64,
    src: &[u8],
    r: Result<(), DriverError>,
) -> bool {
    exists|code: u32|
        #[trigger] call_ensures(D::memcpy_htod, (ctx, dst, src), code) && r == status_result(
            code,
            (),
        )
}

/// Copies host memory to the device in stream order. The source must stay as
/// it is until the copy has completed.
pub fn memcpy_htod_async<D: DriverContext>(ctx: &D, dst: u64, src: &[u8], stream: u64) -> (r: Result<
    (),
    DriverError,
>)
    requires
        bound(ctx),
    ensures
        copied_async(ctx, dst, src, stream, r),
{
    ctx.memcpy_htod_async(dst, src, stream).result()
}

/// Copies host memory to the device, blocking the calling thread.
pub fn memcpy_htod_sync<D: DriverContext>(ctx: &D, dst: u64, src: &[u8]) -> (r: Result<
    (),
    DriverError,
>)
    requires
        bound(ctx),
    ensures
        copied_sync(ctx, dst, src, r),
{
    ctx.memcpy_htod(dst, src).result()
}

/// Copies device memory to the host address `dst` in stream order. The memory
/// there must not be read until the copy has completed.
pub fn memcpy_dtoh_async<D: DriverContext>(
    ctx: &D,
    dst: u64,
    src: u64,
    num_bytes: usize,
    stream: u64,
) -> (r: Result<(), DriverError>)
    ensures
        exists|code: u32|
            #[trigger] call_ensures(
                D::memcpy_dtoh_async,
                (ctx, dst, src, num_bytes, stream),
                code,
            ) && r == status_result(code, ()),
{
    ctx.memcpy_dtoh_async(dst, src, num_bytes, stream).result()
}

/// Copies device memory to device memory in stream order.
pub fn memcpy_dtod_async<D: DriverContext>(
    ctx: &D,
    dst: u64,
    src: u64,
    num_bytes: usize,
    stream: u64,
) -> (r: Result<(), DriverError>)
    ensures
        exists|code: u32|
            #[trigger] call_ensures(
                D::memcpy_dtod_async,
                (ctx, dst, src, num_bytes, stream),
                code,
            ) && r == status_result(code, ()),
{
    ctx.memcpy_dtod_async(dst, src, num_bytes, stream).result()
}

/// Fills device memory with a byte in stream order.
pub fn memset_d8_async<D: DriverContext>(
    ctx: &D,
    dptr: u64,
    value: u8,
    num_bytes: usize,
    stream: u64,
) -> (r: Result<(), DriverError>)
    ensures
        exists|code: u32|
            #[trigger] call_ensures(
                D::memset_d8_async,
                (ctx, dptr, value, num_bytes, stream),
                code,
            ) && r == status_result(code, ()),
{
    ctx.memset_d8_async(dptr, value, num_bytes, stream).result()
}

/// Allocates `num_bytes` of page-locked host memory.
pub fn malloc_host<D: DriverContext>(ctx: &D, num_bytes: usize) -> (r: Result<u64, DriverError>)
    requires
        bound(ctx),
    ensures
        exists|out: (u32, u64)|
            #[trigger] call_ensures(D::mem_alloc_host, (ctx, num_bytes), out) && r
                == status_result(out.0, out.1),
{
    ctx.mem_alloc_host(num_bytes).result()
}

/// Frees page-locked host memory.
pub fn free_host<D: DriverContext>(ctx: &D, host: u64) -> (r: Result<(), DriverError>)
    ensures
        exists|code: u32|
            #[trigger] call_ensures(D::mem_free_host, (ctx, host), code) && r == status_result(
                code,
                (),
            ),
{
    ctx.mem_free_host(host).result()
}

} // verus!
