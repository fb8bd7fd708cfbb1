//! What the host functions make of whatever the driver answers.
//!
//! Each law supposes that the driver gives one answer to the calls in question,
//! and says what is returned or noted then.

use std::sync::Arc;

use vstd::prelude::*;

use crate::driver::context::{ContextState, DriverContext};
use crate::driver::error::{DriverError, IntoResult};
use crate::driver::memory::{
    free_async, free_host, free_sync, malloc_async, malloc_host, malloc_sync, memcpy_dtod_async,
    memcpy_dtoh_async, memcpy_htod_async, memcpy_htod_sync, memset_d8_async,
};
use crate::driver::module::{
    null_terminated_image, ConstantHandle, CudaFunction, CudaModule, NulTerminated, Staged,
};
use crate::driver::peer::{can_access_peer, disable_peer_access, enable_peer_access};
use crate::driver::stream::CudaStream;
use crate::text::decimal;

verus! {

// ---------------------------------------------------------------------------
// Status codes
// ---------------------------------------------------------------------------

/// Zero is success and every other code is an error that carries it; the value
/// of a call counts only where it succeeded.
pub proof fn law_only_zero_is_success<T>(
    code: u32,
    value: T,
    bare: Result<(), DriverError>,
    with_value: Result<T, DriverError>,
)
    requires
        call_ensures(<u32 as IntoResult<()>>::result, (code,), bare),
        call_ensures(<(u32, T) as IntoResult<T>>::result, ((code, value),), with_value),
    ensures
        bare is Ok <==> code == 0,
        bare is Err ==> (bare->Err_0).0 == code,
        with_value is Ok <==> code == 0,
        with_value is Ok ==> with_value->Ok_0 == value,
        with_value is Err ==> (with_value->Err_0).0 == code,
{
}

/// The text of an error holds its code and the driver's description, or a
/// placeholder where the driver has none.
pub proof fn law_error_text_holds_code(
    error: DriverError,
    quoted: &str,
    described: String,
    bare: String,
)
    requires
        call_ensures(DriverError::message, (&error, Some(quoted)), described),
        call_ensures(DriverError::message, (&error, None), bare),
    ensures
        described@ == "DriverError("@ + decimal(error.0 as nat) + ", "@ + quoted@ + ")"@,
        bare@ == "DriverError("@ + decimal(error.0 as nat) + ", "@
            + "\"<cuGetErrorString failed>\""@ + ")"@,
{
}

/// The name of an error is what the driver says of its code, where it knows
/// the code.
pub proof fn law_error_name_asks_for_its_code<F: Fn(u32) -> (u32, Vec<u8>)>(
    error: DriverError,
    ask: F,
    answer: (u32, Vec<u8>),
    r: Result<Vec<u8>, DriverError>,
)
    requires
        call_ensures(DriverError::error_name::<F>, (&error, ask), r),
        forall|out: (u32, Vec<u8>)| #[trigger]
            call_ensures(ask, (error.0,), out) ==> out == answer,
    ensures
        answer.0 == 0 ==> r == Ok::<Vec<u8>, DriverError>(answer.1),
        answer.0 != 0 ==> r == Err::<Vec<u8>, DriverError>(DriverError(answer.0)),
{
}

/// The description of an error is what the driver says of its code, where it knows
/// the code.
pub proof fn law_error_string_asks_for_its_code<F: Fn(u32) -> (u32, Vec<u8>)>(
    error: DriverError,
    ask: F,
    answer: (u32, Vec<u8>),
    r: Result<Vec<u8>, DriverError>,
)
    requires
        call_ensures(DriverError::error_string::<F>, (&error, ask), r),
        forall|out: (u32, Vec<u8>)| #[trigger]
            call_ensures(ask, (error.0,), out) ==> out == answer,
    ensures
        answer.0 == 0 ==> r == Ok::<Vec<u8>, DriverError>(answer.1),
        answer.0 != 0 ==> r == Err::<Vec<u8>, DriverError>(DriverError(answer.0)),
{
}

// ---------------------------------------------------------------------------
// Memory
// ---------------------------------------------------------------------------

/// Freeing in stream order frees that address on that stream, and succeeds where the driver does.
pub proof fn law_free_async<D: DriverContext>(
    ctx: &D,
    dptr: u64,
    stream: u64,
    code: u32,
    r: Result<(), DriverError>,
)
    requires
        call_ensures(free_async::<D>, (ctx, dptr, stream), r),
        forall|c: u32| #[trigger] call_ensures(D::mem_free_async, (ctx, dptr, stream), c) ==> c == code,
    ensures
        r is Ok <==> code == 0,
        r is Err ==> r->Err_0 == DriverError(code),
{
}

/// Freeing frees that address, and succeeds where the driver does.
pub proof fn law_free_sync<D: DriverContext>(
    ctx: &D,
    dptr: u64,
    code: u32,
    r: Result<(), DriverError>,
)
    requires
        call_ensures(free_sync::<D>, (ctx, dptr), r),
        forall|c: u32| #[trigger] call_ensures(D::mem_free, (ctx, dptr), c) ==> c == code,
    ensures
        r is Ok <==> code == 0,
        r is Err ==> r->Err_0 == DriverError(code),
{
}

/// A copy to the device in stream order copies those bytes to that address on that stream, and succeeds where the driver does.
pub proof fn law_memcpy_htod_async<D: DriverContext>(
    ctx: &D,
    dst: u64,
    src: &[u8],
    stream: u64,
    code: u32,
    r: Result<(), DriverError>,
)
    requires
        call_ensures(memcpy_htod_async::<D>, (ctx, dst, src, stream), r),
        forall|c: u32| #[trigger] call_ensures(D::memcpy_htod_async, (ctx, dst, src, stream), c) ==> c == code,
    ensures
        r is Ok <==> code == 0,
        r is Err ==> r->Err_0 == DriverError(code),
{
}

/// A blocking copy to the device copies those bytes to that address, and succeeds where the driver does.
pub proof fn law_memcpy_htod_sync<D: DriverContext>(
    ctx: &D,
    dst: u64,
    src: &[u8],
    code: u32,
    r: Result<(), DriverError>,
)
    requires
        call_ensures(memcpy_htod_sync::<D>, (ctx, dst, src), r),
        forall|c: u32| #[trigger] call_ensures(D::memcpy_htod, (ctx, dst, src), c) ==> c == code,
    ensures
        r is Ok <==> code == 0,
        r is Err ==> r->Err_0 == DriverError(code),
{
}

/// A copy to the host goes from the device address to the host address, and succeeds where the driver does.
pub proof fn law_memcpy_dtoh_async<D: DriverContext>(
    ctx: &D,
    dst: u64,
    src: u64,
    num_bytes: usize,
    stream: u64,
    code: u32,
    r: Result<(), DriverError>,
)
    requires
        call_ensures(memcpy_dtoh_async::<D>, (ctx, dst, src, num_bytes, stream), r),
        forall|c: u32| #[trigger] call_ensures(D::memcpy_dtoh_async, (ctx, dst, src, num_bytes, stream), c) ==> c == code,
    ensures
        r is Ok <==> code == 0,
        r is Err ==> r->Err_0 == DriverError(code),
{
}

/// A copy within the device goes from the source to the destination, and succeeds where the driver does.
pub proof fn law_memcpy_dtod_async<D: DriverContext>(
    ctx: &D,
    dst: u64,
    src: u64,
    num_bytes: usize,
    stream: u64,
    code: u32,
    r: Result<(), DriverError>,
)
    requires
        call_ensures(memcpy_dtod_async::<D>, (ctx, dst, src, num_bytes, stream), r),
        forall|c: u32| #[trigger] call_ensures(D::memcpy_dtod_async, (ctx, dst, src, num_bytes, stream), c) ==> c == code,
    ensures
        r is Ok <==> code == 0,
        r is Err ==> r->Err_0 == DriverError(code),
{
}

/// A fill writes that byte to that many bytes at that address, and succeeds where the driver does.
pub proof fn law_memset_d8_async<D: DriverContext>(
    ctx: &D,
    dptr: u64,
    value: u8,
    num_bytes: usize,
    stream: u64,
    code: u32,
    r: Result<(), DriverError>,
)
    requires
        call_ensures(memset_d8_async::<D>, (ctx, dptr, value, num_bytes, stream), r),
        forall|c: u32| #[trigger] call_ensures(D::memset_d8_async, (ctx, dptr, value, num_bytes, stream), c) ==> c == code,
    ensures
        r is Ok <==> code == 0,
        r is Err ==> r->Err_0 == DriverError(code),
{
}

/// Freeing host memory frees that address, and succeeds where the driver does.
pub proof fn law_free_host<D: DriverContext>(
    ctx: &D,
    host: u64,
    code: u32,
    r: Result<(), DriverError>,
)
    requires
        call_ensures(free_host::<D>, (ctx, host), r),
        forall|c: u32| #[trigger] call_ensures(D::mem_free_host, (ctx, host), c) ==> c == code,
    ensures
        r is Ok <==> code == 0,
        r is Err ==> r->Err_0 == DriverError(code),
{
}

/// Allocating in stream order allocates that many bytes on that stream, and gives the driver's address where the driver does.
pub proof fn law_malloc_async<D: DriverContext>(
    ctx: &D,
    stream: u64,
    num_bytes: usize,
    answer: (u32, u64),
    r: Result<u64, DriverError>,
)
    requires
        call_ensures(malloc_async::<D>, (ctx, stream, num_bytes), r),
        forall|out: (u32, u64)| #[trigger]
            call_ensures(D::mem_alloc_async, (ctx, num_bytes, stream), out) ==> out == answer,
    ensures
        answer.0 == 0 ==> r == Ok::<u64, DriverError>(answer.1),
        answer.0 != 0 ==> r == Err::<u64, DriverError>(DriverError(answer.0)),
{
}

/// Allocating allocates that many bytes, and gives the driver's address where the driver does.
pub proof fn law_malloc_sync<D: DriverContext>(
    ctx: &D,
    num_bytes: usize,
    answer: (u32, u64),
    r: Result<u64, DriverError>,
)
    requires
        call_ensures(malloc_sync::<D>, (ctx, num_bytes), r),
        forall|out: (u32, u64)| #[trigger]
            call_ensures(D::mem_alloc, (ctx, num_bytes), out) ==> out == answer,
    ensures
        answer.0 == 0 ==> r == Ok::<u64, DriverError>(answer.1),
        answer.0 != 0 ==> r == Err::<u64, DriverError>(DriverError(answer.0)),
{
}

/// Allocating host memory allocates that many bytes, and gives the driver's address where the driver does.
pub proof fn law_malloc_host<D: DriverContext>(
    ctx: &D,
    num_bytes: usize,
    answer: (u32, u64),
    r: Result<u64, DriverError>,
)
    requires
        call_ensures(malloc_host::<D>, (ctx, num_bytes), r),
        forall|out: (u32, u64)| #[trigger]
            call_ensures(D::mem_alloc_host, (ctx, num_bytes), out) ==> out == answer,
    ensures
        answer.0 == 0 ==> r == Ok::<u64, DriverError>(answer.1),
        answer.0 != 0 ==> r == Err::<u64, DriverError>(DriverError(answer.0)),
{
}

// ---------------------------------------------------------------------------
// Peers
// ---------------------------------------------------------------------------

/// Whether one device can access another is asked of the two devices in that
/// order; any answer but 0 is yes.
pub proof fn law_can_access_peer<D: DriverContext>(
    from: &D,
    to: &D,
    a: i32,
    b: i32,
    answer: (u32, i32),
    r: Result<bool, DriverError>,
)
    requires
        call_ensures(can_access_peer::<D>, (from, to), r),
        forall|d: i32| #[trigger] call_ensures(D::cu_device, (from,), d) ==> d == a,
        forall|d: i32| #[trigger] call_ensures(D::cu_device, (to,), d) ==> d == b,
        forall|out: (u32, i32)| #[trigger]
            call_ensures(D::device_can_access_peer, (from, a, b), out) ==> out == answer,
    ensures
        answer.0 == 0 ==> r == Ok::<bool, DriverError>(answer.1 != 0),
        answer.0 != 0 ==> r == Err::<bool, DriverError>(DriverError(answer.0)),
{
}

/// Enabling access is done in the bound context of the one device for the context of
/// the other, and succeeds also where it was enabled already.
pub proof fn law_enable_peer_access<D: DriverContext>(
    from: &D,
    to: &D,
    bound: Result<(), DriverError>,
    peer: u64,
    code: u32,
    r: Result<(), DriverError>,
)
    requires
        call_ensures(enable_peer_access::<D>, (from, to), r),
        forall|b: Result<(), DriverError>| #[trigger]
            call_ensures(D::bind_to_thread, (from,), b) ==> b == bound,
        forall|p: u64| #[trigger] call_ensures(D::cu_ctx, (to,), p) ==> p == peer,
        forall|c: u32| #[trigger]
            call_ensures(D::ctx_enable_peer_access, (from, peer, 0u32), c) ==> c == code,
    ensures
        bound is Err ==> r == bound,
        bound is Ok ==> (r is Ok <==> code == 0 || code == 704),
        bound is Ok && r is Err ==> r->Err_0 == DriverError(code),
{
}

/// Disabling access is done in the bound context of the one device for the context
/// of the other, and succeeds also where it was not enabled.
pub proof fn law_disable_peer_access<D: DriverContext>(
    from: &D,
    to: &D,
    bound: Result<(), DriverError>,
    peer: u64,
    code: u32,
    r: Result<(), DriverError>,
)
    requires
        call_ensures(disable_peer_access::<D>, (from, to), r),
        forall|b: Result<(), DriverError>| #[trigger]
            call_ensures(D::bind_to_thread, (from,), b) ==> b == bound,
        forall|p: u64| #[trigger] call_ensures(D::cu_ctx, (to,), p) ==> p == peer,
        forall|c: u32| #[trigger]
            call_ensures(D::ctx_disable_peer_access, (from, peer), c) ==> c == code,
    ensures
        bound is Err ==> r == bound,
        bound is Ok ==> (r is Ok <==> code == 0 || code == 705),
        bound is Ok && r is Err ==> r->Err_0 == DriverError(code),
{
}

// ---------------------------------------------------------------------------
// Modules
// ---------------------------------------------------------------------------

/// An image is handed on with one zero byte at its end: as it is where it has
/// one, and with one more byte where it has none.
pub proof fn law_image_ends_with_zero<'a>(image: &'a [u8], terminated: NulTerminated<'a>)
    requires
        call_ensures(null_terminated_image, (image,), terminated),
    ensures
        terminated@.len() > 0,
        terminated@.last() == 0,
        image@.is_prefix_of(terminated@),
        terminated@.len() <= image@.len() + 1,
        image@.len() > 0 && image@.last() == 0 ==> terminated@ == image@ && terminated is Borrowed,
        image@.len() == 0 || image@.last() != 0 ==> terminated@.len() == image@.len() + 1,
{
}

/// Loading a module from PTX source hands exactly that to the driver, in the bound
/// context, and gives a module of that context with the driver's handle.
pub proof fn law_load_module_from_ptx_src<D: DriverContext>(
    ctx: Arc<D>,
    ptx_src: &str,
    bound: Result<(), DriverError>,
    answer: (u32, u64),
    r: Result<CudaModule<D>, DriverError>,
)
    requires
        call_ensures(CudaModule::<D>::load_module_from_ptx_src, (&ctx, ptx_src), r),
        forall|b: Result<(), DriverError>| #[trigger]
            call_ensures(D::bind_to_thread, (&*ctx,), b) ==> b == bound,
        forall|out: (u32, u64)| #[trigger]
            call_ensures(D::module_load_ptx, (&*ctx, ptx_src), out) ==> out == answer,
    ensures
        bound is Err ==> r is Err && r->Err_0 == bound->Err_0,
        bound is Ok ==> (r is Ok <==> answer.0 == 0),
        r is Ok ==> r->Ok_0.cu_module == answer.1 && r->Ok_0.ctx == ctx,
        bound is Ok && r is Err ==> r->Err_0 == DriverError(answer.0),
{
}

/// Loading a module from a file hands exactly that to the driver, in the bound
/// context, and gives a module of that context with the driver's handle.
pub proof fn law_load_module_from_file<D: DriverContext>(
    ctx: Arc<D>,
    filename: &str,
    bound: Result<(), DriverError>,
    answer: (u32, u64),
    r: Result<CudaModule<D>, DriverError>,
)
    requires
        call_ensures(CudaModule::<D>::load_module_from_file, (&ctx, filename), r),
        forall|b: Result<(), DriverError>| #[trigger]
            call_ensures(D::bind_to_thread, (&*ctx,), b) ==> b == bound,
        forall|out: (u32, u64)| #[trigger]
            call_ensures(D::module_load, (&*ctx, filename), out) ==> out == answer,
    ensures
        bound is Err ==> r is Err && r->Err_0 == bound->Err_0,
        bound is Ok ==> (r is Ok <==> answer.0 == 0),
        r is Ok ==> r->Ok_0.cu_module == answer.1 && r->Ok_0.ctx == ctx,
        bound is Ok && r is Err ==> r->Err_0 == DriverError(answer.0),
{
}

/// Loading a module from an image hands the image with its zero byte to the
/// driver, in the bound context.
pub proof fn law_load_module_from_image<D: DriverContext>(
    ctx: Arc<D>,
    image: &[u8],
    bound: Result<(), DriverError>,
    answer: (u32, u64),
    r: Result<CudaModule<D>, DriverError>,
)
    requires
        call_ensures(CudaModule::<D>::load_module_from_image, (&ctx, image), r),
        forall|b: Result<(), DriverError>| #[trigger]
            call_ensures(D::bind_to_thread, (&*ctx,), b) ==> b == bound,
        forall|handed: &[u8], out: (u32, u64)| #[trigger]
            call_ensures(D::module_load_data, (&*ctx, handed), out) && handed@ == (if image@.len()
                > 0 && image@.last() == 0 {
                image@
            } else {
                image@ + seq![0u8]
            }) ==> out == answer,
    ensures
        bound is Err ==> r is Err && r->Err_0 == bound->Err_0,
        bound is Ok ==> (r is Ok <==> answer.0 == 0),
        r is Ok ==> r->Ok_0.cu_module == answer.1 && r->Ok_0.ctx == ctx,
        bound is Ok && r is Err ==> r->Err_0 == DriverError(answer.0),
{
    assert(image@.push(0u8) =~= image@ + seq![0u8]);
}

/// A kernel is looked up by its name in its own module, which its handle keeps.
pub proof fn law_load_function<D: DriverContext>(
    module: Arc<CudaModule<D>>,
    fn_name: &str,
    bound: Result<(), DriverError>,
    answer: (u32, u64),
    r: Result<CudaFunction<D>, DriverError>,
)
    requires
        call_ensures(CudaModule::<D>::load_function, (&module, fn_name), r),
        forall|b: Result<(), DriverError>| #[trigger]
            call_ensures(D::bind_to_thread, (&*module.ctx,), b) ==> b == bound,
        forall|out: (u32, u64)| #[trigger]
            call_ensures(
                D::module_get_function,
                (&*module.ctx, module.cu_module, fn_name),
                out,
            ) ==> out == answer,
    ensures
        bound is Err ==> r is Err && r->Err_0 == bound->Err_0,
        bound is Ok ==> (r is Ok <==> answer.0 == 0),
        r is Ok ==> r->Ok_0.cu_function == answer.1 && r->Ok_0.module == module,
        bound is Ok && r is Err ==> r->Err_0 == DriverError(answer.0),
{
}

/// A device global is looked up by its name in the module.
pub proof fn law_get_global<D: DriverContext>(
    module: &CudaModule<D>,
    name: &str,
    bound: Result<(), DriverError>,
    answer: (u32, (u64, usize)),
    r: Result<(u64, usize), DriverError>,
)
    requires
        call_ensures(CudaModule::<D>::get_global, (module, name), r),
        forall|b: Result<(), DriverError>| #[trigger]
            call_ensures(D::bind_to_thread, (&*module.ctx,), b) ==> b == bound,
        forall|out: (u32, (u64, usize))| #[trigger]
            call_ensures(
                D::module_get_global,
                (&*module.ctx, module.cu_module, name),
                out,
            ) ==> out == answer,
    ensures
        bound is Err ==> r is Err && r->Err_0 == bound->Err_0,
        bound is Ok && answer.0 == 0 ==> r == Ok::<(u64, usize), DriverError>(answer.1),
        bound is Ok && answer.0 != 0 ==> r == Err::<(u64, usize), DriverError>(
            DriverError(answer.0),
        ),
{
}

/// A blocking write to a constant is a blocking copy to its address in the
/// module's bound context, and the same as a copy to that device global.
pub proof fn law_blocking_writes<D: DriverContext>(
    handle: ConstantHandle,
    module: &CudaModule<D>,
    src: &[u8],
    bound: Result<(), DriverError>,
    code: u32,
    r: Result<(), DriverError>,
    s: Result<(), DriverError>,
)
    requires
        call_ensures(ConstantHandle::write_blocking::<D>, (&handle, module, src), r),
        call_ensures(
            CudaModule::<D>::copy_bytes_to_device_global_sync,
            (module, handle.dptr, src),
            s,
        ),
        forall|b: Result<(), DriverError>| #[trigger]
            call_ensures(D::bind_to_thread, (&*module.ctx,), b) ==> b == bound,
        forall|c: u32| #[trigger]
            call_ensures(D::memcpy_htod, (&*module.ctx, handle.dptr, src), c) ==> c == code,
    ensures
        r == s,
        bound is Err ==> r == bound,
        bound is Ok ==> (r is Ok <==> code == 0),
        bound is Ok && r is Err ==> r->Err_0 == DriverError(code),
{
}

/// A write to a constant in stream order is a copy to its address on that
/// stream, in the stream's bound context.
pub proof fn law_write_async<D: DriverContext>(
    handle: ConstantHandle,
    stream: &CudaStream<D>,
    src: &[u8],
    bound: Result<(), DriverError>,
    code: u32,
    r: Result<(), DriverError>,
)
    requires
        call_ensures(ConstantHandle::write_async::<D>, (&handle, stream, src), r),
        forall|b: Result<(), DriverError>| #[trigger]
            call_ensures(D::bind_to_thread, (&*stream.ctx,), b) ==> b == bound,
        forall|c: u32| #[trigger]
            call_ensures(
                D::memcpy_htod_async,
                (&*stream.ctx, handle.dptr, src, stream.cu_stream),
                c,
            ) ==> c == code,
    ensures
        bound is Err ==> r == bound,
        bound is Ok ==> (r is Ok <==> code == 0),
        bound is Ok && r is Err ==> r->Err_0 == DriverError(code),
{
}

/// A staged write of no bytes needs no copy. One whose copy is refused frees
/// the bytes and gives that error; one whose callback is accepted succeeds and
/// leaves the bytes to the stream.
pub proof fn law_write_async_staged<D: DriverContext>(
    handle: ConstantHandle,
    stream: &CudaStream<D>,
    bytes: Vec<u8>,
    bound: Result<(), DriverError>,
    copied: Result<D::InFlight, (u32, Vec<u8>)>,
    launched: Result<(), (u32, D::InFlight)>,
    out: (Result<(), DriverError>, Staged<D::InFlight>),
)
    requires
        call_ensures(ConstantHandle::write_async_staged::<D>, (&handle, stream, bytes), out),
        forall|b: Result<(), DriverError>| #[trigger]
            call_ensures(D::bind_to_thread, (&*stream.ctx,), b) ==> b == bound,
        forall|c: Result<D::InFlight, (u32, Vec<u8>)>| #[trigger]
            call_ensures(
                D::copy_staged,
                (&*stream.ctx, handle.dptr, bytes, stream.cu_stream),
                c,
            ) ==> c == copied,
        copied is Ok ==> forall|l: Result<(), (u32, D::InFlight)>| #[trigger]
            call_ensures(
                D::launch_drop,
                (&*stream.ctx, stream.cu_stream, copied->Ok_0),
                l,
            ) ==> l == launched,
    ensures
        bound is Err ==> out.0 == bound && out.1 is Freed,
        bound is Ok && bytes@.len() == 0 ==> out.0 is Ok && out.1 is Freed,
        bound is Ok && bytes@.len() > 0 && copied is Err ==> out.0 == Err::<(), DriverError>(
            DriverError((copied->Err_0).0),
        ) && out.1 is Freed,
        bound is Ok && bytes@.len() > 0 && copied is Ok && launched is Ok ==> out.0 is Ok && out.1
            is HeldByStream,
        bound is Ok && bytes@.len() > 0 && copied is Ok && launched is Err ==> out.0 is Err
            && out.1 !is HeldByStream,
{
}

/// Dropping a module unloads it, binding its context first; the errors of both
/// are noted in that order, and the streams stay counted.
pub proof fn law_module_tear_down<D: DriverContext>(
    module: CudaModule<D>,
    state: &mut ContextState,
    bound: Result<(), DriverError>,
    code: u32,
)
    requires
        call_ensures(CudaModule::<D>::tear_down, (module, state), ()),
        forall|b: Result<(), DriverError>| #[trigger]
            call_ensures(D::bind_to_thread, (&*module.ctx,), b) ==> b == bound,
        forall|c: u32| #[trigger]
            call_ensures(D::module_unload, (&*module.ctx, module.cu_module), c) ==> c == code,
    ensures
        final(state).num_streams == old(state).num_streams,
        bound is Ok && code == 0 ==> final(state).errors@ == old(state).errors@,
        bound is Ok && code != 0 ==> final(state).errors@ == old(state).errors@ + seq![
            DriverError(code),
        ],
        bound is Err && code == 0 ==> final(state).errors@ == old(state).errors@ + seq![
            bound->Err_0,
        ],
        bound is Err && code != 0 ==> final(state).errors@ == old(state).errors@ + seq![
            bound->Err_0,
            DriverError(code),
        ],
{
    let errors = old(state).errors@;
    assert(errors.push(DriverError(code)) =~= errors + seq![DriverError(code)]);
    if bound is Err {
        let error = bound->Err_0;
        assert(errors.push(error) =~= errors + seq![error]);
        assert(errors.push(error).push(DriverError(code)) =~= errors + seq![
            error,
            DriverError(code),
        ]);
    }
}

/// A handle is the address it was made from.
pub proof fn law_constant_handle_is_its_address(dptr: u64, handle: ConstantHandle)
    requires
        call_ensures(ConstantHandle::from_raw, (dptr,), handle),
    ensures
        handle.dptr == dptr,
{
}

// ---------------------------------------------------------------------------
// Streams
// ---------------------------------------------------------------------------

/// Synchronizing waits for this very stream, in its bound context.
pub proof fn law_synchronize<D: DriverContext>(
    stream: &CudaStream<D>,
    bound: Result<(), DriverError>,
    code: u32,
    r: Result<(), DriverError>,
)
    requires
        call_ensures(CudaStream::<D>::synchronize, (stream,), r),
        forall|b: Result<(), DriverError>| #[trigger]
            call_ensures(D::bind_to_thread, (&*stream.ctx,), b) ==> b == bound,
        forall|c: u32| #[trigger]
            call_ensures(D::stream_synchronize, (&*stream.ctx, stream.cu_stream), c) ==> c == code,
    ensures
        bound is Err ==> r == bound,
        bound is Ok ==> (r is Ok <==> code == 0),
        bound is Ok && r is Err ==> r->Err_0 == DriverError(code),
{
}

/// A wait is enqueued on this stream for that event, without flags, in the
/// bound context.
pub proof fn law_wait<D: DriverContext>(
    stream: &CudaStream<D>,
    event: u64,
    bound: Result<(), DriverError>,
    code: u32,
    r: Result<(), DriverError>,
)
    requires
        call_ensures(CudaStream::<D>::wait, (stream, event), r),
        forall|b: Result<(), DriverError>| #[trigger]
            call_ensures(D::bind_to_thread, (&*stream.ctx,), b) ==> b == bound,
        forall|c: u32| #[trigger]
            call_ensures(
                D::stream_wait_event,
                (&*stream.ctx, stream.cu_stream, event, 0u32),
                c,
            ) ==> c == code,
    ensures
        bound is Err ==> r == bound,
        bound is Ok ==> (r is Ok <==> code == 0),
        bound is Ok && r is Err ==> r->Err_0 == DriverError(code),
{
}

/// A recorded event is a new one with the given flags, recorded on this stream.
pub proof fn law_record_event<D: DriverContext>(
    stream: &CudaStream<D>,
    flags: Option<u32>,
    made: Result<u64, DriverError>,
    recorded: Result<(), DriverError>,
    r: Result<u64, DriverError>,
)
    requires
        call_ensures(CudaStream::<D>::record_event, (stream, flags), r),
        forall|m: Result<u64, DriverError>| #[trigger]
            call_ensures(D::new_event, (&*stream.ctx, flags), m) ==> m == made,
        made is Ok ==> forall|c: Result<(), DriverError>| #[trigger]
            call_ensures(D::record, (&*stream.ctx, made->Ok_0, stream.cu_stream), c) ==> c
                == recorded,
    ensures
        made is Err ==> r == made,
        made is Ok && recorded is Ok ==> r == made,
        made is Ok && recorded is Err ==> r == Err::<u64, DriverError>(recorded->Err_0),
{
}

/// A join records an event without timing on the other stream and enqueues a
/// wait for it on this one.
pub proof fn law_join<D: DriverContext>(
    stream: &CudaStream<D>,
    other: &CudaStream<D>,
    made: Result<u64, DriverError>,
    recorded: Result<(), DriverError>,
    bound: Result<(), DriverError>,
    code: u32,
    r: Result<(), DriverError>,
)
    requires
        call_ensures(CudaStream::<D>::join, (stream, other), r),
        forall|m: Result<u64, DriverError>| #[trigger]
            call_ensures(D::new_event, (&*other.ctx, None), m) ==> m == made,
        made is Ok ==> forall|c: Result<(), DriverError>| #[trigger]
            call_ensures(D::record, (&*other.ctx, made->Ok_0, other.cu_stream), c) ==> c
                == recorded,
        forall|b: Result<(), DriverError>| #[trigger]
            call_ensures(D::bind_to_thread, (&*stream.ctx,), b) ==> b == bound,
        made is Ok ==> forall|c: u32| #[trigger]
            call_ensures(
                D::wait_for_recorded,
                (
                    &*stream.ctx,
                    stream.cu_stream,
                    made->Ok_0,
                    0u32,
                    &*other.ctx,
                    other.cu_stream,
                ),
                c,
            ) ==> c == code,
    ensures
        made is Err ==> r == Err::<(), DriverError>(made->Err_0),
        made is Ok && recorded is Err ==> r == recorded,
        made is Ok && recorded is Ok && bound is Err ==> r == bound,
        made is Ok && recorded is Ok && bound is Ok ==> (r is Ok <==> code == 0),
        made is Ok && recorded is Ok && bound is Ok && r is Err ==> r->Err_0 == DriverError(code),
{
}

/// A fork that fails before the stream is made returns the error; one more
/// stream is counted from there on. A stream that was made is of the same
/// context, with the driver's handle, and is asked not to block.
pub proof fn law_fork<D: DriverContext>(
    stream: &CudaStream<D>,
    state: &mut ContextState,
    bound: Result<(), DriverError>,
    made: (u32, u64),
    r: Result<CudaStream<D>, DriverError>,
)
    requires
        call_ensures(CudaStream::<D>::fork, (stream, state), r),
        forall|b: Result<(), DriverError>| #[trigger]
            call_ensures(D::bind_to_thread, (&*stream.ctx,), b) ==> b == bound,
        forall|m: (u32, u64)| #[trigger]
            call_ensures(D::stream_create, (&*stream.ctx, 1u32), m) ==> m == made,
    ensures
        bound is Err ==> r is Err && r->Err_0 == bound->Err_0 && *final(state) == *old(state),
        bound is Ok && made.0 != 0 ==> {
            &&& r is Err && r->Err_0 == DriverError(made.0)
            &&& final(state).num_streams == if old(state).num_streams == usize::MAX {
                0
            } else {
                old(state).num_streams + 1
            }
            &&& final(state).errors@ == old(state).errors@
        },
        r is Ok ==> {
            &&& bound is Ok && made.0 == 0
            &&& r->Ok_0.cu_stream == made.1
            &&& r->Ok_0.ctx == stream.ctx
            &&& final(state).num_streams == if old(state).num_streams == usize::MAX {
                0
            } else {
                old(state).num_streams + 1
            }
            &&& final(state).errors@ == old(state).errors@
        },
{
}

/// Dropping a stream other than the default one destroys it and counts one
/// stream less; dropping the default one does neither. The errors of binding
/// the context and of destroying the stream are noted in that order.
pub proof fn law_stream_tear_down<D: DriverContext>(
    stream: CudaStream<D>,
    state: &mut ContextState,
    bound: Result<(), DriverError>,
    code: u32,
)
    requires
        call_ensures(CudaStream::<D>::tear_down, (stream, state), ()),
        forall|b: Result<(), DriverError>| #[trigger]
            call_ensures(D::bind_to_thread, (&*stream.ctx,), b) ==> b == bound,
        forall|c: u32| #[trigger]
            call_ensures(D::stream_destroy, (&*stream.ctx, stream.cu_stream), c) ==> c == code,
    ensures
        stream.cu_stream == 0 ==> final(state).num_streams == old(state).num_streams,
        stream.cu_stream != 0 && old(state).num_streams > 0 ==> final(state).num_streams == old(state).num_streams - 1,
        bound is Ok && (stream.cu_stream == 0 || code == 0) ==> final(state).errors@ == old(state).errors@,
        bound is Ok && stream.cu_stream != 0 && code != 0 ==> final(state).errors@ == old(state).errors@ + seq![DriverError(code)],
        bound is Err && (stream.cu_stream == 0 || code == 0) ==> final(state).errors@ == old(state).errors@ + seq![bound->Err_0],
        bound is Err && stream.cu_stream != 0 && code != 0 ==> final(state).errors@ == old(state).errors@ + seq![bound->Err_0, DriverError(code)],
{
    let errors = old(state).errors@;
    assert(errors.push(DriverError(code)) =~= errors + seq![DriverError(code)]);
    if bound is Err {
        let error = bound->Err_0;
        assert(errors.push(error) =~= errors + seq![error]);
        assert(errors.push(error).push(DriverError(code)) =~= errors + seq![
            error,
            DriverError(code),
        ]);
    }
}

/// A fresh context counts no streams and has noted no errors; what is noted is
/// an error, behind those before, and nothing else.
pub proof fn law_errors_are_noted_in_order(
    fresh: ContextState,
    state: &mut ContextState,
    result: Result<(), DriverError>,
)
    requires
        call_ensures(ContextState::new, (), fresh),
        call_ensures(ContextState::record_err, (state, result), ()),
    ensures
        fresh.num_streams == 0 && fresh.errors@.len() == 0,
        final(state).num_streams == old(state).num_streams,
        result is Ok ==> final(state).errors@ == old(state).errors@,
        result is Err ==> final(state).errors@.drop_last() == old(state).errors@ && final(state).errors@.last() == result->Err_0,
{
    if result is Err {
        assert(final(state).errors@.drop_last() =~= old(state).errors@);
    }
}

/// Handles are read as they are.
pub proof fn law_handles_are_read<D: DriverContext>(
    stream: &CudaStream<D>,
    module: &CudaModule<D>,
    function: &CudaFunction<D>,
    handles: (u64, u64, u64),
    stream_ctx: &Arc<D>,
    module_ctx: &Arc<D>,
)
    requires
        call_ensures(CudaStream::<D>::cu_stream, (stream,), handles.0),
        call_ensures(CudaModule::<D>::cu_module, (module,), handles.1),
        call_ensures(CudaFunction::<D>::cu_function, (function,), handles.2),
        call_ensures(CudaStream::<D>::context, (stream,), stream_ctx),
        call_ensures(CudaModule::<D>::context, (module,), module_ctx),
    ensures
        handles == (stream.cu_stream, module.cu_module, function.cu_function),
        *stream_ctx == stream.ctx,
        *module_ctx == module.ctx,
{
}

/// A fork whose new stream cannot be joined, since no event can be made, gives
/// that error. The new stream is destroyed and not counted, unless it is the
/// default one.
pub proof fn law_fork_undoes_itself<D: DriverContext>(
    stream: &CudaStream<D>,
    state: &mut ContextState,
    made: u64,
    error: DriverError,
    code: u32,
    r: Result<CudaStream<D>, DriverError>,
)
    requires
        call_ensures(CudaStream::<D>::fork, (stream, state), r),
        forall|b: Result<(), DriverError>| #[trigger]
            call_ensures(D::bind_to_thread, (&*stream.ctx,), b) ==> b is Ok,
        forall|m: (u32, u64)| #[trigger]
            call_ensures(D::stream_create, (&*stream.ctx, 1u32), m) ==> m == (0u32, made),
        forall|m: Result<u64, DriverError>| #[trigger]
            call_ensures(D::new_event, (&*stream.ctx, None), m) ==> m == Err::<u64, DriverError>(
                error,
            ),
        forall|c: u32| #[trigger]
            call_ensures(D::stream_destroy, (&*stream.ctx, made), c) ==> c == code,
        made != 0,
    ensures
        r is Err && r->Err_0 == error,
        final(state).num_streams == old(state).num_streams,
        code == 0 ==> final(state).errors@ == old(state).errors@,
        code != 0 ==> final(state).errors@ == old(state).errors@.push(DriverError(code)),
{
}

} // verus!
