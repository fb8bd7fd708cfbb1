//! The driver calls that the host library makes, and what is known of a call
//! that first binds its context.

use vstd::prelude::*;

use crate::driver::error::{DriverError, CUDA_SUCCESS};

verus! {

/// A context that can be made current.
///
/// The calls that can be made in a context come in layers, so that one can be
/// conditional on an earlier one. Handles are numbers; 0 is the null handle.
/// Nothing is assumed of what the driver answers: a function over a context
/// says what it makes of whatever came back. Where a call has a condition, it
/// is not made before that holds.
pub trait ContextBinding: Sized {
    /// Makes the context current on the calling thread.
    fn bind_to_thread(&self) -> Result<(), DriverError>;

    /// The device of the context.
    fn cu_device(&self) -> i32;

    /// The handle of the context.
    fn cu_ctx(&self) -> u64;
}

/// Whether the context was made current.
pub open spec fn bound<D: ContextBinding>(ctx: &D) -> bool {
    exists|answer: Result<(), DriverError>|
        #[trigger] call_ensures(D::bind_to_thread, (ctx,), answer) && answer is Ok
}

/// Whether the context was to be made current, with or without success.
pub open spec fn bind_tried<D: ContextBinding>(ctx: &D) -> bool {
    exists|answer: Result<(), DriverError>| #[trigger]
        call_ensures(D::bind_to_thread, (ctx,), answer)
}

/// The raw calls that can be made in a context.
pub trait DriverCalls: ContextBinding {
    /// Bytes that a copy may be reading. They are freed by
    /// [`FollowUpCalls::launch_drop`] or [`DriverContext::free_staged`], not by
    /// dropping them.
    type InFlight;

    /// `cuDeviceCanAccessPeer`.
    fn device_can_access_peer(&self, from: i32, to: i32) -> (u32, i32);

    /// `cuCtxEnablePeerAccess`.
    fn ctx_enable_peer_access(&self, peer: u64, flags: u32) -> u32
        requires
            bound(self),
    ;

    /// `cuCtxDisablePeerAccess`.
    fn ctx_disable_peer_access(&self, peer: u64) -> u32
        requires
            bound(self),
    ;

    /// `cuStreamCreate`.
    fn stream_create(&self, flags: u32) -> (u32, u64)
        requires
            bound(self),
    ;

    /// `cuStreamDestroy`, of a stream other than the default one.
    fn stream_destroy(&self, stream: u64) -> u32
        requires
            bind_tried(self),
            stream != 0,
    ;

    /// `cuStreamSynchronize`.
    fn stream_synchronize(&self, stream: u64) -> u32
        requires
            bound(self),
    ;

    /// `cuStreamWaitEvent`.
    fn stream_wait_event(&self, stream: u64, event: u64, flags: u32) -> u32
        requires
            bound(self),
    ;

    /// Makes an event; `None` asks for one without timing.
    fn new_event(&self, flags: Option<u32>) -> Result<u64, DriverError>;

    /// Records an event on a stream.
    fn record(&self, event: u64, stream: u64) -> Result<(), DriverError>;

    /// `cuModuleLoadData` of PTX source.
    fn module_load_ptx(&self, source: &str) -> (u32, u64)
        requires
            bound(self),
    ;

    /// `cuModuleLoadData` of an image that ends with a zero byte.
    fn module_load_data(&self, image: &[u8]) -> (u32, u64)
        requires
            bound(self),
            image@.len() > 0,
            image@.last() == 0,
    ;

    /// `cuModuleLoad`.
    fn module_load(&self, filename: &str) -> (u32, u64)
        requires
            bound(self),
    ;

    /// `cuModuleUnload`.
    fn module_unload(&self, module: u64) -> u32
        requires
            bind_tried(self),
    ;

    /// `cuModuleGetFunction`.
    fn module_get_function(&self, module: u64, name: &str) -> (u32, u64)
        requires
            bound(self),
    ;

    /// `cuModuleGetGlobal`: the address of a device global and its size.
    fn module_get_global(&self, module: u64, name: &str) -> (u32, (u64, usize))
        requires
            bound(self),
    ;

    /// `cuMemAllocAsync`.
    fn mem_alloc_async(&self, num_bytes: usize, stream: u64) -> (u32, u64)
        requires
            bound(self),
    ;

    /// `cuMemFreeAsync`.
    fn mem_free_async(&self, dptr: u64, stream: u64) -> u32;

    /// `cuMemAlloc`.
    fn mem_alloc(&self, num_bytes: usize) -> (u32, u64)
        requires
            bound(self),
    ;

    /// `cuMemFree`.
    fn mem_free(&self, dptr: u64) -> u32;

    /// `cuMemcpyHtoDAsync`.
    fn memcpy_htod_async(&self, dst: u64, src: &[u8], stream: u64) -> u32
        requires
            bound(self),
    ;

    /// `cuMemcpyHtoDAsync` from bytes that are kept for the copy, and are not
    /// none. Where the copy could not be enqueued, the bytes come back with the
    /// status.
    fn copy_staged(&self, dst: u64, bytes: Vec<u8>, stream: u64) -> Result<
        Self::InFlight,
        (u32, Vec<u8>),
    >
        requires
            bound(self),
            bytes@.len() > 0,
    ;

    /// `cuMemcpyHtoD`.
    fn memcpy_htod(&self, dst: u64, src: &[u8]) -> u32
        requires
            bound(self),
    ;

    /// `cuMemcpyDtoHAsync`, to a host address.
    fn memcpy_dtoh_async(&self, dst: u64, src: u64, num_bytes: usize, stream: u64) -> u32;

    /// `cuMemcpyDtoDAsync`.
    fn memcpy_dtod_async(&self, dst: u64, src: u64, num_bytes: usize, stream: u64) -> u32;

    /// `cuMemsetD8Async`.
    fn memset_d8_async(&self, dptr: u64, value: u8, num_bytes: usize, stream: u64) -> u32;

    /// `cuMemAllocHost`: the host address of page-locked memory.
    fn mem_alloc_host(&self, num_bytes: usize) -> (u32, u64)
        requires
            bound(self),
    ;

    /// `cuMemFreeHost`.
    fn mem_free_host(&self, host: u64) -> u32;
}

/// Whether the event was recorded on this stream of this context.
pub open spec fn recorded_on<D: DriverCalls>(ctx: &D, event: u64, stream: u64) -> bool {
    exists|answer: Result<(), DriverError>|
        #[trigger] call_ensures(D::record, (ctx, event, stream), answer) && answer is Ok
}

/// Whether these bytes are kept for a copy that was enqueued on the stream.
pub open spec fn copy_enqueued<D: DriverCalls>(ctx: &D, staged: D::InFlight, stream: u64) -> bool {
    exists|dst: u64, bytes: Vec<u8>, copied: Result<D::InFlight, (u32, Vec<u8>)>|
        #[trigger] call_ensures(D::copy_staged, (ctx, dst, bytes, stream), copied) && copied is Ok
            && copied->Ok_0 == staged
}

/// The calls that only make sense behind another one.
pub trait FollowUpCalls: DriverCalls {
    /// `cuStreamWaitEvent` for an event that was recorded on the stream
    /// `source` of the context `recorder`.
    fn wait_for_recorded(
        &self,
        stream: u64,
        event: u64,
        flags: u32,
        recorder: &Self,
        source: u64,
    ) -> u32
        requires
            bound(self),
            recorded_on(recorder, event, source),
    ;

    /// `cuLaunchHostFunc` of a callback that drops `staged`, behind the copy
    /// that reads them. Where the callback could not be enqueued, the bytes come
    /// back with the status.
    fn launch_drop(&self, stream: u64, staged: Self::InFlight) -> Result<(), (u32, Self::InFlight)>
        requires
            copy_enqueued(self, staged, stream),
    ;
}

/// Whether these bytes came back from a callback that could not be enqueued on
/// the stream.
pub open spec fn drop_refused<D: FollowUpCalls>(ctx: &D, stream: u64, held: &D::InFlight) -> bool {
    exists|staged: D::InFlight, launched: Result<(), (u32, D::InFlight)>|
        #[trigger] call_ensures(D::launch_drop, (ctx, stream, staged), launched) && launched is Err
            && launched->Err_0.1 == *held
}

/// Waiting for a copy whose source bytes nobody frees.
pub trait DrainCalls: FollowUpCalls {
    /// `cuStreamSynchronize` behind a copy whose source bytes came back from
    /// [`FollowUpCalls::launch_drop`]. The bytes are held meanwhile.
    fn synchronize_behind_copy(&self, stream: u64, held: &Self::InFlight) -> u32
        requires
            bound(self),
            drop_refused(self, stream, held),
    ;
}

/// Whether the copy that reads these bytes was waited for with success.
pub open spec fn idle_behind<D: DrainCalls>(ctx: &D, held: &D::InFlight) -> bool {
    exists|stream: u64, code: u32|
        #[trigger] call_ensures(D::synchronize_behind_copy, (ctx, stream, held), code) && code
            == CUDA_SUCCESS
}

/// A driver context, with all calls that can be made in it.
pub trait DriverContext: DrainCalls {
    /// Frees bytes that no copy reads any longer.
    fn free_staged(&self, held: Self::InFlight)
        requires
            idle_behind(self, &held),
    ;
}

/// Whether `r` is the error of binding the context, or binding succeeded and
/// `r` is what `rest` says of the call made then.
pub open spec fn after_bind<D: DriverContext, T>(
    ctx: &D,
    r: Result<T, DriverError>,
    rest: spec_fn(Result<T, DriverError>) -> bool,
) -> bool {
    exists|bound: Result<(), DriverError>|
        #[trigger] call_ensures(D::bind_to_thread, (ctx,), bound) && match bound {
            Err(error) => r == Err::<T, DriverError>(error),
            Ok(_) => rest(r),
        }
}

/// What a context keeps count of while its streams and modules come and go.
#[derive(Debug)]
pub struct ContextState {
    /// Number of live streams, modulo the size of a `usize`.
    pub num_streams: usize,
    /// The errors of teardowns, in order: a teardown has nobody to return them
    /// to.
    pub errors: Vec<DriverError>,
}

/// The errors in `errors`, and behind them the one in `result`, if it is one.
pub open spec fn with_error(errors: Seq<DriverError>, result: Result<(), DriverError>) -> Seq<
    DriverError,
> {
    match result {
        Ok(_) => errors,
        Err(error) => errors.push(error),
    }
}

impl ContextState {
    /// The state of a context without streams.
    pub fn new() -> (state: Self)
        ensures
            state.num_streams == 0,
            state.errors@ == Seq::<DriverError>::empty(),
    {
        ContextState { num_streams: 0, errors: Vec::new() }
    }

    /// Notes the error of `result`, if it is one.
    pub fn record_err(&mut self, result: Result<(), DriverError>)
        ensures
            final(self).num_streams == old(self).num_streams,
            final(self).errors@ == with_error(old(self).errors@, result),
    {
        match result {
            Ok(()) => {},
            Err(error) => self.errors.push(error),
        }
    }
}

} // verus!
