//! Modules: loading PTX and cubins, looking up kernels and device globals.

use core::mem::ManuallyDrop;
use std::sync::Arc;

use vstd::prelude::*;

use crate::driver::context::{
    after_bind, bind_tried, copy_enqueued, drop_refused, idle_behind, with_error, ContextState,
    DriverContext,
};
use crate::driver::error::{status_result, DriverError, IntoResult};
use crate::driver::memory::{copied_async, copied_sync, memcpy_htod_async, memcpy_htod_sync};
use crate::driver::stream::{synchronized_behind, CudaStream};

verus! {

/// Whether a text can be handed to the driver as a C string.
pub open spec fn without_nul(text: Seq<char>) -> bool {
    forall|i: int| 0 <= i < text.len() ==> text[i] != '\0'
}

/// A loaded module.
pub struct CudaModule<D> {
    /// Raw module handle.
    pub cu_module: u64,
    /// Owning context. Kept alive for the lifetime of this module.
    pub ctx: Arc<D>,
}

/// A kernel entry point within a loaded module.
pub struct CudaFunction<D> {
    /// Raw function handle.
    pub cu_function: u64,
    /// Owning module. Prevents unloading while this handle exists.
    pub module: Arc<CudaModule<D>>,
}

/// A byte string that ends with a zero byte, borrowed where it does so already.
#[derive(Debug)]
pub enum NulTerminated<'a> {
    Borrowed(&'a [u8]),
    Owned(Vec<u8>),
}

impl<'a> View for NulTerminated<'a> {
    type V = Seq<u8>;

    open spec fn view(&self) -> Seq<u8> {
        match self {
            NulTerminated::Borrowed(bytes) => bytes@,
            NulTerminated::Owned(bytes) => bytes@,
        }
    }
}

impl<'a> NulTerminated<'a> {
    /// The bytes.
    pub fn as_slice(&self) -> (bytes: &[u8])
        ensures
            bytes@ == self@,
    {
        match self {
            NulTerminated::Borrowed(bytes) => bytes,
            NulTerminated::Owned(bytes) => bytes.as_slice(),
        }
    }
}

/// `image` with a zero byte behind it, unless it ends with one.
pub open spec fn nul_terminated(image: Seq<u8>) -> Seq<u8> {
    if image.len() > 0 && image.last() == 0 {
        image
    } else {
        image.push(0)
    }
}

/// `image` with a zero byte behind it, copied only where it lacks one.
pub fn null_terminated_image(image: &[u8]) -> (terminated: NulTerminated<'_>)
    ensures
        terminated@ == nul_terminated(image@),
        terminated is Borrowed <==> image@.len() > 0 && image@.last() == 0,
{
    let len: usize = image.len();
    if len > 0 && image[len - 1] == 0 {
        NulTerminated::Borrowed(image)
    } else {
        let mut owned: Vec<u8> = Vec::new();
        let mut i: usize = 0;
        while i < len
            invariant
                i <= len,
                len == image@.len(),
                owned@ == image@.take(i as int),
            decreases len - i,
        {
            owned.push(image[i]);
            i = i + 1;
            assert(owned@ =~= image@.take(i as int));
        }
        owned.push(0);
        assert(owned@ =~= image@.push(0));
        NulTerminated::Owned(owned)
    }
}

/// The module with the handle in `r`, or its error.
pub open spec fn as_module<D>(ctx: Arc<D>, r: Result<u64, DriverError>) -> Result<
    CudaModule<D>,
    DriverError,
> {
    match r {
        Ok(cu_module) => Ok(CudaModule { cu_module, ctx }),
        Err(error) => Err(error),
    }
}

/// Whether `r` can come of loading a module from an image.
pub open spec fn loads_image<D: DriverContext>(
    ctx: Arc<D>,
    image: Seq<u8>,
    r: Result<CudaModule<D>, DriverError>,
) -> bool {
    after_bind(
        &*ctx,
        r,
        |r: Result<CudaModule<D>, DriverError>|
            exists|handed: &[u8], out: (u32, u64)|
                handed@ == nul_terminated(image) && #[trigger] call_ensures(
                    D::module_load_data,
                    (&*ctx, handed),
                    out,
                ) && r == as_module(ctx, status_result(out.0, out.1)),
    )
}

/// The module with the handle in `r`, or its error.
fn wrap_module<D>(ctx: &Arc<D>, r: Result<u64, DriverError>) -> (module: Result<
    CudaModule<D>,
    DriverError,
>)
    ensures
        module == as_module(*ctx, r),
{
    match r {
        Ok(cu_module) => Ok(CudaModule { cu_module, ctx: ctx.clone() }),
        Err(error) => Err(error),
    }
}

impl<D: DriverContext> CudaModule<D> {
    /// Compiles PTX source for the context's device and loads the result.
    pub fn load_module_from_ptx_src(ctx: &Arc<D>, ptx_src: &str) -> (r: Result<
        CudaModule<D>,
        DriverError,
    >)
        requires
            without_nul(ptx_src@),
        ensures
            after_bind(
                &**ctx,
                r,
                |r: Result<CudaModule<D>, DriverError>|
                    exists|out: (u32, u64)|
                        #[trigger] call_ensures(D::module_load_ptx, (&**ctx, ptx_src), out) && r
                            == as_module(*ctx, status_result(out.0, out.1)),
            ),
    {
        match ctx.bind_to_thread() {
            Ok(()) => {},
            Err(error) => return Err(error),
        }
        let out = ctx.module_load_ptx(ptx_src);
        wrap_module(ctx, out.result())
    }

    /// Loads a module from an in-memory image.
    ///
    /// The image may be PTX source bytes, a cubin, or a fatbin. It is
    /// terminated with a zero byte, which PTX text needs; binary images
    /// tolerate the trailing byte, as their own headers give their size.
    pub fn load_module_from_image(ctx: &Arc<D>, image: &[u8]) -> (r: Result<
        CudaModule<D>,
        DriverError,
    >)
        ensures
            loads_image(*ctx, image@, r),
    {
        match ctx.bind_to_thread() {
            Ok(()) => {},
            Err(error) => return Err(error),
        }
        let image = null_terminated_image(image);
        let out = ctx.module_load_data(image.as_slice());
        wrap_module(ctx, out.result())
    }

    /// Loads a module from a cubin or PTX file on disk.
    pub fn load_module_from_file(ctx: &Arc<D>, filename: &str) -> (r: Result<
        CudaModule<D>,
        DriverError,
    >)
        requires
            without_nul(filename@),
        ensures
            after_bind(
                &**ctx,
                r,
                |r: Result<CudaModule<D>, DriverError>|
                    exists|out: (u32, u64)|
                        #[trigger] call_ensures(D::module_load, (&**ctx, filename), out) && r
                            == as_module(*ctx, status_result(out.0, out.1)),
            ),
    {
        match ctx.bind_to_thread() {
            Ok(()) => {},
            Err(error) => return Err(error),
        }
        let out = ctx.module_load(filename);
        wrap_module(ctx, out.result())
    }

    /// The parent context.
    pub fn context(&self) -> (ctx: &Arc<D>)
        ensures
            *ctx == self.ctx,
    {
        &self.ctx
    }

    /// The raw module handle, which this module still owns.
    pub fn cu_module(&self) -> (handle: u64)
        ensures
            handle == self.cu_module,
    {
        self.cu_module
    }

    /// Looks up a kernel entry point by name.
    ///
    /// The handle keeps the module loaded.
    pub fn load_function(module: &Arc<CudaModule<D>>, fn_name: &str) -> (r: Result<
        CudaFunction<D>,
        DriverError,
    >)
        requires
            without_nul(fn_name@),
        ensures
            after_bind(
                &*module.ctx,
                r,
                |r: Result<CudaFunction<D>, DriverError>|
                    exists|out: (u32, u64)|
                        #[trigger] call_ensures(
                            D::module_get_function,
                            (&*module.ctx, module.cu_module, fn_name),
                            out,
                        ) && r == (match status_result(out.0, out.1) {
                            Ok(cu_function) => Ok::<CudaFunction<D>, DriverError>(
                                CudaFunction { cu_function, module: *module },
                            ),
                            Err(error) => Err(error),
                        }),
            ),
    {
        match module.ctx.bind_to_thread() {
            Ok(()) => {},
            Err(error) => return Err(error),
        }
        let out = module.ctx.module_get_function(module.cu_module, fn_name);
        match out.result() {
            Ok(cu_function) => Ok(CudaFunction { cu_function, module: module.clone() }),
            Err(error) => Err(error),
        }
    }

    /// Resolves a device global by name: its device address and size in bytes.
    pub fn get_global(&self, name: &str) -> (r: Result<(u64, usize), DriverError>)
        requires
            without_nul(name@),
        ensures
            after_bind(
                &*self.ctx,
                r,
                |r: Result<(u64, usize), DriverError>|
                    exists|out: (u32, (u64, usize))|
                        #[trigger] call_ensures(
                            D::module_get_global,
                            (&*self.ctx, self.cu_module, name),
                            out,
                        ) && r == status_result(out.0, out.1),
            ),
    {
        match self.ctx.bind_to_thread() {
            Ok(()) => {},
            Err(error) => return Err(error),
        }
        self.ctx.module_get_global(self.cu_module, name).result()
    }

    /// Synchronously copies host bytes into the device global at `dptr`.
    pub fn copy_bytes_to_device_global_sync(&self, dptr: u64, src: &[u8]) -> (r: Result<
        (),
        DriverError,
    >)
        ensures
            after_bind(
                &*self.ctx,
                r,
                |r: Result<(), DriverError>| copied_sync(&*self.ctx, dptr, src, r),
            ),
    {
        match self.ctx.bind_to_thread() {
            Ok(()) => {},
            Err(error) => return Err(error),
        }
        memcpy_htod_sync(&*self.ctx, dptr, src)
    }

    /// What dropping the module does: it is unloaded, and errors are noted.
    pub fn tear_down(self, state: &mut ContextState)
        ensures
            final(state).num_streams == old(state).num_streams,
            exists|bound: Result<(), DriverError>, code: u32|
                {
                    &&& #[trigger] call_ensures(D::bind_to_thread, (&*self.ctx,), bound)
                    &&& #[trigger] call_ensures(
                        D::module_unload,
                        (&*self.ctx, self.cu_module),
                        code,
                    )
                    &&& final(state).errors@ == with_error(
                        with_error(old(state).errors@, bound),
                        status_result(code, ()),
                    )
                },
    {
        let bound = self.ctx.bind_to_thread();
        assert(bind_tried(&*self.ctx));
        state.record_err(bound);
        let unloaded = self.ctx.module_unload(self.cu_module).result();
        state.record_err(unloaded);
    }
}

impl<D> CudaFunction<D> {
    /// The raw function handle.
    pub fn cu_function(&self) -> (handle: u64)
        ensures
            handle == self.cu_function,
    {
        self.cu_function
    }
}

/// A resolved handle to a device global in constant memory.
#[derive(Clone, Copy, Debug)]
pub struct ConstantHandle {
    pub dptr: u64,
}

/// What became of bytes that were staged for a copy; `B` holds them while the
/// copy may be reading them.
#[derive(Debug, PartialEq, Eq)]
pub enum Staged<B> {
    /// They were freed: no copy was enqueued, or it has completed.
    Freed,
    /// A callback behind the copy frees them.
    HeldByStream,
    /// They were leaked, and are never freed: the copy may still read them.
    Leaked(ManuallyDrop<B>),
}

/// Whether a staged write of `bytes` can return `r` and leave the bytes so.
///
/// The calls come in this order: the context is bound, the copy of these very
/// bytes is enqueued, the callback behind it, and, where that is refused, the
/// stream is waited for while the bytes that came back are held. The bytes are
/// freed at once only where no copy can be reading them: nothing was enqueued,
/// or the stream was seen idle behind the copy. Where neither holds, the bytes
/// that came back are kept from being freed.
pub open spec fn stages<D: DriverContext>(
    stream: &CudaStream<D>,
    dptr: u64,
    bytes: Vec<u8>,
    r: Result<(), DriverError>,
    fate: Staged<D::InFlight>,
) -> bool {
    let ctx = &*stream.ctx;
    exists|bound: Result<(), DriverError>|
        #[trigger] call_ensures(D::bind_to_thread, (ctx,), bound) && match bound {
            Err(error) => r == Err::<(), DriverError>(error) && fate is Freed,
            Ok(_) => if bytes@.len() == 0 {
                r is Ok && fate is Freed
            } else {
                exists|copied: Result<D::InFlight, (u32, Vec<u8>)>|
                    #[trigger] call_ensures(
                        D::copy_staged,
                        (ctx, dptr, bytes, stream.cu_stream),
                        copied,
                    ) && match copied {
                        Err(refused) => r == Err::<(), DriverError>(DriverError(refused.0))
                            && fate is Freed,
                        Ok(staged) => exists|launched: Result<(), (u32, D::InFlight)>|
                            #[trigger] call_ensures(
                                D::launch_drop,
                                (ctx, stream.cu_stream, staged),
                                launched,
                            ) && match launched {
                                Ok(_) => r is Ok && fate is HeldByStream,
                                Err(refused) => exists|idle: Result<(), DriverError>|
                                    #[trigger] synchronized_behind(
                                        ctx,
                                        stream.cu_stream,
                                        &refused.1,
                                        idle,
                                    ) && match idle {
                                        Ok(_) => {
                                            &&& r == Err::<(), DriverError>(
                                                DriverError(refused.0),
                                            )
                                            &&& fate is Freed
                                            &&& call_ensures(
                                                D::free_staged,
                                                (ctx, refused.1),
                                                (),
                                            )
                                        },
                                        Err(error) => {
                                            &&& r == Err::<(), DriverError>(error)
                                            &&& fate matches Staged::Leaked(kept) && kept@
                                                == refused.1
                                        },
                                    },
                            },
                    }
            },
        }
}

impl ConstantHandle {
    /// The handle of the global at this device address.
    pub fn from_raw(dptr: u64) -> (handle: Self)
        ensures
            handle.dptr == dptr,
    {
        ConstantHandle { dptr }
    }

    /// Copies `src` into the device global in stream order. The source must
    /// stay as it is until the copy has completed.
    pub fn write_async<D: DriverContext>(&self, stream: &CudaStream<D>, src: &[u8]) -> (r: Result<
        (),
        DriverError,
    >)
        ensures
            after_bind(
                &*stream.ctx,
                r,
                |r: Result<(), DriverError>|
                    copied_async(&*stream.ctx, self.dptr, src, stream.cu_stream, r),
            ),
    {
        match stream.ctx.bind_to_thread() {
            Ok(()) => {},
            Err(error) => return Err(error),
        }
        memcpy_htod_async(&*stream.ctx, self.dptr, src, stream.cu_stream)
    }

    /// Copies owned bytes into the device global in stream order, and says
    /// what became of them.
    ///
    /// The bytes are kept alive until the stream reaches a host callback
    /// enqueued after the copy. Where that callback cannot be enqueued, the
    /// stream is synchronized before they are freed; if even that fails, they
    /// are leaked.
    pub fn write_async_staged<D: DriverContext>(&self, stream: &CudaStream<D>, bytes: Vec<u8>) -> (out:
        (Result<(), DriverError>, Staged<D::InFlight>))
        ensures
            stages(stream, self.dptr, bytes, out.0, out.1),
    {
        match stream.ctx.bind_to_thread() {
            Ok(()) => {},
            Err(error) => return (Err(error), Staged::Freed),
        }
        if bytes.len() == 0 {
            return (Ok(()), Staged::Freed);
        }
        let staged = match stream.ctx.copy_staged(self.dptr, bytes, stream.cu_stream) {
            Ok(staged) => staged,
            Err((code, _)) => return (Err(DriverError(code)), Staged::Freed),
        };
        assert(copy_enqueued(&*stream.ctx, staged, stream.cu_stream));
        match stream.ctx.launch_drop(stream.cu_stream, staged) {
            Ok(()) => (Ok(()), Staged::HeldByStream),
            Err((code, held)) => {
                assert(drop_refused(&*stream.ctx, stream.cu_stream, &held));
                let idle = stream.synchronize_behind(&held);
                assert(synchronized_behind(&*stream.ctx, stream.cu_stream, &held, idle));
                match idle {
                    Ok(()) => {
                        assert(idle_behind(&*stream.ctx, &held));
                        stream.ctx.free_staged(held);
                        (Err(DriverError(code)), Staged::Freed)
                    },
                    Err(error) => (Err(error), Staged::Leaked(ManuallyDrop::new(held))),
                }
            },
        }
    }

    /// Synchronously copies `src` into the device global.
    pub fn write_blocking<D: DriverContext>(&self, module: &CudaModule<D>, src: &[u8]) -> (r: Result<
        (),
        DriverError,
    >)
        ensures
            after_bind(
                &*module.ctx,
                r,
                |r: Result<(), DriverError>| copied_sync(&*module.ctx, self.dptr, src, r),
            ),
    {
        module.copy_bytes_to_device_global_sync(self.dptr, src)
    }
}

/// Whether `idle` came of waiting for the stream behind the copy of `bytes`,
/// while `held` was held: what the refused callback gave back.
pub open spec fn seen_behind_copy<D: DriverContext>(
    stream: &CudaStream<D>,
    dptr: u64,
    bytes: Vec<u8>,
    held: D::InFlight,
    idle: Result<(), DriverError>,
) -> bool {
    &&& exists|
        copied: Result<D::InFlight, (u32, Vec<u8>)>,
        launched: Result<(), (u32, D::InFlight)>,
    |
        {
            &&& #[trigger] call_ensures(
                D::copy_staged,
                (&*stream.ctx, dptr, bytes, stream.cu_stream),
                copied,
            )
            &&& copied is Ok
            &&& #[trigger] call_ensures(
                D::launch_drop,
                (&*stream.ctx, stream.cu_stream, copied->Ok_0),
                launched,
            )
            &&& launched is Err
            &&& launched->Err_0.1 == held
        }
    &&& synchronized_behind(&*stream.ctx, stream.cu_stream, &held, idle)
}

/// Staged bytes are freed behind an enqueued copy only where the stream was
/// seen idle after the copy. They are leaked only where it was waited for
/// behind the copy without success, and what is leaked is what was held
/// meanwhile.
pub proof fn law_staged_bytes_outlive_the_copy<D: DriverContext>(
    stream: &CudaStream<D>,
    dptr: u64,
    bytes: Vec<u8>,
    r: Result<(), DriverError>,
    fate: Staged<D::InFlight>,
)
    requires
        stages(stream, dptr, bytes, r, fate),
    ensures
        fate matches Staged::Leaked(kept) ==> r is Err && seen_behind_copy(
            stream,
            dptr,
            bytes,
            kept@,
            Err(r->Err_0),
        ),
        fate is Freed ==> {
            ||| bytes@.len() == 0
            ||| exists|error: DriverError|
                #[trigger] call_ensures(D::bind_to_thread, (&*stream.ctx,), Err(error))
            ||| exists|copied: Result<D::InFlight, (u32, Vec<u8>)>|
                copied is Err && #[trigger] call_ensures(
                    D::copy_staged,
                    (&*stream.ctx, dptr, bytes, stream.cu_stream),
                    copied,
                )
            ||| exists|held: D::InFlight, idle: Result<(), DriverError>|
                idle is Ok && #[trigger] seen_behind_copy(stream, dptr, bytes, held, idle)
                    && call_ensures(D::free_staged, (&*stream.ctx, held), ())
        },
        r is Ok && bytes@.len() > 0 ==> fate is HeldByStream,
{
    let ctx = &*stream.ctx;
    if exists|
        copied: Result<D::InFlight, (u32, Vec<u8>)>,
        launched: Result<(), (u32, D::InFlight)>,
        idle: Result<(), DriverError>,
    |
        #![trigger
            call_ensures(D::copy_staged, (ctx, dptr, bytes, stream.cu_stream), copied),
            call_ensures(D::launch_drop, (ctx, stream.cu_stream, copied->Ok_0), launched),
            synchronized_behind(ctx, stream.cu_stream, &launched->Err_0.1, idle)]
        went_idle(stream, dptr, bytes, copied, launched, idle) {
        let (copied, launched, idle) = choose|
            copied: Result<D::InFlight, (u32, Vec<u8>)>,
            launched: Result<(), (u32, D::InFlight)>,
            idle: Result<(), DriverError>,
        |
            went_idle(stream, dptr, bytes, copied, launched, idle);
        assert(seen_behind_copy(stream, dptr, bytes, launched->Err_0.1, idle));
    }
}

/// One course of a staged write that ends with idle bytes being freed.
spec fn went_idle<D: DriverContext>(
    stream: &CudaStream<D>,
    dptr: u64,
    bytes: Vec<u8>,
    copied: Result<D::InFlight, (u32, Vec<u8>)>,
    launched: Result<(), (u32, D::InFlight)>,
    idle: Result<(), DriverError>,
) -> bool {
    &&& call_ensures(D::copy_staged, (&*stream.ctx, dptr, bytes, stream.cu_stream), copied)
    &&& copied is Ok
    &&& call_ensures(D::launch_drop, (&*stream.ctx, stream.cu_stream, copied->Ok_0), launched)
    &&& launched is Err
    &&& synchronized_behind(&*stream.ctx, stream.cu_stream, &launched->Err_0.1, idle)
    &&& idle is Ok
    &&& call_ensures(D::free_staged, (&*stream.ctx, launched->Err_0.1), ())
}

} // verus!
