use std::cell::RefCell;
use std::mem::ManuallyDrop;
use std::sync::Arc;

use cuda_oxide::driver::context::{
    ContextBinding, ContextState, DrainCalls, DriverCalls, DriverContext, FollowUpCalls,
};
use cuda_oxide::driver::error::{DriverError, IntoResult, CUDA_ERROR_INVALID_VALUE, CUDA_SUCCESS};
use cuda_oxide::driver::memory::{
    free_async, free_host, free_sync, malloc_async, malloc_host, malloc_sync, memcpy_dtod_async,
    memcpy_dtoh_async, memcpy_htod_async, memcpy_htod_sync, memset_d8_async,
};
use cuda_oxide::driver::module::{
    null_terminated_image, ConstantHandle, CudaModule, NulTerminated, Staged,
};
use cuda_oxide::driver::peer::{can_access_peer, disable_peer_access, enable_peer_access};
use cuda_oxide::driver::stream::CudaStream;

/// A context with fixed answers that notes its calls.
struct FakeContext {
    bind: Result<(), DriverError>,
    /// The status of every call that has one of its own.
    status: u32,
    /// The status of the call with this name, in place of `status`.
    except: (&'static str, u32),
    can_access: i32,
    calls: RefCell<Vec<String>>,
}

fn fake() -> FakeContext {
    FakeContext {
        bind: Ok(()),
        status: CUDA_SUCCESS,
        except: ("", 0),
        can_access: 1,
        calls: RefCell::new(Vec::new()),
    }
}

fn failing(call: &'static str, status: u32) -> FakeContext {
    FakeContext { except: (call, status), ..fake() }
}

fn unbound() -> FakeContext {
    FakeContext { bind: Err(DriverError(201)), ..fake() }
}

impl FakeContext {
    fn call(&self, name: &'static str, detail: String) -> u32 {
        self.calls.borrow_mut().push(format!("{name} {detail}").trim().to_string());
        if self.except.0 == name {
            self.except.1
        } else {
            self.status
        }
    }

    fn seen(&self) -> Vec<String> {
        self.calls.borrow().clone()
    }
}

impl ContextBinding for FakeContext {
    fn bind_to_thread(&self) -> Result<(), DriverError> {
        self.calls.borrow_mut().push("bind".to_string());
        self.bind
    }
    fn cu_device(&self) -> i32 {
        3
    }
    fn cu_ctx(&self) -> u64 {
        77
    }
}

impl DriverCalls for FakeContext {
    type InFlight = Vec<u8>;

    fn device_can_access_peer(&self, from: i32, to: i32) -> (u32, i32) {
        (self.call("can_access", format!("{from} {to}")), self.can_access)
    }
    fn ctx_enable_peer_access(&self, peer: u64, flags: u32) -> u32 {
        self.call("enable", format!("{peer} {flags}"))
    }
    fn ctx_disable_peer_access(&self, peer: u64) -> u32 {
        self.call("disable", format!("{peer}"))
    }
    fn stream_create(&self, flags: u32) -> (u32, u64) {
        (self.call("create", format!("{flags}")), 50)
    }
    fn stream_destroy(&self, stream: u64) -> u32 {
        self.call("destroy", format!("{stream}"))
    }
    fn stream_synchronize(&self, stream: u64) -> u32 {
        self.call("synchronize", format!("{stream}"))
    }
    fn stream_wait_event(&self, stream: u64, event: u64, flags: u32) -> u32 {
        self.call("wait", format!("{stream} {event} {flags}"))
    }
    fn new_event(&self, flags: Option<u32>) -> Result<u64, DriverError> {
        (self.call("event", format!("{flags:?}")), 60u64).result()
    }
    fn record(&self, event: u64, stream: u64) -> Result<(), DriverError> {
        self.call("record", format!("{event} {stream}")).result()
    }
    fn module_load_ptx(&self, source: &str) -> (u32, u64) {
        (self.call("ptx", source.to_string()), 70)
    }
    fn module_load_data(&self, image: &[u8]) -> (u32, u64) {
        (self.call("data", format!("{image:?}")), 71)
    }
    fn module_load(&self, filename: &str) -> (u32, u64) {
        (self.call("file", filename.to_string()), 72)
    }
    fn module_unload(&self, module: u64) -> u32 {
        self.call("unload", format!("{module}"))
    }
    fn module_get_function(&self, module: u64, name: &str) -> (u32, u64) {
        (self.call("function", format!("{module} {name}")), 80)
    }
    fn module_get_global(&self, module: u64, name: &str) -> (u32, (u64, usize)) {
        (self.call("global", format!("{module} {name}")), (90, 16))
    }
    fn mem_alloc_async(&self, num_bytes: usize, stream: u64) -> (u32, u64) {
        (self.call("alloc_async", format!("{num_bytes} {stream}")), 100)
    }
    fn mem_free_async(&self, dptr: u64, stream: u64) -> u32 {
        self.call("free_async", format!("{dptr} {stream}"))
    }
    fn mem_alloc(&self, num_bytes: usize) -> (u32, u64) {
        (self.call("alloc", format!("{num_bytes}")), 101)
    }
    fn mem_free(&self, dptr: u64) -> u32 {
        self.call("free", format!("{dptr}"))
    }
    fn memcpy_htod_async(&self, dst: u64, src: &[u8], stream: u64) -> u32 {
        self.call("htod_async", format!("{dst} {src:?} {stream}"))
    }
    fn copy_staged(
        &self,
        dst: u64,
        bytes: Vec<u8>,
        stream: u64,
    ) -> Result<Vec<u8>, (u32, Vec<u8>)> {
        match self.memcpy_htod_async(dst, &bytes, stream) {
            CUDA_SUCCESS => Ok(bytes),
            status => Err((status, bytes)),
        }
    }
    fn memcpy_htod(&self, dst: u64, src: &[u8]) -> u32 {
        self.call("htod", format!("{dst} {src:?}"))
    }
    fn memcpy_dtoh_async(&self, dst: u64, src: u64, num_bytes: usize, stream: u64) -> u32 {
        self.call("dtoh", format!("{dst} {src} {num_bytes} {stream}"))
    }
    fn mem_alloc_host(&self, num_bytes: usize) -> (u32, u64) {
        (self.call("alloc_host", format!("{num_bytes}")), 102)
    }
    fn mem_free_host(&self, host: u64) -> u32 {
        self.call("free_host", format!("{host}"))
    }
    fn memcpy_dtod_async(&self, dst: u64, src: u64, num_bytes: usize, stream: u64) -> u32 {
        self.call("dtod", format!("{dst} {src} {num_bytes} {stream}"))
    }
    fn memset_d8_async(&self, dptr: u64, value: u8, num_bytes: usize, stream: u64) -> u32 {
        self.call("memset", format!("{dptr} {value} {num_bytes} {stream}"))
    }
}

impl FollowUpCalls for FakeContext {
    fn wait_for_recorded(
        &self,
        stream: u64,
        event: u64,
        flags: u32,
        _recorder: &Self,
        _source: u64,
    ) -> u32 {
        self.stream_wait_event(stream, event, flags)
    }
    fn launch_drop(&self, stream: u64, bytes: Vec<u8>) -> Result<(), (u32, Vec<u8>)> {
        let status = self.call("launch_drop", format!("{stream} {}", bytes.len()));
        if status == CUDA_SUCCESS {
            Ok(())
        } else {
            Err((status, bytes))
        }
    }
}

impl DrainCalls for FakeContext {
    fn synchronize_behind_copy(&self, stream: u64, held: &Vec<u8>) -> u32 {
        self.call("synchronize", format!("{stream} holding {held:?}"))
    }
}

impl DriverContext for FakeContext {
    fn free_staged(&self, held: Vec<u8>) {
        self.call("free_staged", format!("{held:?}"));
    }
}

fn stream(ctx: FakeContext, cu_stream: u64) -> CudaStream<FakeContext> {
    CudaStream { cu_stream, ctx: Arc::new(ctx) }
}

fn error_of<T>(r: Result<T, DriverError>) -> Option<DriverError> {
    r.err()
}

#[test]
fn status_codes_become_results() {
    assert_eq!(CUDA_SUCCESS.result(), Ok(()));
    assert_eq!(
        IntoResult::<()>::result(CUDA_ERROR_INVALID_VALUE),
        Err(DriverError(CUDA_ERROR_INVALID_VALUE))
    );
    assert_eq!((CUDA_SUCCESS, 'v').result(), Ok('v'));
    assert_eq!((2u32, 'v').result(), Err(DriverError(2)));
}

#[test]
fn driver_errors_read_as_a_tuple() {
    assert_eq!(
        DriverError(1).message(Some("\"invalid argument\"")),
        "DriverError(1, \"invalid argument\")"
    );
    assert_eq!(
        DriverError(999).message(None),
        "DriverError(999, \"<cuGetErrorString failed>\")"
    );
}

#[test]
fn error_texts_are_asked_of_the_driver() {
    let texts = |code: u32| {
        if code == 1 {
            (CUDA_SUCCESS, b"CUDA_ERROR_INVALID_VALUE".to_vec())
        } else {
            (CUDA_ERROR_INVALID_VALUE, Vec::new())
        }
    };
    assert_eq!(DriverError(1).error_name(texts), Ok(b"CUDA_ERROR_INVALID_VALUE".to_vec()));
    assert_eq!(DriverError(999).error_name(texts), Err(DriverError(CUDA_ERROR_INVALID_VALUE)));
    let described = |_code: u32| (CUDA_SUCCESS, b"invalid argument".to_vec());
    assert_eq!(DriverError(1).error_string(described), Ok(b"invalid argument".to_vec()));
    assert_eq!(DriverError(999).error_string(texts), Err(DriverError(CUDA_ERROR_INVALID_VALUE)));
}

#[test]
fn peer_access_is_asked_of_the_driver() {
    let ctx = fake();
    assert_eq!(can_access_peer(&ctx, &ctx), Ok(true));
    assert_eq!(ctx.seen(), vec!["can_access 3 3"]);
    let apart = FakeContext { can_access: 0, ..fake() };
    assert_eq!(can_access_peer(&apart, &apart), Ok(false));
    let broken = failing("can_access", 101);
    assert_eq!(can_access_peer(&broken, &broken), Err(DriverError(101)));
}

#[test]
fn enabling_and_disabling_twice_is_no_error() {
    let ctx = fake();
    assert_eq!(enable_peer_access(&ctx, &ctx), Ok(()));
    assert_eq!(disable_peer_access(&ctx, &ctx), Ok(()));
    assert_eq!(ctx.seen(), vec!["bind", "enable 77 0", "bind", "disable 77"]);

    let already = failing("enable", 704);
    assert_eq!(enable_peer_access(&already, &already), Ok(()));
    let not_yet = failing("disable", 705);
    assert_eq!(disable_peer_access(&not_yet, &not_yet), Ok(()));

    // Each status counts as success only for its own call.
    let wrong = failing("enable", 705);
    assert_eq!(enable_peer_access(&wrong, &wrong), Err(DriverError(705)));
    let wrong = failing("disable", 704);
    assert_eq!(disable_peer_access(&wrong, &wrong), Err(DriverError(704)));

    let off = unbound();
    assert_eq!(enable_peer_access(&off, &off), Err(DriverError(201)));
    assert_eq!(disable_peer_access(&off, &off), Err(DriverError(201)));
    assert_eq!(off.seen(), vec!["bind", "bind"]);
}

#[test]
fn memory_calls_hand_their_arguments_on() {
    let ctx = fake();
    assert_eq!(ctx.bind_to_thread(), Ok(()));
    assert_eq!(malloc_async(&ctx, 5, 64), Ok(100));
    assert_eq!(free_async(&ctx, 100, 5), Ok(()));
    assert_eq!(malloc_sync(&ctx, 32), Ok(101));
    assert_eq!(free_sync(&ctx, 101), Ok(()));
    assert_eq!(memcpy_htod_async(&ctx, 100, &[1, 2], 5), Ok(()));
    assert_eq!(memcpy_htod_sync(&ctx, 100, &[3]), Ok(()));
    assert_eq!(malloc_host(&ctx, 48), Ok(102));
    assert_eq!(memcpy_dtoh_async(&ctx, 102, 100, 48, 5), Ok(()));
    assert_eq!(free_host(&ctx, 102), Ok(()));
    assert_eq!(memcpy_dtod_async(&ctx, 1, 2, 3, 4), Ok(()));
    assert_eq!(memset_d8_async(&ctx, 1, 9, 3, 4), Ok(()));
    assert_eq!(
        ctx.seen(),
        vec![
            "bind",
            "alloc_async 64 5",
            "free_async 100 5",
            "alloc 32",
            "free 101",
            "htod_async 100 [1, 2] 5",
            "htod 100 [3]",
            "alloc_host 48",
            "dtoh 102 100 48 5",
            "free_host 102",
            "dtod 1 2 3 4",
            "memset 1 9 3 4",
        ]
    );

    let ctx = FakeContext { status: 2, ..fake() };
    assert_eq!(ctx.bind_to_thread(), Ok(()));
    assert_eq!(malloc_async(&ctx, 5, 64), Err(DriverError(2)));
    assert_eq!(free_async(&ctx, 100, 5), Err(DriverError(2)));
    assert_eq!(malloc_sync(&ctx, 32), Err(DriverError(2)));
    assert_eq!(free_sync(&ctx, 101), Err(DriverError(2)));
    assert_eq!(memcpy_htod_async(&ctx, 100, &[1, 2], 5), Err(DriverError(2)));
    assert_eq!(memcpy_htod_sync(&ctx, 100, &[3]), Err(DriverError(2)));
    assert_eq!(memcpy_dtod_async(&ctx, 1, 2, 3, 4), Err(DriverError(2)));
    assert_eq!(memset_d8_async(&ctx, 1, 9, 3, 4), Err(DriverError(2)));
}

#[test]
fn wait_is_enqueued_behind_the_recording() {
    let ctx = Arc::new(fake());
    let a = CudaStream { cu_stream: 5, ctx: Arc::clone(&ctx) };
    let b = CudaStream { cu_stream: 6, ctx: Arc::clone(&ctx) };
    assert_eq!(a.join(&b), Ok(()));
    assert_eq!(ctx.seen(), vec!["event None", "record 60 6", "bind", "wait 5 60 0"]);
}

#[test]
fn streams_join_through_an_event() {
    let a = stream(fake(), 5);
    let b = stream(fake(), 6);
    assert_eq!(a.cu_stream(), 5);
    assert_eq!(a.join(&b), Ok(()));
    assert_eq!(b.context().seen(), vec!["event None", "record 60 6"]);
    assert_eq!(a.context().seen(), vec!["bind", "wait 5 60 0"]);

    let broken = stream(failing("event", 3), 6);
    assert_eq!(a.join(&broken), Err(DriverError(3)));
    let broken = stream(failing("record", 4), 6);
    assert_eq!(a.join(&broken), Err(DriverError(4)));
    let broken = stream(failing("wait", 5), 6);
    assert_eq!(broken.join(&b), Err(DriverError(5)));
}

#[test]
fn synchronize_and_wait_bind_first() {
    let s = stream(fake(), 5);
    assert_eq!(s.synchronize(), Ok(()));
    assert_eq!(s.wait(8), Ok(()));
    assert_eq!(s.record_event(Some(1)), Ok(60));
    assert_eq!(
        s.context().seen(),
        vec!["bind", "synchronize 5", "bind", "wait 5 8 0", "event Some(1)", "record 60 5"]
    );
    let off = stream(unbound(), 5);
    assert_eq!(off.synchronize(), Err(DriverError(201)));
    assert_eq!(off.wait(8), Err(DriverError(201)));
    assert_eq!(off.context().seen(), vec!["bind", "bind"]);
}

#[test]
fn fork_waits_on_its_parent() {
    let parent = stream(fake(), 5);
    let mut state = ContextState::new();
    let child = match parent.fork(&mut state) {
        Ok(child) => child,
        Err(error) => panic!("{}", error.message(None)),
    };
    assert_eq!(child.cu_stream(), 50);
    assert_eq!(state.num_streams, 1);
    assert_eq!(
        parent.context().seen(),
        vec!["bind", "create 1", "event None", "record 60 5", "bind", "wait 50 60 0"]
    );
    child.tear_down(&mut state);
    assert_eq!(state.num_streams, 0);
    assert!(state.errors.is_empty());
}

#[test]
fn fork_that_cannot_join_destroys_its_stream() {
    let parent = stream(failing("wait", 9), 5);
    let mut state = ContextState::new();
    assert_eq!(error_of(parent.fork(&mut state)), Some(DriverError(9)));
    assert_eq!(state.num_streams, 0);
    assert_eq!(parent.context().seen().last(), Some(&"destroy 50".to_string()));
}

#[test]
fn fork_that_cannot_create_stays_counted() {
    let parent = stream(failing("create", 9), 5);
    let mut state = ContextState::new();
    assert_eq!(error_of(parent.fork(&mut state)), Some(DriverError(9)));
    assert_eq!(state.num_streams, 1);

    let parent = stream(unbound(), 5);
    let mut state = ContextState::new();
    assert_eq!(error_of(parent.fork(&mut state)), Some(DriverError(201)));
    assert_eq!(state.num_streams, 0);
}

#[test]
fn default_stream_is_never_destroyed() {
    let mut state = ContextState::new();
    stream(unbound(), 0).tear_down(&mut state);
    assert_eq!(state.num_streams, 0);
    assert_eq!(state.errors, vec![DriverError(201)]);

    let mut state = ContextState { num_streams: 2, errors: vec![] };
    let both = FakeContext { bind: Err(DriverError(201)), ..failing("destroy", 7) };
    stream(both, 5).tear_down(&mut state);
    assert_eq!(state.num_streams, 1);
    assert_eq!(state.errors, vec![DriverError(201), DriverError(7)]);
}

#[test]
fn images_end_with_a_zero_byte() {
    assert!(matches!(null_terminated_image(b"ptx\0"), NulTerminated::Borrowed(b"ptx\0")));
    assert_eq!(null_terminated_image(b"ptx").as_slice(), b"ptx\0");
    assert_eq!(null_terminated_image(b"").as_slice(), b"\0");
    assert!(matches!(null_terminated_image(b""), NulTerminated::Owned(_)));
}

#[test]
fn modules_load_from_each_source() {
    let ctx = Arc::new(fake());
    let module = CudaModule::load_module_from_ptx_src(&ctx, ".version 8.0").ok().unwrap();
    assert_eq!(module.cu_module(), 70);
    let module = CudaModule::load_module_from_image(&ctx, &[1, 2]).ok().unwrap();
    assert_eq!(module.cu_module(), 71);
    let module = CudaModule::load_module_from_file(&ctx, "k.cubin").ok().unwrap();
    assert_eq!(module.cu_module(), 72);
    assert_eq!(
        ctx.seen(),
        vec!["bind", "ptx .version 8.0", "bind", "data [1, 2, 0]", "bind", "file k.cubin"]
    );

    let broken = Arc::new(FakeContext { status: 200, ..fake() });
    assert_eq!(
        error_of(CudaModule::load_module_from_ptx_src(&broken, "")),
        Some(DriverError(200))
    );
    assert_eq!(
        error_of(CudaModule::load_module_from_image(&broken, &[])),
        Some(DriverError(200))
    );
    assert_eq!(
        error_of(CudaModule::load_module_from_file(&broken, "")),
        Some(DriverError(200))
    );
}

#[test]
fn module_lookups_and_teardown() {
    let ctx = Arc::new(fake());
    let module = Arc::new(CudaModule { cu_module: 71, ctx: Arc::clone(&ctx) });
    let function = CudaModule::load_function(&module, "kernel").ok().unwrap();
    assert_eq!(function.cu_function(), 80);
    assert_eq!(function.module.context().cu_ctx(), 77);
    assert_eq!(module.get_global("table"), Ok((90, 16)));
    assert_eq!(module.copy_bytes_to_device_global_sync(90, &[4]), Ok(()));
    assert_eq!(ConstantHandle::from_raw(90).write_blocking(&module, &[5]), Ok(()));
    assert_eq!(
        ctx.seen(),
        vec![
            "bind",
            "function 71 kernel",
            "bind",
            "global 71 table",
            "bind",
            "htod 90 [4]",
            "bind",
            "htod 90 [5]",
        ]
    );

    let mut state = ContextState::new();
    let broken = FakeContext { bind: Err(DriverError(201)), ..failing("unload", 8) };
    CudaModule { cu_module: 71, ctx: Arc::new(broken) }.tear_down(&mut state);
    assert_eq!(state.errors, vec![DriverError(201), DriverError(8)]);
}

#[test]
fn staged_bytes_live_until_the_copy_is_done() {
    let handle = ConstantHandle::from_raw(90);

    let s = stream(fake(), 5);
    assert_eq!(handle.write_async_staged(&s, vec![1, 2]), (Ok(()), Staged::HeldByStream));
    assert_eq!(s.context().seen(), vec!["bind", "htod_async 90 [1, 2] 5", "launch_drop 5 2"]);

    let s = stream(fake(), 5);
    assert_eq!(handle.write_async_staged(&s, vec![]), (Ok(()), Staged::Freed));
    assert_eq!(s.context().seen(), vec!["bind"]);

    let s = stream(failing("htod_async", 3), 5);
    assert_eq!(handle.write_async_staged(&s, vec![1]), (Err(DriverError(3)), Staged::Freed));

    // The callback cannot be enqueued: the stream is drained first.
    let s = stream(failing("launch_drop", 4), 5);
    assert_eq!(handle.write_async_staged(&s, vec![1]), (Err(DriverError(4)), Staged::Freed));
    assert_eq!(
        s.context().seen(),
        vec![
            "bind",
            "htod_async 90 [1] 5",
            "launch_drop 5 1",
            "bind",
            "synchronize 5 holding [1]",
            "free_staged [1]",
        ]
    );

    // It cannot even be drained: the bytes are leaked.
    let s = stream(FakeContext { status: 6, except: ("htod_async", 0), ..fake() }, 5);
    assert_eq!(
        handle.write_async_staged(&s, vec![1]),
        (Err(DriverError(6)), Staged::Leaked(ManuallyDrop::new(vec![1])))
    );
    assert_eq!(s.context().seen().last(), Some(&"synchronize 5 holding [1]".to_string()));

    let s = stream(unbound(), 5);
    assert_eq!(handle.write_async_staged(&s, vec![1]), (Err(DriverError(201)), Staged::Freed));
    assert_eq!(handle.write_async(&s, &[1]), Err(DriverError(201)));

    let s = stream(fake(), 5);
    assert_eq!(handle.write_async(&s, &[1]), Ok(()));
    assert_eq!(s.context().seen(), vec!["bind", "htod_async 90 [1] 5"]);
}
