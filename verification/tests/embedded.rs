use std::sync::Arc;

use cuda_oxide::driver::context::{
    ContextBinding, DrainCalls, DriverCalls, DriverContext, FollowUpCalls,
};
use cuda_oxide::driver::error::DriverError;
use cuda_oxide::driver::module::CudaModule;
use cuda_oxide::host::embedded::{
    is_cuda_arch, load_bundle, load_embedded_module, load_first_embedded_module, target_arch,
    target_arch_for_bundle, ArtifactPayload, ArtifactPayloadKind, CubinBuilder,
    EmbeddedModuleError, OwnedArtifactBundle,
};

/// A builder that wraps what it is given, so that its input can be seen.
struct TaggingBuilder;

fn tagged(tag: &str, bytes: &Vec<u8>, name: &str, arch: &str) -> Vec<u8> {
    let mut out = format!("{tag}:{name}:{arch}:").into_bytes();
    out.extend_from_slice(bytes);
    out
}

impl CubinBuilder for TaggingBuilder {
    fn target_arch(&self) -> String {
        target_arch(None)
    }

    fn build_cubin_from_nvvm_ir(
        &self,
        nvvm_ir: &Vec<u8>,
        name: &str,
        arch: &str,
    ) -> Result<Vec<u8>, String> {
        if nvvm_ir.is_empty() {
            return Err("empty NVVM IR".to_string());
        }
        Ok(tagged("nvvm", nvvm_ir, name, arch))
    }

    fn link_ltoir_to_cubin(
        &self,
        ltoir: &Vec<u8>,
        name: &str,
        arch: &str,
    ) -> Result<Vec<u8>, String> {
        Ok(tagged("ltoir", ltoir, name, arch))
    }
}

/// A context whose modules have the checksum of their image as handle. An
/// image that starts with `!` is rejected.
struct ImageContext {
    bind: Result<(), DriverError>,
}

fn checksum(image: &[u8]) -> u64 {
    image.iter().fold(7, |sum, byte| sum * 31 + *byte as u64)
}

fn terminated(text: &str) -> u64 {
    let mut bytes = text.as_bytes().to_vec();
    bytes.push(0);
    checksum(&bytes)
}

impl ContextBinding for ImageContext {
    fn bind_to_thread(&self) -> Result<(), DriverError> {
        self.bind
    }
    fn cu_device(&self) -> i32 {
        unreachable!()
    }
    fn cu_ctx(&self) -> u64 {
        unreachable!()
    }
}

impl DriverCalls for ImageContext {
    type InFlight = Vec<u8>;

    fn device_can_access_peer(&self, _from: i32, _to: i32) -> (u32, i32) {
        unreachable!()
    }
    fn ctx_enable_peer_access(&self, _peer: u64, _flags: u32) -> u32 {
        unreachable!()
    }
    fn ctx_disable_peer_access(&self, _peer: u64) -> u32 {
        unreachable!()
    }
    fn stream_create(&self, _flags: u32) -> (u32, u64) {
        unreachable!()
    }
    fn stream_destroy(&self, _stream: u64) -> u32 {
        unreachable!()
    }
    fn stream_synchronize(&self, _stream: u64) -> u32 {
        unreachable!()
    }
    fn stream_wait_event(&self, _stream: u64, _event: u64, _flags: u32) -> u32 {
        unreachable!()
    }
    fn new_event(&self, _flags: Option<u32>) -> Result<u64, DriverError> {
        unreachable!()
    }
    fn record(&self, _event: u64, _stream: u64) -> Result<(), DriverError> {
        unreachable!()
    }
    fn module_load_ptx(&self, _source: &str) -> (u32, u64) {
        unreachable!()
    }
    fn module_load_data(&self, image: &[u8]) -> (u32, u64) {
        if image[0] == b'!' {
            (200, 0)
        } else {
            (0, checksum(image))
        }
    }
    fn module_load(&self, _filename: &str) -> (u32, u64) {
        unreachable!()
    }
    fn module_unload(&self, _module: u64) -> u32 {
        unreachable!()
    }
    fn module_get_function(&self, _module: u64, _name: &str) -> (u32, u64) {
        unreachable!()
    }
    fn module_get_global(&self, _module: u64, _name: &str) -> (u32, (u64, usize)) {
        unreachable!()
    }
    fn mem_alloc_async(&self, _num_bytes: usize, _stream: u64) -> (u32, u64) {
        unreachable!()
    }
    fn mem_free_async(&self, _dptr: u64, _stream: u64) -> u32 {
        unreachable!()
    }
    fn mem_alloc(&self, _num_bytes: usize) -> (u32, u64) {
        unreachable!()
    }
    fn mem_free(&self, _dptr: u64) -> u32 {
        unreachable!()
    }
    fn memcpy_htod_async(&self, _dst: u64, _src: &[u8], _stream: u64) -> u32 {
        unreachable!()
    }
    fn copy_staged(
        &self,
        _dst: u64,
        _bytes: Vec<u8>,
        _stream: u64,
    ) -> Result<Vec<u8>, (u32, Vec<u8>)> {
        unreachable!()
    }
    fn memcpy_htod(&self, _dst: u64, _src: &[u8]) -> u32 {
        unreachable!()
    }
    fn memcpy_dtoh_async(&self, _dst: u64, _src: u64, _num_bytes: usize, _stream: u64) -> u32 {
        unreachable!()
    }
    fn mem_alloc_host(&self, _num_bytes: usize) -> (u32, u64) {
        unreachable!()
    }
    fn mem_free_host(&self, _host: u64) -> u32 {
        unreachable!()
    }
    fn memcpy_dtod_async(&self, _dst: u64, _src: u64, _num_bytes: usize, _stream: u64) -> u32 {
        unreachable!()
    }
    fn memset_d8_async(&self, _dptr: u64, _value: u8, _num_bytes: usize, _stream: u64) -> u32 {
        unreachable!()
    }
}

impl FollowUpCalls for ImageContext {
    fn wait_for_recorded(
        &self,
        _stream: u64,
        _event: u64,
        _flags: u32,
        _recorder: &Self,
        _source: u64,
    ) -> u32 {
        unreachable!()
    }
    fn launch_drop(&self, _stream: u64, _bytes: Vec<u8>) -> Result<(), (u32, Vec<u8>)> {
        unreachable!()
    }
}

impl DrainCalls for ImageContext {
    fn synchronize_behind_copy(&self, _stream: u64, _held: &Vec<u8>) -> u32 {
        unreachable!()
    }
}

impl DriverContext for ImageContext {
    fn free_staged(&self, _held: Vec<u8>) {
        unreachable!()
    }
}

fn context() -> Arc<ImageContext> {
    Arc::new(ImageContext { bind: Ok(()) })
}

fn payload(kind: ArtifactPayloadKind, text: &str) -> ArtifactPayload {
    ArtifactPayload { kind, bytes: text.as_bytes().to_vec() }
}

fn bundle_with_target(target: &str) -> OwnedArtifactBundle {
    OwnedArtifactBundle {
        name: "demo".to_string(),
        target: target.to_string(),
        payloads: Vec::new(),
        entries: Vec::new(),
    }
}

fn bundle_with_payloads(name: &str, payloads: Vec<ArtifactPayload>) -> OwnedArtifactBundle {
    OwnedArtifactBundle {
        name: name.to_string(),
        target: "sm_90".to_string(),
        payloads,
        entries: Vec::new(),
    }
}

fn handle(r: Result<CudaModule<ImageContext>, EmbeddedModuleError>) -> u64 {
    match r {
        Ok(module) => module.cu_module,
        Err(error) => panic!("{}", error.message(None)),
    }
}

fn error_message(r: Result<CudaModule<ImageContext>, EmbeddedModuleError>) -> String {
    match r {
        Ok(_) => panic!("the load must fail"),
        Err(error) => error.message(Some("\"invalid image\"")),
    }
}

#[test]
fn target_arch_uses_bundle_sm_target() {
    let bundle = bundle_with_target("sm_90");
    assert_eq!(target_arch_for_bundle(&TaggingBuilder, &bundle), "sm_90");
}

#[test]
fn target_arch_uses_bundle_compute_target() {
    let bundle = bundle_with_target("compute_90");
    assert_eq!(target_arch_for_bundle(&TaggingBuilder, &bundle), "compute_90");
}

#[test]
fn target_arch_falls_back_for_non_arch_target() {
    // Bundles may record the word "libdevice" as the target, or "nvvm-ir"
    // where no explicit arch is pinned. Both must go through the fallback.
    for legacy in ["libdevice", "nvvm-ir"] {
        let bundle = bundle_with_target(legacy);
        assert!(
            !target_arch_for_bundle(&TaggingBuilder, &bundle).is_empty(),
            "target_arch_for_bundle returned empty for legacy target {legacy:?}"
        );
    }
}

#[test]
fn fallback_arch_is_the_override_or_sm_120() {
    assert_eq!(target_arch(None), "sm_120");
    assert_eq!(target_arch(Some("sm_100a".to_string())), "sm_100a");
    let bundle = bundle_with_target("nvvm-ir");
    assert_eq!(target_arch_for_bundle(&TaggingBuilder, &bundle), "sm_120");
}

#[test]
fn arch_names_need_their_prefix() {
    assert!(is_cuda_arch("sm_"));
    assert!(is_cuda_arch("compute_100"));
    assert!(!is_cuda_arch("sm90"));
    assert!(!is_cuda_arch("xsm_90"));
    assert!(!is_cuda_arch(""));
}

#[test]
fn payloads_are_preferred_in_order() {
    let all = || {
        vec![
            payload(ArtifactPayloadKind::Ltoir, "l"),
            payload(ArtifactPayloadKind::NvvmIr, "n"),
            payload(ArtifactPayloadKind::Ptx, "p"),
            payload(ArtifactPayloadKind::Cubin, "c"),
            payload(ArtifactPayloadKind::Cubin, "later"),
        ]
    };
    let ctx = context();

    let bundle = bundle_with_payloads("k", all());
    assert_eq!(handle(load_bundle(&ctx, &TaggingBuilder, &bundle)), terminated("c"));

    let mut payloads = all();
    payloads.truncate(3);
    let bundle = bundle_with_payloads("k", payloads);
    assert_eq!(handle(load_bundle(&ctx, &TaggingBuilder, &bundle)), terminated("p"));

    let mut payloads = all();
    payloads.truncate(2);
    let bundle = bundle_with_payloads("k", payloads);
    assert_eq!(
        handle(load_bundle(&ctx, &TaggingBuilder, &bundle)),
        terminated("nvvm:k:sm_90:n")
    );

    let mut payloads = all();
    payloads.truncate(1);
    let bundle = bundle_with_payloads("k", payloads);
    assert_eq!(
        handle(load_bundle(&ctx, &TaggingBuilder, &bundle)),
        terminated("ltoir:k:sm_90:l")
    );
}

#[test]
fn bundle_errors_are_told_apart() {
    let ctx = context();
    let empty = bundle_with_payloads("bare", vec![]);
    assert_eq!(
        error_message(load_bundle(&ctx, &TaggingBuilder, &empty)),
        "embedded CUDA module 'bare' has no supported payload"
    );

    let broken = bundle_with_payloads("k", vec![payload(ArtifactPayloadKind::NvvmIr, "")]);
    assert_eq!(
        error_message(load_bundle(&ctx, &TaggingBuilder, &broken)),
        "failed to build embedded CUDA module: empty NVVM IR"
    );

    let rejected = bundle_with_payloads("k", vec![payload(ArtifactPayloadKind::Ptx, "!")]);
    assert_eq!(
        error_message(load_bundle(&ctx, &TaggingBuilder, &rejected)),
        "failed to load embedded CUDA module: DriverError(200, \"invalid image\")"
    );

    let unbound = Arc::new(ImageContext { bind: Err(DriverError(201)) });
    let good = bundle_with_payloads("k", vec![payload(ArtifactPayloadKind::Ptx, "p")]);
    assert_eq!(
        error_message(load_bundle(&unbound, &TaggingBuilder, &good)),
        "failed to load embedded CUDA module: DriverError(201, \"invalid image\")"
    );
}

#[test]
fn named_module_is_the_first_with_that_name() {
    let ctx = context();
    let bundles = || {
        Ok(vec![
            bundle_with_payloads("a", vec![payload(ArtifactPayloadKind::Ptx, "first")]),
            bundle_with_payloads("b", vec![payload(ArtifactPayloadKind::Ptx, "second")]),
            bundle_with_payloads("b", vec![payload(ArtifactPayloadKind::Ptx, "third")]),
        ])
    };
    assert_eq!(
        handle(load_embedded_module(&ctx, &TaggingBuilder, bundles(), "b")),
        terminated("second")
    );
    assert_eq!(
        error_message(load_embedded_module(&ctx, &TaggingBuilder, bundles(), "c")),
        "embedded CUDA module 'c' was not found"
    );
    assert_eq!(
        error_message(load_embedded_module(
            &ctx,
            &TaggingBuilder,
            Err("no artifact section".to_string()),
            "b"
        )),
        "no artifact section"
    );
}

#[test]
fn first_module_skips_unsupported_bundles_only() {
    let ctx = context();
    let skipped = Ok(vec![
        bundle_with_payloads("none", vec![]),
        bundle_with_payloads("a", vec![payload(ArtifactPayloadKind::Ptx, "first")]),
    ]);
    assert_eq!(
        handle(load_first_embedded_module(&ctx, &TaggingBuilder, skipped)),
        terminated("first")
    );

    // A driver error is not taken for an unsupported payload.
    let rejected = Ok(vec![
        bundle_with_payloads("bad", vec![payload(ArtifactPayloadKind::Ptx, "!")]),
        bundle_with_payloads("a", vec![payload(ArtifactPayloadKind::Ptx, "first")]),
    ]);
    assert_eq!(
        error_message(load_first_embedded_module(&ctx, &TaggingBuilder, rejected)),
        "failed to load embedded CUDA module: DriverError(200, \"invalid image\")"
    );

    let nothing = Ok(vec![bundle_with_payloads("none", vec![])]);
    assert_eq!(
        error_message(load_first_embedded_module(&ctx, &TaggingBuilder, nothing)),
        "no embedded CUDA modules were found"
    );
    assert_eq!(
        error_message(load_first_embedded_module(
            &ctx,
            &TaggingBuilder,
            Err("unreadable".to_string())
        )),
        "unreadable"
    );
}
