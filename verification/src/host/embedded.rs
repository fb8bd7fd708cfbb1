//! Loading device code that is embedded in the host binary.

use std::sync::Arc;

use vstd::prelude::*;

use crate::driver::context::DriverContext;
use crate::driver::error::{driver_error_text, DriverError};
use crate::driver::module::{loads_image, CudaModule};
use crate::text::{concat2, concat3, same_text, starts_with};

verus! {

/// The forms in which device code can be embedded.
#[derive(Clone, Copy, Debug, PartialEq, Eq, Structural)]
pub enum ArtifactPayloadKind {
    Cubin,
    Ptx,
    NvvmIr,
    Ltoir,
}

/// One form of a bundle's device code.
#[derive(Debug)]
pub struct ArtifactPayload {
    pub kind: ArtifactPayloadKind,
    pub bytes: Vec<u8>,
}

/// The device code of one module, in one or more forms.
#[derive(Debug)]
pub struct OwnedArtifactBundle {
    /// The name of the module.
    pub name: String,
    /// What it was built for: an architecture, or another word where none was
    /// pinned.
    pub target: String,
    /// The forms that are there.
    pub payloads: Vec<ArtifactPayload>,
    /// The names of the kernels.
    pub entries: Vec<String>,
}

/// The bytes of the first payload of this kind.
pub open spec fn payload_of(payloads: Seq<ArtifactPayload>, kind: ArtifactPayloadKind) -> Option<
    Seq<u8>,
>
    decreases payloads.len(),
{
    if payloads.len() == 0 {
        None
    } else if payloads[0].kind == kind {
        Some(payloads[0].bytes@)
    } else {
        payload_of(payloads.drop_first(), kind)
    }
}

impl OwnedArtifactBundle {
    /// The bytes of the first payload of this kind.
    pub fn payload(&self, kind: ArtifactPayloadKind) -> (bytes: Option<&Vec<u8>>)
        ensures
            match bytes {
                Some(b) => payload_of(self.payloads@, kind) == Some(b@),
                None => payload_of(self.payloads@, kind) is None,
            },
    {
        let mut i: usize = 0;
        assert(self.payloads@.skip(0) =~= self.payloads@);
        while i < self.payloads.len()
            invariant
                i <= self.payloads.len(),
                payload_of(self.payloads@, kind) == payload_of(self.payloads@.skip(i as int), kind),
            decreases self.payloads.len() - i,
        {
            let ghost rest = self.payloads@.skip(i as int);
            assert(rest[0] == self.payloads@[i as int]);
            assert(rest.drop_first() =~= self.payloads@.skip(i + 1));
            if self.payloads[i].kind == kind {
                return Some(&self.payloads[i].bytes);
            }
            i = i + 1;
        }
        None
    }

    /// Whether the bundle has a payload that can be loaded.
    pub open spec fn supported(self) -> bool {
        ||| payload_of(self.payloads@, ArtifactPayloadKind::Cubin) is Some
        ||| payload_of(self.payloads@, ArtifactPayloadKind::Ptx) is Some
        ||| payload_of(self.payloads@, ArtifactPayloadKind::NvvmIr) is Some
        ||| payload_of(self.payloads@, ArtifactPayloadKind::Ltoir) is Some
    }
}

/// Errors while discovering, building, or loading an embedded module.
#[derive(Debug)]
pub enum EmbeddedModuleError {
    /// Reading the embedded artifact section failed.
    Core(String),
    /// The named bundle was not present in the executable.
    ModuleNotFound { name: String },
    /// No embedded bundles with loadable payloads were found.
    NoModules,
    /// A bundle existed, but it contained no supported payload.
    UnsupportedPayload { name: String },
    /// NVVM IR or LTOIR payload compilation failed.
    Ltoir(String),
    /// The CUDA driver rejected the selected module image.
    Driver(DriverError),
}

/// How an error reads. `quoted` is the driver's description of a driver error.
pub open spec fn embedded_error_text(
    error: EmbeddedModuleError,
    quoted: Option<Seq<char>>,
) -> Seq<char> {
    match error {
        EmbeddedModuleError::Core(text) => text@,
        EmbeddedModuleError::ModuleNotFound { name } => "embedded CUDA module '"@ + name@
            + "' was not found"@,
        EmbeddedModuleError::NoModules => "no embedded CUDA modules were found"@,
        EmbeddedModuleError::UnsupportedPayload { name } => "embedded CUDA module '"@ + name@
            + "' has no supported payload"@,
        EmbeddedModuleError::Ltoir(text) => "failed to build embedded CUDA module: "@ + text@,
        EmbeddedModuleError::Driver(code) => "failed to load embedded CUDA module: "@
            + driver_error_text(code.0, quoted),
    }
}

impl EmbeddedModuleError {
    /// The text shown for this error.
    pub fn message(&self, quoted: Option<&str>) -> (text: String)
        ensures
            text@ == embedded_error_text(
                *self,
                match quoted {
                    Some(q) => Some(q@),
                    None => None,
                },
            ),
    {
        match self {
            EmbeddedModuleError::Core(text) => text.clone(),
            EmbeddedModuleError::ModuleNotFound { name } => concat3(
                "embedded CUDA module '",
                name.as_str(),
                "' was not found",
            ),
            EmbeddedModuleError::NoModules => String::from_str(
                "no embedded CUDA modules were found",
            ),
            EmbeddedModuleError::UnsupportedPayload { name } => concat3(
                "embedded CUDA module '",
                name.as_str(),
                "' has no supported payload",
            ),
            EmbeddedModuleError::Ltoir(text) => concat2(
                "failed to build embedded CUDA module: ",
                text.as_str(),
            ),
            EmbeddedModuleError::Driver(code) => concat2(
                "failed to load embedded CUDA module: ",
                code.message(quoted).as_str(),
            ),
        }
    }
}

/// Building cubins from the forms that the driver cannot load. Nothing is
/// assumed of what comes back.
pub trait CubinBuilder: Sized {
    /// The architecture to build for where a bundle does not name one.
    fn target_arch(&self) -> String;

    /// Compiles NVVM IR and links it to a cubin.
    fn build_cubin_from_nvvm_ir(&self, nvvm_ir: &Vec<u8>, name: &str, arch: &str) -> Result<
        Vec<u8>,
        String,
    >;

    /// Links LTOIR to a cubin.
    fn link_ltoir_to_cubin(&self, ltoir: &Vec<u8>, name: &str, arch: &str) -> Result<
        Vec<u8>,
        String,
    >;
}

/// The architecture that is built for where nothing names one: the value of
/// `CUDA_OXIDE_TARGET`, or else `sm_120`.
pub fn target_arch(override_target: Option<String>) -> (arch: String)
    ensures
        arch@ == (match override_target {
            Some(target) => target@,
            None => "sm_120"@,
        }),
{
    match override_target {
        Some(target) => target,
        None => String::from_str("sm_120"),
    }
}

/// Whether a bundle's target names an architecture.
pub open spec fn names_arch(target: Seq<char>) -> bool {
    "sm_"@.is_prefix_of(target) || "compute_"@.is_prefix_of(target)
}

/// Whether a bundle's target names an architecture.
pub fn is_cuda_arch(target: &str) -> (yes: bool)
    ensures
        yes == names_arch(target@),
{
    starts_with(target, "sm_") || starts_with(target, "compute_")
}

/// Whether `arch` can be the architecture to build the bundle for: its target
/// where that is one, else the builder's.
pub open spec fn arch_of<B: CubinBuilder>(
    builder: &B,
    bundle: OwnedArtifactBundle,
    arch: Seq<char>,
) -> bool {
    if names_arch(bundle.target@) {
        arch == bundle.target@
    } else {
        exists|fallback: String|
            #[trigger] call_ensures(B::target_arch, (builder,), fallback) && arch == fallback@
    }
}

/// The architecture to build the bundle for.
pub fn target_arch_for_bundle<B: CubinBuilder>(builder: &B, bundle: &OwnedArtifactBundle) -> (arch:
    String)
    ensures
        arch_of(builder, *bundle, arch@),
{
    if is_cuda_arch(bundle.target.as_str()) {
        bundle.target.clone()
    } else {
        builder.target_arch()
    }
}

/// The result of loading an image, as that of loading a bundle.
pub open spec fn from_driver<D>(r: Result<CudaModule<D>, DriverError>) -> Result<
    CudaModule<D>,
    EmbeddedModuleError,
> {
    match r {
        Ok(module) => Ok(module),
        Err(error) => Err(EmbeddedModuleError::Driver(error)),
    }
}

/// Whether `r` can come of loading this image for a bundle.
pub open spec fn loads_bytes<D: DriverContext>(
    ctx: Arc<D>,
    image: Seq<u8>,
    r: Result<CudaModule<D>, EmbeddedModuleError>,
) -> bool {
    exists|loaded: Result<CudaModule<D>, DriverError>|
        #[trigger] loads_image(ctx, image, loaded) && r == from_driver(loaded)
}

/// Loads an image for a bundle.
fn load_bytes<D: DriverContext>(ctx: &Arc<D>, image: &Vec<u8>) -> (r: Result<
    CudaModule<D>,
    EmbeddedModuleError,
>)
    ensures
        loads_bytes(*ctx, image@, r),
{
    let loaded = CudaModule::load_module_from_image(ctx, image.as_slice());
    assert(loads_image(*ctx, image@, loaded));
    match loaded {
        Ok(module) => Ok(module),
        Err(error) => Err(EmbeddedModuleError::Driver(error)),
    }
}

/// Whether `r` can come of loading the cubin that was built, or is the error
/// of building it.
pub open spec fn loads_built<D: DriverContext>(
    ctx: Arc<D>,
    built: Result<Vec<u8>, String>,
    r: Result<CudaModule<D>, EmbeddedModuleError>,
) -> bool {
    match built {
        Ok(cubin) => loads_bytes(ctx, cubin@, r),
        Err(error) => r == Err::<CudaModule<D>, EmbeddedModuleError>(
            EmbeddedModuleError::Ltoir(error),
        ),
    }
}

/// Loads the cubin that was built.
fn load_built<D: DriverContext>(ctx: &Arc<D>, built: Result<Vec<u8>, String>) -> (r: Result<
    CudaModule<D>,
    EmbeddedModuleError,
>)
    ensures
        loads_built(*ctx, built, r),
{
    match built {
        Ok(cubin) => load_bytes(ctx, &cubin),
        Err(error) => Err(EmbeddedModuleError::Ltoir(error)),
    }
}

/// Whether `r` can come of loading the bundle. A cubin is preferred to PTX,
/// PTX to NVVM IR, and NVVM IR to LTOIR; the last two are built to a cubin
/// first.
pub open spec fn loads_bundle<D: DriverContext, B: CubinBuilder>(
    ctx: Arc<D>,
    builder: &B,
    bundle: OwnedArtifactBundle,
    r: Result<CudaModule<D>, EmbeddedModuleError>,
) -> bool {
    let payloads = bundle.payloads@;
    match payload_of(payloads, ArtifactPayloadKind::Cubin) {
        Some(cubin) => loads_bytes(ctx, cubin, r),
        None => match payload_of(payloads, ArtifactPayloadKind::Ptx) {
            Some(ptx) => loads_bytes(ctx, ptx, r),
            None => match payload_of(payloads, ArtifactPayloadKind::NvvmIr) {
                Some(nvvm_ir) => exists|
                    handed: &Vec<u8>,
                    name: &str,
                    arch: &str,
                    built: Result<Vec<u8>, String>,
                |
                    {
                        &&& handed@ == nvvm_ir
                        &&& name@ == bundle.name@
                        &&& arch_of(builder, bundle, arch@)
                        &&& #[trigger] call_ensures(
                            B::build_cubin_from_nvvm_ir,
                            (builder, handed, name, arch),
                            built,
                        )
                        &&& loads_built(ctx, built, r)
                    },
                None => match payload_of(payloads, ArtifactPayloadKind::Ltoir) {
                    Some(ltoir) => exists|
                        handed: &Vec<u8>,
                        name: &str,
                        arch: &str,
                        built: Result<Vec<u8>, String>,
                    |
                        {
                            &&& handed@ == ltoir
                            &&& name@ == bundle.name@
                            &&& arch_of(builder, bundle, arch@)
                            &&& #[trigger] call_ensures(
                                B::link_ltoir_to_cubin,
                                (builder, handed, name, arch),
                                built,
                            )
                            &&& loads_built(ctx, built, r)
                        },
                    None => r matches Err(EmbeddedModuleError::UnsupportedPayload { name })
                        && name@ == bundle.name@,
                },
            },
        },
    }
}

/// Loads a bundle from the best of its payloads.
pub fn load_bundle<D: DriverContext, B: CubinBuilder>(
    ctx: &Arc<D>,
    builder: &B,
    bundle: &OwnedArtifactBundle,
) -> (r: Result<CudaModule<D>, EmbeddedModuleError>)
    ensures
        loads_bundle(*ctx, builder, *bundle, r),
{
    if let Some(cubin) = bundle.payload(ArtifactPayloadKind::Cubin) {
        return load_bytes(ctx, cubin);
    }
    if let Some(ptx) = bundle.payload(ArtifactPayloadKind::Ptx) {
        return load_bytes(ctx, ptx);
    }
    if let Some(nvvm_ir) = bundle.payload(ArtifactPayloadKind::NvvmIr) {
        let arch = target_arch_for_bundle(builder, bundle);
        let built = builder.build_cubin_from_nvvm_ir(
            nvvm_ir,
            bundle.name.as_str(),
            arch.as_str(),
        );
        return load_built(ctx, built);
    }
    if let Some(ltoir) = bundle.payload(ArtifactPayloadKind::Ltoir) {
        let arch = target_arch_for_bundle(builder, bundle);
        let built = builder.link_ltoir_to_cubin(ltoir, bundle.name.as_str(), arch.as_str());
        return load_built(ctx, built);
    }
    Err(EmbeddedModuleError::UnsupportedPayload { name: bundle.name.clone() })
}

/// Whether the bundle at `k` is the first one with this name.
pub open spec fn first_named(bundles: Seq<OwnedArtifactBundle>, name: Seq<char>, k: int) -> bool {
    &&& 0 <= k < bundles.len()
    &&& bundles[k].name@ == name
    &&& forall|j: int| 0 <= j < k ==> (#[trigger] bundles[j]).name@ != name
}

/// Loads the bundle with this name. `bundles` is what was found in the
/// executable.
pub fn load_embedded_module<D: DriverContext, B: CubinBuilder>(
    ctx: &Arc<D>,
    builder: &B,
    bundles: Result<Vec<OwnedArtifactBundle>, String>,
    name: &str,
) -> (r: Result<CudaModule<D>, EmbeddedModuleError>)
    ensures
        match bundles {
            Err(error) => r == Err::<CudaModule<D>, EmbeddedModuleError>(
                EmbeddedModuleError::Core(error),
            ),
            Ok(found) => {
                ||| exists|k: int|
                    #[trigger] first_named(found@, name@, k) && loads_bundle(
                        *ctx,
                        builder,
                        found@[k],
                        r,
                    )
                ||| (forall|j: int| 0 <= j < found@.len() ==> (#[trigger] found@[j]).name@ != name@)
                    && (r matches Err(EmbeddedModuleError::ModuleNotFound { name: missing })
                    && missing@ == name@)
            },
        },
{
    let found = match bundles {
        Ok(found) => found,
        Err(error) => return Err(EmbeddedModuleError::Core(error)),
    };
    let mut i: usize = 0;
    while i < found.len()
        invariant
            i <= found.len(),
            bundles == Ok::<Vec<OwnedArtifactBundle>, String>(found),
            forall|j: int| 0 <= j < i ==> (#[trigger] found@[j]).name@ != name@,
        decreases found.len() - i,
    {
        if same_text(found[i].name.as_str(), name) {
            assert(first_named(found@, name@, i as int));
            return load_bundle(ctx, builder, &found[i]);
        }
        i = i + 1;
    }
    Err(EmbeddedModuleError::ModuleNotFound { name: String::from_str(name) })
}

/// Whether the bundle at `k` is the first one that can be loaded.
pub open spec fn first_supported(bundles: Seq<OwnedArtifactBundle>, k: int) -> bool {
    &&& 0 <= k < bundles.len()
    &&& bundles[k].supported()
    &&& forall|j: int| 0 <= j < k ==> !(#[trigger] bundles[j]).supported()
}

/// Loads the first bundle with a supported payload. `bundles` is what was
/// found in the executable.
pub fn load_first_embedded_module<D: DriverContext, B: CubinBuilder>(
    ctx: &Arc<D>,
    builder: &B,
    bundles: Result<Vec<OwnedArtifactBundle>, String>,
) -> (r: Result<CudaModule<D>, EmbeddedModuleError>)
    ensures
        match bundles {
            Err(error) => r == Err::<CudaModule<D>, EmbeddedModuleError>(
                EmbeddedModuleError::Core(error),
            ),
            Ok(found) => {
                ||| exists|k: int|
                    #[trigger] first_supported(found@, k) && loads_bundle(
                        *ctx,
                        builder,
                        found@[k],
                        r,
                    )
                ||| (forall|j: int| 0 <= j < found@.len() ==> !(#[trigger] found@[j]).supported())
                    && r == Err::<CudaModule<D>, EmbeddedModuleError>(
                    EmbeddedModuleError::NoModules,
                )
            },
        },
{
    let found = match bundles {
        Ok(found) => found,
        Err(error) => return Err(EmbeddedModuleError::Core(error)),
    };
    let mut i: usize = 0;
    while i < found.len()
        invariant
            i <= found.len(),
            bundles == Ok::<Vec<OwnedArtifactBundle>, String>(found),
            forall|j: int| 0 <= j < i ==> !(#[trigger] found@[j]).supported(),
        decreases found.len() - i,
    {
        let loaded = load_bundle(ctx, builder, &found[i]);
        match loaded {
            Err(EmbeddedModuleError::UnsupportedPayload { .. }) => {
                assert(!found@[i as int].supported());
            },
            _ => {
                assert(first_supported(found@, i as int));
                return loaded;
            },
        }
        i = i + 1;
    }
    Err(EmbeddedModuleError::NoModules)
}

/// A bundle is reported as unsupported exactly where none of its payloads can
/// be loaded: an error of the driver or of a build is never taken for that.
pub proof fn law_unsupported_means_no_payload<D: DriverContext, B: CubinBuilder>(
    ctx: Arc<D>,
    builder: &B,
    bundle: OwnedArtifactBundle,
    r: Result<CudaModule<D>, EmbeddedModuleError>,
)
    requires
        loads_bundle(ctx, builder, bundle, r),
    ensures
        (r is Err && r->Err_0 is UnsupportedPayload) <==> !bundle.supported(),
{
}

} // verus!
