//! What holds of loading embedded modules and of finding and driving nvJitLink.

use std::sync::Arc;

use vstd::prelude::*;
use vstd::utf8::{decode_utf8, valid_utf8};

use crate::driver::context::DriverContext;
use crate::driver::error::DriverError;
use crate::driver::module::CudaModule;
use crate::host::embedded::{
    first_named, first_supported, is_cuda_arch, load_bundle, load_embedded_module,
    load_first_embedded_module, loads_bundle, payload_of, target_arch, target_arch_for_bundle,
    ArtifactPayload, ArtifactPayloadKind, CubinBuilder, EmbeddedModuleError,
    OwnedArtifactBundle,
};
use crate::host::linker::{log_text, version, InputType, Linked, Linker, LogKind, NvJitLinkApi};
use crate::host::nvjitlink::{
    below_roots, candidate_list, cuda_roots_from_env, entry_names, library_candidates, loads,
    looks_up, open_library, opens, resolves, root_list, EntryPoint, LibNvJitLink,
    NvJitLinkError,
};
use crate::host::path::joined;
use crate::text::{lossy_text, separated, signed_decimal, texts};

verus! {

// ---------------------------------------------------------------------------
// Embedded modules
// ---------------------------------------------------------------------------

/// Whether the payload at `k` is the first of its kind.
pub open spec fn first_of_kind(
    payloads: Seq<ArtifactPayload>,
    kind: ArtifactPayloadKind,
    k: int,
) -> bool {
    &&& 0 <= k < payloads.len()
    &&& payloads[k].kind == kind
    &&& forall|j: int| 0 <= j < k ==> (#[trigger] payloads[j]).kind != kind
}

proof fn lemma_payload(payloads: Seq<ArtifactPayload>, kind: ArtifactPayloadKind)
    ensures
        payload_of(payloads, kind) is Some ==> exists|k: int| #[trigger]
            first_of_kind(payloads, kind, k) && payload_of(payloads, kind) == Some(
                payloads[k].bytes@,
            ),
        payload_of(payloads, kind) is None <==> forall|j: int|
            0 <= j < payloads.len() ==> (#[trigger] payloads[j]).kind != kind,
    decreases payloads.len(),
{
    if payloads.len() > 0 {
        if payloads[0].kind == kind {
            assert(first_of_kind(payloads, kind, 0));
        } else {
            let rest = payloads.drop_first();
            lemma_payload(rest, kind);
            if payload_of(rest, kind) is Some {
                let k = choose|k: int| #[trigger]
                    first_of_kind(rest, kind, k) && payload_of(rest, kind) == Some(
                        rest[k].bytes@,
                    );
                assert forall|j: int| 0 <= j < k + 1 implies (#[trigger] payloads[j]).kind
                    != kind by {
                    if j > 0 {
                        assert(rest[j - 1] == payloads[j]);
                    }
                }
                assert(first_of_kind(payloads, kind, k + 1));
                assert(payloads[k + 1].kind == kind);
            } else {
                assert forall|j: int| 0 <= j < payloads.len() implies (#[trigger] payloads[j]).kind
                    != kind by {
                    if j > 0 {
                        assert(rest[j - 1] == payloads[j]);
                    }
                }
            }
        }
    }
}

/// A payload is the first one of its kind, and there is none exactly where no
/// payload has the kind.
pub proof fn law_payload_is_the_first_of_its_kind(
    bundle: OwnedArtifactBundle,
    kind: ArtifactPayloadKind,
    bytes: Option<&Vec<u8>>,
)
    requires
        call_ensures(OwnedArtifactBundle::payload, (&bundle, kind), bytes),
    ensures
        bytes is Some ==> exists|k: int| #[trigger]
            first_of_kind(bundle.payloads@, kind, k) && bytes->0@ == bundle.payloads@[k].bytes@,
        bytes is None <==> forall|j: int|
            0 <= j < bundle.payloads@.len() ==> (#[trigger] bundle.payloads@[j]).kind != kind,
{
    lemma_payload(bundle.payloads@, kind);
}

/// A bundle can be loaded if and only if it has any payload.
pub proof fn law_any_payload_is_supported(bundle: OwnedArtifactBundle)
    ensures
        bundle.supported() <==> bundle.payloads@.len() > 0,
{
    let payloads = bundle.payloads@;
    lemma_payload(payloads, ArtifactPayloadKind::Cubin);
    lemma_payload(payloads, ArtifactPayloadKind::Ptx);
    lemma_payload(payloads, ArtifactPayloadKind::NvvmIr);
    lemma_payload(payloads, ArtifactPayloadKind::Ltoir);
    if payloads.len() > 0 {
        assert(payloads[0].kind == payloads[0].kind);
    }
}

/// Architectures are named `sm_` or `compute_` and something; nothing else is
/// one.
pub proof fn law_names_of_architectures(target: &str, yes: bool, suffix: Seq<char>)
    requires
        call_ensures(is_cuda_arch, (target,), yes),
    ensures
        target@ == "sm_"@ + suffix ==> yes,
        target@ == "compute_"@ + suffix ==> yes,
        yes ==> target@ == "sm_"@ + target@.skip(3) || target@ == "compute_"@ + target@.skip(8),
{
    reveal_strlit("sm_");
    reveal_strlit("compute_");
    if target@ == "sm_"@ + suffix {
        assert(target@.subrange(0, 3) =~= "sm_"@);
    }
    if target@ == "compute_"@ + suffix {
        assert(target@.subrange(0, 8) =~= "compute_"@);
    }
    if "sm_"@.is_prefix_of(target@) {
        assert(target@ =~= "sm_"@ + target@.skip(3));
    }
    if "compute_"@.is_prefix_of(target@) {
        assert(target@ =~= "compute_"@ + target@.skip(8));
    }
}

/// A bundle is built for the architecture that it names, and where it names
/// none for the builder's. The latter is the one that is asked for, or
/// `sm_120`.
pub proof fn law_architecture_to_build_for<B: CubinBuilder>(
    builder: &B,
    bundle: OwnedArtifactBundle,
    target: &str,
    named: bool,
    arch: String,
    asked: Option<String>,
    fallback: String,
)
    requires
        call_ensures(target_arch_for_bundle::<B>, (builder, &bundle), arch),
        target@ == bundle.target@,
        call_ensures(is_cuda_arch, (target,), named),
        call_ensures(target_arch, (asked,), fallback),
        forall|a: String| #[trigger]
            call_ensures(B::target_arch, (builder,), a) ==> a@ == fallback@,
    ensures
        named ==> arch@ == bundle.target@,
        !named ==> arch@ == fallback@,
        asked is Some ==> fallback@ == asked->0@,
        asked is None ==> fallback@ == "sm_120"@,
{
}

/// A bundle with a cubin, or with PTX and no cubin, is loaded from these very
/// bytes, with a zero byte at their end, in the bound context.
pub proof fn law_bundle_loads_its_image<D: DriverContext, B: CubinBuilder>(
    ctx: Arc<D>,
    builder: &B,
    bundle: OwnedArtifactBundle,
    image: Seq<u8>,
    bound: Result<(), DriverError>,
    answer: (u32, u64),
    r: Result<CudaModule<D>, EmbeddedModuleError>,
)
    requires
        call_ensures(load_bundle::<D, B>, (&ctx, builder, &bundle), r),
        ({
            ||| payload_of(bundle.payloads@, ArtifactPayloadKind::Cubin) == Some(image)
            ||| payload_of(bundle.payloads@, ArtifactPayloadKind::Cubin) is None && payload_of(
                bundle.payloads@,
                ArtifactPayloadKind::Ptx,
            ) == Some(image)
        }),
        forall|b: Result<(), DriverError>| #[trigger]
            call_ensures(D::bind_to_thread, (&*ctx,), b) ==> b == bound,
        forall|handed: &[u8], out: (u32, u64)| #[trigger]
            call_ensures(D::module_load_data, (&*ctx, handed), out) && handed@ == (if image.len()
                > 0 && image.last() == 0 {
                image
            } else {
                image.push(0)
            }) ==> out == answer,
    ensures
        bound is Err ==> r is Err && r->Err_0 == EmbeddedModuleError::Driver(bound->Err_0),
        bound is Ok ==> (r is Ok <==> answer.0 == 0),
        r is Ok ==> r->Ok_0.cu_module == answer.1 && r->Ok_0.ctx == ctx,
        bound is Ok && r is Err ==> r->Err_0 == EmbeddedModuleError::Driver(
            DriverError(answer.0),
        ),
{
}

/// A bundle with neither is built from its NVVM IR, or from its LTOIR where
/// there is no NVVM IR either. The builder gets the payload's bytes and the
/// bundle's name, and its error is the load's.
pub proof fn law_bundle_is_built<D: DriverContext, B: CubinBuilder>(
    ctx: Arc<D>,
    builder: &B,
    bundle: OwnedArtifactBundle,
    ir: Seq<u8>,
    error: String,
    r: Result<CudaModule<D>, EmbeddedModuleError>,
)
    requires
        call_ensures(load_bundle::<D, B>, (&ctx, builder, &bundle), r),
        payload_of(bundle.payloads@, ArtifactPayloadKind::Cubin) is None,
        payload_of(bundle.payloads@, ArtifactPayloadKind::Ptx) is None,
    ensures
        payload_of(bundle.payloads@, ArtifactPayloadKind::NvvmIr) == Some(ir) && (forall|
            handed: &Vec<u8>,
            name: &str,
            arch: &str,
            built: Result<Vec<u8>, String>,
        |
            handed@ == ir && name@ == bundle.name@ && #[trigger] call_ensures(
                B::build_cubin_from_nvvm_ir,
                (builder, handed, name, arch),
                built,
            ) ==> built == Err::<Vec<u8>, String>(error)) ==> r == Err::<
            CudaModule<D>,
            EmbeddedModuleError,
        >(EmbeddedModuleError::Ltoir(error)),
        payload_of(bundle.payloads@, ArtifactPayloadKind::NvvmIr) is None && payload_of(
            bundle.payloads@,
            ArtifactPayloadKind::Ltoir,
        ) == Some(ir) && (forall|
            handed: &Vec<u8>,
            name: &str,
            arch: &str,
            built: Result<Vec<u8>, String>,
        |
            handed@ == ir && name@ == bundle.name@ && #[trigger] call_ensures(
                B::link_ltoir_to_cubin,
                (builder, handed, name, arch),
                built,
            ) ==> built == Err::<Vec<u8>, String>(error)) ==> r == Err::<
            CudaModule<D>,
            EmbeddedModuleError,
        >(EmbeddedModuleError::Ltoir(error)),
{
}

/// A bundle without payloads is refused by its name.
pub proof fn law_empty_bundle_is_refused<D: DriverContext, B: CubinBuilder>(
    ctx: Arc<D>,
    builder: &B,
    bundle: OwnedArtifactBundle,
    r: Result<CudaModule<D>, EmbeddedModuleError>,
)
    requires
        call_ensures(load_bundle::<D, B>, (&ctx, builder, &bundle), r),
        bundle.payloads@.len() == 0,
    ensures
        r is Err,
        r->Err_0 is UnsupportedPayload,
        r->Err_0->UnsupportedPayload_name@ == bundle.name@,
{
}

/// A module is loaded from the first bundle with its name; it is not found
/// where no bundle has the name, and where the section cannot be read that
/// error is reported.
pub proof fn law_module_is_found_by_name<D: DriverContext, B: CubinBuilder>(
    ctx: Arc<D>,
    builder: &B,
    bundles: Result<Vec<OwnedArtifactBundle>, String>,
    name: &str,
    r: Result<CudaModule<D>, EmbeddedModuleError>,
    k: int,
)
    requires
        call_ensures(load_embedded_module::<D, B>, (&ctx, builder, bundles, name), r),
    ensures
        bundles is Err ==> r is Err && r->Err_0 == EmbeddedModuleError::Core(bundles->Err_0),
        bundles is Ok && 0 <= k < bundles->Ok_0@.len() && bundles->Ok_0@[k].name@ == name@ && (
        forall|j: int| 0 <= j < k ==> (#[trigger] bundles->Ok_0@[j]).name@ != name@)
            ==> loads_bundle(ctx, builder, bundles->Ok_0@[k], r),
        bundles is Ok && (forall|j: int|
            0 <= j < bundles->Ok_0@.len() ==> (#[trigger] bundles->Ok_0@[j]).name@ != name@) ==> r
            is Err && r->Err_0 is ModuleNotFound && r->Err_0->ModuleNotFound_name@ == name@,
{
    if bundles is Ok {
        let found = bundles->Ok_0@;
        if exists|m: int| #[trigger]
            first_named(found, name@, m) && loads_bundle(ctx, builder, found[m], r) {
            let m = choose|m: int| #[trigger]
                first_named(found, name@, m) && loads_bundle(ctx, builder, found[m], r);
            assert(found[m].name@ == name@);
        }
    }
}

/// The first bundle with any payload is loaded, and its outcome reported; where
/// no bundle has one, there are no modules.
pub proof fn law_first_bundle_with_payload_is_loaded<D: DriverContext, B: CubinBuilder>(
    ctx: Arc<D>,
    builder: &B,
    bundles: Result<Vec<OwnedArtifactBundle>, String>,
    r: Result<CudaModule<D>, EmbeddedModuleError>,
    k: int,
)
    requires
        call_ensures(load_first_embedded_module::<D, B>, (&ctx, builder, bundles), r),
    ensures
        bundles is Err ==> r is Err && r->Err_0 == EmbeddedModuleError::Core(bundles->Err_0),
        bundles is Ok && 0 <= k < bundles->Ok_0@.len() && bundles->Ok_0@[k].payloads@.len() > 0 && (
        forall|j: int| 0 <= j < k ==> (#[trigger] bundles->Ok_0@[j]).payloads@.len() == 0)
            ==> loads_bundle(ctx, builder, bundles->Ok_0@[k], r),
        bundles is Ok && (forall|j: int|
            0 <= j < bundles->Ok_0@.len() ==> (#[trigger] bundles->Ok_0@[j]).payloads@.len() == 0)
            ==> r is Err && r->Err_0 is NoModules,
{
    if bundles is Ok {
        let found = bundles->Ok_0@;
        assert forall|j: int| 0 <= j < found.len() implies (#[trigger] found[j]).supported()
            == (found[j].payloads@.len() > 0) by {
            law_any_payload_is_supported(found[j]);
        }
        if exists|m: int| #[trigger]
            first_supported(found, m) && loads_bundle(ctx, builder, found[m], r) {
            let m = choose|m: int| #[trigger]
                first_supported(found, m) && loads_bundle(ctx, builder, found[m], r);
            assert(found[m].supported());
        }
    }
}

/// Errors name what they are about: the module that was not found or cannot be
/// loaded, the error that a build reported, the driver's error.
pub proof fn law_errors_name_their_cause(
    error: EmbeddedModuleError,
    text: String,
    code_text: String,
)
    requires
        call_ensures(EmbeddedModuleError::message, (&error, None), text),
        error is Driver ==> call_ensures(
            DriverError::message,
            (&error->Driver_0, None),
            code_text,
        ),
    ensures
        error matches EmbeddedModuleError::Core(cause) ==> text@ == cause@,
        error matches EmbeddedModuleError::ModuleNotFound { name } ==> text@
            == "embedded CUDA module '"@ + name@ + "' was not found"@,
        error matches EmbeddedModuleError::UnsupportedPayload { name } ==> text@
            == "embedded CUDA module '"@ + name@ + "' has no supported payload"@,
        error matches EmbeddedModuleError::Ltoir(cause) ==> text@
            == "failed to build embedded CUDA module: "@ + cause@,
        error is Driver ==> text@ == "failed to load embedded CUDA module: "@ + code_text@,
        error is NoModules ==> text@ == "no embedded CUDA modules were found"@,
{
}

// ---------------------------------------------------------------------------
// Finding nvJitLink
// ---------------------------------------------------------------------------

/// A value as a list of at most one text.
pub open spec fn one(value: Option<String>) -> Seq<Seq<char>> {
    if value is Some {
        seq![value->0@]
    } else {
        seq![]
    }
}

/// The toolkit directories are those that the three variables name, in their
/// order, and then the two default locations.
pub proof fn law_toolkit_directories<E: Fn(&str) -> Option<String>>(
    get_env: E,
    toolkit: Option<String>,
    home: Option<String>,
    path: Option<String>,
    roots: Vec<String>,
)
    requires
        call_ensures(cuda_roots_from_env, (get_env,), roots),
        forall|v: Option<String>| #[trigger]
            call_ensures(get_env, ("CUDA_TOOLKIT_PATH",), v) ==> v == toolkit,
        forall|v: Option<String>| #[trigger] call_ensures(get_env, ("CUDA_HOME",), v) ==> v == home,
        forall|v: Option<String>| #[trigger] call_ensures(get_env, ("CUDA_PATH",), v) ==> v == path,
    ensures
        texts(roots@) == one(toolkit) + one(home) + one(path) + seq![
            "/usr/local/cuda"@,
            "/opt/cuda"@,
        ],
{
    assert(texts(roots@) =~= one(toolkit) + one(home) + one(path) + seq![
        "/usr/local/cuda"@,
        "/opt/cuda"@,
    ]);
}

/// What is tried is the path that the environment gives, then the sonames from
/// the newest on, then the library below each toolkit directory in order.
pub proof fn law_library_candidates<E: Fn(&str) -> Option<String>>(
    get_env: E,
    explicit: Option<String>,
    toolkit: Option<String>,
    home: Option<String>,
    path: Option<String>,
    roots: Vec<String>,
    candidates: Vec<String>,
    i: int,
)
    requires
        call_ensures(cuda_roots_from_env, (get_env,), roots),
        call_ensures(library_candidates, (get_env,), candidates),
        forall|v: Option<String>| #[trigger]
            call_ensures(get_env, ("LIBNVJITLINK_PATH",), v) ==> v == explicit,
        forall|v: Option<String>| #[trigger]
            call_ensures(get_env, ("CUDA_TOOLKIT_PATH",), v) ==> v == toolkit,
        forall|v: Option<String>| #[trigger] call_ensures(get_env, ("CUDA_HOME",), v) ==> v == home,
        forall|v: Option<String>| #[trigger] call_ensures(get_env, ("CUDA_PATH",), v) ==> v == path,
        0 <= i < roots@.len(),
    ensures
        ({
            let names = texts(candidates@);
            let n = one(explicit).len() as int;
            &&& names.len() == n + 3 + roots@.len()
            &&& explicit is Some ==> names[0] == explicit->0@
            &&& names[n] == "libnvJitLink.so.13"@
            &&& names[n + 1] == "libnvJitLink.so.12"@
            &&& names[n + 2] == "libnvJitLink.so"@
            &&& names[n + 3 + i] == joined(roots@[i]@, "lib64/libnvJitLink.so"@)
        }),
{
    law_toolkit_directories(get_env, toolkit, home, path, roots);
    let n = one(explicit).len() as int;
    let all = one(toolkit) + one(home) + one(path) + seq!["/usr/local/cuda"@, "/opt/cuda"@];
    assert(root_list(toolkit, home, path) =~= all);
    assert(texts(roots@)[i] == roots@[i]@);
    let names = texts(candidates@);
    assert(names == candidate_list(explicit, all));
    assert(names.len() == n + 3 + all.len());
    assert(names[n + 3 + i] == below_roots(all)[i]);
}

/// With files that can or cannot be opened, the first candidate that can be is
/// opened; everything up to it has been tried, or everything where none can be.
pub proof fn law_first_library_is_opened<L, O: Fn(&str) -> Option<L>>(
    candidates: Vec<String>,
    open: O,
    opened: spec_fn(Seq<char>) -> Option<L>,
    tried: &mut Vec<String>,
    lib: Option<L>,
    k: int,
)
    requires
        call_ensures(open_library::<L, O>, (&candidates, open, tried), lib),
        forall|path: &str, answer: Option<L>| #[trigger]
            call_ensures(open, (path,), answer) ==> answer == opened(path@),
    ensures
        0 <= k < candidates@.len() && opened(candidates@[k]@) is Some && (forall|j: int|
            0 <= j < k ==> opened((#[trigger] candidates@[j])@) is None) ==> lib == opened(
            candidates@[k]@,
        ) && texts(final(tried)@) == texts(old(tried)@) + texts(candidates@).take(k + 1),
        lib is None ==> texts(final(tried)@) == texts(old(tried)@) + texts(candidates@),
{
    let names = texts(candidates@);
    if 0 <= k < candidates@.len() && opened(candidates@[k]@) is Some && (forall|j: int|
        0 <= j < k ==> opened((#[trigger] candidates@[j])@) is None) {
        assert(names[k] == candidates@[k]@);
        assert(!opens(open, names[k], None::<L>));
        assert(lib is Some);
        let m = choose|m: int|
            {
                &&& 0 <= m < candidates@.len()
                &&& #[trigger] opens(open, names[m], lib)
                &&& forall|j: int|
                    0 <= j < m ==> #[trigger] opens(
                        open,
                        names[j],
                        None::<L>,
                    )
                &&& texts(final(tried)@) == texts(old(tried)@) + names.take(m + 1)
            };
        assert(names[m] == candidates@[m]@);
        assert(opened(candidates@[m]@) == lib);
        if k < m {
            assert(opens(open, names[k], None::<L>));
        }
        if m < k {
            assert(opened(candidates@[m]@) is None);
        }
    }
}

/// Each entry point is the function of its own name, and a library that lacks
/// one is refused by the name that is missing.
pub proof fn law_entry_points_have_their_names<
    L,
    A: Copy,
    S: Fn(&L, &str) -> Result<A, String>,
>(
    lib: L,
    lookup: S,
    symbols: spec_fn(Seq<char>) -> Result<A, String>,
    r: Result<LibNvJitLink<L, A>, NvJitLinkError>,
    point: EntryPoint,
    address: A,
)
    requires
        call_ensures(LibNvJitLink::<L, A>::resolve::<S>, (lib, lookup), r),
        forall|symbol: &str, answer: Result<A, String>| #[trigger]
            call_ensures(lookup, (&lib, symbol), answer) ==> answer == symbols(symbol@),
        r is Ok ==> call_ensures(LibNvJitLink::<L, A>::entry, (&r->Ok_0, point), address),
    ensures
        r is Ok ==> r->Ok_0.lib == lib,
        r is Ok ==> symbols(name_of(point)) == Ok::<A, String>(address),
        r is Ok ==> r->Ok_0.version == (match symbols("nvJitLinkVersion"@) {
            Ok(a) => Some(a),
            Err(_) => None,
        }),
        symbols(name_of(point)) is Err ==> r is Err && r->Err_0 is SymbolNotFound,
        r is Err ==> r->Err_0 is SymbolNotFound && symbols(r->Err_0->symbol@) == Err::<A, String>(
            r->Err_0->source,
        ),
{
    if r is Ok {
        let i = point.position();
        assert(looks_up(
            lookup,
            lib,
            entry_names()[i],
            Ok::<A, String>(r->Ok_0.entries@[i]),
        ));
        assert(entry_names()[i] == name_of(point));
    }
}

/// The name under which the library exports an entry point.
pub open spec fn name_of(point: EntryPoint) -> Seq<char> {
    match point {
        EntryPoint::Create => "nvJitLinkCreate"@,
        EntryPoint::Destroy => "nvJitLinkDestroy"@,
        EntryPoint::AddData => "nvJitLinkAddData"@,
        EntryPoint::Complete => "nvJitLinkComplete"@,
        EntryPoint::GetLinkedCubinSize => "nvJitLinkGetLinkedCubinSize"@,
        EntryPoint::GetLinkedCubin => "nvJitLinkGetLinkedCubin"@,
        EntryPoint::GetErrorLogSize => "nvJitLinkGetErrorLogSize"@,
        EntryPoint::GetErrorLog => "nvJitLinkGetErrorLog"@,
        EntryPoint::GetInfoLogSize => "nvJitLinkGetInfoLogSize"@,
        EntryPoint::GetInfoLog => "nvJitLinkGetInfoLog"@,
    }
}

/// Errors of nvJitLink name what was tried, what is missing, or what failed
/// with which code, and hold the log where there is one.
pub proof fn law_link_errors_name_their_cause(error: NvJitLinkError, text: String)
    requires
        call_ensures(NvJitLinkError::message, (&error,), text),
    ensures
        error matches NvJitLinkError::LibraryNotFound { tried } ==> text@.len() >= tried@.len()
            && text@.skip(text@.len() - tried@.len()) == tried@,
        error matches NvJitLinkError::SymbolNotFound { symbol, source } ==> text@
            == "libnvJitLink.so was found but a required symbol is missing: "@ + symbol@ + ": "@
            + source@,
        error matches NvJitLinkError::Call { operation, code, log } ==> {
            let head = "nvJitLink error in "@ + operation@ + ": "@ + signed_decimal(code as int);
            &&& log is None ==> text@ == head
            &&& log is Some ==> text@ == head + "\n--- nvJitLink error log ---\n"@ + log->0@
        },
{
    match error {
        NvJitLinkError::LibraryNotFound { tried } => {
            assert(text@.skip(text@.len() - tried@.len()) =~= tried@);
        },
        NvJitLinkError::Call { operation, code, log } => {
            let head = "nvJitLink error in "@ + operation@ + ": "@ + signed_decimal(code as int);
            if log is None {
                assert(text@ =~= head);
            } else {
                assert(text@ =~= head + "\n--- nvJitLink error log ---\n"@ + log->0@);
            }
        },
        _ => {},
    }
}

// ---------------------------------------------------------------------------
// Driving nvJitLink
// ---------------------------------------------------------------------------

/// No two kinds of input share a number; those before the last are numbered
/// from 0 in their order, and the last is 10.
pub proof fn law_input_numbers(a: InputType, m: i32, b: InputType, n: i32)
    requires
        call_ensures(InputType::code, (a,), m),
        call_ensures(InputType::code, (b,), n),
    ensures
        m == n <==> a == b,
        a is NoInput ==> m == 0,
        a is Cubin && b is Ptx || a is Ptx && b is Ltoir || a is Ltoir && b is Fatbin || a
            is Fatbin && b is Object || a is Object && b is Library || a is Library && b is Index
            || a is NoInput && b is Cubin ==> n == m + 1,
        a is Any ==> m == 10,
{
}

/// One zero byte at the end of a log is its terminator and not part of the
/// text, and no more than one; bytes that are valid UTF-8 give the text that
/// they encode.
pub proof fn law_log_text(bare: Vec<u8>, terminated: Vec<u8>, text: String, same: String)
    requires
        call_ensures(log_text, (bare,), text),
        call_ensures(log_text, (terminated,), same),
        terminated@ == bare@.push(0),
    ensures
        same@ == lossy_text(bare@),
        valid_utf8(bare@) ==> same@ == decode_utf8(bare@),
        bare@.len() == 0 || bare@.last() != 0 ==> text@ == same@,
{
    assert(terminated@.drop_last() =~= bare@);
}

/// Whether `error` is the error of this call with this code.
pub open spec fn failed(error: NvJitLinkError, operation: Seq<char>, code: i32) -> bool {
    error is Call && error->operation@ == operation && error->code == code
}

/// Whether asking this linker for a log of this kind gives one answer: this
/// size, and this buffer for it.
pub open spec fn log_answers<N: NvJitLinkApi>(
    nvj: &N,
    handle: &Option<N::Handle>,
    kind: LogKind,
    size: (i32, usize),
    got: (i32, Vec<u8>),
) -> bool {
    handle is Some ==> {
        &&& forall|s: (i32, usize)| #[trigger]
            call_ensures(N::log_size, (nvj, &handle->0, kind), s) ==> s == size
        &&& forall|g: (i32, Vec<u8>)| #[trigger]
            call_ensures(N::log, (nvj, &handle->0, kind, size.1), g) ==> g == got
    }
}

/// Whether `log` is what a linker with this handle has to show, where the
/// library gives these answers and the buffer reads as `text`.
pub open spec fn shows_log<H>(
    handle: Option<H>,
    size: (i32, usize),
    got: (i32, Vec<u8>),
    text: String,
    log: Option<String>,
) -> bool {
    &&& log is Some <==> handle is Some && size.0 == 0 && size.1 > 1 && got.0 == 0
    &&& log is Some ==> log->0@ == text@
}

/// The version is what the library says, if it can say and the call succeeds.
pub proof fn law_version<N: NvJitLinkApi>(
    nvj: &N,
    answer: Option<(i32, u32, u32)>,
    v: Option<(u32, u32)>,
)
    requires
        call_ensures(version::<N>, (nvj,), v),
        forall|a: Option<(i32, u32, u32)>| #[trigger]
            call_ensures(N::version, (nvj,), a) ==> a == answer,
    ensures
        v is Some <==> answer is Some && (answer->0).0 == 0,
        v is Some ==> v->0 == ((answer->0).1, (answer->0).2),
{
}

/// A linker has the handle that the library made, unless making it failed.
pub proof fn law_linker_is_created<'a, N: NvJitLinkApi>(
    nvj: &'a N,
    options: Vec<String>,
    made: (i32, Option<N::Handle>),
    r: Result<Linker<'a, N>, NvJitLinkError>,
)
    requires
        call_ensures(Linker::<'a, N>::new, (nvj, &options), r),
        forall|m: (i32, Option<N::Handle>)| #[trigger]
            call_ensures(N::create, (nvj, &options), m) ==> m == made,
    ensures
        r is Ok <==> made.0 == 0,
        r is Ok ==> r->Ok_0.handle == made.1 && r->Ok_0.nvj == nvj,
        r is Err ==> failed(r->Err_0, "nvJitLinkCreate"@, made.0) && r->Err_0->log is None,
{
}

/// An input is added to this linker as it is given; the linker stays.
pub proof fn law_input_is_added<'a, 'b, N: NvJitLinkApi>(
    linker: &'b mut Linker<'a, N>,
    kind: InputType,
    data: &[u8],
    name: &str,
    code: i32,
    r: Result<(), NvJitLinkError>,
)
    requires
        call_ensures(Linker::<'a, N>::add, (linker, kind, data, name), r),
        forall|c: i32| #[trigger]
            call_ensures(
                N::add_data,
                (old(linker).nvj, &old(linker).handle, kind, data, name),
                c,
            ) ==> c == code,
    ensures
        *final(linker) == *old(linker),
        r is Ok <==> code == 0,
        r is Err ==> failed(r->Err_0, "nvJitLinkAddData"@, code),
{
}

/// A link completes, then asks for the size of the cubin, then for the cubin:
/// the first of these calls that fails is the error, and the last gives what is
/// returned.
pub proof fn law_link_is_finished<'a, N: NvJitLinkApi>(
    linker: Linker<'a, N>,
    code: i32,
    size: (i32, usize),
    got: (i32, Vec<u8>),
    r: Result<Linked, NvJitLinkError>,
)
    requires
        call_ensures(Linker::<'a, N>::finish, (linker,), r),
        forall|c: i32| #[trigger]
            call_ensures(N::complete, (linker.nvj, &linker.handle), c) ==> c == code,
        forall|s: (i32, usize)| #[trigger]
            call_ensures(N::linked_cubin_size, (linker.nvj, &linker.handle), s) ==> s == size,
        forall|g: (i32, Vec<u8>)| #[trigger]
            call_ensures(N::linked_cubin, (linker.nvj, &linker.handle, size.1), g) ==> g == got,
    ensures
        code != 0 ==> r is Err && failed(r->Err_0, "nvJitLinkComplete"@, code),
        code == 0 && size.0 != 0 ==> r is Err && failed(
            r->Err_0,
            "nvJitLinkGetLinkedCubinSize"@,
            size.0,
        ),
        code == 0 && size.0 == 0 && got.0 != 0 ==> r is Err && failed(
            r->Err_0,
            "nvJitLinkGetLinkedCubin"@,
            got.0,
        ),
        code == 0 && size.0 == 0 && got.0 == 0 ==> r is Ok && r->Ok_0.cubin@ == got.1@,
        linker.handle is None && r is Ok ==> r->Ok_0.info is None,
{
}

/// A log is there where the linker has a handle, the library can tell a size
/// above 1 and hand the log out: then it is the text of that buffer. The error
/// log and the info log are asked for as such.
pub proof fn law_logs<'a, N: NvJitLinkApi>(
    linker: Linker<'a, N>,
    sizes: ((i32, usize), (i32, usize)),
    got: ((i32, Vec<u8>), (i32, Vec<u8>)),
    texts: (String, String),
    error_log: Option<String>,
    info_log: Option<String>,
)
    requires
        call_ensures(Linker::<'a, N>::try_error_log, (&linker,), error_log),
        call_ensures(Linker::<'a, N>::try_info_log, (&linker,), info_log),
        call_ensures(log_text, ((got.0).1,), texts.0),
        call_ensures(log_text, ((got.1).1,), texts.1),
        log_answers(linker.nvj, &linker.handle, LogKind::Error, sizes.0, got.0),
        log_answers(linker.nvj, &linker.handle, LogKind::Info, sizes.1, got.1),
    ensures
        shows_log(linker.handle, sizes.0, got.0, texts.0, error_log),
        shows_log(linker.handle, sizes.1, got.1, texts.1, info_log),
{
}

/// An error of adding an input or of finishing a link carries the error log,
/// and a finished link the info log.
pub proof fn law_outcomes_carry_their_log<'a, 'b, N: NvJitLinkApi>(
    linker: &'b mut Linker<'a, N>,
    kind: InputType,
    data: &[u8],
    name: &str,
    sizes: ((i32, usize), (i32, usize)),
    got: ((i32, Vec<u8>), (i32, Vec<u8>)),
    texts: (String, String),
    added: Result<(), NvJitLinkError>,
    finished: Result<Linked, NvJitLinkError>,
)
    requires
        call_ensures(Linker::<'a, N>::add, (linker, kind, data, name), added),
        call_ensures(Linker::<'a, N>::finish, (*old(linker),), finished),
        call_ensures(log_text, ((got.0).1,), texts.0),
        call_ensures(log_text, ((got.1).1,), texts.1),
        log_answers(old(linker).nvj, &old(linker).handle, LogKind::Error, sizes.0, got.0),
        log_answers(old(linker).nvj, &old(linker).handle, LogKind::Info, sizes.1, got.1),
    ensures
        added is Err ==> added->Err_0 is Call && shows_log(
            old(linker).handle,
            sizes.0,
            got.0,
            texts.0,
            added->Err_0->log,
        ),
        finished is Err ==> finished->Err_0 is Call && shows_log(
            old(linker).handle,
            sizes.0,
            got.0,
            texts.0,
            finished->Err_0->log,
        ),
        finished is Ok ==> shows_log(
            old(linker).handle,
            sizes.1,
            got.1,
            texts.1,
            finished->Ok_0.info,
        ),
{
}

/// Dropping a linker destroys its handle, if it has one.
pub proof fn law_handle_is_destroyed<'a, N: NvJitLinkApi>(
    linker: Linker<'a, N>,
    code: i32,
    status: Option<i32>,
)
    requires
        call_ensures(Linker::<'a, N>::tear_down, (linker,), status),
        linker.handle is Some ==> forall|c: i32| #[trigger]
            call_ensures(N::destroy, (linker.nvj, linker.handle->0), c) ==> c == code,
    ensures
        linker.handle is None ==> status is None,
        linker.handle is Some ==> status == Some(code),
{
}

/// Loading tries the candidates in order: the first that opens is resolved, and
/// where none does, all that was tried is listed.
pub proof fn law_loading_tries_candidates<
    L,
    A: Copy,
    E: Fn(&str) -> Option<String>,
    O: Fn(&str) -> Option<L>,
    S: Fn(&L, &str) -> Result<A, String>,
>(
    get_env: E,
    open: O,
    lookup: S,
    env: spec_fn(Seq<char>) -> Option<String>,
    opened: spec_fn(Seq<char>) -> Option<L>,
    candidates: Vec<String>,
    r: Result<LibNvJitLink<L, A>, NvJitLinkError>,
    k: int,
)
    requires
        call_ensures(LibNvJitLink::<L, A>::load::<E, O, S>, (get_env, open, lookup), r),
        call_ensures(library_candidates, (get_env,), candidates),
        forall|var: &str, v: Option<String>| #[trigger]
            call_ensures(get_env, (var,), v) ==> v == env(var@),
        forall|path: &str, answer: Option<L>| #[trigger]
            call_ensures(open, (path,), answer) ==> answer == opened(path@),
    ensures
        ({
            let names = texts(candidates@);
            &&& (forall|j: int| 0 <= j < names.len() ==> opened(#[trigger] names[j]) is None) ==> r
                is Err && r->Err_0 is LibraryNotFound && r->Err_0->tried@ == separated(
                names,
                "\n  "@,
            )
            &&& 0 <= k < names.len() && opened(names[k]) is Some && (forall|j: int|
                0 <= j < k ==> opened(#[trigger] names[j]) is None)
                ==> resolves(lookup, opened(names[k])->0, r)
        }),
{
    let names = texts(candidates@);
    assert(loads(names, open, lookup, r));
    if exists|m: int, lib: L|
        {
            &&& 0 <= m < names.len()
            &&& #[trigger] opens(open, names[m], Some(lib))
            &&& forall|j: int|
                0 <= j < m ==> #[trigger] opens(open, names[j], None::<L>)
            &&& resolves(lookup, lib, r)
        } {
        let (m, lib) = choose|m: int, lib: L|
            {
                &&& 0 <= m < names.len()
                &&& #[trigger] opens(open, names[m], Some(lib))
                &&& forall|j: int|
                    0 <= j < m ==> #[trigger] opens(
                        open,
                        names[j],
                        None::<L>,
                    )
                &&& resolves(lookup, lib, r)
            };
        assert(opened(names[m]) == Some(lib));
        if 0 <= k < m {
            assert(opens(open, names[k], None::<L>));
        }
        if m < k && k < names.len() {
            assert(opened(names[m]) is Some);
        }
    } else if 0 <= k < names.len() {
        assert(opens(open, names[k], None::<L>));
    }
}

} // verus!
