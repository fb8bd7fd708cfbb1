//! What holds of paths and of the plan for the backend.

use vstd::prelude::*;

use crate::host::backend::{
    ancestors, auto_fetch_and_build, backend_so_candidate, build_backend_from_source,
    build_environment, build_ld_library_path, cache_directory, cached_backend_is_stale,
    dirs_path, find_or_build_backend, find_workspace_root, gathered, get_rustc_sysroot,
    invalidate_cache, is_normal, last_separator, next_fetch_step, parent, plan_backend, planned,
    root_answer, text_of, BackendFacts, BackendPlan, BuildOutcome, FetchEvent, FetchPlan,
    FetchStep,
};
use crate::host::path::{join_path, joined};
use crate::text::{lossy_text, texts, trimmed_end, trimmed_start};

verus! {

// ---------------------------------------------------------------------------
// Paths
// ---------------------------------------------------------------------------

/// A joined path begins with its base and ends with the rest. Between them is
/// one separator: that of the base where it ends with one, else a new one. An
/// empty base adds nothing.
pub proof fn law_joined_paths(base: &str, rest: &str, path: String)
    requires
        call_ensures(join_path, (base, rest), path),
    ensures
        base@.is_prefix_of(path@),
        path@.len() >= base@.len() + rest@.len(),
        path@.skip(path@.len() - rest@.len()) == rest@,
        base@.len() == 0 ==> path@ == rest@,
        base@.len() > 0 ==> path@[path@.len() - rest@.len() - 1] == '/',
        base@.len() > 0 && base@.last() == '/' ==> path@.len() == base@.len() + rest@.len(),
        base@.len() > 0 && base@.last() != '/' ==> path@.len() == base@.len() + 1 + rest@.len(),
{
    reveal_strlit("/");
    assert(path@.skip(path@.len() - rest@.len()) =~= rest@);
    if base@.len() == 0 {
        assert(path@ =~= rest@);
    }
}

proof fn lemma_last_separator(path: Seq<char>)
    ensures
        -1 <= last_separator(path) < path.len(),
        last_separator(path) >= 0 ==> path[last_separator(path)] == '/',
        forall|i: int| last_separator(path) < i < path.len() ==> #[trigger] path[i] != '/',
    decreases path.len(),
{
    if path.len() > 0 && path.last() != '/' {
        let front = path.drop_last();
        lemma_last_separator(front);
        assert forall|i: int| last_separator(path) < i < path.len() implies #[trigger] path[i]
            != '/' by {
            if i < front.len() {
                assert(front[i] == path[i]);
            }
        }
    }
}

/// The root has nothing above it. What is above another path is the path up to
/// its last component: joined with that component, which holds no separator,
/// it is the path again.
pub proof fn law_parent_and_component(path: Seq<char>)
    requires
        is_normal(path),
    ensures
        parent(path) is None <==> path == seq!['/'],
        parent(path) is Some ==> {
            let above = parent(path)->0;
            let name = path.skip(last_separator(path) + 1);
            &&& is_normal(above)
            &&& name.len() > 0
            &&& forall|i: int| 0 <= i < name.len() ==> #[trigger] name[i] != '/'
            &&& path == joined(above, name)
        },
{
    reveal_strlit("/");
    lemma_last_separator(path);
    let at = last_separator(path);
    if path.len() == 1 {
        assert(path =~= seq!['/']);
    } else {
        assert(path[0] == '/');
        assert(at >= 0);
        let above = parent(path)->0;
        let name = path.skip(at + 1);
        if at == 0 {
            assert(above =~= seq!['/']);
            assert(path =~= above + name);
        } else {
            assert(above.last() == path[at - 1]);
            if above.last() == '/' {
                assert(path[at - 1] == '/');
            }
            assert(path =~= above + "/"@ + name);
            assert forall|i: int| 0 <= i < above.len() - 1 && #[trigger] above[i] == '/' implies {
                &&& above[i + 1] != '/'
                &&& above[i + 1] == '.' ==> i + 2 < above.len() && above[i + 2] != '/'
            } by {
                assert(path[i] == above[i]);
                assert(path[i + 1] == above[i + 1]);
            }
        }
    }
}

/// The ancestors of a path begin with the path, go up one component at a time,
/// and end at the root.
pub proof fn law_ancestors_go_up(path: Seq<char>, i: int)
    requires
        is_normal(path),
        0 <= i < ancestors(path).len(),
    ensures
        ancestors(path)[0] == path,
        ancestors(path).last() == seq!['/'],
        is_normal(ancestors(path)[i]),
        i + 1 < ancestors(path).len() ==> parent(ancestors(path)[i]) == Some(
            ancestors(path)[i + 1],
        ),
    decreases path.len(),
{
    law_parent_and_component(path);
    lemma_last_separator(path);
    if let Some(above) = parent(path) {
        assert(above.len() < path.len());
        assert(ancestors(path) == seq![path] + ancestors(above));
        assert(ancestors(above).len() > 0);
        if i > 0 {
            law_ancestors_go_up(above, i - 1);
        } else {
            law_ancestors_go_up(above, 0);
        }
        assert(ancestors(path).last() == ancestors(above).last());
    }
}

/// The workspace root is the nearest directory, from the current one upwards,
/// that holds the backend's crate and a manifest; there is none exactly where
/// no directory up to the root holds both.
pub proof fn law_workspace_root_is_nearest<P: Fn(&str) -> bool, Q: Fn(&str) -> bool>(
    start: String,
    is_dir: P,
    is_file: Q,
    dirs: spec_fn(Seq<char>) -> bool,
    files: spec_fn(Seq<char>) -> bool,
    root: Option<String>,
)
    requires
        call_ensures(find_workspace_root::<P, Q>, (Some(start), is_dir, is_file), root),
        forall|path: &str, yes: bool| #[trigger]
            call_ensures(is_dir, (path,), yes) ==> yes == dirs(path@),
        forall|path: &str, yes: bool| #[trigger]
            call_ensures(is_file, (path,), yes) ==> yes == files(path@),
    ensures
        root is Some ==> exists|k: int| #[trigger]
            nearest(ancestors(start@), dirs, files, k) && root->0@ == ancestors(start@)[k],
        root is None ==> forall|j: int|
            0 <= j < ancestors(start@).len() ==> !holds_crate(
                #[trigger] ancestors(start@)[j],
                dirs,
                files,
            ),
{
    let all = ancestors(start@);
    if root is Some {
        let k = choose|k: int|
            {
                &&& 0 <= k < all.len()
                &&& root->0@ == #[trigger] all[k]
                &&& root_answer(is_dir, is_file, root->0@, true)
                &&& forall|j: int|
                    0 <= j < k ==> root_answer(
                        is_dir,
                        is_file,
                        #[trigger] all[j],
                        false,
                    )
            };
        assert(nearest(all, dirs, files, k));
    } else {
        assert forall|j: int| 0 <= j < all.len() implies !holds_crate(
            #[trigger] all[j],
            dirs,
            files,
        ) by {
            assert(root_answer(is_dir, is_file, all[j], false));
        }
    }
}

/// Whether a directory holds the backend's crate and a manifest.
pub open spec fn holds_crate(
    dir: Seq<char>,
    dirs: spec_fn(Seq<char>) -> bool,
    files: spec_fn(Seq<char>) -> bool,
) -> bool {
    dirs(joined(dir, "crates/rustc-codegen-cuda"@)) && files(joined(dir, "Cargo.toml"@))
}

/// Whether `k` is the position of the first directory that holds the crate.
pub open spec fn nearest(
    all: Seq<Seq<char>>,
    dirs: spec_fn(Seq<char>) -> bool,
    files: spec_fn(Seq<char>) -> bool,
    k: int,
) -> bool {
    &&& 0 <= k < all.len()
    &&& holds_crate(all[k], dirs, files)
    &&& forall|j: int| 0 <= j < k ==> !holds_crate(#[trigger] all[j], dirs, files)
}

// ---------------------------------------------------------------------------
// The plan
// ---------------------------------------------------------------------------

/// `CARGO_HOME` wins over `HOME`, below which Cargo's home is `.cargo`; the
/// cache is `cuda-oxide` below Cargo's home, and unknown where that is.
pub proof fn law_cache_is_below_cargo_home(
    cargo: Option<String>,
    home: Option<String>,
    dir: Option<String>,
    cache: Option<String>,
)
    requires
        call_ensures(dirs_path, (cargo, home), dir),
        call_ensures(cache_directory, (cargo, home), cache),
    ensures
        dir is Some <==> cargo is Some || home is Some,
        cargo is Some ==> dir->0@ == cargo->0@,
        cargo is None && home is Some ==> dir->0@ == joined(home->0@, ".cargo"@),
        cache is Some <==> dir is Some,
        cache is Some ==> cache->0@ == joined(dir->0@, "cuda-oxide"@),
{
}

/// The cache is stale if and only if both times are known and the binary's is
/// the later one: of two different times, exactly one order is stale.
pub proof fn law_staleness(
    binary_time: Option<i128>,
    cache_time: Option<i128>,
    stale: bool,
    reversed: bool,
)
    requires
        call_ensures(cached_backend_is_stale, (binary_time, cache_time), stale),
        call_ensures(cached_backend_is_stale, (cache_time, binary_time), reversed),
    ensures
        !(stale && reversed),
        binary_time is None || cache_time is None ==> !stale && !reversed,
        binary_time is Some && cache_time is Some && binary_time != cache_time ==> stale
            != reversed,
        binary_time is Some && cache_time is Some && binary_time->0 > cache_time->0 ==> stale,
{
}

/// What is planned is what was asked for, a build below the workspace root, the
/// library in the cache, or a fetch into the cache; the paths are below those
/// that they belong to.
pub proof fn law_plans_name_their_paths(
    workspace_root: &str,
    facts: BackendFacts,
    plan: BackendPlan,
)
    requires
        call_ensures(plan_backend, (workspace_root, facts), plan),
    ensures
        plan matches BackendPlan::Override { path } ==> facts.override_path is Some
            && facts.override_exists && path@ == facts.override_path->0@,
        plan matches BackendPlan::Local { codegen_crate, so_path } ==> facts.has_local_crate
            && codegen_crate@ == joined(workspace_root@, "crates/rustc-codegen-cuda"@) && so_path@
            == joined(codegen_crate@, "target/debug/librustc_codegen_cuda.so"@),
        plan matches BackendPlan::Cached { so_path } ==> facts.cache_dir is Some
            && facts.cache_exists && !facts.cache_stale && so_path@ == joined(
            facts.cache_dir->0@,
            "librustc_codegen_cuda.so"@,
        ),
        plan matches BackendPlan::Fetch { cache_dir, invalidate } ==> {
            &&& cache_dir is Some <==> facts.cache_dir is Some
            &&& cache_dir is Some ==> cache_dir->0@ == facts.cache_dir->0@
            &&& invalidate <==> facts.cache_dir is Some && facts.cache_exists
        },
        facts.override_path is Some && facts.override_exists ==> plan is Override,
        !(facts.override_path is Some && facts.override_exists) && facts.has_local_crate ==> plan
            is Local,
{
}

/// Where the backend is said to live is where it is planned to come from: the
/// same path, wherever it was not asked for and is not fetched anew.
pub proof fn law_candidate_is_what_is_planned<P: Fn(&str) -> bool>(
    workspace_root: &str,
    is_dir: P,
    cargo: Option<String>,
    home: Option<String>,
    cache: Option<String>,
    facts: BackendFacts,
    plan: BackendPlan,
    path: String,
)
    requires
        call_ensures(
            backend_so_candidate::<P>,
            (workspace_root, None, is_dir, cargo, home),
            path,
        ),
        call_ensures(cache_directory, (cargo, home), cache),
        call_ensures(plan_backend, (workspace_root, facts), plan),
        facts.override_path is None,
        facts.cache_dir is Some <==> cache is Some,
        facts.cache_dir is Some ==> facts.cache_dir->0@ == cache->0@,
        forall|dir: &str, yes: bool|
            dir@ == joined(workspace_root@, "crates/rustc-codegen-cuda"@) && #[trigger]
            call_ensures(is_dir, (dir,), yes) ==> yes == facts.has_local_crate,
    ensures
        plan matches BackendPlan::Local { so_path, .. } ==> path@ == so_path@,
        plan matches BackendPlan::Cached { so_path } ==> path@ == so_path@,
        plan is Fetch && cache is Some ==> path@ == joined(
            cache->0@,
            "librustc_codegen_cuda.so"@,
        ),
        plan is Fetch && cache is None ==> path@ == "librustc_codegen_cuda.so"@,
{
}

/// What the user asks for is where the backend is said to live.
pub proof fn law_candidate_follows_the_user<P: Fn(&str) -> bool>(
    workspace_root: &str,
    asked: String,
    is_dir: P,
    cargo: Option<String>,
    home: Option<String>,
    path: String,
)
    requires
        call_ensures(
            backend_so_candidate::<P>,
            (workspace_root, Some(asked), is_dir, cargo, home),
            path,
        ),
    ensures
        path@ == asked@,
{
}

/// With a system that gives one answer to each question: a path that was asked
/// for and exists is taken; one that does not exist is reported, and what comes
/// next is the local repository, then the cache while it is not stale, then a
/// fetch, which empties a stale cache.
pub proof fn law_backend_is_found_in_order<
    E: Fn(&str) -> Option<String>,
    X: Fn(&str) -> bool,
    P: Fn(&str) -> bool,
    S: Fn(&str) -> bool,
>(
    workspace_root: &str,
    get_env: E,
    path_exists: X,
    is_dir: P,
    is_stale: S,
    asked: Option<String>,
    cargo: Option<String>,
    home: Option<String>,
    cache: Option<String>,
    exists_at: spec_fn(Seq<char>) -> bool,
    dirs: spec_fn(Seq<char>) -> bool,
    stale_at: spec_fn(Seq<char>) -> bool,
    out: (BackendPlan, Option<String>),
)
    requires
        call_ensures(
            find_or_build_backend::<E, X, P, S>,
            (workspace_root, get_env, path_exists, is_dir, is_stale),
            out,
        ),
        forall|v: Option<String>| #[trigger]
            call_ensures(get_env, ("CUDA_OXIDE_BACKEND",), v) ==> v == asked,
        forall|v: Option<String>| #[trigger]
            call_ensures(get_env, ("CARGO_HOME",), v) ==> v == cargo,
        forall|v: Option<String>| #[trigger] call_ensures(get_env, ("HOME",), v) ==> v == home,
        call_ensures(cache_directory, (cargo, home), cache),
        forall|path: &str, yes: bool| #[trigger]
            call_ensures(path_exists, (path,), yes) ==> yes == exists_at(path@),
        forall|path: &str, yes: bool| #[trigger]
            call_ensures(is_dir, (path,), yes) ==> yes == dirs(path@),
        forall|path: &str, yes: bool| #[trigger]
            call_ensures(is_stale, (path,), yes) ==> yes == stale_at(path@),
    ensures
        ({
            let taken = asked is Some && exists_at(asked->0@);
            let local = joined(workspace_root@, "crates/rustc-codegen-cuda"@);
            let cached = joined(cache->0@, "librustc_codegen_cuda.so"@);
            let there = cache is Some && exists_at(cached);
            &&& taken ==> out.0 is Override && out.0->path@ == asked->0@ && out.1 is None
            &&& !taken && asked is Some ==> out.1 is Some && out.1->0@ == asked->0@
            &&& asked is None ==> out.1 is None
            &&& !taken && dirs(local) ==> out.0 is Local && out.0->codegen_crate@ == local
            &&& !taken && !dirs(local) && there && !stale_at(cached) ==> out.0 is Cached
                && out.0->Cached_so_path@ == cached
            &&& !taken && !dirs(local) && there && stale_at(cached) ==> out.0 is Fetch
                && out.0->invalidate
            &&& !taken && !dirs(local) && !there ==> out.0 is Fetch && !out.0->invalidate
        }),
{
    let facts = choose|facts: BackendFacts|
        {
            &&& #[trigger] gathered(
                workspace_root@,
                get_env,
                path_exists,
                is_dir,
                is_stale,
                facts,
            )
            &&& planned(workspace_root@, facts, out.0)
            &&& text_of(out.1) == (if facts.override_exists {
                None
            } else {
                text_of(facts.override_path)
            })
        };
    assert(facts.override_path == asked);
}

/// Emptying a cache removes what a fetch into it puts there: the library that
/// is loaded, and the source that is cloned.
pub proof fn law_invalidation_undoes_a_fetch(
    cache_dir: &str,
    removed: (String, String),
    plan: Option<FetchPlan>,
)
    requires
        call_ensures(invalidate_cache, (cache_dir,), removed),
        call_ensures(auto_fetch_and_build, (Some(cache_dir),), plan),
    ensures
        plan is Some,
        removed.0@ == plan->0.so_path@,
        removed.1@ == plan->0.src_dir@,
        removed.0@ == joined(cache_dir@, "librustc_codegen_cuda.so"@),
        removed.1@ == joined(cache_dir@, "src"@),
{
}

/// A fetch clones into its source directory, without history, and builds the
/// backend's crate there.
pub proof fn law_fetch_paths_fit_together(cache_dir: Option<&str>, plan: Option<FetchPlan>)
    requires
        call_ensures(auto_fetch_and_build, (cache_dir,), plan),
    ensures
        plan is Some <==> cache_dir is Some,
        plan is Some ==> {
            let p = plan->0;
            let args = texts(p.clone_args@);
            &&& p.manifest@ == joined(p.src_dir@, "Cargo.toml"@)
            &&& p.codegen_crate@ == joined(p.src_dir@, "crates/rustc-codegen-cuda"@)
            &&& p.built_so@ == joined(p.codegen_crate@, "target/debug/librustc_codegen_cuda.so"@)
            &&& args.len() == 5
            &&& args.last() == p.src_dir@
            &&& args[0] == "clone"@
            &&& args[1] == "--depth"@ && args[2] == "1"@
            &&& args[3] == "https://github.com/NVlabs/cuda-oxide.git"@
        },
{
}

/// The source is cloned if and only if it is not there, built once it is, and
/// the library copied if and only if the build left one. The fetch is given up
/// only for a failed clone, with a code that says so.
pub proof fn law_fetch_steps(event: FetchEvent, step: FetchStep)
    requires
        call_ensures(next_fetch_step, (event,), step),
    ensures
        step is Clone <==> event == FetchEvent::ManifestChecked(false),
        step is Build <==> event == FetchEvent::ManifestChecked(true) || event
            == FetchEvent::Cloned(true),
        step is GiveUp <==> event == FetchEvent::Cloned(false),
        step is GiveUp ==> step->GiveUp_0 == 1,
        step is Copy <==> event == FetchEvent::LibraryChecked(true),
        step is CheckManifest <==> event is CacheDirReady,
        step is CheckLibrary <==> event is Built,
        step is Done <==> event is Copied || event == FetchEvent::LibraryChecked(false),
{
}

/// The sysroot is what the command printed, without the white space around it,
/// if the command could be run and succeeded.
pub proof fn law_sysroot(output: Option<(bool, Vec<u8>)>, sysroot: Option<String>)
    requires
        call_ensures(get_rustc_sysroot, (output,), sysroot),
    ensures
        sysroot is Some <==> output is Some && (output->0).0,
        sysroot is Some ==> sysroot->0@ == trimmed_end(
            trimmed_start(lossy_text((output->0).1@)),
        ),
{
}

/// The library path is what was there and, behind a colon, the sysroot's
/// libraries.
pub proof fn law_library_path_appends(existing: Option<String>, sysroot_lib: &str, path: String)
    requires
        call_ensures(build_ld_library_path, (&existing, sysroot_lib), path),
    ensures
        existing is None ==> path@ == sysroot_lib@,
        existing is Some ==> {
            &&& path@.len() == existing->0@.len() + 1 + sysroot_lib@.len()
            &&& existing->0@.is_prefix_of(path@)
            &&& path@[existing->0@.len() as int] == ':'
            &&& path@.skip(existing->0@.len() as int + 1) == sysroot_lib@
        },
{
    reveal_strlit(":");
    if existing is Some {
        assert(path@.skip(existing->0@.len() as int + 1) =~= sysroot_lib@);
    }
}

/// A build finds the sysroot's libraries for linking and, behind what was
/// there, for loading; without a sysroot its environment stays as it is.
pub proof fn law_build_environment(
    sysroot: Option<String>,
    existing: Option<String>,
    vars: Vec<(String, String)>,
    lib: &str,
    path: String,
)
    requires
        call_ensures(build_environment, (&sysroot, &existing), vars),
        sysroot is Some ==> lib@ == sysroot->0@ + "/lib"@,
        call_ensures(build_ld_library_path, (&existing, lib), path),
    ensures
        sysroot is None ==> vars@.len() == 0,
        sysroot is Some ==> {
            &&& vars@.len() == 2
            &&& vars@[0].0@ == "LIBRARY_PATH"@ && vars@[0].1@ == lib@
            &&& vars@[1].0@ == "LD_LIBRARY_PATH"@ && vars@[1].1@ == path@
        },
{
}

/// A build that failed is left with its own code, or 1 where a signal ended
/// it; one that succeeded is looked at for its library.
pub proof fn law_build_outcomes(
    success: bool,
    code: Option<i32>,
    so_exists: bool,
    outcome: BuildOutcome,
)
    requires
        call_ensures(build_backend_from_source, (success, code, so_exists), outcome),
    ensures
        outcome is Failed <==> !success,
        outcome is Built <==> success && so_exists,
        outcome is Missing <==> success && !so_exists,
        outcome is Failed && code is Some ==> outcome->Failed_0 == code->0,
        outcome is Failed && code is None ==> outcome->Failed_0 == 1,
{
}

} // verus!
