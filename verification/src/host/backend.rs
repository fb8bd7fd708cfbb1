//! Finding or building the codegen backend.
//!
//! In order of priority: the path in `CUDA_OXIDE_BACKEND`; the local
//! repository; the cached library, unless it is older than the running binary;
//! a fresh clone. A binary newer than the cache means that it was upgraded
//! since: both the cached library and the cached source are then dropped, so
//! that the next step clones and builds anew.
//!
//! Questions to the system are handed in as functions. What is to be built,
//! removed or fetched is returned as a plan.

use vstd::prelude::*;

use crate::host::path::{join_path, joined};
use crate::text::{
    concat2, concat3, from_utf8_lossy, lossy_text, texts, trim, trimmed_end, trimmed_start,
};

verus! {

/// The backend's crate below a source tree.
pub open spec fn crate_below(root: Seq<char>) -> Seq<char> {
    joined(root, "crates/rustc-codegen-cuda"@)
}

/// The library that a debug build leaves below the backend's crate.
pub open spec fn built_below(codegen_crate: Seq<char>) -> Seq<char> {
    joined(codegen_crate, "target/debug/librustc_codegen_cuda.so"@)
}

/// The library in a cache directory.
pub open spec fn cached_below(cache_dir: Seq<char>) -> Seq<char> {
    joined(cache_dir, "librustc_codegen_cuda.so"@)
}

/// Whether `path` is absolute and in normal form, as the current directory is:
/// the root, or components that follow a separator each, none of them empty or
/// a single dot.
pub open spec fn is_normal(path: Seq<char>) -> bool {
    &&& path.len() > 0
    &&& path[0] == '/'
    &&& path.len() > 1 ==> path.last() != '/'
    &&& forall|i: int|
        0 <= i < path.len() - 1 && #[trigger] path[i] == '/' ==> {
            &&& path[i + 1] != '/'
            &&& path[i + 1] == '.' ==> i + 2 < path.len() && path[i + 2] != '/'
        }
}

/// The position of the last separator.
pub open spec fn last_separator(path: Seq<char>) -> int
    decreases path.len(),
{
    if path.len() == 0 {
        -1
    } else if path.last() == '/' {
        path.len() - 1
    } else {
        last_separator(path.drop_last())
    }
}

/// The directory above `path`, or `None` for the root.
pub open spec fn parent(path: Seq<char>) -> Option<Seq<char>> {
    let at = last_separator(path);
    if path.len() <= 1 {
        None
    } else if at <= 0 {
        Some(path.take(1))
    } else {
        Some(path.take(at))
    }
}

/// `path` and the directories above it, up to the root.
pub open spec fn ancestors(path: Seq<char>) -> Seq<Seq<char>>
    decreases path.len(),
{
    match parent(path) {
        None => seq![path],
        Some(above) => if above.len() < path.len() {
            seq![path] + ancestors(above)
        } else {
            seq![path]
        },
    }
}

/// The directory above `path`, or `None` for the root.
fn parent_path(path: &str) -> (above: Option<String>)
    requires
        is_normal(path@),
    ensures
        match above {
            Some(dir) => {
                &&& parent(path@) == Some(dir@)
                &&& dir@.len() < path@.len()
                &&& is_normal(dir@)
            },
            None => parent(path@) is None,
        },
{
    let len: usize = path.unicode_len();
    if len <= 1 {
        return None;
    }
    let mut end: usize = len;
    assert(path@.take(len as int) =~= path@);
    while end > 0 && path.get_char(end - 1) != '/'
        invariant
            end <= len,
            len == path@.len(),
            last_separator(path@) == last_separator(path@.take(end as int)),
        decreases end,
    {
        assert(path@.take(end as int).drop_last() =~= path@.take(end - 1));
        end = end - 1;
    }
    assert(end >= 1 ==> path@.take(end as int).last() == path@[end - 1]);
    assert(last_separator(path@) == end - 1);
    assert(end < len);
    if end <= 1 {
        assert(is_normal(path@.take(1)));
        Some(String::from_str(path.substring_char(0, 1)))
    } else {
        let ghost above = path@.take(end - 1);
        assert(is_normal(above)) by {
            assert(path@[end - 1] == '/');
            assert(above.last() == path@[end - 2]);
            assert forall|i: int| 0 <= i < above.len() - 1 && #[trigger] above[i] == '/' implies {
                &&& above[i + 1] != '/'
                &&& above[i + 1] == '.' ==> i + 2 < above.len() && above[i + 2] != '/'
            } by {
                assert(path@[i] == above[i]);
                assert(path@[i + 1] == above[i + 1]);
            }
        }
        assert(path@.subrange(0, end - 1) =~= above);
        Some(String::from_str(path.substring_char(0, end - 1)))
    }
}

/// Whether `yes` can come of asking about the path with this text.
pub open spec fn answers<F: Fn(&str) -> bool>(ask: F, text: Seq<char>, yes: bool) -> bool {
    exists|path: &str| path@ == text && #[trigger] call_ensures(ask, (path,), yes)
}

/// Whether `yes` can come of asking if `dir` is the root of the repository.
pub open spec fn root_answer<P: Fn(&str) -> bool, Q: Fn(&str) -> bool>(
    is_dir: P,
    is_file: Q,
    dir: Seq<char>,
    yes: bool,
) -> bool {
    ||| !yes && answers(is_dir, crate_below(dir), false)
    ||| answers(is_dir, crate_below(dir), true) && answers(
        is_file,
        joined(dir, "Cargo.toml"@),
        yes,
    )
}

/// Whether each of the directories can be answered not to be the root of the
/// repository.
pub open spec fn none_is_root<P: Fn(&str) -> bool, Q: Fn(&str) -> bool>(
    is_dir: P,
    is_file: Q,
    dirs: Seq<Seq<char>>,
) -> bool {
    forall|j: int|
        0 <= j < dirs.len() ==> root_answer(is_dir, is_file, #[trigger] dirs[j], false)
}

/// Finds the workspace root: the first directory, from the current one
/// upwards, with a `Cargo.toml` and the backend's crate.
pub fn find_workspace_root<P: Fn(&str) -> bool, Q: Fn(&str) -> bool>(
    current_dir: Option<String>,
    is_dir: P,
    is_file: Q,
) -> (root: Option<String>)
    requires
        current_dir is Some ==> is_normal(current_dir->0@),
        forall|path: &str| call_requires(is_dir, (path,)),
        forall|path: &str| call_requires(is_file, (path,)),
    ensures
        match current_dir {
            None => root is None,
            Some(start) => match root {
                Some(dir) => exists|k: int|
                    {
                        &&& 0 <= k < ancestors(start@).len()
                        &&& dir@ == #[trigger] ancestors(start@)[k]
                        &&& root_answer(is_dir, is_file, dir@, true)
                        &&& forall|j: int|
                            0 <= j < k ==> root_answer(
                                is_dir,
                                is_file,
                                #[trigger] ancestors(start@)[j],
                                false,
                            )
                    },
                None => none_is_root(is_dir, is_file, ancestors(start@)),
            },
        },
{
    let mut dir = match current_dir {
        Some(dir) => dir,
        None => return None,
    };
    let ghost start = dir@;
    let ghost dirs = ancestors(start);
    let ghost mut seen: int = 0;
    assert(dirs.skip(0) =~= dirs);
    loop
        invariant
            current_dir is Some,
            current_dir->0@ == start,
            dirs == ancestors(start),
            0 <= seen < dirs.len(),
            dirs.skip(seen) == ancestors(dir@),
            is_normal(dir@),
            forall|path: &str| call_requires(is_dir, (path,)),
            forall|path: &str| call_requires(is_file, (path,)),
            forall|j: int|
                0 <= j < seen ==> root_answer(is_dir, is_file, #[trigger] dirs[j], false),
        decreases dir@.len(),
    {
        let codegen_crate = join_path(dir.as_str(), "crates/rustc-codegen-cuda");
        let manifest = join_path(dir.as_str(), "Cargo.toml");
        assert(dirs[seen] == dirs.skip(seen)[0]);
        let has_crate = is_dir(codegen_crate.as_str());
        assert(answers(is_dir, crate_below(dir@), has_crate));
        if has_crate {
            let has_manifest = is_file(manifest.as_str());
            assert(answers(is_file, joined(dir@, "Cargo.toml"@), has_manifest));
            if has_manifest {
                assert(dir@ == dirs[seen]);
                return Some(dir);
            }
        }
        assert(root_answer(is_dir, is_file, dirs[seen], false));
        let ghost here = dir@;
        match parent_path(dir.as_str()) {
            Some(above) => {
                proof {
                    assert(ancestors(here) == seq![here] + ancestors(above@));
                    assert(dirs.skip(seen + 1) =~= dirs.skip(seen).skip(1));
                    assert(ancestors(here).skip(1) =~= ancestors(above@));
                    assert(ancestors(above@).len() > 0);
                    seen = seen + 1;
                }
                dir = above;
            },
            None => {
                assert(dirs.skip(seen).len() == 1);
                return None;
            },
        }
    }
}

/// Cargo's home directory, given `CARGO_HOME` and `HOME`.
pub open spec fn cargo_home(cargo: Option<String>, home: Option<String>) -> Option<Seq<char>> {
    match cargo {
        Some(dir) => Some(dir@),
        None => match home {
            Some(dir) => Some(joined(dir@, ".cargo"@)),
            None => None,
        },
    }
}

/// The cache directory, given `CARGO_HOME` and `HOME`.
pub open spec fn cache_of(cargo: Option<String>, home: Option<String>) -> Option<Seq<char>> {
    match cargo_home(cargo, home) {
        Some(dir) => Some(joined(dir, "cuda-oxide"@)),
        None => None,
    }
}

/// The text in a string, if there is one.
pub open spec fn text_of(s: Option<String>) -> Option<Seq<char>> {
    match s {
        Some(text) => Some(text@),
        None => None,
    }
}

/// Cargo's home directory: `CARGO_HOME`, or else `.cargo` below `HOME`.
pub fn dirs_path(cargo: Option<String>, home: Option<String>) -> (dir: Option<String>)
    ensures
        text_of(dir) == cargo_home(cargo, home),
{
    match cargo {
        Some(dir) => Some(dir),
        None => match home {
            Some(dir) => Some(join_path(dir.as_str(), ".cargo")),
            None => None,
        },
    }
}

/// The cache directory: `cuda-oxide` below Cargo's home directory.
pub fn cache_directory(cargo: Option<String>, home: Option<String>) -> (dir: Option<String>)
    ensures
        text_of(dir) == cache_of(cargo, home),
{
    match dirs_path(cargo, home) {
        Some(dir) => Some(join_path(dir.as_str(), "cuda-oxide")),
        None => None,
    }
}

/// Whether the cached backend is older than the running binary, which means
/// that the binary was upgraded since the cache was built. Times are in
/// nanoseconds since the epoch; `None` is a time that could not be had.
///
/// Conservative on errors: without both times the cache is not called stale.
pub fn cached_backend_is_stale(binary_time: Option<i128>, cache_time: Option<i128>) -> (stale: bool)
    ensures
        stale <==> binary_time is Some && cache_time is Some && binary_time->0 > cache_time->0,
{
    match (binary_time, cache_time) {
        (Some(binary), Some(cache)) => binary > cache,
        _ => false,
    }
}

/// What is known when the backend is looked for. What no decision rests on is
/// `false` or `None`.
#[derive(Debug)]
pub struct BackendFacts {
    /// The value of `CUDA_OXIDE_BACKEND`.
    pub override_path: Option<String>,
    /// Whether that path exists.
    pub override_exists: bool,
    /// Whether the backend's crate is a directory below the workspace root.
    pub has_local_crate: bool,
    /// The cache directory.
    pub cache_dir: Option<String>,
    /// Whether there is a library in it.
    pub cache_exists: bool,
    /// Whether that library is stale.
    pub cache_stale: bool,
}

/// Where the backend comes from.
#[derive(Debug)]
pub enum BackendPlan {
    /// The path that was asked for.
    Override { path: String },
    /// A build of the local repository.
    Local { codegen_crate: String, so_path: String },
    /// The cached library.
    Cached { so_path: String },
    /// A build of a clone in the cache directory, if that is known.
    /// `invalidate` says that the cache is to be emptied first.
    Fetch { cache_dir: Option<String>, invalidate: bool },
}

/// Whether `plan` is where the backend comes from, given the facts.
pub open spec fn planned(root: Seq<char>, facts: BackendFacts, plan: BackendPlan) -> bool {
    if facts.override_path is Some && facts.override_exists {
        plan matches BackendPlan::Override { path } && path@ == facts.override_path->0@
    } else if facts.has_local_crate {
        plan matches BackendPlan::Local { codegen_crate, so_path } && codegen_crate@ == crate_below(
            root,
        ) && so_path@ == built_below(crate_below(root))
    } else if facts.cache_dir is Some && facts.cache_exists && !facts.cache_stale {
        plan matches BackendPlan::Cached { so_path } && so_path@ == cached_below(
            facts.cache_dir->0@,
        )
    } else {
        plan matches BackendPlan::Fetch { cache_dir, invalidate } && text_of(cache_dir) == text_of(
            facts.cache_dir,
        ) && invalidate == (facts.cache_dir is Some && facts.cache_exists)
    }
}

/// Decides where the backend comes from.
pub fn plan_backend(workspace_root: &str, facts: BackendFacts) -> (plan: BackendPlan)
    ensures
        planned(workspace_root@, facts, plan),
{
    match facts.override_path {
        Some(path) => if facts.override_exists {
            return BackendPlan::Override { path };
        },
        None => {},
    }
    if facts.has_local_crate {
        let codegen_crate = join_path(workspace_root, "crates/rustc-codegen-cuda");
        let so_path = join_path(codegen_crate.as_str(), "target/debug/librustc_codegen_cuda.so");
        return BackendPlan::Local { codegen_crate, so_path };
    }
    match facts.cache_dir {
        Some(dir) => {
            if facts.cache_exists && !facts.cache_stale {
                let so_path = join_path(dir.as_str(), "librustc_codegen_cuda.so");
                BackendPlan::Cached { so_path }
            } else {
                BackendPlan::Fetch { cache_dir: Some(dir), invalidate: facts.cache_exists }
            }
        },
        None => BackendPlan::Fetch { cache_dir: None, invalidate: false },
    }
}

/// Whether these facts can come of asking the system, each question only
/// where the answers before it leave the matter open.
pub open spec fn gathered<
    E: Fn(&str) -> Option<String>,
    X: Fn(&str) -> bool,
    P: Fn(&str) -> bool,
    S: Fn(&str) -> bool,
>(
    root: Seq<char>,
    get_env: E,
    path_exists: X,
    is_dir: P,
    is_stale: S,
    facts: BackendFacts,
) -> bool {
    &&& call_ensures(get_env, ("CUDA_OXIDE_BACKEND",), facts.override_path)
    &&& facts.override_path is Some ==> answers(
        path_exists,
        facts.override_path->0@,
        facts.override_exists,
    )
    &&& facts.override_path is None ==> !facts.override_exists
    &&& !facts.override_exists ==> {
        &&& answers(is_dir, crate_below(root), facts.has_local_crate)
        &&& !facts.has_local_crate ==> {
            &&& exists|cargo: Option<String>, home: Option<String>|
                {
                    &&& #[trigger] call_ensures(get_env, ("CARGO_HOME",), cargo)
                    &&& #[trigger] call_ensures(get_env, ("HOME",), home)
                    &&& text_of(facts.cache_dir) == cache_of(cargo, home)
                }
            &&& facts.cache_dir is Some ==> {
                &&& answers(path_exists, cached_below(facts.cache_dir->0@), facts.cache_exists)
                &&& facts.cache_exists ==> answers(
                    is_stale,
                    cached_below(facts.cache_dir->0@),
                    facts.cache_stale,
                )
            }
        }
    }
}

/// Asks the system what the decision rests on.
fn gather_facts<
    E: Fn(&str) -> Option<String>,
    X: Fn(&str) -> bool,
    P: Fn(&str) -> bool,
    S: Fn(&str) -> bool,
>(workspace_root: &str, get_env: E, path_exists: X, is_dir: P, is_stale: S) -> (facts: BackendFacts)
    requires
        forall|var: &str| call_requires(get_env, (var,)),
        forall|path: &str| call_requires(path_exists, (path,)),
        forall|path: &str| call_requires(is_dir, (path,)),
        forall|path: &str| call_requires(is_stale, (path,)),
    ensures
        gathered(workspace_root@, get_env, path_exists, is_dir, is_stale, facts),
{
    let mut facts = BackendFacts {
        override_path: None,
        override_exists: false,
        has_local_crate: false,
        cache_dir: None,
        cache_exists: false,
        cache_stale: false,
    };
    facts.override_path = get_env("CUDA_OXIDE_BACKEND");
    if let Some(path) = &facts.override_path {
        let there = path_exists(path.as_str());
        assert(answers(path_exists, path@, there));
        facts.override_exists = there;
    }
    if facts.override_exists {
        return facts;
    }
    let codegen_crate = join_path(workspace_root, "crates/rustc-codegen-cuda");
    facts.has_local_crate = is_dir(codegen_crate.as_str());
    assert(answers(is_dir, crate_below(workspace_root@), facts.has_local_crate));
    if facts.has_local_crate {
        return facts;
    }
    let cargo = get_env("CARGO_HOME");
    let home = get_env("HOME");
    facts.cache_dir = cache_directory(cargo, home);
    if let Some(dir) = &facts.cache_dir {
        let cached_so = join_path(dir.as_str(), "librustc_codegen_cuda.so");
        let there = path_exists(cached_so.as_str());
        assert(answers(path_exists, cached_below(dir@), there));
        facts.cache_exists = there;
        if there {
            let stale = is_stale(cached_so.as_str());
            assert(answers(is_stale, cached_so@, stale));
            facts.cache_stale = stale;
        }
    }
    facts
}

/// Decides where the backend comes from, after asking the system.
///
/// `path_exists`, `is_dir` and `is_stale` ask about a path. Returns the plan, and
/// the path in `CUDA_OXIDE_BACKEND` where it is set and does not exist: the
/// caller warns about that.
pub fn find_or_build_backend<
    E: Fn(&str) -> Option<String>,
    X: Fn(&str) -> bool,
    P: Fn(&str) -> bool,
    S: Fn(&str) -> bool,
>(workspace_root: &str, get_env: E, path_exists: X, is_dir: P, is_stale: S) -> (out: (
    BackendPlan,
    Option<String>,
))
    requires
        forall|var: &str| call_requires(get_env, (var,)),
        forall|path: &str| call_requires(path_exists, (path,)),
        forall|path: &str| call_requires(is_dir, (path,)),
        forall|path: &str| call_requires(is_stale, (path,)),
    ensures
        exists|facts: BackendFacts|
            {
                &&& #[trigger] gathered(
                    workspace_root@,
                    get_env,
                    path_exists,
                    is_dir,
                    is_stale,
                    facts,
                )
                &&& planned(workspace_root@, facts, out.0)
                &&& text_of(out.1) == (if facts.override_exists {
                    None
                } else {
                    text_of(facts.override_path)
                })
            },
{
    let facts = gather_facts(workspace_root, get_env, path_exists, is_dir, is_stale);
    assert(gathered(workspace_root@, get_env, path_exists, is_dir, is_stale, facts));
    let missing = if facts.override_exists {
        None
    } else {
        match &facts.override_path {
            Some(path) => Some(path.clone()),
            None => None,
        }
    };
    (plan_backend(workspace_root, facts), missing)
}

/// Where the backend's library lives or would live, given what the
/// environment says: the path asked for, even where nothing is there; the
/// local build; the cache; or the bare name.
pub fn backend_so_candidate<P: Fn(&str) -> bool>(
    workspace_root: &str,
    override_path: Option<String>,
    is_dir: P,
    cargo: Option<String>,
    home: Option<String>,
) -> (path: String)
    requires
        forall|path: &str| call_requires(is_dir, (path,)),
    ensures
        match override_path {
            Some(asked) => path@ == asked@,
            None => exists|local: bool|
                #[trigger] answers(is_dir, crate_below(workspace_root@), local) && path@ == (
                if local {
                    built_below(crate_below(workspace_root@))
                } else {
                    match cache_of(cargo, home) {
                        Some(dir) => cached_below(dir),
                        None => "librustc_codegen_cuda.so"@,
                    }
                }),
        },
{
    match override_path {
        Some(path) => return path,
        None => {},
    }
    let codegen_crate = join_path(workspace_root, "crates/rustc-codegen-cuda");
    let local = is_dir(codegen_crate.as_str());
    assert(answers(is_dir, crate_below(workspace_root@), local));
    if local {
        return join_path(codegen_crate.as_str(), "target/debug/librustc_codegen_cuda.so");
    }
    match cache_directory(cargo, home) {
        Some(dir) => join_path(dir.as_str(), "librustc_codegen_cuda.so"),
        None => String::from_str("librustc_codegen_cuda.so"),
    }
}

/// What to remove from a stale cache: the library, and the directory with the
/// source, so that the next fetch clones anew.
pub fn invalidate_cache(cache_dir: &str) -> (out: (String, String))
    ensures
        out.0@ == cached_below(cache_dir@),
        out.1@ == joined(cache_dir@, "src"@),
{
    (join_path(cache_dir, "librustc_codegen_cuda.so"), join_path(cache_dir, "src"))
}

/// The sysroot from the output of `rustc --print sysroot`: whether the
/// command succeeded, and what it printed. `None` is a command that could not
/// be run.
pub fn get_rustc_sysroot(output: Option<(bool, Vec<u8>)>) -> (sysroot: Option<String>)
    ensures
        text_of(sysroot) == (match output {
            Some((true, stdout)) => Some(trimmed_end(trimmed_start(lossy_text(stdout@)))),
            _ => None,
        }),
{
    match output {
        Some((success, stdout)) => if success {
            let text = from_utf8_lossy(stdout.as_slice());
            Some(trim(text.as_str()))
        } else {
            None
        },
        None => None,
    }
}

/// The library search path with `sysroot_lib` behind what is there already.
pub open spec fn library_path(existing: Option<String>, sysroot_lib: Seq<char>) -> Seq<char> {
    match existing {
        Some(paths) => paths@ + ":"@ + sysroot_lib,
        None => sysroot_lib,
    }
}

/// The library search path for loading the backend. Existing paths come
/// first.
pub fn build_ld_library_path(existing: &Option<String>, sysroot_lib: &str) -> (path: String)
    ensures
        path@ == library_path(*existing, sysroot_lib@),
{
    match existing {
        Some(paths) => concat3(paths.as_str(), ":", sysroot_lib),
        None => String::from_str(sysroot_lib),
    }
}

/// The environment for building the backend, as names and values.
pub fn build_environment(sysroot: &Option<String>, existing: &Option<String>) -> (vars: Vec<
    (String, String),
>)
    ensures
        match *sysroot {
            None => vars@.len() == 0,
            Some(root) => {
                let lib = root@ + "/lib"@;
                &&& vars@.len() == 2
                &&& (vars@[0]).0@ == "LIBRARY_PATH"@
                &&& (vars@[0]).1@ == lib
                &&& (vars@[1]).0@ == "LD_LIBRARY_PATH"@
                &&& (vars@[1]).1@ == library_path(*existing, lib)
            },
        },
{
    let mut vars: Vec<(String, String)> = Vec::new();
    if let Some(root) = sysroot {
        let lib = concat2(root.as_str(), "/lib");
        let path = build_ld_library_path(existing, lib.as_str());
        vars.push((String::from_str("LIBRARY_PATH"), lib));
        vars.push((String::from_str("LD_LIBRARY_PATH"), path));
    }
    vars
}

/// What a finished build of the backend comes to.
#[derive(Clone, Copy, Debug, PartialEq, Eq, Structural)]
pub enum BuildOutcome {
    /// The build failed: leave with this exit code.
    Failed(i32),
    /// The library is there.
    Built,
    /// The build succeeded, yet the library is not where it is expected.
    Missing,
}

/// What to make of a build: whether it succeeded, its exit code (there is none
/// where a signal ended it), and whether the library is there.
pub fn build_backend_from_source(success: bool, code: Option<i32>, so_exists: bool) -> (outcome:
    BuildOutcome)
    ensures
        outcome == (if !success {
            BuildOutcome::Failed(
                match code {
                    Some(c) => c,
                    None => 1,
                },
            )
        } else if so_exists {
            BuildOutcome::Built
        } else {
            BuildOutcome::Missing
        }),
{
    if !success {
        match code {
            Some(c) => BuildOutcome::Failed(c),
            None => BuildOutcome::Failed(1),
        }
    } else if so_exists {
        BuildOutcome::Built
    } else {
        BuildOutcome::Missing
    }
}

/// The paths and the command of fetching the source into the cache.
#[derive(Debug)]
pub struct FetchPlan {
    /// Where the source goes.
    pub src_dir: String,
    /// The file that is there once the source was cloned.
    pub manifest: String,
    /// The arguments of `git` that clone it.
    pub clone_args: Vec<String>,
    /// The backend's crate in the clone.
    pub codegen_crate: String,
    /// The library that the build leaves.
    pub built_so: String,
    /// Where the library is copied to, and is to be loaded from.
    pub so_path: String,
}

/// The arguments of a shallow clone into `src_dir`.
pub open spec fn clone_arguments(src_dir: Seq<char>) -> Seq<Seq<char>> {
    seq![
        "clone"@,
        "--depth"@,
        "1"@,
        "https://github.com/NVlabs/cuda-oxide.git"@,
        src_dir,
    ]
}

/// What has happened since the previous step of a fetch.
#[derive(Clone, Copy, Debug, PartialEq, Eq, Structural)]
pub enum FetchEvent {
    /// The cache directory is there.
    CacheDirReady,
    /// It was seen whether the manifest is there.
    ManifestChecked(bool),
    /// The clone was made, or was not.
    Cloned(bool),
    /// The backend was built in the clone.
    Built,
    /// It was seen whether the build left the library.
    LibraryChecked(bool),
    /// The library was copied.
    Copied,
}

/// What a fetch does next.
#[derive(Clone, Copy, Debug, PartialEq, Eq, Structural)]
pub enum FetchStep {
    /// See whether the manifest is there.
    CheckManifest,
    /// Clone the source.
    Clone,
    /// Report that the clone failed, and leave with this exit code.
    GiveUp(i32),
    /// Build the backend's crate.
    Build,
    /// See whether the build left the library.
    CheckLibrary,
    /// Copy the library into the cache.
    Copy,
    /// The library is to be loaded from the cache.
    Done,
}

/// The paths of a fetch below the cache directory, or `None` where that
/// directory is not known: nothing can be fetched then.
pub fn auto_fetch_and_build(cache_dir: Option<&str>) -> (plan: Option<FetchPlan>)
    ensures
        plan is Some <==> cache_dir is Some,
        plan is Some ==> fetch_paths(cache_dir->0@, plan->0),
{
    match cache_dir {
        Some(dir) => Some(plan_fetch(dir)),
        None => None,
    }
}

/// Whether these are the paths of a fetch below the cache directory: where the
/// source is cloned to, where it is built, and where the library is kept.
pub open spec fn fetch_paths(cache_dir: Seq<char>, plan: FetchPlan) -> bool {
    &&& plan.src_dir@ == joined(cache_dir, "src"@)
    &&& plan.manifest@ == joined(plan.src_dir@, "Cargo.toml"@)
    &&& texts(plan.clone_args@) == clone_arguments(plan.src_dir@)
    &&& plan.codegen_crate@ == crate_below(plan.src_dir@)
    &&& plan.built_so@ == built_below(plan.codegen_crate@)
    &&& plan.so_path@ == cached_below(cache_dir)
}

/// The paths of a fetch below the cache directory.
fn plan_fetch(cache_dir: &str) -> (plan: FetchPlan)
    ensures
        fetch_paths(cache_dir@, plan),
{
    let src_dir = join_path(cache_dir, "src");
    let manifest = join_path(src_dir.as_str(), "Cargo.toml");
    let mut clone_args: Vec<String> = Vec::new();
    clone_args.push(String::from_str("clone"));
    clone_args.push(String::from_str("--depth"));
    clone_args.push(String::from_str("1"));
    clone_args.push(String::from_str("https://github.com/NVlabs/cuda-oxide.git"));
    clone_args.push(src_dir.clone());
    assert(texts(clone_args@) =~= clone_arguments(src_dir@));
    let codegen_crate = join_path(src_dir.as_str(), "crates/rustc-codegen-cuda");
    let built_so = join_path(codegen_crate.as_str(), "target/debug/librustc_codegen_cuda.so");
    let so_path = join_path(cache_dir, "librustc_codegen_cuda.so");
    FetchPlan { src_dir, manifest, clone_args, codegen_crate, built_so, so_path }
}

/// What follows an event of a fetch: the source is cloned only where it is
/// not there, and the library is copied only where the build left one.
pub open spec fn fetch_step(event: FetchEvent) -> FetchStep {
    match event {
        FetchEvent::CacheDirReady => FetchStep::CheckManifest,
        FetchEvent::ManifestChecked(there) => if there {
            FetchStep::Build
        } else {
            FetchStep::Clone
        },
        FetchEvent::Cloned(success) => if success {
            FetchStep::Build
        } else {
            FetchStep::GiveUp(1)
        },
        FetchEvent::Built => FetchStep::CheckLibrary,
        FetchEvent::LibraryChecked(there) => if there {
            FetchStep::Copy
        } else {
            FetchStep::Done
        },
        FetchEvent::Copied => FetchStep::Done,
    }
}

/// The next step of a fetch.
pub fn next_fetch_step(event: FetchEvent) -> (step: FetchStep)
    ensures
        step == fetch_step(event),
{
    match event {
        FetchEvent::CacheDirReady => FetchStep::CheckManifest,
        FetchEvent::ManifestChecked(true) => FetchStep::Build,
        FetchEvent::ManifestChecked(false) => FetchStep::Clone,
        FetchEvent::Cloned(true) => FetchStep::Build,
        FetchEvent::Cloned(false) => FetchStep::GiveUp(1),
        FetchEvent::Built => FetchStep::CheckLibrary,
        FetchEvent::LibraryChecked(true) => FetchStep::Copy,
        FetchEvent::LibraryChecked(false) => FetchStep::Done,
        FetchEvent::Copied => FetchStep::Done,
    }
}

/// A cache that is stale is never used, and is emptied before the fetch.
pub proof fn law_stale_cache_is_not_used(root: Seq<char>, facts: BackendFacts, plan: BackendPlan)
    requires
        planned(root, facts, plan),
        facts.cache_stale,
    ensures
        !(plan is Cached),
        plan is Fetch && facts.cache_dir is Some && facts.cache_exists
            ==> plan->invalidate,
{
}

/// The local repository is preferred to the cache, and what the user asks for
/// to both, as long as it exists.
pub proof fn law_backend_priority(root: Seq<char>, facts: BackendFacts, plan: BackendPlan)
    requires
        planned(root, facts, plan),
    ensures
        plan is Override <==> facts.override_path is Some && facts.override_exists,
        !(plan is Override) ==> (plan is Local <==> facts.has_local_crate),
        !(plan is Override) && !(plan is Local) ==> (plan is Cached <==> facts.cache_dir is Some
            && facts.cache_exists && !facts.cache_stale),
{
}

} // verus!
