use cuda_oxide::host::backend::{
    auto_fetch_and_build, backend_so_candidate, build_backend_from_source, build_environment,
    build_ld_library_path, cache_directory, cached_backend_is_stale, dirs_path,
    find_or_build_backend, find_workspace_root, get_rustc_sysroot, invalidate_cache,
    next_fetch_step, plan_backend, BackendFacts, BackendPlan, BuildOutcome, FetchEvent,
    FetchStep,
};

/// A point in time, in nanoseconds since the epoch.
const NOW: i128 = 1_750_000_000_000_000_000;

/// One year, in nanoseconds.
const YEAR: i128 = 365 * 24 * 60 * 60 * 1_000_000_000;

/// A cached library whose time predates the running binary is stale.
#[test]
fn stale_when_cache_predates_running_binary() {
    assert!(
        cached_backend_is_stale(Some(NOW), Some(NOW - YEAR)),
        "cache backdated by 1y must be reported stale"
    );
}

/// A cached library written after the running binary is fresh and must not be
/// reported stale, otherwise the cache would be thrashed on every invocation.
#[test]
fn fresh_when_cache_postdates_running_binary() {
    assert!(
        !cached_backend_is_stale(Some(NOW), Some(NOW + YEAR)),
        "cache postdating the test binary must be reported fresh"
    );
}

/// Missing cache file: not stale. This keeps the decision conservative on
/// failures to read a time.
#[test]
fn not_stale_when_cache_file_missing() {
    assert!(!cached_backend_is_stale(Some(NOW), None));
}

#[test]
fn not_stale_without_the_time_of_the_binary_or_at_the_same_time() {
    assert!(!cached_backend_is_stale(None, Some(NOW)));
    assert!(!cached_backend_is_stale(None, None));
    assert!(!cached_backend_is_stale(Some(NOW), Some(NOW)));
}

#[test]
fn workspace_root_is_the_nearest_ancestor_with_both_marks() {
    let is_dir = |path: &str| {
        path == "/a/crates/rustc-codegen-cuda" || path == "/a/b/crates/rustc-codegen-cuda"
    };
    let is_file = |path: &str| path == "/a/Cargo.toml";
    assert_eq!(
        find_workspace_root(Some("/a/b/c".to_string()), is_dir, is_file),
        Some("/a".to_string())
    );
    assert_eq!(find_workspace_root(Some("/x/y".to_string()), is_dir, is_file), None);
    assert_eq!(find_workspace_root(None, is_dir, is_file), None);
}

#[test]
fn workspace_root_can_be_the_file_system_root() {
    let root = find_workspace_root(
        Some("/a".to_string()),
        |path| path == "/crates/rustc-codegen-cuda",
        |path| path == "/Cargo.toml",
    );
    assert_eq!(root, Some("/".to_string()));
}

#[test]
fn cache_lives_below_cargo_home() {
    let cargo = Some("/cargo".to_string());
    let home = Some("/home/u/".to_string());
    assert_eq!(dirs_path(cargo.clone(), home.clone()), Some("/cargo".to_string()));
    assert_eq!(dirs_path(None, home.clone()), Some("/home/u/.cargo".to_string()));
    assert_eq!(dirs_path(None, None), None);
    assert_eq!(cache_directory(cargo, None), Some("/cargo/cuda-oxide".to_string()));
    assert_eq!(cache_directory(None, home), Some("/home/u/.cargo/cuda-oxide".to_string()));
    assert_eq!(cache_directory(None, None), None);
}

fn facts() -> BackendFacts {
    BackendFacts {
        override_path: None,
        override_exists: false,
        has_local_crate: false,
        cache_dir: Some("/cache".to_string()),
        cache_exists: true,
        cache_stale: false,
    }
}

#[test]
fn backend_sources_are_tried_in_order() {
    let plan = plan_backend(
        "/ws",
        BackendFacts {
            override_path: Some("/my.so".to_string()),
            override_exists: true,
            has_local_crate: true,
            ..facts()
        },
    );
    assert!(matches!(plan, BackendPlan::Override { path } if path == "/my.so"));

    let plan = plan_backend("/ws", BackendFacts { has_local_crate: true, ..facts() });
    match plan {
        BackendPlan::Local { codegen_crate, so_path } => {
            assert_eq!(codegen_crate, "/ws/crates/rustc-codegen-cuda");
            assert_eq!(
                so_path,
                "/ws/crates/rustc-codegen-cuda/target/debug/librustc_codegen_cuda.so"
            );
        }
        _ => panic!("the local repository comes before the cache"),
    }

    let plan = plan_backend("/ws", facts());
    assert!(matches!(
        plan,
        BackendPlan::Cached { so_path } if so_path == "/cache/librustc_codegen_cuda.so"
    ));

    let plan = plan_backend("/ws", BackendFacts { cache_exists: false, ..facts() });
    assert!(matches!(
        plan,
        BackendPlan::Fetch { cache_dir: Some(_), invalidate: false }
    ));

    let plan = plan_backend("/ws", BackendFacts { cache_dir: None, ..facts() });
    assert!(matches!(plan, BackendPlan::Fetch { cache_dir: None, invalidate: false }));
}

#[test]
fn stale_cache_is_emptied_before_the_fetch() {
    let plan = plan_backend("/ws", BackendFacts { cache_stale: true, ..facts() });
    assert!(matches!(
        plan,
        BackendPlan::Fetch { cache_dir: Some(_), invalidate: true }
    ));
    assert_eq!(
        invalidate_cache("/cache"),
        ("/cache/librustc_codegen_cuda.so".to_string(), "/cache/src".to_string())
    );
}

#[test]
fn missing_override_is_reported_and_passed_over() {
    let env = |var: &str| match var {
        "CUDA_OXIDE_BACKEND" => Some("/gone.so".to_string()),
        "CARGO_HOME" => Some("/cargo".to_string()),
        _ => None,
    };
    let (plan, missing) = find_or_build_backend(
        "/ws",
        env,
        |path| path == "/cargo/cuda-oxide/librustc_codegen_cuda.so",
        |_| false,
        |_| false,
    );
    assert_eq!(missing, Some("/gone.so".to_string()));
    assert!(matches!(
        plan,
        BackendPlan::Cached { so_path }
            if so_path == "/cargo/cuda-oxide/librustc_codegen_cuda.so"
    ));

    let (plan, missing) =
        find_or_build_backend("/ws", env, |path| path == "/gone.so", |_| true, |_| false);
    assert_eq!(missing, None);
    assert!(matches!(plan, BackendPlan::Override { path } if path == "/gone.so"));

    let (plan, _) = find_or_build_backend("/ws", env, |_| false, |path| {
        path == "/ws/crates/rustc-codegen-cuda"
    }, |_| false);
    assert!(matches!(plan, BackendPlan::Local { .. }));

    let (plan, _) = find_or_build_backend(
        "/ws",
        |var| if var == "HOME" { Some("/h".to_string()) } else { None },
        |_| true,
        |_| false,
        |path| path == "/h/.cargo/cuda-oxide/librustc_codegen_cuda.so",
    );
    assert!(matches!(
        plan,
        BackendPlan::Fetch { cache_dir: Some(dir), invalidate: true }
            if dir == "/h/.cargo/cuda-oxide"
    ));
}

#[test]
fn candidate_never_depends_on_the_library_being_there() {
    let asked = backend_so_candidate("/ws", Some("/gone.so".to_string()), |_| true, None, None);
    assert_eq!(asked, "/gone.so");
    let local = backend_so_candidate("/ws", None, |_| true, None, None);
    assert_eq!(local, "/ws/crates/rustc-codegen-cuda/target/debug/librustc_codegen_cuda.so");
    let cached = backend_so_candidate("/ws", None, |_| false, None, Some("/h".to_string()));
    assert_eq!(cached, "/h/.cargo/cuda-oxide/librustc_codegen_cuda.so");
    let bare = backend_so_candidate("/ws", None, |_| false, None, None);
    assert_eq!(bare, "librustc_codegen_cuda.so");
}

#[test]
fn sysroot_is_the_trimmed_output() {
    let printed = " \t/rust/toolchain\u{2003}\r\n".as_bytes().to_vec();
    assert_eq!(get_rustc_sysroot(Some((true, printed.clone()))), Some("/rust/toolchain".to_string()));
    assert_eq!(get_rustc_sysroot(Some((false, printed))), None);
    assert_eq!(get_rustc_sysroot(None), None);
    // Bytes that are not UTF-8 are replaced.
    assert_eq!(
        get_rustc_sysroot(Some((true, vec![b'a', 0xff, b'\n']))),
        Some("a\u{fffd}".to_string())
    );
    assert_eq!(get_rustc_sysroot(Some((true, vec![b' ', b'\n']))), Some(String::new()));
}

#[test]
fn library_path_keeps_what_is_there() {
    assert_eq!(build_ld_library_path(&Some("/old".to_string()), "/s/lib"), "/old:/s/lib");
    assert_eq!(build_ld_library_path(&None, "/s/lib"), "/s/lib");
    assert_eq!(build_ld_library_path(&Some(String::new()), "/s/lib"), ":/s/lib");
    assert_eq!(
        build_environment(&Some("/s".to_string()), &Some("/old".to_string())),
        vec![
            ("LIBRARY_PATH".to_string(), "/s/lib".to_string()),
            ("LD_LIBRARY_PATH".to_string(), "/old:/s/lib".to_string()),
        ]
    );
    assert!(build_environment(&None, &Some("/old".to_string())).is_empty());
}

#[test]
fn build_outcome_keeps_the_exit_code() {
    assert_eq!(build_backend_from_source(false, Some(101), true), BuildOutcome::Failed(101));
    assert_eq!(build_backend_from_source(false, None, false), BuildOutcome::Failed(1));
    assert_eq!(build_backend_from_source(true, Some(0), true), BuildOutcome::Built);
    assert_eq!(build_backend_from_source(true, Some(0), false), BuildOutcome::Missing);
}

#[test]
fn fetch_clones_into_the_cache() {
    let plan = auto_fetch_and_build(Some("/cache")).unwrap();
    assert_eq!(plan.src_dir, "/cache/src");
    assert_eq!(plan.manifest, "/cache/src/Cargo.toml");
    assert_eq!(
        plan.clone_args,
        vec![
            "clone",
            "--depth",
            "1",
            "https://github.com/NVlabs/cuda-oxide.git",
            "/cache/src",
        ]
    );
    assert_eq!(plan.codegen_crate, "/cache/src/crates/rustc-codegen-cuda");
    assert_eq!(
        plan.built_so,
        "/cache/src/crates/rustc-codegen-cuda/target/debug/librustc_codegen_cuda.so"
    );
    assert_eq!(plan.so_path, "/cache/librustc_codegen_cuda.so");
    assert!(auto_fetch_and_build(None).is_none());
}

#[test]
fn fetch_steps_follow_their_events() {
    assert_eq!(next_fetch_step(FetchEvent::CacheDirReady), FetchStep::CheckManifest);
    assert_eq!(next_fetch_step(FetchEvent::ManifestChecked(true)), FetchStep::Build);
    assert_eq!(next_fetch_step(FetchEvent::ManifestChecked(false)), FetchStep::Clone);
    assert_eq!(next_fetch_step(FetchEvent::Cloned(true)), FetchStep::Build);
    assert_eq!(next_fetch_step(FetchEvent::Cloned(false)), FetchStep::GiveUp(1));
    assert_eq!(next_fetch_step(FetchEvent::Built), FetchStep::CheckLibrary);
    assert_eq!(next_fetch_step(FetchEvent::LibraryChecked(true)), FetchStep::Copy);
    assert_eq!(next_fetch_step(FetchEvent::LibraryChecked(false)), FetchStep::Done);
    assert_eq!(next_fetch_step(FetchEvent::Copied), FetchStep::Done);
}
