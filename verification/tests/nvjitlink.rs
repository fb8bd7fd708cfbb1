use std::cell::RefCell;

use cuda_oxide::host::linker::{
    log_text, version, InputType, LinkCompletion, Linker, LogKind, NvJitLinkApi,
};
use cuda_oxide::host::nvjitlink::{
    cuda_roots_from_env, library_candidates, open_library, EntryPoint, LibNvJitLink,
    NvJitLinkError,
};

#[test]
fn cuda_roots_prefers_project_toolkit_env_var() {
    let roots = cuda_roots_from_env(|var| match var {
        "CUDA_TOOLKIT_PATH" => Some("/cuda/toolkit".to_string()),
        "CUDA_HOME" => Some("/cuda/home".to_string()),
        "CUDA_PATH" => Some("/cuda/path".to_string()),
        _ => None,
    });

    assert_eq!(
        roots,
        vec![
            "/cuda/toolkit",
            "/cuda/home",
            "/cuda/path",
            "/usr/local/cuda",
            "/opt/cuda",
        ]
    );
}

#[test]
fn candidates_are_the_override_then_sonames_then_roots() {
    let candidates = library_candidates(|var| match var {
        "LIBNVJITLINK_PATH" => Some("/my/nvjitlink.so".to_string()),
        "CUDA_HOME" => Some("/cuda/".to_string()),
        _ => None,
    });
    assert_eq!(
        candidates,
        vec![
            "/my/nvjitlink.so",
            "libnvJitLink.so.13",
            "libnvJitLink.so.12",
            "libnvJitLink.so",
            "/cuda/lib64/libnvJitLink.so",
            "/usr/local/cuda/lib64/libnvJitLink.so",
            "/opt/cuda/lib64/libnvJitLink.so",
        ]
    );
}

#[test]
fn first_library_that_opens_is_taken() {
    let candidates = vec!["a".to_string(), "b".to_string(), "c".to_string()];
    let mut tried = Vec::new();
    let lib = open_library(
        &candidates,
        |path| if path == "a" { None } else { Some(path.to_string()) },
        &mut tried,
    );
    assert_eq!(lib, Some("b".to_string()));
    assert_eq!(tried, vec!["a", "b"]);

    let mut tried = Vec::new();
    let lib: Option<u8> = open_library(&candidates, |_| None, &mut tried);
    assert_eq!(lib, None);
    assert_eq!(tried, candidates);
}

fn load_with(
    opens: &'static str,
    missing: &'static str,
) -> Result<LibNvJitLink<String, usize>, NvJitLinkError> {
    LibNvJitLink::load(
        |_| None,
        |path| if path == opens { Some(path.to_string()) } else { None },
        |lib: &String, symbol| {
            assert_eq!(lib, opens);
            if symbol == missing {
                Err("undefined symbol".to_string())
            } else {
                Ok(symbol.len())
            }
        },
    )
}

#[test]
fn load_resolves_every_entry_point() {
    let nvj = match load_with("libnvJitLink.so.12", "nothing") {
        Ok(nvj) => nvj,
        Err(error) => panic!("{}", error.message()),
    };
    assert_eq!(nvj.lib, "libnvJitLink.so.12");
    assert_eq!(nvj.entry(EntryPoint::Create), "nvJitLinkCreate".len());
    assert_eq!(nvj.entry(EntryPoint::Destroy), "nvJitLinkDestroy".len());
    assert_eq!(nvj.entry(EntryPoint::AddData), "nvJitLinkAddData".len());
    assert_eq!(nvj.entry(EntryPoint::Complete), "nvJitLinkComplete".len());
    assert_eq!(
        nvj.entry(EntryPoint::GetLinkedCubinSize),
        "nvJitLinkGetLinkedCubinSize".len()
    );
    assert_eq!(nvj.entry(EntryPoint::GetLinkedCubin), "nvJitLinkGetLinkedCubin".len());
    assert_eq!(nvj.entry(EntryPoint::GetErrorLogSize), "nvJitLinkGetErrorLogSize".len());
    assert_eq!(nvj.entry(EntryPoint::GetErrorLog), "nvJitLinkGetErrorLog".len());
    assert_eq!(nvj.entry(EntryPoint::GetInfoLogSize), "nvJitLinkGetInfoLogSize".len());
    assert_eq!(nvj.entry(EntryPoint::GetInfoLog), "nvJitLinkGetInfoLog".len());
    assert_eq!(nvj.version, Some("nvJitLinkVersion".len()));
}

#[test]
fn only_the_version_may_be_missing() {
    match load_with("libnvJitLink.so", "nvJitLinkVersion") {
        Ok(nvj) => assert_eq!(nvj.version, None),
        Err(error) => panic!("{}", error.message()),
    }
    match load_with("libnvJitLink.so", "nvJitLinkComplete") {
        Ok(_) => panic!("a required symbol is missing"),
        Err(error) => assert_eq!(
            error.message(),
            "libnvJitLink.so was found but a required symbol is missing: \
             nvJitLinkComplete: undefined symbol"
        ),
    }
}

#[test]
fn missing_library_lists_what_was_tried() {
    match load_with("nowhere", "nothing") {
        Ok(_) => panic!("nothing can be opened"),
        Err(error) => assert_eq!(
            error.message(),
            "libnvJitLink.so could not be located. Set LIBNVJITLINK_PATH, CUDA_TOOLKIT_PATH, \
             or CUDA_HOME, or install the CUDA Toolkit. Tried:\n  \
             libnvJitLink.so.13\n  libnvJitLink.so.12\n  libnvJitLink.so\n  \
             /usr/local/cuda/lib64/libnvJitLink.so\n  /opt/cuda/lib64/libnvJitLink.so"
        ),
    }
}

/// An nvJitLink with fixed answers that notes its calls.
struct FakeApi {
    version: Option<(i32, u32, u32)>,
    create: (i32, u64),
    add: i32,
    complete: i32,
    size: (i32, usize),
    cubin_status: i32,
    log_size: (i32, usize),
    log: (i32, Vec<u8>),
    calls: RefCell<Vec<String>>,
}

fn fake() -> FakeApi {
    FakeApi {
        version: Some((0, 13, 1)),
        create: (0, 42),
        add: 0,
        complete: 0,
        size: (0, 3),
        cubin_status: 0,
        log_size: (0, 4),
        log: (0, b"why\0".to_vec()),
        calls: RefCell::new(Vec::new()),
    }
}

impl FakeApi {
    fn note(&self, call: String) {
        self.calls.borrow_mut().push(call);
    }
}

impl LinkCompletion for FakeApi {
    type Handle = u64;

    fn complete(&self, handle: &Option<u64>) -> i32 {
        self.note(format!("complete {}", handle.unwrap_or(0)));
        self.complete
    }
}

impl NvJitLinkApi for FakeApi {
    fn version(&self) -> Option<(i32, u32, u32)> {
        self.version
    }

    fn create(&self, options: &Vec<String>) -> (i32, Option<u64>) {
        self.note(format!("create {}", options.join(" ")));
        (self.create.0, Some(self.create.1).filter(|handle| *handle != 0))
    }

    fn destroy(&self, handle: u64) -> i32 {
        self.note(format!("destroy {handle}"));
        9
    }

    fn add_data(&self, handle: &Option<u64>, kind: InputType, data: &[u8], name: &str) -> i32 {
        let handle = handle.unwrap_or(0);
        self.note(format!("add {handle} {} {} {name}", kind.code(), data.len()));
        self.add
    }

    fn linked_cubin_size(&self, _handle: &Option<u64>) -> (i32, usize) {
        self.note("size".to_string());
        self.size
    }

    fn linked_cubin(&self, _handle: &Option<u64>, size: usize) -> (i32, Vec<u8>) {
        self.note(format!("cubin {size}"));
        (self.cubin_status, vec![7; size])
    }

    fn log_size(&self, _handle: &u64, kind: LogKind) -> (i32, usize) {
        self.note(format!("log size {kind:?}"));
        self.log_size
    }

    fn log(&self, _handle: &u64, kind: LogKind, size: usize) -> (i32, Vec<u8>) {
        self.note(format!("log {kind:?} {size}"));
        (self.log.0, self.log.1.clone())
    }
}

fn options() -> Vec<String> {
    vec!["-arch=sm_120".to_string(), "-lto".to_string()]
}

fn new_linker(api: &FakeApi) -> Linker<'_, FakeApi> {
    match Linker::new(api, &options()) {
        Ok(linker) => linker,
        Err(error) => panic!("{}", error.message()),
    }
}

#[test]
fn link_runs_from_create_to_cubin() {
    let api = fake();
    let mut linker = new_linker(&api);
    assert_eq!(linker.handle, Some(42));
    assert!(linker.add(InputType::Ltoir, b"abc", "kernel.ltoir").is_ok());
    let linked = match linker.finish() {
        Ok(linked) => linked,
        Err(error) => panic!("{}", error.message()),
    };
    assert_eq!(linked.cubin, vec![7, 7, 7]);
    assert_eq!(linked.info, Some("why".to_string()));
    assert_eq!(
        api.calls.into_inner(),
        vec![
            "create -arch=sm_120 -lto",
            "add 42 3 3 kernel.ltoir",
            "complete 42",
            "size",
            "cubin 3",
            "log size Info",
            "log Info 4",
            "destroy 42",
        ]
    );
}

#[test]
fn failed_create_has_no_log() {
    let api = FakeApi { create: (2, 0), ..fake() };
    match Linker::new(&api, &options()) {
        Ok(_) => panic!("the linker must not be created"),
        Err(error) => assert_eq!(error.message(), "nvJitLink error in nvJitLinkCreate: 2"),
    }
    assert_eq!(api.calls.into_inner(), vec!["create -arch=sm_120 -lto"]);
}

fn finish_error(api: FakeApi) -> String {
    let linker = new_linker(&api);
    match linker.finish() {
        Ok(_) => panic!("the link must fail"),
        Err(error) => {
            assert_eq!(api.calls.borrow().last(), Some(&"destroy 42".to_string()));
            error.message()
        }
    }
}

#[test]
fn dropped_linker_destroys_its_handle() {
    let api = fake();
    assert_eq!(new_linker(&api).tear_down(), Some(9));
    assert_eq!(api.calls.into_inner(), vec!["create -arch=sm_120 -lto", "destroy 42"]);
}

#[test]
fn failed_calls_carry_the_error_log() {
    assert_eq!(
        finish_error(FakeApi { complete: 6, ..fake() }),
        "nvJitLink error in nvJitLinkComplete: 6\n--- nvJitLink error log ---\nwhy"
    );
    assert_eq!(
        finish_error(FakeApi { size: (3, 0), ..fake() }),
        "nvJitLink error in nvJitLinkGetLinkedCubinSize: 3\n--- nvJitLink error log ---\nwhy"
    );
    assert_eq!(
        finish_error(FakeApi { cubin_status: 10, ..fake() }),
        "nvJitLink error in nvJitLinkGetLinkedCubin: 10\n--- nvJitLink error log ---\nwhy"
    );
    let api = FakeApi { add: -4, ..fake() };
    match new_linker(&api).add(InputType::Ptx, b"", "k") {
        Ok(_) => panic!("the input must be refused"),
        Err(error) => assert_eq!(
            error.message(),
            "nvJitLink error in nvJitLinkAddData: -4\n--- nvJitLink error log ---\nwhy"
        ),
    }
}

#[test]
fn logs_are_best_effort() {
    let api = FakeApi { log_size: (0, 1), ..fake() };
    assert_eq!(new_linker(&api).try_error_log(), None);
    let api = FakeApi { log_size: (1, 4), ..fake() };
    assert_eq!(new_linker(&api).try_info_log(), None);
    let api = FakeApi { log: (1, b"why\0".to_vec()), ..fake() };
    assert_eq!(new_linker(&api).try_info_log(), None);
    let api = FakeApi { create: (0, 0), ..fake() };
    let null = new_linker(&api);
    assert_eq!(null.try_error_log(), None);
    assert_eq!(null.tear_down(), None);
}

#[test]
fn log_text_drops_one_terminator() {
    assert_eq!(log_text(b"text\0".to_vec()), "text");
    assert_eq!(log_text(b"text\0\0".to_vec()), "text\0");
    assert_eq!(log_text(b"text".to_vec()), "text");
    assert_eq!(log_text(vec![]), "");
    assert_eq!(log_text("h\u{e9}".as_bytes().to_vec()), "h\u{e9}");
    assert_eq!(log_text(vec![0x68, 0xe9, 0]), "h\u{fffd}");
}

#[test]
fn version_needs_the_call_and_its_success() {
    assert_eq!(version(&fake()), Some((13, 1)));
    assert_eq!(version(&FakeApi { version: None, ..fake() }), None);
    assert_eq!(version(&FakeApi { version: Some((1, 13, 1)), ..fake() }), None);
}

#[test]
fn input_kinds_have_their_codes() {
    let kinds = [
        (InputType::NoInput, 0),
        (InputType::Cubin, 1),
        (InputType::Ptx, 2),
        (InputType::Ltoir, 3),
        (InputType::Fatbin, 4),
        (InputType::Object, 5),
        (InputType::Library, 6),
        (InputType::Index, 7),
        (InputType::Any, 10),
    ];
    for (kind, code) in kinds {
        assert_eq!(kind.code(), code);
    }
}
