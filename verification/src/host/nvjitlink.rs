//! Finding and driving nvJitLink, the CUDA Toolkit's device linker.
//!
//! What touches the library itself is handed in as a function: opening a
//! file, looking up a symbol, calling an entry point.

use vstd::prelude::*;

use crate::host::path::{join_path, joined};
use crate::text::{join_texts, push_signed, separated, signed_decimal, texts};

verus! {

/// The value of an environment variable, as a list of at most one path.
pub open spec fn env_root(value: Option<String>) -> Seq<Seq<char>> {
    match value {
        Some(path) => seq![path@],
        None => Seq::empty(),
    }
}

/// The toolkit directories to search, given the values of the three
/// environment variables that name one.
pub open spec fn root_list(
    toolkit: Option<String>,
    home: Option<String>,
    path: Option<String>,
) -> Seq<Seq<char>> {
    env_root(toolkit) + env_root(home) + env_root(path) + seq!["/usr/local/cuda"@, "/opt/cuda"@]
}

/// The toolkit directories to search, in order: those that the environment
/// names, then the default install locations.
pub fn cuda_roots_from_env(get_env: impl Fn(&str) -> Option<String>) -> (roots: Vec<String>)
    requires
        forall|var: &str| call_requires(get_env, (var,)),
    ensures
        exists|toolkit: Option<String>, home: Option<String>, path: Option<String>|
            {
                &&& #[trigger] call_ensures(get_env, ("CUDA_TOOLKIT_PATH",), toolkit)
                &&& #[trigger] call_ensures(get_env, ("CUDA_HOME",), home)
                &&& #[trigger] call_ensures(get_env, ("CUDA_PATH",), path)
                &&& texts(roots@) == root_list(toolkit, home, path)
            },
{
    let mut roots: Vec<String> = Vec::new();
    let toolkit = get_env("CUDA_TOOLKIT_PATH");
    let home = get_env("CUDA_HOME");
    let path = get_env("CUDA_PATH");
    let ghost (t, h, p) = (toolkit, home, path);
    if let Some(root) = toolkit {
        roots.push(root);
    }
    assert(texts(roots@) =~= env_root(t));
    if let Some(root) = home {
        roots.push(root);
    }
    assert(texts(roots@) =~= env_root(t) + env_root(h));
    if let Some(root) = path {
        roots.push(root);
    }
    assert(texts(roots@) =~= env_root(t) + env_root(h) + env_root(p));
    roots.push(String::from_str("/usr/local/cuda"));
    roots.push(String::from_str("/opt/cuda"));
    assert(texts(roots@) =~= root_list(t, h, p));
    roots
}

/// The sonames to try, newest first.
pub open spec fn sonames() -> Seq<Seq<char>> {
    seq!["libnvJitLink.so.13"@, "libnvJitLink.so.12"@, "libnvJitLink.so"@]
}

/// The library below each toolkit directory.
pub open spec fn below_roots(roots: Seq<Seq<char>>) -> Seq<Seq<char>> {
    Seq::new(roots.len(), |i: int| joined(roots[i], "lib64/libnvJitLink.so"@))
}

/// What to open, in order: the path that the environment gives, the sonames,
/// then the library below each toolkit directory.
pub open spec fn candidate_list(explicit: Option<String>, roots: Seq<Seq<char>>) -> Seq<
    Seq<char>,
> {
    env_root(explicit) + sonames() + below_roots(roots)
}

/// What to open, in order.
pub fn library_candidates(get_env: impl Fn(&str) -> Option<String>) -> (candidates: Vec<String>)
    requires
        forall|var: &str| call_requires(get_env, (var,)),
    ensures
        exists|
            explicit: Option<String>,
            toolkit: Option<String>,
            home: Option<String>,
            path: Option<String>,
        |
            {
                &&& #[trigger] call_ensures(get_env, ("LIBNVJITLINK_PATH",), explicit)
                &&& #[trigger] call_ensures(get_env, ("CUDA_TOOLKIT_PATH",), toolkit)
                &&& #[trigger] call_ensures(get_env, ("CUDA_HOME",), home)
                &&& #[trigger] call_ensures(get_env, ("CUDA_PATH",), path)
                &&& texts(candidates@) == candidate_list(explicit, root_list(toolkit, home, path))
            },
{
    let mut candidates: Vec<String> = Vec::new();
    let explicit = get_env("LIBNVJITLINK_PATH");
    let ghost e = explicit;
    if let Some(path) = explicit {
        candidates.push(path);
    }
    assert(texts(candidates@) =~= env_root(e));
    candidates.push(String::from_str("libnvJitLink.so.13"));
    candidates.push(String::from_str("libnvJitLink.so.12"));
    candidates.push(String::from_str("libnvJitLink.so"));
    let ghost base = texts(candidates@);
    assert(base =~= env_root(e) + sonames());
    let roots = cuda_roots_from_env(get_env);
    let ghost below = below_roots(texts(roots@));
    let mut i: usize = 0;
    assert(texts(candidates@) =~= base + below.take(0));
    while i < roots.len()
        invariant
            i <= roots.len(),
            below == below_roots(texts(roots@)),
            texts(candidates@) == base + below.take(i as int),
        decreases roots.len() - i,
    {
        let ghost before = texts(candidates@);
        let path = join_path(roots[i].as_str(), "lib64/libnvJitLink.so");
        candidates.push(path);
        assert(texts(candidates@) =~= before.push(path@));
        assert(below.take(i + 1) =~= below.take(i as int).push(below[i as int]));
        i = i + 1;
        assert(texts(candidates@) =~= base + below.take(i as int));
    }
    assert(below.take(below.len() as int) =~= below);
    candidates
}

/// Whether `answer` can come of opening the library with this name.
pub open spec fn opens<L, O: Fn(&str) -> Option<L>>(
    open: O,
    name: Seq<char>,
    answer: Option<L>,
) -> bool {
    exists|path: &str| path@ == name && #[trigger] call_ensures(open, (path,), answer)
}

/// Whether each of the libraries can be answered not to open.
pub open spec fn none_opens<L, O: Fn(&str) -> Option<L>>(open: O, names: Seq<Seq<char>>) -> bool {
    forall|j: int| 0 <= j < names.len() ==> #[trigger] opens(open, names[j], None::<L>)
}

/// Opens the first of the candidates that can be opened. Each one that is
/// tried is added to `tried`.
pub fn open_library<L, O: Fn(&str) -> Option<L>>(
    candidates: &Vec<String>,
    open: O,
    tried: &mut Vec<String>,
) -> (lib: Option<L>)
    requires
        forall|path: &str| call_requires(open, (path,)),
    ensures
        match lib {
            Some(_) => exists|k: int|
                {
                    &&& 0 <= k < candidates@.len()
                    &&& #[trigger] opens(open, texts(candidates@)[k], lib)
                    &&& forall|j: int|
                        0 <= j < k ==> #[trigger] opens(
                            open,
                            texts(candidates@)[j],
                            None::<L>,
                        )
                    &&& texts(final(tried)@) == texts(old(tried)@) + texts(candidates@).take(k + 1)
                },
            None => {
                &&& none_opens::<L, O>(open, texts(candidates@))
                &&& texts(final(tried)@) == texts(old(tried)@) + texts(candidates@)
            },
        },
{
    let ghost before = texts(tried@);
    let ghost names = texts(candidates@);
    let mut i: usize = 0;
    assert(texts(tried@) =~= before + names.take(0));
    while i < candidates.len()
        invariant
            i <= candidates.len(),
            names == texts(candidates@),
            before == texts(old(tried)@),
            forall|path: &str| call_requires(open, (path,)),
            forall|j: int| 0 <= j < i ==> #[trigger] opens(open, names[j], None::<L>),
            texts(tried@) == before + names.take(i as int),
        decreases candidates.len() - i,
    {
        let ghost so_far = texts(tried@);
        let name = candidates[i].clone();
        let lib = open(name.as_str());
        tried.push(name);
        proof {
            assert(texts(tried@) =~= so_far.push(names[i as int]));
            assert(names.take(i + 1) =~= names.take(i as int).push(names[i as int]));
            assert(texts(tried@) =~= before + names.take(i + 1));
            assert(opens(open, names[i as int], lib));
        }
        if lib.is_some() {
            return lib;
        }
        i = i + 1;
    }
    assert(names.take(names.len() as int) =~= names);
    None
}

/// The functions of nvJitLink that every supported version has.
#[derive(Clone, Copy, Debug, PartialEq, Eq, Structural)]
pub enum EntryPoint {
    Create,
    Destroy,
    AddData,
    Complete,
    GetLinkedCubinSize,
    GetLinkedCubin,
    GetErrorLogSize,
    GetErrorLog,
    GetInfoLogSize,
    GetInfoLog,
}

/// How many functions are required.
pub const ENTRY_POINTS: usize = 10;

/// The names of the required functions, in the order in which they are
/// resolved.
pub open spec fn entry_names() -> Seq<Seq<char>> {
    seq![
        "nvJitLinkCreate"@,
        "nvJitLinkDestroy"@,
        "nvJitLinkAddData"@,
        "nvJitLinkComplete"@,
        "nvJitLinkGetLinkedCubinSize"@,
        "nvJitLinkGetLinkedCubin"@,
        "nvJitLinkGetErrorLogSize"@,
        "nvJitLinkGetErrorLog"@,
        "nvJitLinkGetInfoLogSize"@,
        "nvJitLinkGetInfoLog"@,
    ]
}

/// The name of the required function at position `i`.
fn entry_name(i: usize) -> (name: &'static str)
    requires
        i < ENTRY_POINTS,
    ensures
        name@ == entry_names()[i as int],
{
    match i {
        0 => "nvJitLinkCreate",
        1 => "nvJitLinkDestroy",
        2 => "nvJitLinkAddData",
        3 => "nvJitLinkComplete",
        4 => "nvJitLinkGetLinkedCubinSize",
        5 => "nvJitLinkGetLinkedCubin",
        6 => "nvJitLinkGetErrorLogSize",
        7 => "nvJitLinkGetErrorLog",
        8 => "nvJitLinkGetInfoLogSize",
        _ => "nvJitLinkGetInfoLog",
    }
}

impl EntryPoint {
    /// The position of the function in the order of resolution.
    pub open spec fn position(self) -> int {
        match self {
            EntryPoint::Create => 0,
            EntryPoint::Destroy => 1,
            EntryPoint::AddData => 2,
            EntryPoint::Complete => 3,
            EntryPoint::GetLinkedCubinSize => 4,
            EntryPoint::GetLinkedCubin => 5,
            EntryPoint::GetErrorLogSize => 6,
            EntryPoint::GetErrorLog => 7,
            EntryPoint::GetInfoLogSize => 8,
            EntryPoint::GetInfoLog => 9,
        }
    }
}

/// All errors of finding and driving nvJitLink.
#[derive(Debug)]
pub enum NvJitLinkError {
    /// The library could not be located. `tried` lists every path or soname
    /// that was probed, in order.
    LibraryNotFound { tried: String },
    /// The library was loaded, but lacks a function.
    SymbolNotFound {
        /// Name of the missing function.
        symbol: String,
        /// What the lookup said.
        source: String,
    },
    /// A call did not succeed.
    Call {
        /// Name of the function that failed.
        operation: String,
        /// Raw result code.
        code: i32,
        /// Error log, if available.
        log: Option<String>,
    },
}

/// How an error reads.
pub open spec fn error_text(error: NvJitLinkError) -> Seq<char> {
    match error {
        NvJitLinkError::LibraryNotFound { tried } =>
            "libnvJitLink.so could not be located. Set LIBNVJITLINK_PATH, CUDA_TOOLKIT_PATH, or CUDA_HOME, or install the CUDA Toolkit. Tried:\n  "@
                + tried@,
        NvJitLinkError::SymbolNotFound { symbol, source } =>
            "libnvJitLink.so was found but a required symbol is missing: "@ + symbol@ + ": "@
                + source@,
        NvJitLinkError::Call { operation, code, log } => "nvJitLink error in "@ + operation@ + ": "@
            + signed_decimal(code as int) + (match log {
            Some(text) => "\n--- nvJitLink error log ---\n"@ + text@,
            None => Seq::empty(),
        }),
    }
}

impl NvJitLinkError {
    /// The text shown for this error.
    pub fn message(&self) -> (text: String)
        ensures
            text@ == error_text(*self),
    {
        match self {
            NvJitLinkError::LibraryNotFound { tried } => {
                let mut text = String::from_str(
                    "libnvJitLink.so could not be located. Set LIBNVJITLINK_PATH, CUDA_TOOLKIT_PATH, or CUDA_HOME, or install the CUDA Toolkit. Tried:\n  ",
                );
                text.append(tried.as_str());
                text
            },
            NvJitLinkError::SymbolNotFound { symbol, source } => {
                let mut text = String::from_str(
                    "libnvJitLink.so was found but a required symbol is missing: ",
                );
                text.append(symbol.as_str());
                text.append(": ");
                text.append(source.as_str());
                text
            },
            NvJitLinkError::Call { operation, code, log } => {
                let mut text = String::from_str("nvJitLink error in ");
                text.append(operation.as_str());
                text.append(": ");
                push_signed(&mut text, *code);
                match log {
                    Some(lines) => {
                        let ghost head = text@;
                        text.append("\n--- nvJitLink error log ---\n");
                        text.append(lines.as_str());
                        assert(text@ =~= head + ("\n--- nvJitLink error log ---\n"@ + lines@));
                    },
                    None => {
                        assert(text@ =~= text@ + Seq::<char>::empty());
                    },
                }
                text
            },
        }
    }
}

/// A loaded nvJitLink: the library `L` and the addresses `A` of its functions.
pub struct LibNvJitLink<L, A> {
    /// The open library; closing it invalidates the addresses.
    pub lib: L,
    /// The addresses of the required functions, in order of resolution.
    pub entries: Vec<A>,
    /// The address of `nvJitLinkVersion`, which older versions lack.
    pub version: Option<A>,
}

/// Whether `answer` can come of looking up the function with this name.
pub open spec fn looks_up<L, A, S: Fn(&L, &str) -> Result<A, String>>(
    lookup: S,
    lib: L,
    name: Seq<char>,
    answer: Result<A, String>,
) -> bool {
    exists|symbol: &str| symbol@ == name && #[trigger] call_ensures(lookup, (&lib, symbol), answer)
}

/// Whether the lookups can have found these functions, and then fail with
/// `source` for the next one.
pub open spec fn missing_after<L, A, S: Fn(&L, &str) -> Result<A, String>>(
    lookup: S,
    lib: L,
    found: Seq<A>,
    source: String,
) -> bool {
    &&& found.len() < ENTRY_POINTS
    &&& forall|i: int|
        0 <= i < found.len() ==> looks_up(
            lookup,
            lib,
            entry_names()[i],
            Ok::<A, String>(#[trigger] found[i]),
        )
    &&& looks_up(lookup, lib, entry_names()[found.len() as int], Err::<A, String>(source))
}

/// Whether `r` can come of resolving every function in `lib`: all of the
/// required ones, or the error of the first one that is missing.
pub open spec fn resolves<L, A, S: Fn(&L, &str) -> Result<A, String>>(
    lookup: S,
    lib: L,
    r: Result<LibNvJitLink<L, A>, NvJitLinkError>,
) -> bool {
    match r {
        Ok(nvj) => {
            &&& nvj.lib == lib
            &&& nvj.entries@.len() == ENTRY_POINTS
            &&& forall|i: int|
                0 <= i < ENTRY_POINTS ==> looks_up(
                    lookup,
                    lib,
                    entry_names()[i],
                    Ok::<A, String>(#[trigger] nvj.entries@[i]),
                )
            &&& exists|answer: Result<A, String>|
                #[trigger] looks_up(lookup, lib, "nvJitLinkVersion"@, answer) && nvj.version == (
                match answer {
                    Ok(address) => Some(address),
                    Err(_) => None,
                })
        },
        Err(NvJitLinkError::SymbolNotFound { symbol, source }) => exists|found: Seq<A>|
            #[trigger] missing_after(lookup, lib, found, source) && symbol@
                == entry_names()[found.len() as int],
        Err(_) => false,
    }
}

impl<L, A: Copy> LibNvJitLink<L, A> {
    /// Resolves every function that is used.
    pub fn resolve<S: Fn(&L, &str) -> Result<A, String>>(lib: L, lookup: S) -> (r: Result<
        Self,
        NvJitLinkError,
    >)
        requires
            forall|symbol: &str| call_requires(lookup, (&lib, symbol)),
        ensures
            resolves(lookup, lib, r),
    {
        let mut entries: Vec<A> = Vec::new();
        while entries.len() < ENTRY_POINTS
            invariant
                entries.len() <= ENTRY_POINTS,
                forall|symbol: &str| call_requires(lookup, (&lib, symbol)),
                forall|i: int|
                    0 <= i < entries@.len() ==> looks_up(
                        lookup,
                        lib,
                        entry_names()[i],
                        Ok::<A, String>(#[trigger] entries@[i]),
                    ),
            decreases ENTRY_POINTS - entries.len(),
        {
            let name = entry_name(entries.len());
            let answer = lookup(&lib, name);
            assert(looks_up(lookup, lib, entry_names()[entries@.len() as int], answer));
            match answer {
                Ok(address) => entries.push(address),
                Err(source) => {
                    let error = NvJitLinkError::SymbolNotFound {
                        symbol: String::from_str(name),
                        source,
                    };
                    assert(missing_after(lookup, lib, entries@, error->source));
                    return Err(error);
                },
            }
        }
        let answer = lookup(&lib, "nvJitLinkVersion");
        assert(looks_up(lookup, lib, "nvJitLinkVersion"@, answer));
        let version = match answer {
            Ok(address) => Some(address),
            Err(_) => None,
        };
        Ok(LibNvJitLink { lib, entries, version })
    }

    /// Locates and opens the library, then resolves every function that is
    /// used.
    pub fn load<
        E: Fn(&str) -> Option<String>,
        O: Fn(&str) -> Option<L>,
        S: Fn(&L, &str) -> Result<A, String>,
    >(get_env: E, open: O, lookup: S) -> (r: Result<Self, NvJitLinkError>)
        requires
            forall|var: &str| call_requires(get_env, (var,)),
            forall|path: &str| call_requires(open, (path,)),
            forall|lib: &L, symbol: &str| call_requires(lookup, (lib, symbol)),
        ensures
            exists|
                explicit: Option<String>,
                toolkit: Option<String>,
                home: Option<String>,
                path: Option<String>,
            |
                {
                    let names = candidate_list(explicit, root_list(toolkit, home, path));
                    &&& #[trigger] call_ensures(get_env, ("LIBNVJITLINK_PATH",), explicit)
                    &&& #[trigger] call_ensures(get_env, ("CUDA_TOOLKIT_PATH",), toolkit)
                    &&& #[trigger] call_ensures(get_env, ("CUDA_HOME",), home)
                    &&& #[trigger] call_ensures(get_env, ("CUDA_PATH",), path)
                    &&& loads(names, open, lookup, r)
                },
    {
        let candidates = library_candidates(get_env);
        let mut tried: Vec<String> = Vec::new();
        let opened = open_library(&candidates, open, &mut tried);
        match opened {
            Some(lib) => Self::resolve(lib, lookup),
            None => {
                assert(texts(tried@) =~= texts(candidates@));
                Err(NvJitLinkError::LibraryNotFound { tried: join_texts(&tried, "\n  ") })
            },
        }
    }

    /// The address of a required function.
    pub fn entry(&self, point: EntryPoint) -> (address: A)
        requires
            self.entries@.len() == ENTRY_POINTS,
        ensures
            address == self.entries@[point.position()],
    {
        match point {
            EntryPoint::Create => self.entries[0],
            EntryPoint::Destroy => self.entries[1],
            EntryPoint::AddData => self.entries[2],
            EntryPoint::Complete => self.entries[3],
            EntryPoint::GetLinkedCubinSize => self.entries[4],
            EntryPoint::GetLinkedCubin => self.entries[5],
            EntryPoint::GetErrorLogSize => self.entries[6],
            EntryPoint::GetErrorLog => self.entries[7],
            EntryPoint::GetInfoLogSize => self.entries[8],
            EntryPoint::GetInfoLog => self.entries[9],
        }
    }
}

/// Whether `r` can come of loading the first of the named libraries that can
/// be opened.
pub open spec fn loads<
    L,
    A,
    O: Fn(&str) -> Option<L>,
    S: Fn(&L, &str) -> Result<A, String>,
>(
    names: Seq<Seq<char>>,
    open: O,
    lookup: S,
    r: Result<LibNvJitLink<L, A>, NvJitLinkError>,
) -> bool {
    ||| exists|k: int, lib: L|
        {
            &&& 0 <= k < names.len()
            &&& #[trigger] opens(open, names[k], Some(lib))
            &&& forall|j: int| 0 <= j < k ==> #[trigger] opens(open, names[j], None::<L>)
            &&& resolves(lookup, lib, r)
        }
    ||| {
        &&& forall|j: int|
            0 <= j < names.len() ==> #[trigger] opens(open, names[j], None::<L>)
        &&& r matches Err(NvJitLinkError::LibraryNotFound { tried }) && tried@ == separated(
            names,
            "\n  "@,
        )
    }
}

} // verus!
