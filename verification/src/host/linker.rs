//! Driving a link with nvJitLink: create a linker, add inputs, finish.

use vstd::prelude::*;
use vstd::utf8::{decode_utf8, valid_utf8};

use crate::driver::module::without_nul;
use crate::host::nvjitlink::NvJitLinkError;
use crate::text::{from_utf8_lossy, lossy_text};

verus! {

/// The result code of a call that succeeded.
pub const NVJITLINK_SUCCESS: i32 = 0;

/// How nvJitLink is to interpret a chunk of input bytes.
#[derive(Clone, Copy, Debug, PartialEq, Eq, Structural)]
pub enum InputType {
    /// Sentinel "no input" value. Not a valid input.
    NoInput,
    /// CUDA binary (cubin).
    Cubin,
    /// PTX assembly.
    Ptx,
    /// LTOIR, the output of a libNVVM compilation for link-time optimization.
    Ltoir,
    /// CUDA fat binary.
    Fatbin,
    /// Host object file.
    Object,
    /// Host library archive.
    Library,
    /// Index file (used with sliced fatbins).
    Index,
    /// Auto-detect the kind from the bytes.
    Any,
}

impl InputType {
    /// The number that stands for the kind in calls of nvJitLink.
    pub fn code(self) -> (code: i32)
        ensures
            code == (match self {
                InputType::NoInput => 0i32,
                InputType::Cubin => 1,
                InputType::Ptx => 2,
                InputType::Ltoir => 3,
                InputType::Fatbin => 4,
                InputType::Object => 5,
                InputType::Library => 6,
                InputType::Index => 7,
                InputType::Any => 10,
            }),
    {
        match self {
            InputType::NoInput => 0,
            InputType::Cubin => 1,
            InputType::Ptx => 2,
            InputType::Ltoir => 3,
            InputType::Fatbin => 4,
            InputType::Object => 5,
            InputType::Library => 6,
            InputType::Index => 7,
            InputType::Any => 10,
        }
    }
}

/// The two logs of a linker.
#[derive(Clone, Copy, Debug, PartialEq, Eq, Structural)]
pub enum LogKind {
    Error,
    Info,
}

/// Completing a link with a loaded nvJitLink.
///
/// A handle is owned: it cannot be used once it was destroyed. `None` stands
/// for the null handle. Nothing is assumed of what the calls answer.
pub trait LinkCompletion: Sized {
    /// A linker of nvJitLink.
    type Handle;

    /// `nvJitLinkComplete`.
    fn complete(&self, handle: &Option<Self::Handle>) -> i32;
}

/// Whether the link was completed.
pub open spec fn completed<N: LinkCompletion>(nvj: &N, handle: &Option<N::Handle>) -> bool {
    exists|code: i32|
        #[trigger] call_ensures(N::complete, (nvj, handle), code) && code == NVJITLINK_SUCCESS
}

/// The calls of a loaded nvJitLink. What a link gives is only asked for behind
/// its completion.
pub trait NvJitLinkApi: LinkCompletion {
    /// `nvJitLinkVersion`, where the library has it: the result code, the
    /// major and the minor version.
    fn version(&self) -> Option<(i32, u32, u32)>;

    /// `nvJitLinkCreate`.
    fn create(&self, options: &Vec<String>) -> (i32, Option<Self::Handle>);

    /// `nvJitLinkDestroy`.
    fn destroy(&self, handle: Self::Handle) -> i32;

    /// `nvJitLinkAddData`.
    fn add_data(
        &self,
        handle: &Option<Self::Handle>,
        kind: InputType,
        data: &[u8],
        name: &str,
    ) -> i32;

    /// `nvJitLinkGetLinkedCubinSize`.
    fn linked_cubin_size(&self, handle: &Option<Self::Handle>) -> (i32, usize)
        requires
            completed(self, handle),
    ;

    /// `nvJitLinkGetLinkedCubin` into a buffer of `size` bytes.
    fn linked_cubin(&self, handle: &Option<Self::Handle>, size: usize) -> (i32, Vec<u8>)
        requires
            completed(self, handle),
    ;

    /// `nvJitLinkGetErrorLogSize` or `nvJitLinkGetInfoLogSize`.
    fn log_size(&self, handle: &Self::Handle, kind: LogKind) -> (i32, usize);

    /// `nvJitLinkGetErrorLog` or `nvJitLinkGetInfoLog` into a buffer of `size`
    /// bytes.
    fn log(&self, handle: &Self::Handle, kind: LogKind, size: usize) -> (i32, Vec<u8>);
}

/// `bytes` without the zero byte at its end, if it has one there.
pub open spec fn without_last_nul(bytes: Seq<u8>) -> Seq<u8> {
    if bytes.len() > 0 && bytes.last() == 0 {
        bytes.drop_last()
    } else {
        bytes
    }
}

/// The text of a log that came in this buffer.
pub fn log_text(buffer: Vec<u8>) -> (text: String)
    ensures
        text@ == lossy_text(without_last_nul(buffer@)),
        valid_utf8(without_last_nul(buffer@)) ==> text@ == decode_utf8(
            without_last_nul(buffer@),
        ),
{
    let mut buffer = buffer;
    let len: usize = buffer.len();
    if len > 0 && buffer[len - 1] == 0 {
        let _ = buffer.pop();
    }
    from_utf8_lossy(buffer.as_slice())
}

/// Whether `log` can be the outcome of asking for a log: there is none for the
/// null handle, where a call fails, or where the log holds no more than its
/// terminator.
pub open spec fn logs<N: NvJitLinkApi>(
    nvj: &N,
    handle: &Option<N::Handle>,
    kind: LogKind,
    log: Option<String>,
) -> bool {
    match handle {
        None => log is None,
        Some(live) => exists|size: (i32, usize)|
            #[trigger] call_ensures(N::log_size, (nvj, live, kind), size) && if size.0
                != NVJITLINK_SUCCESS || size.1 <= 1 {
                log is None
            } else {
                exists|got: (i32, Vec<u8>)|
                    #[trigger] call_ensures(N::log, (nvj, live, kind, size.1), got) && match log {
                        None => got.0 != NVJITLINK_SUCCESS,
                        Some(text) => got.0 == NVJITLINK_SUCCESS && text@ == lossy_text(
                            without_last_nul(got.1@),
                        ),
                    }
            },
    }
}

/// Best-effort retrieval of a log.
fn try_log<N: NvJitLinkApi>(nvj: &N, handle: &Option<N::Handle>, kind: LogKind) -> (log: Option<
    String,
>)
    ensures
        logs(nvj, handle, kind, log),
{
    let live = match handle {
        Some(live) => live,
        None => return None,
    };
    let (status, size) = nvj.log_size(live, kind);
    if status != NVJITLINK_SUCCESS || size <= 1 {
        return None;
    }
    let (status, buffer) = nvj.log(live, kind, size);
    if status != NVJITLINK_SUCCESS {
        return None;
    }
    Some(log_text(buffer))
}

/// Whether `error` reports that `operation` failed with `code` on the linker
/// with this handle.
pub open spec fn call_error<N: NvJitLinkApi>(
    nvj: &N,
    handle: &Option<N::Handle>,
    code: i32,
    operation: Seq<char>,
    error: NvJitLinkError,
) -> bool {
    error matches NvJitLinkError::Call { operation: name, code: raw, log } && name@ == operation
        && raw == code && logs(nvj, handle, LogKind::Error, log)
}

/// Whether `r` is what becomes of a call's result code.
pub open spec fn checked<N: NvJitLinkApi>(
    nvj: &N,
    handle: &Option<N::Handle>,
    code: i32,
    operation: Seq<char>,
    r: Result<(), NvJitLinkError>,
) -> bool {
    match r {
        Ok(_) => code == NVJITLINK_SUCCESS,
        Err(error) => code != NVJITLINK_SUCCESS && call_error(nvj, handle, code, operation, error),
    }
}

/// Turns a result code into a result; an error carries the error log.
fn check<N: NvJitLinkApi>(
    nvj: &N,
    handle: &Option<N::Handle>,
    code: i32,
    operation: &str,
) -> (r: Result<(), NvJitLinkError>)
    ensures
        checked(nvj, handle, code, operation@, r),
{
    if code == NVJITLINK_SUCCESS {
        return Ok(());
    }
    Err(
        NvJitLinkError::Call {
            operation: String::from_str(operation),
            code,
            log: try_log(nvj, handle, LogKind::Error),
        },
    )
}

/// The version of nvJitLink as `(major, minor)`, or `None` where the library
/// cannot say or the call fails.
pub fn version<N: NvJitLinkApi>(nvj: &N) -> (version: Option<(u32, u32)>)
    ensures
        exists|answer: Option<(i32, u32, u32)>|
            #[trigger] call_ensures(N::version, (nvj,), answer) && version == (match answer {
                Some((status, major, minor)) => if status == NVJITLINK_SUCCESS {
                    Some((major, minor))
                } else {
                    None
                },
                None => None,
            }),
{
    match nvj.version() {
        Some((status, major, minor)) => if status == NVJITLINK_SUCCESS {
            Some((major, minor))
        } else {
            None
        },
        None => None,
    }
}

/// A link in progress.
///
/// Typical usage: [`Linker::new`] with the link options, one or more
/// [`Linker::add`] calls, then [`Linker::finish`]. Dropping it is
/// [`Linker::tear_down`].
pub struct Linker<'a, N: NvJitLinkApi> {
    pub nvj: &'a N,
    /// The handle, or `None` for the null handle.
    pub handle: Option<N::Handle>,
}

/// What a link gives.
#[derive(Debug)]
pub struct Linked {
    /// The cubin.
    pub cubin: Vec<u8>,
    /// The info log, if there is one.
    pub info: Option<String>,
}

/// Whether `r` can be the outcome of finishing the link: the cubin and the
/// info log, or the error of the first call that failed. The cubin is read
/// behind the completion.
pub open spec fn finishes<N: NvJitLinkApi>(
    nvj: &N,
    handle: &Option<N::Handle>,
    r: Result<Linked, NvJitLinkError>,
) -> bool {
    exists|code: i32|
        #[trigger] call_ensures(N::complete, (nvj, handle), code) && if code != NVJITLINK_SUCCESS {
            r is Err && call_error(nvj, handle, code, "nvJitLinkComplete"@, r->Err_0)
        } else {
            exists|size: (i32, usize)|
                #[trigger] call_ensures(N::linked_cubin_size, (nvj, handle), size) && if size.0
                    != NVJITLINK_SUCCESS {
                    r is Err && call_error(
                        nvj,
                        handle,
                        size.0,
                        "nvJitLinkGetLinkedCubinSize"@,
                        r->Err_0,
                    )
                } else {
                    exists|got: (i32, Vec<u8>)|
                        #[trigger] call_ensures(N::linked_cubin, (nvj, handle, size.1), got)
                            && if got.0 != NVJITLINK_SUCCESS {
                            r is Err && call_error(
                                nvj,
                                handle,
                                got.0,
                                "nvJitLinkGetLinkedCubin"@,
                                r->Err_0,
                            )
                        } else {
                            r matches Ok(linked) && linked.cubin == got.1 && logs(
                                nvj,
                                handle,
                                LogKind::Info,
                                linked.info,
                            )
                        }
                }
        }
}

impl<'a, N: NvJitLinkApi> Linker<'a, N> {
    /// Creates a fresh linker. The options are passed to nvJitLink verbatim.
    pub fn new(nvj: &'a N, options: &Vec<String>) -> (r: Result<Self, NvJitLinkError>)
        requires
            forall|i: int| 0 <= i < options@.len() ==> without_nul(#[trigger] options@[i]@),
        ensures
            exists|made: (i32, Option<N::Handle>)|
                #[trigger] call_ensures(N::create, (nvj, options), made) && match r {
                    Ok(linker) => {
                        &&& made.0 == NVJITLINK_SUCCESS
                        &&& linker.nvj == nvj
                        &&& linker.handle == made.1
                    },
                    Err(error) => {
                        &&& made.0 != NVJITLINK_SUCCESS
                        &&& call_error(nvj, &None, made.0, "nvJitLinkCreate"@, error)
                    },
                },
    {
        let made = nvj.create(options);
        match check(nvj, &None, made.0, "nvJitLinkCreate") {
            Ok(()) => Ok(Linker { nvj, handle: made.1 }),
            Err(error) => Err(error),
        }
    }

    /// Adds one input chunk to the link. `name` is used in diagnostics only.
    pub fn add(&mut self, kind: InputType, data: &[u8], name: &str) -> (r: Result<
        (),
        NvJitLinkError,
    >)
        requires
            without_nul(name@),
        ensures
            *final(self) == *old(self),
            exists|code: i32|
                #[trigger] call_ensures(
                    N::add_data,
                    (old(self).nvj, &old(self).handle, kind, data, name),
                    code,
                ) && checked(old(self).nvj, &old(self).handle, code, "nvJitLinkAddData"@, r),
    {
        let code: i32 = self.nvj.add_data(&self.handle, kind, data, name);
        check(self.nvj, &self.handle, code, "nvJitLinkAddData")
    }

    /// Drives the link and returns the cubin, with the info log for whoever
    /// wants to show it. The handle is destroyed once the cubin has been copied
    /// out, or a call has failed.
    pub fn finish(self) -> (r: Result<Linked, NvJitLinkError>)
        ensures
            finishes(self.nvj, &self.handle, r),
            self.handle is Some ==> exists|code: i32| #[trigger]
                call_ensures(N::destroy, (self.nvj, self.handle->0), code),
    {
        let r = self.link();
        let _ = self.tear_down();
        r
    }

    /// Drives the link and returns the cubin, with the info log.
    fn link(&self) -> (r: Result<Linked, NvJitLinkError>)
        ensures
            finishes(self.nvj, &self.handle, r),
    {
        let code: i32 = self.nvj.complete(&self.handle);
        match check(self.nvj, &self.handle, code, "nvJitLinkComplete") {
            Ok(()) => {},
            Err(error) => return Err(error),
        }
        let size = self.nvj.linked_cubin_size(&self.handle);
        match check(self.nvj, &self.handle, size.0, "nvJitLinkGetLinkedCubinSize") {
            Ok(()) => {},
            Err(error) => return Err(error),
        }
        let got = self.nvj.linked_cubin(&self.handle, size.1);
        match check(self.nvj, &self.handle, got.0, "nvJitLinkGetLinkedCubin") {
            Ok(()) => {},
            Err(error) => return Err(error),
        }
        let info = self.try_info_log();
        Ok(Linked { cubin: got.1, info })
    }

    /// Best-effort retrieval of the error log.
    pub fn try_error_log(&self) -> (log: Option<String>)
        ensures
            logs(self.nvj, &self.handle, LogKind::Error, log),
    {
        try_log(self.nvj, &self.handle, LogKind::Error)
    }

    /// Best-effort retrieval of the info log.
    pub fn try_info_log(&self) -> (log: Option<String>)
        ensures
            logs(self.nvj, &self.handle, LogKind::Info, log),
    {
        try_log(self.nvj, &self.handle, LogKind::Info)
    }

    /// What dropping the linker does: the handle is destroyed, unless it is
    /// null. What the call says is returned for whoever wants to see it.
    pub fn tear_down(self) -> (status: Option<i32>)
        ensures
            match status {
                None => self.handle is None,
                Some(code) => self.handle is Some && call_ensures(
                    N::destroy,
                    (self.nvj, self.handle->0),
                    code,
                ),
            },
    {
        match self.handle {
            Some(handle) => Some(self.nvj.destroy(handle)),
            None => None,
        }
    }
}

} // verus!
