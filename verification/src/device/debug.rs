//! Timing, aborting and printing from device code.

use vstd::prelude::*;

use crate::device::thread::{trap_free, AbortedKernel, DeviceInstruction, KernelScope};

verus! {

/// The counters of the machine that runs a kernel. They advance while it
/// runs: two readings may differ, and nothing is assumed of either.
pub trait DeviceCounters: Sized {
    /// `%clock`.
    fn read_clock(&self) -> u32;

    /// `%clock64`.
    fn read_clock64(&self) -> u64;

    /// `%globaltimer`.
    fn read_globaltimer(&self) -> u64;
}

/// Reads the 32-bit clock counter, which wraps around.
pub fn clock<M: DeviceCounters>(_scope: &KernelScope, counters: &M) -> (ticks: u32)
    ensures
        call_ensures(M::read_clock, (counters,), ticks),
{
    counters.read_clock()
}

/// Reads the 64-bit clock counter.
pub fn clock64<M: DeviceCounters>(_scope: &KernelScope, counters: &M) -> (ticks: u64)
    ensures
        call_ensures(M::read_clock64, (counters,), ticks),
{
    counters.read_clock64()
}

/// Reads the global timer, which all multiprocessors share.
pub fn globaltimer<M: DeviceCounters>(_scope: &KernelScope, counters: &M) -> (ns: u64)
    ensures
        call_ensures(M::read_globaltimer, (counters,), ns),
{
    counters.read_globaltimer()
}

/// Aborts the kernel. The thread gives its scope up: nothing can be issued
/// behind the trap, which is the last instruction and the only trap.
pub fn trap(scope: KernelScope) -> (aborted: AbortedKernel)
    ensures
        aborted.issued@ == scope.issued().push(DeviceInstruction::Trap),
        trap_free(aborted.issued@.drop_last()),
{
    scope.abort()
}

/// Stops in the debugger.
pub fn breakpoint(scope: &mut KernelScope)
    ensures
        final(scope).registers() == old(scope).registers(),
        final(scope).issued() == old(scope).issued().push(DeviceInstruction::Breakpoint),
{
    scope.issue(DeviceInstruction::Breakpoint);
}

/// Signals profiler event `N`.
pub fn prof_trigger<const N: u32>(scope: &mut KernelScope)
    ensures
        final(scope).registers() == old(scope).registers(),
        final(scope).issued() == old(scope).issued().push(DeviceInstruction::ProfTrigger(N)),
{
    scope.issue(DeviceInstruction::ProfTrigger(N));
}

/// Aborts the kernel unless `cond` holds; where it holds, the thread goes on
/// with its scope.
pub fn gpu_assert<'kernel>(scope: KernelScope<'kernel>, cond: bool) -> (r: Result<
    KernelScope<'kernel>,
    AbortedKernel,
>)
    ensures
        match r {
            Ok(same) => cond && same == scope,
            Err(aborted) => {
                &&& !cond
                &&& aborted.issued@ == scope.issued().push(DeviceInstruction::Trap)
                &&& trap_free(aborted.issued@.drop_last())
            },
        },
{
    if cond {
        Ok(scope)
    } else {
        Err(trap(scope))
    }
}

/// A value that device `printf` accepts, with its C vararg promotion.
pub trait GpuPrintfArg: Sized {
    /// The type after promotion.
    type Promoted: Copy;

    /// The conversion character: `d` or `u` for integers.
    const FORMAT_CHAR: char;

    /// Whether the promoted value takes 64 bits.
    const IS_64BIT: bool;

    /// Whether the value is a floating-point number.
    const IS_FLOAT: bool;

    /// The promoted value.
    spec fn promoted(self) -> Self::Promoted;

    /// Promotes the value as C does for variadic arguments.
    fn promote(self) -> (p: Self::Promoted)
        ensures
            p == self.promoted(),
    ;
}

impl GpuPrintfArg for i8 {
    type Promoted = i32;

    const FORMAT_CHAR: char = 'd';

    const IS_64BIT: bool = false;

    const IS_FLOAT: bool = false;

    open spec fn promoted(self) -> i32 {
        self as i32
    }

    fn promote(self) -> (p: i32) {
        self as i32
    }
}

impl GpuPrintfArg for i16 {
    type Promoted = i32;

    const FORMAT_CHAR: char = 'd';

    const IS_64BIT: bool = false;

    const IS_FLOAT: bool = false;

    open spec fn promoted(self) -> i32 {
        self as i32
    }

    fn promote(self) -> (p: i32) {
        self as i32
    }
}

impl GpuPrintfArg for i32 {
    type Promoted = i32;

    const FORMAT_CHAR: char = 'd';

    const IS_64BIT: bool = false;

    const IS_FLOAT: bool = false;

    open spec fn promoted(self) -> i32 {
        self
    }

    fn promote(self) -> (p: i32) {
        self
    }
}

impl GpuPrintfArg for i64 {
    type Promoted = i64;

    const FORMAT_CHAR: char = 'd';

    const IS_64BIT: bool = true;

    const IS_FLOAT: bool = false;

    open spec fn promoted(self) -> i64 {
        self
    }

    fn promote(self) -> (p: i64) {
        self
    }
}

impl GpuPrintfArg for isize {
    type Promoted = i64;

    const FORMAT_CHAR: char = 'd';

    const IS_64BIT: bool = true;

    const IS_FLOAT: bool = false;

    open spec fn promoted(self) -> i64 {
        self as i64
    }

    fn promote(self) -> (p: i64) {
        self as i64
    }
}

impl GpuPrintfArg for u8 {
    type Promoted = u32;

    const FORMAT_CHAR: char = 'u';

    const IS_64BIT: bool = false;

    const IS_FLOAT: bool = false;

    open spec fn promoted(self) -> u32 {
        self as u32
    }

    fn promote(self) -> (p: u32) {
        self as u32
    }
}

impl GpuPrintfArg for u16 {
    type Promoted = u32;

    const FORMAT_CHAR: char = 'u';

    const IS_64BIT: bool = false;

    const IS_FLOAT: bool = false;

    open spec fn promoted(self) -> u32 {
        self as u32
    }

    fn promote(self) -> (p: u32) {
        self as u32
    }
}

impl GpuPrintfArg for u32 {
    type Promoted = u32;

    const FORMAT_CHAR: char = 'u';

    const IS_64BIT: bool = false;

    const IS_FLOAT: bool = false;

    open spec fn promoted(self) -> u32 {
        self
    }

    fn promote(self) -> (p: u32) {
        self
    }
}

impl GpuPrintfArg for u64 {
    type Promoted = u64;

    const FORMAT_CHAR: char = 'u';

    const IS_64BIT: bool = true;

    const IS_FLOAT: bool = false;

    open spec fn promoted(self) -> u64 {
        self
    }

    fn promote(self) -> (p: u64) {
        self
    }
}

impl GpuPrintfArg for usize {
    type Promoted = u64;

    const FORMAT_CHAR: char = 'u';

    const IS_64BIT: bool = true;

    const IS_FLOAT: bool = false;

    open spec fn promoted(self) -> u64 {
        self as u64
    }

    fn promote(self) -> (p: u64) {
        self as u64
    }
}

impl GpuPrintfArg for bool {
    type Promoted = i32;

    const FORMAT_CHAR: char = 'd';

    const IS_64BIT: bool = false;

    const IS_FLOAT: bool = false;

    open spec fn promoted(self) -> i32 {
        if self {
            1
        } else {
            0
        }
    }

    fn promote(self) -> (p: i32) {
        if self {
            1
        } else {
            0
        }
    }
}

} // verus!
