//! What holds of thread indices, instructions, constant memory and printing.

use vstd::prelude::*;

use crate::device::constant::{ConstantMemory, ConstantMemoryValue};
use crate::device::debug::{
    breakpoint, clock, clock64, globaltimer, gpu_assert, prof_trigger, trap, DeviceCounters,
    GpuPrintfArg,
};
use crate::device::disjoint::DisjointSlice;
use crate::device::fence::{threadfence, threadfence_block, threadfence_system};
use crate::device::thread::{
    blockDim_x, blockDim_y, blockDim_z, blockIdx_x, blockIdx_y, blockIdx_z, gridDim_x,
    gridDim_y, gridDim_z, index_1d, index_2d, index_2d_col, index_2d_row, index_2d_runtime,
    launched, make_kernel_scope, sync_threads, threadIdx_x, threadIdx_y, threadIdx_z,
    AbortedKernel, Index1D, Index2D, IndexFormula, KernelScope, Runtime2DIndex,
    SpecialRegisters, ThreadIndex,
};

verus! {

// ---------------------------------------------------------------------------
// Thread indices
// ---------------------------------------------------------------------------

/// The one-dimensional index counts the threads of the blocks before, then
/// those before in the block; it is the column of the thread.
pub proof fn law_index_1d_counts_threads<'k>(
    scope: &'k KernelScope<'k>,
    idx: ThreadIndex<'k, Index1D>,
    col: usize,
)
    requires
        call_ensures(index_1d, (scope,), idx),
        call_ensures(index_2d_col, (scope,), col),
    ensures
        ({
            let r = scope.registers();
            &&& idx.index() as int == r.block_dim.x * r.block_idx.x + r.thread_idx.x
            &&& idx.index() == col
            &&& r.block_idx.x == 0 ==> idx.index() == r.thread_idx.x
        }),
{
    let r = scope.registers();
    assert(r.block_dim.x * r.block_idx.x == r.block_idx.x * r.block_dim.x) by (nonlinear_arith);
    if r.block_idx.x == 0 {
        assert(r.block_dim.x * r.block_idx.x == 0) by (nonlinear_arith)
            requires
                r.block_idx.x == 0,
        ;
    }
}

/// The next thread of a block has the next column, and the same thread of the
/// next block one that is a whole block further; likewise for rows.
pub proof fn law_neighbours_are_adjacent<'k>(
    a: &'k KernelScope<'k>,
    b: &'k KernelScope<'k>,
    col_a: usize,
    col_b: usize,
    row_a: usize,
    row_b: usize,
)
    requires
        call_ensures(index_2d_col, (a,), col_a),
        call_ensures(index_2d_col, (b,), col_b),
        call_ensures(index_2d_row, (a,), row_a),
        call_ensures(index_2d_row, (b,), row_b),
        a.registers().block_dim == b.registers().block_dim,
    ensures
        ({
            let r = a.registers();
            let s = b.registers();
            &&& s.block_idx.x == r.block_idx.x ==> col_b - col_a == s.thread_idx.x - r.thread_idx.x
            &&& s.block_idx.x == r.block_idx.x + 1 && s.thread_idx.x == r.thread_idx.x ==> col_b
                - col_a == r.block_dim.x
            &&& s.block_idx.y == r.block_idx.y ==> row_b - row_a == s.thread_idx.y - r.thread_idx.y
            &&& s.block_idx.y == r.block_idx.y + 1 && s.thread_idx.y == r.thread_idx.y ==> row_b
                - row_a == r.block_dim.y
        }),
{
    let r = a.registers();
    let s = b.registers();
    if s.block_idx.x == r.block_idx.x + 1 {
        assert(s.block_idx.x * r.block_dim.x == r.block_idx.x * r.block_dim.x + r.block_dim.x)
            by (nonlinear_arith)
            requires
                s.block_idx.x == r.block_idx.x + 1,
        ;
    }
    if s.block_idx.y == r.block_idx.y + 1 {
        assert(s.block_idx.y * r.block_dim.y == r.block_idx.y * r.block_dim.y + r.block_dim.y)
            by (nonlinear_arith)
            requires
                s.block_idx.y == r.block_idx.y + 1,
        ;
    }
}

/// A row-major index holds the row and the column of its thread: dividing by
/// the stride gives them back. A thread has one exactly where its column is
/// less than the stride.
pub proof fn law_row_major_index_divides<'k>(
    scope: &'k KernelScope<'k>,
    row_stride: usize,
    idx: Option<ThreadIndex<'k, Runtime2DIndex>>,
    row: usize,
    col: usize,
)
    requires
        call_ensures(index_2d_runtime, (scope, row_stride), idx),
        call_ensures(index_2d_row, (scope,), row),
        call_ensures(index_2d_col, (scope,), col),
    ensures
        idx is Some <==> col < row_stride,
        idx is Some ==> (idx->0).index() as int == row * row_stride + col,
        idx is Some ==> (idx->0).index() as int / row_stride as int == row,
        idx is Some ==> (idx->0).index() as int % row_stride as int == col,
{
    if idx is Some {
        vstd::arithmetic::div_mod::lemma_fundamental_div_mod_converse(
            (idx->0).index() as int,
            row_stride as int,
            row as int,
            col as int,
        );
    }
}

/// A stride that is a constant and one that is chosen at run time give the same
/// index.
pub proof fn law_strides_agree<'k, const ROW_STRIDE: usize>(
    scope: &'k KernelScope<'k>,
    fixed: Option<ThreadIndex<'k, Index2D<ROW_STRIDE>>>,
    chosen: Option<ThreadIndex<'k, Runtime2DIndex>>,
)
    requires
        call_ensures(index_2d::<ROW_STRIDE>, (scope,), fixed),
        call_ensures(index_2d_runtime, (scope, ROW_STRIDE), chosen),
    ensures
        fixed is Some <==> chosen is Some,
        fixed is Some ==> (fixed->0).index() == (chosen->0).index(),
{
}

/// An index gives its value, and is in bounds exactly below the length.
pub proof fn law_bounds_of_an_index<'k, S>(
    idx: ThreadIndex<'k, S>,
    raw: usize,
    len: usize,
    yes: bool,
)
    requires
        call_ensures(ThreadIndex::<'k, S>::get, (&idx,), raw),
        call_ensures(ThreadIndex::<'k, S>::in_bounds, (&idx, len), yes),
    ensures
        raw == idx.index(),
        yes <==> raw < len,
{
}

/// A thread reads the registers it was launched with, each as itself.
pub proof fn law_threads_read_their_registers<'k>(
    registers: SpecialRegisters,
    scope: KernelScope<'k>,
    v: (u32, u32, u32, u32, u32, u32),
    w: (u32, u32, u32, u32, u32, u32),
)
    requires
        call_ensures(make_kernel_scope, (registers,), scope),
        call_ensures(threadIdx_x, (&scope,), v.0),
        call_ensures(threadIdx_y, (&scope,), v.1),
        call_ensures(threadIdx_z, (&scope,), v.2),
        call_ensures(blockIdx_x, (&scope,), v.3),
        call_ensures(blockIdx_y, (&scope,), v.4),
        call_ensures(blockIdx_z, (&scope,), v.5),
        call_ensures(blockDim_x, (&scope,), w.0),
        call_ensures(blockDim_y, (&scope,), w.1),
        call_ensures(blockDim_z, (&scope,), w.2),
        call_ensures(gridDim_x, (&scope,), w.3),
        call_ensures(gridDim_y, (&scope,), w.4),
        call_ensures(gridDim_z, (&scope,), w.5),
    ensures
        v.0 == registers.thread_idx.x && v.1 == registers.thread_idx.y && v.2
            == registers.thread_idx.z,
        v.3 == registers.block_idx.x && v.4 == registers.block_idx.y && v.5
            == registers.block_idx.z,
        w.0 == registers.block_dim.x && w.1 == registers.block_dim.y && w.2
            == registers.block_dim.z,
        w.3 == registers.grid_dim.x && w.4 == registers.grid_dim.y && w.5 == registers.grid_dim.z,
        v.0 < w.0 && v.1 < w.1 && v.2 < w.2 && v.3 < w.3 && v.4 < w.4 && v.5 < w.5,
        scope.issued().len() == 0,
{
}

/// A thread is part of a launch exactly if it is within its block and its
/// block within the grid.
pub proof fn law_launched_threads_are_in_range(r: SpecialRegisters)
    ensures
        launched(r) <==> r.thread_idx.x < r.block_dim.x && r.thread_idx.y < r.block_dim.y
            && r.thread_idx.z < r.block_dim.z && r.block_idx.x < r.grid_dim.x && r.block_idx.y
            < r.grid_dim.y && r.block_idx.z < r.grid_dim.z,
{
}

// ---------------------------------------------------------------------------
// Instructions
// ---------------------------------------------------------------------------

/// A block fence orders memory within the block: it is the one
/// instruction issued, behind all others, and the thread keeps its registers.
pub proof fn law_threadfence_block_issues_one_instruction<'a, 'k>(scope: &'a mut KernelScope<'k>)
    requires
        call_ensures(threadfence_block, (scope,), ()),
    ensures
        final(scope).registers() == old(scope).registers(),
        final(scope).issued().drop_last() == old(scope).issued(),
        final(scope).issued().len() == old(scope).issued().len() + 1,
        final(scope).issued().last() is FenceBlock,
{
    assert(final(scope).issued().drop_last() =~= old(scope).issued());
}

/// A device fence orders memory within the device: it is the one
/// instruction issued, behind all others, and the thread keeps its registers.
pub proof fn law_threadfence_issues_one_instruction<'a, 'k>(scope: &'a mut KernelScope<'k>)
    requires
        call_ensures(threadfence, (scope,), ()),
    ensures
        final(scope).registers() == old(scope).registers(),
        final(scope).issued().drop_last() == old(scope).issued(),
        final(scope).issued().len() == old(scope).issued().len() + 1,
        final(scope).issued().last() is FenceDevice,
{
    assert(final(scope).issued().drop_last() =~= old(scope).issued());
}

/// A system fence orders memory within the system: it is the one
/// instruction issued, behind all others, and the thread keeps its registers.
pub proof fn law_threadfence_system_issues_one_instruction<'a, 'k>(scope: &'a mut KernelScope<'k>)
    requires
        call_ensures(threadfence_system, (scope,), ()),
    ensures
        final(scope).registers() == old(scope).registers(),
        final(scope).issued().drop_last() == old(scope).issued(),
        final(scope).issued().len() == old(scope).issued().len() + 1,
        final(scope).issued().last() is FenceSystem,
{
    assert(final(scope).issued().drop_last() =~= old(scope).issued());
}

/// A barrier waits for the threads of the block: it is the one
/// instruction issued, behind all others, and the thread keeps its registers.
pub proof fn law_sync_threads_issues_one_instruction<'a, 'k>(scope: &'a mut KernelScope<'k>)
    requires
        call_ensures(sync_threads, (scope,), ()),
    ensures
        final(scope).registers() == old(scope).registers(),
        final(scope).issued().drop_last() == old(scope).issued(),
        final(scope).issued().len() == old(scope).issued().len() + 1,
        final(scope).issued().last() is BlockBarrier,
{
    assert(final(scope).issued().drop_last() =~= old(scope).issued());
}

/// A breakpoint stops in the debugger: it is the one
/// instruction issued, behind all others, and the thread keeps its registers.
pub proof fn law_breakpoint_issues_one_instruction<'a, 'k>(scope: &'a mut KernelScope<'k>)
    requires
        call_ensures(breakpoint, (scope,), ()),
    ensures
        final(scope).registers() == old(scope).registers(),
        final(scope).issued().drop_last() == old(scope).issued(),
        final(scope).issued().len() == old(scope).issued().len() + 1,
        final(scope).issued().last() is Breakpoint,
{
    assert(final(scope).issued().drop_last() =~= old(scope).issued());
}

/// A profiler trigger signals the event it names, and nothing else.
pub proof fn law_prof_trigger_signals_its_event<'a, 'k, const N: u32>(scope: &'a mut KernelScope<'k>)
    requires
        call_ensures(prof_trigger::<N>, (scope,), ()),
    ensures
        final(scope).registers() == old(scope).registers(),
        final(scope).issued().drop_last() == old(scope).issued(),
        final(scope).issued().len() == old(scope).issued().len() + 1,
        final(scope).issued().last() is ProfTrigger,
        final(scope).issued().last()->ProfTrigger_0 == N,
{
    assert(final(scope).issued().drop_last() =~= old(scope).issued());
}

/// A trap is the last instruction of its thread. An assertion that fails is a
/// trap; one that holds leaves the thread as it was.
pub proof fn law_failed_assertion_is_a_trap<'k>(
    scope: KernelScope<'k>,
    aborted: AbortedKernel,
    cond: bool,
    r: Result<KernelScope<'k>, AbortedKernel>,
)
    requires
        call_ensures(trap, (scope,), aborted),
        call_ensures(gpu_assert, (scope, cond), r),
    ensures
        aborted.issued@.last() is Trap,
        aborted.issued@.drop_last() == scope.issued(),
        r is Ok <==> cond,
        r is Ok ==> r->Ok_0 == scope,
        r is Err ==> r->Err_0.issued@ == aborted.issued@,
{
    assert(aborted.issued@.drop_last() =~= scope.issued());
}

// ---------------------------------------------------------------------------
// Constant memory
// ---------------------------------------------------------------------------

/// A fresh cell of constant memory holds zero, and a cell that was written
/// holds what was written.
pub proof fn law_constant_memory_reads_back<T: ConstantMemoryValue>(
    fresh: ConstantMemory<T>,
    first: T,
    cell: &mut ConstantMemory<T>,
    written: T,
    read: T,
)
    requires
        call_ensures(ConstantMemory::<T>::uninit, (), fresh),
        call_ensures(ConstantMemory::<T>::get, (&fresh,), first),
        call_ensures(ConstantMemory::<T>::set, (cell, written), ()),
        call_ensures(ConstantMemory::<T>::get, (final(cell),), read),
    ensures
        first == T::zero(),
        read == written,
{
}

/// All zero bytes are the number 0 in every integer type, and a tuple of zeros
/// in a tuple.
pub proof fn law_zero_bytes_are_zero<
    A: ConstantMemoryValue,
    B: ConstantMemoryValue,
    C: ConstantMemoryValue,
    D: ConstantMemoryValue,
    E: ConstantMemoryValue,
    F: ConstantMemoryValue,
    G: ConstantMemoryValue,
    H: ConstantMemoryValue,
>()
    ensures
        <i8 as ConstantMemoryValue>::zero() == 0,
        <i16 as ConstantMemoryValue>::zero() == 0,
        <i32 as ConstantMemoryValue>::zero() == 0,
        <i64 as ConstantMemoryValue>::zero() == 0,
        <i128 as ConstantMemoryValue>::zero() == 0,
        <isize as ConstantMemoryValue>::zero() == 0,
        <u8 as ConstantMemoryValue>::zero() == 0,
        <u16 as ConstantMemoryValue>::zero() == 0,
        <u32 as ConstantMemoryValue>::zero() == 0,
        <u64 as ConstantMemoryValue>::zero() == 0,
        <u128 as ConstantMemoryValue>::zero() == 0,
        <usize as ConstantMemoryValue>::zero() == 0,
        <(A,) as ConstantMemoryValue>::zero() == (A::zero(),),
        <(A, B) as ConstantMemoryValue>::zero() == (A::zero(), B::zero()),
        <(A, B, C) as ConstantMemoryValue>::zero() == (A::zero(), B::zero(), C::zero()),
        <(A, B, C, D) as ConstantMemoryValue>::zero() == (A::zero(), B::zero(), C::zero(), D::zero()),
        <(A, B, C, D, E) as ConstantMemoryValue>::zero() == (A::zero(), B::zero(), C::zero(), D::zero(), E::zero()),
        <(A, B, C, D, E, F) as ConstantMemoryValue>::zero() == (A::zero(), B::zero(), C::zero(), D::zero(), E::zero(), F::zero()),
        <(A, B, C, D, E, F, G) as ConstantMemoryValue>::zero() == (A::zero(), B::zero(), C::zero(), D::zero(), E::zero(), F::zero(), G::zero()),
        <(A, B, C, D, E, F, G, H) as ConstantMemoryValue>::zero() == (A::zero(), B::zero(), C::zero(), D::zero(), E::zero(), F::zero(), G::zero(), H::zero()),
{
}

/// All zero bytes are a zero in each element of an array.
pub proof fn law_zero_array_holds_zeros<T: ConstantMemoryValue + Copy, const N: usize>(i: int)
    requires
        0 <= i < N,
    ensures
        <[T; N] as ConstantMemoryValue>::zero()@.len() == N,
        <[T; N] as ConstantMemoryValue>::zero()@[i] == T::zero(),
{
    broadcast use vstd::array::axiom_spec_array_fill_for_copy_type;
}

// ---------------------------------------------------------------------------
// Disjoint slices
// ---------------------------------------------------------------------------

/// An index reaches an element exactly if it is less than the length; it
/// reaches that element, and no write through it changes another.
pub proof fn law_access_is_bounds_checked<'a, 'b, 'k, T, S>(
    slice: &'b mut DisjointSlice<'a, T, S>,
    idx: ThreadIndex<'k, S>,
    elem: Option<&'b mut T>,
    i: int,
)
    requires
        call_ensures(DisjointSlice::<'a, T, S>::get_mut, (slice, idx), elem),
        0 <= i < old(slice).elements().len(),
    ensures
        elem is Some <==> idx.index() < old(slice).elements().len(),
        elem is Some ==> *elem->0 == old(slice).elements()[idx.index() as int],
        elem is Some ==> final(slice).elements()[idx.index() as int] == *final(elem->0),
        final(slice).elements().len() == old(slice).elements().len(),
        i != idx.index() ==> final(slice).elements()[i] == old(slice).elements()[i],
{
}

/// A thread of an index space reaches the element at its own index: the one
/// that the formula of the index space gives.
pub proof fn law_threads_reach_their_own_element<'a, 'b, 'k, T, S: IndexFormula>(
    slice: &'b mut DisjointSlice<'a, T, S>,
    scope: &'k KernelScope<'k>,
    found: Option<(&'b mut T, ThreadIndex<'k, S>)>,
    i: int,
)
    requires
        call_ensures(DisjointSlice::<'a, T, S>::get_mut_indexed, (slice, scope), found),
        0 <= i < old(slice).elements().len(),
    ensures
        found is Some <==> S::formula(scope.registers()) is Some && S::formula(
            scope.registers(),
        )->0 < old(slice).elements().len(),
        found is Some ==> S::formula(scope.registers()) == Some((found->0).1.index() as int),
        found is Some ==> *(found->0).0 == old(slice).elements()[(found->0).1.index() as int],
        final(slice).elements().len() == old(slice).elements().len(),
        found is None || i != (found->0).1.index() ==> final(slice).elements()[i] == old(
            slice,
        ).elements()[i],
{
}

/// A slice has the length of what it was made from.
pub proof fn law_slice_length<'a, T, S>(
    data: &'a mut [T],
    slice: DisjointSlice<'a, T, S>,
    n: usize,
    empty: bool,
)
    requires
        call_ensures(DisjointSlice::<'a, T, S>::from_mut_slice, (data,), slice),
        call_ensures(DisjointSlice::<'a, T, S>::len, (&slice,), n),
        call_ensures(DisjointSlice::<'a, T, S>::is_empty, (&slice,), empty),
    ensures
        n == old(data)@.len(),
        empty <==> n == 0,
        slice.elements() == old(data)@,
{
}

// ---------------------------------------------------------------------------
// Printing
// ---------------------------------------------------------------------------

/// Promoting an `i8` to 32 bits for printing keeps its value.
pub proof fn law_i8_prints_its_value(v: i8, p: i32)
    requires
        call_ensures(i8::promote, (v,), p),
    ensures
        p as int == v as int,
{
}

/// Promoting an `i16` to 32 bits for printing keeps its value.
pub proof fn law_i16_prints_its_value(v: i16, p: i32)
    requires
        call_ensures(i16::promote, (v,), p),
    ensures
        p as int == v as int,
{
}

/// Promoting an `i32` to 32 bits for printing keeps its value.
pub proof fn law_i32_prints_its_value(v: i32, p: i32)
    requires
        call_ensures(i32::promote, (v,), p),
    ensures
        p as int == v as int,
{
}

/// Promoting an `i64` to 64 bits for printing keeps its value.
pub proof fn law_i64_prints_its_value(v: i64, p: i64)
    requires
        call_ensures(i64::promote, (v,), p),
    ensures
        p as int == v as int,
{
}

/// Promoting an `isize` to 64 bits for printing keeps its value.
pub proof fn law_isize_prints_its_value(v: isize, p: i64)
    requires
        call_ensures(isize::promote, (v,), p),
    ensures
        p as int == v as int,
{
}

/// Promoting an `u8` to 32 bits for printing keeps its value.
pub proof fn law_u8_prints_its_value(v: u8, p: u32)
    requires
        call_ensures(u8::promote, (v,), p),
    ensures
        p as int == v as int,
{
}

/// Promoting an `u16` to 32 bits for printing keeps its value.
pub proof fn law_u16_prints_its_value(v: u16, p: u32)
    requires
        call_ensures(u16::promote, (v,), p),
    ensures
        p as int == v as int,
{
}

/// Promoting an `u32` to 32 bits for printing keeps its value.
pub proof fn law_u32_prints_its_value(v: u32, p: u32)
    requires
        call_ensures(u32::promote, (v,), p),
    ensures
        p as int == v as int,
{
}

/// Promoting an `u64` to 64 bits for printing keeps its value.
pub proof fn law_u64_prints_its_value(v: u64, p: u64)
    requires
        call_ensures(u64::promote, (v,), p),
    ensures
        p as int == v as int,
{
}

/// Promoting an `usize` to 64 bits for printing keeps its value.
pub proof fn law_usize_prints_its_value(v: usize, p: u64)
    requires
        call_ensures(usize::promote, (v,), p),
    ensures
        p as int == v as int,
{
}

/// A truth value prints as 1 or 0.
pub proof fn law_bool_prints_as_one_or_zero(v: bool, p: i32)
    requires
        call_ensures(bool::promote, (v,), p),
    ensures
        v ==> p == 1,
        !v ==> p == 0,
{
}

/// Each counter is read from its own register.
pub proof fn law_counters_are_read<'k, M: DeviceCounters>(
    scope: &KernelScope<'k>,
    counters: &M,
    ticks: u32,
    ticks64: u64,
    ns: u64,
    answers: (u32, u64, u64),
)
    requires
        call_ensures(clock::<M>, (scope, counters), ticks),
        call_ensures(clock64::<M>, (scope, counters), ticks64),
        call_ensures(globaltimer::<M>, (scope, counters), ns),
        forall|v: u32| #[trigger] call_ensures(M::read_clock, (counters,), v) ==> v == answers.0,
        forall|v: u64| #[trigger] call_ensures(M::read_clock64, (counters,), v) ==> v == answers.1,
        forall|v: u64| #[trigger]
            call_ensures(M::read_globaltimer, (counters,), v) ==> v == answers.2,
    ensures
        ticks == answers.0,
        ticks64 == answers.1,
        ns == answers.2,
{
}

/// A raw index reaches the element it names, and no write through it changes
/// another.
pub proof fn law_unchecked_access_reaches_its_element<'a, 'b, T, S>(
    slice: &'b mut DisjointSlice<'a, T, S>,
    idx: usize,
    elem: &'b mut T,
    i: int,
)
    requires
        idx < old(slice).elements().len(),
        call_ensures(DisjointSlice::<'a, T, S>::get_unchecked_mut, (slice, idx), elem),
        0 <= i < old(slice).elements().len(),
    ensures
        *old(elem) == old(slice).elements()[idx as int],
        final(slice).elements()[idx as int] == *final(elem),
        final(slice).elements().len() == old(slice).elements().len(),
        i != idx ==> final(slice).elements()[i] == old(slice).elements()[i],
{
}

/// The index of a thread in an index space is the one that the function for
/// that index space makes.
pub proof fn law_index_spaces_have_their_formulas<'k, const ROW_STRIDE: usize>(
    scope: &'k KernelScope<'k>,
    linear: ThreadIndex<'k, Index1D>,
    row_major: Option<ThreadIndex<'k, Index2D<ROW_STRIDE>>>,
)
    requires
        call_ensures(index_1d, (scope,), linear),
        call_ensures(index_2d::<ROW_STRIDE>, (scope,), row_major),
    ensures
        Index1D::formula(scope.registers()) == Some(linear.index() as int),
        Index2D::<ROW_STRIDE>::formula(scope.registers()) == (match row_major {
            Some(idx) => Some(idx.index() as int),
            None => None,
        }),
{
}

} // verus!
