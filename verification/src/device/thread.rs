//! Thread intrinsics and thread-unique indices.
//!
//! A [`KernelScope`] is what one thread of a launch sees: the special
//! registers that the runtime assigned to it, and the instructions that it has
//! issued. A thread that traps gives its scope up, so that nothing is issued
//! behind the trap. A [`ThreadIndex`] can only be made from one, by [`index_1d`],
//! [`index_2d`] or [`index_2d_runtime`], and is unique among the threads of
//! the launch: [`law_index_1d_unique`], [`law_index_2d_unique`].
#![allow(non_snake_case)]

use core::marker::PhantomData;
use vstd::prelude::*;

verus! {

/// Three register components.
#[derive(Debug, Clone, Copy, PartialEq, Eq, Structural)]
pub struct Dim3 {
    pub x: u32,
    pub y: u32,
    pub z: u32,
}

/// The special registers of one thread.
#[derive(Debug, Clone, Copy, PartialEq, Eq, Structural)]
pub struct SpecialRegisters {
    /// `threadIdx`: the thread within its block.
    pub thread_idx: Dim3,
    /// `blockIdx`: the block within the grid.
    pub block_idx: Dim3,
    /// `blockDim`: threads per block.
    pub block_dim: Dim3,
    /// `gridDim`: blocks per grid.
    pub grid_dim: Dim3,
}

/// An instruction with an effect beyond the issuing thread's registers.
#[derive(Debug, Clone, Copy, PartialEq, Eq, Structural)]
pub enum DeviceInstruction {
    /// Wait for every thread of the block.
    BlockBarrier,
    /// Order memory within the block.
    FenceBlock,
    /// Order memory within the device.
    FenceDevice,
    /// Order memory within the system.
    FenceSystem,
    /// Abort the kernel.
    Trap,
    /// Stop in the debugger.
    Breakpoint,
    /// Signal a profiler event.
    ProfTrigger(u32),
}

/// Whether the registers are those of a thread of their launch.
pub open spec fn launched(r: SpecialRegisters) -> bool {
    &&& r.thread_idx.x < r.block_dim.x
    &&& r.thread_idx.y < r.block_dim.y
    &&& r.thread_idx.z < r.block_dim.z
    &&& r.block_idx.x < r.grid_dim.x
    &&& r.block_idx.y < r.grid_dim.y
    &&& r.block_idx.z < r.grid_dim.z
}

/// Whether no instruction of the list aborts the kernel.
pub open spec fn trap_free(issued: Seq<DeviceInstruction>) -> bool {
    forall|i: int| 0 <= i < issued.len() ==> #[trigger] issued[i] != DeviceInstruction::Trap
}

/// What one thread sees while a kernel body runs.
pub struct KernelScope<'kernel> {
    registers: SpecialRegisters,
    /// The instructions issued so far, in order.
    issued: Vec<DeviceInstruction>,
    _kernel: PhantomData<&'kernel ()>,
}

/// What is left of a thread that trapped: the instructions that it issued, of
/// which the trap is the last.
#[derive(Debug)]
pub struct AbortedKernel {
    pub issued: Vec<DeviceInstruction>,
}

impl<'kernel> KernelScope<'kernel> {
    /// A scope belongs to a thread of a launch that has not trapped.
    #[verifier::type_invariant]
    spec fn well_formed(self) -> bool {
        launched(self.registers) && trap_free(self.issued@)
    }

    /// The special registers of the thread.
    pub closed spec fn registers(self) -> SpecialRegisters {
        self.registers
    }

    /// The instructions issued so far, in order.
    pub closed spec fn issued(self) -> Seq<DeviceInstruction> {
        self.issued@
    }

    fn new(registers: SpecialRegisters) -> (scope: Self)
        requires
            launched(registers),
        ensures
            scope.registers() == registers,
            scope.issued() == Seq::<DeviceInstruction>::empty(),
    {
        KernelScope { registers, issued: Vec::new(), _kernel: PhantomData }
    }

    /// The instructions issued so far, in order.
    pub fn instructions(&self) -> (issued: &Vec<DeviceInstruction>)
        ensures
            issued@ == self.issued(),
            trap_free(issued@),
    {
        proof {
            use_type_invariant(self);
        }
        &self.issued
    }

    /// Issues one instruction, after which the thread goes on.
    pub(crate) fn issue(&mut self, instruction: DeviceInstruction)
        requires
            instruction != DeviceInstruction::Trap,
        ensures
            final(self).registers() == old(self).registers(),
            final(self).issued() == old(self).issued().push(instruction),
    {
        proof {
            use_type_invariant(&*self);
        }
        let mut issued: Vec<DeviceInstruction> = Vec::new();
        std::mem::swap(&mut issued, &mut self.issued);
        issued.push(instruction);
        self.issued = issued;
    }

    /// Issues a trap, behind which the thread issues nothing.
    pub(crate) fn abort(self) -> (aborted: AbortedKernel)
        ensures
            aborted.issued@ == self.issued().push(DeviceInstruction::Trap),
            trap_free(aborted.issued@.drop_last()),
    {
        proof {
            use_type_invariant(&self);
        }
        let mut issued = self.issued;
        issued.push(DeviceInstruction::Trap);
        assert(issued@.drop_last() =~= self.issued());
        AbortedKernel { issued }
    }
}

/// The scope of the thread with these registers, before it has issued
/// anything. The entry of a kernel makes one; nothing else does.
pub fn make_kernel_scope<'kernel>(registers: SpecialRegisters) -> (scope: KernelScope<'kernel>)
    requires
        launched(registers),
    ensures
        scope.registers() == registers,
        scope.issued() == Seq::<DeviceInstruction>::empty(),
{
    KernelScope::new(registers)
}

/// Index space of the one-dimensional formula.
pub enum Index1D {
    Space,
}

/// Index space of the two-dimensional row-major formula with a const stride.
pub enum Index2D<const ROW_STRIDE: usize> {
    Space,
}

/// Index space of the two-dimensional formula with a stride chosen at run
/// time.
pub enum Runtime2DIndex {
    Space,
}

/// The row of a thread in a two-dimensional launch.
pub open spec fn row_of(r: SpecialRegisters) -> int {
    r.block_idx.y * r.block_dim.y + r.thread_idx.y
}

/// The column of a thread in a two-dimensional launch.
pub open spec fn col_of(r: SpecialRegisters) -> int {
    r.block_idx.x * r.block_dim.x + r.thread_idx.x
}

/// The row-major index of a thread, where its column is within the stride.
pub open spec fn row_major(r: SpecialRegisters, row_stride: int) -> Option<int> {
    if col_of(r) < row_stride {
        Some(row_of(r) * row_stride + col_of(r))
    } else {
        None
    }
}

/// Whether the row, the column and the row-major index are `usize`s.
pub open spec fn row_major_fits(r: SpecialRegisters, row_stride: int) -> bool {
    &&& row_of(r) <= usize::MAX
    &&& col_of(r) <= usize::MAX
    &&& match row_major(r, row_stride) {
        Some(i) => i <= usize::MAX,
        None => true,
    }
}

/// A thread-unique index.
pub struct ThreadIndex<'kernel, IndexSpace = Index1D> {
    raw: usize,
    _kernel: PhantomData<&'kernel ()>,
    _space: PhantomData<IndexSpace>,
}

impl<'kernel, IndexSpace> ThreadIndex<'kernel, IndexSpace> {
    /// The index itself.
    pub closed spec fn index(self) -> usize {
        self.raw
    }

    fn new(raw: usize, _scope: &'kernel KernelScope<'kernel>) -> (idx: Self)
        ensures
            idx.index() == raw,
    {
        ThreadIndex { raw, _kernel: PhantomData, _space: PhantomData }
    }

    /// The raw index value.
    pub fn get(&self) -> (raw: usize)
        ensures
            raw == self.index(),
    {
        self.raw
    }

    /// Whether the index is less than a bound.
    pub fn in_bounds(&self, len: usize) -> (yes: bool)
        ensures
            yes == (self.index() < len),
    {
        self.raw < len
    }
}

/// Index spaces whose index follows from the kernel scope alone.
pub trait IndexFormula: Sized {
    /// The index of a thread, where it has one.
    spec fn formula(r: SpecialRegisters) -> Option<int>;

    /// Whether everything the formula computes is a `usize`.
    spec fn fits(r: SpecialRegisters) -> bool;

    fn from_scope<'kernel>(scope: &'kernel KernelScope<'kernel>) -> (idx: Option<
        ThreadIndex<'kernel, Self>,
    >)
        requires
            Self::fits(scope.registers()),
        ensures
            match idx {
                Some(t) => Self::formula(scope.registers()) == Some(t.index() as int),
                None => Self::formula(scope.registers()) is None,
            },
    ;
}

impl IndexFormula for Index1D {
    open spec fn formula(r: SpecialRegisters) -> Option<int> {
        Some(col_of(r))
    }

    open spec fn fits(r: SpecialRegisters) -> bool {
        col_of(r) <= usize::MAX
    }

    fn from_scope<'kernel>(scope: &'kernel KernelScope<'kernel>) -> (idx: Option<
        ThreadIndex<'kernel, Self>,
    >) {
        Some(index_1d(scope))
    }
}

impl<const ROW_STRIDE: usize> IndexFormula for Index2D<ROW_STRIDE> {
    open spec fn formula(r: SpecialRegisters) -> Option<int> {
        row_major(r, ROW_STRIDE as int)
    }

    open spec fn fits(r: SpecialRegisters) -> bool {
        row_major_fits(r, ROW_STRIDE as int)
    }

    fn from_scope<'kernel>(scope: &'kernel KernelScope<'kernel>) -> (idx: Option<
        ThreadIndex<'kernel, Self>,
    >) {
        index_2d::<ROW_STRIDE>(scope)
    }
}

/// `block * dim + thread`, in `usize`.
fn linear(block: u32, dim: u32, thread: u32) -> (i: usize)
    requires
        block * dim + thread <= usize::MAX,
    ensures
        i == block * dim + thread,
{
    assert(0 <= block * dim) by (nonlinear_arith);
    (block as usize) * (dim as usize) + (thread as usize)
}

/// The global one-dimensional thread index:
/// `blockIdx.x * blockDim.x + threadIdx.x`.
///
/// Unique per thread for a one-dimensional launch only.
pub fn index_1d<'kernel>(scope: &'kernel KernelScope<'kernel>) -> (idx: ThreadIndex<
    'kernel,
    Index1D,
>)
    requires
        col_of(scope.registers()) <= usize::MAX,
    ensures
        idx.index() == col_of(scope.registers()),
{
    ThreadIndex::new(
        linear(blockIdx_x(scope), blockDim_x(scope), threadIdx_x(scope)),
        scope,
    )
}

/// The global two-dimensional thread index for a const row stride, as
/// `row * ROW_STRIDE + col`; `None` where `col >= ROW_STRIDE`.
pub fn index_2d<'kernel, const ROW_STRIDE: usize>(scope: &'kernel KernelScope<'kernel>) -> (idx:
    Option<ThreadIndex<'kernel, Index2D<ROW_STRIDE>>>)
    requires
        row_major_fits(scope.registers(), ROW_STRIDE as int),
    ensures
        match idx {
            Some(t) => row_major(scope.registers(), ROW_STRIDE as int) == Some(t.index() as int),
            None => row_major(scope.registers(), ROW_STRIDE as int) is None,
        },
{
    let row: usize = index_2d_row(scope);
    let col: usize = index_2d_col(scope);
    if col < ROW_STRIDE {
        assert(0 <= row * ROW_STRIDE) by (nonlinear_arith);
        Some(ThreadIndex::new(row * ROW_STRIDE + col, scope))
    } else {
        None
    }
}

/// Two-dimensional indexing with a row stride chosen at run time.
///
/// The indices of two threads are distinct only where both used the same
/// stride.
pub fn index_2d_runtime<'kernel>(scope: &'kernel KernelScope<'kernel>, row_stride: usize) -> (idx:
    Option<ThreadIndex<'kernel, Runtime2DIndex>>)
    requires
        row_major_fits(scope.registers(), row_stride as int),
    ensures
        match idx {
            Some(t) => row_major(scope.registers(), row_stride as int) == Some(t.index() as int),
            None => row_major(scope.registers(), row_stride as int) is None,
        },
{
    let row: usize = index_2d_row(scope);
    let col: usize = index_2d_col(scope);
    if col < row_stride {
        assert(0 <= row * row_stride) by (nonlinear_arith);
        Some(ThreadIndex::new(row * row_stride + col, scope))
    } else {
        None
    }
}

/// The row component of a two-dimensional thread index:
/// `blockIdx.y * blockDim.y + threadIdx.y`.
pub fn index_2d_row(scope: &KernelScope) -> (row: usize)
    requires
        row_of(scope.registers()) <= usize::MAX,
    ensures
        row == row_of(scope.registers()),
{
    linear(blockIdx_y(scope), blockDim_y(scope), threadIdx_y(scope))
}

/// The column component of a two-dimensional thread index:
/// `blockIdx.x * blockDim.x + threadIdx.x`.
pub fn index_2d_col(scope: &KernelScope) -> (col: usize)
    requires
        col_of(scope.registers()) <= usize::MAX,
    ensures
        col == col_of(scope.registers()),
{
    linear(blockIdx_x(scope), blockDim_x(scope), threadIdx_x(scope))
}

/// `threadIdx.x`: the thread within its block, less than `blockDim.x`.
pub fn threadIdx_x(scope: &KernelScope) -> (v: u32)
    ensures
        v == scope.registers().thread_idx.x,
        v < scope.registers().block_dim.x,
        scope.registers().block_dim.x == 1 ==> v == 0,
{
    proof {
        use_type_invariant(scope);
    }
    scope.registers.thread_idx.x
}

/// `blockIdx.x`: the block within the grid, less than `gridDim.x`.
pub fn blockIdx_x(scope: &KernelScope) -> (v: u32)
    ensures
        v == scope.registers().block_idx.x,
        v < scope.registers().grid_dim.x,
        scope.registers().grid_dim.x == 1 ==> v == 0,
{
    proof {
        use_type_invariant(scope);
    }
    scope.registers.block_idx.x
}

/// `blockDim.x`: threads per block, at least 1.
pub fn blockDim_x(scope: &KernelScope) -> (v: u32)
    ensures
        v == scope.registers().block_dim.x,
        v >= 1,
{
    proof {
        use_type_invariant(scope);
    }
    scope.registers.block_dim.x
}

/// `gridDim.x`: blocks per grid, at least 1.
pub fn gridDim_x(scope: &KernelScope) -> (v: u32)
    ensures
        v == scope.registers().grid_dim.x,
        v >= 1,
{
    proof {
        use_type_invariant(scope);
    }
    scope.registers.grid_dim.x
}

/// `threadIdx.y`: the thread within its block, less than `blockDim.y`.
pub fn threadIdx_y(scope: &KernelScope) -> (v: u32)
    ensures
        v == scope.registers().thread_idx.y,
        v < scope.registers().block_dim.y,
        scope.registers().block_dim.y == 1 ==> v == 0,
{
    proof {
        use_type_invariant(scope);
    }
    scope.registers.thread_idx.y
}

/// `blockIdx.y`: the block within the grid, less than `gridDim.y`.
pub fn blockIdx_y(scope: &KernelScope) -> (v: u32)
    ensures
        v == scope.registers().block_idx.y,
        v < scope.registers().grid_dim.y,
        scope.registers().grid_dim.y == 1 ==> v == 0,
{
    proof {
        use_type_invariant(scope);
    }
    scope.registers.block_idx.y
}

/// `blockDim.y`: threads per block, at least 1.
pub fn blockDim_y(scope: &KernelScope) -> (v: u32)
    ensures
        v == scope.registers().block_dim.y,
        v >= 1,
{
    proof {
        use_type_invariant(scope);
    }
    scope.registers.block_dim.y
}

/// `gridDim.y`: blocks per grid, at least 1.
pub fn gridDim_y(scope: &KernelScope) -> (v: u32)
    ensures
        v == scope.registers().grid_dim.y,
        v >= 1,
{
    proof {
        use_type_invariant(scope);
    }
    scope.registers.grid_dim.y
}

/// `threadIdx.z`: the thread within its block, less than `blockDim.z`.
pub fn threadIdx_z(scope: &KernelScope) -> (v: u32)
    ensures
        v == scope.registers().thread_idx.z,
        v < scope.registers().block_dim.z,
        scope.registers().block_dim.z == 1 ==> v == 0,
{
    proof {
        use_type_invariant(scope);
    }
    scope.registers.thread_idx.z
}

/// `blockIdx.z`: the block within the grid, less than `gridDim.z`.
pub fn blockIdx_z(scope: &KernelScope) -> (v: u32)
    ensures
        v == scope.registers().block_idx.z,
        v < scope.registers().grid_dim.z,
        scope.registers().grid_dim.z == 1 ==> v == 0,
{
    proof {
        use_type_invariant(scope);
    }
    scope.registers.block_idx.z
}

/// `blockDim.z`: threads per block, at least 1.
pub fn blockDim_z(scope: &KernelScope) -> (v: u32)
    ensures
        v == scope.registers().block_dim.z,
        v >= 1,
{
    proof {
        use_type_invariant(scope);
    }
    scope.registers.block_dim.z
}

/// `gridDim.z`: blocks per grid, at least 1.
pub fn gridDim_z(scope: &KernelScope) -> (v: u32)
    ensures
        v == scope.registers().grid_dim.z,
        v >= 1,
{
    proof {
        use_type_invariant(scope);
    }
    scope.registers.grid_dim.z
}

/// Block-level barrier: every thread of the block reaches it before any goes
/// on.
pub fn sync_threads(scope: &mut KernelScope)
    ensures
        final(scope).registers() == old(scope).registers(),
        final(scope).issued() == old(scope).issued().push(DeviceInstruction::BlockBarrier),
{
    scope.issue(DeviceInstruction::BlockBarrier);
}

// ---------------------------------------------------------------------------
// Launches
// ---------------------------------------------------------------------------

/// Whether the registers are those of a thread of block `block`, in a launch of
/// `grid_dim` blocks of `block_dim` threads.
pub open spec fn runs_in(
    r: SpecialRegisters,
    grid_dim: Dim3,
    block_dim: Dim3,
    block: Dim3,
) -> bool {
    launched(r) && r.grid_dim == grid_dim && r.block_dim == block_dim && r.block_idx == block
}

/// All threads of a block read the same block index, which is within the grid,
/// and the same dimensions. Each reads a thread index within the block; no two
/// threads read the same one.
pub proof fn law_block_shares_its_index(
    a: SpecialRegisters,
    b: SpecialRegisters,
    grid_dim: Dim3,
    block_dim: Dim3,
    block: Dim3,
)
    requires
        runs_in(a, grid_dim, block_dim, block),
        runs_in(b, grid_dim, block_dim, block),
    ensures
        a.block_idx == b.block_idx,
        a.block_dim == b.block_dim && a.grid_dim == b.grid_dim,
        a.block_idx.x < grid_dim.x && a.block_idx.y < grid_dim.y && a.block_idx.z < grid_dim.z,
        a.thread_idx.x < block_dim.x && a.thread_idx.y < block_dim.y && a.thread_idx.z
            < block_dim.z,
        distinct_threads(a, b) ==> a.thread_idx != b.thread_idx,
{
}

/// Whether the registers belong to two different threads of one launch.
pub open spec fn distinct_threads(a: SpecialRegisters, b: SpecialRegisters) -> bool {
    &&& launched(a)
    &&& launched(b)
    &&& a.block_dim == b.block_dim
    &&& a.grid_dim == b.grid_dim
    &&& a.thread_idx != b.thread_idx || a.block_idx != b.block_idx
}

/// `outer * stride + inner` is injective where `inner < stride`.
proof fn lemma_linear_injective(outer_a: int, inner_a: int, outer_b: int, inner_b: int, stride: int)
    requires
        0 <= inner_a < stride,
        0 <= inner_b < stride,
        outer_a * stride + inner_a == outer_b * stride + inner_b,
    ensures
        outer_a == outer_b,
        inner_a == inner_b,
{
    assert((outer_a - outer_b) * stride == inner_b - inner_a) by (nonlinear_arith)
        requires
            outer_a * stride + inner_a == outer_b * stride + inner_b,
    ;
    assert(outer_a == outer_b) by (nonlinear_arith)
        requires
            (outer_a - outer_b) * stride == inner_b - inner_a,
            0 <= inner_a < stride,
            0 <= inner_b < stride,
    ;
}

/// In a one-dimensional launch no two threads have the same [`index_1d`].
pub proof fn law_index_1d_unique(a: SpecialRegisters, b: SpecialRegisters)
    requires
        distinct_threads(a, b),
        a.block_dim.y == 1 && a.block_dim.z == 1,
        a.grid_dim.y == 1 && a.grid_dim.z == 1,
    ensures
        Index1D::formula(a) != Index1D::formula(b),
{
    if col_of(a) == col_of(b) {
        lemma_linear_injective(
            a.block_idx.x as int,
            a.thread_idx.x as int,
            b.block_idx.x as int,
            b.thread_idx.x as int,
            a.block_dim.x as int,
        );
    }
}

/// In a two-dimensional launch no two threads that have a row-major index for
/// the same stride have the same one. This covers [`index_2d`] with one
/// `ROW_STRIDE`, and [`index_2d_runtime`] with one `row_stride`.
pub proof fn law_index_2d_unique(a: SpecialRegisters, b: SpecialRegisters, row_stride: int)
    requires
        distinct_threads(a, b),
        a.block_dim.z == 1,
        a.grid_dim.z == 1,
        row_major(a, row_stride) is Some,
        row_major(b, row_stride) is Some,
    ensures
        row_major(a, row_stride) != row_major(b, row_stride),
{
    if row_major(a, row_stride) == row_major(b, row_stride) {
        assert(0 <= a.block_idx.x * a.block_dim.x) by (nonlinear_arith);
        assert(0 <= b.block_idx.x * b.block_dim.x) by (nonlinear_arith);
        lemma_linear_injective(row_of(a), col_of(a), row_of(b), col_of(b), row_stride);
        lemma_linear_injective(
            a.block_idx.x as int,
            a.thread_idx.x as int,
            b.block_idx.x as int,
            b.thread_idx.x as int,
            a.block_dim.x as int,
        );
        lemma_linear_injective(
            a.block_idx.y as int,
            a.thread_idx.y as int,
            b.block_idx.y as int,
            b.thread_idx.y as int,
            a.block_dim.y as int,
        );
    }
}

/// Threads of one column share their [`index_1d`] whatever their row: the
/// formula reads the X registers only.
pub proof fn law_index_1d_ignores_rows(a: SpecialRegisters, b: SpecialRegisters)
    requires
        a.block_idx.x == b.block_idx.x,
        a.block_dim.x == b.block_dim.x,
        a.thread_idx.x == b.thread_idx.x,
    ensures
        Index1D::formula(a) == Index1D::formula(b),
{
}

} // verus!
