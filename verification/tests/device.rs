use std::cell::Cell;

use cuda_oxide::device::atomic::{
    AtomicOrdering, BlockAtomicI32, DeviceAtomicI64, DeviceAtomicU32, SystemAtomicU64,
};
use cuda_oxide::device::constant::{ConstantMemory, ConstantMemoryValue};
use cuda_oxide::device::debug::{
    breakpoint, clock, clock64, globaltimer, gpu_assert, prof_trigger, trap, DeviceCounters,
    GpuPrintfArg,
};
use cuda_oxide::device::disjoint::DisjointSlice;
use cuda_oxide::device::fence::{threadfence, threadfence_block, threadfence_system};
use cuda_oxide::device::thread::{
    blockDim_x, blockDim_y, blockDim_z, blockIdx_x, blockIdx_y, blockIdx_z, gridDim_x, gridDim_y,
    gridDim_z, index_1d, index_2d, index_2d_col, index_2d_row, index_2d_runtime, make_kernel_scope,
    sync_threads, threadIdx_x, threadIdx_y, threadIdx_z, DeviceInstruction, Dim3, Index1D, Index2D,
    KernelScope, SpecialRegisters,
};

/// The scope of one thread, in blocks of 4 by 2 threads.
fn scope_at(block: (u32, u32), thread: (u32, u32)) -> KernelScope<'static> {
    make_kernel_scope(SpecialRegisters {
        thread_idx: Dim3 { x: thread.0, y: thread.1, z: 1 },
        block_idx: Dim3 { x: block.0, y: block.1, z: 2 },
        block_dim: Dim3 { x: 4, y: 2, z: 3 },
        grid_dim: Dim3 { x: 5, y: 6, z: 7 },
    })
}

/// Counters that advance by 10 with each reading.
struct Ticking(Cell<u64>);

impl Ticking {
    fn tick(&self) -> u64 {
        self.0.set(self.0.get() + 10);
        self.0.get()
    }
}

impl DeviceCounters for Ticking {
    fn read_clock(&self) -> u32 {
        self.tick() as u32
    }
    fn read_clock64(&self) -> u64 {
        self.tick() + 1000
    }
    fn read_globaltimer(&self) -> u64 {
        self.tick() + 2000
    }
}

#[test]
fn registers_are_read_as_they_are() {
    let scope = scope_at((2, 1), (3, 0));
    assert_eq!((threadIdx_x(&scope), threadIdx_y(&scope), threadIdx_z(&scope)), (3, 0, 1));
    assert_eq!((blockIdx_x(&scope), blockIdx_y(&scope), blockIdx_z(&scope)), (2, 1, 2));
    assert_eq!((blockDim_x(&scope), blockDim_y(&scope), blockDim_z(&scope)), (4, 2, 3));
    assert_eq!((gridDim_x(&scope), gridDim_y(&scope), gridDim_z(&scope)), (5, 6, 7));
}

#[test]
fn registers_stay_and_are_in_range() {
    let mut scope = scope_at((2, 1), (3, 0));
    sync_threads(&mut scope);
    threadfence(&mut scope);
    assert_eq!((threadIdx_x(&scope), blockIdx_x(&scope), threadIdx_y(&scope)), (3, 2, 0));
    assert!(threadIdx_x(&scope) < blockDim_x(&scope) && blockIdx_x(&scope) < gridDim_x(&scope));

    let one = make_kernel_scope(SpecialRegisters {
        thread_idx: Dim3 { x: 0, y: 0, z: 0 },
        block_idx: Dim3 { x: 0, y: 0, z: 0 },
        block_dim: Dim3 { x: 1, y: 1, z: 1 },
        grid_dim: Dim3 { x: 1, y: 1, z: 1 },
    });
    assert_eq!((threadIdx_y(&one), blockDim_y(&one)), (0, 1));
}

#[test]
fn counters_advance_between_readings() {
    let mut scope = scope_at((0, 0), (0, 0));
    let counters = Ticking(Cell::new(0));
    let start = clock(&scope, &counters);
    sync_threads(&mut scope);
    assert_eq!(clock(&scope, &counters).wrapping_sub(start), 10);
    assert_eq!((clock64(&scope, &counters), globaltimer(&scope, &counters)), (1030, 2040));
}

#[test]
fn rows_past_32_bits_are_exact() {
    let scope = make_kernel_scope(SpecialRegisters {
        thread_idx: Dim3 { x: 0, y: 7, z: 0 },
        block_idx: Dim3 { x: 0, y: 0x1000_0000, z: 0 },
        block_dim: Dim3 { x: 1, y: 1024, z: 1 },
        grid_dim: Dim3 { x: 1, y: 0x2000_0000, z: 1 },
    });
    assert_eq!(index_2d_row(&scope), 0x1000_0000 * 1024 + 7);
    assert_eq!(index_2d::<1>(&scope).map(|t| t.get()), Some(index_2d_row(&scope)));
}

#[test]
fn indices_are_linear_in_block_and_thread() {
    let scope = scope_at((2, 1), (3, 0));
    let idx = index_1d(&scope);
    assert_eq!(idx.get(), 2 * 4 + 3);
    assert!(idx.in_bounds(12));
    assert!(!idx.in_bounds(11));
    assert_eq!(index_2d_row(&scope), 2);
    assert_eq!(index_2d_col(&scope), 11);
    assert_eq!(index_2d::<12>(&scope).map(|t| t.get()), Some(2 * 12 + 11));
    assert!(index_2d::<11>(&scope).is_none());
    assert_eq!(index_2d_runtime(&scope, 100).map(|t| t.get()), Some(211));
    assert!(index_2d_runtime(&scope, 11).is_none());
}

#[test]
fn threads_of_a_row_have_distinct_indices() {
    let mut seen = Vec::new();
    for block in 0..3 {
        for thread in 0..4 {
            seen.push(index_1d(&scope_at((block, 0), (thread, 0))).get());
        }
    }
    let expected: Vec<usize> = (0..12).collect();
    assert_eq!(seen, expected);
    // The one-dimensional index does not tell rows apart.
    assert_eq!(
        index_1d(&scope_at((1, 0), (2, 0))).get(),
        index_1d(&scope_at((1, 5), (2, 1))).get()
    );
    assert_ne!(
        index_2d::<12>(&scope_at((1, 0), (2, 0))).map(|t| t.get()),
        index_2d::<12>(&scope_at((1, 0), (2, 1))).map(|t| t.get())
    );
}

#[test]
fn each_thread_writes_its_own_element() {
    let mut data = [0u32; 12];
    for block in 0..3 {
        for thread in 0..4 {
            let scope = scope_at((block, 0), (thread, 0));
            let mut out: DisjointSlice<'_, u32, Index1D> = DisjointSlice::from_mut_slice(&mut data);
            assert_eq!(out.len(), 12);
            assert!(!out.is_empty());
            let idx = index_1d(&scope);
            *out.get_mut(idx).unwrap() = block * 10 + thread;
        }
    }
    assert_eq!(data, [0, 1, 2, 3, 10, 11, 12, 13, 20, 21, 22, 23]);
}

#[test]
fn elements_past_the_end_are_not_there() {
    let mut data = [1u8; 3];
    let scope = scope_at((0, 0), (3, 0));
    let mut out: DisjointSlice<'_, u8, Index1D> = DisjointSlice::from_mut_slice(&mut data);
    assert!(out.get_mut(index_1d(&scope)).is_none());
    assert!(out.get_mut_indexed(&scope).is_none());
    *out.get_unchecked_mut(2) = 9;
    assert_eq!(data, [1, 1, 9]);

    let mut grid = [0u8; 24];
    let scope = scope_at((1, 0), (2, 1));
    let mut out: DisjointSlice<'_, u8, Index2D<12>> = DisjointSlice::from_mut_slice(&mut grid);
    match out.get_mut_indexed(&scope) {
        Some((elem, idx)) => {
            *elem = 5;
            assert_eq!(idx.get(), 18);
        }
        None => panic!("the thread has an element"),
    }
    assert_eq!(out.len(), 24);
    assert_eq!(grid[18], 5);

    let mut none: [u8; 0] = [];
    let empty: DisjointSlice<'_, u8, Index1D> = DisjointSlice::from_mut_slice(&mut none);
    assert!(empty.is_empty());
}

#[test]
fn instructions_are_issued_in_order() {
    let mut scope = scope_at((0, 0), (0, 0));
    sync_threads(&mut scope);
    threadfence_block(&mut scope);
    threadfence(&mut scope);
    threadfence_system(&mut scope);
    let mut scope = gpu_assert(scope, true).unwrap_or_else(|_| panic!("the condition holds"));
    prof_trigger::<5>(&mut scope);
    breakpoint(&mut scope);
    let issued = vec![
        DeviceInstruction::BlockBarrier,
        DeviceInstruction::FenceBlock,
        DeviceInstruction::FenceDevice,
        DeviceInstruction::FenceSystem,
        DeviceInstruction::ProfTrigger(5),
        DeviceInstruction::Breakpoint,
    ];
    assert_eq!(scope.instructions(), &issued);
    let aborted = trap(scope);
    assert_eq!(aborted.issued[..6], issued);
    assert_eq!(aborted.issued[6..], [DeviceInstruction::Trap]);
}

#[test]
fn failed_assertions_trap() {
    match gpu_assert(scope_at((0, 0), (0, 0)), false) {
        Err(aborted) => assert_eq!(aborted.issued, vec![DeviceInstruction::Trap]),
        Ok(_) => panic!("the kernel must be aborted"),
    }
}

#[test]
fn printf_arguments_are_promoted() {
    assert_eq!((-1i8).promote(), -1i32);
    assert_eq!((-300i16).promote(), -300i32);
    assert_eq!(7i32.promote(), 7i32);
    assert_eq!(i64::MIN.promote(), i64::MIN);
    assert_eq!((-5isize).promote(), -5i64);
    assert_eq!(200u8.promote(), 200u32);
    assert_eq!(60_000u16.promote(), 60_000u32);
    assert_eq!(u32::MAX.promote(), u32::MAX);
    assert_eq!(u64::MAX.promote(), u64::MAX);
    assert_eq!(9usize.promote(), 9u64);
    assert_eq!(true.promote(), 1i32);
    assert_eq!(false.promote(), 0i32);
    assert_eq!((<i8 as GpuPrintfArg>::FORMAT_CHAR, <u64 as GpuPrintfArg>::FORMAT_CHAR), ('d', 'u'));
    assert!(<u64 as GpuPrintfArg>::IS_64BIT && !<u32 as GpuPrintfArg>::IS_64BIT);
    assert!(!<i64 as GpuPrintfArg>::IS_FLOAT);
}

#[test]
fn constant_memory_reads_back_what_was_set() {
    let mut cell: ConstantMemory<[u32; 3]> = ConstantMemory::uninit();
    assert_eq!(cell.get(), [0, 0, 0]);
    cell.set([4, 5, 6]);
    assert_eq!(cell.get(), [4, 5, 6]);
    assert_eq!(<(u8, (), (i64, [u16; 2]))>::zeroed(), (0, (), (0, [0, 0])));
    assert_eq!((1u8, 2i128).read(), (1, 2));
}

#[test]
fn atomics_return_the_previous_value() {
    let order = AtomicOrdering::Relaxed;
    let mut a = DeviceAtomicU32::new(5);
    assert_eq!(a.fetch_add(u32::MAX, order), 5);
    assert_eq!(a.load(order), 4);
    assert_eq!(a.fetch_sub(5, order), 4);
    assert_eq!(a.swap(0b1100, order), u32::MAX);
    assert_eq!(a.fetch_and(0b0110, order), 0b1100);
    assert_eq!(a.fetch_or(0b0001, order), 0b0100);
    assert_eq!(a.fetch_xor(0b1111, order), 0b0101);
    assert_eq!(a.load(order), 0b1010);
    a.store(7, order);
    assert_eq!(a.fetch_min(9, order), 7);
    assert_eq!(a.fetch_max(9, order), 7);
    assert_eq!(a.load(AtomicOrdering::SeqCst), 9);

    let mut b = BlockAtomicI32::new(i32::MAX);
    assert_eq!(b.fetch_add(1, order), i32::MAX);
    assert_eq!(b.load(order), i32::MIN);
    assert_eq!(b.fetch_max(-4, order), i32::MIN);
    assert_eq!(b.load(order), -4);

    let mut c = DeviceAtomicI64::new(-3);
    assert_eq!(c.fetch_min(-4, order), -3);
    assert_eq!(c.load(order), -4);

    let mut d = SystemAtomicU64::new(0);
    assert_eq!(d.fetch_sub(1, order), 0);
    assert_eq!(d.load(order), u64::MAX);
}

#[test]
fn compare_exchange_stores_only_on_a_match() {
    let (success, failure) = (AtomicOrdering::AcqRel, AtomicOrdering::Acquire);
    let mut a = DeviceAtomicU32::new(5);
    assert_eq!(a.compare_exchange(4, 9, success, failure), Err(5));
    assert_eq!(a.load(failure), 5);
    assert_eq!(a.compare_exchange(5, 9, success, failure), Ok(5));
    assert_eq!(a.load(failure), 9);
}

#[test]
fn orderings_have_distinct_numbers() {
    let numbers = [
        AtomicOrdering::Relaxed,
        AtomicOrdering::Acquire,
        AtomicOrdering::Release,
        AtomicOrdering::AcqRel,
        AtomicOrdering::SeqCst,
    ]
    .map(|order| order.discriminant());
    assert_eq!(numbers, [0, 1, 2, 3, 4]);
}
