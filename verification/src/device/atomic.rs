//! Integer atomics with an explicit scope.
//!
//! The scope, which threads observe an atomic, is part of its type. The
//! operations are stated one at a time: each is atomic, so what a thread sees
//! of it is its effect on the value at that moment.

use core::marker::PhantomData;
use vstd::prelude::*;

verus! {

/// Memory ordering of an atomic operation.
#[derive(Debug, Clone, Copy, PartialEq, Eq, Structural)]
pub enum AtomicOrdering {
    /// No ordering guarantees.
    Relaxed,
    /// Sees what the releaser of the value wrote before it.
    Acquire,
    /// Shows all prior writes to whoever acquires the value.
    Release,
    /// Both.
    AcqRel,
    /// Both, in a single global total order.
    SeqCst,
}

impl AtomicOrdering {
    /// The number that stands for the ordering in compiled code.
    pub fn discriminant(self) -> (n: u8)
        ensures
            n == self.number(),
    {
        match self {
            AtomicOrdering::Relaxed => 0,
            AtomicOrdering::Acquire => 1,
            AtomicOrdering::Release => 2,
            AtomicOrdering::AcqRel => 3,
            AtomicOrdering::SeqCst => 4,
        }
    }

    /// The number that stands for the ordering in compiled code.
    pub open spec fn number(self) -> u8 {
        match self {
            AtomicOrdering::Relaxed => 0,
            AtomicOrdering::Acquire => 1,
            AtomicOrdering::Release => 2,
            AtomicOrdering::AcqRel => 3,
            AtomicOrdering::SeqCst => 4,
        }
    }

    /// Whether a load may have this ordering.
    pub open spec fn loads(self) -> bool {
        self == AtomicOrdering::Relaxed || self == AtomicOrdering::Acquire || self
            == AtomicOrdering::SeqCst
    }

    /// Whether a store may have this ordering.
    pub open spec fn stores(self) -> bool {
        self == AtomicOrdering::Relaxed || self == AtomicOrdering::Release || self
            == AtomicOrdering::SeqCst
    }
}

/// An integer that atomics hold.
pub trait AtomicInteger: Sized + Copy {
    spec fn wrapping_sum(self, other: Self) -> Self;

    spec fn wrapping_difference(self, other: Self) -> Self;

    spec fn bits_and(self, other: Self) -> Self;

    spec fn bits_or(self, other: Self) -> Self;

    spec fn bits_xor(self, other: Self) -> Self;

    spec fn below(self, other: Self) -> bool;

    fn sum(self, other: Self) -> (r: Self)
        ensures
            r == self.wrapping_sum(other),
    ;

    fn difference(self, other: Self) -> (r: Self)
        ensures
            r == self.wrapping_difference(other),
    ;

    fn and(self, other: Self) -> (r: Self)
        ensures
            r == self.bits_and(other),
    ;

    fn or(self, other: Self) -> (r: Self)
        ensures
            r == self.bits_or(other),
    ;

    fn xor(self, other: Self) -> (r: Self)
        ensures
            r == self.bits_xor(other),
    ;

    fn is_below(self, other: Self) -> (r: bool)
        ensures
            r == self.below(other),
    ;

    fn is_same(self, other: Self) -> (r: bool)
        ensures
            r == (self == other),
    ;
}

impl AtomicInteger for u32 {
    open spec fn wrapping_sum(self, other: u32) -> u32 {
        self.wrapping_add(other)
    }

    open spec fn wrapping_difference(self, other: u32) -> u32 {
        self.wrapping_sub(other)
    }

    open spec fn bits_and(self, other: u32) -> u32 {
        self & other
    }

    open spec fn bits_or(self, other: u32) -> u32 {
        self | other
    }

    open spec fn bits_xor(self, other: u32) -> u32 {
        self ^ other
    }

    open spec fn below(self, other: u32) -> bool {
        self < other
    }

    fn sum(self, other: u32) -> (r: u32) {
        self.wrapping_add(other)
    }

    fn difference(self, other: u32) -> (r: u32) {
        self.wrapping_sub(other)
    }

    fn and(self, other: u32) -> (r: u32) {
        self & other
    }

    fn or(self, other: u32) -> (r: u32) {
        self | other
    }

    fn xor(self, other: u32) -> (r: u32) {
        self ^ other
    }

    fn is_below(self, other: u32) -> (r: bool) {
        self < other
    }

    fn is_same(self, other: u32) -> (r: bool) {
        self == other
    }
}

impl AtomicInteger for i32 {
    open spec fn wrapping_sum(self, other: i32) -> i32 {
        self.wrapping_add(other)
    }

    open spec fn wrapping_difference(self, other: i32) -> i32 {
        self.wrapping_sub(other)
    }

    open spec fn bits_and(self, other: i32) -> i32 {
        self & other
    }

    open spec fn bits_or(self, other: i32) -> i32 {
        self | other
    }

    open spec fn bits_xor(self, other: i32) -> i32 {
        self ^ other
    }

    open spec fn below(self, other: i32) -> bool {
        self < other
    }

    fn sum(self, other: i32) -> (r: i32) {
        self.wrapping_add(other)
    }

    fn difference(self, other: i32) -> (r: i32) {
        self.wrapping_sub(other)
    }

    fn and(self, other: i32) -> (r: i32) {
        self & other
    }

    fn or(self, other: i32) -> (r: i32) {
        self | other
    }

    fn xor(self, other: i32) -> (r: i32) {
        self ^ other
    }

    fn is_below(self, other: i32) -> (r: bool) {
        self < other
    }

    fn is_same(self, other: i32) -> (r: bool) {
        self == other
    }
}

impl AtomicInteger for u64 {
    open spec fn wrapping_sum(self, other: u64) -> u64 {
        self.wrapping_add(other)
    }

    open spec fn wrapping_difference(self, other: u64) -> u64 {
        self.wrapping_sub(other)
    }

    open spec fn bits_and(self, other: u64) -> u64 {
        self & other
    }

    open spec fn bits_or(self, other: u64) -> u64 {
        self | other
    }

    open spec fn bits_xor(self, other: u64) -> u64 {
        self ^ other
    }

    open spec fn below(self, other: u64) -> bool {
        self < other
    }

    fn sum(self, other: u64) -> (r: u64) {
        self.wrapping_add(other)
    }

    fn difference(self, other: u64) -> (r: u64) {
        self.wrapping_sub(other)
    }

    fn and(self, other: u64) -> (r: u64) {
        self & other
    }

    fn or(self, other: u64) -> (r: u64) {
        self | other
    }

    fn xor(self, other: u64) -> (r: u64) {
        self ^ other
    }

    fn is_below(self, other: u64) -> (r: bool) {
        self < other
    }

    fn is_same(self, other: u64) -> (r: bool) {
        self == other
    }
}

impl AtomicInteger for i64 {
    open spec fn wrapping_sum(self, other: i64) -> i64 {
        self.wrapping_add(other)
    }

    open spec fn wrapping_difference(self, other: i64) -> i64 {
        self.wrapping_sub(other)
    }

    open spec fn bits_and(self, other: i64) -> i64 {
        self & other
    }

    open spec fn bits_or(self, other: i64) -> i64 {
        self | other
    }

    open spec fn bits_xor(self, other: i64) -> i64 {
        self ^ other
    }

    open spec fn below(self, other: i64) -> bool {
        self < other
    }

    fn sum(self, other: i64) -> (r: i64) {
        self.wrapping_add(other)
    }

    fn difference(self, other: i64) -> (r: i64) {
        self.wrapping_sub(other)
    }

    fn and(self, other: i64) -> (r: i64) {
        self & other
    }

    fn or(self, other: i64) -> (r: i64) {
        self | other
    }

    fn xor(self, other: i64) -> (r: i64) {
        self ^ other
    }

    fn is_below(self, other: i64) -> (r: bool) {
        self < other
    }

    fn is_same(self, other: i64) -> (r: bool) {
        self == other
    }
}

/// Observed by all threads of the device.
pub struct DeviceScope;

/// Observed by the threads of one block.
pub struct BlockScope;

/// Observed by the device and the host.
pub struct SystemScope;

/// An atomic integer that the threads of scope `S` observe.
pub struct ScopedAtomic<T: AtomicInteger, S> {
    inner: T,
    _scope: PhantomData<S>,
}

/// Device-scope atomic `u32`.
pub type DeviceAtomicU32 = ScopedAtomic<u32, DeviceScope>;

/// Device-scope atomic `i32`.
pub type DeviceAtomicI32 = ScopedAtomic<i32, DeviceScope>;

/// Device-scope atomic `u64`.
pub type DeviceAtomicU64 = ScopedAtomic<u64, DeviceScope>;

/// Device-scope atomic `i64`.
pub type DeviceAtomicI64 = ScopedAtomic<i64, DeviceScope>;

/// Block-scope atomic `u32`.
pub type BlockAtomicU32 = ScopedAtomic<u32, BlockScope>;

/// Block-scope atomic `i32`.
pub type BlockAtomicI32 = ScopedAtomic<i32, BlockScope>;

/// Block-scope atomic `u64`.
pub type BlockAtomicU64 = ScopedAtomic<u64, BlockScope>;

/// Block-scope atomic `i64`.
pub type BlockAtomicI64 = ScopedAtomic<i64, BlockScope>;

/// System-scope atomic `u32`.
pub type SystemAtomicU32 = ScopedAtomic<u32, SystemScope>;

/// System-scope atomic `i32`.
pub type SystemAtomicI32 = ScopedAtomic<i32, SystemScope>;

/// System-scope atomic `u64`.
pub type SystemAtomicU64 = ScopedAtomic<u64, SystemScope>;

/// System-scope atomic `i64`.
pub type SystemAtomicI64 = ScopedAtomic<i64, SystemScope>;

impl<T: AtomicInteger, S> ScopedAtomic<T, S> {
    /// The value held.
    pub closed spec fn value(self) -> T {
        self.inner
    }

    /// An atomic with the given initial value.
    pub fn new(val: T) -> (atomic: Self)
        ensures
            atomic.value() == val,
    {
        ScopedAtomic { inner: val, _scope: PhantomData }
    }

    /// Loads the value.
    pub fn load(&self, order: AtomicOrdering) -> (val: T)
        requires
            order.loads(),
        ensures
            val == self.value(),
    {
        self.inner
    }

    /// Stores a value.
    pub fn store(&mut self, val: T, order: AtomicOrdering)
        requires
            order.stores(),
        ensures
            final(self).value() == val,
    {
        self.inner = val;
    }

    /// Swaps in `val` and returns the previous value.
    pub fn swap(&mut self, val: T, order: AtomicOrdering) -> (previous: T)
        ensures
            previous == old(self).value(),
            final(self).value() == val,
    {
        let previous = self.inner;
        self.inner = val;
        previous
    }

    /// Adds `val`, wrapping around, and returns the previous value.
    pub fn fetch_add(&mut self, val: T, order: AtomicOrdering) -> (previous: T)
        ensures
            previous == old(self).value(),
            final(self).value() == old(self).value().wrapping_sum(val),
    {
        let previous = self.inner;
        self.inner = previous.sum(val);
        previous
    }

    /// Subtracts `val`, wrapping around, and returns the previous value.
    pub fn fetch_sub(&mut self, val: T, order: AtomicOrdering) -> (previous: T)
        ensures
            previous == old(self).value(),
            final(self).value() == old(self).value().wrapping_difference(val),
    {
        let previous = self.inner;
        self.inner = previous.difference(val);
        previous
    }

    /// Bitwise-ANDs with `val` and returns the previous value.
    pub fn fetch_and(&mut self, val: T, order: AtomicOrdering) -> (previous: T)
        ensures
            previous == old(self).value(),
            final(self).value() == old(self).value().bits_and(val),
    {
        let previous = self.inner;
        self.inner = previous.and(val);
        previous
    }

    /// Bitwise-ORs with `val` and returns the previous value.
    pub fn fetch_or(&mut self, val: T, order: AtomicOrdering) -> (previous: T)
        ensures
            previous == old(self).value(),
            final(self).value() == old(self).value().bits_or(val),
    {
        let previous = self.inner;
        self.inner = previous.or(val);
        previous
    }

    /// Bitwise-XORs with `val` and returns the previous value.
    pub fn fetch_xor(&mut self, val: T, order: AtomicOrdering) -> (previous: T)
        ensures
            previous == old(self).value(),
            final(self).value() == old(self).value().bits_xor(val),
    {
        let previous = self.inner;
        self.inner = previous.xor(val);
        previous
    }

    /// Keeps the smaller of the value and `val` and returns the previous value.
    pub fn fetch_min(&mut self, val: T, order: AtomicOrdering) -> (previous: T)
        ensures
            previous == old(self).value(),
            final(self).value() == if val.below(old(self).value()) {
                val
            } else {
                old(self).value()
            },
    {
        let previous = self.inner;
        if val.is_below(previous) {
            self.inner = val;
        }
        previous
    }

    /// Keeps the larger of the value and `val` and returns the previous value.
    pub fn fetch_max(&mut self, val: T, order: AtomicOrdering) -> (previous: T)
        ensures
            previous == old(self).value(),
            final(self).value() == if old(self).value().below(val) {
                val
            } else {
                old(self).value()
            },
    {
        let previous = self.inner;
        if previous.is_below(val) {
            self.inner = val;
        }
        previous
    }

    /// Replaces the value by `new` where it is `current`, and returns the
    /// previous value.
    fn compare_exchange_raw(
        &mut self,
        current: T,
        new: T,
        success: AtomicOrdering,
        failure: AtomicOrdering,
    ) -> (previous: T)
        ensures
            previous == old(self).value(),
            final(self).value() == if old(self).value() == current {
                new
            } else {
                old(self).value()
            },
    {
        let previous = self.inner;
        if previous.is_same(current) {
            self.inner = new;
        }
        previous
    }

    /// Compare-and-swap: where the value is `current`, sets it to `new` and
    /// returns `Ok(current)`; otherwise returns the value in `Err`.
    pub fn compare_exchange(
        &mut self,
        current: T,
        new: T,
        success: AtomicOrdering,
        failure: AtomicOrdering,
    ) -> (r: Result<T, T>)
        ensures
            old(self).value() == current ==> r == Ok::<T, T>(current) && final(self).value() == new,
            old(self).value() != current ==> {
                &&& r == Err::<T, T>(old(self).value())
                &&& final(self).value() == old(self).value()
            },
    {
        let previous = self.compare_exchange_raw(current, new, success, failure);
        if previous.is_same(current) {
            Ok(previous)
        } else {
            Err(previous)
        }
    }
}

} // verus!
