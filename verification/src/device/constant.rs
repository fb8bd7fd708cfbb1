//! Constant memory: written by the host between launches, read by device
//! code.

use vstd::prelude::*;

verus! {

/// A value that may stand in constant memory: it is copied byte for byte, and
/// all zero bytes make a value of the type.
pub trait ConstantMemoryValue: Sized {
    /// The value of all zero bytes.
    spec fn zero() -> Self;

    /// The value of all zero bytes.
    fn zeroed() -> (z: Self)
        ensures
            z == Self::zero(),
    ;

    /// A copy of the value.
    fn read(&self) -> (copy: Self)
        ensures
            copy == *self,
    ;
}

impl ConstantMemoryValue for () {
    open spec fn zero() -> () {
        ()
    }

    fn zeroed() -> (z: ()) {
        ()
    }

    fn read(&self) -> (copy: ()) {
        ()
    }
}

impl ConstantMemoryValue for i8 {
    open spec fn zero() -> i8 {
        0
    }

    fn zeroed() -> (z: i8) {
        0
    }

    fn read(&self) -> (copy: i8) {
        *self
    }
}

impl ConstantMemoryValue for i16 {
    open spec fn zero() -> i16 {
        0
    }

    fn zeroed() -> (z: i16) {
        0
    }

    fn read(&self) -> (copy: i16) {
        *self
    }
}

impl ConstantMemoryValue for i32 {
    open spec fn zero() -> i32 {
        0
    }

    fn zeroed() -> (z: i32) {
        0
    }

    fn read(&self) -> (copy: i32) {
        *self
    }
}

impl ConstantMemoryValue for i64 {
    open spec fn zero() -> i64 {
        0
    }

    fn zeroed() -> (z: i64) {
        0
    }

    fn read(&self) -> (copy: i64) {
        *self
    }
}

impl ConstantMemoryValue for i128 {
    open spec fn zero() -> i128 {
        0
    }

    fn zeroed() -> (z: i128) {
        0
    }

    fn read(&self) -> (copy: i128) {
        *self
    }
}

impl ConstantMemoryValue for isize {
    open spec fn zero() -> isize {
        0
    }

    fn zeroed() -> (z: isize) {
        0
    }

    fn read(&self) -> (copy: isize) {
        *self
    }
}

impl ConstantMemoryValue for u8 {
    open spec fn zero() -> u8 {
        0
    }

    fn zeroed() -> (z: u8) {
        0
    }

    fn read(&self) -> (copy: u8) {
        *self
    }
}

impl ConstantMemoryValue for u16 {
    open spec fn zero() -> u16 {
        0
    }

    fn zeroed() -> (z: u16) {
        0
    }

    fn read(&self) -> (copy: u16) {
        *self
    }
}

impl ConstantMemoryValue for u32 {
    open spec fn zero() -> u32 {
        0
    }

    fn zeroed() -> (z: u32) {
        0
    }

    fn read(&self) -> (copy: u32) {
        *self
    }
}

impl ConstantMemoryValue for u64 {
    open spec fn zero() -> u64 {
        0
    }

    fn zeroed() -> (z: u64) {
        0
    }

    fn read(&self) -> (copy: u64) {
        *self
    }
}

impl ConstantMemoryValue for u128 {
    open spec fn zero() -> u128 {
        0
    }

    fn zeroed() -> (z: u128) {
        0
    }

    fn read(&self) -> (copy: u128) {
        *self
    }
}

impl ConstantMemoryValue for usize {
    open spec fn zero() -> usize {
        0
    }

    fn zeroed() -> (z: usize) {
        0
    }

    fn read(&self) -> (copy: usize) {
        *self
    }
}

impl<T: ConstantMemoryValue + Copy, const N: usize> ConstantMemoryValue for [T; N] {
    open spec fn zero() -> [T; N] {
        vstd::array::spec_array_fill_for_copy_type(T::zero())
    }

    fn zeroed() -> (z: [T; N]) {
        [T::zeroed();N]
    }

    fn read(&self) -> (copy: [T; N]) {
        *self
    }
}

impl<A: ConstantMemoryValue> ConstantMemoryValue for (A,) {
    open spec fn zero() -> (A,) {
        (A::zero(),)
    }

    fn zeroed() -> (z: (A,)) {
        (A::zeroed(),)
    }

    fn read(&self) -> (copy: (A,)) {
        (self.0.read(),)
    }
}

impl<A: ConstantMemoryValue, B: ConstantMemoryValue> ConstantMemoryValue for (A, B) {
    open spec fn zero() -> (A, B) {
        (A::zero(), B::zero())
    }

    fn zeroed() -> (z: (A, B)) {
        (A::zeroed(), B::zeroed())
    }

    fn read(&self) -> (copy: (A, B)) {
        (self.0.read(), self.1.read())
    }
}

impl<A: ConstantMemoryValue, B: ConstantMemoryValue, C: ConstantMemoryValue> ConstantMemoryValue for (A, B, C) {
    open spec fn zero() -> (A, B, C) {
        (A::zero(), B::zero(), C::zero())
    }

    fn zeroed() -> (z: (A, B, C)) {
        (A::zeroed(), B::zeroed(), C::zeroed())
    }

    fn read(&self) -> (copy: (A, B, C)) {
        (self.0.read(), self.1.read(), self.2.read())
    }
}

impl<A: ConstantMemoryValue, B: ConstantMemoryValue, C: ConstantMemoryValue, D: ConstantMemoryValue> ConstantMemoryValue for (A, B, C, D) {
    open spec fn zero() -> (A, B, C, D) {
        (A::zero(), B::zero(), C::zero(), D::zero())
    }

    fn zeroed() -> (z: (A, B, C, D)) {
        (A::zeroed(), B::zeroed(), C::zeroed(), D::zeroed())
    }

    fn read(&self) -> (copy: (A, B, C, D)) {
        (self.0.read(), self.1.read(), self.2.read(), self.3.read())
    }
}

impl<A: ConstantMemoryValue, B: ConstantMemoryValue, C: ConstantMemoryValue, D: ConstantMemoryValue, E: ConstantMemoryValue> ConstantMemoryValue for (A, B, C, D, E) {
    open spec fn zero() -> (A, B, C, D, E) {
        (A::zero(), B::zero(), C::zero(), D::zero(), E::zero())
    }

    fn zeroed() -> (z: (A, B, C, D, E)) {
        (A::zeroed(), B::zeroed(), C::zeroed(), D::zeroed(), E::zeroed())
    }

    fn read(&self) -> (copy: (A, B, C, D, E)) {
        (self.0.read(), self.1.read(), self.2.read(), self.3.read(), self.4.read())
    }
}

impl<A: ConstantMemoryValue, B: ConstantMemoryValue, C: ConstantMemoryValue, D: ConstantMemoryValue, E: ConstantMemoryValue, F: ConstantMemoryValue> ConstantMemoryValue for (A, B, C, D, E, F) {
    open spec fn zero() -> (A, B, C, D, E, F) {
        (A::zero(), B::zero(), C::zero(), D::zero(), E::zero(), F::zero())
    }

    fn zeroed() -> (z: (A, B, C, D, E, F)) {
        (A::zeroed(), B::zeroed(), C::zeroed(), D::zeroed(), E::zeroed(), F::zeroed())
    }

    fn read(&self) -> (copy: (A, B, C, D, E, F)) {
        (self.0.read(), self.1.read(), self.2.read(), self.3.read(), self.4.read(), self.5.read())
    }
}

impl<A: ConstantMemoryValue, B: ConstantMemoryValue, C: ConstantMemoryValue, D: ConstantMemoryValue, E: ConstantMemoryValue, F: ConstantMemoryValue, G: ConstantMemoryValue> ConstantMemoryValue for (A, B, C, D, E, F, G) {
    open spec fn zero() -> (A, B, C, D, E, F, G) {
        (A::zero(), B::zero(), C::zero(), D::zero(), E::zero(), F::zero(), G::zero())
    }

    fn zeroed() -> (z: (A, B, C, D, E, F, G)) {
        (A::zeroed(), B::zeroed(), C::zeroed(), D::zeroed(), E::zeroed(), F::zeroed(), G::zeroed())
    }

    fn read(&self) -> (copy: (A, B, C, D, E, F, G)) {
        (self.0.read(), self.1.read(), self.2.read(), self.3.read(), self.4.read(), self.5.read(), self.6.read())
    }
}

impl<A: ConstantMemoryValue, B: ConstantMemoryValue, C: ConstantMemoryValue, D: ConstantMemoryValue, E: ConstantMemoryValue, F: ConstantMemoryValue, G: ConstantMemoryValue, H: ConstantMemoryValue> ConstantMemoryValue for (A, B, C, D, E, F, G, H) {
    open spec fn zero() -> (A, B, C, D, E, F, G, H) {
        (A::zero(), B::zero(), C::zero(), D::zero(), E::zero(), F::zero(), G::zero(), H::zero())
    }

    fn zeroed() -> (z: (A, B, C, D, E, F, G, H)) {
        (A::zeroed(), B::zeroed(), C::zeroed(), D::zeroed(), E::zeroed(), F::zeroed(), G::zeroed(), H::zeroed())
    }

    fn read(&self) -> (copy: (A, B, C, D, E, F, G, H)) {
        (self.0.read(), self.1.read(), self.2.read(), self.3.read(), self.4.read(), self.5.read(), self.6.read(), self.7.read())
    }
}

/// A cell of constant memory.
pub struct ConstantMemory<T: ConstantMemoryValue>(T);

impl<T: ConstantMemoryValue> ConstantMemory<T> {
    /// The value in the cell.
    pub closed spec fn value(self) -> T {
        self.0
    }

    /// A cell that the host has not written yet: all zero bytes.
    pub fn uninit() -> (cell: Self)
        ensures
            cell.value() == T::zero(),
    {
        ConstantMemory(T::zeroed())
    }

    /// Replaces the value, as the host does between launches.
    pub fn set(&mut self, value: T)
        ensures
            final(self).value() == value,
    {
        self.0 = value;
    }

    /// Reads the current value.
    pub fn get(&self) -> (value: T)
        ensures
            value == self.value(),
    {
        self.0.read()
    }
}

} // verus!
