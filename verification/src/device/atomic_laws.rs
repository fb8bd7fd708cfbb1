//! What the operations of the atomics amount to, as arithmetic on the values.

use crate::device::atomic::{AtomicInteger, AtomicOrdering, ScopedAtomic};
use vstd::prelude::*;

verus! {

/// No two orderings share a number, and the five are numbered from 0 in the
/// order in which they are declared.
pub proof fn law_discriminants_differ(a: AtomicOrdering, m: u8, b: AtomicOrdering, n: u8)
    requires
        call_ensures(AtomicOrdering::discriminant, (a,), m),
        call_ensures(AtomicOrdering::discriminant, (b,), n),
    ensures
        m == n <==> a == b,
        a == AtomicOrdering::Relaxed ==> m == 0,
        a == AtomicOrdering::Acquire ==> m == 1,
        a == AtomicOrdering::Release ==> m == 2,
        a == AtomicOrdering::AcqRel ==> m == 3,
        a == AtomicOrdering::SeqCst ==> m == 4,
{
}

/// A load cannot release and a store cannot acquire; every other ordering is
/// open to both.
pub proof fn law_orderings_of_loads_and_stores(order: AtomicOrdering)
    ensures
        order.loads() <==> !(order is Release || order is AcqRel),
        order.stores() <==> !(order is Acquire || order is AcqRel),
        order.loads() || order.stores() || order is AcqRel,
{
}

/// A fresh atomic holds its initial value, and a load reads it.
pub proof fn law_load_reads_initial_value<T: AtomicInteger, S>(
    val: T,
    atomic: ScopedAtomic<T, S>,
    order: AtomicOrdering,
    read: T,
)
    requires
        call_ensures(ScopedAtomic::<T, S>::new, (val,), atomic),
        call_ensures(ScopedAtomic::<T, S>::load, (&atomic, order), read),
    ensures
        read == val,
{
}

/// A load behind a store reads what was stored.
pub proof fn law_load_reads_stored_value<T: AtomicInteger, S>(
    atomic: &mut ScopedAtomic<T, S>,
    val: T,
    store_order: AtomicOrdering,
    load_order: AtomicOrdering,
    read: T,
)
    requires
        call_ensures(ScopedAtomic::<T, S>::store, (atomic, val, store_order), ()),
        call_ensures(ScopedAtomic::<T, S>::load, (final(atomic), load_order), read),
    ensures
        read == val,
{
}

/// A swap hands out what was there, and swapping that back in restores it.
pub proof fn law_swap_back_restores<T: AtomicInteger, S>(
    first: &mut ScopedAtomic<T, S>,
    second: &mut ScopedAtomic<T, S>,
    val: T,
    order: AtomicOrdering,
    previous: T,
    again: T,
)
    requires
        call_ensures(ScopedAtomic::<T, S>::swap, (first, val, order), previous),
        *old(second) == *final(first),
        call_ensures(ScopedAtomic::<T, S>::swap, (second, previous, order), again),
    ensures
        previous == old(first).value(),
        again == val,
        final(second).value() == old(first).value(),
{
}

/// An exchange changes the value if and only if it succeeds, succeeds if and
/// only if the value was the expected one, and reports the value it found.
pub proof fn law_exchange_is_conditional<T: AtomicInteger, S>(
    atomic: &mut ScopedAtomic<T, S>,
    current: T,
    new: T,
    success: AtomicOrdering,
    failure: AtomicOrdering,
    r: Result<T, T>,
)
    requires
        call_ensures(
            ScopedAtomic::<T, S>::compare_exchange,
            (atomic, current, new, success, failure),
            r,
        ),
    ensures
        r is Ok <==> old(atomic).value() == current,
        r is Ok ==> r->Ok_0 == current && final(atomic).value() == new,
        r is Err ==> r->Err_0 == old(atomic).value() && r->Err_0 != current,
        r is Err ==> final(atomic).value() == old(atomic).value(),
{
}

/// Sums and differences of `u32` values are those of the numbers up to a
/// multiple of 2 to the width: exact wherever the number is in range.
pub proof fn law_u32_arithmetic(a: u32, b: u32)
    ensures
        (a.wrapping_sum(b) - (a + b)) % 0x1_0000_0000 == 0,
        u32::MIN <= a + b <= u32::MAX ==> a.wrapping_sum(b) == a + b,
        (a.wrapping_difference(b) - (a - b)) % 0x1_0000_0000 == 0,
        u32::MIN <= a - b <= u32::MAX ==> a.wrapping_difference(b) == a - b,
        a.below(b) <==> (a as int) < (b as int),
{
}

/// A bit of the conjunction is set where it is set in both numbers, of the
/// disjunction where it is set in one of them, and of the exclusive
/// disjunction where it is set in exactly one.
pub proof fn law_u32_bits(a: u32, b: u32, i: u32)
    requires
        i < 32,
    ensures
        ((a.bits_and(b)) >> i) & 1 == 1 <==> ((a) >> i) & 1 == 1 && ((b) >> i) & 1 == 1,
        ((a.bits_or(b)) >> i) & 1 == 1 <==> ((a) >> i) & 1 == 1 || ((b) >> i) & 1 == 1,
        ((a.bits_xor(b)) >> i) & 1 == 1 <==> (((a) >> i) & 1 == 1) != (((b) >> i) & 1 == 1),
{
    assert((((a & b) >> i) & 1 == 1 <==> ((a) >> i) & 1 == 1 && ((b) >> i) & 1 == 1)
        && (((a | b) >> i) & 1 == 1 <==> ((a) >> i) & 1 == 1 || ((b) >> i) & 1 == 1)
        && (((a ^ b) >> i) & 1 == 1 <==> (((a) >> i) & 1 == 1) != (((b) >> i) & 1 == 1))) by (bit_vector)
        requires
            i < 32,
    ;
}

/// An addition to an atomic `u32` returns the value it found and leaves the
/// sum, up to a multiple of 2 to the width.
pub proof fn law_u32_fetch_add<S>(
    atomic: &mut ScopedAtomic<u32, S>,
    val: u32,
    order: AtomicOrdering,
    previous: u32,
)
    requires
        call_ensures(ScopedAtomic::<u32, S>::fetch_add, (atomic, val, order), previous),
    ensures
        previous == old(atomic).value(),
        (final(atomic).value() - (previous + val)) % 0x1_0000_0000 == 0,
        u32::MIN <= previous + val <= u32::MAX ==> final(atomic).value() == previous + val,
{
}

/// A subtraction from an atomic `u32` returns the value it found and leaves
/// the difference, up to a multiple of 2 to the width.
pub proof fn law_u32_fetch_sub<S>(
    atomic: &mut ScopedAtomic<u32, S>,
    val: u32,
    order: AtomicOrdering,
    previous: u32,
)
    requires
        call_ensures(ScopedAtomic::<u32, S>::fetch_sub, (atomic, val, order), previous),
    ensures
        previous == old(atomic).value(),
        (final(atomic).value() - (previous - val)) % 0x1_0000_0000 == 0,
        u32::MIN <= previous - val <= u32::MAX ==> final(atomic).value() == previous - val,
{
}

/// Adding a number to an atomic `u32` and subtracting it again restores the
/// value.
pub proof fn law_u32_sub_undoes_add<S>(
    first: &mut ScopedAtomic<u32, S>,
    second: &mut ScopedAtomic<u32, S>,
    val: u32,
    order: AtomicOrdering,
    before: u32,
    between: u32,
)
    requires
        call_ensures(ScopedAtomic::<u32, S>::fetch_add, (first, val, order), before),
        *old(second) == *final(first),
        call_ensures(ScopedAtomic::<u32, S>::fetch_sub, (second, val, order), between),
    ensures
        final(second).value() == old(first).value(),
        before == old(first).value(),
        between == final(first).value(),
{
}

/// A minimum leaves one of the two numbers, and neither is smaller; a maximum
/// leaves one of them, and neither is larger.
pub proof fn law_u32_extrema<S>(
    low: &mut ScopedAtomic<u32, S>,
    high: &mut ScopedAtomic<u32, S>,
    val: u32,
    order: AtomicOrdering,
    before_low: u32,
    before_high: u32,
)
    requires
        call_ensures(ScopedAtomic::<u32, S>::fetch_min, (low, val, order), before_low),
        call_ensures(ScopedAtomic::<u32, S>::fetch_max, (high, val, order), before_high),
    ensures
        before_low == old(low).value(),
        final(low).value() == val || final(low).value() == before_low,
        final(low).value() <= val,
        final(low).value() <= before_low,
        before_high == old(high).value(),
        final(high).value() == val || final(high).value() == before_high,
        final(high).value() >= val,
        final(high).value() >= before_high,
{
}

/// Each bitwise operation on an atomic `u32` returns the value it found; bit
/// by bit, AND keeps what is set in both numbers, OR what is set in one of
/// them, XOR what is set in exactly one.
pub proof fn law_u32_fetch_bits<S>(
    anded: &mut ScopedAtomic<u32, S>,
    ored: &mut ScopedAtomic<u32, S>,
    xored: &mut ScopedAtomic<u32, S>,
    val: u32,
    order: AtomicOrdering,
    before_and: u32,
    before_or: u32,
    before_xor: u32,
    i: u32,
)
    requires
        call_ensures(ScopedAtomic::<u32, S>::fetch_and, (anded, val, order), before_and),
        call_ensures(ScopedAtomic::<u32, S>::fetch_or, (ored, val, order), before_or),
        call_ensures(ScopedAtomic::<u32, S>::fetch_xor, (xored, val, order), before_xor),
        i < 32,
    ensures
        before_and == old(anded).value(),
        before_or == old(ored).value(),
        before_xor == old(xored).value(),
        ((final(anded).value()) >> i) & 1 == 1 <==> ((before_and) >> i) & 1 == 1 && ((val) >> i) & 1 == 1,
        ((final(ored).value()) >> i) & 1 == 1 <==> ((before_or) >> i) & 1 == 1 || ((val) >> i) & 1 == 1,
        ((final(xored).value()) >> i) & 1 == 1 <==> (((before_xor) >> i) & 1 == 1) != (((val) >> i) & 1 == 1),
{
    law_u32_bits(before_and, val, i);
    law_u32_bits(before_or, val, i);
    law_u32_bits(before_xor, val, i);
}

/// Sums and differences of `i32` values are those of the numbers up to a
/// multiple of 2 to the width: exact wherever the number is in range.
pub proof fn law_i32_arithmetic(a: i32, b: i32)
    ensures
        (a.wrapping_sum(b) - (a + b)) % 0x1_0000_0000 == 0,
        i32::MIN <= a + b <= i32::MAX ==> a.wrapping_sum(b) == a + b,
        (a.wrapping_difference(b) - (a - b)) % 0x1_0000_0000 == 0,
        i32::MIN <= a - b <= i32::MAX ==> a.wrapping_difference(b) == a - b,
        a.below(b) <==> (a as int) < (b as int),
{
}

/// A bit of the conjunction is set where it is set in both numbers, of the
/// disjunction where it is set in one of them, and of the exclusive
/// disjunction where it is set in exactly one.
pub proof fn law_i32_bits(a: i32, b: i32, i: u32)
    requires
        i < 32,
    ensures
        ((a.bits_and(b)) as u32 >> i) & 1 == 1 <==> ((a) as u32 >> i) & 1 == 1 && ((b) as u32 >> i) & 1 == 1,
        ((a.bits_or(b)) as u32 >> i) & 1 == 1 <==> ((a) as u32 >> i) & 1 == 1 || ((b) as u32 >> i) & 1 == 1,
        ((a.bits_xor(b)) as u32 >> i) & 1 == 1 <==> (((a) as u32 >> i) & 1 == 1) != (((b) as u32 >> i) & 1 == 1),
{
    assert((((a & b) as u32 >> i) & 1 == 1 <==> ((a) as u32 >> i) & 1 == 1 && ((b) as u32 >> i) & 1 == 1)
        && (((a | b) as u32 >> i) & 1 == 1 <==> ((a) as u32 >> i) & 1 == 1 || ((b) as u32 >> i) & 1 == 1)
        && (((a ^ b) as u32 >> i) & 1 == 1 <==> (((a) as u32 >> i) & 1 == 1) != (((b) as u32 >> i) & 1 == 1))) by (bit_vector)
        requires
            i < 32,
    ;
}

/// An addition to an atomic `i32` returns the value it found and leaves the
/// sum, up to a multiple of 2 to the width.
pub proof fn law_i32_fetch_add<S>(
    atomic: &mut ScopedAtomic<i32, S>,
    val: i32,
    order: AtomicOrdering,
    previous: i32,
)
    requires
        call_ensures(ScopedAtomic::<i32, S>::fetch_add, (atomic, val, order), previous),
    ensures
        previous == old(atomic).value(),
        (final(atomic).value() - (previous + val)) % 0x1_0000_0000 == 0,
        i32::MIN <= previous + val <= i32::MAX ==> final(atomic).value() == previous + val,
{
}

/// A subtraction from an atomic `i32` returns the value it found and leaves
/// the difference, up to a multiple of 2 to the width.
pub proof fn law_i32_fetch_sub<S>(
    atomic: &mut ScopedAtomic<i32, S>,
    val: i32,
    order: AtomicOrdering,
    previous: i32,
)
    requires
        call_ensures(ScopedAtomic::<i32, S>::fetch_sub, (atomic, val, order), previous),
    ensures
        previous == old(atomic).value(),
        (final(atomic).value() - (previous - val)) % 0x1_0000_0000 == 0,
        i32::MIN <= previous - val <= i32::MAX ==> final(atomic).value() == previous - val,
{
}

/// Adding a number to an atomic `i32` and subtracting it again restores the
/// value.
pub proof fn law_i32_sub_undoes_add<S>(
    first: &mut ScopedAtomic<i32, S>,
    second: &mut ScopedAtomic<i32, S>,
    val: i32,
    order: AtomicOrdering,
    before: i32,
    between: i32,
)
    requires
        call_ensures(ScopedAtomic::<i32, S>::fetch_add, (first, val, order), before),
        *old(second) == *final(first),
        call_ensures(ScopedAtomic::<i32, S>::fetch_sub, (second, val, order), between),
    ensures
        final(second).value() == old(first).value(),
        before == old(first).value(),
        between == final(first).value(),
{
}

/// A minimum leaves one of the two numbers, and neither is smaller; a maximum
/// leaves one of them, and neither is larger.
pub proof fn law_i32_extrema<S>(
    low: &mut ScopedAtomic<i32, S>,
    high: &mut ScopedAtomic<i32, S>,
    val: i32,
    order: AtomicOrdering,
    before_low: i32,
    before_high: i32,
)
    requires
        call_ensures(ScopedAtomic::<i32, S>::fetch_min, (low, val, order), before_low),
        call_ensures(ScopedAtomic::<i32, S>::fetch_max, (high, val, order), before_high),
    ensures
        before_low == old(low).value(),
        final(low).value() == val || final(low).value() == before_low,
        final(low).value() <= val,
        final(low).value() <= before_low,
        before_high == old(high).value(),
        final(high).value() == val || final(high).value() == before_high,
        final(high).value() >= val,
        final(high).value() >= before_high,
{
}

/// Each bitwise operation on an atomic `i32` returns the value it found; bit
/// by bit, AND keeps what is set in both numbers, OR what is set in one of
/// them, XOR what is set in exactly one.
pub proof fn law_i32_fetch_bits<S>(
    anded: &mut ScopedAtomic<i32, S>,
    ored: &mut ScopedAtomic<i32, S>,
    xored: &mut ScopedAtomic<i32, S>,
    val: i32,
    order: AtomicOrdering,
    before_and: i32,
    before_or: i32,
    before_xor: i32,
    i: u32,
)
    requires
        call_ensures(ScopedAtomic::<i32, S>::fetch_and, (anded, val, order), before_and),
        call_ensures(ScopedAtomic::<i32, S>::fetch_or, (ored, val, order), before_or),
        call_ensures(ScopedAtomic::<i32, S>::fetch_xor, (xored, val, order), before_xor),
        i < 32,
    ensures
        before_and == old(anded).value(),
        before_or == old(ored).value(),
        before_xor == old(xored).value(),
        ((final(anded).value()) as u32 >> i) & 1 == 1 <==> ((before_and) as u32 >> i) & 1 == 1 && ((val) as u32 >> i) & 1 == 1,
        ((final(ored).value()) as u32 >> i) & 1 == 1 <==> ((before_or) as u32 >> i) & 1 == 1 || ((val) as u32 >> i) & 1 == 1,
        ((final(xored).value()) as u32 >> i) & 1 == 1 <==> (((before_xor) as u32 >> i) & 1 == 1) != (((val) as u32 >> i) & 1 == 1),
{
    law_i32_bits(before_and, val, i);
    law_i32_bits(before_or, val, i);
    law_i32_bits(before_xor, val, i);
}

/// Sums and differences of `u64` values are those of the numbers up to a
/// multiple of 2 to the width: exact wherever the number is in range.
pub proof fn law_u64_arithmetic(a: u64, b: u64)
    ensures
        (a.wrapping_sum(b) - (a + b)) % 0x1_0000_0000_0000_0000 == 0,
        u64::MIN <= a + b <= u64::MAX ==> a.wrapping_sum(b) == a + b,
        (a.wrapping_difference(b) - (a - b)) % 0x1_0000_0000_0000_0000 == 0,
        u64::MIN <= a - b <= u64::MAX ==> a.wrapping_difference(b) == a - b,
        a.below(b) <==> (a as int) < (b as int),
{
}

/// A bit of the conjunction is set where it is set in both numbers, of the
/// disjunction where it is set in one of them, and of the exclusive
/// disjunction where it is set in exactly one.
pub proof fn law_u64_bits(a: u64, b: u64, i: u64)
    requires
        i < 64,
    ensures
        ((a.bits_and(b)) >> i) & 1 == 1 <==> ((a) >> i) & 1 == 1 && ((b) >> i) & 1 == 1,
        ((a.bits_or(b)) >> i) & 1 == 1 <==> ((a) >> i) & 1 == 1 || ((b) >> i) & 1 == 1,
        ((a.bits_xor(b)) >> i) & 1 == 1 <==> (((a) >> i) & 1 == 1) != (((b) >> i) & 1 == 1),
{
    assert((((a & b) >> i) & 1 == 1 <==> ((a) >> i) & 1 == 1 && ((b) >> i) & 1 == 1)
        && (((a | b) >> i) & 1 == 1 <==> ((a) >> i) & 1 == 1 || ((b) >> i) & 1 == 1)
        && (((a ^ b) >> i) & 1 == 1 <==> (((a) >> i) & 1 == 1) != (((b) >> i) & 1 == 1))) by (bit_vector)
        requires
            i < 64,
    ;
}

/// An addition to an atomic `u64` returns the value it found and leaves the
/// sum, up to a multiple of 2 to the width.
pub proof fn law_u64_fetch_add<S>(
    atomic: &mut ScopedAtomic<u64, S>,
    val: u64,
    order: AtomicOrdering,
    previous: u64,
)
    requires
        call_ensures(ScopedAtomic::<u64, S>::fetch_add, (atomic, val, order), previous),
    ensures
        previous == old(atomic).value(),
        (final(atomic).value() - (previous + val)) % 0x1_0000_0000_0000_0000 == 0,
        u64::MIN <= previous + val <= u64::MAX ==> final(atomic).value() == previous + val,
{
}

/// A subtraction from an atomic `u64` returns the value it found and leaves
/// the difference, up to a multiple of 2 to the width.
pub proof fn law_u64_fetch_sub<S>(
    atomic: &mut ScopedAtomic<u64, S>,
    val: u64,
    order: AtomicOrdering,
    previous: u64,
)
    requires
        call_ensures(ScopedAtomic::<u64, S>::fetch_sub, (atomic, val, order), previous),
    ensures
        previous == old(atomic).value(),
        (final(atomic).value() - (previous - val)) % 0x1_0000_0000_0000_0000 == 0,
        u64::MIN <= previous - val <= u64::MAX ==> final(atomic).value() == previous - val,
{
}

/// Adding a number to an atomic `u64` and subtracting it again restores the
/// value.
pub proof fn law_u64_sub_undoes_add<S>(
    first: &mut ScopedAtomic<u64, S>,
    second: &mut ScopedAtomic<u64, S>,
    val: u64,
    order: AtomicOrdering,
    before: u64,
    between: u64,
)
    requires
        call_ensures(ScopedAtomic::<u64, S>::fetch_add, (first, val, order), before),
        *old(second) == *final(first),
        call_ensures(ScopedAtomic::<u64, S>::fetch_sub, (second, val, order), between),
    ensures
        final(second).value() == old(first).value(),
        before == old(first).value(),
        between == final(first).value(),
{
}

/// A minimum leaves one of the two numbers, and neither is smaller; a maximum
/// leaves one of them, and neither is larger.
pub proof fn law_u64_extrema<S>(
    low: &mut ScopedAtomic<u64, S>,
    high: &mut ScopedAtomic<u64, S>,
    val: u64,
    order: AtomicOrdering,
    before_low: u64,
    before_high: u64,
)
    requires
        call_ensures(ScopedAtomic::<u64, S>::fetch_min, (low, val, order), before_low),
        call_ensures(ScopedAtomic::<u64, S>::fetch_max, (high, val, order), before_high),
    ensures
        before_low == old(low).value(),
        final(low).value() == val || final(low).value() == before_low,
        final(low).value() <= val,
        final(low).value() <= before_low,
        before_high == old(high).value(),
        final(high).value() == val || final(high).value() == before_high,
        final(high).value() >= val,
        final(high).value() >= before_high,
{
}

/// Each bitwise operation on an atomic `u64` returns the value it found; bit
/// by bit, AND keeps what is set in both numbers, OR what is set in one of
/// them, XOR what is set in exactly one.
pub proof fn law_u64_fetch_bits<S>(
    anded: &mut ScopedAtomic<u64, S>,
    ored: &mut ScopedAtomic<u64, S>,
    xored: &mut ScopedAtomic<u64, S>,
    val: u64,
    order: AtomicOrdering,
    before_and: u64,
    before_or: u64,
    before_xor: u64,
    i: u64,
)
    requires
        call_ensures(ScopedAtomic::<u64, S>::fetch_and, (anded, val, order), before_and),
        call_ensures(ScopedAtomic::<u64, S>::fetch_or, (ored, val, order), before_or),
        call_ensures(ScopedAtomic::<u64, S>::fetch_xor, (xored, val, order), before_xor),
        i < 64,
    ensures
        before_and == old(anded).value(),
        before_or == old(ored).value(),
        before_xor == old(xored).value(),
        ((final(anded).value()) >> i) & 1 == 1 <==> ((before_and) >> i) & 1 == 1 && ((val) >> i) & 1 == 1,
        ((final(ored).value()) >> i) & 1 == 1 <==> ((before_or) >> i) & 1 == 1 || ((val) >> i) & 1 == 1,
        ((final(xored).value()) >> i) & 1 == 1 <==> (((before_xor) >> i) & 1 == 1) != (((val) >> i) & 1 == 1),
{
    law_u64_bits(before_and, val, i);
    law_u64_bits(before_or, val, i);
    law_u64_bits(before_xor, val, i);
}

/// Sums and differences of `i64` values are those of the numbers up to a
/// multiple of 2 to the width: exact wherever the number is in range.
pub proof fn law_i64_arithmetic(a: i64, b: i64)
    ensures
        (a.wrapping_sum(b) - (a + b)) % 0x1_0000_0000_0000_0000 == 0,
        i64::MIN <= a + b <= i64::MAX ==> a.wrapping_sum(b) == a + b,
        (a.wrapping_difference(b) - (a - b)) % 0x1_0000_0000_0000_0000 == 0,
        i64::MIN <= a - b <= i64::MAX ==> a.wrapping_difference(b) == a - b,
        a.below(b) <==> (a as int) < (b as int),
{
}

/// A bit of the conjunction is set where it is set in both numbers, of the
/// disjunction where it is set in one of them, and of the exclusive
/// disjunction where it is set in exactly one.
pub proof fn law_i64_bits(a: i64, b: i64, i: u64)
    requires
        i < 64,
    ensures
        ((a.bits_and(b)) as u64 >> i) & 1 == 1 <==> ((a) as u64 >> i) & 1 == 1 && ((b) as u64 >> i) & 1 == 1,
        ((a.bits_or(b)) as u64 >> i) & 1 == 1 <==> ((a) as u64 >> i) & 1 == 1 || ((b) as u64 >> i) & 1 == 1,
        ((a.bits_xor(b)) as u64 >> i) & 1 == 1 <==> (((a) as u64 >> i) & 1 == 1) != (((b) as u64 >> i) & 1 == 1),
{
    assert((((a & b) as u64 >> i) & 1 == 1 <==> ((a) as u64 >> i) & 1 == 1 && ((b) as u64 >> i) & 1 == 1)
        && (((a | b) as u64 >> i) & 1 == 1 <==> ((a) as u64 >> i) & 1 == 1 || ((b) as u64 >> i) & 1 == 1)
        && (((a ^ b) as u64 >> i) & 1 == 1 <==> (((a) as u64 >> i) & 1 == 1) != (((b) as u64 >> i) & 1 == 1))) by (bit_vector)
        requires
            i < 64,
    ;
}

/// An addition to an atomic `i64` returns the value it found and leaves the
/// sum, up to a multiple of 2 to the width.
pub proof fn law_i64_fetch_add<S>(
    atomic: &mut ScopedAtomic<i64, S>,
    val: i64,
    order: AtomicOrdering,
    previous: i64,
)
    requires
        call_ensures(ScopedAtomic::<i64, S>::fetch_add, (atomic, val, order), previous),
    ensures
        previous == old(atomic).value(),
        (final(atomic).value() - (previous + val)) % 0x1_0000_0000_0000_0000 == 0,
        i64::MIN <= previous + val <= i64::MAX ==> final(atomic).value() == previous + val,
{
}

/// A subtraction from an atomic `i64` returns the value it found and leaves
/// the difference, up to a multiple of 2 to the width.
pub proof fn law_i64_fetch_sub<S>(
    atomic: &mut ScopedAtomic<i64, S>,
    val: i64,
    order: AtomicOrdering,
    previous: i64,
)
    requires
        call_ensures(ScopedAtomic::<i64, S>::fetch_sub, (atomic, val, order), previous),
    ensures
        previous == old(atomic).value(),
        (final(atomic).value() - (previous - val)) % 0x1_0000_0000_0000_0000 == 0,
        i64::MIN <= previous - val <= i64::MAX ==> final(atomic).value() == previous - val,
{
}

/// Adding a number to an atomic `i64` and subtracting it again restores the
/// value.
pub proof fn law_i64_sub_undoes_add<S>(
    first: &mut ScopedAtomic<i64, S>,
    second: &mut ScopedAtomic<i64, S>,
    val: i64,
    order: AtomicOrdering,
    before: i64,
    between: i64,
)
    requires
        call_ensures(ScopedAtomic::<i64, S>::fetch_add, (first, val, order), before),
        *old(second) == *final(first),
        call_ensures(ScopedAtomic::<i64, S>::fetch_sub, (second, val, order), between),
    ensures
        final(second).value() == old(first).value(),
        before == old(first).value(),
        between == final(first).value(),
{
}

/// A minimum leaves one of the two numbers, and neither is smaller; a maximum
/// leaves one of them, and neither is larger.
pub proof fn law_i64_extrema<S>(
    low: &mut ScopedAtomic<i64, S>,
    high: &mut ScopedAtomic<i64, S>,
    val: i64,
    order: AtomicOrdering,
    before_low: i64,
    before_high: i64,
)
    requires
        call_ensures(ScopedAtomic::<i64, S>::fetch_min, (low, val, order), before_low),
        call_ensures(ScopedAtomic::<i64, S>::fetch_max, (high, val, order), before_high),
    ensures
        before_low == old(low).value(),
        final(low).value() == val || final(low).value() == before_low,
        final(low).value() <= val,
        final(low).value() <= before_low,
        before_high == old(high).value(),
        final(high).value() == val || final(high).value() == before_high,
        final(high).value() >= val,
        final(high).value() >= before_high,
{
}

/// Each bitwise operation on an atomic `i64` returns the value it found; bit
/// by bit, AND keeps what is set in both numbers, OR what is set in one of
/// them, XOR what is set in exactly one.
pub proof fn law_i64_fetch_bits<S>(
    anded: &mut ScopedAtomic<i64, S>,
    ored: &mut ScopedAtomic<i64, S>,
    xored: &mut ScopedAtomic<i64, S>,
    val: i64,
    order: AtomicOrdering,
    before_and: i64,
    before_or: i64,
    before_xor: i64,
    i: u64,
)
    requires
        call_ensures(ScopedAtomic::<i64, S>::fetch_and, (anded, val, order), before_and),
        call_ensures(ScopedAtomic::<i64, S>::fetch_or, (ored, val, order), before_or),
        call_ensures(ScopedAtomic::<i64, S>::fetch_xor, (xored, val, order), before_xor),
        i < 64,
    ensures
        before_and == old(anded).value(),
        before_or == old(ored).value(),
        before_xor == old(xored).value(),
        ((final(anded).value()) as u64 >> i) & 1 == 1 <==> ((before_and) as u64 >> i) & 1 == 1 && ((val) as u64 >> i) & 1 == 1,
        ((final(ored).value()) as u64 >> i) & 1 == 1 <==> ((before_or) as u64 >> i) & 1 == 1 || ((val) as u64 >> i) & 1 == 1,
        ((final(xored).value()) as u64 >> i) & 1 == 1 <==> (((before_xor) as u64 >> i) & 1 == 1) != (((val) as u64 >> i) & 1 == 1),
{
    law_i64_bits(before_and, val, i);
    law_i64_bits(before_or, val, i);
    law_i64_bits(before_xor, val, i);
}

} // verus!
