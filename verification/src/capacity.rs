use vstd::prelude::*;

verus! {

/// A number of elements that a single buffer of `T` can be allocated for:
/// fewer than `isize::MAX` elements, and no more than `isize::MAX` bytes.
pub open spec fn fits_allocation<T>(cap: int) -> bool {
    &&& 0 <= cap < isize::MAX
    &&& cap * (vstd::layout::size_of::<T>() as int) <= isize::MAX
}

/// The capacity that `reserve(extra)` leaves behind on a buffer of
/// length `len` and capacity `cap`: it reallocates to exactly `len + extra`
/// when fewer than `extra` slots are free, and keeps `cap` otherwise.
pub open spec fn reserved_capacity(len: nat, cap: nat, extra: nat) -> nat {
    if cap - len < extra {
        len + extra
    } else {
        cap
    }
}

/// The capacity that a push onto a full buffer of capacity `cap` grows to:
/// twice the capacity, and one slot when there was none.
pub open spec fn grown_capacity(cap: nat) -> nat {
    if cap == 0 {
        1
    } else {
        2 * cap
    }
}

/// A capacity that fits an allocation keeps fitting when it is made smaller.
pub proof fn lemma_fits_allocation_smaller<T>(small: int, big: int)
    requires
        0 <= small <= big,
        fits_allocation::<T>(big),
    ensures
        fits_allocation::<T>(small),
{
    vstd::arithmetic::mul::lemma_mul_inequality(
        small,
        big,
        vstd::layout::size_of::<T>() as int,
    );
}

/// After `reserve(extra)` at least `extra` slots are free, and the capacity
/// never shrinks.
pub proof fn lemma_reserve_leaves_room(len: nat, cap: nat, extra: nat)
    requires
        len <= cap,
    ensures
        reserved_capacity(len, cap, extra) >= len + extra,
        reserved_capacity(len, cap, extra) >= cap,
{
}

} // verus!
