use vstd::prelude::*;
use core::ops::{RangeFrom, RangeFull, RangeInclusive, RangeTo, RangeToInclusive};
use vstd::std_specs::cmp::{PartialOrdIs, PartialOrdSpec};

verus! {

#[verifier::external_type_specification]
#[verifier::reject_recursive_types(Idx)]
pub struct ExRangeFrom<Idx>(RangeFrom<Idx>);

#[verifier::external_type_specification]
#[verifier::reject_recursive_types(Idx)]
pub struct ExRangeTo<Idx>(RangeTo<Idx>);

#[verifier::external_type_specification]
#[verifier::reject_recursive_types(Idx)]
pub struct ExRangeToInclusive<Idx>(RangeToInclusive<Idx>);

#[verifier::external_type_specification]
pub struct ExRangeFull(RangeFull);

/// `RangeInclusive::start`: the lower bound of the range.
pub assume_specification<Idx>[ RangeInclusive::<Idx>::start ](r: &RangeInclusive<Idx>) -> (s: &Idx)
    ensures
        *s == r@.start,
;

/// `RangeInclusive::end`: the upper bound of the range.
pub assume_specification<Idx>[ RangeInclusive::<Idx>::end ](r: &RangeInclusive<Idx>) -> (e: &Idx)
    ensures
        *e == r@.end,
;

/// `RangeInclusive::is_empty`: the range holds no value, because it was
/// iterated to its end or its start lies above its end.
pub assume_specification<Idx: PartialOrd<Idx>>[ RangeInclusive::<Idx>::is_empty ](
    r: &RangeInclusive<Idx>,
) -> (e: bool)
    where
        Idx: PartialOrd<Idx>,
    ensures
        Idx::obeys_partial_cmp_spec() ==> e == (r@.exhausted || !r@.start.is_le(&r@.end)),
;

} // verus!
