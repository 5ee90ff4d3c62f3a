use vstd::prelude::*;
use core::ops::{Index, Range, RangeFrom, RangeFull, RangeInclusive, RangeTo, RangeToInclusive};
use crate::arc_vec_index::{neg_idx, neg_idx_valid, neg_idx_spec};
use crate::mut_arc_vec::MutArcVec;

verus! {

impl<T> Index<usize> for MutArcVec<T> {
    type Output = T;

    fn index(&self, index: usize) -> (r: &T)
        ensures
            *r == self@[index as int],
    {
        &self.as_slice()[index]
    }
}

impl<T> vstd::std_specs::core::IndexSpecImpl<usize> for MutArcVec<T> {
    open spec fn index_req(&self, index: &usize) -> bool {
        *index < self@.len()
    }
}

/// Extends indexing to allow negative indexing.
/// negative numbers select from the back
impl<T> Index<isize> for MutArcVec<T> {
    type Output = T;

    fn index(&self, index: isize) -> (r: &T)
        ensures
            *r == self@[neg_idx_spec(index as int, self@.len() as int)],
    {
        let s = self.as_slice();
        &s[neg_idx(index, s.len())]
    }
}

impl<T> vstd::std_specs::core::IndexSpecImpl<isize> for MutArcVec<T> {
    open spec fn index_req(&self, index: &isize) -> bool {
        neg_idx_valid(*index as int, self@.len() as int)
    }
}

impl<T> Index<Range<usize>> for MutArcVec<T> {
    type Output = [T];

    fn index(&self, index: Range<usize>) -> (r: &[T])
        ensures
            r@ == self@.subrange(index.start as int, index.end as int),
    {
        &self.as_slice()[index]
    }
}

impl<T> vstd::std_specs::core::IndexSpecImpl<Range<usize>> for MutArcVec<T> {
    open spec fn index_req(&self, index: &Range<usize>) -> bool {
        index.start <= index.end <= self@.len()
    }
}

impl<T> Index<RangeFrom<usize>> for MutArcVec<T> {
    type Output = [T];

    fn index(&self, index: RangeFrom<usize>) -> (r: &[T])
        ensures
            r@ == self@.subrange(index.start as int, self@.len() as int),
    {
        let s = self.as_slice();
        &s[index.start..s.len()]
    }
}

impl<T> vstd::std_specs::core::IndexSpecImpl<RangeFrom<usize>> for MutArcVec<T> {
    open spec fn index_req(&self, index: &RangeFrom<usize>) -> bool {
        index.start <= self@.len()
    }
}

impl<T> Index<RangeTo<usize>> for MutArcVec<T> {
    type Output = [T];

    fn index(&self, index: RangeTo<usize>) -> (r: &[T])
        ensures
            r@ == self@.subrange(0, index.end as int),
    {
        &self.as_slice()[0..index.end]
    }
}

impl<T> vstd::std_specs::core::IndexSpecImpl<RangeTo<usize>> for MutArcVec<T> {
    open spec fn index_req(&self, index: &RangeTo<usize>) -> bool {
        index.end <= self@.len()
    }
}

impl<T> Index<RangeInclusive<usize>> for MutArcVec<T> {
    type Output = [T];

    /// A range that was iterated to its end selects nothing (just after its
    /// end), as slice indexing does.
    fn index(&self, index: RangeInclusive<usize>) -> (r: &[T])
        ensures
            r@ == if index@.exhausted {
                self@.subrange(index@.end + 1, index@.end + 1)
            } else {
                self@.subrange(index@.start as int, index@.end + 1)
            },
    {
        let s = self.as_slice();
        let end = *index.end();
        assert(end < s.len());
        if index.is_empty() {
            &s[end + 1..end + 1]
        } else {
            &s[*index.start()..end + 1]
        }
    }
}

impl<T> vstd::std_specs::core::IndexSpecImpl<RangeInclusive<usize>> for MutArcVec<T> {
    open spec fn index_req(&self, index: &RangeInclusive<usize>) -> bool {
        &&& index@.exhausted || index@.start <= index@.end + 1
        &&& index@.end < self@.len()
    }
}

impl<T> Index<RangeToInclusive<usize>> for MutArcVec<T> {
    type Output = [T];

    fn index(&self, index: RangeToInclusive<usize>) -> (r: &[T])
        ensures
            r@ == self@.subrange(0, index.end + 1),
    {
        let s = self.as_slice();
        assert(index.end < s.len());
        &s[0..index.end + 1]
    }
}

impl<T> vstd::std_specs::core::IndexSpecImpl<RangeToInclusive<usize>> for MutArcVec<T> {
    open spec fn index_req(&self, index: &RangeToInclusive<usize>) -> bool {
        index.end < self@.len()
    }
}

impl<T> Index<RangeFull> for MutArcVec<T> {
    type Output = [T];

    fn index(&self, _index: RangeFull) -> (r: &[T])
        ensures
            r@ == self@,
    {
        self.as_slice()
    }
}

impl<T> vstd::std_specs::core::IndexSpecImpl<RangeFull> for MutArcVec<T> {
    open spec fn index_req(&self, index: &RangeFull) -> bool {
        true
    }
}

/// Both ends may be negative; each is turned into a position by `neg_idx`.
impl<T> Index<Range<isize>> for MutArcVec<T> {
    type Output = [T];

    fn index(&self, index: Range<isize>) -> (r: &[T])
        ensures
            r@ == self@.subrange(
                neg_idx_spec(index.start as int, self@.len() as int),
                neg_idx_spec(index.end as int, self@.len() as int),
            ),
    {
        let s = self.as_slice();
        let len = s.len();
        let start = neg_idx(index.start, len);
        let end = neg_idx(index.end, len);
        &s[start..end]
    }
}

impl<T> vstd::std_specs::core::IndexSpecImpl<Range<isize>> for MutArcVec<T> {
    open spec fn index_req(&self, index: &Range<isize>) -> bool {
        &&& neg_idx_valid(index.start as int, self@.len() as int)
        &&& neg_idx_valid(index.end as int, self@.len() as int)
        &&& neg_idx_spec(index.start as int, self@.len() as int) <= neg_idx_spec(
            index.end as int,
            self@.len() as int,
        )
    }
}

/// Both ends may be negative; each is turned into a position by `neg_idx`.
impl<T> Index<RangeInclusive<isize>> for MutArcVec<T> {
    type Output = [T];

    fn index(&self, index: RangeInclusive<isize>) -> (r: &[T])
        ensures
            r@ == self@.subrange(
                neg_idx_spec(index@.start as int, self@.len() as int),
                neg_idx_spec(index@.end as int, self@.len() as int) + 1,
            ),
    {
        let s = self.as_slice();
        let len = s.len();
        let start = neg_idx(*index.start(), len);
        let end = neg_idx(*index.end(), len);
        &s[start..end + 1]
    }
}

impl<T> vstd::std_specs::core::IndexSpecImpl<RangeInclusive<isize>> for MutArcVec<T> {
    open spec fn index_req(&self, index: &RangeInclusive<isize>) -> bool {
        &&& neg_idx_valid(index@.start as int, self@.len() as int)
        &&& neg_idx_valid(index@.end as int, self@.len() as int)
        &&& neg_idx_spec(index@.start as int, self@.len() as int) <= neg_idx_spec(
            index@.end as int,
            self@.len() as int,
        ) + 1
    }
}

/// The end may be negative; it is turned into a position by `neg_idx`.
impl<T> Index<RangeToInclusive<isize>> for MutArcVec<T> {
    type Output = [T];

    fn index(&self, index: RangeToInclusive<isize>) -> (r: &[T])
        ensures
            r@ == self@.subrange(0, neg_idx_spec(index.end as int, self@.len() as int) + 1),
    {
        let s = self.as_slice();
        let end = neg_idx(index.end, s.len());
        &s[0..end + 1]
    }
}

impl<T> vstd::std_specs::core::IndexSpecImpl<RangeToInclusive<isize>> for MutArcVec<T> {
    open spec fn index_req(&self, index: &RangeToInclusive<isize>) -> bool {
        neg_idx_valid(index.end as int, self@.len() as int)
    }
}

/// The end may be negative; it is turned into a position by `neg_idx`.
impl<T> Index<RangeTo<isize>> for MutArcVec<T> {
    type Output = [T];

    fn index(&self, index: RangeTo<isize>) -> (r: &[T])
        ensures
            r@ == self@.subrange(0, neg_idx_spec(index.end as int, self@.len() as int)),
    {
        let s = self.as_slice();
        let end = neg_idx(index.end, s.len());
        &s[0..end]
    }
}

impl<T> vstd::std_specs::core::IndexSpecImpl<RangeTo<isize>> for MutArcVec<T> {
    open spec fn index_req(&self, index: &RangeTo<isize>) -> bool {
        neg_idx_valid(index.end as int, self@.len() as int)
    }
}

/// The start may be negative; it is turned into a position by `neg_idx`.
impl<T> Index<RangeFrom<isize>> for MutArcVec<T> {
    type Output = [T];

    fn index(&self, index: RangeFrom<isize>) -> (r: &[T])
        ensures
            r@ == self@.subrange(
                neg_idx_spec(index.start as int, self@.len() as int),
                self@.len() as int,
            ),
    {
        let s = self.as_slice();
        let len = s.len();
        let start = neg_idx(index.start, len);
        &s[start..len]
    }
}

impl<T> vstd::std_specs::core::IndexSpecImpl<RangeFrom<isize>> for MutArcVec<T> {
    open spec fn index_req(&self, index: &RangeFrom<isize>) -> bool {
        neg_idx_valid(index.start as int, self@.len() as int)
    }
}

impl<T> core::ops::Deref for MutArcVec<T> {
    type Target = [T];

    fn deref(&self) -> (r: &[T])
        ensures
            r@ == self@,
    {
        self.as_slice()
    }
}

impl<T> core::ops::DerefMut for MutArcVec<T> {
    fn deref_mut(&mut self) -> (r: &mut [T])
        ensures
            r@ == old(self)@,
            final(r)@ == final(self)@,
            final(self).capacity() == old(self).capacity(),
    {
        self.as_mut_slice()
    }
}

} // verus!
