use vstd::prelude::*;
use core::ops::{Index, Range, RangeFrom, RangeFull, RangeInclusive, RangeTo, RangeToInclusive};
use crate::arc_vec::ArcVec;

verus! {

/// `index` selects a position of a sequence of length `len`: a
/// non-negative index counts from the front, a negative one from the back.
pub open spec fn neg_idx_valid(index: int, len: int) -> bool {
    -len <= index < len
}

/// `index` selects a position of a sequence of length `len`, and `len` fits
/// in an `isize`.
pub open spec fn neg_idx_in_range(index: int, len: int) -> bool {
    &&& len <= isize::MAX
    &&& neg_idx_valid(index, len)
}

/// The position that `index` selects in a sequence of length `len`.
pub open spec fn neg_idx_spec(index: int, len: int) -> int {
    if index < 0 {
        len + index
    } else {
        index
    }
}

/// Turns a possibly negative index into a position: negative numbers select
/// from the back, so `-1` is the last position and `-len` the first.
pub fn neg_idx(index: isize, len: usize) -> (r: usize)
    requires
        neg_idx_in_range(index as int, len as int),
    ensures
        r == neg_idx_spec(index as int, len as int),
{
    let len = len as isize;
    if index < 0 {
        (len + index) as usize
    } else {
        index as usize
    }
}

/// Every index in range selects a position of the sequence, and the
/// negative index `i - len` selects the same position as `i`.
pub proof fn law_neg_idx_from_back(index: int, len: int)
    requires
        neg_idx_in_range(index, len),
    ensures
        0 <= neg_idx_spec(index, len) < len,
        index >= 0 ==> neg_idx_spec(index - len, len) == neg_idx_spec(index, len),
{
}

/// A non-negative index in range selects exactly that position, and a
/// negative index `-k` selects the position `k` places from the back.
pub proof fn law_neg_idx_position(index: int, len: int)
    requires
        -len <= index < len,
    ensures
        0 <= index ==> neg_idx_spec(index, len) == index,
        index < 0 ==> neg_idx_spec(index, len) == len + index,
{
}

/// Indexing a sequence through `neg_idx` reads the same element as plain
/// indexing: position `i` is read both by `i` and by `i - len`, so `-1` reads
/// the last element and `-len` the first.
pub proof fn law_neg_idx_reads<T>(s: Seq<T>, i: int)
    requires
        0 <= i < s.len(),
    ensures
        s[neg_idx_spec(i, s.len() as int)] == s[i],
        s[neg_idx_spec(i - s.len(), s.len() as int)] == s[i],
        s.len() > 0 ==> s[neg_idx_spec(-1, s.len() as int)] == s.last(),
        s.len() > 0 ==> s[neg_idx_spec(-(s.len() as int), s.len() as int)] == s[0],
{
}

impl<T> Index<usize> for ArcVec<T> {
    type Output = T;

    fn index(&self, index: usize) -> (r: &T)
        ensures
            *r == self@[index as int],
    {
        &self.as_slice()[index]
    }
}

impl<T> vstd::std_specs::core::IndexSpecImpl<usize> for ArcVec<T> {
    open spec fn index_req(&self, index: &usize) -> bool {
        *index < self@.len()
    }
}

/// Extends indexing to allow negative indexing.
/// negative numbers select from the back
impl<T> Index<isize> for ArcVec<T> {
    type Output = T;

    fn index(&self, index: isize) -> (r: &T)
        ensures
            *r == self@[neg_idx_spec(index as int, self@.len() as int)],
    {
        let s = self.as_slice();
        &s[neg_idx(index, s.len())]
    }
}

impl<T> vstd::std_specs::core::IndexSpecImpl<isize> for ArcVec<T> {
    open spec fn index_req(&self, index: &isize) -> bool {
        neg_idx_valid(*index as int, self@.len() as int)
    }
}

impl<T> Index<Range<usize>> for ArcVec<T> {
    type Output = [T];

    fn index(&self, index: Range<usize>) -> (r: &[T])
        ensures
            r@ == self@.subrange(index.start as int, index.end as int),
    {
        &self.as_slice()[index]
    }
}

impl<T> vstd::std_specs::core::IndexSpecImpl<Range<usize>> for ArcVec<T> {
    open spec fn index_req(&self, index: &Range<usize>) -> bool {
        index.start <= index.end <= self@.len()
    }
}

impl<T> Index<RangeFrom<usize>> for ArcVec<T> {
    type Output = [T];

    fn index(&self, index: RangeFrom<usize>) -> (r: &[T])
        ensures
            r@ == self@.subrange(index.start as int, self@.len() as int),
    {
        let s = self.as_slice();
        &s[index.start..s.len()]
    }
}

impl<T> vstd::std_specs::core::IndexSpecImpl<RangeFrom<usize>> for ArcVec<T> {
    open spec fn index_req(&self, index: &RangeFrom<usize>) -> bool {
        index.start <= self@.len()
    }
}

impl<T> Index<RangeTo<usize>> for ArcVec<T> {
    type Output = [T];

    fn index(&self, index: RangeTo<usize>) -> (r: &[T])
        ensures
            r@ == self@.subrange(0, index.end as int),
    {
        &self.as_slice()[0..index.end]
    }
}

impl<T> vstd::std_specs::core::IndexSpecImpl<RangeTo<usize>> for ArcVec<T> {
    open spec fn index_req(&self, index: &RangeTo<usize>) -> bool {
        index.end <= self@.len()
    }
}

impl<T> Index<RangeInclusive<usize>> for ArcVec<T> {
    type Output = [T];

    /// A range that was iterated to its end selects nothing (just after its
    /// end), as slice indexing does.
    fn index(&self, index: RangeInclusive<usize>) -> (r: &[T])
        ensures
            r@ == if index@.exhausted {
                self@.subrange(index@.end + 1, index@.end + 1)
            } else {
                self@.subrange(index@.start as int, index@.end + 1)
            },
    {
        let s = self.as_slice();
        let end = *index.end();
        assert(end < s.len());
        if index.is_empty() {
            &s[end + 1..end + 1]
        } else {
            &s[*index.start()..end + 1]
        }
    }
}

impl<T> vstd::std_specs::core::IndexSpecImpl<RangeInclusive<usize>> for ArcVec<T> {
    open spec fn index_req(&self, index: &RangeInclusive<usize>) -> bool {
        &&& index@.exhausted || index@.start <= index@.end + 1
        &&& index@.end < self@.len()
    }
}

impl<T> Index<RangeToInclusive<usize>> for ArcVec<T> {
    type Output = [T];

    fn index(&self, index: RangeToInclusive<usize>) -> (r: &[T])
        ensures
            r@ == self@.subrange(0, index.end + 1),
    {
        let s = self.as_slice();
        assert(index.end < s.len());
        &s[0..index.end + 1]
    }
}

impl<T> vstd::std_specs::core::IndexSpecImpl<RangeToInclusive<usize>> for ArcVec<T> {
    open spec fn index_req(&self, index: &RangeToInclusive<usize>) -> bool {
        index.end < self@.len()
    }
}

impl<T> Index<RangeFull> for ArcVec<T> {
    type Output = [T];

    fn index(&self, _index: RangeFull) -> (r: &[T])
        ensures
            r@ == self@,
    {
        self.as_slice()
    }
}

impl<T> vstd::std_specs::core::IndexSpecImpl<RangeFull> for ArcVec<T> {
    open spec fn index_req(&self, index: &RangeFull) -> bool {
        true
    }
}

/// Both ends may be negative; each is turned into a position by `neg_idx`.
impl<T> Index<Range<isize>> for ArcVec<T> {
    type Output = [T];

    fn index(&self, index: Range<isize>) -> (r: &[T])
        ensures
            r@ == self@.subrange(
                neg_idx_spec(index.start as int, self@.len() as int),
                neg_idx_spec(index.end as int, self@.len() as int),
            ),
    {
        let s = self.as_slice();
        let len = s.len();
        let start = neg_idx(index.start, len);
        let end = neg_idx(index.end, len);
        &s[start..end]
    }
}

impl<T> vstd::std_specs::core::IndexSpecImpl<Range<isize>> for ArcVec<T> {
    open spec fn index_req(&self, index: &Range<isize>) -> bool {
        &&& neg_idx_valid(index.start as int, self@.len() as int)
        &&& neg_idx_valid(index.end as int, self@.len() as int)
        &&& neg_idx_spec(index.start as int, self@.len() as int) <= neg_idx_spec(
            index.end as int,
            self@.len() as int,
        )
    }
}

/// Both ends may be negative; each is turned into a position by `neg_idx`.
impl<T> Index<RangeInclusive<isize>> for ArcVec<T> {
    type Output = [T];

    fn index(&self, index: RangeInclusive<isize>) -> (r: &[T])
        ensures
            r@ == self@.subrange(
                neg_idx_spec(index@.start as int, self@.len() as int),
                neg_idx_spec(index@.end as int, self@.len() as int) + 1,
            ),
    {
        let s = self.as_slice();
        let len = s.len();
        let start = neg_idx(*index.start(), len);
        let end = neg_idx(*index.end(), len);
        &s[start..end + 1]
    }
}

impl<T> vstd::std_specs::core::IndexSpecImpl<RangeInclusive<isize>> for ArcVec<T> {
    open spec fn index_req(&self, index: &RangeInclusive<isize>) -> bool {
        &&& neg_idx_valid(index@.start as int, self@.len() as int)
        &&& neg_idx_valid(index@.end as int, self@.len() as int)
        &&& neg_idx_spec(index@.start as int, self@.len() as int) <= neg_idx_spec(
            index@.end as int,
            self@.len() as int,
        ) + 1
    }
}

/// The end may be negative; it is turned into a position by `neg_idx`.
impl<T> Index<RangeToInclusive<isize>> for ArcVec<T> {
    type Output = [T];

    fn index(&self, index: RangeToInclusive<isize>) -> (r: &[T])
        ensures
            r@ == self@.subrange(0, neg_idx_spec(index.end as int, self@.len() as int) + 1),
    {
        let s = self.as_slice();
        let end = neg_idx(index.end, s.len());
        &s[0..end + 1]
    }
}

impl<T> vstd::std_specs::core::IndexSpecImpl<RangeToInclusive<isize>> for ArcVec<T> {
    open spec fn index_req(&self, index: &RangeToInclusive<isize>) -> bool {
        neg_idx_valid(index.end as int, self@.len() as int)
    }
}

/// The end may be negative; it is turned into a position by `neg_idx`.
impl<T> Index<RangeTo<isize>> for ArcVec<T> {
    type Output = [T];

    fn index(&self, index: RangeTo<isize>) -> (r: &[T])
        ensures
            r@ == self@.subrange(0, neg_idx_spec(index.end as int, self@.len() as int)),
    {
        let s = self.as_slice();
        let end = neg_idx(index.end, s.len());
        &s[0..end]
    }
}

impl<T> vstd::std_specs::core::IndexSpecImpl<RangeTo<isize>> for ArcVec<T> {
    open spec fn index_req(&self, index: &RangeTo<isize>) -> bool {
        neg_idx_valid(index.end as int, self@.len() as int)
    }
}

/// The start may be negative; it is turned into a position by `neg_idx`.
impl<T> Index<RangeFrom<isize>> for ArcVec<T> {
    type Output = [T];

    fn index(&self, index: RangeFrom<isize>) -> (r: &[T])
        ensures
            r@ == self@.subrange(
                neg_idx_spec(index.start as int, self@.len() as int),
                self@.len() as int,
            ),
    {
        let s = self.as_slice();
        let len = s.len();
        let start = neg_idx(index.start, len);
        &s[start..len]
    }
}

impl<T> vstd::std_specs::core::IndexSpecImpl<RangeFrom<isize>> for ArcVec<T> {
    open spec fn index_req(&self, index: &RangeFrom<isize>) -> bool {
        neg_idx_valid(index.start as int, self@.len() as int)
    }
}

} // verus!
