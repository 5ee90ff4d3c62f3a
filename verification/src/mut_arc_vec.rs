use vstd::prelude::*;
use crate::capacity::{fits_allocation, grown_capacity, reserved_capacity, lemma_fits_allocation_smaller};
use crate::filter::{filter_by, is_index, lemma_filter_by_step, lemma_filter_by_prefix_marks};

verus! {

/// A uniquely owned vector with an explicit capacity: the buffer that every
/// change to the elements goes through.
///
/// `capacity()` is the number of elements the buffer was last sized for; it
/// only changes where a method says so.
pub struct MutArcVec<T> {
    data: Vec<T>,
    cap: usize,
}

impl<T> View for MutArcVec<T> {
    type V = Seq<T>;

    closed spec fn view(&self) -> Seq<T> {
        self.data@
    }
}

/// The elements of a vector as a writable slice (`Vec::as_mut_slice`). The
/// slice has the vector's elements, whatever is written through it becomes
/// the vector's elements, and neither its length nor the vector's changes.
/// It does not panic.
#[verifier::external_body]
fn vec_as_mut_slice<T>(v: &mut Vec<T>) -> (r: &mut [T])
    ensures
        r@ == old(v)@,
        final(v)@ == final(r)@,
        final(r)@.len() == r@.len(),
        final(v)@.len() == old(v)@.len(),
    no_unwind
{
    v.as_mut_slice()
}

/// Swaps the elements at positions `a` and `b` of a slice.
fn slice_swap<T>(s: &mut [T], a: usize, b: usize)
    requires
        a < old(s)@.len(),
        b < old(s)@.len(),
    ensures
        final(s)@ == old(s)@.update(a as int, old(s)@[b as int]).update(b as int, old(s)@[a as int]),
{
    if a == b {
        return;
    }
    let (lo, hi) = if a < b {
        (a, b)
    } else {
        (b, a)
    };
    let (front, back) = s.split_at_mut(hi);
    let (_, mid) = front.split_at_mut(lo);
    let x = mid.first_mut().unwrap();
    let y = back.first_mut().unwrap();
    std::mem::swap(x, y);
}

impl<T> MutArcVec<T> {
    /// The number of elements the buffer is sized for.
    pub closed spec fn capacity(&self) -> nat {
        self.cap as nat
    }

    /// Holds no more elements than its capacity, and the capacity fits an
    /// allocation. Every value of the type has it (see `inv`).
    pub open spec fn wf(&self) -> bool {
        &&& self@.len() <= self.capacity()
        &&& fits_allocation::<T>(self.capacity() as int)
    }

    #[verifier::type_invariant]
    closed spec fn inv(&self) -> bool {
        &&& self.data@.len() <= self.cap
        &&& fits_allocation::<T>(self.cap as int)
    }

    /// An empty vector sized for exactly `cap` elements.
    pub fn with_capacity(cap: usize) -> (v: Self)
        requires
            fits_allocation::<T>(cap as int),
        ensures
            v.wf(),
            v@ == Seq::<T>::empty(),
            v.capacity() == cap,
    {
        MutArcVec { data: Vec::with_capacity(cap), cap }
    }

    /// The elements, writable in place.
    pub fn as_mut_slice(&mut self) -> (r: &mut [T])
        ensures
            r@ == old(self)@,
            final(r)@ == final(self)@,
            final(self).capacity() == old(self).capacity(),
    {
        proof {
            use_type_invariant(&*self);
        }
        vec_as_mut_slice(&mut self.data)
    }

    /// The elements, read-only.
    pub fn as_slice(&self) -> (r: &[T])
        ensures
            r@ == self@,
            self.wf(),
    {
        proof {
            use_type_invariant(self);
        }
        self.data.as_slice()
    }

    pub fn len(&self) -> (r: usize)
        ensures
            r == self@.len(),
            self.wf(),
    {
        proof {
            use_type_invariant(self);
        }
        self.data.len()
    }

    pub fn cap(&self) -> (r: usize)
        ensures
            r == self.capacity(),
            self.wf(),
    {
        proof {
            use_type_invariant(self);
        }
        self.cap
    }

    /// `[len, cap]`; the length never exceeds the capacity.
    pub fn len_cap(&self) -> (r: [usize; 2])
        ensures
            r@ == seq![self@.len() as usize, self.capacity() as usize],
            r@[0] <= r@[1],
            self.wf(),
    {
        proof {
            use_type_invariant(self);
        }
        [self.data.len(), self.cap]
    }

    /// Moves the elements out, leaving none behind; the capacity stays.
    fn take_data(&mut self) -> (d: Vec<T>)
        ensures
            d@ == old(self)@,
            final(self)@ == Seq::<T>::empty(),
            final(self).capacity() == old(self).capacity(),
    {
        proof {
            use_type_invariant(&*self);
        }
        let mut d: Vec<T> = Vec::new();
        std::mem::swap(&mut d, &mut self.data);
        d
    }

    /// Makes room for at least `reserve` more elements: when fewer slots are
    /// free, the buffer is resized to exactly `len + reserve`.
    pub fn reserve(&mut self, reserve: usize) -> (r: &mut Self)
        requires
            old(self).capacity() - old(self)@.len() < reserve ==> fits_allocation::<T>(
                old(self)@.len() + reserve,
            ),
        ensures
            r.wf(),
            r@ == old(self)@,
            r.capacity() == reserved_capacity(old(self)@.len(), old(self).capacity(), reserve as nat),
            *final(self) == *final(r),
    {
        proof {
            use_type_invariant(&*self);
        }
        let len = self.data.len();
        let cap = self.cap;
        if cap - len < reserve {
            self.cap = len + reserve;
            let mut d = self.take_data();
            d.reserve(reserve);
            self.data = d;
        }
        self
    }

    /// Appends `val`; a full buffer first grows to twice its capacity (to one
    /// slot when it has none).
    pub fn push(&mut self, val: T) -> (r: &mut Self)
        requires
            old(self)@.len() == old(self).capacity() ==> fits_allocation::<T>(
                grown_capacity(old(self).capacity()) as int,
            ),
        ensures
            r.wf(),
            r@ == old(self)@.push(val),
            r.capacity() == if old(self)@.len() == old(self).capacity() {
                grown_capacity(old(self).capacity())
            } else {
                old(self).capacity()
            },
            *final(self) == *final(r),
    {
        proof {
            use_type_invariant(&*self);
        }
        let len = self.data.len();
        let cap = self.cap;
        if len == cap {
            let extra = if cap == 0 {
                1
            } else {
                cap
            };
            self.reserve(extra);
        }
        let mut d = self.take_data();
        d.push(val);
        self.data = d;
        self
    }

    /// Moves the elements of `other` to the end of `self`.
    pub fn append(&mut self, other: Self) -> (r: &mut Self)
        requires
            old(self).capacity() < old(self)@.len() + other@.len() ==> fits_allocation::<T>(
                (old(self)@.len() + other@.len()) as int,
            ),
        ensures
            r.wf(),
            r@ == old(self)@ + other@,
            r.capacity() == if old(self).capacity() < old(self)@.len() + other@.len() {
                (old(self)@.len() + other@.len()) as nat
            } else {
                old(self).capacity()
            },
            *final(self) == *final(r),
    {
        self.append_reserve(other, 0)
    }

    /// Moves the elements of `other` to the end of `self`; when they do not
    /// fit, the buffer is resized to leave `excess` free slots after them.
    pub fn append_reserve(&mut self, other: Self, excess: usize) -> (r: &mut Self)
        requires
            old(self).capacity() < old(self)@.len() + other@.len() + excess
                ==> fits_allocation::<T>(old(self)@.len() + other@.len() + excess),
        ensures
            r.wf(),
            r@ == old(self)@ + other@,
            r.capacity() >= r@.len() + excess,
            r.capacity() == if old(self).capacity() < old(self)@.len() + other@.len() + excess {
                (old(self)@.len() + other@.len() + excess) as nat
            } else {
                old(self).capacity()
            },
            *final(self) == *final(r),
    {
        proof {
            use_type_invariant(&*self);
        }
        let mut other = other;
        let len_1 = self.data.len();
        let cap_1 = self.cap;
        let len_2 = other.data.len();
        if cap_1 < len_1 + len_2 + excess {
            self.reserve(len_2 + excess);
        }
        let mut moved = other.take_data();
        let mut d = self.take_data();
        d.append(&mut moved);
        self.data = d;
        self
    }

    /// Resizes the buffer to exactly the number of elements.
    pub fn shrink(&mut self) -> (r: &mut Self)
        ensures
            r.wf(),
            r@ == old(self)@,
            r.capacity() == old(self)@.len(),
            *final(self) == *final(r),
    {
        proof {
            use_type_invariant(&*self);
        }
        let len = self.data.len();
        let cap = self.cap;
        if len == cap {
            return self;
        }
        proof {
            lemma_fits_allocation_smaller::<T>(len as int, cap as int);
        }
        let mut switch = MutArcVec::with_capacity(len);
        std::mem::swap(self, &mut switch);
        self.append(switch)
    }

    /// Resizes the buffer down to `min_cap` when that still holds every
    /// element and is less than the capacity; otherwise leaves it.
    pub fn shrink_to(&mut self, min_cap: usize) -> (r: &mut Self)
        ensures
            r.wf(),
            r@ == old(self)@,
            r.capacity() == if old(self)@.len() < min_cap <= old(self).capacity() {
                min_cap as nat
            } else {
                old(self).capacity()
            },
            *final(self) == *final(r),
    {
        proof {
            use_type_invariant(&*self);
        }
        let len = self.data.len();
        let cap = self.cap;
        if len >= min_cap || cap < min_cap {
            return self;
        }
        proof {
            lemma_fits_allocation_smaller::<T>(min_cap as int, cap as int);
        }
        let mut switch = MutArcVec::with_capacity(min_cap);
        std::mem::swap(self, &mut switch);
        self.append(switch)
    }

    /// Takes the vector out, leaving an empty one of capacity 0 in its place.
    pub fn take(&mut self) -> (r: Self)
        ensures
            r == *old(self),
            final(self).wf(),
            final(self)@ == Seq::<T>::empty(),
            final(self).capacity() == 0,
    {
        let mut switch = MutArcVec::with_capacity(0);
        std::mem::swap(self, &mut switch);
        switch
    }

    /// Keeps the first `len` elements; the capacity stays.
    pub fn truncate(&mut self, len: usize) -> (r: &mut Self)
        ensures
            r.wf(),
            r@ == if len < old(self)@.len() {
                old(self)@.take(len as int)
            } else {
                old(self)@
            },
            r.capacity() == old(self).capacity(),
            *final(self) == *final(r),
    {
        proof {
            use_type_invariant(&*self);
        }
        let mut d = self.take_data();
        d.truncate(len);
        self.data = d;
        self
    }

    /// Removes and returns the element at `index`; the last element takes
    /// its place.
    pub fn swap_remove(&mut self, index: usize) -> (r: (&mut Self, T))
        requires
            index < old(self)@.len(),
        ensures
            r.0.wf(),
            r.1 == old(self)@[index as int],
            r.0@ == old(self)@.update(index as int, old(self)@.last()).drop_last(),
            r.0.capacity() == old(self).capacity(),
            *final(self) == *final(r.0),
    {
        proof {
            use_type_invariant(&*self);
        }
        let mut d = self.take_data();
        let x = d.swap_remove(index);
        self.data = d;
        (self, x)
    }

    /// Inserts `element` at `index`, shifting the elements after it one
    /// position to the right; a full buffer first grows by one slot.
    pub fn insert(&mut self, index: usize, element: T) -> (r: &mut Self)
        requires
            index <= old(self)@.len(),
            old(self)@.len() == old(self).capacity() ==> fits_allocation::<T>(
                old(self)@.len() + 1int,
            ),
        ensures
            r.wf(),
            r@ == old(self)@.insert(index as int, element),
            r.capacity() == reserved_capacity(old(self)@.len(), old(self).capacity(), 1),
            *final(self) == *final(r),
    {
        proof {
            use_type_invariant(&*self);
        }
        self.reserve(1);
        let mut d = self.take_data();
        d.insert(index, element);
        self.data = d;
        self
    }

    /// Removes and returns the element at `index`, shifting the elements after
    /// it one position to the left.
    pub fn remove(&mut self, index: usize) -> (r: (&mut Self, T))
        requires
            index < old(self)@.len(),
        ensures
            r.0.wf(),
            r.1 == old(self)@[index as int],
            r.0@ == old(self)@.remove(index as int),
            r.0.capacity() == old(self).capacity(),
            *final(self) == *final(r.0),
    {
        proof {
            use_type_invariant(&*self);
        }
        let mut d = self.take_data();
        let x = d.remove(index);
        self.data = d;
        (self, x)
    }

    /// Keeps the elements for which `f` returns `true`, in their order. `f` is
    /// called once on each element, front to back; the kept elements are moved
    /// forward in place and the capacity stays.
    pub fn retain<F: FnMut(&T) -> bool>(&mut self, f: F) -> (r: &mut Self)
        requires
            forall|x: &T| call_requires(f, (x,)),
        ensures
            r.wf(),
            r.capacity() == old(self).capacity(),
            exists|keep: Seq<bool>|
                {
                    &&& keep.len() == old(self)@.len()
                    &&& forall|i: int|
                        0 <= i < keep.len() ==> call_ensures(f, (&old(self)@[i],), #[trigger] keep[i])
                    &&& r@ == filter_by(old(self)@, keep)
                },
            *final(self) == *final(r),
    {
        let ghost f0 = f;
        let mut f = f;
        proof {
            use_type_invariant(&*self);
        }
        let mut d = self.take_data();
        let len = d.len();
        let ghost orig = d@;
        let ghost mut keep: Seq<bool> = Seq::empty();
        let mut swap_idx: usize = 0;
        let mut idx: usize = 0;
        while idx < len
            invariant
                len == orig.len(),
                orig == old(self)@,
                d@.len() == len,
                self.cap == old(self).cap,
                len <= self.cap,
                fits_allocation::<T>(self.cap as int),
                swap_idx <= idx <= len,
                keep.len() == idx,
                forall|i: int| 0 <= i < idx ==> call_ensures(f, (&orig[i],), #[trigger] keep[i]),
                d@.take(swap_idx as int) == filter_by(orig.take(idx as int), keep),
                d@.subrange(idx as int, len as int) == orig.subrange(idx as int, len as int),
                forall|x: &T| call_requires(f, (x,)),
                f == f0,
            decreases len - idx,
        {
            assert(d@[idx as int] == orig[idx as int]) by {
                assert(d@.subrange(idx as int, len as int)[0] == orig.subrange(idx as int, len as int)[0]);
            }
            let b = f(&d[idx]);
            proof {
                lemma_filter_by_prefix_marks(orig.take(idx as int), keep, keep.push(b));
                lemma_filter_by_step(orig, keep.push(b), idx as int);
                keep = keep.push(b);
            }
            let ghost before = d@;
            if b {
                if swap_idx != idx {
                    slice_swap(d.as_mut_slice(), idx, swap_idx);
                }
                swap_idx = swap_idx + 1;
                assert(d@.take(swap_idx as int) =~= before.take(swap_idx - 1).push(orig[idx as int]));
            }
            idx = idx + 1;
            assert(d@.subrange(idx as int, len as int) =~= orig.subrange(idx as int, len as int)) by {
                assert forall|j: int| idx <= j < len implies d@[j] == orig[j] by {
                    assert(before.subrange(idx - 1, len as int)[j - idx + 1] == orig.subrange(idx - 1, len as int)[j - idx + 1]);
                }
            }
        }
        assert(orig.take(len as int) =~= orig);
        d.truncate(swap_idx);
        self.data = d;
        assert(d@ == filter_by(old(self)@, keep));
        self
    }

    /// Keeps the elements for which `f` returns `true`, in their order. `f` is
    /// called once on each element, front to back, and may change it; the
    /// kept elements are moved forward in place and the capacity stays.
    pub fn retain_mut<F: FnMut(&mut T) -> bool>(&mut self, f: F) -> (r: &mut Self)
        requires
            forall|x: &mut T| call_requires(f, (x,)),
        ensures
            r.wf(),
            r.capacity() == old(self).capacity(),
            exists|keep: Seq<bool>, seen: Seq<T>|
                {
                    &&& keep.len() == old(self)@.len()
                    &&& seen.len() == old(self)@.len()
                    &&& forall|i: int|
                        #[trigger] is_index(keep, i) ==> exists|y: &mut T|
                            {
                                &&& *y == old(self)@[i]
                                &&& *final(y) == seen[i]
                                &&& call_ensures(f, (y,), keep[i])
                            }
                    &&& r@ == filter_by(seen, keep)
                },
            *final(self) == *final(r),
    {
        let ghost f0 = f;
        let mut f = f;
        proof {
            use_type_invariant(&*self);
        }
        let mut d = self.take_data();
        let len = d.len();
        let ghost orig = d@;
        let ghost mut keep: Seq<bool> = Seq::empty();
        let ghost mut seen: Seq<T> = Seq::empty();
        let mut swap_idx: usize = 0;
        let mut idx: usize = 0;
        while idx < len
            invariant
                len == orig.len(),
                orig == old(self)@,
                d@.len() == len,
                self.cap == old(self).cap,
                len <= self.cap,
                fits_allocation::<T>(self.cap as int),
                swap_idx <= idx <= len,
                keep.len() == idx,
                seen.len() == idx,
                forall|i: int|
                    #[trigger] is_index(keep, i) ==> exists|y: &mut T|
                        {
                            &&& *y == orig[i]
                            &&& *final(y) == seen[i]
                            &&& call_ensures(f, (y,), keep[i])
                        },
                d@.take(swap_idx as int) == filter_by(seen, keep),
                d@.subrange(idx as int, len as int) == orig.subrange(idx as int, len as int),
                forall|x: &mut T| call_requires(f, (x,)),
                f == f0,
            decreases len - idx,
        {
            assert(d@[idx as int] == orig[idx as int]) by {
                assert(d@.subrange(idx as int, len as int)[0] == orig.subrange(idx as int, len as int)[0]);
            }
            let ghost before = d@;
            let elem = &mut d[idx];
            let b = f(elem);
            let ghost now = d@;
            assert(exists|y: &mut T|
                {
                    &&& *y == orig[idx as int]
                    &&& *final(y) == now[idx as int]
                    &&& call_ensures(f, (y,), b)
                });
            proof {
                let ghost seen1 = seen.push(now[idx as int]);
                let ghost keep1 = keep.push(b);
                assert(seen1.take(idx as int) =~= seen);
                lemma_filter_by_prefix_marks(seen, keep, keep1);
                lemma_filter_by_step(seen1, keep1, idx as int);
                assert(seen1.take(idx + 1) =~= seen1);
                assert forall|i: int| #[trigger] is_index(keep1, i) implies exists|y: &mut T|
                    {
                        &&& *y == orig[i]
                        &&& *final(y) == seen1[i]
                        &&& call_ensures(f, (y,), keep1[i])
                    } by {
                    if i < idx {
                        assert(is_index(keep, i));
                    }
                }
                keep = keep1;
                seen = seen1;
            }
            if b {
                if swap_idx != idx {
                    slice_swap(d.as_mut_slice(), idx, swap_idx);
                }
                swap_idx = swap_idx + 1;
                assert(d@.take(swap_idx as int) =~= now.take(swap_idx - 1).push(now[idx as int]));
            }
            idx = idx + 1;
            assert(d@.subrange(idx as int, len as int) =~= orig.subrange(idx as int, len as int)) by {
                assert forall|j: int| idx <= j < len implies d@[j] == orig[j] by {
                    assert(before.subrange(idx - 1, len as int)[j - idx + 1] == orig.subrange(idx - 1, len as int)[j - idx + 1]);
                }
            }
        }
        d.truncate(swap_idx);
        self.data = d;
        assert(d@ == filter_by(seen, keep));
        self
    }
}

/// Removing at the position where an element was just inserted gives that
/// element back and leaves the elements as they were before the insertion.
pub proof fn law_remove_undoes_insert<T>(s: Seq<T>, index: int, element: T)
    requires
        0 <= index <= s.len(),
    ensures
        s.insert(index, element)[index] == element,
        s.insert(index, element).remove(index) == s,
{
    assert(s.insert(index, element).remove(index) =~= s);
}

/// `swap_remove` and `remove` at the same position leave the same number of
/// elements; at the last position they leave the same elements.
pub proof fn law_swap_remove_matches_remove<T>(s: Seq<T>, index: int)
    requires
        0 <= index < s.len(),
    ensures
        s.update(index, s.last()).drop_last().len() == s.remove(index).len(),
        index == s.len() - 1 ==> s.update(index, s.last()).drop_last() == s.remove(index),
{
    if index == s.len() - 1 {
        assert(s.update(index, s.last()).drop_last() =~= s.remove(index));
    }
}

/// `retain_mut` with a closure `g` that leaves each element as it is and
/// answers as `f` does keeps what `retain` with `f` keeps: given the marks and
/// elements that the two functions' contracts describe for the same
/// elements `s`, the two results are equal.
pub proof fn law_retain_mut_as_retain<T, F: FnMut(&T) -> bool, G: FnMut(&mut T) -> bool>(
    f: F,
    g: G,
    s: Seq<T>,
    keep: Seq<bool>,
    keep_mut: Seq<bool>,
    seen: Seq<T>,
)
    requires
        forall|y: &mut T, b: bool|
            #[trigger] call_ensures(g, (y,), b) ==> *final(y) == *y && forall|c: bool|
                #[trigger] call_ensures(f, (&*y,), c) ==> c == b,
        keep.len() == s.len(),
        forall|i: int| 0 <= i < s.len() ==> call_ensures(f, (&s[i],), #[trigger] keep[i]),
        keep_mut.len() == s.len(),
        seen.len() == s.len(),
        forall|i: int|
            #[trigger] is_index(keep_mut, i) ==> exists|y: &mut T|
                {
                    &&& *y == s[i]
                    &&& *final(y) == seen[i]
                    &&& call_ensures(g, (y,), keep_mut[i])
                },
    ensures
        filter_by(s, keep) == filter_by(seen, keep_mut),
{
    assert forall|i: int| 0 <= i < s.len() implies #[trigger] seen[i] == s[i] && keep_mut[i] == keep[i] by {
        assert(is_index(keep_mut, i));
        let y = choose|y: &mut T|
            {
                &&& *y == s[i]
                &&& *final(y) == seen[i]
                &&& call_ensures(g, (y,), keep_mut[i])
            };
        assert(call_ensures(g, (y,), keep_mut[i]));
        assert(call_ensures(f, (&s[i],), keep[i]));
    }
    assert(seen =~= s);
    assert forall|i: int| 0 <= i < s.len() implies #[trigger] keep[i] == keep_mut[i] by {
        assert(seen[i] == s[i]);
    }
    lemma_filter_by_prefix_marks(s, keep, keep_mut);
}

impl<T: Clone> Clone for MutArcVec<T> {
    /// A new buffer of the same capacity holding a clone of each element.
    fn clone(&self) -> (r: Self)
        ensures
            r.capacity() == self.capacity(),
            r@.len() == self@.len(),
            forall|i: int| 0 <= i < self@.len() ==> cloned::<T>(self@[i], #[trigger] r@[i]),
    {
        proof {
            use_type_invariant(self);
        }
        let mut data: Vec<T> = Vec::with_capacity(self.cap);
        let mut i: usize = 0;
        while i < self.data.len()
            invariant
                i <= self.data@.len(),
                self.data@.len() <= self.cap,
                fits_allocation::<T>(self.cap as int),
                data@.len() == i,
                forall|j: int| 0 <= j < i ==> cloned::<T>(self.data@[j], #[trigger] data@[j]),
            decreases self.data@.len() - i,
        {
            data.push(self.data[i].clone());
            i = i + 1;
        }
        MutArcVec { data, cap: self.cap }
    }
}

} // verus!
