use vstd::prelude::*;
use std::sync::Arc;
use crate::capacity::fits_allocation;
use crate::mut_arc_vec::MutArcVec;

verus! {

/// A vector shared behind an atomically reference-counted pointer.
///
/// Reading is free; changing the elements goes through a [`MutArcVec`] that
/// is obtained only once this handle is the sole owner of the buffer, or
/// after the buffer has been copied. Each `ArcVec` therefore behaves as an
/// owned value.
pub struct ArcVec<T>(Arc<MutArcVec<T>>);

/// A second handle to the same allocation (`Arc::clone`).
#[verifier::external_body]
fn arc_share<T>(a: &Arc<T>) -> (r: Arc<T>)
    ensures
        *r == **a,
{
    a.clone()
}

/// The number of handles to the allocation (`Arc::strong_count`); the one
/// passed in is among them.
#[verifier::external_body]
fn arc_strong_count<T>(a: &Arc<T>) -> (r: usize)
    ensures
        r >= 1,
{
    Arc::strong_count(a)
}

/// The value itself when `a` is its only handle, `a` back otherwise
/// (`Arc::try_unwrap`).
#[verifier::external_body]
fn arc_try_unwrap<T>(a: Arc<T>) -> (r: Result<T, Arc<T>>)
    ensures
        match r {
            Ok(v) => v == *a,
            Err(b) => *b == *a,
        },
{
    Arc::try_unwrap(a)
}

/// The value itself when `a` is its only handle, a clone of it otherwise
/// (`Arc::unwrap_or_clone`).
#[verifier::external_body]
fn arc_unwrap_or_clone<T: Clone>(a: Arc<T>) -> (r: T)
    ensures
        r == *a || cloned::<T>(*a, r),
{
    Arc::unwrap_or_clone(a)
}

/// Write access to the value when `a` is its only handle (`Arc::get_mut`).
#[verifier::external_body]
fn arc_get_mut<T>(a: &mut Arc<T>) -> (r: Option<&mut T>)
    ensures
        match r {
            Some(m) => *m == **old(a) && **final(a) == *final(m),
            None => *final(a) == *old(a),
        },
{
    Arc::get_mut(a)
}

/// Write access to the value, which is first cloned into a fresh allocation
/// when other handles share it (`Arc::make_mut`).
#[verifier::external_body]
fn arc_make_mut<T: Clone>(a: &mut Arc<T>) -> (r: &mut T)
    ensures
        *r == **old(a) || cloned::<T>(**old(a), *r),
        **final(a) == *final(r),
{
    Arc::make_mut(a)
}

impl<T> View for ArcVec<T> {
    type V = Seq<T>;

    /// The elements of the shared buffer.
    open spec fn view(&self) -> Seq<T> {
        self.shared()@
    }
}

impl<T> ArcVec<T> {
    /// The buffer this handle points to.
    pub closed spec fn shared(&self) -> MutArcVec<T> {
        *self.0
    }

    /// The capacity of the shared buffer.
    pub open spec fn capacity(&self) -> nat {
        self.shared().capacity()
    }

    /// The shared buffer is well formed.
    pub open spec fn wf(&self) -> bool {
        self.shared().wf()
    }

    /// A new, unshared, empty vector sized for exactly `cap` elements.
    pub fn with_capacity(cap: usize) -> (v: Self)
        requires
            fits_allocation::<T>(cap as int),
        ensures
            v.wf(),
            v@ == Seq::<T>::empty(),
            v.capacity() == cap,
    {
        ArcVec(Arc::new(MutArcVec::with_capacity(cap)))
    }

    /// Returns a __read-only slice__
    pub fn as_slice(&self) -> (r: &[T])
        ensures
            r@ == self@,
            self.wf(),
    {
        self.0.as_slice()
    }

    /// An owned, writable vector with the same elements and capacity: the
    /// buffer itself when this handle is its only owner, a clone of it
    /// otherwise.
    pub fn own(self) -> (r: MutArcVec<T>)
        where T: Clone,
        ensures
            r@.len() == self@.len(),
            r.capacity() == self.capacity(),
            r == self.shared() || forall|i: int|
                0 <= i < self@.len() ==> cloned::<T>(self@[i], #[trigger] r@[i]),
    {
        arc_unwrap_or_clone(self.0)
    }

    /// The buffer itself when this handle is its only owner; otherwise the
    /// handle is handed back unchanged.
    pub fn try_own(self) -> (r: Result<MutArcVec<T>, Self>)
        ensures
            match r {
                Ok(v) => v == self.shared(),
                Err(a) => a.shared() == self.shared(),
            },
    {
        match arc_try_unwrap(self.0) {
            Ok(v) => Ok(v),
            Err(a) => Err(ArcVec(a)),
        }
    }

    /// Write access to the buffer when this handle is its only owner;
    /// `None`, with nothing changed, otherwise.
    pub fn try_mut(&mut self) -> (r: Option<&mut MutArcVec<T>>)
        ensures
            match r {
                Some(m) => *m == old(self).shared() && final(self).shared() == *final(m),
                None => final(self).shared() == old(self).shared(),
            },
    {
        arc_get_mut(&mut self.0)
    }

    /// Write access to the buffer, which is first replaced by a copy of
    /// itself (same capacity, each element cloned) when other handles share
    /// it.
    pub fn mutate(&mut self) -> (r: &mut MutArcVec<T>)
        where T: Clone,
        ensures
            r@.len() == old(self)@.len(),
            r.capacity() == old(self).capacity(),
            *r == old(self).shared() || forall|i: int|
                0 <= i < old(self)@.len() ==> cloned::<T>(old(self)@[i], #[trigger] r@[i]),
            final(self).shared() == *final(r),
    {
        arc_make_mut(&mut self.0)
    }

    /// Whether this handle is the only one to its buffer at the moment of
    /// the call.
    pub fn is_unique(&self) -> bool {
        arc_strong_count(&self.0) == 1
    }

    pub fn len(&self) -> (r: usize)
        ensures
            r == self@.len(),
            self.wf(),
    {
        self.0.len()
    }

    pub fn cap(&self) -> (r: usize)
        ensures
            r == self.capacity(),
            self.wf(),
    {
        self.0.cap()
    }

    /// `[len, cap]`; the length never exceeds the capacity.
    pub fn len_cap(&self) -> (r: [usize; 2])
        ensures
            r@ == seq![self@.len() as usize, self.capacity() as usize],
            r@[0] <= r@[1],
            self.wf(),
    {
        self.0.len_cap()
    }
}

impl<T> Clone for ArcVec<T> {
    /// Another handle to the same buffer.
    fn clone(&self) -> (r: Self)
        ensures
            r.shared() == self.shared(),
    {
        ArcVec(arc_share(&self.0))
    }
}

impl<T> core::ops::Deref for ArcVec<T> {
    type Target = [T];

    fn deref(&self) -> (r: &[T])
        ensures
            r@ == self@,
    {
        self.as_slice()
    }
}

} // verus!
