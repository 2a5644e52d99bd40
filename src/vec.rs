//! The non-empty growable vector.
use crate::pointer_class::{SliceHandle, WithArc, WithBox, WithRc};
use crate::slice::IdealSlice;
use std::rc::Rc;
use std::sync::Arc;
use vstd::prelude::*;

verus! {

/// Relies on `Vec::into_boxed_slice`: the boxed slice holds the vector's elements in order.
#[verifier::external_body]
fn boxed_slice_of<T>(v: Vec<T>) -> (r: Box<[T]>)
    ensures
        r.elems() == v@,
{
    v.into_boxed_slice()
}

/// Relies on `<Rc<[T]> as From<Vec<T>>>::from`: the shared slice holds the vector's elements
/// in order.
#[verifier::external_body]
fn rc_slice_of<T>(v: Vec<T>) -> (r: Rc<[T]>)
    ensures
        r.elems() == v@,
{
    Rc::from(v)
}

/// Relies on `<Arc<[T]> as From<Vec<T>>>::from`: the shared slice holds the vector's elements
/// in order.
#[verifier::external_body]
fn arc_slice_of<T>(v: Vec<T>) -> (r: Arc<[T]>)
    ensures
        r.elems() == v@,
{
    Arc::from(v)
}

/// A solely owned, growable vector of at least one element.
///
/// The vector grows in place, so its non-emptiness is the predicate `wf` rather than a
/// type invariant: every constructor establishes it and every growing operation keeps it.
#[derive(Debug, PartialEq, Eq, PartialOrd, Ord, Hash)]
pub struct IdealVec<T> {
    vec: Vec<T>,
}

impl<T> View for IdealVec<T> {
    type V = Seq<T>;

    closed spec fn view(&self) -> Seq<T> {
        self.vec@
    }
}

impl<T> IdealVec<T> {
    /// The vector holds at least one element.
    pub open spec fn wf(&self) -> bool {
        self@.len() > 0
    }

    /// Wraps a vector that the caller knows to be non-empty.
    pub fn new_unchecked(vec: Vec<T>) -> (r: Self)
        requires
            vec@.len() > 0,
        ensures
            r.wf(),
            r@ == vec@,
    {
        IdealVec { vec }
    }

    /// Wraps a vector: `None` if it is empty.
    pub fn new(vec: Vec<T>) -> (r: Option<Self>)
        ensures
            r is None <==> vec@.len() == 0,
            r matches Some(v) ==> v.wf() && v@ == vec@,
    {
        if vec.len() != 0 {
            Some(IdealVec { vec })
        } else {
            None
        }
    }

    /// Gives back the ordinary vector.
    pub fn get(self) -> (r: Vec<T>)
        ensures
            r@ == self@,
    {
        self.vec
    }

    /// Borrows the ordinary vector.
    pub fn get_ref(&self) -> (r: &Vec<T>)
        ensures
            r@ == self@,
    {
        &self.vec
    }

    /// Lends the ordinary vector for any change. The result is a non-empty vector again only
    /// if the caller leaves at least one element in it.
    pub fn get_mut(&mut self) -> (r: &mut Vec<T>)
        ensures
            r@ == old(self)@,
            final(self)@ == final(r)@,
    {
        &mut self.vec
    }

    /// Views the elements as a borrowed non-empty slice, without copying.
    pub fn as_ideal_slice(&self) -> (r: IdealSlice<&[T]>)
        requires
            self.wf(),
        ensures
            r@ == self@,
    {
        IdealSlice::new_ref_unchecked(self.vec.as_slice())
    }

    /// The number of elements, which is never zero.
    pub fn len(&self) -> (r: usize)
        requires
            self.wf(),
        ensures
            r == self@.len(),
            r > 0,
    {
        self.vec.len()
    }

    /// Turns the vector into a boxed non-empty slice.
    pub fn into_boxed_ideal_slice(self) -> (r: IdealSlice<Box<[T]>>)
        requires
            self.wf(),
        ensures
            r@ == self@,
    {
        IdealSlice::new_ptr_unchecked::<WithBox>(boxed_slice_of(self.vec))
    }

    /// Moves the elements into a non-empty slice shared through `Rc`.
    pub fn into_rc_ideal_slice(self) -> (r: IdealSlice<Rc<[T]>>)
        requires
            self.wf(),
        ensures
            r@ == self@,
    {
        IdealSlice::new_ptr_unchecked::<WithRc>(rc_slice_of(self.vec))
    }

    /// Moves the elements into a non-empty slice shared through `Arc`.
    pub fn into_arc_ideal_slice(self) -> (r: IdealSlice<Arc<[T]>>)
        requires
            self.wf(),
        ensures
            r@ == self@,
    {
        IdealSlice::new_ptr_unchecked::<WithArc>(arc_slice_of(self.vec))
    }

    /// Appends one element.
    pub fn extend_one(&mut self, item: T)
        requires
            old(self).wf(),
        ensures
            final(self).wf(),
            final(self)@ == old(self)@.push(item),
    {
        self.vec.push(item);
    }

    /// Appends the elements of `items`, in order.
    pub fn extend(&mut self, items: Vec<T>)
        requires
            old(self).wf(),
        ensures
            final(self).wf(),
            final(self)@ == old(self)@ + items@,
    {
        let mut items = items;
        self.vec.append(&mut items);
    }

    /// Appends copies of the elements of `items`, in order.
    pub fn extend_from_slice(&mut self, items: &[T])
        where
            T: Clone,
        requires
            old(self).wf(),
        ensures
            final(self).wf(),
            final(self)@.len() == old(self)@.len() + items@.len(),
            forall|i: int| 0 <= i < old(self)@.len() ==> #[trigger] final(self)@[i] == old(self)@[i],
            forall|i: int|
                0 <= i < items@.len() ==> cloned(#[trigger] items@[i], final(self)@[old(self)@.len() + i]),
    {
        self.vec.extend_from_slice(items);
        assert forall|i: int| 0 <= i < items@.len() implies cloned(
            #[trigger] items@[i],
            self@[old(self)@.len() + i],
        ) by {
            assert(self@[old(self)@.len() + i] == self.vec@[old(self)@.len() + i]);
        }
    }

    /// Reserves room for at least `additional` more elements; the elements are unchanged.
    pub fn extend_reserve(&mut self, additional: usize)
        requires
            old(self).wf(),
        ensures
            final(self).wf(),
            final(self)@ == old(self)@,
    {
        self.vec.reserve(additional);
    }
}

impl<T: Clone> Clone for IdealVec<T> {
    fn clone(&self) -> (r: Self)
        ensures
            r@.len() == self@.len(),
            forall|i: int| 0 <= i < self@.len() ==> cloned(#[trigger] self@[i], r@[i]),
    {
        IdealVec { vec: self.vec.clone() }
    }
}

impl<T> AsRef<[T]> for IdealVec<T> {
    fn as_ref(&self) -> &[T] {
        self.vec.as_slice()
    }
}

impl<T> AsRef<Vec<T>> for IdealVec<T> {
    fn as_ref(&self) -> &Vec<T> {
        &self.vec
    }
}

impl<T> std::borrow::Borrow<[T]> for IdealVec<T> {
    fn borrow(&self) -> &[T] {
        self.vec.as_slice()
    }
}

impl<T> std::ops::Deref for IdealVec<T> {
    type Target = [T];

    fn deref(&self) -> (r: &[T])
        ensures
            r@ == self@,
    {
        self.vec.as_slice()
    }
}

} // verus!
