//! The non-empty slice view, held through any ownership mode.
use crate::pointer_class::{PointerClass, SliceHandle};
use crate::vec::IdealVec;
use std::borrow::Cow;
use std::rc::Rc;
use std::sync::Arc;
use vstd::prelude::*;

verus! {

/// Relies on `Rc::clone`: the new handle points at the same allocation, so it reaches the
/// same elements.
#[verifier::external_body]
fn share_rc<T>(h: &Rc<[T]>) -> (r: Rc<[T]>)
    ensures
        r.elems() == h.elems(),
{
    Rc::clone(h)
}

/// Relies on `Arc::clone`: the new handle points at the same allocation, so it reaches the
/// same elements.
#[verifier::external_body]
fn share_arc<T>(h: &Arc<[T]>) -> (r: Arc<[T]>)
    ensures
        r.elems() == h.elems(),
{
    Arc::clone(h)
}

/// A view of at least one contiguous element, reached through the handle `H`: `&[T]`,
/// `&mut [T]`, a strategy's handle (`Box<[T]>`, `Rc<[T]>`, `Arc<[T]>`) or `Cow<[T]>`.
///
/// The view holds the handle and nothing else: wrapping and unwrapping move the handle and
/// never copy or allocate elements.
#[derive(Debug, PartialEq, Eq, PartialOrd, Ord, Hash)]
pub struct IdealSlice<H: SliceHandle> {
    handle: H,
}

impl<H: SliceHandle> View for IdealSlice<H> {
    type V = Seq<H::Elem>;

    open spec fn view(&self) -> Seq<H::Elem> {
        self.handle().elems()
    }
}

impl<H: SliceHandle> IdealSlice<H> {
    #[verifier::type_invariant]
    spec fn nonempty(&self) -> bool {
        self.handle.elems().len() > 0
    }

    /// The handle through which the view reaches its elements.
    pub closed spec fn handle(&self) -> H {
        self.handle
    }

    /// The view that holds `h` and nothing else.
    pub closed spec fn wrapped(h: H) -> Self {
        IdealSlice { handle: h }
    }

    /// What a checked wrap of `h` gives: no view for an empty run, else the view of `h`.
    pub open spec fn checked(h: H) -> Option<Self> {
        if h.elems().len() == 0 {
            None
        } else {
            Some(Self::wrapped(h))
        }
    }

    /// The checked wrap that every ownership mode shares.
    fn wrap(handle: H) -> (r: Option<Self>)
        ensures
            r == Self::checked(handle),
    {
        if handle.as_elems().len() == 0 {
            None
        } else {
            Some(IdealSlice { handle })
        }
    }

    /// Wraps a strategy's handle whose run the caller knows to be non-empty.
    pub fn new_ptr_unchecked<P: PointerClass<H::Elem, Ptr = H>>(slice: H) -> (r: Self)
        requires
            slice.elems().len() > 0,
        ensures
            r == Self::wrapped(slice),
            r@ == slice.elems(),
    {
        IdealSlice { handle: slice }
    }

    /// Wraps a strategy's handle: `None` if its run is empty.
    pub fn new_ptr<P: PointerClass<H::Elem, Ptr = H>>(slice: H) -> (r: Option<Self>)
        ensures
            r == Self::checked(slice),
            r matches Some(v) ==> v@ == slice.elems(),
    {
        Self::wrap(slice)
    }

    /// Gives back the strategy's handle that the view holds.
    pub fn get_ptr<P: PointerClass<H::Elem, Ptr = H>>(self) -> (r: H)
        ensures
            r == self.handle(),
            r.elems() == self@,
    {
        self.handle
    }

    /// The number of elements, which is never zero.
    pub fn len(&self) -> (r: usize)
        ensures
            r == self@.len(),
            r > 0,
    {
        proof {
            use_type_invariant(self);
        }
        self.handle.as_elems().len()
    }

    /// Whether the view holds no element: never.
    pub fn is_empty(&self) -> (r: bool)
        ensures
            r == (self@.len() == 0),
            !r,
    {
        proof {
            use_type_invariant(self);
        }
        self.handle.as_elems().len() == 0
    }

    /// Borrows the elements as an ordinary slice.
    pub fn as_slice(&self) -> (r: &[H::Elem])
        ensures
            r@ == self@,
    {
        self.handle.as_elems()
    }

    /// Copies the elements into a new, solely owned non-empty vector.
    pub fn to_ideal_vec(&self) -> (r: IdealVec<H::Elem>)
        where
            H::Elem: Clone,
        ensures
            r.wf(),
            r@.len() == self@.len(),
            forall|i: int| 0 <= i < self@.len() ==> cloned(#[trigger] self@[i], r@[i]),
    {
        proof {
            use_type_invariant(self);
        }
        let mut v: Vec<H::Elem> = Vec::new();
        v.extend_from_slice(self.handle.as_elems());
        IdealVec::new_unchecked(v)
    }
}

impl<'a, T> IdealSlice<&'a [T]> {
    /// Wraps a borrowed slice that the caller knows to be non-empty.
    pub fn new_ref_unchecked(slice: &'a [T]) -> (r: Self)
        requires
            slice@.len() > 0,
        ensures
            r == Self::wrapped(slice),
            r@ == slice@,
    {
        IdealSlice { handle: slice }
    }

    /// Wraps a borrowed slice: `None` if it is empty.
    pub fn new_ref(slice: &'a [T]) -> (r: Option<Self>)
        ensures
            r == Self::checked(slice),
            r matches Some(v) ==> v@ == slice@,
    {
        Self::wrap(slice)
    }

    /// Gives back the borrowed slice.
    pub fn get_ref(self) -> (r: &'a [T])
        ensures
            r == self.handle(),
            r@ == self@,
    {
        self.handle
    }
}

impl<'a, T> IdealSlice<&'a mut [T]> {
    /// Wraps a mutably borrowed slice that the caller knows to be non-empty. Writes through
    /// the view reach the slice.
    pub fn new_mut_unchecked(slice: &'a mut [T]) -> (r: Self)
        requires
            old(slice)@.len() > 0,
        ensures
            r.handle()@ == old(slice)@,
            final(r.handle())@ == final(slice)@,
            r@ == old(slice)@,
    {
        IdealSlice { handle: slice }
    }

    /// Wraps a mutably borrowed slice: `None` if it is empty. Writes through the view reach
    /// the slice.
    pub fn new_mut(slice: &'a mut [T]) -> (r: Option<Self>)
        ensures
            r is None <==> old(slice)@.len() == 0,
            r matches Some(v) ==> v.handle()@ == old(slice)@ && final(v.handle())@ == final(slice)@
                && v@ == old(slice)@,
    {
        Self::wrap(slice)
    }

    /// Gives back the mutably borrowed slice.
    pub fn get_mut(self) -> (r: &'a mut [T])
        ensures
            r@ == self.handle()@,
            final(r)@ == final(self.handle())@,
            r@ == self@,
    {
        let IdealSlice { handle } = self;
        handle
    }
}

impl<'a, T: Clone> IdealSlice<Cow<'a, [T]>> {
    /// Wraps a borrowed-or-owned slice that the caller knows to be non-empty.
    pub fn new_cow_unchecked(slice: Cow<'a, [T]>) -> (r: Self)
        requires
            slice.elems().len() > 0,
        ensures
            r == Self::wrapped(slice),
            r@ == slice.elems(),
    {
        IdealSlice { handle: slice }
    }

    /// Wraps a borrowed-or-owned slice: `None` if it is empty.
    pub fn new_cow(slice: Cow<'a, [T]>) -> (r: Option<Self>)
        ensures
            r == Self::checked(slice),
            r matches Some(v) ==> v@ == slice.elems(),
    {
        Self::wrap(slice)
    }

    /// Gives back the borrowed-or-owned slice.
    pub fn get_cow(self) -> (r: Cow<'a, [T]>)
        ensures
            r == self.handle(),
            r.elems() == self@,
    {
        self.handle
    }
}

impl<T> IdealSlice<Box<[T]>> {
    /// Turns the boxed view into a non-empty vector that takes over the same allocation.
    pub fn into_ideal_vec(self) -> (r: IdealVec<T>)
        ensures
            r.wf(),
            r@ == self@,
    {
        proof {
            use_type_invariant(&self);
        }
        IdealVec::new_unchecked(self.handle.into_vec())
    }
}

/// Wrapping and unwrapping are inverse. The checked wrap of a non-empty run is the view of
/// that very handle, unwrapping it gives the handle back unchanged, and a view holds nothing
/// but its handle, so wrapping what was unwrapped gives back the same view.
pub proof fn lemma_wrap_unwrap<H: SliceHandle>(h: H, v: IdealSlice<H>)
    requires
        h.elems().len() > 0,
    ensures
        IdealSlice::checked(h) == Some(IdealSlice::wrapped(h)),
        IdealSlice::wrapped(h).handle() == h,
        IdealSlice::wrapped(h)@ == h.elems(),
        IdealSlice::wrapped(v.handle()) == v,
{
}

/// Under every ownership strategy, wrapping a non-empty run yields a view of the handle's
/// elements, and the handle given back by unwrapping reads those same elements.
pub proof fn lemma_strategy_round_trip<T, P: PointerClass<T>>(h: P::Ptr)
    requires
        h.elems().len() > 0,
    ensures
        IdealSlice::checked(h) matches Some(v) && v@ == h.elems() && v.handle().elems()
            == h.elems(),
{
}

impl<'a, T> Clone for IdealSlice<&'a [T]> {
    fn clone(&self) -> (r: Self)
        ensures
            r == *self,
    {
        proof {
            use_type_invariant(self);
        }
        IdealSlice { handle: self.handle }
    }
}

impl<'a, T> Copy for IdealSlice<&'a [T]> {}

/// Cloning a boxed view copies its elements into a new allocation.
impl<T: Clone> Clone for IdealSlice<Box<[T]>> {
    fn clone(&self) -> (r: Self)
        ensures
            r@.len() == self@.len(),
            forall|i: int| 0 <= i < self@.len() ==> cloned(#[trigger] self@[i], r@[i]),
    {
        self.to_ideal_vec().into_boxed_ideal_slice()
    }
}

/// Cloning a shared view adds an owner of the same elements; nothing is copied.
impl<T> Clone for IdealSlice<Rc<[T]>> {
    fn clone(&self) -> (r: Self)
        ensures
            r@ == self@,
    {
        proof {
            use_type_invariant(self);
        }
        IdealSlice { handle: share_rc(&self.handle) }
    }
}

/// Cloning a shared view adds an owner of the same elements; nothing is copied.
impl<T> Clone for IdealSlice<Arc<[T]>> {
    fn clone(&self) -> (r: Self)
        ensures
            r@ == self@,
    {
        proof {
            use_type_invariant(self);
        }
        IdealSlice { handle: share_arc(&self.handle) }
    }
}

impl<H: SliceHandle> AsRef<[H::Elem]> for IdealSlice<H> {
    fn as_ref(&self) -> &[H::Elem] {
        self.handle.as_elems()
    }
}

impl<H: SliceHandle> std::ops::Deref for IdealSlice<H> {
    type Target = [H::Elem];

    fn deref(&self) -> (r: &[H::Elem])
        ensures
            r@ == self@,
    {
        self.handle.as_elems()
    }
}

} // verus!
