//! Ownership strategies for a contiguous run of elements, and the handles that own one.
use std::borrow::Cow;
use std::rc::Rc;
use std::sync::Arc;
use vstd::prelude::*;

verus! {

/// A value through which a contiguous run of elements is reached: a borrow, a mutable
/// borrow, an owning smart pointer, or a borrow-or-owned union. Every handle dereferences
/// to a slice of its elements.
pub trait SliceHandle: Sized {
    type Elem;

    /// The elements that the handle reaches, in order.
    spec fn elems(&self) -> Seq<Self::Elem>;

    /// Borrows the elements that the handle reaches.
    fn as_elems(&self) -> (r: &[Self::Elem])
        ensures
            r@ == self.elems(),
    ;
}

impl<'a, T> SliceHandle for &'a [T] {
    type Elem = T;

    open spec fn elems(&self) -> Seq<T> {
        (**self)@
    }

    fn as_elems(&self) -> (r: &[T]) {
        *self
    }
}

impl<'a, T> SliceHandle for &'a mut [T] {
    type Elem = T;

    open spec fn elems(&self) -> Seq<T> {
        (**self)@
    }

    fn as_elems(&self) -> (r: &[T]) {
        &**self
    }
}

impl<T> SliceHandle for Box<[T]> {
    type Elem = T;

    open spec fn elems(&self) -> Seq<T> {
        (**self)@
    }

    fn as_elems(&self) -> (r: &[T]) {
        &**self
    }
}

impl<T> SliceHandle for Rc<[T]> {
    type Elem = T;

    open spec fn elems(&self) -> Seq<T> {
        (**self)@
    }

    fn as_elems(&self) -> (r: &[T]) {
        &**self
    }
}

impl<T> SliceHandle for Arc<[T]> {
    type Elem = T;

    open spec fn elems(&self) -> Seq<T> {
        (**self)@
    }

    fn as_elems(&self) -> (r: &[T]) {
        &**self
    }
}

impl<'a, T: Clone> SliceHandle for Cow<'a, [T]> {
    type Elem = T;

    open spec fn elems(&self) -> Seq<T> {
        match self {
            Cow::Borrowed(b) => (*b)@,
            Cow::Owned(o) => o@,
        }
    }

    fn as_elems(&self) -> (r: &[T]) {
        match self {
            Cow::Borrowed(b) => *b,
            Cow::Owned(o) => o.as_slice(),
        }
    }
}

/// Sole ownership on the heap: the handle is a `Box<[T]>`.
pub struct WithBox(());

/// Shared ownership, counted without synchronisation: the handle is an `Rc<[T]>`.
pub struct WithRc(());

/// Shared ownership, counted atomically: the handle is an `Arc<[T]>`.
pub struct WithArc(());

/// An ownership strategy: a tag with no values, which selects the handle type that owns a
/// run of `T`. The three strategies are `WithBox`, `WithRc` and `WithArc`.
pub trait PointerClass<T> {
    type Ptr: SliceHandle<Elem = T>;
}

impl<T> PointerClass<T> for WithBox {
    type Ptr = Box<[T]>;
}

impl<T> PointerClass<T> for WithRc {
    type Ptr = Rc<[T]>;
}

impl<T> PointerClass<T> for WithArc {
    type Ptr = Arc<[T]>;
}

} // verus!
