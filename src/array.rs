//! The non-empty fixed-length array.
use crate::slice::IdealSlice;
use crate::vec::IdealVec;
use vstd::prelude::*;

verus! {

/// Relies on `<Vec<T> as From<[T; N]>>::from`: the vector holds the array's elements in
/// order.
#[verifier::external_body]
fn vec_of_array<T, const N: usize>(a: [T; N]) -> (r: Vec<T>)
    ensures
        r@ == a@,
{
    Vec::from(a)
}

/// Relies on `<[T; N] as TryFrom<Vec<T>>>::try_from`: the array of the vector's elements when
/// the vector holds exactly `N` of them; otherwise the vector itself comes back.
#[verifier::external_body]
fn array_of_vec<T, const N: usize>(v: Vec<T>) -> (r: Result<[T; N], Vec<T>>)
    ensures
        match r {
            Ok(a) => v@.len() == N && a@ == v@,
            Err(back) => v@.len() != N && back@ == v@,
        },
{
    <[T; N]>::try_from(v)
}

/// Lends `a` again, unchanged. A field of a type with an invariant may be borrowed mutably
/// only as the argument of a call that cannot unwind, such as this one.
fn reborrow<A>(a: &mut A) -> (r: &mut A)
    ensures
        *r == *old(a),
        *final(a) == *final(r),
    no_unwind
{
    a
}

/// An array of `N` elements, where `N` is never zero.
#[derive(Debug, Copy, PartialEq, Eq, PartialOrd, Ord, Hash)]
pub struct IdealArray<T, const N: usize> {
    array: [T; N],
}

impl<T, const N: usize> View for IdealArray<T, N> {
    type V = Seq<T>;

    closed spec fn view(&self) -> Seq<T> {
        self.array@
    }
}

impl<T, const N: usize> IdealArray<T, N> {
    #[verifier::type_invariant]
    spec fn nonempty(&self) -> bool {
        N > 0
    }

    /// Wraps an array; the length `N` must not be zero.
    pub fn new(array: [T; N]) -> (r: Self)
        requires
            N > 0,
        ensures
            r@ == array@,
    {
        IdealArray { array }
    }

    /// Gives back the ordinary array.
    pub fn get(self) -> (r: [T; N])
        ensures
            r@ == self@,
    {
        self.array
    }

    /// Borrows the ordinary array.
    pub fn get_ref(&self) -> (r: &[T; N])
        ensures
            r@ == self@,
    {
        &self.array
    }

    /// Lends the ordinary array for writes; its length cannot change.
    pub fn get_mut(&mut self) -> (r: &mut [T; N])
        ensures
            r@ == old(self)@,
            final(self)@ == final(r)@,
    {
        proof {
            use_type_invariant(&*self);
        }
        reborrow(&mut self.array)
    }

    /// The number of elements, `N`, which is never zero.
    pub fn len(&self) -> (r: usize)
        ensures
            r == N,
            r == self@.len(),
            r > 0,
    {
        proof {
            use_type_invariant(self);
        }
        N
    }

    /// Views the elements as a borrowed non-empty slice, without copying.
    pub fn as_ideal_slice(&self) -> (r: IdealSlice<&[T]>)
        ensures
            r@ == self@,
    {
        proof {
            use_type_invariant(self);
        }
        IdealSlice::new_ref_unchecked(self.array.as_slice())
    }

    /// Moves the elements into a new non-empty vector.
    pub fn into_ideal_vec(self) -> (r: IdealVec<T>)
        ensures
            r.wf(),
            r@ == self@,
    {
        proof {
            use_type_invariant(&self);
        }
        IdealVec::new_unchecked(vec_of_array(self.array))
    }
}

impl<T: Copy, const N: usize> IdealArray<T, N> {
    /// Takes the elements of `vec` as an array when it holds exactly `N` of them; otherwise
    /// gives `vec` back unchanged. The length `N` must not be zero.
    pub fn try_from_vec(vec: Vec<T>) -> (r: Result<Self, Vec<T>>)
        requires
            N > 0,
        ensures
            match r {
                Ok(a) => vec@.len() == N && a@ == vec@,
                Err(back) => vec@.len() != N && back@ == vec@,
            },
    {
        match array_of_vec::<T, N>(vec) {
            Ok(array) => Ok(IdealArray { array }),
            Err(back) => Err(back),
        }
    }

    /// Takes the elements of a non-empty vector as an array when it holds exactly `N` of
    /// them; otherwise gives the vector back unchanged, still non-empty.
    pub fn try_from_ideal_vec(vec: IdealVec<T>) -> (r: Result<Self, IdealVec<T>>)
        requires
            vec.wf(),
        ensures
            match r {
                Ok(a) => vec@.len() == N && a@ == vec@,
                Err(back) => vec@.len() != N && back.wf() && back@ == vec@,
            },
    {
        if vec.len() != N {
            return Err(vec);
        }
        match array_of_vec::<T, N>(vec.get()) {
            Ok(array) => Ok(IdealArray { array }),
            Err(back) => Err(IdealVec::new_unchecked(back)),
        }
    }
}

impl<T: Clone, const N: usize> Clone for IdealArray<T, N> {
    fn clone(&self) -> (r: Self)
        ensures
            forall|i: int| 0 <= i < N ==> cloned(#[trigger] self@[i], r@[i]),
    {
        proof {
            use_type_invariant(self);
        }
        IdealArray { array: self.array.clone() }
    }
}

impl<T, const N: usize> AsRef<[T]> for IdealArray<T, N> {
    fn as_ref(&self) -> &[T] {
        self.array.as_slice()
    }
}

impl<T, const N: usize> std::borrow::Borrow<[T]> for IdealArray<T, N> {
    fn borrow(&self) -> &[T] {
        self.array.as_slice()
    }
}

impl<T, const N: usize> std::ops::Deref for IdealArray<T, N> {
    type Target = [T];

    fn deref(&self) -> (r: &[T])
        ensures
            r@ == self@,
    {
        self.array.as_slice()
    }
}

} // verus!
