//! Typed views of an erased vector.
use crate::element::Element;
use crate::erased::TypeErasedVec;
use crate::raw::encode_elements;
use crate::raw::vec_capacity;
use crate::raw::RawVec;
use core::marker::PhantomData;
use vstd::layout::size_of;
use vstd::prelude::*;

verus! {

/// A read-only view of the elements of an erased vector as values of `T`.
///
/// It reads the vector's image in place; it copies nothing and owns nothing.
#[derive(Debug)]
pub struct VecRef<'a, T: Element, A> {
    raw: &'a RawVec<A>,
    marker: PhantomData<T>,
}

impl<'a, T: Element, A> VecRef<'a, T, A> {
    #[verifier::type_invariant]
    spec fn inv(&self) -> bool {
        self.raw.holds(size_of::<T>())
    }

    /// The number of elements there is room for in the vector viewed.
    pub closed spec fn spec_capacity(&self) -> nat {
        self.raw.spec_capacity()
    }

    pub(crate) fn new(raw: &'a RawVec<A>) -> (r: Self)
        requires
            raw.holds(size_of::<T>()),
        ensures
            r@ == raw.contents::<T>(),
            r.spec_capacity() == raw.spec_capacity(),
    {
        VecRef { raw, marker: PhantomData }
    }

    /// The number of elements.
    pub fn len(&self) -> (r: usize)
        ensures
            r == self@.len(),
    {
        self.raw.len()
    }

    /// The number of elements there is room for.
    pub fn capacity(&self) -> (r: usize)
        ensures
            r == self.spec_capacity(),
    {
        self.raw.capacity()
    }

    /// Element `i`.
    pub fn get(&self, i: usize) -> (r: T)
        requires
            i < self@.len(),
        ensures
            r == self@[i as int],
    {
        proof {
            use_type_invariant(self);
        }
        self.raw.get::<T>(i)
    }

    /// The elements, in a vector of their own.
    pub fn to_vec(&self) -> (r: Vec<T>)
        ensures
            r@ == self@,
    {
        proof {
            use_type_invariant(self);
        }
        self.raw.to_vec::<T>()
    }
}

impl<'a, T: Element, A> View for VecRef<'a, T, A> {
    type V = Seq<T>;

    closed spec fn view(&self) -> Seq<T> {
        self.raw.contents::<T>()
    }
}

impl<'a, T: Element, A> Clone for VecRef<'a, T, A> {
    /// Another view of the same vector.
    fn clone(&self) -> (r: Self)
        ensures
            r@ == self@,
            r.spec_capacity() == self.spec_capacity(),
    {
        proof {
            use_type_invariant(self);
        }
        VecRef { raw: self.raw, marker: PhantomData }
    }
}

/// The elements of an erased vector checked out as a typed vector.
///
/// While it exists the vector it came from is leaked. [`VecMut::release`]
/// erases the typed vector, grown, shrunk or moved as it may be, into that
/// vector again.
#[derive(Debug)]
pub struct VecMut<T: Element, A> {
    vec: Vec<T>,
    alloc: A,
}

impl<T: Element, A> VecMut<T, A> {
    /// The allocator handle the elements came from.
    pub closed spec fn spec_allocator(&self) -> A {
        self.alloc
    }

    pub(crate) fn new(vec: Vec<T>, alloc: A) -> (r: Self)
        ensures
            r@ == vec@,
            r.spec_allocator() == alloc,
    {
        VecMut { vec, alloc }
    }

    /// The typed vector.
    pub fn as_vec(&self) -> (r: &Vec<T>)
        ensures
            r@ == self@,
    {
        &self.vec
    }

    /// The typed vector, to change as a `Vec` can be changed.
    pub fn as_mut_vec(&mut self) -> (r: &mut Vec<T>)
        ensures
            r@ == old(self)@,
            final(self)@ == final(r)@,
            final(self).spec_allocator() == old(self).spec_allocator(),
    {
        &mut self.vec
    }

    /// The number of elements the typed vector has room for.
    pub fn capacity(&self) -> (r: usize)
        ensures
            r >= self@.len(),
    {
        vec_capacity(&self.vec)
    }

    /// Erases the typed vector into `owner`, the vector it was checked out of,
    /// which is then no longer leaked.
    pub fn release(self, owner: &mut TypeErasedVec<A>)
        requires
            old(owner).spec_leaked(),
        ensures
            final(owner).ready_for::<T>(),
            final(owner).spec_bytes() == encode_elements(self@),
            final(owner).spec_len() == self@.len(),
            final(owner).spec_capacity() >= self@.len(),
            final(owner).spec_allocator() == self.spec_allocator(),
            final(owner).contents::<T>() == self@,
    {
        owner.restore::<T>(self.vec, self.alloc);
    }
}

impl<T: Element, A> View for VecMut<T, A> {
    type V = Seq<T>;

    closed spec fn view(&self) -> Seq<T> {
        self.vec@
    }
}

} // verus!
