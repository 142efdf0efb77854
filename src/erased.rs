//! The erased vector and its checked-out state.
use crate::element::Element;
use crate::raw::encode_elements;
use crate::raw::RawVec;
use crate::view::VecMut;
use crate::view::VecRef;
use vstd::layout::align_of;
use vstd::layout::size_of;
use vstd::pervasive::cloned;
use vstd::prelude::*;

verus! {

/// Size and alignment of one element, in bytes.
#[derive(Clone, Copy, Debug, PartialEq, Eq, Structural)]
pub struct ElemLayout {
    pub size: usize,
    pub align: usize,
}

/// The layout of `T`.
pub open spec fn layout_of<T>() -> ElemLayout {
    ElemLayout { size: size_of::<T>() as usize, align: align_of::<T>() as usize }
}

impl ElemLayout {
    /// The layout of `T`.
    pub fn of<T>() -> (r: ElemLayout)
        ensures
            r == layout_of::<T>(),
            r.size as nat == size_of::<T>(),
            r.align as nat == align_of::<T>(),
    {
        ElemLayout { size: core::mem::size_of::<T>(), align: core::mem::align_of::<T>() }
    }
}

/// The handle of the process-wide default allocator.
#[derive(Clone, Copy, Debug, PartialEq, Eq, Structural, Default)]
pub struct Global;

/// A vector whose element type is not part of its own type.
///
/// The element layout is fixed when the vector is made. The raw parts are
/// absent exactly while a [`VecMut`] taken from the vector is checked out: the
/// vector is then said to be leaked, and only [`TypeErasedVec::is_leaked`] may
/// be called on it until the view is released into it.
#[derive(Debug)]
pub struct TypeErasedVec<A = Global> {
    raw: Option<RawVec<A>>,
    layout: ElemLayout,
}

impl<A> TypeErasedVec<A> {
    /// The raw parts, absent while the vector is leaked.
    pub closed spec fn spec_raw(&self) -> Option<RawVec<A>> {
        self.raw
    }

    /// The layout of the element type the vector was made with.
    pub closed spec fn spec_layout(&self) -> ElemLayout {
        self.layout
    }

    /// A view is checked out of the vector.
    pub open spec fn spec_leaked(&self) -> bool {
        self.spec_raw() is None
    }

    /// The raw parts describe elements of the vector's layout.
    pub open spec fn wf(&self) -> bool {
        self.spec_raw() matches Some(raw) ==> raw.holds(self.spec_layout().size as nat)
    }

    /// The vector holds elements of type `T`, is not leaked and is well formed.
    pub open spec fn ready_for<T>(&self) -> bool {
        &&& self.wf()
        &&& !self.spec_leaked()
        &&& self.spec_layout() == layout_of::<T>()
        &&& size_of::<T>() as usize as nat == size_of::<T>()
    }

    /// The images of the elements.
    pub open spec fn spec_bytes(&self) -> Seq<u8> {
        self.spec_raw().unwrap().spec_bytes()
    }

    /// The number of elements.
    pub open spec fn spec_len(&self) -> nat {
        self.spec_raw().unwrap().spec_len()
    }

    /// The number of elements there is room for.
    pub open spec fn spec_capacity(&self) -> nat {
        self.spec_raw().unwrap().spec_capacity()
    }

    /// The allocator handle.
    pub open spec fn spec_allocator(&self) -> A {
        self.spec_raw().unwrap().spec_allocator()
    }

    /// The elements, read as values of `T`.
    pub open spec fn contents<T: Element>(&self) -> Seq<T> {
        self.spec_raw().unwrap().contents::<T>()
    }

    /// Wraps raw parts that hold elements of `T`.
    pub(crate) fn from_raw<T>(raw: RawVec<A>) -> (r: Self)
        requires
            raw.holds(size_of::<T>()),
        ensures
            r.ready_for::<T>(),
            r.spec_raw() == Some(raw),
    {
        TypeErasedVec { raw: Some(raw), layout: ElemLayout::of::<T>() }
    }

    /// An empty vector for elements of `T`, with no room reserved.
    pub fn new_in<T: Element>(alloc: A) -> (r: Self)
        ensures
            r.ready_for::<T>(),
            r.spec_len() == 0,
            r.spec_capacity() == 0,
            r.spec_bytes() == Seq::<u8>::empty(),
            r.spec_allocator() == alloc,
            r.contents::<T>() == Seq::<T>::empty(),
    {
        Self::with_capacity_in::<T>(0, alloc)
    }

    /// An empty vector for elements of `T`, with room for `capacity` of them.
    ///
    /// As with a `Vec`, the room asked for must not pass `isize::MAX` bytes.
    pub fn with_capacity_in<T: Element>(capacity: usize, alloc: A) -> (r: Self)
        requires
            capacity * size_of::<T>() <= isize::MAX,
        ensures
            r.ready_for::<T>(),
            r.spec_len() == 0,
            r.spec_capacity() == capacity,
            r.spec_bytes() == Seq::<u8>::empty(),
            r.spec_allocator() == alloc,
            r.contents::<T>() == Seq::<T>::empty(),
    {
        Self::from_raw::<T>(RawVec::with_capacity::<T>(capacity, alloc))
    }

    /// Erases the element type of `vec`, whose elements came from `alloc`.
    pub fn from_vec_in<T: Element>(vec: Vec<T>, alloc: A) -> (r: Self)
        ensures
            r.ready_for::<T>(),
            r.spec_bytes() == encode_elements(vec@),
            r.spec_len() == vec@.len(),
            r.spec_capacity() >= vec@.len(),
            r.spec_allocator() == alloc,
            r.contents::<T>() == vec@,
    {
        Self::from_raw::<T>(RawVec::from_vec::<T>(vec, alloc))
    }

    /// Whether a view checked out of the vector was never released into it.
    #[verifier::when_used_as_spec(spec_leaked)]
    pub fn is_leaked(&self) -> (r: bool)
        ensures
            r == self.spec_leaked(),
    {
        self.raw.is_none()
    }

    /// Turns the vector back into a typed vector and its allocator.
    ///
    /// `T` must be the element type the vector was made with; a leaked vector
    /// cannot be turned back.
    pub fn into_vec_in<T: Element>(self) -> (r: (Vec<T>, A))
        requires
            self.ready_for::<T>(),
        ensures
            r.0@ == self.contents::<T>(),
            r.1 == self.spec_allocator(),
    {
        let raw = self.raw.unwrap();
        raw.into_vec::<T>()
    }

    /// The elements, read as values of `T`, in a vector of their own.
    pub fn get<T: Element>(&self) -> (r: Vec<T>)
        requires
            self.ready_for::<T>(),
        ensures
            r@ == self.contents::<T>(),
    {
        let raw = self.raw.as_ref().unwrap();
        raw.to_vec::<T>()
    }

    /// A read-only view of the elements as values of `T`.
    pub fn get_ref<T: Element>(&self) -> (r: VecRef<'_, T, A>)
        requires
            self.ready_for::<T>(),
        ensures
            r@ == self.contents::<T>(),
            r.spec_capacity() == self.spec_capacity(),
    {
        let raw = self.raw.as_ref().unwrap();
        VecRef::new(raw)
    }

    /// Checks the elements out as a typed vector.
    ///
    /// The vector is leaked until the returned view is released into it.
    pub fn get_mut<T: Element>(&mut self) -> (r: VecMut<T, A>)
        requires
            old(self).ready_for::<T>(),
        ensures
            final(self).spec_leaked(),
            final(self).wf(),
            final(self).spec_layout() == old(self).spec_layout(),
            r@ == old(self).contents::<T>(),
            r.spec_allocator() == old(self).spec_allocator(),
    {
        let raw = self.raw.take().unwrap();
        let (vec, alloc) = raw.into_vec::<T>();
        VecMut::new(vec, alloc)
    }

    /// Takes in the typed vector of a released view.
    pub(crate) fn restore<T: Element>(&mut self, vec: Vec<T>, alloc: A)
        requires
            old(self).spec_leaked(),
        ensures
            final(self).ready_for::<T>(),
            final(self).spec_bytes() == encode_elements(vec@),
            final(self).spec_len() == vec@.len(),
            final(self).spec_capacity() >= vec@.len(),
            final(self).spec_allocator() == alloc,
            final(self).contents::<T>() == vec@,
    {
        *self = Self::from_vec_in::<T>(vec, alloc);
    }

    /// The allocator handle.
    pub fn allocator(&self) -> (r: &A)
        requires
            !self.spec_leaked(),
        ensures
            *r == self.spec_allocator(),
    {
        self.raw.as_ref().unwrap().allocator()
    }
}

/// While a view is checked out of a vector, no element type is ready for it:
/// the operations that read or change the vector all require readiness, so
/// the only one left to call is [`TypeErasedVec::is_leaked`].
pub proof fn lemma_leaked_refuses<T, A>(v: TypeErasedVec<A>)
    requires
        v.spec_leaked(),
    ensures
        !v.ready_for::<T>(),
{
}

/// Two vectors with the same image and length hold the same elements, whatever
/// type they are read as; so a duplicate reads as the original does.
pub proof fn lemma_same_image_same_contents<T: Element, A>(a: TypeErasedVec<A>, b: TypeErasedVec<A>)
    requires
        !a.spec_leaked(),
        !b.spec_leaked(),
        a.spec_bytes() == b.spec_bytes(),
        a.spec_len() == b.spec_len(),
    ensures
        a.contents::<T>() == b.contents::<T>(),
{
}

impl<A: Clone> TypeErasedVec<A> {
    /// A vector of its own with the same elements, layout and capacity, and a
    /// duplicate of the allocator handle.
    pub fn duplicate(&self) -> (r: Self)
        requires
            self.wf(),
            !self.spec_leaked(),
        ensures
            r.wf(),
            !r.spec_leaked(),
            r.spec_layout() == self.spec_layout(),
            r.spec_bytes() == self.spec_bytes(),
            r.spec_len() == self.spec_len(),
            r.spec_capacity() == self.spec_capacity(),
            cloned(self.spec_allocator(), r.spec_allocator()),
    {
        let raw = self.raw.as_ref().unwrap();
        TypeErasedVec { raw: Some(raw.duplicate()), layout: self.layout }
    }
}

impl TypeErasedVec<Global> {
    /// An empty vector for elements of `T`, with no room reserved.
    pub fn new<T: Element>() -> (r: Self)
        ensures
            r.ready_for::<T>(),
            r.spec_len() == 0,
            r.spec_capacity() == 0,
            r.contents::<T>() == Seq::<T>::empty(),
    {
        Self::new_in::<T>(Global)
    }

    /// An empty vector for elements of `T`, with room for `capacity` of them.
    pub fn with_capacity<T: Element>(capacity: usize) -> (r: Self)
        requires
            capacity * size_of::<T>() <= isize::MAX,
        ensures
            r.ready_for::<T>(),
            r.spec_len() == 0,
            r.spec_capacity() == capacity,
            r.contents::<T>() == Seq::<T>::empty(),
    {
        Self::with_capacity_in::<T>(capacity, Global)
    }

    /// Erases the element type of `vec`.
    pub fn from_vec<T: Element>(vec: Vec<T>) -> (r: Self)
        ensures
            r.ready_for::<T>(),
            r.spec_bytes() == encode_elements(vec@),
            r.spec_len() == vec@.len(),
            r.spec_capacity() >= vec@.len(),
            r.contents::<T>() == vec@,
    {
        Self::from_vec_in::<T>(vec, Global)
    }

    /// Turns the vector back into a typed vector.
    pub fn into_vec<T: Element>(self) -> (r: Vec<T>)
        requires
            self.ready_for::<T>(),
        ensures
            r@ == self.contents::<T>(),
    {
        let (vec, _alloc) = self.into_vec_in::<T>();
        vec
    }
}

} // verus!
