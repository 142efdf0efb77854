//! The raw parts of an erased vector: the byte image of its elements, the
//! element count, the capacity and the allocator handle.
use crate::element::Element;
use vstd::arithmetic::mul::lemma_mul_inequality;
use vstd::arithmetic::mul::lemma_mul_is_distributive_add_other_way;
use vstd::layout::size_of;
use vstd::pervasive::cloned;
use vstd::prelude::*;
use vstd::slice::slice_subrange;

verus! {

/// The image of a sequence of elements: the images of the elements one after
/// another.
pub open spec fn encode_elements<T: Element>(s: Seq<T>) -> Seq<u8>
    decreases s.len(),
{
    if s.len() == 0 {
        Seq::empty()
    } else {
        encode_elements(s.drop_last()) + s.last().spec_to_bytes()
    }
}

/// The bytes of element `i` within an image.
pub open spec fn element_image<T>(bytes: Seq<u8>, i: int) -> Seq<u8> {
    bytes.subrange(i * size_of::<T>(), (i + 1) * size_of::<T>())
}

/// The first `n` elements that an image stands for.
pub open spec fn decode_elements<T: Element>(bytes: Seq<u8>, n: nat) -> Seq<T> {
    Seq::new(n, |i: int| T::spec_from_bytes(element_image::<T>(bytes, i)))
}

/// Element `i` of a sequence starts at byte `i * size` of its image.
pub proof fn lemma_encode_layout<T: Element>(s: Seq<T>)
    ensures
        encode_elements(s).len() == s.len() * size_of::<T>(),
        forall|i: int|
            0 <= i < s.len() ==> #[trigger] element_image::<T>(encode_elements(s), i)
                == s[i].spec_to_bytes(),
    decreases s.len(),
{
    if s.len() > 0 {
        let p = s.drop_last();
        let k = size_of::<T>() as int;
        let n = s.len() as int;
        lemma_encode_layout(p);
        T::lemma_bytes_round_trip(s.last());
        lemma_mul_is_distributive_add_other_way(k, n - 1, 1);
        let e = encode_elements(s);
        let ep = encode_elements(p);
        assert forall|i: int| 0 <= i < n implies #[trigger] element_image::<T>(e, i)
            == s[i].spec_to_bytes() by {
            lemma_mul_is_distributive_add_other_way(k, i, 1);
            if i < n - 1 {
                lemma_mul_inequality(i + 1, n - 1, k);
                assert(element_image::<T>(e, i) =~= element_image::<T>(ep, i));
                assert(s[i] == p[i]);
            } else {
                assert(element_image::<T>(e, i) =~= s.last().spec_to_bytes());
            }
        }
    }
}

/// Reading the image of a sequence gives the sequence back.
pub proof fn lemma_round_trip<T: Element>(s: Seq<T>)
    ensures
        decode_elements::<T>(encode_elements(s), s.len()) == s,
{
    lemma_encode_layout(s);
    assert forall|i: int| 0 <= i < s.len() implies #[trigger] decode_elements::<T>(
        encode_elements(s),
        s.len(),
    )[i] == s[i] by {
        T::lemma_bytes_round_trip(s[i]);
    }
    assert(decode_elements::<T>(encode_elements(s), s.len()) =~= s);
}

/// Relies on `Vec::capacity`: a vector has room for at least the elements it
/// holds.
#[verifier::external_body]
pub(crate) fn vec_capacity<T>(v: &Vec<T>) -> (r: usize)
    ensures
        r >= v@.len(),
{
    v.capacity()
}

/// The image of `elems`.
fn encode_vec<T: Element>(elems: &Vec<T>) -> (r: Vec<u8>)
    ensures
        r@ == encode_elements(elems@),
{
    let mut out: Vec<u8> = Vec::new();
    let mut i: usize = 0;
    while i < elems.len()
        invariant
            i <= elems@.len(),
            out@ == encode_elements(elems@.subrange(0, i as int)),
        decreases elems@.len() - i,
    {
        elems[i].append_bytes(&mut out);
        assert(elems@.subrange(0, i + 1).drop_last() =~= elems@.subrange(0, i as int));
        i += 1;
    }
    assert(elems@.subrange(0, elems@.len() as int) =~= elems@);
    out
}

/// Element `i` of the elements that `bytes` stand for.
fn decode_at<T: Element>(bytes: &Vec<u8>, len: usize, i: usize) -> (r: T)
    requires
        bytes@.len() == len * size_of::<T>(),
        i < len,
    ensures
        r == decode_elements::<T>(bytes@, len as nat)[i as int],
{
    let k = core::mem::size_of::<T>();
    let total = bytes.len();
    proof {
        lemma_mul_inequality(i + 1, len as int, k as int);
        lemma_mul_is_distributive_add_other_way(k as int, i as int, 1);
        assert((i + 1) * k <= total);
    }
    let start = i * k;
    T::read_bytes(slice_subrange(bytes.as_slice(), start, start + k))
}

/// The first `len` elements that `bytes` stand for, in a vector with room for
/// `cap` of them.
fn decode_vec<T: Element>(bytes: &Vec<u8>, len: usize, cap: usize) -> (r: Vec<T>)
    requires
        bytes@.len() == len * size_of::<T>(),
    ensures
        r@ == decode_elements::<T>(bytes@, len as nat),
{
    let mut out: Vec<T> = Vec::with_capacity(cap);
    let mut i: usize = 0;
    while i < len
        invariant
            i <= len,
            bytes@.len() == len * size_of::<T>(),
            out@ == decode_elements::<T>(bytes@, len as nat).subrange(0, i as int),
        decreases len - i,
    {
        let elem = decode_at::<T>(bytes, len, i);
        out.push(elem);
        assert(out@ =~= decode_elements::<T>(bytes@, len as nat).subrange(0, i + 1));
        i += 1;
    }
    assert(out@ =~= decode_elements::<T>(bytes@, len as nat));
    out
}

/// The raw parts of a vector whose element type is not part of its own type.
///
/// It holds the images of `len` elements, one after another, room for `cap`
/// elements, and the handle of the allocator that the elements came from.
#[derive(Debug)]
pub struct RawVec<A> {
    bytes: Vec<u8>,
    len: usize,
    cap: usize,
    alloc: A,
}

impl<A> RawVec<A> {
    /// The images of the elements.
    pub closed spec fn spec_bytes(&self) -> Seq<u8> {
        self.bytes@
    }

    /// The number of elements.
    pub closed spec fn spec_len(&self) -> nat {
        self.len as nat
    }

    /// The number of elements there is room for.
    pub closed spec fn spec_capacity(&self) -> nat {
        self.cap as nat
    }

    /// The allocator handle.
    pub closed spec fn spec_allocator(&self) -> A {
        self.alloc
    }

    /// The parts describe elements of `size` bytes each: the image holds
    /// exactly `len` of them, and `len` does not pass the capacity.
    pub open spec fn holds(&self, size: nat) -> bool {
        &&& self.spec_bytes().len() == self.spec_len() * size
        &&& self.spec_len() <= self.spec_capacity()
    }

    /// The elements, read as values of `T`.
    pub open spec fn contents<T: Element>(&self) -> Seq<T> {
        decode_elements::<T>(self.spec_bytes(), self.spec_len())
    }

    /// Takes the elements of `vec` apart into their raw parts.
    pub fn from_vec<T: Element>(vec: Vec<T>, alloc: A) -> (r: Self)
        ensures
            r.holds(size_of::<T>()),
            r.spec_bytes() == encode_elements(vec@),
            r.spec_len() == vec@.len(),
            r.spec_capacity() >= vec@.len(),
            r.spec_allocator() == alloc,
            r.contents::<T>() == vec@,
    {
        let bytes = encode_vec(&vec);
        let cap = vec_capacity(&vec);
        proof {
            lemma_encode_layout(vec@);
            lemma_round_trip(vec@);
        }
        RawVec { bytes, len: vec.len(), cap, alloc }
    }

    /// Raw parts with no element and room for `capacity` elements of `T`.
    pub fn with_capacity<T: Element>(capacity: usize, alloc: A) -> (r: Self)
        requires
            capacity * size_of::<T>() <= isize::MAX,
        ensures
            r.holds(size_of::<T>()),
            r.spec_bytes() == Seq::<u8>::empty(),
            r.spec_len() == 0,
            r.spec_capacity() == capacity,
            r.spec_allocator() == alloc,
            r.contents::<T>() == Seq::<T>::empty(),
    {
        let k = core::mem::size_of::<T>();
        let bytes: Vec<u8> = Vec::with_capacity(capacity * k);
        let r = RawVec { bytes, len: 0, cap: capacity, alloc };
        assert(r.contents::<T>() =~= Seq::<T>::empty());
        r
    }

    /// The allocator handle.
    pub fn allocator(&self) -> (r: &A)
        ensures
            *r == self.spec_allocator(),
    {
        &self.alloc
    }

    /// The number of elements.
    pub fn len(&self) -> (r: usize)
        ensures
            r == self.spec_len(),
    {
        self.len
    }

    /// The number of elements there is room for.
    pub fn capacity(&self) -> (r: usize)
        ensures
            r == self.spec_capacity(),
    {
        self.cap
    }

    /// Element `i`, read as a value of `T`.
    pub fn get<T: Element>(&self, i: usize) -> (r: T)
        requires
            self.holds(size_of::<T>()),
            i < self.spec_len(),
        ensures
            r == self.contents::<T>()[i as int],
    {
        decode_at::<T>(&self.bytes, self.len, i)
    }

    /// The elements, read as values of `T`, in a vector of their own.
    pub fn to_vec<T: Element>(&self) -> (r: Vec<T>)
        requires
            self.holds(size_of::<T>()),
        ensures
            r@ == self.contents::<T>(),
    {
        decode_vec::<T>(&self.bytes, self.len, self.cap)
    }

    /// Puts the parts together again into a typed vector and its allocator.
    pub fn into_vec<T: Element>(self) -> (r: (Vec<T>, A))
        requires
            self.holds(size_of::<T>()),
        ensures
            r.0@ == self.contents::<T>(),
            r.1 == self.spec_allocator(),
    {
        let vec = self.to_vec::<T>();
        (vec, self.alloc)
    }
}

impl<A: Clone> RawVec<A> {
    /// Raw parts of their own with the same image, length and capacity, and a
    /// duplicate of the allocator handle.
    pub fn duplicate(&self) -> (r: Self)
        ensures
            r.spec_bytes() == self.spec_bytes(),
            r.spec_len() == self.spec_len(),
            r.spec_capacity() == self.spec_capacity(),
            cloned(self.spec_allocator(), r.spec_allocator()),
    {
        let bytes = self.bytes.clone();
        assert(bytes@ =~= self.bytes@);
        RawVec { bytes, len: self.len, cap: self.cap, alloc: self.alloc.clone() }
    }
}

} // verus!
