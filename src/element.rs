//! Element types whose values can be kept as bytes in an erased buffer.
use vstd::bytes::*;
use vstd::layout::size_of;
use vstd::layout::layout_of_primitives;
use vstd::prelude::*;

verus! {

/// A type whose values an erased buffer can hold.
///
/// Every value has an image of exactly `size_of::<Self>()` bytes, and the value
/// is recovered from its image.
pub trait Element: Sized {
    /// The bytes that stand for `self`.
    spec fn spec_to_bytes(&self) -> Seq<u8>;

    /// The value that `bytes` stand for.
    spec fn spec_from_bytes(bytes: Seq<u8>) -> Self;

    /// An image has the size of the type, and reading it gives the value back.
    proof fn lemma_bytes_round_trip(x: Self)
        ensures
            x.spec_to_bytes().len() == size_of::<Self>(),
            Self::spec_from_bytes(x.spec_to_bytes()) == x,
    ;

    /// Appends the image of `self` to `out`.
    fn append_bytes(&self, out: &mut Vec<u8>)
        ensures
            final(out)@ == old(out)@ + self.spec_to_bytes(),
    ;

    /// Reads a value from its image.
    fn read_bytes(bytes: &[u8]) -> (r: Self)
        requires
            bytes@.len() == size_of::<Self>(),
        ensures
            r == Self::spec_from_bytes(bytes@),
    ;
}

impl Element for u8 {
    open spec fn spec_to_bytes(&self) -> Seq<u8> {
        seq![*self]
    }

    open spec fn spec_from_bytes(bytes: Seq<u8>) -> u8 {
        bytes[0]
    }

    proof fn lemma_bytes_round_trip(x: u8) {
        broadcast use layout_of_primitives;

    }

    fn append_bytes(&self, out: &mut Vec<u8>) {
        out.push(*self);
    }

    fn read_bytes(bytes: &[u8]) -> (r: u8) {
        proof {
            broadcast use layout_of_primitives;

        }
        bytes[0]
    }
}

impl Element for u16 {
    open spec fn spec_to_bytes(&self) -> Seq<u8> {
        spec_u16_to_le_bytes(*self)
    }

    open spec fn spec_from_bytes(bytes: Seq<u8>) -> u16 {
        spec_u16_from_le_bytes(bytes)
    }

    proof fn lemma_bytes_round_trip(x: u16) {
        broadcast use layout_of_primitives;

        lemma_auto_spec_u16_to_from_le_bytes();
        let b = spec_u16_to_le_bytes(x);
        assert(b.len() == 2);
        assert(spec_u16_from_le_bytes(b) == x);
    }

    fn append_bytes(&self, out: &mut Vec<u8>) {
        let mut image = u16_to_le_bytes(*self);
        out.append(&mut image);
    }

    fn read_bytes(bytes: &[u8]) -> (r: u16) {
        proof {
            broadcast use layout_of_primitives;

        }
        u16_from_le_bytes(bytes)
    }
}

impl Element for u32 {
    open spec fn spec_to_bytes(&self) -> Seq<u8> {
        spec_u32_to_le_bytes(*self)
    }

    open spec fn spec_from_bytes(bytes: Seq<u8>) -> u32 {
        spec_u32_from_le_bytes(bytes)
    }

    proof fn lemma_bytes_round_trip(x: u32) {
        broadcast use layout_of_primitives;

        lemma_auto_spec_u32_to_from_le_bytes();
        let b = spec_u32_to_le_bytes(x);
        assert(b.len() == 4);
        assert(spec_u32_from_le_bytes(b) == x);
    }

    fn append_bytes(&self, out: &mut Vec<u8>) {
        let mut image = u32_to_le_bytes(*self);
        out.append(&mut image);
    }

    fn read_bytes(bytes: &[u8]) -> (r: u32) {
        proof {
            broadcast use layout_of_primitives;

        }
        u32_from_le_bytes(bytes)
    }
}

impl Element for u64 {
    open spec fn spec_to_bytes(&self) -> Seq<u8> {
        spec_u64_to_le_bytes(*self)
    }

    open spec fn spec_from_bytes(bytes: Seq<u8>) -> u64 {
        spec_u64_from_le_bytes(bytes)
    }

    proof fn lemma_bytes_round_trip(x: u64) {
        broadcast use layout_of_primitives;

        lemma_auto_spec_u64_to_from_le_bytes();
        let b = spec_u64_to_le_bytes(x);
        assert(b.len() == 8);
        assert(spec_u64_from_le_bytes(b) == x);
    }

    fn append_bytes(&self, out: &mut Vec<u8>) {
        let mut image = u64_to_le_bytes(*self);
        out.append(&mut image);
    }

    fn read_bytes(bytes: &[u8]) -> (r: u64) {
        proof {
            broadcast use layout_of_primitives;

        }
        u64_from_le_bytes(bytes)
    }
}

impl Element for i16 {
    open spec fn spec_to_bytes(&self) -> Seq<u8> {
        spec_u16_to_le_bytes(#[verifier::truncate] (*self as u16))
    }

    open spec fn spec_from_bytes(bytes: Seq<u8>) -> i16 {
        #[verifier::truncate] (spec_u16_from_le_bytes(bytes) as i16)
    }

    proof fn lemma_bytes_round_trip(x: i16) {
        broadcast use layout_of_primitives;

        lemma_auto_spec_u16_to_from_le_bytes();
        let u = #[verifier::truncate] (x as u16);
        let b = spec_u16_to_le_bytes(u);
        assert(b.len() == 2);
        assert(spec_u16_from_le_bytes(b) == u);
        assert((#[verifier::truncate] (x as u16)) as i16 == x) by (bit_vector);
    }

    fn append_bytes(&self, out: &mut Vec<u8>) {
        let mut image = u16_to_le_bytes(*self as u16);
        out.append(&mut image);
    }

    fn read_bytes(bytes: &[u8]) -> (r: i16) {
        proof {
            broadcast use layout_of_primitives;

        }
        u16_from_le_bytes(bytes) as i16
    }
}

impl Element for i32 {
    open spec fn spec_to_bytes(&self) -> Seq<u8> {
        spec_u32_to_le_bytes(#[verifier::truncate] (*self as u32))
    }

    open spec fn spec_from_bytes(bytes: Seq<u8>) -> i32 {
        #[verifier::truncate] (spec_u32_from_le_bytes(bytes) as i32)
    }

    proof fn lemma_bytes_round_trip(x: i32) {
        broadcast use layout_of_primitives;

        lemma_auto_spec_u32_to_from_le_bytes();
        let u = #[verifier::truncate] (x as u32);
        let b = spec_u32_to_le_bytes(u);
        assert(b.len() == 4);
        assert(spec_u32_from_le_bytes(b) == u);
        assert((#[verifier::truncate] (x as u32)) as i32 == x) by (bit_vector);
    }

    fn append_bytes(&self, out: &mut Vec<u8>) {
        let mut image = u32_to_le_bytes(*self as u32);
        out.append(&mut image);
    }

    fn read_bytes(bytes: &[u8]) -> (r: i32) {
        proof {
            broadcast use layout_of_primitives;

        }
        u32_from_le_bytes(bytes) as i32
    }
}

impl Element for i64 {
    open spec fn spec_to_bytes(&self) -> Seq<u8> {
        spec_u64_to_le_bytes(#[verifier::truncate] (*self as u64))
    }

    open spec fn spec_from_bytes(bytes: Seq<u8>) -> i64 {
        #[verifier::truncate] (spec_u64_from_le_bytes(bytes) as i64)
    }

    proof fn lemma_bytes_round_trip(x: i64) {
        broadcast use layout_of_primitives;

        lemma_auto_spec_u64_to_from_le_bytes();
        let u = #[verifier::truncate] (x as u64);
        let b = spec_u64_to_le_bytes(u);
        assert(b.len() == 8);
        assert(spec_u64_from_le_bytes(b) == u);
        assert((#[verifier::truncate] (x as u64)) as i64 == x) by (bit_vector);
    }

    fn append_bytes(&self, out: &mut Vec<u8>) {
        let mut image = u64_to_le_bytes(*self as u64);
        out.append(&mut image);
    }

    fn read_bytes(bytes: &[u8]) -> (r: i64) {
        proof {
            broadcast use layout_of_primitives;

        }
        u64_from_le_bytes(bytes) as i64
    }
}

} // verus!
