use type_erased_vec::ElemLayout;
use type_erased_vec::Element;
use type_erased_vec::Global;
use type_erased_vec::TypeErasedVec;

#[test]
fn test_new() {
    let vec = TypeErasedVec::new::<i32>();
    let vec_ref = vec.get_ref::<i32>();
    assert_eq!(vec_ref.len(), 0);
    assert_eq!(vec_ref.capacity(), 0);
}

#[test]
fn test_with_capacity() {
    let vec = TypeErasedVec::with_capacity::<i32>(42);
    assert_eq!(vec.get_ref::<i32>().capacity(), 42);
}

#[test]
fn test_from_vec() {
    let origin: Vec<i32> = (0..10).collect();
    let vec = TypeErasedVec::from_vec(origin.clone());
    let vec_ref = vec.get::<i32>();
    assert_eq!(origin, vec_ref);
}

#[test]
fn test_into_vec() {
    let origin: Vec<i32> = (0..10).collect();
    let vec = TypeErasedVec::from_vec(origin.clone());
    assert_eq!(vec.into_vec::<i32>(), origin);
}

#[test]
fn test_get() {
    let vec = TypeErasedVec::new::<i32>();
    let elems: Vec<i32> = vec.get::<i32>();
    let bytes: Vec<u8> = elems.iter().flat_map(|x| x.to_ne_bytes()).collect();
    assert!(bytes.is_empty());
}

#[test]
fn test_get_mut() {
    let mut vec = TypeErasedVec::new::<i32>();
    let mut vec_mut = vec.get_mut::<i32>();
    for i in 0..10 {
        vec_mut.as_mut_vec().push(i);
    }
    vec_mut.release(&mut vec);
    let vec_ref = vec.get::<i32>();
    assert_eq!((0..10).collect::<Vec<_>>(), vec_ref);
}

#[test]
fn round_trip_keeps_elements_and_capacity() {
    let mut origin: Vec<u64> = Vec::with_capacity(16);
    origin.extend_from_slice(&[0, 1, u64::MAX, 1 << 40]);
    let mut given = origin.clone();
    given.reserve_exact(12);
    let cap = given.capacity();
    let vec = TypeErasedVec::from_vec(given);
    assert_eq!(vec.get_ref::<u64>().capacity(), cap);
    assert_eq!(vec.get_ref::<u64>().len(), 4);
    assert_eq!(vec.into_vec::<u64>(), origin);
}

#[test]
fn round_trip_of_negative_values() {
    let origin: Vec<i16> = vec![i16::MIN, -1, 0, 1, i16::MAX];
    let vec = TypeErasedVec::from_vec(origin.clone());
    assert_eq!(vec.into_vec::<i16>(), origin);
    let wide: Vec<i64> = vec![i64::MIN, -5, i64::MAX];
    let vec = TypeErasedVec::from_vec(wide.clone());
    assert_eq!(vec.into_vec::<i64>(), wide);
}

#[test]
fn empty_buffer_reads_empty() {
    let vec = TypeErasedVec::new::<u16>();
    assert!(!vec.is_leaked());
    assert_eq!(vec.get::<u16>(), Vec::<u16>::new());
    assert_eq!(vec.get_ref::<u16>().to_vec(), Vec::<u16>::new());
}

#[test]
fn reserved_capacity_shows_in_both_views() {
    let mut vec = TypeErasedVec::with_capacity::<u8>(7);
    assert_eq!(vec.get_ref::<u8>().capacity(), 7);
    assert_eq!(vec.get_ref::<u8>().len(), 0);
    let vec_mut = vec.get_mut::<u8>();
    assert!(vec_mut.capacity() >= 7);
    assert_eq!(vec_mut.as_vec().len(), 0);
    vec_mut.release(&mut vec);
}

#[test]
fn pushes_survive_reallocation() {
    let mut vec = TypeErasedVec::with_capacity::<u32>(2);
    let mut vec_mut = vec.get_mut::<u32>();
    for i in 0..100u32 {
        vec_mut.as_mut_vec().push(i * 3);
    }
    vec_mut.release(&mut vec);
    let expected: Vec<u32> = (0..100u32).map(|i| i * 3).collect();
    assert_eq!(vec.get::<u32>(), expected);
    assert!(vec.get_ref::<u32>().capacity() >= 100);
    let vec_ref = vec.get_ref::<u32>();
    assert_eq!(vec_ref.get(99), 297);
}

#[test]
fn checked_out_buffer_is_leaked_until_release() {
    let mut vec = TypeErasedVec::from_vec(vec![1i32, 2, 3]);
    assert!(!vec.is_leaked());
    let mut vec_mut = vec.get_mut::<i32>();
    assert!(vec.is_leaked());
    assert_eq!(vec_mut.as_vec(), &vec![1, 2, 3]);
    vec_mut.as_mut_vec().truncate(1);
    vec_mut.release(&mut vec);
    assert!(!vec.is_leaked());
    assert_eq!(vec.get::<i32>(), vec![1]);
}

#[test]
fn forgotten_view_leaves_buffer_leaked() {
    let mut vec = TypeErasedVec::new::<i32>();
    let vec_mut = vec.get_mut::<i32>();
    drop(vec_mut);
    assert!(vec.is_leaked());
}

#[test]
fn duplicate_is_independent() {
    let mut vec = TypeErasedVec::from_vec(vec![5u16, 6, 7]);
    let mut copy = vec.duplicate();
    assert_eq!(copy.get::<u16>(), vec.get::<u16>());
    assert_eq!(copy.get_ref::<u16>().capacity(), vec.get_ref::<u16>().capacity());
    let mut vec_mut = copy.get_mut::<u16>();
    vec_mut.as_mut_vec().push(8);
    vec_mut.release(&mut copy);
    assert_eq!(vec.get::<u16>(), vec![5, 6, 7]);
    assert_eq!(copy.get::<u16>(), vec![5, 6, 7, 8]);
    let mut vec_mut = vec.get_mut::<u16>();
    vec_mut.as_mut_vec().clear();
    vec_mut.release(&mut vec);
    assert_eq!(vec.get::<u16>(), Vec::<u16>::new());
    assert_eq!(copy.get::<u16>(), vec![5, 6, 7, 8]);
}

#[test]
fn consumed_buffer_is_released_once() {
    let vec = TypeErasedVec::from_vec(vec![9u8; 1000]);
    let back = vec.into_vec::<u8>();
    assert_eq!(back.len(), 1000);
    drop(back);
}

#[test]
fn read_view_clones_and_indexes() {
    let vec = TypeErasedVec::from_vec(vec![10i32, -20, 30]);
    let vec_ref = vec.get_ref::<i32>();
    let other = vec_ref.clone();
    assert_eq!(other.to_vec(), vec![10, -20, 30]);
    assert_eq!(vec_ref.get(1), -20);
    assert_eq!(other.len(), 3);
}

#[test]
fn allocator_handle_is_kept() {
    let vec = TypeErasedVec::<u32>::new_in::<i32>(7);
    assert_eq!(*vec.allocator(), 7);
    let vec = TypeErasedVec::<u32>::with_capacity_in::<u8>(3, 11);
    assert_eq!(*vec.allocator(), 11);
    assert_eq!(vec.get_ref::<u8>().capacity(), 3);
    let mut vec = TypeErasedVec::from_vec_in(vec![1u64, 2], 42u32);
    let vec_mut = vec.get_mut::<u64>();
    vec_mut.release(&mut vec);
    assert_eq!(*vec.allocator(), 42);
    let (back, alloc) = vec.into_vec_in::<u64>();
    assert_eq!(back, vec![1, 2]);
    assert_eq!(alloc, 42);
    let global = TypeErasedVec::new::<u8>();
    assert_eq!(*global.allocator(), Global);
}

#[test]
fn layout_is_that_of_the_element_type() {
    assert_eq!(ElemLayout::of::<i32>(), ElemLayout { size: 4, align: 4 });
    assert_eq!(ElemLayout::of::<u8>().size, 1);
    assert_eq!(ElemLayout::of::<u64>().size, 8);
}

#[test]
fn element_images_are_little_endian() {
    let mut out: Vec<u8> = Vec::new();
    0x0102_0304u32.append_bytes(&mut out);
    assert_eq!(out, vec![4, 3, 2, 1]);
    assert_eq!(u32::read_bytes(&out), 0x0102_0304);
    let mut out: Vec<u8> = vec![0xaa];
    (-2i32).append_bytes(&mut out);
    assert_eq!(out, vec![0xaa, 0xfe, 0xff, 0xff, 0xff]);
    assert_eq!(i32::read_bytes(&out[1..]), -2);
    let mut out: Vec<u8> = Vec::new();
    0x0102u16.append_bytes(&mut out);
    assert_eq!(out, vec![2, 1]);
    assert_eq!(u16::read_bytes(&out), 0x0102);
    let mut out: Vec<u8> = Vec::new();
    200u8.append_bytes(&mut out);
    assert_eq!(out, vec![200]);
    assert_eq!(u8::read_bytes(&out), 200);
}
