//! A growable array whose element type is erased from its own type.
//!
//! A [`TypeErasedVec`] keeps the byte image of its elements together with the
//! element count, the capacity, the element layout and an allocator handle.
//! A caller that knows the element type gets a typed `Vec` back from it, reads it
//! through a [`VecRef`], or checks out a [`VecMut`], changes the typed vector and
//! releases it into the buffer again.
pub mod element;
pub mod raw;
pub mod erased;
pub mod view;

pub use element::Element;
pub use erased::ElemLayout;
pub use erased::Global;
pub use erased::TypeErasedVec;
pub use raw::RawVec;
pub use view::VecMut;
pub use view::VecRef;
