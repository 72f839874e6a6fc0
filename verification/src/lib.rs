//! Strongly typed, bounds-checked array indices.
//!
//! An [`Andex`] is a position among exactly `SIZE` slots: its value is always
//! below `SIZE`, so an [`AndexableArray`] of the same size can hand out its
//! elements without ever failing. A marker type parameter keeps indices that
//! belong to different arrays apart, even when the arrays have the same size.
//!
//! The functions of this crate are verified against the contracts stated in
//! their signatures. The few calls into `std` that Verus has no model of are
//! made through wrappers in [`array`], each of which says what it relies on.

pub mod array;
pub mod decimal;
pub mod error;
pub mod index;
pub mod iter;

pub use crate::array::AndexableArray;
pub use crate::error::Error;
pub use crate::error::ParseFailure;
pub use crate::index::Andex;
pub use crate::iter::AndexIterator;
