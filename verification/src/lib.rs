//! A growable array that manages its own slot storage.
//!
//! [`FbVec`] keeps its elements at the start of a buffer of slots that
//! doubles when it is full. [`IntoIter`] and [`Drain`] hand the elements out
//! by value, from either end.

pub mod fbvec;
pub mod iter;
pub mod laws;
pub mod model;
pub mod raw;

pub use crate::fbvec::FbVec;
pub use crate::iter::{Drain, IntoIter};
pub use crate::raw::GROWTH_RATE;
