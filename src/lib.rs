//! Integers that wrap around an arbitrary window `[min, max)`.
//!
//! A [`WrapNum`] carries a value together with the bounds of its window; every
//! addition or subtraction brings the result back into the window with a
//! Euclidean modulo, so the value never leaves it and nothing overflows.
pub mod bounded;
pub mod decimal;
pub mod laws;
pub mod wrap_num;

pub use bounded::WrapInt;
pub use wrap_num::{RangeError, WrapNum};
