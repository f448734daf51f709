//! Decoding of Thumb encodings into instructions.

pub mod cmp;
pub mod tbb;
