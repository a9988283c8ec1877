//! Verified core of an Open Metrics histogram: sparse bucket indexing of
//! IEEE-754 values and the span/delta encoding of native histograms.

pub mod spans;
pub mod decoding;
pub mod float_bits;
pub mod bounds;
pub mod rounding;
pub mod bounds_rounding;
pub mod bucket_index;
pub mod native;
pub mod classic;
