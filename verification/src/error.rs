//! The two ways in which moving between values and bytes can fail.

use vstd::prelude::*;

verus! {

/// A value in memory has no encoding: one of its texts is longer, in bytes,
/// than a `u32` can count.
#[derive(Debug, Clone, Copy, PartialEq, Eq)]
pub struct EncodeError;

/// Bytes are not the encoding of a value of the expected shape.
#[derive(Debug, Clone, Copy, PartialEq, Eq)]
pub struct DecodeError;

} // verus!
