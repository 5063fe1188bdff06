//! Errors of decoding and accessing volumes.
use crate::typedef::NiftiType;
use vstd::prelude::*;

verus! {

/// What can go wrong when decoding or querying a volume.
#[derive(Clone, Debug, PartialEq, Eq)]
pub enum NiftiError {
    /// The `datatype` code names no known type, or the header's rank or bits
    /// per element do not fit the data.
    InvalidFormat,
    /// The type is known, but single voxels of it cannot be decoded.
    UnsupportedDataType(NiftiType),
    /// A coordinate vector lies outside the volume; it is carried along.
    OutOfBounds(Vec<u16>),
    /// A slice was asked for on an axis that the volume does not have.
    AxisOutOfBounds(u16),
    /// The byte source ended before the data that the header announces.
    UnexpectedEof,
}

impl NiftiError {
    /// Whether this error is `OutOfBounds` carrying exactly `c`.
    pub open spec fn is_out_of_bounds(self, c: Seq<u16>) -> bool {
        &&& self is OutOfBounds
        &&& self->OutOfBounds_0@ == c
    }
}

} // verus!
