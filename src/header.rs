//! The header fields that locate and describe the voxel data of a volume.
use crate::index::product;
use crate::typedef::{type_of_code, NiftiType};
use vstd::prelude::*;

verus! {

/// Offset in bytes at which extension records begin in a NIfTI-1 file.
pub const EXTENSIONS_START: u64 = 352;

/// The header fields that the voxel data depends on. Parsing and checking
/// the rest of a NIfTI-1 header is left to the header reader; the two scale
/// factors are carried as the IEEE 754 bit patterns of their `f32` values,
/// and the data offset as a whole number of bytes.
#[derive(Clone, Copy, Debug, PartialEq, Eq)]
pub struct NiftiHeader {
    /// `dim[0]` is the rank, `dim[1..=rank]` the extents of the axes.
    pub dim: [u16; 8],
    /// The `datatype` code of the element type.
    pub datatype: i16,
    /// Bits per element.
    pub bitpix: i16,
    /// Bits of the scale slope.
    pub scl_slope: u32,
    /// Bits of the scale intercept.
    pub scl_inter: u32,
    /// Byte offset of the voxel data in the file.
    pub vox_offset: u64,
}

impl NiftiHeader {
    /// The extents of the declared axes.
    pub open spec fn extents(self) -> Seq<u16> {
        self.dim@.subrange(1, self.dim[0] as int + 1)
    }

    /// Number of bytes that the voxel data takes.
    pub open spec fn byte_len(self) -> nat {
        product(self.extents()) * (self.bitpix as nat) / 8
    }

    /// The rank is between one and seven, the `datatype` code names a type,
    /// the bits per element are those of that type, and the data fits in
    /// memory.
    pub open spec fn describes_data(self) -> bool {
        &&& 1 <= self.dim[0] <= 7
        &&& type_of_code(self.datatype) matches Some(t)
        &&& self.bitpix as int == 8 * t.spec_size_of()
        &&& product(self.extents()) * t.spec_size_of() <= usize::MAX
    }

    /// Number of bytes of extension records between the fixed header and the
    /// voxel data.
    pub open spec fn spec_extensions_len(self) -> nat {
        if self.vox_offset < EXTENSIONS_START {
            0
        } else {
            (self.vox_offset - EXTENSIONS_START) as nat
        }
    }

    /// Number of bytes of extension records between the fixed header and the
    /// voxel data: the data offset less 352, or zero.
    pub fn extensions_len(&self) -> (r: u64)
        ensures
            r == self.spec_extensions_len(),
    {
        if self.vox_offset < EXTENSIONS_START {
            0
        } else {
            self.vox_offset - EXTENSIONS_START
        }
    }

    /// The element type that the `datatype` code names.
    pub fn data_type(&self) -> (r: Option<NiftiType>)
        ensures
            r == type_of_code(self.datatype),
    {
        NiftiType::from_i16(self.datatype)
    }
}

} // verus!
