//! Element types of a volume and the byte orders of its data.
use vstd::prelude::*;

verus! {

/// Element type of the voxels of a volume, as named by the NIfTI-1
/// `datatype` code.
#[derive(Clone, Copy, Debug, PartialEq, Eq, Structural, Hash)]
pub enum NiftiType {
    Uint8,
    Int16,
    Int32,
    Float32,
    Complex64,
    Float64,
    Rgb24,
    Int8,
    Uint16,
    Uint32,
    Int64,
    Uint64,
    Float128,
    Complex128,
    Complex256,
    Rgba32,
}

/// Byte order of multi-byte voxel values.
#[derive(Clone, Copy, Debug, PartialEq, Eq, Structural, Hash)]
pub enum Endianness {
    LE,
    BE,
}

/// The type that a `datatype` code names, if any.
pub open spec fn type_of_code(code: i16) -> Option<NiftiType> {
    if code == 2 {
        Some(NiftiType::Uint8)
    } else if code == 4 {
        Some(NiftiType::Int16)
    } else if code == 8 {
        Some(NiftiType::Int32)
    } else if code == 16 {
        Some(NiftiType::Float32)
    } else if code == 32 {
        Some(NiftiType::Complex64)
    } else if code == 64 {
        Some(NiftiType::Float64)
    } else if code == 128 {
        Some(NiftiType::Rgb24)
    } else if code == 256 {
        Some(NiftiType::Int8)
    } else if code == 512 {
        Some(NiftiType::Uint16)
    } else if code == 768 {
        Some(NiftiType::Uint32)
    } else if code == 1024 {
        Some(NiftiType::Int64)
    } else if code == 1280 {
        Some(NiftiType::Uint64)
    } else if code == 1536 {
        Some(NiftiType::Float128)
    } else if code == 1792 {
        Some(NiftiType::Complex128)
    } else if code == 2048 {
        Some(NiftiType::Complex256)
    } else if code == 2304 {
        Some(NiftiType::Rgba32)
    } else {
        None
    }
}

impl NiftiType {
    /// Size in bytes of one element of this type.
    pub open spec fn spec_size_of(self) -> nat {
        match self {
            NiftiType::Uint8 | NiftiType::Int8 => 1,
            NiftiType::Uint16 | NiftiType::Int16 => 2,
            NiftiType::Rgb24 => 3,
            NiftiType::Uint32 | NiftiType::Int32 | NiftiType::Float32 | NiftiType::Rgba32 => 4,
            NiftiType::Uint64 | NiftiType::Int64 | NiftiType::Float64 | NiftiType::Complex64 => 8,
            NiftiType::Float128 | NiftiType::Complex128 => 16,
            NiftiType::Complex256 => 32,
        }
    }

    /// Whether single voxels of this type can be decoded.
    pub open spec fn spec_is_supported(self) -> bool {
        !(self is Complex64 || self is Complex128 || self is Complex256 || self is Rgb24
            || self is Rgba32 || self is Float128)
    }

    /// The type that a `datatype` code names.
    pub fn from_i16(code: i16) -> (r: Option<NiftiType>)
        ensures
            r == type_of_code(code),
    {
        match code {
            2 => Some(NiftiType::Uint8),
            4 => Some(NiftiType::Int16),
            8 => Some(NiftiType::Int32),
            16 => Some(NiftiType::Float32),
            32 => Some(NiftiType::Complex64),
            64 => Some(NiftiType::Float64),
            128 => Some(NiftiType::Rgb24),
            256 => Some(NiftiType::Int8),
            512 => Some(NiftiType::Uint16),
            768 => Some(NiftiType::Uint32),
            1024 => Some(NiftiType::Int64),
            1280 => Some(NiftiType::Uint64),
            1536 => Some(NiftiType::Float128),
            1792 => Some(NiftiType::Complex128),
            2048 => Some(NiftiType::Complex256),
            2304 => Some(NiftiType::Rgba32),
            _ => None,
        }
    }

    /// The `datatype` code of this type.
    pub fn code(&self) -> (r: i16)
        ensures
            type_of_code(r) == Some(*self),
    {
        match self {
            NiftiType::Uint8 => 2,
            NiftiType::Int16 => 4,
            NiftiType::Int32 => 8,
            NiftiType::Float32 => 16,
            NiftiType::Complex64 => 32,
            NiftiType::Float64 => 64,
            NiftiType::Rgb24 => 128,
            NiftiType::Int8 => 256,
            NiftiType::Uint16 => 512,
            NiftiType::Uint32 => 768,
            NiftiType::Int64 => 1024,
            NiftiType::Uint64 => 1280,
            NiftiType::Float128 => 1536,
            NiftiType::Complex128 => 1792,
            NiftiType::Complex256 => 2048,
            NiftiType::Rgba32 => 2304,
        }
    }

    /// Size in bytes of one element of this type.
    pub fn size_of(&self) -> (r: usize)
        ensures
            r == self.spec_size_of(),
    {
        match self {
            NiftiType::Uint8 | NiftiType::Int8 => 1,
            NiftiType::Uint16 | NiftiType::Int16 => 2,
            NiftiType::Rgb24 => 3,
            NiftiType::Uint32 | NiftiType::Int32 | NiftiType::Float32 | NiftiType::Rgba32 => 4,
            NiftiType::Uint64 | NiftiType::Int64 | NiftiType::Float64 | NiftiType::Complex64 => 8,
            NiftiType::Float128 | NiftiType::Complex128 => 16,
            NiftiType::Complex256 => 32,
        }
    }

    /// Whether single voxels of this type can be decoded.
    pub fn is_supported(&self) -> (r: bool)
        ensures
            r == self.spec_is_supported(),
    {
        match self {
            NiftiType::Complex64 | NiftiType::Complex128 | NiftiType::Complex256
            | NiftiType::Rgb24 | NiftiType::Rgba32 | NiftiType::Float128 => false,
            _ => true,
        }
    }
}

} // verus!
