//! Decoding and random access of NIfTI-1 voxel volumes.
//!
//! A volume is a buffer of raw voxel bytes with its extents, element type,
//! byte order and scale factors. Voxels are addressed by coordinates in
//! column-major order, decoded on demand into a [`Voxel`], and a volume can
//! be projected down one axis into a [`SliceView`], itself a volume.
pub mod element;
pub mod error;
pub mod header;
pub mod index;
pub mod inmem;
pub mod typedef;
pub mod volume;

pub use element::Voxel;
pub use error::NiftiError;
pub use header::NiftiHeader;
pub use index::{coords_to_index, hot_vector};
pub use inmem::InMemNiftiVolume;
pub use typedef::{Endianness, NiftiType};
pub use volume::{NiftiVolume, SliceView, Sliceable};
