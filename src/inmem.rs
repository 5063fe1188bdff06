//! A volume whose raw voxel bytes are held in memory.
use crate::element::{voxel_of, Voxel};
use crate::error::NiftiError;
use crate::header::NiftiHeader;
use crate::index::{
    coords_to_index, lemma_product_from_le, linear_index, product, product_from,
};
use crate::typedef::{type_of_code, Endianness, NiftiType};
use crate::volume::NiftiVolume;
use vstd::prelude::*;

verus! {

/// A NIfTI-1 volume held in memory: the raw bytes of its voxels in
/// column-major order, with their extents, element type, byte order and
/// scale factors. Voxels are decoded when they are read.
#[derive(Debug, PartialEq, Clone)]
pub struct InMemNiftiVolume {
    dim: Vec<u16>,
    datatype: NiftiType,
    scl_slope: u32,
    scl_inter: u32,
    raw_data: Vec<u8>,
    endianness: Endianness,
}

/// Extents, element type and raw bytes agree: there are one to seven axes,
/// and one element's bytes for each voxel.
pub open spec fn layout_ok(dim: Seq<u16>, t: NiftiType, raw: Seq<u8>) -> bool {
    &&& 1 <= dim.len() <= 7
    &&& raw.len() == product(dim) * t.spec_size_of()
}

/// The bytes of the voxel at linear index `i`.
pub open spec fn element_bytes(raw: Seq<u8>, t: NiftiType, i: nat) -> Seq<u8> {
    raw.subrange((i * t.spec_size_of()) as int, ((i + 1) * t.spec_size_of()) as int)
}

/// The extents `dim[1..=dim[0]]` of a NIfTI-1 `dim` field, as a vector.
fn extents_of(dim: &[u16; 8]) -> (r: Vec<u16>)
    requires
        1 <= dim[0] <= 7,
    ensures
        r@ == dim@.subrange(1, dim[0] as int + 1),
{
    let n = dim[0] as usize;
    let mut v: Vec<u16> = Vec::new();
    let mut i: usize = 1;
    while i <= n
        invariant
            n == dim[0],
            n <= 7,
            1 <= i <= n + 1,
            v@ =~= dim@.subrange(1, i as int),
        decreases n + 1 - i,
    {
        v.push(dim[i]);
        i += 1;
    }
    v
}

/// Product of extents, if it fits in a `usize`.
fn checked_product(d: &[u16]) -> (r: Option<usize>)
    ensures
        r is Some <==> product(d@) <= usize::MAX,
        r is Some ==> r->0 == product(d@),
{
    let n = d.len();
    let mut k: usize = 0;
    while k < n
        invariant
            n == d@.len(),
            0 <= k <= n,
            forall|i: int| 0 <= i < k ==> #[trigger] d@[i] > 0,
        decreases n - k,
    {
        if d[k] == 0 {
            proof {
                lemma_product_zero_from(d@, 0, k as int);
            }
            return Some(0);
        }
        k += 1;
    }
    let mut acc: usize = 1;
    let mut j: usize = n;
    while j > 0
        invariant
            n == d@.len(),
            0 <= j <= n,
            forall|i: int| 0 <= i < n ==> #[trigger] d@[i] > 0,
            acc == product_from(d@, j as int),
        decreases j,
    {
        j -= 1;
        let e = d[j] as usize;
        proof {
            assert(product_from(d@, j as int) == e * acc) by (nonlinear_arith)
                requires
                    product_from(d@, j as int) == (d@[j as int] as nat) * product_from(
                        d@,
                        j + 1,
                    ),
                    e == d@[j as int],
                    acc == product_from(d@, j + 1),
            ;
        }
        match acc.checked_mul(e) {
            Some(q) => {
                acc = q;
            },
            None => {
                proof {
                    lemma_product_from_le(d@, j as int);
                }
                return None;
            },
        }
    }
    Some(acc)
}

proof fn lemma_le_mul(q: int, s: int)
    requires
        q >= 0,
        s >= 1,
    ensures
        q <= q * s,
{
    assert(q <= q * s) by (nonlinear_arith)
        requires
            q >= 0,
            s >= 1,
    ;
}

proof fn lemma_product_zero_from(d: Seq<u16>, i: int, j: int)
    requires
        0 <= i <= j < d.len(),
        d[j] == 0,
    ensures
        product_from(d, i) == 0,
    decreases j - i,
{
    if i < j {
        lemma_product_zero_from(d, i + 1, j);
        let x = d[i] as nat;
        assert(x * product_from(d, i + 1) == 0) by (nonlinear_arith)
            requires
                product_from(d, i + 1) == 0,
        ;
    } else {
        let y = product_from(d, i + 1);
        assert((d[i] as nat) * y == 0) by (nonlinear_arith)
            requires
                d[i] == 0,
        ;
    }
}

/// `v` is the volume that header `h` describes, with byte order `e` and raw
/// bytes `raw`.
pub open spec fn decoded_from(v: InMemNiftiVolume, h: NiftiHeader, e: Endianness, raw: Seq<u8>) -> bool {
    &&& v.well_formed()
    &&& v.spec_dim() == h.extents()
    &&& type_of_code(h.datatype) == Some(v.spec_data_type())
    &&& v.spec_scale() == (h.scl_slope, h.scl_inter)
    &&& v.spec_endianness() == e
    &&& v.spec_raw() == raw
}

impl InMemNiftiVolume {
    /// Byte order of the multi-byte voxels.
    pub closed spec fn spec_endianness(&self) -> Endianness {
        self.endianness
    }

    /// The raw voxel bytes.
    pub closed spec fn spec_raw(&self) -> Seq<u8> {
        self.raw_data@
    }

    /// A volume of the extents `dim[1..=dim[0]]`, element type, scale factor
    /// bits, raw bytes and byte order given. Fails with `InvalidFormat` unless
    /// the rank `dim[0]` is between one and seven and `raw_data` holds one
    /// element for each voxel.
    pub fn new(
        dim: [u16; 8],
        datatype: NiftiType,
        scl_slope: u32,
        scl_inter: u32,
        raw_data: Vec<u8>,
        endianness: Endianness,
    ) -> (r: Result<InMemNiftiVolume, NiftiError>)
        ensures
            ({
                let ext = dim@.subrange(1, dim[0] as int + 1);
                if 1 <= dim[0] <= 7 && layout_ok(ext, datatype, raw_data@) {
                    &&& r is Ok
                    &&& r->Ok_0.well_formed()
                    &&& r->Ok_0.spec_dim() == ext
                    &&& r->Ok_0.spec_data_type() == datatype
                    &&& r->Ok_0.spec_scale() == (scl_slope, scl_inter)
                    &&& r->Ok_0.spec_endianness() == endianness
                    &&& r->Ok_0.spec_raw() == raw_data@
                } else {
                    r == Err::<InMemNiftiVolume, NiftiError>(NiftiError::InvalidFormat)
                }
            }),
    {
        if dim[0] < 1 || dim[0] > 7 {
            return Err(NiftiError::InvalidFormat);
        }
        let ext = extents_of(&dim);
        let size = datatype.size_of();
        let len = raw_data.len();
        let p = match checked_product(ext.as_slice()) {
            Some(p) => p,
            None => {
                proof {
                    lemma_le_mul(product(ext@) as int, size as int);
                }
                return Err(NiftiError::InvalidFormat);
            },
        };
        match p.checked_mul(size) {
            Some(n) => {
                if n != len {
                    return Err(NiftiError::InvalidFormat);
                }
            },
            None => {
                return Err(NiftiError::InvalidFormat);
            },
        }
        Ok(InMemNiftiVolume { dim: ext, datatype, scl_slope, scl_inter, raw_data, endianness })
    }

    /// Number of bytes of voxel data that `header` announces: the product of
    /// the extents times the bits per element over eight.
    ///
    /// Fails with `InvalidFormat` if the `datatype` code names no type (this
    /// is decided before anything else), the rank is not between one and
    /// seven, the bits per element are not those of the type, or the data
    /// would not fit in memory.
    pub fn data_len(header: &NiftiHeader) -> (r: Result<usize, NiftiError>)
        ensures
            type_of_code(header.datatype) is None ==> r == Err::<usize, NiftiError>(
                NiftiError::InvalidFormat,
            ),
            header.describes_data() ==> r == Ok::<usize, NiftiError>(header.byte_len() as usize),
            !header.describes_data() ==> r == Err::<usize, NiftiError>(NiftiError::InvalidFormat),
    {
        let t = match header.data_type() {
            Some(t) => t,
            None => return Err(NiftiError::InvalidFormat),
        };
        if header.dim[0] < 1 || header.dim[0] > 7 {
            return Err(NiftiError::InvalidFormat);
        }
        let size = t.size_of();
        if header.bitpix as i32 != 8 * size as i32 {
            return Err(NiftiError::InvalidFormat);
        }
        let ext = extents_of(&header.dim);
        let p = match checked_product(ext.as_slice()) {
            Some(p) => p,
            None => {
                proof {
                    lemma_le_mul(product(ext@) as int, size as int);
                }
                return Err(NiftiError::InvalidFormat);
            },
        };
        match p.checked_mul(size) {
            Some(n) => {
                proof {
                    let q = product(header.extents()) as int;
                    let s = t.spec_size_of() as int;
                    assert(q * (8 * s) == 8 * (q * s)) by (nonlinear_arith);
                }
                Ok(n)
            },
            None => Err(NiftiError::InvalidFormat),
        }
    }

    /// Decode a volume from the first bytes of `source`, which hold its voxel
    /// data as `header` describes it, in byte order `endianness`. Returns the
    /// volume and the number of bytes used, which is exactly `data_len`;
    /// the bytes after them are left alone.
    ///
    /// Fails with `InvalidFormat` where `data_len` does, before any byte is
    /// looked at, and with `UnexpectedEof` if `source` is shorter than that.
    pub fn from_stream(source: &[u8], header: &NiftiHeader, endianness: Endianness) -> (r: Result<
        (InMemNiftiVolume, usize),
        NiftiError,
    >)
        ensures
            !header.describes_data() ==> r == Err::<(InMemNiftiVolume, usize), NiftiError>(
                NiftiError::InvalidFormat,
            ),
            header.describes_data() && source@.len() < header.byte_len() ==> r == Err::<
                (InMemNiftiVolume, usize),
                NiftiError,
            >(NiftiError::UnexpectedEof),
            header.describes_data() && source@.len() >= header.byte_len() ==> {
                &&& r is Ok
                &&& r->Ok_0.1 == header.byte_len()
                &&& decoded_from(
                    r->Ok_0.0,
                    *header,
                    endianness,
                    source@.subrange(0, header.byte_len() as int),
                )
            },
    {
        let n = match InMemNiftiVolume::data_len(header) {
            Ok(n) => n,
            Err(e) => return Err(e),
        };
        if source.len() < n {
            return Err(NiftiError::UnexpectedEof);
        }
        let t = match header.data_type() {
            Some(t) => t,
            None => return Err(NiftiError::InvalidFormat),
        };
        let raw_data = vstd::slice::slice_to_vec(vstd::slice::slice_subrange(source, 0, n));
        let dim = extents_of(&header.dim);
        proof {
            let q = product(header.extents()) as int;
            let s = t.spec_size_of() as int;
            assert(q * (8 * s) == 8 * (q * s)) by (nonlinear_arith);
        }
        let v = InMemNiftiVolume {
            dim,
            datatype: t,
            scl_slope: header.scl_slope,
            scl_inter: header.scl_inter,
            raw_data,
            endianness,
        };
        Ok((v, n))
    }

    /// Decode a volume that follows its extension records in `source`: the
    /// first `header.extensions_len()` bytes are the extension records, which
    /// are returned as they are, and the voxel data comes right after them,
    /// decoded as `from_stream` does. Returns the volume, the extension bytes
    /// and the number of bytes used in all.
    ///
    /// Fails with `UnexpectedEof` if `source` is shorter than the extension
    /// records, and otherwise as `from_stream` does on the rest.
    pub fn from_stream_with_extensions(
        source: &[u8],
        header: &NiftiHeader,
        endianness: Endianness,
    ) -> (r: Result<(InMemNiftiVolume, Vec<u8>, usize), NiftiError>)
        ensures
            ({
                let x = header.spec_extensions_len();
                let rest = source@.subrange(x as int, source@.len() as int);
                if source@.len() < x {
                    r == Err::<(InMemNiftiVolume, Vec<u8>, usize), NiftiError>(
                        NiftiError::UnexpectedEof,
                    )
                } else if !header.describes_data() {
                    r == Err::<(InMemNiftiVolume, Vec<u8>, usize), NiftiError>(
                        NiftiError::InvalidFormat,
                    )
                } else if rest.len() < header.byte_len() {
                    r == Err::<(InMemNiftiVolume, Vec<u8>, usize), NiftiError>(
                        NiftiError::UnexpectedEof,
                    )
                } else {
                    &&& r is Ok
                    &&& r->Ok_0.1@ == source@.subrange(0, x as int)
                    &&& r->Ok_0.2 == x + header.byte_len()
                    &&& decoded_from(
                        r->Ok_0.0,
                        *header,
                        endianness,
                        rest.subrange(0, header.byte_len() as int),
                    )
                }
            }),
    {
        let x = header.extensions_len();
        if (source.len() as u64) < x {
            return Err(NiftiError::UnexpectedEof);
        }
        let x = x as usize;
        let ext = vstd::slice::slice_to_vec(vstd::slice::slice_subrange(source, 0, x));
        let rest = vstd::slice::slice_subrange(source, x, source.len());
        match InMemNiftiVolume::from_stream(rest, header, endianness) {
            Ok((v, n)) => Ok((v, ext, x + n)),
            Err(e) => Err(e),
        }
    }

    /// The raw voxel bytes, giving up the volume.
    pub fn to_raw_data(self) -> (r: Vec<u8>)
        ensures
            r@ == self.spec_raw(),
    {
        self.raw_data
    }

    /// The raw voxel bytes.
    pub fn get_raw_data(&self) -> (r: &[u8])
        ensures
            r@ == self.spec_raw(),
    {
        self.raw_data.as_slice()
    }

    /// The raw voxel bytes, to be changed in place. Their number cannot
    /// change, nor anything else of the volume.
    pub fn get_raw_data_mut(&mut self) -> (r: &mut [u8])
        ensures
            r@ == old(self).spec_raw(),
            final(self).spec_raw() == final(r)@,
            final(self).spec_dim() == old(self).spec_dim(),
            final(self).spec_data_type() == old(self).spec_data_type(),
            final(self).spec_scale() == old(self).spec_scale(),
            final(self).spec_endianness() == old(self).spec_endianness(),
    {
        self.raw_data.as_mut_slice()
    }

    /// Byte order of the multi-byte voxels.
    pub fn endianness(&self) -> (r: Endianness)
        ensures
            r == self.spec_endianness(),
    {
        self.endianness
    }
}

impl NiftiVolume for InMemNiftiVolume {
    open spec fn well_formed(&self) -> bool {
        layout_ok(self.spec_dim(), self.spec_data_type(), self.spec_raw())
    }

    closed spec fn spec_dim(&self) -> Seq<u16> {
        self.dim@
    }

    closed spec fn spec_data_type(&self) -> NiftiType {
        self.datatype
    }

    closed spec fn spec_scale(&self) -> (u32, u32) {
        (self.scl_slope, self.scl_inter)
    }

    open spec fn spec_voxel(&self, c: Seq<u16>) -> Voxel {
        voxel_of(
            self.spec_data_type(),
            self.spec_endianness(),
            element_bytes(self.spec_raw(), self.spec_data_type(), linear_index(c, self.spec_dim())),
        )
    }

    open spec fn spec_reported(&self, c: Seq<u16>) -> Seq<u16> {
        c
    }

    fn dim(&self) -> (r: &[u16]) {
        self.dim.as_slice()
    }

    fn dimensionality(&self) -> (r: usize) {
        self.dim.len()
    }

    fn data_type(&self) -> (r: NiftiType) {
        self.datatype
    }

    fn scale(&self) -> (r: (u32, u32)) {
        (self.scl_slope, self.scl_inter)
    }

    fn get_voxel(&self, coords: &[u16]) -> (r: Result<Voxel, NiftiError>) {
        let size = self.datatype.size_of();
        let len = self.raw_data.len();
        proof {
            lemma_le_mul(product(self.dim@) as int, size as int);
        }
        match coords_to_index(coords, self.dim.as_slice()) {
            None => Err(NiftiError::OutOfBounds(vstd::slice::slice_to_vec(coords))),
            Some(i) => {
                proof {
                    crate::index::lemma_linear_index_bijective(coords@, coords@, self.dim@);
                    let q = product(self.dim@) as int;
                    let s = size as int;
                    let k = i as int;
                    assert((k + 1) * s <= q * s) by (nonlinear_arith)
                        requires
                            0 <= k < q,
                            s >= 1,
                    ;
                    assert((k + 1) * s == k * s + s) by (nonlinear_arith);
                }
                let start = i * size;
                let bytes = vstd::slice::slice_subrange(
                    self.raw_data.as_slice(),
                    start,
                    start + size,
                );
                self.datatype.read_voxel(bytes, self.endianness)
            },
        }
    }
}

} // verus!
