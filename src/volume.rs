//! The voxel volume interface, and views of a volume along one slice.
use crate::element::Voxel;
use crate::error::NiftiError;
use crate::index::{hot_seq, hot_vector, in_bounds};
use crate::typedef::NiftiType;
use vstd::prelude::*;

verus! {

/// What `get_voxel` owes for coordinates `c`: an out-of-bounds error carrying
/// `reported` when `c` is outside `dim`, the type's error when voxels of type
/// `t` cannot be decoded, and the voxel `v` otherwise.
pub open spec fn voxel_outcome(
    r: Result<Voxel, NiftiError>,
    c: Seq<u16>,
    dim: Seq<u16>,
    t: NiftiType,
    v: Voxel,
    reported: Seq<u16>,
) -> bool {
    if !in_bounds(c, dim) {
        r is Err && r->Err_0.is_out_of_bounds(reported)
    } else if !t.spec_is_supported() {
        r == Err::<Voxel, NiftiError>(NiftiError::UnsupportedDataType(t))
    } else {
        r == Ok::<Voxel, NiftiError>(v)
    }
}

/// A multi-dimensional array of voxels, addressed by coordinates.
pub trait NiftiVolume: Sized {
    /// The volume's internal invariant.
    spec fn well_formed(&self) -> bool;

    /// Extents of the volume's axes.
    spec fn spec_dim(&self) -> Seq<u16>;

    /// Element type of the stored voxels.
    spec fn spec_data_type(&self) -> NiftiType;

    /// Bits of the `f32` scale slope and intercept.
    spec fn spec_scale(&self) -> (u32, u32);

    /// The stored voxel at in-bounds coordinates `c`.
    spec fn spec_voxel(&self, c: Seq<u16>) -> Voxel;

    /// The coordinate vector that an out-of-bounds error for `c` carries.
    spec fn spec_reported(&self, c: Seq<u16>) -> Seq<u16>;

    /// The extents of the volume's axes, one per axis.
    fn dim(&self) -> (r: &[u16])
        requires
            self.well_formed(),
        ensures
            r@ == self.spec_dim(),
    ;

    /// The number of axes.
    fn dimensionality(&self) -> (r: usize)
        requires
            self.well_formed(),
        ensures
            r == self.spec_dim().len(),
    ;

    /// The element type of the stored voxels.
    fn data_type(&self) -> (r: NiftiType)
        requires
            self.well_formed(),
        ensures
            r == self.spec_data_type(),
    ;

    /// Bits of the `f32` scale slope and intercept, in that order: a voxel's
    /// value is its stored value times the slope plus the intercept.
    fn scale(&self) -> (r: (u32, u32))
        requires
            self.well_formed(),
        ensures
            r == self.spec_scale(),
    ;

    /// The stored voxel at `coords`, before scaling.
    fn get_voxel(&self, coords: &[u16]) -> (r: Result<Voxel, NiftiError>)
        requires
            self.well_formed(),
        ensures
            voxel_outcome(
                r,
                coords@,
                self.spec_dim(),
                self.spec_data_type(),
                self.spec_voxel(coords@),
                self.spec_reported(coords@),
            ),
    ;
}

/// A borrowed volume is a volume.
impl<'a, V: NiftiVolume> NiftiVolume for &'a V {
    open spec fn well_formed(&self) -> bool {
        (**self).well_formed()
    }

    open spec fn spec_dim(&self) -> Seq<u16> {
        (**self).spec_dim()
    }

    open spec fn spec_data_type(&self) -> NiftiType {
        (**self).spec_data_type()
    }

    open spec fn spec_scale(&self) -> (u32, u32) {
        (**self).spec_scale()
    }

    open spec fn spec_voxel(&self, c: Seq<u16>) -> Voxel {
        (**self).spec_voxel(c)
    }

    open spec fn spec_reported(&self, c: Seq<u16>) -> Seq<u16> {
        (**self).spec_reported(c)
    }

    fn dim(&self) -> (r: &[u16]) {
        (**self).dim()
    }

    fn dimensionality(&self) -> (r: usize) {
        (**self).dimensionality()
    }

    fn data_type(&self) -> (r: NiftiType) {
        (**self).data_type()
    }

    fn scale(&self) -> (r: (u32, u32)) {
        (**self).scale()
    }

    fn get_voxel(&self, coords: &[u16]) -> (r: Result<Voxel, NiftiError>) {
        (**self).get_voxel(coords)
    }
}

/// A view of the voxels of a volume whose coordinate on one axis is fixed,
/// with one axis fewer than the volume. It holds the volume, owned or
/// borrowed, and answers every query by asking it.
#[derive(Debug, Clone)]
pub struct SliceView<T> {
    volume: T,
    axis: u16,
    index: u16,
    dim: Vec<u16>,
}

impl<T> SliceView<T> {
    /// The volume that the view looks into.
    pub closed spec fn source(&self) -> T {
        self.volume
    }

    /// The axis whose coordinate is fixed.
    pub closed spec fn spec_axis(&self) -> u16 {
        self.axis
    }

    /// The fixed coordinate on that axis.
    pub closed spec fn spec_index(&self) -> u16 {
        self.index
    }
}

/// Coordinates of the source volume for coordinates `c` of a slice that
/// fixes `index` on `axis`.
pub open spec fn lift(c: Seq<u16>, axis: u16, index: u16) -> Seq<u16> {
    c.insert(axis as int, index)
}

/// What `SliceView::new` owes.
pub open spec fn slice_outcome<V: NiftiVolume>(
    volume: V,
    axis: u16,
    index: u16,
    r: Result<SliceView<V>, NiftiError>,
) -> bool {
    if axis as int >= volume.spec_dim().len() {
        r == Err::<SliceView<V>, NiftiError>(NiftiError::AxisOutOfBounds(axis))
    } else if index >= volume.spec_dim()[axis as int] {
        r is Err && r->Err_0.is_out_of_bounds(
            hot_seq(volume.spec_dim().len(), axis as int, index),
        )
    } else {
        &&& r is Ok
        &&& r->Ok_0.source() == volume
        &&& r->Ok_0.spec_axis() == axis
        &&& r->Ok_0.spec_index() == index
        &&& r->Ok_0.well_formed()
    }
}

impl<V: NiftiVolume> SliceView<V> {
    /// The view of `volume` with coordinate `index` fixed on `axis`.
    ///
    /// Fails with `AxisOutOfBounds` if the volume has no such axis, and with
    /// `OutOfBounds` carrying the vector that is `index` at `axis` and zero
    /// elsewhere if `index` is not below that axis's extent.
    pub fn new(volume: V, axis: u16, index: u16) -> (r: Result<SliceView<V>, NiftiError>)
        requires
            volume.well_formed(),
        ensures
            slice_outcome(volume, axis, index, r),
    {
        let n = volume.dimensionality();
        let d = volume.dim();
        if axis as usize >= n {
            return Err(NiftiError::AxisOutOfBounds(axis));
        }
        if d[axis as usize] <= index {
            return Err(NiftiError::OutOfBounds(hot_vector(n, axis as usize, index)));
        }
        let mut dim: Vec<u16> = Vec::new();
        let mut i: usize = 0;
        while i < n
            invariant
                n == d@.len(),
                d@ == volume.spec_dim(),
                0 <= i <= n,
                axis < n,
                i <= axis ==> dim@ =~= d@.subrange(0, i as int),
                i > axis ==> dim@ =~= d@.subrange(0, i as int).remove(axis as int),
            decreases n - i,
        {
            if i != axis as usize {
                dim.push(d[i]);
            }
            proof {
                if i < axis {
                    assert(dim@ =~= d@.subrange(0, i + 1));
                } else {
                    assert(dim@ =~= d@.subrange(0, i + 1).remove(axis as int));
                }
            }
            i += 1;
        }
        proof {
            assert(d@.subrange(0, n as int) =~= d@);
        }
        Ok(SliceView { volume, axis, index, dim })
    }
}

impl<T> SliceView<T> {
    /// The axis whose coordinate is fixed.
    pub fn axis(&self) -> (r: u16)
        ensures
            r == self.spec_axis(),
    {
        self.axis
    }

    /// The fixed coordinate on that axis.
    pub fn index(&self) -> (r: u16)
        ensures
            r == self.spec_index(),
    {
        self.index
    }

    /// The volume that the view looks into, giving up the view.
    pub fn into_source(self) -> (r: T)
        ensures
            r == self.source(),
    {
        self.volume
    }
}

impl<V: NiftiVolume> NiftiVolume for SliceView<V> {
    open spec fn well_formed(&self) -> bool {
        &&& self.source().well_formed()
        &&& (self.spec_axis() as int) < self.source().spec_dim().len()
        &&& self.spec_index() < self.source().spec_dim()[self.spec_axis() as int]
        &&& self.spec_dim() == self.source().spec_dim().remove(self.spec_axis() as int)
    }

    closed spec fn spec_dim(&self) -> Seq<u16> {
        self.dim@
    }

    open spec fn spec_data_type(&self) -> NiftiType {
        self.source().spec_data_type()
    }

    open spec fn spec_scale(&self) -> (u32, u32) {
        self.source().spec_scale()
    }

    open spec fn spec_voxel(&self, c: Seq<u16>) -> Voxel {
        self.source().spec_voxel(lift(c, self.spec_axis(), self.spec_index()))
    }

    open spec fn spec_reported(&self, c: Seq<u16>) -> Seq<u16> {
        if self.spec_axis() as int <= c.len() {
            self.source().spec_reported(lift(c, self.spec_axis(), self.spec_index()))
        } else {
            c
        }
    }

    fn dim(&self) -> (r: &[u16]) {
        self.dim.as_slice()
    }

    fn dimensionality(&self) -> (r: usize) {
        self.dim.len()
    }

    fn data_type(&self) -> (r: NiftiType) {
        self.volume.data_type()
    }

    fn scale(&self) -> (r: (u32, u32)) {
        self.volume.scale()
    }

    fn get_voxel(&self, coords: &[u16]) -> (r: Result<Voxel, NiftiError>) {
        if (self.axis as usize) > coords.len() {
            proof {
                assert(!in_bounds(coords@, self.spec_dim()));
            }
            return Err(NiftiError::OutOfBounds(vstd::slice::slice_to_vec(coords)));
        }
        let mut full = vstd::slice::slice_to_vec(coords);
        full.insert(self.axis as usize, self.index);
        proof {
            lemma_lift_in_bounds(coords@, self.volume.spec_dim(), self.axis, self.index);
        }
        self.volume.get_voxel(full.as_slice())
    }
}

/// Lifting coordinates into the source volume keeps them in bounds exactly
/// when they were in bounds of the slice.
proof fn lemma_lift_in_bounds(c: Seq<u16>, d: Seq<u16>, axis: u16, index: u16)
    requires
        (axis as int) < d.len(),
        axis as int <= c.len(),
        index < d[axis as int],
    ensures
        in_bounds(c, d.remove(axis as int)) <==> in_bounds(lift(c, axis, index), d),
{
    let a = axis as int;
    let l = lift(c, axis, index);
    let r = d.remove(a);
    if in_bounds(c, r) {
        assert forall|i: int| 0 <= i < l.len() implies #[trigger] l[i] < d[i] by {
            if i < a {
                assert(c[i] < r[i]);
            } else if i > a {
                assert(c[i - 1] < r[i - 1]);
            }
        }
    }
    if in_bounds(l, d) {
        assert forall|i: int| 0 <= i < c.len() implies #[trigger] c[i] < r[i] by {
            if i < a {
                assert(l[i] < d[i]);
            } else {
                assert(l[i + 1] < d[i + 1]);
            }
        }
    }
}

/// Volumes that can be cut into slices of one axis fewer.
pub trait Sliceable: NiftiVolume + Copy {
    /// The view of this volume with coordinate `index` fixed on `axis`.
    fn get_slice(&self, axis: u16, index: u16) -> (r: Result<SliceView<Self>, NiftiError>)
        requires
            self.well_formed(),
        ensures
            slice_outcome(*self, axis, index, r),
    ;
}

/// A borrowed volume is sliced without giving it up.
impl<'a, V: NiftiVolume> Sliceable for &'a V {
    fn get_slice(&self, axis: u16, index: u16) -> (r: Result<SliceView<&'a V>, NiftiError>) {
        SliceView::new(*self, axis, index)
    }
}

/// A slice of a volume has the extents of the volume but for the sliced
/// axis, its element type and scale, and at each in-bounds coordinate vector
/// `c` the voxel of the volume at `c` with the fixed coordinate put back in
/// at the sliced axis. Coordinates are in bounds of the slice exactly when
/// they are in bounds of the volume once lifted.
pub proof fn lemma_slice_samples<V: NiftiVolume>(s: SliceView<V>, c: Seq<u16>)
    requires
        s.well_formed(),
    ensures
        s.source().well_formed(),
        s.spec_dim() == s.source().spec_dim().remove(s.spec_axis() as int),
        s.spec_data_type() == s.source().spec_data_type(),
        s.spec_scale() == s.source().spec_scale(),
        s.spec_voxel(c) == s.source().spec_voxel(lift(c, s.spec_axis(), s.spec_index())),
        c.len() == s.spec_dim().len() ==> (in_bounds(c, s.spec_dim()) <==> in_bounds(
            lift(c, s.spec_axis(), s.spec_index()),
            s.source().spec_dim(),
        )),
{
    if c.len() == s.spec_dim().len() {
        lemma_lift_in_bounds(c, s.volume.spec_dim(), s.axis, s.index);
    }
}

/// Slicing twice reads a fiber of the volume: slicing a volume `v` at
/// coordinate `i` of axis `a`, then the result at coordinate `j` of axis `b`,
/// gives a view whose voxel at `c` is the voxel of `v` at `c` with `j` put
/// back in at `b` and then `i` at `a`. On a volume of three axes the result
/// has one axis, and `c` runs along the fiber of `v` that the two fixed
/// coordinates select.
pub proof fn lemma_slice_twice<V: NiftiVolume>(s: SliceView<SliceView<V>>, c: Seq<u16>)
    requires
        s.well_formed(),
    ensures
        s.source().source().well_formed(),
        s.spec_dim().len() + 2 == s.source().source().spec_dim().len(),
        s.spec_data_type() == s.source().source().spec_data_type(),
        s.spec_scale() == s.source().source().spec_scale(),
        s.spec_voxel(c) == s.source().source().spec_voxel(
            lift(
                lift(c, s.spec_axis(), s.spec_index()),
                s.source().spec_axis(),
                s.source().spec_index(),
            ),
        ),
        c.len() == s.spec_dim().len() ==> (in_bounds(c, s.spec_dim()) <==> in_bounds(
            lift(
                lift(c, s.spec_axis(), s.spec_index()),
                s.source().spec_axis(),
                s.source().spec_index(),
            ),
            s.source().source().spec_dim(),
        )),
{
    let inner = s.source();
    let once = lift(c, s.spec_axis(), s.spec_index());
    lemma_slice_samples(s, c);
    lemma_slice_samples(inner, once);
}

} // verus!
