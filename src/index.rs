//! Mapping of voxel coordinates to linear positions in column-major order.
use vstd::prelude::*;

verus! {

/// Each coordinate lies below the extent of its axis, and there is one
/// coordinate per axis.
pub open spec fn in_bounds(c: Seq<u16>, d: Seq<u16>) -> bool {
    &&& c.len() == d.len()
    &&& forall|i: int| 0 <= i < c.len() ==> #[trigger] c[i] < d[i]
}

/// Product of the extents from axis `i` on.
pub open spec fn product_from(d: Seq<u16>, i: int) -> nat
    decreases d.len() - i,
{
    if i < 0 || i >= d.len() {
        1
    } else {
        d[i] as nat * product_from(d, i + 1)
    }
}

/// Number of voxels of a volume with extents `d`.
pub open spec fn product(d: Seq<u16>) -> nat {
    product_from(d, 0)
}

/// Column-major position of the coordinates from axis `i` on, relative to the
/// sub-volume spanned by those axes: `c[i] + d[i] * (c[i+1] + d[i+1] * (...))`,
/// which is the sum of `c[k] * stride[k]` with `stride[k]` the product of the
/// extents before `k`.
pub open spec fn linear_from(c: Seq<u16>, d: Seq<u16>, i: int) -> nat
    decreases c.len() - i,
{
    if i < 0 || i >= c.len() {
        0
    } else {
        c[i] as nat + d[i] as nat * linear_from(c, d, i + 1)
    }
}

/// Column-major (first axis fastest) linear index of coordinates `c` in a
/// volume with extents `d`.
pub open spec fn linear_index(c: Seq<u16>, d: Seq<u16>) -> nat {
    linear_from(c, d, 0)
}

/// A vector of `n` zeros but for `index` at position `axis`.
pub open spec fn hot_seq(n: nat, axis: int, index: u16) -> Seq<u16> {
    Seq::new(n, |i: int| if i == axis { index } else { 0u16 })
}

proof fn lemma_linear_from_bound(c: Seq<u16>, d: Seq<u16>, i: int)
    requires
        in_bounds(c, d),
        0 <= i <= c.len(),
    ensures
        linear_from(c, d, i) < product_from(d, i),
    decreases c.len() - i,
{
    if i < c.len() {
        lemma_linear_from_bound(c, d, i + 1);
        let x = c[i] as int;
        let e = d[i] as int;
        let r = linear_from(c, d, i + 1) as int;
        let p = product_from(d, i + 1) as int;
        assert(x < e);
        assert(x + e * r < e * p) by (nonlinear_arith)
            requires
                0 <= x < e,
                0 <= r < p,
        ;
    }
}

proof fn lemma_linear_from_injective(a: Seq<u16>, b: Seq<u16>, d: Seq<u16>, i: int)
    requires
        in_bounds(a, d),
        in_bounds(b, d),
        0 <= i <= a.len(),
        linear_from(a, d, i) == linear_from(b, d, i),
    ensures
        forall|k: int| i <= k < a.len() ==> a[k] == b[k],
    decreases a.len() - i,
{
    if i < a.len() {
        let x = a[i] as int;
        let y = b[i] as int;
        let e = d[i] as int;
        let r = linear_from(a, d, i + 1) as int;
        let s = linear_from(b, d, i + 1) as int;
        assert(x < e && y < e);
        assert(x == y && r == s) by (nonlinear_arith)
            requires
                0 <= x < e,
                0 <= y < e,
                0 <= r,
                0 <= s,
                x + e * r == y + e * s,
        {
            if r < s {
                assert(e * r + e <= e * s);
            } else if s < r {
                assert(e * s + e <= e * r);
            }
        }
        lemma_linear_from_injective(a, b, d, i + 1);
    }
}

/// Every in-bounds coordinate vector maps below the number of voxels, and
/// distinct in-bounds coordinate vectors map to distinct linear indices.
pub proof fn lemma_linear_index_bijective(a: Seq<u16>, b: Seq<u16>, d: Seq<u16>)
    requires
        in_bounds(a, d),
        in_bounds(b, d),
    ensures
        linear_index(a, d) < product(d),
        linear_index(a, d) == linear_index(b, d) ==> a == b,
{
    lemma_linear_from_bound(a, d, 0);
    if linear_index(a, d) == linear_index(b, d) {
        lemma_linear_from_injective(a, b, d, 0);
        assert(a =~= b);
    }
}

/// Linear index of `coords` in a volume with extents `dim`, in column-major
/// order; `None` when the coordinates are out of bounds.
pub fn coords_to_index(coords: &[u16], dim: &[u16]) -> (r: Option<usize>)
    requires
        product(dim@) <= usize::MAX,
    ensures
        r is Some <==> in_bounds(coords@, dim@),
        r is Some ==> r->0 == linear_index(coords@, dim@),
{
    if coords.len() != dim.len() {
        return None;
    }
    let n = coords.len();
    let mut i: usize = 0;
    while i < n
        invariant
            n == coords@.len() == dim@.len(),
            0 <= i <= n,
            forall|k: int| 0 <= k < i ==> #[trigger] coords@[k] < dim@[k],
        decreases n - i,
    {
        if coords[i] >= dim[i] {
            return None;
        }
        i += 1;
    }
    proof {
        lemma_linear_from_bound(coords@, dim@, 0);
    }
    let mut idx: usize = 0;
    let mut j: usize = n;
    while j > 0
        invariant
            n == coords@.len() == dim@.len(),
            in_bounds(coords@, dim@),
            product(dim@) <= usize::MAX,
            0 <= j <= n,
            idx == linear_from(coords@, dim@, j as int),
        decreases j,
    {
        j -= 1;
        proof {
            assert forall|k: int| 0 <= k < dim@.len() implies #[trigger] dim@[k] > 0 by {
                assert(coords@[k] < dim@[k]);
            }
            lemma_linear_from_bound(coords@, dim@, j as int);
            lemma_product_from_le(dim@, j as int);
        }
        idx = coords[j] as usize + dim[j] as usize * idx;
    }
    Some(idx)
}

/// With no zero extent, the product of the extents from `i` on is at most
/// the product of all of them.
pub(crate) proof fn lemma_product_from_le(d: Seq<u16>, i: int)
    requires
        0 <= i <= d.len(),
        forall|k: int| 0 <= k < d.len() ==> #[trigger] d[k] > 0,
    ensures
        product_from(d, i) <= product(d),
    decreases i,
{
    if i > 0 {
        lemma_product_from_le(d, i - 1);
        let e = d[i - 1] as int;
        let p = product_from(d, i) as int;
        assert(p <= e * p) by (nonlinear_arith)
            requires
                e >= 1,
                p >= 0,
        ;
    }
}

/// A coordinate vector of length `n`, zero everywhere but at `axis`, where
/// it holds `index`.
pub fn hot_vector(n: usize, axis: usize, index: u16) -> (r: Vec<u16>)
    ensures
        r@ == hot_seq(n as nat, axis as int, index),
{
    let mut v: Vec<u16> = Vec::new();
    let mut i: usize = 0;
    while i < n
        invariant
            0 <= i <= n,
            v@ =~= hot_seq(i as nat, axis as int, index),
        decreases n - i,
    {
        if i == axis {
            v.push(index);
        } else {
            v.push(0);
        }
        i += 1;
    }
    v
}

} // verus!
