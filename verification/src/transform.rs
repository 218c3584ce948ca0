//! Transforms made of a scale and a translation along each axis.
//!
//! The camera never rotates or shears, so every transform it builds is, in
//! homogeneous coordinates, a 4x4 matrix with a diagonal linear part and a
//! translation column. Such a matrix acts on each axis separately, as
//! `x -> scale * x + offset`. A [`Transform`] stores the three axes in exact
//! rational numbers; its view, a [`TransformMap`], is the same matrix over
//! the reals.

use vstd::prelude::*;
use crate::ratio::{fits, Ratio};

verus! {

/// The map `x -> scale * x + offset` on the real line.
pub struct AxisMap {
    pub scale: real,
    pub offset: real,
}

impl AxisMap {
    /// The map that leaves every point where it is.
    pub open spec fn identity() -> AxisMap {
        AxisMap { scale: 1real, offset: 0real }
    }

    /// The map that moves every point by `t`.
    pub open spec fn shift(t: real) -> AxisMap {
        AxisMap { scale: 1real, offset: t }
    }

    /// The map that multiplies every point by `s`.
    pub open spec fn stretch(s: real) -> AxisMap {
        AxisMap { scale: s, offset: 0real }
    }

    /// The image of `x`.
    pub open spec fn apply(self, x: real) -> real {
        self.scale * x + self.offset
    }

    /// The map that applies `inner` first and `self` second.
    pub open spec fn compose(self, inner: AxisMap) -> AxisMap {
        AxisMap {
            scale: self.scale * inner.scale,
            offset: self.scale * inner.offset + self.offset,
        }
    }

    /// Whether the map can be undone.
    pub open spec fn invertible(self) -> bool {
        self.scale != 0real
    }

    /// The map that undoes `self`, where `self` is invertible.
    pub open spec fn inverse(self) -> AxisMap {
        AxisMap { scale: 1real / self.scale, offset: -(self.offset / self.scale) }
    }

    /// Whether every number met on the way to `self.compose(inner)` fits.
    pub open spec fn compose_fits(self, inner: AxisMap) -> bool {
        &&& fits(self.scale * inner.scale)
        &&& fits(self.scale * inner.offset)
        &&& fits(self.scale * inner.offset + self.offset)
    }

    /// Whether `self` is invertible and every number met on the way to its
    /// inverse fits.
    pub open spec fn inverse_fits(self) -> bool {
        &&& self.invertible()
        &&& fits(1real / self.scale)
        &&& fits(self.offset / self.scale)
    }

    /// Whether every number met on the way to `self.apply(x)` fits.
    pub open spec fn apply_fits(self, x: real) -> bool {
        &&& fits(self.scale * x)
        &&& fits(self.scale * x + self.offset)
    }
}

/// One axis of a [`Transform`].
#[derive(Clone, Copy, Debug, PartialEq, Eq)]
pub struct Axis {
    pub scale: Ratio,
    pub offset: Ratio,
}

impl View for Axis {
    type V = AxisMap;

    open spec fn view(&self) -> AxisMap {
        AxisMap { scale: self.scale@, offset: self.offset@ }
    }
}

impl Axis {
    /// The axis of the identity transform.
    pub fn identity() -> (r: Axis)
        ensures
            r@ == AxisMap::identity(),
    {
        Axis { scale: Ratio::one(), offset: Ratio::zero() }
    }

    /// The axis of a translation by `t`.
    pub fn shift(t: Ratio) -> (r: Axis)
        ensures
            r@ == AxisMap::shift(t@),
    {
        Axis { scale: Ratio::one(), offset: t }
    }

    /// The axis of a scaling by `s`.
    pub fn stretch(s: Ratio) -> (r: Axis)
        ensures
            r@ == AxisMap::stretch(s@),
    {
        Axis { scale: s, offset: Ratio::zero() }
    }

    /// The image of `x`.
    pub fn apply(&self, x: &Ratio) -> (r: Option<Ratio>)
        ensures
            r is Some <==> self@.apply_fits(x@),
            r matches Some(v) ==> v@ == self@.apply(x@),
    {
        match self.scale.checked_mul(x) {
            Some(p) => p.checked_add(&self.offset),
            None => None,
        }
    }

    /// The axis that applies `inner` first and `self` second.
    pub fn compose(&self, inner: &Axis) -> (r: Option<Axis>)
        ensures
            r is Some <==> self@.compose_fits(inner@),
            r matches Some(v) ==> v@ == self@.compose(inner@),
    {
        let scale = match self.scale.checked_mul(&inner.scale) {
            Some(s) => s,
            None => {
                return None;
            },
        };
        let moved = match self.scale.checked_mul(&inner.offset) {
            Some(m) => m,
            None => {
                return None;
            },
        };
        match moved.checked_add(&self.offset) {
            Some(offset) => Some(Axis { scale, offset }),
            None => None,
        }
    }

    /// The axis that undoes `self`.
    pub fn try_inverse(&self) -> (r: Option<Axis>)
        ensures
            r is Some <==> self@.inverse_fits(),
            r matches Some(v) ==> v@ == self@.inverse(),
    {
        let scale = match Ratio::one().checked_div(&self.scale) {
            Some(s) => s,
            None => {
                return None;
            },
        };
        match self.offset.checked_div(&self.scale) {
            Some(q) => Some(Axis { scale, offset: q.neg() }),
            None => None,
        }
    }
}

/// A transform of space that scales and translates along each axis: as a
/// 4x4 homogeneous matrix, the three scales are on the diagonal and the
/// three offsets in the last column.
pub struct TransformMap {
    pub x: AxisMap,
    pub y: AxisMap,
    pub z: AxisMap,
}

impl TransformMap {
    /// The identity matrix.
    pub open spec fn identity() -> TransformMap {
        TransformMap { x: AxisMap::identity(), y: AxisMap::identity(), z: AxisMap::identity() }
    }

    /// The translation by `(x, y, z)`.
    pub open spec fn translation(x: real, y: real, z: real) -> TransformMap {
        TransformMap { x: AxisMap::shift(x), y: AxisMap::shift(y), z: AxisMap::shift(z) }
    }

    /// The scaling by `x`, `y` and `z` along the three axes.
    pub open spec fn nonuniform_scaling(x: real, y: real, z: real) -> TransformMap {
        TransformMap { x: AxisMap::stretch(x), y: AxisMap::stretch(y), z: AxisMap::stretch(z) }
    }

    /// The matrix product `self * inner`: the transform that applies `inner`
    /// first and `self` second.
    pub open spec fn compose(self, inner: TransformMap) -> TransformMap {
        TransformMap {
            x: self.x.compose(inner.x),
            y: self.y.compose(inner.y),
            z: self.z.compose(inner.z),
        }
    }

    /// Whether the matrix is not singular.
    pub open spec fn invertible(self) -> bool {
        self.x.invertible() && self.y.invertible() && self.z.invertible()
    }

    /// The inverse matrix, where there is one.
    pub open spec fn inverse(self) -> TransformMap {
        TransformMap { x: self.x.inverse(), y: self.y.inverse(), z: self.z.inverse() }
    }

    /// The first two coordinates of the image of the point `(p.0, p.1, 0)`.
    pub open spec fn apply(self, p: (real, real)) -> (real, real) {
        (self.x.apply(p.0), self.y.apply(p.1))
    }

    /// The entry of the 4x4 matrix in the given row and column, both counted
    /// from zero.
    pub open spec fn entry(self, row: int, col: int) -> real {
        if row == 0 && col == 0 {
            self.x.scale
        } else if row == 1 && col == 1 {
            self.y.scale
        } else if row == 2 && col == 2 {
            self.z.scale
        } else if row == 0 && col == 3 {
            self.x.offset
        } else if row == 1 && col == 3 {
            self.y.offset
        } else if row == 2 && col == 3 {
            self.z.offset
        } else if row == 3 && col == 3 {
            1real
        } else {
            0real
        }
    }

    /// Whether every number met on the way to `self.compose(inner)` fits.
    pub open spec fn compose_fits(self, inner: TransformMap) -> bool {
        &&& self.x.compose_fits(inner.x)
        &&& self.y.compose_fits(inner.y)
        &&& self.z.compose_fits(inner.z)
    }

    /// Whether the matrix is not singular and every number met on the way to
    /// its inverse fits.
    pub open spec fn inverse_fits(self) -> bool {
        &&& self.x.inverse_fits()
        &&& self.y.inverse_fits()
        &&& self.z.inverse_fits()
    }

    /// Whether every number met on the way to `self.apply(p)` fits.
    pub open spec fn apply_fits(self, p: (real, real)) -> bool {
        &&& self.x.apply_fits(p.0)
        &&& self.y.apply_fits(p.1)
    }
}

/// A transform that scales and translates along each axis, in exact
/// rational numbers.
#[derive(Clone, Copy, Debug, PartialEq, Eq)]
pub struct Transform {
    pub x: Axis,
    pub y: Axis,
    pub z: Axis,
}

impl View for Transform {
    type V = TransformMap;

    open spec fn view(&self) -> TransformMap {
        TransformMap { x: self.x@, y: self.y@, z: self.z@ }
    }
}

impl Transform {
    /// The identity matrix.
    pub fn identity() -> (r: Transform)
        ensures
            r@ == TransformMap::identity(),
    {
        Transform { x: Axis::identity(), y: Axis::identity(), z: Axis::identity() }
    }

    /// The translation by `(x, y, z)`.
    pub fn translation(x: Ratio, y: Ratio, z: Ratio) -> (r: Transform)
        ensures
            r@ == TransformMap::translation(x@, y@, z@),
    {
        Transform { x: Axis::shift(x), y: Axis::shift(y), z: Axis::shift(z) }
    }

    /// The scaling by `x`, `y` and `z` along the three axes.
    pub fn nonuniform_scaling(x: Ratio, y: Ratio, z: Ratio) -> (r: Transform)
        ensures
            r@ == TransformMap::nonuniform_scaling(x@, y@, z@),
    {
        Transform { x: Axis::stretch(x), y: Axis::stretch(y), z: Axis::stretch(z) }
    }

    /// The matrix product `self * inner`: the transform that applies `inner`
    /// first and `self` second.
    pub fn compose(&self, inner: &Transform) -> (r: Option<Transform>)
        ensures
            r is Some <==> self@.compose_fits(inner@),
            r matches Some(v) ==> v@ == self@.compose(inner@),
    {
        let x = match self.x.compose(&inner.x) {
            Some(a) => a,
            None => {
                return None;
            },
        };
        let y = match self.y.compose(&inner.y) {
            Some(a) => a,
            None => {
                return None;
            },
        };
        match self.z.compose(&inner.z) {
            Some(z) => Some(Transform { x, y, z }),
            None => None,
        }
    }

    /// The inverse matrix; `None` when the matrix is singular.
    pub fn try_inverse(&self) -> (r: Option<Transform>)
        ensures
            r is Some <==> self@.inverse_fits(),
            r matches Some(v) ==> v@ == self@.inverse(),
    {
        let x = match self.x.try_inverse() {
            Some(a) => a,
            None => {
                return None;
            },
        };
        let y = match self.y.try_inverse() {
            Some(a) => a,
            None => {
                return None;
            },
        };
        match self.z.try_inverse() {
            Some(z) => Some(Transform { x, y, z }),
            None => None,
        }
    }

    /// The first two coordinates of the image of the point `(p.0, p.1, 0)`.
    pub fn transform_point(&self, p: &(Ratio, Ratio)) -> (r: Option<(Ratio, Ratio)>)
        ensures
            r is Some <==> self@.apply_fits(p@),
            r matches Some(v) ==> v@ == self@.apply(p@),
    {
        let x = match self.x.apply(&p.0) {
            Some(a) => a,
            None => {
                return None;
            },
        };
        match self.y.apply(&p.1) {
            Some(y) => Some((x, y)),
            None => None,
        }
    }

    /// The entry of the 4x4 matrix in the given row and column, both counted
    /// from zero; `None` outside the matrix.
    pub fn entry(&self, row: usize, col: usize) -> (r: Option<Ratio>)
        ensures
            r is Some <==> row < 4 && col < 4,
            r matches Some(v) ==> v@ == self@.entry(row as int, col as int),
    {
        if row >= 4 || col >= 4 {
            None
        } else if row == 0 && col == 0 {
            Some(self.x.scale)
        } else if row == 1 && col == 1 {
            Some(self.y.scale)
        } else if row == 2 && col == 2 {
            Some(self.z.scale)
        } else if row == 0 && col == 3 {
            Some(self.x.offset)
        } else if row == 1 && col == 3 {
            Some(self.y.offset)
        } else if row == 2 && col == 3 {
            Some(self.z.offset)
        } else if row == 3 && col == 3 {
            Some(Ratio::one())
        } else {
            Some(Ratio::zero())
        }
    }
}

/// Composition is the composition of maps: `self * inner` sends a point
/// where `self` sends its image under `inner`.
pub proof fn lemma_compose_applies_inner_first(
    outer: TransformMap,
    inner: TransformMap,
    p: (real, real),
)
    ensures
        outer.compose(inner).apply(p) == outer.apply(inner.apply(p)),
{
    lemma_axis_compose_apply(outer.x, inner.x, p.0);
    lemma_axis_compose_apply(outer.y, inner.y, p.1);
}

proof fn lemma_axis_compose_apply(outer: AxisMap, inner: AxisMap, x: real)
    ensures
        outer.compose(inner).apply(x) == outer.apply(inner.apply(x)),
{
    let s1 = outer.scale;
    let t1 = outer.offset;
    let s2 = inner.scale;
    let t2 = inner.offset;
    assert((s1 * s2) * x + (s1 * t2 + t1) == s1 * (s2 * x + t2) + t1) by (nonlinear_arith);
}

proof fn lemma_axis_compose_associative(a: AxisMap, b: AxisMap, c: AxisMap)
    ensures
        a.compose(b).compose(c) == a.compose(b.compose(c)),
{
    let s1 = a.scale;
    let t1 = a.offset;
    let s2 = b.scale;
    let t2 = b.offset;
    let s3 = c.scale;
    let t3 = c.offset;
    assert((s1 * s2) * s3 == s1 * (s2 * s3)) by (nonlinear_arith);
    assert((s1 * s2) * t3 + (s1 * t2 + t1) == s1 * (s2 * t3 + t2) + t1) by (nonlinear_arith);
}

proof fn lemma_axis_inverse(a: AxisMap)
    requires
        a.invertible(),
    ensures
        a.compose(a.inverse()) == AxisMap::identity(),
        a.inverse().compose(a) == AxisMap::identity(),
        a.inverse().invertible(),
{
    let s = a.scale;
    let t = a.offset;
    let r = 1real / s;
    let q = t / s;
    assert(s * r == 1real && r * s == 1real && r != 0real) by (nonlinear_arith)
        requires
            s != 0real,
            r == 1real / s,
    ;
    assert(s * q == t && r * t == q) by (nonlinear_arith)
        requires
            s != 0real,
            r == 1real / s,
            q == t / s,
    ;
    assert(s * (-q) + t == 0real) by (nonlinear_arith)
        requires
            s * q == t,
    ;
}

proof fn lemma_axis_identity(a: AxisMap)
    ensures
        a.compose(AxisMap::identity()) == a,
        AxisMap::identity().compose(a) == a,
{
}

/// Composition is associative.
pub proof fn lemma_compose_associative(a: TransformMap, b: TransformMap, c: TransformMap)
    ensures
        a.compose(b).compose(c) == a.compose(b.compose(c)),
{
    lemma_axis_compose_associative(a.x, b.x, c.x);
    lemma_axis_compose_associative(a.y, b.y, c.y);
    lemma_axis_compose_associative(a.z, b.z, c.z);
}

/// The identity is neutral for composition.
pub proof fn lemma_compose_identity(a: TransformMap)
    ensures
        a.compose(TransformMap::identity()) == a,
        TransformMap::identity().compose(a) == a,
{
    lemma_axis_identity(a.x);
    lemma_axis_identity(a.y);
    lemma_axis_identity(a.z);
}

/// An invertible transform composed with its inverse, on either side, is
/// the identity.
pub proof fn lemma_inverse_cancels(a: TransformMap)
    requires
        a.invertible(),
    ensures
        a.compose(a.inverse()) == TransformMap::identity(),
        a.inverse().compose(a) == TransformMap::identity(),
        a.inverse().invertible(),
{
    lemma_axis_inverse(a.x);
    lemma_axis_inverse(a.y);
    lemma_axis_inverse(a.z);
}

/// The sum over `k` of `a[row][k] * b[k][col]`.
pub open spec fn matrix_product_entry(
    a: TransformMap,
    b: TransformMap,
    row: int,
    col: int,
) -> real {
    a.entry(row, 0) * b.entry(0, col) + a.entry(row, 1) * b.entry(1, col) + a.entry(row, 2)
        * b.entry(2, col) + a.entry(row, 3) * b.entry(3, col)
}

proof fn lemma_product_with_zero_or_one(x: real, y: real)
    by (nonlinear_arith)
    ensures
        x == 0real ==> x * y == 0real,
        y == 0real ==> x * y == 0real,
        x == 1real ==> x * y == y,
        y == 1real ==> x * y == x,
{
}

/// Composition is the product of the 4x4 matrices, entry by entry.
pub proof fn lemma_compose_is_matrix_product(a: TransformMap, b: TransformMap, row: int, col: int)
    requires
        0 <= row < 4,
        0 <= col < 4,
    ensures
        a.compose(b).entry(row, col) == matrix_product_entry(a, b, row, col),
{
    lemma_product_with_zero_or_one(a.entry(row, 0), b.entry(0, col));
    lemma_product_with_zero_or_one(a.entry(row, 1), b.entry(1, col));
    lemma_product_with_zero_or_one(a.entry(row, 2), b.entry(2, col));
    lemma_product_with_zero_or_one(a.entry(row, 3), b.entry(3, col));
}

} // verus!
