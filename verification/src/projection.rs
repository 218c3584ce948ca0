//! Orthographic projections and the aspect-ratio correction.
//!
//! Each of these builds one [`Transform`] from a few sizes. None depends on
//! the state of a camera.

use vstd::prelude::*;
use crate::ratio::{fits, Ratio};
use crate::transform::{Axis, AxisMap, Transform, TransformMap};

verus! {

/// The axis of an orthographic projection that sends the interval from
/// `lo` to `hi` onto the interval from -1 to 1.
pub open spec fn span_axis(lo: real, hi: real) -> AxisMap {
    AxisMap { scale: 2real / (hi - lo), offset: (-(hi + lo)) / (hi - lo) }
}

/// Whether the interval is not empty and every number met on the way to
/// `span_axis(lo, hi)` fits.
pub open spec fn span_axis_fits(lo: real, hi: real) -> bool {
    &&& fits(hi - lo)
    &&& hi - lo != 0real
    &&& fits(2real / (hi - lo))
    &&& fits(hi + lo)
    &&& fits((-(hi + lo)) / (hi - lo))
}

/// The depth axis of an orthographic projection that sends the interval
/// from `near` to `far` onto the interval from 0 to 1.
pub open spec fn depth_axis(near: real, far: real) -> AxisMap {
    AxisMap { scale: 1real / (far - near), offset: (-near) / (far - near) }
}

/// Whether the interval is not empty and every number met on the way to
/// `depth_axis(near, far)` fits.
pub open spec fn depth_axis_fits(near: real, far: real) -> bool {
    &&& fits(far - near)
    &&& far - near != 0real
    &&& fits(1real / (far - near))
    &&& fits((-near) / (far - near))
}

/// The left-handed orthographic projection with depth from zero to one:
/// the box with the given faces goes onto `[-1, 1] x [-1, 1] x [0, 1]`.
pub open spec fn ortho_lh_zo_map(
    left: real,
    right: real,
    bottom: real,
    top: real,
    znear: real,
    zfar: real,
) -> TransformMap {
    TransformMap {
        x: span_axis(left, right),
        y: span_axis(bottom, top),
        z: depth_axis(znear, zfar),
    }
}

/// Whether `ortho_lh_zo_map` of these faces can be computed.
pub open spec fn ortho_lh_zo_fits(
    left: real,
    right: real,
    bottom: real,
    top: real,
    znear: real,
    zfar: real,
) -> bool {
    &&& span_axis_fits(left, right)
    &&& span_axis_fits(bottom, top)
    &&& depth_axis_fits(znear, zfar)
}

/// The projection of the pixel rectangle of the given size onto
/// `[-1, 1] x [-1, 1]`: `x -> 2 x / width - 1`, `y -> 2 y / height - 1`,
/// depth unchanged.
pub open spec fn orthographic_projection2_map(width: real, height: real) -> TransformMap {
    TransformMap {
        x: AxisMap { scale: 2real / width, offset: -1real },
        y: AxisMap { scale: 2real / height, offset: -1real },
        z: AxisMap::identity(),
    }
}

/// Whether neither size is zero and both scales of
/// `orthographic_projection2_map` fit.
pub open spec fn orthographic_projection2_fits(width: real, height: real) -> bool {
    &&& width != 0real
    &&& fits(2real / width)
    &&& height != 0real
    &&& fits(2real / height)
}

/// The horizontal scale that gives content of size `inner` its own aspect
/// ratio inside a view of size `outer`: the ratio of the two aspect ratios.
pub open spec fn aspect_ratio_scale(inner: (real, real), outer: (real, real)) -> real {
    (inner.0 / inner.1) / (outer.0 / outer.1)
}

/// The correction of the aspect ratio: a scaling of the horizontal axis,
/// the vertical axis being the reference.
pub open spec fn aspect_ratio_transform_map(
    inner: (real, real),
    outer: (real, real),
) -> TransformMap {
    TransformMap::nonuniform_scaling(aspect_ratio_scale(inner, outer), 1real, 1real)
}

/// Whether both heights and the outer aspect ratio are not zero and every
/// number met on the way to `aspect_ratio_scale` fits.
pub open spec fn aspect_ratio_transform_fits(inner: (real, real), outer: (real, real)) -> bool {
    &&& inner.1 != 0real
    &&& fits(inner.0 / inner.1)
    &&& outer.1 != 0real
    &&& fits(outer.0 / outer.1)
    &&& outer.0 / outer.1 != 0real
    &&& fits(aspect_ratio_scale(inner, outer))
}

fn span(lo: &Ratio, hi: &Ratio) -> (r: Option<Axis>)
    ensures
        r is Some <==> span_axis_fits(lo@, hi@),
        r matches Some(a) ==> a@ == span_axis(lo@, hi@),
{
    let extent = match hi.checked_sub(lo) {
        Some(e) => e,
        None => {
            return None;
        },
    };
    let scale = match Ratio::from_int(2).checked_div(&extent) {
        Some(s) => s,
        None => {
            return None;
        },
    };
    let sum = match hi.checked_add(lo) {
        Some(s) => s,
        None => {
            return None;
        },
    };
    match sum.neg().checked_div(&extent) {
        Some(offset) => Some(Axis { scale, offset }),
        None => None,
    }
}

fn depth(near: &Ratio, far: &Ratio) -> (r: Option<Axis>)
    ensures
        r is Some <==> depth_axis_fits(near@, far@),
        r matches Some(a) ==> a@ == depth_axis(near@, far@),
{
    let extent = match far.checked_sub(near) {
        Some(e) => e,
        None => {
            return None;
        },
    };
    let scale = match Ratio::one().checked_div(&extent) {
        Some(s) => s,
        None => {
            return None;
        },
    };
    match near.neg().checked_div(&extent) {
        Some(offset) => Some(Axis { scale, offset }),
        None => None,
    }
}

/// The left-handed orthographic projection with depth from zero to one.
///
/// `None` when two opposite faces coincide.
pub fn ortho_lh_zo(
    left: Ratio,
    right: Ratio,
    bottom: Ratio,
    top: Ratio,
    znear: Ratio,
    zfar: Ratio,
) -> (r: Option<Transform>)
    ensures
        r is Some <==> ortho_lh_zo_fits(left@, right@, bottom@, top@, znear@, zfar@),
        r matches Some(t) ==> t@ == ortho_lh_zo_map(left@, right@, bottom@, top@, znear@, zfar@),
{
    let x = match span(&left, &right) {
        Some(a) => a,
        None => {
            return None;
        },
    };
    let y = match span(&bottom, &top) {
        Some(a) => a,
        None => {
            return None;
        },
    };
    match depth(&znear, &zfar) {
        Some(z) => Some(Transform { x, y, z }),
        None => None,
    }
}

/// The orthographic projection of a view `w` wide and `h` high, with depth
/// from 1 to 100.
pub fn ortho(w: Ratio, h: Ratio) -> (r: Option<Transform>)
    ensures
        r is Some <==> ortho_lh_zo_fits(0real, w@, 0real, h@, 1real, 100real),
        r matches Some(t) ==> t@ == ortho_lh_zo_map(0real, w@, 0real, h@, 1real, 100real),
{
    ortho_lh_zo(Ratio::zero(), w, Ratio::zero(), h, Ratio::one(), Ratio::from_int(100))
}

/// The projection of the pixel rectangle of the given size onto
/// `[-1, 1] x [-1, 1]`.
///
/// `None` when a size is zero.
pub fn orthographic_projection2(width: Ratio, height: Ratio) -> (r: Option<Transform>)
    ensures
        r is Some <==> orthographic_projection2_fits(width@, height@),
        r matches Some(t) ==> t@ == orthographic_projection2_map(width@, height@),
{
    let two = Ratio::from_int(2);
    let minus_one = Ratio::from_int(-1);
    let sx = match two.checked_div(&width) {
        Some(s) => s,
        None => {
            return None;
        },
    };
    match two.checked_div(&height) {
        Some(sy) => Some(
            Transform {
                x: Axis { scale: sx, offset: minus_one },
                y: Axis { scale: sy, offset: minus_one },
                z: Axis::identity(),
            },
        ),
        None => None,
    }
}

/// The correction of the aspect ratio for content of size `inner_size`
/// shown in a view of size `outer_size`.
///
/// `None` when a height, or the outer width, is zero.
pub fn aspect_ratio_transform(
    inner_size: (Ratio, Ratio),
    outer_size: (Ratio, Ratio),
) -> (r: Option<Transform>)
    ensures
        r is Some <==> aspect_ratio_transform_fits(inner_size@, outer_size@),
        r matches Some(t) ==> t@ == aspect_ratio_transform_map(inner_size@, outer_size@),
{
    let inner_aspect_ratio = match inner_size.0.checked_div(&inner_size.1) {
        Some(a) => a,
        None => {
            return None;
        },
    };
    let outer_aspect_ratio = match outer_size.0.checked_div(&outer_size.1) {
        Some(a) => a,
        None => {
            return None;
        },
    };
    match inner_aspect_ratio.checked_div(&outer_aspect_ratio) {
        Some(scale_x) => Some(Transform::nonuniform_scaling(scale_x, Ratio::one(), Ratio::one())),
        None => None,
    }
}

/// For a view whose corner is at the origin, the general orthographic
/// projection acts on the pixel plane as the projection of the pixel
/// rectangle does.
pub proof fn lemma_ortho_agrees_with_projection2(w: real, h: real)
    requires
        w != 0real,
        h != 0real,
    ensures
        ortho_lh_zo_map(0real, w, 0real, h, 1real, 100real).x == orthographic_projection2_map(
            w,
            h,
        ).x,
        ortho_lh_zo_map(0real, w, 0real, h, 1real, 100real).y == orthographic_projection2_map(
            w,
            h,
        ).y,
{
    assert((-(w + 0real)) / (w - 0real) == -1real) by (nonlinear_arith)
        requires
            w != 0real,
    ;
    assert((-(h + 0real)) / (h - 0real) == -1real) by (nonlinear_arith)
        requires
            h != 0real,
    ;
}

/// The projection of the pixel rectangle sends its corners to the corners
/// of `[-1, 1] x [-1, 1]` and its centre to the origin.
pub proof fn lemma_projection2_corners(w: real, h: real)
    requires
        w != 0real,
        h != 0real,
    ensures
        orthographic_projection2_map(w, h).apply((0real, 0real)) == (-1real, -1real),
        orthographic_projection2_map(w, h).apply((w, h)) == (1real, 1real),
        orthographic_projection2_map(w, h).apply((w / 2real, h / 2real)) == (0real, 0real),
{
    lemma_scaled_extent(w);
    lemma_scaled_extent(h);
}

proof fn lemma_scaled_extent(w: real)
    requires
        w != 0real,
    ensures
        (2real / w) * 0real == 0real,
        (2real / w) * w == 2real,
        (2real / w) * (w / 2real) == 1real,
{
    assert((2real / w) * 0real == 0real) by (nonlinear_arith);
    assert((2real / w) * w == 2real) by (nonlinear_arith)
        requires
            w != 0real,
    ;
    assert((2real / w) * (w / 2real) == 1real) by (nonlinear_arith)
        requires
            w != 0real,
    ;
}

} // verus!
