//! What holds of every camera, proved on the model.
//!
//! The theorems speak of [`CameraModel`], the view of a camera; the
//! operations of [`crate::camera2d::Camera2D`] are proved to compute on it.
//! Because the arithmetic is exact, each statement is an equality and not an
//! approximation.

use vstd::prelude::*;
use crate::camera2d::{
    denormalized, lemma_scroll_keeps_valid, lemma_zoom_axis, lemma_zoom_keeps_valid,
    ndc_to_screen_map, normalized, screen_to_ndc_map, texture_translation_map,
    unproject_to_content_map, CameraModel,
};
use crate::projection::orthographic_projection2_map;
use crate::transform::{
    lemma_compose_applies_inner_first, lemma_compose_associative, AxisMap, TransformMap,
};

verus! {

/// The transform of a camera is never singular.
pub proof fn lemma_camera_transform_is_invertible(m: CameraModel)
    requires
        m.valid(),
    ensures
        m.transform.invertible(),
{
}

/// The inverse of an invertible axis takes each image back to its point,
/// and is the only map that does.
proof fn lemma_axis_unapply(axis: AxisMap, n: real)
    requires
        axis.invertible(),
    ensures
        axis.apply(axis.inverse().apply(n)) == n,
        forall|b: real| axis.apply(b) == n ==> b == axis.inverse().apply(n),
{
    let s = axis.scale;
    let t = axis.offset;
    let r = 1real / s;
    let q = t / s;
    let a = r * n + (-q);
    assert(s * r == 1real && s * q == t) by (nonlinear_arith)
        requires
            s != 0real,
            r == 1real / s,
            q == t / s,
    ;
    assert(s * a + t == n) by (nonlinear_arith)
        requires
            s * r == 1real,
            s * q == t,
            a == r * n + (-q),
    ;
    assert forall|b: real| axis.apply(b) == n implies b == a by {
        assert(b == a) by (nonlinear_arith)
            requires
                s != 0real,
                s * b + t == n,
                s * a + t == n,
        ;
    }
}

/// Zoom about the point that an axis sends to `n` leaves that point where
/// it is.
proof fn lemma_axis_zoom_keeps_anchor(axis: AxisMap, n: real, f: real)
    requires
        axis.invertible(),
        f != 0real,
    ensures
        ({
            let a = axis.inverse().apply(n);
            let zoomed = axis.compose(AxisMap::shift(a)).compose(AxisMap::stretch(f)).compose(
                AxisMap::shift(-a),
            );
            &&& zoomed.invertible()
            &&& zoomed.inverse().apply(n) == a
        }),
{
    let s = axis.scale;
    let t = axis.offset;
    let a = axis.inverse().apply(n);
    let zoomed = axis.compose(AxisMap::shift(a)).compose(AxisMap::stretch(f)).compose(
        AxisMap::shift(-a),
    );
    lemma_axis_unapply(axis, n);
    lemma_zoom_axis(s, t, a, f);
    let big = s * f;
    assert(big != 0real) by (nonlinear_arith)
        requires
            big == s * f,
            s != 0real,
            f != 0real,
    ;
    assert(big * a + (big * (-a) + (s * a + t)) == s * a + t) by (nonlinear_arith);
    assert(zoomed.apply(a) == n);
    lemma_axis_unapply(zoomed, n);
}

/// The zoom about a content point leaves that point where it is.
pub proof fn lemma_zoom_about_fixes_anchor(a: (real, real), factor: real)
    ensures
        CameraModel::zoom_about(a, factor).apply(a) == a,
{
    lemma_zoom_axis(1real, 0real, a.0, factor);
    lemma_zoom_axis(1real, 0real, a.1, factor);
    assert((1real * factor) * a.0 + ((1real * factor) * (-a.0) + (1real * a.0 + 0real)) == a.0)
        by (nonlinear_arith);
    assert((1real * factor) * a.1 + ((1real * factor) * (-a.1) + (1real * a.1 + 0real)) == a.1)
        by (nonlinear_arith);
    assert(1real * 1real == 1real) by (nonlinear_arith);
}

/// A zoom puts the zoom about the anchor to the right of the transform, so
/// that it acts on the content before the pan and zoom gathered so far.
pub proof fn lemma_zoom_appends_on_the_right(m: CameraModel, p: (real, real), delta: real)
    ensures
        m.zoom_to(p, delta).transform == m.transform.compose(
            CameraModel::zoom_about(m.anchor(p), 1real + delta),
        ),
{
    let a = m.anchor(p);
    let f = 1real + delta;
    let to_point = TransformMap::translation(a.0, a.1, 0real);
    let scaling = TransformMap::nonuniform_scaling(f, f, 1real);
    let from_point = TransformMap::translation(-a.0, -a.1, 0real);
    lemma_compose_associative(m.transform, to_point, scaling);
    lemma_compose_associative(m.transform, to_point.compose(scaling), from_point);
}

/// Anchor stability: after a zoom about a pixel, the content point under
/// that pixel is the one that was under it before.
pub proof fn lemma_zoom_keeps_anchor(m: CameraModel, p: (real, real), delta: real)
    requires
        m.valid(),
        1real + delta > 0real,
    ensures
        m.zoom_to(p, delta).anchor(p) == m.anchor(p),
{
    let n = screen_to_ndc_map(p, m.outer_size);
    lemma_axis_zoom_keeps_anchor(m.transform.x, n.0, 1real + delta);
    lemma_axis_zoom_keeps_anchor(m.transform.y, n.1, 1real + delta);
}

/// A zoom by a positive `delta` makes the scale strictly larger.
pub proof fn lemma_zoom_in_increases_scale(m: CameraModel, p: (real, real), delta: real)
    requires
        m.valid(),
        delta > 0real,
    ensures
        m.zoom_to(p, delta).scale > m.scale,
{
    let s = m.scale;
    assert(s * (1real + delta) > s) by (nonlinear_arith)
        requires
            s > 0real,
            delta > 0real,
    ;
}

/// A zoom by a negative `delta` above -1 makes the scale strictly smaller,
/// and leaves it positive.
pub proof fn lemma_zoom_out_decreases_scale(m: CameraModel, p: (real, real), delta: real)
    requires
        m.valid(),
        -1real < delta < 0real,
    ensures
        0real < m.zoom_to(p, delta).scale < m.scale,
{
    let s = m.scale;
    assert(0real < s * (1real + delta) < s) by (nonlinear_arith)
        requires
            s > 0real,
            -1real < delta < 0real,
    ;
}

/// The camera after the zooms of `steps`, each a pixel and a `delta`, in
/// order.
pub open spec fn zoom_each(m: CameraModel, steps: Seq<((real, real), real)>) -> CameraModel
    decreases steps.len(),
{
    if steps.len() == 0 {
        m
    } else {
        zoom_each(m, steps.drop_last()).zoom_to(steps.last().0, steps.last().1)
    }
}

/// Any number of zooms with positive `delta`, one at least, make the scale
/// strictly larger.
pub proof fn lemma_repeated_zoom_in_increases_scale(
    m: CameraModel,
    steps: Seq<((real, real), real)>,
)
    requires
        m.valid(),
        steps.len() > 0,
        forall|i: int| 0 <= i < steps.len() ==> (#[trigger] steps[i]).1 > 0real,
    ensures
        zoom_each(m, steps).valid(),
        zoom_each(m, steps).scale > m.scale,
    decreases steps.len(),
{
    let before = zoom_each(m, steps.drop_last());
    let last = steps.last();
    if steps.len() > 1 {
        lemma_repeated_zoom_in_increases_scale(m, steps.drop_last());
    } else {
        assert(before == m);
    }
    lemma_zoom_keeps_valid(before, last.0, last.1);
    lemma_zoom_in_increases_scale(before, last.0, last.1);
}

/// Any number of zooms with negative `delta` above -1, one at least, make
/// the scale strictly smaller.
pub proof fn lemma_repeated_zoom_out_decreases_scale(
    m: CameraModel,
    steps: Seq<((real, real), real)>,
)
    requires
        m.valid(),
        steps.len() > 0,
        forall|i: int| 0 <= i < steps.len() ==> -1real < (#[trigger] steps[i]).1 < 0real,
    ensures
        zoom_each(m, steps).valid(),
        zoom_each(m, steps).scale < m.scale,
    decreases steps.len(),
{
    let before = zoom_each(m, steps.drop_last());
    let last = steps.last();
    if steps.len() > 1 {
        lemma_repeated_zoom_out_decreases_scale(m, steps.drop_last());
    } else {
        assert(before == m);
    }
    lemma_zoom_keeps_valid(before, last.0, last.1);
    lemma_zoom_out_decreases_scale(before, last.0, last.1);
}

proof fn lemma_axis_scroll(s: real, t: real, v: real, c: real)
    requires
        s != 0real,
    ensures
        ({
            let moved = AxisMap { scale: s, offset: t }.compose(AxisMap::shift(v / s));
            &&& moved.scale == s
            &&& moved.offset == t + v
            &&& moved.apply(c) == AxisMap { scale: s, offset: t }.apply(c) + v
        }),
{
    let h = v / s;
    assert(s * 1real == s) by (nonlinear_arith);
    assert(s * h == v) by (nonlinear_arith)
        requires
            s != 0real,
            h == v / s,
    ;
}

/// A pan by `delta` pixels moves every content point on the screen by
/// `delta` as a fraction of the view, the vertical part with its sign
/// changed.
pub proof fn lemma_scroll_displacement(m: CameraModel, delta: (real, real), c: (real, real))
    requires
        m.valid(),
    ensures
        m.scroll(delta).transform.apply(c).0 == m.transform.apply(c).0 + delta.0 / m.outer_size.0,
        m.scroll(delta).transform.apply(c).1 == m.transform.apply(c).1 + (-delta.1)
            / m.outer_size.1,
{
    lemma_axis_scroll(m.transform.x.scale, m.transform.x.offset, delta.0 / m.outer_size.0, c.0);
    lemma_axis_scroll(m.transform.y.scale, m.transform.y.offset, (-delta.1) / m.outer_size.1, c.1);
}

/// The displacement on the screen that a pan gives does not depend on the
/// zoom: two cameras of the same view, whatever their scales, move what
/// they show by the same distance for the same `delta`.
pub proof fn lemma_scroll_independent_of_scale(
    m1: CameraModel,
    m2: CameraModel,
    delta: (real, real),
    c1: (real, real),
    c2: (real, real),
)
    requires
        m1.valid(),
        m2.valid(),
        m1.outer_size == m2.outer_size,
    ensures
        m1.scroll(delta).transform.apply(c1).0 - m1.transform.apply(c1).0 == m2.scroll(
            delta,
        ).transform.apply(c2).0 - m2.transform.apply(c2).0,
        m1.scroll(delta).transform.apply(c1).1 - m1.transform.apply(c1).1 == m2.scroll(
            delta,
        ).transform.apply(c2).1 - m2.transform.apply(c2).1,
{
    lemma_scroll_displacement(m1, delta, c1);
    lemma_scroll_displacement(m2, delta, c2);
}

/// A pan followed by the opposite pan leaves the camera as it was.
pub proof fn lemma_scroll_back_restores(m: CameraModel, delta: (real, real))
    requires
        m.valid(),
        m.outer_size.0 != 0real,
        m.outer_size.1 != 0real,
    ensures
        m.scroll(delta).scroll((-delta.0, -delta.1)) == m,
{
    let w = m.outer_size.0;
    let h = m.outer_size.1;
    let there = m.scroll(delta);
    lemma_scroll_keeps_valid(m, delta);
    lemma_axis_scroll(m.transform.x.scale, m.transform.x.offset, delta.0 / w, 0real);
    lemma_axis_scroll(m.transform.y.scale, m.transform.y.offset, (-delta.1) / h, 0real);
    lemma_axis_scroll(there.transform.x.scale, there.transform.x.offset, (-delta.0) / w, 0real);
    lemma_axis_scroll(there.transform.y.scale, there.transform.y.offset, (-(-delta.1)) / h, 0real);
    assert(delta.0 / w + (-delta.0) / w == 0real) by (nonlinear_arith)
        requires
            w != 0real,
    ;
    assert((-delta.1) / h + (-(-delta.1)) / h == 0real) by (nonlinear_arith)
        requires
            h != 0real,
    ;
    assert(1real * 0real + 0real == 0real) by (nonlinear_arith);
    assert(1real * 1real == 1real) by (nonlinear_arith);
}

proof fn lemma_normalized_round_trip(x: real, extent: real)
    requires
        extent != 0real,
    ensures
        denormalized(normalized(x, extent), extent) == x,
        normalized(denormalized(x, extent), extent) == x,
{
    let f = x / extent;
    assert((f * 2real - 1real + 1real) / 2real == f);
    assert(f * extent == x) by (nonlinear_arith)
        requires
            extent != 0real,
            f == x / extent,
    ;
    let g = (x + 1real) / 2real;
    assert((g * extent) / extent == g) by (nonlinear_arith)
        requires
            extent != 0real,
    ;
}

/// Pixels to normalized device coordinates and back is the identity on
/// every view with no zero size, and so is the way from normalized device
/// coordinates to pixels and back.
pub proof fn lemma_screen_ndc_round_trip(p: (real, real), outer_size: (real, real))
    requires
        outer_size.0 != 0real,
        outer_size.1 != 0real,
    ensures
        ndc_to_screen_map(screen_to_ndc_map(p, outer_size), outer_size) == p,
        screen_to_ndc_map(ndc_to_screen_map(p, outer_size), outer_size) == p,
{
    lemma_normalized_round_trip(p.0, outer_size.0);
    lemma_normalized_round_trip(p.1, outer_size.1);
}

proof fn lemma_centre_axis(w: real)
    requires
        w != 0real,
    ensures
        normalized(w / 2real, w) == 0real,
        AxisMap::identity().inverse().apply(0real) == 0real,
        AxisMap::identity().compose(AxisMap { scale: 2real / w, offset: -1real }).apply(w / 2real)
            == 0real,
{
    let half = w / 2real;
    assert(half / w == 1real / 2real) by (nonlinear_arith)
        requires
            w != 0real,
            half == w / 2real,
    ;
    assert((1real / 1real) * 0real + (-(0real / 1real)) == 0real) by (nonlinear_arith);
    let k = 2real / w;
    assert((1real * k) * half + (1real * (-1real) + 0real) == 0real) by (nonlinear_arith)
        requires
            w != 0real,
            k == 2real / w,
            half == w / 2real,
    ;
}

/// A new camera shows the centre of its view at the origin of normalized
/// device space: the content point under the centre pixel is the origin,
/// and the transform for drawing sends the centre pixel to the origin.
pub proof fn lemma_new_camera_centres_view(outer_size: (real, real))
    requires
        outer_size.0 != 0real,
        outer_size.1 != 0real,
    ensures
        CameraModel::new(outer_size).valid(),
        screen_to_ndc_map((outer_size.0 / 2real, outer_size.1 / 2real), outer_size) == (
            0real,
            0real,
        ),
        CameraModel::new(outer_size).anchor((outer_size.0 / 2real, outer_size.1 / 2real)) == (
            0real,
            0real,
        ),
        CameraModel::new(outer_size).full_transform().apply(
            (outer_size.0 / 2real, outer_size.1 / 2real),
        ) == (0real, 0real),
{
    lemma_centre_axis(outer_size.0);
    lemma_centre_axis(outer_size.1);
}

/// The content point under a pixel is the point that the camera draws
/// there: the transform sends it to the pixel's place in normalized device
/// space.
pub proof fn lemma_anchor_is_drawn_at_pixel(m: CameraModel, p: (real, real))
    requires
        m.valid(),
    ensures
        m.transform.apply(m.anchor(p)) == screen_to_ndc_map(p, m.outer_size),
{
    let n = screen_to_ndc_map(p, m.outer_size);
    lemma_axis_unapply(m.transform.x, n.0);
    lemma_axis_unapply(m.transform.y, n.1);
}

proof fn lemma_axis_projection_normalizes(x: real, extent: real)
    requires
        extent != 0real,
    ensures
        (AxisMap { scale: 2real / extent, offset: -1real }).apply(x) == normalized(x, extent),
{
    assert((2real / extent) * x == x / extent * 2real) by (nonlinear_arith)
        requires
            extent != 0real,
    ;
}

/// The projection of the pixel rectangle is the conversion from pixels to
/// normalized device coordinates, so the transform for drawing sends a
/// pixel where the camera's transform sends its normalized coordinates.
pub proof fn lemma_full_transform_draws_pixels(m: CameraModel, p: (real, real))
    requires
        m.outer_size.0 != 0real,
        m.outer_size.1 != 0real,
    ensures
        orthographic_projection2_map(m.outer_size.0, m.outer_size.1).apply(p) == screen_to_ndc_map(
            p,
            m.outer_size,
        ),
        m.full_transform().apply(p) == m.transform.apply(screen_to_ndc_map(p, m.outer_size)),
{
    lemma_axis_projection_normalizes(p.0, m.outer_size.0);
    lemma_axis_projection_normalizes(p.1, m.outer_size.1);
    lemma_compose_applies_inner_first(
        m.transform,
        orthographic_projection2_map(m.outer_size.0, m.outer_size.1),
        p,
    );
}

proof fn lemma_axis_unapply_shifted(axis: AxisMap, n: real, v: real)
    requires
        axis.invertible(),
    ensures
        axis.inverse().apply(n + v) == axis.inverse().apply(n) + v / axis.scale,
{
    let s = axis.scale;
    let r = 1real / s;
    assert(r * (n + v) == r * n + v / s) by (nonlinear_arith)
        requires
            s != 0real,
            r == 1real / s,
    ;
}

/// Pan and zoom go through the same mapping to content space: the
/// displacement of a pan is the displacement, in content space, between the
/// points drawn at two places that lie the pan's fraction of the view
/// apart.
pub proof fn lemma_scroll_shift_is_unprojected(
    m: CameraModel,
    delta: (real, real),
    ndc: (real, real),
)
    requires
        m.valid(),
    ensures
        ({
            let t = texture_translation_map((delta.0, -delta.1), m.outer_size);
            let from = unproject_to_content_map(m.transform, ndc);
            let to = unproject_to_content_map(
                m.transform,
                (ndc.0 + t.0, ndc.1 + t.1),
            );
            &&& to.0 == from.0 + m.scroll_shift(delta).0
            &&& to.1 == from.1 + m.scroll_shift(delta).1
        }),
{
    let t = texture_translation_map((delta.0, -delta.1), m.outer_size);
    lemma_axis_unapply_shifted(m.transform.x, ndc.0, t.0);
    lemma_axis_unapply_shifted(m.transform.y, ndc.1, t.1);
}

} // verus!
