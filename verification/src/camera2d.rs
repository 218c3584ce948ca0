//! The camera: the mapping between window pixels and normalized device
//! coordinates, with zoom about a point and panning.
//!
//! All coordinates are exact rational numbers. The camera's view, a
//! [`CameraModel`], is the same state over the reals; what each operation
//! does is defined on the model, and each operation is applied exactly when
//! every number it has to compute fits in a [`Ratio`]. An operation that is
//! not applied leaves the camera as it was.

use vstd::prelude::*;
use crate::projection::{
    orthographic_projection2, orthographic_projection2_fits, orthographic_projection2_map,
};
use crate::ratio::{fits, Ratio};
use crate::transform::{AxisMap, Transform, TransformMap};

verus! {

/// A point of the window, in pixels: the origin is the top left corner and
/// `y` grows downward.
#[derive(Clone, Copy, Debug, PartialEq)]
pub struct ScreenPoint {
    pub x: Ratio,
    pub y: Ratio,
}

impl View for ScreenPoint {
    type V = (real, real);

    open spec fn view(&self) -> (real, real) {
        (self.x@, self.y@)
    }
}

/// The pixel coordinate `x` of a view of the given extent, in normalized
/// device coordinates: 0 goes to -1 and `extent` goes to 1.
pub open spec fn normalized(x: real, extent: real) -> real {
    x / extent * 2real - 1real
}

/// Whether the extent is not zero and every number met on the way to
/// `normalized(x, extent)` fits.
pub open spec fn normalized_fits(x: real, extent: real) -> bool {
    &&& extent != 0real
    &&& fits(x / extent)
    &&& fits(x / extent * 2real)
    &&& fits(x / extent * 2real - 1real)
}

/// The normalized device coordinate `n` as a pixel coordinate of a view of
/// the given extent: -1 goes to 0 and 1 goes to `extent`.
pub open spec fn denormalized(n: real, extent: real) -> real {
    (n + 1real) / 2real * extent
}

/// Whether every number met on the way to `denormalized(n, extent)` fits.
pub open spec fn denormalized_fits(n: real, extent: real) -> bool {
    &&& fits(n + 1real)
    &&& fits((n + 1real) / 2real)
    &&& fits((n + 1real) / 2real * extent)
}

/// The pixel `p` of a view of size `outer_size`, in normalized device
/// coordinates.
pub open spec fn screen_to_ndc_map(p: (real, real), outer_size: (real, real)) -> (real, real) {
    (normalized(p.0, outer_size.0), normalized(p.1, outer_size.1))
}

/// Whether the view has no zero size and `screen_to_ndc_map` can be
/// computed.
pub open spec fn screen_to_ndc_fits(p: (real, real), outer_size: (real, real)) -> bool {
    normalized_fits(p.0, outer_size.0) && normalized_fits(p.1, outer_size.1)
}

/// The point `ndc` of normalized device space as a pixel of a view of size
/// `outer_size`.
pub open spec fn ndc_to_screen_map(ndc: (real, real), outer_size: (real, real)) -> (real, real) {
    (denormalized(ndc.0, outer_size.0), denormalized(ndc.1, outer_size.1))
}

/// Whether `ndc_to_screen_map` can be computed.
pub open spec fn ndc_to_screen_fits(ndc: (real, real), outer_size: (real, real)) -> bool {
    denormalized_fits(ndc.0, outer_size.0) && denormalized_fits(ndc.1, outer_size.1)
}

/// The content point that `transform` sends to `ndc`.
pub open spec fn unproject_to_content_map(
    transform: TransformMap,
    ndc: (real, real),
) -> (real, real) {
    transform.inverse().apply(ndc)
}

/// Whether `transform` is not singular and `unproject_to_content_map` can
/// be computed.
pub open spec fn unproject_to_content_fits(transform: TransformMap, ndc: (real, real)) -> bool {
    transform.inverse_fits() && transform.inverse().apply_fits(ndc)
}

/// The content point that is drawn at the pixel `p`.
pub open spec fn texture_point_map(
    transform: TransformMap,
    p: (real, real),
    outer_size: (real, real),
) -> (real, real) {
    unproject_to_content_map(transform, screen_to_ndc_map(p, outer_size))
}

/// Whether `texture_point_map` can be computed.
pub open spec fn texture_point_fits(
    transform: TransformMap,
    p: (real, real),
    outer_size: (real, real),
) -> bool {
    &&& screen_to_ndc_fits(p, outer_size)
    &&& unproject_to_content_fits(transform, screen_to_ndc_map(p, outer_size))
}

/// A displacement in pixels as a fraction of the size of the view.
pub open spec fn texture_translation_map(
    v: (real, real),
    outer_size: (real, real),
) -> (real, real) {
    (v.0 / outer_size.0, v.1 / outer_size.1)
}

/// Whether the view has no zero size and both fractions fit.
pub open spec fn texture_translation_fits(v: (real, real), outer_size: (real, real)) -> bool {
    &&& outer_size.0 != 0real
    &&& fits(v.0 / outer_size.0)
    &&& outer_size.1 != 0real
    &&& fits(v.1 / outer_size.1)
}

fn normalize(x: &Ratio, extent: &Ratio) -> (r: Option<Ratio>)
    ensures
        r is Some <==> normalized_fits(x@, extent@),
        r matches Some(n) ==> n@ == normalized(x@, extent@),
{
    let fraction = match x.checked_div(extent) {
        Some(f) => f,
        None => {
            return None;
        },
    };
    let doubled = match fraction.checked_mul(&Ratio::from_int(2)) {
        Some(d) => d,
        None => {
            return None;
        },
    };
    doubled.checked_sub(&Ratio::one())
}

fn denormalize(n: &Ratio, extent: &Ratio) -> (r: Option<Ratio>)
    ensures
        r is Some <==> denormalized_fits(n@, extent@),
        r matches Some(x) ==> x@ == denormalized(n@, extent@),
{
    let shifted = match n.checked_add(&Ratio::one()) {
        Some(s) => s,
        None => {
            return None;
        },
    };
    let fraction = match shifted.checked_div(&Ratio::from_int(2)) {
        Some(f) => f,
        None => {
            return None;
        },
    };
    fraction.checked_mul(extent)
}

/// The pixel `point` of a view of size `outer_size`, in normalized device
/// coordinates.
///
/// `None` when a size of the view is zero.
pub fn screen_to_ndc(point: ScreenPoint, outer_size: (Ratio, Ratio)) -> (r: Option<(Ratio, Ratio)>)
    ensures
        r is Some <==> screen_to_ndc_fits(point@, outer_size@),
        r matches Some(ndc) ==> ndc@ == screen_to_ndc_map(point@, outer_size@),
{
    let x = match normalize(&point.x, &outer_size.0) {
        Some(x) => x,
        None => {
            return None;
        },
    };
    match normalize(&point.y, &outer_size.1) {
        Some(y) => Some((x, y)),
        None => None,
    }
}

/// The point `ndc` of normalized device space as a pixel of a view of size
/// `outer_size`.
pub fn ndc_to_screen(ndc: (Ratio, Ratio), outer_size: (Ratio, Ratio)) -> (r: Option<ScreenPoint>)
    ensures
        r is Some <==> ndc_to_screen_fits(ndc@, outer_size@),
        r matches Some(p) ==> p@ == ndc_to_screen_map(ndc@, outer_size@),
{
    let x = match denormalize(&ndc.0, &outer_size.0) {
        Some(x) => x,
        None => {
            return None;
        },
    };
    match denormalize(&ndc.1, &outer_size.1) {
        Some(y) => Some(ScreenPoint { x, y }),
        None => None,
    }
}

/// The content point that `transform` sends to `ndc`.
///
/// `None` when `transform` is singular.
pub fn unproject_to_content(
    transform: &Transform,
    ndc: (Ratio, Ratio),
) -> (r: Option<(Ratio, Ratio)>)
    ensures
        r is Some <==> unproject_to_content_fits(transform@, ndc@),
        r matches Some(c) ==> c@ == unproject_to_content_map(transform@, ndc@),
{
    match transform.try_inverse() {
        Some(inverse) => inverse.transform_point(&ndc),
        None => None,
    }
}

/// The content point that is drawn at the pixel `window_point` of a view
/// of size `outer_size`.
///
/// `None` when a size of the view is zero or `transform` is singular.
pub fn texture_point(
    transform: &Transform,
    window_point: ScreenPoint,
    outer_size: (Ratio, Ratio),
) -> (r: Option<(Ratio, Ratio)>)
    ensures
        r is Some <==> texture_point_fits(transform@, window_point@, outer_size@),
        r matches Some(c) ==> c@ == texture_point_map(transform@, window_point@, outer_size@),
{
    match screen_to_ndc(window_point, outer_size) {
        Some(ndc) => unproject_to_content(transform, ndc),
        None => None,
    }
}

/// A displacement in pixels as a fraction of the size of the view.
///
/// `None` when a size of the view is zero.
pub fn texture_translation(
    view_translation: (Ratio, Ratio),
    outer_size: (Ratio, Ratio),
) -> (r: Option<(Ratio, Ratio)>)
    ensures
        r is Some <==> texture_translation_fits(view_translation@, outer_size@),
        r matches Some(t) ==> t@ == texture_translation_map(view_translation@, outer_size@),
{
    let x = match view_translation.0.checked_div(&outer_size.0) {
        Some(x) => x,
        None => {
            return None;
        },
    };
    match view_translation.1.checked_div(&outer_size.1) {
        Some(y) => Some((x, y)),
        None => None,
    }
}

/// The state of a camera over the reals.
pub struct CameraModel {
    /// The size of the view, in pixels.
    pub outer_size: (real, real),
    /// The pan and zoom gathered so far.
    pub transform: TransformMap,
    /// The product of all zoom factors applied so far.
    pub scale: real,
}

impl CameraModel {
    /// The camera of a view of the given size, before any pan or zoom.
    pub open spec fn new(outer_size: (real, real)) -> CameraModel {
        CameraModel { outer_size, transform: TransformMap::identity(), scale: 1real }
    }

    /// What holds of every camera: the scale is positive, the transform
    /// scales both axes of the plane by it, and depth is left alone.
    pub open spec fn valid(self) -> bool {
        &&& self.scale > 0real
        &&& self.transform.x.scale == self.scale
        &&& self.transform.y.scale == self.scale
        &&& self.transform.z == AxisMap::identity()
    }

    /// The content point under the pixel `p`.
    pub open spec fn anchor(self, p: (real, real)) -> (real, real) {
        texture_point_map(self.transform, p, self.outer_size)
    }

    /// The zoom by the factor `factor` that keeps the content point `a`
    /// where it is: move `a` to the origin, scale, move back.
    pub open spec fn zoom_about(a: (real, real), factor: real) -> TransformMap {
        TransformMap::translation(a.0, a.1, 0real).compose(
            TransformMap::nonuniform_scaling(factor, factor, 1real),
        ).compose(TransformMap::translation(-a.0, -a.1, 0real))
    }

    /// The camera after a zoom by `1 + delta` about the pixel `p`.
    pub open spec fn zoom_to(self, p: (real, real), delta: real) -> CameraModel {
        let a = self.anchor(p);
        let factor = 1real + delta;
        CameraModel {
            outer_size: self.outer_size,
            transform: self.transform.compose(TransformMap::translation(a.0, a.1, 0real)).compose(
                TransformMap::nonuniform_scaling(factor, factor, 1real),
            ).compose(TransformMap::translation(-a.0, -a.1, 0real)),
            scale: self.scale * factor,
        }
    }

    /// Whether a zoom by `1 + delta` about the pixel `p` is applied: the
    /// factor is positive, and the anchor, the factor, the new scale and
    /// each of the three products of transforms can be computed.
    pub open spec fn zoom_fits(self, p: (real, real), delta: real) -> bool {
        let a = self.anchor(p);
        let factor = 1real + delta;
        let to_point = TransformMap::translation(a.0, a.1, 0real);
        let scaling = TransformMap::nonuniform_scaling(factor, factor, 1real);
        let from_point = TransformMap::translation(-a.0, -a.1, 0real);
        &&& texture_point_fits(self.transform, p, self.outer_size)
        &&& fits(factor)
        &&& factor > 0real
        &&& fits(self.scale * factor)
        &&& self.transform.compose_fits(to_point)
        &&& self.transform.compose(to_point).compose_fits(scaling)
        &&& self.transform.compose(to_point).compose(scaling).compose_fits(from_point)
    }

    /// The displacement of the content for a pan by `delta` pixels: the
    /// vertical part changes sign, the displacement is taken as a fraction
    /// of the view and divided by the scale.
    pub open spec fn scroll_shift(self, delta: (real, real)) -> (real, real) {
        let t = texture_translation_map((delta.0, -delta.1), self.outer_size);
        (t.0 / self.scale, t.1 / self.scale)
    }

    /// The camera after a pan by `delta` pixels.
    pub open spec fn scroll(self, delta: (real, real)) -> CameraModel {
        let shift = self.scroll_shift(delta);
        CameraModel {
            outer_size: self.outer_size,
            transform: self.transform.compose(TransformMap::translation(shift.0, shift.1, 0real)),
            scale: self.scale,
        }
    }

    /// Whether a pan by `delta` pixels is applied: the view has no zero
    /// size, and the displacement and the new transform can be computed.
    pub open spec fn scroll_fits(self, delta: (real, real)) -> bool {
        let shift = self.scroll_shift(delta);
        &&& texture_translation_fits((delta.0, -delta.1), self.outer_size)
        &&& fits(shift.0)
        &&& fits(shift.1)
        &&& self.transform.compose_fits(TransformMap::translation(shift.0, shift.1, 0real))
    }

    /// The camera with another size of the view.
    pub open spec fn resize(self, outer_size: (real, real)) -> CameraModel {
        CameraModel { outer_size, transform: self.transform, scale: self.scale }
    }

    /// The transform for drawing: the projection of the pixel rectangle,
    /// then the camera's pan and zoom.
    pub open spec fn full_transform(self) -> TransformMap {
        self.transform.compose(orthographic_projection2_map(self.outer_size.0, self.outer_size.1))
    }

    /// Whether the view has no zero size and `full_transform` can be
    /// computed.
    pub open spec fn full_transform_fits(self) -> bool {
        &&& orthographic_projection2_fits(self.outer_size.0, self.outer_size.1)
        &&& self.transform.compose_fits(
            orthographic_projection2_map(self.outer_size.0, self.outer_size.1),
        )
    }
}

/// What zoom about a point does to one axis `x -> s x + t`: the scale is
/// multiplied by the factor, and the offset moves so that the anchor stays.
pub proof fn lemma_zoom_axis(s: real, t: real, a: real, f: real)
    ensures
        ({
            let axis = AxisMap { scale: s, offset: t };
            let zoomed = axis.compose(AxisMap::shift(a)).compose(
                AxisMap::stretch(f),
            ).compose(AxisMap::shift(-a));
            &&& zoomed.scale == s * f
            &&& zoomed.offset == (s * f) * (-a) + (s * a + t)
        }),
{
    assert(s * 1real == s) by (nonlinear_arith);
    assert((s * 1real) * f == s * f) by (nonlinear_arith);
    assert(((s * 1real) * f) * 1real == s * f) by (nonlinear_arith);
    assert((s * 1real) * 0real == 0real) by (nonlinear_arith);
    assert(((s * 1real) * f) * (-a) == (s * f) * (-a)) by (nonlinear_arith);
}

/// Zoom by a positive factor keeps a camera valid.
pub proof fn lemma_zoom_keeps_valid(m: CameraModel, p: (real, real), delta: real)
    requires
        m.valid(),
        1real + delta > 0real,
    ensures
        m.zoom_to(p, delta).valid(),
{
    let a = m.anchor(p);
    let f = 1real + delta;
    let s = m.scale;
    lemma_zoom_axis(m.transform.x.scale, m.transform.x.offset, a.0, f);
    lemma_zoom_axis(m.transform.y.scale, m.transform.y.offset, a.1, f);
    lemma_zoom_axis(1real, 0real, 0real, 1real);
    assert(s * f > 0real) by (nonlinear_arith)
        requires
            s > 0real,
            f > 0real,
    ;
    assert(-0real == 0real);
    assert((1real * 1real) * (-0real) + (1real * 0real + 0real) == 0real) by (nonlinear_arith);
    assert(1real * 1real == 1real) by (nonlinear_arith);
}

/// Panning keeps a camera valid.
pub proof fn lemma_scroll_keeps_valid(m: CameraModel, delta: (real, real))
    requires
        m.valid(),
    ensures
        m.scroll(delta).valid(),
{
    let s = m.scale;
    assert(s * 1real == s) by (nonlinear_arith);
    assert(1real * 1real == 1real) by (nonlinear_arith);
    assert(1real * 0real + 0real == 0real) by (nonlinear_arith);
}

/// A camera: the size of the view, the pan and zoom gathered so far, and
/// the product of the zoom factors.
#[derive(Clone, Copy, Debug)]
pub struct Camera2D {
    outer_size: (Ratio, Ratio),
    transform: Transform,
    scale: Ratio,
}

impl View for Camera2D {
    type V = CameraModel;

    closed spec fn view(&self) -> CameraModel {
        CameraModel {
            outer_size: self.outer_size@,
            transform: self.transform@,
            scale: self.scale@,
        }
    }
}

impl Camera2D {
    #[verifier::type_invariant]
    spec fn well_formed(self) -> bool {
        self@.valid()
    }

    /// The camera of a view of the given size: no pan, no zoom.
    pub fn new(outer_size: (Ratio, Ratio)) -> (camera: Self)
        ensures
            camera@ == CameraModel::new(outer_size@),
            camera@.valid(),
    {
        Self { outer_size, transform: Transform::identity(), scale: Ratio::one() }
    }

    /// The size of the view.
    pub fn outer_size(&self) -> (r: (Ratio, Ratio))
        ensures
            r@ == self@.outer_size,
    {
        self.outer_size
    }

    /// The product of all zoom factors applied so far; it is positive.
    pub fn cumulative_scale(&self) -> (r: Ratio)
        ensures
            r@ == self@.scale,
            self@.valid(),
    {
        proof {
            use_type_invariant(self);
        }
        self.scale
    }

    /// The pan and zoom gathered so far, without the projection.
    pub fn content_transform(&self) -> (r: Transform)
        ensures
            r@ == self@.transform,
            self@.valid(),
    {
        proof {
            use_type_invariant(self);
        }
        self.transform
    }

    /// Takes the new size of the view after the window was resized.
    pub fn resize(&mut self, outer_size: (Ratio, Ratio))
        ensures
            final(self)@ == old(self)@.resize(outer_size@),
            final(self)@.valid(),
    {
        proof {
            use_type_invariant(&*self);
        }
        *self = Self { outer_size, transform: self.transform, scale: self.scale };
    }

    /// Zooms by the factor `1 + scale` about the pixel `zoom_point`, so
    /// that the content under that pixel stays under it.
    ///
    /// Returns whether the zoom was applied. It is not applied, and the
    /// camera stays as it was, when the factor is not positive, when a size
    /// of the view is zero, or when a number that has to be computed does
    /// not fit.
    pub fn zoom_to(&mut self, zoom_point: ScreenPoint, scale: Ratio) -> (applied: bool)
        ensures
            applied == old(self)@.zoom_fits(zoom_point@, scale@),
            applied ==> final(self)@ == old(self)@.zoom_to(zoom_point@, scale@),
            !applied ==> final(self)@ == old(self)@,
            final(self)@.valid(),
    {
        proof {
            use_type_invariant(&*self);
        }
        let zp = match texture_point(&self.transform, zoom_point, self.outer_size) {
            Some(p) => p,
            None => {
                return false;
            },
        };
        let factor = match Ratio::one().checked_add(&scale) {
            Some(f) => f,
            None => {
                return false;
            },
        };
        if !factor.is_positive() {
            return false;
        }
        proof {
            lemma_zoom_keeps_valid(self@, zoom_point@, scale@);
        }
        let new_scale = match self.scale.checked_mul(&factor) {
            Some(s) => s,
            None => {
                return false;
            },
        };
        let to_point = Transform::translation(zp.0, zp.1, Ratio::zero());
        let scaling = Transform::nonuniform_scaling(factor, factor, Ratio::one());
        let from_point = Transform::translation(zp.0.neg(), zp.1.neg(), Ratio::zero());
        let moved = match self.transform.compose(&to_point) {
            Some(t) => t,
            None => {
                return false;
            },
        };
        let scaled = match moved.compose(&scaling) {
            Some(t) => t,
            None => {
                return false;
            },
        };
        let transform = match scaled.compose(&from_point) {
            Some(t) => t,
            None => {
                return false;
            },
        };
        *self = Self { outer_size: self.outer_size, transform, scale: new_scale };
        true
    }

    /// Pans by `delta` pixels. The same `delta` moves the picture by the
    /// same distance on the screen at every zoom level.
    ///
    /// Returns whether the pan was applied. It is not applied, and the
    /// camera stays as it was, when a size of the view is zero or when a
    /// number that has to be computed does not fit.
    pub fn scroll(&mut self, delta: (Ratio, Ratio)) -> (applied: bool)
        ensures
            applied == old(self)@.scroll_fits(delta@),
            applied ==> final(self)@ == old(self)@.scroll(delta@),
            !applied ==> final(self)@ == old(self)@,
            final(self)@.valid(),
    {
        proof {
            use_type_invariant(&*self);
            lemma_scroll_keeps_valid(self@, delta@);
        }
        let flipped = (delta.0, delta.1.neg());
        let translation = match texture_translation(flipped, self.outer_size) {
            Some(t) => t,
            None => {
                return false;
            },
        };
        let x = match translation.0.checked_div(&self.scale) {
            Some(x) => x,
            None => {
                return false;
            },
        };
        let y = match translation.1.checked_div(&self.scale) {
            Some(y) => y,
            None => {
                return false;
            },
        };
        let shift = Transform::translation(x, y, Ratio::zero());
        let transform = match self.transform.compose(&shift) {
            Some(t) => t,
            None => {
                return false;
            },
        };
        *self = Self { outer_size: self.outer_size, transform, scale: self.scale };
        true
    }

    /// The transform for drawing: it takes pixel coordinates to normalized
    /// device coordinates and then applies the camera's pan and zoom.
    ///
    /// `None` when a size of the view is zero.
    pub fn transform(&self) -> (r: Option<Transform>)
        ensures
            r is Some <==> self@.full_transform_fits(),
            r matches Some(t) ==> t@ == self@.full_transform(),
    {
        match orthographic_projection2(self.outer_size.0, self.outer_size.1) {
            Some(projection) => self.transform.compose(&projection),
            None => None,
        }
    }
}

} // verus!
