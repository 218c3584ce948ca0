use brewcode::camera2d::{texture_point, Camera2D, ScreenPoint};
use brewcode::projection::{aspect_ratio_transform, ortho, orthographic_projection2};
use brewcode::ratio::Ratio;
use brewcode::transform::Transform;
use nalgebra::{Matrix4, Vector3, Vector4};

fn approx(r: Ratio) -> f64 {
    r.numer() as f64 / r.denom() as f64
}

fn exact(x: f64) -> Ratio {
    let scaled = (x * 1024.0).round();
    assert_eq!(scaled / 1024.0, x);
    Ratio::new(scaled as i64, 1024).unwrap()
}

fn as_matrix(t: &Transform) -> Matrix4<f64> {
    let mut m = Matrix4::zeros();
    for row in 0..4 {
        for col in 0..4 {
            m[(row, col)] = approx(t.entry(row, col).unwrap());
        }
    }
    m
}

fn close(a: &Matrix4<f64>, b: &Matrix4<f64>) -> bool {
    (a - b).abs().max() < 1e-9
}

struct FloatCamera {
    outer_size: (f64, f64),
    transform: Matrix4<f64>,
    scale: f64,
}

fn float_projection(width: f64, height: f64) -> Matrix4<f64> {
    Matrix4::new(
        2.0 / width, 0.0, 0.0, 0.0,
        0.0, 2.0 / height, 0.0, 0.0,
        0.0, 0.0, 1.0, 0.0,
        -1.0, -1.0, 0.0, 1.0,
    )
    .transpose()
}

fn float_texture_point(transform: &Matrix4<f64>, p: (f64, f64), outer_size: (f64, f64)) -> (f64, f64) {
    let ndc = (p.0 / outer_size.0 * 2.0 - 1.0, p.1 / outer_size.1 * 2.0 - 1.0);
    let res = transform.try_inverse().unwrap() * Vector4::new(ndc.0, ndc.1, 0.0, 1.0);
    (res.x, res.y)
}

fn float_zoom(cam: &mut FloatCamera, p: (f64, f64), delta: f64) {
    let zp = float_texture_point(&cam.transform, p, cam.outer_size);
    let factor = 1.0 + delta;
    cam.scale *= factor;
    let shift = Vector3::new(zp.0, zp.1, 0.0);
    let to_point = Matrix4::new_translation(&shift);
    let from_point = Matrix4::new_translation(&-shift);
    let s = Matrix4::new_nonuniform_scaling(&Vector3::new(factor, factor, 1.0));
    cam.transform = cam.transform * to_point * s * from_point;
}

fn float_scroll(cam: &mut FloatCamera, delta: (f64, f64)) {
    let flipped = (delta.0, -delta.1);
    let translation = (flipped.0 / cam.outer_size.0, flipped.1 / cam.outer_size.1);
    let shift = Vector3::new(translation.0 / cam.scale, translation.1 / cam.scale, 0.0);
    cam.transform = cam.transform * Matrix4::new_translation(&shift);
}

#[test]
fn projection_matches_the_matrix_in_floating_point() {
    let exact_projection = orthographic_projection2(exact(800.0), exact(600.0)).unwrap();
    assert!(close(&as_matrix(&exact_projection), &float_projection(800.0, 600.0)));
}

#[test]
fn ortho_matches_the_matrix_in_floating_point() {
    let t = ortho(exact(800.0), exact(600.0)).unwrap();
    let (left, right, bottom, top, znear, zfar) = (0.0, 800.0, 0.0, 600.0, 1.0, 100.0);
    let mut m: Matrix4<f64> = Matrix4::identity();
    m[(0, 0)] = 2.0 / (right - left);
    m[(0, 3)] = -(right + left) / (right - left);
    m[(1, 1)] = 2.0 / (top - bottom);
    m[(1, 3)] = -(top + bottom) / (top - bottom);
    m[(2, 2)] = 1.0 / (zfar - znear);
    m[(2, 3)] = -znear / (zfar - znear);
    assert!(close(&as_matrix(&t), &m));
}

#[test]
fn aspect_ratio_matches_the_matrix_in_floating_point() {
    let t = aspect_ratio_transform((exact(640.0), exact(480.0)), (exact(1920.0), exact(1080.0))).unwrap();
    let scale_x = (640.0 / 480.0) / (1920.0 / 1080.0);
    let m = Matrix4::new_nonuniform_scaling(&Vector3::new(scale_x, 1.0, 1.0));
    assert!(close(&as_matrix(&t), &m));
}

#[test]
fn composition_matches_the_matrix_product_in_floating_point() {
    let a = Transform::translation(exact(0.5), exact(-2.0), exact(3.0));
    let b = Transform::nonuniform_scaling(exact(1.5), exact(0.25), exact(2.0));
    let ab = a.compose(&b).unwrap();
    let ba = b.compose(&a).unwrap();
    assert!(close(&as_matrix(&ab), &(as_matrix(&a) * as_matrix(&b))));
    assert!(close(&as_matrix(&ba), &(as_matrix(&b) * as_matrix(&a))));
    assert!(!close(&as_matrix(&ab), &as_matrix(&ba)));
}

#[test]
fn inverse_matches_the_matrix_inverse_in_floating_point() {
    let a = Transform::translation(exact(0.5), exact(-2.0), exact(3.0));
    let b = Transform::nonuniform_scaling(exact(1.5), exact(0.25), exact(2.0));
    let t = a.compose(&b).unwrap();
    let inverse = t.try_inverse().unwrap();
    assert!(close(&as_matrix(&inverse), &as_matrix(&t).try_inverse().unwrap()));
}

#[test]
fn camera_matches_the_matrices_in_floating_point() {
    let size = (800.0, 600.0);
    let mut float_cam = FloatCamera { outer_size: size, transform: Matrix4::identity(), scale: 1.0 };
    let mut cam = Camera2D::new((exact(size.0), exact(size.1)));
    let zooms = [((400.0, 300.0), 0.125), ((100.0, 450.0), 0.25), ((640.0, 32.0), -0.5)];
    let pans = [(100.0, 0.0), (-30.0, 45.0), (12.0, -7.0)];
    for i in 0..3 {
        let (p, delta) = zooms[i];
        let point = ScreenPoint { x: exact(p.0), y: exact(p.1) };
        let anchor = texture_point(&cam.content_transform(), point, cam.outer_size()).unwrap();
        let float_anchor = float_texture_point(&float_cam.transform, p, size);
        assert!((approx(anchor.0) - float_anchor.0).abs() < 1e-9);
        assert!((approx(anchor.1) - float_anchor.1).abs() < 1e-9);
        assert!(cam.zoom_to(point, exact(delta)));
        float_zoom(&mut float_cam, p, delta);
        assert!(close(&as_matrix(&cam.content_transform()), &float_cam.transform));
        assert!((approx(cam.cumulative_scale()) - float_cam.scale).abs() < 1e-9);
        assert!(cam.scroll((exact(pans[i].0), exact(pans[i].1))));
        float_scroll(&mut float_cam, pans[i]);
        assert!(close(&as_matrix(&cam.content_transform()), &float_cam.transform));
        let full = cam.transform().unwrap();
        assert!(close(&as_matrix(&full), &(float_cam.transform * float_projection(size.0, size.1))));
    }
}
