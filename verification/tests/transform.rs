use brewcode::ratio::Ratio;
use brewcode::transform::{Axis, Transform};

fn q(n: i64, d: i64) -> Ratio {
    Ratio::new(n, d).unwrap()
}

fn whole(n: i32) -> Ratio {
    Ratio::from_int(n)
}

fn axis(scale: Ratio, offset: Ratio) -> Axis {
    Axis { scale, offset }
}

#[test]
fn identity_has_ones_on_the_diagonal() {
    let t = Transform::identity();
    for row in 0..4 {
        for col in 0..4 {
            let expected = if row == col { Ratio::one() } else { Ratio::zero() };
            assert_eq!(t.entry(row, col), Some(expected));
        }
    }
}

#[test]
fn entry_outside_the_matrix() {
    let t = Transform::identity();
    assert_eq!(t.entry(4, 0), None);
    assert_eq!(t.entry(0, 4), None);
    assert_eq!(t.entry(7, 9), None);
}

#[test]
fn translation_fills_the_last_column() {
    let t = Transform::translation(whole(1), whole(2), whole(3));
    assert_eq!(t.entry(0, 3), Some(whole(1)));
    assert_eq!(t.entry(1, 3), Some(whole(2)));
    assert_eq!(t.entry(2, 3), Some(whole(3)));
    assert_eq!(t.entry(3, 3), Some(whole(1)));
    assert_eq!(t.entry(0, 0), Some(whole(1)));
    assert_eq!(t.entry(0, 1), Some(whole(0)));
    assert_eq!(t.entry(3, 0), Some(whole(0)));
}

#[test]
fn scaling_fills_the_diagonal() {
    let t = Transform::nonuniform_scaling(whole(2), whole(3), whole(4));
    assert_eq!(t.entry(0, 0), Some(whole(2)));
    assert_eq!(t.entry(1, 1), Some(whole(3)));
    assert_eq!(t.entry(2, 2), Some(whole(4)));
    assert_eq!(t.entry(3, 3), Some(whole(1)));
    assert_eq!(t.entry(0, 3), Some(whole(0)));
}

#[test]
fn axis_apply_is_scale_times_x_plus_offset() {
    let a = axis(q(3, 2), q(1, 4));
    assert_eq!(a.apply(&whole(2)), Some(q(13, 4)));
    assert_eq!(a.apply(&whole(0)), Some(q(1, 4)));
}

#[test]
fn axis_compose_applies_the_inner_first() {
    let outer = axis(whole(2), whole(1));
    let inner = axis(whole(3), whole(5));
    let both = outer.compose(&inner).unwrap();
    assert_eq!(both, axis(whole(6), whole(11)));
    let x = whole(7);
    let inside = inner.apply(&x).unwrap();
    assert_eq!(both.apply(&x), outer.apply(&inside));
    let other_way = inner.compose(&outer).unwrap();
    assert_eq!(other_way, axis(whole(6), whole(8)));
}

#[test]
fn axis_inverse_undoes() {
    let a = axis(q(3, 2), q(1, 4));
    let inverse = a.try_inverse().unwrap();
    assert_eq!(inverse, axis(q(2, 3), q(-1, 6)));
    assert_eq!(a.compose(&inverse), Some(Axis::identity()));
    assert_eq!(inverse.compose(&a), Some(Axis::identity()));
}

#[test]
fn singular_axis_has_no_inverse() {
    let a = axis(whole(0), whole(1));
    assert_eq!(a.try_inverse(), None);
}

#[test]
fn compose_is_the_matrix_product() {
    let a = Transform { x: axis(whole(2), whole(1)), y: axis(whole(3), whole(-1)), z: axis(whole(1), whole(4)) };
    let b = Transform { x: axis(q(1, 2), whole(5)), y: axis(whole(7), q(1, 3)), z: axis(whole(2), whole(0)) };
    let product = a.compose(&b).unwrap();
    for row in 0..4 {
        for col in 0..4 {
            let mut sum = Ratio::zero();
            for k in 0..4 {
                let term = a.entry(row, k).unwrap().checked_mul(&b.entry(k, col).unwrap()).unwrap();
                sum = sum.checked_add(&term).unwrap();
            }
            assert_eq!(product.entry(row, col), Some(sum));
        }
    }
}

#[test]
fn compose_with_identity_changes_nothing() {
    let a = Transform { x: axis(whole(2), whole(1)), y: axis(whole(3), whole(-1)), z: axis(whole(1), whole(4)) };
    assert_eq!(a.compose(&Transform::identity()), Some(a));
    assert_eq!(Transform::identity().compose(&a), Some(a));
}

#[test]
fn compose_that_does_not_fit() {
    let big = whole(i32::MAX).checked_mul(&whole(i32::MAX)).unwrap();
    let a = Transform::nonuniform_scaling(big, whole(1), whole(1));
    assert_eq!(a.compose(&a), None);
    let b = Transform::nonuniform_scaling(whole(1), whole(1), big);
    assert_eq!(b.compose(&b), None);
}

#[test]
fn inverse_of_a_transform() {
    let a = Transform { x: axis(whole(2), whole(1)), y: axis(whole(4), whole(-1)), z: axis(whole(1), whole(0)) };
    let inverse = a.try_inverse().unwrap();
    assert_eq!(inverse.x, axis(q(1, 2), q(-1, 2)));
    assert_eq!(inverse.y, axis(q(1, 4), q(1, 4)));
    assert_eq!(inverse.z, Axis::identity());
    assert_eq!(a.compose(&inverse), Some(Transform::identity()));
    assert_eq!(inverse.compose(&a), Some(Transform::identity()));
}

#[test]
fn singular_transform_has_no_inverse() {
    let flat_x = Transform::nonuniform_scaling(whole(0), whole(1), whole(1));
    let flat_y = Transform::nonuniform_scaling(whole(1), whole(0), whole(1));
    let flat_z = Transform::nonuniform_scaling(whole(1), whole(1), whole(0));
    assert_eq!(flat_x.try_inverse(), None);
    assert_eq!(flat_y.try_inverse(), None);
    assert_eq!(flat_z.try_inverse(), None);
}

#[test]
fn transform_point_uses_both_axes() {
    let a = Transform { x: axis(whole(2), whole(1)), y: axis(whole(4), whole(-1)), z: axis(whole(9), whole(9)) };
    assert_eq!(a.transform_point(&(whole(3), q(1, 2))), Some((whole(7), whole(1))));
}

#[test]
fn transform_point_that_does_not_fit() {
    let big = whole(i32::MAX).checked_mul(&whole(i32::MAX)).unwrap();
    let a = Transform::nonuniform_scaling(big, whole(1), whole(1));
    assert_eq!(a.transform_point(&(big, whole(0))), None);
    assert_eq!(a.transform_point(&(whole(1), whole(0))), Some((big, whole(0))));
}
