use physics::scalar::Scalar;
use physics::vector::{sum, NVec2};

fn v(x: i64, y: i64) -> NVec2 {
    NVec2::new(Scalar::from_raw(x), Scalar::from_raw(y))
}

fn vi(x: i64, y: i64) -> NVec2 {
    NVec2::new(Scalar::from_int(x), Scalar::from_int(y))
}

#[test]
fn add_sub_neg_work_by_component() {
    assert_eq!(v(1, 2).add(v(10, 20)), v(11, 22));
    assert_eq!(v(1, 2).sub(v(10, 20)), v(-9, -18));
    assert_eq!(v(1, -2).neg(), v(-1, 2));
    assert_eq!(NVec2::zeros(), v(0, 0));
}

#[test]
fn scale_and_unscale() {
    assert_eq!(vi(3, -4).scale(Scalar::from_raw(500_000_000_000)), v(1_500_000_000_000, -2_000_000_000_000));
    assert_eq!(vi(3, -4).unscale(Scalar::from_int(2)), v(1_500_000_000_000, -2_000_000_000_000));
    assert_eq!(vi(3, -4).unscale(Scalar::zero()), v(0, 0));
}

#[test]
fn dot_product() {
    assert_eq!(vi(1, 2).dot(vi(3, 4)), Scalar::from_int(11));
    assert_eq!(vi(1, 0).dot(vi(0, 1)).raw(), 0);
}

#[test]
fn norm_of_three_four_is_five() {
    assert_eq!(vi(3, 4).norm(), Scalar::from_int(5));
    assert_eq!(vi(-3, -4).norm(), Scalar::from_int(5));
    assert_eq!(vi(0, 0).norm().raw(), 0);
    assert_eq!(vi(1, 1).norm().raw(), 1_414_213_562_373);
}

#[test]
fn norm_is_held_at_the_bound() {
    assert_eq!(v(i64::MAX, i64::MAX).norm().raw(), i64::MAX);
    assert_eq!(v(i64::MIN, i64::MIN).norm().raw(), i64::MAX);
}

#[test]
fn normalize_gives_a_unit_vector_or_zero() {
    assert_eq!(vi(3, 4).normalize(), v(600_000_000_000, 800_000_000_000));
    assert_eq!(vi(0, -2).normalize(), vi(0, -1));
    assert_eq!(vi(0, 0).normalize(), v(0, 0));
}

#[test]
fn yx_exchanges_the_components() {
    assert_eq!(v(1, 2).yx(), v(2, 1));
}

#[test]
fn sum_adds_from_the_left() {
    assert_eq!(sum(&[]), v(0, 0));
    assert_eq!(sum(&[v(1, 2)]), v(1, 2));
    assert_eq!(sum(&[v(1, 2), v(3, 4), v(-10, 5)]), v(-6, 11));
    // held at the bound on the way, then brought back
    assert_eq!(sum(&[v(i64::MAX, 0), v(5, 0), v(-5, 0)]), v(i64::MAX - 5, 0));
}
