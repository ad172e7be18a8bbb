//! The fixed-point scalar kernel and the vector and quaternion routines.

use active_ragdoll::FX_HALF_PI;
use active_ragdoll::FX_ONE;
use active_ragdoll::FX_PI;
use active_ragdoll::FX_TAU;
use active_ragdoll::fx::atan2_fx;
use active_ragdoll::fx::fx_clamp;
use active_ragdoll::fx::fx_div;
use active_ragdoll::fx::fx_mul;
use active_ragdoll::fx::fx_muldiv;
use active_ragdoll::fx::isqrt_u128;
use active_ragdoll::fx::normalize_angle;
use active_ragdoll::fx::sin_fx;
use active_ragdoll::fx::cos_fx;
use active_ragdoll::fx::acos_fx;
use active_ragdoll::linalg::Quat;
use active_ragdoll::linalg::Vec3;

#[test]
fn fixed_point_products_truncate_toward_zero() {
    assert_eq!(fx_mul(2_000_000, 3_000_000), 6_000_000);
    assert_eq!(fx_mul(-2_000_000, 3_000_000), -6_000_000);
    assert_eq!(fx_mul(2_000_000, -3_000_000), -6_000_000);
    assert_eq!(fx_mul(-2_000_000, -3_000_000), 6_000_000);
    assert_eq!(fx_mul(1, 999_999), 0);
    assert_eq!(fx_mul(-1, 999_999), 0);
    assert_eq!(fx_muldiv(10, 10, 7), 14);
    assert_eq!(fx_muldiv(-10, 10, 7), -14);
}

#[test]
fn fixed_point_division() {
    assert_eq!(fx_div(1_000_000, 2_000_000), 500_000);
    assert_eq!(fx_div(-1_000_000, 2_000_000), -500_000);
    assert_eq!(fx_div(1_000_000, -2_000_000), -500_000);
    assert_eq!(fx_div(1_000_000, 3_000_000), 333_333);
}

#[test]
fn clamping() {
    assert_eq!(fx_clamp(5, 0, 3), 3);
    assert_eq!(fx_clamp(-5, 0, 3), 0);
    assert_eq!(fx_clamp(2, 0, 3), 2);
}

#[test]
fn integer_square_roots_are_exact_floors() {
    assert_eq!(isqrt_u128(0), 0);
    assert_eq!(isqrt_u128(1), 1);
    assert_eq!(isqrt_u128(3), 1);
    assert_eq!(isqrt_u128(4), 2);
    assert_eq!(isqrt_u128(25_000_000_000_000), 5_000_000);
    assert_eq!(isqrt_u128(u128::MAX), u64::MAX);
}

#[test]
fn sine_hits_its_anchors() {
    assert_eq!(sin_fx(0), 0);
    assert_eq!(sin_fx(FX_PI), 0);
    // the rational approximation is within a couple of thousandths at the
    // quarter turn
    let s = sin_fx(FX_HALF_PI);
    assert!(s >= 998_000 && s <= 1_000_000, "sin(pi/2) = {s}");
    // odd symmetry is exact
    assert_eq!(sin_fx(-1_234_567), -sin_fx(1_234_567));
    // the second half of the turn mirrors the first
    assert_eq!(sin_fx(FX_PI + 700_000), -sin_fx(700_000));
}

#[test]
fn cosine_of_zero_is_one() {
    assert_eq!(cos_fx(0), FX_ONE);
}

#[test]
fn arccosine_range_and_anchors() {
    assert_eq!(acos_fx(FX_ONE), 0);
    assert_eq!(acos_fx(2_000_000), 0);
    assert_eq!(acos_fx(-FX_ONE), FX_PI);
    assert_eq!(acos_fx(-2_000_000), FX_PI);
    let a = acos_fx(0);
    assert!(a >= FX_HALF_PI - 6_000 && a <= FX_HALF_PI + 6_000, "acos(0) = {a}");
    let b = acos_fx(707_107);
    assert!(b >= 780_000 && b <= 792_000, "acos(sqrt 1/2) = {b}");
}

#[test]
fn atan2_quadrants() {
    assert_eq!(atan2_fx(0, 0), 0);
    assert_eq!(atan2_fx(0, FX_ONE), 0);
    assert_eq!(atan2_fx(FX_ONE, 0), FX_HALF_PI);
    assert_eq!(atan2_fx(-FX_ONE, 0), -FX_HALF_PI);
    assert_eq!(atan2_fx(0, -FX_ONE), FX_PI);
    // the diagonal is exact: z = 1 makes the polynomial collapse to pi/4
    assert_eq!(atan2_fx(FX_ONE, FX_ONE), 785_398);
    assert_eq!(atan2_fx(-FX_ONE, FX_ONE), -785_398);
}

#[test]
fn angles_fold_into_the_half_turn() {
    assert_eq!(normalize_angle(0), 0);
    assert_eq!(normalize_angle(FX_PI), FX_PI);
    assert_eq!(normalize_angle(FX_PI + 1), FX_PI + 1 - FX_TAU);
    assert_eq!(normalize_angle(2 * FX_PI), 2 * FX_PI - FX_TAU);
    assert_eq!(normalize_angle(-FX_PI - 1), -FX_PI - 1 + FX_TAU);
    for a in [0i64, 1, 500_000, FX_PI, FX_PI + 1, FX_TAU, 2 * FX_PI] {
        let r = normalize_angle(a);
        assert!(-FX_PI < r && r <= FX_PI, "fold({a}) = {r}");
    }
}

#[test]
fn vector_algebra() {
    let a = Vec3::new(1_000_000, 2_000_000, 3_000_000);
    let b = Vec3::new(-500_000, 250_000, 1_000_000);
    assert_eq!(a.add(b), Vec3::new(500_000, 2_250_000, 4_000_000));
    assert_eq!(a.sub(b), Vec3::new(1_500_000, 1_750_000, 2_000_000));
    assert_eq!(a.scale(500_000), Vec3::new(500_000, 1_000_000, 1_500_000));
    assert_eq!(a.dot(b), -500_000 + 500_000 + 3_000_000);
    // x cross y = z
    let x = Vec3::new(FX_ONE, 0, 0);
    let y = Vec3::new(0, FX_ONE, 0);
    assert_eq!(x.cross(y), Vec3::new(0, 0, FX_ONE));
}

#[test]
fn magnitude_clamp_is_exact_inside_and_bounded_outside() {
    let inside = Vec3::new(300_000, 400_000, 0);
    assert_eq!(inside.clamp_magnitude(1_000_000), inside);
    // a 3-4-5 vector five times too long scales back just under the cap
    let outside = Vec3::new(3_000_000, 4_000_000, 0);
    let r = outside.clamp_magnitude(1_000_000);
    assert_eq!(r, Vec3::new(599_999, 799_999, 0));
    let m2 = (r.x as i128) * (r.x as i128) + (r.y as i128) * (r.y as i128) + (r.z as i128)
        * (r.z as i128);
    assert!(m2 <= 1_000_000_000_000);
}

#[test]
fn normalization_gives_unit_components() {
    let v = Vec3::new(3_000_000, 4_000_000, 0);
    let n = v.normalize();
    assert_eq!(n, Vec3::new(600_000, 800_000, 0));
}

#[test]
fn quaternion_identity_and_conjugate() {
    let id = Quat::identity();
    let q = Quat::from_rotation_x(1_000_000);
    assert_eq!(q.mul(id.conjugate()).w, q.w);
    assert_eq!(id.conjugate(), id);
    let c = q.conjugate();
    assert_eq!(c.x, -q.x);
    assert_eq!(c.w, q.w);
}

#[test]
fn rotating_by_the_identity_changes_nothing() {
    let id = Quat::identity();
    let v = Vec3::new(123_456, -654_321, 999_999);
    assert_eq!(id.rotate(v), v);
}

#[test]
fn a_half_turn_about_z_flips_the_up_axis() {
    let q = Quat::from_rotation_z(FX_PI);
    let up = Vec3::new(0, FX_ONE, 0);
    let r = q.rotate(up);
    // within approximation error of straight down
    assert!(r.y < -995_000, "rotated up = ({}, {}, {})", r.x, r.y, r.z);
    assert!(r.x.abs() < 10_000 && r.z.abs() < 10_000);
}

#[test]
fn axis_angle_decomposition_of_a_known_rotation() {
    let q = Quat::from_rotation_x(2_000_000);
    let (axis, angle) = q.to_axis_angle();
    assert_eq!(axis.y, 0);
    assert_eq!(axis.z, 0);
    assert!(axis.x > 995_000);
    assert!(angle >= 1_990_000 && angle <= 2_012_000, "angle = {angle}");
    // the identity decomposes to a zero angle
    assert_eq!(Quat::identity().to_axis_angle().1, 0);
}

#[test]
fn slerp_returns_its_endpoints_exactly() {
    let a = Quat::from_rotation_x(500_000);
    let b = Quat::from_rotation_y(-1_200_000);
    assert_eq!(a.slerp(b, 0), a);
    assert_eq!(a.slerp(b, FX_ONE), b);
    // against the opposite sign of b, the far endpoint comes back negated
    let nb = Quat { x: -b.x, y: -b.y, z: -b.z, w: -b.w };
    let r = a.slerp(nb, FX_ONE);
    assert_eq!(r, b);
}
