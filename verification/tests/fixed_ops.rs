//! Arithmetic facts about the fixed-point scalar type.

use forte_cubes::fixed::{Fixed, FP_ONE};
use forte_cubes::geom::{Quat, Vec3};
use forte_cubes::models::file::{decode_opt_vec, normalize_tex_offset, texel_scale};

fn fx(v: f64) -> Fixed {
    Fixed { raw: (v * 4294967296.0).round() as i64 }
}

#[test]
fn from_i32_scales_by_one() {
    assert_eq!(Fixed::from_i32(1).raw, FP_ONE);
    assert_eq!(Fixed::from_i32(-3).raw, -3 * FP_ONE);
    assert_eq!(Fixed::from_i32(0).raw, 0);
    assert_eq!(Fixed::from_u32(256).raw, 256 * FP_ONE);
}

#[test]
fn add_and_sub_are_exact_in_range() {
    let a = fx(1.5);
    let b = fx(2.25);
    assert_eq!(a.add(b), fx(3.75));
    assert_eq!(a.sub(b), fx(-0.75));
    assert_eq!(b.neg(), fx(-2.25));
}

#[test]
fn add_saturates_at_the_top() {
    let top = Fixed { raw: i64::MAX };
    assert_eq!(top.add(Fixed::from_i32(1)).raw, i64::MAX);
    let bottom = Fixed { raw: i64::MIN };
    assert_eq!(bottom.sub(Fixed::from_i32(1)).raw, i64::MIN);
}

#[test]
fn mul_is_exact_on_dyadic_values() {
    assert_eq!(fx(0.5).mul(fx(0.5)), fx(0.25));
    assert_eq!(fx(-0.5).mul(fx(0.5)), fx(-0.25));
    assert_eq!(fx(3.0).mul(fx(2.0)), fx(6.0));
}

#[test]
fn div_is_exact_on_dyadic_values() {
    assert_eq!(Fixed::from_i32(1).div(Fixed::from_i32(16)), fx(0.0625));
    assert_eq!(Fixed::from_i32(16).div(Fixed::from_u32(256)), fx(0.0625));
    assert_eq!(fx(-1.0).div(Fixed::from_i32(4)), fx(-0.25));
}

#[test]
fn floor_drops_the_fraction() {
    assert_eq!(fx(1.9).floor(), fx(1.0));
    assert_eq!(fx(0.1875).floor(), fx(0.0));
    assert_eq!(fx(3.0).floor(), fx(3.0));
}

#[test]
fn quarter_turn_about_z_rotates_the_axes() {
    let half = std::f64::consts::FRAC_PI_4;
    let q = Quat { s: fx(half.cos()), x: fx(0.0), y: fx(0.0), z: fx(half.sin()) };
    let m = q.to_mat3();
    let close = |v: Fixed, expected: f64| ((v.raw as f64 / 4294967296.0) - expected).abs() < 1e-5;
    // The x axis turns onto y, the y axis onto -x, z stays.
    assert!(close(m.x.x, 0.0) && close(m.x.y, 1.0) && close(m.x.z, 0.0));
    assert!(close(m.y.x, -1.0) && close(m.y.y, 0.0) && close(m.y.z, 0.0));
    assert!(close(m.z.x, 0.0) && close(m.z.y, 0.0) && close(m.z.z, 1.0));
}

#[test]
fn texel_scale_is_a_sixteenth() {
    assert_eq!(texel_scale(), fx(0.0625));
}

#[test]
fn decode_scales_present_vectors() {
    let v = Vec3 { x: Fixed::from_i32(16), y: Fixed::from_i32(32), z: Fixed::from_i32(48) };
    let r = decode_opt_vec(Some(&v), texel_scale(), false);
    assert_eq!(r.x, fx(1.0));
    assert_eq!(r.y, fx(2.0));
    assert_eq!(r.z, fx(3.0));
}

#[test]
fn decode_defaults_to_ones_for_scale() {
    let r = decode_opt_vec(None, texel_scale(), true);
    assert_eq!(r.x, fx(1.0));
    assert_eq!(r.y, fx(1.0));
    assert_eq!(r.z, fx(1.0));
}

#[test]
fn decode_defaults_to_zero_for_position() {
    let r = decode_opt_vec(None, texel_scale(), false);
    assert_eq!(r.x, fx(0.0));
    assert_eq!(r.y, fx(0.0));
    assert_eq!(r.z, fx(0.0));
}

#[test]
fn tex_offset_normalizes_by_pixel_size() {
    let r = normalize_tex_offset(8, 16, 256, 128);
    assert_eq!(r.x, fx(0.03125));
    assert_eq!(r.y, fx(0.125));
}

#[test]
fn transform_matrix_scales_rotates_and_translates() {
    let t = forte_cubes::geom::Transform {
        position: Vec3 { x: fx(1.0), y: fx(2.0), z: fx(3.0) },
        rotation: Quat { s: fx(1.0), x: fx(0.0), y: fx(0.0), z: fx(0.0) },
        scale: Vec3 { x: fx(2.0), y: fx(3.0), z: fx(4.0) },
    };
    let m = t.to_mat();
    // Identity rotation: the columns are the scaled axes, the last column
    // the translation.
    assert_eq!(m.x.x, fx(2.0));
    assert_eq!(m.y.y, fx(3.0));
    assert_eq!(m.z.z, fx(4.0));
    assert_eq!(m.x.y, fx(0.0));
    assert_eq!(m.w.x, fx(1.0));
    assert_eq!(m.w.y, fx(2.0));
    assert_eq!(m.w.z, fx(3.0));
    assert_eq!(m.w.w, fx(1.0));

    // Multiplying by the identity keeps the matrix exactly.
    let id = forte_cubes::geom::Mat4::identity();
    assert_eq!(id.mul(&m), m);
    assert_eq!(m.mul(&id), m);
}

#[test]
fn quaternion_multiplication_matches_hamilton_product() {
    // i * j == k
    let qi = Quat { s: fx(0.0), x: fx(1.0), y: fx(0.0), z: fx(0.0) };
    let qj = Quat { s: fx(0.0), x: fx(0.0), y: fx(1.0), z: fx(0.0) };
    let qk = qi.mul(qj);
    assert_eq!(qk.s, fx(0.0));
    assert_eq!(qk.x, fx(0.0));
    assert_eq!(qk.y, fx(0.0));
    assert_eq!(qk.z, fx(1.0));
}
