//! Decoding helpers for the bone-description file format.
//!
//! A description record carries optional 3-element position / rotation /
//! scale arrays and integer texel offsets. The host application parses the
//! text and converts Euler angles; the value decoding proper — defaults,
//! the texel-per-unit scaling, and the atlas normalization — lives here.

use vstd::prelude::*;

use crate::fixed::Fixed;
use crate::geom::{Vec2, Vec3};

verus! {

/// Raw value of the texel scale `1/16`: description-file position and scale
/// entries are given in texels, sixteen to the model unit.
pub const TEXEL_SCALE_RAW: i64 = 0x1000_0000;

/// The texel scale as a scalar.
pub fn texel_scale() -> (r: Fixed)
    ensures
        r == (Fixed { raw: TEXEL_SCALE_RAW }),
{
    Fixed { raw: TEXEL_SCALE_RAW }
}

/// What decoding an optional vector gives: the vector scaled component-wise
/// by `mult` when present, else the unit vector or the zero vector as asked.
pub open spec fn spec_decode_opt_vec(opt: Option<Vec3>, mult: Fixed, default_ones: bool) -> Vec3 {
    match opt {
        Some(v) => Vec3 {
            x: Fixed::spec_mul(v.x, mult),
            y: Fixed::spec_mul(v.y, mult),
            z: Fixed::spec_mul(v.z, mult),
        },
        None => if default_ones {
            Vec3 { x: Fixed::spec_from_int(1), y: Fixed::spec_from_int(1), z: Fixed::spec_from_int(1) }
        } else {
            Vec3 { x: Fixed::spec_from_int(0), y: Fixed::spec_from_int(0), z: Fixed::spec_from_int(0) }
        },
    }
}

/// Decodes an optional description-file vector.
pub fn decode_opt_vec(opt: Option<&Vec3>, mult: Fixed, default_ones: bool) -> (r: Vec3)
    ensures
        r == spec_decode_opt_vec(
            match opt {
                Some(v) => Some(*v),
                None => None,
            },
            mult,
            default_ones,
        ),
{
    match opt {
        Some(v) => Vec3 { x: v.x.mul(mult), y: v.y.mul(mult), z: v.z.mul(mult) },
        None => if default_ones {
            Vec3::one()
        } else {
            Vec3::zero()
        },
    }
}

/// A part's integer texel offset normalized by the texture's pixel size.
pub open spec fn spec_normalize_tex_offset(x: u32, y: u32, tex_w: u32, tex_h: u32) -> Vec2 {
    Vec2 {
        x: Fixed::spec_div(Fixed::spec_from_int(x as int), Fixed::spec_from_int(tex_w as int)),
        y: Fixed::spec_div(Fixed::spec_from_int(y as int), Fixed::spec_from_int(tex_h as int)),
    }
}

/// Normalizes a part's texel offset into atlas coordinates.
pub fn normalize_tex_offset(x: u32, y: u32, tex_w: u32, tex_h: u32) -> (r: Vec2)
    requires
        tex_w > 0,
        tex_h > 0,
    ensures
        r == spec_normalize_tex_offset(x, y, tex_w, tex_h),
{
    proof {
        crate::fixed::lemma_from_int_nonneg(tex_w as int);
        crate::fixed::lemma_from_int_nonneg(tex_h as int);
    }
    Vec2 {
        x: Fixed::from_u32(x).div(Fixed::from_u32(tex_w)),
        y: Fixed::from_u32(y).div(Fixed::from_u32(tex_h)),
    }
}

} // verus!
