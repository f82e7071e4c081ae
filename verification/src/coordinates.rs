//! Spherical coordinates and their conversion to Cartesian vectors.
//!
//! Up is y, not z, so the elevation angle is measured against y. The
//! constructor clamps the elevation and floors the radius: a camera or
//! object must never collapse into the origin, and near-pole directions
//! would degrade the cross-product basis a look-at matrix builds later.
//! Converting to Cartesian coordinates needs the sine and cosine of the
//! two angles; the caller evaluates those for the radian values this type
//! hands out, and the combination of the results is verified here.

use crate::float32::add_bits;
use crate::float32::add_ieee;
use crate::float32::flip_sign;
use crate::float32::is_nan;
use crate::float32::lemma_constant_fields;
use crate::float32::lemma_fields;
use crate::float32::lemma_flip_sign;
use crate::float32::lemma_mag_zero;
use crate::float32::max_bits;
use crate::float32::mul_bits;
use crate::float32::mul_ieee;
use crate::float32::val_scaled;
use crate::float32::ONE_BITS;
use crate::math::clamp;
use crate::math::clamped_val;
use crate::math::degree_to_radians;
use crate::math::vec_scale;
use crate::math::Vector3;
use crate::math::DEGREE_TO_RADIANS_RATIO;
use vstd::prelude::*;

verus! {

/// Bit pattern of 78.75, the elevation limit in degrees.
pub const ELEVATION_LIMIT_BITS: u32 = 0x429D_8000;

/// Bit pattern of -78.75, the opposite elevation limit.
pub const NEG_ELEVATION_LIMIT_BITS: u32 = 0xC29D_8000;

/// Bit pattern of 90.0, the offset that turns an elevation measured from
/// the horizon into one measured from the pole.
pub const NINETY_BITS: u32 = 0x42B4_0000;

/// The elevation limits are ordinary finite values, mirror images of each
/// other, the negative one below the positive one.
proof fn lemma_elevation_limits()
    ensures
        !is_nan(ELEVATION_LIMIT_BITS),
        !is_nan(NEG_ELEVATION_LIMIT_BITS),
        NEG_ELEVATION_LIMIT_BITS == flip_sign(ELEVATION_LIMIT_BITS),
        val_scaled(NEG_ELEVATION_LIMIT_BITS) < 0 < val_scaled(ELEVATION_LIMIT_BITS),
{
    assert((0x429D_8000u32 >> 23) & 0xFF == 0x85 && (0xC29D_8000u32 >> 23) & 0xFF == 0x85
        && (0x429D_8000u32 ^ 0x8000_0000) == 0xC29D_8000u32 && 0x429D_8000u32 & 0x7FFF_FFFF != 0
        && 0x429D_8000u32 & 0x8000_0000 == 0) by (bit_vector);
    lemma_fields(ELEVATION_LIMIT_BITS);
    lemma_mag_zero(ELEVATION_LIMIT_BITS);
    lemma_flip_sign(ELEVATION_LIMIT_BITS);
}

/// A spherical coordinate: radius, azimuthal angle and elevation angle,
/// the angles in degrees. The elevation is held inside the clamp limits
/// and the radius at one or above by the constructor.
#[derive(Clone, Copy, Debug)]
pub struct SphereVector {
    pub radius: u32,
    pub azimuthal: u32,
    pub elevation: u32,
}

impl SphereVector {
    /// A spherical coordinate with the stored radius floored at 1.0 and
    /// the stored elevation clamped to the limits; the azimuth is kept as
    /// given, wrapping being left to the trigonometry. A NaN radius is
    /// replaced by the floor and a NaN elevation by the lower limit.
    pub fn new(radius: u32, elevation: u32, azimuthal: u32) -> (r: SphereVector)
        ensures
            r.azimuthal == azimuthal,
            is_nan(radius) ==> r.radius == ONE_BITS,
            !is_nan(radius) ==> r.radius == (if val_scaled(ONE_BITS) <= val_scaled(radius) {
                radius
            } else {
                ONE_BITS
            }),
            is_nan(elevation) ==> r.elevation == NEG_ELEVATION_LIMIT_BITS,
            !is_nan(elevation) ==> (r.elevation == elevation || r.elevation
                == NEG_ELEVATION_LIMIT_BITS || r.elevation == ELEVATION_LIMIT_BITS) && val_scaled(
                r.elevation,
            ) == clamped_val(
                val_scaled(elevation),
                val_scaled(NEG_ELEVATION_LIMIT_BITS),
                val_scaled(ELEVATION_LIMIT_BITS),
            ),
    {
        proof {
            lemma_constant_fields();
            lemma_elevation_limits();
        }
        SphereVector {
            radius: max_bits(ONE_BITS, radius),
            azimuthal,
            elevation: clamp(elevation, NEG_ELEVATION_LIMIT_BITS, ELEVATION_LIMIT_BITS),
        }
    }

    /// The elevation in radians, measured from the pole: the stored
    /// elevation offset by 90 degrees, then converted.
    pub fn elevation_radians(&self) -> (r: u32)
        ensures
            r == mul_ieee(add_ieee(self.elevation, NINETY_BITS), DEGREE_TO_RADIANS_RATIO),
    {
        degree_to_radians(add_bits(self.elevation, NINETY_BITS))
    }

    /// The azimuthal angle in radians.
    pub fn azimuthal_radians(&self) -> (r: u32)
        ensures
            r == mul_ieee(self.azimuthal, DEGREE_TO_RADIANS_RATIO),
    {
        degree_to_radians(self.azimuthal)
    }

    /// The Cartesian point of this coordinate, given the sine and cosine
    /// of [`SphereVector::elevation_radians`] and of
    /// [`SphereVector::azimuthal_radians`]: the direction
    /// (sin e * cos a, cos e, sin e * sin a) scaled by the radius.
    pub fn to_cartesian(
        &self,
        sin_elevation: u32,
        cos_elevation: u32,
        sin_azimuthal: u32,
        cos_azimuthal: u32,
    ) -> (r: Vector3)
        ensures
            r == vec_scale(
                Vector3 {
                    x: mul_ieee(sin_elevation, cos_azimuthal),
                    y: cos_elevation,
                    z: mul_ieee(sin_elevation, sin_azimuthal),
                },
                self.radius,
            ),
    {
        let camera_direction = Vector3::new(
            mul_bits(sin_elevation, cos_azimuthal),
            cos_elevation,
            mul_bits(sin_elevation, sin_azimuthal),
        );
        camera_direction.scale(self.radius)
    }
}

} // verus!
