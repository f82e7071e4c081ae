//! Stateless builders for the elementary matrices of the kernel:
//! perspective projection, translation, scale and the look-at camera
//! matrix.

use crate::float32::add_bits;
use crate::float32::add_ieee;
use crate::float32::div_bits;
use crate::float32::div_ieee;
use crate::float32::flip_sign;
use crate::float32::mul_bits;
use crate::float32::mul_ieee;
use crate::float32::negate_bits;
use crate::float32::sub_bits;
use crate::float32::ONE_BITS;
use crate::float32::POS_ZERO;
use crate::float32::TWO_BITS;
use crate::math::mat_mul_spec;
use crate::math::vec_cross;
use crate::math::vec_normalized;
use crate::math::vec_sub;
use crate::math::Matrix4;
use crate::math::Vector3;
use vstd::prelude::*;

verus! {

/// Bit pattern of -1.0, the perspective-divide marker row entry.
pub const NEG_ONE_BITS: u32 = 0xBF80_0000;

/// The symmetric perspective projection: x scaled by the frustum scale
/// over the aspect ratio, y by the frustum scale, depth mapped by
/// `(far + near) / (near - far)` and `2 * far * near / (near - far)`,
/// last row `0 0 -1 0`.
pub open spec fn perspective_spec(
    display_ratio: u32,
    frustum_scale: u32,
    z_near: u32,
    z_far: u32,
) -> Seq<u32> {
    seq![
        div_ieee(frustum_scale, display_ratio),
        POS_ZERO,
        POS_ZERO,
        POS_ZERO,
        POS_ZERO,
        frustum_scale,
        POS_ZERO,
        POS_ZERO,
        POS_ZERO,
        POS_ZERO,
        div_ieee(add_ieee(z_far, z_near), add_ieee(z_near, flip_sign(z_far))),
        div_ieee(
            mul_ieee(mul_ieee(TWO_BITS, z_far), z_near),
            add_ieee(z_near, flip_sign(z_far)),
        ),
        POS_ZERO,
        POS_ZERO,
        NEG_ONE_BITS,
        POS_ZERO,
    ]
}

/// The identity with a vector in the translation column.
pub open spec fn translation_spec(input: Vector3) -> Seq<u32> {
    seq![
        ONE_BITS,
        POS_ZERO,
        POS_ZERO,
        input.x,
        POS_ZERO,
        ONE_BITS,
        POS_ZERO,
        input.y,
        POS_ZERO,
        POS_ZERO,
        ONE_BITS,
        input.z,
        POS_ZERO,
        POS_ZERO,
        POS_ZERO,
        ONE_BITS,
    ]
}

/// The diagonal matrix of a vector's components and one.
pub open spec fn scale_spec(input: Vector3) -> Seq<u32> {
    seq![
        input.x,
        POS_ZERO,
        POS_ZERO,
        POS_ZERO,
        POS_ZERO,
        input.y,
        POS_ZERO,
        POS_ZERO,
        POS_ZERO,
        POS_ZERO,
        input.z,
        POS_ZERO,
        POS_ZERO,
        POS_ZERO,
        POS_ZERO,
        ONE_BITS,
    ]
}

/// The rotation block of a look-at matrix: rows are the right, corrected
/// up and look directions.
pub open spec fn look_rotation_spec(right: Vector3, pup: Vector3, look: Vector3) -> Seq<u32> {
    seq![
        right.x,
        right.y,
        right.z,
        POS_ZERO,
        pup.x,
        pup.y,
        pup.z,
        POS_ZERO,
        look.x,
        look.y,
        look.z,
        POS_ZERO,
        POS_ZERO,
        POS_ZERO,
        POS_ZERO,
        ONE_BITS,
    ]
}

/// The identity with the negated position in the translation column.
pub open spec fn neg_translation_spec(position: Vector3) -> Seq<u32> {
    seq![
        ONE_BITS,
        POS_ZERO,
        POS_ZERO,
        flip_sign(position.x),
        POS_ZERO,
        ONE_BITS,
        POS_ZERO,
        flip_sign(position.y),
        POS_ZERO,
        POS_ZERO,
        ONE_BITS,
        flip_sign(position.z),
        POS_ZERO,
        POS_ZERO,
        POS_ZERO,
        ONE_BITS,
    ]
}

/// The right-handed look-at view matrix built from a camera position, a
/// target and an up hint: normalize the look direction and the hint,
/// take `right = look x up` and `true up = right x look`, then compose
/// the rotation with a translation by the negated camera position. The
/// basis degenerates when the hint is collinear with the look direction;
/// the caller keeps them apart.
pub open spec fn camera_matrix_spec(
    camera_position: Vector3,
    target: Vector3,
    up_vector: Vector3,
) -> Seq<u32> {
    let look = vec_normalized(vec_sub(target, camera_position));
    let up = vec_normalized(up_vector);
    let right = vec_cross(look, up);
    let pup = vec_cross(right, look);
    mat_mul_spec(look_rotation_spec(right, pup, look), neg_translation_spec(camera_position))
}

/// Stateless matrix builders.
pub struct MatrixOperation {}

impl MatrixOperation {
    /// The symmetric perspective projection matrix. The depth terms
    /// divide by `z_near - z_far`; the caller keeps the two planes apart.
    pub fn perspective(display_ratio: u32, frustum_scale: u32, z_near: u32, z_far: u32) -> (r:
        Matrix4)
        ensures
            r.data@ == perspective_spec(display_ratio, frustum_scale, z_near, z_far),
    {
        let depth_span: u32 = sub_bits(z_near, z_far);
        let r = Matrix4::from(
            [
                div_bits(frustum_scale, display_ratio),
                POS_ZERO,
                POS_ZERO,
                POS_ZERO,
                POS_ZERO,
                frustum_scale,
                POS_ZERO,
                POS_ZERO,
                POS_ZERO,
                POS_ZERO,
                div_bits(add_bits(z_far, z_near), depth_span),
                div_bits(mul_bits(mul_bits(TWO_BITS, z_far), z_near), depth_span),
                POS_ZERO,
                POS_ZERO,
                NEG_ONE_BITS,
                POS_ZERO,
            ],
        );
        proof {
            assert(r.data@ =~= perspective_spec(display_ratio, frustum_scale, z_near, z_far));
        }
        r
    }

    /// The translation matrix of a vector.
    pub fn translation(input: Vector3) -> (r: Matrix4)
        ensures
            r.data@ == translation_spec(input),
    {
        let r = Matrix4::from(
            [
                ONE_BITS,
                POS_ZERO,
                POS_ZERO,
                input.x,
                POS_ZERO,
                ONE_BITS,
                POS_ZERO,
                input.y,
                POS_ZERO,
                POS_ZERO,
                ONE_BITS,
                input.z,
                POS_ZERO,
                POS_ZERO,
                POS_ZERO,
                ONE_BITS,
            ],
        );
        proof {
            assert(r.data@ =~= translation_spec(input));
        }
        r
    }

    /// The scale matrix of a vector.
    pub fn scale(input: Vector3) -> (r: Matrix4)
        ensures
            r.data@ == scale_spec(input),
    {
        let r = Matrix4::from(
            [
                input.x,
                POS_ZERO,
                POS_ZERO,
                POS_ZERO,
                POS_ZERO,
                input.y,
                POS_ZERO,
                POS_ZERO,
                POS_ZERO,
                POS_ZERO,
                input.z,
                POS_ZERO,
                POS_ZERO,
                POS_ZERO,
                POS_ZERO,
                ONE_BITS,
            ],
        );
        proof {
            assert(r.data@ =~= scale_spec(input));
        }
        r
    }

    /// The look-at view matrix; see [`camera_matrix_spec`].
    pub fn camera_matrix(camera_position: Vector3, target: Vector3, up_vector: Vector3) -> (r:
        Matrix4)
        ensures
            r.data@ == camera_matrix_spec(camera_position, target, up_vector),
    {
        let look_direction = target.subtract(camera_position).normalized();
        let up_direction = up_vector.normalized();
        let right_direction = look_direction.cross(up_direction);
        let perpendicular_up_direction = right_direction.cross(look_direction);
        let rotation_matrix = Matrix4::from(
            [
                right_direction.x,
                right_direction.y,
                right_direction.z,
                POS_ZERO,
                perpendicular_up_direction.x,
                perpendicular_up_direction.y,
                perpendicular_up_direction.z,
                POS_ZERO,
                look_direction.x,
                look_direction.y,
                look_direction.z,
                POS_ZERO,
                POS_ZERO,
                POS_ZERO,
                POS_ZERO,
                ONE_BITS,
            ],
        );
        let translation_matrix = Matrix4::from(
            [
                ONE_BITS,
                POS_ZERO,
                POS_ZERO,
                negate_bits(camera_position.x),
                POS_ZERO,
                ONE_BITS,
                POS_ZERO,
                negate_bits(camera_position.y),
                POS_ZERO,
                POS_ZERO,
                ONE_BITS,
                negate_bits(camera_position.z),
                POS_ZERO,
                POS_ZERO,
                POS_ZERO,
                ONE_BITS,
            ],
        );
        proof {
            assert(rotation_matrix.data@ =~= look_rotation_spec(
                right_direction,
                perpendicular_up_direction,
                look_direction,
            ));
            assert(translation_matrix.data@ =~= neg_translation_spec(camera_position));
        }
        rotation_matrix.multiply(translation_matrix)
    }
}

/// Law: a translation stores the vector in its position column, so the
/// position extracted from `translation(v)` is `v` again, bit for bit.
pub proof fn lemma_translation_round_trip(v: Vector3)
    ensures
        (Vector3 {
            x: translation_spec(v)[3],
            y: translation_spec(v)[7],
            z: translation_spec(v)[11],
        }) == v,
{
}

} // verus!
