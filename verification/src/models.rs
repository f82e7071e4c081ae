//! Scene entities: an instance that accumulates a local-to-world
//! transform over a shared geometry handle, and a camera that derives a
//! view matrix from its own transform.
//!
//! Composition order is the contract here. Scale and translation setters
//! prepend their elementary matrix, applying in world space; rotations
//! accumulate in the entity's local frame by multiplying on the right;
//! the relative translations move along the entity's own current basis
//! vectors. Attaching to a parent is a one-shot positional bake: it
//! prepends a translation by the parent's position at that moment, and
//! moving the parent afterwards does not move the child.

use crate::math::identity_spec;
use crate::math::mat_mul_spec;
use crate::math::quat_from_trig;
use crate::math::quat_matrix_spec;
use crate::math::vec_normalized;
use crate::math::vec_scale;
use crate::math::axis_x_vec;
use crate::math::axis_y_vec;
use crate::math::axis_z_vec;
use crate::math::vec_cross;
use crate::math::Matrix4;
use crate::math::Quaternion;
use crate::math::Vector3;
use crate::matrices::look_rotation_spec;
use crate::matrices::neg_translation_spec;
use crate::matrices::scale_spec;
use crate::matrices::translation_spec;
use crate::matrices::MatrixOperation;
use crate::float32::negate_bits;
use crate::float32::flip_sign;
use crate::float32::ONE_BITS;
use crate::float32::POS_ZERO;
use vstd::prelude::*;

verus! {

/// The side direction stored in a transform: column 0.
pub open spec fn mat_side(m: Seq<u32>) -> Vector3 {
    Vector3 { x: m[0], y: m[4], z: m[8] }
}

/// The up direction stored in a transform: column 1.
pub open spec fn mat_up(m: Seq<u32>) -> Vector3 {
    Vector3 { x: m[1], y: m[5], z: m[9] }
}

/// The forward direction stored in a transform: column 2.
pub open spec fn mat_forward(m: Seq<u32>) -> Vector3 {
    Vector3 { x: m[2], y: m[6], z: m[10] }
}

/// The position stored in a transform: column 3.
pub open spec fn mat_position(m: Seq<u32>) -> Vector3 {
    Vector3 { x: m[3], y: m[7], z: m[11] }
}

/// An entity: its accumulated local-to-world transform and the handle of
/// the shared, immutable geometry it draws. Many instances may share one
/// handle; the geometry itself lives with the renderer.
pub struct Instance {
    pub operations: Matrix4,
    pub prefab: usize,
}

impl Instance {
    /// A fresh entity over a geometry handle, placed at the origin.
    pub fn new(prefab: usize) -> (r: Instance)
        ensures
            r.operations.data@ == identity_spec(),
            r.prefab == prefab,
    {
        Instance { operations: Matrix4::identity(), prefab }
    }

    /// A copy of this entity sharing the same geometry handle.
    pub fn clone(&self) -> (r: Instance)
        ensures
            r.operations.data@ == self.operations.data@,
            r.prefab == self.prefab,
    {
        Instance { operations: self.operations, prefab: self.prefab }
    }

    /// One-shot positional bake: prepend a translation by the parent's
    /// current position, and nothing else of the parent's transform. No
    /// live link is kept.
    pub fn set_parent(&mut self, parent: &Instance)
        ensures
            final(self).operations.data@ == mat_mul_spec(
                translation_spec(mat_position(parent.operations.data@)),
                old(self).operations.data@,
            ),
            final(self).prefab == old(self).prefab,
    {
        self.operations = MatrixOperation::translation(parent.operations.get_position()).multiply(
            self.operations,
        );
    }

    /// Back to the identity transform.
    pub fn reset_transform(&mut self)
        ensures
            final(self).operations.data@ == identity_spec(),
            final(self).prefab == old(self).prefab,
    {
        self.operations = Matrix4::identity();
    }

    /// Prepend a scale: it applies in world space, after everything
    /// accumulated so far.
    pub fn set_scale(&mut self, vector: Vector3)
        ensures
            final(self).operations.data@ == mat_mul_spec(
                scale_spec(vector),
                old(self).operations.data@,
            ),
            final(self).prefab == old(self).prefab,
    {
        self.operations = MatrixOperation::scale(vector).multiply(self.operations);
    }

    /// Prepend a translation: it applies in world space.
    pub fn set_translation(&mut self, vector: Vector3)
        ensures
            final(self).operations.data@ == mat_mul_spec(
                translation_spec(vector),
                old(self).operations.data@,
            ),
            final(self).prefab == old(self).prefab,
    {
        self.operations = MatrixOperation::translation(vector).multiply(self.operations);
    }

    /// Rotate around the x axis in the entity's local frame: the rotation
    /// multiplies on the right. The arguments are the sine and cosine of
    /// half the rotation angle; see [`Quaternion::half_angle_radians`].
    pub fn set_rotate_x(&mut self, sin_value: u32, cos_value: u32)
        ensures
            final(self).operations.data@ == mat_mul_spec(
                old(self).operations.data@,
                quat_matrix_spec(quat_from_trig(axis_x_vec(), sin_value, cos_value)),
            ),
            final(self).prefab == old(self).prefab,
    {
        self.operations = self.operations.multiply(Quaternion::rotate_x(sin_value, cos_value));
    }

    /// Rotate around the y axis in the local frame; see
    /// [`Instance::set_rotate_x`].
    pub fn set_rotate_y(&mut self, sin_value: u32, cos_value: u32)
        ensures
            final(self).operations.data@ == mat_mul_spec(
                old(self).operations.data@,
                quat_matrix_spec(quat_from_trig(axis_y_vec(), sin_value, cos_value)),
            ),
            final(self).prefab == old(self).prefab,
    {
        self.operations = self.operations.multiply(Quaternion::rotate_y(sin_value, cos_value));
    }

    /// Rotate around the z axis in the local frame; see
    /// [`Instance::set_rotate_x`].
    pub fn set_rotate_z(&mut self, sin_value: u32, cos_value: u32)
        ensures
            final(self).operations.data@ == mat_mul_spec(
                old(self).operations.data@,
                quat_matrix_spec(quat_from_trig(axis_z_vec(), sin_value, cos_value)),
            ),
            final(self).prefab == old(self).prefab,
    {
        self.operations = self.operations.multiply(Quaternion::rotate_z(sin_value, cos_value));
    }

    /// Move along the entity's own forward direction: read it off the
    /// transform, normalize, scale by the amount and prepend that
    /// translation. True local-space movement, independent of absolute
    /// orientation.
    pub fn add_front_translation(&mut self, amount: u32)
        ensures
            final(self).operations.data@ == mat_mul_spec(
                translation_spec(
                    vec_scale(vec_normalized(mat_forward(old(self).operations.data@)), amount),
                ),
                old(self).operations.data@,
            ),
            final(self).prefab == old(self).prefab,
    {
        let vector = self.operations.get_forward_vector().normalized();
        let vector = vector.scale(amount);
        self.operations = MatrixOperation::translation(vector).multiply(self.operations);
    }

    /// Move along the entity's own side direction; see
    /// [`Instance::add_front_translation`].
    pub fn add_side_translation(&mut self, amount: u32)
        ensures
            final(self).operations.data@ == mat_mul_spec(
                translation_spec(
                    vec_scale(vec_normalized(mat_side(old(self).operations.data@)), amount),
                ),
                old(self).operations.data@,
            ),
            final(self).prefab == old(self).prefab,
    {
        let vector = self.operations.get_side_vector().normalized();
        let vector = vector.scale(amount);
        self.operations = MatrixOperation::translation(vector).multiply(self.operations);
    }

    /// Move along the entity's own up direction; see
    /// [`Instance::add_front_translation`].
    pub fn add_up_translation(&mut self, amount: u32)
        ensures
            final(self).operations.data@ == mat_mul_spec(
                translation_spec(
                    vec_scale(vec_normalized(mat_up(old(self).operations.data@)), amount),
                ),
                old(self).operations.data@,
            ),
            final(self).prefab == old(self).prefab,
    {
        let vector = self.operations.get_up_vector().normalized();
        let vector = vector.scale(amount);
        self.operations = MatrixOperation::translation(vector).multiply(self.operations);
    }
}

/// The view matrix a camera derives from its own transform: the look and
/// up directions are read off the transform and normalized, the basis is
/// completed by cross products, the look direction is negated for the
/// view-space convention, and the whole is composed with a translation by
/// the negated position.
pub open spec fn camera_from_transform_spec(m: Seq<u32>) -> Seq<u32> {
    let look = vec_normalized(mat_forward(m));
    let up = vec_normalized(mat_up(m));
    let right = vec_cross(look, up);
    let pup = vec_cross(right, look);
    mat_mul_spec(
        look_rotation_spec(
            right,
            pup,
            Vector3 { x: flip_sign(look.x), y: flip_sign(look.y), z: flip_sign(look.z) },
        ),
        neg_translation_spec(mat_position(m)),
    )
}

/// A camera attached to a transform. Attaching snapshots an instance's
/// transform, with the same one-shot semantics as entity parenting.
pub struct Camera {
    pub operations: Matrix4,
}

impl Camera {
    /// A camera at the origin.
    pub fn new() -> (r: Camera)
        ensures
            r.operations.data@ == identity_spec(),
    {
        Camera { operations: Matrix4::identity() }
    }

    /// Snapshot an instance's current transform. Not a live link: moving
    /// the instance later does not move the camera.
    pub fn set_parent(&mut self, instance: &Instance)
        ensures
            final(self).operations.data@ == instance.operations.data@,
    {
        self.operations = instance.operations;
    }

    /// The world-to-camera matrix for the snapshotted transform; see
    /// [`camera_from_transform_spec`]. Degenerate when the stored forward
    /// and up columns are collinear; the caller keeps them apart.
    pub fn camera_matrix_from_target(&self) -> (r: Matrix4)
        ensures
            r.data@ == camera_from_transform_spec(self.operations.data@),
    {
        let look_direction = self.operations.get_forward_vector().normalized();
        let up_vector = self.operations.get_up_vector().normalized();
        let right_direction = look_direction.cross(up_vector);
        let perpendicular_up_direction = right_direction.cross(look_direction);
        let rotation_matrix = Matrix4::from(
            [
                right_direction.x,
                right_direction.y,
                right_direction.z,
                POS_ZERO,
                perpendicular_up_direction.x,
                perpendicular_up_direction.y,
                perpendicular_up_direction.z,
                POS_ZERO,
                negate_bits(look_direction.x),
                negate_bits(look_direction.y),
                negate_bits(look_direction.z),
                POS_ZERO,
                POS_ZERO,
                POS_ZERO,
                POS_ZERO,
                ONE_BITS,
            ],
        );
        let camera_position = self.operations.get_position();
        let translation_matrix = Matrix4::from(
            [
                ONE_BITS,
                POS_ZERO,
                POS_ZERO,
                negate_bits(camera_position.x),
                POS_ZERO,
                ONE_BITS,
                POS_ZERO,
                negate_bits(camera_position.y),
                POS_ZERO,
                POS_ZERO,
                ONE_BITS,
                negate_bits(camera_position.z),
                POS_ZERO,
                POS_ZERO,
                POS_ZERO,
                ONE_BITS,
            ],
        );
        proof {
            let m = self.operations.data@;
            let look = vec_normalized(mat_forward(m));
            let up = vec_normalized(mat_up(m));
            let right = vec_cross(look, up);
            let pup = vec_cross(right, look);
            assert(rotation_matrix.data@ =~= look_rotation_spec(
                right,
                pup,
                Vector3 { x: flip_sign(look.x), y: flip_sign(look.y), z: flip_sign(look.z) },
            ));
            assert(translation_matrix.data@ =~= neg_translation_spec(mat_position(m)));
        }
        rotation_matrix.multiply(translation_matrix)
    }
}

} // verus!
