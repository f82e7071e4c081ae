use game_math::math::Matrix4;
use game_math::math::Quaternion;
use game_math::math::Vector3;
use game_math::matrices::MatrixOperation;
use game_math::models::Camera;
use game_math::models::Instance;

fn b(x: f32) -> u32 {
    x.to_bits()
}

fn v3(x: f32, y: f32, z: f32) -> Vector3 {
    Vector3::new(b(x), b(y), b(z))
}

fn half_angle_trig(angle: f32) -> (u32, u32) {
    let half = f32::from_bits(Quaternion::half_angle_radians(b(angle)));
    (b(half.sin()), b(half.cos()))
}

#[test]
fn translation_round_trip() {
    let v = v3(4.25, -7.5, 0.1);

    assert_eq!(MatrixOperation::translation(v).get_position(), v);
}

#[test]
fn scale_matrix_diagonal() {
    let m = MatrixOperation::scale(v3(2.0, 3.0, 4.0));

    assert_eq!(m.data[0], b(2.0));
    assert_eq!(m.data[5], b(3.0));
    assert_eq!(m.data[10], b(4.0));
    assert_eq!(m.data[15], b(1.0));
    assert_eq!(m.data[3], b(0.0));
}

#[test]
fn perspective_matrix_entries() {
    let m = MatrixOperation::perspective(b(1.5), b(45.0), b(1.0), b(1000.0));

    assert_eq!(m.data[0], b(45.0f32 / 1.5));
    assert_eq!(m.data[5], b(45.0));
    assert_eq!(m.data[10], b((1000.0f32 + 1.0) / (1.0 - 1000.0)));
    assert_eq!(m.data[11], b((2.0f32 * 1000.0 * 1.0) / (1.0 - 1000.0)));
    assert_eq!(m.data[14], b(-1.0));
    assert_eq!(m.data[15], b(0.0));
}

#[test]
fn camera_matrix_along_negative_z() {
    let view = MatrixOperation::camera_matrix(v3(0.0, 0.0, 0.0), v3(0.0, 0.0, -1.0), Vector3::up());
    let expected = Matrix4::from([
        b(1.0), b(0.0), b(0.0), b(0.0),
        b(0.0), b(1.0), b(0.0), b(0.0),
        b(0.0), b(0.0), b(-1.0), b(0.0),
        b(0.0), b(0.0), b(0.0), b(1.0),
    ]);

    assert_eq!(view, expected);
}

#[test]
fn instance_set_translation_moves_position() {
    let mut instance = Instance::new(0);
    instance.set_translation(v3(1.0, 2.0, 3.0));

    assert_eq!(instance.operations.get_position(), v3(1.0, 2.0, 3.0));
}

#[test]
fn instance_set_parent_bakes_position_once() {
    let mut parent = Instance::new(0);
    parent.set_translation(v3(10.0, 0.0, -2.0));

    let mut child = Instance::new(0);
    child.set_translation(v3(1.0, 2.0, 3.0));
    child.set_parent(&parent);

    assert_eq!(child.operations.get_position(), v3(11.0, 2.0, 1.0));

    // The bake is one-shot: moving the parent afterwards changes nothing.
    parent.set_translation(v3(100.0, 100.0, 100.0));
    assert_eq!(child.operations.get_position(), v3(11.0, 2.0, 1.0));
}

#[test]
fn instance_reset_transform_restores_identity() {
    let mut instance = Instance::new(3);
    instance.set_scale(v3(2.0, 2.0, 2.0));
    instance.set_rotate_y(half_angle_trig(30.0).0, half_angle_trig(30.0).1);
    instance.reset_transform();

    assert_eq!(instance.operations, Matrix4::identity());
    assert_eq!(instance.prefab, 3);
}

#[test]
fn instance_add_front_translation_moves_forward() {
    // A fresh instance looks along +z, so moving forward by 2 lands at z = 2.
    let mut instance = Instance::new(0);
    instance.add_front_translation(b(2.0));

    assert_eq!(instance.operations.get_position(), v3(0.0, 0.0, 2.0));

    let mut sideways = Instance::new(0);
    sideways.add_side_translation(b(-1.5));
    assert_eq!(sideways.operations.get_position(), v3(-1.5, 0.0, 0.0));

    let mut lifted = Instance::new(0);
    lifted.add_up_translation(b(4.0));
    assert_eq!(lifted.operations.get_position(), v3(0.0, 4.0, 0.0));
}

#[test]
fn camera_snapshot_is_not_live() {
    let mut instance = Instance::new(0);
    instance.set_translation(v3(5.0, 6.0, 7.0));

    let mut camera = Camera::new();
    camera.set_parent(&instance);
    instance.set_translation(v3(50.0, 60.0, 70.0));

    assert_eq!(camera.operations.get_position(), v3(5.0, 6.0, 7.0));
}

#[test]
fn camera_matrix_from_identity_transform() {
    // The identity transform looks along +z with up +y; the cross product
    // of look with up points along -x and the forward row is negated.
    let camera = Camera::new();
    let view = camera.camera_matrix_from_target();
    let expected = Matrix4::from([
        b(-1.0), b(0.0), b(0.0), b(0.0),
        b(0.0), b(1.0), b(0.0), b(0.0),
        b(0.0), b(0.0), b(-1.0), b(0.0),
        b(0.0), b(0.0), b(0.0), b(1.0),
    ]);

    assert_eq!(view, expected);
}

#[test]
fn instance_scale_then_translate_order() {
    // The setters prepend: the scale applies to what was accumulated, not
    // to the translation that comes afterwards.
    let mut instance = Instance::new(0);
    instance.set_scale(v3(2.0, 2.0, 2.0));
    instance.set_translation(v3(1.0, 1.0, 1.0));

    assert_eq!(instance.operations.get_position(), v3(1.0, 1.0, 1.0));

    let mut other = Instance::new(0);
    other.set_translation(v3(1.0, 1.0, 1.0));
    other.set_scale(v3(2.0, 2.0, 2.0));

    assert_eq!(other.operations.get_position(), v3(2.0, 2.0, 2.0));
}
