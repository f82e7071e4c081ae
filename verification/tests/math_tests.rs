use game_math::float32::POS_ZERO;
use game_math::math::clamp;
use game_math::math::degree_to_radians;
use game_math::math::Matrix4;
use game_math::math::Quaternion;
use game_math::math::Vector3;

fn b(x: f32) -> u32 {
    x.to_bits()
}

fn v3(x: f32, y: f32, z: f32) -> Vector3 {
    Vector3::new(b(x), b(y), b(z))
}

fn m16(data: [f32; 16]) -> Matrix4 {
    let mut bits = [0u32; 16];
    let mut i: usize = 0;
    while i < 16 {
        bits[i] = b(data[i]);
        i += 1;
    }
    Matrix4::from(bits)
}

fn half_angle_trig(angle: f32) -> (u32, u32) {
    let half = f32::from_bits(Quaternion::half_angle_radians(b(angle)));
    (b(half.sin()), b(half.cos()))
}

#[test]
fn matrix4_mul() {
    let a = m16([
        1.0,    0.0,    -4.0,   18.3,
        0.12,   22.0,   -4.0,   15.6,
        3.0,    6.0,    8.0,    -18.3,
        3.4,    -4.0,   7.0,    38.0]);
    let b = m16([
        5.0,    6.0,    17.0,   -3.0,
        26.0,   7.0,    -5.0,   -18.4,
        -7.3,   5.0,    0.12,   2.0,
        12.8,   6.0,    0.0,    5.0]);

    // nice to see some """issues""" with f32
    assert_eq!(a.multiply(b), m16([
        268.44,     95.799995,  16.52,    80.5,
        801.48,     228.32,     -108.44,  -335.15997,
        -121.63999, -9.799995,  21.96,    -194.9,
        348.3,      255.4,      78.64,    267.4]));
}

#[test]
fn vector3_normalized() {
    let a = v3(3.0, 1.0, 2.0);

    assert_eq!(a.normalized(), v3(0.8017837, 0.26726124, 0.5345225));
}

#[test]
fn vector3_to_array() {
    let a = v3(3.0, 1.0, 2.0);

    assert_eq!(a.to_array(), [b(3.0), b(1.0), b(2.0)]);
}

#[test]
fn vector3_cross() {
    let a = v3(2.0, 3.0, 4.0);
    let b = v3(5.0, 6.0, 7.0);

    assert_eq!(a.cross(b), v3(-3.0, 6.0, -3.0));
}

#[test]
fn vector3_cross_zeroed() {
    let a = v3(3.0, -3.0, 1.0);
    let b = v3(12.0, -12.0, 4.0);

    assert_eq!(a.cross(b), v3(0.0, 0.0, 0.0));
}

#[test]
fn vector3_add() {
    let a = v3(3.0, 7.0, 4.0);
    let b = v3(2.0, 9.0, 11.0);

    assert_eq!(a.add(b), v3(5.0, 16.0, 15.0));
}

#[test]
fn vector3_sub() {
    let a = v3(3.0, 3.0, 3.0);
    let b = v3(1.0, 2.0, 3.0);

    assert_eq!(a.subtract(b), v3(2.0, 1.0, 0.0));
}

#[test]
fn vector3_mul_scalar() {
    let a = v3(7.0, -3.0, 0.0);

    assert_eq!(a.scale(b(2.0)), v3(14.0, -6.0, 0.0));
}

#[test]
fn clamp_values() {
    assert_eq!(b(5.0), clamp(b(3.0), b(5.0), b(10.0)));

    assert_eq!(b(10.0), clamp(b(18.0), b(5.0), b(10.0)));

    assert_eq!(b(7.0), clamp(b(7.0), b(5.0), b(10.0)));
}

#[test]
fn degree_to_radians_values() {
    assert_eq!(b(0.017453292), degree_to_radians(b(1.0)));

    assert_eq!(b(0.5235988), degree_to_radians(b(30.0)));

    assert_eq!(b(0.0), degree_to_radians(b(0.0)));

    assert_eq!(b(-0.7853982), degree_to_radians(b(-45.0)));
}

#[test]
fn matrix4_identity_neutral() {
    let m = m16([
        1.0, 0.0, -4.0, 18.3, 0.12, 22.0, -4.0, 15.6, 3.0, 6.0, 8.0, -18.3, 3.4, -4.0, 7.0, 38.0,
    ]);
    let id = Matrix4::identity();

    assert_eq!(id.multiply(m), m);
    assert_eq!(m.multiply(id), m);
}

#[test]
fn matrix4_mul_associative_not_commutative() {
    // Small integer entries keep every product and sum exact, so the
    // associativity of the underlying real product carries over.
    let a = m16([
        1.0, 2.0, 0.0, -1.0, 0.0, 1.0, 3.0, 2.0, 2.0, 0.0, 1.0, 0.0, 1.0, -2.0, 0.0, 1.0,
    ]);
    let b = m16([
        0.0, 1.0, 2.0, 0.0, 1.0, 0.0, -1.0, 3.0, 2.0, 2.0, 0.0, 1.0, 0.0, -1.0, 1.0, 2.0,
    ]);
    let c = m16([
        1.0, 0.0, 1.0, -2.0, 2.0, 1.0, 0.0, 0.0, 0.0, 3.0, 1.0, 1.0, 1.0, 1.0, -1.0, 0.0,
    ]);

    assert_eq!(a.multiply(b).multiply(c), a.multiply(b.multiply(c)));
    assert_ne!(a.multiply(b), b.multiply(a));
}

#[test]
fn quaternion_zero_rotations_are_identity() {
    let (s, c) = half_angle_trig(0.0);
    let id = Matrix4::identity();

    assert_eq!(Quaternion::rotate_x(s, c), id);
    assert_eq!(Quaternion::rotate_y(s, c), id);
    assert_eq!(Quaternion::rotate_z(s, c), id);
}

#[test]
fn quaternion_rotate_x_quarter_turn() {
    let (s, c) = half_angle_trig(90.0);
    let m = Quaternion::rotate_x(s, c);

    // A quarter turn around x maps y to z and z to -y, within a few ulp.
    let e = |i: usize| f32::from_bits(m.data[i]);
    assert!((e(0) - 1.0).abs() < 1e-6);
    assert!(e(5).abs() < 1e-6);
    assert!((e(6) - -1.0).abs() < 1e-6);
    assert!((e(9) - 1.0).abs() < 1e-6);
    assert!(e(10).abs() < 1e-6);
    assert_eq!(m.data[15], b(1.0));
    assert_eq!(m.data[3], POS_ZERO);
}

#[test]
fn quaternion_identity_product() {
    let identity = Quaternion::new(v3(1.0, 0.0, 0.0), b(0.0), b(1.0));
    let (s, c) = half_angle_trig(70.0);
    let q = Quaternion::new(v3(0.0, 1.0, 0.0), s, c);
    let product = identity.multiply(q);

    assert_eq!(product.data, q.data);
}

#[test]
fn quaternion_multiply_matches_float_formula() {
    let (s1, c1) = half_angle_trig(90.0);
    let q1 = Quaternion::new(v3(1.0, 0.0, 0.0), s1, c1);
    let (s2, c2) = half_angle_trig(40.0);
    let q2 = Quaternion::new(v3(0.0, 1.0, 0.0), s2, c2);
    let p = q1.multiply(q2);
    let a: Vec<f32> = q1.data.iter().map(|x| f32::from_bits(*x)).collect();
    let bq: Vec<f32> = q2.data.iter().map(|x| f32::from_bits(*x)).collect();
    let expected: [f32; 4] = [
        a[3] * bq[0] + a[0] * bq[3] + a[1] * bq[2] - a[2] * bq[1],
        a[3] * bq[1] + a[1] * bq[3] + a[2] * bq[0] - a[0] * bq[2],
        a[3] * bq[2] + a[2] * bq[3] + a[0] * bq[1] - a[1] * bq[0],
        a[3] * bq[3] - a[0] * bq[0] - a[1] * bq[1] - a[2] * bq[2],
    ];
    for i in 0..4 {
        assert_eq!(p.data[i], expected[i].to_bits());
    }
}

#[test]
fn vector3_cross_anti_commutative() {
    let a = v3(2.5, -3.0, 4.0);
    let bb = v3(5.0, 6.5, -7.0);
    let c = bb.cross(a);
    let negated = Vector3::new(b(-f32::from_bits(c.x)), b(-f32::from_bits(c.y)), b(-f32::from_bits(c.z)));

    assert_eq!(a.cross(bb), negated);
    assert_eq!(a.cross(a), v3(0.0, 0.0, 0.0));
}

#[test]
fn matrix4_to_opengl_array_transposes() {
    let m = m16([
        1.0, 2.0, 3.0, 4.0, 5.0, 6.0, 7.0, 8.0, 9.0, 10.0, 11.0, 12.0, 13.0, 14.0, 15.0, 16.0,
    ]);
    let cols = m.to_opengl_array();

    assert_eq!(cols[0], [b(1.0), b(5.0), b(9.0), b(13.0)]);
    assert_eq!(cols[1], [b(2.0), b(6.0), b(10.0), b(14.0)]);
    assert_eq!(cols[2], [b(3.0), b(7.0), b(11.0), b(15.0)]);
    assert_eq!(cols[3], [b(4.0), b(8.0), b(12.0), b(16.0)]);
}

#[test]
fn matrix4_basis_extraction() {
    let m = m16([
        1.0, 2.0, 3.0, 4.0, 5.0, 6.0, 7.0, 8.0, 9.0, 10.0, 11.0, 12.0, 13.0, 14.0, 15.0, 16.0,
    ]);

    assert_eq!(m.get_side_vector(), v3(1.0, 5.0, 9.0));
    assert_eq!(m.get_up_vector(), v3(2.0, 6.0, 10.0));
    assert_eq!(m.get_forward_vector(), v3(3.0, 7.0, 11.0));
    assert_eq!(m.get_position(), v3(4.0, 8.0, 12.0));
}
