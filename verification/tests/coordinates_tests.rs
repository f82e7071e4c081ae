use game_math::coordinates::SphereVector;
use game_math::math::Vector3;

fn b(x: f32) -> u32 {
    x.to_bits()
}

fn cartesian(sv: &SphereVector) -> Vector3 {
    let e = f32::from_bits(sv.elevation_radians());
    let a = f32::from_bits(sv.azimuthal_radians());
    sv.to_cartesian(b(e.sin()), b(e.cos()), b(a.sin()), b(a.cos()))
}

#[test]
fn sphere_vector_clamp_elevation() {
    let clamped_max = SphereVector::new(b(100.0), b(90.0), b(10.0));
    let clamped_min = SphereVector::new(b(100.0), b(-80.0), b(10.0));
    let not_clampeda = SphereVector::new(b(100.0), b(45.0), b(10.0));

    assert_eq!(b(78.75), clamped_max.elevation);
    assert_eq!(b(-78.75), clamped_min.elevation);
    assert_eq!(b(45.0), not_clampeda.elevation);
}

#[test]
fn sphere_vector_clamp_radius() {
    let clamped_min = SphereVector::new(b(-10.0), b(45.0), b(100.0));
    let not_clampeda = SphereVector::new(b(10.0), b(45.0), b(100.0));

    assert_eq!(b(1.0), clamped_min.radius);
    assert_eq!(b(10.0), not_clampeda.radius);
}

#[test]
fn sphere_vector_to_cartesian() {
    assert_eq!(
        Vector3::new(b(1.0), b(-0.00000004371139), b(0.0)),
        cartesian(&SphereVector::new(b(1.0), b(0.0), b(0.0)))
    );

    assert_eq!(
        Vector3::new(b(-0.00000004371139), b(-0.00000004371139), b(1.0)),
        cartesian(&SphereVector::new(b(1.0), b(0.0), b(90.0)))
    );

    assert_eq!(
        Vector3::new(b(0.8660253), b(-1.0000001), b(1.5)),
        cartesian(&SphereVector::new(b(2.0), b(30.0), b(60.0)))
    );
}

#[test]
fn sphere_vector_norm_matches_radius() {
    // Whatever the angles, the Cartesian point lies on the sphere of the
    // stored radius, within float tolerance.
    let angles: [(f32, f32); 5] = [(0.0, 0.0), (45.0, 30.0), (-70.0, 200.0), (90.0, -15.0), (30.0, 60.0)];
    let radii: [f32; 3] = [1.0, 2.0, 17.5];
    for (elevation, azimuth) in angles.iter() {
        for radius in radii.iter() {
            let sv = SphereVector::new(b(*radius), b(*elevation), b(*azimuth));
            let p = cartesian(&sv);
            let x = f32::from_bits(p.x);
            let y = f32::from_bits(p.y);
            let z = f32::from_bits(p.z);
            let norm = (x * x + y * y + z * z).sqrt();
            assert!((norm - *radius).abs() < 1e-4 * radius.abs());
        }
    }
}

#[test]
fn sphere_vector_nan_inputs_fall_back() {
    let sv = SphereVector::new(b(f32::NAN), b(f32::NAN), b(3.0));

    assert_eq!(b(1.0), sv.radius);
    assert_eq!(b(-78.75), sv.elevation);
    assert_eq!(b(3.0), sv.azimuthal);
}
