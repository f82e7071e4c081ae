use game_math::float32::add_bits;
use game_math::float32::div_bits;
use game_math::float32::max_bits;
use game_math::float32::min_bits;
use game_math::float32::mul_bits;
use game_math::float32::negate_bits;
use game_math::float32::sqrt_bits;
use game_math::float32::sub_bits;

const SAMPLES: [f32; 14] = [
    0.0,
    -0.0,
    1.0,
    -1.0,
    0.5,
    2.0,
    3.1415927,
    -78.75,
    1.0e-38,
    -2.5e-40,
    3.0e38,
    -3.0e38,
    1.1754944e-38,
    123456.78,
];

#[test]
fn addition_matches_hardware() {
    for a in SAMPLES.iter() {
        for b in SAMPLES.iter() {
            assert_eq!(
                add_bits(a.to_bits(), b.to_bits()),
                (a + b).to_bits(),
                "{} + {}",
                a,
                b
            );
        }
    }
}

#[test]
fn subtraction_matches_hardware() {
    for a in SAMPLES.iter() {
        for b in SAMPLES.iter() {
            assert_eq!(
                sub_bits(a.to_bits(), b.to_bits()),
                (a - b).to_bits(),
                "{} - {}",
                a,
                b
            );
        }
    }
}

#[test]
fn multiplication_matches_hardware() {
    for a in SAMPLES.iter() {
        for b in SAMPLES.iter() {
            assert_eq!(
                mul_bits(a.to_bits(), b.to_bits()),
                (a * b).to_bits(),
                "{} * {}",
                a,
                b
            );
        }
    }
}

#[test]
fn division_matches_hardware() {
    for a in SAMPLES.iter() {
        for b in SAMPLES.iter() {
            if *b != 0.0 {
                assert_eq!(
                    div_bits(a.to_bits(), b.to_bits()),
                    (a / b).to_bits(),
                    "{} / {}",
                    a,
                    b
                );
            }
        }
    }
}

#[test]
fn sqrt_matches_hardware() {
    let values: [f32; 12] = [
        0.25,
        1.0,
        2.0,
        3.0,
        14.0,
        0.1,
        1.0e-40,
        1.1754944e-38,
        3.0e38,
        6.25e-2,
        123456.78,
        1.9999999,
    ];
    for x in values.iter() {
        assert_eq!(sqrt_bits(x.to_bits()), x.sqrt().to_bits(), "sqrt {}", x);
    }
}

#[test]
fn sqrt_special_cases() {
    assert_eq!(sqrt_bits(0.0f32.to_bits()), 0.0f32.to_bits());
    assert_eq!(sqrt_bits((-0.0f32).to_bits()), (-0.0f32).to_bits());
    assert_eq!(sqrt_bits(f32::INFINITY.to_bits()), f32::INFINITY.to_bits());
    assert!(f32::from_bits(sqrt_bits((-4.0f32).to_bits())).is_nan());
    assert!(f32::from_bits(sqrt_bits(f32::NAN.to_bits())).is_nan());
}

#[test]
fn negation_flips_the_sign() {
    for a in SAMPLES.iter() {
        assert_eq!(negate_bits(a.to_bits()), (-a).to_bits(), "-{}", a);
    }
}

#[test]
fn min_max_match_hardware() {
    for a in SAMPLES.iter() {
        for b in SAMPLES.iter() {
            assert_eq!(
                f32::from_bits(max_bits(a.to_bits(), b.to_bits())),
                a.max(*b),
                "max {} {}",
                a,
                b
            );
            assert_eq!(
                f32::from_bits(min_bits(a.to_bits(), b.to_bits())),
                a.min(*b),
                "min {} {}",
                a,
                b
            );
        }
    }
}

#[test]
fn min_max_ignore_nan() {
    assert_eq!(max_bits(f32::NAN.to_bits(), 2.0f32.to_bits()), 2.0f32.to_bits());
    assert_eq!(max_bits(2.0f32.to_bits(), f32::NAN.to_bits()), 2.0f32.to_bits());
    assert_eq!(min_bits(f32::NAN.to_bits(), 2.0f32.to_bits()), 2.0f32.to_bits());
    assert_eq!(min_bits(2.0f32.to_bits(), f32::NAN.to_bits()), 2.0f32.to_bits());
    assert!(f32::from_bits(max_bits(f32::NAN.to_bits(), f32::NAN.to_bits())).is_nan());
}
