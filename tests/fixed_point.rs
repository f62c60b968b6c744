use orbit_camera::fixed::{div_toward_zero, isqrt, Rotor, Vec3, ONE, WORLD_LIMIT};

#[test]
fn division_rounds_toward_zero() {
    assert_eq!(div_toward_zero(7, 2), 3);
    assert_eq!(div_toward_zero(-7, 2), -3);
    assert_eq!(div_toward_zero(-8, 2), -4);
    assert_eq!(div_toward_zero(0, 5), 0);
}

#[test]
fn square_roots_round_down() {
    assert_eq!(isqrt(0), 0);
    assert_eq!(isqrt(1), 1);
    assert_eq!(isqrt(15), 3);
    assert_eq!(isqrt(16), 4);
    assert_eq!(isqrt(u128::MAX), u64::MAX);
}

#[test]
fn identity_rotor_leaves_rotations_alone() {
    let quarter = Rotor { cos: 0, sin: ONE };
    assert_eq!(quarter.compose(&Rotor::identity()), quarter);
    assert_eq!(Rotor::identity().compose(&quarter), quarter);
}

#[test]
fn quarter_turns_add_up() {
    let quarter = Rotor { cos: 0, sin: ONE };
    let half = quarter.compose(&quarter);
    assert_eq!(half, Rotor { cos: -ONE, sin: 0 });
    let three_quarters = half.compose(&quarter);
    assert_eq!(three_quarters, Rotor { cos: 0, sin: -ONE });
}

#[test]
fn composition_rounds_toward_zero() {
    let a = Rotor { cos: -3, sin: 1 };
    let b = Rotor { cos: ONE / 2 - 1, sin: ONE / 2 };
    // Both sums fall just short of -2 * ONE and -ONE: rounding goes up to -1.
    assert_eq!(a.compose(&b), Rotor { cos: -1, sin: -1 });
}

#[test]
fn rotor_validity() {
    assert!(Rotor::identity().is_valid());
    assert!(Rotor { cos: ONE / 2, sin: -ONE / 2 }.is_valid());
    assert!(!Rotor { cos: ONE, sin: 1 }.is_valid());
    assert!(!Rotor { cos: i64::MIN, sin: i64::MIN }.is_valid());
}

#[test]
fn world_bounds() {
    assert!(Vec3::new(WORLD_LIMIT, -WORLD_LIMIT, 0).is_in_world());
    assert!(!Vec3::new(0, WORLD_LIMIT + 1, 0).is_in_world());
    let v = Vec3::new(1, 2, 3);
    assert_eq!((v.x, v.y, v.z), (1, 2, 3));
}
