use orbit_grid::geom::Quat;
use orbit_grid::trig::{cos_fixed, sin_fixed, HALF_PI_FX, PI_FX, TWO_PI_FX};

#[test]
fn sine_anchors() {
    assert_eq!(sin_fixed(0), 0);
    assert_eq!(sin_fixed(HALF_PI_FX), 999_844);
    assert_eq!(sin_fixed(-HALF_PI_FX), -999_844);
    assert_eq!(sin_fixed(PI_FX), 0);
    assert_eq!(sin_fixed(1_000_000), 841_469);
}

#[test]
fn cosine_anchors() {
    assert_eq!(cos_fixed(0), 1_000_000);
    assert_eq!(cos_fixed(PI_FX), -1_000_000);
    assert_eq!(cos_fixed(1_000_000), 540_278);
}

#[test]
fn sine_repeats_each_turn() {
    let a = 7_000_000;
    assert_eq!(sin_fixed(a), sin_fixed(a - TWO_PI_FX));
    assert_eq!(sin_fixed(a), sin_fixed(a + TWO_PI_FX));
    assert_eq!(sin_fixed(a), 656_987);
}

#[test]
fn zero_rotation_is_the_identity() {
    let q = Quat::from_rotation_y(0);
    assert_eq!(q, Quat { x: 0, y: 0, z: 0, w: 1_000_000 });
    let p = Quat::from_rotation_x(0);
    assert_eq!(p, Quat { x: 0, y: 0, z: 0, w: 1_000_000 });
}

#[test]
fn axis_rotations_use_half_angles() {
    let q = Quat::from_rotation_y(PI_FX);
    // half angle pi/2: sine near one, cosine near zero
    assert_eq!(q.y, 999_844);
    assert_eq!((q.x, q.z), (0, 0));
    let p = Quat::from_rotation_x(PI_FX);
    assert_eq!(p.x, 999_844);
}
