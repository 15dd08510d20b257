use dreamseeker::angle::{Angle, AsAngle, HALF_TURN, TURN};

const QUARTER: i64 = 0x4000_0000;

#[test]
fn new_keeps_values_in_range() {
    assert_eq!(Angle::new(0).get(), 0);
    assert_eq!(Angle::new(QUARTER).get() as i64, QUARTER);
    assert_eq!(Angle::new(-QUARTER).get() as i64, -QUARTER);
    // pi itself wraps to -pi: the range is half open
    assert_eq!(Angle::new(HALF_TURN as i64).get() as i64, -(HALF_TURN as i64));
    assert_eq!(Angle::new(-(HALF_TURN as i64)).get() as i64, -(HALF_TURN as i64));
}

#[test]
fn new_is_periodic_in_whole_turns() {
    let x: i64 = 123_456_789;
    for k in -5i64..=5 {
        assert_eq!(Angle::new(x + k * TURN as i64).get(), Angle::new(x).get());
    }
    assert_eq!(Angle::new(3 * TURN as i64 + QUARTER).get() as i64, QUARTER);
    assert_eq!(Angle::new(-7 * TURN as i64 - QUARTER).get() as i64, -QUARTER);
}

#[test]
fn add_and_sub_wrap() {
    let a = Angle::new(3 * QUARTER / 2);
    let b = Angle::new(QUARTER);
    // 135 + 90 degrees is 225, that is -135
    assert_eq!(a.add(b).get() as i64, -3 * QUARTER / 2);
    // -135 - 90 degrees is -225, that is 135
    assert_eq!(Angle::new(-3 * QUARTER / 2).sub(b).get() as i64, 3 * QUARTER / 2);
    assert_eq!(b.sub(b).get(), 0);
}

#[test]
fn diff_is_shortest_signed_turn() {
    let a = Angle::new(3 * QUARTER / 2);
    let b = Angle::new(-3 * QUARTER / 2);
    // from -135 to 135 degrees the short way is -90
    assert_eq!(a.diff(b), -QUARTER);
    assert_eq!(b.diff(a), QUARTER);
    assert_eq!(a.diff(a), 0);
    assert_eq!(Angle::new(HALF_TURN as i64 - 1).diff(Angle::new(0)), HALF_TURN as i64 - 1);
    let d = Angle::new(HALF_TURN as i64 - 1).diff(Angle::new(-1));
    assert!(d >= -(HALF_TURN as i64) && d < HALF_TURN as i64);
    assert_eq!(d, -(HALF_TURN as i64));
}

#[test]
fn as_angle_wraps_units() {
    assert_eq!((TURN as i64 + 5).as_angle().get(), 5);
}
