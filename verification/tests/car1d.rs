use brain::car1d::Car1D;
use brain::tables::{linear_interpolate, SpeedCurve, Tables};

/// One sixtieth of a second, in microseconds.
const DT: u32 = 16_667;

/// Smooth curves sampled every millisecond: coasting sheds 720 units of
/// speed a second from top speed down to rest; throttle and boost approach
/// their top speeds of 1410 and 2300.
fn tables() -> Tables {
    let mut time = Vec::new();
    let mut speed = Vec::new();
    for k in 0..3196i64 {
        time.push(k * 1_000);
        speed.push((2_299_980 - 720 * k).max(0));
    }
    let coast = SpeedCurve::new(time, speed, false).unwrap();
    let approach = |top: f64| {
        let mut time = Vec::new();
        let mut speed = Vec::new();
        for k in 0..8000i64 {
            let t = k as f64 / 1000.0;
            time.push(k * 1_000);
            speed.push((top * (1.0 - (-t / 0.9).exp()) * 1000.0) as i64);
        }
        SpeedCurve::new(time, speed, true).unwrap()
    };
    Tables::new(coast, approach(1410.0), approach(2300.0)).unwrap()
}

#[test]
fn rest_throttle() {
    let tables = tables();
    let mut car = Car1D::new(0);
    car.step(&tables, DT, 1000, false);
    assert!(1_000 <= car.speed() && car.speed() < 50_000);
    assert_eq!(car.boost(), 100_000);
}

#[test]
fn supersonic_throttle() {
    let tables = tables();
    let mut car = Car1D::new(9_999_000);
    car.step(&tables, DT, 1000, false);
    assert_eq!(car.speed(), 9_999_000);
    assert_eq!(car.boost(), 100_000);
}

#[test]
fn rest_boost() {
    let tables = tables();
    let mut car = Car1D::new(0);
    car.step(&tables, DT, 1000, true);
    assert!(1_000 <= car.speed() && car.speed() < 50_000);
    assert!(99_400 <= car.boost() && car.boost() < 99_500);
}

#[test]
fn supersonic_boost() {
    let tables = tables();
    let mut car = Car1D::new(9_999_000);
    car.step(&tables, DT, 1000, true);
    assert_eq!(car.speed(), 9_999_000);
    assert!(99_400 <= car.boost() && car.boost() < 99_500);
}

#[test]
fn rest_coast() {
    let tables = tables();
    let mut car = Car1D::new(0);
    for _ in 0..100 {
        car.step(&tables, DT, 0, false);
    }
    assert!(car.speed() < 1_000);
    assert_eq!(car.boost(), 100_000);
}

#[test]
fn slow_coast() {
    let tables = tables();
    let mut car = Car1D::new(100_000);
    car.step(&tables, DT, 0, false);
    assert!(85_000 <= car.speed() && car.speed() < 95_000);
}

#[test]
fn supersonic_coast() {
    let tables = tables();
    let mut car = Car1D::new(9_999_000);
    car.step(&tables, DT, 0, false);
    assert!(2_200_000 <= car.speed() && car.speed() < 2_290_000);
}

#[test]
fn step_rev() {
    let tables = tables();
    let mut car = Car1D::new(1_000_000);
    car.step_rev(&tables, DT, 1000, true);
    assert!(960_000 <= car.speed() && car.speed() < 980_000);
    assert!(99_400 <= car.boost() && car.boost() < 99_500);
}

#[test]
fn coast_rev() {
    let tables = tables();
    let mut car = Car1D::new(1_000_000);
    car.step_rev(&tables, DT, 0, false);
    assert!(1_005_000 <= car.speed() && car.speed() < 1_015_000);
    assert_eq!(car.boost(), 100_000);
}

#[test]
fn lookup_takes_the_last_sample_not_above_the_query() {
    let xs = [10, 20, 20, 30];
    let ys = [1, 2, 3, 4];
    assert_eq!(linear_interpolate(&xs, &ys, 5), 1);
    assert_eq!(linear_interpolate(&xs, &ys, 10), 1);
    assert_eq!(linear_interpolate(&xs, &ys, 19), 1);
    assert_eq!(linear_interpolate(&xs, &ys, 20), 3);
    assert_eq!(linear_interpolate(&xs, &ys, 29), 3);
    assert_eq!(linear_interpolate(&xs, &ys, 30), 4);
    assert_eq!(linear_interpolate(&xs, &ys, 1_000), 4);
    assert_eq!(linear_interpolate(&[], &ys, 7), 1);
}

#[test]
fn new_car_is_at_rest_in_time_and_space() {
    let car = Car1D::new(1_234);
    assert_eq!(car.time(), 0);
    assert_eq!(car.distance_traveled(), 0);
    assert_eq!(car.speed(), 1_234);
    assert_eq!(car.boost(), 100_000);
    let car = car.with_boost(33);
    assert_eq!(car.boost(), 33_000);
    assert_eq!(car.speed(), 1_234);
}

#[test]
fn step_moves_at_the_speed_before_it() {
    let tables = tables();
    let mut car = Car1D::new(600_000);
    car.step(&tables, DT, 1000, false);
    assert_eq!(car.time(), 16_667);
    // 600 * 16667 / 1000000, rounded down.
    assert_eq!(car.distance_traveled(), 10_000_200 / 1_000);
    let after_one = car.speed();
    assert!(after_one > 600_000);
    car.step(&tables, DT, 1000, false);
    assert_eq!(car.time(), 33_334);
    assert_eq!(car.distance_traveled(), 10_000 + after_one * 16_667 / 1_000_000);
}

#[test]
fn step_rev_moves_at_the_speed_after_it() {
    let tables = tables();
    let mut car = Car1D::new(600_000);
    car.step_rev(&tables, DT, 1000, false);
    assert_eq!(car.time(), 16_667);
    assert!(car.speed() < 600_000);
    assert_eq!(car.distance_traveled(), car.speed() * 16_667 / 1_000_000);
}

#[test]
fn boost_burns_a_third_of_a_tank_a_second() {
    let tables = tables();
    let mut car = Car1D::new(0);
    car.step(&tables, 1_000_000, 1000, true);
    assert_eq!(car.boost(), 100_000 - 33_333);
    car.step(&tables, 30, 1000, true);
    assert_eq!(car.boost(), 100_000 - 33_333 - 1);
    car.step(&tables, 29, 1000, true);
    assert_eq!(car.boost(), 100_000 - 33_333 - 1);
}

#[test]
fn empty_tank_turns_boost_into_throttle() {
    let tables = tables();
    let mut boosting = Car1D::new(0).with_boost(0);
    let mut driving = Car1D::new(0).with_boost(0);
    boosting.step(&tables, DT, 1000, true);
    driving.step(&tables, DT, 1000, false);
    assert_eq!(boosting.speed(), driving.speed());
    assert_eq!(boosting.boost(), 0);
    // The last of the boost is burnt in full, and below zero.
    let mut car = Car1D::new(0).with_boost(1);
    car.step(&tables, 60_000, 1000, true);
    assert_eq!(car.boost(), 1_000 - 2_000);
    let slow = car.speed();
    assert!(slow > driving.speed());
    // Without boost, coasting is allowed even where boost is asked for.
    assert!(car.supports(0, true));
    car.step(&tables, DT, 0, true);
    assert_eq!(car.boost(), -1_000);
}

#[test]
fn unsupported_inputs() {
    let car = Car1D::new(0);
    assert!(car.supports(1000, false));
    assert!(car.supports(1000, true));
    assert!(car.supports(0, false));
    assert!(!car.supports(0, true));
    assert!(!car.supports(500, false));
    assert!(!car.supports(-1000, false));
    assert!(car.with_boost(0).supports(0, true));
}

#[test]
fn room_for_a_step() {
    assert!(Car1D::new(0).has_room(u32::MAX));
    assert!(Car1D::new(2_300_000).has_room(DT));
    assert!(Car1D::new(i64::MAX).has_room(1_000_000));
    assert!(!Car1D::new(i64::MAX).has_room(1_000_001));
    assert!(!Car1D::new(i64::MIN + 1).has_room(1_000_001));
    assert!(Car1D::new(i64::MAX).has_room(0));
}

#[test]
fn coasting_slows_down_to_rest_and_no_further() {
    let tables = tables();
    let mut car = Car1D::new(500_000);
    let mut before = car.speed();
    for _ in 0..200 {
        car.step(&tables, DT, 0, false);
        assert!(0 <= car.speed() && car.speed() <= before);
        assert_eq!(car.boost(), 100_000);
        before = car.speed();
    }
    assert_eq!(car.speed(), 0);
    assert_eq!(car.time(), 200 * 16_667);
}

#[test]
fn saturated_throttle_keeps_the_speed() {
    let tables = tables();
    for speed in [1_410_000, 1_410_001, 2_000_000, 9_999_000] {
        let mut car = Car1D::new(speed);
        car.step(&tables, DT, 1000, false);
        assert_eq!(car.speed(), speed);
        assert_eq!(car.boost(), 100_000);
        car.step(&tables, DT, 1000, true);
        assert_eq!(car.speed(), speed);
        assert_eq!(car.boost(), 100_000 - 555);
    }
    // Just below the top speed of the throttle, the curve decides.
    let mut car = Car1D::new(1_409_999);
    car.step(&tables, DT, 1000, true);
    assert!(car.speed() > 1_409_999);
}

/// A step forward and a step back under the same inputs do not undo each
/// other: the speed comes back to within a step's worth, but time and
/// distance count up twice and boost is spent twice.
#[test]
fn forward_and_back_is_not_a_round_trip() {
    let tables = tables();
    let mut car = Car1D::new(1_000_000);
    car.step(&tables, DT, 1000, true);
    let fast = car.speed();
    assert!(fast > 1_000_000);
    car.step_rev(&tables, DT, 1000, true);
    assert!((car.speed() - 1_000_000).abs() < 5_000);
    assert!(car.speed() < fast);
    assert_eq!(car.time(), 2 * 16_667);
    assert_eq!(car.boost(), 100_000 - 2 * 555);
    assert_eq!(car.distance_traveled(), 16_667 + car.speed() * 16_667 / 1_000_000);
}
