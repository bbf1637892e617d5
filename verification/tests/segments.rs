use brain::behavior::movement::get_to_flat_ground::GetToFlatGround;
use brain::routing::models::{CarState, CarState2D, SegmentRunAction};
use brain::routing::segments::jump_and_dodge::{JumpAndDodge, JumpAndDodgeRunner};
use brain::routing::segments::simple_arc::{SimpleArc, SimpleArcError, SimpleArcRunner};
use brain::strategy::behavior::PlayerInput;
use brain::strategy::context::{Context, PlayerInfo};
use brain::vector::{Point2, Point3, Rotation2, Rotation3, Vector2, Vector3};

const QUARTER_TURN: i64 = 1_570_796;
const FULL_TURN: i64 = 6_283_185;

fn origin() -> Point2 {
    Point2 { x: 0, y: 0 }
}

/// The arc of a quarter turn, counter-clockwise, round the origin at radius
/// 1000 and speed 500.
fn quarter_arc() -> SimpleArc {
    SimpleArc::new(
        origin(),
        1_000_000,
        Point2 { x: 1_000_000, y: 0 },
        Vector2 { x: 0, y: 500_000 },
        0,
        Point2 { x: 0, y: 1_000_000 },
        QUARTER_TURN,
    )
    .ok()
    .unwrap()
}

fn car(loc: Point2, heading: Rotation2, on_ground: bool, pitch: i64, roll: i64) -> Context {
    Context {
        time: 0,
        me: PlayerInfo {
            loc: Point3 { x: loc.x, y: loc.y, z: 17_010 },
            rot: Rotation3 { heading, pitch, roll },
            vel: Vector3 { x: 0, y: 0, z: 0 },
            boost: 0,
            on_ground,
        },
    }
}

fn level_car() -> Context {
    car(Point2 { x: 1_000_000, y: 0 }, Rotation2 { cos: 0, sin: 1_000_000 }, true, 0, 0)
}

#[test]
fn arc_refuses_a_slow_start() {
    let arc = SimpleArc::new(
        origin(),
        1_000_000,
        Point2 { x: 1_000_000, y: 0 },
        Vector2 { x: 0, y: 99_999 },
        0,
        Point2 { x: 0, y: 1_000_000 },
        QUARTER_TURN,
    );
    assert_eq!(arc.err(), Some(SimpleArcError::VelocityTooLow));
    // Too slow and off the circle: the speed is looked at first.
    let arc = SimpleArc::new(
        origin(),
        1_000_000,
        Point2 { x: 1_000_000, y: 0 },
        Vector2 { x: 60_000, y: 79_999 },
        0,
        Point2 { x: 0, y: 5_000_000 },
        QUARTER_TURN,
    );
    assert_eq!(arc.err(), Some(SimpleArcError::VelocityTooLow));
    // Exactly fast enough.
    let arc = SimpleArc::new(
        origin(),
        1_000_000,
        Point2 { x: 1_000_000, y: 0 },
        Vector2 { x: 60_000, y: 80_000 },
        0,
        Point2 { x: 0, y: 1_000_000 },
        QUARTER_TURN,
    );
    assert!(arc.is_ok());
}

#[test]
fn arc_refuses_two_points_off_one_circle() {
    for end_y in [1_001_000, 999_000, -1_001_000, 2_000_000, 0] {
        let arc = SimpleArc::new(
            origin(),
            1_000_000,
            Point2 { x: 1_000_000, y: 0 },
            Vector2 { x: 0, y: 500_000 },
            0,
            Point2 { x: 0, y: end_y },
            QUARTER_TURN,
        );
        assert_eq!(arc.err(), Some(SimpleArcError::WrongGeometry));
    }
    for end_y in [1_000_999, 999_001, -1_000_999] {
        let arc = SimpleArc::new(
            origin(),
            1_000_000,
            Point2 { x: 1_000_000, y: 0 },
            Vector2 { x: 0, y: 500_000 },
            0,
            Point2 { x: 0, y: end_y },
            QUARTER_TURN * end_y.signum(),
        );
        assert!(arc.is_ok());
    }
}

#[test]
fn arc_refuses_an_angle_that_is_not_that_of_its_points() {
    let plan = |end: Point2, raw| {
        SimpleArc::new(origin(), 1_000_000, Point2 { x: 1_000_000, y: 0 }, Vector2 { x: 0, y: 500_000 }, 0, end, raw)
    };
    let top = Point2 { x: 0, y: 1_000_000 };
    let bottom = Point2 { x: 0, y: -1_000_000 };
    let ahead = Point2 { x: 600_000, y: 800_000 };
    let behind = Point2 { x: -600_000, y: 800_000 };
    // The end lies to the left of the start: the angle is to the left.
    assert!(plan(top, QUARTER_TURN).is_ok());
    assert!(plan(top, 0).is_ok());
    assert_eq!(plan(top, -1).err(), Some(SimpleArcError::WrongGeometry));
    assert_eq!(plan(top, -QUARTER_TURN).err(), Some(SimpleArcError::WrongGeometry));
    assert!(plan(bottom, -QUARTER_TURN).is_ok());
    assert_eq!(plan(bottom, 1).err(), Some(SimpleArcError::WrongGeometry));
    // The end lies less than a quarter of a turn from the start.
    assert!(plan(ahead, 927_295).is_ok());
    assert!(plan(ahead, QUARTER_TURN + 1).is_ok());
    assert_eq!(plan(ahead, QUARTER_TURN + 2).err(), Some(SimpleArcError::WrongGeometry));
    assert_eq!(plan(ahead, 3_000_000).err(), Some(SimpleArcError::WrongGeometry));
    // The end lies more than a quarter of a turn from the start.
    assert!(plan(behind, 2_214_297).is_ok());
    assert!(plan(behind, QUARTER_TURN).is_ok());
    assert_eq!(plan(behind, QUARTER_TURN - 1).err(), Some(SimpleArcError::WrongGeometry));
    assert_eq!(plan(behind, 0).err(), Some(SimpleArcError::WrongGeometry));
    // Straight across: half a turn, either way round.
    let across = Point2 { x: -1_000_000, y: 0 };
    assert!(plan(across, 3_141_592).is_ok());
    assert!(plan(across, -3_141_592).is_ok());
    assert_eq!(plan(across, 1_000_000).err(), Some(SimpleArcError::WrongGeometry));
    // A slow start is refused before the angle is looked at.
    let slow = SimpleArc::new(origin(), 1_000_000, Point2 { x: 1_000_000, y: 0 }, Vector2 { x: 0, y: 1 }, 0, top, -1);
    assert_eq!(slow.err(), Some(SimpleArcError::VelocityTooLow));
}

#[test]
fn arc_error_names() {
    assert_eq!(SimpleArcError::VelocityTooLow.to_str(), "SimpleArcError::VelocityTooLow");
    assert_eq!(SimpleArcError::WrongGeometry.to_str(), "SimpleArcError::WrongGeometry");
}

#[test]
fn arc_sweeps_the_way_the_car_goes() {
    let start = Point2 { x: 1_000_000, y: 0 };
    let up = Vector2 { x: 0, y: 500_000 };
    let down = Vector2 { x: 0, y: -500_000 };
    let top = Point2 { x: 0, y: 1_000_000 };
    let bottom = Point2 { x: 0, y: -1_000_000 };
    let sweep = |vel, end, raw| SimpleArc::new(origin(), 1_000_000, start, vel, 0, end, raw).ok().unwrap().sweep();
    // Counter-clockwise to the top: the short way.
    assert_eq!(sweep(up, top, QUARTER_TURN), QUARTER_TURN);
    // Counter-clockwise to the bottom: the long way round.
    assert_eq!(sweep(up, bottom, -QUARTER_TURN), -QUARTER_TURN + FULL_TURN);
    // Clockwise to the bottom: the short way.
    assert_eq!(sweep(down, bottom, -QUARTER_TURN), -QUARTER_TURN);
    // Clockwise to the top: the long way round.
    assert_eq!(sweep(down, top, QUARTER_TURN), QUARTER_TURN - FULL_TURN);
    // To where the car already is: nothing one way, a full turn the other.
    assert_eq!(sweep(up, start, 0), 0);
    assert_eq!(sweep(down, start, 0), -FULL_TURN);
    // A velocity along the radius counts as clockwise.
    assert_eq!(sweep(Vector2 { x: 500_000, y: 0 }, top, QUARTER_TURN), QUARTER_TURN - FULL_TURN);
}

#[test]
fn arc_of_a_quarter_turn() {
    let arc = quarter_arc();
    assert_eq!(arc.name(), "SimpleArc");
    assert_eq!(arc.sweep(), QUARTER_TURN);
    assert_eq!(arc.center(), origin());
    assert_eq!(arc.start_loc(), Point2 { x: 1_000_000, y: 0 });
    // 1000 * (pi / 2) / 500 seconds.
    assert_eq!(arc.duration(), 3_141_592);
    assert_eq!(
        arc.start(),
        CarState {
            loc: Point3 { x: 1_000_000, y: 0, z: 17_010 },
            rot: Rotation3 { heading: Rotation2 { cos: 0, sin: 1_000_000 }, pitch: 0, roll: 0 },
            vel: Vector3 { x: 0, y: 500_000, z: 0 },
            boost: 0,
        }
    );
    assert_eq!(
        arc.end(),
        CarState {
            loc: Point3 { x: 0, y: 1_000_000, z: 17_010 },
            rot: Rotation3 { heading: Rotation2 { cos: -1_000_000, sin: 0 }, pitch: 0, roll: 0 },
            vel: Vector3 { x: -500_000, y: 0, z: 0 },
            boost: 0,
        }
    );
}

#[test]
fn arc_duration_follows_radius_angle_and_speed() {
    let arc = SimpleArc::new(
        Point2 { x: 500_000, y: -250_000 },
        2_000_000,
        Point2 { x: 2_500_000, y: -250_000 },
        Vector2 { x: 0, y: -1_200_000 },
        42_000,
        Point2 { x: 500_000, y: 1_750_000 },
        QUARTER_TURN,
    )
    .ok()
    .unwrap();
    // Clockwise, so three quarters of a turn.
    assert_eq!(arc.sweep(), QUARTER_TURN - FULL_TURN);
    assert_eq!(arc.duration(), 2_000_000 * 4_712_389 / 1_200_000);
    assert_eq!(arc.start().boost, 42_000);
    assert_eq!(arc.end().boost, 42_000);
    assert_eq!(arc.end().loc, Point3 { x: 500_000, y: 1_750_000, z: 17_010 });
    assert_eq!(arc.end().vel, Vector3 { x: 1_200_000, y: 0, z: 0 });
}

#[test]
fn arc_counts_the_angle_swept_its_own_way() {
    let arc = quarter_arc();
    assert_eq!(arc.sweep_between(0), 0);
    assert_eq!(arc.sweep_between(1_000_000), 1_000_000);
    assert_eq!(arc.sweep_between(-1_000_000), -1_000_000 + FULL_TURN);
    let clockwise = SimpleArc::new(
        origin(),
        1_000_000,
        Point2 { x: 1_000_000, y: 0 },
        Vector2 { x: 0, y: -500_000 },
        0,
        Point2 { x: 0, y: -1_000_000 },
        -QUARTER_TURN,
    )
    .ok()
    .unwrap();
    assert_eq!(clockwise.sweep_between(0), 0);
    assert_eq!(clockwise.sweep_between(-1_000_000), -1_000_000);
    assert_eq!(clockwise.sweep_between(1_000_000), 1_000_000 - FULL_TURN);
}

#[test]
fn arc_runner_aims_fifteen_degrees_ahead() {
    let runner = quarter_arc().run();
    assert_eq!(runner.name(), "SimpleArcRunner");
    assert_eq!(runner.calculate_ahead_loc(Point2 { x: 1_000_000, y: 0 }), Point2 { x: 965_926, y: 258_819 });
    // From off the circle, the point ahead is still on it.
    assert_eq!(runner.calculate_ahead_loc(Point2 { x: 3_000_000, y: 0 }), Point2 { x: 965_926, y: 258_819 });
    assert_eq!(runner.calculate_ahead_loc(origin()), origin());
    let clockwise = SimpleArcRunner::new(
        SimpleArc::new(
            origin(),
            1_000_000,
            Point2 { x: 1_000_000, y: 0 },
            Vector2 { x: 0, y: -500_000 },
            0,
            Point2 { x: 0, y: -1_000_000 },
            -QUARTER_TURN,
        )
        .ok()
        .unwrap(),
    );
    assert_eq!(clockwise.calculate_ahead_loc(Point2 { x: 1_000_000, y: 0 }), Point2 { x: 965_926, y: -258_819 });
}

#[test]
fn arc_runner_steers_in_proportion() {
    let mut runner = quarter_arc().run();
    let steer = |runner: &mut SimpleArcRunner, aim| match runner.execute(&level_car(), 100_000, aim) {
        SegmentRunAction::Yield(input) => {
            assert_eq!(input, PlayerInput { throttle: 1000, steer: input.steer, ..PlayerInput::default() });
            input.steer
        }
        other => panic!("{:?}", other),
    };
    assert_eq!(steer(&mut runner, 0), 0);
    assert_eq!(steer(&mut runner, 130_900), 130);
    assert_eq!(steer(&mut runner, -130_900), -130);
    assert_eq!(steer(&mut runner, 999_999), 999);
    assert_eq!(steer(&mut runner, 1_000_000), 1000);
    assert_eq!(steer(&mut runner, 3_000_000), 1000);
    assert_eq!(steer(&mut runner, -3_000_000), -1000);
    assert_eq!(steer(&mut runner, i64::MAX), 1000);
    assert_eq!(steer(&mut runner, i64::MIN), -1000);
}

#[test]
fn arc_runner_fails_off_level_ground() {
    let mut runner = quarter_arc().run();
    let loc = Point2 { x: 1_000_000, y: 0 };
    let heading = Rotation2 { cos: 0, sin: 1_000_000 };
    assert_eq!(runner.execute(&car(loc, heading, false, 0, 0), 100_000, 0), SegmentRunAction::Failure);
    assert_eq!(runner.execute(&car(loc, heading, true, 261_799, 0), 100_000, 0), SegmentRunAction::Failure);
    assert_eq!(runner.execute(&car(loc, heading, true, 0, -261_799), 100_000, 0), SegmentRunAction::Failure);
    // Off the ground wins over having arrived.
    assert_eq!(runner.execute(&car(loc, heading, false, 0, 0), QUARTER_TURN, 0), SegmentRunAction::Failure);
    assert!(matches!(
        runner.execute(&car(loc, heading, true, 261_798, -261_798), 100_000, 0),
        SegmentRunAction::Yield(_)
    ));
}

#[test]
fn arc_runner_succeeds_once_the_angle_is_swept() {
    let mut runner = quarter_arc().run();
    assert!(matches!(runner.execute(&level_car(), QUARTER_TURN - 1, 0), SegmentRunAction::Yield(_)));
    assert_eq!(runner.execute(&level_car(), QUARTER_TURN, 0), SegmentRunAction::Success);
    assert_eq!(runner.execute(&level_car(), 3_000_000, 0), SegmentRunAction::Success);
    // A car behind the start counts as nearly a full turn ahead.
    assert_eq!(runner.execute(&level_car(), -1, 0), SegmentRunAction::Success);
}

/// A car that keeps to the circle at radius 1000 and a heading along the
/// tangent is steered within the axis's range on every tick, and arrives
/// exactly when a quarter turn is swept.
#[test]
fn arc_end_to_end() {
    let arc = quarter_arc();
    assert_eq!(arc.duration(), 3_141_592);
    let mut runner = arc.run();
    let mut ticks = 0;
    loop {
        // Speed 500 on radius 1000 is half a radian a second; 120 ticks a
        // second.
        let angle = 0.5 * ticks as f64 / 120.0;
        let loc = Point2 { x: (1e6 * angle.cos()) as i64, y: (1e6 * angle.sin()) as i64 };
        let forward = (-angle.sin(), angle.cos());
        let heading = Rotation2 { cos: (1e6 * forward.0) as i64, sin: (1e6 * forward.1) as i64 };
        let ahead = runner.calculate_ahead_loc(loc);
        let to_ahead = ((ahead.x - loc.x) as f64, (ahead.y - loc.y) as f64);
        let aim = (forward.0 * to_ahead.1 - forward.1 * to_ahead.0)
            .atan2(forward.0 * to_ahead.0 + forward.1 * to_ahead.1);
        let action = runner.execute(&car(loc, heading, true, 0, 0), (angle * 1e6) as i64, (aim * 1e6) as i64);
        if angle * 1e6 >= QUARTER_TURN as f64 {
            assert_eq!(action, SegmentRunAction::Success);
            break;
        }
        match action {
            SegmentRunAction::Yield(input) => {
                assert!(-1000 <= input.steer && input.steer <= 1000);
                // Half of fifteen degrees to the left, give or take.
                assert!(125 <= input.steer && input.steer <= 135, "{}", input.steer);
                assert_eq!(input.throttle, 1000);
            }
            other => panic!("{:?} at tick {}", other, ticks),
        }
        ticks += 1;
    }
    // A quarter turn at half a radian a second takes 3.14 seconds.
    assert_eq!(ticks, 377);
}

#[test]
fn flat_ground() {
    let on = |on_ground, pitch, roll| {
        GetToFlatGround::on_flat_ground(&car(origin(), Rotation2::identity(), on_ground, pitch, roll).me)
    };
    assert!(on(true, 0, 0));
    assert!(!on(false, 0, 0));
    assert!(on(true, 261_798, 261_798));
    assert!(on(true, -261_798, -261_798));
    assert!(!on(true, 261_799, 0));
    assert!(!on(true, -261_799, 0));
    assert!(!on(true, 0, 261_799));
    assert!(!on(true, 0, -261_799));
}

fn dodge_start() -> CarState {
    CarState {
        loc: Point3 { x: 0, y: 0, z: 17_010 },
        rot: Rotation3 { heading: Rotation2 { cos: 1_000_000, sin: 0 }, pitch: 0, roll: 0 },
        vel: Vector3 { x: 1_000_000, y: 0, z: 0 },
        boost: 50_000,
    }
}

#[test]
fn jump_and_dodge_takes_the_same_time_always() {
    let forward = JumpAndDodge::new(dodge_start(), Rotation2::identity());
    let sideways = JumpAndDodge::new(
        CarState { vel: Vector3 { x: -3, y: 77, z: 1 }, ..dodge_start() },
        Rotation2 { cos: 0, sin: -1_000_000 },
    );
    // 6/120 + 6/120 + 1.333333 seconds.
    assert_eq!(forward.duration(), 50_000 + 50_000 + 1_333_333);
    assert_eq!(sideways.duration(), 1_433_333);
    assert_eq!(forward.name(), "JumpAndDodge");
    assert_eq!(forward.start(), dodge_start());
}

#[test]
fn jump_and_dodge_forward() {
    let plan = JumpAndDodge::new(dodge_start(), Rotation2::identity());
    assert!(plan.is_wf());
    assert_eq!(
        plan.end(),
        CarState {
            // A tenth of a second at 1000, then 1.333333 seconds at 1500.
            loc: Point3 { x: 100_000 + 1_999_999, y: 0, z: 17_010 },
            rot: dodge_start().rot,
            vel: Vector3 { x: 1_500_000, y: 0, z: 0 },
            boost: 50_000,
        }
    );
}

#[test]
fn jump_and_dodge_sideways_in_the_frame_of_the_car() {
    // The car heads up the field and drifts to the right; it dodges to its
    // left, which is down the x axis.
    let start = CarState {
        loc: Point3 { x: 1_000_000, y: -2_000_000, z: 300_000 },
        rot: Rotation3 { heading: Rotation2 { cos: 0, sin: 1_000_000 }, pitch: 5, roll: 6 },
        vel: Vector3 { x: 200_000, y: 1_000_000, z: 50_000 },
        boost: 0,
    };
    let plan = JumpAndDodge::new(start, Rotation2 { cos: 0, sin: 1_000_000 });
    assert_eq!(
        plan.end(),
        CarState {
            loc: Point3 {
                x: 1_000_000 + 20_000 - 399_999,
                y: -2_000_000 + 100_000 + 1_333_333,
                z: 17_010
            },
            rot: Rotation3 { heading: Rotation2 { cos: 0, sin: 1_000_000 }, pitch: 0, roll: 0 },
            vel: Vector3 { x: -300_000, y: 1_000_000, z: 0 },
            boost: 0,
        }
    );
}

#[test]
fn jump_and_dodge_out_of_bounds() {
    let far = CarState { loc: Point3 { x: 0x8000_0001, y: 0, z: 0 }, ..dodge_start() };
    assert!(!JumpAndDodge::new(far, Rotation2::identity()).is_wf());
    assert!(!JumpAndDodge::new(dodge_start(), Rotation2 { cos: 1_000_001, sin: 0 }).is_wf());
}

#[test]
fn jump_and_dodge_runs_through_its_phases() {
    let direction = Rotation2 { cos: 600_000, sin: -800_000 };
    let mut runner = JumpAndDodge::new(dodge_start(), direction).run();
    assert_eq!(runner.name(), "JumpAndDodgeRunner");
    let jump = PlayerInput { jump: true, ..PlayerInput::default() };
    let rest = PlayerInput::default();
    let dodge = PlayerInput { pitch: -600, yaw: -800, jump: true, ..PlayerInput::default() };
    let mut seen = Vec::new();
    let mut tick = 0;
    let ticks = loop {
        // 120 ticks a second, from an arbitrary time on.
        let now = 5_000_000 + tick * 1_000_000 / 120;
        match runner.execute(&Context { time: now, ..level_car() }) {
            SegmentRunAction::Yield(input) => seen.push(input),
            SegmentRunAction::Success => break tick,
            SegmentRunAction::Failure => panic!("failed at tick {}", tick),
        }
        tick += 1;
    };
    assert_eq!(&seen[0..6], &[jump; 6]);
    assert_eq!(&seen[6..12], &[rest; 6]);
    assert_eq!(&seen[12..18], &[dodge; 6]);
    assert!(seen[18..].iter().all(|input| *input == rest));
    // 18 ticks of input, then the rest of 1.333333 seconds of floating.
    assert_eq!(ticks, 18 + 154);
    assert_eq!(runner.execute(&Context { time: 9_000_000, ..level_car() }), SegmentRunAction::Success);
}

#[test]
fn jump_and_dodge_runner_starts_with_four_phases() {
    let runner = JumpAndDodgeRunner::new(JumpAndDodge::new(dodge_start(), Rotation2::identity()));
    let durations: Vec<i64> = runner.behavior.children.iter().map(|y| y.duration).collect();
    assert_eq!(durations, vec![50_000, 50_000, 50_000, 1_283_333]);
    assert_eq!(runner.behavior.children[2].input.pitch, -1000);
    assert_eq!(runner.behavior.children[2].input.yaw, 0);
}

#[test]
fn states_go_to_space_and_back() {
    let flat = CarState2D {
        loc: Point2 { x: 12, y: -34 },
        rot: Rotation2 { cos: 600_000, sin: 800_000 },
        vel: Vector2 { x: 56, y: 78 },
        boost: 9_000,
    };
    let state = flat.to_3d();
    assert_eq!(
        state,
        CarState {
            loc: Point3 { x: 12, y: -34, z: 17_010 },
            rot: Rotation3 { heading: Rotation2 { cos: 600_000, sin: 800_000 }, pitch: 0, roll: 0 },
            vel: Vector3 { x: 56, y: 78, z: 0 },
            boost: 9_000,
        }
    );
    assert_eq!(state.to_2d(), flat);
    assert_eq!(state.forward_axis_2d(), Vector2 { x: 600_000, y: 800_000 });
    assert!(state.is_bounded());
    assert!(flat.is_bounded());
    assert!(!CarState2D { vel: Vector2 { x: 0, y: -0x8000_0001 }, ..flat }.is_bounded());
}
