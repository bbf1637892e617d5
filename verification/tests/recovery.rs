use brain::behavior::defense::defense::{defensive_hit, Defense, DefenseMove, GroundedHitTargetAdjust};
use brain::behavior::movement::get_to_flat_ground::{
    dodge_target, jump_down_from_the_wall, jump_off_steps, should_jump_down_from_the_wall,
    DismountStep, GetToFlatGround, Recovery, Successor, WallReading, YieldAndMaybePanicBoost,
};
use brain::behavior::movement::skid_recover::SkidRecover;
use brain::strategy::behavior::{Action, PlayerInput, Priority};
use brain::strategy::context::{Context, PlayerInfo};
use brain::vector::{Point2, Point3, Rotation2, Rotation3, Vector3};

fn context(time: i64, on_ground: bool, pitch: i64, height: i64) -> Context {
    Context {
        time,
        me: PlayerInfo {
            loc: Point3 { x: 0, y: 0, z: height },
            rot: Rotation3 { heading: Rotation2 { cos: 1_000_000, sin: 0 }, pitch, roll: 0 },
            vel: Vector3 { x: 0, y: 0, z: 0 },
            boost: 0,
            on_ground,
        },
    }
}

fn level() -> Context {
    context(0, true, 0, 17_010)
}

fn on_wall(height: i64) -> Context {
    context(0, true, 1_500_000, height)
}

fn steer<B>(action: Action<B>) -> i32 {
    match action {
        Action::Yield(input) => {
            assert_eq!(input, PlayerInput { throttle: 1000, steer: input.steer, ..PlayerInput::default() });
            input.steer
        }
        _ => panic!("no command"),
    }
}

#[test]
fn skid_recover_gives_up_off_level_ground() {
    let mut skid = SkidRecover::new(Point2 { x: 1, y: 2 });
    assert_eq!(skid.name(), "SkidRecover");
    assert!(matches!(skid.execute(&context(0, false, 0, 17_010), true, 0, 0, 0), Action::Abort));
    assert!(matches!(skid.execute(&on_wall(17_010), false, 0, 0, 0), Action::Abort));
}

#[test]
fn skid_recover_is_done_when_the_skid_is() {
    let mut skid = SkidRecover::new(Point2 { x: 1, y: 2 });
    assert!(matches!(skid.execute(&level(), false, 0, 1_000_000, 0), Action::Return));
    assert_eq!(skid.target_loc, Point2 { x: 1, y: 2 });
}

#[test]
fn skid_recover_steers_at_where_the_target_will_be() {
    let mut skid = SkidRecover::new(Point2 { x: 1, y: 2 });
    assert_eq!(steer(skid.execute(&level(), true, 0, 0, 0)), 0);
    assert_eq!(steer(skid.execute(&level(), true, 0, 500_000, 0)), 500);
    assert_eq!(steer(skid.execute(&level(), true, 500_000, 0, 0)), -500);
    // An eighth of a second of spin is added to the target.
    assert_eq!(steer(skid.execute(&level(), true, 0, 500_000, 800_000)), 600);
    assert_eq!(steer(skid.execute(&level(), true, 0, 500_000, -800_000)), 400);
    assert_eq!(steer(skid.execute(&level(), true, 0, 2_000_000, 0)), 1000);
    assert_eq!(steer(skid.execute(&level(), true, 0, -2_000_000, 0)), -1000);
    // The short way round.
    assert_eq!(steer(skid.execute(&level(), true, 3_000_000, -3_000_000, 0)), 283);
}

#[test]
fn jumping_down_from_the_wall() {
    // The nose points at the sky.
    assert!(should_jump_down_from_the_wall(0, 785_397, 1_000_000, 0, 1_000_000));
    assert!(!should_jump_down_from_the_wall(0, 785_398, 1_000_000, 0, 1_000_000));
    assert!(should_jump_down_from_the_wall(1_999_999, 100_000, 1_000_000, 0, 1_000_000));
    assert!(should_jump_down_from_the_wall(-5, 100_000, 1_000_000, 0, 1_000_000));
    // A fast car is never taken to point up.
    assert!(!should_jump_down_from_the_wall(2_000_000, 0, 1_000_000, 0, 1_000_000));
    assert!(should_jump_down_from_the_wall(2_000_000, -1, 1_000_000, 0, 1_000_000));
    // Low, fast and skidding.
    assert!(should_jump_down_from_the_wall(0, 1_000_000, 499_999, 500_000, 499_999));
    assert!(!should_jump_down_from_the_wall(0, 1_000_000, 500_000, 500_000, 499_999));
    assert!(!should_jump_down_from_the_wall(0, 1_000_000, 499_999, 499_999, 499_999));
    assert!(!should_jump_down_from_the_wall(0, 1_000_000, 499_999, 500_000, 500_000));
}

fn command(action: &Action<Successor>) -> Option<PlayerInput> {
    match action {
        Action::Yield(input) => Some(*input),
        _ => None,
    }
}

fn chain(action: &Action<Successor>) -> Option<(Priority, Vec<DismountStep>)> {
    match action {
        Action::TailCall(Successor::Chain(chain)) => Some((chain.priority, chain.children.clone())),
        _ => None,
    }
}

fn dismount(inside_field: bool) -> Vec<DismountStep> {
    let neutral = PlayerInput::default();
    vec![
        DismountStep::Hold(YieldAndMaybePanicBoost::new(100_000, PlayerInput { handbrake: inside_field, ..neutral })),
        DismountStep::Hold(YieldAndMaybePanicBoost::new(200_000, PlayerInput { pitch: 1000, jump: true, ..neutral })),
        DismountStep::Hold(YieldAndMaybePanicBoost::new(100_000, PlayerInput { pitch: 1000, ..neutral })),
    ]
}

#[test]
fn backing_up_before_the_jump() {
    let reverse = Some(PlayerInput { throttle: -1000, ..PlayerInput::default() });
    // A long fall ahead, or high up: full reverse and nothing else.
    assert_eq!(command(&jump_down_from_the_wall(500_000, 2_000_000, true, None)), reverse);
    assert_eq!(command(&jump_down_from_the_wall(1_000_000, 0, false, Some(Point2 { x: 1, y: 2 }))), reverse);
    // Else the jump.
    assert!(chain(&jump_down_from_the_wall(500_000, 1_999_999, true, None)).is_some());
    assert!(chain(&jump_down_from_the_wall(999_999, 0, true, None)).is_some());
}

#[test]
fn jumping_off_the_wall_step_by_step() {
    // Three timed inputs, in an idle chain.
    let jump = jump_down_from_the_wall(500_000, 0, true, None);
    assert_eq!(chain(&jump), Some((Priority::Idle, dismount(true))));
    let jump = jump_down_from_the_wall(500_000, 0, false, None);
    assert_eq!(chain(&jump), Some((Priority::Idle, dismount(false))));
    // And a dodge at the end where there is a point to dodge to.
    let target = Point2 { x: 3_000_000, y: -1_000_000 };
    let jump = jump_down_from_the_wall(500_000, 0, true, Some(target));
    let mut steps = dismount(true);
    steps.push(DismountStep::Dodge(target));
    assert_eq!(chain(&jump), Some((Priority::Idle, steps)));
}

#[test]
fn carrying_a_recovery_out() {
    let neutral = PlayerInput::default();
    let drive = |steer, handbrake| Some(PlayerInput { throttle: 1000, steer, handbrake, ..neutral });
    assert!(matches!(GetToFlatGround::perform(Recovery::Done, 0, 0, true, None), Action::Return));
    assert!(matches!(
        GetToFlatGround::perform(Recovery::Land, 0, 0, true, None),
        Action::TailCall(Successor::Land)
    ));
    match GetToFlatGround::perform(Recovery::JumpUpsideDown, 0, 0, true, None) {
        Action::TailCall(Successor::Hold(hold)) => {
            assert_eq!(hold, YieldAndMaybePanicBoost::new(100_000, PlayerInput { jump: true, ..neutral }))
        }
        _ => panic!("no jump"),
    }
    // Escaping is driving at the point that the angle was measured to.
    assert_eq!(command(&GetToFlatGround::perform(Recovery::Escape, 100_000, 0, false, None)), drive(200, false));
    assert_eq!(command(&GetToFlatGround::perform(Recovery::Escape, -900_000, 0, false, None)), drive(-1000, true));
    assert_eq!(
        command(&GetToFlatGround::perform(Recovery::BackUp, 100_000, 0, true, None)),
        Some(PlayerInput { throttle: -1000, ..neutral })
    );
    let jump = GetToFlatGround::perform(Recovery::JumpOff, 0, 0, true, Some(Point2 { x: 5, y: 6 }));
    let mut steps = dismount(true);
    steps.push(DismountStep::Dodge(Point2 { x: 5, y: 6 }));
    assert_eq!(chain(&jump), Some((Priority::Idle, steps)));
    // Driving down, with twice the steering where asked, and never beyond
    // full lock.
    let down = |steer_twice, yaw_diff| {
        command(&GetToFlatGround::perform(Recovery::DriveDown { steer_twice }, yaw_diff, 0, true, None))
    };
    assert_eq!(down(false, 100_000), drive(200, false));
    assert_eq!(down(true, 100_000), drive(400, false));
    assert_eq!(down(true, -100_000), drive(-400, false));
    assert_eq!(down(true, 250_000), drive(1000, false));
    assert_eq!(down(true, 251_000), drive(1000, false));
    assert_eq!(down(true, -3_000_000), drive(-1000, true));
    assert_eq!(down(false, -3_000_000), drive(-1000, true));
}

#[test]
fn getting_to_flat_ground() {
    let mut behavior = GetToFlatGround::new();
    assert_eq!(behavior.name(), "GetToFlatGround");
    let wall = WallReading { roof_to_ground: 1_500_000, jump_down: false, inside_field: true, fall_time: 0 };
    assert_eq!(behavior.execute(&level(), &wall), Recovery::Done);
    assert_eq!(behavior.execute(&context(0, false, 0, 500_000), &wall), Recovery::Land);
    assert_eq!(behavior.execute(&context(0, false, 1_500_000, 500_000), &wall), Recovery::Land);
    let roof = WallReading { roof_to_ground: 314_158, jump_down: true, ..wall };
    assert_eq!(behavior.execute(&on_wall(500_000), &roof), Recovery::JumpUpsideDown);
    let roof = WallReading { roof_to_ground: 314_159, ..wall };
    assert_eq!(behavior.execute(&on_wall(500_000), &roof), Recovery::DriveDown { steer_twice: false });
    let outside = WallReading { inside_field: false, ..wall };
    assert_eq!(behavior.execute(&on_wall(500_000), &outside), Recovery::DriveDown { steer_twice: true });
    let jump = WallReading { jump_down: true, ..wall };
    assert_eq!(behavior.execute(&on_wall(500_000), &jump), Recovery::JumpOff);
    assert_eq!(behavior.execute(&on_wall(1_000_000), &jump), Recovery::BackUp);
    let fall = WallReading { jump_down: true, fall_time: 2_000_000, ..wall };
    assert_eq!(behavior.execute(&on_wall(500_000), &fall), Recovery::BackUp);
    let escape = WallReading { jump_down: true, inside_field: false, ..wall };
    assert_eq!(behavior.execute(&on_wall(500_000), &escape), Recovery::Escape);
}

#[test]
fn yield_and_maybe_panic_boost() {
    let input = PlayerInput { pitch: 1000, jump: true, boost: true, ..PlayerInput::default() };
    let mut behavior = YieldAndMaybePanicBoost::new(100_000, input);
    assert_eq!(behavior.name(), "GetToFlatGround");
    assert_eq!(behavior.start, None);
    let tick = |behavior: &mut YieldAndMaybePanicBoost, time, boost| {
        match behavior.execute(&context(time, true, 0, 0), boost) {
            Action::Yield(input) => Some(input),
            Action::Return => None,
            _ => panic!("neither yield nor return"),
        }
    };
    // The boost of the command is whatever the tick says.
    assert_eq!(tick(&mut behavior, 1_000_000, false), Some(PlayerInput { boost: false, ..input }));
    assert_eq!(behavior.start, Some(1_000_000));
    assert_eq!(tick(&mut behavior, 1_099_999, true), Some(PlayerInput { boost: true, ..input }));
    assert_eq!(tick(&mut behavior, 1_100_000, true), None);
    assert_eq!(behavior.start, Some(1_000_000));
}

fn goal() -> Point2 {
    Point2 { x: 0, y: -5_120_000 }
}

#[test]
fn between_ball_and_own_goal() {
    let between = |me: Point2, ball: Point2, panicky, angle| {
        Defense::is_between_ball_and_own_goal(goal(), me, ball, false, panicky, angle)
    };
    let ball = Point2 { x: 0, y: 0 };
    // On the line, nearer to the goal than the ball.
    assert!(between(Point2 { x: 0, y: -3_000_000 }, ball, false, 0));
    // On the line, but beyond the ball.
    assert!(!between(Point2 { x: 0, y: 1 }, ball, false, 0));
    assert!(!between(Point2 { x: 0, y: 0 }, ball, false, 0));
    assert!(between(Point2 { x: 0, y: -1 }, ball, false, 0));
    // Only the distance along the line counts.
    assert!(between(Point2 { x: 4_000_000, y: -1 }, ball, false, 0));
    // In a panicky retreat, 2000 more are asked for.
    assert!(!between(Point2 { x: 0, y: -2_000_000 }, ball, true, 0));
    assert!(between(Point2 { x: 0, y: -2_000_001 }, ball, true, 0));
    // Off the line by a twelfth of a turn, and out of the net.
    assert!(!between(Point2 { x: 1_200_000, y: -5_120_000 }, ball, false, 523_599));
    assert!(!between(Point2 { x: 1_200_000, y: -5_120_000 }, ball, false, -523_599));
    assert!(between(Point2 { x: 1_200_000, y: -5_120_000 }, ball, false, 523_598));
    // Off the line, but in the net.
    assert!(between(Point2 { x: 1_199_999, y: -5_120_000 }, ball, false, 3_000_000));
    // Done panicking: between, wherever.
    assert!(Defense::is_between_ball_and_own_goal(goal(), Point2 { x: 0, y: 5_000_000 }, ball, true, true, 3_000_000));
    // The ball in the mouth of the goal.
    assert!(between(Point2 { x: 0, y: 0 }, goal(), true, 3_000_000));
}

#[test]
fn enemy_shots() {
    // No intercept, or possession not settled.
    assert!(!Defense::enemy_can_shoot(false, -5_000, 500, 3_000_000, &vec![0]));
    assert!(!Defense::enemy_can_shoot(true, -500, 500, 3_000_000, &vec![0]));
    assert!(Defense::enemy_can_shoot(true, -501, 500, 3_000_000, &vec![0]));
    // No enemy.
    assert!(!Defense::enemy_can_shoot(true, -501, 500, 3_000_000, &vec![]));
    // Within a quarter of a turn from near, within an eighth from afar.
    assert!(Defense::enemy_can_shoot(true, -501, 500, 7_499_999, &vec![1_570_795]));
    assert!(!Defense::enemy_can_shoot(true, -501, 500, 7_499_999, &vec![1_570_796]));
    assert!(Defense::enemy_can_shoot(true, -501, 500, 7_500_000, &vec![-785_397]));
    assert!(!Defense::enemy_can_shoot(true, -501, 500, 7_500_000, &vec![-785_398]));
    assert!(Defense::enemy_can_shoot(true, -501, 500, 0, &vec![1_570_795]));
    // Any one enemy is enough.
    assert!(Defense::enemy_can_shoot(true, -501, 500, 7_500_000, &vec![3_000_000, -2_000_000, 5]));
    assert!(!Defense::enemy_can_shoot(true, -501, 500, 7_500_000, &vec![3_000_000, -2_000_000]));
}

#[test]
fn enemy_attacks() {
    assert!(Defense::enemy_can_attack(-2_001, true, 0, 0));
    assert!(!Defense::enemy_can_attack(-2_000, true, 0, 0));
    assert!(!Defense::enemy_can_attack(-2_001, false, 0, 0));
    assert!(Defense::enemy_can_attack(-2_001, true, 1_047_197, -1_047_197));
    assert!(!Defense::enemy_can_attack(-2_001, true, 1_047_198, 0));
    assert!(!Defense::enemy_can_attack(-2_001, true, 0, -1_047_198));
}

#[test]
fn defense_moves() {
    let mut defense = Defense::new();
    assert_eq!(defense.name(), "Defense");
    assert_eq!(defense.execute(true, false, false, false), DefenseMove::TepidHit);
    assert_eq!(defense.execute(false, false, false, false), DefenseMove::Retreat);
    assert_eq!(defense.execute(true, true, false, false), DefenseMove::Retreat);
    assert_eq!(defense.execute(true, false, true, false), DefenseMove::Retreat);
    assert_eq!(defense.execute(true, false, false, true), DefenseMove::Retreat);
}

#[test]
fn defensive_hits() {
    assert_eq!(defensive_hit(2_499_999, 1_047_197), GroundedHitTargetAdjust::StraightOn);
    assert_eq!(defensive_hit(2_499_999, -1_047_197), GroundedHitTargetAdjust::StraightOn);
    assert_eq!(defensive_hit(2_500_000, 0), GroundedHitTargetAdjust::RoughAim);
    assert_eq!(defensive_hit(0, 1_047_198), GroundedHitTargetAdjust::RoughAim);
    assert_eq!(defensive_hit(0, -1_047_198), GroundedHitTargetAdjust::RoughAim);
}

#[test]
fn dodging_off_the_wall() {
    let home = Point2 { x: 0, y: -5_120_000 };
    let me = Point2 { x: 0, y: 0 };
    let far_ball = Point2 { x: 3_000_000, y: 0 };
    let goal_point = Point2 { x: 3_000_000, y: 5_120_000 };
    // Out of the game: home, whatever else.
    assert_eq!(dodge_target(499, home, me, Point2 { x: 1, y: 1 }, None, goal_point), Some(home));
    // The ball will be close: no dodge.
    assert_eq!(dodge_target(500, home, me, Point2 { x: 2_999_999, y: 0 }, Some(3_000_000), goal_point), None);
    // The enemy can advance the ball: home.
    assert_eq!(dodge_target(500, home, me, far_ball, Some(1_047_198), goal_point), Some(home));
    // Else 1000 behind the ball, away from the enemy goal.
    let behind = Some(Point2 { x: 3_000_000, y: -1_000_000 });
    assert_eq!(dodge_target(500, home, me, far_ball, Some(1_047_197), goal_point), behind);
    assert_eq!(dodge_target(1_000, home, me, far_ball, None, goal_point), behind);
    assert_eq!(
        dodge_target(1_000, home, me, far_ball, None, Point2 { x: 0, y: 4_000_000 }),
        Some(Point2 { x: 3_000_000 + 600_000, y: -800_000 })
    );
    assert_eq!(dodge_target(1_000, home, me, far_ball, None, far_ball), Some(far_ball));
}

#[test]
fn jumping_off_the_wall() {
    let neutral = PlayerInput::default();
    assert_eq!(
        jump_off_steps(true),
        vec![
            YieldAndMaybePanicBoost::new(100_000, PlayerInput { handbrake: true, ..neutral }),
            YieldAndMaybePanicBoost::new(200_000, PlayerInput { pitch: 1000, jump: true, ..neutral }),
            YieldAndMaybePanicBoost::new(100_000, PlayerInput { pitch: 1000, ..neutral }),
        ]
    );
    assert_eq!(jump_off_steps(false)[0], YieldAndMaybePanicBoost::new(100_000, neutral));
}
