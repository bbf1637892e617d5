use brain::behavior::kickoff::{is_diagonal_kickoff, is_off_center_kickoff, Kickoff, KickoffApproach};
use brain::behavior::movement::drive_towards::{drive_towards, DriveTowards};
use brain::behavior::root::{
    eval, eval_ball, eval_possession, eval_push_wall, eval_situation, simulate_ball_blitz, Place,
    Plan, Possession, RootBehavior, Situation, Wall,
};
use brain::strategy::behavior::PlayerInput;
use brain::tables::{SpeedCurve, Tables};
use brain::vector::{Point2, Point3, Rotation2, Rotation3, Vector3};

fn at(x: i64, y: i64) -> Point3 {
    Point3 { x, y, z: 93_000 }
}

fn moving(y: i64) -> Vector3 {
    Vector3 { x: 0, y, z: 0 }
}

#[test]
fn places_on_the_field() {
    assert_eq!(eval_ball(at(0, 0)), Place::Midfield);
    assert_eq!(eval_ball(at(4_000_000, 2_500_000)), Place::Midfield);
    assert_eq!(eval_ball(at(0, 2_500_001)), Place::EnemyBox);
    assert_eq!(eval_ball(at(1_799_999, 5_000_000)), Place::EnemyBox);
    assert_eq!(eval_ball(at(1_800_000, 5_000_000)), Place::EnemyCorner);
    assert_eq!(eval_ball(at(-1_800_000, 5_000_000)), Place::EnemyCorner);
    assert_eq!(eval_ball(at(0, -2_500_001)), Place::OwnBox);
    assert_eq!(eval_ball(at(-1_799_999, -5_000_000)), Place::OwnBox);
    assert_eq!(eval_ball(at(-1_800_000, -5_000_000)), Place::OwnCorner);
    assert_eq!(eval_ball(at(0, -2_500_000)), Place::Midfield);
}

#[test]
fn situations() {
    // The ball comes at us and we are upfield of it.
    assert_eq!(eval_situation(at(0, 0), moving(-500_001), at(0, 1), moving(0)), Situation::Retreat);
    // The ball is not fast enough.
    assert_eq!(eval_situation(at(0, 0), moving(-500_000), at(0, 1), moving(0)), Situation::Unsure);
    // We are barely downfield of it and heading home.
    assert_eq!(eval_situation(at(0, 0), moving(-600_000), at(0, -499_999), moving(-100_001)), Situation::Retreat);
    assert_eq!(eval_situation(at(0, 0), moving(-600_000), at(0, -499_999), moving(-100_000)), Situation::Unsure);
    assert_eq!(eval_situation(at(0, 0), moving(-600_000), at(0, -500_000), moving(-900_000)), Situation::Unsure);
    assert_eq!(eval_situation(at(0, 0), moving(600_000), at(0, 1), moving(0)), Situation::Unsure);
}

#[test]
fn possession() {
    assert_eq!(eval_possession(749, 1_000), Possession::Me);
    assert_eq!(eval_possession(750, 1_000), Possession::Unsure);
    assert_eq!(eval_possession(1_329, 1_000), Possession::Unsure);
    assert_eq!(eval_possession(1_330, 1_000), Possession::Enemy);
    assert_eq!(eval_possession(0, 1), Possession::Me);
    assert_eq!(eval_possession(5, 0), Possession::Enemy);
    assert_eq!(eval_possession(0, 0), Possession::Enemy);
    assert_eq!(eval_possession(u64::MAX, u64::MAX), Possession::Unsure);
}

#[test]
fn walls() {
    assert_eq!(eval_push_wall(0), Wall::EnemyGoal);
    assert_eq!(eval_push_wall(172_630), Wall::EnemyGoal);
    assert_eq!(eval_push_wall(172_631), Wall::EnemyBackWall);
    assert_eq!(eval_push_wall(1_176_004), Wall::EnemyBackWall);
    assert_eq!(eval_push_wall(1_176_005), Wall::Midfield);
    assert_eq!(eval_push_wall(1_965_586), Wall::Midfield);
    assert_eq!(eval_push_wall(1_965_587), Wall::OwnBackWall);
    assert_eq!(eval_push_wall(2_968_961), Wall::OwnBackWall);
    assert_eq!(eval_push_wall(2_968_962), Wall::OwnGoal);
    assert_eq!(eval_push_wall(3_141_592), Wall::OwnGoal);
}

#[test]
fn plans() {
    for situation in [Situation::Retreat, Situation::Unsure] {
        for place in [Place::OwnBox, Place::OwnCorner, Place::Midfield, Place::EnemyCorner, Place::EnemyBox] {
            for possession in [Possession::Me, Possession::Enemy, Possession::Unsure] {
                assert_eq!(eval(situation, place, possession, Wall::OwnGoal), Plan::Defense);
                assert_eq!(eval(situation, place, possession, Wall::OwnBackWall), Plan::Defense);
                assert_eq!(eval(situation, place, possession, Wall::Midfield), Plan::Offense);
                assert_eq!(eval(situation, place, possession, Wall::EnemyBackWall), Plan::Offense);
                assert_eq!(eval(situation, place, possession, Wall::EnemyGoal), Plan::Offense);
            }
        }
    }
}

#[test]
fn root_evaluates_once_a_second() {
    let mut root = RootBehavior::new();
    assert_eq!(root.name(), "RootBehavior");
    assert_eq!(root.last_eval, None);
    let capture = |root: &mut RootBehavior, now, wall| {
        root.capture(now, Situation::Unsure, Place::Midfield, Possession::Unsure, wall)
    };
    assert_eq!(capture(&mut root, 10_000_000, Wall::OwnGoal), Some(Plan::Defense));
    assert_eq!(root.last_eval, Some(10_000_000));
    assert_eq!(capture(&mut root, 10_999_999, Wall::EnemyGoal), None);
    assert_eq!(root.last_eval, Some(10_000_000));
    assert_eq!(capture(&mut root, 11_000_000, Wall::EnemyGoal), Some(Plan::Offense));
    assert_eq!(root.last_eval, Some(11_000_000));
    let plan = root.execute(11_000_001, Situation::Retreat, Place::OwnBox, Possession::Enemy, Wall::OwnBackWall);
    assert_eq!(plan, Plan::Defense);
    assert_eq!(root.last_eval, Some(11_000_001));
}

#[test]
fn kickoff_kinds() {
    assert!(is_diagonal_kickoff(-1_952_000));
    assert!(is_diagonal_kickoff(1_000_000));
    assert!(!is_diagonal_kickoff(999_999));
    assert!(!is_diagonal_kickoff(0));
    assert!(is_off_center_kickoff(-256_000));
    assert!(is_off_center_kickoff(256_000));
    assert!(is_off_center_kickoff(206_001));
    assert!(!is_off_center_kickoff(206_000));
    assert!(is_off_center_kickoff(-305_999));
    assert!(!is_off_center_kickoff(-306_000));
    assert!(!is_off_center_kickoff(0));
    assert!(!is_off_center_kickoff(i64::MIN));
}

#[test]
fn kickoff_approaches() {
    let kickoff = Kickoff::new();
    assert_eq!(kickoff.name(), "Kickoff");
    assert_eq!(kickoff.approach(at(0, -4_608_000)), KickoffApproach::Direct);
    assert_eq!(
        kickoff.approach(at(-256_000, -3_840_000)),
        KickoffApproach::Via(Point2 { x: -100_000, y: -2_500_000 })
    );
    assert_eq!(
        kickoff.approach(at(256_000, 3_840_000)),
        KickoffApproach::Via(Point2 { x: 100_000, y: 2_500_000 })
    );
    assert_eq!(
        kickoff.approach(at(-1_952_000, -2_464_000)),
        KickoffApproach::Via(Point2 { x: -600_000, y: -1_000_000 })
    );
    assert_eq!(
        kickoff.approach(at(1_952_000, -2_464_000)),
        KickoffApproach::Via(Point2 { x: 600_000, y: -1_000_000 })
    );
}

#[test]
fn driving_at_a_target() {
    let straight = drive_towards(0, 1_000_000);
    assert_eq!(straight, PlayerInput { throttle: 1000, ..PlayerInput::default() });
    // Twice as hard as the angle asks for.
    assert_eq!(drive_towards(250_000, 0).steer, 500);
    assert_eq!(drive_towards(-250_999, 0).steer, -500);
    assert_eq!(drive_towards(499_999, 0).steer, 998);
    // Full lock from half a radian on, and never more.
    assert_eq!(drive_towards(500_000, 0).steer, 1000);
    assert_eq!(drive_towards(1_000_000, 0).steer, 1000);
    assert_eq!(drive_towards(3_000_000, 0).steer, 1000);
    assert_eq!(drive_towards(-500_000, 0).steer, -1000);
    assert_eq!(drive_towards(-3_000_000, 0).steer, -1000);
    assert_eq!(drive_towards(i64::MAX, 0).steer, 1000);
    assert_eq!(drive_towards(i64::MIN, 0).steer, -1000);
    // A slow car pulls the handbrake from an eighth of a turn on, a fast
    // one from a quarter of a turn on.
    assert!(!drive_towards(785_397, 1_409_999).handbrake);
    assert!(drive_towards(785_398, 1_409_999).handbrake);
    assert!(drive_towards(-785_398, 0).handbrake);
    assert!(!drive_towards(785_398, 1_410_000).handbrake);
    assert!(!drive_towards(1_570_795, 2_300_000).handbrake);
    assert!(drive_towards(1_570_796, 2_300_000).handbrake);
    assert!(drive_towards(-1_570_796, 1_410_000).handbrake);
    let behavior = DriveTowards::new(Point2 { x: 1, y: 2 });
    assert_eq!(behavior.name(), "DriveTowards");
    assert_eq!(behavior.target_loc, Point2 { x: 1, y: 2 });
}

#[test]
fn curves_are_checked() {
    assert!(SpeedCurve::new(vec![0, 10, 10, 20], vec![0, 5, 5, 9], true).is_some());
    assert!(SpeedCurve::new(vec![0, 10, 20], vec![9, 5, 0], false).is_some());
    assert!(SpeedCurve::new(vec![7], vec![3], true).is_some());
    assert!(SpeedCurve::new(vec![7], vec![3], false).is_some());
    // No samples, or not as many speeds as times.
    assert!(SpeedCurve::new(vec![], vec![], true).is_none());
    assert!(SpeedCurve::new(vec![0, 1], vec![0], true).is_none());
    assert!(SpeedCurve::new(vec![0], vec![0, 1], true).is_none());
    // Times out of order.
    assert!(SpeedCurve::new(vec![0, 20, 10], vec![0, 5, 9], true).is_none());
    // Speeds out of order.
    assert!(SpeedCurve::new(vec![0, 10, 20], vec![0, 9, 5], true).is_none());
    assert!(SpeedCurve::new(vec![0, 10, 20], vec![9, 0, 5], false).is_none());
    // A negative speed, a speed or a time beyond the limits.
    assert!(SpeedCurve::new(vec![0, 10], vec![-1, 5], true).is_none());
    assert!(SpeedCurve::new(vec![0, 10], vec![0, 0x100_0000_0001], true).is_none());
    assert!(SpeedCurve::new(vec![0, 10], vec![0, 0x100_0000_0000], true).is_some());
    assert!(SpeedCurve::new(vec![0, 0x4000_0000_0000_0001], vec![0, 1], true).is_none());
    assert!(SpeedCurve::new(vec![-0x4000_0000_0000_0000, 0x4000_0000_0000_0000], vec![0, 1], true).is_some());
}

#[test]
fn curves_look_speeds_and_times_up() {
    let rising = SpeedCurve::new(vec![0, 10, 20, 30], vec![0, 100, 100, 300], true).unwrap();
    assert!(rising.is_rising());
    assert_eq!(rising.speed_at(-5), 0);
    assert_eq!(rising.speed_at(0), 0);
    assert_eq!(rising.speed_at(19), 100);
    assert_eq!(rising.speed_at(30), 300);
    assert_eq!(rising.speed_at(1_000), 300);
    assert_eq!(rising.time_at(-1), 0);
    assert_eq!(rising.time_at(99), 0);
    // Of two samples of the same speed, the later one.
    assert_eq!(rising.time_at(100), 20);
    assert_eq!(rising.time_at(299), 20);
    assert_eq!(rising.time_at(300), 30);
    let falling = SpeedCurve::new(vec![0, 10, 20, 30], vec![300, 100, 100, 0], false).unwrap();
    assert!(!falling.is_rising());
    assert_eq!(falling.speed_at(10), 100);
    assert_eq!(falling.time_at(-1), 30);
    assert_eq!(falling.time_at(0), 30);
    assert_eq!(falling.time_at(99), 30);
    // Of two samples of the same speed, the earlier one.
    assert_eq!(falling.time_at(100), 10);
    assert_eq!(falling.time_at(299), 10);
    assert_eq!(falling.time_at(300), 0);
    assert_eq!(falling.time_at(9_999), 0);
}

#[test]
fn tables_want_a_falling_coast_and_rising_drives() {
    let rising = || SpeedCurve::new(vec![0, 10], vec![0, 5], true).unwrap();
    let falling = || SpeedCurve::new(vec![0, 10], vec![5, 0], false).unwrap();
    assert!(Tables::new(falling(), rising(), rising()).is_some());
    assert!(Tables::new(rising(), rising(), rising()).is_none());
    assert!(Tables::new(falling(), falling(), rising()).is_none());
    assert!(Tables::new(falling(), rising(), falling()).is_none());
    let tables = Tables::new(falling(), rising(), rising()).unwrap();
    assert_eq!(tables.coast().speed_at(0), 5);
    assert_eq!(tables.throttle().speed_at(10), 5);
    assert_eq!(tables.boost().speed_at(0), 0);
}

fn racer(x: i64, speed: i64) -> brain::strategy::context::PlayerInfo {
    brain::strategy::context::PlayerInfo {
        loc: Point3 { x, y: 0, z: 17_010 },
        rot: Rotation3 { heading: Rotation2 { cos: 1_000_000, sin: 0 }, pitch: 0, roll: 0 },
        vel: Vector3 { x: speed, y: 0, z: 0 },
        boost: 100,
        on_ground: true,
    }
}

/// Tables in which every curve is a single sample of the given speed.
fn flat_tables(speed: i64) -> Tables {
    let curve = |rising| SpeedCurve::new(vec![0], vec![speed], rising).unwrap();
    Tables::new(curve(false), curve(true), curve(true)).unwrap()
}

#[test]
fn race_to_a_ball_at_rest() {
    // At a constant 1000, a car from rest has covered (k - 1) * 16.667
    // after k steps.
    let tables = flat_tables(1_000_000);
    let ball = Point3 { x: 100_000, y: 0, z: 93_000 };
    let path = vec![ball; 30];
    let race = simulate_ball_blitz(&tables, &racer(0, 0), &racer(-200_000, 0), &path);
    assert_eq!(race, Some((7 * 16_667, 19 * 16_667, ball)));
    let race = simulate_ball_blitz(&tables, &racer(-200_000, 0), &racer(0, 0), &path);
    assert_eq!(race, Some((19 * 16_667, 7 * 16_667, ball)));
    // A car that is already fast covers 100.002 in its first step; one that
    // is a little slower covers 99.985, keeps its speed, which is above the
    // throttle's top speed, and gets there in its second.
    let race = simulate_ball_blitz(&tables, &racer(0, 6_000_000), &racer(0, 5_999_000), &path);
    assert_eq!(race, Some((16_667, 2 * 16_667, ball)));
}

#[test]
fn race_to_a_ball_that_rolls_away() {
    let tables = flat_tables(1_000_000);
    let path: Vec<Point3> = (1..=40).map(|k| Point3 { x: 100_000 + 10_000 * k, y: 0, z: 93_000 }).collect();
    let race = simulate_ball_blitz(&tables, &racer(0, 0), &racer(100_000, 0), &path);
    // The ball is where it was when the first car got to it.
    assert_eq!(race, Some((18 * 16_667, 3 * 16_667, path[2])));
}

#[test]
fn race_is_given_up_after_a_minute() {
    // 3600 steps at 1000 cover 3599 * 16.667.
    let tables = flat_tables(1_000_000);
    let reach = 3_599 * 16_667;
    let path = |x| vec![Point3 { x, y: 0, z: 93_000 }; 5_000];
    assert_eq!(
        simulate_ball_blitz(&tables, &racer(0, 0), &racer(0, 0), &path(reach)),
        Some((3_600 * 16_667, 3_600 * 16_667, Point3 { x: reach, y: 0, z: 93_000 }))
    );
    assert_eq!(simulate_ball_blitz(&tables, &racer(0, 0), &racer(0, 0), &path(reach + 1)), None);
    assert_eq!(simulate_ball_blitz(&tables, &racer(0, 0), &racer(reach, 0), &path(reach + 1)), None);
}

#[test]
fn commands_are_kept_within_range() {
    let wild = PlayerInput {
        throttle: 1_001,
        steer: -2_000,
        pitch: i32::MAX,
        yaw: i32::MIN,
        roll: 1_000,
        jump: true,
        boost: false,
        handbrake: true,
    };
    assert_eq!(
        wild.clamped(),
        PlayerInput { throttle: 1_000, steer: -1_000, pitch: 1_000, yaw: -1_000, roll: 1_000, ..wild }
    );
    let tame = PlayerInput { throttle: -1_000, steer: 999, pitch: 0, yaw: -1, roll: 1, ..wild };
    assert_eq!(tame.clamped(), tame);
}

#[test]
fn race_that_is_not_over_when_the_path_ends() {
    let tables = flat_tables(1_000_000);
    let ball = Point3 { x: 100_000, y: 0, z: 93_000 };
    assert_eq!(simulate_ball_blitz(&tables, &racer(0, 0), &racer(0, 0), &vec![ball; 6]), None);
    assert_eq!(simulate_ball_blitz(&tables, &racer(0, 0), &racer(-200_000, 0), &vec![ball; 18]), None);
    assert!(simulate_ball_blitz(&tables, &racer(0, 0), &racer(-200_000, 0), &vec![ball; 19]).is_some());
    assert_eq!(simulate_ball_blitz(&tables, &racer(0, 0), &racer(0, 0), &vec![]), None);
    // Both cars are at the ball, but a race takes a step.
    let here = Point3 { x: 0, y: 0, z: 93_000 };
    assert_eq!(
        simulate_ball_blitz(&tables, &racer(0, 0), &racer(0, 0), &vec![here]),
        Some((16_667, 16_667, here))
    );
}
