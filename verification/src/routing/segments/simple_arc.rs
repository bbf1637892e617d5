//! Driving along a circle at constant speed.
use vstd::prelude::*;
use crate::behavior::movement::get_to_flat_ground::{flat, GetToFlatGround};
use crate::math::{
    abs, div_trunc, floor_sqrt, is_wrapped, lemma_div_trunc_within, lemma_floor_sqrt,
};
use crate::rl::{AXIS_FULL, COORD_LIMIT, MILLI, PI, TAU};
use crate::routing::models::{CarState, CarState2D, SegmentRunAction};
use crate::strategy::behavior::PlayerInput;
use crate::strategy::context::Context;
use crate::vector::{
    clamp, dot, lemma_between_is_wf, lemma_norm_below, lemma_part_within_norm,
    lemma_product_within, norm, norm_squared, perp, within, Point2, Rotation2, Vector2,
};

verus! {

/// The speed below which no arc is planned: the time an arc takes is
/// estimated at constant speed, and below this the estimate is useless.
pub const MIN_SPEED: i64 = 100_000;

/// By how much the distances of start and end from the center must differ
/// for the two not to lie on one circle.
pub const RADIUS_TOLERANCE: i64 = 1_000;

/// The cosine of the fifteen degrees by which the runner aims ahead of the
/// car, in millionths.
pub const AHEAD_COS: i64 = 965_926;

/// The sine of the fifteen degrees by which the runner aims ahead of the
/// car, in millionths.
pub const AHEAD_SIN: i64 = 258_819;

/// A quarter of a turn, in microradians, rounded down.
pub const QUARTER_TURN: i64 = 1_570_796;

/// Why an arc could not be planned.
#[derive(Clone, Copy, PartialEq, Eq, Structural, Debug)]
pub enum SimpleArcError {
    /// The start is slower than `MIN_SPEED`.
    VelocityTooLow,
    /// Start and end do not lie on one circle round the center, or the
    /// angle that was measured between them cannot be theirs.
    WrongGeometry,
}

impl SimpleArcError {
    pub fn to_str(&self) -> (s: &'static str)
        ensures
            *self == SimpleArcError::VelocityTooLow ==> s@ == "SimpleArcError::VelocityTooLow"@,
            *self == SimpleArcError::WrongGeometry ==> s@ == "SimpleArcError::WrongGeometry"@,
    {
        match self {
            SimpleArcError::VelocityTooLow => "SimpleArcError::VelocityTooLow",
            SimpleArcError::WrongGeometry => "SimpleArcError::WrongGeometry",
        }
    }
}

/// The car goes round the center counter-clockwise: seen from the velocity,
/// the vector from the center to the start lies clockwise, so the center
/// itself lies counter-clockwise.
pub open spec fn counter_clockwise(center: Point2, start_loc: Point2, start_vel: Vector2) -> bool {
    perp(start_vel, start_loc.minus_spec(center)) < 0
}

/// The start is slower than `MIN_SPEED`.
pub open spec fn too_slow(start_vel: Vector2) -> bool {
    norm(start_vel) < MIN_SPEED
}

/// The distances of `start_loc` and of `end_loc` from the center, each
/// rounded down, differ by `RADIUS_TOLERANCE` or more.
pub open spec fn off_circle(center: Point2, start_loc: Point2, end_loc: Point2) -> bool {
    abs(norm(start_loc.minus_spec(center)) - norm(end_loc.minus_spec(center))) >= RADIUS_TOLERANCE
}

/// The angle `raw`, rounded to the microradian, can be the angle from `a`
/// to `b` measured the short way round: it does not turn right where `b`
/// lies to the left of `a`, nor left where it lies to the right; and it is
/// no more than a quarter of a turn where `b` points along `a`, and no less
/// where it points against it.
pub open spec fn angle_fits(a: Vector2, b: Vector2, raw: int) -> bool {
    &&& perp(a, b) > 0 ==> raw >= 0
    &&& perp(a, b) < 0 ==> raw <= 0
    &&& dot(a, b) > 0 ==> abs(raw) <= QUARTER_TURN + 1
    &&& dot(a, b) < 0 ==> abs(raw) >= QUARTER_TURN
}

/// The angle that the car sweeps, given the angle `raw` from the start to
/// the end as measured the short way round: `raw` itself where it goes the
/// car's way, else `raw` taken the long way round, a full turn further in the
/// car's direction. Counter-clockwise is positive.
pub open spec fn committed_sweep(counter_clockwise: bool, raw: int) -> int {
    if counter_clockwise && raw < 0 {
        raw + TAU
    } else if !counter_clockwise && raw >= 0 {
        raw - TAU
    } else {
        raw
    }
}

/// An arc as a value.
pub struct ArcModel {
    pub center: Point2,
    pub radius: int,
    pub start_loc: Point2,
    pub start_vel: Vector2,
    pub start_boost: int,
    /// The angle swept, signed: counter-clockwise is positive.
    pub sweep: int,
    /// The rotation from the start to the end.
    pub turn: Rotation2,
}

/// The plan of the arc round `center` from `start_loc`, entered at the
/// velocity `start_vel`, to `end_loc`, where `raw_sweep` is the angle from
/// the start to the end as seen from the center, measured the short way
/// round; or the reason why there is no such plan.
pub open spec fn arc_plan(
    center: Point2,
    radius: int,
    start_loc: Point2,
    start_vel: Vector2,
    start_boost: int,
    end_loc: Point2,
    raw_sweep: int,
) -> Result<ArcModel, SimpleArcError> {
    if too_slow(start_vel) {
        Err(SimpleArcError::VelocityTooLow)
    } else if off_circle(center, start_loc, end_loc) {
        Err(SimpleArcError::WrongGeometry)
    } else if !angle_fits(start_loc.minus_spec(center), end_loc.minus_spec(center), raw_sweep) {
        Err(SimpleArcError::WrongGeometry)
    } else {
        Ok(
            ArcModel {
                center,
                radius,
                start_loc,
                start_vel,
                start_boost,
                sweep: committed_sweep(counter_clockwise(center, start_loc, start_vel), raw_sweep),
                turn: Rotation2::between_spec(
                    start_loc.minus_spec(center),
                    end_loc.minus_spec(center),
                ),
            },
        )
    }
}

impl ArcModel {
    /// What every planned arc satisfies.
    pub open spec fn valid(self) -> bool {
        &&& self.center.bounded()
        &&& self.start_loc.bounded()
        &&& self.start_vel.bounded()
        &&& within(self.radius, COORD_LIMIT as int)
        &&& within(self.sweep, TAU as int)
        &&& i64::MIN <= self.start_boost <= i64::MAX
        &&& self.turn.wf()
        &&& norm(self.start_vel) >= MIN_SPEED
    }

    /// The heading at the start: that of the velocity.
    pub open spec fn start_rot(self) -> Rotation2 {
        Rotation2::of_spec(self.start_vel)
    }

    /// Where the arc ends: the start, turned about the center.
    pub open spec fn end_loc(self) -> Point2 {
        self.center.plus_spec(self.turn.apply_spec(self.start_loc.minus_spec(self.center)))
    }

    /// The velocity at the end: that of the start, turned.
    pub open spec fn end_vel(self) -> Vector2 {
        self.turn.apply_spec(self.start_vel)
    }

    /// The heading at the end: that of the velocity.
    pub open spec fn end_rot(self) -> Rotation2 {
        Rotation2::of_spec(self.end_vel())
    }

    /// The state in which the arc starts.
    pub open spec fn start(self) -> CarState {
        (CarState2D {
            loc: self.start_loc,
            rot: self.start_rot(),
            vel: self.start_vel,
            boost: self.start_boost as i64,
        }).to_3d_spec()
    }

    /// The state in which the arc ends.
    pub open spec fn end(self) -> CarState {
        (CarState2D {
            loc: self.end_loc(),
            rot: self.end_rot(),
            vel: self.end_vel(),
            boost: self.start_boost as i64,
        }).to_3d_spec()
    }

    /// The time the arc takes, in microseconds: its length, which is radius
    /// times angle, over the speed at the start.
    pub open spec fn duration(self) -> int {
        div_trunc(self.radius * abs(self.sweep), norm(self.start_vel))
    }

    /// The angle swept so far, given the angle `raw` from the start to the
    /// car as seen from the center, measured the short way round: `raw`
    /// where it has the sign of the arc's sweep or is zero, else `raw` taken
    /// the long way round.
    pub open spec fn sweep_between(self, raw: int) -> int {
        if raw < 0 && self.sweep >= 0 {
            raw + TAU
        } else if raw > 0 && self.sweep < 0 {
            raw - TAU
        } else {
            raw
        }
    }

    /// The car has swept as wide an angle as was planned.
    pub open spec fn finished(self, raw: int) -> bool {
        abs(self.sweep_between(raw)) >= abs(self.sweep)
    }

    /// Fifteen degrees in the direction of the arc.
    pub open spec fn ahead(self) -> Rotation2 {
        Rotation2 {
            cos: AHEAD_COS,
            sin: if self.sweep >= 0 {
                AHEAD_SIN
            } else {
                (-AHEAD_SIN) as i64
            },
        }
    }

    /// The point of the circle that lies fifteen degrees ahead of `loc`, as
    /// seen from the center; the center itself where `loc` is so close to it
    /// that no direction is left.
    pub open spec fn ahead_loc(self, loc: Point2) -> Point2 {
        let turned = self.ahead().apply_spec(loc.minus_spec(self.center));
        let n = norm(turned);
        if n == 0 {
            self.center
        } else {
            self.center.plus_spec(
                Vector2 {
                    x: div_trunc(turned.x * self.radius, n) as i64,
                    y: div_trunc(turned.y * self.radius, n) as i64,
                },
            )
        }
    }
}

/// The steering that an angle of `angle` microradians to the aim asks for:
/// one thousandth per milliradian, and full lock from one radian on.
pub open spec fn steer_toward(angle: int) -> int {
    clamp(div_trunc(angle, MILLI as int), AXIS_FULL as int)
}

/// What one tick of running the arc results in, given whether the car is on
/// level ground, the angle `swept_raw` from the start to the car as seen
/// from the center, and the angle `aim` from the car's heading to the point
/// ahead: failure off level ground; else success once the planned angle is
/// swept; else full throttle, steering toward the point ahead.
pub open spec fn arc_tick(arc: ArcModel, on_flat_ground: bool, swept_raw: int, aim: int) -> SegmentRunAction {
    if !on_flat_ground {
        SegmentRunAction::Failure
    } else if arc.finished(swept_raw) {
        SegmentRunAction::Success
    } else {
        SegmentRunAction::Yield(
            PlayerInput {
                throttle: AXIS_FULL,
                steer: steer_toward(aim) as i32,
                ..PlayerInput::neutral()
            },
        )
    }
}

/// On every tick of an arc: the runner fails exactly where the car is off
/// level ground; on level ground it succeeds exactly where the car has
/// swept the planned angle; and the command it yields otherwise is full
/// throttle with a steering within the axis's range.
pub proof fn lemma_arc_tick(arc: ArcModel, on_flat_ground: bool, swept_raw: int, aim: int)
    ensures
        arc_tick(arc, on_flat_ground, swept_raw, aim) is Failure <==> !on_flat_ground,
        arc_tick(arc, on_flat_ground, swept_raw, aim) is Success <==> on_flat_ground && abs(
            arc.sweep_between(swept_raw),
        ) >= abs(arc.sweep),
        arc_tick(arc, on_flat_ground, swept_raw, aim) matches SegmentRunAction::Yield(input) ==> {
            &&& input.wf()
            &&& input.throttle == AXIS_FULL
            &&& -AXIS_FULL <= input.steer <= AXIS_FULL
            &&& input.steer == steer_toward(aim)
        },
{
}

/// Every arc that is planned from points, a velocity, a radius and an
/// angle within their limits is a valid one.
pub proof fn lemma_arc_plan_is_valid(
    center: Point2,
    radius: int,
    start_loc: Point2,
    start_vel: Vector2,
    start_boost: int,
    end_loc: Point2,
    raw_sweep: int,
)
    requires
        center.bounded(),
        start_loc.bounded(),
        start_vel.bounded(),
        end_loc.bounded(),
        within(radius, COORD_LIMIT as int),
        is_wrapped(raw_sweep),
        i64::MIN <= start_boost <= i64::MAX,
    ensures
        arc_plan(center, radius, start_loc, start_vel, start_boost, end_loc, raw_sweep) matches Ok(arc)
            ==> arc.valid(),
{
    lemma_between_is_wf(start_loc.minus_spec(center), end_loc.minus_spec(center));
}

/// `1`, `-1` or `0` as `a` is above, below or at zero.
pub open spec fn sign(a: int) -> int {
    if a > 0 {
        1
    } else if a < 0 {
        -1
    } else {
        0
    }
}

/// The square root of `a` exceeds that of `b` by `gap` or more, stated
/// without roots.
pub open spec fn roots_apart(a: int, b: int, gap: int) -> bool {
    a - b - gap * gap >= 0 && (a - b - gap * gap) * (a - b - gap * gap) >= 4 * (gap * gap) * b
}

/// Where the roots of two numbers are `gap` or more apart, so are the
/// roots rounded down.
pub proof fn lemma_roots_apart(a: int, b: int, gap: int)
    requires
        0 <= b,
        0 <= gap,
        roots_apart(a, b, gap),
    ensures
        floor_sqrt(a) - floor_sqrt(b) >= gap,
{
    assert(a >= 0) by (nonlinear_arith)
        requires
            a - b - gap * gap >= 0,
            b >= 0,
    ;
    lemma_floor_sqrt(a);
    lemma_floor_sqrt(b);
    let x = floor_sqrt(a);
    let y = floor_sqrt(b);
    let d = a - b - gap * gap;
    if x - y < gap {
        assert((x + 1) * (x + 1) <= (y + gap) * (y + gap)) by (nonlinear_arith)
            requires
                0 <= x,
                x + 1 <= y + gap,
        ;
        assert((y + gap) * (y + gap) == y * y + 2 * (gap * y) + gap * gap) by (nonlinear_arith);
        assert(d < 2 * (gap * y));
        assert(d * d >= (2 * (gap * y)) * (2 * (gap * y))) by (nonlinear_arith)
            requires
                d * d >= 4 * (gap * gap) * b,
                b >= y * y,
                gap >= 0,
                y >= 0,
        ;
        assert(false) by (nonlinear_arith)
            requires
                0 <= d < 2 * (gap * y),
                d * d >= (2 * (gap * y)) * (2 * (gap * y)),
        ;
    }
}

/// Whatever the rest, no arc is planned from a start slower than
/// `MIN_SPEED`: the answer is `VelocityTooLow`.
pub proof fn lemma_slow_start_is_refused(
    center: Point2,
    radius: int,
    start_loc: Point2,
    start_vel: Vector2,
    start_boost: int,
    end_loc: Point2,
    raw_sweep: int,
)
    requires
        norm_squared(start_vel) < MIN_SPEED * MIN_SPEED,
    ensures
        arc_plan(center, radius, start_loc, start_vel, start_boost, end_loc, raw_sweep) == Err::<
            ArcModel,
            SimpleArcError,
        >(SimpleArcError::VelocityTooLow),
{
    lemma_norm_below(start_vel, MIN_SPEED as int);
}

/// From a start that is fast enough, no arc is planned between two points
/// whose distances from the center differ by `RADIUS_TOLERANCE` or more:
/// the answer is `WrongGeometry`.
pub proof fn lemma_off_circle_is_refused(
    center: Point2,
    radius: int,
    start_loc: Point2,
    start_vel: Vector2,
    start_boost: int,
    end_loc: Point2,
    raw_sweep: int,
)
    requires
        norm_squared(start_vel) >= MIN_SPEED * MIN_SPEED,
        ({
            let a = norm_squared(start_loc.minus_spec(center));
            let b = norm_squared(end_loc.minus_spec(center));
            roots_apart(a, b, RADIUS_TOLERANCE as int) || roots_apart(b, a, RADIUS_TOLERANCE as int)
        }),
    ensures
        arc_plan(center, radius, start_loc, start_vel, start_boost, end_loc, raw_sweep) == Err::<
            ArcModel,
            SimpleArcError,
        >(SimpleArcError::WrongGeometry),
{
    lemma_norm_below(start_vel, MIN_SPEED as int);
    let u = start_loc.minus_spec(center);
    let v = end_loc.minus_spec(center);
    let a = norm_squared(u);
    let b = norm_squared(v);
    assert(a >= 0 && b >= 0) by (nonlinear_arith)
        requires
            a == u.x * u.x + u.y * u.y,
            b == v.x * v.x + v.y * v.y,
    ;
    if roots_apart(a, b, RADIUS_TOLERANCE as int) {
        lemma_roots_apart(a, b, RADIUS_TOLERANCE as int);
    } else {
        lemma_roots_apart(b, a, RADIUS_TOLERANCE as int);
    }
}

/// Of every arc that is planned from a velocity that does not point at
/// the center or away from it, to an end that is not the start: the sweep
/// has the sign of the turn from the velocity to the vector from the start
/// to the center; it differs from the measured angle by whole turns; it is
/// more than nothing and less than a full turn; and it is the only angle of
/// which all this holds. The measured angle itself fits the two points: it
/// turns the way in which the end lies from the start as seen from the
/// center, where the three are not on one line.
pub proof fn lemma_sweep_direction(
    center: Point2,
    radius: int,
    start_loc: Point2,
    start_vel: Vector2,
    start_boost: int,
    end_loc: Point2,
    raw_sweep: int,
)
    requires
        center.bounded(),
        start_loc.bounded(),
        is_wrapped(raw_sweep),
        arc_plan(center, radius, start_loc, start_vel, start_boost, end_loc, raw_sweep) is Ok,
        raw_sweep != 0,
        perp(start_vel, center.minus_spec(start_loc)) != 0,
    ensures
        arc_plan(center, radius, start_loc, start_vel, start_boost, end_loc, raw_sweep) matches Ok(arc)
            && {
            &&& sign(arc.sweep) == sign(perp(start_vel, center.minus_spec(start_loc)))
            &&& (arc.sweep - raw_sweep) % (TAU as int) == 0
            &&& 0 < abs(arc.sweep) < TAU
            &&& angle_fits(start_loc.minus_spec(center), end_loc.minus_spec(center), raw_sweep)
            &&& perp(start_loc.minus_spec(center), end_loc.minus_spec(center)) != 0 ==> sign(raw_sweep)
                == sign(perp(start_loc.minus_spec(center), end_loc.minus_spec(center)))
            &&& forall|s: int|
                #[trigger] sign(s) == sign(arc.sweep) && (s - raw_sweep) % (TAU as int) == 0 && 0
                    < abs(s) < TAU ==> s == arc.sweep
        },
{
    let arc = arc_plan(center, radius, start_loc, start_vel, start_boost, end_loc, raw_sweep)->Ok_0;
    let out = start_loc.minus_spec(center);
    let back = center.minus_spec(start_loc);
    assert(perp(start_vel, back) == -perp(start_vel, out)) by (nonlinear_arith)
        requires
            back.x == -out.x,
            back.y == -out.y,
            perp(start_vel, back) == start_vel.x * back.y - start_vel.y * back.x,
            perp(start_vel, out) == start_vel.x * out.y - start_vel.y * out.x,
    ;
    let t = TAU as int;
    assert((arc.sweep - raw_sweep) % t == 0) by {
        assert(arc.sweep - raw_sweep == 0 || arc.sweep - raw_sweep == t || arc.sweep - raw_sweep == -t);
        vstd::arithmetic::div_mod::lemma_mod_multiples_basic(1, t);
        vstd::arithmetic::div_mod::lemma_mod_multiples_basic(-1, t);
        vstd::arithmetic::div_mod::lemma_mod_multiples_basic(0, t);
    }
    assert forall|s: int|
        #[trigger] sign(s) == sign(arc.sweep) && (s - raw_sweep) % t == 0 && 0 < abs(s)
            < TAU implies s == arc.sweep by {
        vstd::arithmetic::div_mod::lemma_fundamental_div_mod(s - raw_sweep, t);
        vstd::arithmetic::div_mod::lemma_fundamental_div_mod(arc.sweep - raw_sweep, t);
        let q1 = (s - raw_sweep) / t;
        let q2 = (arc.sweep - raw_sweep) / t;
        assert(q1 == q2) by (nonlinear_arith)
            requires
                s - raw_sweep == t * q1,
                arc.sweep - raw_sweep == t * q2,
                -t < s - arc.sweep < t,
                t > 0,
        ;
    }
}

/// The plan of driving along a circle, at constant speed, from one point of
/// it to another.
#[derive(Clone, Copy, Debug)]
pub struct SimpleArc {
    center: Point2,
    radius: i64,
    start_loc: Point2,
    start_vel: Vector2,
    start_boost: i64,
    sweep: i64,
    turn: Rotation2,
}

impl View for SimpleArc {
    type V = ArcModel;

    closed spec fn view(&self) -> ArcModel {
        ArcModel {
            center: self.center,
            radius: self.radius as int,
            start_loc: self.start_loc,
            start_vel: self.start_vel,
            start_boost: self.start_boost as int,
            sweep: self.sweep as int,
            turn: self.turn,
        }
    }
}

impl SimpleArc {
    #[verifier::type_invariant]
    spec fn inv(self) -> bool {
        self@.valid()
    }

    /// Plans the arc round `center` from `start_loc`, entered at the
    /// velocity `start_vel`, to `end_loc`. The caller measures `raw_sweep`:
    /// the angle from the start to the end as seen from the center, the
    /// short way round, counter-clockwise positive.
    pub fn new(
        center: Point2,
        radius: i64,
        start_loc: Point2,
        start_vel: Vector2,
        start_boost: i64,
        end_loc: Point2,
        raw_sweep: i64,
    ) -> (r: Result<SimpleArc, SimpleArcError>)
        requires
            center.bounded(),
            start_loc.bounded(),
            start_vel.bounded(),
            end_loc.bounded(),
            within(radius as int, COORD_LIMIT as int),
            is_wrapped(raw_sweep as int),
        ensures
            match r {
                Ok(arc) => arc_plan(
                    center,
                    radius as int,
                    start_loc,
                    start_vel,
                    start_boost as int,
                    end_loc,
                    raw_sweep as int,
                ) == Ok::<ArcModel, SimpleArcError>(arc@) && arc@.valid(),
                Err(e) => arc_plan(
                    center,
                    radius as int,
                    start_loc,
                    start_vel,
                    start_boost as int,
                    end_loc,
                    raw_sweep as int,
                ) == Err::<ArcModel, SimpleArcError>(e),
            },
    {
        // The estimate of the duration assumes a constant speed and is
        // useless at a low one.
        if start_vel.norm() < MIN_SPEED {
            return Err(SimpleArcError::VelocityTooLow);
        }
        // Start and end must be equally far from the center.
        let from_center = start_loc.minus(&center);
        let to_end = end_loc.minus(&center);
        let gap = from_center.norm() - to_end.norm();
        if gap >= RADIUS_TOLERANCE || gap <= -RADIUS_TOLERANCE {
            return Err(SimpleArcError::WrongGeometry);
        }
        // The angle must be one that the two points can be apart.
        let side = from_center.perp(&to_end);
        let along = from_center.dot(&to_end);
        let turn = if raw_sweep >= 0 {
            raw_sweep
        } else {
            -raw_sweep
        };
        if (side > 0 && raw_sweep < 0) || (side < 0 && raw_sweep > 0) || (along > 0 && turn
            > QUARTER_TURN + 1) || (along < 0 && turn < QUARTER_TURN) {
            return Err(SimpleArcError::WrongGeometry);
        }
        // The car starts along a tangent, so the center lies to its left or
        // to its right, and that decides which way round it goes.
        let counter_clockwise = start_vel.perp(&from_center) < 0;
        // Go the long way round where the short way would ask the car to
        // turn on the spot.
        let sweep = if counter_clockwise && raw_sweep < 0 {
            raw_sweep + TAU
        } else if !counter_clockwise && raw_sweep >= 0 {
            raw_sweep - TAU
        } else {
            raw_sweep
        };
        let turn = Rotation2::between(&from_center, &to_end);
        Ok(SimpleArc { center, radius, start_loc, start_vel, start_boost, sweep, turn })
    }

    /// The angle that the plan sweeps, signed.
    pub fn sweep(&self) -> (sweep: i64)
        ensures
            sweep == self@.sweep,
            self@.valid(),
    {
        proof {
            use_type_invariant(self);
        }
        self.sweep
    }

    /// The center of the circle.
    pub fn center(&self) -> (center: Point2)
        ensures
            center == self@.center,
    {
        self.center
    }

    /// Where the arc starts.
    pub fn start_loc(&self) -> (loc: Point2)
        ensures
            loc == self@.start_loc,
    {
        self.start_loc
    }

    /// The angle swept so far, given the angle `raw` from the start to the
    /// car as seen from the center, counted in the direction of the plan.
    pub fn sweep_between(&self, raw: i64) -> (swept: i64)
        requires
            is_wrapped(raw as int),
        ensures
            swept == self@.sweep_between(raw as int),
            within(swept as int, TAU + PI),
    {
        if raw < 0 && self.sweep >= 0 {
            raw + TAU
        } else if raw > 0 && self.sweep < 0 {
            raw - TAU
        } else {
            raw
        }
    }

    fn start_rot(&self) -> (rot: Rotation2)
        ensures
            rot == self@.start_rot(),
            rot.wf(),
    {
        proof {
            use_type_invariant(self);
        }
        Rotation2::of(&self.start_vel)
    }

    fn end_loc(&self) -> (loc: Point2)
        ensures
            loc == self@.end_loc(),
            within(loc.x as int, 5 * COORD_LIMIT),
            within(loc.y as int, 5 * COORD_LIMIT),
    {
        proof {
            use_type_invariant(self);
        }
        let from_center = self.start_loc.minus(&self.center);
        let turned = self.turn.apply(&from_center);
        self.center.plus(&turned)
    }

    fn end_vel(&self) -> (vel: Vector2)
        ensures
            vel == self@.end_vel(),
            within(vel.x as int, 2 * COORD_LIMIT),
            within(vel.y as int, 2 * COORD_LIMIT),
    {
        proof {
            use_type_invariant(self);
        }
        self.turn.apply(&self.start_vel)
    }

    fn end_rot(&self) -> (rot: Rotation2)
        ensures
            rot == self@.end_rot(),
            rot.wf(),
    {
        let vel = self.end_vel();
        Rotation2::of(&vel)
    }

    pub fn name(&self) -> (name: &'static str)
        ensures
            name@ == "SimpleArc"@,
    {
        "SimpleArc"
    }

    /// The state in which the arc starts.
    pub fn start(&self) -> (state: CarState)
        ensures
            state == self@.start(),
            state.bounded(),
    {
        proof {
            use_type_invariant(self);
        }
        (CarState2D {
            loc: self.start_loc,
            rot: self.start_rot(),
            vel: self.start_vel,
            boost: self.start_boost,
        }).to_3d()
    }

    /// The state in which the arc ends.
    pub fn end(&self) -> (state: CarState)
        ensures
            state == self@.end(),
    {
        (CarState2D {
            loc: self.end_loc(),
            rot: self.end_rot(),
            vel: self.end_vel(),
            boost: self.start_boost,
        }).to_3d()
    }

    /// The time the arc takes, in microseconds.
    pub fn duration(&self) -> (d: i64)
        ensures
            d == self@.duration(),
    {
        proof {
            use_type_invariant(self);
        }
        let speed = self.start_vel.norm();
        let angle: i64 = if self.sweep >= 0 {
            self.sweep
        } else {
            -self.sweep
        };
        proof {
            lemma_product_within(self.radius as int, angle as int, COORD_LIMIT as int, TAU as int);
            lemma_div_trunc_within(self.radius * angle, speed as int, COORD_LIMIT * TAU);
            assert(within(self.radius * angle, COORD_LIMIT * TAU * speed)) by (nonlinear_arith)
                requires
                    within(self.radius * angle, COORD_LIMIT * TAU),
                    speed >= 1,
            ;
        }
        let length: i128 = self.radius as i128 * angle as i128;
        (length / speed as i128) as i64
    }

    /// What drives the car along the arc.
    pub fn run(&self) -> (runner: SimpleArcRunner)
        ensures
            runner.plan() == *self,
    {
        SimpleArcRunner::new(*self)
    }
}

/// Drives the car along a planned arc, tick by tick.
#[derive(Clone, Copy, Debug)]
pub struct SimpleArcRunner {
    plan: SimpleArc,
}

impl SimpleArcRunner {
    /// The plan that the runner follows.
    pub closed spec fn plan(self) -> SimpleArc {
        self.plan
    }

    pub fn new(plan: SimpleArc) -> (runner: SimpleArcRunner)
        ensures
            runner.plan() == plan,
    {
        SimpleArcRunner { plan }
    }

    pub fn name(&self) -> (name: &'static str)
        ensures
            name@ == "SimpleArcRunner"@,
    {
        "SimpleArcRunner"
    }

    /// The point of the circle that lies fifteen degrees ahead of `loc` in
    /// the direction of the plan. The caller measures the angle from the
    /// car's heading to this point and hands it to `execute`.
    pub fn calculate_ahead_loc(&self, loc: Point2) -> (ahead: Point2)
        requires
            loc.bounded(),
        ensures
            ahead == self.plan()@.ahead_loc(loc),
            within(ahead.x as int, 2 * COORD_LIMIT),
            within(ahead.y as int, 2 * COORD_LIMIT),
    {
        proof {
            use_type_invariant(&self.plan);
        }
        let center_to_loc = loc.minus(&self.plan.center);
        let ahead = Rotation2 {
            cos: AHEAD_COS,
            sin: if self.plan.sweep >= 0 {
                AHEAD_SIN
            } else {
                -AHEAD_SIN
            },
        };
        let turned = ahead.apply(&center_to_loc);
        let n = turned.norm();
        if n == 0 {
            return self.plan.center;
        }
        proof {
            lemma_part_within_norm(turned);
            lemma_product_within(turned.x as int, self.plan.radius as int, n as int, COORD_LIMIT as int);
            lemma_product_within(turned.y as int, self.plan.radius as int, n as int, COORD_LIMIT as int);
            assert(n * COORD_LIMIT == COORD_LIMIT * n) by (nonlinear_arith);
            lemma_div_trunc_within(turned.x * self.plan.radius, n as int, COORD_LIMIT as int);
            lemma_div_trunc_within(turned.y * self.plan.radius, n as int, COORD_LIMIT as int);
        }
        let x: i128 = turned.x as i128 * self.plan.radius as i128 / n as i128;
        let y: i128 = turned.y as i128 * self.plan.radius as i128 / n as i128;
        self.plan.center.plus(&Vector2 { x: x as i64, y: y as i64 })
    }

    /// Runs the arc for one tick. The caller measures two angles: `swept_raw`
    /// from the start of the arc to the car as seen from the center, and
    /// `aim` from the car's heading to the point that `calculate_ahead_loc`
    /// gives; each the short way round, counter-clockwise positive.
    pub fn execute(&mut self, ctx: &Context, swept_raw: i64, aim: i64) -> (action: SegmentRunAction)
        requires
            is_wrapped(swept_raw as int),
        ensures
            action == arc_tick(old(self).plan()@, flat(ctx.me), swept_raw as int, aim as int),
            *final(self) == *old(self),
    {
        if !GetToFlatGround::on_flat_ground(ctx.me()) {
            return SegmentRunAction::Failure;
        }
        // Check if we're finished.
        let swept = self.plan.sweep_between(swept_raw);
        let planned = self.plan.sweep();
        let swept_wide = if swept >= 0 {
            swept
        } else {
            -swept
        };
        let planned_wide = if planned >= 0 {
            planned
        } else {
            -planned
        };
        if swept_wide >= planned_wide {
            return SegmentRunAction::Success;
        }
        let milli = aim / MILLI;
        let steer: i32 = if milli < -(AXIS_FULL as i64) {
            -AXIS_FULL
        } else if milli > AXIS_FULL as i64 {
            AXIS_FULL
        } else {
            milli as i32
        };
        SegmentRunAction::Yield(
            PlayerInput {
                throttle: AXIS_FULL,
                steer,
                pitch: 0,
                yaw: 0,
                roll: 0,
                jump: false,
                boost: false,
                handbrake: false,
            },
        )
    }
}

} // verus!
