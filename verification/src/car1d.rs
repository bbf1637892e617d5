//! A car driving along one axis, stepped along the sampled speed curves.
use vstd::prelude::*;
use crate::math::{abs, div_trunc};
use crate::rl::{AXIS_FULL, BOOST_DEPLETION_DEN, BOOST_DEPLETION_NUM, CAR_NORMAL_SPEED, MICRO, MILLI};
use crate::tables::{
    floor_index, lemma_speed_at, lemma_speed_at_is_sample, lemma_time_at, CurveModel, Tables,
    TablesModel, SPEED_LIMIT,
};

verus! {

/// The distance covered in `dt` microseconds at the speed `vel`.
pub open spec fn travel(vel: int, dt: int) -> int {
    div_trunc(vel * dt, MICRO as int)
}

/// The boost burnt in `dt` microseconds of boosting.
pub open spec fn boost_spent(dt: int) -> int {
    dt * BOOST_DEPLETION_NUM / (BOOST_DEPLETION_DEN * MILLI)
}

/// The most that a car covers in one step of `dt` microseconds, whether it
/// keeps the speed `vel` or takes one from a curve.
pub open spec fn reach(vel: int, dt: int) -> int {
    if abs(vel) >= SPEED_LIMIT {
        abs(vel) * dt / (MICRO as int)
    } else {
        SPEED_LIMIT * dt / (MICRO as int)
    }
}

/// The curve that the car moves along: boost where boost is burnt, else
/// coasting with no throttle and the throttle curve with it.
pub open spec fn regime(tables: TablesModel, throttle: int, boost: bool) -> CurveModel {
    if boost {
        tables.boost
    } else if throttle == 0 {
        tables.coast
    } else {
        tables.throttle
    }
}

/// The state of a `Car1D` as a value.
pub struct Car1DModel {
    /// Time elapsed.
    pub time: int,
    /// Distance traveled.
    pub loc: int,
    /// Speed.
    pub vel: int,
    /// Boost reserve.
    pub boost: int,
}

impl Car1DModel {
    /// Boost is burnt only where it is asked for and some is left.
    pub open spec fn burns_boost(self, wants_boost: bool) -> bool {
        wants_boost && self.boost > 0
    }

    /// The inputs that the simulation knows: full throttle, with or without
    /// boost; or no throttle, where no boost would be burnt.
    pub open spec fn supports(self, throttle: int, wants_boost: bool) -> bool {
        throttle == AXIS_FULL || (throttle == 0 && !self.burns_boost(wants_boost))
    }

    /// The speed after `dt` microseconds (negative: before). At or above the
    /// throttle's top speed, full throttle leaves the speed as it is. Else
    /// the speed is looked up on the regime's curve as a time, the time is
    /// moved by `dt`, and the time is looked up as a speed.
    pub open spec fn next_speed(self, tables: TablesModel, dt: int, throttle: int, boost: bool) -> int {
        if self.vel >= CAR_NORMAL_SPEED && throttle == AXIS_FULL {
            self.vel
        } else {
            let curve = regime(tables, throttle, boost);
            curve.speed_at(curve.time_at(self.vel) + dt)
        }
    }

    /// The state one step of `dt` microseconds later.
    pub open spec fn step(self, tables: TablesModel, dt: int, throttle: int, wants_boost: bool) -> Car1DModel {
        let boost = self.burns_boost(wants_boost);
        Car1DModel {
            time: self.time + dt,
            loc: self.loc + travel(self.vel, dt),
            vel: self.next_speed(tables, dt, throttle, boost),
            boost: if boost {
                self.boost - boost_spent(dt)
            } else {
                self.boost
            },
        }
    }

    /// The state one step of `dt` microseconds earlier, under the inputs of
    /// that earlier step. The speed is that from which the curve leads to the
    /// present one. Time and distance count up, and boost is spent, as in a
    /// forward step; the distance is covered at the earlier speed.
    pub open spec fn step_rev(self, tables: TablesModel, dt: int, throttle: int, wants_boost: bool) -> Car1DModel {
        let boost = self.burns_boost(wants_boost);
        let vel = self.next_speed(tables, -dt, throttle, boost);
        Car1DModel {
            time: self.time + dt,
            loc: self.loc + travel(vel, dt),
            vel,
            boost: if boost {
                self.boost - boost_spent(dt)
            } else {
                self.boost
            },
        }
    }

    /// The machine's numbers have room for one more step of `dt`
    /// microseconds, forward or backward: for the time, for the distance
    /// whatever the speed turns out to be, and for the boost.
    pub open spec fn has_room(self, dt: int) -> bool {
        &&& self.time + dt <= i64::MAX
        &&& i64::MIN <= self.loc - reach(self.vel, dt)
        &&& self.loc + reach(self.vel, dt) <= i64::MAX
        &&& i64::MIN <= self.boost - boost_spent(dt)
    }

    /// The state after `n` steps of coasting.
    pub open spec fn coast(self, tables: TablesModel, dt: int, n: nat) -> Car1DModel
        decreases n,
    {
        if n == 0 {
            self
        } else {
            self.coast(tables, dt, (n - 1) as nat).step(tables, dt, 0, false)
        }
    }
}

/// The speed after a step is the speed before it or that of a sample: a
/// speed that is not negative stays so, and none is beyond both the speed
/// before and `SPEED_LIMIT`.
pub proof fn lemma_next_speed(car: Car1DModel, tables: TablesModel, dt: int, throttle: int, boost: bool)
    requires
        tables.valid(),
    ensures
        car.next_speed(tables, dt, throttle, boost) == car.vel || 0 <= car.next_speed(
            tables,
            dt,
            throttle,
            boost,
        ) <= SPEED_LIMIT,
{
    let curve = regime(tables, throttle, boost);
    lemma_speed_at_is_sample(curve, curve.time_at(car.vel) + dt);
}

/// No step covers more than `reach` allows, at the speed before it or at
/// the speed after it.
pub proof fn lemma_travel_within_reach(vel: int, next: int, dt: int)
    requires
        dt >= 0,
        next == vel || 0 <= next <= SPEED_LIMIT,
    ensures
        -reach(vel, dt) <= travel(vel, dt) <= reach(vel, dt),
        -reach(vel, dt) <= travel(next, dt) <= reach(vel, dt),
        vel >= 0 ==> travel(vel, dt) >= 0,
        next >= 0 ==> travel(next, dt) >= 0,
        reach(vel, dt) >= 0,
{
    let top = if abs(vel) >= SPEED_LIMIT {
        abs(vel)
    } else {
        SPEED_LIMIT as int
    };
    lemma_travel_bound(vel, top, dt);
    lemma_travel_bound(next, top, dt);
}

proof fn lemma_travel_bound(vel: int, top: int, dt: int)
    requires
        dt >= 0,
        abs(vel) <= top,
    ensures
        -(top * dt / (MICRO as int)) <= travel(vel, dt) <= top * dt / (MICRO as int),
        vel >= 0 ==> travel(vel, dt) >= 0,
        top * dt / (MICRO as int) >= 0,
{
    let m = abs(vel);
    assert(0 <= m * dt <= top * dt) by (nonlinear_arith)
        requires
            0 <= m <= top,
            dt >= 0,
    ;
    assert(vel * dt == m * dt || vel * dt == -(m * dt)) by (nonlinear_arith)
        requires
            m == vel || m == -vel,
    ;
    assert(vel >= 0 ==> vel * dt >= 0) by (nonlinear_arith)
        requires
            dt >= 0,
    ;
    assert(vel < 0 ==> vel * dt <= 0) by (nonlinear_arith)
        requires
            dt >= 0,
    ;
    vstd::arithmetic::div_mod::lemma_div_is_ordered(m * dt, top * dt, MICRO as int);
    vstd::arithmetic::div_mod::lemma_div_pos_is_pos(m * dt, MICRO as int);
    if vel * dt == 0 {
    }
}

/// At or above the throttle's top speed, a step under full throttle leaves
/// the speed exactly as it was, with boost or without. Boost is still spent
/// where it was asked for and some was left, and only there.
pub proof fn lemma_saturation(car: Car1DModel, tables: TablesModel, dt: int, wants_boost: bool)
    requires
        car.vel >= CAR_NORMAL_SPEED,
    ensures
        car.step(tables, dt, AXIS_FULL as int, wants_boost).vel == car.vel,
        car.burns_boost(wants_boost) ==> car.step(tables, dt, AXIS_FULL as int, wants_boost).boost
            == car.boost - boost_spent(dt),
        !car.burns_boost(wants_boost) ==> car.step(tables, dt, AXIS_FULL as int, wants_boost).boost
            == car.boost,
{
}

/// A step that asks for no boost leaves the reserve as it is, and so does one
/// that finds the reserve empty.
pub proof fn lemma_boost_only_on_request(car: Car1DModel, tables: TablesModel, dt: int, throttle: int, wants_boost: bool)
    requires
        !wants_boost || car.boost <= 0,
    ensures
        car.step(tables, dt, throttle, wants_boost).boost == car.boost,
        car.step_rev(tables, dt, throttle, wants_boost).boost == car.boost,
{
}

/// Boost never comes back: neither a forward step nor a backward one leaves
/// more of it than there was.
pub proof fn lemma_boost_never_regenerates(car: Car1DModel, tables: TablesModel, dt: int, throttle: int, wants_boost: bool)
    requires
        dt >= 0,
    ensures
        car.step(tables, dt, throttle, wants_boost).boost <= car.boost,
        car.step_rev(tables, dt, throttle, wants_boost).boost <= car.boost,
        car.step(tables, dt, throttle, wants_boost).boost == car.step_rev(tables, dt, throttle, wants_boost).boost,
        car.step(tables, dt, throttle, wants_boost).time == car.step_rev(tables, dt, throttle, wants_boost).time,
{
}

/// One step of coasting, from a speed that is not negative: the speed stays
/// at or above zero and at or above the curve's last sample. From a speed
/// at or above that last sample it does not rise; from a speed below it, it
/// becomes that sample. The boost is untouched.
pub proof fn lemma_coast_step(car: Car1DModel, tables: TablesModel, dt: int)
    requires
        tables.valid(),
        dt >= 0,
    ensures
        car.step(tables, dt, 0, false).boost == car.boost,
        0 <= tables.coast.last_speed() <= car.step(tables, dt, 0, false).vel,
        car.vel >= tables.coast.last_speed() ==> car.step(tables, dt, 0, false).vel <= car.vel,
        car.vel < tables.coast.last_speed() ==> car.step(tables, dt, 0, false).vel
            == tables.coast.last_speed(),
{
    let c = tables.coast;
    lemma_time_at(c, car.vel);
    let i = c.index_at_speed(car.vel);
    let t = c.time_at(car.vel) + dt;
    lemma_speed_at(c, t, i);
    let j = floor_index(c.time, t);
    assert(c.speed[i] >= c.speed[j]);
    assert(c.speed[j] >= c.speed[c.speed.len() - 1]);
}

/// Coasting step after step: the boost never changes, the speed never goes
/// below zero, and from the first step on (from the start, where the speed
/// is no lower than the curve's last sample) each step leaves a speed no
/// higher than the one before.
pub proof fn lemma_coast(car: Car1DModel, tables: TablesModel, dt: int, n: nat)
    requires
        tables.valid(),
        dt >= 0,
    ensures
        car.coast(tables, dt, n).boost == car.boost,
        car.coast(tables, dt, n).time == car.time + n * dt,
        car.vel >= 0 ==> car.coast(tables, dt, n).vel >= 0,
        n >= 1 ==> car.coast(tables, dt, n).vel >= tables.coast.last_speed(),
        n >= 1 || car.vel >= tables.coast.last_speed() ==> car.coast(tables, dt, n + 1).vel
            <= car.coast(tables, dt, n).vel,
    decreases n,
{
    if n > 0 {
        lemma_coast(car, tables, dt, (n - 1) as nat);
        lemma_coast_step(car.coast(tables, dt, (n - 1) as nat), tables, dt);
        assert(car.time + (n - 1) * dt + dt == car.time + n * dt) by (nonlinear_arith);
    }
    lemma_coast_step(car.coast(tables, dt, n), tables, dt);
}

/// A car on one axis: time elapsed, distance traveled, speed, and boost
/// reserve.
#[derive(Clone, Copy, Debug)]
pub struct Car1D {
    time: i64,
    loc: i64,
    vel: i64,
    boost: i64,
}

impl View for Car1D {
    type V = Car1DModel;

    closed spec fn view(&self) -> Car1DModel {
        Car1DModel {
            time: self.time as int,
            loc: self.loc as int,
            vel: self.vel as int,
            boost: self.boost as int,
        }
    }
}

impl Car1D {
    /// A car at the speed `speed`, with a full reserve of 100 boost points.
    pub fn new(speed: i64) -> (car: Car1D)
        ensures
            car@ == (Car1DModel { time: 0, loc: 0, vel: speed as int, boost: 100 * MILLI }),
    {
        Car1D { time: 0, loc: 0, vel: speed, boost: 100_000 }
    }

    /// The same car with a reserve of `boost` whole boost points.
    pub fn with_boost(self, boost: i32) -> (car: Car1D)
        ensures
            car@ == (Car1DModel { boost: boost * MILLI, ..self@ }),
    {
        Car1D { time: self.time, loc: self.loc, vel: self.vel, boost: boost as i64 * 1_000 }
    }

    /// Time elapsed, in microseconds.
    pub fn time(&self) -> (t: i64)
        ensures
            t == self@.time,
    {
        self.time
    }

    /// Distance traveled.
    pub fn distance_traveled(&self) -> (d: i64)
        ensures
            d == self@.loc,
    {
        self.loc
    }

    /// Speed.
    pub fn speed(&self) -> (v: i64)
        ensures
            v == self@.vel,
    {
        self.vel
    }

    /// Boost reserve, in thousandths of a boost point.
    pub fn boost(&self) -> (b: i64)
        ensures
            b == self@.boost,
    {
        self.boost
    }

    /// Whether `step` and `step_rev` know the inputs: they do not know a
    /// throttle between none and full, nor boost without throttle.
    pub fn supports(&self, throttle: i32, wants_boost: bool) -> (r: bool)
        ensures
            r == self@.supports(throttle as int, wants_boost),
    {
        throttle == AXIS_FULL || (throttle == 0 && !(wants_boost && self.boost > 0))
    }

    /// Whether the machine's numbers have room for one more step of `dt`
    /// microseconds.
    pub fn has_room(&self, dt: u32) -> (r: bool)
        ensures
            r == self@.has_room(dt as int),
    {
        let top: i128 = if self.vel >= SPEED_LIMIT || self.vel <= -SPEED_LIMIT {
            if self.vel >= 0 {
                self.vel as i128
            } else {
                -(self.vel as i128)
            }
        } else {
            SPEED_LIMIT as i128
        };
        assert(0 <= top * dt <= 0x8000_0000_0000_0000 * 0x1_0000_0000) by (nonlinear_arith)
            requires
                0 <= top <= 0x8000_0000_0000_0000,
                0 <= dt <= 0x1_0000_0000,
        ;
        let reach: i128 = top * dt as i128 / MICRO as i128;
        self.time as i128 + dt as i128 <= i64::MAX as i128 && i64::MIN as i128 <= self.loc as i128
            - reach && self.loc as i128 + reach <= i64::MAX as i128 && i64::MIN as i128
            <= self.boost as i128 - spent(dt) as i128
    }

    /// Advances the car by one step of `dt` microseconds.
    pub fn step(&mut self, tables: &Tables, dt: u32, throttle: i32, boost: bool)
        requires
            old(self)@.supports(throttle as int, boost),
            old(self)@.has_room(dt as int),
        ensures
            final(self)@ == old(self)@.step(tables@, dt as int, throttle as int, boost),
            tables@.valid(),
    {
        let boost = boost && self.boost > 0;
        let new_vel = self.compute_new_vel(tables, dt as i64, throttle, boost);
        proof {
            lemma_next_speed(self@, tables@, dt as int, throttle as int, boost);
            lemma_travel_within_reach(self.vel as int, new_vel as int, dt as int);
        }
        let d = distance(self.vel, dt);
        self.time = self.time + dt as i64;
        self.loc = (self.loc as i128 + d) as i64;
        self.vel = new_vel;
        if boost {
            self.boost = self.boost - spent(dt);
        }
    }

    /// Takes the car back by one step of `dt` microseconds, given the inputs
    /// of the step before. Time and distance still count up and boost is
    /// still spent. A car is stepped forward or backward, never both.
    pub fn step_rev(&mut self, tables: &Tables, dt: u32, throttle: i32, boost: bool)
        requires
            old(self)@.supports(throttle as int, boost),
            old(self)@.has_room(dt as int),
        ensures
            final(self)@ == old(self)@.step_rev(tables@, dt as int, throttle as int, boost),
            tables@.valid(),
    {
        let boost = boost && self.boost > 0;
        let new_vel = self.compute_new_vel(tables, -(dt as i64), throttle, boost);
        proof {
            lemma_next_speed(self@, tables@, -(dt as int), throttle as int, boost);
            lemma_travel_within_reach(self.vel as int, new_vel as int, dt as int);
        }
        let d = distance(new_vel, dt);
        self.time = self.time + dt as i64;
        self.vel = new_vel;
        self.loc = (self.loc as i128 + d) as i64;
        if boost {
            self.boost = self.boost - spent(dt);
        }
    }

    fn compute_new_vel(&self, tables: &Tables, dt: i64, throttle: i32, boost: bool) -> (v: i64)
        requires
            throttle == AXIS_FULL || (throttle == 0 && !boost),
            -0x1_0000_0000 <= dt <= 0x1_0000_0000,
        ensures
            v == self@.next_speed(tables@, dt as int, throttle as int, boost),
            tables@.valid(),
    {
        if self.vel >= CAR_NORMAL_SPEED && throttle == AXIS_FULL {
            let _ = tables.coast();
            return self.vel;
        }
        let curve = if boost {
            tables.boost()
        } else if throttle == 0 {
            tables.coast()
        } else {
            tables.throttle()
        };
        let old_time = curve.time_at(self.vel);
        proof {
            lemma_time_at(curve@, self.vel as int);
        }
        let new_time = old_time + dt;
        curve.speed_at(new_time)
    }
}

/// The distance covered in `dt` microseconds at the speed `vel`.
fn distance(vel: i64, dt: u32) -> (d: i128)
    ensures
        d == travel(vel as int, dt as int),
{
    assert(-0x8000_0000_0000_0000 * 0x1_0000_0000 <= vel * dt <= 0x8000_0000_0000_0000 * 0x1_0000_0000)
        by (nonlinear_arith)
        requires
            -0x8000_0000_0000_0000 <= vel <= 0x8000_0000_0000_0000,
            0 <= dt <= 0x1_0000_0000,
    ;
    let p: i128 = vel as i128 * dt as i128;
    p / 1_000_000
}

/// The boost burnt in `dt` microseconds of boosting.
fn spent(dt: u32) -> (b: i64)
    ensures
        b == boost_spent(dt as int),
{
    dt as i64 * BOOST_DEPLETION_NUM / (BOOST_DEPLETION_DEN * MILLI)
}

} // verus!
