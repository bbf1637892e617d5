//! Sampled speed curves: how fast the car goes after a given time of
//! coasting, of full throttle, or of boosting.
//!
//! A curve is a list of samples `(time, speed)`, in the order in which they
//! were recorded. Nothing is interpolated: a lookup answers with the last
//! sample that does not exceed the query.
use vstd::prelude::*;

verus! {

/// The largest magnitude of a sample's time, in microseconds.
pub const TIME_LIMIT: i64 = 0x4000_0000_0000_0000;

/// The largest speed of a sample.
pub const SPEED_LIMIT: i64 = 0x100_0000_0000;

/// No entry is smaller than an earlier one.
pub open spec fn ascending(xs: Seq<i64>) -> bool {
    forall|i: int, j: int| 0 <= i <= j < xs.len() ==> xs[i] <= xs[j]
}

/// No entry is larger than an earlier one.
pub open spec fn descending(xs: Seq<i64>) -> bool {
    forall|i: int, j: int| 0 <= i <= j < xs.len() ==> xs[i] >= xs[j]
}

/// The index at which a lookup of `x` in `xs` lands: start at the first entry
/// and move on for as long as the next entry does not exceed `x`. In an
/// ascending list that is the last entry not above `x`, or the first entry
/// where all are above it.
pub open spec fn floor_index(xs: Seq<i64>, x: int) -> int
    decreases xs.len(),
{
    if xs.len() <= 1 || xs[1] > x {
        0
    } else {
        1 + floor_index(xs.subrange(1, xs.len() as int), x)
    }
}

/// What `floor_index` finds in an ascending list.
pub proof fn lemma_floor_index(xs: Seq<i64>, x: int)
    requires
        xs.len() > 0,
        ascending(xs),
    ensures
        0 <= floor_index(xs, x) < xs.len(),
        forall|j: int| floor_index(xs, x) < j < xs.len() ==> xs[j] > x,
        xs[0] <= x ==> xs[floor_index(xs, x)] <= x,
        xs[0] > x ==> floor_index(xs, x) == 0,
    decreases xs.len(),
{
    if xs.len() <= 1 || xs[1] > x {
        assert forall|j: int| 0 < j < xs.len() implies xs[j] > x by {
            assert(xs[1] <= xs[j]);
        }
    } else {
        let tail = xs.subrange(1, xs.len() as int);
        assert forall|i: int, j: int| 0 <= i <= j < tail.len() implies tail[i] <= tail[j] by {
            assert(xs[i + 1] <= xs[j + 1]);
        }
        lemma_floor_index(tail, x);
        let i = floor_index(tail, x);
        assert(tail[0] == xs[1]);
        assert(tail[i] == xs[i + 1]);
        assert forall|j: int| 1 + i < j < xs.len() implies xs[j] > x by {
            assert(tail[j - 1] == xs[j]);
        }
        assert(xs[0] <= xs[1]);
    }
}

/// Only one index of an ascending list has nothing above it that is within
/// `x` and is itself within `x` or the first.
pub proof fn lemma_floor_index_unique(xs: Seq<i64>, x: int, k: int)
    requires
        ascending(xs),
        0 <= k < xs.len(),
        forall|j: int| k < j < xs.len() ==> xs[j] > x,
        k > 0 ==> xs[k] <= x,
    ensures
        floor_index(xs, x) == k,
{
    lemma_floor_index(xs, x);
    let i = floor_index(xs, x);
    if k < i {
        assert(xs[0] <= xs[k]);
        assert(xs[i] > x);
        if xs[0] > x {
            assert(i == 0);
        }
    }
}

/// Looks `x` up in the ascending list `xs` and answers with the entry of `ys`
/// at the index where the lookup lands. There is no interpolation between
/// entries.
pub fn linear_interpolate(xs: &[i64], ys: &[i64], x: i64) -> (y: i64)
    requires
        ascending(xs@),
        ys@.len() > 0,
        ys@.len() >= xs@.len(),
    ensures
        y == ys@[floor_index(xs@, x as int)],
{
    let n = xs.len();
    if n == 0 {
        return ys[0];
    }
    // Count the entries that do not exceed `x`.
    let mut lo: usize = 0;
    let mut hi: usize = n;
    while lo < hi
        invariant
            0 <= lo <= hi <= n,
            n == xs@.len(),
            ascending(xs@),
            forall|j: int| 0 <= j < lo ==> xs@[j] <= x,
            forall|j: int| hi <= j < n ==> xs@[j] > x,
        decreases hi - lo,
    {
        let mid = lo + (hi - lo) / 2;
        if xs[mid] <= x {
            assert forall|j: int| 0 <= j < mid + 1 implies xs@[j] <= x by {
                assert(xs@[j] <= xs@[mid as int]);
            }
            lo = mid + 1;
        } else {
            assert forall|j: int| mid <= j < n implies xs@[j] > x by {
                assert(xs@[mid as int] <= xs@[j]);
            }
            hi = mid;
        }
    }
    let index = if lo == 0 {
        0
    } else {
        lo - 1
    };
    proof {
        lemma_floor_index_unique(xs@, x as int, index as int);
    }
    ys[index]
}

/// A curve as a value: its samples in recorded order, and whether speed
/// rises along it (acceleration) or falls (coasting).
pub struct CurveModel {
    pub time: Seq<i64>,
    pub speed: Seq<i64>,
    pub rising: bool,
}

impl CurveModel {
    /// What a usable curve is: as many speeds as times and at least one, times
    /// ascending and within `TIME_LIMIT`, no speed negative or above
    /// `SPEED_LIMIT`, and the speeds in the order that `rising` announces.
    pub open spec fn valid(self) -> bool {
        &&& self.time.len() == self.speed.len()
        &&& self.time.len() > 0
        &&& ascending(self.time)
        &&& forall|i: int| 0 <= i < self.time.len() ==> -TIME_LIMIT <= #[trigger] self.time[i] <= TIME_LIMIT
        &&& forall|i: int| 0 <= i < self.speed.len() ==> 0 <= #[trigger] self.speed[i] <= SPEED_LIMIT
        &&& if self.rising {
            ascending(self.speed)
        } else {
            descending(self.speed)
        }
    }

    /// The speed of the last sample taken at or before `t`; the first
    /// sample's speed where `t` is before all of them.
    pub open spec fn speed_at(self, t: int) -> int {
        self.speed[floor_index(self.time, t)] as int
    }

    /// The time of the sample at which a lookup of the speed `v` lands. The
    /// lookup walks the speeds in ascending order: recorded order on a rising
    /// curve, reverse order on a falling one.
    pub open spec fn time_at(self, v: int) -> int {
        if self.rising {
            self.time[floor_index(self.speed, v)] as int
        } else {
            self.time.reverse()[floor_index(self.speed.reverse(), v)] as int
        }
    }

    /// The position in recorded order of the sample that `time_at` lands on.
    pub open spec fn index_at_speed(self, v: int) -> int {
        if self.rising {
            floor_index(self.speed, v)
        } else {
            self.speed.len() - 1 - floor_index(self.speed.reverse(), v)
        }
    }

    /// The speed of the last sample.
    pub open spec fn last_speed(self) -> int {
        self.speed[self.speed.len() - 1] as int
    }
}

/// A falling list read backwards is ascending.
pub proof fn lemma_reverse_ascending(xs: Seq<i64>)
    requires
        descending(xs),
    ensures
        ascending(xs.reverse()),
        xs.reverse().len() == xs.len(),
        forall|i: int| 0 <= i < xs.len() ==> xs.reverse()[i] == xs[xs.len() - 1 - i],
{
    let r = xs.reverse();
    assert forall|i: int, j: int| 0 <= i <= j < r.len() implies r[i] <= r[j] by {
        assert(xs[xs.len() - 1 - j] >= xs[xs.len() - 1 - i]);
    }
}

/// `time_at` answers with the time of the sample at `index_at_speed`, which
/// is a sample whose speed does not exceed `v` wherever one exists.
pub proof fn lemma_time_at(c: CurveModel, v: int)
    requires
        c.valid(),
    ensures
        0 <= c.index_at_speed(v) < c.time.len(),
        c.time_at(v) == c.time[c.index_at_speed(v)],
        -TIME_LIMIT <= c.time_at(v) <= TIME_LIMIT,
        !c.rising && c.last_speed() <= v ==> c.speed[c.index_at_speed(v)] <= v,
        !c.rising && c.last_speed() > v ==> c.index_at_speed(v) == c.time.len() - 1,
        c.rising && c.speed[0] <= v ==> c.speed[c.index_at_speed(v)] <= v,
        c.rising && c.speed[0] > v ==> c.index_at_speed(v) == 0,
{
    if c.rising {
        lemma_floor_index(c.speed, v);
    } else {
        lemma_reverse_ascending(c.speed);
        lemma_floor_index(c.speed.reverse(), v);
        let k = floor_index(c.speed.reverse(), v);
        assert(c.time.reverse()[k] == c.time[c.time.len() - 1 - k]);
        assert(c.speed.reverse()[k] == c.speed[c.speed.len() - 1 - k]);
        assert(c.speed.reverse()[0] == c.speed[c.speed.len() - 1]);
    }
}

/// `speed_at` answers with a sample's speed, and with that of a sample no
/// earlier than any sample taken at or before `t`.
pub proof fn lemma_speed_at(c: CurveModel, t: int, i: int)
    requires
        c.valid(),
        0 <= i < c.time.len(),
        c.time[i] <= t,
    ensures
        i <= floor_index(c.time, t) < c.time.len(),
        c.speed_at(t) == c.speed[floor_index(c.time, t)],
        0 <= c.speed_at(t),
{
    lemma_floor_index(c.time, t);
    let j = floor_index(c.time, t);
    if j < i {
        assert(c.time[i] > t);
    }
}

/// Whatever the time, `speed_at` answers with the speed of one of the
/// samples.
pub proof fn lemma_speed_at_is_sample(c: CurveModel, t: int)
    requires
        c.valid(),
    ensures
        0 <= floor_index(c.time, t) < c.time.len(),
        c.speed_at(t) == c.speed[floor_index(c.time, t)],
        0 <= c.speed_at(t) <= SPEED_LIMIT,
{
    lemma_floor_index(c.time, t);
}

/// One speed curve, held in recorded order and in reverse.
pub struct SpeedCurve {
    time: Vec<i64>,
    speed: Vec<i64>,
    time_rev: Vec<i64>,
    speed_rev: Vec<i64>,
    rising: bool,
}

impl View for SpeedCurve {
    type V = CurveModel;

    closed spec fn view(&self) -> CurveModel {
        CurveModel { time: self.time@, speed: self.speed@, rising: self.rising }
    }
}

/// A copy of `xs` in reverse order.
fn reversed(xs: &Vec<i64>) -> (r: Vec<i64>)
    ensures
        r@ == xs@.reverse(),
{
    let n = xs.len();
    let mut r: Vec<i64> = Vec::new();
    let mut i: usize = 0;
    while i < n
        invariant
            0 <= i <= n,
            n == xs@.len(),
            r@.len() == i,
            forall|k: int| 0 <= k < i ==> r@[k] == xs@[n - 1 - k],
        decreases n - i,
    {
        r.push(xs[n - 1 - i]);
        i = i + 1;
    }
    assert(r@ =~= xs@.reverse());
    r
}

impl SpeedCurve {
    #[verifier::type_invariant]
    spec fn inv(self) -> bool {
        &&& self@.valid()
        &&& self.time_rev@ == self.time@.reverse()
        &&& self.speed_rev@ == self.speed@.reverse()
    }

    /// Makes a curve of the samples `(time[i], speed[i])`, or nothing where
    /// they are no valid curve.
    pub fn new(time: Vec<i64>, speed: Vec<i64>, rising: bool) -> (r: Option<SpeedCurve>)
        ensures
            r is Some <==> (CurveModel { time: time@, speed: speed@, rising }).valid(),
            r matches Some(c) ==> c@ == (CurveModel { time: time@, speed: speed@, rising }),
    {
        let n = time.len();
        if n == 0 || speed.len() != n {
            return None;
        }
        let mut i: usize = 0;
        while i < n
            invariant
                0 <= i <= n,
                n == time@.len(),
                n == speed@.len(),
                forall|a: int, b: int| 0 <= a <= b < i ==> time@[a] <= time@[b],
                forall|a: int| 0 <= a < i ==> -TIME_LIMIT <= #[trigger] time@[a] <= TIME_LIMIT,
                forall|a: int| 0 <= a < i ==> 0 <= #[trigger] speed@[a] <= SPEED_LIMIT,
                rising ==> forall|a: int, b: int| 0 <= a <= b < i ==> speed@[a] <= speed@[b],
                !rising ==> forall|a: int, b: int| 0 <= a <= b < i ==> speed@[a] >= speed@[b],
            decreases n - i,
        {
            let t = time[i];
            let s = speed[i];
            if t < -TIME_LIMIT || t > TIME_LIMIT || s < 0 || s > SPEED_LIMIT {
                return None;
            }
            if i > 0 {
                let tp = time[i - 1];
                let sp = speed[i - 1];
                if tp > t {
                    assert(!ascending(time@)) by {
                        assert(time@[i - 1] > time@[i as int]);
                    }
                    return None;
                }
                if rising && sp > s {
                    assert(!ascending(speed@)) by {
                        assert(speed@[i - 1] > speed@[i as int]);
                    }
                    return None;
                }
                if !rising && sp < s {
                    assert(!descending(speed@)) by {
                        assert(speed@[i - 1] < speed@[i as int]);
                    }
                    return None;
                }
                assert forall|a: int, b: int| 0 <= a <= b < i + 1 implies time@[a] <= time@[b] by {
                    if b == i && a < i {
                        assert(time@[a] <= time@[i - 1]);
                    }
                }
                if rising {
                    assert forall|a: int, b: int| 0 <= a <= b < i + 1 implies speed@[a] <= speed@[b] by {
                        if b == i && a < i {
                            assert(speed@[a] <= speed@[i - 1]);
                        }
                    }
                } else {
                    assert forall|a: int, b: int| 0 <= a <= b < i + 1 implies speed@[a] >= speed@[b] by {
                        if b == i && a < i {
                            assert(speed@[a] >= speed@[i - 1]);
                        }
                    }
                }
            }
            i = i + 1;
        }
        let time_rev = reversed(&time);
        let speed_rev = reversed(&speed);
        Some(SpeedCurve { time, speed, time_rev, speed_rev, rising })
    }

    /// Whether speed rises along the curve.
    pub fn is_rising(&self) -> (r: bool)
        ensures
            r == self@.rising,
            self@.valid(),
    {
        proof {
            use_type_invariant(self);
        }
        self.rising
    }

    /// The speed of the last sample taken at or before `t`.
    pub fn speed_at(&self, t: i64) -> (v: i64)
        ensures
            v == self@.speed_at(t as int),
            self@.valid(),
    {
        proof {
            use_type_invariant(self);
        }
        linear_interpolate(self.time.as_slice(), self.speed.as_slice(), t)
    }

    /// The time of the sample at which a lookup of the speed `v` lands.
    pub fn time_at(&self, v: i64) -> (t: i64)
        ensures
            t == self@.time_at(v as int),
            self@.valid(),
    {
        proof {
            use_type_invariant(self);
        }
        if self.rising {
            linear_interpolate(self.speed.as_slice(), self.time.as_slice(), v)
        } else {
            proof {
                lemma_reverse_ascending(self.speed@);
                assert(self.time@.reverse().len() == self.time@.len());
            }
            linear_interpolate(self.speed_rev.as_slice(), self.time_rev.as_slice(), v)
        }
    }
}

/// The three curves as values.
pub struct TablesModel {
    pub coast: CurveModel,
    pub throttle: CurveModel,
    pub boost: CurveModel,
}

impl TablesModel {
    /// Each curve is valid; coasting slows the car, throttle and boost speed
    /// it up.
    pub open spec fn valid(self) -> bool {
        &&& self.coast.valid()
        &&& self.throttle.valid()
        &&& self.boost.valid()
        &&& !self.coast.rising
        &&& self.throttle.rising
        &&& self.boost.rising
    }
}

/// The speed curves of the three regimes: coasting, full throttle and boost.
pub struct Tables {
    coast: SpeedCurve,
    throttle: SpeedCurve,
    boost: SpeedCurve,
}

impl View for Tables {
    type V = TablesModel;

    closed spec fn view(&self) -> TablesModel {
        TablesModel { coast: self.coast@, throttle: self.throttle@, boost: self.boost@ }
    }
}

impl Tables {
    #[verifier::type_invariant]
    spec fn inv(self) -> bool {
        self@.valid()
    }

    /// Puts the three curves together, or gives nothing where the coasting
    /// curve rises or one of the others falls.
    pub fn new(coast: SpeedCurve, throttle: SpeedCurve, boost: SpeedCurve) -> (r: Option<Tables>)
        ensures
            r is Some <==> !coast@.rising && throttle@.rising && boost@.rising,
            r matches Some(t) ==> t@ == (TablesModel {
                coast: coast@,
                throttle: throttle@,
                boost: boost@,
            }) && t@.valid(),
    {
        if !coast.is_rising() && throttle.is_rising() && boost.is_rising() {
            Some(Tables { coast, throttle, boost })
        } else {
            None
        }
    }

    /// The curve of coasting.
    pub fn coast(&self) -> (c: &SpeedCurve)
        ensures
            c@ == self@.coast,
            self@.valid(),
    {
        proof {
            use_type_invariant(self);
        }
        &self.coast
    }

    /// The curve of full throttle without boost.
    pub fn throttle(&self) -> (c: &SpeedCurve)
        ensures
            c@ == self@.throttle,
            self@.valid(),
    {
        proof {
            use_type_invariant(self);
        }
        &self.throttle
    }

    /// The curve of full throttle with boost.
    pub fn boost(&self) -> (c: &SpeedCurve)
        ensures
            c@ == self@.boost,
            self@.valid(),
    {
        proof {
            use_type_invariant(self);
        }
        &self.boost
    }
}

} // verus!
