//! Putting segments together into a route.
use vstd::prelude::*;
use crate::math::is_wrapped;
use crate::rl::COORD_LIMIT;
use crate::routing::models::CarState;
use crate::routing::segments::jump_and_dodge::JumpAndDodge;
use crate::routing::segments::simple_arc::{arc_plan, ArcModel, SimpleArc, SimpleArcError};
use crate::vector::{within, Point2, Rotation2};

verus! {

/// One segment of a route.
#[derive(Clone, Copy, Debug)]
pub enum SegmentPlan {
    Arc(SimpleArc),
    JumpAndDodge(JumpAndDodge),
}

/// A segment as a value.
pub enum SegmentModel {
    Arc(ArcModel),
    JumpAndDodge(JumpAndDodge),
}

impl View for SegmentPlan {
    type V = SegmentModel;

    open spec fn view(&self) -> SegmentModel {
        match *self {
            SegmentPlan::Arc(arc) => SegmentModel::Arc(arc@),
            SegmentPlan::JumpAndDodge(dodge) => SegmentModel::JumpAndDodge(dodge),
        }
    }
}

impl SegmentModel {
    /// What every segment of a planned route satisfies.
    pub open spec fn wf(self) -> bool {
        match self {
            SegmentModel::Arc(arc) => arc.valid(),
            SegmentModel::JumpAndDodge(dodge) => dodge.wf(),
        }
    }

    /// The state in which the segment starts.
    pub open spec fn start(self) -> CarState {
        match self {
            SegmentModel::Arc(arc) => arc.start(),
            SegmentModel::JumpAndDodge(dodge) => dodge.start,
        }
    }

    /// The state in which the segment ends.
    pub open spec fn end(self) -> CarState {
        match self {
            SegmentModel::Arc(arc) => arc.end(),
            SegmentModel::JumpAndDodge(dodge) => dodge.end_spec(),
        }
    }

    /// The time the segment takes, in microseconds.
    pub open spec fn duration(self) -> int {
        match self {
            SegmentModel::Arc(arc) => arc.duration(),
            SegmentModel::JumpAndDodge(dodge) => JumpAndDodge::duration_spec(),
        }
    }
}

impl SegmentPlan {
    pub fn name(&self) -> (name: &'static str)
        ensures
            self@ is Arc ==> name@ == "SimpleArc"@,
            self@ is JumpAndDodge ==> name@ == "JumpAndDodge"@,
    {
        match self {
            SegmentPlan::Arc(arc) => arc.name(),
            SegmentPlan::JumpAndDodge(dodge) => dodge.name(),
        }
    }

    /// The state in which the segment starts.
    pub fn start(&self) -> (state: CarState)
        ensures
            state == self@.start(),
    {
        match self {
            SegmentPlan::Arc(arc) => arc.start(),
            SegmentPlan::JumpAndDodge(dodge) => dodge.start(),
        }
    }

    /// The state in which the segment ends.
    pub fn end(&self) -> (state: CarState)
        requires
            self@.wf(),
        ensures
            state == self@.end(),
    {
        match self {
            SegmentPlan::Arc(arc) => arc.end(),
            SegmentPlan::JumpAndDodge(dodge) => dodge.end(),
        }
    }

    /// The time the segment takes, in microseconds.
    pub fn duration(&self) -> (d: i64)
        ensures
            d == self@.duration(),
    {
        match self {
            SegmentPlan::Arc(arc) => arc.duration(),
            SegmentPlan::JumpAndDodge(dodge) => dodge.duration(),
        }
    }
}

/// What makes a segment once the state it starts from is known.
#[derive(Clone, Copy, PartialEq, Eq, Structural, Debug)]
pub enum SegmentPlanner {
    /// An arc round `center` to `end_loc`. `raw_sweep` is the angle from the
    /// start to the end as seen from the center, measured the short way
    /// round.
    Arc { center: Point2, radius: i64, end_loc: Point2, raw_sweep: i64 },
    /// A jump and a dodge in `direction`, relative to the heading.
    JumpAndDodge { direction: Rotation2 },
}

/// Why a route could not be planned.
#[derive(Clone, Copy, PartialEq, Eq, Structural, Debug)]
pub enum RoutePlanError {
    /// A segment would start from a state, or was asked for with a point,
    /// a radius or an angle, that is beyond the limits of the geometry.
    OutOfBounds,
    /// An arc could not be planned.
    Arc(SimpleArcError),
}

impl SegmentPlanner {
    /// The segment that the planner makes from `start`, or the reason why
    /// it makes none.
    pub open spec fn plan_spec(self, start: CarState) -> Result<SegmentModel, RoutePlanError> {
        match self {
            SegmentPlanner::Arc { center, radius, end_loc, raw_sweep } => if !(start.bounded()
                && center.bounded() && end_loc.bounded() && within(radius as int, COORD_LIMIT as int)
                && is_wrapped(raw_sweep as int)) {
                Err(RoutePlanError::OutOfBounds)
            } else {
                match arc_plan(
                    center,
                    radius as int,
                    start.loc.to_2d_spec(),
                    start.vel.to_2d_spec(),
                    start.boost as int,
                    end_loc,
                    raw_sweep as int,
                ) {
                    Ok(arc) => Ok(SegmentModel::Arc(arc)),
                    Err(e) => Err(RoutePlanError::Arc(e)),
                }
            },
            SegmentPlanner::JumpAndDodge { direction } => if !(start.bounded() && direction.wf()) {
                Err(RoutePlanError::OutOfBounds)
            } else {
                Ok(SegmentModel::JumpAndDodge(JumpAndDodge { start, direction }))
            },
        }
    }

    /// Makes the segment that starts from `start`.
    pub fn plan(&self, start: &CarState) -> (r: Result<SegmentPlan, RoutePlanError>)
        ensures
            match r {
                Ok(segment) => self.plan_spec(*start) == Ok::<SegmentModel, RoutePlanError>(segment@)
                    && segment@.wf(),
                Err(e) => self.plan_spec(*start) == Err::<SegmentModel, RoutePlanError>(e),
            },
    {
        if !start.is_bounded() {
            return Err(RoutePlanError::OutOfBounds);
        }
        match self {
            SegmentPlanner::Arc { center, radius, end_loc, raw_sweep } => {
                if !(center.is_bounded() && end_loc.is_bounded() && -COORD_LIMIT <= *radius
                    && *radius <= COORD_LIMIT && -crate::rl::PI <= *raw_sweep && *raw_sweep
                    <= crate::rl::PI) {
                    return Err(RoutePlanError::OutOfBounds);
                }
                match SimpleArc::new(
                    *center,
                    *radius,
                    start.loc.to_2d(),
                    start.vel.to_2d(),
                    start.boost,
                    *end_loc,
                    *raw_sweep,
                ) {
                    Ok(arc) => Ok(SegmentPlan::Arc(arc)),
                    Err(e) => Err(RoutePlanError::Arc(e)),
                }
            },
            SegmentPlanner::JumpAndDodge { direction } => {
                if !direction.is_wf() {
                    return Err(RoutePlanError::OutOfBounds);
                }
                Ok(SegmentPlan::JumpAndDodge(JumpAndDodge::new(*start, *direction)))
            },
        }
    }
}

/// The first `n` segments of the route that `planners` make from `start`,
/// and the state in which the last of them ends: each segment starts from
/// the state in which the one before it ends, the first from `start`. Where
/// one of them cannot be planned, the reason why the first such cannot.
pub open spec fn route_prefix(start: CarState, planners: Seq<SegmentPlanner>, n: nat) -> Result<
    (Seq<SegmentModel>, CarState),
    RoutePlanError,
>
    decreases n,
{
    if n == 0 {
        Ok((Seq::empty(), start))
    } else {
        match route_prefix(start, planners, (n - 1) as nat) {
            Err(e) => Err(e),
            Ok((segments, state)) => match planners[n - 1].plan_spec(state) {
                Err(e) => Err(e),
                Ok(segment) => Ok((segments.push(segment), segment.end())),
            },
        }
    }
}

/// The route that `planners` make from `start`: all of it or none.
pub open spec fn route_spec(start: CarState, planners: Seq<SegmentPlanner>) -> Result<
    Seq<SegmentModel>,
    RoutePlanError,
> {
    match route_prefix(start, planners, planners.len()) {
        Err(e) => Err(e),
        Ok((segments, state)) => Ok(segments),
    }
}

/// The time a route takes: the times of its segments, added up.
pub open spec fn route_duration(segments: Seq<SegmentModel>) -> int
    decreases segments.len(),
{
    if segments.len() == 0 {
        0
    } else {
        route_duration(segments.drop_last()) + segments.last().duration()
    }
}

/// A segment that a planner makes from a state starts where that state is,
/// at its velocity and with its boost; a jump and dodge starts in that very
/// state.
pub proof fn lemma_segment_continues(planner: SegmentPlanner, start: CarState)
    requires
        planner.plan_spec(start) is Ok,
    ensures
        planner.plan_spec(start) matches Ok(segment) && segment.start().continues(start) && (segment
            is JumpAndDodge ==> segment.start() == start) && segment.wf(),
{
    match planner {
        SegmentPlanner::Arc { center, radius, end_loc, raw_sweep } => {
            crate::routing::segments::simple_arc::lemma_arc_plan_is_valid(
                center,
                radius as int,
                start.loc.to_2d_spec(),
                start.vel.to_2d_spec(),
                start.boost as int,
                end_loc,
                raw_sweep as int,
            );
        },
        _ => {},
    }
}

/// Of every route that is planned: it has a segment for each planner; its
/// first segment starts from the start of the route; each further one
/// starts, in place, velocity and boost, from the state in which the one
/// before it ends; and the prefix of a route is the route of the prefix.
pub proof fn lemma_route_is_continuous(start: CarState, planners: Seq<SegmentPlanner>, n: nat)
    requires
        n <= planners.len(),
        route_prefix(start, planners, n) is Ok,
    ensures
        route_prefix(start, planners, n) matches Ok((segments, state)) && {
            &&& segments.len() == n
            &&& n > 0 ==> segments[0].start().continues(start)
            &&& n > 0 ==> state == segments[n - 1].end()
            &&& n == 0 ==> state == start
            &&& forall|i: int| 0 <= i < n - 1 ==> (#[trigger] segments[i + 1]).start().continues(segments[i].end())
            &&& forall|i: int| 0 <= i < n ==> (#[trigger] segments[i]).wf()
            &&& forall|i: int| 0 <= i < n ==> planners[i].plan_spec(
                if i == 0 {
                    start
                } else {
                    segments[i - 1].end()
                },
            ) == Ok::<SegmentModel, RoutePlanError>(#[trigger] segments[i])
        },
    decreases n,
{
    if n > 0 {
        lemma_route_is_continuous(start, planners, (n - 1) as nat);
        let (before, state) = route_prefix(start, planners, (n - 1) as nat)->Ok_0;
        lemma_segment_continues(planners[n - 1], state);
        let (segments, end) = route_prefix(start, planners, n)->Ok_0;
        assert(segments == before.push(planners[n - 1].plan_spec(state)->Ok_0));
        assert forall|i: int| 0 <= i < n - 1 implies (#[trigger] segments[i + 1]).start().continues(
            segments[i].end(),
        ) by {
            if i + 1 < n - 1 {
                assert(segments[i + 1] == before[i + 1]);
            }
        }
        assert forall|i: int| 0 <= i < n implies (#[trigger] segments[i]).wf() by {
            if i < n - 1 {
                assert(segments[i] == before[i]);
            }
        }
        assert forall|i: int| 0 <= i < n implies planners[i].plan_spec(
            if i == 0 {
                start
            } else {
                segments[i - 1].end()
            },
        ) == Ok::<SegmentModel, RoutePlanError>(#[trigger] segments[i]) by {
            if i < n - 1 {
                assert(segments[i] == before[i]);
            }
        }
    }
}

/// A route as a value: the state it starts from and its segments, first to
/// last.
pub struct RouteModel {
    pub start: CarState,
    pub segments: Seq<SegmentModel>,
}

impl RouteModel {
    /// The state in which the route ends: that in which its last segment
    /// ends, or its start where it has no segment yet.
    pub open spec fn end(self) -> CarState {
        if self.segments.len() == 0 {
            self.start
        } else {
            self.segments.last().end()
        }
    }

    /// Each segment is a valid one.
    pub open spec fn wf(self) -> bool {
        forall|i: int| 0 <= i < self.segments.len() ==> (#[trigger] self.segments[i]).wf()
    }

    /// The first segment starts from the start of the route, and each
    /// further one from the state in which the one before it ends: in
    /// place, velocity and boost.
    pub open spec fn continuous(self) -> bool {
        &&& self.segments.len() > 0 ==> self.segments[0].start().continues(self.start)
        &&& forall|i: int|
            0 <= i < self.segments.len() - 1 ==> (#[trigger] self.segments[i + 1]).start().continues(
                self.segments[i].end(),
            )
    }

    /// The route with one more segment, which `planner` makes from the
    /// state in which the route ends; or the reason why it makes none.
    pub open spec fn followed_by(self, planner: SegmentPlanner) -> Result<RouteModel, RoutePlanError> {
        match planner.plan_spec(self.end()) {
            Ok(segment) => Ok(RouteModel { start: self.start, segments: self.segments.push(segment) }),
            Err(e) => Err(e),
        }
    }
}

/// A route that grows by one segment is the next longer prefix of the
/// route that the planners make: to plan a route step by step is to plan
/// it.
pub proof fn lemma_route_by_steps(start: CarState, planners: Seq<SegmentPlanner>, n: nat)
    requires
        n < planners.len(),
        route_prefix(start, planners, n) is Ok,
    ensures
        route_prefix(start, planners, n) matches Ok((segments, state)) && state == (RouteModel {
            start,
            segments,
        }).end() && match (RouteModel { start, segments }).followed_by(planners[n as int]) {
            Ok(longer) => route_prefix(start, planners, n + 1) == Ok::<
                (Seq<SegmentModel>, CarState),
                RoutePlanError,
            >((longer.segments, longer.end())),
            Err(e) => route_prefix(start, planners, n + 1) == Err::<
                (Seq<SegmentModel>, CarState),
                RoutePlanError,
            >(e),
        },
{
    lemma_route_is_continuous(start, planners, n);
}

/// A route in the making: it starts from a state and grows segment by
/// segment, each from the state in which the one before it ends.
pub struct Route {
    start: CarState,
    segments: Vec<SegmentPlan>,
}

impl View for Route {
    type V = RouteModel;

    closed spec fn view(&self) -> RouteModel {
        RouteModel { start: self.start, segments: self.segments@.map_values(|s: SegmentPlan| s@) }
    }
}

impl Route {
    #[verifier::type_invariant]
    spec fn inv(self) -> bool {
        self@.wf() && self@.continuous()
    }

    /// The route from `start` that has no segment yet.
    pub fn new(start: CarState) -> (route: Route)
        ensures
            route@ == (RouteModel { start, segments: Seq::empty() }),
    {
        let segments: Vec<SegmentPlan> = Vec::new();
        assert(segments@.map_values(|s: SegmentPlan| s@) =~= Seq::<SegmentModel>::empty());
        Route { start, segments }
    }

    /// How many segments the route has.
    pub fn len(&self) -> (n: usize)
        ensures
            n == self@.segments.len(),
            self@.wf(),
            self@.continuous(),
    {
        proof {
            use_type_invariant(self);
        }
        self.segments.len()
    }

    /// The state in which the route ends.
    pub fn end(&self) -> (state: CarState)
        ensures
            state == self@.end(),
    {
        proof {
            use_type_invariant(self);
        }
        let n = self.segments.len();
        if n == 0 {
            self.start
        } else {
            assert(self@.segments[n - 1] == self.segments@[n - 1]@);
            self.segments[n - 1].end()
        }
    }

    /// Adds the segment that `planner` makes from the state in which the
    /// route ends. Where it makes none, the route is gone, and the reason is
    /// that of the planner.
    pub fn followed_by(self, planner: &SegmentPlanner) -> (r: Result<Route, RoutePlanError>)
        ensures
            match r {
                Ok(longer) => self@.followed_by(*planner) == Ok::<RouteModel, RoutePlanError>(longer@)
                    && longer@.wf() && longer@.continuous(),
                Err(e) => self@.followed_by(*planner) == Err::<RouteModel, RoutePlanError>(e),
            },
    {
        proof {
            use_type_invariant(&self);
        }
        let state = self.end();
        match planner.plan(&state) {
            Err(e) => Err(e),
            Ok(segment) => {
                let ghost before = self@;
                proof {
                    lemma_segment_continues(*planner, state);
                }
                let Route { start, mut segments } = self;
                segments.push(segment);
                proof {
                    let longer = segments@.map_values(|s: SegmentPlan| s@);
                    assert(longer =~= before.segments.push(segment@));
                    assert forall|i: int| 0 <= i < longer.len() implies (#[trigger] longer[i]).wf() by {
                        if i < before.segments.len() {
                            assert(longer[i] == before.segments[i]);
                        }
                    }
                    assert forall|i: int| 0 <= i < longer.len() - 1 implies (#[trigger] longer[i
                        + 1]).start().continues(longer[i].end()) by {
                        assert(longer[i] == before.segments[i]);
                        if i + 1 < before.segments.len() {
                            assert(longer[i + 1] == before.segments[i + 1]);
                        }
                    }
                    if before.segments.len() > 0 {
                        assert(longer[0] == before.segments[0]);
                    }
                }
                Ok(Route { start, segments })
            },
        }
    }

    /// The segments of the route, first to last.
    pub fn into_segments(self) -> (segments: Vec<SegmentPlan>)
        ensures
            segments@.map_values(|s: SegmentPlan| s@) == self@.segments,
            self@.wf(),
            self@.continuous(),
    {
        proof {
            use_type_invariant(&self);
        }
        self.segments
    }
}

/// Plans routes of several segments, one after the other.
pub struct ChainedPlanner {
    pub planners: Vec<SegmentPlanner>,
}

impl ChainedPlanner {
    /// The planner of the route that `planners` make, first to last.
    pub fn chain(planners: Vec<SegmentPlanner>) -> (planner: ChainedPlanner)
        ensures
            planner.planners@ == planners@,
    {
        ChainedPlanner { planners }
    }

    /// Plans the route from `start`: each segment from the state in which
    /// the one before it ends. Where a segment cannot be planned, neither
    /// can the route, and the reason is that of the segment.
    pub fn plan(&self, start: &CarState) -> (r: Result<Vec<SegmentPlan>, RoutePlanError>)
        ensures
            match r {
                Ok(route) => route_spec(*start, self.planners@) == Ok::<
                    Seq<SegmentModel>,
                    RoutePlanError,
                >(route@.map_values(|s: SegmentPlan| s@)),
                Err(e) => route_spec(*start, self.planners@) == Err::<
                    Seq<SegmentModel>,
                    RoutePlanError,
                >(e),
            },
    {
        let mut route = Route::new(*start);
        let mut i: usize = 0;
        while i < self.planners.len()
            invariant
                i <= self.planners.len(),
                route@.start == *start,
                route_prefix(*start, self.planners@, i as nat) == Ok::<
                    (Seq<SegmentModel>, CarState),
                    RoutePlanError,
                >((route@.segments, route@.end())),
            decreases self.planners.len() - i,
        {
            match route.followed_by(&self.planners[i]) {
                Err(e) => {
                    proof {
                        lemma_route_fails(*start, self.planners@, (i + 1) as nat, self.planners@.len());
                    }
                    return Err(e);
                },
                Ok(longer) => {
                    route = longer;
                },
            }
            i = i + 1;
        }
        Ok(route.into_segments())
    }
}

/// A route whose prefix cannot be planned cannot be planned, for the same
/// reason.
pub proof fn lemma_route_fails(start: CarState, planners: Seq<SegmentPlanner>, n: nat, m: nat)
    requires
        n <= m,
        route_prefix(start, planners, n) is Err,
    ensures
        route_prefix(start, planners, m) == route_prefix(start, planners, n),
    decreases m,
{
    if n < m {
        lemma_route_fails(start, planners, n, (m - 1) as nat);
    }
}

} // verus!
