//! The interpolation engine's decision core.
//!
//! Given a command, a starting point, and the measurements a geometry
//! backend took for that pair (ceiled distances and swept angles, and the
//! radius tolerance judgment), this module decides exactly: how many
//! waypoints the move needs, which error a degenerate arc is rejected with,
//! and which point each index yields — the destination exactly at the final
//! index, the backend's interpolated point before it. The numeric work
//! itself (lengths, angles, trigonometry) is the backend's; every decision
//! on top of it is verified here.

use super::{CmmdDestination, LinearCMMD, RotationalCMMD, CMMD};
use crate::geometry::{coord_eq, coords_equal, Point3};
use vstd::prelude::*;

verus! {

/// Why interpolation over an arc can fail. A straight-line move cannot
/// fail, so this is also the error type of the unified dispatch.
#[derive(Copy, Clone, PartialEq, Eq, Structural, Debug)]
pub enum InterpolationError {
    /// The starting point's horizontal projection is indistinguishable from
    /// the circle center, so the radius on the start side is undefined.
    CenterCoincident,
    /// The starting point's distance to the circle center differs from the
    /// destination's beyond tolerance: the endpoints share no circle.
    RadiusMismatch,
}

/// The measurements a geometry backend took for one (command, start) pair.
/// The verified core turns them into counts, errors and points; it never
/// recomputes them.
#[derive(Copy, Clone, PartialEq, Eq, Structural, Debug)]
pub struct Measurements {
    /// For a straight-line move: the distance from start to destination,
    /// rounded up to a whole number of unit steps.
    pub linear_steps: usize,
    /// For an arc move: whether start and destination lie at the same
    /// distance from the center, within the configured tolerance.
    pub radii_match: bool,
    /// For an arc move: the swept angle divided by the 5-degree resolution,
    /// rounded up to a whole number of steps.
    pub arc_steps: usize,
}

/// The waypoint count of a straight-line move: one waypoint per unit of
/// travel distance, with a floor of one so a zero-length move still
/// produces its terminal point.
pub open spec fn linear_count(steps: usize) -> usize {
    if steps == 0 {
        1usize
    } else {
        steps
    }
}

/// True when the start's horizontal projection coincides with the arc's
/// center, under IEEE-754 equality.
pub open spec fn center_coincident(cmmd: RotationalCMMD, start: Point3) -> bool {
    coord_eq(cmmd.center_spec().x, start.x) && coord_eq(cmmd.center_spec().y, start.y)
}

/// The waypoint count of an arc move, or the error it is rejected with:
/// a coincident center first, then a radius mismatch, else the number of
/// 5-degree steps with a floor of one.
pub open spec fn rotational_count(
    cmmd: RotationalCMMD,
    start: Point3,
    radii_match: bool,
    arc_steps: usize,
) -> Result<usize, InterpolationError> {
    if center_coincident(cmmd, start) {
        Err(InterpolationError::CenterCoincident)
    } else if !radii_match {
        Err(InterpolationError::RadiusMismatch)
    } else {
        Ok(
            if arc_steps == 0 {
                1usize
            } else {
                arc_steps
            },
        )
    }
}

/// The waypoint count of either kind of move: a straight-line move cannot
/// fail, so its count is unconditionally a success.
pub open spec fn counted(cmmd: CMMD, start: Point3, m: Measurements) -> Result<
    usize,
    InterpolationError,
> {
    match cmmd {
        CMMD::Linear(_) => Ok(linear_count(m.linear_steps)),
        CMMD::Rotational(c) => rotational_count(c, start, m.radii_match, m.arc_steps),
    }
}

impl LinearCMMD {
    /// The number of waypoints needed to traverse from `start` to the
    /// destination, the destination included and `start` excluded, given
    /// the ceiled travel distance `steps` measured by the backend.
    pub fn get_count(&self, steps: usize) -> (r: usize)
        ensures
            r == linear_count(steps),
            r >= 1,
    {
        if steps == 0 {
            1
        } else {
            steps
        }
    }

    /// The waypoint at index `n`, for `1 <= n <= get_count`. The backend
    /// hands in `reached` — whether `n` unit steps reach or overshoot the
    /// destination (it compares `n` squared with the squared move length) —
    /// and `line_point`, the point `n` unit steps from start along the move.
    /// On `reached` the destination is returned exactly, never an
    /// approximation of it.
    pub fn get_nth_point(&self, n: usize, steps: usize, reached: bool, line_point: Point3) -> (r:
        Point3)
        requires
            1 <= n <= linear_count(steps),
        ensures
            reached ==> r == self.destination_spec(),
            !reached ==> r == line_point,
    {
        if reached {
            self.get_destination()
        } else {
            line_point
        }
    }
}

impl RotationalCMMD {
    /// The number of waypoints needed to sweep from `start` to the
    /// destination, or the error the arc is rejected with. The backend
    /// hands in its radius tolerance judgment `radii_match` and the ceiled
    /// number of 5-degree steps `arc_steps`; the degeneracy check against
    /// the center is decided here, exactly.
    pub fn get_count(&self, start: Point3, radii_match: bool, arc_steps: usize) -> (r: Result<
        usize,
        InterpolationError,
    >)
        requires
            start.finite(),
        ensures
            r == rotational_count(*self, start, radii_match, arc_steps),
            r matches Ok(c) ==> c >= 1,
    {
        let center = self.get_center();
        if coords_equal(center.x, start.x) && coords_equal(center.y, start.y) {
            Err(InterpolationError::CenterCoincident)
        } else if !radii_match {
            Err(InterpolationError::RadiusMismatch)
        } else if arc_steps == 0 {
            Ok(1)
        } else {
            Ok(arc_steps)
        }
    }

    /// The waypoint at index `n`, for `1 <= n <= get_count`. At the final
    /// index the destination is returned exactly, never an approximation of
    /// it; before it, `arc_point` — the point the backend placed on the arc
    /// by advancing the azimuthal angle `n` steps from start around the
    /// center — is returned unchanged.
    pub fn get_nth_point(
        &self,
        start: Point3,
        n: usize,
        radii_match: bool,
        arc_steps: usize,
        arc_point: Point3,
    ) -> (r: Point3)
        requires
            start.finite(),
            rotational_count(*self, start, radii_match, arc_steps) matches Ok(c) && 1 <= n <= c,
        ensures
            n == rotational_count(*self, start, radii_match, arc_steps).unwrap() ==> r
                == self.destination_spec(),
            n < rotational_count(*self, start, radii_match, arc_steps).unwrap() ==> r == arc_point,
    {
        let count = match self.get_count(start, radii_match, arc_steps) {
            Ok(c) => c,
            Err(_) => 0,
        };
        if n == count {
            self.get_destination()
        } else {
            arc_point
        }
    }
}

/// The point the unified dispatch yields at index `n`: for a straight-line
/// move the destination exactly once `n` unit steps reach it, else the
/// backend's point on the line; for an arc the destination exactly at the
/// final index, else the backend's point on the arc.
pub open spec fn nth_point_spec(
    cmmd: CMMD,
    start: Point3,
    n: usize,
    m: Measurements,
    reached: bool,
    interior: Point3,
) -> Point3 {
    match cmmd {
        CMMD::Linear(c) => if reached {
            c.destination_spec()
        } else {
            interior
        },
        CMMD::Rotational(c) => if n == counted(cmmd, start, m).unwrap() {
            c.destination_spec()
        } else {
            interior
        },
    }
}

impl CMMD {
    /// The number of waypoints needed to traverse from `start` to the
    /// destination, the destination included and `start` excluded, given
    /// the backend's measurements for this (command, start) pair; or, for a
    /// degenerate arc, the error it is rejected with. A straight-line move
    /// cannot fail, so its count is unconditionally a success.
    pub fn get_count(&self, start: Point3, m: &Measurements) -> (r: Result<
        usize,
        InterpolationError,
    >)
        requires
            start.finite(),
        ensures
            r == counted(*self, start, *m),
            r matches Ok(c) ==> c >= 1,
    {
        match self {
            CMMD::Linear(c) => Ok(c.get_count(m.linear_steps)),
            CMMD::Rotational(c) => c.get_count(start, m.radii_match, m.arc_steps),
        }
    }

    /// The waypoint at index `n`, for `1 <= n <= get_count`, forwarded to
    /// the active variant unchanged. `reached` and `interior` are the
    /// backend's contribution for this index: whether `n` unit steps reach
    /// the destination of a straight-line move, and the interpolated point
    /// on the line or arc.
    pub fn get_nth_point(
        &self,
        start: Point3,
        n: usize,
        m: &Measurements,
        reached: bool,
        interior: Point3,
    ) -> (r: Point3)
        requires
            start.finite(),
            counted(*self, start, *m) matches Ok(c) && 1 <= n <= c,
        ensures
            r == nth_point_spec(*self, start, n, *m, reached, interior),
    {
        match self {
            CMMD::Linear(c) => c.get_nth_point(n, m.linear_steps, reached, interior),
            CMMD::Rotational(c) => c.get_nth_point(
                start,
                n,
                m.radii_match,
                m.arc_steps,
                interior,
            ),
        }
    }
}

/// A restartable-at-construction, finite, bidirectional lazy sequence of
/// waypoint indices over the closed range `1..=count`. It owns a command,
/// a starting point and the measurements' count, plus its cursor, and
/// nothing else; a consumer maps each pulled index to a point with
/// `get_nth_point`, so no point is computed eagerly and none is cached.
/// Once exhausted it stays exhausted.
#[derive(Copy, Clone, PartialEq, Eq, Structural, Debug)]
pub struct CmmdIter {
    cmmd: CMMD,
    start: Point3,
    /// the lowest index not yet yielded
    next_index: usize,
    /// one past the highest index not yet yielded
    end_index: usize,
}

impl CmmdIter {
    pub closed spec fn cmmd_spec(self) -> CMMD {
        self.cmmd
    }

    pub closed spec fn start_spec(self) -> Point3 {
        self.start
    }

    pub closed spec fn next_spec(self) -> int {
        self.next_index as int
    }

    pub closed spec fn end_spec(self) -> int {
        self.end_index as int
    }

    /// The cursor is a sub-range of `1..=count`: indices start at one, and
    /// the two ends never cross.
    pub open spec fn wf(self) -> bool {
        1 <= self.next_spec() <= self.end_spec()
    }

    /// The indices not yet yielded, lowest first.
    pub open spec fn remaining(self) -> Seq<int> {
        Seq::new((self.end_spec() - self.next_spec()) as nat, |i: int| self.next_spec() + i)
    }

    /// Builds the sequence for one (command, start) pair, computing and
    /// validating the count up front: on a degenerate arc the engine's
    /// error propagates and nothing is constructed, so a constructed
    /// sequence is never invalid.
    pub fn new(cmmd: CMMD, start: Point3, m: &Measurements) -> (r: Result<
        CmmdIter,
        InterpolationError,
    >)
        requires
            start.finite(),
            counted(cmmd, start, *m) matches Ok(c) ==> c < usize::MAX,
        ensures
            counted(cmmd, start, *m) matches Ok(c) ==> r matches Ok(it) && it.wf()
                && it.cmmd_spec() == cmmd && it.start_spec() == start && it.next_spec() == 1
                && it.end_spec() == c + 1 && it.remaining() =~= Seq::new(
                c as nat,
                |i: int| 1 + i,
            ),
            counted(cmmd, start, *m) matches Err(e) ==> r == Err::<CmmdIter, _>(e),
    {
        let count = match cmmd.get_count(start, m) {
            Ok(c) => c,
            Err(e) => {
                return Err(e);
            },
        };
        Ok(CmmdIter { cmmd, start, next_index: 1, end_index: count + 1 })
    }

    /// Forward pull: yields the lowest un-yielded index and advances, or
    /// reports exhaustion and changes nothing.
    pub fn next(&mut self) -> (r: Option<usize>)
        requires
            old(self).wf(),
        ensures
            final(self).wf(),
            final(self).cmmd_spec() == old(self).cmmd_spec(),
            final(self).start_spec() == old(self).start_spec(),
            final(self).end_spec() == old(self).end_spec(),
            old(self).remaining().len() == 0 ==> r is None && final(self).next_spec() == old(self).next_spec(),
            old(self).remaining().len() > 0 ==> (r matches Some(i) && i == old(self).remaining()[0]
                && final(self).next_spec() == old(self).next_spec() + 1 && final(self).remaining()
                =~= old(self).remaining().subrange(1, old(self).remaining().len() as int)),
    {
        if self.next_index < self.end_index {
            let idx = self.next_index;
            self.next_index = idx + 1;
            Some(idx)
        } else {
            None
        }
    }

    /// Forward pull that first skips `k` indices, as one O(1) step.
    pub fn nth(&mut self, k: usize) -> (r: Option<usize>)
        requires
            old(self).wf(),
        ensures
            final(self).wf(),
            final(self).cmmd_spec() == old(self).cmmd_spec(),
            final(self).start_spec() == old(self).start_spec(),
            final(self).end_spec() == old(self).end_spec(),
            k < old(self).remaining().len() ==> (r matches Some(i) && i == old(self).remaining()[k as int] && final(self).next_spec() == old(self).next_spec() + k + 1),
            k >= old(self).remaining().len() ==> r is None && final(self).next_spec() == final(self).end_spec(),
    {
        let len = self.end_index - self.next_index;
        if k < len {
            let idx = self.next_index + k;
            self.next_index = idx + 1;
            Some(idx)
        } else {
            self.next_index = self.end_index;
            None
        }
    }

    /// Backward pull: yields the highest un-yielded index and retreats, or
    /// reports exhaustion and changes nothing. Forward and backward pulls
    /// shrink the same interval.
    pub fn next_back(&mut self) -> (r: Option<usize>)
        requires
            old(self).wf(),
        ensures
            final(self).wf(),
            final(self).cmmd_spec() == old(self).cmmd_spec(),
            final(self).start_spec() == old(self).start_spec(),
            final(self).next_spec() == old(self).next_spec(),
            old(self).remaining().len() == 0 ==> r is None && final(self).end_spec() == old(self).end_spec(),
            old(self).remaining().len() > 0 ==> (r matches Some(i) && i == old(self).remaining()[old(self).remaining().len() - 1] && final(self).end_spec() == old(self).end_spec() - 1 && final(self).remaining()
                =~= old(self).remaining().subrange(0, old(self).remaining().len() - 1)),
    {
        if self.next_index < self.end_index {
            self.end_index = self.end_index - 1;
            Some(self.end_index)
        } else {
            None
        }
    }

    /// Backward pull that first skips `k` indices from the high end, as one
    /// O(1) step.
    pub fn nth_back(&mut self, k: usize) -> (r: Option<usize>)
        requires
            old(self).wf(),
        ensures
            final(self).wf(),
            final(self).cmmd_spec() == old(self).cmmd_spec(),
            final(self).start_spec() == old(self).start_spec(),
            final(self).next_spec() == old(self).next_spec(),
            k < old(self).remaining().len() ==> (r matches Some(i) && i == old(self).remaining()[old(self).remaining().len() - 1 - k] && final(self).end_spec() == old(self).end_spec() - k - 1),
            k >= old(self).remaining().len() ==> r is None && final(self).end_spec() == final(self).next_spec(),
    {
        let len = self.end_index - self.next_index;
        if k < len {
            self.end_index = self.end_index - k - 1;
            Some(self.end_index)
        } else {
            self.end_index = self.next_index;
            None
        }
    }

    /// Exact remaining length: the count of un-yielded indices, in O(1).
    pub fn len(&self) -> (r: usize)
        requires
            self.wf(),
        ensures
            r == self.remaining().len(),
    {
        self.end_index - self.next_index
    }

    /// Exact bounds on the remaining length: both ends equal `len`.
    pub fn size_hint(&self) -> (r: (usize, Option<usize>))
        requires
            self.wf(),
        ensures
            r.0 == self.remaining().len(),
            r.1 matches Some(hi) && hi == self.remaining().len(),
    {
        let len = self.end_index - self.next_index;
        (len, Some(len))
    }
}

/// Minimum one step: a waypoint count that is computed at all is at least
/// one, for every command, start and set of measurements — a zero-length
/// or sub-resolution move still lands on its terminal point.
pub proof fn lemma_minimum_one_step(cmmd: CMMD, start: Point3, m: Measurements)
    ensures
        counted(cmmd, start, m) matches Ok(c) ==> c >= 1,
{
}

/// Exact endpoints: the waypoint at the final index is the destination
/// exactly, not an approximation of it. For an arc the engine decides this
/// alone; for a straight-line move it holds whenever the backend reports
/// that `count` unit steps reach the destination — whether it always does
/// is a floating-point fact outside the core, exercised by the tests.
pub proof fn lemma_exact_endpoint(
    cmmd: CMMD,
    start: Point3,
    m: Measurements,
    reached: bool,
    interior: Point3,
)
    requires
        counted(cmmd, start, m) is Ok,
        cmmd matches CMMD::Linear(_) ==> reached,
    ensures
        nth_point_spec(cmmd, start, counted(cmmd, start, m).unwrap(), m, reached, interior)
            == cmmd.destination_spec(),
{
}

/// Degeneracy rejection: an arc's count fails with a center-coincident
/// error exactly when the start's horizontal projection equals the center,
/// with a radius-mismatch error exactly when the center is distinct but
/// the radii differ beyond tolerance, and succeeds exactly otherwise.
pub proof fn lemma_degeneracy_rejection(
    cmmd: RotationalCMMD,
    start: Point3,
    radii_match: bool,
    arc_steps: usize,
)
    ensures
        rotational_count(cmmd, start, radii_match, arc_steps) == Err::<usize, _>(
            InterpolationError::CenterCoincident,
        ) <==> center_coincident(cmmd, start),
        rotational_count(cmmd, start, radii_match, arc_steps) == Err::<usize, _>(
            InterpolationError::RadiusMismatch,
        ) <==> (!center_coincident(cmmd, start) && !radii_match),
        rotational_count(cmmd, start, radii_match, arc_steps) is Ok <==> (!center_coincident(
            cmmd,
            start,
        ) && radii_match),
{
}

/// Sequence/direct-call equivalence: a fresh waypoint sequence holds
/// exactly the indices `1..=count`, lowest first, so pulling them all and
/// mapping each through `get_nth_point` yields the same ordered points as
/// calling `get_nth_point(start, n)` directly for `n` in `1..=count`.
pub proof fn lemma_sequence_direct_equivalence(
    cmmd: CMMD,
    start: Point3,
    m: Measurements,
    it: CmmdIter,
)
    requires
        counted(cmmd, start, m) is Ok,
        it.next_spec() == 1,
        it.end_spec() == counted(cmmd, start, m).unwrap() + 1,
    ensures
        it.remaining().len() == counted(cmmd, start, m).unwrap(),
        forall|k: int| 0 <= k < it.remaining().len() ==> it.remaining()[k] == k + 1,
{
}

} // verus!
