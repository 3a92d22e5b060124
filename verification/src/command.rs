//! The command model: straight-line and circular-arc moves.
//!
//! A command is validated once, at construction, and is immutable from then
//! on: every coordinate must be finite, and an arc's destination must lie on
//! the arc's plane. Passing an invalid coordinate is a caller contract
//! violation, excluded by the constructors' preconditions, so a constructed
//! command can never be invalid.

pub mod interpolation;

use crate::geometry::{coord_eq, coords_equal, finite_bits, is_finite_coord, Point2, Point3};
use vstd::prelude::*;

verus! {

/// Direction of a rotational sweep.
#[derive(Copy, Clone, PartialEq, Eq, Structural, Debug)]
pub enum Clockness {
    /// clock-wise
    CW,
    /// counter-clock-wise
    CCW,
}

impl Clockness {
    /// What `Clockness::new` returns, for use in contracts.
    pub open spec fn new_spec(ccw: bool) -> Clockness {
        if ccw {
            Clockness::CCW
        } else {
            Clockness::CW
        }
    }

    pub fn new(ccw: bool) -> (r: Clockness)
        ensures
            r == Clockness::new_spec(ccw),
    {
        match ccw {
            false => Clockness::CW,
            true => Clockness::CCW,
        }
    }

    /// The sign that orients an angular sweep: clockwise sweeps are measured
    /// negatively, counter-clockwise sweeps positively. The geometry backend
    /// multiplies the swept angle by this sign.
    pub open spec fn factor_spec(self) -> int {
        match self {
            Clockness::CW => -1,
            Clockness::CCW => 1,
        }
    }

    pub fn factor(&self) -> (r: i64)
        ensures
            r == self.factor_spec(),
    {
        match self {
            Clockness::CW => -1i64,
            Clockness::CCW => 1i64,
        }
    }
}

impl Default for Clockness {
    fn default() -> (r: Clockness)
        ensures
            r == Clockness::CW,
    {
        Clockness::CW
    }
}

/// A straight-line move towards `destination`.
#[derive(Copy, Clone, PartialEq, Eq, Structural, Debug)]
pub struct LinearCMMD {
    destination: Point3,
}

impl LinearCMMD {
    /// Every coordinate of the destination is finite.
    pub open spec fn wf(self) -> bool {
        self.destination_spec().finite()
    }

    /// Builds a straight-line move. A non-finite coordinate is a caller
    /// contract violation, excluded here rather than tolerated; a caller
    /// that has not validated its input goes through `try_new`.
    pub fn new(x: u64, y: u64, z: u64) -> (r: LinearCMMD)
        requires
            finite_bits(x),
            finite_bits(y),
            finite_bits(z),
        ensures
            r.destination_spec() == (Point3 { x, y, z }),
            r.wf(),
    {
        LinearCMMD { destination: Point3 { x, y, z } }
    }

    /// The validation step at the construction boundary: builds the move
    /// exactly when every coordinate is finite, and rejects it otherwise.
    pub fn try_new(x: u64, y: u64, z: u64) -> (r: Option<LinearCMMD>)
        ensures
            r is Some <==> finite_bits(x) && finite_bits(y) && finite_bits(z),
            r matches Some(c) ==> c.destination_spec() == (Point3 { x, y, z }) && c.wf(),
    {
        if is_finite_coord(x) && is_finite_coord(y) && is_finite_coord(z) {
            Some(LinearCMMD::new(x, y, z))
        } else {
            None
        }
    }
}

/// A circular-arc move in a plane of constant height: swept in direction
/// `spin` around `center` (the arc's center projected onto the horizontal
/// plane), ending at `destination`.
#[derive(Copy, Clone, PartialEq, Eq, Structural, Debug)]
pub struct RotationalCMMD {
    spin: Clockness,
    destination: Point3,
    center: Point2,
}

impl RotationalCMMD {
    /// Every coordinate finite.
    pub open spec fn wf(self) -> bool {
        self.destination_spec().finite() && self.center_spec().finite()
    }

    pub closed spec fn spin_spec(self) -> Clockness {
        self.spin
    }

    pub closed spec fn center_spec(self) -> Point2 {
        self.center
    }

    /// Builds an arc move from the six coordinate fields: destination
    /// `(x, y, z)`, center `(i, j)` at height `k`. A non-finite coordinate,
    /// or a destination off the arc's plane (`z` not equal to `k`), is a
    /// caller contract violation, excluded here rather than tolerated.
    pub fn new(spin: bool, x: u64, y: u64, z: u64, i: u64, j: u64, k: u64) -> (r: RotationalCMMD)
        requires
            finite_bits(x),
            finite_bits(y),
            finite_bits(z),
            finite_bits(i),
            finite_bits(j),
            finite_bits(k),
            coord_eq(z, k),
        ensures
            r.spin_spec() == Clockness::new_spec(spin),
            r.destination_spec() == (Point3 { x, y, z }),
            r.center_spec() == (Point2 { x: i, y: j }),
            r.wf(),
    {
        RotationalCMMD {
            spin: Clockness::new(spin),
            destination: Point3 { x, y, z },
            center: Point2 { x: i, y: j },
        }
    }

    /// The validation step at the construction boundary: builds the arc
    /// exactly when every coordinate is finite and the destination lies on
    /// the arc's plane, and rejects it otherwise.
    pub fn try_new(spin: bool, x: u64, y: u64, z: u64, i: u64, j: u64, k: u64) -> (r: Option<
        RotationalCMMD,
    >)
        ensures
            r is Some <==> finite_bits(x) && finite_bits(y) && finite_bits(z) && finite_bits(i)
                && finite_bits(j) && finite_bits(k) && coord_eq(z, k),
            r matches Some(c) ==> c.spin_spec() == Clockness::new_spec(spin)
                && c.destination_spec() == (Point3 { x, y, z }) && c.center_spec() == (Point2 {
                x: i,
                y: j,
            }) && c.wf(),
    {
        if is_finite_coord(x) && is_finite_coord(y) && is_finite_coord(z) && is_finite_coord(i)
            && is_finite_coord(j) && is_finite_coord(k) && coords_equal(z, k) {
            Some(RotationalCMMD::new(spin, x, y, z, i, j, k))
        } else {
            None
        }
    }

    pub fn get_spin(&self) -> (r: Clockness)
        ensures
            r == self.spin_spec(),
    {
        self.spin
    }

    pub fn get_center(&self) -> (r: Point2)
        ensures
            r == self.center_spec(),
    {
        self.center
    }
}

/// A motion command of either kind. Behavior dispatches on the active
/// variant; adding a kind forces every match to be revisited.
#[derive(Copy, Clone, PartialEq, Eq, Structural, Debug)]
pub enum CMMD {
    Linear(LinearCMMD),
    Rotational(RotationalCMMD),
}

impl From<LinearCMMD> for CMMD {
    fn from(value: LinearCMMD) -> (r: CMMD) {
        CMMD::Linear(value)
    }
}

impl vstd::std_specs::convert::FromSpecImpl<LinearCMMD> for CMMD {
    open spec fn obeys_from_spec() -> bool {
        true
    }

    open spec fn from_spec(value: LinearCMMD) -> CMMD {
        CMMD::Linear(value)
    }
}

impl From<RotationalCMMD> for CMMD {
    fn from(value: RotationalCMMD) -> (r: CMMD) {
        CMMD::Rotational(value)
    }
}

impl vstd::std_specs::convert::FromSpecImpl<RotationalCMMD> for CMMD {
    open spec fn obeys_from_spec() -> bool {
        true
    }

    open spec fn from_spec(value: RotationalCMMD) -> CMMD {
        CMMD::Rotational(value)
    }
}

/// Every command states the coordinates where the walker should end up.
/// This is a generic getter for those coordinates; constructors guarantee
/// that all of them are finite.
pub trait CmmdDestination {
    /// The command's terminal point, for use in contracts.
    spec fn destination_spec(&self) -> Point3;

    /// Returns the command's terminal point, exactly as constructed.
    fn get_destination(&self) -> (r: Point3)
        ensures
            r == self.destination_spec(),
    ;
}

impl CmmdDestination for LinearCMMD {
    closed spec fn destination_spec(&self) -> Point3 {
        self.destination
    }

    fn get_destination(&self) -> (r: Point3) {
        self.destination
    }
}

impl CmmdDestination for RotationalCMMD {
    closed spec fn destination_spec(&self) -> Point3 {
        self.destination
    }

    fn get_destination(&self) -> (r: Point3) {
        self.destination
    }
}

impl CmmdDestination for CMMD {
    open spec fn destination_spec(&self) -> Point3 {
        match *self {
            CMMD::Linear(c) => c.destination_spec(),
            CMMD::Rotational(c) => c.destination_spec(),
        }
    }

    /// Returns the `destination` attribute of either of CMMD's inner structs;
    /// the arc center is internal geometry, not the terminal point.
    fn get_destination(&self) -> (r: Point3) {
        match self {
            CMMD::Linear(c) => c.get_destination(),
            CMMD::Rotational(c) => c.get_destination(),
        }
    }
}

} // verus!
