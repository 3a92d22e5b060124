//! Motion-planning kernel: typed motion commands (straight-line and
//! circular-arc moves) and the verified decision core that turns a command,
//! a starting point, and the measurements taken by a geometry backend into
//! waypoint counts, waypoint choices, and a lazy waypoint index sequence.
//!
//! Coordinates are carried as IEEE-754 binary64 bit patterns (`u64`), so the
//! verified core can state exact facts about them — finiteness, equality,
//! which point a call returns — while the numeric work (distances, angles,
//! trigonometry) stays with the caller's geometry backend.

pub mod command;
pub mod geometry;

pub use geometry::{Point2, Point3};
