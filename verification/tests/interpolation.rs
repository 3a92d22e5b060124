//! Scenario tests that drive the verified decision core with a real
//! floating-point geometry backend (lina), the way an application does:
//! the backend measures distances and angles, the library decides counts,
//! errors and points.

use libproj2::command::interpolation::{CmmdIter, InterpolationError, Measurements};
use libproj2::command::{CmmdDestination, LinearCMMD, RotationalCMMD, CMMD};
use libproj2::Point3;
use lina::ApproxEq;

const FIVE_DEGREES: f64 = 0.08726646259971647;

fn p3(x: f64, y: f64, z: f64) -> Point3 {
    Point3 { x: x.to_bits(), y: y.to_bits(), z: z.to_bits() }
}

fn fl(p: Point3) -> lina::Point3<f64> {
    lina::point3(f64::from_bits(p.x), f64::from_bits(p.y), f64::from_bits(p.z))
}

fn bits(p: lina::Point3<f64>) -> Point3 {
    Point3 { x: p.x.to_bits(), y: p.y.to_bits(), z: p.z.to_bits() }
}

fn normalized(angle: f64) -> f64 {
    let full = std::f64::consts::PI + std::f64::consts::PI;
    let rem = angle % full;
    if rem < 0.0 {
        rem + full
    } else {
        rem
    }
}

/// The swept angle from `base` to `a` around the origin, oriented by
/// `factor` and normalized into one non-negative turn.
fn angle_past(factor: f64, a: lina::Vec2<f64>, base: lina::Vec2<f64>) -> f64 {
    let angle_a = lina::atan2(a.y, a.x).0;
    let angle_base = lina::atan2(base.y, base.x).0;
    normalized((angle_a - angle_base) * factor)
}

/// Takes the measurements for one (command, start) pair, mirroring what an
/// application's geometry backend computes before asking the library.
fn measure(cmmd: &CMMD, start: Point3) -> Measurements {
    let s = fl(start);
    let mut m = Measurements { linear_steps: 0, radii_match: false, arc_steps: 0 };
    match cmmd {
        CMMD::Linear(c) => {
            let dest = fl(c.get_destination());
            m.linear_steps = (dest - s).length().ceil() as usize;
        }
        CMMD::Rotational(c) => {
            let center = c.get_center();
            let center2 = lina::point2(f64::from_bits(center.x), f64::from_bits(center.y));
            let dest = fl(c.get_destination());
            let start_vector = lina::point2(s.x, s.y) - center2;
            let destination_vector = lina::point2(dest.x, dest.y) - center2;
            m.radii_match = destination_vector.length().approx_eq_abs(start_vector.length(), 0.0001)
                || destination_vector
                    .length()
                    .approx_eq_rel(start_vector.length(), f32::EPSILON.into());
            let swept = angle_past(c.get_spin().factor() as f64, destination_vector, start_vector);
            m.arc_steps = (swept / FIVE_DEGREES).ceil() as usize;
        }
    }
    m
}

/// Computes the waypoint at index `n`, mirroring what an application does:
/// the backend interpolates, the library decides which point is yielded.
fn nth_point(cmmd: &CMMD, start: Point3, n: usize, m: &Measurements) -> Point3 {
    let s = fl(start);
    match cmmd {
        CMMD::Linear(c) => {
            let dest = fl(c.get_destination());
            let total_vector = dest - s;
            let reached = (n as f64) * (n as f64) >= total_vector.length2();
            let line_point = if reached {
                dest
            } else {
                s + total_vector.normalized() * n as f64
            };
            c.get_nth_point(n, m.linear_steps, reached, bits(line_point))
        }
        CMMD::Rotational(c) => {
            let center = c.get_center();
            let (cx, cy) = (f64::from_bits(center.x), f64::from_bits(center.y));
            let dest_z = f64::from_bits(c.get_destination().z);
            let start_vec: lina::Vec3<f64> = s - lina::point3(cx, cy, 0.0);
            let mut spos: lina::SphericalPos<f64> = start_vec.into();
            assert_eq!(spos.theta, lina::Radians::quarter_turn());
            spos.phi += lina::Radians(FIVE_DEGREES * c.get_spin().factor() as f64 * n as f64);
            let base = lina::point3(cx, cy, dest_z);
            let arc_point = base + spos.to_vec();
            c.get_nth_point(start, n, m.radii_match, m.arc_steps, bits(arc_point))
        }
    }
}

fn assert_close(p: Point3, x: f64, y: f64, z: f64, tol: f64) {
    let p = fl(p);
    assert!((p.x - x).abs() <= tol, "x: {} vs {}", p.x, x);
    assert!((p.y - y).abs() <= tol, "y: {} vs {}", p.y, y);
    assert!((p.z - z).abs() <= tol, "z: {} vs {}", p.z, z);
}

#[test]
fn from_doc() {
    let ex_output: [(f64, f64, f64); 6] = [
        (0.0, 0.98, 0.2),
        (0.0, 1.96, 0.39),
        (0.0, 2.94, 0.59),
        (0.0, 3.92, 0.78),
        (0.0, 4.9, 0.98),
        (0.0, 5.0, 1.0),
    ];
    let start = p3(0.0, 0.0, 0.0);
    let input = LinearCMMD::new(0.0f64.to_bits(), 5.0f64.to_bits(), 1.0f64.to_bits());

    let cmmd = CMMD::Linear(input);
    let m = measure(&cmmd, start);
    assert_eq!(input.get_count(m.linear_steps), ex_output.len());
    for i in 0..ex_output.len() {
        let (x, y, z) = ex_output[i];
        let got = nth_point(&cmmd, start, i + 1, &m);
        assert_close(got, x, y, z, 0.005);
    }

    // Next, do the same test but with input wrapped in the CMMD enum.
    let input = CMMD::from(input);

    assert_eq!(input.get_count(start, &m), Ok(ex_output.len()));
    for i in 0..ex_output.len() {
        let (x, y, z) = ex_output[i];
        let got = nth_point(&input, start, i + 1, &m);
        assert_close(got, x, y, z, 0.005);
    }
}

#[test]
fn linear_zero_length_still_one_step() {
    let start = p3(2.5, -1.0, 3.0);
    let input = LinearCMMD::new(2.5f64.to_bits(), (-1.0f64).to_bits(), 3.0f64.to_bits());
    let cmmd = CMMD::Linear(input);
    let m = measure(&cmmd, start);
    assert_eq!(m.linear_steps, 0);
    assert_eq!(input.get_count(m.linear_steps), 1);
    // The single waypoint is the destination, exactly.
    assert_eq!(nth_point(&cmmd, start, 1, &m), input.get_destination());
}

#[test]
fn linear_consecutive_points_unit_spaced() {
    let start = p3(0.0, 0.0, 0.0);
    let cmmd = CMMD::Linear(LinearCMMD::new(
        0.0f64.to_bits(),
        5.0f64.to_bits(),
        1.0f64.to_bits(),
    ));
    let m = measure(&cmmd, start);
    let count = cmmd.get_count(start, &m).unwrap();
    assert_eq!(count, 6);
    let mut prev = fl(start);
    for n in 1..=count {
        let here = fl(nth_point(&cmmd, start, n, &m));
        let gap = (here - prev).length();
        if n < count {
            assert!((gap - 1.0).abs() <= 0.005, "gap {} at {}", gap, n);
        } else {
            // the final sub-unit segment
            assert!(gap <= 1.0 + 0.005, "gap {} at {}", gap, n);
        }
        prev = here;
    }
}

#[test]
fn linear_final_point_exact() {
    let start = p3(1.0, 2.0, 3.0);
    let input = LinearCMMD::new(4.5f64.to_bits(), (-2.0f64).to_bits(), 0.5f64.to_bits());
    let cmmd = CMMD::Linear(input);
    let m = measure(&cmmd, start);
    let count = cmmd.get_count(start, &m).unwrap();
    let last = nth_point(&cmmd, start, count, &m);
    assert_eq!(last, input.get_destination());
}

#[test]
fn rotational_count_clockwise() {
    // Destination and start both 8.8388... from the center; a clockwise
    // sweep covers three quarter turns: 270 / 5 = 54 steps.
    let cmmd = CMMD::Rotational(RotationalCMMD::new(
        false,
        7.5f64.to_bits(),
        7.5f64.to_bits(),
        5.0f64.to_bits(),
        1.25f64.to_bits(),
        1.25f64.to_bits(),
        5.0f64.to_bits(),
    ));
    let start = p3(7.5, -5.0, 0.0);
    let m = measure(&cmmd, start);
    assert!(m.radii_match);
    assert_eq!(m.arc_steps, 54);
    assert_eq!(cmmd.get_count(start, &m), Ok(54));
}

#[test]
fn rotational_count_counter_clockwise() {
    // The same endpoints swept the other way round cover one quarter turn:
    // 90 / 5 = 18 steps.
    let cmmd = CMMD::Rotational(RotationalCMMD::new(
        true,
        7.5f64.to_bits(),
        7.5f64.to_bits(),
        5.0f64.to_bits(),
        1.25f64.to_bits(),
        1.25f64.to_bits(),
        5.0f64.to_bits(),
    ));
    let start = p3(7.5, -5.0, 0.0);
    let m = measure(&cmmd, start);
    assert!(m.radii_match);
    assert_eq!(m.arc_steps, 18);
    assert_eq!(cmmd.get_count(start, &m), Ok(18));
}

#[test]
fn rotational_center_coincident_rejected() {
    let cmmd = CMMD::Rotational(RotationalCMMD::new(
        false,
        7.5f64.to_bits(),
        7.5f64.to_bits(),
        5.0f64.to_bits(),
        1.25f64.to_bits(),
        1.25f64.to_bits(),
        5.0f64.to_bits(),
    ));
    let start = p3(1.25, 1.25, 0.0);
    let m = measure(&cmmd, start);
    assert_eq!(cmmd.get_count(start, &m), Err(InterpolationError::CenterCoincident));
}

#[test]
fn rotational_center_coincident_signed_zero() {
    // A negative zero coordinate still coincides with a positive zero
    // center, as IEEE-754 equality demands.
    let cmmd = CMMD::Rotational(RotationalCMMD::new(
        false,
        1.0f64.to_bits(),
        0.0f64.to_bits(),
        0.0f64.to_bits(),
        0.0f64.to_bits(),
        0.0f64.to_bits(),
        0.0f64.to_bits(),
    ));
    let start = p3(-0.0, 0.0, 0.0);
    let m = measure(&cmmd, start);
    assert_eq!(cmmd.get_count(start, &m), Err(InterpolationError::CenterCoincident));
}

#[test]
fn rotational_radius_mismatch_rejected() {
    let cmmd = CMMD::Rotational(RotationalCMMD::new(
        false,
        7.5f64.to_bits(),
        7.5f64.to_bits(),
        5.0f64.to_bits(),
        1.25f64.to_bits(),
        1.25f64.to_bits(),
        5.0f64.to_bits(),
    ));
    let start = p3(2.0, 1.25, 0.0);
    let m = measure(&cmmd, start);
    assert!(!m.radii_match);
    assert_eq!(cmmd.get_count(start, &m), Err(InterpolationError::RadiusMismatch));
}

#[test]
fn rotational_final_point_exact() {
    let rot = RotationalCMMD::new(
        true,
        7.5f64.to_bits(),
        7.5f64.to_bits(),
        5.0f64.to_bits(),
        1.25f64.to_bits(),
        1.25f64.to_bits(),
        5.0f64.to_bits(),
    );
    let cmmd = CMMD::Rotational(rot);
    let start = p3(7.5, -5.0, 0.0);
    let m = measure(&cmmd, start);
    let count = cmmd.get_count(start, &m).unwrap();
    let last = nth_point(&cmmd, start, count, &m);
    assert_eq!(last, rot.get_destination());
}

#[test]
fn rotational_points_keep_radius() {
    let rot = RotationalCMMD::new(
        true,
        7.5f64.to_bits(),
        7.5f64.to_bits(),
        5.0f64.to_bits(),
        1.25f64.to_bits(),
        1.25f64.to_bits(),
        5.0f64.to_bits(),
    );
    let cmmd = CMMD::Rotational(rot);
    let start = p3(7.5, -5.0, 0.0);
    let m = measure(&cmmd, start);
    let count = cmmd.get_count(start, &m).unwrap();
    let center2 = lina::point2(1.25, 1.25);
    let radius = (lina::point2(7.5, -5.0) - center2).length();
    for n in 1..=count {
        let p = fl(nth_point(&cmmd, start, n, &m));
        let r = (lina::point2(p.x, p.y) - center2).length();
        assert!((r - radius).abs() <= 0.0001, "radius {} vs {} at {}", r, radius, n);
    }
}

#[test]
fn sequence_matches_direct_calls() {
    let start = p3(0.0, 0.0, 0.0);
    let commands = [
        CMMD::Linear(LinearCMMD::new(
            0.0f64.to_bits(),
            5.0f64.to_bits(),
            1.0f64.to_bits(),
        )),
        CMMD::Rotational(RotationalCMMD::new(
            true,
            0.0f64.to_bits(),
            10.0f64.to_bits(),
            0.0f64.to_bits(),
            (-5.0f64).to_bits(),
            5.0f64.to_bits(),
            0.0f64.to_bits(),
        )),
    ];
    for cmmd in commands {
        let m = measure(&cmmd, start);
        let count = cmmd.get_count(start, &m).unwrap();
        let mut direct = Vec::new();
        for n in 1..=count {
            direct.push(nth_point(&cmmd, start, n, &m));
        }
        let mut pulled = Vec::new();
        let mut it = CmmdIter::new(cmmd, start, &m).unwrap();
        while let Some(n) = it.next() {
            pulled.push(nth_point(&cmmd, start, n, &m));
        }
        assert_eq!(pulled, direct);
    }
}
