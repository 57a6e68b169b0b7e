//! Shared revolution mechanics: the radial subdivision of the
//! cross-section wall and the parabolic axial offsets of the smooth
//! profiles, all in exact micrometre arithmetic.
//!
//! Ring parameters carry tenths of a millimetre, so a radius (half a
//! diameter) is `50 * diameter` micrometres, exactly. The smooth
//! profiles subdivide the wall into [`RADIAL_STEPS`] radial steps; at
//! step `j` the axial offset follows the symmetric parabola
//! `curve_depth * (1 - (2*t - 1)^2)` with `t = j / RADIAL_STEPS` and
//! `curve_depth` three tenths of the wall width, which in micrometres
//! is exactly `3 * wall * (16 - (j - 4)^2) / 160`, rounded toward zero.

use vstd::arithmetic::div_mod::lemma_div_nonincreasing;
use vstd::arithmetic::div_mod::lemma_div_pos_is_pos;
use vstd::prelude::*;

use crate::params::RingParameters;

verus! {

/// Number of radial steps of the smooth cross-section profiles.
pub const RADIAL_STEPS: usize = 8;

/// The square of an integer.
pub open spec fn sq(x: int) -> int {
    x * x
}

/// Outer radius in micrometres.
pub open spec fn outer_radius_um(p: RingParameters) -> int {
    50 * p.outer_diameter as int
}

/// Inner radius in micrometres.
pub open spec fn inner_radius_um(p: RingParameters) -> int {
    50 * p.inner_diameter as int
}

/// Ring height in micrometres.
pub open spec fn height_um(p: RingParameters) -> int {
    100 * p.height as int
}

/// Radial wall width in micrometres.
pub open spec fn wall_um(p: RingParameters) -> int {
    outer_radius_um(p) - inner_radius_um(p)
}

/// The radius of radial step `j`, walking the wall from the inner to
/// the outer radius in [`RADIAL_STEPS`] equal steps (rounded toward the
/// inner radius; step 0 is the inner radius, the last step exactly the
/// outer one).
pub open spec fn step_radius_um(p: RingParameters, j: int) -> int {
    inner_radius_um(p) + (wall_um(p) * j) / (RADIAL_STEPS as int)
}

/// Axial offset of the smooth convex profile at radial step `j`: a
/// parabolic bulge toward the lens, zero at both wall edges and three
/// tenths of the wall width at mid-wall.
pub open spec fn convex_z_um(p: RingParameters, j: int) -> int {
    (3 * wall_um(p) * (16 - sq(j - 4))) / 160
}

/// Axial offset of the concave profile at radial step `j`: the same
/// parabola curving away from the lens.
pub open spec fn concave_z_um(p: RingParameters, j: int) -> int {
    -((3 * wall_um(p) * (16 - sq(j - 4))) / 160)
}

/// At every radial step, the concave axial offset is the exact
/// negation of the smooth convex one: the two smooth profiles mirror
/// each other about the base plane.
pub proof fn lemma_concave_negates_convex(p: RingParameters, j: int)
    ensures
        concave_z_um(p, j) == -convex_z_um(p, j),
{
}

/// For valid parameters the smooth convex offset is non-negative and
/// at most 48 wall widths (in fact under a third of one), so it is far
/// inside the vertex coordinate range.
pub proof fn lemma_convex_z_bounds(p: RingParameters, j: int)
    requires
        p.valid(),
        0 <= j <= RADIAL_STEPS,
    ensures
        0 <= convex_z_um(p, j) <= 48 * wall_um(p),
{
    let wall = wall_um(p);
    assert(0 <= sq(j - 4) <= 16) by (nonlinear_arith)
        requires
            -4 <= j - 4 <= 4,
    ;
    let m = 16 - sq(j - 4);
    assert(0 <= 3 * wall * m <= 3 * wall * 16) by (nonlinear_arith)
        requires
            0 <= m <= 16,
            0 <= wall,
    ;
    lemma_div_pos_is_pos(3 * wall * m, 160);
    lemma_div_nonincreasing(3 * wall * m, 160);
}

/// Outer radius in micrometres.
pub fn outer_radius(p: &RingParameters) -> (r: i64)
    ensures
        r as int == outer_radius_um(*p),
{
    50 * (p.outer_diameter as i64)
}

/// Inner radius in micrometres.
pub fn inner_radius(p: &RingParameters) -> (r: i64)
    ensures
        r as int == inner_radius_um(*p),
{
    50 * (p.inner_diameter as i64)
}

/// Ring height in micrometres.
pub fn height(p: &RingParameters) -> (r: i64)
    ensures
        r as int == height_um(*p),
{
    100 * (p.height as i64)
}

/// The radius of radial step `j` in micrometres.
pub fn step_radius(p: &RingParameters, j: usize) -> (r: i64)
    requires
        p.valid(),
        j <= RADIAL_STEPS,
    ensures
        r as int == step_radius_um(*p, j as int),
{
    let inner = inner_radius(p);
    let outer = outer_radius(p);
    let wall = (outer - inner) as u64;
    proof {
        assert(wall as int * (j as u64) as int <= wall as int * 8) by (nonlinear_arith)
            requires
                (j as u64) as int <= 8,
                wall as int >= 0,
        ;
    }
    let prod = wall * j as u64;
    proof {
        lemma_div_nonincreasing(prod as int, 8);
    }
    let q = prod / 8;
    inner + q as i64
}

/// The magnitude of the parabolic axial offset at radial step `j`, in
/// micrometres: `3 * wall * (16 - (j - 4)^2) / 160`, rounded toward
/// zero.
fn bulge_magnitude(p: &RingParameters, j: usize) -> (r: i64)
    requires
        p.valid(),
        j <= RADIAL_STEPS,
    ensures
        r as int == convex_z_um(*p, j as int),
        0 <= r,
{
    let inner = inner_radius(p);
    let outer = outer_radius(p);
    let wall = (outer - inner) as u64;
    let d: u64 = if j >= 4 {
        (j - 4) as u64
    } else {
        (4 - j) as u64
    };
    proof {
        assert(sq(j as int - 4) == (d as int) * (d as int)) by (nonlinear_arith)
            requires
                d as int == if j as int >= 4 { j as int - 4 } else { 4 - j as int },
        ;
        assert(d * d <= 16) by (nonlinear_arith)
            requires
                d <= 4,
        ;
    }
    let m: u64 = 16 - d * d;
    let w3 = 3 * wall;
    proof {
        assert(w3 as int * m as int <= w3 as int * 16) by (nonlinear_arith)
            requires
                m as int <= 16,
                w3 as int >= 0,
        ;
    }
    let prod = w3 * m;
    proof {
        lemma_div_nonincreasing(prod as int, 160);
    }
    let q = prod / 160;
    q as i64
}

/// The parabolic axial offset of the smooth convex profile at radial
/// step `j`, in micrometres.
pub fn convex_z(p: &RingParameters, j: usize) -> (r: i64)
    requires
        p.valid(),
        j <= RADIAL_STEPS,
    ensures
        r as int == convex_z_um(*p, j as int),
        0 <= r,
{
    bulge_magnitude(p, j)
}

/// The axial offset of the concave profile at radial step `j`, in
/// micrometres: the negation of the smooth convex offset.
pub fn concave_z(p: &RingParameters, j: usize) -> (r: i64)
    requires
        p.valid(),
        j <= RADIAL_STEPS,
    ensures
        r as int == concave_z_um(*p, j as int),
{
    let m = bulge_magnitude(p, j);
    -m
}

} // verus!
