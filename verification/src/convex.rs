//! The convex ring.
//!
//! Two cross-section strategies exist for the convex style. The
//! canonical one, used by the mesh dispatcher, follows the
//! manufacturing drawing: an explicit polyline of (radius, height)
//! breakpoints with a straight outer wall at the full 22 mm height and
//! a recessed inner step (heights 0, 10, 12 and 22 mm, recess two
//! millimetres outboard of the inner radius), closed by four horizontal
//! annular surfaces. The alternative smooth strategy bulges the wall
//! with the same symmetric parabola as the concave ring, curved toward
//! the lens instead of away from it, and is closed by plain base and
//! top caps.

use vstd::prelude::*;

use crate::mesh::CylPoint;
use crate::mesh::SEGMENTS;
use crate::mesh::Triangle;
use crate::mesh::add_annular_surface;
use crate::mesh::add_quad_triangles;
use crate::mesh::add_ring_base;
use crate::mesh::add_ring_top;
use crate::mesh::annulus_tris;
use crate::mesh::cyl;
use crate::mesh::lemma_index_split;
use crate::mesh::next_segment;
use crate::mesh::quad_tris;
use crate::params::RingParameters;
use crate::revolve::RADIAL_STEPS;
use crate::revolve::convex_z;
use crate::revolve::convex_z_um;
use crate::revolve::height;
use crate::revolve::height_um;
use crate::revolve::inner_radius;
use crate::revolve::inner_radius_um;
use crate::revolve::outer_radius;
use crate::revolve::outer_radius_um;
use crate::revolve::step_radius;
use crate::revolve::step_radius_um;

verus! {

/// Total ring height of the drawing profile, micrometres (22 mm).
pub const Z_TOTAL_UM: i64 = 22000;

/// Height of the upper internal step shelf, micrometres (12 mm).
pub const Z_STEP_TOP_UM: i64 = 12000;

/// Height of the lower internal step shelf, micrometres (10 mm).
pub const Z_STEP_BOTTOM_UM: i64 = 10000;

/// Radial width of the internal recess, micrometres (2 mm inboard
/// step outboard of the inner radius).
pub const RECESS_WIDTH_UM: i64 = 2000;

/// The recess radius of the drawing profile: two millimetres outboard
/// of the inner radius.
pub open spec fn recess_radius_um(p: RingParameters) -> int {
    inner_radius_um(p) + RECESS_WIDTH_UM as int
}

/// The radius of breakpoint `idx` of the drawing profile polyline.
/// The nine breakpoints walk the cross-section from the bottom outer
/// edge up the outer wall, across the top, down into the recess, along
/// the two internal shelves and back to the bottom outer edge.
pub open spec fn profile_radius_um(p: RingParameters, idx: int) -> int {
    if idx == 0 || idx == 1 || idx == 8 {
        outer_radius_um(p)
    } else if idx == 4 || idx == 5 {
        inner_radius_um(p)
    } else {
        recess_radius_um(p)
    }
}

/// The height of breakpoint `idx` of the drawing profile polyline,
/// micrometres.
pub open spec fn profile_z_um(idx: int) -> int {
    if idx == 1 || idx == 2 {
        Z_TOTAL_UM as int
    } else if idx == 3 || idx == 4 {
        Z_STEP_TOP_UM as int
    } else if idx == 5 || idx == 6 {
        Z_STEP_BOTTOM_UM as int
    } else {
        0
    }
}

/// The two side-wall triangles of the drawing profile at angular
/// segment `i`, polyline span `j` (between breakpoints `j` and
/// `j + 1`), split with the quad-split winding.
pub open spec fn convex_quad(p: RingParameters, i: int, j: int) -> Seq<Triangle> {
    let a1 = i;
    let a2 = next_segment(i);
    let r1 = profile_radius_um(p, j);
    let r2 = profile_radius_um(p, j + 1);
    let z1 = profile_z_um(j);
    let z2 = profile_z_um(j + 1);
    quad_tris(cyl(r1, a1, z1), cyl(r2, a1, z2), cyl(r1, a2, z1), cyl(r2, a2, z2))
}

/// All 1024 side-wall triangles of the drawing profile, ordered by
/// angular segment, then polyline span, then the two halves of each
/// quad.
pub open spec fn convex_side_tris(p: RingParameters) -> Seq<Triangle> {
    Seq::new(
        (SEGMENTS * RADIAL_STEPS * 2) as nat,
        |k: int| convex_quad(p, k / 16, (k % 16) / 2)[k % 2],
    )
}

/// The four horizontal annular surfaces that close the drawing
/// profile: the bottom face (recess to outer, facing down), the two
/// internal step shelves at 10 mm (facing up) and 12 mm (facing down),
/// and the recessed top face at 22 mm (facing up).
pub open spec fn convex_cap_tris(p: RingParameters) -> Seq<Triangle> {
    annulus_tris(recess_radius_um(p), outer_radius_um(p), 0, false) + annulus_tris(
        inner_radius_um(p),
        recess_radius_um(p),
        Z_STEP_BOTTOM_UM as int,
        true,
    ) + annulus_tris(inner_radius_um(p), recess_radius_um(p), Z_STEP_TOP_UM as int, false)
        + annulus_tris(recess_radius_um(p), outer_radius_um(p), Z_TOTAL_UM as int, true)
}

/// The full convex mesh of the canonical drawing profile: 1024
/// side-wall triangles and 512 cap triangles.
pub open spec fn convex_mesh(p: RingParameters) -> Seq<Triangle> {
    convex_side_tris(p) + convex_cap_tris(p)
}

/// The nine (radius, height) breakpoints of the drawing profile, in
/// micrometres, in polyline order.
fn create_convex_profile_points(p: &RingParameters) -> (pts: Vec<(i64, i64)>)
    requires
        p.valid(),
    ensures
        pts@.len() == 9,
        forall|idx: int|
            0 <= idx < 9 ==> (#[trigger] pts@[idx]).0 as int == profile_radius_um(*p, idx)
                && pts@[idx].1 as int == profile_z_um(idx),
{
    let outer_r = outer_radius(p);
    let inner_r = inner_radius(p);
    let recess_r = inner_r + RECESS_WIDTH_UM;
    let mut pts: Vec<(i64, i64)> = Vec::new();
    pts.push((outer_r, 0));
    pts.push((outer_r, Z_TOTAL_UM));
    pts.push((recess_r, Z_TOTAL_UM));
    pts.push((recess_r, Z_STEP_TOP_UM));
    pts.push((inner_r, Z_STEP_TOP_UM));
    pts.push((inner_r, Z_STEP_BOTTOM_UM));
    pts.push((recess_r, Z_STEP_BOTTOM_UM));
    pts.push((recess_r, 0));
    pts.push((outer_r, 0));
    pts
}

/// Appends the 16 side-wall triangles of angular segment `i` of the
/// drawing profile, one quad per polyline span.
fn add_convex_profile_segment(triangles: &mut Vec<Triangle>, p: &RingParameters, i: usize)
    requires
        p.valid(),
        i < SEGMENTS,
    ensures
        final(triangles)@ == old(triangles)@ + convex_side_tris(*p).subrange(
            16 * i as int,
            16 * (i + 1) as int,
        ),
{
    let ghost pre = triangles@;
    let ghost side = convex_side_tris(*p);
    let pts = create_convex_profile_points(p);
    let a1 = i as u8;
    let a2 = if i + 1 == SEGMENTS {
        0u8
    } else {
        (i + 1) as u8
    };
    let mut j: usize = 0;
    while j < RADIAL_STEPS
        invariant
            p.valid(),
            i < SEGMENTS,
            0 <= j <= RADIAL_STEPS,
            a1 == i as u8,
            a2 as int == next_segment(i as int),
            side == convex_side_tris(*p),
            pts@.len() == 9,
            forall|idx: int|
                0 <= idx < 9 ==> (#[trigger] pts@[idx]).0 as int == profile_radius_um(*p, idx)
                    && pts@[idx].1 as int == profile_z_um(idx),
            triangles@ == pre + side.subrange(16 * i as int, 16 * i as int + 2 * j as int),
        decreases RADIAL_STEPS - j,
    {
        let (r1, z1) = pts[j];
        let (r2, z2) = pts[j + 1];
        let p1 = CylPoint { radius: r1, segment: a1, z: z1 };
        let p2 = CylPoint { radius: r2, segment: a1, z: z2 };
        let p3 = CylPoint { radius: r1, segment: a2, z: z1 };
        let p4 = CylPoint { radius: r2, segment: a2, z: z2 };
        add_quad_triangles(triangles, p1, p2, p3, p4);
        proof {
            let ii = i as int;
            let jj = j as int;
            let k0 = 16 * ii + 2 * jj;
            lemma_index_split(ii, 2 * jj, 16);
            lemma_index_split(ii, 2 * jj + 1, 16);
            lemma_index_split(jj, 0, 2);
            lemma_index_split(jj, 1, 2);
            lemma_index_split(8 * ii + jj, 0, 2);
            lemma_index_split(8 * ii + jj, 1, 2);
            assert(p1 == cyl(profile_radius_um(*p, jj), ii, profile_z_um(jj)));
            assert(p2 == cyl(profile_radius_um(*p, jj + 1), ii, profile_z_um(jj + 1)));
            assert(p3 == cyl(profile_radius_um(*p, jj), next_segment(ii), profile_z_um(jj)));
            assert(p4 == cyl(
                profile_radius_um(*p, jj + 1),
                next_segment(ii),
                profile_z_um(jj + 1),
            ));
            assert(side[k0] == convex_quad(*p, ii, jj)[0]);
            assert(side[k0 + 1] == convex_quad(*p, ii, jj)[1]);
            assert(triangles@ =~= pre + side.subrange(16 * ii, k0 + 2));
        }
        j = j + 1;
    }
}

/// Appends the four horizontal annular surfaces that close the drawing
/// profile.
fn add_convex_horizontal_surfaces(triangles: &mut Vec<Triangle>, p: &RingParameters)
    requires
        p.valid(),
    ensures
        final(triangles)@ == old(triangles)@ + convex_cap_tris(*p),
{
    let outer_r = outer_radius(p);
    let inner_r = inner_radius(p);
    let recess_r = inner_r + RECESS_WIDTH_UM;
    add_annular_surface(triangles, recess_r, outer_r, 0, false);
    add_annular_surface(triangles, inner_r, recess_r, Z_STEP_BOTTOM_UM, true);
    add_annular_surface(triangles, inner_r, recess_r, Z_STEP_TOP_UM, false);
    add_annular_surface(triangles, recess_r, outer_r, Z_TOTAL_UM, true);
    proof {
        assert(triangles@ =~= old(triangles)@ + convex_cap_tris(*p));
    }
}

/// Generates the canonical convex ring mesh from the drawing profile:
/// 1024 side-wall triangles and 512 cap triangles, exactly as
/// [`convex_mesh`] lays them out.
pub fn generate_convex_ring(p: &RingParameters) -> (r: Vec<Triangle>)
    requires
        p.valid(),
    ensures
        r@ == convex_mesh(*p),
{
    let mut triangles: Vec<Triangle> = Vec::new();
    let ghost side = convex_side_tris(*p);
    proof {
        assert(triangles@ =~= side.subrange(0, 0));
    }
    let mut i: usize = 0;
    while i < SEGMENTS
        invariant
            p.valid(),
            0 <= i <= SEGMENTS,
            side == convex_side_tris(*p),
            triangles@ == side.subrange(0, 16 * i as int),
        decreases SEGMENTS - i,
    {
        add_convex_profile_segment(&mut triangles, p, i);
        proof {
            assert(triangles@ =~= side.subrange(0, 16 * (i + 1) as int));
        }
        i = i + 1;
    }
    proof {
        assert(side.subrange(0, 16 * SEGMENTS as int) =~= side);
    }
    add_convex_horizontal_surfaces(&mut triangles, p);
    proof {
        assert(triangles@ =~= convex_mesh(*p));
    }
    triangles
}

/// The two side-wall triangles of the smooth convex surface at angular
/// segment `i`, radial step `j`: the mirror of the concave quad, with
/// the parabolic offset curving toward the lens.
pub open spec fn convex_smooth_quad(p: RingParameters, i: int, j: int) -> Seq<Triangle> {
    let a1 = i;
    let a2 = next_segment(i);
    let r1 = step_radius_um(p, j);
    let r2 = step_radius_um(p, j + 1);
    let z1 = convex_z_um(p, j);
    let z2 = convex_z_um(p, j + 1);
    quad_tris(cyl(r1, a1, z1), cyl(r2, a1, z2), cyl(r1, a2, z1), cyl(r2, a2, z2))
}

/// All 1024 side-wall triangles of the smooth convex surface.
pub open spec fn convex_smooth_side_tris(p: RingParameters) -> Seq<Triangle> {
    Seq::new(
        (SEGMENTS * RADIAL_STEPS * 2) as nat,
        |k: int| convex_smooth_quad(p, k / 16, (k % 16) / 2)[k % 2],
    )
}

/// The full smooth convex mesh: the parabolic side wall closed by a
/// base cap at height zero and a top cap at the ring height.
pub open spec fn convex_smooth_mesh(p: RingParameters) -> Seq<Triangle> {
    convex_smooth_side_tris(p) + annulus_tris(inner_radius_um(p), outer_radius_um(p), 0, false)
        + annulus_tris(inner_radius_um(p), outer_radius_um(p), height_um(p), true)
}

/// Appends the 16 side-wall triangles of angular segment `i` of the
/// smooth convex surface, one quad per radial step.
fn add_convex_segment(triangles: &mut Vec<Triangle>, p: &RingParameters, i: usize)
    requires
        p.valid(),
        i < SEGMENTS,
    ensures
        final(triangles)@ == old(triangles)@ + convex_smooth_side_tris(*p).subrange(
            16 * i as int,
            16 * (i + 1) as int,
        ),
{
    let ghost pre = triangles@;
    let ghost side = convex_smooth_side_tris(*p);
    let a1 = i as u8;
    let a2 = if i + 1 == SEGMENTS {
        0u8
    } else {
        (i + 1) as u8
    };
    let mut j: usize = 0;
    while j < RADIAL_STEPS
        invariant
            p.valid(),
            i < SEGMENTS,
            0 <= j <= RADIAL_STEPS,
            a1 == i as u8,
            a2 as int == next_segment(i as int),
            side == convex_smooth_side_tris(*p),
            triangles@ == pre + side.subrange(16 * i as int, 16 * i as int + 2 * j as int),
        decreases RADIAL_STEPS - j,
    {
        let r1 = step_radius(p, j);
        let r2 = step_radius(p, j + 1);
        let z1 = convex_z(p, j);
        let z2 = convex_z(p, j + 1);
        let p1 = CylPoint { radius: r1, segment: a1, z: z1 };
        let p2 = CylPoint { radius: r2, segment: a1, z: z2 };
        let p3 = CylPoint { radius: r1, segment: a2, z: z1 };
        let p4 = CylPoint { radius: r2, segment: a2, z: z2 };
        add_quad_triangles(triangles, p1, p2, p3, p4);
        proof {
            let ii = i as int;
            let jj = j as int;
            let k0 = 16 * ii + 2 * jj;
            lemma_index_split(ii, 2 * jj, 16);
            lemma_index_split(ii, 2 * jj + 1, 16);
            lemma_index_split(jj, 0, 2);
            lemma_index_split(jj, 1, 2);
            lemma_index_split(8 * ii + jj, 0, 2);
            lemma_index_split(8 * ii + jj, 1, 2);
            assert(p1 == cyl(step_radius_um(*p, jj), ii, convex_z_um(*p, jj)));
            assert(p2 == cyl(step_radius_um(*p, jj + 1), ii, convex_z_um(*p, jj + 1)));
            assert(p3 == cyl(step_radius_um(*p, jj), next_segment(ii), convex_z_um(*p, jj)));
            assert(p4 == cyl(
                step_radius_um(*p, jj + 1),
                next_segment(ii),
                convex_z_um(*p, jj + 1),
            ));
            assert(side[k0] == convex_smooth_quad(*p, ii, jj)[0]);
            assert(side[k0 + 1] == convex_smooth_quad(*p, ii, jj)[1]);
            assert(triangles@ =~= pre + side.subrange(16 * ii, k0 + 2));
        }
        j = j + 1;
    }
}

/// Generates the smooth convex ring mesh: 1024 side-wall triangles and
/// 256 cap triangles, exactly as [`convex_smooth_mesh`] lays them out.
/// This is the alternative strategy for the convex style; the
/// dispatcher uses the drawing profile.
pub fn generate_convex_ring_smooth(p: &RingParameters) -> (r: Vec<Triangle>)
    requires
        p.valid(),
    ensures
        r@ == convex_smooth_mesh(*p),
{
    let mut triangles: Vec<Triangle> = Vec::new();
    let ghost side = convex_smooth_side_tris(*p);
    proof {
        assert(triangles@ =~= side.subrange(0, 0));
    }
    let mut i: usize = 0;
    while i < SEGMENTS
        invariant
            p.valid(),
            0 <= i <= SEGMENTS,
            side == convex_smooth_side_tris(*p),
            triangles@ == side.subrange(0, 16 * i as int),
        decreases SEGMENTS - i,
    {
        add_convex_segment(&mut triangles, p, i);
        proof {
            assert(triangles@ =~= side.subrange(0, 16 * (i + 1) as int));
        }
        i = i + 1;
    }
    proof {
        assert(side.subrange(0, 16 * SEGMENTS as int) =~= side);
    }
    let inner_r = inner_radius(p);
    let outer_r = outer_radius(p);
    let h = height(p);
    add_ring_base(&mut triangles, inner_r, outer_r, 0);
    add_ring_top(&mut triangles, inner_r, outer_r, h);
    proof {
        assert(triangles@ =~= convex_smooth_mesh(*p));
    }
    triangles
}

} // verus!
