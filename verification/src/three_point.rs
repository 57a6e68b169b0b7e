//! The three-point ring: three discrete raised contact pads at 0, 120
//! and 240 degrees, lightweight diagonal braces between them, closed by
//! flat base and top caps.
//!
//! Angles are measured in units of 1/192 of a turn, the coarsest grid
//! that holds both the segment boundaries (one segment is 3 units) and
//! the pad centres (120 degrees is 64 units) exactly. The contact
//! half-width of 15 degrees is 8 units. A segment belongs to a pad when
//! the circular distance from its start angle to a pad centre, taking
//! the shorter way around, is under the half-width.

use vstd::prelude::*;

use crate::mesh::CylPoint;
use crate::mesh::SEGMENTS;
use crate::mesh::Triangle;
use crate::mesh::add_quad_triangles;
use crate::mesh::add_ring_base;
use crate::mesh::add_ring_top;
use crate::mesh::annulus_tris;
use crate::mesh::cyl;
use crate::mesh::lemma_index_split;
use crate::mesh::next_segment;
use crate::mesh::quad_tris;
use crate::params::RingParameters;
use crate::revolve::height;
use crate::revolve::height_um;
use crate::revolve::inner_radius;
use crate::revolve::inner_radius_um;
use crate::revolve::outer_radius;
use crate::revolve::outer_radius_um;

verus! {

/// Angular units (192nds of a turn) in one full turn.
pub const FULL_TURN_U192: u64 = 192;

/// Angular units per angular segment (a 64th of a turn).
pub const SEGMENT_U192: u64 = 3;

/// The contact half-width: 15 degrees on either side of a pad centre.
pub const CONTACT_HALF_WIDTH_U192: u64 = 8;

/// The pad centres: 0, 120 and 240 degrees.
pub const PAD_CENTER_1_U192: u64 = 0;

/// The second pad centre, 120 degrees.
pub const PAD_CENTER_2_U192: u64 = 64;

/// The third pad centre, 240 degrees.
pub const PAD_CENTER_3_U192: u64 = 128;

/// Circular distance between two angles in 192nds of a turn, taking
/// the shorter way around.
pub open spec fn circ_dist_u192(a: int, b: int) -> int {
    let d = if a >= b {
        a - b
    } else {
        b - a
    };
    if d <= FULL_TURN_U192 - d {
        d
    } else {
        FULL_TURN_U192 - d
    }
}

/// Whether angular segment `i` belongs to a contact pad: its start
/// angle lies within the contact half-width of one of the three pad
/// centres, the distance taken the shorter way around the circle.
pub open spec fn is_contact_segment(i: int) -> bool {
    circ_dist_u192(SEGMENT_U192 * i, PAD_CENTER_1_U192 as int) < CONTACT_HALF_WIDTH_U192
        || circ_dist_u192(SEGMENT_U192 * i, PAD_CENTER_2_U192 as int) < CONTACT_HALF_WIDTH_U192
        || circ_dist_u192(SEGMENT_U192 * i, PAD_CENTER_3_U192 as int) < CONTACT_HALF_WIDTH_U192
}

/// The brace radius of a minimal segment: eight tenths of the wall
/// outboard of the inner radius. Wall widths in micrometres are
/// multiples of 50, so this is exactly 40 micrometres per tenth of a
/// millimetre of diameter difference.
pub open spec fn reduced_radius_um(p: RingParameters) -> int {
    inner_radius_um(p) + 40 * (p.outer_diameter as int - p.inner_diameter as int)
}

/// Half the ring height. Heights in tenths of a millimetre are even
/// multiples of 100 micrometres, so this is exact.
pub open spec fn half_height_um(p: RingParameters) -> int {
    50 * p.height as int
}

/// The two triangles of a contact segment: a full flat landing pad
/// from the inner to the outer radius at height zero.
pub open spec fn contact_quad(p: RingParameters, i: int) -> Seq<Triangle> {
    let a1 = i;
    let a2 = next_segment(i);
    quad_tris(
        cyl(inner_radius_um(p), a1, 0),
        cyl(outer_radius_um(p), a1, 0),
        cyl(inner_radius_um(p), a2, 0),
        cyl(outer_radius_um(p), a2, 0),
    )
}

/// The two triangles of a minimal segment: a diagonal brace from the
/// reduced radius at half height down to the outer radius at height
/// zero.
pub open spec fn minimal_quad(p: RingParameters, i: int) -> Seq<Triangle> {
    let a1 = i;
    let a2 = next_segment(i);
    quad_tris(
        cyl(reduced_radius_um(p), a1, half_height_um(p)),
        cyl(outer_radius_um(p), a1, 0),
        cyl(reduced_radius_um(p), a2, half_height_um(p)),
        cyl(outer_radius_um(p), a2, 0),
    )
}

/// The two side triangles of angular segment `i`: the contact pad where
/// the segment belongs to a pad, the minimal brace everywhere else.
pub open spec fn three_point_quad(p: RingParameters, i: int) -> Seq<Triangle> {
    if is_contact_segment(i) {
        contact_quad(p, i)
    } else {
        minimal_quad(p, i)
    }
}

/// All 128 side triangles of the three-point ring, one quad per
/// angular segment.
pub open spec fn three_point_side_tris(p: RingParameters) -> Seq<Triangle> {
    Seq::new((SEGMENTS * 2) as nat, |k: int| three_point_quad(p, k / 2)[k % 2])
}

/// The full three-point mesh: the 128 side triangles and 256 cap
/// triangles.
pub open spec fn three_point_mesh(p: RingParameters) -> Seq<Triangle> {
    three_point_side_tris(p) + annulus_tris(inner_radius_um(p), outer_radius_um(p), 0, false)
        + annulus_tris(inner_radius_um(p), outer_radius_um(p), height_um(p), true)
}

/// Circular distance between two angles, exec counterpart of
/// [`circ_dist_u192`].
fn circ_dist(a: u64, b: u64) -> (r: u64)
    requires
        a < FULL_TURN_U192,
        b < FULL_TURN_U192,
    ensures
        r as int == circ_dist_u192(a as int, b as int),
{
    let d = if a >= b {
        a - b
    } else {
        b - a
    };
    if d <= FULL_TURN_U192 - d {
        d
    } else {
        FULL_TURN_U192 - d
    }
}

/// Classifies angular segment `i`: does it belong to a contact pad?
pub fn is_contact(i: usize) -> (r: bool)
    requires
        i < SEGMENTS,
    ensures
        r == is_contact_segment(i as int),
{
    let start = SEGMENT_U192 * i as u64;
    circ_dist(start, PAD_CENTER_1_U192) < CONTACT_HALF_WIDTH_U192 || circ_dist(
        start,
        PAD_CENTER_2_U192,
    ) < CONTACT_HALF_WIDTH_U192 || circ_dist(start, PAD_CENTER_3_U192) < CONTACT_HALF_WIDTH_U192
}

/// Appends the full flat landing pad of contact segment `i`.
fn add_contact_segment(triangles: &mut Vec<Triangle>, p: &RingParameters, i: usize)
    requires
        p.valid(),
        i < SEGMENTS,
    ensures
        final(triangles)@ == old(triangles)@ + contact_quad(*p, i as int),
{
    let a1 = i as u8;
    let a2 = if i + 1 == SEGMENTS {
        0u8
    } else {
        (i + 1) as u8
    };
    let inner_r = inner_radius(p);
    let outer_r = outer_radius(p);
    let p1 = CylPoint { radius: inner_r, segment: a1, z: 0 };
    let p2 = CylPoint { radius: outer_r, segment: a1, z: 0 };
    let p3 = CylPoint { radius: inner_r, segment: a2, z: 0 };
    let p4 = CylPoint { radius: outer_r, segment: a2, z: 0 };
    add_quad_triangles(triangles, p1, p2, p3, p4);
}

/// Appends the diagonal brace of minimal segment `i`.
fn add_minimal_segment(triangles: &mut Vec<Triangle>, p: &RingParameters, i: usize)
    requires
        p.valid(),
        i < SEGMENTS,
    ensures
        final(triangles)@ == old(triangles)@ + minimal_quad(*p, i as int),
{
    let a1 = i as u8;
    let a2 = if i + 1 == SEGMENTS {
        0u8
    } else {
        (i + 1) as u8
    };
    let outer_r = outer_radius(p);
    let reduced_r = inner_radius(p) + 40 * ((p.outer_diameter as i64) - (p.inner_diameter as i64));
    let half_h = 50 * (p.height as i64);
    let p1 = CylPoint { radius: reduced_r, segment: a1, z: half_h };
    let p2 = CylPoint { radius: outer_r, segment: a1, z: 0 };
    let p3 = CylPoint { radius: reduced_r, segment: a2, z: half_h };
    let p4 = CylPoint { radius: outer_r, segment: a2, z: 0 };
    add_quad_triangles(triangles, p1, p2, p3, p4);
}

/// Generates the three-point ring mesh: one quad per angular segment
/// (contact pad or minimal brace) and the two caps, exactly as
/// [`three_point_mesh`] lays them out.
pub fn generate_three_point_ring(p: &RingParameters) -> (r: Vec<Triangle>)
    requires
        p.valid(),
    ensures
        r@ == three_point_mesh(*p),
{
    let mut triangles: Vec<Triangle> = Vec::new();
    let ghost side = three_point_side_tris(*p);
    proof {
        assert(triangles@ =~= side.subrange(0, 0));
    }
    let mut i: usize = 0;
    while i < SEGMENTS
        invariant
            p.valid(),
            0 <= i <= SEGMENTS,
            side == three_point_side_tris(*p),
            triangles@ == side.subrange(0, 2 * i as int),
        decreases SEGMENTS - i,
    {
        if is_contact(i) {
            add_contact_segment(&mut triangles, p, i);
        } else {
            add_minimal_segment(&mut triangles, p, i);
        }
        proof {
            let ii = i as int;
            lemma_index_split(ii, 0, 2);
            lemma_index_split(ii, 1, 2);
            assert(side[2 * ii] == three_point_quad(*p, ii)[0]);
            assert(side[2 * ii + 1] == three_point_quad(*p, ii)[1]);
            assert(triangles@ =~= side.subrange(0, 2 * (i + 1) as int));
        }
        i = i + 1;
    }
    proof {
        assert(side.subrange(0, 2 * SEGMENTS as int) =~= side);
    }
    let inner_r = inner_radius(p);
    let outer_r = outer_radius(p);
    let h = height(p);
    add_ring_base(&mut triangles, inner_r, outer_r, 0);
    add_ring_top(&mut triangles, inner_r, outer_r, h);
    proof {
        assert(triangles@ =~= three_point_mesh(*p));
    }
    triangles
}

/// Pad classification is stable under the wrap of the circle: the
/// segments reflected about the 0-degree pad centre are classified
/// alike, so a pad crossing 0/360 degrees behaves like any interior
/// pad. (The reflection maps the pad at 120 degrees onto the one at
/// 240 degrees and conversely.)
pub proof fn lemma_contact_wrap_symmetry(i: int)
    requires
        1 <= i < SEGMENTS,
    ensures
        is_contact_segment(i) == is_contact_segment(SEGMENTS - i),
{
}

/// For every angular segment exactly one of the two branches fires:
/// the segment is emitted as a contact pad exactly when it belongs to
/// one, as a minimal brace otherwise, and the two shapes are never the
/// same triangles (the brace sits at the reduced radius, strictly
/// outboard of the pad's inner edge).
pub proof fn lemma_segment_branch_exclusive(p: RingParameters, i: int)
    requires
        p.valid(),
        0 <= i < SEGMENTS,
    ensures
        is_contact_segment(i) ==> three_point_quad(p, i) == contact_quad(p, i),
        !is_contact_segment(i) ==> three_point_quad(p, i) == minimal_quad(p, i),
        contact_quad(p, i) != minimal_quad(p, i),
{
    let c = contact_quad(p, i);
    let m = minimal_quad(p, i);
    assert(c[0].v1.radius as int == inner_radius_um(p));
    assert(m[0].v1.radius as int == reduced_radius_um(p));
    assert(inner_radius_um(p) < reduced_radius_um(p));
    assert(c[0] != m[0]);
}

} // verus!
