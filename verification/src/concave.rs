//! The concave ring: a smooth parabolic cross-section curving away
//! from the lens, revolved through all angular segments and closed by
//! flat base and top caps.

use vstd::prelude::*;

use crate::mesh::CylPoint;
use crate::mesh::SEGMENTS;
use crate::mesh::Triangle;
use crate::mesh::add_quad_triangles;
use crate::mesh::add_ring_base;
use crate::mesh::add_ring_top;
use crate::mesh::annulus_tris;
use crate::mesh::cyl;
use crate::mesh::lemma_index_split;
use crate::mesh::next_segment;
use crate::mesh::quad_tris;
use crate::params::RingParameters;
use crate::revolve::RADIAL_STEPS;
use crate::revolve::concave_z;
use crate::revolve::concave_z_um;
use crate::revolve::height;
use crate::revolve::height_um;
use crate::revolve::inner_radius;
use crate::revolve::inner_radius_um;
use crate::revolve::outer_radius;
use crate::revolve::outer_radius_um;
use crate::revolve::step_radius;
use crate::revolve::step_radius_um;

verus! {

/// The two side-wall triangles of the concave surface at angular
/// segment `i`, radial step `j`: the quad between radial steps `j` and
/// `j + 1` spanning segment `i` to the next one, split with the
/// quad-split winding.
pub open spec fn concave_quad(p: RingParameters, i: int, j: int) -> Seq<Triangle> {
    let a1 = i;
    let a2 = next_segment(i);
    let r1 = step_radius_um(p, j);
    let r2 = step_radius_um(p, j + 1);
    let z1 = concave_z_um(p, j);
    let z2 = concave_z_um(p, j + 1);
    quad_tris(cyl(r1, a1, z1), cyl(r2, a1, z2), cyl(r1, a2, z1), cyl(r2, a2, z2))
}

/// All 1024 side-wall triangles of the concave surface, ordered by
/// angular segment, then radial step, then the two halves of each quad.
pub open spec fn concave_side_tris(p: RingParameters) -> Seq<Triangle> {
    Seq::new(
        (SEGMENTS * RADIAL_STEPS * 2) as nat,
        |k: int| concave_quad(p, k / 16, (k % 16) / 2)[k % 2],
    )
}

/// The full concave mesh: the revolved side wall, a downward-facing
/// base cap at height zero and an upward-facing top cap at the ring
/// height, both spanning the inner to the outer radius.
pub open spec fn concave_mesh(p: RingParameters) -> Seq<Triangle> {
    concave_side_tris(p) + annulus_tris(inner_radius_um(p), outer_radius_um(p), 0, false)
        + annulus_tris(inner_radius_um(p), outer_radius_um(p), height_um(p), true)
}

/// Appends the 16 side-wall triangles of angular segment `i` of the
/// concave surface, one quad per radial step.
fn add_concave_segment(triangles: &mut Vec<Triangle>, p: &RingParameters, i: usize)
    requires
        p.valid(),
        i < SEGMENTS,
    ensures
        final(triangles)@ == old(triangles)@ + concave_side_tris(*p).subrange(
            16 * i as int,
            16 * (i + 1) as int,
        ),
{
    let ghost pre = triangles@;
    let ghost side = concave_side_tris(*p);
    let a1 = i as u8;
    let a2 = if i + 1 == SEGMENTS {
        0u8
    } else {
        (i + 1) as u8
    };
    let mut j: usize = 0;
    while j < RADIAL_STEPS
        invariant
            p.valid(),
            i < SEGMENTS,
            0 <= j <= RADIAL_STEPS,
            a1 == i as u8,
            a2 as int == next_segment(i as int),
            side == concave_side_tris(*p),
            triangles@ == pre + side.subrange(16 * i as int, 16 * i as int + 2 * j as int),
        decreases RADIAL_STEPS - j,
    {
        let r1 = step_radius(p, j);
        let r2 = step_radius(p, j + 1);
        let z1 = concave_z(p, j);
        let z2 = concave_z(p, j + 1);
        let p1 = CylPoint { radius: r1, segment: a1, z: z1 };
        let p2 = CylPoint { radius: r2, segment: a1, z: z2 };
        let p3 = CylPoint { radius: r1, segment: a2, z: z1 };
        let p4 = CylPoint { radius: r2, segment: a2, z: z2 };
        add_quad_triangles(triangles, p1, p2, p3, p4);
        proof {
            let ii = i as int;
            let jj = j as int;
            let k0 = 16 * ii + 2 * jj;
            lemma_index_split(ii, 2 * jj, 16);
            lemma_index_split(ii, 2 * jj + 1, 16);
            lemma_index_split(jj, 0, 2);
            lemma_index_split(jj, 1, 2);
            lemma_index_split(8 * ii + jj, 0, 2);
            lemma_index_split(8 * ii + jj, 1, 2);
            assert(p1 == cyl(step_radius_um(*p, jj), ii, concave_z_um(*p, jj)));
            assert(p2 == cyl(step_radius_um(*p, jj + 1), ii, concave_z_um(*p, jj + 1)));
            assert(p3 == cyl(step_radius_um(*p, jj), next_segment(ii), concave_z_um(*p, jj)));
            assert(p4 == cyl(
                step_radius_um(*p, jj + 1),
                next_segment(ii),
                concave_z_um(*p, jj + 1),
            ));
            assert(side[k0] == concave_quad(*p, ii, jj)[0]);
            assert(side[k0 + 1] == concave_quad(*p, ii, jj)[1]);
            assert(triangles@ =~= pre + side.subrange(16 * ii, k0 + 2));
        }
        j = j + 1;
    }
}

/// Generates the concave ring mesh: 1024 side-wall triangles (64
/// segments, 8 radial steps, 2 triangles each) and 256 cap triangles,
/// exactly as [`concave_mesh`] lays them out.
pub fn generate_concave_ring(p: &RingParameters) -> (r: Vec<Triangle>)
    requires
        p.valid(),
    ensures
        r@ == concave_mesh(*p),
{
    let mut triangles: Vec<Triangle> = Vec::new();
    let ghost side = concave_side_tris(*p);
    proof {
        assert(triangles@ =~= side.subrange(0, 0));
    }
    let mut i: usize = 0;
    while i < SEGMENTS
        invariant
            p.valid(),
            0 <= i <= SEGMENTS,
            side == concave_side_tris(*p),
            triangles@ == side.subrange(0, 16 * i as int),
        decreases SEGMENTS - i,
    {
        add_concave_segment(&mut triangles, p, i);
        proof {
            assert(triangles@ =~= side.subrange(0, 16 * (i + 1) as int));
        }
        i = i + 1;
    }
    proof {
        assert(side.subrange(0, 16 * SEGMENTS as int) =~= side);
    }
    let inner_r = inner_radius(p);
    let outer_r = outer_radius(p);
    let h = height(p);
    add_ring_base(&mut triangles, inner_r, outer_r, 0);
    add_ring_top(&mut triangles, inner_r, outer_r, h);
    proof {
        assert(triangles@ =~= concave_mesh(*p));
    }
    triangles
}

} // verus!
