//! Style dispatch: one mesh generator per ring style, and the counting
//! laws of the generated meshes.

use vstd::arithmetic::div_mod::lemma_div_is_ordered;
use vstd::arithmetic::div_mod::lemma_div_pos_is_pos;
use vstd::prelude::*;

use crate::concave::concave_mesh;
use crate::concave::concave_quad;
use crate::concave::concave_side_tris;
use crate::concave::generate_concave_ring;
use crate::convex::convex_mesh;
use crate::convex::convex_smooth_mesh;
use crate::convex::convex_smooth_quad;
use crate::convex::convex_smooth_side_tris;
use crate::convex::generate_convex_ring;
use crate::mesh::SEGMENTS;
use crate::mesh::Triangle;
use crate::mesh::mirror_tri_z;
use crate::params::RingParameters;
use crate::revolve::RADIAL_STEPS;
use crate::revolve::lemma_convex_z_bounds;
use crate::ring_type::RingType;
use crate::three_point::generate_three_point_ring;
use crate::three_point::three_point_mesh;

verus! {

/// The mesh generated for given parameters: the style picks the
/// strategy, the dimensions fill it in.
pub open spec fn ring_mesh_spec(p: RingParameters) -> Seq<Triangle> {
    match p.ring_type {
        RingType::Convex => convex_mesh(p),
        RingType::Concave => concave_mesh(p),
        RingType::ThreePoint => three_point_mesh(p),
    }
}

/// Generates the triangle mesh for validated ring parameters. Given
/// valid parameters generation cannot fail; all failure is pushed
/// upstream into parsing and construction.
pub fn generate_ring_mesh(params: &RingParameters) -> (r: Vec<Triangle>)
    requires
        params.valid(),
    ensures
        r@ == ring_mesh_spec(*params),
{
    match params.ring_type {
        RingType::Convex => generate_convex_ring(params),
        RingType::Concave => generate_concave_ring(params),
        RingType::ThreePoint => generate_three_point_ring(params),
    }
}

/// Every ring style generates a non-empty triangle sequence, whatever
/// the parameters.
pub proof fn lemma_generate_nonempty(p: RingParameters)
    ensures
        ring_mesh_spec(p).len() > 0,
{
    lemma_mesh_triangle_counts(p);
}

/// Triangle counts are resolution-bound, never diameter-bound: for the
/// smooth profiles, 64 segments of 8 radial steps of 2 triangles make
/// 1024 side-wall faces, and the two caps of 64 segments of 2
/// triangles add 256, for 1280 in all. The drawing-profile convex ring
/// has 1024 side-wall faces and four caps (1536 in all), the
/// three-point ring one quad per segment and two caps (384 in all).
/// None of the counts depends on the diameters.
pub proof fn lemma_mesh_triangle_counts(p: RingParameters)
    ensures
        concave_side_tris(p).len() == 1024,
        convex_smooth_side_tris(p).len() == 1024,
        concave_mesh(p).len() == 1280,
        convex_smooth_mesh(p).len() == 1280,
        convex_mesh(p).len() == 1536,
        three_point_mesh(p).len() == 384,
{
}

/// For identical parameters, the concave side-wall quad at any angular
/// segment and radial step is the smooth convex one mirrored about the
/// base plane: same radii and segments, exactly negated axial offsets.
pub proof fn lemma_smooth_profiles_mirror(p: RingParameters, i: int, j: int)
    requires
        p.valid(),
        0 <= i < SEGMENTS,
        0 <= j < RADIAL_STEPS,
    ensures
        concave_quad(p, i, j).len() == 2,
        convex_smooth_quad(p, i, j).len() == 2,
        forall|t: int|
            0 <= t < 2 ==> concave_quad(p, i, j)[t] == mirror_tri_z(
                #[trigger] convex_smooth_quad(p, i, j)[t],
            ),
{
    lemma_convex_z_bounds(p, j);
    lemma_convex_z_bounds(p, j + 1);
    assert(concave_quad(p, i, j)[0] == mirror_tri_z(convex_smooth_quad(p, i, j)[0]));
    assert(concave_quad(p, i, j)[1] == mirror_tri_z(convex_smooth_quad(p, i, j)[1]));
}

/// Lifted to whole side walls: for identical parameters, triangle `k`
/// of the concave side wall is triangle `k` of the smooth convex side
/// wall mirrored about the base plane.
pub proof fn lemma_smooth_side_walls_mirror(p: RingParameters, k: int)
    requires
        p.valid(),
        0 <= k < 1024,
    ensures
        concave_side_tris(p)[k] == mirror_tri_z(convex_smooth_side_tris(p)[k]),
{
    lemma_div_pos_is_pos(k, 16);
    lemma_div_is_ordered(k, 1023, 16);
    assert(1023int / 16 == 63);
    let m = k % 16;
    lemma_div_pos_is_pos(m, 2);
    lemma_div_is_ordered(m, 15, 2);
    assert(15int / 2 == 7);
    lemma_smooth_profiles_mirror(p, k / 16, m / 2);
}

} // verus!
