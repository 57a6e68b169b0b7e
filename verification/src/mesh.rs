//! Mesh building blocks: cylindrical vertices, oriented triangles, the
//! quad-to-triangle split, and the flat annular caps shared by all ring
//! styles.
//!
//! A vertex names its position in cylindrical coordinates: a radius and
//! an axial height in micrometres, and an angular position given as one
//! of [`SEGMENTS`] equal steps around the ring axis (segment `s` stands
//! for the angle `2*pi*s/SEGMENTS`). The Cartesian position and the
//! face normal of a triangle are derived from these exact coordinates
//! by unverified front ends; the vertex winding recorded here alone
//! determines the normal's direction.

use vstd::arithmetic::div_mod::lemma_fundamental_div_mod_converse_div;
use vstd::arithmetic::div_mod::lemma_fundamental_div_mod_converse_mod;
use vstd::prelude::*;

verus! {

/// Number of angular steps in one full revolution.
pub const SEGMENTS: usize = 64;

/// A mesh vertex in cylindrical coordinates.
#[derive(Debug, Clone, Copy, PartialEq, Eq, Structural)]
pub struct CylPoint {
    /// Distance from the ring axis, micrometres.
    pub radius: i64,
    /// Angular position, in units of one 64th of a full turn.
    pub segment: u8,
    /// Axial height, micrometres.
    pub z: i64,
}

/// One oriented triangle. The vertices are held by value in winding
/// order: adjacent faces duplicate coincident vertices rather than
/// sharing them, and the order `v1, v2, v3` is what makes the derived
/// normal (the normalized cross product of `v2 - v1` and `v3 - v1`)
/// face outward.
#[derive(Debug, Clone, Copy, PartialEq, Eq, Structural)]
pub struct Triangle {
    pub v1: CylPoint,
    pub v2: CylPoint,
    pub v3: CylPoint,
}

/// A vertex from mathematical-integer coordinates.
pub open spec fn cyl(radius: int, segment: int, z: int) -> CylPoint {
    CylPoint { radius: radius as i64, segment: segment as u8, z: z as i64 }
}

/// A triangle from three vertices in winding order.
pub open spec fn tri(p1: CylPoint, p2: CylPoint, p3: CylPoint) -> Triangle {
    Triangle { v1: p1, v2: p2, v3: p3 }
}

/// The quad-to-triangle split. A quad spanning two neighbouring angles
/// and two profile boundaries, given as corners `p1, p2` (first angle)
/// and `p3, p4` (second angle), splits into `(p1, p2, p3)` and
/// `(p2, p4, p3)`. Side walls and top caps use this winding.
pub open spec fn quad_tris(p1: CylPoint, p2: CylPoint, p3: CylPoint, p4: CylPoint) -> Seq<
    Triangle,
> {
    seq![tri(p1, p2, p3), tri(p2, p4, p3)]
}

/// The mirror of [`quad_tris`]: triangles `(p1, p3, p2)` and
/// `(p2, p3, p4)`. Bottom caps use this winding so that their normals
/// face downward, away from the solid.
pub open spec fn quad_tris_mirrored(p1: CylPoint, p2: CylPoint, p3: CylPoint, p4: CylPoint) -> Seq<
    Triangle,
> {
    seq![tri(p1, p3, p2), tri(p2, p3, p4)]
}

/// The vertex mirrored about the base plane: same radius and angular
/// segment, negated axial height.
pub open spec fn mirror_point_z(p: CylPoint) -> CylPoint {
    CylPoint { radius: p.radius, segment: p.segment, z: (-(p.z as int)) as i64 }
}

/// The triangle mirrored about the base plane, winding kept.
pub open spec fn mirror_tri_z(t: Triangle) -> Triangle {
    tri(mirror_point_z(t.v1), mirror_point_z(t.v2), mirror_point_z(t.v3))
}

/// The angular segment following `i`, wrapping the last segment back
/// to the first.
pub open spec fn next_segment(i: int) -> int {
    if i + 1 == SEGMENTS { 0 } else { i + 1 }
}

/// The two triangles of segment `i` of a flat annular cap between
/// `inner_r` and `outer_r` at height `z`. An upward-facing cap uses the
/// quad-split winding, a downward-facing one its mirror.
pub open spec fn annulus_quad(
    inner_r: int,
    outer_r: int,
    z: int,
    face_up: bool,
    i: int,
) -> Seq<Triangle> {
    let p1 = cyl(inner_r, i, z);
    let p2 = cyl(outer_r, i, z);
    let p3 = cyl(inner_r, next_segment(i), z);
    let p4 = cyl(outer_r, next_segment(i), z);
    if face_up {
        quad_tris(p1, p2, p3, p4)
    } else {
        quad_tris_mirrored(p1, p2, p3, p4)
    }
}

/// All 128 triangles of a flat annular cap, one quad per angular
/// segment in segment order.
pub open spec fn annulus_tris(inner_r: int, outer_r: int, z: int, face_up: bool) -> Seq<Triangle> {
    Seq::new(
        2 * SEGMENTS as nat,
        |k: int| annulus_quad(inner_r, outer_r, z, face_up, k / 2)[k % 2],
    )
}

/// Division and remainder of an index laid out as `pairs * i + m`.
pub proof fn lemma_index_split(i: int, m: int, width: int)
    requires
        0 <= i,
        0 <= m < width,
    ensures
        (width * i + m) / width == i,
        (width * i + m) % width == m,
{
    assert(width * i + m == i * width + m) by (nonlinear_arith);
    lemma_fundamental_div_mod_converse_div(width * i + m, width, i, m);
    lemma_fundamental_div_mod_converse_mod(width * i + m, width, i, m);
}

/// Appends one triangle with the given winding.
pub fn add_triangle(triangles: &mut Vec<Triangle>, p1: CylPoint, p2: CylPoint, p3: CylPoint)
    ensures
        final(triangles)@ == old(triangles)@.push(tri(p1, p2, p3)),
{
    triangles.push(Triangle { v1: p1, v2: p2, v3: p3 });
}

/// Splits a quad into two triangles with the quad-split winding and
/// appends both.
pub fn add_quad_triangles(
    triangles: &mut Vec<Triangle>,
    p1: CylPoint,
    p2: CylPoint,
    p3: CylPoint,
    p4: CylPoint,
)
    ensures
        final(triangles)@ == old(triangles)@ + quad_tris(p1, p2, p3, p4),
{
    add_triangle(triangles, p1, p2, p3);
    add_triangle(triangles, p2, p4, p3);
    proof {
        assert(triangles@ =~= old(triangles)@ + quad_tris(p1, p2, p3, p4));
    }
}

/// Appends a flat annular cap between `inner_r` and `outer_r` at
/// height `z`, one quad per angular segment, facing up or down.
pub fn add_annular_surface(
    triangles: &mut Vec<Triangle>,
    inner_r: i64,
    outer_r: i64,
    z: i64,
    face_up: bool,
)
    ensures
        final(triangles)@ == old(triangles)@ + annulus_tris(
            inner_r as int,
            outer_r as int,
            z as int,
            face_up,
        ),
{
    let ghost pre = triangles@;
    let ghost cap = annulus_tris(inner_r as int, outer_r as int, z as int, face_up);
    proof {
        assert(triangles@ =~= pre + cap.take(0));
    }
    let mut i: usize = 0;
    while i < SEGMENTS
        invariant
            0 <= i <= SEGMENTS,
            cap == annulus_tris(inner_r as int, outer_r as int, z as int, face_up),
            triangles@ == pre + cap.take(2 * i as int),
        decreases SEGMENTS - i,
    {
        let a1 = i as u8;
        let a2 = if i + 1 == SEGMENTS {
            0u8
        } else {
            (i + 1) as u8
        };
        let p1 = CylPoint { radius: inner_r, segment: a1, z };
        let p2 = CylPoint { radius: outer_r, segment: a1, z };
        let p3 = CylPoint { radius: inner_r, segment: a2, z };
        let p4 = CylPoint { radius: outer_r, segment: a2, z };
        if face_up {
            add_quad_triangles(triangles, p1, p2, p3, p4);
        } else {
            add_triangle(triangles, p1, p3, p2);
            add_triangle(triangles, p2, p3, p4);
        }
        proof {
            lemma_index_split(i as int, 0, 2);
            lemma_index_split(i as int, 1, 2);
            assert(cap[2 * i as int] == annulus_quad(
                inner_r as int,
                outer_r as int,
                z as int,
                face_up,
                i as int,
            )[0]);
            assert(cap[2 * i as int + 1] == annulus_quad(
                inner_r as int,
                outer_r as int,
                z as int,
                face_up,
                i as int,
            )[1]);
            assert(triangles@ =~= pre + cap.take(2 * (i + 1) as int));
        }
        i = i + 1;
    }
    proof {
        assert(cap.take(2 * SEGMENTS as int) =~= cap);
    }
}

/// Appends the bottom cap of a ring: a downward-facing annulus.
pub fn add_ring_base(triangles: &mut Vec<Triangle>, inner_r: i64, outer_r: i64, z: i64)
    ensures
        final(triangles)@ == old(triangles)@ + annulus_tris(
            inner_r as int,
            outer_r as int,
            z as int,
            false,
        ),
{
    add_annular_surface(triangles, inner_r, outer_r, z, false);
}

/// Appends the top cap of a ring: an upward-facing annulus.
pub fn add_ring_top(triangles: &mut Vec<Triangle>, inner_r: i64, outer_r: i64, z: i64)
    ensures
        final(triangles)@ == old(triangles)@ + annulus_tris(
            inner_r as int,
            outer_r as int,
            z as int,
            true,
        ),
{
    add_annular_surface(triangles, inner_r, outer_r, z, true);
}

} // verus!
