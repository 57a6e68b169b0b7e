//! Flattening a mesh into the parallel buffers an on-screen preview
//! renders from: the vertices in triangle order and the sequential
//! index list of a non-indexed mesh (no vertex is shared or
//! deduplicated, even where geometry coincides).

use vstd::prelude::*;

use crate::mesh::CylPoint;
use crate::mesh::Triangle;

verus! {

/// The vertices of the mesh, flattened in triangle order: three
/// vertices per triangle, winding order kept. A front end maps each
/// vertex to its three Cartesian components.
pub fn mesh_vertices(mesh: &Vec<Triangle>) -> (r: Vec<CylPoint>)
    ensures
        r@.len() == 3 * mesh@.len(),
        forall|t: int|
            0 <= t < mesh@.len() ==> r@[3 * t] == (#[trigger] mesh@[t]).v1 && r@[3 * t + 1]
                == mesh@[t].v2 && r@[3 * t + 2] == mesh@[t].v3,
{
    let mut r: Vec<CylPoint> = Vec::new();
    let mut i: usize = 0;
    while i < mesh.len()
        invariant
            0 <= i <= mesh@.len(),
            r@.len() == 3 * i,
            forall|t: int|
                0 <= t < i ==> r@[3 * t] == (#[trigger] mesh@[t]).v1 && r@[3 * t + 1]
                    == mesh@[t].v2 && r@[3 * t + 2] == mesh@[t].v3,
        decreases mesh@.len() - i,
    {
        let tri = mesh[i];
        r.push(tri.v1);
        r.push(tri.v2);
        r.push(tri.v3);
        i = i + 1;
    }
    r
}

/// The index buffer of a non-indexed preview mesh: `3 * triangle_count`
/// sequential indices `0, 1, 2, ...`, one per flattened vertex.
pub fn preview_indices(triangle_count: usize) -> (r: Vec<u32>)
    requires
        3 * triangle_count <= u32::MAX,
    ensures
        r@.len() == 3 * triangle_count,
        forall|k: int| 0 <= k < r@.len() ==> (#[trigger] r@[k]) as int == k,
{
    let n = 3 * triangle_count;
    let mut r: Vec<u32> = Vec::new();
    let mut k: usize = 0;
    while k < n
        invariant
            n == 3 * triangle_count,
            n <= u32::MAX,
            0 <= k <= n,
            r@.len() == k,
            forall|j: int| 0 <= j < k ==> (#[trigger] r@[j]) as int == j,
        decreases n - k,
    {
        r.push(k as u32);
        k = k + 1;
    }
    r
}

} // verus!
