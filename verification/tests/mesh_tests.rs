use lens_rings::concave::generate_concave_ring;
use lens_rings::convex::generate_convex_ring;
use lens_rings::convex::generate_convex_ring_smooth;
use lens_rings::generate::generate_ring_mesh;
use lens_rings::mesh::CylPoint;
use lens_rings::params::RingParameters;
use lens_rings::preview::mesh_vertices;
use lens_rings::preview::preview_indices;
use lens_rings::ring_type::RingType;
use lens_rings::three_point::generate_three_point_ring;
use lens_rings::three_point::is_contact;

fn params(rt: RingType) -> RingParameters {
    RingParameters::new(rt, 400, 200).unwrap()
}

fn point(radius: i64, segment: u8, z: i64) -> CylPoint {
    CylPoint { radius, segment, z }
}

#[test]
fn every_style_generates_triangles() {
    for rt in [RingType::Convex, RingType::Concave, RingType::ThreePoint] {
        let mesh = generate_ring_mesh(&params(rt));
        assert!(!mesh.is_empty());
    }
}

#[test]
fn triangle_counts_are_resolution_bound() {
    // Smooth profiles: 64 * 8 * 2 side-wall faces plus 64 * 2 * 2 cap
    // faces, independent of the diameters.
    for (outer, inner) in [(400, 200), (3000, 100), (37, 12)] {
        let concave = RingParameters::new(RingType::Concave, outer, inner).unwrap();
        assert_eq!(generate_concave_ring(&concave).len(), 1280);
        let convex = RingParameters::new(RingType::Convex, outer, inner).unwrap();
        assert_eq!(generate_convex_ring_smooth(&convex).len(), 1280);
        assert_eq!(generate_convex_ring(&convex).len(), 1536);
        let three = RingParameters::new(RingType::ThreePoint, outer, inner).unwrap();
        assert_eq!(generate_three_point_ring(&three).len(), 384);
    }
}

#[test]
fn concave_side_wall_starts_at_the_inner_radius() {
    // Outer radius 20000 um, inner radius 10000 um, wall 10000 um.
    // Step radii go 10000, 11250, ...; the parabolic offset at step 1
    // is 3 * 10000 * 7 / 160 = 1312 um, negated for the concave wall.
    let mesh = generate_concave_ring(&params(RingType::Concave));
    assert_eq!(mesh[0].v1, point(10000, 0, 0));
    assert_eq!(mesh[0].v2, point(11250, 0, -1312));
    assert_eq!(mesh[0].v3, point(10000, 1, 0));
    assert_eq!(mesh[1].v1, point(11250, 0, -1312));
    assert_eq!(mesh[1].v2, point(11250, 1, -1312));
    assert_eq!(mesh[1].v3, point(10000, 1, 0));
}

#[test]
fn concave_caps_close_the_ring() {
    let mesh = generate_concave_ring(&params(RingType::Concave));
    // Base cap, first segment, mirrored winding at height 0.
    assert_eq!(mesh[1024].v1, point(10000, 0, 0));
    assert_eq!(mesh[1024].v2, point(10000, 1, 0));
    assert_eq!(mesh[1024].v3, point(20000, 0, 0));
    // Top cap, first segment, quad-split winding at the ring height.
    assert_eq!(mesh[1152].v1, point(10000, 0, 22000));
    assert_eq!(mesh[1152].v2, point(20000, 0, 22000));
    assert_eq!(mesh[1152].v3, point(10000, 1, 22000));
}

#[test]
fn concave_wall_wraps_back_to_the_first_segment() {
    let mesh = generate_concave_ring(&params(RingType::Concave));
    // Last side-wall quad belongs to segment 63 and reaches segment 0.
    let last = mesh[1023];
    assert_eq!(last.v1.segment, 63);
    assert_eq!(last.v2.segment, 0);
    assert_eq!(last.v3.segment, 0);
}

#[test]
fn convex_drawing_profile_walls_and_shelves() {
    let mesh = generate_convex_ring(&params(RingType::Convex));
    // First span: straight up the outer wall, radius 20000 um.
    assert_eq!(mesh[0].v1, point(20000, 0, 0));
    assert_eq!(mesh[0].v2, point(20000, 0, 22000));
    assert_eq!(mesh[0].v3, point(20000, 1, 0));
    // The recess radius is the inner radius plus 2 mm.
    assert_eq!(mesh[2].v1, point(20000, 0, 22000));
    assert_eq!(mesh[2].v2, point(12000, 0, 22000));
    // Caps: bottom face (recess to outer, facing down) then the 10 mm
    // shelf, the 12 mm shelf, and the recessed top at 22 mm.
    assert_eq!(mesh[1024].v1, point(12000, 0, 0));
    assert_eq!(mesh[1024].v2, point(12000, 1, 0));
    assert_eq!(mesh[1152].v1, point(10000, 0, 10000));
    assert_eq!(mesh[1280].v1, point(10000, 0, 12000));
    assert_eq!(mesh[1408].v1, point(12000, 0, 22000));
}

#[test]
fn smooth_profiles_negate_each_other() {
    // Identical parameters: at every matching side-wall sample the
    // axial offsets are exact negations, radii and segments equal.
    let convex = generate_convex_ring_smooth(&params(RingType::Convex));
    let concave = generate_concave_ring(&params(RingType::Concave));
    for k in 0..1024 {
        for (a, b) in [
            (convex[k].v1, concave[k].v1),
            (convex[k].v2, concave[k].v2),
            (convex[k].v3, concave[k].v3),
        ] {
            assert_eq!(a.radius, b.radius);
            assert_eq!(a.segment, b.segment);
            assert_eq!(a.z, -b.z);
        }
    }
    // And the convex bulge is real: it peaks at mid-wall.
    assert_eq!(convex[8].v1.z, 3000);
    assert_eq!(concave[8].v1.z, -3000);
}

#[test]
fn contact_segments_sit_at_the_three_pads() {
    // Pads at 0, 120 and 240 degrees, 15 degrees half-width, judged
    // from each segment's start angle the shorter way around: segments
    // 62 and 63 (just under 360 degrees) classify like 1 and 2.
    let expected = [
        0, 1, 2, 19, 20, 21, 22, 23, 41, 42, 43, 44, 45, 62, 63,
    ];
    for i in 0..64 {
        assert_eq!(is_contact(i), expected.contains(&i), "segment {}", i);
    }
}

#[test]
fn classification_is_stable_under_wrap() {
    // Reflecting the segments about the 0-degree pad centre maps the
    // pads onto each other, so the segments on either side of the
    // 0/360 wrap classify alike.
    for i in 1..64 {
        assert_eq!(is_contact(i), is_contact(64 - i), "segment {}", i);
    }
}

#[test]
fn three_point_emits_one_branch_per_segment() {
    let mesh = generate_three_point_ring(&params(RingType::ThreePoint));
    // Inner radius 10000 um; reduced brace radius
    // 10000 + 0.8 * 10000 = 18000 um at half height 11000 um.
    for i in 0..64 {
        let quad = mesh[2 * i];
        if is_contact(i) {
            assert_eq!(quad.v1, point(10000, i as u8, 0));
            assert_eq!(quad.v2.radius, 20000);
            assert_eq!(quad.v2.z, 0);
        } else {
            assert_eq!(quad.v1, point(18000, i as u8, 11000));
            assert_eq!(quad.v2, point(20000, i as u8, 0));
        }
    }
}

#[test]
fn preview_buffers_are_flat_and_sequential() {
    let mesh = generate_concave_ring(&params(RingType::Concave));
    let vertices = mesh_vertices(&mesh);
    assert_eq!(vertices.len(), 3 * mesh.len());
    assert_eq!(vertices[0], mesh[0].v1);
    assert_eq!(vertices[1], mesh[0].v2);
    assert_eq!(vertices[2], mesh[0].v3);
    assert_eq!(vertices[3], mesh[1].v1);
    assert_eq!(vertices[3 * 1279 + 2], mesh[1279].v3);

    let indices = preview_indices(mesh.len());
    assert_eq!(indices.len(), 3 * mesh.len());
    for (k, &ix) in indices.iter().enumerate() {
        assert_eq!(ix as usize, k);
    }
}
