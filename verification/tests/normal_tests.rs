//! Floating-point checks of the derived triangle normals: converting
//! the exact cylindrical vertices to Cartesian coordinates the way a
//! front end does, every triangle of every style has a well-defined
//! unit normal.

use lens_rings::generate::generate_ring_mesh;
use lens_rings::mesh::CylPoint;
use lens_rings::mesh::Triangle;
use lens_rings::params::RingParameters;
use lens_rings::ring_type::RingType;

fn cartesian(p: &CylPoint) -> [f32; 3] {
    let angle = 2.0 * std::f32::consts::PI * (p.segment as f32) / 64.0;
    let r = p.radius as f32 / 1000.0;
    let z = p.z as f32 / 1000.0;
    [r * angle.cos(), r * angle.sin(), z]
}

fn normal(t: &Triangle) -> [f32; 3] {
    let a = cartesian(&t.v1);
    let b = cartesian(&t.v2);
    let c = cartesian(&t.v3);
    let e1 = [b[0] - a[0], b[1] - a[1], b[2] - a[2]];
    let e2 = [c[0] - a[0], c[1] - a[1], c[2] - a[2]];
    let cross = [
        e1[1] * e2[2] - e1[2] * e2[1],
        e1[2] * e2[0] - e1[0] * e2[2],
        e1[0] * e2[1] - e1[1] * e2[0],
    ];
    let len = (cross[0] * cross[0] + cross[1] * cross[1] + cross[2] * cross[2]).sqrt();
    assert!(len > 0.0, "degenerate triangle");
    [cross[0] / len, cross[1] / len, cross[2] / len]
}

fn magnitude(v: [f32; 3]) -> f32 {
    (v[0] * v[0] + v[1] * v[1] + v[2] * v[2]).sqrt()
}

#[test]
fn every_normal_is_unit_length() {
    for rt in [RingType::Convex, RingType::Concave, RingType::ThreePoint] {
        let p = RingParameters::new(rt, 400, 200).unwrap();
        let mesh = generate_ring_mesh(&p);
        for t in mesh.iter() {
            let n = normal(t);
            assert!((magnitude(n) - 1.0).abs() < 1e-4);
        }
    }
}

#[test]
fn cap_normals_face_outward() {
    // The base cap of the concave ring faces straight down, the top
    // cap straight up: the opposite winding of base and top is what
    // turns one split convention into outward normals on both.
    let p = RingParameters::new(RingType::Concave, 400, 200).unwrap();
    let mesh = generate_ring_mesh(&p);
    for t in &mesh[1024..1152] {
        let n = normal(t);
        assert!(n[2] < -0.999, "base cap normal {:?}", n);
    }
    for t in &mesh[1152..1280] {
        let n = normal(t);
        assert!(n[2] > 0.999, "top cap normal {:?}", n);
    }
}
