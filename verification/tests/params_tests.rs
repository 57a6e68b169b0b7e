use lens_rings::params::RingParameters;
use lens_rings::printing::PrintabilityIssue;
use lens_rings::printing::validate_for_printing;
use lens_rings::response::failure_response;
use lens_rings::response::plan_ring;
use lens_rings::response::success_response;
use lens_rings::ring_type::RingError;
use lens_rings::ring_type::RingType;

#[test]
fn valid_parameters_are_accepted() {
    // 40.0 mm outer, 20.0 mm inner.
    let p = RingParameters::new(RingType::Convex, 400, 200).unwrap();
    assert_eq!(p.ring_type, RingType::Convex);
    assert_eq!(p.outer_diameter, 400);
    assert_eq!(p.inner_diameter, 200);
    // The height is fixed at 22.0 mm.
    assert_eq!(p.height, 220);
}

#[test]
fn equal_diameters_are_rejected() {
    assert_eq!(
        RingParameters::new(RingType::Convex, 200, 200),
        Err(RingError::InvalidParameters)
    );
}

#[test]
fn negative_outer_diameter_is_rejected() {
    // -5.0 mm outer, 2.0 mm inner.
    assert_eq!(
        RingParameters::new(RingType::Convex, -50, 20),
        Err(RingError::InvalidParameters)
    );
}

#[test]
fn non_positive_inner_diameter_is_rejected() {
    assert_eq!(
        RingParameters::new(RingType::Concave, 400, 0),
        Err(RingError::InvalidParameters)
    );
    assert_eq!(
        RingParameters::new(RingType::Concave, 400, -10),
        Err(RingError::InvalidParameters)
    );
}

#[test]
fn filename_is_deterministic() {
    // Convex ring, 18.0 mm inner diameter.
    let p = RingParameters::new(RingType::Convex, 400, 180).unwrap();
    assert_eq!(p.filename(), "CX-18.0.stl");
}

#[test]
fn filename_keeps_one_decimal_place() {
    let p = RingParameters::new(RingType::Concave, 400, 255).unwrap();
    assert_eq!(p.filename(), "CC-25.5.stl");
    let q = RingParameters::new(RingType::ThreePoint, 1200, 1005).unwrap();
    assert_eq!(q.filename(), "3P-100.5.stl");
    let r = RingParameters::new(RingType::Convex, 20, 5).unwrap();
    assert_eq!(r.filename(), "CX-0.5.stl");
}

#[test]
fn printable_parameters_validate() {
    let p = RingParameters::new(RingType::Convex, 400, 200).unwrap();
    assert_eq!(validate_for_printing(&p), Ok(()));
}

#[test]
fn thin_wall_is_flagged() {
    // 40.0 mm outer, 39.0 mm inner: 0.5 mm wall.
    let p = RingParameters::new(RingType::Convex, 400, 390).unwrap();
    assert_eq!(
        validate_for_printing(&p),
        Err(PrintabilityIssue::WallTooThin)
    );
}

#[test]
fn oversized_ring_is_flagged() {
    // 301.0 mm outer diameter.
    let p = RingParameters::new(RingType::Convex, 3010, 200).unwrap();
    assert_eq!(validate_for_printing(&p), Err(PrintabilityIssue::TooLarge));
}

#[test]
fn tiny_inner_diameter_is_flagged() {
    // 4.0 mm inner diameter.
    let p = RingParameters::new(RingType::Convex, 400, 40).unwrap();
    assert_eq!(
        validate_for_printing(&p),
        Err(PrintabilityIssue::InnerTooSmall)
    );
}

#[test]
fn plan_ring_parses_and_validates() {
    let p = plan_ring("CX", 400, 200).unwrap();
    assert_eq!(p.ring_type, RingType::Convex);
    assert_eq!(p.height, 220);
    assert_eq!(plan_ring("cylindrical", 400, 200), Err(RingError::InvalidRingType));
    assert_eq!(plan_ring("CX", 200, 200), Err(RingError::InvalidParameters));
}

#[test]
fn responses_report_outcome() {
    let ok = success_response(
        RingType::Convex,
        String::from("CX-18.0.stl"),
        String::from("out/CX-18.0.stl"),
    );
    assert!(ok.success);
    assert_eq!(ok.message, "Successfully generated CX ring");
    assert_eq!(ok.filename.as_deref(), Some("CX-18.0.stl"));
    assert_eq!(ok.file_path.as_deref(), Some("out/CX-18.0.stl"));

    let fail = failure_response(String::from("Invalid parameters"));
    assert!(!fail.success);
    assert_eq!(fail.message, "Invalid parameters");
    assert!(fail.filename.is_none());
    assert!(fail.file_path.is_none());
}
