use lens_rings::ring_type::RingError;
use lens_rings::ring_type::RingType;

#[test]
fn code_round_trip_recovers_each_variant() {
    let variants = [RingType::Convex, RingType::Concave, RingType::ThreePoint];
    for &rt in variants.iter() {
        let code = rt.to_string();
        assert_eq!(RingType::from_str(code.as_str()), Ok(rt));
    }
}

#[test]
fn codes_are_canonical() {
    assert_eq!(RingType::Convex.to_string(), "CX");
    assert_eq!(RingType::Concave.to_string(), "CC");
    assert_eq!(RingType::ThreePoint.to_string(), "3P");
}

#[test]
fn long_form_aliases_parse_case_insensitively() {
    assert_eq!(RingType::from_str("CONVEX"), Ok(RingType::Convex));
    assert_eq!(RingType::from_str("convex"), Ok(RingType::Convex));
    assert_eq!(RingType::from_str("cx"), Ok(RingType::Convex));
    assert_eq!(RingType::from_str("Concave"), Ok(RingType::Concave));
    assert_eq!(RingType::from_str("cc"), Ok(RingType::Concave));
    assert_eq!(RingType::from_str("THREEPOINT"), Ok(RingType::ThreePoint));
    assert_eq!(RingType::from_str("three-point"), Ok(RingType::ThreePoint));
    assert_eq!(RingType::from_str("3p"), Ok(RingType::ThreePoint));
}

#[test]
fn unknown_ring_type_fails_to_parse() {
    assert_eq!(
        RingType::from_str("cylindrical"),
        Err(RingError::InvalidRingType)
    );
    assert_eq!(RingType::from_str(""), Err(RingError::InvalidRingType));
    assert_eq!(RingType::from_str("CXX"), Err(RingError::InvalidRingType));
    assert_eq!(RingType::from_str("3"), Err(RingError::InvalidRingType));
}

#[test]
fn ring_type_error_message_enumerates_codes() {
    let e = RingType::from_str("cylindrical").unwrap_err();
    assert_eq!(
        e.message(),
        "Invalid ring type. Valid types are: CX, CC, 3P"
    );
}
