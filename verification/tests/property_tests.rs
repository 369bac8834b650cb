use capitol::{current_congress, Chamber, Citation, CongObjectType, Congress, Error, Version};

#[test]
fn test_round_trip_deterministic() {
    let first = Citation::parse("118hr8070ih").unwrap().to_url();
    let second = Citation::parse("118hr8070ih").unwrap().to_url();
    assert_eq!(first, second);
    assert_eq!(
        first,
        "https://www.congress.gov/bill/118th-congress/house-bill/8070/text/ih"
    );
}

#[test]
fn test_zero_congress_rejected() {
    assert_eq!(Citation::parse("0hr1"), Err(Error::CongressOutOfRange));
}

#[test]
fn test_zero_number_rejected() {
    assert_eq!(Citation::parse("1hr0"), Err(Error::ZeroNumber));
}

#[test]
fn test_future_congress_rejected() {
    let future = current_congress() + 1;
    let input = format!("{future}hr51");
    assert_eq!(Citation::parse(&input), Err(Error::CongressOutOfRange));
}

#[test]
fn test_current_congress_in_range() {
    let current = current_congress();
    assert!(current >= 118);
}

#[test]
fn test_parse_with_current_bounds_congress() {
    assert_eq!(
        Citation::parse_with_current("118hr51", 117),
        Err(Error::CongressOutOfRange)
    );
    let citation = Citation::parse_with_current("118hr51", 118).unwrap();
    assert_eq!(citation.congress, Congress(118));
}

#[test]
fn test_senate_with_house_bill_tag_rejected() {
    assert_eq!(Citation::parse("1sr1"), Err(Error::UnknownObjectType));
}

#[test]
fn test_missing_chamber_rejected() {
    assert_eq!(Citation::parse("101"), Err(Error::UnknownObjectType));
}

#[test]
fn test_unknown_object_type_rejected() {
    assert_eq!(Citation::parse("118hfoo1"), Err(Error::UnknownObjectType));
}

#[test]
fn test_unknown_version_rejected() {
    assert_eq!(Citation::parse("118hr8070xx"), Err(Error::InvalidBillVersion));
}

#[test]
fn test_known_version_accepted() {
    let citation = Citation::parse("118hr8070ih").unwrap();
    assert_eq!(citation.ver, Some(Version("ih".to_string())));
}

#[test]
fn test_empty_input_rejected() {
    assert_eq!(Citation::parse(""), Err(Error::InvalidInteger));
}

#[test]
fn test_congress_past_u64_rejected() {
    assert_eq!(
        Citation::parse("18446744073709551616hr1"),
        Err(Error::InvalidInteger)
    );
}

#[test]
fn test_uppercase_input_accepted() {
    let citation = Citation::parse("118HR8070IH").unwrap();
    assert_eq!(citation.chamber, Chamber::House);
    assert_eq!(citation.object_type, CongObjectType::HouseBill);
    assert_eq!(citation.ver, Some(Version("ih".to_string())));
    assert_eq!(
        citation.to_url(),
        "https://www.congress.gov/bill/118th-congress/house-bill/8070/text/ih"
    );
}

#[test]
fn test_leading_zeros_in_congress_accepted() {
    let citation = Citation::parse("0118hr8070").unwrap();
    assert_eq!(citation.congress, Congress(118));
}

#[test]
fn test_trailing_garbage_discarded() {
    let with_garbage = Citation::parse("118hr8070ih!!!").unwrap();
    let plain = Citation::parse("118hr8070ih").unwrap();
    assert_eq!(with_garbage, plain);
}

#[test]
fn test_end_to_end_house_bill() {
    let citation = Citation::parse("118hr8070").unwrap();
    let expected = Citation {
        congress: Congress(118),
        chamber: Chamber::House,
        object_type: CongObjectType::HouseBill,
        number: 8070,
        ver: None,
    };
    assert_eq!(citation, expected);
    assert_eq!(
        citation.to_url(),
        "https://www.congress.gov/bill/118th-congress/house-bill/8070"
    );
}

#[test]
fn test_end_to_end_senate_joint_resolution() {
    let citation = Citation::parse("113sjres230").unwrap();
    assert_eq!(citation.congress, Congress(113));
    assert_eq!(citation.chamber, Chamber::Senate);
    assert_eq!(citation.object_type, CongObjectType::SenateJointResolution);
    assert_eq!(citation.number, 230);
    assert_eq!(
        citation.to_url(),
        "https://www.congress.gov/bill/113rd-congress/senate-joint-resolution/230"
    );
}

#[test]
fn test_senate_bill_to_url() {
    let citation = Citation::parse("118s5").unwrap();
    assert_eq!(citation.object_type, CongObjectType::SenateBill);
    assert_eq!(
        citation.to_url(),
        "https://www.congress.gov/bill/118th-congress/senate-bill/5"
    );
}

#[test]
fn test_congress_years() {
    assert_eq!(Congress(118).years(), (2023, 2024));
    assert_eq!(Congress(1).years(), (1789, 1790));
}

#[test]
fn test_error_messages_distinct() {
    let errors = [
        Error::InvalidInteger,
        Error::CongressOutOfRange,
        Error::UnknownObjectType,
        Error::InvalidBillVersion,
        Error::ZeroNumber,
    ];
    for (i, a) in errors.iter().enumerate() {
        assert!(!a.message().is_empty());
        for b in errors.iter().skip(i + 1) {
            assert_ne!(a.message(), b.message());
        }
    }
}
