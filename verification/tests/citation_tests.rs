use capitol::{Chamber, Citation, CiteParts, CongObjectType, Congress};

#[test]
fn test_tokenize_no_ver_house_bill() {
    let input = "118hr8070";
    let expected = CiteParts {
        congress: "118".chars().collect(),
        chamber: Some('h'),
        object_type: "r".chars().collect(),
        number: "8070".chars().collect(),
        ver: None,
    };
    let result = Citation::tokenize(input);
    assert_eq!(expected, result);
}

#[test]
fn test_parse_no_ver_house_bill() {
    let input = "118hr8070";
    let expected = Citation {
        congress: Congress(118),
        chamber: Chamber::House,
        object_type: CongObjectType::HouseBill,
        number: 8070,
        ver: None,
    };
    let result = input.parse();
    assert_eq!(expected, result.unwrap());
}

#[test]
fn test_parse_house_bill() {
    let input = "118hrpt529";
    let expected = Citation {
        congress: Congress(118),
        chamber: Chamber::House,
        object_type: CongObjectType::HouseReport,
        number: 529,
        ver: None,
    };
    let result = input.parse();
    assert_eq!(expected, result.unwrap());
}

#[test]
fn test_parse_senate_bill() {
    let input = "118srpt17";
    let expected = Citation {
        congress: Congress(118),
        chamber: Chamber::Senate,
        object_type: CongObjectType::SenateReport,
        number: 17,
        ver: None,
    };
    let result = input.parse();
    assert_eq!(expected, result.unwrap());
}

#[test]
fn test_tokenize_no_ver_senate_bill() {
    let input = "118s5";
    let expected = CiteParts {
        congress: "118".chars().collect(),
        chamber: Some('s'),
        object_type: Vec::new(),
        number: "5".chars().collect(),
        ver: None,
    };
    let result = Citation::tokenize(input);
    assert_eq!(expected, result);
}

#[test]
fn test_tokenize_with_ver_house_bill() {
    let input = "118hr555ih";
    let expected = CiteParts {
        congress: "118".chars().collect(),
        chamber: Some('h'),
        object_type: "r".chars().collect(),
        number: "555".chars().collect(),
        ver: Some("ih".chars().collect()),
    };
    let result = Citation::tokenize(input);
    assert_eq!(expected, result);
}

#[test]
fn test_tokenize_with_ver_senate_bill() {
    let input = "118s17is";
    let expected = CiteParts {
        congress: "118".chars().collect(),
        chamber: Some('s'),
        object_type: Vec::new(),
        number: "17".chars().collect(),
        ver: Some("is".chars().collect()),
    };
    let result = Citation::tokenize(input);
    assert_eq!(expected, result);
}

#[test]
fn test_house_bill_to_url() {
    let input = "118hr529";
    let expected = "https://www.congress.gov/bill/118th-congress/house-bill/529";
    let citation = input.parse::<Citation>().unwrap();
    let result = citation.to_url();
    assert_eq!(expected, result);
}

#[test]
fn test_house_bill_with_ver_to_url() {
    let input = "118hr529ih";
    let expected = "https://www.congress.gov/bill/118th-congress/house-bill/529/text/ih";
    let citation = input.parse::<Citation>().unwrap();
    let result = citation.to_url();
    assert_eq!(expected, result);
}

#[test]
fn test_house_report_to_url() {
    let input = "118hrpt529";
    let expected = "https://www.congress.gov/congressional-report/118th-congress/house-report/529";
    let citation = input.parse::<Citation>().unwrap();
    let result = citation.to_url();
    assert_eq!(expected, result);
}
