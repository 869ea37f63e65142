use statscore::alternative::Alternative;

#[test]
fn test_alternative_parse_variants() {
    assert_eq!(Alternative::from_str("two-sided").unwrap(), Alternative::TwoSided);
    assert_eq!(Alternative::from_str("two_sided").unwrap(), Alternative::TwoSided);
    assert_eq!(Alternative::from_str("less").unwrap(), Alternative::Less);
    assert_eq!(Alternative::from_str("greater").unwrap(), Alternative::Greater);
    assert_eq!(Alternative::from_str("left").unwrap(), Alternative::Less);
    assert_eq!(Alternative::from_str("right").unwrap(), Alternative::Greater);
    assert!(Alternative::from_str("bad").is_err());
}

#[test]
fn alternative_parse_ignores_case() {
    assert_eq!(Alternative::from_str("TWO-SIDED").unwrap(), Alternative::TwoSided);
    assert_eq!(Alternative::from_str("Less").unwrap(), Alternative::Less);
    assert_eq!(Alternative::from_str("UpPeR").unwrap(), Alternative::Greater);
    assert_eq!(Alternative::from_str("LOWER").unwrap(), Alternative::Less);
}

#[test]
fn alternative_parse_all_synonyms() {
    for name in ["two_sided", "twosided", "two", "TwoSided", "Two"] {
        assert_eq!(Alternative::from_str(name).unwrap(), Alternative::TwoSided);
    }
    for name in ["less", "left", "lower"] {
        assert_eq!(Alternative::from_str(name).unwrap(), Alternative::Less);
    }
    for name in ["greater", "right", "upper"] {
        assert_eq!(Alternative::from_str(name).unwrap(), Alternative::Greater);
    }
}

#[test]
fn alternative_hyphen_and_underscore_agree() {
    assert_eq!(Alternative::from_str("two-sided"), Alternative::from_str("two_sided"));
    assert_eq!(Alternative::from_str("two-sided"), Alternative::from_str("Two_Sided"));
    assert_eq!(Alternative::from_str("bad-name"), Alternative::from_str("bad_name"));
}

#[test]
fn alternative_error_message_names_normalized_input() {
    let err = Alternative::from_str("Bad-Name").unwrap_err();
    assert_eq!(
        err,
        "Unknown alternative 'bad_name'. Use 'two-sided', 'less', or 'greater'."
    );
    assert!(Alternative::from_str("").is_err());
    assert!(Alternative::from_str("two sided").is_err());
    assert!(Alternative::from_str("lesser").is_err());
}

#[test]
fn alternative_from_normalized_is_exact() {
    assert_eq!(Alternative::from_normalized("two_sided").unwrap(), Alternative::TwoSided);
    assert_eq!(Alternative::from_normalized("upper").unwrap(), Alternative::Greater);
    assert_eq!(
        Alternative::from_normalized("Less").unwrap_err(),
        "Unknown alternative 'Less'. Use 'two-sided', 'less', or 'greater'."
    );
    assert!(Alternative::from_normalized("two-sided").is_err());
}

#[test]
fn alternative_default_is_two_sided() {
    assert_eq!(Alternative::default(), Alternative::TwoSided);
}

#[test]
fn ascii_case_and_separators_do_not_change_parse() {
    for s in ["two-sided", "two_sided", "Less", "left", "UPPER", "bad", "two__sided", "g-r", ""] {
        assert!(s.is_ascii());
        assert_eq!(Alternative::from_str(s), Alternative::from_str(&s.to_ascii_uppercase()));
        assert_eq!(Alternative::from_str(s), Alternative::from_str(&s.replace('_', "-")));
    }
}
