use fulltime_plugin_api::{interface_version, schema_version, ParseVersionError, Version};

#[test]
fn accepts_same_major_lower_minor() {
    assert!(Version::new(1, 3).accepts(Version::new(1, 2)));
}

#[test]
fn rejects_same_major_higher_minor() {
    assert!(!Version::new(1, 1).accepts(Version::new(1, 2)));
}

#[test]
fn rejects_different_major() {
    assert!(!Version::new(2, 0).accepts(Version::new(1, 9)));
}

#[test]
fn round_trips_through_display_and_parse() {
    let v = Version::new(3, 7);
    assert_eq!(v.to_string().parse(), Ok(v));
}

#[test]
fn rejects_malformed_strings() {
    assert!("1".parse::<Version>().is_err());
    assert!("1.2.3".parse::<Version>().is_err());
    assert!("a.b".parse::<Version>().is_err());
}

#[test]
fn accepts_equal_version() {
    let v = Version::new(4, 2);
    assert!(v.accepts(v));
}

#[test]
fn compatibility_chains_through_an_intermediate_version() {
    let (a, b, c) = (Version::new(1, 5), Version::new(1, 3), Version::new(1, 1));
    assert!(a.accepts(b) && b.accepts(c));
    assert!(a.accepts(c));
}

#[test]
fn doc_example_versions() {
    assert!(Version::new(1, 3).accepts(Version::new(1, 2)));
    assert_eq!("1.2".parse(), Ok(Version::new(1, 2)));
}

#[test]
fn text_form_is_decimal_major_dot_minor() {
    assert_eq!(Version::new(3, 7).to_string(), "3.7");
    assert_eq!(Version::new(0, 0).to_string(), "0.0");
    assert_eq!(Version::new(10, 255).to_string(), "10.255");
    assert_eq!(Version::new(65535, 9).to_string(), "65535.9");
}

#[test]
fn round_trip_holds_at_the_edges() {
    for v in [
        Version::new(0, 0),
        Version::new(9, 10),
        Version::new(100, 1000),
        Version::new(65535, 65535),
    ] {
        assert_eq!(Version::parse(&v.to_string()), Ok(v));
    }
}

#[test]
fn parses_what_u16_parsing_accepts() {
    assert_eq!(Version::parse("+1.02"), Ok(Version::new(1, 2)));
    assert_eq!(Version::parse("007.0"), Ok(Version::new(7, 0)));
    assert_eq!(Version::parse("65535.65535"), Ok(Version::new(65535, 65535)));
}

#[test]
fn rejects_what_u16_parsing_rejects() {
    for s in [
        "", ".", "1.", ".1", "+.1", "1.+", "-1.0", "1.-0", "65536.0", "0.65536", " 1.0",
        "1.0 ", "1,0", "++1.0", "1.2.3", "99999999999999999999.1",
    ] {
        assert!(Version::parse(s).is_err(), "{s:?} should be rejected");
        assert_eq!(s.parse::<Version>().is_err(), true);
    }
}

#[test]
fn error_carries_the_rejected_string() {
    let err: ParseVersionError = Version::parse("not-a-version").unwrap_err();
    assert_eq!(err.input(), "not-a-version");
    assert_eq!("1".parse::<Version>(), Err(err_for("1")));
}

fn err_for(s: &str) -> ParseVersionError {
    Version::parse(s).unwrap_err()
}

#[test]
fn current_contract_versions() {
    assert_eq!(schema_version(), Version::new(1, 0));
    assert_eq!(interface_version(), Version::new(2, 0));
    assert!(schema_version().accepts(Version::new(1, 0)));
    assert!(!interface_version().accepts(Version::new(1, 0)));
}

/// The `"major.minor"` reading that splits at the first `.` and parses both halves as
/// `u16` with std.
fn split_and_parse(s: &str) -> Option<Version> {
    let (major, minor) = s.split_once('.')?;
    Some(Version::new(major.parse().ok()?, minor.parse().ok()?))
}

#[test]
fn agrees_with_splitting_and_std_u16_parsing() {
    let pieces = [
        "", "0", "1", "+1", "-1", "+", "-", "00", "65535", "65536", "070", "1a", "a", " 1",
        "+0", "٣", "1_0", "4294967296", "99999",
    ];
    for a in pieces {
        for b in pieces {
            for sep in [".", ".."] {
                let s = format!("{a}{sep}{b}");
                assert_eq!(Version::parse(&s).ok(), split_and_parse(&s), "{s:?}");
            }
        }
    }
}
