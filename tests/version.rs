use std::cmp::Ordering;
use ttdash::error::UpdateError;
use ttdash::version::{parse_version, TTDashVersion};

#[test]
fn parses_major_and_minor() {
    let v = parse_version("1.3").unwrap();
    assert_eq!(v, TTDashVersion::new(1, 3));
    assert_eq!(v.major, 1);
    assert_eq!(v.minor, 3);
}

#[test]
fn parse_ignores_surrounding_whitespace() {
    assert_eq!(parse_version("  12.40\n").unwrap(), TTDashVersion::new(12, 40));
    assert_eq!(parse_version("\t0.0 ").unwrap(), TTDashVersion::new(0, 0));
}

#[test]
fn parse_rejects_other_shapes() {
    for text in ["2", "", "1.", ".1", "1.2.3", "3.x.5", "a.b", "1 .2", "-1.2", "+1.2", "1,2"] {
        match parse_version(text) {
            Err(UpdateError::MalformedVersion(m)) => assert_eq!(m, text),
            other => panic!("{:?} parsed as {:?}", text, other),
        }
    }
}

#[test]
fn parse_rejects_components_beyond_u32() {
    assert_eq!(parse_version("4294967295.1").unwrap(), TTDashVersion::new(4294967295, 1));
    assert!(parse_version("4294967296.1").is_err());
    assert!(parse_version("1.99999999999999999999").is_err());
}

#[test]
fn format_round_trips_parse() {
    for text in ["0.0", "1.2", "10.0", "2.10", "123.456", "4294967295.4294967295"] {
        assert_eq!(parse_version(text).unwrap().to_string(), text);
    }
}

#[test]
fn leading_zeros_parse_but_format_canonically() {
    assert_eq!(parse_version("01.002").unwrap().to_string(), "1.2");
}

#[test]
fn compare_orders_by_major_then_minor() {
    let v = |a, b| TTDashVersion::new(a, b);
    assert_eq!(v(2, 0).compare(&v(1, 9)), Ordering::Greater);
    assert_eq!(v(1, 3).compare(&v(1, 2)), Ordering::Greater);
    assert_eq!(v(1, 2).compare(&v(1, 3)), Ordering::Less);
    assert_eq!(v(1, 9).compare(&v(2, 0)), Ordering::Less);
    assert_eq!(v(2, 0).compare(&v(2, 0)), Ordering::Equal);
    assert_eq!(v(1, 10).compare(&v(1, 9)), Ordering::Greater);
}

#[test]
fn compare_agrees_with_derived_order() {
    let vs = [(0, 0), (0, 1), (1, 0), (1, 1), (3, 7), (7, 3)];
    for &(a, b) in &vs {
        for &(c, d) in &vs {
            let x = TTDashVersion::new(a, b);
            let y = TTDashVersion::new(c, d);
            assert_eq!(x.compare(&y), x.cmp(&y));
        }
    }
}
