use ttdash::error::UpdateError;
use ttdash::update::{
    available_target, binary_update_available, descriptor_url, local_version, target_from_members,
    updater_configured, TTDashUpgradeTarget,
};
use ttdash::version::{parse_version, TTDashVersion};

fn check(local: &str, body: &str) -> Option<TTDashUpgradeTarget> {
    let fetched = available_target(body);
    binary_update_available(local_version(Some(local)).ok(), fetched)
}

#[test]
fn newer_remote_is_offered() {
    let body = r#"{"version": "1.3", "md5sum": "0123abcd", "url": "http://example.com/ttdash-1.3"}"#;
    let target = check("1.2", body).unwrap();
    assert_eq!(target.version, TTDashVersion::new(1, 3));
    assert_eq!(target.md5sum, "0123abcd");
    assert_eq!(target.url, "http://example.com/ttdash-1.3");
}

#[test]
fn equal_remote_is_not_offered() {
    let body = r#"{"version": "2.0", "md5sum": "00", "url": "u"}"#;
    assert!(check("2.0", body).is_none());
}

#[test]
fn older_remote_is_not_offered() {
    let body = r#"{"version": "2.0", "md5sum": "00", "url": "u"}"#;
    assert!(check("2.1", body).is_none());
}

#[test]
fn malformed_remote_version_is_a_parse_error() {
    let body = r#"{"version": "2", "md5sum": "00", "url": "u"}"#;
    assert!(matches!(available_target(body), Err(UpdateError::DescriptorParseError(_))));
    assert!(check("1.0", body).is_none());
}

#[test]
fn no_local_version_means_no_update() {
    let body = r#"{"version": "9.9", "md5sum": "00", "url": "u"}"#;
    assert!(binary_update_available(None, available_target(body)).is_none());
}

#[test]
fn failed_fetch_means_no_update() {
    let fetched = Err(UpdateError::NetworkError("connection refused".to_string()));
    assert!(binary_update_available(Some(TTDashVersion::new(1, 0)), fetched).is_none());
}

#[test]
fn newer_major_wins_over_smaller_minor() {
    let body = r#"{"version": "3.0", "md5sum": "00", "url": "u"}"#;
    assert_eq!(check("2.9", body).unwrap().version, TTDashVersion::new(3, 0));
}

#[test]
fn descriptor_errors() {
    for body in [
        "not json",
        "[1, 2]",
        r#"{"md5sum": "00", "url": "u"}"#,
        r#"{"version": "1.2", "url": "u"}"#,
        r#"{"version": "1.2", "md5sum": "00"}"#,
        r#"{"version": 1.2, "md5sum": "00", "url": "u"}"#,
        r#"{"version": "1.x", "md5sum": "00", "url": "u"}"#,
    ] {
        assert!(
            matches!(available_target(body), Err(UpdateError::DescriptorParseError(_))),
            "{}",
            body
        );
    }
}

#[test]
fn descriptor_ignores_other_members() {
    let body = r#"{"url": "x", "extra": 7, "md5sum": "ab", "version": " 4.5 "}"#;
    let target = available_target(body).unwrap();
    assert_eq!(target.version, TTDashVersion::new(4, 5));
    assert_eq!(target.md5sum, "ab");
    assert_eq!(target.url, "x");
}

#[test]
fn members_make_a_target() {
    let t = target_from_members(
        Some("1.4".to_string()),
        Some("ff".to_string()),
        Some("http://h/a".to_string()),
    )
    .unwrap();
    assert_eq!(t.version, TTDashVersion::new(1, 4));
    assert_eq!(t.md5sum, "ff");
    assert_eq!(t.url, "http://h/a");
    assert!(target_from_members(None, Some("ff".to_string()), Some("u".to_string())).is_err());
    assert!(target_from_members(Some("1".to_string()), Some("ff".to_string()), Some("u".to_string())).is_err());
}

#[test]
fn local_version_from_build_setting() {
    assert_eq!(local_version(Some("1.2")).unwrap(), TTDashVersion::new(1, 2));
    assert!(matches!(local_version(None), Err(UpdateError::NotConfigured)));
    match local_version(Some("x")) {
        Err(UpdateError::MalformedVersion(m)) => assert_eq!(m, "x"),
        other => panic!("unexpected {:?}", other),
    }
    assert!(updater_configured(Some("0.1")));
    assert!(!updater_configured(Some("0.1.2")));
    assert!(!updater_configured(None));
}

#[test]
fn descriptor_url_names_the_track() {
    assert_eq!(descriptor_url("arm"), "http://linode.mrjon.es/ttdash-arm.version");
}

#[test]
fn target_keeps_its_parts() {
    let t = TTDashUpgradeTarget::new(parse_version("5.6").unwrap(), "aa".to_string(), "b".to_string());
    assert_eq!(t.version.to_string(), "5.6");
}
