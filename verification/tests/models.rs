use coder::models::duration::Duration;
use coder::models::{EnvironmentStatus, ImageId, OrgRole, SiteRole};

#[test]
fn test_serialize_duration() {
    let ms = 86400000i64;
    let d = Duration::from_milliseconds(ms);
    assert_eq!(d.to_millis_string(), ms.to_string());
    assert_eq!(d.to_millis_string(), "86400000");
}

#[test]
fn test_deserialize_duration() {
    let ms = 86400000i64;
    let d = Duration::from_millis_str(&ms.to_string()).unwrap();
    assert_eq!(d.num_milliseconds(), ms);
}

#[test]
fn test_duration_negative_and_zero() {
    assert_eq!(Duration::from_milliseconds(0).to_millis_string(), "0");
    assert_eq!(Duration::from_milliseconds(-1500).to_millis_string(), "-1500");
    assert_eq!(
        Duration::from_millis_str("-1500").unwrap().num_milliseconds(),
        -1500
    );
}

#[test]
fn test_duration_round_trip() {
    for ms in [0i64, 7, -7, 86400000, -86400000, i64::MAX, i64::MIN] {
        let d = Duration::from_milliseconds(ms);
        let back = Duration::from_millis_str(&d.to_millis_string()).unwrap();
        assert_eq!(back.num_milliseconds(), ms);
    }
}

#[test]
fn test_duration_bounds() {
    assert_eq!(
        Duration::from_millis_str("9223372036854775807")
            .unwrap()
            .num_milliseconds(),
        i64::MAX
    );
    assert_eq!(
        Duration::from_millis_str("-9223372036854775808")
            .unwrap()
            .num_milliseconds(),
        i64::MIN
    );
    assert!(Duration::from_millis_str("9223372036854775808").is_none());
    assert!(Duration::from_millis_str("-9223372036854775809").is_none());
    assert!(Duration::from_millis_str("12345678901234567890").is_none());
}

#[test]
fn test_duration_rejects_malformed_text() {
    assert!(Duration::from_millis_str("").is_none());
    assert!(Duration::from_millis_str("-").is_none());
    assert!(Duration::from_millis_str("012").is_none());
    assert!(Duration::from_millis_str("12a").is_none());
    assert!(Duration::from_millis_str(" 5").is_none());
    assert!(Duration::from_millis_str("-0").is_some());
}

#[test]
fn test_site_role_names() {
    assert_eq!(SiteRole::from_name("site-admin"), Some(SiteRole::Admin));
    assert_eq!(SiteRole::from_name("site-auditor"), Some(SiteRole::Auditor));
    assert_eq!(SiteRole::from_name("site-manager"), Some(SiteRole::Manager));
    assert_eq!(SiteRole::from_name("site-member"), Some(SiteRole::Member));
    assert_eq!(SiteRole::from_name("site-emperor"), None);
    for r in [SiteRole::Admin, SiteRole::Auditor, SiteRole::Manager, SiteRole::Member] {
        assert_eq!(SiteRole::from_name(r.name()), Some(r));
    }
}

#[test]
fn test_org_role_names() {
    assert_eq!(OrgRole::from_name("organization-admin"), Some(OrgRole::Admin));
    assert_eq!(OrgRole::from_name("organization-manager"), Some(OrgRole::Manager));
    assert_eq!(OrgRole::from_name("registry-manager"), Some(OrgRole::RegistryManager));
    assert_eq!(OrgRole::from_name("organization-member"), Some(OrgRole::Member));
    assert_eq!(OrgRole::from_name("member"), None);
    for r in [OrgRole::Admin, OrgRole::Manager, OrgRole::RegistryManager, OrgRole::Member] {
        assert_eq!(OrgRole::from_name(r.name()), Some(r));
    }
}

#[test]
fn test_environment_status_names() {
    for s in [
        EnvironmentStatus::CREATING,
        EnvironmentStatus::OFF,
        EnvironmentStatus::ON,
        EnvironmentStatus::FAILED,
        EnvironmentStatus::UNKNOWN,
    ] {
        assert_eq!(EnvironmentStatus::from_name(s.name()), Some(s));
    }
    assert_eq!(EnvironmentStatus::from_name("PAUSED"), None);
}

#[test]
fn test_image_id_conversions() {
    let id = ImageId::from(String::from("5ea8a569"));
    assert_eq!(id.as_str(), "5ea8a569");
    let other: ImageId = String::from("5ea8a569").into();
    assert_eq!(id, other);
}
