//! NetworkManager value models: wire codes, access-point rules and ordering.

use gorm::dbus::APFlags;
use gorm::dbus::AccessPoint;
use gorm::dbus::DeviceState;
use gorm::dbus::DeviceStateReason;
use gorm::dbus::DeviceType;
use gorm::dbus::is_auth_failure;
use gorm::dbus::sort_access_points;
use gorm::dbus::strength_tier;

fn ap(bssid: &str, strength: u8, connected: bool) -> AccessPoint {
    AccessPoint {
        bssid: String::from(bssid),
        ssid: String::from("net"),
        strength,
        private: false,
        frequency: 2412,
        connected,
        path: String::from("/ap"),
        profile: None,
    }
}

#[test]
fn device_type_codes() {
    assert_eq!(DeviceType::from_u32(2), Some(DeviceType::Wifi));
    assert_eq!(DeviceType::from_u32(8), Some(DeviceType::Modem));
    assert_eq!(DeviceType::from_u32(5), None);
}

#[test]
fn ap_flag_codes() {
    assert_eq!(APFlags::from_u32(0), Some(APFlags::NoFlags));
    assert_eq!(APFlags::from_u32(1), Some(APFlags::Privacy));
    assert_eq!(APFlags::from_u32(8), Some(APFlags::WpsPin));
    assert_eq!(APFlags::from_u32(3), None);
}

#[test]
fn device_state_codes() {
    assert_eq!(DeviceState::from_u32(0), Some(DeviceState::Unknown));
    assert_eq!(DeviceState::from_u32(60), Some(DeviceState::NeedAuth));
    assert_eq!(DeviceState::from_u32(120), Some(DeviceState::Failed));
    assert_eq!(DeviceState::from_u32(121), None);
}

#[test]
fn device_state_reason_codes() {
    assert_eq!(DeviceStateReason::from_u32(0), Some(DeviceStateReason::NoReason));
    assert_eq!(DeviceStateReason::from_u32(7), Some(DeviceStateReason::NoSecrets));
    assert_eq!(DeviceStateReason::from_u32(77), Some(DeviceStateReason::UnmanagedUserUdev));
    assert_eq!(DeviceStateReason::from_u32(78), None);
}

#[test]
fn auth_failure_needs_failed_state_and_missing_secrets() {
    assert!(is_auth_failure(&DeviceState::Failed, &DeviceStateReason::NoSecrets));
    assert!(!is_auth_failure(&DeviceState::Failed, &DeviceStateReason::SsidNotFound));
    assert!(!is_auth_failure(&DeviceState::Disconnected, &DeviceStateReason::NoSecrets));
}

#[test]
fn access_point_from_properties_derives_privacy_and_connection() {
    let active = String::from("aa:bb");
    let point = AccessPoint::from_properties(
        String::from("aa:bb"),
        String::from("HomeNet"),
        70,
        APFlags::Privacy,
        5180,
        Some(&active),
        String::from("/org/freedesktop/NetworkManager/AccessPoint/1"),
    );
    assert!(point.private);
    assert!(point.connected);
    assert_eq!(point.strength, 70);
    assert_eq!(point.frequency, 5180);
    assert!(point.profile.is_none());

    let open_point = AccessPoint::from_properties(
        String::from("cc:dd"),
        String::from("Open"),
        30,
        APFlags::NoFlags,
        2412,
        Some(&active),
        String::from("/ap2"),
    );
    assert!(!open_point.private);
    assert!(!open_point.connected);
}

#[test]
fn sort_puts_connected_first_then_strongest() {
    let mut points = vec![
        ap("a", 10, false),
        ap("b", 90, false),
        ap("c", 5, true),
        ap("d", 50, false),
    ];
    sort_access_points(&mut points);
    let order: Vec<(&str, bool)> =
        points.iter().map(|p| (p.bssid.as_str(), p.connected)).collect();
    assert_eq!(order, vec![("c", true), ("b", false), ("d", false), ("a", false)]);
}

#[test]
fn sort_keeps_equal_strength_entries() {
    let mut points = vec![ap("a", 50, false), ap("b", 50, false), ap("c", 80, false)];
    sort_access_points(&mut points);
    assert_eq!(points.len(), 3);
    assert_eq!(points[0].bssid, "c");
    let mut tail: Vec<&str> = points[1..].iter().map(|p| p.bssid.as_str()).collect();
    tail.sort();
    assert_eq!(tail, vec!["a", "b"]);
}

#[test]
fn sort_of_empty_list_is_empty() {
    let mut points: Vec<AccessPoint> = Vec::new();
    sort_access_points(&mut points);
    assert!(points.is_empty());
}

#[test]
fn strength_tiers_follow_thresholds() {
    assert_eq!(strength_tier(100), 100);
    assert_eq!(strength_tier(88), 100);
    assert_eq!(strength_tier(87), 75);
    assert_eq!(strength_tier(63), 75);
    assert_eq!(strength_tier(62), 50);
    assert_eq!(strength_tier(38), 50);
    assert_eq!(strength_tier(37), 25);
    assert_eq!(strength_tier(13), 25);
    assert_eq!(strength_tier(12), 0);
    assert_eq!(strength_tier(0), 0);
}
