use omnibox::quality::{classify_win32_error, stable_device_id, MetricQuality, MetricValue};

#[test]
fn non_good_metric_never_contains_a_value() {
    let denied = MetricValue::<u64>::permission_denied_at("Bytes", "test", "access denied", 123);
    let unsupported = MetricValue::<u64>::unsupported_at("Bytes", "test", "not supported", 123);
    assert_eq!(denied.value, None);
    assert_eq!(unsupported.value, None);
    assert_eq!(denied.timestamp, 123);
    assert_eq!(denied.quality, MetricQuality::PermissionDenied);
}

#[test]
fn win32_error_mapping_distinguishes_permission_and_support() {
    assert_eq!(classify_win32_error(0), MetricQuality::Good);
    assert_eq!(classify_win32_error(5), MetricQuality::PermissionDenied);
    assert_eq!(classify_win32_error(1314), MetricQuality::PermissionDenied);
    assert_eq!(classify_win32_error(50), MetricQuality::Unsupported);
    assert_eq!(classify_win32_error(120), MetricQuality::ApiUnavailable);
    assert_eq!(classify_win32_error(127), MetricQuality::ApiUnavailable);
    assert_eq!(classify_win32_error(1167), MetricQuality::Unavailable);
    assert_eq!(classify_win32_error(2250), MetricQuality::Unavailable);
    assert_eq!(classify_win32_error(12345), MetricQuality::ReadError);
}

#[test]
fn stable_device_id_is_repeatable_without_exposing_identity() {
    let first = stable_device_id("gpu", &["PCI\\VEN_10DE&DEV_1234", "LUID-1"]);
    let second = stable_device_id("gpu", &["PCI\\VEN_10DE&DEV_1234", "LUID-1"]);
    assert_eq!(first, second);
    assert!(first.starts_with("gpu-"));
    assert_eq!(first.strip_prefix("gpu-").unwrap().len(), 16);
    assert!(!first.contains("VEN_10DE"));
}

#[test]
fn stable_device_id_distinguishes_identities() {
    assert_ne!(
        stable_device_id("gpu", &["PCI\\VEN_10DE&DEV_1234", "LUID-1"]),
        stable_device_id("gpu", &["PCI\\VEN_10DE&DEV_1234", "LUID-2"]),
    );
}

#[test]
fn stable_device_id_matches_fnv1a_reference() {
    // FNV-1a 64 of the empty prefix followed by one zero byte.
    let mut h: u64 = 0xcbf2_9ce4_8422_2325;
    for b in [0u8] {
        h ^= b as u64;
        h = h.wrapping_mul(0x0000_0100_0000_01b3);
    }
    assert_eq!(stable_device_id("", &[]), format!("-{h:016x}"));
    let mut h: u64 = 0xcbf2_9ce4_8422_2325;
    for b in b"disk\0\\\\.\\PhysicalDrive0\0" {
        h ^= *b as u64;
        h = h.wrapping_mul(0x0000_0100_0000_01b3);
    }
    assert_eq!(stable_device_id("disk", &["\\\\.\\PhysicalDrive0"]), format!("disk-{h:016x}"));
}

#[test]
fn default_quality_is_unknown() {
    assert_eq!(MetricQuality::default(), MetricQuality::Unknown);
}

#[test]
fn timestamped_metric_constructors_preserve_quality_contract() {
    let good = MetricValue::good_at(42_u64, "Bytes", "test", 123);
    let estimated = MetricValue::estimated_at(42_u64, "Bytes", "test", 123);
    assert_eq!(good.value, Some(42));
    assert_eq!(good.quality, MetricQuality::Good);
    assert_eq!(estimated.value, Some(42));
    assert_eq!(estimated.quality, MetricQuality::Estimated);

    let missing_values = [
        MetricValue::<u64>::unsupported_at("Bytes", "test", "unsupported", 123),
        MetricValue::permission_denied_at("Bytes", "test", "denied", 123),
        MetricValue::unavailable_at("Bytes", "test", "unavailable", 123),
        MetricValue::driver_missing_at("Bytes", "test", "driver missing", 123),
        MetricValue::api_unavailable_at("Bytes", "test", "api unavailable", 123),
        MetricValue::read_error_at("Bytes", "test", "read error", 123),
        MetricValue::invalid_at("Bytes", "test", "invalid", 123),
    ];

    for metric in missing_values {
        assert_eq!(metric.value, None);
        assert_eq!(metric.timestamp, 123);
        assert!(metric.error.is_some());
    }
}

#[test]
fn untimed_constructors_stamp_the_clock_and_keep_text() {
    let m = MetricValue::good(7_u32, "MHz", "cpuid");
    assert_eq!((m.value, m.unit.as_str(), m.source.as_str()), (Some(7), "MHz", "cpuid"));
    assert!(m.timestamp > 0);
    let u = MetricValue::<u32>::unavailable("%", "src", "why");
    assert_eq!(u.error.as_deref(), Some("why"));
    assert_eq!(u.quality, MetricQuality::Unavailable);
}

#[test]
fn estimated_metric_carries_a_description() {
    let estimated = MetricValue::estimated_at(42_u64, "Bytes", "test", 123);
    assert_eq!(estimated.value, Some(42));
    assert_eq!(estimated.quality, MetricQuality::Estimated);
    assert_eq!(estimated.unit, "Bytes");
    assert_eq!(estimated.source, "test");
    assert_eq!(estimated.timestamp, 123);
    assert!(estimated.error.is_some());
    let good = MetricValue::good_at(42_u64, "Bytes", "test", 123);
    assert!(good.error.is_none());
}

#[test]
fn device_id_is_prefix_dash_and_sixteen_hex_digits() {
    for (prefix, parts) in [("gpu", vec!["PCI\\VEN_10DE&DEV_1234", "LUID-1"]), ("disk", vec![]), ("", vec!["x"])] {
        let id = stable_device_id(prefix, &parts);
        assert!(id.starts_with(&format!("{prefix}-")));
        assert_eq!(id.len(), prefix.len() + 17);
        assert!(id[prefix.len() + 1..].chars().all(|c| c.is_ascii_digit() || ('a'..='f').contains(&c)));
    }
}
