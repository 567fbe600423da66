use omnibox::quality::MetricQuality;
use omnibox::sysinfo::computer_os::{format_uptime_string, metric_from_optional_string};

#[test]
fn uptime_format_does_not_create_hardware_identity() {
    assert_eq!(format_uptime_string(90061), "1天 01:01:01");
    let missing = metric_from_optional_string(None, "", "fixture", 77);
    assert_eq!(missing.value, None);
    assert_ne!(missing.quality, MetricQuality::Good);
}

#[test]
fn missing_registry_values_are_not_replaced_with_demo_strings() {
    let result = metric_from_optional_string(None, "", "test", 77);
    assert_eq!(result.value, None);
    assert_ne!(result.quality, MetricQuality::Good);
}

#[test]
fn uptime_below_a_day_has_no_day_part() {
    assert_eq!(format_uptime_string(0), "00:00:00");
    assert_eq!(format_uptime_string(3725), "01:02:05");
    assert_eq!(format_uptime_string(86400 * 12 + 59), "12天 00:00:59");
}
