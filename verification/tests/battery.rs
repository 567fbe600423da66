use omnibox::quality::MetricQuality;
use omnibox::sysinfo::battery::{ac_connected_metric, battery_from_status};

#[test]
fn unknown_battery_flag_is_not_treated_as_ac_power() {
    let snapshot = battery_from_status(false, 255, 255, u32::MAX);
    assert_eq!(snapshot.has_battery.value, None);
    assert_eq!(snapshot.battery_percent.value, None);
    assert_eq!(snapshot.ac_connected.value, None);
    assert_ne!(snapshot.ac_connected.quality, MetricQuality::Good);
}

#[test]
fn zero_battery_flag_is_valid_battery_state() {
    let snapshot = battery_from_status(true, 0, 80, 600);
    assert_eq!(snapshot.has_battery.value, Some(true));
    assert_eq!(snapshot.battery_percent.value, Some(80));
    assert_eq!(snapshot.estimated_runtime_minutes.value, Some(10));
}

#[test]
fn no_battery_status_does_not_fabricate_runtime_or_power_scheme() {
    let snapshot = battery_from_status(true, 128, 255, u32::MAX);
    assert_eq!(snapshot.has_battery.value, Some(false));
    assert_eq!(snapshot.battery_percent.value, None);
    assert_eq!(snapshot.estimated_runtime_minutes.value, None);
    assert_eq!(snapshot.power_scheme.value, None);
}

#[test]
fn charging_flag_and_valid_lifetime_produce_real_values() {
    let snapshot = battery_from_status(true, 8, 75, 600);
    assert_eq!(snapshot.has_battery.value, Some(true));
    assert_eq!(snapshot.battery_percent.value, Some(75));
    assert_eq!(snapshot.estimated_runtime_minutes.value, Some(10));
    assert_eq!(snapshot.charging_status.value.as_deref(), Some("正在充电 (Charging)"));
}

#[test]
fn ac_line_status_is_read_only_when_known() {
    assert_eq!(ac_connected_metric(Some(1), 3).value, Some(true));
    assert_eq!(ac_connected_metric(Some(0), 3).value, Some(false));
    assert_eq!(ac_connected_metric(Some(255), 3).value, None);
    assert_eq!(ac_connected_metric(None, 3).value, None);
}

#[test]
fn missing_line_status_leaves_mains_unavailable_and_values_good() {
    let snapshot = battery_from_status(true, 8, 75, 600);
    assert_eq!(snapshot.ac_connected.value, None);
    assert_eq!(snapshot.ac_connected.quality, MetricQuality::Unavailable);
    assert!(snapshot.ac_connected.error.is_some());
    assert_eq!(snapshot.power_scheme.value, None);
    assert_eq!(snapshot.power_scheme.quality, MetricQuality::Unsupported);
    assert_eq!(snapshot.has_battery.quality, MetricQuality::Good);
    assert_eq!(snapshot.battery_percent.quality, MetricQuality::Good);
    assert_eq!(snapshot.charging_status.quality, MetricQuality::Good);
    assert_eq!(snapshot.estimated_runtime_minutes.quality, MetricQuality::Good);
}
