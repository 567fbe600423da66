//! Battery and power-source snapshot built only from the fields that
//! `GetSystemPowerStatus` returned; unknown flags and failures stay visible as
//! metric qualities instead of sample values.

use vstd::prelude::*;
use crate::quality::{MetricQuality, MetricValue, metric_present, metric_absent, text_view, owned, current_timestamp_ms};
use crate::text::{decimal, push_decimal};

verus! {

/// Battery and power-supply snapshot.
#[derive(Clone, Debug)]
pub struct BatteryPowerSnapshot {
    pub has_battery: MetricValue<bool>,
    pub ac_connected: MetricValue<bool>,
    pub battery_percent: MetricValue<u32>,
    pub charging_status: MetricValue<String>,
    pub estimated_runtime_minutes: MetricValue<u32>,
    pub power_scheme: MetricValue<String>,
}

/// Provider name of the power status fields.
pub open spec fn power_status_source() -> Seq<char> {
    "Win32_GetSystemPowerStatus"@
}

/// Provider name of the power scheme field.
pub open spec fn power_scheme_source() -> Seq<char> {
    "Win32_PowerGetActiveScheme"@
}

fn message_with_number(prefix: &str, n: u64) -> (s: String)
    ensures
        s@ == prefix@ + decimal(n as nat),
{
    let mut s = owned(prefix);
    push_decimal(&mut s, n);
    s
}

/// A no-value metric with quality `Unavailable`.
pub fn unavailable<T>(unit: &str, source: &str, reason: &str, timestamp: u64) -> (m: MetricValue<T>)
    ensures
        metric_absent(m, unit@, MetricQuality::Unavailable, source@, reason@, timestamp),
{
    MetricValue::unavailable_at(unit, source, reason, timestamp)
}

/// A no-value metric with quality `Unsupported`.
pub fn unsupported<T>(unit: &str, source: &str, reason: &str, timestamp: u64) -> (m: MetricValue<T>)
    ensures
        metric_absent(m, unit@, MetricQuality::Unsupported, source@, reason@, timestamp),
{
    MetricValue::unsupported_at(unit, source, reason, timestamp)
}

/// A no-value metric with quality `Invalid`.
pub fn invalid<T>(unit: &str, source: &str, reason: &str, timestamp: u64) -> (m: MetricValue<T>)
    ensures
        metric_absent(m, unit@, MetricQuality::Invalid, source@, reason@, timestamp),
{
    MetricValue::invalid_at(unit, source, reason, timestamp)
}

/// The mains metric for `ACLineStatus` (see [`ac_connected_metric`]).
pub open spec fn ac_connected_spec(m: MetricValue<bool>, ac_line_status: Option<u8>, timestamp: u64) -> bool {
    match ac_line_status {
        Some(0) => metric_present(m, false, ""@, MetricQuality::Good, power_status_source(), timestamp),
        Some(1) => metric_present(m, true, ""@, MetricQuality::Good, power_status_source(), timestamp),
        Some(s) => metric_absent(m, ""@, MetricQuality::Invalid, power_status_source(),
            "ACLineStatus 返回未知值 "@ + decimal(s as nat), timestamp),
        None => metric_absent(m, ""@, MetricQuality::Unavailable, power_status_source(),
            "未提供 ACLineStatus，无法判断市电状态"@, timestamp),
    }
}

/// Mains state from `ACLineStatus`: 0 is off, 1 is on, any other value is
/// `Invalid`, and a missing value is `Unavailable`.
pub fn ac_connected_metric(ac_line_status: Option<u8>, timestamp: u64) -> (m: MetricValue<bool>)
    ensures
        ac_connected_spec(m, ac_line_status, timestamp),
{
    match ac_line_status {
        Some(0) => MetricValue::good_at(false, "", "Win32_GetSystemPowerStatus", timestamp),
        Some(1) => MetricValue::good_at(true, "", "Win32_GetSystemPowerStatus", timestamp),
        Some(status) => {
            let reason = message_with_number("ACLineStatus 返回未知值 ", status as u64);
            invalid("", "Win32_GetSystemPowerStatus", reason.as_str(), timestamp)
        },
        None => unavailable("", "Win32_GetSystemPowerStatus", "未提供 ACLineStatus，无法判断市电状态", timestamp),
    }
}

/// The power scheme is not read by any provider: always `Unsupported`.
pub fn unsupported_power_scheme(timestamp: u64) -> (m: MetricValue<String>)
    ensures
        metric_absent(m, ""@, MetricQuality::Unsupported, power_scheme_source(), "当前阶段没有电源计划 Provider"@, timestamp),
{
    unsupported("", "Win32_PowerGetActiveScheme", "当前阶段没有电源计划 Provider", timestamp)
}

/// Every field `Unavailable` for the same reason.
pub open spec fn all_unavailable(s: BatteryPowerSnapshot, reason: Seq<char>, timestamp: u64) -> bool {
    &&& metric_absent(s.has_battery, ""@, MetricQuality::Unavailable, power_status_source(), reason, timestamp)
    &&& metric_absent(s.ac_connected, ""@, MetricQuality::Unavailable, power_status_source(), reason, timestamp)
    &&& metric_absent(s.battery_percent, "%"@, MetricQuality::Unavailable, power_status_source(), reason, timestamp)
    &&& metric_absent(s.charging_status, ""@, MetricQuality::Unavailable, power_status_source(), reason, timestamp)
    &&& metric_absent(s.estimated_runtime_minutes, "分钟"@, MetricQuality::Unavailable, power_status_source(), reason, timestamp)
    &&& metric_absent(s.power_scheme, ""@, MetricQuality::Unavailable, power_scheme_source(), reason, timestamp)
}

/// Snapshot whose every field is unavailable for `reason`.
pub fn unavailable_snapshot(timestamp: u64, reason: &str) -> (s: BatteryPowerSnapshot)
    ensures
        all_unavailable(s, reason@, timestamp),
{
    BatteryPowerSnapshot {
        has_battery: unavailable("", "Win32_GetSystemPowerStatus", reason, timestamp),
        ac_connected: unavailable("", "Win32_GetSystemPowerStatus", reason, timestamp),
        battery_percent: unavailable("%", "Win32_GetSystemPowerStatus", reason, timestamp),
        charging_status: unavailable("", "Win32_GetSystemPowerStatus", reason, timestamp),
        estimated_runtime_minutes: unavailable("分钟", "Win32_GetSystemPowerStatus", reason, timestamp),
        power_scheme: unavailable("", "Win32_PowerGetActiveScheme", reason, timestamp),
    }
}

/// `BatteryFlag` values the API defines: 128 (no battery) is handled apart;
/// 255 and any bit above the low four are unknown.
pub open spec fn battery_flag_known(flag: u8) -> bool {
    flag != 255 && flag < 16
}

/// The snapshot the power status fields stand for.
pub open spec fn battery_snapshot_spec(
    s: BatteryPowerSnapshot,
    api_ok: bool,
    battery_flag: u8,
    life_percent: u8,
    life_time: u32,
    ac_line_status: Option<u8>,
    timestamp: u64,
    api_error_code: Option<u32>,
) -> bool {
    let src = power_status_source();
    if !api_ok {
        all_unavailable(s, match api_error_code {
            Some(code) => "GetSystemPowerStatus 失败，Win32 错误码 "@ + decimal(code as nat),
            None => "GetSystemPowerStatus 失败"@,
        }, timestamp)
    } else {
        &&& ac_connected_spec(s.ac_connected, ac_line_status, timestamp)
        &&& metric_absent(s.power_scheme, ""@, MetricQuality::Unsupported, power_scheme_source(), "当前阶段没有电源计划 Provider"@, timestamp)
        &&& if battery_flag == 128 {
            &&& metric_present(s.has_battery, false, ""@, MetricQuality::Good, src, timestamp)
            &&& metric_absent(s.battery_percent, "%"@, MetricQuality::Unsupported, src, "系统明确报告未安装电池"@, timestamp)
            &&& metric_absent(s.charging_status, ""@, MetricQuality::Unsupported, src, "系统没有可充电电池"@, timestamp)
            &&& metric_absent(s.estimated_runtime_minutes, "分钟"@, MetricQuality::Unsupported, src, "系统没有电池续航"@, timestamp)
        } else if !battery_flag_known(battery_flag) {
            let reason = "BatteryFlag 返回未知值 "@ + decimal(battery_flag as nat);
            &&& metric_absent(s.has_battery, ""@, MetricQuality::Unavailable, src, reason, timestamp)
            &&& metric_absent(s.battery_percent, "%"@, MetricQuality::Unavailable, src, reason, timestamp)
            &&& metric_absent(s.charging_status, ""@, MetricQuality::Unavailable, src, reason, timestamp)
            &&& metric_absent(s.estimated_runtime_minutes, "分钟"@, MetricQuality::Unavailable, src, reason, timestamp)
        } else {
            &&& metric_present(s.has_battery, true, ""@, MetricQuality::Good, src, timestamp)
            &&& if life_percent <= 100 {
                metric_present(s.battery_percent, life_percent as u32, "%"@, MetricQuality::Good, src, timestamp)
            } else {
                metric_absent(s.battery_percent, "%"@, MetricQuality::Invalid, src,
                    "BatteryLifePercent 返回越界值 "@ + decimal(life_percent as nat), timestamp)
            }
            &&& if life_time == u32::MAX {
                metric_absent(s.estimated_runtime_minutes, "分钟"@, MetricQuality::Unavailable, src, "BatteryLifeTime 未提供有效估计"@, timestamp)
            } else {
                metric_present(s.estimated_runtime_minutes, life_time / 60, "分钟"@, MetricQuality::Good, src, timestamp)
            }
            &&& if battery_flag & 8 != 0 {
                metric_present(text_view(s.charging_status), "正在充电 (Charging)"@, ""@, MetricQuality::Good, src, timestamp)
            } else if ac_line_status == Some(1u8) {
                metric_present(text_view(s.charging_status), "已连接市电 (未充电/已充满)"@, ""@, MetricQuality::Good, src, timestamp)
            } else if ac_line_status == Some(0u8) {
                metric_present(text_view(s.charging_status), "电池独立供电中 (Discharging)"@, ""@, MetricQuality::Good, src, timestamp)
            } else {
                metric_absent(s.charging_status, ""@, MetricQuality::Unavailable, src, "无法由真实 ACLineStatus 推导充放电状态"@, timestamp)
            }
        }
    }
}

fn text_metric(text: &str, timestamp: u64) -> (m: MetricValue<String>)
    ensures
        metric_present(text_view(m), text@, ""@, MetricQuality::Good, power_status_source(), timestamp),
{
    MetricValue::good_at(owned(text), "", "Win32_GetSystemPowerStatus", timestamp)
}

/// Builds the snapshot from the raw `SYSTEM_POWER_STATUS` fields: a failed call
/// makes every field unavailable; flag 128 means "no battery"; an unknown
/// flag makes the battery fields unavailable; otherwise percent, runtime and
/// charging state come from the fields, each checked for its sentinel values.
pub fn battery_from_status_at(
    api_ok: bool,
    battery_flag: u8,
    life_percent: u8,
    life_time: u32,
    ac_line_status: Option<u8>,
    timestamp: u64,
    api_error_code: Option<u32>,
) -> (s: BatteryPowerSnapshot)
    ensures
        battery_snapshot_spec(s, api_ok, battery_flag, life_percent, life_time, ac_line_status, timestamp, api_error_code),
{
    if !api_ok {
        let reason = match api_error_code {
            Some(code) => message_with_number("GetSystemPowerStatus 失败，Win32 错误码 ", code as u64),
            None => owned("GetSystemPowerStatus 失败"),
        };
        return unavailable_snapshot(timestamp, reason.as_str());
    }
    let ac_connected = ac_connected_metric(ac_line_status, timestamp);
    let power_scheme = unsupported_power_scheme(timestamp);
    if battery_flag == 128 {
        return BatteryPowerSnapshot {
            has_battery: MetricValue::good_at(false, "", "Win32_GetSystemPowerStatus", timestamp),
            ac_connected,
            battery_percent: unsupported("%", "Win32_GetSystemPowerStatus", "系统明确报告未安装电池", timestamp),
            charging_status: unsupported("", "Win32_GetSystemPowerStatus", "系统没有可充电电池", timestamp),
            estimated_runtime_minutes: unsupported("分钟", "Win32_GetSystemPowerStatus", "系统没有电池续航", timestamp),
            power_scheme,
        };
    }
    let known_flag = battery_flag != 255 && battery_flag < 16;
    if !known_flag {
        let reason = message_with_number("BatteryFlag 返回未知值 ", battery_flag as u64);
        return BatteryPowerSnapshot {
            has_battery: unavailable("", "Win32_GetSystemPowerStatus", reason.as_str(), timestamp),
            ac_connected,
            battery_percent: unavailable("%", "Win32_GetSystemPowerStatus", reason.as_str(), timestamp),
            charging_status: unavailable("", "Win32_GetSystemPowerStatus", reason.as_str(), timestamp),
            estimated_runtime_minutes: unavailable("分钟", "Win32_GetSystemPowerStatus", reason.as_str(), timestamp),
            power_scheme,
        };
    }
    let battery_percent = if life_percent <= 100 {
        MetricValue::good_at(life_percent as u32, "%", "Win32_GetSystemPowerStatus", timestamp)
    } else {
        let reason = message_with_number("BatteryLifePercent 返回越界值 ", life_percent as u64);
        invalid("%", "Win32_GetSystemPowerStatus", reason.as_str(), timestamp)
    };
    let estimated_runtime_minutes = if life_time == u32::MAX {
        unavailable("分钟", "Win32_GetSystemPowerStatus", "BatteryLifeTime 未提供有效估计", timestamp)
    } else {
        MetricValue::good_at(life_time / 60, "分钟", "Win32_GetSystemPowerStatus", timestamp)
    };
    let charging_status = if battery_flag & 8 != 0 {
        text_metric("正在充电 (Charging)", timestamp)
    } else {
        match ac_line_status {
            Some(1) => text_metric("已连接市电 (未充电/已充满)", timestamp),
            Some(0) => text_metric("电池独立供电中 (Discharging)", timestamp),
            _ => unavailable("", "Win32_GetSystemPowerStatus", "无法由真实 ACLineStatus 推导充放电状态", timestamp),
        }
    };
    BatteryPowerSnapshot {
        has_battery: MetricValue::good_at(true, "", "Win32_GetSystemPowerStatus", timestamp),
        ac_connected,
        battery_percent,
        charging_status,
        estimated_runtime_minutes,
        power_scheme,
    }
}

/// Snapshot from the status fields without an `ACLineStatus` reading,
/// stamped with the current time.
pub fn battery_from_status(api_ok: bool, battery_flag: u8, life_percent: u8, life_time: u32) -> (s: BatteryPowerSnapshot)
    ensures
        battery_snapshot_spec(s, api_ok, battery_flag, life_percent, life_time, None, s.has_battery.timestamp, None),
{
    battery_from_status_at(api_ok, battery_flag, life_percent, life_time, None, current_timestamp_ms(), None)
}

/// Every field of a power snapshot that holds a value has quality `Good`,
/// and without a reported `ACLineStatus` the mains state has no value and
/// quality `Unavailable`.
pub proof fn lemma_battery_values_are_good(
    s: BatteryPowerSnapshot,
    api_ok: bool,
    battery_flag: u8,
    life_percent: u8,
    life_time: u32,
    ac_line_status: Option<u8>,
    timestamp: u64,
    api_error_code: Option<u32>,
)
    requires
        battery_snapshot_spec(s, api_ok, battery_flag, life_percent, life_time, ac_line_status, timestamp, api_error_code),
    ensures
        s.has_battery.value is Some ==> s.has_battery.quality == MetricQuality::Good,
        s.ac_connected.value is Some ==> s.ac_connected.quality == MetricQuality::Good,
        s.battery_percent.value is Some ==> s.battery_percent.quality == MetricQuality::Good,
        s.charging_status.value is Some ==> s.charging_status.quality == MetricQuality::Good,
        s.estimated_runtime_minutes.value is Some ==> s.estimated_runtime_minutes.quality == MetricQuality::Good,
        s.power_scheme.value is Some ==> s.power_scheme.quality == MetricQuality::Good,
        ac_line_status is None ==> s.ac_connected.value is None && s.ac_connected.quality == MetricQuality::Unavailable,
{
}

} // verus!
