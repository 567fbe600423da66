//! Computer, motherboard, BIOS and Windows information: the pure decoding and
//! metric-building part (the readings come from Win32 calls made elsewhere).

use vstd::prelude::*;
use crate::quality::{MetricQuality, MetricValue, metric_present, metric_absent, owned};
use crate::strs::{CharClass, trim, trim_chars};
use crate::text::{str_chars, chars_to_string, utf16_lossy, string_from_utf16_lossy, decimal, decimal_padded, push_decimal, push_decimal_padded};

verus! {

/// Largest string buffer, in UTF-16 units, that a Win32 string query may grow to.
pub const MAX_API_STRING_CHARS: u32 = 65536;

/// Whole-machine identity and overview.
#[derive(Clone, Debug)]
pub struct ComputerInfo {
    pub hostname: MetricValue<String>,
    pub dns_hostname: MetricValue<String>,
    pub manufacturer: MetricValue<String>,
    pub model: MetricValue<String>,
    pub system_family: MetricValue<String>,
    pub serial_number: MetricValue<String>,
    pub uuid: MetricValue<String>,
    pub domain: MetricValue<String>,
    pub workgroup: MetricValue<String>,
    pub system_type: MetricValue<String>,
    pub current_user: MetricValue<String>,
    pub uptime_seconds: MetricValue<u64>,
    pub uptime_formatted: MetricValue<String>,
}

/// Motherboard and chipset.
#[derive(Clone, Debug)]
pub struct MotherboardInfo {
    pub manufacturer: MetricValue<String>,
    pub product: MetricValue<String>,
    pub version: MetricValue<String>,
    pub serial_number: MetricValue<String>,
    pub chipset: MetricValue<String>,
}

/// BIOS / UEFI firmware.
#[derive(Clone, Debug)]
pub struct BiosInfo {
    pub vendor: MetricValue<String>,
    pub version: MetricValue<String>,
    pub release_date: MetricValue<String>,
    pub smbios_version: MetricValue<String>,
    pub firmware_mode: MetricValue<String>,
}

/// Windows installation.
#[derive(Clone, Debug)]
pub struct WindowsOsInfo {
    pub name: MetricValue<String>,
    pub edition: MetricValue<String>,
    pub display_version: MetricValue<String>,
    pub build_number: MetricValue<String>,
    pub ubr: MetricValue<u32>,
    pub architecture: MetricValue<String>,
    pub install_date: MetricValue<String>,
    pub windows_directory: MetricValue<String>,
    pub system_directory: MetricValue<String>,
    pub system_drive: MetricValue<String>,
    pub locale: MetricValue<String>,
    pub timezone: MetricValue<String>,
}

/// Uptime as `D天 HH:MM:SS`, or `HH:MM:SS` below one day.
pub open spec fn uptime_text(seconds: nat) -> Seq<char> {
    let days = seconds / 86400;
    let hms = decimal_padded((seconds % 86400) / 3600, 2) + ":"@ + decimal_padded((seconds % 3600) / 60, 2) + ":"@
        + decimal_padded(seconds % 60, 2);
    if days > 0 {
        decimal(days) + "天 "@ + hms
    } else {
        hms
    }
}

/// Two decimal digits of a number below 100.
pub open spec fn two_digits(v: nat) -> Seq<char> {
    seq![crate::text::dec_digit(v / 10), crate::text::dec_digit(v % 10)]
}

proof fn lemma_padded_two(v: nat)
    requires
        v < 100,
    ensures
        decimal_padded(v, 2) == two_digits(v),
{
    if v < 10 {
        assert(decimal(v) == seq![crate::text::dec_digit(v)]);
        assert(v / 10 == 0 && v % 10 == v);
        assert(decimal_padded(v, 2) =~= two_digits(v));
    } else {
        let q = v / 10;
        assert(q < 10);
        assert(decimal(q) == seq![crate::text::dec_digit(q)]);
        assert(decimal(v) == decimal(q).push(crate::text::dec_digit(v % 10)));
        assert(decimal_padded(v, 2) =~= two_digits(v));
    }
}

/// The uptime text reads back as the uptime: for days `d`, hours `h < 24`,
/// minutes `m < 60` and seconds `s < 60` adding up to the input, the text is
/// `d天 ` (only when `d > 0`) followed by `hh:mm:ss` of exactly those
/// numbers.
pub proof fn lemma_uptime_text_reads_back(seconds: nat, d: nat, h: nat, m: nat, s: nat)
    requires
        h < 24,
        m < 60,
        s < 60,
        d * 86400 + h * 3600 + m * 60 + s == seconds,
    ensures
        uptime_text(seconds) == (if d > 0 { decimal(d) + "天 "@ } else { Seq::<char>::empty() })
            + two_digits(h) + ":"@ + two_digits(m) + ":"@ + two_digits(s),
{
    let r: int = (h * 3600 + m * 60 + s) as int;
    assert(0 <= r < 86400) by (nonlinear_arith)
        requires h < 24, m < 60, s < 60, r == h * 3600 + m * 60 + s;
    vstd::arithmetic::div_mod::lemma_fundamental_div_mod_converse(seconds as int, 86400, d as int, r);
    vstd::arithmetic::div_mod::lemma_fundamental_div_mod_converse(r, 3600, h as int, (m * 60 + s) as int);
    assert(seconds == (d * 24 + h) * 3600 + (m * 60 + s)) by (nonlinear_arith)
        requires d * 86400 + h * 3600 + m * 60 + s == seconds;
    vstd::arithmetic::div_mod::lemma_fundamental_div_mod_converse(seconds as int, 3600, (d * 24 + h) as int, (m * 60 + s) as int);
    vstd::arithmetic::div_mod::lemma_fundamental_div_mod_converse((m * 60 + s) as int, 60, m as int, s as int);
    assert(seconds == (d * 1440 + h * 60 + m) * 60 + s) by (nonlinear_arith)
        requires d * 86400 + h * 3600 + m * 60 + s == seconds;
    vstd::arithmetic::div_mod::lemma_fundamental_div_mod_converse(seconds as int, 60, (d * 1440 + h * 60 + m) as int, s as int);
    lemma_padded_two(h);
    lemma_padded_two(m);
    lemma_padded_two(s);
    assert(seconds / 86400 == d && (seconds % 86400) / 3600 == h && (seconds % 3600) / 60 == m && seconds % 60 == s);
}

/// Formats an uptime in seconds (`90061` gives `1天 01:01:01`).
pub fn format_uptime_string(seconds: u64) -> (s: String)
    ensures
        s@ == uptime_text(seconds as nat),
{
    let days = seconds / 86400;
    let hours = (seconds % 86400) / 3600;
    let minutes = (seconds % 3600) / 60;
    let secs = seconds % 60;
    let mut s = String::new();
    if days > 0 {
        push_decimal(&mut s, days);
        s.append("天 ");
    }
    push_decimal_padded(&mut s, hours, 2);
    s.append(":");
    push_decimal_padded(&mut s, minutes, 2);
    s.append(":");
    push_decimal_padded(&mut s, secs, 2);
    assert(s@ =~= uptime_text(seconds as nat));
    s
}

/// A good metric for a present value, `Unavailable` otherwise.
pub fn metric_from_optional<T>(value: Option<T>, unit: &str, source: &str, timestamp: u64) -> (m: MetricValue<T>)
    ensures
        match value {
            Some(v) => metric_present(m, v, unit@, MetricQuality::Good, source@, timestamp),
            None => metric_absent(m, unit@, MetricQuality::Unavailable, source@, "Windows API 或注册表未返回该指标"@, timestamp),
        },
{
    match value {
        Some(v) => MetricValue::good_at(v, unit, source, timestamp),
        None => MetricValue::unavailable_at(unit, source, "Windows API 或注册表未返回该指标", timestamp),
    }
}

/// Whether a string is blank (empty after trimming white space).
pub open spec fn is_blank(s: Seq<char>) -> bool {
    trim(s, CharClass::Whitespace).len() == 0
}

/// The metric a string reading stands for: blank or absent text is `Unavailable`.
pub open spec fn string_metric_spec(m: MetricValue<String>, value: Option<Seq<char>>, unit: Seq<char>, source: Seq<char>, timestamp: u64) -> bool {
    match value {
        Some(v) if !is_blank(v) => m.value matches Some(x) && x@ == v && m.unit@ == unit && m.quality == MetricQuality::Good
            && m.source@ == source && m.timestamp == timestamp && m.error is None,
        _ => metric_absent(m, unit, MetricQuality::Unavailable, source, "Windows API 或注册表未返回该指标"@, timestamp),
    }
}

/// Character view of an optional string.
pub open spec fn opt_string_view(o: Option<String>) -> Option<Seq<char>> {
    match o {
        Some(s) => Some(s@),
        None => None,
    }
}

/// Whether a string is blank.
pub fn string_is_blank(s: &String) -> (b: bool)
    ensures
        b == is_blank(s@),
{
    let cs = str_chars(s.as_str());
    let t = trim_chars(cs.as_slice(), CharClass::Whitespace);
    t.len() == 0
}

/// A good string metric for non-blank text, `Unavailable` for absent or blank text.
pub fn metric_from_optional_string(value: Option<String>, unit: &str, source: &str, timestamp: u64) -> (m: MetricValue<String>)
    ensures
        string_metric_spec(m, opt_string_view(value), unit@, source@, timestamp),
{
    let kept = match value {
        Some(v) => if string_is_blank(&v) { None } else { Some(v) },
        None => None,
    };
    metric_from_optional(kept, unit, source, timestamp)
}

/// An `Unsupported` string metric.
pub fn unsupported_string(source: &str, reason: &str, timestamp: u64) -> (m: MetricValue<String>)
    ensures
        metric_absent(m, ""@, MetricQuality::Unsupported, source@, reason@, timestamp),
{
    MetricValue::unsupported_at("", source, reason, timestamp)
}

/// Next buffer size after a Win32 string query reported `reported_size`
/// units: one more than reported when that is larger, otherwise double; `None`
/// when it would not grow or would exceed the limit.
pub open spec fn grow_spec(reported_size: u32, current_size: u32) -> Option<u32> {
    let next: nat = if reported_size > current_size {
        if reported_size == u32::MAX { u32::MAX as nat } else { reported_size as nat + 1 }
    } else {
        if current_size as nat * 2 > u32::MAX { u32::MAX as nat } else { current_size as nat * 2 }
    };
    if next <= current_size || next > MAX_API_STRING_CHARS {
        None
    } else {
        Some(next as u32)
    }
}

/// Grows a Win32 string buffer according to the size the API reported.
pub fn grow_api_buffer(reported_size: u32, current_size: u32) -> (r: Option<u32>)
    ensures
        r == grow_spec(reported_size, current_size),
{
    let next_size = if reported_size > current_size {
        reported_size.saturating_add(1)
    } else {
        match current_size.checked_mul(2) {
            Some(v) => v,
            None => u32::MAX,
        }
    };
    if next_size <= current_size || next_size > MAX_API_STRING_CHARS {
        None
    } else {
        Some(next_size)
    }
}

/// Index of the first zero unit (the length when there is none).
pub open spec fn first_zero_unit(units: Seq<u16>) -> int
    decreases units.len(),
{
    if units.len() == 0 {
        0
    } else if units[0] == 0 {
        0
    } else {
        1 + first_zero_unit(units.drop_first())
    }
}

/// Where the first NUL lies.
pub proof fn lemma_first_zero_unit_bounds(units: Seq<u16>)
    ensures
        0 <= first_zero_unit(units) <= units.len(),
        first_zero_unit(units) < units.len() ==> units[first_zero_unit(units)] == 0,
        forall|j: int| 0 <= j < first_zero_unit(units) ==> units[j] != 0,
    decreases units.len(),
{
    if units.len() > 0 && units[0] != 0 {
        lemma_first_zero_unit_bounds(units.drop_first());
        assert forall|j: int| 0 <= j < first_zero_unit(units) implies units[j] != 0 by {
            if j > 0 {
                assert(units[j] == units.drop_first()[j - 1]);
            }
        }
    }
}

/// Text of a wide buffer of which the API reported `reported_len` units: up to
/// the first NUL, decoded, trimmed; `None` when blank or when the reported
/// length exceeds the buffer.
pub open spec fn wide_text_spec(buffer: Seq<u16>, reported_len: nat) -> Option<Seq<char>> {
    if reported_len > buffer.len() {
        None
    } else {
        let units = buffer.take(reported_len as int);
        let value = trim(utf16_lossy(units.take(first_zero_unit(units))), CharClass::Whitespace);
        if value.len() == 0 { None } else { Some(value) }
    }
}

fn zero_unit_index(units: &[u16], len: usize) -> (r: usize)
    requires
        len <= units@.len(),
    ensures
        r <= len,
        r == first_zero_unit(units@.take(len as int)),
{
    let mut i: usize = 0;
    assert(units@.take(len as int).skip(0) =~= units@.take(len as int));
    while i < len
        invariant
            i <= len <= units@.len(),
            first_zero_unit(units@.take(len as int)) == i + first_zero_unit(units@.take(len as int).skip(i as int)),
        decreases len - i,
    {
        if units[i] == 0 {
            return i;
        }
        assert(units@.take(len as int).skip(i as int).drop_first() =~= units@.take(len as int).skip(i + 1));
        i += 1;
    }
    i
}

/// Decodes a wide-character API buffer (see `wide_text_spec`).
pub fn decode_wide_buffer(buffer: &[u16], reported_len: usize) -> (r: Option<String>)
    ensures
        opt_string_view(r) == wide_text_spec(buffer@, reported_len as nat),
{
    if reported_len > buffer.len() {
        return None;
    }
    let end = zero_unit_index(buffer, reported_len);
    let units = vstd::slice::slice_subrange(buffer, 0, end);
    assert(units@ =~= buffer@.take(reported_len as int).take(end as int));
    let text = string_from_utf16_lossy(units);
    let cs = str_chars(text.as_str());
    let t = trim_chars(cs.as_slice(), CharClass::Whitespace);
    if t.len() == 0 {
        None
    } else {
        Some(chars_to_string(t.as_slice()))
    }
}

/// The drive (`C:`) a Windows directory lies on: its first two characters
/// when the first is ASCII and the second is a colon.
pub open spec fn system_drive_spec(directory: Option<Seq<char>>) -> Option<Seq<char>> {
    match directory {
        Some(d) => if d.len() >= 2 && (d[0] as u32) < 128 && d[1] == ':' { Some(d.take(2)) } else { None },
        None => None,
    }
}

/// Drive letter prefix of a directory path (`C:\Windows` gives `C:`).
pub fn system_drive_from_directory(directory: Option<&String>) -> (r: Option<String>)
    ensures
        opt_string_view(r) == system_drive_spec(match directory { Some(d) => Some(d@), None => None }),
{
    match directory {
        None => None,
        Some(d) => {
            let cs = str_chars(d.as_str());
            if cs.len() >= 2 && (cs[0] as u32) < 128 && cs[1] == ':' {
                let p = crate::strs::sub_chars(cs.as_slice(), 0, 2);
                assert(p@ =~= cs@.take(2));
                Some(chars_to_string(p.as_slice()))
            } else {
                None
            }
        },
    }
}

/// Collection time, never zero: the given clock reading or 1.
pub fn collection_timestamp_from(now_ms: u64) -> (t: u64)
    ensures
        t == if now_ms >= 1 { now_ms } else { 1 },
{
    if now_ms >= 1 { now_ms } else { 1 }
}

/// Collection time from the system clock, never zero.
pub fn collection_timestamp() -> (t: u64)
    ensures
        t >= 1,
{
    collection_timestamp_from(crate::quality::current_timestamp_ms())
}

/// Raw readings behind [`ComputerInfo`], as the Win32 calls and the registry returned them.
#[derive(Clone, Debug)]
pub struct ComputerReadings {
    pub hostname: Option<String>,
    pub dns_hostname: Option<String>,
    pub manufacturer: Option<String>,
    pub model: Option<String>,
    pub system_family: Option<String>,
    pub serial_number: Option<String>,
    pub domain: Option<String>,
    pub current_user: Option<String>,
    /// Native architecture name such as `x64`.
    pub architecture: Option<String>,
    pub uptime_seconds: u64,
}

/// `"{arch}-based PC"` for a known architecture.
pub open spec fn system_type_spec(arch: Option<Seq<char>>) -> Option<Seq<char>> {
    match arch {
        Some(a) => Some(a + "-based PC"@),
        None => None,
    }
}

fn concat_opt(a: Option<String>, suffix: &str) -> (r: Option<String>)
    ensures
        opt_string_view(r) == (match opt_string_view(a) { Some(x) => Some(x + suffix@), None => None::<Seq<char>> }),
{
    match a {
        Some(mut x) => {
            x.append(suffix);
            Some(x)
        },
        None => None,
    }
}

/// Builds the computer overview from its readings: string readings become good
/// metrics unless absent or blank; UUID and workgroup have no trusted source
/// and are `Unsupported`; uptime is always good.
pub fn collect_computer_info(r: ComputerReadings, timestamp: u64) -> (c: ComputerInfo)
    ensures
        string_metric_spec(c.hostname, opt_string_view(r.hostname), ""@, "Win32_GetComputerNameExW"@, timestamp),
        string_metric_spec(c.dns_hostname, opt_string_view(r.dns_hostname), ""@, "Win32_GetComputerNameExW"@, timestamp),
        string_metric_spec(c.manufacturer, opt_string_view(r.manufacturer), ""@, "Registry_HKLM_HARDWARE_BIOS"@, timestamp),
        string_metric_spec(c.model, opt_string_view(r.model), ""@, "Registry_HKLM_HARDWARE_BIOS"@, timestamp),
        string_metric_spec(c.system_family, opt_string_view(r.system_family), ""@, "Registry_HKLM_HARDWARE_BIOS"@, timestamp),
        string_metric_spec(c.serial_number, opt_string_view(r.serial_number), ""@, "Registry_HKLM_HARDWARE_BIOS"@, timestamp),
        metric_absent(c.uuid, ""@, MetricQuality::Unsupported, "Win32_SystemInformation"@, "没有可靠且获准的 UUID 来源"@, timestamp),
        string_metric_spec(c.domain, opt_string_view(r.domain), ""@, "Win32_GetComputerNameExW"@, timestamp),
        metric_absent(c.workgroup, ""@, MetricQuality::Unsupported, "Win32_GetComputerNameExW"@, "Windows API 未提供可验证的工作组信息"@, timestamp),
        string_metric_spec(c.system_type, system_type_spec(opt_string_view(r.architecture)), ""@, "Win32_GetNativeSystemInfo"@, timestamp),
        string_metric_spec(c.current_user, opt_string_view(r.current_user), ""@, "Win32_GetUserNameW"@, timestamp),
        metric_present(c.uptime_seconds, r.uptime_seconds, "秒"@, MetricQuality::Good, "Win32_GetTickCount64"@, timestamp),
        c.uptime_formatted.value matches Some(u) && u@ == uptime_text(r.uptime_seconds as nat),
        c.uptime_formatted.quality == MetricQuality::Good,
{
    let hostname_source = "Win32_GetComputerNameExW";
    let registry_source = "Registry_HKLM_HARDWARE_BIOS";
    ComputerInfo {
        hostname: metric_from_optional_string(r.hostname, "", hostname_source, timestamp),
        dns_hostname: metric_from_optional_string(r.dns_hostname, "", hostname_source, timestamp),
        manufacturer: metric_from_optional_string(r.manufacturer, "", registry_source, timestamp),
        model: metric_from_optional_string(r.model, "", registry_source, timestamp),
        system_family: metric_from_optional_string(r.system_family, "", registry_source, timestamp),
        serial_number: metric_from_optional_string(r.serial_number, "", registry_source, timestamp),
        uuid: unsupported_string("Win32_SystemInformation", "没有可靠且获准的 UUID 来源", timestamp),
        domain: metric_from_optional_string(r.domain, "", hostname_source, timestamp),
        workgroup: unsupported_string(hostname_source, "Windows API 未提供可验证的工作组信息", timestamp),
        system_type: metric_from_optional_string(concat_opt(r.architecture, "-based PC"), "", "Win32_GetNativeSystemInfo", timestamp),
        current_user: metric_from_optional_string(r.current_user, "", "Win32_GetUserNameW", timestamp),
        uptime_seconds: MetricValue::good_at(r.uptime_seconds, "秒", "Win32_GetTickCount64", timestamp),
        uptime_formatted: MetricValue::good_at(format_uptime_string(r.uptime_seconds), "", "Win32_GetTickCount64", timestamp),
    }
}

/// Raw readings behind [`MotherboardInfo`].
#[derive(Clone, Debug)]
pub struct MotherboardReadings {
    pub manufacturer: Option<String>,
    pub product: Option<String>,
    pub version: Option<String>,
    pub serial_number: Option<String>,
}

/// Builds the motherboard overview; the chipset has no reliable source and is `Unsupported`.
pub fn collect_motherboard_info(r: MotherboardReadings, timestamp: u64) -> (m: MotherboardInfo)
    ensures
        string_metric_spec(m.manufacturer, opt_string_view(r.manufacturer), ""@, "Registry_HKLM_HARDWARE_BIOS"@, timestamp),
        string_metric_spec(m.product, opt_string_view(r.product), ""@, "Registry_HKLM_HARDWARE_BIOS"@, timestamp),
        string_metric_spec(m.version, opt_string_view(r.version), ""@, "Registry_HKLM_HARDWARE_BIOS"@, timestamp),
        string_metric_spec(m.serial_number, opt_string_view(r.serial_number), ""@, "Registry_HKLM_HARDWARE_BIOS"@, timestamp),
        metric_absent(m.chipset, ""@, MetricQuality::Unsupported, "Registry_HKLM_HARDWARE_BIOS"@, "当前获准来源无法可靠识别芯片组"@, timestamp),
{
    let source = "Registry_HKLM_HARDWARE_BIOS";
    MotherboardInfo {
        manufacturer: metric_from_optional_string(r.manufacturer, "", source, timestamp),
        product: metric_from_optional_string(r.product, "", source, timestamp),
        version: metric_from_optional_string(r.version, "", source, timestamp),
        serial_number: metric_from_optional_string(r.serial_number, "", source, timestamp),
        chipset: unsupported_string(source, "当前获准来源无法可靠识别芯片组", timestamp),
    }
}

/// Raw readings behind [`BiosInfo`].
#[derive(Clone, Debug)]
pub struct BiosReadings {
    pub vendor: Option<String>,
    pub version: Option<String>,
    pub release_date: Option<String>,
    pub smbios_major: Option<u32>,
    pub smbios_minor: Option<u32>,
    /// `UEFI` or `Legacy BIOS` when the firmware type is known.
    pub firmware_mode: Option<String>,
}

/// `"{major}.{minor}"` when both parts were read.
pub open spec fn smbios_text(major: Option<u32>, minor: Option<u32>) -> Option<Seq<char>> {
    match (major, minor) {
        (Some(a), Some(b)) => Some(decimal(a as nat) + "."@ + decimal(b as nat)),
        _ => None,
    }
}

fn version_pair(major: Option<u32>, minor: Option<u32>) -> (r: Option<String>)
    ensures
        opt_string_view(r) == smbios_text(major, minor),
{
    match (major, minor) {
        (Some(a), Some(b)) => {
            let mut s = String::new();
            push_decimal(&mut s, a as u64);
            s.append(".");
            push_decimal(&mut s, b as u64);
            Some(s)
        },
        _ => None,
    }
}

/// Builds the firmware overview; an unknown firmware type is `Unsupported`.
pub fn collect_bios_info(r: BiosReadings, timestamp: u64) -> (b: BiosInfo)
    ensures
        string_metric_spec(b.vendor, opt_string_view(r.vendor), ""@, "Registry_HKLM_HARDWARE_BIOS"@, timestamp),
        string_metric_spec(b.version, opt_string_view(r.version), ""@, "Registry_HKLM_HARDWARE_BIOS"@, timestamp),
        string_metric_spec(b.release_date, opt_string_view(r.release_date), ""@, "Registry_HKLM_HARDWARE_BIOS"@, timestamp),
        string_metric_spec(b.smbios_version, smbios_text(r.smbios_major, r.smbios_minor), ""@, "Registry_HKLM_HARDWARE_BIOS"@, timestamp),
        match opt_string_view(r.firmware_mode) {
            Some(f) => b.firmware_mode.value matches Some(x) && x@ == f && b.firmware_mode.quality == MetricQuality::Good,
            None => metric_absent(b.firmware_mode, ""@, MetricQuality::Unsupported, "Win32_GetFirmwareType"@, "Windows API 未返回已知固件模式"@, timestamp),
        },
{
    let source = "Registry_HKLM_HARDWARE_BIOS";
    BiosInfo {
        vendor: metric_from_optional_string(r.vendor, "", source, timestamp),
        version: metric_from_optional_string(r.version, "", source, timestamp),
        release_date: metric_from_optional_string(r.release_date, "", source, timestamp),
        smbios_version: metric_from_optional_string(version_pair(r.smbios_major, r.smbios_minor), "", source, timestamp),
        firmware_mode: match r.firmware_mode {
            Some(value) => MetricValue::good_at(value, "", "Win32_GetFirmwareType", timestamp),
            None => unsupported_string("Win32_GetFirmwareType", "Windows API 未返回已知固件模式", timestamp),
        },
    }
}

/// Raw readings behind [`WindowsOsInfo`].
#[derive(Clone, Debug)]
pub struct WindowsOsReadings {
    pub product_name: Option<String>,
    pub edition: Option<String>,
    pub display_version: Option<String>,
    pub current_build: Option<String>,
    pub ubr: Option<u32>,
    pub architecture: Option<String>,
    pub install_date: Option<u32>,
    pub windows_directory: Option<String>,
    pub system_directory: Option<String>,
    pub locale: Option<String>,
    pub timezone: Option<String>,
}

/// `"{build}.{ubr}"`, or the build alone when the UBR is unknown.
pub open spec fn build_text(build: Option<Seq<char>>, ubr: Option<u32>) -> Option<Seq<char>> {
    match build {
        Some(b) => match ubr {
            Some(u) => Some(b + "."@ + decimal(u as nat)),
            None => Some(b),
        },
        None => None,
    }
}

fn build_number(build: Option<String>, ubr: Option<u32>) -> (r: Option<String>)
    ensures
        opt_string_view(r) == build_text(opt_string_view(build), ubr),
{
    match build {
        Some(mut b) => {
            if let Some(u) = ubr {
                b.append(".");
                push_decimal(&mut b, u as u64);
            }
            Some(b)
        },
        None => None,
    }
}

fn number_text(v: Option<u32>) -> (r: Option<String>)
    ensures
        opt_string_view(r) == (match v { Some(x) => Some(decimal(x as nat)), None => None::<Seq<char>> }),
{
    match v {
        Some(x) => {
            let mut s = String::new();
            push_decimal(&mut s, x as u64);
            Some(s)
        },
        None => None,
    }
}

/// Builds the Windows overview from its readings.
pub fn collect_windows_os_info(r: WindowsOsReadings, timestamp: u64) -> (w: WindowsOsInfo)
    ensures
        string_metric_spec(w.name, opt_string_view(r.product_name), ""@, "Registry_HKLM_Windows_NT"@, timestamp),
        string_metric_spec(w.edition, opt_string_view(r.edition), ""@, "Registry_HKLM_Windows_NT"@, timestamp),
        string_metric_spec(w.display_version, opt_string_view(r.display_version), ""@, "Registry_HKLM_Windows_NT"@, timestamp),
        string_metric_spec(w.build_number, build_text(opt_string_view(r.current_build), r.ubr), ""@, "Registry_HKLM_Windows_NT"@, timestamp),
        match r.ubr {
            Some(u) => metric_present(w.ubr, u, ""@, MetricQuality::Good, "Registry_HKLM_Windows_NT"@, timestamp),
            None => metric_absent(w.ubr, ""@, MetricQuality::Unavailable, "Registry_HKLM_Windows_NT"@, "Windows API 或注册表未返回该指标"@, timestamp),
        },
        string_metric_spec(w.architecture, opt_string_view(r.architecture), ""@, "Win32_GetNativeSystemInfo"@, timestamp),
        string_metric_spec(w.install_date, match r.install_date { Some(x) => Some(decimal(x as nat)), None => None }, ""@, "Registry_HKLM_Windows_NT"@, timestamp),
        string_metric_spec(w.windows_directory, opt_string_view(r.windows_directory), ""@, "Win32_GetWindowsDirectoryW"@, timestamp),
        string_metric_spec(w.system_directory, opt_string_view(r.system_directory), ""@, "Win32_GetSystemDirectoryW"@, timestamp),
        string_metric_spec(w.system_drive, system_drive_spec(opt_string_view(r.windows_directory)), ""@, "Win32_GetWindowsDirectoryW"@, timestamp),
        match opt_string_view(r.locale) {
            Some(l) => w.locale.value matches Some(x) && x@ == l && w.locale.quality == MetricQuality::Good,
            None => metric_absent(w.locale, ""@, MetricQuality::Unsupported, "Win32_GetUserDefaultLocaleName"@, "Windows API 不可用或未返回区域设置"@, timestamp),
        },
        match opt_string_view(r.timezone) {
            Some(z) => w.timezone.value matches Some(x) && x@ == z && w.timezone.quality == MetricQuality::Good,
            None => metric_absent(w.timezone, ""@, MetricQuality::Unsupported, "Win32_GetDynamicTimeZoneInformation"@, "Windows API 不可用或未返回时区"@, timestamp),
        },
{
    let source = "Registry_HKLM_Windows_NT";
    let drive = system_drive_from_directory(r.windows_directory.as_ref());
    WindowsOsInfo {
        name: metric_from_optional_string(r.product_name, "", source, timestamp),
        edition: metric_from_optional_string(r.edition, "", source, timestamp),
        display_version: metric_from_optional_string(r.display_version, "", source, timestamp),
        build_number: metric_from_optional_string(build_number(r.current_build, r.ubr), "", source, timestamp),
        ubr: metric_from_optional(r.ubr, "", source, timestamp),
        architecture: metric_from_optional_string(r.architecture, "", "Win32_GetNativeSystemInfo", timestamp),
        install_date: metric_from_optional_string(number_text(r.install_date), "", source, timestamp),
        windows_directory: metric_from_optional_string(r.windows_directory, "", "Win32_GetWindowsDirectoryW", timestamp),
        system_directory: metric_from_optional_string(r.system_directory, "", "Win32_GetSystemDirectoryW", timestamp),
        system_drive: metric_from_optional_string(drive, "", "Win32_GetWindowsDirectoryW", timestamp),
        locale: match r.locale {
            Some(value) => MetricValue::good_at(value, "", "Win32_GetUserDefaultLocaleName", timestamp),
            None => unsupported_string("Win32_GetUserDefaultLocaleName", "Windows API 不可用或未返回区域设置", timestamp),
        },
        timezone: match r.timezone {
            Some(value) => MetricValue::good_at(value, "", "Win32_GetDynamicTimeZoneInformation", timestamp),
            None => unsupported_string("Win32_GetDynamicTimeZoneInformation", "Windows API 不可用或未返回时区", timestamp),
        },
    }
}

} // verus!
