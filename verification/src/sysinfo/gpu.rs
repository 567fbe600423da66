//! Display adapters as GDI enumerates them: names decoded from the returned
//! wide strings, PCI vendor and device ids only from a well-formed
//! `PCI\VEN_xxxx&DEV_yyyy` id, and no value for what GDI cannot tell.

use vstd::prelude::*;
use crate::quality::{MetricQuality, MetricValue, metric_present, metric_absent, text_metric_present, owned, stable_device_id};
use crate::strs::{lower_seq, lower_chars};
use crate::text::{str_chars, string_push};

verus! {

/// A GPU metric GDI cannot provide: no value, quality `Unsupported`.
pub fn gpu_metric_unavailable<T>(unit: &str, source: &str, reason: &str, timestamp: u64) -> (m: MetricValue<T>)
    ensures
        metric_absent(m, unit@, MetricQuality::Unsupported, source@, reason@, timestamp),
{
    MetricValue::unsupported_at(unit, source, reason, timestamp)
}

/// Value of a hexadecimal digit, if it is one.
pub open spec fn hex_digit_value(c: char) -> Option<u32> {
    if '0' <= c && c <= '9' {
        Some((c as u32 - 48) as u32)
    } else if 'a' <= c && c <= 'f' {
        Some((c as u32 - 87) as u32)
    } else if 'A' <= c && c <= 'F' {
        Some((c as u32 - 55) as u32)
    } else {
        None
    }
}

/// Value of a run of hexadecimal digits (most significant first), shifted
/// into 32 bits as it is read; `None` on any other character.
pub open spec fn hex_component_spec(s: Seq<char>) -> Option<u32>
    decreases s.len(),
{
    if s.len() == 0 {
        Some(0)
    } else {
        match (hex_component_spec(s.drop_last()), hex_digit_value(s.last())) {
            (Some(v), Some(d)) => Some(((v as nat * 16) % 0x1_0000_0000 + d as nat) as u32),
            _ => None,
        }
    }
}

fn digit_value(c: char) -> (r: Option<u32>)
    ensures
        r == hex_digit_value(c),
{
    if '0' <= c && c <= '9' {
        Some(c as u32 - 48)
    } else if 'a' <= c && c <= 'f' {
        Some(c as u32 - 87)
    } else if 'A' <= c && c <= 'F' {
        Some(c as u32 - 55)
    } else {
        None
    }
}

/// Parses a run of hexadecimal digits.
pub fn parse_hex_component(s: &[char]) -> (r: Option<u32>)
    ensures
        r == hex_component_spec(s@),
{
    let mut v: u32 = 0;
    let mut i: usize = 0;
    while i < s.len()
        invariant
            i <= s@.len(),
            hex_component_spec(s@.take(i as int)) == Some(v),
        decreases s@.len() - i,
    {
        assert(s@.take(i + 1).drop_last() =~= s@.take(i as int));
        let d = match digit_value(s[i]) {
            Some(d) => d,
            None => {
                assert(hex_component_spec(s@.take(i + 1)) is None);
                proof { lemma_hex_none_extends(s@, i as int + 1); }
                return None;
            },
        };
        assert(d < 16);
        let shifted = ((v as u64 * 16) % 0x1_0000_0000) as u32;
        v = shifted + d;
        i += 1;
    }
    assert(s@.take(s@.len() as int) =~= s@);
    Some(v)
}

/// Once a prefix fails to parse, so does every longer prefix.
pub proof fn lemma_hex_none_extends(s: Seq<char>, k: int)
    requires
        0 <= k <= s.len(),
        hex_component_spec(s.take(k)) is None,
    ensures
        hex_component_spec(s) is None,
    decreases s.len() - k,
{
    if k < s.len() {
        assert(s.take(k + 1).drop_last() =~= s.take(k));
        lemma_hex_none_extends(s, k + 1);
    } else {
        assert(s.take(k) =~= s);
    }
}

/// Vendor and device id of `PCI\VEN_xxxx&DEV_yyyy...` (prefixes in any
/// case); `None` for any other id.
pub open spec fn pci_ids_spec(id: Seq<char>) -> Option<(u32, u32)> {
    if id.len() < 21 || lower_seq(id.take(8)) != "pci\\ven_"@ || id[12] != '&' || lower_seq(id.subrange(13, 17)) != "dev_"@ {
        None
    } else {
        match (hex_component_spec(id.subrange(8, 12)), hex_component_spec(id.subrange(17, 21))) {
            (Some(v), Some(d)) => Some((v, d)),
            _ => None,
        }
    }
}

/// Parses the PCI ids of a display adapter's device id.
pub fn parse_pci_ids(device_id: &str) -> (r: Option<(u32, u32)>)
    ensures
        r == pci_ids_spec(device_id@),
{
    let cs = str_chars(device_id);
    if cs.len() < 21 {
        return None;
    }
    let head = lower_chars(crate::strs::sub_chars(cs.as_slice(), 0, 8).as_slice());
    let dev = lower_chars(crate::strs::sub_chars(cs.as_slice(), 13, 17).as_slice());
    let want_head = str_chars("pci\\ven_");
    let want_dev = str_chars("dev_");
    assert(cs@.subrange(0, 8) =~= cs@.take(8));
    if !crate::text::str_eq(crate::text::chars_to_string(head.as_slice()).as_str(), crate::text::chars_to_string(want_head.as_slice()).as_str())
        || cs[12] != '&'
        || !crate::text::str_eq(crate::text::chars_to_string(dev.as_slice()).as_str(), crate::text::chars_to_string(want_dev.as_slice()).as_str()) {
        return None;
    }
    let v = parse_hex_component(crate::strs::sub_chars(cs.as_slice(), 8, 12).as_slice());
    let d = parse_hex_component(crate::strs::sub_chars(cs.as_slice(), 17, 21).as_slice());
    match (v, d) {
        (Some(v), Some(d)) => Some((v, d)),
        _ => None,
    }
}

/// A wide-character field up to its first NUL (or whole), decoded, trimmed.
pub open spec fn display_text_spec(units: Seq<u16>) -> Seq<char> {
    crate::sysinfo::network::wide_field_text(units)
}

/// Upper-case hexadecimal digits of `v` without leading zeros.
pub open spec fn hex_upper(v: nat) -> Seq<char>
    decreases v,
{
    if v < 16 {
        seq![crate::sysinfo::network::hex_upper_digit(v)]
    } else {
        hex_upper(v / 16).push(crate::sysinfo::network::hex_upper_digit(v % 16))
    }
}

/// `{:04X}`: upper-case hexadecimal, zero-padded to four digits.
pub open spec fn hex_upper4(v: nat) -> Seq<char> {
    let h = hex_upper(v);
    if h.len() >= 4 { h } else { Seq::new((4 - h.len()) as nat, |i: int| '0') + h }
}

fn push_hex_upper(out: &mut String, v: u32)
    ensures
        final(out)@ == old(out)@ + hex_upper(v as nat),
    decreases v,
{
    if v >= 16 {
        push_hex_upper(out, v / 16);
    }
    let d = v % 16;
    string_push(out, if d < 10 { (48 + d) as u8 as char } else { (55 + d) as u8 as char });
    assert(final(out)@ =~= old(out)@ + hex_upper(v as nat));
}

proof fn lemma_hex_upper_len(v: nat)
    ensures
        hex_upper(v).len() >= 1,
        v < 16 ==> hex_upper(v).len() == 1,
        16 <= v < 256 ==> hex_upper(v).len() == 2,
        256 <= v < 4096 ==> hex_upper(v).len() == 3,
        4096 <= v ==> hex_upper(v).len() >= 4,
    decreases v,
{
    if v >= 16 {
        lemma_hex_upper_len(v / 16);
    }
}

/// How many zeros pad the hexadecimal digits of `v` to four.
fn hex_pad_count(v: u32) -> (p: usize)
    ensures
        hex_upper(v as nat).len() < 4 ==> p + hex_upper(v as nat).len() == 4,
        hex_upper(v as nat).len() >= 4 ==> p == 0,
{
    proof { lemma_hex_upper_len(v as nat); }
    if v < 16 { 3 } else if v < 256 { 2 } else if v < 4096 { 1 } else { 0 }
}

/// The vendor name of a PCI vendor id.
pub open spec fn vendor_ok(m: MetricValue<String>, vendor_id: Option<u32>, ts: u64) -> bool {
    match vendor_id {
        Some(0x10DEu32) => text_metric_present(m, "NVIDIA"@, ""@, MetricQuality::Good, "PCI_VendorID"@, ts),
        Some(0x1002u32) => text_metric_present(m, "AMD"@, ""@, MetricQuality::Good, "PCI_VendorID"@, ts),
        Some(0x8086u32) => text_metric_present(m, "Intel"@, ""@, MetricQuality::Good, "PCI_VendorID"@, ts),
        Some(v) => metric_absent(m, ""@, MetricQuality::Unsupported, "PCI_VendorID"@,
            "未映射的 PCI vendor ID: 0x"@ + hex_upper4(v as nat), ts),
        None => metric_absent(m, ""@, MetricQuality::Unsupported, "GDI_EnumDisplayDevices"@,
            "设备标识不是可解析的 PCI 硬件 ID"@, ts),
    }
}

/// Names the vendor of a PCI vendor id.
pub fn vendor_name(vendor_id: Option<u32>, ts: u64) -> (m: MetricValue<String>)
    ensures
        vendor_ok(m, vendor_id, ts),
{
    match vendor_id {
        Some(0x10DE) => crate::quality::good_text("NVIDIA", "", "PCI_VendorID", ts),
        Some(0x1002) => crate::quality::good_text("AMD", "", "PCI_VendorID", ts),
        Some(0x8086) => crate::quality::good_text("Intel", "", "PCI_VendorID", ts),
        Some(v) => {
            let mut reason = owned("未映射的 PCI vendor ID: 0x");
            let p = hex_pad_count(v);
            let mut k: usize = 0;
            while k < p
                invariant
                    k <= p,
                    reason@ == "未映射的 PCI vendor ID: 0x"@ + Seq::new(k as nat, |i: int| '0'),
                decreases p - k,
            {
                string_push(&mut reason, '0');
                assert(Seq::new((k + 1) as nat, |i: int| '0') =~= Seq::new(k as nat, |i: int| '0').push('0'));
                k += 1;
            }
            push_hex_upper(&mut reason, v);
            proof {
                let h = hex_upper(v as nat);
                if h.len() >= 4 {
                    assert(Seq::new(0nat, |i: int| '0') =~= Seq::<char>::empty());
                    assert(reason@ =~= "未映射的 PCI vendor ID: 0x"@ + h);
                } else {
                    assert(Seq::new(p as nat, |i: int| '0') =~= Seq::new((4 - h.len()) as nat, |i: int| '0'));
                    assert(reason@ =~= "未映射的 PCI vendor ID: 0x"@ + (Seq::new((4 - h.len()) as nat, |i: int| '0') + h));
                }
            }
            MetricValue::without_value("", MetricQuality::Unsupported, "PCI_VendorID", reason.as_str(), ts)
        },
        None => gpu_metric_unavailable("", "GDI_EnumDisplayDevices", "设备标识不是可解析的 PCI 硬件 ID", ts),
    }
}

/// `DISPLAY_DEVICE_PRIMARY_DEVICE`: the adapter of the primary desktop.
pub const DISPLAY_DEVICE_PRIMARY_DEVICE: u32 = 4;

/// The GDI source name.
pub open spec fn gdi_source() -> Seq<char> {
    "GDI_EnumDisplayDevices"@
}

/// The reason given for a vendor or device id that cannot be parsed.
pub open spec fn unparsable_id_reason() -> Seq<char> {
    "设备标识不是可解析的 PCI\\VEN_xxxx&DEV_yyyy"@
}

/// One display adapter as GDI enumerates it: the wide-character fields of
/// its `DISPLAY_DEVICEW` and its state flags.
pub struct DisplayAdapterReading {
    pub device_name: Vec<u16>,
    pub device_string: Vec<u16>,
    pub device_id: Vec<u16>,
    pub state_flags: u32,
}

/// The metrics of one display adapter that GDI can or cannot give; the
/// fractional ones (utilization, temperature, power) are never measured
/// here either.
pub struct GpuAdapter {
    pub id: String,
    pub name: MetricValue<String>,
    pub vendor: MetricValue<String>,
    pub vendor_id: MetricValue<u32>,
    pub device_id: MetricValue<u32>,
    pub dedicated_vram_bytes: MetricValue<u64>,
    pub shared_vram_bytes: MetricValue<u64>,
    pub driver_version: MetricValue<String>,
    pub memory_used_bytes: MetricValue<u64>,
    pub fan_speed_percent: MetricValue<u32>,
    pub is_primary: bool,
}

/// The vendor id of the parsed PCI ids, if any.
pub open spec fn vendor_of(ids: Option<(u32, u32)>) -> Option<u32> {
    match ids {
        Some((v, _)) => Some(v),
        None => None,
    }
}

/// `a` describes the adapter of reading `r`, collected at `ts`.
pub open spec fn adapter_ok(a: GpuAdapter, r: DisplayAdapterReading, ts: u64) -> bool {
    let name = display_text_spec(r.device_string@);
    let raw_id = display_text_spec(r.device_id@);
    let raw_name = display_text_spec(r.device_name@);
    let ids = pci_ids_spec(raw_id);
    &&& a.id@ == crate::quality::device_id_spec("gpu"@, seq![raw_id, raw_name])
    &&& text_metric_present(a.name, name, ""@, MetricQuality::Good, gdi_source(), ts)
    &&& vendor_ok(a.vendor, vendor_of(ids), ts)
    &&& match ids {
        Some((v, d)) => {
            &&& metric_present(a.vendor_id, v, ""@, MetricQuality::Good, "PCI_DeviceID"@, ts)
            &&& metric_present(a.device_id, d, ""@, MetricQuality::Good, "PCI_DeviceID"@, ts)
        },
        None => {
            &&& metric_absent(a.vendor_id, ""@, MetricQuality::Unsupported, gdi_source(), unparsable_id_reason(), ts)
            &&& metric_absent(a.device_id, ""@, MetricQuality::Unsupported, gdi_source(), unparsable_id_reason(), ts)
        },
    }
    &&& metric_absent(a.dedicated_vram_bytes, "Bytes"@, MetricQuality::Unsupported, gdi_source(), "GDI 无法可靠提供 dedicated VRAM 容量"@, ts)
    &&& metric_absent(a.shared_vram_bytes, "Bytes"@, MetricQuality::Unsupported, gdi_source(), "GDI 无法可靠提供 shared VRAM 容量"@, ts)
    &&& metric_absent(a.driver_version, ""@, MetricQuality::Unsupported, gdi_source(), "GDI 无法可靠提供驱动版本"@, ts)
    &&& metric_absent(a.memory_used_bytes, "Bytes"@, MetricQuality::Unsupported, gdi_source(), "GDI 无法可靠提供显存使用量"@, ts)
    &&& metric_absent(a.fan_speed_percent, "%"@, MetricQuality::Unsupported, gdi_source(), "GDI 无法可靠提供风扇转速"@, ts)
    &&& a.is_primary == (r.state_flags & DISPLAY_DEVICE_PRIMARY_DEVICE != 0)
}

/// Describes one enumerated adapter; `None` when GDI returned no name for it.
pub fn describe_adapter(r: &DisplayAdapterReading, ts: u64) -> (a: Option<GpuAdapter>)
    ensures
        match a {
            None => display_text_spec(r.device_string@).len() == 0,
            Some(a) => display_text_spec(r.device_string@).len() > 0 && adapter_ok(a, *r, ts),
        },
{
    let name = crate::sysinfo::network::wide_field(r.device_string.as_slice());
    if name.as_str().is_empty() {
        return None;
    }
    let raw_name = crate::sysinfo::network::wide_field(r.device_name.as_slice());
    let raw_id = crate::sysinfo::network::wide_field(r.device_id.as_slice());
    let parsed = parse_pci_ids(raw_id.as_str());
    let (vendor_id, device_id) = match parsed {
        Some((v, d)) => (
            MetricValue::good_at(v, "", "PCI_DeviceID", ts),
            MetricValue::good_at(d, "", "PCI_DeviceID", ts),
        ),
        None => (
            gpu_metric_unavailable("", "GDI_EnumDisplayDevices", "设备标识不是可解析的 PCI\\VEN_xxxx&DEV_yyyy", ts),
            gpu_metric_unavailable("", "GDI_EnumDisplayDevices", "设备标识不是可解析的 PCI\\VEN_xxxx&DEV_yyyy", ts),
        ),
    };
    let vendor_key = match parsed {
        Some((v, _)) => Some(v),
        None => None,
    };
    let parts: [&str; 2] = [raw_id.as_str(), raw_name.as_str()];
    let id = stable_device_id("gpu", &parts);
    assert(crate::quality::str_views(parts@) =~= seq![raw_id@, raw_name@]);
    let src = "GDI_EnumDisplayDevices";
    Some(GpuAdapter {
        id,
        name: MetricValue::good_at(name, "", src, ts),
        vendor: vendor_name(vendor_key, ts),
        vendor_id,
        device_id,
        dedicated_vram_bytes: gpu_metric_unavailable("Bytes", src, "GDI 无法可靠提供 dedicated VRAM 容量", ts),
        shared_vram_bytes: gpu_metric_unavailable("Bytes", src, "GDI 无法可靠提供 shared VRAM 容量", ts),
        driver_version: gpu_metric_unavailable("", src, "GDI 无法可靠提供驱动版本", ts),
        memory_used_bytes: gpu_metric_unavailable("Bytes", src, "GDI 无法可靠提供显存使用量", ts),
        fan_speed_percent: gpu_metric_unavailable("%", src, "GDI 无法可靠提供风扇转速", ts),
        is_primary: (r.state_flags & DISPLAY_DEVICE_PRIMARY_DEVICE) != 0,
    })
}

/// The readings that GDI returned a name for, in enumeration order.
pub open spec fn named_readings(rs: Seq<DisplayAdapterReading>) -> Seq<DisplayAdapterReading> {
    rs.filter(|r: DisplayAdapterReading| display_text_spec(r.device_string@).len() > 0)
}

/// Describes every enumerated adapter that has a name, in order.
pub fn collect_gpu_devices(readings: &Vec<DisplayAdapterReading>, ts: u64) -> (out: Vec<GpuAdapter>)
    ensures
        out@.len() == named_readings(readings@).len(),
        forall|i: int| 0 <= i < out@.len() ==> adapter_ok(#[trigger] out@[i], named_readings(readings@)[i], ts),
{
    let mut out: Vec<GpuAdapter> = Vec::new();
    let n = readings.len();
    for k in 0..n
        invariant
            n == readings@.len(),
            out@.len() == named_readings(readings@.take(k as int)).len(),
            forall|i: int| 0 <= i < out@.len() ==> adapter_ok(#[trigger] out@[i], named_readings(readings@.take(k as int))[i], ts),
    {
        let ghost before = readings@.take(k as int);
        assert(readings@.take(k + 1).drop_last() =~= before);
        assert(readings@.take(k + 1).last() == readings@[k as int]);
        proof {
            before.lemma_filter_push(readings@[k as int], |r: DisplayAdapterReading| display_text_spec(r.device_string@).len() > 0);
            assert(before.push(readings@[k as int]) =~= readings@.take(k + 1));
        }
        match describe_adapter(&readings[k], ts) {
            Some(a) => { out.push(a); },
            None => {},
        }
    }
    assert(readings@.take(n as int) =~= readings@);
    out
}

} // verus!
