//! Displays and audio endpoints: a display is listed only when GDI reports it
//! active and returns its current mode; HDR support and audio endpoints have
//! no provider yet, so they stay explicitly empty.

use vstd::prelude::*;
use crate::quality::{MetricQuality, MetricValue, metric_absent, owned, stable_device_id};
use crate::text::{decimal, push_decimal};
use crate::sysinfo::gpu::{DisplayAdapterReading, DISPLAY_DEVICE_PRIMARY_DEVICE, display_text_spec};

verus! {

/// `DISPLAY_DEVICE_ACTIVE`: the adapter drives a desktop.
pub const DISPLAY_DEVICE_ACTIVE: u32 = 1;

/// One display and its current mode.
pub struct DisplayDevice {
    pub id: String,
    pub name: String,
    pub friendly_name: String,
    pub is_primary: bool,
    pub width: u32,
    pub height: u32,
    pub refresh_rate_hz: u32,
    pub bits_per_pixel: u32,
    pub orientation: String,
    pub position_x: i32,
    pub position_y: i32,
    pub hdr_supported: MetricValue<bool>,
}

/// One audio endpoint.
pub struct AudioDeviceInfo {
    pub id: String,
    pub name: String,
    pub is_output: bool,
    pub is_default: bool,
    pub volume_percent: u32,
    pub is_muted: bool,
    pub state: String,
}

/// Displays and audio endpoints together.
pub struct MediaDevicesSnapshot {
    pub displays: Vec<DisplayDevice>,
    pub audio_devices: Vec<AudioDeviceInfo>,
}

/// The current mode of a display as `EnumDisplaySettingsExW` returns it.
#[derive(Clone, Copy)]
pub struct DisplayModeReading {
    pub width: u32,
    pub height: u32,
    pub refresh_rate_hz: u32,
    pub bits_per_pixel: u32,
    pub orientation: u32,
    pub position_x: i32,
    pub position_y: i32,
}

/// An enumerated display adapter with its current mode, if one was returned.
pub struct DisplayReading {
    pub adapter: DisplayAdapterReading,
    pub mode: Option<DisplayModeReading>,
}

/// `m` is the HDR metric while no provider exists.
pub open spec fn hdr_unknown(m: MetricValue<bool>, ts: u64) -> bool {
    metric_absent(m, ""@, MetricQuality::Unsupported, "DisplayConfig/EDID"@,
        "当前未实现 DisplayConfig/EDID Provider"@, ts)
}

/// HDR support without a DisplayConfig/EDID provider: no value, `Unsupported`.
pub fn hdr_without_provider(timestamp: u64) -> (m: MetricValue<bool>)
    ensures
        hdr_unknown(m, timestamp),
{
    MetricValue::unsupported_at("", "DisplayConfig/EDID", "当前未实现 DisplayConfig/EDID Provider", timestamp)
}

/// Text of a display orientation code; an unknown code is kept, not guessed.
pub open spec fn orientation_spec(code: u32) -> Seq<char> {
    if code == 0 {
        "横向 (0°)"@
    } else if code == 1 {
        "纵向 (90°)"@
    } else if code == 2 {
        "横向翻转"@
    } else if code == 3 {
        "纵向翻转"@
    } else {
        "未知方向 ("@ + decimal(code as nat) + ")"@
    }
}

/// Names a display orientation code.
pub fn orientation_text(code: u32) -> (s: String)
    ensures
        s@ == orientation_spec(code),
{
    if code == 0 {
        owned("横向 (0°)")
    } else if code == 1 {
        owned("纵向 (90°)")
    } else if code == 2 {
        owned("横向翻转")
    } else if code == 3 {
        owned("纵向翻转")
    } else {
        let mut s = owned("未知方向 (");
        push_decimal(&mut s, code as u64);
        let close = ")";
        let t = crate::text::concat_str(s.as_str(), close);
        t
    }
}

/// `d` describes the active display `r` in mode `m`, collected at `ts`.
pub open spec fn display_ok(d: DisplayDevice, r: DisplayAdapterReading, m: DisplayModeReading, ts: u64) -> bool {
    let name = display_text_spec(r.device_name@);
    let desc = display_text_spec(r.device_string@);
    &&& d.id@ == crate::quality::device_id_spec("display"@, seq![name, desc])
    &&& d.name@ == name
    &&& d.friendly_name@ == (if desc.len() == 0 { name } else { desc })
    &&& d.is_primary == (r.state_flags & DISPLAY_DEVICE_PRIMARY_DEVICE != 0)
    &&& d.width == m.width
    &&& d.height == m.height
    &&& d.refresh_rate_hz == m.refresh_rate_hz
    &&& d.bits_per_pixel == m.bits_per_pixel
    &&& d.orientation@ == orientation_spec(m.orientation)
    &&& d.position_x == m.position_x
    &&& d.position_y == m.position_y
    &&& hdr_unknown(d.hdr_supported, ts)
}

/// `d` describes the display of reading `r`.
pub open spec fn display_matches(d: DisplayDevice, r: DisplayReading, ts: u64) -> bool {
    display_ok(d, r.adapter, r.mode->0, ts)
}

/// Whether a reading yields a display: the adapter is active and has a mode.
pub open spec fn listed(r: DisplayReading) -> bool {
    r.adapter.state_flags & DISPLAY_DEVICE_ACTIVE != 0 && r.mode is Some
}

/// Describes one display; `None` unless it is active with a current mode.
pub fn describe_display(r: &DisplayReading, ts: u64) -> (d: Option<DisplayDevice>)
    ensures
        match d {
            None => !listed(*r),
            Some(d) => listed(*r) && display_ok(d, r.adapter, r.mode->0, ts),
        },
{
    if (r.adapter.state_flags & DISPLAY_DEVICE_ACTIVE) == 0 {
        return None;
    }
    let m = match r.mode {
        Some(m) => m,
        None => { return None; },
    };
    let name = crate::sysinfo::network::wide_field(r.adapter.device_name.as_slice());
    let desc = crate::sysinfo::network::wide_field(r.adapter.device_string.as_slice());
    let parts: [&str; 2] = [name.as_str(), desc.as_str()];
    let id = stable_device_id("display", &parts);
    assert(crate::quality::str_views(parts@) =~= seq![name@, desc@]);
    let friendly = if desc.as_str().is_empty() { owned(name.as_str()) } else { owned(desc.as_str()) };
    Some(DisplayDevice {
        id,
        name,
        friendly_name: friendly,
        is_primary: (r.adapter.state_flags & DISPLAY_DEVICE_PRIMARY_DEVICE) != 0,
        width: m.width,
        height: m.height,
        refresh_rate_hz: m.refresh_rate_hz,
        bits_per_pixel: m.bits_per_pixel,
        orientation: orientation_text(m.orientation),
        position_x: m.position_x,
        position_y: m.position_y,
        hdr_supported: hdr_without_provider(ts),
    })
}

/// The readings that yield a display, in enumeration order.
pub open spec fn listed_readings(rs: Seq<DisplayReading>) -> Seq<DisplayReading> {
    rs.filter(|r: DisplayReading| listed(r))
}

/// Every active display with a current mode, in enumeration order; no
/// resolution or refresh rate is filled in for one without a mode.
pub fn collect_displays(readings: &Vec<DisplayReading>, ts: u64) -> (out: Vec<DisplayDevice>)
    ensures
        out@.len() == listed_readings(readings@).len(),
        forall|i: int| 0 <= i < out@.len() ==> display_matches(#[trigger] out@[i], listed_readings(readings@)[i], ts),
{
    let mut out: Vec<DisplayDevice> = Vec::new();
    let n = readings.len();
    for k in 0..n
        invariant
            n == readings@.len(),
            out@.len() == listed_readings(readings@.take(k as int)).len(),
            forall|i: int| 0 <= i < out@.len() ==> display_matches(#[trigger] out@[i], listed_readings(readings@.take(k as int))[i], ts),
    {
        let ghost before = readings@.take(k as int);
        proof {
            before.lemma_filter_push(readings@[k as int], |r: DisplayReading| listed(r));
            assert(before.push(readings@[k as int]) =~= readings@.take(k + 1));
        }
        match describe_display(&readings[k], ts) {
            Some(d) => { out.push(d); },
            None => {},
        }
    }
    assert(readings@.take(n as int) =~= readings@);
    out
}

/// Audio endpoints: without a Core Audio provider the list is empty, never
/// filled with made-up devices.
pub fn collect_audio_devices() -> (v: Vec<AudioDeviceInfo>)
    ensures
        v@.len() == 0,
{
    Vec::new()
}

/// The media snapshot: the displays of the readings and the audio endpoints.
pub fn collect_media_snapshot(readings: &Vec<DisplayReading>, ts: u64) -> (s: MediaDevicesSnapshot)
    ensures
        s.displays@.len() == listed_readings(readings@).len(),
        forall|i: int| 0 <= i < s.displays@.len() ==> display_matches(#[trigger] s.displays@[i], listed_readings(readings@)[i], ts),
        s.audio_devices@.len() == 0,
{
    MediaDevicesSnapshot {
        displays: collect_displays(readings, ts),
        audio_devices: collect_audio_devices(),
    }
}

} // verus!
