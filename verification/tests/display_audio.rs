use omnibox::quality::MetricQuality;
use omnibox::sysinfo::display_audio::{
    collect_audio_devices, collect_displays, collect_media_snapshot, hdr_without_provider,
    orientation_text, DisplayModeReading, DisplayReading,
};
use omnibox::sysinfo::gpu::DisplayAdapterReading;

fn wide(text: &str, len: usize) -> Vec<u16> {
    let mut units: Vec<u16> = text.encode_utf16().collect();
    units.resize(len, 0);
    units
}

fn mode(width: u32, height: u32, orientation: u32) -> DisplayModeReading {
    DisplayModeReading {
        width,
        height,
        refresh_rate_hz: 144,
        bits_per_pixel: 32,
        orientation,
        position_x: -1920,
        position_y: 0,
    }
}

fn reading(name: &str, desc: &str, flags: u32, m: Option<DisplayModeReading>) -> DisplayReading {
    DisplayReading {
        adapter: DisplayAdapterReading {
            device_name: wide(name, 32),
            device_string: wide(desc, 128),
            device_id: wide("", 128),
            state_flags: flags,
        },
        mode: m,
    }
}

#[test]
fn audio_collection_has_no_fake_devices_without_provider() {
    assert!(collect_audio_devices().is_empty());
}

#[test]
fn hdr_without_edid_provider_is_unknown() {
    let metric = hdr_without_provider(123);
    assert_eq!(metric.value, None);
    assert_eq!(metric.quality, MetricQuality::Unsupported);
}

#[test]
fn orientation_codes_are_named_and_unknown_codes_kept() {
    assert_eq!(orientation_text(0), "横向 (0°)");
    assert_eq!(orientation_text(1), "纵向 (90°)");
    assert_eq!(orientation_text(2), "横向翻转");
    assert_eq!(orientation_text(3), "纵向翻转");
    assert_eq!(orientation_text(17), "未知方向 (17)");
}

#[test]
fn only_active_displays_with_a_mode_are_listed() {
    let readings = vec![
        reading("\\\\.\\DISPLAY1", "Dell U2720Q", 1 | 4, Some(mode(3840, 2160, 0))),
        reading("\\\\.\\DISPLAY2", "Inactive", 0, Some(mode(1920, 1080, 0))),
        reading("\\\\.\\DISPLAY3", "", 1, Some(mode(1920, 1080, 1))),
        reading("\\\\.\\DISPLAY4", "No mode", 1, None),
    ];
    let displays = collect_displays(&readings, 9);
    assert_eq!(displays.len(), 2);
    assert_eq!(displays[0].friendly_name, "Dell U2720Q");
    assert!(displays[0].is_primary);
    assert_eq!(displays[0].width, 3840);
    assert_eq!(displays[0].position_x, -1920);
    assert!(displays[0].id.starts_with("display-"));
    assert_eq!(displays[1].friendly_name, "\\\\.\\DISPLAY3");
    assert_eq!(displays[1].orientation, "纵向 (90°)");
    assert!(!displays[1].is_primary);
    assert_eq!(displays[1].hdr_supported.value, None);
    let snapshot = collect_media_snapshot(&readings, 9);
    assert_eq!(snapshot.displays.len(), 2);
    assert!(snapshot.audio_devices.is_empty());
}
