use omnibox::quality::MetricQuality;
use omnibox::sysinfo::windows_env::{
    app_from_registry_values, collect_windows_env, decode_env_string, initial_query_capacity,
    merge_installed_apps, merge_startup_entries, next_enum_buffers, next_name_capacity,
    next_query_capacity, registry_metric, RegistryValueReading, RunValueReading,
    UninstallAppReading,
};

const REG_SZ: u32 = 1;
const REG_MULTI_SZ: u32 = 7;

fn utf16_bytes(units: &[u16]) -> Vec<u8> {
    units.iter().flat_map(|u| u.to_le_bytes()).collect()
}

fn sz(text: &str) -> Vec<u8> {
    let mut units: Vec<u16> = text.encode_utf16().collect();
    units.push(0);
    utf16_bytes(&units)
}

fn value(text: &str) -> Option<RegistryValueReading> {
    Some(RegistryValueReading { data_type: REG_SZ, data: sz(text) })
}

fn app(name: Option<&str>, version: Option<&str>) -> UninstallAppReading {
    UninstallAppReading {
        name: name.and_then(value),
        version: version.and_then(value),
        publisher: None,
        install_date: None,
        install_location: value("C:\\Apps"),
    }
}

fn run(source: &str, name: &str, command: &str) -> RunValueReading {
    RunValueReading {
        source: source.to_string(),
        name_units: name.encode_utf16().collect(),
        value: RegistryValueReading { data_type: REG_SZ, data: sz(command) },
    }
}

#[test]
fn missing_uninstall_fields_remain_unavailable() {
    let app = app_from_registry_values(Some("Demo"), None, None, None, 1);
    assert_eq!(app.name, "Demo");
    assert_eq!(app.version.value, None);
    assert_eq!(app.publisher.value, None);
}

#[test]
fn registry_strings_are_decoded_strictly() {
    assert_eq!(decode_env_string(REG_SZ, &sz("  Hello ")).as_deref(), Some("Hello"));
    assert_eq!(decode_env_string(REG_SZ, &sz("   ")), None);
    assert_eq!(decode_env_string(REG_SZ, &[0x41, 0x00]), None);
    assert_eq!(decode_env_string(REG_SZ, &[0x41, 0x00, 0x00]), None);
    assert_eq!(decode_env_string(REG_SZ, &utf16_bytes(&[0x41, 0, 0x42, 0])), None);
    assert_eq!(decode_env_string(4, &sz("x")), None);
    let multi = utf16_bytes(&[0x61, 0, 0x62, 0, 0]);
    assert_eq!(decode_env_string(REG_MULTI_SZ, &multi).as_deref(), Some("a"));
    let not_double = utf16_bytes(&[0x61, 0, 0x62, 0]);
    assert_eq!(decode_env_string(REG_MULTI_SZ, &not_double), None);
    let bad_segment = utf16_bytes(&[0x61, 0, 0xD800, 0, 0]);
    assert_eq!(decode_env_string(REG_MULTI_SZ, &bad_segment), None);
}

#[test]
fn registry_metrics_trim_and_never_invent_text() {
    let m = registry_metric(Some("  1.2.3 "), 5);
    assert_eq!(m.value.as_deref(), Some("1.2.3"));
    assert_eq!(m.quality, MetricQuality::Good);
    let m = registry_metric(Some("   "), 5);
    assert_eq!(m.value, None);
    assert_eq!(m.error.as_deref(), Some("注册表未提供该字段"));
}

#[test]
fn installed_apps_are_unique_up_to_ascii_case() {
    let readings = vec![
        app(Some("Demo App"), Some("1.0")),
        app(None, Some("9.9")),
        app(Some("DEMO app"), Some("2.0")),
        app(Some("Other"), None),
    ];
    let apps = merge_installed_apps(&readings, 3);
    assert_eq!(apps.len(), 2);
    assert_eq!(apps[0].name, "Demo App");
    assert_eq!(apps[0].version.value.as_deref(), Some("1.0"));
    assert_eq!(apps[0].install_location.value.as_deref(), Some("C:\\Apps"));
    assert_eq!(apps[1].name, "Other");
    assert_eq!(apps[1].version.value, None);
}

#[test]
fn startup_entries_skip_blank_names_and_repeats() {
    let readings = vec![
        run("HKCU\\Run", "Tool", "C:\\tool.exe"),
        run("HKCU\\Run", "  ", "C:\\blank.exe"),
        run("HKCU\\Run", "Tool", "C:\\tool.exe"),
        run("HKLM\\Run", "Tool", "C:\\tool.exe"),
    ];
    let items = merge_startup_entries(&readings);
    assert_eq!(items.len(), 2);
    assert_eq!(items[0].source, "HKCU\\Run");
    assert!(items[0].enabled);
    assert_eq!(items[1].source, "HKLM\\Run");
    let env = collect_windows_env(&readings, &Vec::new(), 1);
    assert_eq!(env.startup_items.len(), 2);
    assert!(env.active_services_sample.is_empty());
    assert_eq!(env.security_status.tpm_present.quality, MetricQuality::Unsupported);
    assert_eq!(env.security_status.tpm_version.value, None);
}

#[test]
fn registry_buffers_grow_within_their_limits() {
    assert_eq!(initial_query_capacity(10), Some(1024));
    assert_eq!(initial_query_capacity(4000), Some(4000));
    assert_eq!(initial_query_capacity(70000), None);
    assert_eq!(next_query_capacity(1024, 100), Some(2048));
    assert_eq!(next_query_capacity(1024, 5000), Some(5000));
    assert_eq!(next_query_capacity(40000, 0), None);
    assert_eq!(next_name_capacity(256, 300), Some(512));
    assert_eq!(next_name_capacity(256, 70000), None);
    assert_eq!(next_name_capacity(40000, 10), Some(65536));
    assert_eq!(next_enum_buffers(256, 1024, 10, 3000), Some((512, 3000)));
    assert_eq!(next_enum_buffers(256, 1024, 10, 70000), None);
}
