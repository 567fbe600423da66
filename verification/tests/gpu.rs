use omnibox::quality::{collection_status_for, current_timestamp_ms, CollectorResult, MetricQuality};
use omnibox::sysinfo::gpu::{
    collect_gpu_devices, describe_adapter, gpu_metric_unavailable, parse_pci_ids, vendor_name,
    DisplayAdapterReading, GpuAdapter,
};

fn wide(text: &str, len: usize) -> Vec<u16> {
    let mut units: Vec<u16> = text.encode_utf16().collect();
    units.resize(len, 0);
    units
}

fn reading(name: &str, id: &str, flags: u32) -> DisplayAdapterReading {
    DisplayAdapterReading {
        device_name: wide("\\\\.\\DISPLAY1", 32),
        device_string: wide(name, 128),
        device_id: wide(id, 128),
        state_flags: flags,
    }
}

fn empty_gpu_result_for_test() -> CollectorResult<Vec<GpuAdapter>> {
    let devices = collect_gpu_devices(&Vec::new(), current_timestamp_ms());
    let count = devices.len();
    CollectorResult {
        value: devices,
        status: collection_status_for(
            "GDI_EnumDisplayDevices",
            MetricQuality::Unsupported,
            count,
            false,
            Some("GDI 未返回任何显示适配器"),
            current_timestamp_ms(),
        ),
    }
}

#[test]
fn pci_ids_are_parsed_only_from_real_hardware_id() {
    assert_eq!(
        parse_pci_ids("PCI\\VEN_10DE&DEV_2684&SUBSYS_0000"),
        Some((0x10DE, 0x2684))
    );
    assert_eq!(parse_pci_ids("DISPLAY\\UNKNOWN"), None);
}

#[test]
fn gpu_provider_has_no_synthetic_adapter_when_enumeration_is_empty() {
    let result = empty_gpu_result_for_test();
    assert!(result.value.is_empty());
    assert_ne!(result.status.quality, MetricQuality::Good);
    assert!(result.status.timestamp > 0);
    assert_eq!(result.status.item_count, Some(0));
    assert!(!result.status.truncated);
    assert!(result.status.error.is_some());
}

#[test]
fn unavailable_gpu_metrics_have_no_fabricated_value() {
    let metric = gpu_metric_unavailable::<u64>("Bytes", "test", "not available", 1);
    assert_eq!(metric.value, None);
    assert_eq!(metric.quality, MetricQuality::Unsupported);
}

#[test]
fn pci_ids_accept_lower_case_prefixes_and_reject_bad_digits() {
    assert_eq!(parse_pci_ids("pci\\ven_8086&dev_a7a0"), Some((0x8086, 0xA7A0)));
    assert_eq!(parse_pci_ids("PCI\\VEN_10DG&DEV_2684"), None);
    assert_eq!(parse_pci_ids("PCI\\VEN_10DE-DEV_2684"), None);
    assert_eq!(parse_pci_ids("PCI\\VEN_10DE&DEV_268"), None);
}

#[test]
fn vendor_names_known_ids_and_pads_unknown_ones() {
    assert_eq!(vendor_name(Some(0x10DE), 5).value.as_deref(), Some("NVIDIA"));
    assert_eq!(vendor_name(Some(0x1002), 5).value.as_deref(), Some("AMD"));
    assert_eq!(vendor_name(Some(0x8086), 5).value.as_deref(), Some("Intel"));
    let unknown = vendor_name(Some(0x1A), 5);
    assert_eq!(unknown.value, None);
    assert_eq!(unknown.error.as_deref(), Some("未映射的 PCI vendor ID: 0x001A"));
    let wide_id = vendor_name(Some(0x12345), 5);
    assert_eq!(wide_id.error.as_deref(), Some("未映射的 PCI vendor ID: 0x12345"));
    let none = vendor_name(None, 5);
    assert_eq!(none.source, "GDI_EnumDisplayDevices");
}

#[test]
fn adapters_without_a_name_are_skipped_and_primary_flag_is_read() {
    let readings = vec![
        reading("NVIDIA GeForce RTX 4090", "PCI\\VEN_10DE&DEV_2684&SUBSYS_0000", 5),
        reading("   ", "PCI\\VEN_1002&DEV_73BF", 0),
        reading("Virtual Display", "ROOT\\DISPLAY\\0000", 0),
    ];
    let devices = collect_gpu_devices(&readings, 42);
    assert_eq!(devices.len(), 2);
    assert_eq!(devices[0].name.value.as_deref(), Some("NVIDIA GeForce RTX 4090"));
    assert!(devices[0].is_primary);
    assert_eq!(devices[0].vendor_id.value, Some(0x10DE));
    assert_eq!(devices[0].device_id.value, Some(0x2684));
    assert_eq!(devices[0].vendor.value.as_deref(), Some("NVIDIA"));
    assert!(devices[0].id.starts_with("gpu-"));
    assert_eq!(devices[0].dedicated_vram_bytes.value, None);
    assert!(!devices[1].is_primary);
    assert_eq!(devices[1].vendor_id.value, None);
    assert_eq!(
        devices[1].vendor_id.error.as_deref(),
        Some("设备标识不是可解析的 PCI\\VEN_xxxx&DEV_yyyy")
    );
    assert!(describe_adapter(&readings[1], 42).is_none());
}
