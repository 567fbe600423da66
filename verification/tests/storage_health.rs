use omnibox::quality::MetricQuality;
use omnibox::sysinfo::storage::{
    collect_logical_volumes, describe_physical_disk, descriptor_query_size, logical_drive_step, parse_logical_drives,
    parse_nvme_health_log, physical_drive_path, DriveBufferStep, StorageDescriptor,
    VolumeReading,
};

#[test]
fn nvme_health_short_log_does_not_panic_or_create_temperature() {
    let result = parse_nvme_health_log(&[0; 128], 10);
    assert_eq!(result.err(), Some(MetricQuality::Invalid));
}

#[test]
fn nvme_health_reads_u128_log_counters_that_fit_public_u64_fields() {
    let mut log = vec![0_u8; 512];
    log[1..3].copy_from_slice(&300_u16.to_le_bytes());
    log[3] = 99;
    log[4] = 10;
    log[5] = 7;
    let read_units = (1_u128 << 96) | 123;
    let written_units = (1_u128 << 80) | 456;
    let power_cycles = (u64::MAX as u128) - 8;
    let power_hours = (u64::MAX as u128) - 9;
    let unsafe_shutdowns = (u64::MAX as u128) - 10;
    let media_errors = (u64::MAX as u128) - 11;
    log[32..48].copy_from_slice(&read_units.to_le_bytes());
    log[48..64].copy_from_slice(&written_units.to_le_bytes());
    log[112..128].copy_from_slice(&power_cycles.to_le_bytes());
    log[128..144].copy_from_slice(&power_hours.to_le_bytes());
    log[144..160].copy_from_slice(&unsafe_shutdowns.to_le_bytes());
    log[160..176].copy_from_slice(&media_errors.to_le_bytes());

    let parsed = match parse_nvme_health_log(&log, 10) {
        Ok(p) => p,
        Err(_) => panic!("完整健康日志应解析"),
    };
    assert_eq!(parsed.temperature_kelvin, Some(300));
    assert_eq!(parsed.power_cycles.value, Some(power_cycles as u64));
    assert_eq!(parsed.power_on_hours.value, Some(power_hours as u64));
    assert_eq!(parsed.unsafe_shutdowns.value, Some(unsafe_shutdowns as u64));
    assert_eq!(parsed.media_errors.value, Some(media_errors as u64));
    assert_eq!(parsed.data_units_read, read_units);
    assert_eq!(parsed.data_units_written, written_units);
    assert_eq!(parsed.power_cycles.timestamp, 10);
    assert_eq!(parsed.available_spare_percent.value, Some(99));
    assert_eq!(parsed.spare_threshold_percent.value, Some(10));
    assert_eq!(parsed.percentage_used.value, Some(7));
}

#[test]
fn nvme_health_rejects_counter_overflow_for_public_u64_fields() {
    for offset in [112_usize, 128, 144, 160] {
        let mut log = vec![0_u8; 512];
        log[offset..offset + 16].copy_from_slice(&(u128::from(u64::MAX) + 1).to_le_bytes());
        assert_eq!(
            parse_nvme_health_log(&log, 10).err(),
            Some(MetricQuality::Invalid),
            "offset {offset} 的 128 位计数超出 u64 应无效"
        );
    }
}

#[test]
fn nvme_health_invalid_kelvin_only_invalidates_temperature() {
    let mut log = vec![0_u8; 512];
    log[5] = 4;
    log[112..128].copy_from_slice(&77_u128.to_le_bytes());
    let parsed = match parse_nvme_health_log(&log, 10) {
        Ok(p) => p,
        Err(_) => panic!("字段长度有效时应解析"),
    };
    assert_eq!(parsed.temperature_kelvin, None);
    assert_eq!(parsed.percentage_used.value, Some(4));
    assert_eq!(parsed.power_cycles.value, Some(77));
}

#[test]
fn physical_disks_use_only_the_bus_type_for_nvme() {
    let desc = StorageDescriptor {
        vendor: Some("ACME".to_string()),
        product: Some("NVMe-looking name".to_string()),
        revision: None,
        serial: Some("SN".to_string()),
        bus_type: Some("SATA".to_string()),
        removable: Some(false),
    };
    let path = physical_drive_path(3);
    assert_eq!(path, "\\\\.\\PhysicalDrive3");
    let disk = describe_physical_disk(&Ok(desc), 3, &path, Some(512_000), None, 5);
    assert!(!disk.is_nvme);
    assert_eq!(disk.vendor.value.as_deref(), Some("ACME"));
    assert_eq!(disk.firmware_revision.quality, MetricQuality::Unavailable);
    assert_eq!(disk.capacity_bytes.value, Some(512_000));
    assert_eq!(disk.sector_size_bytes.quality, MetricQuality::Unsupported);
    assert_eq!(disk.media_type.quality, MetricQuality::Unsupported);
    assert!(disk.id.starts_with("disk-"));
    let bad = describe_physical_disk(&Err(MetricQuality::Invalid), 3, &path, None, Some(512), 5);
    assert_eq!(bad.vendor.quality, MetricQuality::Invalid);
    assert_eq!(bad.sector_size_bytes.value, Some(512));
}

#[test]
fn logical_drive_buffers_grow_and_parse() {
    assert_eq!(logical_drive_step(256, 0), DriveBufferStep::Fail);
    assert_eq!(logical_drive_step(256, 255), DriveBufferStep::Retry(512));
    assert_eq!(logical_drive_step(256, 1000), DriveBufferStep::Retry(1001));
    assert_eq!(logical_drive_step(256, 12), DriveBufferStep::Parse);
    assert_eq!(logical_drive_step(20000, 19999), DriveBufferStep::Fail);
    let mut buf: Vec<u16> = "C:\\\0D:\\\0\0".encode_utf16().collect();
    buf.resize(32, 0);
    assert_eq!(parse_logical_drives(&buf, 8), vec!["C:\\", "D:\\"]);
    assert!(parse_logical_drives(&buf, 40).is_empty());
    let unterminated: Vec<u16> = "C:\\".encode_utf16().collect();
    assert!(parse_logical_drives(&unterminated, 3).is_empty());
}

#[test]
fn volumes_need_space_and_volume_information() {
    let wide = |s: &str| -> Vec<u16> {
        let mut v: Vec<u16> = s.encode_utf16().collect();
        v.resize(16, 0);
        v
    };
    let readings = vec![
        VolumeReading {
            root: "C:\\".to_string(),
            space: Some((40, 100)),
            info: Some((wide("System"), wide("NTFS"), 0x0008_0000)),
        },
        VolumeReading { root: "D:\\".to_string(), space: Some((150, 100)), info: Some((wide("x"), wide("y"), 0)) },
        VolumeReading { root: "E:\\".to_string(), space: None, info: Some((wide("x"), wide("y"), 0)) },
        VolumeReading { root: "F:\\".to_string(), space: Some((1, 2)), info: None },
    ];
    let volumes = collect_logical_volumes(&readings, 4);
    assert_eq!(volumes.len(), 1);
    assert_eq!(volumes[0].drive_letter, "C:");
    assert_eq!(volumes[0].label, "System");
    assert_eq!(volumes[0].used_bytes, 60);
    assert!(volumes[0].is_read_only);
    assert_eq!(volumes[0].bitlocker_status.value, None);
}

#[test]
fn descriptor_size_from_header_query() {
    let mut header = [0u8; 36];
    header[4..8].copy_from_slice(&1024u32.to_le_bytes());
    assert_eq!(descriptor_query_size(&header, true, 36), Ok(1024));
    assert_eq!(descriptor_query_size(&header, false, 36), Err(MetricQuality::Unavailable));
    assert_eq!(descriptor_query_size(&header, true, 20), Err(MetricQuality::Invalid));
    header[4..8].copy_from_slice(&12u32.to_le_bytes());
    assert_eq!(descriptor_query_size(&header, true, 36), Err(MetricQuality::Invalid));
    header[4..8].copy_from_slice(&(2u32 * 1024 * 1024).to_le_bytes());
    assert_eq!(descriptor_query_size(&header, true, 36), Err(MetricQuality::Invalid));
}
