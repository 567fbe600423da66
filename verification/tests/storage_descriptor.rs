use omnibox::bytes::{read_i64_le, read_u128_le, read_u16_le, read_u32_le};
use omnibox::quality::MetricQuality;
use omnibox::sysinfo::storage::{
    locate_protocol_data, metric_from_descriptor_quality, parse_storage_descriptor,
    validate_descriptor_header_result, NVME_DATA_TYPE_LOG_PAGE, NVME_HEALTH_LOG_LEN,
    PROTOCOL_TYPE_NVME, STORAGE_DEVICE_DESCRIPTOR_FIXED_SIZE,
    STORAGE_DEVICE_PROTOCOL_SPECIFIC_PROPERTY, STORAGE_PROPERTY_QUERY_PROTOCOL_SIZE,
    STORAGE_PROTOCOL_DATA_DESCRIPTOR_HEADER_SIZE, STORAGE_PROTOCOL_DATA_DESCRIPTOR_SIZE,
    STORAGE_PROTOCOL_SPECIFIC_DATA_SIZE,
};

fn fixture_descriptor_with_product_offset(offset: u32) -> Vec<u8> {
    let mut descriptor = vec![0_u8; 64];
    descriptor[0..4].copy_from_slice(&36_u32.to_le_bytes());
    let descriptor_len = descriptor.len() as u32;
    descriptor[4..8].copy_from_slice(&descriptor_len.to_le_bytes());
    descriptor[16..20].copy_from_slice(&offset.to_le_bytes());
    descriptor
}

#[test]
fn storage_device_protocol_specific_property_is_device_property() {
    assert_eq!(STORAGE_DEVICE_PROTOCOL_SPECIFIC_PROPERTY, 50);
}

#[test]
fn storage_protocol_structs_match_windows_fixture_sizes() {
    assert_eq!(STORAGE_DEVICE_DESCRIPTOR_FIXED_SIZE, 36);
    assert_eq!(STORAGE_PROTOCOL_SPECIFIC_DATA_SIZE, 52);
    assert_eq!(STORAGE_PROTOCOL_DATA_DESCRIPTOR_SIZE, 60);
    assert_eq!(STORAGE_PROPERTY_QUERY_PROTOCOL_SIZE, 60);
    assert_eq!(STORAGE_PROTOCOL_DATA_DESCRIPTOR_HEADER_SIZE, 8);
}

#[test]
fn descriptor_probe_accepts_device_header_length_not_protocol_header_length() {
    assert!(validate_descriptor_header_result(
        true,
        STORAGE_DEVICE_DESCRIPTOR_FIXED_SIZE,
        STORAGE_PROTOCOL_DATA_DESCRIPTOR_HEADER_SIZE,
    )
    .is_ok());
}

#[test]
fn short_storage_descriptor_is_invalid_not_a_default_disk() {
    assert_eq!(parse_storage_descriptor(&[0; 4]).unwrap_err(), MetricQuality::Invalid);
}

#[test]
fn storage_descriptor_offsets_are_checked_against_returned_buffer() {
    let mut descriptor = fixture_descriptor_with_product_offset(40);
    descriptor.truncate(36);
    assert_eq!(parse_storage_descriptor(&descriptor).unwrap_err(), MetricQuality::Invalid);
}

#[test]
fn storage_descriptor_decodes_real_fields_and_nvme_bus() {
    let mut descriptor = vec![0_u8; 96];
    descriptor[0..4].copy_from_slice(&36_u32.to_le_bytes());
    let descriptor_len = descriptor.len() as u32;
    descriptor[4..8].copy_from_slice(&descriptor_len.to_le_bytes());
    descriptor[10] = 1;
    descriptor[12..16].copy_from_slice(&40_u32.to_le_bytes());
    descriptor[16..20].copy_from_slice(&48_u32.to_le_bytes());
    descriptor[20..24].copy_from_slice(&58_u32.to_le_bytes());
    descriptor[24..28].copy_from_slice(&68_u32.to_le_bytes());
    descriptor[28..32].copy_from_slice(&17_u32.to_le_bytes());
    descriptor[40..45].copy_from_slice(b"ACME\0");
    descriptor[48..55].copy_from_slice(b"ModelX\0");
    descriptor[58..64].copy_from_slice(b"R1\0\0\0\0");
    descriptor[68..76].copy_from_slice(b"SN-123\0\0");

    let parsed = parse_storage_descriptor(&descriptor).expect("有效 descriptor 应解析");
    assert_eq!(parsed.vendor.as_deref(), Some("ACME"));
    assert_eq!(parsed.product.as_deref(), Some("ModelX"));
    assert_eq!(parsed.revision.as_deref(), Some("R1"));
    assert_eq!(parsed.serial.as_deref(), Some("SN-123"));
    assert_eq!(parsed.bus_type.as_deref(), Some("NVMe"));
    assert_eq!(parsed.removable, Some(true));
}

#[test]
fn failed_descriptor_header_call_never_parses_returned_bytes() {
    assert_eq!(
        validate_descriptor_header_result(false, 8, 8).unwrap_err(),
        MetricQuality::Unavailable
    );
}

#[test]
fn invalid_descriptor_quality_is_not_relabelled_unavailable() {
    let metric = metric_from_descriptor_quality::<String>(
        None,
        MetricQuality::Invalid,
        "",
        "test",
        "descriptor unavailable",
    );
    assert_eq!(metric.value, None);
    assert_eq!(metric.quality, MetricQuality::Invalid);
}

#[test]
fn storage_descriptor_version_must_cover_fixed_header() {
    let mut descriptor = fixture_descriptor_with_product_offset(40);
    descriptor[0..4].copy_from_slice(&1_u32.to_le_bytes());
    assert_eq!(parse_storage_descriptor(&descriptor).unwrap_err(), MetricQuality::Invalid);
}

#[test]
fn storage_descriptor_string_offsets_cannot_point_into_fixed_header() {
    let descriptor = fixture_descriptor_with_product_offset(34);
    assert_eq!(parse_storage_descriptor(&descriptor).unwrap_err(), MetricQuality::Invalid);
}

#[test]
fn storage_descriptor_accepts_odd_length_descriptor() {
    let mut descriptor = vec![0_u8; 37];
    descriptor[0..4].copy_from_slice(&36_u32.to_le_bytes());
    descriptor[4..8].copy_from_slice(&37_u32.to_le_bytes());
    descriptor[36] = 0;

    let parsed = parse_storage_descriptor(&descriptor).expect("奇数长度 descriptor 应可解析");
    assert_eq!(parsed.removable, Some(false));
    assert_eq!(parsed.vendor, None);
    assert_eq!(parsed.product, None);
}

#[test]
fn storage_descriptor_accepts_odd_ansi_string_offset() {
    let mut descriptor = vec![0_u8; 64];
    descriptor[0..4].copy_from_slice(&36_u32.to_le_bytes());
    descriptor[4..8].copy_from_slice(&64_u32.to_le_bytes());
    descriptor[16..20].copy_from_slice(&41_u32.to_le_bytes());
    descriptor[41..43].copy_from_slice(b"X\0");

    let parsed = parse_storage_descriptor(&descriptor).expect("奇数字节偏移应可解析");
    assert_eq!(parsed.product.as_deref(), Some("X"));
}

#[test]
fn storage_descriptor_requires_nul_terminated_strings() {
    let mut descriptor = fixture_descriptor_with_product_offset(40);
    descriptor[40..].fill(b'X');
    assert_eq!(parse_storage_descriptor(&descriptor).unwrap_err(), MetricQuality::Invalid);
}

#[test]
fn storage_descriptor_unknown_bus_is_none() {
    let mut descriptor = fixture_descriptor_with_product_offset(40);
    descriptor[28..32].copy_from_slice(&0xFFFF_u32.to_le_bytes());
    descriptor[40] = 0;
    let parsed = parse_storage_descriptor(&descriptor).expect("边界结束字符串应可解析");
    assert_eq!(parsed.bus_type, None);
}

#[test]
fn protocol_descriptor_version_must_cover_fixed_header() {
    let mut buffer = vec![0_u8; 560];
    buffer[0..4].copy_from_slice(&1_u32.to_le_bytes());
    buffer[4..8].copy_from_slice(&48_u32.to_le_bytes());
    buffer[8..12].copy_from_slice(&PROTOCOL_TYPE_NVME.to_le_bytes());
    buffer[12..16].copy_from_slice(&NVME_DATA_TYPE_LOG_PAGE.to_le_bytes());
    buffer[24..28].copy_from_slice(&40_u32.to_le_bytes());
    buffer[28..32].copy_from_slice(&512_u32.to_le_bytes());
    assert_eq!(locate_protocol_data(&buffer, 560).unwrap_err(), MetricQuality::Invalid);
}

#[test]
fn protocol_data_location_uses_returned_descriptor_offsets() {
    let data_offset = STORAGE_PROTOCOL_SPECIFIC_DATA_SIZE + 4;
    let data_start = STORAGE_PROTOCOL_DATA_DESCRIPTOR_HEADER_SIZE + data_offset;
    let descriptor_size = data_start + NVME_HEALTH_LOG_LEN;
    let mut buffer = vec![0_u8; descriptor_size];
    buffer[0..4].copy_from_slice(&(STORAGE_PROTOCOL_DATA_DESCRIPTOR_SIZE as u32).to_le_bytes());
    buffer[4..8].copy_from_slice(&(descriptor_size as u32).to_le_bytes());
    buffer[8..12].copy_from_slice(&PROTOCOL_TYPE_NVME.to_le_bytes());
    buffer[12..16].copy_from_slice(&NVME_DATA_TYPE_LOG_PAGE.to_le_bytes());
    buffer[24..28].copy_from_slice(&(data_offset as u32).to_le_bytes());
    buffer[28..32].copy_from_slice(&512_u32.to_le_bytes());
    buffer[40] = 0x5A;
    buffer[48..60].fill(0xCC);
    buffer[60] = 0x5B;
    buffer[data_start] = 0xA5;

    let log = locate_protocol_data(&buffer, descriptor_size).expect("有效偏移应定位日志");
    assert_eq!(log[0], 0xA5);
    assert_eq!(log.len(), 512);
}

#[test]
fn protocol_data_offset_must_cover_protocol_specific_data() {
    let mut buffer = vec![0_u8; 8 + 44 + NVME_HEALTH_LOG_LEN];
    buffer[0..4].copy_from_slice(&60_u32.to_le_bytes());
    buffer[4..8].copy_from_slice(&60_u32.to_le_bytes());
    buffer[8..12].copy_from_slice(&PROTOCOL_TYPE_NVME.to_le_bytes());
    buffer[12..16].copy_from_slice(&NVME_DATA_TYPE_LOG_PAGE.to_le_bytes());
    buffer[24..28].copy_from_slice(&44_u32.to_le_bytes());
    buffer[28..32].copy_from_slice(&512_u32.to_le_bytes());

    assert_eq!(locate_protocol_data(&buffer, buffer.len()).unwrap_err(), MetricQuality::Invalid);
}

#[test]
fn little_endian_reads_stop_at_the_buffer_end() {
    let b = [0x01, 0x02, 0x03, 0x04, 0xff, 0xff, 0xff, 0xff, 0xff];
    assert_eq!(read_u16_le(&b, 0), Some(0x0201));
    assert_eq!(read_u32_le(&b, 0), Some(0x0403_0201));
    assert_eq!(read_u32_le(&b, 6), None);
    assert_eq!(read_u32_le(&b, usize::MAX), None);
    assert_eq!(read_i64_le(&b, 1), Some(i64::from_le_bytes([2, 3, 4, 0xff, 0xff, 0xff, 0xff, 0xff])));
    assert_eq!(read_u128_le(&b, 0), None);
    let wide = [0xffu8; 16];
    assert_eq!(read_u128_le(&wide, 0), Some(u128::MAX));
}
