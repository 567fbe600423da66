use omnibox::quality::MetricQuality;
use omnibox::sysinfo::network::{
    adapter_first_step, adapter_key, adapter_read_step, calculate_rate, parse_tcp_table,
    rate_metric, safe_mac_bytes, socket_address_text, span_within, table_first_step,
    table_read_step, walk_limit, TableStep,
};

#[test]
fn counter_reset_produces_no_network_rate() {
    assert_eq!(calculate_rate(Some(500), 100, 1_000_000_000), None);
}

#[test]
fn malformed_tcp_buffer_returns_invalid_without_pointer_reads() {
    assert_eq!(parse_tcp_table(&[0; 3], false).unwrap_err(), MetricQuality::Invalid);
}

#[test]
fn physical_address_length_is_clamped_to_the_api_buffer() {
    assert_eq!(safe_mac_bytes(&[1, 2, 3, 4, 5, 6, 7, 8], 100), &[1, 2, 3, 4, 5, 6, 7, 8]);
}

#[test]
fn rates_use_the_elapsed_nanoseconds() {
    assert_eq!(calculate_rate(Some(100), 1100, 500_000_000), Some(2000));
    assert_eq!(calculate_rate(None, 1100, 500_000_000), None);
    assert_eq!(calculate_rate(Some(100), 1100, 0), None);
    assert_eq!(rate_metric(None, 5, 1, 7).quality, MetricQuality::Unsupported);
    assert_eq!(rate_metric(Some(9), 5, 1, 7).quality, MetricQuality::Invalid);
    assert_eq!(rate_metric(Some(5), 9, 2_000_000_000, 7).value, Some(2));
}

#[test]
fn extended_table_reads_follow_the_sizing_rules() {
    assert_eq!(table_first_step(0, 0), TableStep::Empty);
    assert_eq!(table_first_step(122, 0), TableStep::Fail(MetricQuality::ReadError));
    assert_eq!(table_first_step(122, 400), TableStep::Read(400));
    assert_eq!(table_first_step(5, 400), TableStep::Fail(MetricQuality::PermissionDenied));
    assert_eq!(table_first_step(111, 17_000_000), TableStep::Fail(MetricQuality::Invalid));
    assert_eq!(table_read_step(122, 800, 400), TableStep::Read(800));
    assert_eq!(table_read_step(122, 300, 400), TableStep::Fail(MetricQuality::ReadError));
    assert_eq!(table_read_step(0, 0, 400), TableStep::Done(400));
    assert_eq!(table_read_step(0, 2, 400), TableStep::Fail(MetricQuality::Invalid));
    assert_eq!(table_read_step(0, 120, 400), TableStep::Done(120));
}

#[test]
fn adapter_address_reads_follow_the_sizing_rules() {
    assert_eq!(adapter_first_step(111, 15_000), TableStep::Read(15_000));
    assert_eq!(adapter_first_step(0, 0), TableStep::Empty);
    assert_eq!(adapter_first_step(111, 2_000_000), TableStep::Fail(MetricQuality::Invalid));
    assert_eq!(adapter_read_step(111, 20_000, 15_000), TableStep::Read(20_000));
    assert_eq!(adapter_read_step(111, 10_000, 15_000), TableStep::Fail(MetricQuality::ReadError));
    assert_eq!(adapter_read_step(0, 0, 15_000), TableStep::Done(15_000));
    assert_eq!(adapter_read_step(0, 2, 15_000), TableStep::Done(2));
    assert_eq!(adapter_read_step(0, 16_000, 15_000), TableStep::Fail(MetricQuality::Invalid));
}

#[test]
fn linked_list_reads_stay_inside_the_buffer() {
    assert!(span_within(1000, 100, 1000, 100));
    assert!(span_within(1000, 100, 1050, 10));
    assert!(!span_within(1000, 100, 999, 10));
    assert!(!span_within(1000, 100, 1095, 10));
    assert!(!span_within(usize::MAX - 5, 100, usize::MAX - 5, 1));
    assert!(!span_within(0, 100, usize::MAX, 2));
    assert_eq!(walk_limit(1000, 100), 11);
    assert_eq!(walk_limit(99, 100), 1);
    assert_eq!(walk_limit(usize::MAX, 1), usize::MAX);
    assert_eq!(adapter_key(7, 9), 7);
    assert_eq!(adapter_key(0, 9), 9);
}

#[test]
fn socket_addresses_are_read_by_family() {
    let v4 = [2u8, 0, 0, 0, 192, 168, 1, 1];
    assert_eq!(socket_address_text(&v4), Some((false, "192.168.1.1".to_string())));
    assert_eq!(socket_address_text(&v4[..7]), None);
    let mut v6 = [0u8; 28];
    v6[0] = 23;
    v6[8] = 0xfe;
    v6[9] = 0x80;
    v6[23] = 1;
    assert_eq!(socket_address_text(&v6), Some((true, "fe80::1".to_string())));
    v6[24] = 5;
    assert_eq!(socket_address_text(&v6), Some((true, "fe80::1%5".to_string())));
    assert_eq!(socket_address_text(&v6[..24]), Some((true, "fe80::1".to_string())));
    assert_eq!(socket_address_text(&v6[..23]), None);
    assert_eq!(socket_address_text(&[17u8, 0, 0, 0, 0, 0, 0, 0]), None);
    assert_eq!(socket_address_text(&[2u8]), None);
}
