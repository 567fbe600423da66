use omnibox::quality::MetricQuality;
use omnibox::sysinfo::cpu::{
    avx_dependent_feature_usable, base_frequency_metric, bounded_processor_info_length,
    bounded_registry_length, compute_cpu_permille, count_core_records, cpu_usage_outcome,
    current_frequency_metric, validate_processor_core_record, MAX_PROCESSOR_INFO_BYTES,
    MAX_REGISTRY_VALUE_BYTES,
};

fn short_processor_core_fixture() -> Vec<u8> {
    let header_size = 8;
    let processor_relationship_fixed_size = 24;
    let group_mask_size = 8 + 8;
    let required_size = header_size + processor_relationship_fixed_size + group_mask_size;
    let alignment = 8;
    let record_size = (required_size + alignment - 1) / alignment * alignment;
    let mut record = vec![0u8; record_size];
    record[0..4].copy_from_slice(&0_i32.to_ne_bytes());
    record[4..8].copy_from_slice(&(record_size as u32).to_ne_bytes());
    record[header_size + 22..header_size + 24].copy_from_slice(&1_u16.to_ne_bytes());
    record[header_size + processor_relationship_fixed_size] = 1;
    record
}

#[test]
fn processor_core_length_accepts_short_one_group_fixture() {
    let record = short_processor_core_fixture();
    assert_eq!(validate_processor_core_record(&record, 0, record.len()), Ok(record.len()));
}

#[test]
fn dynamic_cpu_lengths_reject_explicitly_over_limit_values() {
    assert_eq!(
        bounded_registry_length((MAX_REGISTRY_VALUE_BYTES + 1) as u32),
        Err(MetricQuality::Invalid)
    );
    assert_eq!(
        bounded_processor_info_length((MAX_PROCESSOR_INFO_BYTES + 1) as u32),
        Err(MetricQuality::Invalid)
    );
    assert_eq!(bounded_registry_length(4096), Ok(4096));
    assert_eq!(bounded_processor_info_length(4096), Ok(4096));
}

#[test]
fn processor_core_length_rejects_truncated_fixture() {
    let record = short_processor_core_fixture();
    assert_eq!(
        validate_processor_core_record(&record, 0, record.len() - 1),
        Err(MetricQuality::ReadError)
    );
}

#[test]
fn avx_dependent_features_require_hardware_and_os_state() {
    assert!(avx_dependent_feature_usable(true, true, true, true));
    assert!(!avx_dependent_feature_usable(false, true, true, true));
    assert!(!avx_dependent_feature_usable(true, false, true, true));
    assert!(!avx_dependent_feature_usable(true, true, false, true));
    assert!(!avx_dependent_feature_usable(true, true, true, false));
}

#[test]
fn cpu_counter_reset_returns_no_percentage() {
    let previous = Some((100_u64, 200_u64, 300_u64));
    let current = (90_u64, 190_u64, 290_u64);
    assert!(compute_cpu_permille(previous, current).is_none());
}

#[test]
fn first_cpu_sample_is_not_a_fake_good_value() {
    assert!(compute_cpu_permille(None, (100, 200, 300)).is_none());
}

#[test]
fn invalid_idle_delta_returns_no_percentage() {
    let previous = Some((100_u64, 200_u64, 300_u64));
    let current = (200_u64, 250_u64, 300_u64);
    assert!(compute_cpu_permille(previous, current).is_none());
}

#[test]
fn valid_counter_delta_reports_percentages() {
    let previous = Some((100_u64, 200_u64, 300_u64));
    let current = (200_u64, 300_u64, 500_u64);
    let actual = compute_cpu_permille(previous, current).expect("有效计数器差值应产生百分比");
    // Tenths of a percent: 66.7 %, 66.7 %, 0.0 %, 33.3 %.
    assert_eq!(actual.total, 667);
    assert_eq!(actual.user, 667);
    assert_eq!(actual.kernel, 0);
    assert_eq!(actual.idle, 333);
}

#[test]
fn core_records_are_counted_across_the_buffer() {
    let mut buffer = short_processor_core_fixture();
    buffer.extend(short_processor_core_fixture());
    assert_eq!(count_core_records(&buffer, buffer.len()), Ok(2));
    assert_eq!(count_core_records(&buffer, buffer.len() - 1), Err(MetricQuality::ReadError));
}

#[test]
fn usage_outcomes_explain_missing_samples() {
    match cpu_usage_outcome(Ok((100, 200, 300)), None) {
        Err((q, why)) => {
            assert_eq!(q, MetricQuality::Unavailable);
            assert_eq!(why, "首次采样尚无前一计数器");
        }
        Ok(_) => panic!("first sample has no figures"),
    }
    match cpu_usage_outcome(Ok((90, 190, 290)), Some((100, 200, 300))) {
        Err((q, _)) => assert_eq!(q, MetricQuality::Invalid),
        Ok(_) => panic!("counters went back"),
    }
    match cpu_usage_outcome(Err(MetricQuality::PermissionDenied), None) {
        Err((q, why)) => {
            assert_eq!(q, MetricQuality::PermissionDenied);
            assert_eq!(why, "GetSystemTimes 读取失败");
        }
        Ok(_) => panic!("read failed"),
    }
    assert!(cpu_usage_outcome(Ok((200, 300, 500)), Some((100, 200, 300))).is_ok());
    let m = base_frequency_metric(Ok(3600), 1);
    assert_eq!(m.value, Some(3600));
    let m = base_frequency_metric(Err(MetricQuality::Invalid), 1);
    assert_eq!(m.value, None);
    assert_eq!(m.quality, MetricQuality::Invalid);
    assert_eq!(current_frequency_metric(1).quality, MetricQuality::Unsupported);
}
