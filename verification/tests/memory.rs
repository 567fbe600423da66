use omnibox::quality::MetricQuality;
use omnibox::sysinfo::memory::{calculate_usage_permille, collect_memory_metrics, MemoryStatusReading};
use omnibox::working_set::{clean_figures, count_trimmed, memory_figures, TrimOutcome};

#[test]
fn zero_total_memory_does_not_become_zero_percent_good() {
    assert_eq!(calculate_usage_permille(0, 0), None);
}

#[test]
fn available_memory_above_total_is_rejected() {
    assert_eq!(calculate_usage_permille(100, 101), None);
}

#[test]
fn usage_is_rounded_to_tenths() {
    assert_eq!(calculate_usage_permille(3, 1), Some(667));
    assert_eq!(calculate_usage_permille(100, 100), Some(0));
}

#[test]
fn memory_status_and_trim_results() {
    let m = memory_figures(16_000, 4_000);
    assert_eq!(m.used_ram, 12_000);
    assert_eq!(m.usage_hundredths, 7500);
    let odd = memory_figures(3, 1);
    assert_eq!(odd.usage_hundredths, 6667);
    assert_eq!(memory_figures(5, 9).used_ram, 0);
    assert_eq!(memory_figures(0, 0).usage_hundredths, 0);
    let outcomes = vec![
        TrimOutcome { pid: 0, trimmed: true },
        TrimOutcome { pid: 4, trimmed: true },
        TrimOutcome { pid: 8, trimmed: false },
        TrimOutcome { pid: 9, trimmed: true },
    ];
    assert_eq!(count_trimmed(&outcomes), 2);
    let c = clean_figures(10_000, 7_000, 2, true, false);
    assert_eq!(c.freed_bytes, 3_000);
    assert_eq!(c.standby_freed_bytes, 3_000);
    assert_eq!(c.clean_mode, "PCL2 深度内核优化 (待机缓存+全工作集)");
    let c = clean_figures(7_000, 10_000, 2, false, false);
    assert_eq!(c.freed_bytes, 0);
    assert_eq!(c.standby_freed_bytes, 0);
    assert_eq!(c.clean_mode, "标准工作集修剪 (以管理员运行可激活内核待机优化)");
}

#[test]
fn dimm_inventory_is_empty_when_no_provider_exists() {
    let reading = MemoryStatusReading {
        total_phys: 16_000,
        avail_phys: 4_000,
        total_page_file: 20_000,
        avail_page_file: 8_000,
        total_virtual: 1_000_000,
        avail_virtual: 900_000,
    };
    for global in [None, Some(reading)] {
        let m = collect_memory_metrics(global, None, 7);
        assert_eq!(m.provider_status.item_count, Some(0));
        assert_eq!(m.provider_status.quality, MetricQuality::Unsupported);
        assert_eq!(m.hardware_reserved_bytes.value, None);
        assert_eq!(m.hardware_reserved_bytes.quality, MetricQuality::Unsupported);
    }
    let m = collect_memory_metrics(Some(reading), None, 7);
    assert_eq!(m.usage_permille.value, Some(750));
    assert_eq!(m.usage_permille.quality, MetricQuality::Estimated);
    assert!(m.usage_permille.error.is_some());
}
