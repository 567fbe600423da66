use omnibox::quality::MetricQuality;
use omnibox::sysinfo::diagnostics::{
    collect_diagnostics_snapshot, dump_entry_from_metadata, minidump_error_metric, name_le_exec,
    scan_minidumps, system_root_usable, DirEntryReading, MinidumpErrorKind, MinidumpListing,
};

fn file(name: &str, size: u64, ms: Option<u64>) -> DirEntryReading {
    DirEntryReading::File { name: name.to_string(), size, modified_at_ms: ms }
}

#[test]
fn dump_metadata_uses_file_time_not_recent_placeholder() {
    let entry = dump_entry_from_metadata("x.dmp", 42, 1_700_000_000_000);
    assert_eq!(entry.file_size_bytes, 42);
    assert_eq!(entry.created_at, "1700000000000");
}

#[test]
fn dumps_are_sorted_newest_first_then_by_name() {
    let listing = vec![
        file("b.dmp", 1, Some(100)),
        DirEntryReading::NotFile,
        file("c.dmp", 2, Some(300)),
        file("a.dmp", 3, Some(100)),
    ];
    let (entries, truncated) = match scan_minidumps(&listing, 7) {
        Ok(v) => v,
        Err(_) => panic!("scan failed"),
    };
    assert!(!truncated);
    let names: Vec<&str> = entries.iter().map(|(_, e)| e.file_name.as_str()).collect();
    assert_eq!(names, vec!["c.dmp", "a.dmp", "b.dmp"]);
    assert_eq!(entries[0].1.created_at, "300");
}

#[test]
fn one_unreadable_entry_fails_the_scan() {
    let listing = vec![file("a.dmp", 1, Some(1)), file("b.dmp", 1, None)];
    let err = match scan_minidumps(&listing, 7) {
        Ok(_) => panic!("expected an error"),
        Err(m) => m,
    };
    assert_eq!(err.quality, MetricQuality::ReadError);
    assert_eq!(err.value, None);
    let listing = vec![DirEntryReading::Unreadable];
    assert!(scan_minidumps(&listing, 7).is_err());
}

#[test]
fn more_than_one_hundred_dumps_are_cut_and_counted() {
    let listing: Vec<DirEntryReading> =
        (0..105).map(|i| file(&format!("{i:03}.dmp"), i, Some(i))).collect();
    let snapshot = collect_diagnostics_snapshot(&MinidumpListing::Entries(listing), 9);
    assert_eq!(snapshot.minidump_count.value, Some(105));
    assert_eq!(snapshot.minidump_count.quality, MetricQuality::Good);
    assert!(snapshot.minidump_truncated);
    assert_eq!(snapshot.recent_crash_dumps.len(), 100);
    assert_eq!(snapshot.recent_crash_dumps[0].file_name, "104.dmp");
    assert_eq!(snapshot.recent_crash_dumps[99].file_name, "005.dmp");
    assert!(snapshot.whea_hardware_events.is_empty());
    assert_eq!(snapshot.whea_hardware_events_status.quality, MetricQuality::Unsupported);
    assert_eq!(snapshot.whea_hardware_events_status.item_count, Some(0));
    assert_eq!(snapshot.overall_health_assessment.value, None);
    assert_eq!(snapshot.unexpected_shutdowns_count.quality, MetricQuality::Unsupported);
}

#[test]
fn directory_errors_map_to_their_quality() {
    let m = minidump_error_metric::<u32>(MinidumpErrorKind::NotFound, 1);
    assert_eq!(m.quality, MetricQuality::Unavailable);
    assert_eq!(m.error.as_deref(), Some("SystemRoot\\Minidump 不存在"));
    let m = minidump_error_metric::<u32>(MinidumpErrorKind::PermissionDenied, 1);
    assert_eq!(m.quality, MetricQuality::PermissionDenied);
    let m = minidump_error_metric::<u32>(MinidumpErrorKind::Other, 1);
    assert_eq!(m.quality, MetricQuality::ReadError);
    let s = collect_diagnostics_snapshot(&MinidumpListing::NoSystemRoot, 3);
    assert_eq!(s.minidump_count.quality, MetricQuality::Unavailable);
    assert!(s.recent_crash_dumps.is_empty());
    let s = collect_diagnostics_snapshot(&MinidumpListing::DirError(MinidumpErrorKind::NotFound), 3);
    assert_eq!(s.minidump_count.quality, MetricQuality::Unavailable);
}

#[test]
fn names_compare_by_code_point_and_blank_roots_are_refused() {
    assert!(name_le_exec("a", "b"));
    assert!(name_le_exec("ab", "ab"));
    assert!(name_le_exec("a", "ab"));
    assert!(!name_le_exec("b", "a"));
    assert!(!name_le_exec("Z", "B"));
    assert!(name_le_exec("Z", "a"));
    assert!(system_root_usable("C:\\Windows"));
    assert!(!system_root_usable("   "));
}
