use omnibox::quality::MetricQuality;
use omnibox::sysinfo::processes::{
    collect_processes_snapshot, process_item_without_handle, process_memory_error,
    sort_processes, ProcessEntryReading,
};

fn entry(pid: u32, threads: u32, name: &str, ws: Result<u64, u32>) -> ProcessEntryReading {
    let mut exe: Vec<u16> = name.encode_utf16().collect();
    exe.resize(260, 0);
    ProcessEntryReading { pid, ppid: 4, threads, exe_file: exe, working_set: ws }
}

#[test]
fn process_memory_is_not_derived_from_thread_count() {
    let item = process_item_without_handle(7, 2, "protected.exe", 1);
    assert_eq!(item.memory_working_set_bytes.value, None);
    assert_eq!(item.memory_working_set_bytes.quality, MetricQuality::PermissionDenied);
}

#[test]
fn memory_errors_are_classified_and_carry_the_code() {
    let m = process_memory_error(5, 3);
    assert_eq!(m.quality, MetricQuality::PermissionDenied);
    assert_eq!(m.error.as_deref(), Some("读取进程工作集失败，Win32 错误码 5"));
    assert_eq!(m.unit, "Bytes");
    assert_eq!(process_memory_error(1167, 3).quality, MetricQuality::Unavailable);
    assert_eq!(process_memory_error(87, 3).quality, MetricQuality::ReadError);
    assert_eq!(process_memory_error(87, 3).value, None);
}

#[test]
fn processes_are_listed_largest_first_and_unreadable_last() {
    let sorted = sort_processes(vec![
        entry(30, 1, "c.exe", Err(5)),
        entry(20, 1, "b.exe", Ok(100)),
        entry(10, 1, "a.exe", Ok(500)),
        entry(5, 1, "d.exe", Err(5)),
        entry(40, 1, "e.exe", Ok(100)),
    ]);
    let pids: Vec<u32> = sorted.iter().map(|e| e.pid).collect();
    assert_eq!(pids, vec![10, 20, 40, 5, 30]);
}

#[test]
fn counts_cover_every_process_while_the_list_is_cut() {
    let entries: Vec<ProcessEntryReading> =
        (0..30).map(|i| entry(i, 3, "x.exe", Ok(u64::from(i) * 10))).collect();
    let snapshot = collect_processes_snapshot(Some(entries), 1);
    assert_eq!(snapshot.total_processes, 30);
    assert_eq!(snapshot.total_threads, 90);
    assert_eq!(snapshot.top_memory_processes.len(), 25);
    assert_eq!(snapshot.top_memory_processes[0].pid, 29);
    assert_eq!(snapshot.top_memory_processes[0].name, "x.exe");
    assert_eq!(snapshot.top_memory_processes[0].memory_working_set_bytes.value, Some(290));
    let saturated = collect_processes_snapshot(
        Some(vec![entry(1, u32::MAX, "a", Err(5)), entry(2, 5, "b", Err(5))]),
        1,
    );
    assert_eq!(saturated.total_threads, u32::MAX);
    let none = collect_processes_snapshot(None, 1);
    assert_eq!(none.total_processes, 0);
    assert!(none.top_memory_processes.is_empty());
}
