use omnibox::downloader::engine::{
    cancel_state, choose_task_text, chunk_byte_len, chunk_pending, chunk_resume_range,
    complete_state, completed_bytes, download_complete, fail_state, is_resumable,
    missing_task_error, part_file_matches, part_save_due, pause_state, plan_task_chunks,
    record_chunk_progress, record_stream_progress, resume_state, settle_run, sort_by_created, sum_downloaded,
    status_when_stopped, stop_state, stream_resume_range, task_thread_count, worker_error,
    RunOutcome, SpeedTracker, TaskState, TaskEntry, resume_task_in, cancel_task_in, find_task,
};
use omnibox::downloader::types::{DownloadChunk, TaskStatus};
use std::time::{Duration, Instant};

fn chunk(id: usize, start: u64, end: u64, downloaded: u64, done: bool) -> DownloadChunk {
    DownloadChunk { id, start, end, downloaded, is_finished: done }
}

#[test]
fn test_speed_tracker_calculation() {
    let mut tracker = SpeedTracker::new(Duration::from_secs(2));

    // The first sample has no history: no speed and no estimate.
    let (s1, e1) = tracker.update(1000, 10000);
    assert_eq!(s1, 0);
    assert_eq!(e1, 0);

    // Wait a little, then sample again.
    let start = Instant::now();
    while start.elapsed() < Duration::from_millis(100) {}
    let (s2, e2) = tracker.update(11000, 1_000_000);
    // 10000 bytes in about 100 ms: roughly 100,000 bytes per second.
    assert!(s2 > 0);
    assert!(e2 > 0);

    // After a reset.
    tracker.reset();
    let (s3, e3) = tracker.update(12000, 1_000_000);
    assert_eq!(s3, 0);
    assert_eq!(e3, 0);
}

#[test]
fn speed_tracker_with_explicit_times() {
    let mut t = SpeedTracker::new(Duration::from_secs(2));
    assert_eq!(t.update_at(0, 0, 10_000), (0, 0));
    // 50 ms is not a long enough span.
    assert_eq!(t.update_at(50_000_000, 500, 10_000), (0, 0));
    // 1000 bytes in 1 s: 1000 B/s, 9000 bytes left: 9 s.
    assert_eq!(t.update_at(1_000_000_000, 1000, 10_000), (1000, 9));
    // 2500 more bytes in the next 0.5 s, over the 1.5 s window from the
    // oldest sample: 3500 / 1.5 = 2333 B/s, 6500 left: 3 s (rounded up).
    assert_eq!(t.update_at(1_500_000_000, 3500, 10_000), (2333, 3));
    // Far later: the old samples leave the window, two stay.
    assert_eq!(t.update_at(10_000_000_000, 10_000, 10_000), (764, 0));
}

#[test]
fn chunk_helpers() {
    let c = chunk(0, 100, 199, 40, false);
    assert_eq!(chunk_byte_len(&c), 100);
    assert!(chunk_pending(&c));
    assert_eq!(chunk_resume_range(&c), Some((140, 199)));
    assert_eq!(chunk_resume_range(&chunk(0, 100, 199, 100, false)), None);
    let mut d = c.clone();
    record_chunk_progress(&mut d, 150);
    assert_eq!(d.downloaded, 50);
    assert!(!d.is_finished);
    record_chunk_progress(&mut d, 200);
    assert_eq!(d.downloaded, 100);
    assert!(d.is_finished);
    assert!(!chunk_pending(&d));
    let mut s = chunk(0, 0, 0, 0, false);
    record_stream_progress(&mut s, 500, 1000);
    assert!(!s.is_finished);
    record_stream_progress(&mut s, 1000, 1000);
    assert!(s.is_finished);
    assert_eq!(stream_resume_range(0, 1000), None);
    assert_eq!(stream_resume_range(300, 1000), Some((300, 999)));
    assert_eq!(stream_resume_range(300, 0), Some((300, 0)));
}

#[test]
fn thread_counts_and_chunk_plans() {
    assert_eq!(task_thread_count(None), 4);
    assert_eq!(task_thread_count(Some(0)), 1);
    assert_eq!(task_thread_count(Some(64)), 32);
    assert_eq!(task_thread_count(Some(8)), 8);
    let ranged = plan_task_chunks(true, 1000, 4);
    assert_eq!(ranged.len(), 4);
    assert_eq!(ranged[3].end, 999);
    let single = plan_task_chunks(false, 1000, 4);
    assert_eq!(single.len(), 1);
    assert_eq!((single[0].start, single[0].end), (0, 999));
}

#[test]
fn completeness_and_settling() {
    let done = vec![chunk(0, 0, 9, 10, true), chunk(1, 10, 19, 10, true)];
    let half = vec![chunk(0, 0, 9, 10, true), chunk(1, 10, 19, 3, false)];
    assert!(download_complete(true, 20, &done, 0));
    assert!(!download_complete(true, 20, &half, 13));
    assert!(download_complete(false, 20, &half, 20));
    assert!(!download_complete(false, 0, &half, 0));
    assert!(download_complete(false, 0, &half, 1));
    let none: Vec<String> = Vec::new();
    assert_eq!(settle_run(true, &vec!["x".to_string()], true, 20, &half, 0), RunOutcome::Stopped);
    assert_eq!(
        settle_run(false, &vec!["a".to_string(), "b".to_string()], true, 20, &done, 0),
        RunOutcome::Failed("a; b".to_string())
    );
    assert_eq!(settle_run(false, &none, true, 20, &done, 0), RunOutcome::Completed);
    assert_eq!(settle_run(false, &none, true, 20, &half, 0), RunOutcome::Incomplete);
}

#[test]
fn lifecycle_transitions() {
    assert_eq!(status_when_stopped(TaskStatus::Downloading), TaskStatus::Paused);
    assert_eq!(status_when_stopped(TaskStatus::Completed), TaskStatus::Completed);
    assert!(is_resumable(TaskStatus::Paused));
    assert!(is_resumable(TaskStatus::Failed));
    assert!(!is_resumable(TaskStatus::Completed));
    let mut s = TaskState { status: TaskStatus::Downloading, speed_bps: 10, eta_seconds: 5, error_message: None };
    pause_state(&mut s);
    assert_eq!(s.status, TaskStatus::Paused);
    assert_eq!((s.speed_bps, s.eta_seconds), (0, 0));
    resume_state(&mut s);
    assert_eq!(s.status, TaskStatus::Downloading);
    fail_state(&mut s, "boom");
    assert_eq!(s.status, TaskStatus::Failed);
    assert_eq!(s.error_message, Some("boom".to_string()));
    resume_state(&mut s);
    assert_eq!(s.error_message, None);
    stop_state(&mut s);
    assert_eq!(s.status, TaskStatus::Paused);
    cancel_state(&mut s);
    assert_eq!(s.status, TaskStatus::Cancelled);
    let mut p = TaskState { status: TaskStatus::Completed, speed_bps: 3, eta_seconds: 3, error_message: None };
    pause_state(&mut p);
    assert_eq!(p.status, TaskStatus::Completed);
    assert_eq!(p.speed_bps, 3);
    complete_state(&mut s);
    assert_eq!(s.status, TaskStatus::Completed);
}

#[test]
fn task_texts_and_errors() {
    assert_eq!(choose_task_text(Some("  a.zip "), "b.zip"), "a.zip");
    assert_eq!(choose_task_text(Some("   "), "b.zip"), "b.zip");
    assert_eq!(choose_task_text(None, "b.zip"), "b.zip");
    assert_eq!(completed_bytes(100, 40), 100);
    assert_eq!(completed_bytes(0, 40), 40);
    assert!(part_file_matches(10, 4, 10, 4));
    assert!(!part_file_matches(10, 3, 10, 4));
    assert_eq!(missing_task_error("t1"), "任务不存在: t1");
    assert_eq!(worker_error(Some(2), "download_cancelled"), None);
    assert_eq!(worker_error(Some(2), "timeout"), Some("分片 2 下载失败: timeout".to_string()));
    assert_eq!(worker_error(None, "reset"), Some("流式下载失败: reset".to_string()));
}

#[test]
fn tasks_are_listed_by_creation_time() {
    let out = sort_by_created(vec![(30, 0), (10, 1), (30, 2), (20, 3)]);
    assert_eq!(out, vec![(10, 1), (20, 3), (30, 0), (30, 2)]);
}

#[test]
fn downloaded_bytes_are_summed_over_chunks() {
    let chunks = vec![chunk(0, 0, 99, 40, false), chunk(1, 100, 199, 100, true), chunk(2, 200, 299, 0, false)];
    assert_eq!(sum_downloaded(&chunks), 140);
    assert_eq!(sum_downloaded(&vec![]), 0);
    let huge = vec![chunk(0, 0, 0, u64::MAX, false), chunk(1, 0, 0, 5, false)];
    assert_eq!(sum_downloaded(&huge), u64::MAX);
}

#[test]
fn speed_tracker_window_comes_from_new() {
    let mut t = SpeedTracker::new(std::time::Duration::from_millis(160));
    t.update_at(0, 0, 0);
    t.update_at(50_000_000, 1000, 0);
    t.update_at(120_000_000, 2000, 0);
    // The 0 ms sample falls out of the 160 ms window; the 50 ms one stays.
    assert_eq!(t.update_at(200_000_000, 3000, 0), (13333, 0));
}

#[test]
fn progress_file_is_saved_every_half_second() {
    assert!(!part_save_due(0));
    assert!(!part_save_due(499));
    assert!(part_save_due(500));
    assert!(part_save_due(10_000));
}

fn entry(id: &str, status: TaskStatus, speed: u64, err: Option<&str>) -> TaskEntry {
    TaskEntry {
        id: id.to_string(),
        state: TaskState { status, speed_bps: speed, eta_seconds: speed, error_message: err.map(|e| e.to_string()) },
    }
}

fn snapshot(list: &[TaskEntry]) -> Vec<(String, TaskStatus, u64, u64, Option<String>)> {
    list.iter()
        .map(|e| (e.id.clone(), e.state.status, e.state.speed_bps, e.state.eta_seconds, e.state.error_message.clone()))
        .collect()
}

#[test]
fn resume_on_the_task_list() {
    let mut list = vec![
        entry("a", TaskStatus::Failed, 0, Some("net")),
        entry("b", TaskStatus::Completed, 0, None),
        entry("c", TaskStatus::Downloading, 9, None),
    ];
    let before = snapshot(&list);
    assert_eq!(resume_task_in(&mut list, "zz"), Err("任务不存在: zz".to_string()));
    assert_eq!(snapshot(&list), before);
    assert_eq!(resume_task_in(&mut list, "b"), Ok(false));
    assert_eq!(snapshot(&list), before);
    assert_eq!(resume_task_in(&mut list, "a"), Ok(true));
    let after = snapshot(&list);
    assert_eq!(after[0], ("a".to_string(), TaskStatus::Downloading, 0, 0, None));
    assert_eq!(after[1..], before[1..]);
    assert_eq!(find_task(&list, "c"), Some(2));
}

#[test]
fn cancel_on_the_task_list() {
    let mut list = vec![
        entry("a", TaskStatus::Downloading, 7, None),
        entry("b", TaskStatus::Paused, 0, Some("x")),
        entry("c", TaskStatus::Pending, 0, None),
    ];
    let before = snapshot(&list);
    assert!(cancel_task_in(&mut list, "zz", true).is_none());
    assert_eq!(snapshot(&list), before);
    assert!(cancel_task_in(&mut list, "a", false).is_none());
    let after = snapshot(&list);
    assert_eq!(after[0], ("a".to_string(), TaskStatus::Cancelled, 0, 0, None));
    assert_eq!(after[1..], before[1..]);
    let removed = cancel_task_in(&mut list, "b", true).expect("removed");
    assert_eq!(removed.id, "b");
    assert_eq!(snapshot(&list), vec![after[0].clone(), after[2].clone()]);
}
