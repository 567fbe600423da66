//! Running processes: thread counts and parents as the process snapshot
//! reports them, working sets only from a real per-process read (never
//! derived from anything else), largest working set first.

use vstd::prelude::*;
use crate::quality::{MetricQuality, MetricValue, metric_absent, metric_present, classify_win32_error, win32_error_quality, owned};
use crate::sorting::{sort_by, total_preorder, lemma_sort_by_permutes, lemma_sort_by_sorted, insert_pos, lemma_insert_pos};
use crate::text::{decimal, push_decimal};

verus! {

/// At most this many processes are listed.
pub const TOP_PROCESSES: usize = 25;

/// One process.
pub struct ProcessSummaryItem {
    pub pid: u32,
    pub ppid: u32,
    pub name: String,
    pub threads: u32,
    pub memory_working_set_bytes: MetricValue<u64>,
}

/// All processes counted, the largest listed.
pub struct ProcessSnapshot {
    pub total_processes: u32,
    pub total_threads: u32,
    pub top_memory_processes: Vec<ProcessSummaryItem>,
}

/// One entry of the process snapshot, with the result of reading its
/// working set: the bytes, or the Win32 error code of the failed read.
pub struct ProcessEntryReading {
    pub pid: u32,
    pub ppid: u32,
    pub threads: u32,
    pub exe_file: Vec<u16>,
    pub working_set: Result<u64, u32>,
}

/// Source name of the working-set reads.
pub open spec fn memory_source() -> Seq<char> {
    "Win32_GetProcessMemoryInfo"@
}

/// The reason given for a failed working-set read.
pub open spec fn memory_error_reason(code: u32) -> Seq<char> {
    "读取进程工作集失败，Win32 错误码 "@ + decimal(code as nat)
}

/// The quality a failed working-set read is reported with.
pub open spec fn memory_error_quality(code: u32) -> MetricQuality {
    match win32_error_quality(code) {
        MetricQuality::PermissionDenied => MetricQuality::PermissionDenied,
        MetricQuality::Unavailable => MetricQuality::Unavailable,
        _ => MetricQuality::ReadError,
    }
}

/// A failed working-set read: no value, never an estimate.
pub fn process_memory_error(error_code: u32, timestamp: u64) -> (m: MetricValue<u64>)
    ensures
        metric_absent(m, "Bytes"@, memory_error_quality(error_code), memory_source(),
            memory_error_reason(error_code), timestamp),
{
    let mut reason = owned("读取进程工作集失败，Win32 错误码 ");
    push_decimal(&mut reason, error_code as u64);
    match classify_win32_error(error_code) {
        MetricQuality::PermissionDenied => MetricValue::permission_denied_at("Bytes", "Win32_GetProcessMemoryInfo", reason.as_str(), timestamp),
        MetricQuality::Unavailable => MetricValue::unavailable_at("Bytes", "Win32_GetProcessMemoryInfo", reason.as_str(), timestamp),
        _ => MetricValue::read_error_at("Bytes", "Win32_GetProcessMemoryInfo", reason.as_str(), timestamp),
    }
}

/// The working-set metric of a read.
pub open spec fn working_set_ok(m: MetricValue<u64>, r: Result<u64, u32>, ts: u64) -> bool {
    match r {
        Ok(v) => metric_present(m, v, "Bytes"@, MetricQuality::Good, memory_source(), ts),
        Err(code) => metric_absent(m, "Bytes"@, memory_error_quality(code), memory_source(),
            memory_error_reason(code), ts),
    }
}

/// Turns a working-set read into its metric.
pub fn working_set_metric(r: &Result<u64, u32>, timestamp: u64) -> (m: MetricValue<u64>)
    ensures
        working_set_ok(m, *r, timestamp),
{
    match r {
        Ok(v) => MetricValue::good_at(*v, "Bytes", "Win32_GetProcessMemoryInfo", timestamp),
        Err(code) => process_memory_error(*code, timestamp),
    }
}

/// A process whose handle could not be opened: its memory is unknown, not
/// derived from its thread count.
pub fn process_item_without_handle(pid: u32, threads: u32, name: &str, timestamp: u64) -> (p: ProcessSummaryItem)
    ensures
        p.pid == pid,
        p.ppid == 0,
        p.name@ == name@,
        p.threads == threads,
        metric_absent(p.memory_working_set_bytes, "Bytes"@, MetricQuality::PermissionDenied, memory_source(),
            "OpenProcess(PROCESS_QUERY_LIMITED_INFORMATION) 被拒绝访问"@, timestamp),
{
    ProcessSummaryItem {
        pid,
        ppid: 0,
        name: owned(name),
        threads,
        memory_working_set_bytes: MetricValue::permission_denied_at("Bytes", "Win32_GetProcessMemoryInfo",
            "OpenProcess(PROCESS_QUERY_LIMITED_INFORMATION) 被拒绝访问", timestamp),
    }
}

/// `p` lists reading `r` taken at `ts`.
pub open spec fn item_ok(p: ProcessSummaryItem, r: ProcessEntryReading, ts: u64) -> bool {
    &&& p.pid == r.pid
    &&& p.ppid == r.ppid
    &&& p.threads == r.threads
    &&& p.name@ == crate::sysinfo::network::wide_field_text(r.exe_file@)
    &&& working_set_ok(p.memory_working_set_bytes, r.working_set, ts)
}

/// Lists one process.
pub fn describe_process(r: &ProcessEntryReading, timestamp: u64) -> (p: ProcessSummaryItem)
    ensures
        item_ok(p, *r, timestamp),
{
    ProcessSummaryItem {
        pid: r.pid,
        ppid: r.ppid,
        name: crate::sysinfo::network::wide_field(r.exe_file.as_slice()),
        threads: r.threads,
        memory_working_set_bytes: working_set_metric(&r.working_set, timestamp),
    }
}

/// Listing order: a read working set before a failed one, larger before
/// smaller, then by process id.
pub open spec fn process_le(a: ProcessEntryReading, b: ProcessEntryReading) -> bool {
    match (a.working_set, b.working_set) {
        (Ok(x), Ok(y)) => x > y || (x == y && a.pid <= b.pid),
        (Ok(_), Err(_)) => true,
        (Err(_), Ok(_)) => false,
        (Err(_), Err(_)) => a.pid <= b.pid,
    }
}

/// The listing order is total and transitive.
pub proof fn lemma_process_order()
    ensures
        total_preorder(process_le_fn()),
{
}

fn process_before(a: &ProcessEntryReading, b: &ProcessEntryReading) -> (r: bool)
    ensures
        r == process_le(*a, *b),
{
    match (&a.working_set, &b.working_set) {
        (Ok(x), Ok(y)) => *x > *y || (*x == *y && a.pid <= b.pid),
        (Ok(_), Err(_)) => true,
        (Err(_), Ok(_)) => false,
        (Err(_), Err(_)) => a.pid <= b.pid,
    }
}

/// Thread counts added up.
pub open spec fn thread_sum(s: Seq<ProcessEntryReading>) -> int
    decreases s.len(),
{
    if s.len() == 0 { 0 } else { thread_sum(s.drop_last()) + s.last().threads }
}

proof fn lemma_thread_sum_nonneg(s: Seq<ProcessEntryReading>)
    ensures
        thread_sum(s) >= 0,
    decreases s.len(),
{
    if s.len() > 0 {
        lemma_thread_sum_nonneg(s.drop_last());
    }
}

/// `v` capped at `u32::MAX`.
pub open spec fn cap_u32(v: int) -> u32 {
    if v > u32::MAX { u32::MAX } else { v as u32 }
}

/// The listing order as a relation.
pub open spec fn process_le_fn() -> spec_fn(ProcessEntryReading, ProcessEntryReading) -> bool {
    |a: ProcessEntryReading, b: ProcessEntryReading| process_le(a, b)
}

/// The processes of `s` in listing order.
pub open spec fn process_order(s: Seq<ProcessEntryReading>) -> Seq<ProcessEntryReading> {
    sort_by(s, process_le_fn())
}

/// Sorts the snapshot entries into listing order.
pub fn sort_processes(entries: Vec<ProcessEntryReading>) -> (out: Vec<ProcessEntryReading>)
    ensures
        out@ == process_order(entries@),
{
    let ghost orig = entries@;
    let mut rest = entries;
    let mut out: Vec<ProcessEntryReading> = Vec::new();
    let n = rest.len();
    let mut k: usize = 0;
    while k < n
        invariant
            k <= n == orig.len(),
            rest@ == orig.skip(k as int),
            out@ == sort_by(orig.take(k as int), process_le_fn()),
        decreases n - k,
    {
        let x = rest.remove(0);
        assert(x == orig[k as int]);
        assert(rest@ =~= orig.skip(k + 1));
        let ghost s = out@;
        let mut j: usize = 0;
        let mut found = false;
        while j < out.len() && !found
            invariant
                j <= out@.len(),
                s == out@,
                insert_pos(s, x, process_le_fn(), 0) == insert_pos(s, x, process_le_fn(), j as int),
                found ==> j < out@.len() && !process_le(s[j as int], x),
            decreases out@.len() - j + (if found { 0int } else { 1int }),
        {
            if process_before(&out[j], &x) {
                j += 1;
            } else {
                found = true;
            }
        }
        assert(insert_pos(s, x, process_le_fn(), j as int) == j);
        out.insert(j, x);
        assert(orig.take(k + 1).drop_last() =~= orig.take(k as int));
        assert(orig.take(k + 1).last() == x);
        k += 1;
    }
    assert(orig.take(n as int) =~= orig);
    out
}

/// The snapshot of the process list `entries` (`None` when no snapshot
/// could be taken): every process and thread counted (capped at
/// `u32::MAX`), the first `TOP_PROCESSES` in listing order described.
pub fn collect_processes_snapshot(entries: Option<Vec<ProcessEntryReading>>, timestamp: u64) -> (s: ProcessSnapshot)
    ensures
        match entries {
            None => s.total_processes == 0 && s.total_threads == 0 && s.top_memory_processes@.len() == 0,
            Some(e) => {
                let sorted = process_order(e@);
                &&& s.total_processes == cap_u32(e@.len() as int)
                &&& s.total_threads == cap_u32(thread_sum(e@))
                &&& s.top_memory_processes@.len() == (if e@.len() > TOP_PROCESSES { TOP_PROCESSES as int } else { e@.len() as int })
                &&& forall|i: int| 0 <= i < s.top_memory_processes@.len()
                    ==> item_ok(#[trigger] s.top_memory_processes@[i], sorted[i], timestamp)
            },
        },
{
    let entries = match entries {
        None => {
            return ProcessSnapshot { total_processes: 0, total_threads: 0, top_memory_processes: Vec::new() };
        },
        Some(e) => e,
    };
    let ghost orig = entries@;
    let n = entries.len();
    let mut procs: u32 = 0;
    let mut threads: u32 = 0;
    for k in 0..n
        invariant
            n == orig.len(),
            entries@ == orig,
            procs == cap_u32(k as int),
            threads == cap_u32(thread_sum(orig.take(k as int))),
    {
        assert(orig.take(k + 1).drop_last() =~= orig.take(k as int));
        assert(orig.take(k + 1).last() == orig[k as int]);
        proof { lemma_thread_sum_nonneg(orig.take(k as int)); }
        procs = match procs.checked_add(1) { Some(v) => v, None => 4294967295 };
        threads = match threads.checked_add(entries[k].threads) { Some(v) => v, None => 4294967295 };
    }
    assert(orig.take(n as int) =~= orig);
    let sorted = sort_processes(entries);
    proof {
        lemma_process_order();
        lemma_sort_by_permutes(orig, process_le_fn());
    }
    let shown = if n > TOP_PROCESSES { TOP_PROCESSES } else { n };
    let mut top: Vec<ProcessSummaryItem> = Vec::new();
    for i in 0..shown
        invariant
            shown <= n == sorted@.len(),
            sorted@ == process_order(orig),
            top@.len() == i,
            forall|t: int| 0 <= t < i ==> item_ok(#[trigger] top@[t], sorted@[t], timestamp),
    {
        top.push(describe_process(&sorted[i], timestamp));
    }
    ProcessSnapshot { total_processes: procs, total_threads: threads, top_memory_processes: top }
}

} // verus!
