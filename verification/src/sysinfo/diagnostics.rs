//! Crash dumps and hardware events: only the metadata of the files in
//! `%SystemRoot%\Minidump` is read, newest first; without an event-log
//! provider the event figures stay explicitly unsupported.

use vstd::prelude::*;
use crate::quality::{CollectionStatus, MetricQuality, MetricValue, metric_absent, metric_present, owned};
use crate::text::{decimal, push_decimal, str_chars};

verus! {

/// At most this many dump entries are listed.
pub const MAX_DUMP_ENTRIES: usize = 100;

/// One crash dump file.
pub struct CrashDumpEntry {
    pub file_name: String,
    pub file_size_bytes: u64,
    /// Modification time, Unix milliseconds in decimal.
    pub created_at: String,
}

/// One WHEA / hardware event.
pub struct HardwareEventSummary {
    pub provider: String,
    pub event_id: u32,
    pub severity: String,
    pub description: String,
}

/// Health and crash diagnostics.
pub struct DiagnosticsSnapshot {
    pub minidump_count: MetricValue<u32>,
    pub recent_crash_dumps: Vec<CrashDumpEntry>,
    pub minidump_truncated: bool,
    pub unexpected_shutdowns_count: MetricValue<u32>,
    pub whea_hardware_events: Vec<HardwareEventSummary>,
    pub whea_hardware_events_status: CollectionStatus,
    pub overall_health_assessment: MetricValue<String>,
}

/// A dump entry built from file metadata: the time is the file's own.
pub fn dump_entry_from_metadata(file_name: &str, size: u64, modified_at_ms: u64) -> (e: CrashDumpEntry)
    ensures
        e.file_name@ == file_name@,
        e.file_size_bytes == size,
        e.created_at@ == decimal(modified_at_ms as nat),
{
    let mut created_at = String::new();
    push_decimal(&mut created_at, modified_at_ms);
    assert(created_at@ =~= Seq::<char>::empty() + decimal(modified_at_ms as nat));
    CrashDumpEntry { file_name: owned(file_name), file_size_bytes: size, created_at }
}

// ---------------------------------------------------------------------------
// Ordering: newest first, then by file name.

/// Lexicographic order of two names by code point, from position `i` on
/// (the order of `str::cmp` on their UTF-8 encodings).
pub open spec fn name_le_from(a: Seq<char>, b: Seq<char>, i: int) -> bool
    decreases a.len() - i,
{
    if i < 0 || i >= a.len() {
        true
    } else if i >= b.len() {
        false
    } else if (a[i] as u32) != (b[i] as u32) {
        (a[i] as u32) < (b[i] as u32)
    } else {
        name_le_from(a, b, i + 1)
    }
}

/// `a` sorts before or equal to `b`.
pub open spec fn name_le(a: Seq<char>, b: Seq<char>) -> bool {
    name_le_from(a, b, 0)
}

proof fn lemma_name_total_from(a: Seq<char>, b: Seq<char>, i: int)
    requires
        0 <= i,
    ensures
        name_le_from(a, b, i) || name_le_from(b, a, i),
    decreases a.len() - i,
{
    if i < a.len() && i < b.len() && (a[i] as u32) == (b[i] as u32) {
        lemma_name_total_from(a, b, i + 1);
    }
}

proof fn lemma_name_trans_from(a: Seq<char>, b: Seq<char>, c: Seq<char>, i: int)
    requires
        0 <= i,
        name_le_from(a, b, i),
        name_le_from(b, c, i),
    ensures
        name_le_from(a, c, i),
    decreases a.len() - i,
{
    if i < a.len() && i < b.len() && i < c.len() && (a[i] as u32) == (b[i] as u32) && (b[i] as u32) == (c[i] as u32) {
        lemma_name_trans_from(a, b, c, i + 1);
    }
}

/// What the ordering of dumps looks at: time, name and size.
pub type DumpKey = (u64, Seq<char>, u64);

/// `a` comes before or together with `b`: newer first, then by name.
pub open spec fn dump_order(a: DumpKey, b: DumpKey) -> bool {
    a.0 > b.0 || (a.0 == b.0 && name_le(a.1, b.1))
}

/// Any two dumps are ordered one way or the other.
pub proof fn lemma_dump_order_total(a: DumpKey, b: DumpKey)
    ensures
        dump_order(a, b) || dump_order(b, a),
{
    lemma_name_total_from(a.1, b.1, 0);
}

/// The order of dumps is transitive.
pub proof fn lemma_dump_order_trans(a: DumpKey, b: DumpKey, c: DumpKey)
    requires
        dump_order(a, b),
        dump_order(b, c),
    ensures
        dump_order(a, c),
{
    if a.0 == b.0 && b.0 == c.0 {
        lemma_name_trans_from(a.1, b.1, c.1, 0);
    }
}

/// Every pair of a sequence is in order.
pub open spec fn dumps_sorted(s: Seq<DumpKey>) -> bool {
    forall|i: int, j: int| 0 <= i < j < s.len() ==> dump_order(#[trigger] s[i], #[trigger] s[j])
}

/// First position at or after `i` whose element does not come before or
/// together with `x`.
pub open spec fn insert_pos_from(s: Seq<DumpKey>, x: DumpKey, i: int) -> int
    decreases s.len() - i,
{
    if i < 0 || i >= s.len() {
        s.len() as int
    } else if dump_order(s[i], x) {
        insert_pos_from(s, x, i + 1)
    } else {
        i
    }
}

/// Inserts `x` after every element that comes before or together with it.
pub open spec fn insert_sorted(s: Seq<DumpKey>, x: DumpKey) -> Seq<DumpKey> {
    s.insert(insert_pos_from(s, x, 0), x)
}

/// The dumps sorted newest first, then by name; among dumps equal in both,
/// the earlier one stays first.
pub open spec fn sort_dumps(s: Seq<DumpKey>) -> Seq<DumpKey>
    decreases s.len(),
{
    if s.len() == 0 {
        s
    } else {
        insert_sorted(sort_dumps(s.drop_last()), s.last())
    }
}

proof fn lemma_insert_pos(s: Seq<DumpKey>, x: DumpKey, i: int)
    requires
        0 <= i <= s.len(),
    ensures
        i <= insert_pos_from(s, x, i) <= s.len(),
        forall|j: int| i <= j < insert_pos_from(s, x, i) ==> dump_order(#[trigger] s[j], x),
        insert_pos_from(s, x, i) < s.len() ==> !dump_order(s[insert_pos_from(s, x, i)], x),
    decreases s.len() - i,
{
    if i < s.len() && dump_order(s[i], x) {
        lemma_insert_pos(s, x, i + 1);
    }
}

proof fn lemma_insert_sorted(s: Seq<DumpKey>, x: DumpKey)
    requires
        dumps_sorted(s),
    ensures
        dumps_sorted(insert_sorted(s, x)),
        insert_sorted(s, x).to_multiset() == s.to_multiset().insert(x),
{
    broadcast use vstd::seq_lib::group_to_multiset_ensures;
    let p = insert_pos_from(s, x, 0);
    lemma_insert_pos(s, x, 0);
    let t = s.insert(p, x);
    assert forall|j: int| p <= j < s.len() implies dump_order(x, #[trigger] s[j]) by {
        lemma_dump_order_total(s[p], x);
        if j > p {
            lemma_dump_order_trans(x, s[p], s[j]);
        }
    }
    assert forall|i: int, j: int| 0 <= i < j < t.len() implies dump_order(#[trigger] t[i], #[trigger] t[j]) by {
        if i < p && j < p {
        } else if i < p && j == p {
        } else if i < p && j > p {
            lemma_dump_order_trans(s[i], x, s[j - 1]);
        } else if i == p {
        } else {
        }
    }
}

/// Sorting puts every pair of dumps in order.
pub proof fn lemma_sort_dumps_sorted(s: Seq<DumpKey>)
    ensures
        dumps_sorted(sort_dumps(s)),
    decreases s.len(),
{
    if s.len() > 0 {
        lemma_sort_dumps_sorted(s.drop_last());
        lemma_insert_sorted(sort_dumps(s.drop_last()), s.last());
    }
}

/// Sorting neither drops nor adds a dump.
pub proof fn lemma_sort_dumps_permutes(s: Seq<DumpKey>)
    ensures
        sort_dumps(s).to_multiset() == s.to_multiset(),
        sort_dumps(s).len() == s.len(),
    decreases s.len(),
{
    broadcast use vstd::seq_lib::group_to_multiset_ensures;
    if s.len() > 0 {
        lemma_sort_dumps_permutes(s.drop_last());
        lemma_sort_dumps_sorted(s.drop_last());
        lemma_insert_sorted(sort_dumps(s.drop_last()), s.last());
        lemma_insert_pos(sort_dumps(s.drop_last()), s.last(), 0);
        assert(s.drop_last().push(s.last()) =~= s);
    }
}

// ---------------------------------------------------------------------------
// Scanning the Minidump directory.

/// Source name of the dump metadata.
pub open spec fn minidump_source() -> Seq<char> {
    "Windows_Minidump_Metadata"@
}

/// Source name of the event log.
pub open spec fn event_log_source() -> Seq<char> {
    "Windows_EventLog"@
}

/// Why the Minidump directory could not be listed.
#[derive(Clone, Copy, Debug, PartialEq, Eq, Structural)]
pub enum MinidumpErrorKind {
    NotFound,
    PermissionDenied,
    Other,
}

/// One entry of the Minidump directory.
pub enum DirEntryReading {
    /// The entry or its metadata could not be read.
    Unreadable,
    /// Not a regular file.
    NotFile,
    /// A regular file: its name, size, and modification time in Unix
    /// milliseconds where that could be read.
    File { name: String, size: u64, modified_at_ms: Option<u64> },
}

/// What was found where the Minidump directory should be.
pub enum MinidumpListing {
    /// `SystemRoot` is unset or blank.
    NoSystemRoot,
    /// The directory could not be listed.
    DirError(MinidumpErrorKind),
    /// The directory's entries, in listing order.
    Entries(Vec<DirEntryReading>),
}

/// Whether a `SystemRoot` value can locate the Minidump directory: it is
/// not blank.
pub fn system_root_usable(root: &str) -> (ok: bool)
    ensures
        ok == (crate::strs::trim(root@, crate::strs::CharClass::Whitespace).len() > 0),
{
    let cs = str_chars(root);
    let t = crate::strs::trim_chars(cs.as_slice(), crate::strs::CharClass::Whitespace);
    t.len() > 0
}

/// The metric for a directory that could not be listed.
pub open spec fn minidump_error_ok<T>(m: MetricValue<T>, kind: MinidumpErrorKind, ts: u64) -> bool {
    match kind {
        MinidumpErrorKind::NotFound => metric_absent(m, ""@, MetricQuality::Unavailable, minidump_source(),
            "SystemRoot\\Minidump 不存在"@, ts),
        MinidumpErrorKind::PermissionDenied => metric_absent(m, ""@, MetricQuality::PermissionDenied,
            minidump_source(), "读取 SystemRoot Minidump 目录权限不足"@, ts),
        MinidumpErrorKind::Other => metric_absent(m, ""@, MetricQuality::ReadError, minidump_source(),
            "读取 SystemRoot Minidump 目录失败"@, ts),
    }
}

/// Maps a directory error to its metric.
pub fn minidump_error_metric<T>(kind: MinidumpErrorKind, timestamp: u64) -> (m: MetricValue<T>)
    ensures
        minidump_error_ok(m, kind, timestamp),
{
    match kind {
        MinidumpErrorKind::NotFound => MetricValue::unavailable_at("", "Windows_Minidump_Metadata",
            "SystemRoot\\Minidump 不存在", timestamp),
        MinidumpErrorKind::PermissionDenied => MetricValue::permission_denied_at("", "Windows_Minidump_Metadata",
            "读取 SystemRoot Minidump 目录权限不足", timestamp),
        MinidumpErrorKind::Other => MetricValue::read_error_at("", "Windows_Minidump_Metadata",
            "读取 SystemRoot Minidump 目录失败", timestamp),
    }
}

/// An entry whose metadata could not be read in full.
pub open spec fn entry_fails(r: DirEntryReading) -> bool {
    match r {
        DirEntryReading::Unreadable => true,
        DirEntryReading::NotFile => false,
        DirEntryReading::File { modified_at_ms, .. } => modified_at_ms is None,
    }
}

/// Some entry of the listing could not be read in full.
pub open spec fn scan_fails(l: Seq<DirEntryReading>) -> bool {
    exists|i: int| 0 <= i < l.len() && entry_fails(#[trigger] l[i])
}

/// The dump files of a listing, in listing order.
pub open spec fn dump_keys(l: Seq<DirEntryReading>) -> Seq<DumpKey>
    decreases l.len(),
{
    if l.len() == 0 {
        Seq::empty()
    } else {
        let rest = dump_keys(l.drop_last());
        match l.last() {
            DirEntryReading::File { name, size, modified_at_ms } => match modified_at_ms {
                Some(ms) => rest.push((ms, name@, size)),
                None => rest,
            },
            _ => rest,
        }
    }
}

/// The key of a scanned entry.
pub open spec fn entry_key(e: (u64, CrashDumpEntry)) -> DumpKey {
    (e.0, e.1.file_name@, e.1.file_size_bytes)
}

/// The keys of scanned entries.
pub open spec fn entry_keys(v: Seq<(u64, CrashDumpEntry)>) -> Seq<DumpKey> {
    v.map_values(|e: (u64, CrashDumpEntry)| entry_key(e))
}

/// Each scanned entry shows its own modification time.
pub open spec fn entries_dated(v: Seq<(u64, CrashDumpEntry)>) -> bool {
    forall|i: int| 0 <= i < v.len() ==> (#[trigger] v[i]).1.created_at@ == decimal(v[i].0 as nat)
}

/// Compares two names by code point.
pub fn name_le_exec(a: &str, b: &str) -> (r: bool)
    ensures
        r == name_le(a@, b@),
{
    let x = str_chars(a);
    let y = str_chars(b);
    let mut i: usize = 0;
    while i < x.len() && i < y.len() && (x[i] as u32) == (y[i] as u32)
        invariant
            i <= x@.len(),
            i <= y@.len(),
            x@ == a@,
            y@ == b@,
            name_le_from(x@, y@, 0) == name_le_from(x@, y@, i as int),
        decreases x@.len() - i,
    {
        i += 1;
    }
    if i == x.len() {
        true
    } else if i == y.len() {
        false
    } else {
        (x[i] as u32) < (y[i] as u32)
    }
}

fn dump_before(e: &(u64, CrashDumpEntry), ms: u64, name: &str) -> (r: bool)
    ensures
        r == dump_order(entry_key(*e), (ms, name@, 0)),
{
    e.0 > ms || (e.0 == ms && name_le_exec(e.1.file_name.as_str(), name))
}

/// Lists the dump files of a directory newest first (then by name); an
/// entry whose metadata could not be read fails the whole scan. The flag
/// says whether more than `MAX_DUMP_ENTRIES` files were found.
pub fn scan_minidumps(listing: &Vec<DirEntryReading>, timestamp: u64)
    -> (r: Result<(Vec<(u64, CrashDumpEntry)>, bool), MetricValue<u32>>)
    ensures
        match r {
            Err(m) => scan_fails(listing@) && metric_absent(m, ""@, MetricQuality::ReadError, minidump_source(),
                "读取一个或多个 Minidump metadata 失败"@, timestamp),
            Ok((v, truncated)) => {
                &&& !scan_fails(listing@)
                &&& entry_keys(v@) == sort_dumps(dump_keys(listing@))
                &&& entries_dated(v@)
                &&& truncated == (v@.len() > MAX_DUMP_ENTRIES)
            },
        },
{
    let mut out: Vec<(u64, CrashDumpEntry)> = Vec::new();
    let mut failed = false;
    let n = listing.len();
    for k in 0..n
        invariant
            n == listing@.len(),
            failed <==> exists|i: int| 0 <= i < k && entry_fails(#[trigger] listing@[i]),
            entry_keys(out@) == sort_dumps(dump_keys(listing@.take(k as int))),
            entries_dated(out@),
    {
        let ghost before = listing@.take(k as int);
        assert(listing@.take(k + 1).drop_last() =~= before);
        match &listing[k] {
            DirEntryReading::Unreadable => { failed = true; },
            DirEntryReading::NotFile => {},
            DirEntryReading::File { name, size, modified_at_ms } => {
                match modified_at_ms {
                    None => { failed = true; },
                    Some(ms) => {
                        let ms = *ms;
                        let ghost keys = entry_keys(out@);
                        let ghost x: DumpKey = (ms, name@, *size);
                        let mut j: usize = 0;
                        let mut found = false;
                        while j < out.len() && !found
                            invariant
                                j <= out@.len(),
                                keys == entry_keys(out@),
                                keys.len() == out@.len(),
                                x == (ms, name@, *size),
                                insert_pos_from(keys, x, 0) == insert_pos_from(keys, x, j as int),
                                found ==> j < out@.len() && !dump_order(keys[j as int], x),
                            decreases out@.len() - j + (if found { 0int } else { 1int }),
                        {
                            assert(keys[j as int] == entry_key(out@[j as int]));
                            let b = dump_before(&out[j], ms, name.as_str());
                            if b {
                                j += 1;
                            } else {
                                found = true;
                            }
                        }
                        assert(insert_pos_from(keys, x, j as int) == j);
                        assert(listing@.take(k + 1).last() == listing@[k as int]);
                        assert(dump_keys(listing@.take(k + 1)) == dump_keys(before).push(x));
                        assert(dump_keys(before).push(x).drop_last() =~= dump_keys(before));
                        let entry = dump_entry_from_metadata(name.as_str(), *size, ms);
                        let ghost old_out = out@;
                        out.insert(j, (ms, entry));
                        assert(entry_keys(out@) =~= keys.insert(j as int, x));
                        assert forall|i: int| 0 <= i < out@.len() implies (#[trigger] out@[i]).1.created_at@ == decimal(out@[i].0 as nat) by {
                            if i < j {
                                assert(out@[i] == old_out[i]);
                            } else if i > j {
                                assert(out@[i] == old_out[i - 1]);
                            }
                        }
                    },
                }
            },
        }
        proof {
            assert(listing@.take(k + 1).last() == listing@[k as int]);
        }
        assert(failed <==> exists|i: int| 0 <= i < k + 1 && entry_fails(#[trigger] listing@[i]));
    }
    assert(listing@.take(n as int) =~= listing@);
    if failed {
        return Err(MetricValue::read_error_at("", "Windows_Minidump_Metadata",
            "读取一个或多个 Minidump metadata 失败", timestamp));
    }
    let truncated = out.len() > MAX_DUMP_ENTRIES;
    Ok((out, truncated))
}

// ---------------------------------------------------------------------------
// The snapshot.

/// Unexpected shutdowns cannot be counted without an event-log provider.
pub fn unsupported_event_count(timestamp: u64) -> (m: MetricValue<u32>)
    ensures
        metric_absent(m, ""@, MetricQuality::Unsupported, event_log_source(),
            "未接入 Event Log Provider，无法统计异常关机"@, timestamp),
{
    MetricValue::unsupported_at("", "Windows_EventLog", "未接入 Event Log Provider，无法统计异常关机", timestamp)
}

/// The status of the WHEA event list without an event-log provider.
pub open spec fn event_status_ok(s: CollectionStatus, ts: u64) -> bool {
    &&& s.quality == MetricQuality::Unsupported
    &&& s.source@ == event_log_source()
    &&& s.timestamp == ts
    &&& s.item_count == Some(0u32)
    &&& !s.truncated
    &&& s.error matches Some(e) && e@ == "未接入 Event Log Provider，WHEA 事件集合不可用"@
}

/// The WHEA event list is unsupported, not empty-and-healthy.
pub fn unsupported_event_status(timestamp: u64) -> (s: CollectionStatus)
    ensures
        event_status_ok(s, timestamp),
{
    crate::quality::collection_status_for("Windows_EventLog", MetricQuality::Unsupported, 0,
        false, Some("未接入 Event Log Provider，WHEA 事件集合不可用"), timestamp)
}

/// The overall health cannot be assessed without event-log data.
pub fn unsupported_health(timestamp: u64) -> (m: MetricValue<String>)
    ensures
        metric_absent(m, ""@, MetricQuality::Unsupported, event_log_source(),
            "未接入 Event Log/WHEA Provider，无法评估整体系统健康"@, timestamp),
{
    MetricValue::unsupported_at("", "Windows_EventLog", "未接入 Event Log/WHEA Provider，无法评估整体系统健康", timestamp)
}

/// The listed dumps are the first ones of `sorted`, each with its own time.
pub open spec fn recent_ok(recent: Seq<CrashDumpEntry>, sorted: Seq<DumpKey>) -> bool {
    &&& recent.len() == (if sorted.len() > MAX_DUMP_ENTRIES { MAX_DUMP_ENTRIES as int } else { sorted.len() as int })
    &&& forall|i: int| 0 <= i < recent.len() ==> {
        &&& (#[trigger] recent[i]).file_name@ == sorted[i].1
        &&& recent[i].file_size_bytes == sorted[i].2
        &&& recent[i].created_at@ == decimal(sorted[i].0 as nat)
    }
}

/// The dump figures of a snapshot taken from `listing` at `ts`.
pub open spec fn dumps_ok(d: DiagnosticsSnapshot, listing: MinidumpListing, ts: u64) -> bool {
    match listing {
        MinidumpListing::NoSystemRoot => {
            &&& metric_absent(d.minidump_count, ""@, MetricQuality::Unavailable, minidump_source(),
                "SystemRoot 环境变量不可用，无法定位 Minidump"@, ts)
            &&& d.recent_crash_dumps@.len() == 0
            &&& !d.minidump_truncated
        },
        MinidumpListing::DirError(kind) => {
            &&& minidump_error_ok(d.minidump_count, kind, ts)
            &&& d.recent_crash_dumps@.len() == 0
            &&& !d.minidump_truncated
        },
        MinidumpListing::Entries(l) => if scan_fails(l@) {
            &&& metric_absent(d.minidump_count, ""@, MetricQuality::ReadError, minidump_source(),
                "读取一个或多个 Minidump metadata 失败"@, ts)
            &&& d.recent_crash_dumps@.len() == 0
            &&& !d.minidump_truncated
        } else {
            let sorted = sort_dumps(dump_keys(l@));
            &&& metric_present(d.minidump_count,
                (if sorted.len() > u32::MAX { u32::MAX as int } else { sorted.len() as int }) as u32,
                ""@, MetricQuality::Good, minidump_source(), ts)
            &&& recent_ok(d.recent_crash_dumps@, sorted)
            &&& d.minidump_truncated == (sorted.len() > MAX_DUMP_ENTRIES)
        },
    }
}

/// The diagnostics snapshot: the Minidump metadata of `listing`, newest
/// first and at most `MAX_DUMP_ENTRIES` of them, and the event figures as
/// unsupported (an empty event list does not mean that no event occurred).
pub fn collect_diagnostics_snapshot(listing: &MinidumpListing, timestamp: u64) -> (d: DiagnosticsSnapshot)
    ensures
        dumps_ok(d, *listing, timestamp),
        metric_absent(d.unexpected_shutdowns_count, ""@, MetricQuality::Unsupported, event_log_source(),
            "未接入 Event Log Provider，无法统计异常关机"@, timestamp),
        d.whea_hardware_events@.len() == 0,
        event_status_ok(d.whea_hardware_events_status, timestamp),
        metric_absent(d.overall_health_assessment, ""@, MetricQuality::Unsupported, event_log_source(),
            "未接入 Event Log/WHEA Provider，无法评估整体系统健康"@, timestamp),
{
    let mut recent: Vec<CrashDumpEntry> = Vec::new();
    let mut truncated = false;
    let count: MetricValue<u32> = match listing {
        MinidumpListing::NoSystemRoot => MetricValue::unavailable_at("", "Windows_Minidump_Metadata",
            "SystemRoot 环境变量不可用，无法定位 Minidump", timestamp),
        MinidumpListing::DirError(kind) => minidump_error_metric(*kind, timestamp),
        MinidumpListing::Entries(l) => match scan_minidumps(l, timestamp) {
            Err(m) => m,
            Ok((entries, cut)) => {
                let ghost sorted = sort_dumps(dump_keys(l@));
                proof { lemma_sort_dumps_permutes(dump_keys(l@)); }
                assert(entry_keys(entries@).len() == entries@.len());
                let n = entries.len();
                let shown = if n > MAX_DUMP_ENTRIES { MAX_DUMP_ENTRIES } else { n };
                for i in 0..shown
                    invariant
                        n == entries@.len(),
                        shown <= n,
                        entry_keys(entries@) == sorted,
                        entries_dated(entries@),
                        recent@.len() == i,
                        forall|t: int| 0 <= t < i ==> {
                            &&& (#[trigger] recent@[t]).file_name@ == sorted[t].1
                            &&& recent@[t].file_size_bytes == sorted[t].2
                            &&& recent@[t].created_at@ == decimal(sorted[t].0 as nat)
                        },
                {
                    let e = &entries[i].1;
                    assert(sorted[i as int] == entry_key(entries@[i as int]));
                    assert(entries@[i as int].1.created_at@ == decimal(entries@[i as int].0 as nat));
                    recent.push(CrashDumpEntry {
                        file_name: owned(e.file_name.as_str()),
                        file_size_bytes: e.file_size_bytes,
                        created_at: owned(e.created_at.as_str()),
                    });
                }
                truncated = cut;
                let c: u32 = if n > 4294967295 { 4294967295 } else { n as u32 };
                MetricValue::good_at(c, "", "Windows_Minidump_Metadata", timestamp)
            },
        },
    };
    DiagnosticsSnapshot {
        minidump_count: count,
        recent_crash_dumps: recent,
        minidump_truncated: truncated,
        unexpected_shutdowns_count: unsupported_event_count(timestamp),
        whea_hardware_events: Vec::new(),
        whea_hardware_events_status: unsupported_event_status(timestamp),
        overall_health_assessment: unsupported_health(timestamp),
    }
}

} // verus!
