//! The task-manager style performance snapshot: CPU brand and load, primary
//! GPU name, logical disks, network throughput and kernel memory figures,
//! computed from what the Windows APIs returned.

use vstd::prelude::*;
use crate::quality::{MetricQuality, MetricValue, metric_absent, metric_present, owned, classify_win32_error, win32_error_quality};
use crate::strs::{trim, CharClass, contains_seq, lower_seq};
use crate::text::{str_chars, chars_to_string, utf16_lossy, concat_str};
use crate::sysinfo::network::{wide_field, wide_field_text, rate_spec, calculate_rate, missing_metric_at, net_missing_quality};
use crate::sysinfo::computer_os::first_zero_unit;

verus! {

/// Throughput of the network adapters.
pub struct NetworkSpeedInfo {
    pub adapter_name: String,
    pub rx_speed_bps: MetricValue<u64>,
    pub tx_speed_bps: MetricValue<u64>,
    pub total_rx_bytes: MetricValue<u64>,
    pub total_tx_bytes: MetricValue<u64>,
}

/// The primary GPU.
pub struct GpuDetailedInfo {
    pub name: String,
    pub status: String,
}

/// A `FILETIME` as one 64-bit count.
pub fn filetime_to_u64(high: u32, low: u32) -> (v: u64)
    ensures
        v == high as nat * 0x1_0000_0000 + low as nat,
{
    let v = ((high as u64) << 32u64) | (low as u64);
    assert(v == high as nat * 0x1_0000_0000 + low as nat) by (bit_vector)
        requires v == ((high as u64) << 32u64) | (low as u64);
    v
}

// ---------------------------------------------------------------------------
// CPU

/// The CPU name used when the registry gives none.
pub open spec fn generic_cpu_name() -> Seq<char> {
    "Generic x64 Processor"@
}

/// The CPU name from `ProcessorNameString`: the returned units (`len` bytes)
/// up to the first NUL, decoded with replacement and trimmed; the generic
/// name when the value could not be read or is blank.
pub open spec fn brand_spec(reading: Option<(Seq<u16>, u32)>) -> Seq<char> {
    match reading {
        None => generic_cpu_name(),
        Some((units, len)) => {
            let t = wide_field_text(units.take((len / 2) as int));
            if t.len() == 0 { generic_cpu_name() } else { t }
        },
    }
}

/// Names the CPU (see [`brand_spec`]).
pub fn cpu_brand_name(reading: &Option<(Vec<u16>, u32)>) -> (s: String)
    requires
        match reading {
            Some((units, len)) => (*len / 2) as nat <= units@.len(),
            None => true,
        },
    ensures
        s@ == brand_spec(match reading { Some((u, l)) => Some((u@, *l)), None => None }),
{
    match reading {
        None => owned("Generic x64 Processor"),
        Some((units, len)) => {
            let n = (*len / 2) as usize;
            let head = vstd::slice::slice_subrange(units.as_slice(), 0, n);
            assert(head@ =~= units@.take(n as int));
            let t = wide_field(head);
            if t.as_str().is_empty() { owned("Generic x64 Processor") } else { t }
        },
    }
}

/// `a - b`, or zero when `b` is larger.
pub open spec fn sat_sub(a: u64, b: u64) -> nat {
    if a >= b { (a - b) as nat } else { 0 }
}

/// CPU load in tenths of a percent between two `GetSystemTimes` samples
/// (idle, kernel, user; kernel time includes idle time), rounded half up;
/// `None` on the first sample or when the deltas make no sense.
pub open spec fn usage_tenths_spec(prev: Option<(u64, u64, u64)>, now: (u64, u64, u64)) -> Option<u64> {
    match prev {
        None => None,
        Some(p) => {
            let idle: int = sat_sub(now.0, p.0) as int;
            let total: int = (sat_sub(now.1, p.1) + sat_sub(now.2, p.2)) as int;
            if total > 0 && total >= idle {
                Some(((2000 * (total - idle) + total) / (2 * total)) as u64)
            } else {
                None
            }
        },
    }
}

/// Computes the CPU load between two samples (see [`usage_tenths_spec`]).
pub fn cpu_usage_tenths(prev: Option<(u64, u64, u64)>, now: (u64, u64, u64)) -> (r: Option<u64>)
    ensures
        r == usage_tenths_spec(prev, now),
        r matches Some(t) ==> t <= 1000,
{
    let p = match prev {
        None => { return None; },
        Some(p) => p,
    };
    let idle: u128 = if now.0 >= p.0 { (now.0 - p.0) as u128 } else { 0 };
    let kernel: u128 = if now.1 >= p.1 { (now.1 - p.1) as u128 } else { 0 };
    let user: u128 = if now.2 >= p.2 { (now.2 - p.2) as u128 } else { 0 };
    let total = kernel + user;
    if total > 0 && total >= idle {
        let busy = total - idle;
        assert(2000 * busy + total <= 2001 * total) by (nonlinear_arith)
            requires busy <= total;
        let q = (2000 * busy + total) / (2 * total);
        assert(q <= 1000) by (nonlinear_arith)
            requires q == (2000 * busy + total) / (2 * total), busy <= total, total > 0;
        Some(q as u64)
    } else {
        None
    }
}

// ---------------------------------------------------------------------------
// GPU

/// The usage shown, in tenths of a percent: the measured one, or 15.0 %
/// while there is nothing to measure against.
pub fn shown_cpu_usage_tenths(prev: Option<(u64, u64, u64)>, now: (u64, u64, u64)) -> (r: u64)
    ensures
        r == (match usage_tenths_spec(prev, now) {
            Some(t) => t,
            None => 150,
        }),
        r <= 1000,
{
    match cpu_usage_tenths(prev, now) {
        Some(t) => t,
        None => 150,
    }
}

/// The GPU name used when no adapter qualifies.
pub open spec fn fallback_gpu_name() -> Seq<char> {
    "集成显卡 / Microsoft 基本显示适配器"@
}

/// An adapter name that counts: not blank, not a remote-desktop or basic
/// render adapter.
pub open spec fn real_gpu_name(t: Seq<char>) -> bool {
    t.len() > 0 && !contains_seq(t, "Rdp"@) && !contains_seq(t, "Basic Render"@)
}

/// The first enumerated adapter whose name counts, else the fallback.
pub open spec fn gpu_name_spec(names: Seq<Seq<u16>>) -> Seq<char>
    decreases names.len(),
{
    if names.len() == 0 {
        fallback_gpu_name()
    } else if real_gpu_name(wide_field_text(names[0])) {
        wide_field_text(names[0])
    } else {
        gpu_name_spec(names.drop_first())
    }
}

/// The views of a list of unit vectors.
pub open spec fn unit_views(v: Seq<Vec<u16>>) -> Seq<Seq<u16>> {
    v.map_values(|u: Vec<u16>| u@)
}

/// Names the primary GPU from the `DeviceString`s of the enumerated
/// adapters (see [`gpu_name_spec`]).
pub fn primary_gpu_name(names: &Vec<Vec<u16>>) -> (s: String)
    ensures
        s@ == gpu_name_spec(unit_views(names@)),
{
    let n = names.len();
    let mut i: usize = 0;
    assert(unit_views(names@).skip(0) =~= unit_views(names@));
    while i < n
        invariant
            n == names@.len(),
            i <= n,
            gpu_name_spec(unit_views(names@)) == gpu_name_spec(unit_views(names@).skip(i as int)),
        decreases n - i,
    {
        let t = wide_field(names[i].as_slice());
        let ghost vs = unit_views(names@).skip(i as int);
        assert(vs[0] == names@[i as int]@);
        assert(vs.drop_first() =~= unit_views(names@).skip(i + 1));
        if !t.as_str().is_empty() && !crate::strs::str_contains(t.as_str(), "Rdp")
            && !crate::strs::str_contains(t.as_str(), "Basic Render") {
            return t;
        }
        i += 1;
    }
    assert(unit_views(names@).skip(n as int) =~= Seq::<Seq<u16>>::empty());
    owned("集成显卡 / Microsoft 基本显示适配器")
}

/// The GPU summary: the name and the fixed status text.
pub fn gpu_detail(name: &str) -> (g: GpuDetailedInfo)
    ensures
        g.name@ == name@,
        g.status@ == "DirectX 12 (FL 12.1) · WDDM 3.1 运行正常"@,
{
    GpuDetailedInfo { name: owned(name), status: owned("DirectX 12 (FL 12.1) · WDDM 3.1 运行正常") }
}

/// Physical cores as the summary estimates them: half the logical ones, at
/// least one.
pub fn estimated_physical_cores(logical: u32) -> (c: u32)
    ensures
        c == (if logical / 2 > 1 { logical / 2 } else { 1 }),
{
    let half = logical / 2;
    if half > 1 { half } else { 1 }
}

/// Formats an uptime in seconds as `D天 HH:MM:SS` (or `HH:MM:SS`).
pub fn format_uptime(total_seconds: u64) -> (s: String)
    ensures
        s@ == crate::sysinfo::computer_os::uptime_text(total_seconds as nat),
{
    crate::sysinfo::computer_os::format_uptime_string(total_seconds)
}

// ---------------------------------------------------------------------------
// Disks

/// The drive roots in a `GetLogicalDriveStringsW` buffer: the non-empty
/// NUL-separated pieces.
pub open spec fn drive_pieces(s: Seq<u16>) -> Seq<Seq<u16>>
    decreases s.len(),
{
    if s.len() == 0 {
        Seq::empty()
    } else {
        let i = first_zero_unit(s);
        let head = if i > 0 { seq![s.take(i)] } else { Seq::<Seq<u16>>::empty() };
        if i < s.len() {
            proof { crate::sysinfo::computer_os::lemma_first_zero_unit_bounds(s); }
            head + drive_pieces(s.skip(i + 1))
        } else {
            head
        }
    }
}

/// The drive roots of a buffer of which `len` units were filled; none when
/// the call failed (`len` zero) or asked for a larger buffer.
pub open spec fn drive_roots_spec(buffer: Seq<u16>, len: u32) -> Seq<Seq<u16>> {
    if len == 0 || len > buffer.len() { Seq::empty() } else { drive_pieces(buffer.take(len as int)) }
}

fn copy_units(s: &[u16]) -> (v: Vec<u16>)
    ensures
        v@ == s@,
{
    let mut v: Vec<u16> = Vec::new();
    for i in 0..s.len()
        invariant
            v@ == s@.take(i as int),
    {
        v.push(s[i]);
        assert(s@.take(i + 1) =~= s@.take(i as int).push(s@[i as int]));
    }
    assert(s@.take(s@.len() as int) =~= s@);
    v
}

/// Splits the drive-strings buffer (see [`drive_roots_spec`]).
pub fn split_drive_strings(buffer: &[u16], len: u32) -> (v: Vec<Vec<u16>>)
    ensures
        unit_views(v@) == drive_roots_spec(buffer@, len),
{
    let mut out: Vec<Vec<u16>> = Vec::new();
    if len == 0 || len as usize > buffer.len() {
        assert(unit_views(out@) =~= Seq::<Seq<u16>>::empty());
        return out;
    }
    let n = len as usize;
    let ghost s = buffer@.take(n as int);
    let mut offset: usize = 0;
    assert(s.skip(0) =~= s);
    assert(unit_views(out@) =~= Seq::<Seq<u16>>::empty());
    while offset < n
        invariant
            n <= buffer@.len(),
            s == buffer@.take(n as int),
            offset <= n,
            drive_pieces(s) == unit_views(out@) + drive_pieces(s.skip(offset as int)),
        decreases n - offset,
    {
        let start = offset;
        let ghost rest = s.skip(start as int);
        assert(rest.skip(0) =~= rest);
        while offset < n && buffer[offset] != 0
            invariant
                start <= offset <= n,
                n <= buffer@.len(),
                s == buffer@.take(n as int),
                rest == s.skip(start as int),
                first_zero_unit(rest) == (offset - start) + first_zero_unit(rest.skip(offset - start)),
            decreases n - offset,
        {
            assert(rest.skip(offset - start).drop_first() =~= rest.skip(offset - start + 1));
            offset += 1;
        }
        if offset == n {
            assert(rest.skip(offset - start) =~= Seq::<u16>::empty());
        }
        let piece = vstd::slice::slice_subrange(buffer, start, offset);
        assert(piece@ =~= rest.take(offset - start));
        let ghost before = unit_views(out@);
        if offset > start {
            out.push(copy_units(piece));
            assert(unit_views(out@) =~= before.push(piece@));
        }
        proof { crate::sysinfo::computer_os::lemma_first_zero_unit_bounds(rest); }
        if offset < n {
            assert(rest.skip(offset - start + 1) =~= s.skip(offset + 1));
            offset += 1;
        }
    }
    assert(s.skip(n as int) =~= Seq::<u16>::empty());
    out
}

/// One logical disk; the usage is in tenths of a percent.
pub struct DiskPartition {
    pub letter: String,
    pub label: String,
    pub file_system: String,
    pub total_bytes: u64,
    pub available_bytes: u64,
    pub used_bytes: u64,
    pub usage_tenths: u64,
    pub is_system_drive: bool,
}

/// What was read for one drive root: its free and total bytes (`None` when
/// `GetDiskFreeSpaceExW` failed), and its volume and file-system names.
pub struct DriveReading {
    pub root: Vec<u16>,
    pub space: Option<(u64, u64)>,
    pub volume_name: Vec<u16>,
    pub fs_name: Vec<u16>,
}

/// `s` without trailing backslashes.
pub open spec fn trim_backslashes(s: Seq<char>) -> Seq<char>
    decreases s.len(),
{
    if s.len() > 0 && s.last() == '\\' { trim_backslashes(s.drop_last()) } else { s }
}

/// `used` of `total` in tenths of a percent, rounded half up.
pub open spec fn tenths_of(used: nat, total: nat) -> nat {
    if total == 0 { 0 } else { (2000 * used + total) / (2 * total) }
}

/// `p` describes drive `r`.
pub open spec fn partition_ok(p: DiskPartition, r: DriveReading) -> bool {
    let letter = trim_backslashes(utf16_lossy(r.root@));
    let raw_label = wide_field_text(r.volume_name@);
    let fs = wide_field_text(r.fs_name@);
    let system = lower_seq(letter) == "c:"@;
    let (free, total) = r.space->0;
    &&& p.letter@ == letter
    &&& p.is_system_drive == system
    &&& p.label@ == (if raw_label.len() == 0 {
            if system { "系统盘 ("@ + letter + ")"@ } else { "本地磁盘 ("@ + letter + ")"@ }
        } else {
            raw_label + " ("@ + letter + ")"@
        })
    &&& p.file_system@ == (if fs.len() == 0 { "NTFS"@ } else { fs })
    &&& p.total_bytes == total
    &&& p.available_bytes == free
    &&& p.used_bytes == sat_sub(total, free)
    &&& p.usage_tenths == tenths_of(sat_sub(total, free), total as nat)
}

/// Whether a drive is listed: its space was read and it has a size.
pub open spec fn drive_listed(r: DriveReading) -> bool {
    r.space matches Some(sp) && sp.1 > 0
}

pub fn strip_backslashes(s: &str) -> (r: String)
    ensures
        r@ == trim_backslashes(s@),
{
    let cs = str_chars(s);
    let mut end = cs.len();
    assert(cs@.take(end as int) =~= cs@);
    while end > 0 && cs[end - 1] == '\\'
        invariant
            end <= cs@.len(),
            cs@ == s@,
            trim_backslashes(s@) == trim_backslashes(cs@.take(end as int)),
        decreases end,
    {
        assert(cs@.take(end as int).drop_last() =~= cs@.take(end - 1));
        end -= 1;
    }
    let t = crate::strs::sub_chars(cs.as_slice(), 0, end);
    assert(t@ =~= cs@.take(end as int));
    chars_to_string(t.as_slice())
}

/// Describes one drive; `None` unless it is listed.
pub fn describe_partition(r: &DriveReading) -> (p: Option<DiskPartition>)
    ensures
        match p {
            None => !drive_listed(*r),
            Some(p) => drive_listed(*r) && partition_ok(p, *r),
        },
{
    let (free, total) = match r.space {
        None => { return None; },
        Some(sp) => sp,
    };
    if total == 0 {
        return None;
    }
    let path = crate::text::string_from_utf16_lossy(r.root.as_slice());
    let letter = strip_backslashes(path.as_str());
    let system = crate::sysinfo::windows_env::eq_ignore_ascii_case(letter.as_str(), "c:");
    proof {
        reveal_strlit("c:");
        assert(lower_seq("c:"@) =~= "c:"@);
    }
    let raw_label = wide_field(r.volume_name.as_slice());
    let fs = wide_field(r.fs_name.as_slice());
    let head = if raw_label.as_str().is_empty() {
        if system { owned("系统盘 (") } else { owned("本地磁盘 (") }
    } else {
        concat_str(raw_label.as_str(), " (")
    };
    let with_letter = concat_str(head.as_str(), letter.as_str());
    let label = concat_str(with_letter.as_str(), ")");
    let used = if total >= free { total - free } else { 0 };
    let wide_used = used as u128;
    let wide_total = total as u128;
    assert(2000 * wide_used + wide_total <= 2001 * wide_total) by (nonlinear_arith)
        requires wide_used <= wide_total;
    let q = (2000 * wide_used + wide_total) / (2 * wide_total);
    assert(q <= 1000) by (nonlinear_arith)
        requires q == (2000 * wide_used + wide_total) / (2 * wide_total), wide_used <= wide_total, wide_total > 0;
    Some(DiskPartition {
        letter,
        label,
        file_system: if fs.as_str().is_empty() { owned("NTFS") } else { fs },
        total_bytes: total,
        available_bytes: free,
        used_bytes: used,
        usage_tenths: q as u64,
        is_system_drive: system,
    })
}

/// The listed drives, in order.
pub open spec fn listed_drives(rs: Seq<DriveReading>) -> Seq<DriveReading> {
    rs.filter(|r: DriveReading| drive_listed(r))
}

/// Describes every listed drive, in order.
pub fn collect_partitions(readings: &Vec<DriveReading>) -> (out: Vec<DiskPartition>)
    ensures
        out@.len() == listed_drives(readings@).len(),
        forall|i: int| 0 <= i < out@.len() ==> partition_ok(#[trigger] out@[i], listed_drives(readings@)[i]),
{
    let mut out: Vec<DiskPartition> = Vec::new();
    let n = readings.len();
    for k in 0..n
        invariant
            n == readings@.len(),
            out@.len() == listed_drives(readings@.take(k as int)).len(),
            forall|i: int| 0 <= i < out@.len() ==> partition_ok(#[trigger] out@[i], listed_drives(readings@.take(k as int))[i]),
    {
        let ghost before = readings@.take(k as int);
        proof {
            before.lemma_filter_push(readings@[k as int], |r: DriveReading| drive_listed(r));
            assert(before.push(readings@[k as int]) =~= readings@.take(k + 1));
        }
        match describe_partition(&readings[k]) {
            Some(p) => { out.push(p); },
            None => {},
        }
    }
    assert(readings@.take(n as int) =~= readings@);
    out
}

// ---------------------------------------------------------------------------
// Network throughput

/// Source name of the interface table.
pub open spec fn if_table_source() -> Seq<char> {
    "IP_Helper_GetIfTable2"@
}

/// One row of `GetIfTable2`.
pub struct IfRow {
    pub if_type: u32,
    pub oper_status: u32,
    pub in_octets: u64,
    pub out_octets: u64,
    pub description: Vec<u16>,
    pub alias: Vec<u16>,
}

/// A row that counts: not a loopback interface (type 24) and up.
pub open spec fn row_counts(r: IfRow) -> bool {
    r.if_type != 24 && r.oper_status == 1
}

/// `a + b` capped at `u64::MAX`.
pub open spec fn sat_add(a: u64, b: u64) -> u64 {
    if a + b > u64::MAX { u64::MAX } else { (a + b) as u64 }
}

/// Received and sent bytes of the counting rows, each added with saturation.
pub open spec fn octet_totals(rows: Seq<IfRow>) -> (u64, u64)
    decreases rows.len(),
{
    if rows.len() == 0 {
        (0, 0)
    } else {
        let t = octet_totals(rows.drop_last());
        if row_counts(rows.last()) {
            (sat_add(t.0, rows.last().in_octets), sat_add(t.1, rows.last().out_octets))
        } else {
            t
        }
    }
}

/// The name of the first counting row: its description, or its alias when
/// the description is blank; empty when no row counts.
pub open spec fn primary_adapter_spec(rows: Seq<IfRow>) -> Seq<char>
    decreases rows.len(),
{
    if rows.len() == 0 {
        Seq::empty()
    } else if row_counts(rows[0]) {
        let d = wide_field_text(rows[0].description@);
        if d.len() > 0 { d } else { wide_field_text(rows[0].alias@) }
    } else {
        primary_adapter_spec(rows.drop_first())
    }
}

/// A throughput metric between two samples `elapsed` nanoseconds apart.
pub open spec fn speed_metric_ok(m: MetricValue<u64>, previous: Option<u64>, current: u64, elapsed: u128, ts: u64) -> bool {
    match rate_spec(previous, current, elapsed) {
        Some(r) => metric_present(m, r, "Bytes/s"@, MetricQuality::Good, if_table_source(), ts),
        None => match previous {
            None => metric_absent(m, "Bytes/s"@, MetricQuality::Unsupported, if_table_source(),
                "首次采样没有前一累计值，无法计算速率"@, ts),
            Some(p) => if current < p {
                metric_absent(m, "Bytes/s"@, MetricQuality::Invalid, if_table_source(), "累计计数器回退，无法计算速率"@, ts)
            } else if elapsed == 0 {
                metric_absent(m, "Bytes/s"@, MetricQuality::Invalid, if_table_source(), "采样间隔无效，无法计算速率"@, ts)
            } else {
                metric_absent(m, "Bytes/s"@, MetricQuality::Invalid, if_table_source(), "速率超出可表示范围"@, ts)
            },
        },
    }
}

/// The throughput metric of one direction (see [`speed_metric_ok`]).
pub fn network_rate_metric(previous: Option<u64>, current: u64, elapsed: u128, timestamp: u64) -> (m: MetricValue<u64>)
    ensures
        speed_metric_ok(m, previous, current, elapsed, timestamp),
{
    let src = "IP_Helper_GetIfTable2";
    match calculate_rate(previous, current, elapsed) {
        Some(r) => MetricValue::good_at(r, "Bytes/s", src, timestamp),
        None => match previous {
            None => MetricValue::unsupported_at("Bytes/s", src, "首次采样没有前一累计值，无法计算速率", timestamp),
            Some(p) => if current < p {
                MetricValue::invalid_at("Bytes/s", src, "累计计数器回退，无法计算速率", timestamp)
            } else if elapsed == 0 {
                MetricValue::invalid_at("Bytes/s", src, "采样间隔无效，无法计算速率", timestamp)
            } else {
                MetricValue::invalid_at("Bytes/s", src, "速率超出可表示范围", timestamp)
            },
        },
    }
}

/// The throughput of the interface table `table` (or the Win32 error of
/// `GetIfTable2`, zero when it returned no table), against the previous
/// totals taken `elapsed` nanoseconds before (zero when that interval is
/// not valid).
pub open spec fn speed_ok(n: NetworkSpeedInfo, table: Result<Seq<IfRow>, u32>, previous: Option<(u64, u64)>,
    elapsed: u128, ts: u64) -> bool
{
    match table {
        Err(code) => {
            let q = if code == 0 { MetricQuality::Invalid } else { win32_error_quality(code) };
            &&& n.adapter_name@.len() == 0
            &&& metric_absent(n.rx_speed_bps, "Bytes/s"@, net_missing_quality(q), if_table_source(), "GetIfTable2 失败，无法读取网络速率"@, ts)
            &&& metric_absent(n.tx_speed_bps, "Bytes/s"@, net_missing_quality(q), if_table_source(), "GetIfTable2 失败，无法读取网络速率"@, ts)
            &&& metric_absent(n.total_rx_bytes, "Bytes"@, net_missing_quality(q), if_table_source(), "GetIfTable2 失败，无法读取累计接收字节"@, ts)
            &&& metric_absent(n.total_tx_bytes, "Bytes"@, net_missing_quality(q), if_table_source(), "GetIfTable2 失败，无法读取累计发送字节"@, ts)
        },
        Ok(rows) => {
            let t = octet_totals(rows);
            &&& n.adapter_name@ == primary_adapter_spec(rows)
            &&& speed_metric_ok(n.rx_speed_bps, match previous { Some(p) => Some(p.0), None => None }, t.0, elapsed, ts)
            &&& speed_metric_ok(n.tx_speed_bps, match previous { Some(p) => Some(p.1), None => None }, t.1, elapsed, ts)
            &&& metric_present(n.total_rx_bytes, t.0, "Bytes"@, MetricQuality::Good, if_table_source(), ts)
            &&& metric_present(n.total_tx_bytes, t.1, "Bytes"@, MetricQuality::Good, if_table_source(), ts)
        },
    }
}

/// Computes the network throughput (see [`speed_ok`]).
pub fn query_network_speed(table: &Result<Vec<IfRow>, u32>, previous: Option<(u64, u64)>, elapsed: u128, timestamp: u64)
    -> (n: NetworkSpeedInfo)
    ensures
        speed_ok(n, match table { Ok(v) => Ok(v@), Err(c) => Err(*c) }, previous, elapsed, timestamp),
{
    let src = "IP_Helper_GetIfTable2";
    let rows = match table {
        Err(code) => {
            let q = if *code == 0 { MetricQuality::Invalid } else { classify_win32_error(*code) };
            return NetworkSpeedInfo {
                adapter_name: String::new(),
                rx_speed_bps: missing_metric_at("Bytes/s", src, q, "GetIfTable2 失败，无法读取网络速率", timestamp),
                tx_speed_bps: missing_metric_at("Bytes/s", src, q, "GetIfTable2 失败，无法读取网络速率", timestamp),
                total_rx_bytes: missing_metric_at("Bytes", src, q, "GetIfTable2 失败，无法读取累计接收字节", timestamp),
                total_tx_bytes: missing_metric_at("Bytes", src, q, "GetIfTable2 失败，无法读取累计发送字节", timestamp),
            };
        },
        Ok(rows) => rows,
    };
    let n = rows.len();
    let mut rx: u64 = 0;
    let mut tx: u64 = 0;
    let mut name = String::new();
    let mut named = false;
    assert(rows@.skip(0) =~= rows@);
    for k in 0..n
        invariant
            n == rows@.len(),
            (rx, tx) == octet_totals(rows@.take(k as int)),
            named == (exists|j: int| 0 <= j < k && row_counts(#[trigger] rows@[j])),
            !named ==> name@.len() == 0,
            named ==> name@ == primary_adapter_spec(rows@),
            !named ==> primary_adapter_spec(rows@) == primary_adapter_spec(rows@.skip(k as int)),
    {
        assert(rows@.take(k + 1).drop_last() =~= rows@.take(k as int));
        assert(rows@.take(k + 1).last() == rows@[k as int]);
        let r = &rows[k];
        let ghost tail = rows@.skip(k as int);
        assert(tail[0] == rows@[k as int]);
        assert(tail.drop_first() =~= rows@.skip(k + 1));
        if r.if_type != 24 && r.oper_status == 1 {
            rx = match rx.checked_add(r.in_octets) { Some(v) => v, None => u64::MAX };
            tx = match tx.checked_add(r.out_octets) { Some(v) => v, None => u64::MAX };
            if !named {
                let d = wide_field(r.description.as_slice());
                name = if d.as_str().is_empty() { wide_field(r.alias.as_slice()) } else { d };
                named = true;
            }
        }
    }
    assert(rows@.take(n as int) =~= rows@);
    proof {
        if !named {
            assert(rows@.skip(n as int) =~= Seq::<IfRow>::empty());
            assert(name@ =~= primary_adapter_spec(rows@));
        }
    }
    let (prx, ptx) = match previous {
        Some((a, b)) => (Some(a), Some(b)),
        None => (None, None),
    };
    NetworkSpeedInfo {
        adapter_name: name,
        rx_speed_bps: network_rate_metric(prx, rx, elapsed, timestamp),
        tx_speed_bps: network_rate_metric(ptx, tx, elapsed, timestamp),
        total_rx_bytes: MetricValue::good_at(rx, "Bytes", src, timestamp),
        total_tx_bytes: MetricValue::good_at(tx, "Bytes", src, timestamp),
    }
}

// ---------------------------------------------------------------------------
// Kernel memory figures

/// What `GetPerformanceInfo` returned: counts, and sizes in pages.
#[derive(Clone, Copy)]
pub struct PerfReading {
    pub process_count: u32,
    pub thread_count: u32,
    pub handle_count: u32,
    pub commit_total: u64,
    pub commit_limit: u64,
    pub kernel_paged: u64,
    pub kernel_nonpaged: u64,
    pub page_size: u64,
}

/// The counts and kernel memory figures of the snapshot.
#[derive(Clone, Copy)]
pub struct PerfFigures {
    pub process_count: u32,
    pub thread_count: u32,
    pub handle_count: u32,
    pub committed_bytes: u64,
    pub commit_limit_bytes: u64,
    pub paged_pool_bytes: u64,
    pub non_paged_pool_bytes: u64,
}

/// The page counts of a reading fit in bytes.
pub open spec fn perf_fits(r: PerfReading) -> bool {
    &&& r.commit_total * r.page_size <= u64::MAX
    &&& r.commit_limit * r.page_size <= u64::MAX
    &&& r.kernel_paged * r.page_size <= u64::MAX
    &&& r.kernel_nonpaged * r.page_size <= u64::MAX
}

/// The figures of a reading, or, when `GetPerformanceInfo` failed, the
/// fixed stand-ins (250 processes, 3200 threads, 110000 handles, commit as
/// the used and total memory, 600 MiB paged and 400 MiB non-paged pool).
pub fn perf_figures(reading: Option<PerfReading>, used_ram: u64, total_ram: u64) -> (f: PerfFigures)
    requires
        reading matches Some(r) ==> perf_fits(r),
    ensures
        match reading {
            Some(r) => f == PerfFigures {
                process_count: r.process_count,
                thread_count: r.thread_count,
                handle_count: r.handle_count,
                committed_bytes: (r.commit_total * r.page_size) as u64,
                commit_limit_bytes: (r.commit_limit * r.page_size) as u64,
                paged_pool_bytes: (r.kernel_paged * r.page_size) as u64,
                non_paged_pool_bytes: (r.kernel_nonpaged * r.page_size) as u64,
            },
            None => f == PerfFigures {
                process_count: 250,
                thread_count: 3200,
                handle_count: 110000,
                committed_bytes: used_ram,
                commit_limit_bytes: total_ram,
                paged_pool_bytes: 629145600,
                non_paged_pool_bytes: 419430400,
            },
        },
{
    match reading {
        Some(r) => PerfFigures {
            process_count: r.process_count,
            thread_count: r.thread_count,
            handle_count: r.handle_count,
            committed_bytes: r.commit_total * r.page_size,
            commit_limit_bytes: r.commit_limit * r.page_size,
            paged_pool_bytes: r.kernel_paged * r.page_size,
            non_paged_pool_bytes: r.kernel_nonpaged * r.page_size,
        },
        None => PerfFigures {
            process_count: 250,
            thread_count: 3200,
            handle_count: 110000,
            committed_bytes: used_ram,
            commit_limit_bytes: total_ram,
            paged_pool_bytes: 600 * 1024 * 1024,
            non_paged_pool_bytes: 400 * 1024 * 1024,
        },
    }
}

} // verus!
