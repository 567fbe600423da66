//! Memory load metrics from `GlobalMemoryStatusEx` and `GetPerformanceInfo`:
//! every figure is a reading or a value derived without overflow, and a
//! failed or inconsistent reading shows as its quality, never as a made-up 0.
//! No memory-module inventory exists, so that part always reads unsupported.

use vstd::prelude::*;
use crate::quality::{CollectionStatus, MetricQuality, MetricValue, metric_present, metric_absent, metric_estimated, owned};
use crate::unrestrict::{join_spec, join_strings, strings_view};

verus! {

/// The fields of `MEMORYSTATUSEX` the metrics use.
#[derive(Clone, Copy, Debug)]
pub struct MemoryStatusReading {
    pub total_phys: u64,
    pub avail_phys: u64,
    pub total_page_file: u64,
    pub avail_page_file: u64,
    pub total_virtual: u64,
    pub avail_virtual: u64,
}

/// The fields of `PERFORMANCE_INFORMATION` the metrics use (page counts and
/// the page size in bytes).
#[derive(Clone, Copy, Debug)]
pub struct PerformanceReading {
    pub page_size: u64,
    pub commit_total: u64,
    pub commit_limit: u64,
    pub kernel_paged: u64,
    pub kernel_nonpaged: u64,
}

/// Memory metrics; the load is given in tenths of a percent.
#[derive(Clone, Debug)]
pub struct MemoryMetrics {
    pub total_physical_bytes: MetricValue<u64>,
    pub available_physical_bytes: MetricValue<u64>,
    pub used_physical_bytes: MetricValue<u64>,
    pub usage_permille: MetricValue<u64>,
    pub total_page_file_bytes: MetricValue<u64>,
    pub available_page_file_bytes: MetricValue<u64>,
    pub total_virtual_bytes: MetricValue<u64>,
    pub available_virtual_bytes: MetricValue<u64>,
    pub committed_bytes: MetricValue<u64>,
    pub commit_limit_bytes: MetricValue<u64>,
    pub paged_pool_bytes: MetricValue<u64>,
    pub non_paged_pool_bytes: MetricValue<u64>,
    pub hardware_reserved_bytes: MetricValue<u64>,
    pub provider_status: CollectionStatus,
}

/// Memory load in tenths of a percent, rounded half up; none where the total
/// is zero or less than what is available.
pub open spec fn usage_permille_spec(total: u64, avail: u64) -> Option<nat> {
    if total == 0 || avail > total {
        None
    } else {
        Some((((total - avail) as nat) * 2000 + total as nat) / (2 * total as nat))
    }
}

/// Memory load in tenths of a percent.
pub fn calculate_usage_permille(total: u64, avail: u64) -> (r: Option<u64>)
    ensures
        match r {
            Some(v) => usage_permille_spec(total, avail) == Some(v as nat),
            None => usage_permille_spec(total, avail) is None,
        },
{
    if total == 0 || avail > total {
        return None;
    }
    let used = (total - avail) as u128;
    let t = total as u128;
    assert(used * 2000 + t <= 2001 * 18446744073709551615u128) by (nonlinear_arith)
        requires used <= t, t <= 18446744073709551615u128;
    let v = (used * 2000 + t) / (2 * t);
    assert(v <= 1000) by (nonlinear_arith)
        requires v == (used * 2000 + t) / (2 * t), used <= t, t > 0;
    Some(v as u64)
}

/// Why the performance counters give no figures.
pub open spec fn perf_read_error() -> Seq<char> {
    "GetPerformanceInfo 调用失败，无法读取提交量与内核池指标"@
}

/// The performance counters report a zero page size.
pub open spec fn perf_page_size_error() -> Seq<char> {
    "GetPerformanceInfo 返回的 PageSize 无效"@
}

/// A count times the page size does not fit in 64 bits.
pub open spec fn perf_overflow_error() -> Seq<char> {
    "GetPerformanceInfo 的计数与 PageSize 相乘时发生溢出"@
}

/// Committed, commit limit, paged and non-paged pool in bytes, or the quality
/// and reason why they cannot be given.
pub open spec fn perf_bytes_spec(p: Option<PerformanceReading>) -> Result<(u64, u64, u64, u64), (MetricQuality, Seq<char>)> {
    match p {
        None => Err((MetricQuality::ReadError, perf_read_error())),
        Some(r) => if r.page_size == 0 {
            Err((MetricQuality::Invalid, perf_page_size_error()))
        } else if r.commit_total * r.page_size > u64::MAX || r.commit_limit * r.page_size > u64::MAX
            || r.kernel_paged * r.page_size > u64::MAX || r.kernel_nonpaged * r.page_size > u64::MAX {
            Err((MetricQuality::Invalid, perf_overflow_error()))
        } else {
            Ok((
                (r.commit_total * r.page_size) as u64,
                (r.commit_limit * r.page_size) as u64,
                (r.kernel_paged * r.page_size) as u64,
                (r.kernel_nonpaged * r.page_size) as u64,
            ))
        },
    }
}

fn perf_bytes(p: Option<PerformanceReading>) -> (r: Result<(u64, u64, u64, u64), (MetricQuality, &'static str)>)
    ensures
        match r {
            Ok(v) => perf_bytes_spec(p) == Ok::<(u64, u64, u64, u64), (MetricQuality, Seq<char>)>(v),
            Err((q, reason)) => perf_bytes_spec(p) == Err::<(u64, u64, u64, u64), (MetricQuality, Seq<char>)>((q, reason@)),
        },
{
    match p {
        None => Err((MetricQuality::ReadError, "GetPerformanceInfo 调用失败，无法读取提交量与内核池指标")),
        Some(r) => {
            if r.page_size == 0 {
                return Err((MetricQuality::Invalid, "GetPerformanceInfo 返回的 PageSize 无效"));
            }
            let a = r.commit_total.checked_mul(r.page_size);
            let b = r.commit_limit.checked_mul(r.page_size);
            let c = r.kernel_paged.checked_mul(r.page_size);
            let d = r.kernel_nonpaged.checked_mul(r.page_size);
            match (a, b, c, d) {
                (Some(a), Some(b), Some(c), Some(d)) => Ok((a, b, c, d)),
                _ => Err((MetricQuality::Invalid, "GetPerformanceInfo 的计数与 PageSize 相乘时发生溢出")),
            }
        },
    }
}

/// Reasons reported on the provider status, in order.
pub open spec fn memory_provider_errors(global_ok: bool, p: Option<PerformanceReading>) -> Seq<Seq<char>> {
    seq!["DIMM provider Unsupported：尚未实现可信的物理内存条枚举"@]
        + (if global_ok { Seq::empty() } else { seq!["GlobalMemoryStatusEx 调用失败"@] })
        + (match perf_bytes_spec(p) {
            Ok(_) => Seq::empty(),
            Err((_, reason)) => seq![reason],
        })
}

/// A byte metric read from `source`.
pub open spec fn good_bytes(m: MetricValue<u64>, v: u64, source: Seq<char>, ts: u64) -> bool {
    metric_present(m, v, "Bytes"@, MetricQuality::Good, source, ts)
}

/// The global-status metrics for a reading (or its failure).
pub open spec fn global_metrics_ok(m: MemoryMetrics, g: Option<MemoryStatusReading>, ts: u64) -> bool {
    let src = "GlobalMemoryStatusEx"@;
    let derived = "GlobalMemoryStatusEx/derived"@;
    match g {
        Some(s) => {
            &&& good_bytes(m.total_physical_bytes, s.total_phys, src, ts)
            &&& good_bytes(m.available_physical_bytes, s.avail_phys, src, ts)
            &&& good_bytes(m.total_page_file_bytes, s.total_page_file, src, ts)
            &&& good_bytes(m.available_page_file_bytes, s.avail_page_file, src, ts)
            &&& good_bytes(m.total_virtual_bytes, s.total_virtual, src, ts)
            &&& good_bytes(m.available_virtual_bytes, s.avail_virtual, src, ts)
            &&& match usage_permille_spec(s.total_phys, s.avail_phys) {
                Some(u) => {
                    &&& metric_estimated(m.used_physical_bytes, (s.total_phys - s.avail_phys) as u64, "Bytes"@,
                        derived, ts)
                    &&& metric_estimated(m.usage_permille, u as u64, "‰"@, derived, ts)
                },
                None => {
                    &&& metric_absent(m.used_physical_bytes, "Bytes"@, MetricQuality::Invalid, derived,
                        "GlobalMemoryStatusEx 返回的物理内存总量或可用量无法推导已用值"@, ts)
                    &&& metric_absent(m.usage_permille, "‰"@, MetricQuality::Invalid, derived,
                        "GlobalMemoryStatusEx 返回的物理内存总量或可用量无法推导使用率"@, ts)
                },
            }
        },
        None => {
            let reason = "GlobalMemoryStatusEx 调用失败，无法读取全局内存状态"@;
            &&& metric_absent(m.total_physical_bytes, "Bytes"@, MetricQuality::ReadError, src, reason, ts)
            &&& metric_absent(m.available_physical_bytes, "Bytes"@, MetricQuality::ReadError, src, reason, ts)
            &&& metric_absent(m.used_physical_bytes, "Bytes"@, MetricQuality::ReadError, derived, reason, ts)
            &&& metric_absent(m.usage_permille, "‰"@, MetricQuality::ReadError, derived, reason, ts)
            &&& metric_absent(m.total_page_file_bytes, "Bytes"@, MetricQuality::ReadError, src, reason, ts)
            &&& metric_absent(m.available_page_file_bytes, "Bytes"@, MetricQuality::ReadError, src, reason, ts)
            &&& metric_absent(m.total_virtual_bytes, "Bytes"@, MetricQuality::ReadError, src, reason, ts)
            &&& metric_absent(m.available_virtual_bytes, "Bytes"@, MetricQuality::ReadError, src, reason, ts)
        },
    }
}

/// The performance metrics for a reading (or its failure).
pub open spec fn perf_metrics_ok(m: MemoryMetrics, p: Option<PerformanceReading>, ts: u64) -> bool {
    let src = "GetPerformanceInfo"@;
    match perf_bytes_spec(p) {
        Ok((a, b, c, d)) => {
            &&& good_bytes(m.committed_bytes, a, src, ts)
            &&& good_bytes(m.commit_limit_bytes, b, src, ts)
            &&& good_bytes(m.paged_pool_bytes, c, src, ts)
            &&& good_bytes(m.non_paged_pool_bytes, d, src, ts)
        },
        Err((q, reason)) => {
            &&& metric_absent(m.committed_bytes, "Bytes"@, q, src, reason, ts)
            &&& metric_absent(m.commit_limit_bytes, "Bytes"@, q, src, reason, ts)
            &&& metric_absent(m.paged_pool_bytes, "Bytes"@, q, src, reason, ts)
            &&& metric_absent(m.non_paged_pool_bytes, "Bytes"@, q, src, reason, ts)
        },
    }
}

fn read_error_bytes(source: &str, reason: &str, ts: u64) -> (m: MetricValue<u64>)
    ensures
        metric_absent(m, "Bytes"@, MetricQuality::ReadError, source@, reason@, ts),
{
    MetricValue::read_error_at("Bytes", source, reason, ts)
}

/// Builds the memory metrics from what the two calls returned (`None` where
/// a call failed), all stamped with `timestamp`.
pub fn collect_memory_metrics(
    global: Option<MemoryStatusReading>,
    perf: Option<PerformanceReading>,
    timestamp: u64,
) -> (m: MemoryMetrics)
    ensures
        global_metrics_ok(m, global, timestamp),
        perf_metrics_ok(m, perf, timestamp),
        metric_absent(m.hardware_reserved_bytes, "Bytes"@, MetricQuality::Unsupported, "DIMM provider"@,
            "没有 DIMM Provider，无法读取硬件保留内存"@, timestamp),
        m.provider_status.quality == MetricQuality::Unsupported,
        m.provider_status.source@ == "DIMM provider"@,
        m.provider_status.timestamp == timestamp,
        m.provider_status.item_count == Some(0u32),
        !m.provider_status.truncated,
        m.provider_status.error matches Some(e) && e@ == join_spec(memory_provider_errors(global is Some, perf), "; "@),
{
    let ts = timestamp;
    let src = "GlobalMemoryStatusEx";
    let derived = "GlobalMemoryStatusEx/derived";
    let (total, avail, used, usage, tpf, apf, tv, av) = match global {
        Some(s) => {
            let (used, usage) = match calculate_usage_permille(s.total_phys, s.avail_phys) {
                Some(u) => (
                    MetricValue::estimated_at(s.total_phys - s.avail_phys, "Bytes", derived, ts),
                    MetricValue::estimated_at(u, "‰", derived, ts),
                ),
                None => (
                    MetricValue::invalid_at("Bytes", derived, "GlobalMemoryStatusEx 返回的物理内存总量或可用量无法推导已用值", ts),
                    MetricValue::invalid_at("‰", derived, "GlobalMemoryStatusEx 返回的物理内存总量或可用量无法推导使用率", ts),
                ),
            };
            (
                MetricValue::good_at(s.total_phys, "Bytes", src, ts),
                MetricValue::good_at(s.avail_phys, "Bytes", src, ts),
                used,
                usage,
                MetricValue::good_at(s.total_page_file, "Bytes", src, ts),
                MetricValue::good_at(s.avail_page_file, "Bytes", src, ts),
                MetricValue::good_at(s.total_virtual, "Bytes", src, ts),
                MetricValue::good_at(s.avail_virtual, "Bytes", src, ts),
            )
        },
        None => {
            let reason = "GlobalMemoryStatusEx 调用失败，无法读取全局内存状态";
            (
                read_error_bytes(src, reason, ts),
                read_error_bytes(src, reason, ts),
                read_error_bytes(derived, reason, ts),
                MetricValue::read_error_at("‰", derived, reason, ts),
                read_error_bytes(src, reason, ts),
                read_error_bytes(src, reason, ts),
                read_error_bytes(src, reason, ts),
                read_error_bytes(src, reason, ts),
            )
        },
    };
    let perf_result = perf_bytes(perf);
    let psrc = "GetPerformanceInfo";
    let mut errors: Vec<String> = Vec::new();
    errors.push(owned("DIMM provider Unsupported：尚未实现可信的物理内存条枚举"));
    if global.is_none() {
        errors.push(owned("GlobalMemoryStatusEx 调用失败"));
    }
    let (committed, limit, paged, nonpaged) = match perf_result {
        Ok((a, b, c, d)) => (
            MetricValue::good_at(a, "Bytes", psrc, ts),
            MetricValue::good_at(b, "Bytes", psrc, ts),
            MetricValue::good_at(c, "Bytes", psrc, ts),
            MetricValue::good_at(d, "Bytes", psrc, ts),
        ),
        Err((q, reason)) => {
            errors.push(owned(reason));
            (
                MetricValue::without_value("Bytes", q, psrc, reason, ts),
                MetricValue::without_value("Bytes", q, psrc, reason, ts),
                MetricValue::without_value("Bytes", q, psrc, reason, ts),
                MetricValue::without_value("Bytes", q, psrc, reason, ts),
            )
        },
    };
    assert(strings_view(errors@) =~= memory_provider_errors(global is Some, perf));
    let joined = join_strings(&errors, "; ");
    MemoryMetrics {
        total_physical_bytes: total,
        available_physical_bytes: avail,
        used_physical_bytes: used,
        usage_permille: usage,
        total_page_file_bytes: tpf,
        available_page_file_bytes: apf,
        total_virtual_bytes: tv,
        available_virtual_bytes: av,
        committed_bytes: committed,
        commit_limit_bytes: limit,
        paged_pool_bytes: paged,
        non_paged_pool_bytes: nonpaged,
        hardware_reserved_bytes: MetricValue::unsupported_at("Bytes", "DIMM provider", "没有 DIMM Provider，无法读取硬件保留内存", ts),
        provider_status: CollectionStatus {
            quality: MetricQuality::Unsupported,
            source: owned("DIMM provider"),
            timestamp: ts,
            item_count: Some(0),
            truncated: false,
            error: Some(joined),
        },
    }
}

} // verus!
