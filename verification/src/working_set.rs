//! Physical memory status and the outcome of a working-set trim: the figures
//! computed from two `GlobalMemoryStatusEx` readings and the trim results.

use vstd::prelude::*;
use crate::quality::owned;

verus! {

/// Physical memory: totals in bytes and the load in hundredths of a percent.
#[derive(Clone, Copy)]
pub struct MemoryFigures {
    pub total_ram: u64,
    pub available_ram: u64,
    pub used_ram: u64,
    pub usage_hundredths: u64,
}

/// `used` of `total` in hundredths of a percent, rounded half up (zero for
/// an empty total).
pub open spec fn hundredths_of(used: nat, total: nat) -> nat {
    if total == 0 { 0 } else { (20000 * used + total) / (2 * total) }
}

/// The memory figures of one reading: used is total minus available (never
/// below zero).
pub fn memory_figures(total_ram: u64, available_ram: u64) -> (m: MemoryFigures)
    ensures
        m.total_ram == total_ram,
        m.available_ram == available_ram,
        m.used_ram == (if total_ram >= available_ram { total_ram - available_ram } else { 0 }),
        m.usage_hundredths == hundredths_of(m.used_ram as nat, total_ram as nat),
        m.usage_hundredths <= 10000,
{
    let used = if total_ram >= available_ram { total_ram - available_ram } else { 0 };
    let usage = if total_ram == 0 {
        0
    } else {
        let u = used as u128;
        let t = total_ram as u128;
        assert(20000 * u + t <= 20001 * t) by (nonlinear_arith)
            requires u <= t;
        let q = (20000 * u + t) / (2 * t);
        assert(q <= 10000) by (nonlinear_arith)
            requires q == (20000 * u + t) / (2 * t), u <= t, t > 0;
        q as u64
    };
    MemoryFigures { total_ram, available_ram, used_ram: used, usage_hundredths: usage }
}

/// The error when the memory status cannot be read.
pub const MEMORY_STATUS_ERROR: &'static str = "调用 GlobalMemoryStatusEx 获取物理内存状态失败";
/// The error when no process snapshot can be taken.
pub const PROCESS_SNAPSHOT_ERROR: &'static str = "创建进程快照 (CreateToolhelp32Snapshot) 失败";

/// What happened to one process of the snapshot: its id and whether its
/// working set was emptied (opened and trimmed).
#[derive(Clone, Copy)]
pub struct TrimOutcome {
    pub pid: u32,
    pub trimmed: bool,
}

/// The processes counted as trimmed: a real process (not the idle process,
/// id 0) whose working set was emptied.
pub open spec fn trimmed_count(s: Seq<TrimOutcome>) -> nat
    decreases s.len(),
{
    if s.len() == 0 {
        0
    } else {
        trimmed_count(s.drop_last()) + if s.last().pid != 0 && s.last().trimmed { 1nat } else { 0nat }
    }
}

proof fn lemma_trimmed_count_le(s: Seq<TrimOutcome>)
    ensures
        trimmed_count(s) <= s.len(),
    decreases s.len(),
{
    if s.len() > 0 {
        lemma_trimmed_count_le(s.drop_last());
    }
}

/// Counts the trimmed processes.
pub fn count_trimmed(outcomes: &Vec<TrimOutcome>) -> (n: u32)
    requires
        outcomes@.len() <= u32::MAX,
    ensures
        n == trimmed_count(outcomes@),
{
    let mut n: u32 = 0;
    let len = outcomes.len();
    for k in 0..len
        invariant
            len == outcomes@.len() <= u32::MAX,
            n == trimmed_count(outcomes@.take(k as int)),
    {
        assert(outcomes@.take(k + 1).drop_last() =~= outcomes@.take(k as int));
        assert(outcomes@.take(k + 1).last() == outcomes@[k as int]);
        proof { lemma_trimmed_count_le(outcomes@.take(k as int)); }
        if outcomes[k].pid != 0 && outcomes[k].trimmed {
            n += 1;
        }
    }
    assert(outcomes@.take(len as int) =~= outcomes@);
    n
}

/// The outcome of a trim, without the fractional figures.
pub struct CleanFigures {
    pub freed_bytes: u64,
    pub processes_trimmed: u32,
    pub standby_freed_bytes: u64,
    pub clean_mode: String,
    pub is_admin: bool,
}

/// The text naming the deep trim.
pub open spec fn deep_mode() -> Seq<char> {
    "PCL2 深度内核优化 (待机缓存+全工作集)"@
}

/// The text naming the standard trim.
pub open spec fn standard_mode() -> Seq<char> {
    "标准工作集修剪 (以管理员运行可激活内核待机优化)"@
}

/// The trim outcome: what the used memory went down by (zero if it went
/// up), counted wholly as standby memory when the standby list was purged,
/// and the deep mode when the purge worked or the process is elevated.
pub fn clean_figures(before_used: u64, after_used: u64, processes_trimmed: u32, standby_purged: bool, is_admin: bool)
    -> (c: CleanFigures)
    ensures
        c.freed_bytes == (if after_used < before_used { before_used - after_used } else { 0 }),
        c.processes_trimmed == processes_trimmed,
        c.standby_freed_bytes == (if standby_purged { c.freed_bytes } else { 0 }),
        c.clean_mode@ == (if standby_purged || is_admin { deep_mode() } else { standard_mode() }),
        c.is_admin == is_admin,
{
    let freed = if after_used < before_used { before_used - after_used } else { 0 };
    CleanFigures {
        freed_bytes: freed,
        processes_trimmed,
        standby_freed_bytes: if standby_purged { freed } else { 0 },
        clean_mode: if standby_purged || is_admin {
            owned("PCL2 深度内核优化 (待机缓存+全工作集)")
        } else {
            owned("标准工作集修剪 (以管理员运行可激活内核待机优化)")
        },
        is_admin,
    }
}

} // verus!
