//! Download progress bookkeeping: a sliding-window speed and ETA estimator,
//! per-chunk progress, and the rule that settles a finished download run.

use vstd::prelude::*;
use std::collections::VecDeque;
use std::time::{Duration, Instant};
use crate::downloader::types::{DownloadChunk, TaskStatus};

verus! {

#[verifier::external_type_specification]
#[verifier::external_body]
pub struct ExInstant(Instant);

/// `Instant::now()`: the current reading of the monotonic clock.
#[verifier::external_body]
fn clock_now() -> Instant {
    Instant::now()
}

/// `now.duration_since(origin).as_nanos()`: nanoseconds between two clock
/// readings (zero where `origin` is later); it depends on when the readings
/// were taken, so nothing is stated of the value.
#[verifier::external_body]
fn nanos_between(origin: &Instant, now: &Instant) -> u128 {
    now.duration_since(*origin).as_nanos()
}

/// `Duration::as_nanos` of a duration: its whole length in nanoseconds, a
/// function of the duration alone.
pub uninterp spec fn duration_as_nanos(d: Duration) -> u128;

/// `Duration::as_nanos`, named by [`duration_as_nanos`].
#[verifier::external_body]
fn duration_nanos(d: Duration) -> (n: u128)
    ensures
        n == duration_as_nanos(d),
{
    d.as_nanos()
}

/// Samples must span more than 50 ms before a rate is given.
pub open spec fn min_span_nanos() -> u128 {
    50_000_000
}

/// Sliding-window transfer-rate and remaining-time estimator.
pub struct SpeedTracker {
    /// Clock reading the sample times are measured from.
    origin: Instant,
    /// `(nanoseconds since origin, bytes downloaded so far)`, oldest first.
    samples: VecDeque<(u128, u64)>,
    /// Window length in nanoseconds.
    window_nanos: u128,
}

/// Drops the oldest samples that fell out of the window, keeping two at
/// least.
pub open spec fn prune(samples: Seq<(u128, u64)>, now: u128, window: u128) -> Seq<(u128, u64)>
    decreases samples.len(),
{
    if samples.len() > 2 && (if now >= samples[0].0 { now - samples[0].0 } else { 0 }) > window {
        prune(samples.drop_first(), now, window)
    } else {
        samples
    }
}

/// The window only drops the oldest samples: what stays is the most recent
/// part of the samples, and never fewer than two of them (or all, when there
/// are fewer).
pub proof fn lemma_prune_keeps_recent(samples: Seq<(u128, u64)>, now: u128, window: u128)
    ensures
        prune(samples, now, window).len() <= samples.len(),
        samples.len() >= 2 ==> prune(samples, now, window).len() >= 2,
        samples.len() < 2 ==> prune(samples, now, window) == samples,
        prune(samples, now, window) == samples.skip(samples.len() - prune(samples, now, window).len()),
    decreases samples.len(),
{
    if samples.len() > 2 && (if now >= samples[0].0 { now - samples[0].0 } else { 0 }) > window {
        lemma_prune_keeps_recent(samples.drop_first(), now, window);
        let p = prune(samples.drop_first(), now, window);
        assert(samples.drop_first().skip(samples.drop_first().len() - p.len()) =~= samples.skip(samples.len() - p.len()));
    } else {
        assert(samples.skip(0) =~= samples);
    }
}

/// `a * 1e9 / b` rounded down and capped at `u64::MAX`: bytes per second for
/// `a` bytes over `b` nanoseconds.
pub open spec fn rate_per_second(a: nat, b: nat) -> nat {
    let r = a * 1_000_000_000 / b;
    if r > u64::MAX { u64::MAX as nat } else { r }
}

/// Whole seconds, rounded up and at least one, to move `remaining` bytes at
/// `speed` bytes per second.
pub open spec fn eta_seconds(remaining: nat, speed: nat) -> nat {
    let s: int = (remaining + speed - 1) / (speed as int);
    if s < 1 { 1 } else { s as nat }
}

/// `(rate, remaining seconds)` from the pruned samples: zero while there are
/// fewer than two samples or they span 50 ms or less; the remaining time is
/// zero when the rate is zero or nothing remains.
pub open spec fn estimate(samples: Seq<(u128, u64)>, now: u128, current: u64, total: u64) -> (u64, u64) {
    if samples.len() < 2 {
        (0, 0)
    } else {
        let oldest = samples[0];
        let span: nat = if now >= oldest.0 { (now - oldest.0) as nat } else { 0 };
        if span <= min_span_nanos() {
            (0, 0)
        } else {
            let delta: nat = if current >= oldest.1 { (current - oldest.1) as nat } else { 0 };
            let speed = rate_per_second(delta, span);
            let eta = if speed > 0 && total > current {
                eta_seconds((total - current) as nat, speed)
            } else {
                0
            };
            (speed as u64, eta as u64)
        }
    }
}

impl SpeedTracker {
    /// The samples, oldest first.
    pub closed spec fn sample_seq(&self) -> Seq<(u128, u64)> {
        self.samples@
    }

    /// The window length in nanoseconds.
    pub closed spec fn window(&self) -> u128 {
        self.window_nanos
    }

    /// A tracker with no samples and the given window.
    pub fn new(window_duration: Duration) -> (t: Self)
        ensures
            t.sample_seq() == Seq::<(u128, u64)>::empty(),
            t.window() == duration_as_nanos(window_duration),
    {
        SpeedTracker {
            origin: clock_now(),
            samples: VecDeque::new(),
            window_nanos: duration_nanos(window_duration),
        }
    }

    /// Records `current_bytes` at clock reading `now` (nanoseconds since the
    /// tracker was made), prunes the window, and estimates rate and remaining
    /// time towards `total_bytes`.
    pub fn update_at(&mut self, now: u128, current_bytes: u64, total_bytes: u64) -> (r: (u64, u64))
        ensures
            final(self).window() == old(self).window(),
            final(self).sample_seq() == prune(
                old(self).sample_seq().push((now, current_bytes)),
                now,
                old(self).window(),
            ),
            r == estimate(final(self).sample_seq(), now, current_bytes, total_bytes),
    {
        self.samples.push_back((now, current_bytes));
        loop
            invariant
                prune(self.samples@, now, self.window_nanos) == prune(
                    old(self).samples@.push((now, current_bytes)),
                    now,
                    old(self).window_nanos,
                ),
                self.window_nanos == old(self).window_nanos,
            ensures
                self.samples@ == prune(self.samples@, now, self.window_nanos),
                prune(self.samples@, now, self.window_nanos) == prune(
                    old(self).samples@.push((now, current_bytes)),
                    now,
                    old(self).window_nanos,
                ),
                self.window_nanos == old(self).window_nanos,
            decreases self.samples@.len(),
        {
            if self.samples.len() <= 2 {
                break;
            }
            let first = self.samples[0].0;
            let age = if now >= first { now - first } else { 0 };
            if age > self.window_nanos {
                let _ = self.samples.pop_front();
            } else {
                break;
            }
        }
        if self.samples.len() < 2 {
            return (0, 0);
        }
        let (oldest_time, oldest_bytes) = self.samples[0];
        let span: u128 = if now >= oldest_time { now - oldest_time } else { 0 };
        if span <= 50_000_000 {
            return (0, 0);
        }
        let delta: u64 = if current_bytes >= oldest_bytes { current_bytes - oldest_bytes } else { 0 };
        assert(delta * 1_000_000_000 <= u64::MAX * 1_000_000_000) by (nonlinear_arith)
            requires delta <= u64::MAX;
        let raw: u128 = (delta as u128) * 1_000_000_000 / span;
        let speed: u64 = if raw > 18_446_744_073_709_551_615u128 { u64::MAX } else { raw as u64 };
        let eta: u64 = if speed > 0 && total_bytes > current_bytes {
            let remaining = total_bytes - current_bytes;
            let secs = remaining / speed + if remaining % speed == 0 { 0 } else { 1 };
            proof {
                let rm = remaining as nat;
                let sp = speed as nat;
                assert((rm + sp - 1) / (sp as int) == (rm / sp) as int + if rm % sp == 0 { 0int } else { 1int }) by (nonlinear_arith)
                    requires sp > 0;
            }
            if secs < 1 { 1 } else { secs }
        } else {
            0
        };
        (speed, eta)
    }

    /// Records the current byte count at the current clock reading (see
    /// [`SpeedTracker::update_at`]); the reading itself depends on time.
    pub fn update(&mut self, current_bytes: u64, total_bytes: u64) -> (r: (u64, u64))
        ensures
            final(self).window() == old(self).window(),
            exists|now: u128|
                final(self).sample_seq() == prune(old(self).sample_seq().push((now, current_bytes)), now, old(self).window())
                && r == #[trigger] estimate(final(self).sample_seq(), now, current_bytes, total_bytes),
    {
        let now_instant = clock_now();
        let now = nanos_between(&self.origin, &now_instant);
        self.update_at(now, current_bytes, total_bytes)
    }

    /// Forgets every sample.
    pub fn reset(&mut self)
        ensures
            final(self).sample_seq() == Seq::<(u128, u64)>::empty(),
            final(self).window() == old(self).window(),
    {
        self.samples.clear();
    }
}

} // verus!

verus! {

/// Number of bytes a chunk covers (`end - start + 1`, with an inverted range
/// counting as one byte).
pub open spec fn chunk_size(c: DownloadChunk) -> nat {
    (if c.end >= c.start { (c.end - c.start) as nat } else { 0nat }) + 1
}

/// A chunk whose size fits in `u64`.
pub open spec fn chunk_size_fits(c: DownloadChunk) -> bool {
    chunk_size(c) <= u64::MAX
}

/// Size of a chunk in bytes.
pub fn chunk_byte_len(c: &DownloadChunk) -> (n: u64)
    requires
        chunk_size_fits(*c),
    ensures
        n == chunk_size(*c),
{
    let span = if c.end >= c.start { c.end - c.start } else { 0 };
    span + 1
}

/// A chunk still to be fetched: not marked finished and not fully counted.
pub open spec fn chunk_pending_spec(c: DownloadChunk) -> bool {
    !c.is_finished && c.downloaded < chunk_size(c)
}

/// Whether a chunk still has bytes to fetch.
pub fn chunk_pending(c: &DownloadChunk) -> (b: bool)
    requires
        chunk_size_fits(*c),
    ensures
        b == chunk_pending_spec(*c),
{
    !c.is_finished && c.downloaded < chunk_byte_len(c)
}

/// Byte range still to request for a chunk: from where it stopped to its
/// end, or nothing when it has gone past its end.
pub open spec fn chunk_resume_spec(c: DownloadChunk) -> Option<(u64, u64)> {
    let from = c.start + c.downloaded;
    if from > c.end {
        None
    } else {
        Some((from as u64, c.end))
    }
}

/// Range request that resumes a chunk.
pub fn chunk_resume_range(c: &DownloadChunk) -> (r: Option<(u64, u64)>)
    requires
        c.start + c.downloaded <= u64::MAX,
    ensures
        r == chunk_resume_spec(*c),
{
    let from = c.start + c.downloaded;
    if from > c.end {
        None
    } else {
        Some((from, c.end))
    }
}

/// Records that a chunk's bytes have been written up to (excluding)
/// `current_offset`; it is finished once its whole size is counted.
pub fn record_chunk_progress(c: &mut DownloadChunk, current_offset: u64)
    requires
        chunk_size_fits(*old(c)),
    ensures
        final(c).id == old(c).id,
        final(c).start == old(c).start,
        final(c).end == old(c).end,
        final(c).downloaded == (if current_offset >= old(c).start { current_offset - old(c).start } else { 0 }),
        final(c).is_finished == (old(c).is_finished || final(c).downloaded >= chunk_size(*old(c))),
{
    let d = if current_offset >= c.start { current_offset - c.start } else { 0 };
    c.downloaded = d;
    if d >= chunk_byte_len(c) {
        c.is_finished = true;
    }
}

/// Range request of a single-stream download that resumes after
/// `already` bytes: to the last byte of the file, or none when starting over.
pub fn stream_resume_range(already: u64, total_bytes: u64) -> (r: Option<(u64, u64)>)
    ensures
        r == (if already > 0 {
            Some((already, if total_bytes > 0 { (total_bytes - 1) as u64 } else { 0u64 }))
        } else {
            None
        }),
{
    if already > 0 {
        Some((already, if total_bytes > 0 { total_bytes - 1 } else { 0 }))
    } else {
        None
    }
}

/// Records single-stream progress on the only chunk: all bytes up to
/// `current_offset`, finished once a known total is reached.
pub fn record_stream_progress(c: &mut DownloadChunk, current_offset: u64, total_bytes: u64)
    ensures
        final(c).id == old(c).id,
        final(c).start == old(c).start,
        final(c).end == old(c).end,
        final(c).downloaded == current_offset,
        final(c).is_finished == (old(c).is_finished || (total_bytes > 0 && current_offset >= total_bytes)),
{
    c.downloaded = current_offset;
    if total_bytes > 0 && current_offset >= total_bytes {
        c.is_finished = true;
    }
}

/// Threads used for a new task: 4 unless asked, kept within 1 to 32.
pub fn task_thread_count(requested: Option<usize>) -> (n: usize)
    ensures
        n == (match requested {
            Some(t) => if t < 1 { 1 } else if t > 32 { 32 } else { t },
            None => 4,
        }),
{
    let t = match requested {
        Some(t) => t,
        None => 4,
    };
    if t < 1 { 1 } else if t > 32 { 32 } else { t }
}

/// Every chunk is marked finished.
pub open spec fn all_finished(chunks: Seq<DownloadChunk>) -> bool {
    forall|i: int| 0 <= i < chunks.len() ==> #[trigger] chunks[i].is_finished
}

/// A run is complete when every chunk finished (ranged download of a known
/// size), all bytes arrived (single stream of a known size), or anything
/// arrived (unknown size).
pub open spec fn download_complete_spec(supports_range: bool, total: u64, chunks: Seq<DownloadChunk>, downloaded: u64) -> bool {
    if supports_range && total > 0 {
        all_finished(chunks)
    } else if total > 0 {
        downloaded >= total
    } else {
        downloaded > 0
    }
}

/// Whether a download run got every byte.
pub fn download_complete(supports_range: bool, total: u64, chunks: &Vec<DownloadChunk>, downloaded: u64) -> (b: bool)
    ensures
        b == download_complete_spec(supports_range, total, chunks@, downloaded),
{
    if supports_range && total > 0 {
        let n = chunks.len();
        let mut i: usize = 0;
        while i < n
            invariant
                i <= n == chunks@.len(),
                supports_range && total > 0,
                forall|j: int| 0 <= j < i ==> #[trigger] chunks@[j].is_finished,
            decreases n - i,
        {
            if !chunks[i].is_finished {
                assert(!chunks@[i as int].is_finished);
                return false;
            }
            i += 1;
        }
        true
    } else if total > 0 {
        downloaded >= total
    } else {
        downloaded > 0
    }
}

/// How a download run ended.
#[derive(Clone, Debug, PartialEq, Eq)]
pub enum RunOutcome {
    /// Stopped on request: the task is paused (or keeps its cancelled state).
    Stopped,
    /// Some worker failed; the message lists every failure.
    Failed(String),
    /// Every byte arrived: the file is renamed into place.
    Completed,
    /// The connection ended early without an error.
    Incomplete,
}

/// Settles a run: a stop request wins, then any worker failure, then
/// completeness.
pub fn settle_run(
    stop_requested: bool,
    errors: &Vec<String>,
    supports_range: bool,
    total: u64,
    chunks: &Vec<DownloadChunk>,
    downloaded: u64,
) -> (r: RunOutcome)
    ensures
        stop_requested ==> r == RunOutcome::Stopped,
        !stop_requested && errors@.len() > 0 ==> (r matches RunOutcome::Failed(m) && m@
            == crate::unrestrict::join_spec(crate::unrestrict::strings_view(errors@), "; "@)),
        !stop_requested && errors@.len() == 0 ==> r == (if download_complete_spec(
            supports_range,
            total,
            chunks@,
            downloaded,
        ) {
            RunOutcome::Completed
        } else {
            RunOutcome::Incomplete
        }),
{
    if stop_requested {
        return RunOutcome::Stopped;
    }
    if errors.len() > 0 {
        return RunOutcome::Failed(crate::unrestrict::join_strings(errors, "; "));
    }
    if download_complete(supports_range, total, chunks, downloaded) {
        RunOutcome::Completed
    } else {
        RunOutcome::Incomplete
    }
}

/// State a task takes when its run is stopped or the program restarts:
/// a running task becomes paused, any other keeps its state.
pub fn status_when_stopped(s: TaskStatus) -> (r: TaskStatus)
    ensures
        r == (if s == TaskStatus::Downloading { TaskStatus::Paused } else { s }),
{
    match s {
        TaskStatus::Downloading => TaskStatus::Paused,
        _ => s,
    }
}

/// Only paused and failed tasks can be resumed.
pub fn is_resumable(s: TaskStatus) -> (b: bool)
    ensures
        b == (s == TaskStatus::Paused || s == TaskStatus::Failed),
{
    match s {
        TaskStatus::Paused | TaskStatus::Failed => true,
        _ => false,
    }
}

} // verus!

verus! {

/// A requested name or directory counts when it has more than white space;
/// it is used trimmed, otherwise the fallback stands.
pub open spec fn chosen_text(requested: Option<Seq<char>>, fallback: Seq<char>) -> Seq<char> {
    match requested {
        Some(r) => if crate::strs::trim(r, crate::strs::CharClass::Whitespace).len() > 0 {
            crate::strs::trim(r, crate::strs::CharClass::Whitespace)
        } else {
            fallback
        },
        None => fallback,
    }
}

/// Picks the file name (or save directory) of a new task.
pub fn choose_task_text(requested: Option<&str>, fallback: &str) -> (r: String)
    ensures
        r@ == chosen_text(match requested { Some(s) => Some(s@), None => None }, fallback@),
{
    match requested {
        Some(s) => {
            let cs = crate::text::str_chars(s);
            let t = crate::strs::trim_chars(cs.as_slice(), crate::strs::CharClass::Whitespace);
            if t.len() > 0 {
                crate::text::chars_to_string(t.as_slice())
            } else {
                fallback.to_owned()
            }
        },
        None => fallback.to_owned(),
    }
}

/// Chunks of a new task: one per thread where the server serves ranges of a
/// known size, a single chunk otherwise.
pub fn plan_task_chunks(supports_range: bool, total_bytes: u64, thread_count: usize) -> (chunks: Vec<DownloadChunk>)
    ensures
        ({
            let k: usize = if supports_range && total_bytes > 0 { thread_count } else { 1 };
            &&& chunks@.len() == crate::downloader::client::chunk_count(total_bytes, k)
            &&& forall|i: int| 0 <= i < chunks@.len() ==> chunks@[i] == crate::downloader::client::chunk_plan(total_bytes, k, i)
        }),
{
    if supports_range && total_bytes > 0 {
        crate::downloader::client::split_into_chunks(total_bytes, thread_count)
    } else {
        crate::downloader::client::split_into_chunks(total_bytes, 1)
    }
}

} // verus!

verus! {

/// The lifecycle part of a task that its commands change.
pub struct TaskState {
    pub status: TaskStatus,
    pub speed_bps: u64,
    pub eta_seconds: u64,
    pub error_message: Option<String>,
}

/// Pausing: a running task becomes paused with no speed or estimate; any
/// other task is left alone.
pub fn pause_state(s: &mut TaskState)
    ensures
        old(s).status == TaskStatus::Downloading ==> final(s).status == TaskStatus::Paused
            && final(s).speed_bps == 0 && final(s).eta_seconds == 0 && final(s).error_message == old(s).error_message,
        old(s).status != TaskStatus::Downloading ==> *final(s) == *old(s),
{
    if s.status == TaskStatus::Downloading {
        s.status = TaskStatus::Paused;
        s.speed_bps = 0;
        s.eta_seconds = 0;
    }
}

/// Stopping a run (a pause or a cancel request): a running task becomes
/// paused; speed and estimate drop to zero in any case.
pub fn stop_state(s: &mut TaskState)
    ensures
        final(s).status == (if old(s).status == TaskStatus::Downloading { TaskStatus::Paused } else { old(s).status }),
        final(s).speed_bps == 0,
        final(s).eta_seconds == 0,
        final(s).error_message == old(s).error_message,
{
    s.status = status_when_stopped(s.status);
    s.speed_bps = 0;
    s.eta_seconds = 0;
}

/// Cancelling a task that is kept: cancelled, no speed or estimate.
pub fn cancel_state(s: &mut TaskState)
    ensures
        final(s).status == TaskStatus::Cancelled,
        final(s).speed_bps == 0,
        final(s).eta_seconds == 0,
        final(s).error_message == old(s).error_message,
{
    s.status = TaskStatus::Cancelled;
    s.speed_bps = 0;
    s.eta_seconds = 0;
}

/// Failing a task with a message.
pub fn fail_state(s: &mut TaskState, message: &str)
    ensures
        final(s).status == TaskStatus::Failed,
        final(s).speed_bps == 0,
        final(s).eta_seconds == 0,
        final(s).error_message matches Some(m) && m@ == message@,
{
    s.status = TaskStatus::Failed;
    s.speed_bps = 0;
    s.eta_seconds = 0;
    s.error_message = Some(crate::quality::owned(message));
}

/// Resuming a task: running again, its error cleared.
pub fn resume_state(s: &mut TaskState)
    ensures
        final(s).status == TaskStatus::Downloading,
        final(s).speed_bps == old(s).speed_bps,
        final(s).eta_seconds == old(s).eta_seconds,
        final(s).error_message is None,
{
    s.status = TaskStatus::Downloading;
    s.error_message = None;
}

/// Completing a task: done, no speed, estimate or error.
pub fn complete_state(s: &mut TaskState)
    ensures
        final(s).status == TaskStatus::Completed,
        final(s).speed_bps == 0,
        final(s).eta_seconds == 0,
        final(s).error_message is None,
{
    s.status = TaskStatus::Completed;
    s.speed_bps = 0;
    s.eta_seconds = 0;
    s.error_message = None;
}

/// Bytes counted over all chunks.
pub open spec fn downloaded_sum(chunks: Seq<DownloadChunk>) -> nat
    decreases chunks.len(),
{
    if chunks.len() == 0 { 0 } else { downloaded_sum(chunks.drop_last()) + chunks.last().downloaded as nat }
}

/// The bytes a task has from its chunks (capped at `u64::MAX`).
pub fn sum_downloaded(chunks: &Vec<DownloadChunk>) -> (n: u64)
    ensures
        n as nat == (if downloaded_sum(chunks@) > u64::MAX { u64::MAX as nat } else { downloaded_sum(chunks@) }),
{
    let mut total: u64 = 0;
    let mut capped = false;
    let len = chunks.len();
    for k in 0..len
        invariant
            len == chunks@.len(),
            capped ==> total == u64::MAX && downloaded_sum(chunks@.take(k as int)) > u64::MAX,
            !capped ==> total == downloaded_sum(chunks@.take(k as int)),
    {
        assert(chunks@.take(k + 1).drop_last() =~= chunks@.take(k as int));
        if !capped {
            match total.checked_add(chunks[k].downloaded) {
                Some(t) => { total = t; },
                None => { total = u64::MAX; capped = true; },
            }
        }
    }
    assert(chunks@.take(len as int) =~= chunks@);
    total
}

/// The bytes a completed task reports: its total when known, else what
/// arrived.
pub fn completed_bytes(total_bytes: u64, downloaded: u64) -> (n: u64)
    ensures
        n == (if total_bytes > 0 { total_bytes } else { downloaded }),
{
    if total_bytes > 0 { total_bytes } else { downloaded }
}

/// Whether a saved part file belongs to the task: same size and as many
/// chunks.
pub fn part_file_matches(saved_total: u64, saved_chunks: usize, total_bytes: u64, chunks: usize) -> (b: bool)
    ensures
        b == (saved_total == total_bytes && saved_chunks == chunks),
{
    saved_total == total_bytes && saved_chunks == chunks
}

/// The error reported for an unknown task id.
pub fn missing_task_error(id: &str) -> (e: String)
    ensures
        e@ == "任务不存在: "@ + id@,
{
    crate::text::concat_str("任务不存在: ", id)
}

/// What a worker's failure adds to the run's errors: nothing for a cancel,
/// else the message naming the chunk (or the single stream).
pub fn worker_error(chunk: Option<usize>, err: &str) -> (e: Option<String>)
    ensures
        err@ == "download_cancelled"@ ==> e is None,
        err@ != "download_cancelled"@ ==> (e matches Some(m) && m@ == (match chunk {
            Some(id) => "分片 "@ + crate::text::decimal(id as nat) + " 下载失败: "@ + err@,
            None => "流式下载失败: "@ + err@,
        })),
{
    if crate::text::str_eq(err, "download_cancelled") {
        return None;
    }
    match chunk {
        Some(id) => {
            let mut m = crate::quality::owned("分片 ");
            crate::text::push_decimal(&mut m, id as u64);
            let head = crate::text::concat_str(m.as_str(), " 下载失败: ");
            Some(crate::text::concat_str(head.as_str(), err))
        },
        None => Some(crate::text::concat_str("流式下载失败: ", err)),
    }
}

/// The order tasks are listed in: by creation time, earlier first.
pub open spec fn created_le_fn() -> spec_fn((u64, usize), (u64, usize)) -> bool {
    |a: (u64, usize), b: (u64, usize)| a.0 <= b.0
}

/// Sorts `(created_at, position)` pairs by creation time, keeping the
/// given order among equal times.
pub fn sort_by_created(items: Vec<(u64, usize)>) -> (out: Vec<(u64, usize)>)
    ensures
        out@ == crate::sorting::sort_by(items@, created_le_fn()),
{
    let ghost orig = items@;
    let mut rest = items;
    let mut out: Vec<(u64, usize)> = Vec::new();
    let n = rest.len();
    let mut k: usize = 0;
    while k < n
        invariant
            k <= n == orig.len(),
            rest@ == orig.skip(k as int),
            out@ == crate::sorting::sort_by(orig.take(k as int), created_le_fn()),
        decreases n - k,
    {
        let x = rest.remove(0);
        assert(x == orig[k as int]);
        assert(rest@ =~= orig.skip(k + 1));
        let ghost s = out@;
        let mut j: usize = 0;
        while j < out.len() && out[j].0 <= x.0
            invariant
                j <= out@.len(),
                s == out@,
                crate::sorting::insert_pos(s, x, created_le_fn(), 0) == crate::sorting::insert_pos(s, x, created_le_fn(), j as int),
            decreases out@.len() - j,
        {
            j += 1;
        }
        assert(crate::sorting::insert_pos(s, x, created_le_fn(), j as int) == j);
        out.insert(j, x);
        assert(orig.take(k + 1).drop_last() =~= orig.take(k as int));
        assert(orig.take(k + 1).last() == x);
        k += 1;
    }
    assert(orig.take(n as int) =~= orig);
    out
}

/// Listing by creation time is total and transitive, so the listing is
/// ordered and keeps every task.
pub proof fn lemma_created_order(items: Seq<(u64, usize)>)
    ensures
        crate::sorting::sorted_by(crate::sorting::sort_by(items, created_le_fn()), created_le_fn()),
        crate::sorting::sort_by(items, created_le_fn()).to_multiset() == items.to_multiset(),
{
    assert(crate::sorting::total_preorder(created_le_fn()));
    crate::sorting::lemma_sort_by_sorted(items, created_le_fn());
    crate::sorting::lemma_sort_by_permutes(items, created_le_fn());
}

/// Milliseconds between two looks of the coordinator at its workers.
pub const PROGRESS_POLL_MILLIS: u64 = 100;

/// Milliseconds after which the progress file is saved again.
pub const PART_SAVE_INTERVAL_MILLIS: u128 = 500;

/// Whether the progress file is due to be saved, `elapsed_millis` after the
/// last save: at least every half second.
pub fn part_save_due(elapsed_millis: u128) -> (b: bool)
    ensures
        b == (elapsed_millis >= PART_SAVE_INTERVAL_MILLIS),
{
    elapsed_millis >= PART_SAVE_INTERVAL_MILLIS
}

/// A task on the download list: its id and its lifecycle state.
pub struct TaskEntry {
    pub id: String,
    pub state: TaskState,
}

/// The position of the first task with id `id` at or after `k`.
pub open spec fn task_index_from(list: Seq<TaskEntry>, id: Seq<char>, k: int) -> Option<int>
    decreases list.len() - k,
{
    if k < 0 || k >= list.len() {
        None
    } else if list[k].id@ == id {
        Some(k)
    } else {
        task_index_from(list, id, k + 1)
    }
}

/// The position of the task with id `id` on the list.
pub open spec fn task_index(list: Seq<TaskEntry>, id: Seq<char>) -> Option<int> {
    task_index_from(list, id, 0)
}

proof fn lemma_task_index_from(list: Seq<TaskEntry>, id: Seq<char>, k: int)
    requires
        0 <= k <= list.len(),
    ensures
        task_index_from(list, id, k) matches Some(i) ==> k <= i < list.len() && list[i].id@ == id,
    decreases list.len() - k,
{
    if k < list.len() && list[k].id@ != id {
        lemma_task_index_from(list, id, k + 1);
    }
}

/// Finds the task with id `id` (see [`task_index`]).
pub fn find_task(list: &Vec<TaskEntry>, id: &str) -> (r: Option<usize>)
    ensures
        match r {
            Some(i) => task_index(list@, id@) == Some(i as int),
            None => task_index(list@, id@) is None,
        },
{
    let n = list.len();
    let mut k: usize = 0;
    while k < n
        invariant
            k <= n == list@.len(),
            task_index(list@, id@) == task_index_from(list@, id@, k as int),
        decreases n - k,
    {
        if crate::text::str_eq(list[k].id.as_str(), id) {
            return Some(k);
        }
        k += 1;
    }
    None
}

/// Every task but the one at `i` is the same on both lists, which are as long.
pub open spec fn others_unchanged(before: Seq<TaskEntry>, after: Seq<TaskEntry>, i: int) -> bool {
    &&& after.len() == before.len()
    &&& forall|j: int| 0 <= j < before.len() && j != i ==> #[trigger] after[j] == before[j]
}

/// Resumes task `id` on the list. An unknown id is the "task does not exist"
/// error and changes nothing; a task that is neither paused nor failed is
/// left as it is (`Ok(false)`); otherwise that task alone runs again with
/// its error cleared (`Ok(true)`).
pub fn resume_task_in(list: &mut Vec<TaskEntry>, id: &str) -> (r: Result<bool, String>)
    ensures
        match task_index(old(list)@, id@) {
            None => (r matches Err(e) && e@ == "任务不存在: "@ + id@) && final(list)@ == old(list)@,
            Some(i) => if !(old(list)@[i].state.status == TaskStatus::Paused || old(list)@[i].state.status == TaskStatus::Failed) {
                r == Ok::<bool, String>(false) && final(list)@ == old(list)@
            } else {
                &&& r == Ok::<bool, String>(true)
                &&& others_unchanged(old(list)@, final(list)@, i)
                &&& final(list)@[i].id == old(list)@[i].id
                &&& final(list)@[i].state.status == TaskStatus::Downloading
                &&& final(list)@[i].state.speed_bps == old(list)@[i].state.speed_bps
                &&& final(list)@[i].state.eta_seconds == old(list)@[i].state.eta_seconds
                &&& final(list)@[i].state.error_message is None
            },
        },
{
    proof { lemma_task_index_from(list@, id@, 0); }
    match find_task(list, id) {
        None => Err(missing_task_error(id)),
        Some(i) => {
            if !is_resumable(list[i].state.status) {
                return Ok(false);
            }
            let mut e = list.remove(i);
            resume_state(&mut e.state);
            list.insert(i, e);
            Ok(true)
        },
    }
}

/// Cancels task `id` on the list. An unknown id changes nothing. With
/// `delete` the task leaves the list and is handed back (its files are then
/// removed by the caller); without, that task alone becomes cancelled with no
/// speed or estimate. Every other task is unchanged.
pub fn cancel_task_in(list: &mut Vec<TaskEntry>, id: &str, delete: bool) -> (removed: Option<TaskEntry>)
    ensures
        match task_index(old(list)@, id@) {
            None => removed is None && final(list)@ == old(list)@,
            Some(i) => if delete {
                removed == Some(old(list)@[i]) && final(list)@ == old(list)@.remove(i)
            } else {
                &&& removed is None
                &&& others_unchanged(old(list)@, final(list)@, i)
                &&& final(list)@[i].id == old(list)@[i].id
                &&& final(list)@[i].state.status == TaskStatus::Cancelled
                &&& final(list)@[i].state.speed_bps == 0
                &&& final(list)@[i].state.eta_seconds == 0
                &&& final(list)@[i].state.error_message == old(list)@[i].state.error_message
            },
        },
{
    proof { lemma_task_index_from(list@, id@, 0); }
    match find_task(list, id) {
        None => None,
        Some(i) => {
            let mut e = list.remove(i);
            if delete {
                Some(e)
            } else {
                cancel_state(&mut e.state);
                list.insert(i, e);
                None
            }
        },
    }
}

} // verus!
