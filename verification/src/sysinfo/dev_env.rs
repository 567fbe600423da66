//! Developer tool versions: each tool is run with a deadline and a bounded
//! output; a tool that cannot be found or read yields quality-tagged empty
//! values, never a made-up version.

use vstd::prelude::*;
use crate::quality::{MetricQuality, MetricValue, metric_absent, metric_estimated, metric_present, owned};
use crate::strs::{trim, trim_chars, CharClass};
use crate::text::{str_chars, chars_to_string, utf8_lossy};

verus! {

/// At most this many bytes of a tool's output are kept.
pub const MAX_TOOL_OUTPUT_BYTES: usize = 65536;

/// One developer tool.
pub struct DevToolEntry {
    pub name: String,
    pub installed: MetricValue<bool>,
    pub version: MetricValue<String>,
    pub path: MetricValue<String>,
}

/// The developer environment.
pub struct DevEnvironmentSnapshot {
    pub tools: Vec<DevToolEntry>,
}

/// What probing one tool found.
pub struct ToolProbeResult {
    pub installed: bool,
    pub version: Option<String>,
    pub path: Option<String>,
    pub quality: MetricQuality,
    pub error: Option<String>,
}

/// `p` is a probe that found nothing, with quality `quality` and `reason`.
pub open spec fn probe_failed(p: ToolProbeResult, path: Option<Seq<char>>, quality: MetricQuality, reason: Seq<char>) -> bool {
    &&& !p.installed
    &&& p.version is None
    &&& match (p.path, path) {
        (Some(x), Some(y)) => x@ == y,
        (None, None) => true,
        _ => false,
    }
    &&& p.quality == quality
    &&& p.error matches Some(e) && e@ == reason
}

/// A probe result for a tool that is not available.
pub fn unavailable_probe(reason: &str) -> (p: ToolProbeResult)
    ensures
        probe_failed(p, None, MetricQuality::Unavailable, reason@),
{
    ToolProbeResult { installed: false, version: None, path: None, quality: MetricQuality::Unavailable, error: Some(owned(reason)) }
}

/// How many bytes of a chunk are kept when `have` bytes are kept already.
pub open spec fn keep_count(have: nat, chunk: nat) -> nat {
    if have >= MAX_TOOL_OUTPUT_BYTES { 0 }
    else if chunk < MAX_TOOL_OUTPUT_BYTES - have { chunk }
    else { (MAX_TOOL_OUTPUT_BYTES - have) as nat }
}

/// Keeps the part of a chunk read from a pipe that still fits in the
/// output limit; the rest is read and dropped.
pub fn append_bounded(out: &mut Vec<u8>, chunk: &[u8])
    ensures
        final(out)@ == old(out)@ + chunk@.take(keep_count(old(out)@.len(), chunk@.len()) as int),
{
    let have = out.len();
    if have >= MAX_TOOL_OUTPUT_BYTES {
        assert(chunk@.take(0) =~= Seq::<u8>::empty());
        assert(old(out)@ + Seq::<u8>::empty() =~= old(out)@);
        return;
    }
    let room = MAX_TOOL_OUTPUT_BYTES - have;
    let keep = if chunk.len() < room { chunk.len() } else { room };
    let ghost start = out@;
    let mut i: usize = 0;
    while i < keep
        invariant
            keep <= chunk@.len(),
            i <= keep,
            out@ == start + chunk@.take(i as int),
        decreases keep - i,
    {
        out.push(chunk[i]);
        assert(chunk@.take(i + 1) =~= chunk@.take(i as int).push(chunk@[i as int]));
        i += 1;
    }
}

/// Index of the first line feed of `t`, or its length.
pub open spec fn line_end(t: Seq<char>) -> int
    decreases t.len(),
{
    if t.len() == 0 { 0 } else if t[0] == '\n' { 0 } else { 1 + line_end(t.drop_first()) }
}

/// The first line of a tool's output (of its first `MAX_TOOL_OUTPUT_BYTES`
/// bytes, decoded with replacement), trimmed; `None` when it is blank.
pub open spec fn first_line_spec(output: Seq<u8>) -> Option<Seq<char>> {
    let bounded = if output.len() > MAX_TOOL_OUTPUT_BYTES { output.take(MAX_TOOL_OUTPUT_BYTES as int) } else { output };
    let text = utf8_lossy(bounded);
    let line = trim(text.take(line_end(text)), CharClass::Whitespace);
    if line.len() == 0 { None } else { Some(line) }
}

/// Reads the first line of a tool's output (see [`first_line_spec`]).
pub fn first_output_line(output: &[u8]) -> (r: Option<String>)
    ensures
        match r {
            Some(s) => first_line_spec(output@) == Some(s@),
            None => first_line_spec(output@) is None,
        },
{
    let n = if output.len() > MAX_TOOL_OUTPUT_BYTES { MAX_TOOL_OUTPUT_BYTES } else { output.len() };
    let bounded = vstd::slice::slice_subrange(output, 0, n);
    assert(output.len() > MAX_TOOL_OUTPUT_BYTES ==> bounded@ =~= output@.take(MAX_TOOL_OUTPUT_BYTES as int));
    assert(output.len() <= MAX_TOOL_OUTPUT_BYTES ==> bounded@ =~= output@);
    let text = crate::text::string_from_utf8_lossy(bounded);
    let cs = str_chars(text.as_str());
    let mut end: usize = 0;
    assert(cs@.skip(0) =~= cs@);
    while end < cs.len() && cs[end] != '\n'
        invariant
            end <= cs@.len(),
            line_end(cs@) == end + line_end(cs@.skip(end as int)),
        decreases cs@.len() - end,
    {
        assert(cs@.skip(end as int).drop_first() =~= cs@.skip(end + 1));
        end += 1;
    }
    if end == cs.len() {
        assert(cs@.skip(end as int) =~= Seq::<char>::empty());
    }
    let line = crate::strs::sub_chars(cs.as_slice(), 0, end);
    assert(line@ =~= cs@.take(end as int));
    let t = trim_chars(line.as_slice(), CharClass::Whitespace);
    if t.len() == 0 { None } else { Some(chars_to_string(t.as_slice())) }
}

/// The probe result of a tool that ran: a zero exit code with a first line
/// (of stdout, else of stderr) is the version; a zero exit code without one
/// is unavailable; any other exit code is a read error whose reason is that
/// line when there is one.
pub open spec fn parse_spec(p: ToolProbeResult, stdout: Seq<u8>, stderr: Seq<u8>, exit_code: i32) -> bool {
    let line = match first_line_spec(stdout) {
        Some(l) => Some(l),
        None => first_line_spec(stderr),
    };
    if exit_code == 0 {
        match line {
            Some(v) => {
                &&& p.installed
                &&& p.version matches Some(x) && x@ == v
                &&& p.path is None
                &&& p.quality == MetricQuality::Good
                &&& p.error is None
            },
            None => probe_failed(p, None, MetricQuality::Unavailable, "工具未返回版本信息"@),
        }
    } else {
        probe_failed(p, None, MetricQuality::ReadError, match line {
            Some(l) => l,
            None => "工具进程返回非零退出码"@,
        })
    }
}

/// Builds the probe result of a tool that ran (see [`parse_spec`]).
pub fn parse_tool_output(stdout: &[u8], stderr: &[u8], exit_code: i32) -> (p: ToolProbeResult)
    ensures
        parse_spec(p, stdout@, stderr@, exit_code),
{
    let line = match first_output_line(stdout) {
        Some(l) => Some(l),
        None => first_output_line(stderr),
    };
    if exit_code == 0 {
        match line {
            Some(v) => ToolProbeResult { installed: true, version: Some(v), path: None, quality: MetricQuality::Good, error: None },
            None => ToolProbeResult { installed: false, version: None, path: None, quality: MetricQuality::Unavailable,
                error: Some(owned("工具未返回版本信息")) },
        }
    } else {
        let reason = match line {
            Some(l) => l,
            None => owned("工具进程返回非零退出码"),
        };
        ToolProbeResult { installed: false, version: None, path: None, quality: MetricQuality::ReadError, error: Some(reason) }
    }
}

/// How waiting for a tool to exit ended, or what it does next.
#[derive(Clone, Copy, Debug, PartialEq, Eq, Structural)]
pub enum WaitStep {
    /// It exited in time with this code.
    Exited(i32),
    /// The deadline passed.
    TimedOut,
    /// Still running: sleep and poll again.
    Sleep,
    /// Polling failed; the exit code is unknown.
    Lost,
}

/// What polling a child process returned.
#[derive(Clone, Copy, Debug, PartialEq, Eq, Structural)]
pub enum ChildPoll {
    Exited(i32),
    Running,
    Failed,
}

/// One step of waiting for a tool: the deadline is checked before polling,
/// and an exit seen after the deadline counts as a timeout.
pub fn exit_wait_step(past_deadline: bool, poll: ChildPoll, before_deadline_now: bool) -> (s: WaitStep)
    ensures
        s == (if past_deadline { WaitStep::TimedOut } else {
            match poll {
                ChildPoll::Exited(c) => if before_deadline_now { WaitStep::Exited(c) } else { WaitStep::TimedOut },
                ChildPoll::Running => WaitStep::Sleep,
                ChildPoll::Failed => WaitStep::Lost,
            }
        }),
{
    if past_deadline {
        return WaitStep::TimedOut;
    }
    match poll {
        ChildPoll::Exited(c) => if before_deadline_now { WaitStep::Exited(c) } else { WaitStep::TimedOut },
        ChildPoll::Running => WaitStep::Sleep,
        ChildPoll::Failed => WaitStep::Lost,
    }
}

/// How running a found tool went.
pub enum ProbeOutcome {
    SpawnFailed,
    StdoutPipeMissing,
    StderrPipeMissing,
    /// The tool did not exit before the deadline.
    TimedOut,
    /// An output pipe was not drained before the deadline.
    OutputTimedOut,
    /// Reading an output pipe failed.
    OutputReadError,
    /// The tool's outputs and exit code (-1 when it is unknown).
    Finished { stdout: Vec<u8>, stderr: Vec<u8>, exit_code: i32 },
}

/// The probe result for a tool found at `path` (or not found) and run with
/// the given outcome.
pub open spec fn probe_spec(p: ToolProbeResult, path: Option<Seq<char>>, outcome: ProbeOutcome) -> bool {
    match path {
        None => probe_failed(p, None, MetricQuality::Unavailable, "工具不在 PATH 中"@),
        Some(x) => match outcome {
            ProbeOutcome::SpawnFailed => probe_failed(p, path, MetricQuality::ReadError, "工具进程启动失败"@),
            ProbeOutcome::StdoutPipeMissing => probe_failed(p, path, MetricQuality::ReadError, "工具 stdout 管道不可用"@),
            ProbeOutcome::StderrPipeMissing => probe_failed(p, path, MetricQuality::ReadError, "工具 stderr 管道不可用"@),
            ProbeOutcome::TimedOut => probe_failed(p, path, MetricQuality::Unavailable, "工具探测超时"@),
            ProbeOutcome::OutputTimedOut => probe_failed(p, path, MetricQuality::Unavailable, "工具输出读取超时"@),
            ProbeOutcome::OutputReadError => probe_failed(p, path, MetricQuality::ReadError, "工具输出读取失败"@),
            ProbeOutcome::Finished { stdout, stderr, exit_code } => {
                &&& p.path matches Some(q) && q@ == x
                &&& parse_spec(ToolProbeResult { installed: p.installed, version: p.version, path: None,
                    quality: p.quality, error: p.error }, stdout@, stderr@, exit_code)
            },
        },
    }
}

fn failed_at(path: String, quality: MetricQuality, reason: &str) -> (p: ToolProbeResult)
    ensures
        probe_failed(p, Some(path@), quality, reason@),
{
    ToolProbeResult { installed: false, version: None, path: Some(path), quality, error: Some(owned(reason)) }
}

/// The probe result of one tool (see [`probe_spec`]).
pub fn probe_result(path: Option<String>, outcome: &ProbeOutcome) -> (p: ToolProbeResult)
    ensures
        probe_spec(p, match path { Some(s) => Some(s@), None => None }, *outcome),
{
    let path = match path {
        None => { return unavailable_probe("工具不在 PATH 中"); },
        Some(x) => x,
    };
    match outcome {
        ProbeOutcome::SpawnFailed => failed_at(path, MetricQuality::ReadError, "工具进程启动失败"),
        ProbeOutcome::StdoutPipeMissing => failed_at(path, MetricQuality::ReadError, "工具 stdout 管道不可用"),
        ProbeOutcome::StderrPipeMissing => failed_at(path, MetricQuality::ReadError, "工具 stderr 管道不可用"),
        ProbeOutcome::TimedOut => failed_at(path, MetricQuality::Unavailable, "工具探测超时"),
        ProbeOutcome::OutputTimedOut => failed_at(path, MetricQuality::Unavailable, "工具输出读取超时"),
        ProbeOutcome::OutputReadError => failed_at(path, MetricQuality::ReadError, "工具输出读取失败"),
        ProbeOutcome::Finished { stdout, stderr, exit_code } => {
            let parsed = parse_tool_output(stdout.as_slice(), stderr.as_slice(), *exit_code);
            let mut r = parsed;
            r.path = Some(path);
            r
        },
    }
}

/// Source name of the tool probes.
pub open spec fn tool_source() -> Seq<char> {
    "Process_Command"@
}

/// The metric made of a probe's value under its quality: only `Good` and
/// `Estimated` carry a value, and only when there is one.
pub open spec fn probe_metric_ok<T>(m: MetricValue<T>, value: Option<T>, quality: MetricQuality,
    reason: Seq<char>, unit: Seq<char>, ts: u64) -> bool
{
    match quality {
        MetricQuality::Good => match value {
            Some(v) => metric_present(m, v, unit, quality, tool_source(), ts),
            None => metric_absent(m, unit, MetricQuality::Unavailable, tool_source(), reason, ts),
        },
        MetricQuality::Estimated => match value {
            Some(v) => metric_estimated(m, v, unit, tool_source(), ts),
            None => metric_absent(m, unit, MetricQuality::Unavailable, tool_source(), reason, ts),
        },
        MetricQuality::Stale | MetricQuality::Unknown => metric_absent(m, unit, MetricQuality::Unavailable, tool_source(), reason, ts),
        _ => metric_absent(m, unit, quality, tool_source(), reason, ts),
    }
}

/// The reason a probe gives, or the default one.
pub open spec fn probe_reason(error: Option<Seq<char>>) -> Seq<char> {
    match error {
        Some(e) => e,
        None => "工具探测未返回有效值"@,
    }
}

/// Builds a metric from a probe (see [`probe_metric_ok`]).
pub fn metric_from_probe<T>(value: Option<T>, quality: MetricQuality, error: Option<&str>, unit: &str, timestamp: u64)
    -> (m: MetricValue<T>)
    ensures
        probe_metric_ok(m, value, quality, probe_reason(match error { Some(e) => Some(e@), None => None }), unit@, timestamp),
{
    let reason = match error {
        Some(e) => e,
        None => "工具探测未返回有效值",
    };
    match quality {
        MetricQuality::Good => match value {
            Some(v) => MetricValue::good_at(v, unit, "Process_Command", timestamp),
            None => MetricValue::unavailable_at(unit, "Process_Command", reason, timestamp),
        },
        MetricQuality::Estimated => match value {
            Some(v) => MetricValue::estimated_at(v, unit, "Process_Command", timestamp),
            None => MetricValue::unavailable_at(unit, "Process_Command", reason, timestamp),
        },
        MetricQuality::Unsupported => MetricValue::unsupported_at(unit, "Process_Command", reason, timestamp),
        MetricQuality::PermissionDenied => MetricValue::permission_denied_at(unit, "Process_Command", reason, timestamp),
        MetricQuality::Unavailable => MetricValue::unavailable_at(unit, "Process_Command", reason, timestamp),
        MetricQuality::DriverMissing => MetricValue::driver_missing_at(unit, "Process_Command", reason, timestamp),
        MetricQuality::ApiUnavailable => MetricValue::api_unavailable_at(unit, "Process_Command", reason, timestamp),
        MetricQuality::ReadError => MetricValue::read_error_at(unit, "Process_Command", reason, timestamp),
        MetricQuality::Invalid => MetricValue::invalid_at(unit, "Process_Command", reason, timestamp),
        MetricQuality::Stale | MetricQuality::Unknown => MetricValue::unavailable_at(unit, "Process_Command", reason, timestamp),
    }
}

/// The view of an optional string.
pub open spec fn opt_view(s: Option<String>) -> Option<Seq<char>> {
    match s {
        Some(x) => Some(x@),
        None => None,
    }
}

/// `e` shows tool `label` as probed in `p` at `ts`.
pub open spec fn tool_entry_ok(e: DevToolEntry, label: Seq<char>, p: ToolProbeResult, ts: u64) -> bool {
    let reason = probe_reason(opt_view(p.error));
    &&& e.name@ == label
    &&& probe_metric_ok(e.installed, if p.quality == MetricQuality::Good { Some(p.installed) } else { None },
        p.quality, reason, ""@, ts)
    &&& probe_metric_ok(crate::quality::text_view(e.version), opt_view(p.version), p.quality, reason, ""@, ts)
    &&& match p.path {
        Some(x) => crate::quality::text_metric_present(e.path, x@, ""@, MetricQuality::Good, tool_source(), ts),
        None => probe_metric_ok(crate::quality::text_view(e.path), None, p.quality, reason, ""@, ts),
    }
}

/// One tool to probe: its label, the command and its arguments.
pub struct DevToolTarget {
    pub label: String,
    pub command: String,
    pub args: Vec<String>,
}

/// The tools probed, in order: label, command, arguments.
pub open spec fn dev_tool_table() -> Seq<(Seq<char>, Seq<char>, Seq<Seq<char>>)> {
    seq![
        ("Rust"@, "rustc"@, seq!["--version"@]),
        ("Cargo"@, "cargo"@, seq!["--version"@]),
        ("Git"@, "git"@, seq!["--version"@]),
        ("Node.js"@, "node"@, seq!["--version"@]),
        ("npm"@, "npm"@, seq!["--version"@]),
        ("pnpm"@, "pnpm"@, seq!["--version"@]),
        ("Python"@, "python"@, seq!["--version"@]),
        ("PowerShell"@, "powershell"@, seq!["-Command"@, "$PSVersionTable.PSVersion.ToString()"@]),
        ("Docker"@, "docker"@, seq!["--version"@]),
        ("WSL"@, "wsl"@, seq!["--status"@]),
    ]
}

/// The number of tools probed.
pub const DEV_TOOL_COUNT: usize = 10;

/// `t` is the row `row`.
pub open spec fn target_is(t: DevToolTarget, row: (Seq<char>, Seq<char>, Seq<Seq<char>>)) -> bool {
    &&& t.label@ == row.0
    &&& t.command@ == row.1
    &&& t.args@.map_values(|a: String| a@) == row.2
}

fn target(label: &str, command: &str, a: &str) -> (t: DevToolTarget)
    ensures
        target_is(t, (label@, command@, seq![a@])),
{
    let mut args: Vec<String> = Vec::new();
    args.push(owned(a));
    let t = DevToolTarget { label: owned(label), command: owned(command), args };
    assert(t.args@.map_values(|x: String| x@) =~= seq![a@]);
    t
}

/// The tools to probe, in order (see [`dev_tool_table`]).
pub fn dev_tool_targets() -> (v: Vec<DevToolTarget>)
    ensures
        v@.len() == dev_tool_table().len() == DEV_TOOL_COUNT,
        forall|i: int| 0 <= i < v@.len() ==> target_is(#[trigger] v@[i], dev_tool_table()[i]),
{
    let mut v: Vec<DevToolTarget> = Vec::new();
    v.push(target("Rust", "rustc", "--version"));
    v.push(target("Cargo", "cargo", "--version"));
    v.push(target("Git", "git", "--version"));
    v.push(target("Node.js", "node", "--version"));
    v.push(target("npm", "npm", "--version"));
    v.push(target("pnpm", "pnpm", "--version"));
    v.push(target("Python", "python", "--version"));
    let mut ps_args: Vec<String> = Vec::new();
    ps_args.push(owned("-Command"));
    ps_args.push(owned("$PSVersionTable.PSVersion.ToString()"));
    let ps = DevToolTarget { label: owned("PowerShell"), command: owned("powershell"), args: ps_args };
    assert(ps.args@.map_values(|x: String| x@) =~= seq!["-Command"@, "$PSVersionTable.PSVersion.ToString()"@]);
    v.push(ps);
    v.push(target("Docker", "docker", "--version"));
    v.push(target("WSL", "wsl", "--status"));
    v
}

/// Describes one probed tool.
pub fn tool_entry(label: &str, p: ToolProbeResult, timestamp: u64) -> (e: DevToolEntry)
    ensures
        tool_entry_ok(e, label@, p, timestamp),
{
    let error = match &p.error {
        Some(e) => Some(e.as_str()),
        None => None,
    };
    let installed = metric_from_probe(
        if p.quality == MetricQuality::Good { Some(p.installed) } else { None },
        p.quality, error, "", timestamp);
    let version = metric_from_probe(p.version, p.quality, error, "", timestamp);
    let path = match p.path {
        Some(x) => MetricValue::good_at(x, "", "Process_Command", timestamp),
        None => metric_from_probe(None::<String>, p.quality, error, "", timestamp),
    };
    DevToolEntry { name: owned(label), installed, version, path }
}

/// The developer environment: one entry per probe result, in the order of
/// [`dev_tool_targets`] (results beyond the list of tools are ignored), each
/// from the result and the time it was taken.
pub fn collect_dev_environment(results: Vec<(ToolProbeResult, u64)>) -> (s: DevEnvironmentSnapshot)
    ensures
        s.tools@.len() == (if results@.len() < DEV_TOOL_COUNT { results@.len() as int } else { DEV_TOOL_COUNT as int }),
        forall|i: int| 0 <= i < s.tools@.len() ==> tool_entry_ok(#[trigger] s.tools@[i], dev_tool_table()[i].0,
            results@[i].0, results@[i].1),
{
    let targets = dev_tool_targets();
    let ghost orig = results@;
    let mut rest = results;
    let n = if rest.len() < DEV_TOOL_COUNT { rest.len() } else { DEV_TOOL_COUNT };
    let mut tools: Vec<DevToolEntry> = Vec::new();
    let mut i: usize = 0;
    while i < n
        invariant
            n <= orig.len(),
            n <= DEV_TOOL_COUNT,
            i <= n,
            targets@.len() == DEV_TOOL_COUNT,
            forall|k: int| 0 <= k < targets@.len() ==> target_is(#[trigger] targets@[k], dev_tool_table()[k]),
            rest@ == orig.skip(i as int),
            tools@.len() == i,
            forall|k: int| 0 <= k < i ==> tool_entry_ok(#[trigger] tools@[k], dev_tool_table()[k].0, orig[k].0, orig[k].1),
        decreases n - i,
    {
        let (p, ts) = rest.remove(0);
        assert(rest@ =~= orig.skip(i + 1));
        assert(targets@[i as int].label@ == dev_tool_table()[i as int].0);
        tools.push(tool_entry(targets[i].label.as_str(), p, ts));
        i += 1;
    }
    DevEnvironmentSnapshot { tools }
}

// ---------------------------------------------------------------------------
// Finding the executable.

/// The command to look up: trimmed, `None` when blank.
pub fn executable_query(command: &str) -> (r: Option<String>)
    ensures
        match r {
            Some(c) => c@ == trim(command@, CharClass::Whitespace) && c@.len() > 0,
            None => trim(command@, CharClass::Whitespace).len() == 0,
        },
{
    let cs = str_chars(command);
    let t = trim_chars(cs.as_slice(), CharClass::Whitespace);
    if t.len() == 0 { None } else { Some(chars_to_string(t.as_slice())) }
}

/// Whether a command names a path (and is not looked up in `PATH`).
pub fn has_path_separator(command: &str) -> (b: bool)
    ensures
        b == (command@.contains('\\') || command@.contains('/')),
{
    let cs = str_chars(command);
    let mut i: usize = 0;
    while i < cs.len()
        invariant
            i <= cs@.len(),
            cs@ == command@,
            forall|j: int| 0 <= j < i ==> cs@[j] != '\\' && cs@[j] != '/',
        decreases cs@.len() - i,
    {
        if cs[i] == '\\' || cs[i] == '/' {
            assert(command@[i as int] == cs@[i as int]);
            return true;
        }
        i += 1;
    }
    false
}

/// Index of the first `;` of `s`, or its length.
pub open spec fn first_semicolon(s: Seq<char>) -> int
    decreases s.len(),
{
    if s.len() == 0 { 0 } else if s[0] == ';' { 0 } else { 1 + first_semicolon(s.drop_first()) }
}

/// The first `;` lies within the text.
pub proof fn lemma_first_semicolon(s: Seq<char>)
    ensures
        0 <= first_semicolon(s) <= s.len(),
        first_semicolon(s) < s.len() ==> s[first_semicolon(s)] == ';',
        forall|j: int| 0 <= j < first_semicolon(s) ==> s[j] != ';',
    decreases s.len(),
{
    if s.len() > 0 && s[0] != ';' {
        lemma_first_semicolon(s.drop_first());
        assert forall|j: int| 0 <= j < first_semicolon(s) implies s[j] != ';' by {
            if j > 0 {
                assert(s[j] == s.drop_first()[j - 1]);
            }
        }
    }
}

/// Number of leading dots of `s`.
pub open spec fn leading_dots(s: Seq<char>) -> int
    decreases s.len(),
{
    if s.len() == 0 { 0 } else if s[0] == '.' { 1 + leading_dots(s.drop_first()) } else { 0 }
}

/// A piece of `PATHEXT`: dropped when empty, else without its leading dots.
pub open spec fn ext_piece(p: Seq<char>) -> Seq<Seq<char>> {
    if p.len() == 0 { Seq::empty() } else { seq![p.skip(leading_dots(p))] }
}

/// The extensions listed in a `PATHEXT` value: its `;`-separated pieces
/// that are not empty, each without its leading dots.
pub open spec fn pathext_spec(s: Seq<char>) -> Seq<Seq<char>>
    decreases s.len(),
{
    let i = first_semicolon(s);
    if i >= s.len() {
        ext_piece(s)
    } else {
        proof { lemma_first_semicolon(s); }
        ext_piece(s.take(i)) + pathext_spec(s.skip(i + 1))
    }
}

/// The views of a list of strings.
pub open spec fn views(v: Seq<String>) -> Seq<Seq<char>> {
    v.map_values(|x: String| x@)
}

fn push_piece(out: &mut Vec<String>, p: &[char])
    ensures
        views(final(out)@) == views(old(out)@) + ext_piece(p@),
{
    if p.len() == 0 {
        assert(views(old(out)@) + Seq::<Seq<char>>::empty() =~= views(old(out)@));
        return;
    }
    let mut k: usize = 0;
    assert(p@.skip(0) =~= p@);
    while k < p.len() && p[k] == '.'
        invariant
            k <= p@.len(),
            leading_dots(p@) == k + leading_dots(p@.skip(k as int)),
        decreases p@.len() - k,
    {
        assert(p@.skip(k as int).drop_first() =~= p@.skip(k + 1));
        k += 1;
    }
    if k == p.len() {
        assert(p@.skip(k as int) =~= Seq::<char>::empty());
    }
    let rest = crate::strs::sub_chars(p, k, p.len());
    assert(rest@ =~= p@.skip(leading_dots(p@)));
    let ghost before = out@;
    out.push(chars_to_string(rest.as_slice()));
    assert(views(out@) =~= views(before) + ext_piece(p@));
}

/// The extensions tried for a command without one: those listed in
/// `PATHEXT` (see [`pathext_spec`]), or `COM`, `EXE`, `BAT`, `CMD` when it is
/// not set.
pub fn pathext_extensions(value: Option<&str>) -> (v: Vec<String>)
    ensures
        views(v@) == match value {
            Some(s) => pathext_spec(s@),
            None => seq!["COM"@, "EXE"@, "BAT"@, "CMD"@],
        },
{
    let s = match value {
        None => {
            let mut v: Vec<String> = Vec::new();
            v.push(owned("COM"));
            v.push(owned("EXE"));
            v.push(owned("BAT"));
            v.push(owned("CMD"));
            assert(views(v@) =~= seq!["COM"@, "EXE"@, "BAT"@, "CMD"@]);
            return v;
        },
        Some(s) => s,
    };
    let cs = str_chars(s);
    let n = cs.len();
    let mut out: Vec<String> = Vec::new();
    let mut start: usize = 0;
    let mut i: usize = 0;
    assert(cs@.skip(0) =~= cs@);
    assert(views(out@) =~= Seq::<Seq<char>>::empty());
    while i < n
        invariant
            n == cs@.len(),
            cs@ == s@,
            start <= i <= n,
            forall|j: int| start <= j < i ==> cs@[j] != ';',
            pathext_spec(cs@) == views(out@) + pathext_spec(cs@.skip(start as int)),
        decreases n - i,
    {
        if cs[i] == ';' {
            let ghost tail = cs@.skip(start as int);
            proof {
                lemma_first_semicolon(tail);
                if first_semicolon(tail) < i - start {
                    assert(tail[first_semicolon(tail)] == cs@[start + first_semicolon(tail)]);
                }
                if first_semicolon(tail) > i - start {
                    assert(tail[i - start] == cs@[i as int]);
                }
                assert(first_semicolon(tail) == i - start);
                assert(tail.take(i - start) =~= cs@.subrange(start as int, i as int));
                assert(tail.skip(i - start + 1) =~= cs@.skip(i + 1));
            }
            let piece = crate::strs::sub_chars(cs.as_slice(), start, i);
            let ghost before = views(out@);
            push_piece(&mut out, piece.as_slice());
            assert(views(out@) + pathext_spec(cs@.skip(i + 1)) =~= before + (ext_piece(piece@) + pathext_spec(cs@.skip(i + 1))));
            start = i + 1;
        }
        i += 1;
    }
    let ghost tail = cs@.skip(start as int);
    proof {
        lemma_first_semicolon(tail);
        if first_semicolon(tail) < tail.len() {
            assert(tail[first_semicolon(tail)] == cs@[start + first_semicolon(tail)]);
        }
    }
    let piece = crate::strs::sub_chars(cs.as_slice(), start, n);
    assert(piece@ =~= tail);
    push_piece(&mut out, piece.as_slice());
    out
}

} // verus!
