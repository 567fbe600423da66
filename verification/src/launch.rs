//! Starting launcher items: the command line, working directory and window
//! mode handed to `CreateProcessW`, and the per-item results of a batch run.

use vstd::prelude::*;
use crate::settings::LaunchItem;
use crate::strs::{trim, trim_chars, CharClass};
use crate::text::{str_chars, chars_to_string, concat_str, decimal, push_decimal};
use crate::quality::owned;

verus! {

/// `CREATE_NO_WINDOW`.
pub const CREATE_NO_WINDOW: u32 = 0x0800_0000;
/// `SW_HIDE`.
pub const SW_HIDE: u16 = 0;
/// `SW_SHOWNORMAL`.
pub const SW_SHOWNORMAL: u16 = 1;

/// What `CreateProcessW` is called with.
pub struct LaunchPlan {
    pub command_line: String,
    pub work_dir: Option<String>,
    pub creation_flags: u32,
    pub show_window: u16,
}

/// The program part of a command line: the trimmed path, quoted unless it
/// already starts and ends with a quote.
pub open spec fn quoted_program(path: Seq<char>) -> Seq<char> {
    if path.len() > 0 && path[0] == '"' && path.last() == '"' { path } else { "\""@ + path + "\""@ }
}

/// The command line of an item: the quoted program, then a space and the
/// trimmed arguments when there are any.
pub open spec fn command_line_spec(item: LaunchItem) -> Seq<char> {
    let program = quoted_program(trim(item.path@, CharClass::Whitespace));
    let args = trim(item.args@, CharClass::Whitespace);
    if args.len() == 0 { program } else { program + " "@ + args }
}

/// The plan for an item (its path is not blank).
pub open spec fn plan_ok(p: LaunchPlan, item: LaunchItem) -> bool {
    &&& p.command_line@ == command_line_spec(item)
    &&& match item.work_dir {
        Some(d) => if trim(d@, CharClass::Whitespace).len() > 0 {
            p.work_dir matches Some(w) && w@ == d@
        } else {
            p.work_dir is None
        },
        None => p.work_dir is None,
    }
    &&& p.creation_flags == (if item.silent { CREATE_NO_WINDOW } else { 0 })
    &&& p.show_window == (if item.silent { SW_HIDE } else { SW_SHOWNORMAL })
}

/// Plans starting an item; a blank path is refused.
pub fn plan_launch(item: &LaunchItem) -> (r: Result<LaunchPlan, String>)
    ensures
        match r {
            Ok(p) => trim(item.path@, CharClass::Whitespace).len() > 0 && plan_ok(p, *item),
            Err(e) => trim(item.path@, CharClass::Whitespace).len() == 0 && e@ == "可执行文件路径不能为空"@,
        },
{
    let pc = str_chars(item.path.as_str());
    let path = trim_chars(pc.as_slice(), CharClass::Whitespace);
    if path.len() == 0 {
        return Err(owned("可执行文件路径不能为空"));
    }
    let path_text = chars_to_string(path.as_slice());
    let program = if path[0] == '"' && path[path.len() - 1] == '"' {
        path_text
    } else {
        let open = concat_str("\"", path_text.as_str());
        concat_str(open.as_str(), "\"")
    };
    let ac = str_chars(item.args.as_str());
    let args = trim_chars(ac.as_slice(), CharClass::Whitespace);
    let command_line = if args.len() == 0 {
        program
    } else {
        let spaced = concat_str(program.as_str(), " ");
        concat_str(spaced.as_str(), chars_to_string(args.as_slice()).as_str())
    };
    let work_dir = match &item.work_dir {
        Some(d) => {
            let dc = str_chars(d.as_str());
            let t = trim_chars(dc.as_slice(), CharClass::Whitespace);
            if t.len() > 0 { Some(owned(d.as_str())) } else { None }
        },
        None => None,
    };
    Ok(LaunchPlan {
        command_line,
        work_dir,
        creation_flags: if item.silent { CREATE_NO_WINDOW } else { 0 },
        show_window: if item.silent { SW_HIDE } else { SW_SHOWNORMAL },
    })
}

/// The error when `CreateProcessW` failed for `path` with `code`.
pub fn launch_failed(path: &str, code: u32) -> (e: String)
    ensures
        e@ == "启动进程失败: \""@ + path@ + "\", Windows 错误码: "@ + decimal(code as nat),
{
    let head = concat_str("启动进程失败: \"", path);
    let mut e = concat_str(head.as_str(), "\", Windows 错误码: ");
    push_decimal(&mut e, code as u64);
    e
}

/// The result of one item of a batch run.
pub struct BatchLaunchResult {
    pub id: String,
    pub name: String,
    pub success: bool,
    pub pid: Option<u32>,
    pub error: Option<String>,
}

/// The result of an item that is not enabled: skipped, not started.
pub fn skipped_result(item: LaunchItem) -> (r: BatchLaunchResult)
    ensures
        r.id@ == item.id@,
        r.name@ == item.name@,
        !r.success,
        r.pid is None,
        r.error matches Some(e) && e@ == "启动项未启用，已跳过"@,
{
    BatchLaunchResult { id: item.id, name: item.name, success: false, pid: None, error: Some(owned("启动项未启用，已跳过")) }
}

/// The result of an item that was started: the process id, or the error of
/// the failed start, which does not stop the batch.
pub fn launched_result(item: LaunchItem, outcome: Result<u32, String>) -> (r: BatchLaunchResult)
    ensures
        r.id@ == item.id@,
        r.name@ == item.name@,
        match outcome {
            Ok(pid) => r.success && r.pid == Some(pid) && r.error is None,
            Err(e) => !r.success && r.pid is None && r.error == Some(e),
        },
{
    match outcome {
        Ok(pid) => BatchLaunchResult { id: item.id, name: item.name, success: true, pid: Some(pid), error: None },
        Err(e) => BatchLaunchResult { id: item.id, name: item.name, success: false, pid: None, error: Some(e) },
    }
}

/// The result of item `item` of a batch run, whose start gave `outcome`
/// (`None` where it was not started).
pub open spec fn batch_result_ok(r: BatchLaunchResult, item: LaunchItem, outcome: Option<Result<u32, String>>) -> bool {
    &&& r.id@ == item.id@
    &&& r.name@ == item.name@
    &&& if !item.enabled {
        !r.success && r.pid is None && (r.error matches Some(e) && e@ == "启动项未启用，已跳过"@)
    } else {
        match outcome {
            Some(Ok(pid)) => r.success && r.pid == Some(pid) && r.error is None,
            Some(Err(e)) => !r.success && r.pid is None && (r.error matches Some(x) && x@ == e@),
            None => false,
        }
    }
}

/// The results of a batch run, one per item in order: disabled items are
/// skipped, the others carry the outcome of their start (`outcomes[i]`, which
/// is there for every enabled item); a failed start does not affect the
/// results of the items after it.
pub fn batch_launch_results(items: &Vec<LaunchItem>, outcomes: &Vec<Option<Result<u32, String>>>) -> (r: Vec<BatchLaunchResult>)
    requires
        outcomes@.len() == items@.len(),
        forall|i: int| 0 <= i < items@.len() && #[trigger] items@[i].enabled ==> outcomes@[i] is Some,
    ensures
        r@.len() == items@.len(),
        forall|i: int| 0 <= i < items@.len() ==> #[trigger] batch_result_ok(r@[i], items@[i], outcomes@[i]),
{
    let mut r: Vec<BatchLaunchResult> = Vec::new();
    let n = items.len();
    for i in 0..n
        invariant
            n == items@.len(),
            outcomes@.len() == n,
            forall|j: int| 0 <= j < n && #[trigger] items@[j].enabled ==> outcomes@[j] is Some,
            r@.len() == i,
            forall|j: int| 0 <= j < i ==> #[trigger] batch_result_ok(r@[j], items@[j], outcomes@[j]),
    {
        let item = &items[i];
        let id = item.id.clone();
        let name = item.name.clone();
        let one = if !item.enabled {
            BatchLaunchResult { id, name, success: false, pid: None, error: Some(owned("启动项未启用，已跳过")) }
        } else {
            match &outcomes[i] {
                Some(Ok(pid)) => BatchLaunchResult { id, name, success: true, pid: Some(*pid), error: None },
                Some(Err(e)) => BatchLaunchResult { id, name, success: false, pid: None, error: Some(e.clone()) },
                None => BatchLaunchResult { id, name, success: false, pid: None, error: None },
            }
        };
        r.push(one);
    }
    r
}

/// In every result of a batch run, success, a process id and the absence of
/// an error go together.
pub proof fn lemma_batch_result_flags(r: BatchLaunchResult, item: LaunchItem, outcome: Option<Result<u32, String>>)
    requires
        batch_result_ok(r, item, outcome),
    ensures
        r.success <==> r.pid is Some,
        r.success <==> r.error is None,
{
}

} // verus!
