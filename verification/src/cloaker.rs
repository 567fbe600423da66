//! Deep hiding of files and folders: the attribute changes that add or
//! remove the system and hidden attributes, and the errors reported.

use vstd::prelude::*;
use crate::text::{concat_str, decimal, push_decimal, str_chars, chars_to_string};
use crate::settings::{CloakedItem, LaunchItem};
use crate::strs::{trim, trim_chars, CharClass, lower_seq};
use crate::sysinfo::windows_env::eq_ignore_ascii_case;
use crate::quality::owned;

verus! {

/// `FILE_ATTRIBUTE_HIDDEN`.
pub const FILE_ATTRIBUTE_HIDDEN: u32 = 2;
/// `FILE_ATTRIBUTE_SYSTEM`.
pub const FILE_ATTRIBUTE_SYSTEM: u32 = 4;
/// `FILE_ATTRIBUTE_NORMAL`.
pub const FILE_ATTRIBUTE_NORMAL: u32 = 128;
/// `INVALID_FILE_ATTRIBUTES`: the attributes could not be read.
pub const INVALID_FILE_ATTRIBUTES: u32 = 0xFFFF_FFFF;

/// Attributes that mark a path as deeply hidden: system and hidden both set.
pub open spec fn cloaked_bits(attrs: u32) -> bool {
    attrs & FILE_ATTRIBUTE_SYSTEM != 0 && attrs & FILE_ATTRIBUTE_HIDDEN != 0
}

/// The attributes after hiding: the old ones plus system and hidden.
pub open spec fn cloaked_attrs(attrs: u32) -> u32 {
    attrs | FILE_ATTRIBUTE_SYSTEM | FILE_ATTRIBUTE_HIDDEN
}

/// The attributes after unhiding: the old ones without system and hidden,
/// or `FILE_ATTRIBUTE_NORMAL` when nothing is left.
pub open spec fn uncloaked_attrs(attrs: u32) -> u32 {
    let kept = attrs & !FILE_ATTRIBUTE_SYSTEM & !FILE_ATTRIBUTE_HIDDEN;
    if kept == 0 { FILE_ATTRIBUTE_NORMAL } else { kept }
}

/// Whether attributes `attrs` of `path` mark it as deeply hidden (system
/// and hidden); an error when they could not be read.
pub fn is_path_cloaked(path: &str, attrs: u32) -> (r: Result<bool, String>)
    ensures
        match r {
            Ok(b) => attrs != INVALID_FILE_ATTRIBUTES && b == cloaked_bits(attrs),
            Err(e) => attrs == INVALID_FILE_ATTRIBUTES && e@ == "无法读取路径属性或路径不存在: "@ + path@,
        },
{
    if attrs == INVALID_FILE_ATTRIBUTES {
        return Err(concat_str("无法读取路径属性或路径不存在: ", path));
    }
    Ok((attrs & FILE_ATTRIBUTE_SYSTEM) != 0 && (attrs & FILE_ATTRIBUTE_HIDDEN) != 0)
}

/// The attributes that hide `path` deeply: its own plus system and hidden.
pub fn cloak_attributes(path: &str, attrs: u32) -> (r: Result<u32, String>)
    ensures
        match r {
            Ok(a) => attrs != INVALID_FILE_ATTRIBUTES && a == cloaked_attrs(attrs),
            Err(e) => attrs == INVALID_FILE_ATTRIBUTES && e@ == "无法找到目标路径: "@ + path@,
        },
{
    if attrs == INVALID_FILE_ATTRIBUTES {
        return Err(concat_str("无法找到目标路径: ", path));
    }
    Ok(attrs | FILE_ATTRIBUTE_SYSTEM | FILE_ATTRIBUTE_HIDDEN)
}

/// The attributes that make `path` visible again: its own without system
/// and hidden, or `FILE_ATTRIBUTE_NORMAL` when nothing is left.
pub fn uncloak_attributes(path: &str, attrs: u32) -> (r: Result<u32, String>)
    ensures
        match r {
            Ok(a) => attrs != INVALID_FILE_ATTRIBUTES && a == uncloaked_attrs(attrs),
            Err(e) => attrs == INVALID_FILE_ATTRIBUTES && e@ == "无法找到目标路径: "@ + path@,
        },
{
    if attrs == INVALID_FILE_ATTRIBUTES {
        return Err(concat_str("无法找到目标路径: ", path));
    }
    let kept = attrs & !FILE_ATTRIBUTE_SYSTEM & !FILE_ATTRIBUTE_HIDDEN;
    Ok(if kept == 0 { FILE_ATTRIBUTE_NORMAL } else { kept })
}

/// Hiding marks a path as hidden, unhiding marks it as visible, hiding
/// twice is hiding once, and unhiding a hidden path gives the attributes
/// that unhiding it before would have given: the other attributes survive
/// a hide and unhide, so a visible path with other attributes gets exactly
/// its attributes back (`cloak_path` then `uncloak_path`).
pub proof fn lemma_cloak_round_trip(attrs: u32)
    ensures
        !cloaked_bits(attrs) && attrs & FILE_ATTRIBUTE_SYSTEM == 0 && attrs & FILE_ATTRIBUTE_HIDDEN == 0 && attrs != 0
            ==> uncloaked_attrs(cloaked_attrs(attrs)) == attrs,
        cloaked_bits(cloaked_attrs(attrs)),
        !cloaked_bits(uncloaked_attrs(attrs)),
        cloaked_attrs(cloaked_attrs(attrs)) == cloaked_attrs(attrs),
        uncloaked_attrs(cloaked_attrs(attrs)) == uncloaked_attrs(attrs),
{
    assert((attrs | 4u32 | 2u32) & 4u32 != 0 && (attrs | 4u32 | 2u32) & 2u32 != 0) by (bit_vector);
    assert(((attrs | 4u32 | 2u32) | 4u32 | 2u32) == (attrs | 4u32 | 2u32)) by (bit_vector);
    assert(((attrs | 4u32 | 2u32) & !4u32 & !2u32) == (attrs & !4u32 & !2u32)) by (bit_vector);
    assert((attrs & !4u32 & !2u32) & 4u32 == 0) by (bit_vector);
    assert(128u32 & 4u32 == 0) by (bit_vector);
    assert(attrs & 4u32 == 0 && attrs & 2u32 == 0 ==> (attrs & !4u32 & !2u32) == attrs) by (bit_vector);
}

/// The error when the hiding attributes could not be set.
pub fn cloak_failed(path: &str) -> (e: String)
    ensures
        e@ == "设置深度隐藏属性失败，请检查文件权限: "@ + path@,
{
    concat_str("设置深度隐藏属性失败，请检查文件权限: ", path)
}

/// The error when the visible attributes could not be set.
pub fn uncloak_failed(path: &str) -> (e: String)
    ensures
        e@ == "恢复文件可见属性失败，请检查文件权限: "@ + path@,
{
    concat_str("恢复文件可见属性失败，请检查文件权限: ", path)
}

// ---------------------------------------------------------------------------
// The list of hidden items.

/// `s` without leading and trailing double quotes.
pub open spec fn strip_quotes(s: Seq<char>) -> Seq<char>
    decreases s.len(),
{
    if s.len() > 0 && s[0] == '"' {
        strip_quotes(s.drop_first())
    } else if s.len() > 0 && s.last() == '"' {
        strip_quotes(s.drop_last())
    } else {
        s
    }
}

/// The path a hide request names: trimmed, then without surrounding quotes.
pub fn cloak_target_path(path: &str) -> (r: String)
    ensures
        r@ == strip_quotes(trim(path@, CharClass::Whitespace)),
{
    let t = trim_chars(str_chars(path).as_slice(), CharClass::Whitespace);
    let mut a: usize = 0;
    let mut b: usize = t.len();
    assert(t@.subrange(0, b as int) =~= t@);
    while a < b && (t[a] == '"' || t[b - 1] == '"')
        invariant
            a <= b <= t@.len(),
            strip_quotes(t@) == strip_quotes(t@.subrange(a as int, b as int)),
        decreases b - a,
    {
        let ghost cur = t@.subrange(a as int, b as int);
        if t[a] == '"' {
            assert(cur.drop_first() =~= t@.subrange(a + 1, b as int));
            a += 1;
        } else {
            assert(cur.drop_last() =~= t@.subrange(a as int, b - 1));
            b -= 1;
        }
    }
    let out = crate::strs::sub_chars(t.as_slice(), a, b);
    proof {
        let cur = t@.subrange(a as int, b as int);
        assert(out@ =~= cur);
        if a == b { assert(cur.len() == 0); }
    }
    chars_to_string(out.as_slice())
}

/// Index of the first record whose path equals `path` up to ASCII case.
pub open spec fn path_index(list: Seq<CloakedItem>, path: Seq<char>) -> Option<int>
    decreases list.len(),
{
    if list.len() == 0 {
        None
    } else if lower_seq(list[0].path@) == lower_seq(path) {
        Some(0)
    } else {
        match path_index(list.drop_first(), path) {
            Some(i) => Some(i + 1),
            None => None,
        }
    }
}

proof fn lemma_path_index(list: Seq<CloakedItem>, path: Seq<char>)
    ensures
        match path_index(list, path) {
            Some(i) => 0 <= i < list.len() && lower_seq(list[i].path@) == lower_seq(path)
                && forall|j: int| 0 <= j < i ==> lower_seq(#[trigger] list[j].path@) != lower_seq(path),
            None => forall|j: int| 0 <= j < list.len() ==> lower_seq(#[trigger] list[j].path@) != lower_seq(path),
        },
    decreases list.len(),
{
    if list.len() > 0 {
        lemma_path_index(list.drop_first(), path);
        assert forall|j: int| 0 < j < list.len() implies list[j] == list.drop_first()[j - 1] by {}
    }
}

fn copy_item(i: &CloakedItem) -> (c: CloakedItem)
    ensures
        c == *i,
{
    CloakedItem {
        id: i.id.clone(),
        name: i.name.clone(),
        path: i.path.clone(),
        is_dir: i.is_dir,
        added_at: i.added_at,
        is_cloaked: i.is_cloaked,
        note: i.note.clone(),
    }
}

/// Records that `path` was hidden: a record with the same path (up to
/// ASCII case) is marked hidden and gets the note if one is given;
/// otherwise a new record `cloak-<now>` is appended. Returns the record.
pub fn record_cloaked(list: &mut Vec<CloakedItem>, path: &str, name: &str, is_dir: bool, note: Option<String>, now_ms: u64)
    -> (r: CloakedItem)
    ensures
        match path_index(old(list)@, path@) {
            Some(i) => {
                &&& final(list)@.len() == old(list)@.len()
                &&& forall|j: int| 0 <= j < old(list)@.len() && j != i ==> #[trigger] final(list)@[j] == old(list)@[j]
                &&& r == final(list)@[i]
                &&& r.id == old(list)@[i].id && r.name == old(list)@[i].name && r.path == old(list)@[i].path
                &&& r.is_dir == old(list)@[i].is_dir && r.added_at == old(list)@[i].added_at
                &&& r.is_cloaked
                &&& r.note@ == (match note { Some(n) => n@, None => old(list)@[i].note@ })
            },
            None => {
                &&& final(list)@ == old(list)@.push(r)
                &&& r.id@ == "cloak-"@ + decimal(now_ms as nat)
                &&& r.name@ == name@
                &&& r.path@ == path@
                &&& r.is_dir == is_dir
                &&& r.added_at == now_ms
                &&& r.is_cloaked
                &&& r.note@ == (match note { Some(n) => n@, None => Seq::<char>::empty() })
            },
        },
{
    proof { lemma_path_index(list@, path@); }
    let n = list.len();
    let mut i: usize = 0;
    while i < n
        invariant
            n == list@.len(),
            i <= n,
            *list == *old(list),
            forall|j: int| 0 <= j < i ==> lower_seq(#[trigger] list@[j].path@) != lower_seq(path@),
        decreases n - i,
    {
        if eq_ignore_ascii_case(list[i].path.as_str(), path) {
            proof {
                lemma_path_index(list@, path@);
                match path_index(list@, path@) {
                    Some(k) => {
                        if k < i { assert(lower_seq(list@[k].path@) != lower_seq(path@)); }
                        if k > i { assert(lower_seq(list@[i as int].path@) != lower_seq(path@)); }
                    },
                    None => { assert(lower_seq(list@[i as int].path@) != lower_seq(path@)); },
                }
            }
            assert(path_index(list@, path@) == Some(i as int));
            let mut item = copy_item(&list[i]);
            item.is_cloaked = true;
            match note {
                Some(t) => { item.note = t; },
                None => {},
            }
            let r = copy_item(&item);
            list.set(i, item);
            return r;
        }
        i += 1;
    }
    proof {
        lemma_path_index(list@, path@);
        if let Some(k) = path_index(list@, path@) {
            assert(lower_seq(list@[k].path@) != lower_seq(path@));
        }
    }
    assert(path_index(list@, path@) is None);
    let mut id = owned("cloak-");
    push_decimal(&mut id, now_ms);
    let item = CloakedItem {
        id,
        name: owned(name),
        path: owned(path),
        is_dir,
        added_at: now_ms,
        is_cloaked: true,
        note: match note { Some(t) => t, None => String::new() },
    };
    let r = copy_item(&item);
    list.push(item);
    r
}

/// Finds the record with id `id`.
pub fn find_record(list: &Vec<CloakedItem>, id: &str) -> (r: Option<usize>)
    ensures
        match r {
            Some(i) => i < list@.len() && list@[i as int].id@ == id@
                && forall|j: int| 0 <= j < i ==> (#[trigger] list@[j]).id@ != id@,
            None => forall|j: int| 0 <= j < list@.len() ==> (#[trigger] list@[j]).id@ != id@,
        },
{
    let n = list.len();
    let mut i: usize = 0;
    while i < n
        invariant
            n == list@.len(),
            i <= n,
            forall|j: int| 0 <= j < i ==> (#[trigger] list@[j]).id@ != id@,
        decreases n - i,
    {
        if crate::text::str_eq(list[i].id.as_str(), id) {
            return Some(i);
        }
        i += 1;
    }
    None
}

/// Sets the hidden flag of record `index`.
pub fn set_cloaked_flag(list: &mut Vec<CloakedItem>, index: usize, cloaked: bool)
    requires
        index < old(list)@.len(),
    ensures
        final(list)@ == old(list)@.update(index as int, CloakedItem { is_cloaked: cloaked, ..old(list)@[index as int] }),
{
    let mut item = copy_item(&list[index]);
    item.is_cloaked = cloaked;
    list.set(index, item);
}

/// Updates the hidden flags from the attributes read for each record
/// (`None` where they could not be read, which leaves the flag alone).
pub fn refresh_cloaked_flags(list: &mut Vec<CloakedItem>, states: &Vec<Option<bool>>)
    ensures
        final(list)@.len() == old(list)@.len(),
        forall|j: int| 0 <= j < old(list)@.len() ==> {
            let o = old(list)@[j];
            #[trigger] final(list)@[j] == (if j < states@.len() && states@[j] is Some {
                CloakedItem { is_cloaked: states@[j]->0, ..o }
            } else {
                o
            })
        },
{
    let n = list.len();
    let ghost before = list@;
    let mut i: usize = 0;
    while i < n
        invariant
            n == list@.len() == before.len(),
            i <= n,
            before == old(list)@,
            forall|j: int| i <= j < n ==> #[trigger] list@[j] == before[j],
            forall|j: int| 0 <= j < i ==> #[trigger] list@[j] == (if j < states@.len() && states@[j] is Some {
                CloakedItem { is_cloaked: states@[j]->0, ..before[j] }
            } else {
                before[j]
            }),
        decreases n - i,
    {
        if i < states.len() {
            match states[i] {
                Some(b) => { set_cloaked_flag(list, i, b); },
                None => {},
            }
        }
        i += 1;
    }
}

/// What sending a hidden item to the launcher gives: the launcher item
/// that already starts its path (up to ASCII case), or a new one
/// `launch-from-cloak-<now>` named `🔒 <name>`, started in the parent
/// directory, which is appended to the list.
pub fn send_to_launcher(launchers: &mut Vec<LaunchItem>, cloaked: &CloakedItem, parent: Option<String>, silent: bool, now_ms: u64)
    -> (r: LaunchItem)
    ensures
        (exists|i: int| 0 <= i < old(launchers)@.len() && lower_seq(old(launchers)@[i].path@) == lower_seq(cloaked.path@))
        ==> {
            &&& *final(launchers) == *old(launchers)
            &&& exists|i: int| 0 <= i < old(launchers)@.len() && lower_seq(old(launchers)@[i].path@) == lower_seq(cloaked.path@)
                && r.id@ == old(launchers)@[i].id@ && r.path@ == old(launchers)@[i].path@
                && forall|j: int| 0 <= j < i ==> lower_seq((#[trigger] old(launchers)@[j]).path@) != lower_seq(cloaked.path@)
        },
        !(exists|i: int| 0 <= i < old(launchers)@.len() && lower_seq(old(launchers)@[i].path@) == lower_seq(cloaked.path@))
        ==> {
            &&& final(launchers)@ == old(launchers)@.push(r)
            &&& r.id@ == "launch-from-cloak-"@ + decimal(now_ms as nat)
            &&& r.name@ == "🔒 "@ + cloaked.name@
            &&& r.path@ == cloaked.path@
            &&& r.args@.len() == 0
            &&& r.work_dir == parent
            &&& r.silent == silent
            &&& r.enabled
        },
{
    let n = launchers.len();
    let mut i: usize = 0;
    while i < n
        invariant
            n == launchers@.len(),
            i <= n,
            *launchers == *old(launchers),
            forall|j: int| 0 <= j < i ==> lower_seq((#[trigger] launchers@[j]).path@) != lower_seq(cloaked.path@),
        decreases n - i,
    {
        if eq_ignore_ascii_case(launchers[i].path.as_str(), cloaked.path.as_str()) {
            let e = &launchers[i];
            return LaunchItem {
                id: e.id.clone(),
                name: e.name.clone(),
                path: e.path.clone(),
                args: e.args.clone(),
                work_dir: match &e.work_dir { Some(w) => Some(w.clone()), None => None },
                silent: e.silent,
                enabled: e.enabled,
            };
        }
        i += 1;
    }
    let mut id = owned("launch-from-cloak-");
    push_decimal(&mut id, now_ms);
    let item = LaunchItem {
        id,
        name: concat_str("🔒 ", cloaked.name.as_str()),
        path: cloaked.path.clone(),
        args: String::new(),
        work_dir: parent,
        silent,
        enabled: true,
    };
    let r = LaunchItem {
        id: item.id.clone(),
        name: item.name.clone(),
        path: item.path.clone(),
        args: item.args.clone(),
        work_dir: match &item.work_dir { Some(w) => Some(w.clone()), None => None },
        silent,
        enabled: true,
    };
    launchers.push(item);
    r
}

} // verus!
