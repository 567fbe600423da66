//! The Markdown editor's file rules: which paths count as Markdown, which
//! images may be embedded and with what MIME type, and the base64 payload
//! handed to the preview.

use vstd::prelude::*;
use base64::Engine;
use crate::strs::{lower_seq, trim, trim_chars, CharClass};
use crate::text::{str_chars, chars_to_string};
use crate::quality::owned;

verus! {

/// A Markdown document: its path and text.
pub struct MarkdownDocument {
    pub path: String,
    pub content: String,
}

/// An image for the preview: its MIME type and base64 content.
pub struct MarkdownImageData {
    pub mime_type: String,
    pub data_base64: String,
}

/// A path separator of Windows paths.
pub open spec fn is_sep(c: char) -> bool {
    c == '\\' || c == '/'
}

/// `s` without trailing separators.
pub open spec fn strip_seps(s: Seq<char>) -> Seq<char>
    decreases s.len(),
{
    if s.len() > 0 && is_sep(s.last()) { strip_seps(s.drop_last()) } else { s }
}

/// Index just after the last separator of `s` (0 when there is none).
pub open spec fn name_start(s: Seq<char>) -> int
    decreases s.len(),
{
    if s.len() == 0 { 0 } else if is_sep(s.last()) { s.len() as int } else { name_start(s.drop_last()) }
}

/// The file name of a path: its last component (trailing separators
/// ignored); none when that is empty, `.` or `..`.
pub open spec fn file_name_spec(path: Seq<char>) -> Option<Seq<char>> {
    let t = strip_seps(path);
    let n = t.skip(name_start(t));
    if n.len() == 0 || n == "."@ || n == ".."@ { None } else { Some(n) }
}

/// Index of the last `.` of `s`, or -1.
pub open spec fn last_dot(s: Seq<char>) -> int
    decreases s.len(),
{
    if s.len() == 0 { -1 } else if s.last() == '.' { s.len() - 1 } else { last_dot(s.drop_last()) }
}

/// The extension of a path: what follows the last `.` of its file name,
/// unless that dot starts the name.
pub open spec fn extension_spec(path: Seq<char>) -> Option<Seq<char>> {
    match file_name_spec(path) {
        None => None,
        Some(n) => if last_dot(n) <= 0 { None } else { Some(n.skip(last_dot(n) + 1)) },
    }
}

proof fn lemma_name_start(s: Seq<char>)
    ensures
        0 <= name_start(s) <= s.len(),
    decreases s.len(),
{
    if s.len() > 0 && !is_sep(s.last()) {
        lemma_name_start(s.drop_last());
    }
}

proof fn lemma_last_dot(s: Seq<char>)
    ensures
        -1 <= last_dot(s) < s.len(),
    decreases s.len(),
{
    if s.len() > 0 && s.last() != '.' {
        lemma_last_dot(s.drop_last());
    }
}

/// The extension of a path (see [`extension_spec`]).
pub fn path_extension(path: &str) -> (r: Option<String>)
    ensures
        match r {
            Some(e) => extension_spec(path@) == Some(e@),
            None => extension_spec(path@) is None,
        },
{
    let cs = str_chars(path);
    let mut end = cs.len();
    assert(cs@.take(end as int) =~= cs@);
    while end > 0 && (cs[end - 1] == '\\' || cs[end - 1] == '/')
        invariant
            end <= cs@.len(),
            cs@ == path@,
            strip_seps(path@) == strip_seps(cs@.take(end as int)),
        decreases end,
    {
        assert(cs@.take(end as int).drop_last() =~= cs@.take(end - 1));
        end -= 1;
    }
    let ghost t = cs@.take(end as int);
    assert(strip_seps(t) == t);
    let mut start = end;
    assert(t.take(start as int) =~= t);
    while start > 0 && !(cs[start - 1] == '\\' || cs[start - 1] == '/')
        invariant
            start <= end <= cs@.len(),
            t == cs@.take(end as int),
            name_start(t) == name_start(t.take(start as int)),
        decreases start,
    {
        assert(t.take(start as int).drop_last() =~= t.take(start - 1));
        start -= 1;
    }
    proof { lemma_name_start(t); }
    let name = crate::strs::sub_chars(cs.as_slice(), start, end);
    assert(name@ =~= t.skip(name_start(t)));
    let n = name.len();
    proof { reveal_strlit("."); reveal_strlit(".."); }
    if n == 0 || (n == 1 && name[0] == '.') || (n == 2 && name[0] == '.' && name[1] == '.') {
        proof {
            if n == 1 { assert(name@ =~= "."@); }
            if n == 2 { assert(name@ =~= ".."@); }
        }
        return None;
    }
    proof {
        if name@ == "."@ { assert(name@.len() == 1 && name@[0] == '.'); }
        if name@ == ".."@ { assert(name@.len() == 2 && name@[0] == '.' && name@[1] == '.'); }
    }
    let mut d = n;
    assert(name@.take(d as int) =~= name@);
    while d > 0 && name[d - 1] != '.'
        invariant
            d <= n == name@.len(),
            last_dot(name@) == last_dot(name@.take(d as int)),
        decreases d,
    {
        assert(name@.take(d as int).drop_last() =~= name@.take(d - 1));
        d -= 1;
    }
    proof { lemma_last_dot(name@); }
    if d <= 1 {
        return None;
    }
    let ext = crate::strs::sub_chars(name.as_slice(), d, n);
    assert(ext@ =~= name@.skip(last_dot(name@) + 1));
    Some(chars_to_string(ext.as_slice()))
}

/// Whether a path names a Markdown file: extension `md` or `markdown` in
/// any ASCII case.
pub open spec fn markdown_path_spec(path: Seq<char>) -> bool {
    match extension_spec(path) {
        Some(e) => lower_seq(e) == "md"@ || lower_seq(e) == "markdown"@,
        None => false,
    }
}

/// Whether a path names a Markdown file (see [`markdown_path_spec`]).
pub fn is_markdown_path(path: &str) -> (b: bool)
    ensures
        b == markdown_path_spec(path@),
{
    match path_extension(path) {
        None => false,
        Some(e) => {
            let low = crate::strs::lower_chars(str_chars(e.as_str()).as_slice());
            let s = chars_to_string(low.as_slice());
            crate::text::str_eq(s.as_str(), "md") || crate::text::str_eq(s.as_str(), "markdown")
        },
    }
}

/// Refuses a path that does not name a Markdown file.
pub fn ensure_markdown_path(path: &str) -> (r: Result<(), String>)
    ensures
        match r {
            Ok(()) => markdown_path_spec(path@),
            Err(e) => !markdown_path_spec(path@) && e@ == "只支持 .md 或 .markdown 文件。"@,
        },
{
    if is_markdown_path(path) { Ok(()) } else { Err(owned("只支持 .md 或 .markdown 文件。")) }
}

/// The MIME type of an embeddable image by its extension (ASCII case
/// ignored): PNG, JPEG, GIF or WebP.
pub open spec fn mime_spec(path: Seq<char>) -> Option<Seq<char>> {
    match extension_spec(path) {
        None => None,
        Some(e) => {
            let l = lower_seq(e);
            if l == "png"@ { Some("image/png"@) }
            else if l == "jpg"@ || l == "jpeg"@ { Some("image/jpeg"@) }
            else if l == "gif"@ { Some("image/gif"@) }
            else if l == "webp"@ { Some("image/webp"@) }
            else { None }
        },
    }
}

/// The MIME type of an image path (see [`mime_spec`]).
pub fn image_mime_type(path: &str) -> (r: Option<String>)
    ensures
        match r {
            Some(m) => mime_spec(path@) == Some(m@),
            None => mime_spec(path@) is None,
        },
{
    let e = match path_extension(path) {
        None => { return None; },
        Some(e) => e,
    };
    let low = crate::strs::lower_chars(str_chars(e.as_str()).as_slice());
    let l = chars_to_string(low.as_slice());
    if crate::text::str_eq(l.as_str(), "png") {
        Some(owned("image/png"))
    } else if crate::text::str_eq(l.as_str(), "jpg") || crate::text::str_eq(l.as_str(), "jpeg") {
        Some(owned("image/jpeg"))
    } else if crate::text::str_eq(l.as_str(), "gif") {
        Some(owned("image/gif"))
    } else if crate::text::str_eq(l.as_str(), "webp") {
        Some(owned("image/webp"))
    } else {
        None
    }
}

/// Refuses an image reference that is absolute or blank.
pub fn check_image_reference(relative_path: &str, is_absolute: bool) -> (r: Result<(), String>)
    ensures
        match r {
            Ok(()) => !is_absolute && trim(relative_path@, CharClass::Whitespace).len() > 0,
            Err(e) => (is_absolute || trim(relative_path@, CharClass::Whitespace).len() == 0)
                && e@ == "本地图片路径必须是 Markdown 文档目录下的相对路径。"@,
        },
{
    let t = trim_chars(str_chars(relative_path).as_slice(), CharClass::Whitespace);
    if is_absolute || t.len() == 0 {
        Err(owned("本地图片路径必须是 Markdown 文档目录下的相对路径。"))
    } else {
        Ok(())
    }
}

/// The base64 alphabet of RFC 4648.
pub open spec fn b64_char(v: nat) -> char {
    if v < 26 { (65 + v) as char }
    else if v < 52 { (97 + v - 26) as char }
    else if v < 62 { (48 + v - 52) as char }
    else if v == 62 { '+' }
    else { '/' }
}

/// Standard base64 (RFC 4648 alphabet, `=` padding).
pub open spec fn base64_standard(b: Seq<u8>) -> Seq<char>
    decreases b.len(),
{
    if b.len() == 0 {
        Seq::empty()
    } else if b.len() == 1 {
        seq![b64_char((b[0] / 4) as nat), b64_char(((b[0] % 4) * 16) as nat), '=', '=']
    } else if b.len() == 2 {
        seq![b64_char((b[0] / 4) as nat), b64_char(((b[0] % 4) * 16 + b[1] / 16) as nat),
            b64_char(((b[1] % 16) * 4) as nat), '=']
    } else {
        seq![b64_char((b[0] / 4) as nat), b64_char(((b[0] % 4) * 16 + b[1] / 16) as nat),
            b64_char(((b[1] % 16) * 4 + b[2] / 64) as nat), b64_char((b[2] % 64) as nat)]
            + base64_standard(b.skip(3))
    }
}

/// Encodes bytes with the `base64` crate's `STANDARD` engine. Claims: the
/// result is standard base64 of the bytes (RFC 4648 alphabet, padded).
#[verifier::external_body]
fn encode_base64(bytes: &[u8]) -> (s: String)
    ensures
        s@ == base64_standard(bytes@),
{
    base64::engine::general_purpose::STANDARD.encode(bytes)
}

/// The preview payload of an image at `image_path` with content `bytes`;
/// refused unless its type is one of the embeddable ones.
pub fn markdown_image_data(image_path: &str, bytes: &[u8]) -> (r: Result<MarkdownImageData, String>)
    ensures
        match r {
            Ok(d) => mime_spec(image_path@) == Some(d.mime_type@) && d.data_base64@ == base64_standard(bytes@),
            Err(e) => mime_spec(image_path@) is None && e@ == "只支持 PNG、JPG、GIF 和 WebP 图片。"@,
        },
{
    match image_mime_type(image_path) {
        None => Err(owned("只支持 PNG、JPG、GIF 和 WebP 图片。")),
        Some(m) => Ok(MarkdownImageData { mime_type: m, data_base64: encode_base64(bytes) }),
    }
}

} // verus!
