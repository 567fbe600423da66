//! Percent-decoding, file-name sanitising and choosing the file name of a download.

use vstd::prelude::*;
use vstd::utf8::encode_utf8;
use crate::strs::{CharClass, is_ws, trim, before_first, find_sub, rfind_sub, last_in, lower_seq,
    trim_chars, find_class, rfind_class, find_sub_chars, rfind_sub_chars, lower_chars, sub_chars};
use crate::text::{str_chars, chars_to_string, utf8_lossy, string_from_utf8_lossy};
use crate::quality::owned;

verus! {

/// Value of an ASCII hexadecimal digit byte.
pub open spec fn hex_byte_value(b: u8) -> Option<u8> {
    if 48 <= b && b <= 57 {
        Some((b - 48) as u8)
    } else if 97 <= b && b <= 102 {
        Some((b - 87) as u8)
    } else if 65 <= b && b <= 70 {
        Some((b - 55) as u8)
    } else {
        None
    }
}

/// Value of a hexadecimal digit byte, if it is one.
pub fn hex_value(b: u8) -> (r: Option<u8>)
    ensures
        r == hex_byte_value(b),
{
    if 48 <= b && b <= 57 {
        Some(b - 48)
    } else if 97 <= b && b <= 102 {
        Some(b - 87)
    } else if 65 <= b && b <= 70 {
        Some(b - 55)
    } else {
        None
    }
}

/// Replaces every `%XY` (two hex digits) by the byte `0xXY`; other bytes are kept.
pub open spec fn percent_decode_bytes(b: Seq<u8>) -> Seq<u8>
    decreases b.len(),
{
    if b.len() == 0 {
        Seq::empty()
    } else if b[0] == 37 && 2 < b.len() && hex_byte_value(b[1]) is Some && hex_byte_value(b[2]) is Some {
        seq![(hex_byte_value(b[1])->0 * 16 + hex_byte_value(b[2])->0) as u8] + percent_decode_bytes(b.skip(3))
    } else {
        seq![b[0]] + percent_decode_bytes(b.drop_first())
    }
}

/// Percent-decoding of the UTF-8 text, decoded back lossily.
pub open spec fn percent_decode_spec(s: Seq<char>) -> Seq<char> {
    utf8_lossy(percent_decode_bytes(encode_utf8(s)))
}

/// Decodes `%XY` escapes in `input` and reads the bytes back as (lossy) UTF-8.
pub fn percent_decode(input: &str) -> (r: String)
    ensures
        r@ == percent_decode_spec(input@),
{
    let bytes = input.as_bytes();
    let n = bytes.len();
    let mut decoded: Vec<u8> = Vec::new();
    let mut i: usize = 0;
    assert(bytes@.skip(0) =~= bytes@);
    while i < n
        invariant
            i <= n == bytes@.len(),
            percent_decode_bytes(bytes@) == decoded@ + percent_decode_bytes(bytes@.skip(i as int)),
        decreases n - i,
    {
        let ghost rest = bytes@.skip(i as int);
        if bytes[i] == 37 && n - i > 2 {
            let high = hex_value(bytes[i + 1]);
            let low = hex_value(bytes[i + 2]);
            if let (Some(h), Some(l)) = (high, low) {
                assert(rest[1] == bytes@[i + 1] && rest[2] == bytes@[i + 2]);
                assert(rest.skip(3) =~= bytes@.skip(i + 3));
                decoded.push(h * 16 + l);
                assert(decoded@ + percent_decode_bytes(bytes@.skip(i + 3)) =~= (decoded@.drop_last() + percent_decode_bytes(rest)));
                i += 3;
                continue;
            }
        }
        assert(rest.drop_first() =~= bytes@.skip(i + 1));
        decoded.push(bytes[i]);
        assert(decoded@ + percent_decode_bytes(bytes@.skip(i + 1)) =~= (decoded@.drop_last() + percent_decode_bytes(rest)));
        i += 1;
    }
    assert(decoded@ + percent_decode_bytes(bytes@.skip(n as int)) =~= decoded@);
    string_from_utf8_lossy(decoded.as_slice())
}

/// Characters Windows forbids in file names, and control characters.
pub open spec fn filename_bad_char(c: char) -> bool {
    c == '\\' || c == '/' || c == ':' || c == '*' || c == '?' || c == '"' || c == '<' || c == '>'
        || c == '|' || (c as u32) <= 0x1f || (0x7f <= (c as u32) && (c as u32) <= 0x9f)
}

/// File name with forbidden characters replaced by `_`, trimmed of white space
/// and dots; `download.bin` when nothing is left.
pub open spec fn sanitize_filename_spec(name: Seq<char>) -> Seq<char> {
    let cleaned = name.map_values(|c: char| if filename_bad_char(c) { '_' } else { c });
    let t = trim(trim(trim(cleaned, CharClass::Whitespace), CharClass::Is('.')), CharClass::Whitespace);
    if t.len() == 0 {
        "download.bin"@
    } else {
        t
    }
}

/// A sanitized file name is never empty and holds no character Windows
/// forbids in a name, so in particular no path separator: it always names a
/// single entry of the directory it is saved in.
pub proof fn lemma_sanitized_name_is_one_entry(name: Seq<char>)
    ensures
        sanitize_filename_spec(name).len() > 0,
        forall|i: int| 0 <= i < sanitize_filename_spec(name).len()
            ==> !filename_bad_char(#[trigger] sanitize_filename_spec(name)[i]),
{
    let cleaned = name.map_values(|c: char| if filename_bad_char(c) { '_' } else { c });
    assert(forall|i: int| 0 <= i < cleaned.len() ==> !filename_bad_char(#[trigger] cleaned[i]));
    let t1 = trim(cleaned, CharClass::Whitespace);
    crate::strs::lemma_trim_chars_from(cleaned, CharClass::Whitespace);
    assert(forall|i: int| 0 <= i < t1.len() ==> !filename_bad_char(#[trigger] t1[i]));
    let t2 = trim(t1, CharClass::Is('.'));
    crate::strs::lemma_trim_chars_from(t1, CharClass::Is('.'));
    assert(forall|i: int| 0 <= i < t2.len() ==> !filename_bad_char(#[trigger] t2[i]));
    let t3 = trim(t2, CharClass::Whitespace);
    crate::strs::lemma_trim_chars_from(t2, CharClass::Whitespace);
    assert(forall|i: int| 0 <= i < t3.len() ==> !filename_bad_char(#[trigger] t3[i]));
    if t3.len() == 0 {
        reveal_strlit("download.bin");
        let d = "download.bin"@;
        assert(forall|i: int| 0 <= i < d.len() ==> !filename_bad_char(#[trigger] d[i]));
    }
}

/// A sanitized file name neither starts nor ends with white space.
pub proof fn lemma_sanitized_name_is_trimmed(name: Seq<char>)
    ensures
        !is_ws(sanitize_filename_spec(name)[0]),
        !is_ws(sanitize_filename_spec(name).last()),
{
    let cleaned = name.map_values(|c: char| if filename_bad_char(c) { '_' } else { c });
    let t2 = trim(trim(cleaned, CharClass::Whitespace), CharClass::Is('.'));
    crate::strs::lemma_trim_ends(t2, CharClass::Whitespace);
    if trim(t2, CharClass::Whitespace).len() == 0 {
        reveal_strlit("download.bin");
    }
}

/// The name chosen for a download is never empty, holds no character Windows
/// forbids in a name (so no path separator), and neither starts nor ends with
/// white space; with no `Content-Disposition` and no last URL segment it is
/// `download.bin`.
pub proof fn lemma_extracted_name_is_safe(url: Seq<char>, disposition: Option<Seq<char>>)
    ensures
        extract_filename_spec(url, disposition).len() > 0,
        forall|i: int| 0 <= i < extract_filename_spec(url, disposition).len()
            ==> !filename_bad_char(#[trigger] extract_filename_spec(url, disposition)[i]),
        !is_ws(extract_filename_spec(url, disposition)[0]),
        !is_ws(extract_filename_spec(url, disposition).last()),
        disposition is None && ({
            let u = before_first(before_first(url, CharClass::Is('#')), CharClass::Is('?'));
            match last_in(u, CharClass::Is('/')) {
                Some(ls) => u.skip(ls + 1).len() == 0,
                None => true,
            }
        }) ==> extract_filename_spec(url, disposition) == "download.bin"@,
{
    let r = extract_filename_spec(url, disposition);
    let e = Seq::<char>::empty();
    let ce = e.map_values(|c: char| if filename_bad_char(c) { '_' } else { c });
    assert(ce =~= e);
    assert(sanitize_filename_spec(e) == "download.bin"@);
    let x: Seq<char> = choose|x: Seq<char>| sanitize_filename_spec(x) == r;
    assert(exists|x: Seq<char>| sanitize_filename_spec(x) == r) by {
        let from_star = match disposition { Some(d) => disposition_star_name(d), None => None };
        let from_plain = match disposition { Some(d) => disposition_plain_name(d), None => None };
        if from_star is Some {
        } else if from_plain is Some {
        } else if url_segment_name(url) is Some {
        } else {
            assert(sanitize_filename_spec(e) == r);
        }
    }
    lemma_sanitized_name_is_one_entry(x);
    lemma_sanitized_name_is_trimmed(x);
}

fn is_bad_filename_char(c: char) -> (b: bool)
    ensures
        b == filename_bad_char(c),
{
    let v = c as u32;
    c == '\\' || c == '/' || c == ':' || c == '*' || c == '?' || c == '"' || c == '<' || c == '>'
        || c == '|' || v <= 0x1f || (0x7f <= v && v <= 0x9f)
}

/// Replaces characters Windows forbids in file names by `_`, trims white space
/// and dots, and falls back to `download.bin` when nothing is left.
pub fn sanitize_filename(name: &str) -> (r: String)
    ensures
        r@ == sanitize_filename_spec(name@),
{
    let cs = str_chars(name);
    let n = cs.len();
    let mut cleaned: Vec<char> = Vec::new();
    for i in 0..n
        invariant
            n == cs@.len(),
            cleaned@ == cs@.take(i as int).map_values(|c: char| if filename_bad_char(c) { '_' } else { c }),
    {
        let c = cs[i];
        if is_bad_filename_char(c) {
            cleaned.push('_');
        } else {
            cleaned.push(c);
        }
        assert(cs@.take(i + 1).map_values(|c: char| if filename_bad_char(c) { '_' } else { c }) =~= cleaned@);
    }
    assert(cs@.take(n as int) =~= cs@);
    let t1 = trim_chars(cleaned.as_slice(), CharClass::Whitespace);
    let t2 = trim_chars(t1.as_slice(), CharClass::Is('.'));
    let t3 = trim_chars(t2.as_slice(), CharClass::Whitespace);
    if t3.len() == 0 {
        owned("download.bin")
    } else {
        chars_to_string(t3.as_slice())
    }
}

/// File name taken from a `filename*=` parameter, if it yields a real name.
pub open spec fn disposition_star_name(d: Seq<char>) -> Option<Seq<char>> {
    match find_sub(lower_seq(d), "filename*="@) {
        None => None,
        Some(idx) => {
            let value = trim(before_first(d.skip(idx + 10), CharClass::Is(';')), CharClass::Whitespace);
            let raw = match rfind_sub(value, "''"@) {
                Some(q) => value.skip(q + 2),
                None => value,
            };
            let name = sanitize_filename_spec(percent_decode_spec(trim(raw, CharClass::Is('"'))));
            if name == "download.bin"@ { None } else { Some(name) }
        },
    }
}

/// File name taken from a `filename=` parameter, if it yields a real name.
pub open spec fn disposition_plain_name(d: Seq<char>) -> Option<Seq<char>> {
    match find_sub(lower_seq(d), "filename="@) {
        None => None,
        Some(idx) => {
            let value = trim(before_first(d.skip(idx + 9), CharClass::Is(';')), CharClass::Whitespace);
            let unquoted = trim(trim(trim(value, CharClass::Is('"')), CharClass::Is('\'')), CharClass::Whitespace);
            let name = sanitize_filename_spec(unquoted);
            if name == "download.bin"@ { None } else { Some(name) }
        },
    }
}

/// File name taken from the last path segment of the URL, if it yields a real name.
pub open spec fn url_segment_name(url: Seq<char>) -> Option<Seq<char>> {
    let u = before_first(before_first(url, CharClass::Is('#')), CharClass::Is('?'));
    match last_in(u, CharClass::Is('/')) {
        None => None,
        Some(ls) => {
            let segment = u.skip(ls + 1);
            if segment.len() == 0 {
                None
            } else {
                let name = sanitize_filename_spec(percent_decode_spec(segment));
                if name == "download.bin"@ { None } else { Some(name) }
            }
        },
    }
}

/// Chosen file name: `filename*=`, then `filename=`, then the URL's last
/// segment, then `download.bin`.
pub open spec fn extract_filename_spec(url: Seq<char>, disposition: Option<Seq<char>>) -> Seq<char> {
    let from_star = match disposition { Some(d) => disposition_star_name(d), None => None };
    let from_plain = match disposition { Some(d) => disposition_plain_name(d), None => None };
    if from_star is Some {
        from_star->0
    } else if from_plain is Some {
        from_plain->0
    } else if url_segment_name(url) is Some {
        url_segment_name(url)->0
    } else {
        "download.bin"@
    }
}

/// Character view of an optional string slice.
pub open spec fn opt_str_view(o: Option<&str>) -> Option<Seq<char>> {
    match o {
        Some(s) => Some(s@),
        None => None,
    }
}

fn named_or_none(name: String) -> (r: Option<String>)
    ensures
        r matches Some(n) ==> n@ == name@ && name@ != "download.bin"@,
        r is None ==> name@ == "download.bin"@,
{
    let fallback = owned("download.bin");
    if name == fallback {
        None
    } else {
        Some(name)
    }
}

fn star_name(d: &[char]) -> (r: Option<String>)
    ensures
        match r {
            Some(n) => disposition_star_name(d@) == Some(n@),
            None => disposition_star_name(d@) is None,
        },
{
    let lower = lower_chars(d);
    let pat = str_chars("filename*=");
    proof { reveal_strlit("filename*="); }
    assert(pat@.len() == 10);
    match find_sub_chars(lower.as_slice(), pat.as_slice()) {
        None => None,
        Some(idx) => {
            assert(lower@.len() == d@.len());
            let dn = d.len();
            let rest = sub_chars(d, idx + 10, dn);
            assert(rest@ =~= d@.skip(idx + 10));
            let cut = match find_class(rest.as_slice(), CharClass::Is(';')) {
                Some(c) => c,
                None => rest.len(),
            };
            let head = sub_chars(rest.as_slice(), 0, cut);
            assert(head@ =~= before_first(rest@, CharClass::Is(';')));
            let value = trim_chars(head.as_slice(), CharClass::Whitespace);
            let quotes = str_chars("''");
            let raw = match rfind_sub_chars(value.as_slice(), quotes.as_slice()) {
                Some(q) => {
                    proof { reveal_strlit("''"); }
                    let vn = value.len();
                    let r = sub_chars(value.as_slice(), q + 2, vn);
                    assert(r@ =~= value@.skip(q + 2));
                    r
                },
                None => value,
            };
            let unquoted = trim_chars(raw.as_slice(), CharClass::Is('"'));
            let decoded = percent_decode(chars_to_string(unquoted.as_slice()).as_str());
            named_or_none(sanitize_filename(decoded.as_str()))
        },
    }
}

fn plain_name(d: &[char]) -> (r: Option<String>)
    ensures
        match r {
            Some(n) => disposition_plain_name(d@) == Some(n@),
            None => disposition_plain_name(d@) is None,
        },
{
    let lower = lower_chars(d);
    let pat = str_chars("filename=");
    proof { reveal_strlit("filename="); }
    assert(pat@.len() == 9);
    match find_sub_chars(lower.as_slice(), pat.as_slice()) {
        None => None,
        Some(idx) => {
            assert(lower@.len() == d@.len());
            let dn = d.len();
            let rest = sub_chars(d, idx + 9, dn);
            assert(rest@ =~= d@.skip(idx + 9));
            let cut = match find_class(rest.as_slice(), CharClass::Is(';')) {
                Some(c) => c,
                None => rest.len(),
            };
            let head = sub_chars(rest.as_slice(), 0, cut);
            assert(head@ =~= before_first(rest@, CharClass::Is(';')));
            let value = trim_chars(head.as_slice(), CharClass::Whitespace);
            let a = trim_chars(value.as_slice(), CharClass::Is('"'));
            let b = trim_chars(a.as_slice(), CharClass::Is('\''));
            let c = trim_chars(b.as_slice(), CharClass::Whitespace);
            named_or_none(sanitize_filename(chars_to_string(c.as_slice()).as_str()))
        },
    }
}

fn segment_name(url: &[char]) -> (r: Option<String>)
    ensures
        match r {
            Some(n) => url_segment_name(url@) == Some(n@),
            None => url_segment_name(url@) is None,
        },
{
    let cut1 = match find_class(url, CharClass::Is('#')) {
        Some(c) => c,
        None => url.len(),
    };
    let u1 = sub_chars(url, 0, cut1);
    assert(u1@ =~= before_first(url@, CharClass::Is('#')));
    let cut2 = match find_class(u1.as_slice(), CharClass::Is('?')) {
        Some(c) => c,
        None => u1.len(),
    };
    let u2 = sub_chars(u1.as_slice(), 0, cut2);
    assert(u2@ =~= before_first(u1@, CharClass::Is('?')));
    match rfind_class(u2.as_slice(), CharClass::Is('/')) {
        None => None,
        Some(ls) => {
            let segment = sub_chars(u2.as_slice(), ls + 1, u2.len());
            assert(segment@ =~= u2@.skip(ls + 1));
            if segment.len() == 0 {
                None
            } else {
                let decoded = percent_decode(chars_to_string(segment.as_slice()).as_str());
                named_or_none(sanitize_filename(decoded.as_str()))
            }
        },
    }
}

/// Picks the file name of a download: the RFC 5987 `filename*=` parameter of
/// `Content-Disposition`, then its `filename=` parameter, then the last path
/// segment of the URL (percent-decoded), then `download.bin`; each candidate is
/// sanitised and used only when it does not sanitise to `download.bin`.
pub fn extract_filename_from_url(url: &str, disposition: Option<&str>) -> (r: String)
    ensures
        r@ == extract_filename_spec(url@, opt_str_view(disposition)),
{
    if let Some(disp) = disposition {
        let d = str_chars(disp);
        if let Some(n) = star_name(d.as_slice()) {
            return n;
        }
        if let Some(n) = plain_name(d.as_slice()) {
            return n;
        }
    }
    let u = str_chars(url);
    if let Some(n) = segment_name(u.as_slice()) {
        return n;
    }
    owned("download.bin")
}

} // verus!
