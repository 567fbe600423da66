//! Redaction of diagnostic reports: identity fields of a JSON report are
//! replaced, and free text loses Windows user names in paths, MAC addresses,
//! IPv4 and IPv6 literals, while the JSON shape is kept.

use vstd::prelude::*;
use crate::text::{str_chars, string_push, chars_to_string, pow10};
use crate::strs::{contains_seq, contains_chars, starts_with, ascii_lower, to_ascii_lower, lower_seq, lower_chars, starts_with_at, sub_chars, CharClass, first_in, before_first, find_class};

verus! {

// ---------------------------------------------------------------------------
// Character classes
// ---------------------------------------------------------------------------

/// `\` or `/`.
pub open spec fn path_sep(c: char) -> bool {
    c == '\\' || c == '/'
}

/// ASCII hexadecimal digit.
pub open spec fn hex_char(c: char) -> bool {
    ('0' <= c && c <= '9') || ('a' <= c && c <= 'f') || ('A' <= c && c <= 'F')
}

/// ASCII decimal digit.
pub open spec fn dec_char(c: char) -> bool {
    '0' <= c && c <= '9'
}

/// ASCII letter or digit.
pub open spec fn alnum_char(c: char) -> bool {
    dec_char(c) || ('a' <= c && c <= 'z') || ('A' <= c && c <= 'Z')
}

/// Characters that may touch a MAC address without being part of a word.
pub open spec fn mac_word_char(c: char) -> bool {
    alnum_char(c) || c == '_'
}

/// Characters an IPv6 candidate is made of.
pub open spec fn ipv6_candidate_char(c: char) -> bool {
    hex_char(c) || c == ':' || c == '.'
}

/// Characters of an IPv6 zone index after `%`.
pub open spec fn zone_char(c: char) -> bool {
    alnum_char(c) || c == '.' || c == '-' || c == '_'
}

/// Whether `c` is `\` or `/`.
pub fn is_path_separator(c: char) -> (b: bool)
    ensures
        b == path_sep(c),
{
    c == '\\' || c == '/'
}

/// Whether `c` is an ASCII hexadecimal digit.
pub fn is_hex_digit(c: char) -> (b: bool)
    ensures
        b == hex_char(c),
{
    ('0' <= c && c <= '9') || ('a' <= c && c <= 'f') || ('A' <= c && c <= 'F')
}

fn is_dec_digit(c: char) -> (b: bool)
    ensures
        b == dec_char(c),
{
    '0' <= c && c <= '9'
}

fn is_alnum(c: char) -> (b: bool)
    ensures
        b == alnum_char(c),
{
    ('0' <= c && c <= '9') || ('a' <= c && c <= 'z') || ('A' <= c && c <= 'Z')
}

/// Whether `c` counts as a word character around a MAC address.
pub fn is_mac_word_byte(c: char) -> (b: bool)
    ensures
        b == mac_word_char(c),
{
    is_alnum(c) || c == '_'
}

/// Whether `c` may be part of an IPv6 candidate.
pub fn is_ipv6_candidate_byte(c: char) -> (b: bool)
    ensures
        b == ipv6_candidate_char(c),
{
    is_hex_digit(c) || c == ':' || c == '.'
}

// ---------------------------------------------------------------------------
// Windows user paths
// ---------------------------------------------------------------------------

/// A `\Users\` (any case, either separator) segment starts at `i`.
pub open spec fn users_at(s: Seq<char>, i: int) -> bool {
    &&& 0 <= i
    &&& i + 7 <= s.len()
    &&& path_sep(s[i])
    &&& lower_seq(s.subrange(i + 1, i + 6)) == "users"@
    &&& path_sep(s[i + 6])
}

/// End of the path segment starting at `j`: the next separator or the end.
pub open spec fn segment_end(s: Seq<char>, j: int) -> int
    decreases s.len() - j,
{
    if j >= s.len() || path_sep(s[j]) {
        j
    } else {
        segment_end(s, j + 1)
    }
}

/// `s[i..]` with every non-empty user name after `\Users\` replaced by `<USER>`.
pub open spec fn redact_users_from(s: Seq<char>, i: int) -> Seq<char>
    decreases s.len() - i,
{
    if i < 0 || i >= s.len() {
        Seq::empty()
    } else if users_at(s, i) && segment_end(s, i + 7) > i + 7 {
        proof {
            lemma_segment_end_bounds(s, i + 7);
        }
        s.subrange(i, i + 7) + "<USER>"@ + redact_users_from(s, segment_end(s, i + 7))
    } else {
        seq![s[i]] + redact_users_from(s, i + 1)
    }
}

pub proof fn lemma_segment_end_bounds(s: Seq<char>, j: int)
    requires
        0 <= j,
    ensures
        j <= segment_end(s, j),
        j <= s.len() ==> segment_end(s, j) <= s.len(),
    decreases s.len() - j,
{
    if !(j >= s.len() || path_sep(s[j])) {
        lemma_segment_end_bounds(s, j + 1);
    }
}

/// A path segment from `j` ends at `e` exactly when no separator lies in
/// between and `e` is a separator or the end of the text.
proof fn lemma_segment_end_is(s: Seq<char>, j: int, e: int)
    requires
        0 <= j <= e <= s.len(),
        forall|k: int| j <= k < e ==> !path_sep(#[trigger] s[k]),
        e == s.len() || path_sep(s[e]),
    ensures
        segment_end(s, j) == e,
    decreases e - j,
{
    if j < e {
        lemma_segment_end_is(s, j + 1, e);
    }
}

/// At a `\Users\` segment whose user name runs from `i + 7` up to the next
/// `\` or `/` (or the end of the text) at `e`, the whole name is replaced:
/// the redaction keeps `\Users\`, writes `<USER>`, and goes on exactly at
/// that separator, so no character of the name is kept.
pub proof fn lemma_user_name_redacted_to_separator(s: Seq<char>, i: int, e: int)
    requires
        users_at(s, i),
        i + 7 < e <= s.len(),
        forall|k: int| i + 7 <= k < e ==> !path_sep(#[trigger] s[k]),
        e == s.len() || path_sep(s[e]),
    ensures
        redact_users_from(s, i) == s.subrange(i, i + 7) + "<USER>"@ + redact_users_from(s, e),
{
    lemma_segment_end_is(s, i + 7, e);
}

fn users_segment_at(s: &[char], i: usize) -> (b: bool)
    requires
        i <= s@.len(),
    ensures
        b == users_at(s@, i as int),
{
    let n = s.len();
    if n - i < 7 {
        return false;
    }
    if !is_path_separator(s[i]) || !is_path_separator(s[i + 6]) {
        return false;
    }
    let mid = sub_chars(s, i + 1, i + 6);
    let low = lower_chars(mid.as_slice());
    let users = str_chars("users");
    proof { reveal_strlit("users"); }
    assert(low@.skip(0) =~= low@);
    let hit = starts_with_at(low.as_slice(), 0, users.as_slice());
    assert(low@.len() == 5);
    if hit {
        assert(low@.take(5) =~= low@);
    }
    hit
}

fn find_segment_end(s: &[char], j: usize) -> (e: usize)
    requires
        j <= s@.len(),
    ensures
        e as int == segment_end(s@, j as int),
        j <= e <= s@.len(),
{
    let n = s.len();
    let mut k = j;
    while k < n && !is_path_separator(s[k])
        invariant
            j <= k <= n == s@.len(),
            segment_end(s@, j as int) == segment_end(s@, k as int),
        decreases n - k,
    {
        k += 1;
    }
    k
}

/// Appends `src[a..b]` to `out`.
pub fn push_range(out: &mut Vec<char>, src: &[char], a: usize, b: usize)
    requires
        a <= b <= src@.len(),
    ensures
        final(out)@ == old(out)@ + src@.subrange(a as int, b as int),
{
    let mut k = a;
    while k < b
        invariant
            a <= k <= b <= src@.len(),
            out@ == old(out)@ + src@.subrange(a as int, k as int),
        decreases b - k,
    {
        out.push(src[k]);
        assert(src@.subrange(a as int, k + 1) =~= src@.subrange(a as int, k as int).push(src@[k as int]));
        k += 1;
    }
}

/// Appends all of `src` to `out`.
pub fn push_all(out: &mut Vec<char>, src: &[char])
    ensures
        final(out)@ == old(out)@ + src@,
{
    let n = src.len();
    push_range(out, src, 0, n);
    assert(src@.subrange(0, n as int) =~= src@);
}

/// Replaces the user name in every `\Users\<name>` path segment by `<USER>`.
pub fn redact_windows_user_paths(input: &[char]) -> (out: Vec<char>)
    ensures
        out@ == redact_users_from(input@, 0),
{
    let n = input.len();
    let mut out: Vec<char> = Vec::new();
    let mut i: usize = 0;
    let user_tag = str_chars("<USER>");
    while i < n
        invariant
            i <= n == input@.len(),
            user_tag@ == "<USER>"@,
            redact_users_from(input@, 0) == out@ + redact_users_from(input@, i as int),
        decreases n - i,
    {
        if users_segment_at(input, i) {
            let seg_start = i + 7;
            let seg_end = find_segment_end(input, seg_start);
            if seg_end > seg_start {
                let ghost before = out@;
                push_range(&mut out, input, i, seg_start);
                push_all(&mut out, user_tag.as_slice());
                assert(out@ + redact_users_from(input@, seg_end as int) =~= before + redact_users_from(input@, i as int));
                i = seg_end;
                continue;
            }
        }
        let ghost before = out@;
        out.push(input[i]);
        assert(out@ + redact_users_from(input@, i + 1) =~= before + redact_users_from(input@, i as int));
        i += 1;
    }
    assert(out@ + redact_users_from(input@, n as int) =~= out@);
    out
}

} // verus!

verus! {

// ---------------------------------------------------------------------------
// MAC addresses
// ---------------------------------------------------------------------------

/// Position `k` of a colon or hyphen MAC starting at `st`: a hex digit, or at
/// every third place the separator found at `st + 2`.
pub open spec fn colon_mac_pos_ok(s: Seq<char>, st: int, k: int) -> bool {
    if k % 3 == 2 {
        s[st + k] == s[st + 2]
    } else {
        hex_char(s[st + k])
    }
}

/// `xx:xx:xx:xx:xx:xx` or `xx-xx-xx-xx-xx-xx` starts at `st`, not touching
/// another hex digit on either side.
pub open spec fn colon_mac_at(s: Seq<char>, st: int) -> bool {
    &&& 0 <= st
    &&& st + 17 <= s.len()
    &&& !(st > 0 && hex_char(s[st - 1]))
    &&& !(st + 17 < s.len() && hex_char(s[st + 17]))
    &&& (s[st + 2] == ':' || s[st + 2] == '-')
    &&& forall|k: int| 0 <= k < 17 ==> #[trigger] colon_mac_pos_ok(s, st, k)
}

/// Neither the character before `st` nor the one at `end` is a word character.
pub open spec fn mac_boundaries(s: Seq<char>, st: int, end: int) -> bool {
    &&& (st == 0 || !mac_word_char(s[st - 1]))
    &&& (end == s.len() || !mac_word_char(s[end]))
}

/// Position `k` of a dotted MAC: dots at 4 and 9, hex digits elsewhere.
pub open spec fn dotted_mac_pos_ok(s: Seq<char>, st: int, k: int) -> bool {
    if k == 4 || k == 9 {
        s[st + k] == '.'
    } else {
        hex_char(s[st + k])
    }
}

/// `xxxx.xxxx.xxxx` starts at `st` with word boundaries on both sides.
pub open spec fn dotted_mac_at(s: Seq<char>, st: int) -> bool {
    &&& 0 <= st
    &&& st + 14 <= s.len()
    &&& mac_boundaries(s, st, st + 14)
    &&& forall|k: int| 0 <= k < 14 ==> #[trigger] dotted_mac_pos_ok(s, st, k)
}

/// Twelve hex digits start at `st` with word boundaries on both sides.
pub open spec fn compact_mac_at(s: Seq<char>, st: int) -> bool {
    &&& 0 <= st
    &&& st + 12 <= s.len()
    &&& mac_boundaries(s, st, st + 12)
    &&& forall|k: int| 0 <= k < 12 ==> #[trigger] hex_char(s[st + k])
}

/// Length of the MAC address starting at `st`, or 0 if there is none; the
/// colon form is tried first, then the dotted, then the compact one.
pub open spec fn mac_len_at(s: Seq<char>, st: int) -> int {
    if colon_mac_at(s, st) {
        17
    } else if dotted_mac_at(s, st) {
        14
    } else if compact_mac_at(s, st) {
        12
    } else {
        0
    }
}

/// `s[i..]` with every MAC address replaced by `<MAC_ADDRESS>`, scanning
/// left to right and resuming after each replacement.
pub open spec fn redact_macs_from(s: Seq<char>, i: int) -> Seq<char>
    decreases s.len() - i,
{
    if i < 0 || i >= s.len() {
        Seq::empty()
    } else if mac_len_at(s, i) > 0 {
        "<MAC_ADDRESS>"@ + redact_macs_from(s, i + mac_len_at(s, i))
    } else {
        seq![s[i]] + redact_macs_from(s, i + 1)
    }
}

/// Whether a colon or hyphen MAC address starts at `st`.
fn is_mac_at(s: &[char], st: usize) -> (b: bool)
    requires
        st <= s@.len(),
    ensures
        b == colon_mac_at(s@, st as int),
{
    let n = s.len();
    if n - st < 17 {
        return false;
    }
    if st > 0 && is_hex_digit(s[st - 1]) {
        return false;
    }
    if st + 17 < n && is_hex_digit(s[st + 17]) {
        return false;
    }
    let sep = s[st + 2];
    if sep != ':' && sep != '-' {
        return false;
    }
    let mut k: usize = 0;
    while k < 17
        invariant
            k <= 17,
            st + 17 <= n == s@.len(),
            sep == s@[st + 2],
            forall|j: int| 0 <= j < k ==> #[trigger] colon_mac_pos_ok(s@, st as int, j),
        decreases 17 - k,
    {
        let ok = if k % 3 == 2 {
            s[st + k] == sep
        } else {
            is_hex_digit(s[st + k])
        };
        if !ok {
            assert(!colon_mac_pos_ok(s@, st as int, k as int));
            return false;
        }
        k += 1;
    }
    true
}

/// Whether `st..end` is bounded by non-word characters or the ends.
fn has_conservative_mac_boundaries(s: &[char], st: usize, end: usize) -> (b: bool)
    requires
        st <= end <= s@.len(),
    ensures
        b == mac_boundaries(s@, st as int, end as int),
{
    (st == 0 || !is_mac_word_byte(s[st - 1])) && (end == s.len() || !is_mac_word_byte(s[end]))
}

/// Whether a dotted (`xxxx.xxxx.xxxx`) MAC address starts at `st`.
fn is_dotted_mac_at(s: &[char], st: usize) -> (b: bool)
    requires
        st <= s@.len(),
    ensures
        b == dotted_mac_at(s@, st as int),
{
    let n = s.len();
    if n - st < 14 || !has_conservative_mac_boundaries(s, st, st + 14) {
        return false;
    }
    let mut k: usize = 0;
    while k < 14
        invariant
            k <= 14,
            st + 14 <= n == s@.len(),
            forall|j: int| 0 <= j < k ==> #[trigger] dotted_mac_pos_ok(s@, st as int, j),
        decreases 14 - k,
    {
        let ok = if k == 4 || k == 9 {
            s[st + k] == '.'
        } else {
            is_hex_digit(s[st + k])
        };
        if !ok {
            assert(!dotted_mac_pos_ok(s@, st as int, k as int));
            return false;
        }
        k += 1;
    }
    true
}

/// Whether a compact twelve-digit MAC address starts at `st`.
fn is_compact_mac_at(s: &[char], st: usize) -> (b: bool)
    requires
        st <= s@.len(),
    ensures
        b == compact_mac_at(s@, st as int),
{
    let n = s.len();
    if n - st < 12 || !has_conservative_mac_boundaries(s, st, st + 12) {
        return false;
    }
    let mut k: usize = 0;
    while k < 12
        invariant
            k <= 12,
            st + 12 <= n == s@.len(),
            forall|j: int| 0 <= j < k ==> #[trigger] hex_char(s@[st + j]),
        decreases 12 - k,
    {
        if !is_hex_digit(s[st + k]) {
            return false;
        }
        k += 1;
    }
    true
}

/// Length of the MAC address that starts at `st`, or 0.
pub fn mac_len_found(s: &[char], st: usize) -> (n: usize)
    requires
        st <= s@.len(),
    ensures
        n as int == mac_len_at(s@, st as int),
{
    if is_mac_at(s, st) {
        17
    } else if is_dotted_mac_at(s, st) {
        14
    } else if is_compact_mac_at(s, st) {
        12
    } else {
        0
    }
}

/// Replaces every MAC address (colon, hyphen, dotted or compact form) by
/// `<MAC_ADDRESS>`.
pub fn redact_mac_addresses(input: &[char]) -> (out: Vec<char>)
    ensures
        out@ == redact_macs_from(input@, 0),
{
    let n = input.len();
    let mut out: Vec<char> = Vec::new();
    let mut i: usize = 0;
    let tag = str_chars("<MAC_ADDRESS>");
    while i < n
        invariant
            i <= n == input@.len(),
            tag@ == "<MAC_ADDRESS>"@,
            redact_macs_from(input@, 0) == out@ + redact_macs_from(input@, i as int),
        decreases n - i,
    {
        let len = mac_len_found(input, i);
        let ghost before = out@;
        if len > 0 {
            push_all(&mut out, tag.as_slice());
            assert(out@ + redact_macs_from(input@, i + len) =~= before + redact_macs_from(input@, i as int));
            i = i + len;
        } else {
            out.push(input[i]);
            assert(out@ + redact_macs_from(input@, i + 1) =~= before + redact_macs_from(input@, i as int));
            i += 1;
        }
    }
    assert(out@ + redact_macs_from(input@, n as int) =~= out@);
    out
}

} // verus!

verus! {

// ---------------------------------------------------------------------------
// What MAC redaction leaves behind
// ---------------------------------------------------------------------------

/// The first position at or after `k` where a MAC address starts, or the end.
pub open spec fn next_mac(s: Seq<char>, k: int) -> int
    decreases s.len() - k,
{
    if k < 0 || k >= s.len() {
        s.len() as int
    } else if mac_len_at(s, k) > 0 {
        k
    } else {
        next_mac(s, k + 1)
    }
}

/// The character written just before position `i` of the redacted text: none
/// at the start, else the character before it, or the `>` closing a
/// replacement, which is only followed by a character that is no hex digit.
pub open spec fn mac_context_ok(s: Seq<char>, i: int, ctx: Seq<char>) -> bool {
    ||| ctx.len() == 0 && i == 0
    ||| ctx.len() == 1 && i > 0 && ctx[0] == s[i - 1]
    ||| ctx.len() == 1 && i > 0 && ctx[0] == '>' && (i < s.len() ==> !hex_char(s[i]))
}

proof fn lemma_next_mac(s: Seq<char>, k: int)
    requires
        0 <= k <= s.len(),
    ensures
        k <= next_mac(s, k) <= s.len(),
        next_mac(s, k) < s.len() ==> mac_len_at(s, next_mac(s, k)) > 0,
        redact_macs_from(s, k) == s.subrange(k, next_mac(s, k)) + redact_macs_from(s, next_mac(s, k)),
    decreases s.len() - k,
{
    if k == s.len() || mac_len_at(s, k) > 0 {
        assert(s.subrange(k, k) + redact_macs_from(s, k) =~= redact_macs_from(s, k));
    } else {
        lemma_next_mac(s, k + 1);
        let j = next_mac(s, k + 1);
        assert(s.subrange(k, j) =~= seq![s[k]] + s.subrange(k + 1, j));
        assert(redact_macs_from(s, k) =~= s.subrange(k, j) + redact_macs_from(s, j));
    }
}

/// A MAC address ends with a hex digit, and what follows it is none.
proof fn lemma_mac_ends(s: Seq<char>, i: int)
    requires
        0 <= i < s.len(),
        mac_len_at(s, i) > 0,
    ensures
        i + mac_len_at(s, i) <= s.len(),
        hex_char(s[i + mac_len_at(s, i) - 1]),
        i + mac_len_at(s, i) < s.len() ==> !hex_char(s[i + mac_len_at(s, i)]),
{
    if colon_mac_at(s, i) {
        assert(colon_mac_pos_ok(s, i, 16));
    } else if dotted_mac_at(s, i) {
        assert(dotted_mac_pos_ok(s, i, 13));
    } else {
        assert(hex_char(s[i + 11]));
    }
}

/// A MAC address is not preceded by a hex digit.
proof fn lemma_mac_starts(s: Seq<char>, j: int)
    requires
        0 < j < s.len(),
        mac_len_at(s, j) > 0,
    ensures
        hex_char(s[j]),
        !hex_char(s[j - 1]),
{
    if colon_mac_at(s, j) {
        assert(colon_mac_pos_ok(s, j, 0));
    } else if dotted_mac_at(s, j) {
        assert(dotted_mac_pos_ok(s, j, 0));
    } else {
        assert(hex_char(s[j + 0]));
    }
}

/// No MAC address starts inside a `<MAC_ADDRESS>` tag.
proof fn lemma_no_mac_in_tag(a: Seq<char>, r: Seq<char>, st: int)
    requires
        a.len() <= st < a.len() + 13,
    ensures
        mac_len_at(a + "<MAC_ADDRESS>"@ + r, st) == 0,
{
    reveal_strlit("<MAC_ADDRESS>");
    let t = a + "<MAC_ADDRESS>"@ + r;
    let e: int = a.len() as int + 12;
    assert(t[a.len() as int] == '<');
    assert(t[e] == '>');
    if st == a.len() {
        assert(!colon_mac_at(t, st)) by {
            if colon_mac_at(t, st) {
                assert(colon_mac_pos_ok(t, st, 0));
            }
        }
        assert(!dotted_mac_at(t, st)) by {
            if dotted_mac_at(t, st) {
                assert(dotted_mac_pos_ok(t, st, 0));
            }
        }
        assert(!compact_mac_at(t, st)) by {
            if compact_mac_at(t, st) {
                assert(hex_char(t[st + 0]));
            }
        }
    } else {
        let k = e - st;
        assert(!colon_mac_at(t, st)) by {
            if colon_mac_at(t, st) {
                assert(colon_mac_pos_ok(t, st, k));
            }
        }
        assert(!dotted_mac_at(t, st)) by {
            if dotted_mac_at(t, st) {
                assert(dotted_mac_pos_ok(t, st, k));
            }
        }
        assert(!compact_mac_at(t, st)) by {
            if compact_mac_at(t, st) {
                assert(hex_char(t[st + k]));
            }
        }
    }
}

/// Whether a MAC address starts at `q >= 1` does not depend on what comes
/// before `q - 1`.
proof fn lemma_mac_shift(a: Seq<char>, u: Seq<char>, q: int)
    requires
        1 <= q <= u.len(),
    ensures
        mac_len_at(a + u, a.len() + q) == mac_len_at(u, q),
{
    let t = a + u;
    let st: int = a.len() + q;
    assert(t[st - 1] == u[q - 1]);
    if q + 17 <= u.len() {
        assert(t[st + 2] == u[q + 2]);
        assert forall|k: int| 0 <= k < 17 implies #[trigger] colon_mac_pos_ok(t, st, k) == colon_mac_pos_ok(u, q, k) by {
            assert(t[st + k] == u[q + k]);
        }
        if colon_mac_at(u, q) {
            assert forall|k: int| 0 <= k < 17 implies #[trigger] colon_mac_pos_ok(t, st, k) by {
                assert(colon_mac_pos_ok(u, q, k));
            }
        }
        if colon_mac_at(t, st) {
            assert forall|k: int| 0 <= k < 17 implies #[trigger] colon_mac_pos_ok(u, q, k) by {
                assert(colon_mac_pos_ok(t, st, k));
            }
        }
    }
    if q + 17 < u.len() {
        assert(t[st + 17] == u[q + 17]);
    }
    assert(colon_mac_at(t, st) == colon_mac_at(u, q));
    if q + 14 <= u.len() {
        assert forall|k: int| 0 <= k < 14 implies #[trigger] dotted_mac_pos_ok(t, st, k) == dotted_mac_pos_ok(u, q, k) by {
            assert(t[st + k] == u[q + k]);
        }
        assert(t[st + 14 - 1] == u[q + 14 - 1]);
        if dotted_mac_at(u, q) {
            assert forall|k: int| 0 <= k < 14 implies #[trigger] dotted_mac_pos_ok(t, st, k) by {
                assert(dotted_mac_pos_ok(u, q, k));
            }
        }
        if dotted_mac_at(t, st) {
            assert forall|k: int| 0 <= k < 14 implies #[trigger] dotted_mac_pos_ok(u, q, k) by {
                assert(dotted_mac_pos_ok(t, st, k));
            }
        }
    }
    if q + 14 < u.len() {
        assert(t[st + 14] == u[q + 14]);
    }
    assert(dotted_mac_at(t, st) == dotted_mac_at(u, q));
    if q + 12 <= u.len() {
        assert forall|k: int| 0 <= k < 12 implies #[trigger] t[st + k] == u[q + k] by {}
        if compact_mac_at(u, q) {
            assert forall|k: int| 0 <= k < 12 implies #[trigger] hex_char(t[st + k]) by {
                assert(hex_char(u[q + k]));
            }
        }
        if compact_mac_at(t, st) {
            assert forall|k: int| 0 <= k < 12 implies #[trigger] hex_char(u[q + k]) by {
                assert(hex_char(t[st + k]));
            }
        }
    }
    if q + 12 < u.len() {
        assert(t[st + 12] == u[q + 12]);
    }
    assert(compact_mac_at(t, st) == compact_mac_at(u, q));
}

/// The characters `s[i..j]` kept in the redacted text, after `ctx` and before
/// `rest` (nothing, or a tag when a MAC address starts at `j`), start no MAC
/// address where the scan found none.
proof fn lemma_kept_window(s: Seq<char>, i: int, j: int, ctx: Seq<char>, rest: Seq<char>)
    requires
        0 <= i < j <= s.len(),
        mac_len_at(s, i) == 0,
        mac_context_ok(s, i, ctx),
        j == s.len() ==> rest.len() == 0,
        j < s.len() ==> mac_len_at(s, j) > 0 && rest.len() > 0 && rest[0] == '<',
    ensures
        mac_len_at(ctx + s.subrange(i, j) + rest, ctx.len() as int) == 0,
{
    let t = ctx + s.subrange(i, j) + rest;
    let p: int = ctx.len() as int;
    let m: int = j - i;
    assert forall|k: int| 0 <= k < m implies #[trigger] t[p + k] == s[i + k] by {}
    assert(t.len() == p + m + rest.len());
    if j < s.len() {
        assert(t[p + m] == '<');
        lemma_mac_starts(s, j);
    }
    if ctx.len() == 1 && ctx[0] == '>' && !(ctx[0] == s[i - 1]) {
        assert(!hex_char(t[p]));
        assert(!colon_mac_at(t, p)) by {
            if colon_mac_at(t, p) {
                assert(colon_mac_pos_ok(t, p, 0));
            }
        }
        assert(!dotted_mac_at(t, p)) by {
            if dotted_mac_at(t, p) {
                assert(dotted_mac_pos_ok(t, p, 0));
            }
        }
        assert(!compact_mac_at(t, p)) by {
            if compact_mac_at(t, p) {
                assert(hex_char(t[p + 0]));
            }
        }
    } else {
        if p > 0 {
            assert(t[p - 1] == s[i - 1]);
        }
        lemma_kept_colon(s, i, j, t, p);
        lemma_kept_dotted(s, i, j, t, p);
        lemma_kept_compact(s, i, j, t, p);
    }
}

/// The colon form of [`lemma_kept_window`].
proof fn lemma_kept_colon(s: Seq<char>, i: int, j: int, t: Seq<char>, p: int)
    requires
        0 <= i < j <= s.len(),
        0 <= p,
        p == 0 ==> i == 0,
        p > 0 ==> i > 0 && t[p - 1] == s[i - 1],
        t.len() >= p + (j - i),
        forall|k: int| 0 <= k < j - i ==> #[trigger] t[p + k] == s[i + k],
        j == s.len() ==> t.len() == p + (j - i),
        j < s.len() ==> t[p + (j - i)] == '<' && !hex_char(s[j - 1]),
        !colon_mac_at(s, i),
    ensures
        !colon_mac_at(t, p),
{
    let m = j - i;
    if colon_mac_at(t, p) {
        if m < 17 {
            if j < s.len() {
                assert(colon_mac_pos_ok(t, p, m));
            }
        } else {
            assert(t[p + 2] == s[i + 2]);
            assert forall|k: int| 0 <= k < 17 implies #[trigger] colon_mac_pos_ok(s, i, k) by {
                assert(colon_mac_pos_ok(t, p, k));
                assert(t[p + k] == s[i + k]);
            }
            if m == 17 && j < s.len() {
                assert(colon_mac_pos_ok(t, p, 16));
                assert(t[p + 16] == s[i + 16]);
            }
            if m > 17 {
                assert(t[p + 17] == s[i + 17]);
            }
            assert(colon_mac_at(s, i));
        }
    }
}

/// The dotted form of [`lemma_kept_window`].
proof fn lemma_kept_dotted(s: Seq<char>, i: int, j: int, t: Seq<char>, p: int)
    requires
        0 <= i < j <= s.len(),
        0 <= p,
        p == 0 ==> i == 0,
        p > 0 ==> i > 0 && t[p - 1] == s[i - 1],
        t.len() >= p + (j - i),
        forall|k: int| 0 <= k < j - i ==> #[trigger] t[p + k] == s[i + k],
        j == s.len() ==> t.len() == p + (j - i),
        j < s.len() ==> t[p + (j - i)] == '<' && !hex_char(s[j - 1]),
        !dotted_mac_at(s, i),
    ensures
        !dotted_mac_at(t, p),
{
    let m = j - i;
    if dotted_mac_at(t, p) {
        if m < 14 {
            if j < s.len() {
                assert(dotted_mac_pos_ok(t, p, m));
            }
        } else {
            assert forall|k: int| 0 <= k < 14 implies #[trigger] dotted_mac_pos_ok(s, i, k) by {
                assert(dotted_mac_pos_ok(t, p, k));
                assert(t[p + k] == s[i + k]);
            }
            if m == 14 && j < s.len() {
                assert(dotted_mac_pos_ok(t, p, 13));
                assert(t[p + 13] == s[i + 13]);
            }
            if m > 14 {
                assert(t[p + 14] == s[i + 14]);
            }
            assert(dotted_mac_at(s, i));
        }
    }
}

/// The compact form of [`lemma_kept_window`].
proof fn lemma_kept_compact(s: Seq<char>, i: int, j: int, t: Seq<char>, p: int)
    requires
        0 <= i < j <= s.len(),
        0 <= p,
        p == 0 ==> i == 0,
        p > 0 ==> i > 0 && t[p - 1] == s[i - 1],
        t.len() >= p + (j - i),
        forall|k: int| 0 <= k < j - i ==> #[trigger] t[p + k] == s[i + k],
        j == s.len() ==> t.len() == p + (j - i),
        j < s.len() ==> t[p + (j - i)] == '<' && !hex_char(s[j - 1]),
        !compact_mac_at(s, i),
    ensures
        !compact_mac_at(t, p),
{
    let m = j - i;
    if compact_mac_at(t, p) {
        if m < 12 {
            if j < s.len() {
                assert(hex_char(t[p + m]));
            }
        } else {
            assert forall|k: int| 0 <= k < 12 implies #[trigger] hex_char(s[i + k]) by {
                assert(hex_char(t[p + k]));
                assert(t[p + k] == s[i + k]);
            }
            if m == 12 && j < s.len() {
                assert(hex_char(t[p + 11]));
                assert(t[p + 11] == s[i + 11]);
            }
            if m > 12 {
                assert(t[p + 12] == s[i + 12]);
            }
            assert(compact_mac_at(s, i));
        }
    }
}

/// After a context that fits position `i`, the redaction of `s[i..]` starts
/// no MAC address anywhere.
proof fn lemma_no_mac_from(s: Seq<char>, i: int, ctx: Seq<char>)
    requires
        0 <= i <= s.len(),
        mac_context_ok(s, i, ctx),
    ensures
        forall|p: int| ctx.len() <= p < (ctx + redact_macs_from(s, i)).len()
            ==> #[trigger] mac_len_at(ctx + redact_macs_from(s, i), p) == 0,
    decreases s.len() - i,
{
    let t = ctx + redact_macs_from(s, i);
    if i == s.len() {
        assert(t.len() == ctx.len());
    } else if mac_len_at(s, i) > 0 {
        let m = mac_len_at(s, i);
        lemma_mac_ends(s, i);
        let rest = redact_macs_from(s, i + m);
        lemma_no_mac_from(s, i + m, seq!['>']);
        let tag = "<MAC_ADDRESS>"@;
        reveal_strlit("<MAC_ADDRESS>");
        let a = ctx + tag.subrange(0, 12);
        let u = seq!['>'] + rest;
        assert(t =~= ctx + tag + rest);
        assert(t =~= a + u);
        assert forall|p: int| ctx.len() <= p < t.len() implies #[trigger] mac_len_at(t, p) == 0 by {
            if p < ctx.len() + 13 {
                lemma_no_mac_in_tag(ctx, rest, p);
            } else {
                lemma_mac_shift(a, u, p - a.len());
            }
        }
    } else {
        let o = redact_macs_from(s, i);
        lemma_no_mac_from(s, i + 1, seq![s[i]]);
        assert(seq![s[i]] + redact_macs_from(s, i + 1) =~= o);
        lemma_next_mac(s, i + 1);
        let j = next_mac(s, i + 1);
        let rest = redact_macs_from(s, j);
        assert(o =~= s.subrange(i, j) + rest);
        if j < s.len() {
            reveal_strlit("<MAC_ADDRESS>");
            assert(rest[0] == '<');
        }
        lemma_kept_window(s, i, j, ctx, rest);
        assert(t =~= ctx + s.subrange(i, j) + rest);
        assert forall|p: int| ctx.len() <= p < t.len() implies #[trigger] mac_len_at(t, p) == 0 by {
            if p > ctx.len() {
                lemma_mac_shift(ctx, o, p - ctx.len());
            }
        }
    }
}

/// MAC redaction leaves no MAC address, in the colon, hyphen, dotted or
/// compact form, anywhere in the text it returns.
pub proof fn lemma_mac_redaction_leaves_no_mac(s: Seq<char>)
    ensures
        forall|p: int| 0 <= p < redact_macs_from(s, 0).len()
            ==> #[trigger] mac_len_at(redact_macs_from(s, 0), p) == 0,
{
    lemma_no_mac_from(s, 0, Seq::empty());
    assert(Seq::<char>::empty() + redact_macs_from(s, 0) =~= redact_macs_from(s, 0));
}

} // verus!

verus! {

// ---------------------------------------------------------------------------
// IPv4 addresses
// ---------------------------------------------------------------------------

/// End of the run of decimal digits starting at `j`.
pub open spec fn digit_run_end(s: Seq<char>, j: int) -> int
    decreases s.len() - j,
{
    if j < 0 || j >= s.len() || !dec_char(s[j]) {
        j
    } else {
        digit_run_end(s, j + 1)
    }
}

/// Value of a run of decimal digits.
pub open spec fn digits_value(d: Seq<char>) -> nat
    decreases d.len(),
{
    if d.len() == 0 {
        0
    } else {
        digits_value(d.drop_last()) * 10 + ((d.last() as u32) - 48) as nat
    }
}

/// `s[a..e]` is a dotted-quad part: one to three digits worth at most 255.
pub open spec fn octet_ok(s: Seq<char>, a: int, e: int) -> bool {
    1 <= e - a <= 3 && digits_value(s.subrange(a, e)) <= 255
}

/// Reads parts `part..4` of a dotted quad from `cursor`; the end of the last
/// part, or `None` if a part or a separating dot is missing.
pub open spec fn ipv4_parts_end(s: Seq<char>, cursor: int, part: int) -> Option<int>
    decreases 4 - part,
{
    let e = digit_run_end(s, cursor);
    if !octet_ok(s, cursor, e) {
        None
    } else if part >= 3 {
        Some(e)
    } else if e < s.len() && s[e] == '.' {
        ipv4_parts_end(s, e + 1, part + 1)
    } else {
        None
    }
}

/// End of the IPv4 literal starting at `st`: not preceded by a digit or a dot,
/// and not followed by a dot and a digit (a sentence-final dot stays outside).
pub open spec fn ipv4_end_at(s: Seq<char>, st: int) -> Option<int> {
    if st > 0 && (dec_char(s[st - 1]) || s[st - 1] == '.') {
        None
    } else {
        match ipv4_parts_end(s, st, 0) {
            None => None,
            Some(e) => if e + 1 < s.len() && s[e] == '.' && dec_char(s[e + 1]) {
                None
            } else {
                Some(e)
            },
        }
    }
}

/// `s[i..]` with every IPv4 literal replaced by `<IP_ADDRESS>`.
pub open spec fn redact_ipv4_from(s: Seq<char>, i: int) -> Seq<char>
    decreases s.len() - i,
{
    if i < 0 || i >= s.len() {
        Seq::empty()
    } else if dec_char(s[i]) && ipv4_end_at(s, i) is Some {
        proof {
            lemma_ipv4_parts_end_bounds(s, i, 0);
        }
        "<IP_ADDRESS>"@ + redact_ipv4_from(s, ipv4_end_at(s, i)->0)
    } else {
        seq![s[i]] + redact_ipv4_from(s, i + 1)
    }
}

pub proof fn lemma_digit_run_end_bounds(s: Seq<char>, j: int)
    requires
        0 <= j <= s.len(),
    ensures
        j <= digit_run_end(s, j) <= s.len(),
        forall|k: int| j <= k < digit_run_end(s, j) ==> #[trigger] dec_char(s[k]),
        digit_run_end(s, j) < s.len() ==> !dec_char(s[digit_run_end(s, j)]),
    decreases s.len() - j,
{
    if j < s.len() && dec_char(s[j]) {
        lemma_digit_run_end_bounds(s, j + 1);
    }
}

pub proof fn lemma_ipv4_parts_end_bounds(s: Seq<char>, cursor: int, part: int)
    requires
        0 <= cursor <= s.len(),
    ensures
        ipv4_parts_end(s, cursor, part) matches Some(e) ==> cursor < e <= s.len(),
    decreases 4 - part,
{
    lemma_digit_run_end_bounds(s, cursor);
    let e = digit_run_end(s, cursor);
    if octet_ok(s, cursor, e) && part < 3 && e < s.len() && s[e] == '.' {
        lemma_ipv4_parts_end_bounds(s, e + 1, part + 1);
    }
}

fn digit_run(s: &[char], j: usize) -> (e: usize)
    requires
        j <= s@.len(),
    ensures
        e as int == digit_run_end(s@, j as int),
        j <= e <= s@.len(),
{
    let n = s.len();
    let mut k = j;
    while k < n && is_dec_digit(s[k])
        invariant
            j <= k <= n == s@.len(),
            digit_run_end(s@, j as int) == digit_run_end(s@, k as int),
        decreases n - k,
    {
        k += 1;
    }
    k
}

fn octet_valid(s: &[char], a: usize, e: usize) -> (b: bool)
    requires
        a <= e <= s@.len(),
        forall|k: int| a <= k < e ==> #[trigger] dec_char(s@[k]),
    ensures
        b == octet_ok(s@, a as int, e as int),
{
    if e - a == 0 || e - a > 3 {
        return false;
    }
    let mut v: u32 = 0;
    let mut k = a;
    while k < e
        invariant
            a <= k <= e <= s@.len(),
            e - a <= 3,
            forall|j: int| a <= j < e ==> #[trigger] dec_char(s@[j]),
            v == digits_value(s@.subrange(a as int, k as int)),
            v < pow10((k - a) as nat),
        decreases e - k,
    {
        let c = s[k];
        assert(dec_char(s@[k as int]));
        let d = (c as u32) - 48;
        assert(s@.subrange(a as int, k + 1).drop_last() =~= s@.subrange(a as int, k as int));
        proof {
            reveal_with_fuel(pow10, 4);
        }
        assert(v * 10 + d < pow10((k + 1 - a) as nat)) by (nonlinear_arith)
            requires
                v < pow10((k - a) as nat),
                d <= 9,
                pow10((k + 1 - a) as nat) == 10 * pow10((k - a) as nat),
        ;
        v = v * 10 + d;
        k += 1;
    }
    v <= 255
}

/// End of the IPv4 literal starting at `st`, if there is one.
pub fn ipv4_end(s: &[char], st: usize) -> (r: Option<usize>)
    requires
        st <= s@.len(),
    ensures
        match r {
            Some(e) => ipv4_end_at(s@, st as int) == Some(e as int),
            None => ipv4_end_at(s@, st as int) is None,
        },
{
    let n = s.len();
    if st > 0 && (is_dec_digit(s[st - 1]) || s[st - 1] == '.') {
        return None;
    }
    let mut cursor = st;
    let mut part: usize = 0;
    while part < 3
        invariant
            st <= cursor <= n == s@.len(),
            part <= 3,
            ipv4_parts_end(s@, st as int, 0) == ipv4_parts_end(s@, cursor as int, part as int),
        decreases 3 - part,
    {
        let e = digit_run(s, cursor);
        proof {
            lemma_digit_run_end_bounds(s@, cursor as int);
        }
        if !octet_valid(s, cursor, e) {
            return None;
        }
        if e < n && s[e] == '.' {
            cursor = e + 1;
            part += 1;
        } else {
            return None;
        }
    }
    let e = digit_run(s, cursor);
    proof {
        lemma_digit_run_end_bounds(s@, cursor as int);
    }
    if !octet_valid(s, cursor, e) {
        return None;
    }
    cursor = e;
    assert(ipv4_parts_end(s@, st as int, 0) == Some(cursor as int));
    if cursor < n && n - cursor > 1 && s[cursor] == '.' && is_dec_digit(s[cursor + 1]) {
        return None;
    }
    Some(cursor)
}

/// Replaces every IPv4 literal by `<IP_ADDRESS>`.
pub fn redact_ipv4_addresses(input: &[char]) -> (out: Vec<char>)
    ensures
        out@ == redact_ipv4_from(input@, 0),
{
    let n = input.len();
    let mut out: Vec<char> = Vec::new();
    let mut i: usize = 0;
    let tag = str_chars("<IP_ADDRESS>");
    while i < n
        invariant
            i <= n == input@.len(),
            tag@ == "<IP_ADDRESS>"@,
            redact_ipv4_from(input@, 0) == out@ + redact_ipv4_from(input@, i as int),
        decreases n - i,
    {
        let ghost before = out@;
        if is_dec_digit(input[i]) {
            match ipv4_end(input, i) {
                Some(e) => {
                    proof {
                        lemma_ipv4_parts_end_bounds(input@, i as int, 0);
                    }
                    push_all(&mut out, tag.as_slice());
                    assert(out@ + redact_ipv4_from(input@, e as int) =~= before + redact_ipv4_from(input@, i as int));
                    i = e;
                    continue;
                },
                None => {},
            }
        }
        out.push(input[i]);
        assert(out@ + redact_ipv4_from(input@, i + 1) =~= before + redact_ipv4_from(input@, i as int));
        i += 1;
    }
    assert(out@ + redact_ipv4_from(input@, n as int) =~= out@);
    out
}

} // verus!

verus! {

// ---------------------------------------------------------------------------
// What IPv4 redaction leaves behind
// ---------------------------------------------------------------------------

/// An IPv4 literal, as the redaction recognises it, starts at `p`.
pub open spec fn ipv4_at(s: Seq<char>, p: int) -> bool {
    dec_char(s[p]) && ipv4_end_at(s, p) is Some
}

/// Neither a digit nor a dot: reading an IPv4 literal stops there.
pub open spec fn ip_stop(c: char) -> bool {
    !dec_char(c) && c != '.'
}

/// `s[c..c + n]` and `t[d..d + n]` hold the same characters, and each is
/// followed by its end or by a character that stops an IPv4 literal.
pub open spec fn same_ip_region(s: Seq<char>, c: int, t: Seq<char>, d: int, n: int) -> bool {
    &&& 0 <= c && 0 <= d && 0 <= n
    &&& c + n <= s.len() && d + n <= t.len()
    &&& forall|k: int| 0 <= k < n ==> #[trigger] s[c + k] == t[d + k]
    &&& ((c + n == s.len() && d + n == t.len())
        || (c + n < s.len() && d + n < t.len() && ip_stop(s[c + n]) && ip_stop(t[d + n])))
}

proof fn lemma_digit_run_agree(s: Seq<char>, c: int, t: Seq<char>, d: int, n: int, x: int)
    requires
        same_ip_region(s, c, t, d, n),
        0 <= x <= n,
    ensures
        digit_run_end(s, c + x) - c == digit_run_end(t, d + x) - d,
        digit_run_end(s, c + x) <= c + n,
    decreases n - x,
{
    if x < n {
        assert(s[c + x] == t[d + x]);
        if dec_char(s[c + x]) {
            lemma_digit_run_agree(s, c, t, d, n, x + 1);
        }
    }
}

proof fn lemma_parts_agree(s: Seq<char>, c: int, t: Seq<char>, d: int, n: int, x: int, part: int)
    requires
        same_ip_region(s, c, t, d, n),
        0 <= x <= n,
    ensures
        match ipv4_parts_end(s, c + x, part) {
            None => ipv4_parts_end(t, d + x, part) is None,
            Some(e) => ipv4_parts_end(t, d + x, part) == Some(e - c + d) && e <= c + n,
        },
    decreases 4 - part,
{
    lemma_digit_run_agree(s, c, t, d, n, x);
    lemma_digit_run_end_bounds(s, c + x);
    let e = digit_run_end(s, c + x);
    let f = digit_run_end(t, d + x);
    assert(s.subrange(c + x, e) =~= t.subrange(d + x, f)) by {
        assert forall|k: int| 0 <= k < e - (c + x) implies #[trigger] s.subrange(c + x, e)[k] == t.subrange(d + x, f)[k] by {
            assert(s[c + (x + k)] == t[d + (x + k)]);
        }
    }
    if octet_ok(s, c + x, e) && part < 3 && e < c + n {
        assert(s[c + (e - c)] == t[d + (e - c)]);
        if s[e] == '.' {
            lemma_parts_agree(s, c, t, d, n, e - c + 1, part + 1);
        }
    }
}

/// Whether an IPv4 literal starts at a position of a region depends only on
/// the region and on the character before that position.
proof fn lemma_ipv4_at_agree(s: Seq<char>, c: int, t: Seq<char>, d: int, n: int, x: int)
    requires
        same_ip_region(s, c, t, d, n),
        0 <= x < n,
        (c + x > 0 && (dec_char(s[c + x - 1]) || s[c + x - 1] == '.'))
            == (d + x > 0 && (dec_char(t[d + x - 1]) || t[d + x - 1] == '.')),
    ensures
        ipv4_at(s, c + x) == ipv4_at(t, d + x),
{
    assert(s[c + x] == t[d + x]);
    lemma_parts_agree(s, c, t, d, n, x, 0);
    lemma_ipv4_parts_end_bounds(s, c + x, 0);
    if let Some(e) = ipv4_parts_end(s, c + x, 0) {
        let f = e - c + d;
        if e < c + n {
            assert(s[c + (e - c)] == t[d + (e - c)]);
            if e + 1 < c + n {
                assert(s[c + (e - c + 1)] == t[d + (e - c + 1)]);
            }
        }
    }
}

/// The first position at or after `k` where an IPv4 literal starts, or the
/// end.
pub open spec fn next_ipv4(s: Seq<char>, k: int) -> int
    decreases s.len() - k,
{
    if k < 0 || k >= s.len() {
        s.len() as int
    } else if ipv4_at(s, k) {
        k
    } else {
        next_ipv4(s, k + 1)
    }
}

/// The character written just before position `i` of the redacted text: none
/// at the start, else the character before it, or the `>` closing a
/// replacement, which is only followed by a character that is no digit.
pub open spec fn ip_context_ok(s: Seq<char>, i: int, ctx: Seq<char>) -> bool {
    ||| ctx.len() == 0 && i == 0
    ||| ctx.len() == 1 && i > 0 && ctx[0] == s[i - 1]
    ||| ctx.len() == 1 && i > 0 && ctx[0] == '>' && (i < s.len() ==> !dec_char(s[i]))
}

proof fn lemma_next_ipv4(s: Seq<char>, k: int)
    requires
        0 <= k <= s.len(),
    ensures
        k <= next_ipv4(s, k) <= s.len(),
        next_ipv4(s, k) < s.len() ==> ipv4_at(s, next_ipv4(s, k)),
        redact_ipv4_from(s, k) == s.subrange(k, next_ipv4(s, k)) + redact_ipv4_from(s, next_ipv4(s, k)),
    decreases s.len() - k,
{
    if k == s.len() || ipv4_at(s, k) {
        assert(s.subrange(k, k) + redact_ipv4_from(s, k) =~= redact_ipv4_from(s, k));
    } else {
        lemma_next_ipv4(s, k + 1);
        let j = next_ipv4(s, k + 1);
        assert(s.subrange(k, j) =~= seq![s[k]] + s.subrange(k + 1, j));
        assert(redact_ipv4_from(s, k) =~= s.subrange(k, j) + redact_ipv4_from(s, j));
    }
}

/// A dotted quad ends where a digit run ends.
proof fn lemma_parts_end_stops(s: Seq<char>, cursor: int, part: int)
    requires
        0 <= cursor <= s.len(),
    ensures
        ipv4_parts_end(s, cursor, part) matches Some(e) ==> (e < s.len() ==> !dec_char(s[e])),
    decreases 4 - part,
{
    lemma_digit_run_end_bounds(s, cursor);
    let e = digit_run_end(s, cursor);
    if octet_ok(s, cursor, e) && part < 3 && e < s.len() && s[e] == '.' {
        lemma_parts_end_stops(s, e + 1, part + 1);
    }
}

/// No IPv4 literal starts inside an `<IP_ADDRESS>` tag.
proof fn lemma_no_ipv4_in_tag(a: Seq<char>, r: Seq<char>, st: int)
    requires
        a.len() <= st < a.len() + 12,
    ensures
        !ipv4_at(a + "<IP_ADDRESS>"@ + r, st),
{
    reveal_strlit("<IP_ADDRESS>");
    let tag = "<IP_ADDRESS>"@;
    let t = a + tag + r;
    assert(t[st] == tag[st - a.len()]);
    assert(!dec_char(tag[st - a.len()]));
}

/// The characters `s[i..j]` kept in the redacted text, after `ctx` and before
/// `rest` (nothing, or a tag when an IPv4 literal starts at `j`), start no
/// IPv4 literal where the scan found none.
proof fn lemma_ipv4_kept_window(s: Seq<char>, i: int, j: int, ctx: Seq<char>, rest: Seq<char>)
    requires
        0 <= i < j <= s.len(),
        !ipv4_at(s, i),
        ip_context_ok(s, i, ctx),
        j == s.len() ==> rest.len() == 0,
        j < s.len() ==> ipv4_at(s, j) && rest.len() > 0 && rest[0] == '<',
    ensures
        !ipv4_at(ctx + s.subrange(i, j) + rest, ctx.len() as int),
{
    let t = ctx + s.subrange(i, j) + rest;
    let p: int = ctx.len() as int;
    assert forall|k: int| 0 <= k < j - i implies #[trigger] t[p + k] == s[i + k] by {}
    assert(t[p + 0] == s[i + 0]);
    if ctx.len() == 1 && ctx[0] == '>' && !(ctx[0] == s[i - 1]) {
        assert(!dec_char(t[p]));
    } else if j < s.len() && i == j - 1 {
        assert(!dec_char(t[p]));
    } else {
        let n: int = if j == s.len() { j - i } else { j - 1 - i };
        if j < s.len() {
            assert(t[p + n] == s[i + n]);
        }
        assert forall|k: int| 0 <= k < n implies #[trigger] s[i + k] == t[p + k] by {
            assert(t[p + k] == s[i + k]);
        }
        assert(same_ip_region(s, i, t, p, n));
        if p > 0 {
            assert(t[p - 1] == s[i - 1]);
        }
        lemma_ipv4_at_agree(s, i, t, p, n, 0);
    }
}

/// After a context that fits position `i`, the redaction of `s[i..]` starts
/// no IPv4 literal anywhere.
proof fn lemma_no_ipv4_from(s: Seq<char>, i: int, ctx: Seq<char>)
    requires
        0 <= i <= s.len(),
        ip_context_ok(s, i, ctx),
    ensures
        forall|p: int| ctx.len() <= p < (ctx + redact_ipv4_from(s, i)).len()
            ==> !#[trigger] ipv4_at(ctx + redact_ipv4_from(s, i), p),
    decreases s.len() - i,
{
    let t = ctx + redact_ipv4_from(s, i);
    if i == s.len() {
        assert(t.len() == ctx.len());
    } else if ipv4_at(s, i) {
        lemma_ipv4_parts_end_bounds(s, i, 0);
        lemma_parts_end_stops(s, i, 0);
        let e = ipv4_end_at(s, i)->0;
        let rest = redact_ipv4_from(s, e);
        lemma_no_ipv4_from(s, e, seq!['>']);
        let tag = "<IP_ADDRESS>"@;
        reveal_strlit("<IP_ADDRESS>");
        let a = ctx + tag.subrange(0, 11);
        let u = seq!['>'] + rest;
        assert(t =~= ctx + tag + rest);
        assert(t =~= a + u);
        assert forall|p: int| ctx.len() <= p < t.len() implies !#[trigger] ipv4_at(t, p) by {
            if p < ctx.len() + 12 {
                lemma_no_ipv4_in_tag(ctx, rest, p);
            } else {
                let q = p - a.len();
                assert(same_ip_region(u, 0, t, a.len() as int, u.len() as int)) by {
                    assert forall|k: int| 0 <= k < u.len() implies #[trigger] u[0 + k] == t[a.len() + k] by {}
                }
                assert(u[q - 1] == t[a.len() + q - 1]);
                lemma_ipv4_at_agree(u, 0, t, a.len() as int, u.len() as int, q);
            }
        }
    } else {
        let o = redact_ipv4_from(s, i);
        lemma_no_ipv4_from(s, i + 1, seq![s[i]]);
        assert(seq![s[i]] + redact_ipv4_from(s, i + 1) =~= o);
        lemma_next_ipv4(s, i + 1);
        let j = next_ipv4(s, i + 1);
        let rest = redact_ipv4_from(s, j);
        assert(o =~= s.subrange(i, j) + rest);
        if j < s.len() {
            reveal_strlit("<IP_ADDRESS>");
            lemma_ipv4_parts_end_bounds(s, j, 0);
            assert(rest[0] == '<');
        }
        lemma_ipv4_kept_window(s, i, j, ctx, rest);
        assert(t =~= ctx + s.subrange(i, j) + rest);
        assert forall|p: int| ctx.len() <= p < t.len() implies !#[trigger] ipv4_at(t, p) by {
            if p > ctx.len() {
                let q = p - ctx.len();
                assert(same_ip_region(o, 0, t, ctx.len() as int, o.len() as int)) by {
                    assert forall|k: int| 0 <= k < o.len() implies #[trigger] o[0 + k] == t[ctx.len() + k] by {}
                }
                assert(o[q - 1] == t[ctx.len() + q - 1]);
                lemma_ipv4_at_agree(o, 0, t, ctx.len() as int, o.len() as int, q);
            }
        }
    }
}

/// IPv4 redaction leaves no IPv4 literal, as it recognises them, anywhere in
/// the text it returns.
pub proof fn lemma_ipv4_redaction_leaves_no_ipv4(s: Seq<char>)
    ensures
        forall|p: int| 0 <= p < redact_ipv4_from(s, 0).len()
            ==> !#[trigger] ipv4_at(redact_ipv4_from(s, 0), p),
{
    lemma_no_ipv4_from(s, 0, Seq::empty());
    assert(Seq::<char>::empty() + redact_ipv4_from(s, 0) =~= redact_ipv4_from(s, 0));
}

} // verus!

verus! {

// ---------------------------------------------------------------------------
// IPv6 addresses
// ---------------------------------------------------------------------------

/// Whether `text` is accepted by the standard library's IPv6 address parser.
pub uninterp spec fn ipv6_parses(text: Seq<char>) -> bool;

/// `text.parse::<Ipv6Addr>().is_ok()`: the standard parser's verdict, which
/// is named rather than restated (RFC 4291 text forms).
#[verifier::external_body]
fn ipv6_text_parses(text: &str) -> (b: bool)
    ensures
        b == ipv6_parses(text@),
{
    text.parse::<core::net::Ipv6Addr>().is_ok()
}

/// End of the run of IPv6 candidate characters starting at `j`.
pub open spec fn candidate_run_end(s: Seq<char>, j: int) -> int
    decreases s.len() - j,
{
    if j < 0 || j >= s.len() || !ipv6_candidate_char(s[j]) {
        j
    } else {
        candidate_run_end(s, j + 1)
    }
}

/// End of the run of zone characters starting at `j`.
pub open spec fn zone_run_end(s: Seq<char>, j: int) -> int
    decreases s.len() - j,
{
    if j < 0 || j >= s.len() || !zone_char(s[j]) {
        j
    } else {
        zone_run_end(s, j + 1)
    }
}

/// End of the IPv6 candidate at `st`: hex digits, `:` and `.`, then
/// optionally `%` and a zone index.
pub open spec fn candidate_end_at(s: Seq<char>, st: int) -> int {
    let c = candidate_run_end(s, st);
    if 0 <= c < s.len() && s[c] == '%' {
        zone_run_end(s, c + 1)
    } else {
        c
    }
}

/// The address part of a candidate: everything before its first `%`.
pub open spec fn ipv6_address_part(t: Seq<char>) -> Seq<char> {
    before_first(t, CharClass::Is('%'))
}

/// A candidate is an IPv6 literal when its address part holds a `:` and the
/// standard parser accepts it.
pub open spec fn ipv6_literal(t: Seq<char>) -> bool {
    let a = ipv6_address_part(t);
    first_in(a, CharClass::Is(':')) < a.len() && ipv6_parses(a)
}

/// End of the IPv6 literal at `st` whose candidate ends at `ce`; a single
/// sentence-final `.` is left outside the literal.
pub open spec fn ipv6_literal_end_at(s: Seq<char>, st: int, ce: int) -> Option<int> {
    if ipv6_literal(s.subrange(st, ce)) {
        Some(ce)
    } else if ce > st && s[ce - 1] == '.' && ipv6_literal(s.subrange(st, ce - 1)) {
        Some(ce - 1)
    } else {
        None
    }
}

/// `s[i..]` with every IPv6 literal replaced by `<IP_ADDRESS>`; a candidate
/// that is no literal is kept and skipped whole.
pub open spec fn redact_ipv6_from(s: Seq<char>, i: int) -> Seq<char>
    decreases s.len() - i,
{
    if i < 0 || i >= s.len() {
        Seq::empty()
    } else if ipv6_candidate_char(s[i]) {
        let ce = candidate_end_at(s, i);
        let le = ipv6_literal_end_at(s, i, ce);
        if le is Some && i < le->0 <= s.len() {
            "<IP_ADDRESS>"@ + redact_ipv6_from(s, le->0)
        } else {
            let nx = if i < ce <= s.len() { ce } else { i + 1 };
            s.subrange(i, nx) + redact_ipv6_from(s, nx)
        }
    } else {
        seq![s[i]] + redact_ipv6_from(s, i + 1)
    }
}

fn candidate_run(s: &[char], j: usize) -> (e: usize)
    requires
        j <= s@.len(),
    ensures
        e as int == candidate_run_end(s@, j as int),
        j <= e <= s@.len(),
{
    let n = s.len();
    let mut k = j;
    while k < n && is_ipv6_candidate_byte(s[k])
        invariant
            j <= k <= n == s@.len(),
            candidate_run_end(s@, j as int) == candidate_run_end(s@, k as int),
        decreases n - k,
    {
        k += 1;
    }
    k
}

fn zone_run(s: &[char], j: usize) -> (e: usize)
    requires
        j <= s@.len(),
    ensures
        e as int == zone_run_end(s@, j as int),
        j <= e <= s@.len(),
{
    let n = s.len();
    let mut k = j;
    while k < n && (is_alnum(s[k]) || s[k] == '.' || s[k] == '-' || s[k] == '_')
        invariant
            j <= k <= n == s@.len(),
            zone_run_end(s@, j as int) == zone_run_end(s@, k as int),
        decreases n - k,
    {
        k += 1;
    }
    k
}

/// End of the IPv6 candidate starting at `st`.
pub fn ipv6_candidate_end(s: &[char], st: usize) -> (e: usize)
    requires
        st <= s@.len(),
    ensures
        e as int == candidate_end_at(s@, st as int),
        st <= e <= s@.len(),
{
    let c = candidate_run(s, st);
    if c < s.len() && s[c] == '%' {
        zone_run(s, c + 1)
    } else {
        c
    }
}

/// Whether the candidate text `t` is an IPv6 literal.
pub fn is_ipv6_literal(t: &[char]) -> (b: bool)
    ensures
        b == ipv6_literal(t@),
{
    let cut = match find_class(t, CharClass::Is('%')) {
        Some(i) => i,
        None => t.len(),
    };
    let addr = sub_chars(t, 0, cut);
    assert(addr@ =~= ipv6_address_part(t@));
    match find_class(addr.as_slice(), CharClass::Is(':')) {
        None => false,
        Some(_) => {
            let text = chars_to_string(addr.as_slice());
            ipv6_text_parses(text.as_str())
        },
    }
}

/// End of the IPv6 literal at `st` with candidate end `ce`, if any.
pub fn ipv6_literal_end(s: &[char], st: usize, ce: usize) -> (r: Option<usize>)
    requires
        st <= ce <= s@.len(),
    ensures
        match r {
            Some(e) => ipv6_literal_end_at(s@, st as int, ce as int) == Some(e as int),
            None => ipv6_literal_end_at(s@, st as int, ce as int) is None,
        },
{
    let whole = sub_chars(s, st, ce);
    if is_ipv6_literal(whole.as_slice()) {
        return Some(ce);
    }
    if ce > st && s[ce - 1] == '.' {
        let trimmed = sub_chars(s, st, ce - 1);
        if is_ipv6_literal(trimmed.as_slice()) {
            return Some(ce - 1);
        }
    }
    None
}

/// Replaces every IPv6 literal (optionally with a zone index) by `<IP_ADDRESS>`.
pub fn redact_ipv6_addresses(input: &[char]) -> (out: Vec<char>)
    ensures
        out@ == redact_ipv6_from(input@, 0),
{
    let n = input.len();
    let mut out: Vec<char> = Vec::new();
    let mut i: usize = 0;
    let tag = str_chars("<IP_ADDRESS>");
    while i < n
        invariant
            i <= n == input@.len(),
            tag@ == "<IP_ADDRESS>"@,
            redact_ipv6_from(input@, 0) == out@ + redact_ipv6_from(input@, i as int),
        decreases n - i,
    {
        let ghost before = out@;
        if is_ipv6_candidate_byte(input[i]) {
            let ce = ipv6_candidate_end(input, i);
            let le = ipv6_literal_end(input, i, ce);
            match le {
                Some(e) => {
                    if i < e {
                        push_all(&mut out, tag.as_slice());
                        assert(out@ + redact_ipv6_from(input@, e as int) =~= before + redact_ipv6_from(input@, i as int));
                        i = e;
                        continue;
                    }
                },
                None => {},
            }
            let nx = if i < ce { ce } else { i + 1 };
            push_range(&mut out, input, i, nx);
            assert(out@ + redact_ipv6_from(input@, nx as int) =~= before + redact_ipv6_from(input@, i as int));
            i = nx;
        } else {
            out.push(input[i]);
            assert(out@ + redact_ipv6_from(input@, i + 1) =~= before + redact_ipv6_from(input@, i as int));
            i += 1;
        }
    }
    assert(out@ + redact_ipv6_from(input@, n as int) =~= out@);
    out
}

} // verus!

verus! {

// ---------------------------------------------------------------------------
// Free text and field names
// ---------------------------------------------------------------------------

/// Free text after all four scrubbing passes, in order: user paths, MAC
/// addresses, IPv4 literals, IPv6 literals.
pub open spec fn sanitize_text(s: Seq<char>) -> Seq<char> {
    redact_ipv6_from(redact_ipv4_from(redact_macs_from(redact_users_from(s, 0), 0), 0), 0)
}

/// Scrubs user names in paths, MAC addresses and IP literals from free text.
pub fn sanitize_string(input: &str) -> (out: String)
    ensures
        out@ == sanitize_text(input@),
{
    let chars = str_chars(input);
    let a = redact_windows_user_paths(chars.as_slice());
    let b = redact_mac_addresses(a.as_slice());
    let c = redact_ipv4_addresses(b.as_slice());
    let d = redact_ipv6_addresses(c.as_slice());
    chars_to_string(d.as_slice())
}

/// A field name reduced to its ASCII letters and digits, lower-cased, so that
/// case, `snake_case` and `kebab-case` spellings compare equal.
pub open spec fn normalized_key_spec(s: Seq<char>) -> Seq<char>
    decreases s.len(),
{
    if s.len() == 0 {
        Seq::empty()
    } else if alnum_char(s.last()) {
        normalized_key_spec(s.drop_last()).push(ascii_lower(s.last()))
    } else {
        normalized_key_spec(s.drop_last())
    }
}

/// Normalises a field name: keeps ASCII letters and digits, lower-cased.
pub fn normalized_key(key: &str) -> (out: String)
    ensures
        out@ == normalized_key_spec(key@),
{
    let chars = str_chars(key);
    let n = chars.len();
    let mut out = String::new();
    let mut i: usize = 0;
    while i < n
        invariant
            i <= n == chars@.len(),
            chars@ == key@,
            out@ == normalized_key_spec(chars@.take(i as int)),
        decreases n - i,
    {
        let c = chars[i];
        assert(chars@.take(i + 1).drop_last() =~= chars@.take(i as int));
        if is_alnum(c) {
            string_push(&mut out, to_ascii_lower(c));
        }
        i += 1;
    }
    assert(chars@.take(n as int) =~= chars@);
    out
}

} // verus!

verus! {

/// `p` is a suffix of `s`.
pub open spec fn ends_with_seq(s: Seq<char>, p: Seq<char>) -> bool {
    p.len() <= s.len() && starts_with(s.skip(s.len() - p.len()), p)
}

/// The normalised name ends with an identity word: user, host, address,
/// network name, unique id or serial number.
pub open spec fn identity_key(k: Seq<char>) -> bool {
    ||| ends_with_seq(k, "username"@)
    ||| ends_with_seq(k, "currentuser"@)
    ||| ends_with_seq(k, "hostname"@)
    ||| ends_with_seq(k, "computername"@)
    ||| ends_with_seq(k, "macaddress"@)
    ||| ends_with_seq(k, "ipv4address"@)
    ||| ends_with_seq(k, "ipv4addresses"@)
    ||| ends_with_seq(k, "ipv6address"@)
    ||| ends_with_seq(k, "ipv6addresses"@)
    ||| ends_with_seq(k, "gateway"@)
    ||| ends_with_seq(k, "dnsserver"@)
    ||| ends_with_seq(k, "dnsservers"@)
    ||| ends_with_seq(k, "localaddress"@)
    ||| ends_with_seq(k, "remoteaddress"@)
    ||| ends_with_seq(k, "ssid"@)
    ||| ends_with_seq(k, "bssid"@)
    ||| ends_with_seq(k, "uuid"@)
    ||| ends_with_seq(k, "sid"@)
    ||| ends_with_seq(k, "user"@)
    ||| ends_with_seq(k, "serial"@)
    ||| ends_with_seq(k, "serialnumber"@)
    ||| ends_with_seq(k, "hardwareid"@)
    ||| ends_with_seq(k, "instanceid"@)
}

/// The normalised name ends with a path- or command-like word.
pub open spec fn location_key(k: Seq<char>) -> bool {
    ||| ends_with_seq(k, "path"@)
    ||| ends_with_seq(k, "installlocation"@)
    ||| ends_with_seq(k, "command"@)
    ||| ends_with_seq(k, "executable"@)
    ||| ends_with_seq(k, "adaptername"@)
    ||| ends_with_seq(k, "filename"@)
}

/// The normalised name contains a secret-bearing word anywhere.
pub open spec fn secret_key(k: Seq<char>) -> bool {
    ||| contains_seq(k, "password"@)
    ||| contains_seq(k, "cookie"@)
    ||| contains_seq(k, "token"@)
    ||| contains_seq(k, "apikey"@)
    ||| contains_seq(k, "recoverykey"@)
    ||| contains_seq(k, "privatekey"@)
    ||| contains_seq(k, "credential"@)
    ||| contains_seq(k, "secret"@)
}

/// Whether a field of this name holds identity, address, path or secret data.
pub open spec fn sensitive_key(key: Seq<char>) -> bool {
    let k = normalized_key_spec(key);
    identity_key(k) || location_key(k) || secret_key(k)
}

fn key_ends_with(k: &[char], word: &str) -> (b: bool)
    ensures
        b == ends_with_seq(k@, word@),
{
    let p = str_chars(word);
    if p.len() > k.len() {
        return false;
    }
    starts_with_at(k, k.len() - p.len(), p.as_slice())
}

/// Whether a field of this name is sensitive (identity, address, path or
/// secret), whatever its case or separators.
pub fn is_sensitive_key(key: &str) -> (b: bool)
    ensures
        b == sensitive_key(key@),
{
    let norm = normalized_key(key);
    let k = str_chars(norm.as_str());
    let k = k.as_slice();
    let identity = key_ends_with(k, "username") || key_ends_with(k, "currentuser") || key_ends_with(k, "hostname") || key_ends_with(k, "computername") || key_ends_with(k, "macaddress") || key_ends_with(k, "ipv4address") || key_ends_with(k, "ipv4addresses") || key_ends_with(k, "ipv6address") || key_ends_with(k, "ipv6addresses") || key_ends_with(k, "gateway") || key_ends_with(k, "dnsserver") || key_ends_with(k, "dnsservers") || key_ends_with(k, "localaddress") || key_ends_with(k, "remoteaddress") || key_ends_with(k, "ssid") || key_ends_with(k, "bssid") || key_ends_with(k, "uuid") || key_ends_with(k, "sid") || key_ends_with(k, "user") || key_ends_with(k, "serial") || key_ends_with(k, "serialnumber") || key_ends_with(k, "hardwareid") || key_ends_with(k, "instanceid");
    let location = key_ends_with(k, "path") || key_ends_with(k, "installlocation") || key_ends_with(k, "command") || key_ends_with(k, "executable") || key_ends_with(k, "adaptername") || key_ends_with(k, "filename");
    let secret = contains_chars(k, str_chars("password").as_slice()) || contains_chars(k, str_chars("cookie").as_slice()) || contains_chars(k, str_chars("token").as_slice()) || contains_chars(k, str_chars("apikey").as_slice()) || contains_chars(k, str_chars("recoverykey").as_slice()) || contains_chars(k, str_chars("privatekey").as_slice()) || contains_chars(k, str_chars("credential").as_slice()) || contains_chars(k, str_chars("secret").as_slice());
    identity || location || secret
}

} // verus!
