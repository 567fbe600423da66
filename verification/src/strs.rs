//! Character-sequence helpers with their specifications: classes of
//! characters, trimming, searching and ASCII case mapping.

use vstd::prelude::*;

verus! {

/// Unicode `White_Space` characters, as `char::is_whitespace` classifies them.
pub open spec fn is_ws(c: char) -> bool {
    ||| (c as u32) >= 0x9 && (c as u32) <= 0xd
    ||| c as u32 == 0x20
    ||| c as u32 == 0x85
    ||| c as u32 == 0xa0
    ||| c as u32 == 0x1680
    ||| (c as u32) >= 0x2000 && (c as u32) <= 0x200a
    ||| c as u32 == 0x2028
    ||| c as u32 == 0x2029
    ||| c as u32 == 0x202f
    ||| c as u32 == 0x205f
    ||| c as u32 == 0x3000
}

/// Whether `c` is a Unicode white-space character.
pub fn char_is_ws(c: char) -> (b: bool)
    ensures
        b == is_ws(c),
{
    let v = c as u32;
    (v >= 0x9 && v <= 0xd) || v == 0x20 || v == 0x85 || v == 0xa0 || v == 0x1680 || (v >= 0x2000
        && v <= 0x200a) || v == 0x2028 || v == 0x2029 || v == 0x202f || v == 0x205f || v == 0x3000
}

/// A set of characters that trimming or searching works with.
#[derive(Clone, Copy, Debug, PartialEq, Eq, Structural)]
pub enum CharClass {
    /// Unicode white space.
    Whitespace,
    /// Exactly this character.
    Is(char),
    /// `/`, `?` or `#`: where the path of a URL begins.
    PathStart,
}

/// Membership of `c` in the class `k`.
pub open spec fn in_class(k: CharClass, c: char) -> bool {
    match k {
        CharClass::Whitespace => is_ws(c),
        CharClass::Is(d) => c == d,
        CharClass::PathStart => c == '/' || c == '?' || c == '#',
    }
}

/// Whether `c` belongs to the class `k`.
pub fn class_has(k: CharClass, c: char) -> (b: bool)
    ensures
        b == in_class(k, c),
{
    match k {
        CharClass::Whitespace => char_is_ws(c),
        CharClass::Is(d) => c == d,
        CharClass::PathStart => c == '/' || c == '?' || c == '#',
    }
}

/// `s` without its leading characters of class `k`.
pub open spec fn trim_start(s: Seq<char>, k: CharClass) -> Seq<char>
    decreases s.len(),
{
    if s.len() > 0 && in_class(k, s[0]) {
        trim_start(s.drop_first(), k)
    } else {
        s
    }
}

/// `s` without its trailing characters of class `k`.
pub open spec fn trim_end(s: Seq<char>, k: CharClass) -> Seq<char>
    decreases s.len(),
{
    if s.len() > 0 && in_class(k, s.last()) {
        trim_end(s.drop_last(), k)
    } else {
        s
    }
}

/// `s` without leading and trailing characters of class `k`.
pub open spec fn trim(s: Seq<char>, k: CharClass) -> Seq<char> {
    trim_end(trim_start(s, k), k)
}

/// Trimming the start keeps a suffix.
pub proof fn lemma_trim_start_suffix(s: Seq<char>, k: CharClass)
    ensures
        exists|a: int| 0 <= a <= s.len() && trim_start(s, k) == s.subrange(a, s.len() as int),
    decreases s.len(),
{
    if s.len() > 0 && in_class(k, s[0]) {
        lemma_trim_start_suffix(s.drop_first(), k);
        let a = choose|a: int| 0 <= a <= s.drop_first().len()
            && trim_start(s.drop_first(), k) == s.drop_first().subrange(a, s.drop_first().len() as int);
        assert(s.drop_first().subrange(a, s.drop_first().len() as int) =~= s.subrange(a + 1, s.len() as int));
    } else {
        assert(s.subrange(0, s.len() as int) =~= s);
    }
}

/// Trimming the end keeps a prefix.
pub proof fn lemma_trim_end_prefix(s: Seq<char>, k: CharClass)
    ensures
        exists|b: int| 0 <= b <= s.len() && trim_end(s, k) == s.take(b),
    decreases s.len(),
{
    if s.len() > 0 && in_class(k, s.last()) {
        lemma_trim_end_prefix(s.drop_last(), k);
        let b = choose|b: int| 0 <= b <= s.drop_last().len() && trim_end(s.drop_last(), k) == s.drop_last().take(b);
        assert(s.drop_last().take(b) =~= s.take(b));
    } else {
        assert(s.take(s.len() as int) =~= s);
    }
}

/// What trimming the start leaves begins with no character of the class.
proof fn lemma_trim_start_first(s: Seq<char>, k: CharClass)
    ensures
        trim_start(s, k).len() > 0 ==> !in_class(k, trim_start(s, k)[0]),
    decreases s.len(),
{
    if s.len() > 0 && in_class(k, s[0]) {
        lemma_trim_start_first(s.drop_first(), k);
    }
}

/// What trimming the end leaves ends with no character of the class.
proof fn lemma_trim_end_last(s: Seq<char>, k: CharClass)
    ensures
        trim_end(s, k).len() > 0 ==> !in_class(k, trim_end(s, k).last()),
    decreases s.len(),
{
    if s.len() > 0 && in_class(k, s.last()) {
        lemma_trim_end_last(s.drop_last(), k);
    }
}

/// A trimmed sequence neither starts nor ends with a character of the class.
pub proof fn lemma_trim_ends(s: Seq<char>, k: CharClass)
    ensures
        trim(s, k).len() > 0 ==> !in_class(k, trim(s, k)[0]) && !in_class(k, trim(s, k).last()),
{
    let ts = trim_start(s, k);
    lemma_trim_start_first(s, k);
    lemma_trim_end_last(ts, k);
    lemma_trim_end_prefix(ts, k);
    let b = choose|b: int| 0 <= b <= ts.len() && trim_end(ts, k) == ts.take(b);
    if trim(s, k).len() > 0 {
        assert(trim(s, k)[0] == ts[0]);
    }
}

/// Every character of a trimmed sequence is a character of the sequence.
pub proof fn lemma_trim_chars_from(s: Seq<char>, k: CharClass)
    ensures
        forall|i: int| 0 <= i < trim(s, k).len() ==> exists|j: int| 0 <= j < s.len() && #[trigger] trim(s, k)[i] == s[j],
{
    lemma_trim_start_suffix(s, k);
    let a = choose|a: int| 0 <= a <= s.len() && trim_start(s, k) == s.subrange(a, s.len() as int);
    let ts = trim_start(s, k);
    lemma_trim_end_prefix(ts, k);
    let b = choose|b: int| 0 <= b <= ts.len() && trim_end(ts, k) == ts.take(b);
    assert forall|i: int| 0 <= i < trim(s, k).len() implies exists|j: int| 0 <= j < s.len() && #[trigger] trim(s, k)[i] == s[j] by {
        assert(trim(s, k)[i] == s[a + i]);
    }
}

/// Index of the first character of class `k` (`s.len()` when there is none).
pub open spec fn first_in(s: Seq<char>, k: CharClass) -> int
    decreases s.len(),
{
    if s.len() == 0 {
        0
    } else if in_class(k, s[0]) {
        0
    } else {
        1 + first_in(s.drop_first(), k)
    }
}

/// Index of the last character of class `k`.
pub open spec fn last_in(s: Seq<char>, k: CharClass) -> Option<int>
    decreases s.len(),
{
    if s.len() == 0 {
        None
    } else if in_class(k, s.last()) {
        Some(s.len() - 1)
    } else {
        last_in(s.drop_last(), k)
    }
}

/// `first_in` is the index of the first character of the class, or the
/// length when there is none.
pub proof fn lemma_first_in(s: Seq<char>, k: CharClass)
    ensures
        0 <= first_in(s, k) <= s.len(),
        forall|i: int| 0 <= i < first_in(s, k) ==> !in_class(k, #[trigger] s[i]),
        first_in(s, k) < s.len() ==> in_class(k, s[first_in(s, k)]),
    decreases s.len(),
{
    if s.len() > 0 && !in_class(k, s[0]) {
        lemma_first_in(s.drop_first(), k);
        assert forall|i: int| 0 <= i < first_in(s, k) implies !in_class(k, #[trigger] s[i]) by {
            if i > 0 {
                assert(s[i] == s.drop_first()[i - 1]);
            }
        }
    }
}

/// `last_in` finds nothing exactly when no character is of the class.
pub proof fn lemma_last_in_none(s: Seq<char>, k: CharClass)
    ensures
        last_in(s, k) is None <==> forall|i: int| 0 <= i < s.len() ==> !in_class(k, #[trigger] s[i]),
    decreases s.len(),
{
    if s.len() > 0 {
        lemma_last_in_none(s.drop_last(), k);
        if !in_class(k, s.last()) {
            assert forall|i: int| 0 <= i < s.len() - 1 implies #[trigger] s.drop_last()[i] == s[i] by {}
            if last_in(s, k) is None {
                assert forall|i: int| 0 <= i < s.len() implies !in_class(k, #[trigger] s[i]) by {
                    if i < s.len() - 1 {
                        assert(s.drop_last()[i] == s[i]);
                    }
                }
            } else {
                let w = choose|i: int| 0 <= i < s.drop_last().len() && in_class(k, #[trigger] s.drop_last()[i]);
                assert(s[w] == s.drop_last()[w]);
            }
        }
    }
}

/// `s` up to (excluding) its first character of class `k`.
pub open spec fn before_first(s: Seq<char>, k: CharClass) -> Seq<char> {
    s.take(first_in(s, k))
}

/// `p` is a prefix of `s`.
pub open spec fn starts_with(s: Seq<char>, p: Seq<char>) -> bool {
    p.len() <= s.len() && s.take(p.len() as int) == p
}

/// Index of the first occurrence of the non-empty pattern `p` in `s`.
pub open spec fn find_sub(s: Seq<char>, p: Seq<char>) -> Option<int>
    decreases s.len(),
{
    if p.len() > s.len() {
        None
    } else if starts_with(s, p) {
        Some(0)
    } else if s.len() == 0 {
        None
    } else {
        match find_sub(s.drop_first(), p) {
            Some(i) => Some(i + 1),
            None => None,
        }
    }
}

/// A found occurrence lies inside `s` and really starts there.
pub proof fn lemma_find_sub_found(s: Seq<char>, p: Seq<char>)
    ensures
        find_sub(s, p) matches Some(i) ==> 0 <= i && i + p.len() <= s.len() && starts_with(
            s.skip(i),
            p,
        ),
    decreases s.len(),
{
    if p.len() <= s.len() && !starts_with(s, p) && s.len() > 0 {
        lemma_find_sub_found(s.drop_first(), p);
        if let Some(i) = find_sub(s.drop_first(), p) {
            assert(s.skip(i + 1) =~= s.drop_first().skip(i));
        }
    } else if p.len() <= s.len() && starts_with(s, p) {
        assert(s.skip(0) =~= s);
    }
}

/// Index of the last occurrence of the pattern `p` in `s`.
pub open spec fn rfind_sub(s: Seq<char>, p: Seq<char>) -> Option<int>
    decreases s.len(),
{
    if p.len() > s.len() {
        None
    } else if starts_with(s.skip(s.len() - p.len()), p) {
        Some(s.len() - p.len())
    } else if s.len() == 0 {
        None
    } else {
        rfind_sub(s.drop_last(), p)
    }
}

/// ASCII lower-case mapping of one character.
pub open spec fn ascii_lower(c: char) -> char {
    if 'A' <= c && c <= 'Z' {
        ((c as u32) + 32) as char
    } else {
        c
    }
}

/// ASCII upper-case mapping of one character.
pub open spec fn ascii_upper(c: char) -> char {
    if 'a' <= c && c <= 'z' {
        ((c as u32) - 32) as char
    } else {
        c
    }
}

/// ASCII lower-case mapping of a sequence.
pub open spec fn lower_seq(s: Seq<char>) -> Seq<char> {
    s.map_values(|c: char| ascii_lower(c))
}

/// ASCII upper-case mapping of a sequence.
pub open spec fn upper_seq(s: Seq<char>) -> Seq<char> {
    s.map_values(|c: char| ascii_upper(c))
}

/// Lower-cases an ASCII letter.
pub fn to_ascii_lower(c: char) -> (r: char)
    ensures
        r == ascii_lower(c),
{
    if 'A' <= c && c <= 'Z' {
        ((c as u32) + 32) as u8 as char
    } else {
        c
    }
}

/// Upper-cases an ASCII letter.
pub fn to_ascii_upper(c: char) -> (r: char)
    ensures
        r == ascii_upper(c),
{
    if 'a' <= c && c <= 'z' {
        ((c as u32) - 32) as u8 as char
    } else {
        c
    }
}

/// ASCII lower-case copy of a character slice.
pub fn lower_chars(s: &[char]) -> (out: Vec<char>)
    ensures
        out@ == lower_seq(s@),
{
    let mut out: Vec<char> = Vec::new();
    let n = s.len();
    for i in 0..n
        invariant
            n == s@.len(),
            out@ == lower_seq(s@.take(i as int)),
    {
        out.push(to_ascii_lower(s[i]));
        assert(lower_seq(s@.take(i + 1)) =~= lower_seq(s@.take(i as int)).push(ascii_lower(s@[i as int])));
    }
    assert(s@.take(n as int) =~= s@);
    out
}

/// ASCII upper-case copy of a character slice.
pub fn upper_chars(s: &[char]) -> (out: Vec<char>)
    ensures
        out@ == upper_seq(s@),
{
    let mut out: Vec<char> = Vec::new();
    let n = s.len();
    for i in 0..n
        invariant
            n == s@.len(),
            out@ == upper_seq(s@.take(i as int)),
    {
        out.push(to_ascii_upper(s[i]));
        assert(upper_seq(s@.take(i + 1)) =~= upper_seq(s@.take(i as int)).push(ascii_upper(s@[i as int])));
    }
    assert(s@.take(n as int) =~= s@);
    out
}

/// Copy of `s[a..b]`.
pub fn sub_chars(s: &[char], a: usize, b: usize) -> (out: Vec<char>)
    requires
        a <= b <= s@.len(),
    ensures
        out@ == s@.subrange(a as int, b as int),
{
    let mut out: Vec<char> = Vec::new();
    let mut i = a;
    while i < b
        invariant
            a <= i <= b <= s@.len(),
            out@ == s@.subrange(a as int, i as int),
        decreases b - i,
    {
        out.push(s[i]);
        assert(s@.subrange(a as int, i + 1) =~= s@.subrange(a as int, i as int).push(s@[i as int]));
        i += 1;
    }
    out
}

/// Bounds `(start, end)` of `s` with leading and trailing class-`k` characters removed.
pub fn trim_bounds(s: &[char], k: CharClass) -> (r: (usize, usize))
    ensures
        r.0 <= r.1 <= s@.len(),
        s@.subrange(r.0 as int, r.1 as int) == trim(s@, k),
{
    let n = s.len();
    let mut i: usize = 0;
    assert(s@.skip(0) =~= s@);
    while i < n && class_has(k, s[i])
        invariant
            i <= n == s@.len(),
            trim_start(s@, k) == trim_start(s@.skip(i as int), k),
        decreases n - i,
    {
        assert(s@.skip(i as int).drop_first() =~= s@.skip(i + 1));
        i += 1;
    }
    let ghost t = s@.skip(i as int);
    assert(trim_start(t, k) == t);
    let mut e: usize = n;
    assert(t =~= s@.subrange(i as int, n as int));
    while e > i && class_has(k, s[e - 1])
        invariant
            i <= e <= n == s@.len(),
            t == s@.skip(i as int),
            trim_end(t, k) == trim_end(s@.subrange(i as int, e as int), k),
        decreases e,
    {
        assert(s@.subrange(i as int, e as int).drop_last() =~= s@.subrange(i as int, e - 1));
        e -= 1;
    }
    assert(s@.skip(i as int) =~= s@.subrange(i as int, n as int));
    (i, e)
}

/// `s` with leading and trailing class-`k` characters removed.
pub fn trim_chars(s: &[char], k: CharClass) -> (out: Vec<char>)
    ensures
        out@ == trim(s@, k),
{
    let (a, b) = trim_bounds(s, k);
    sub_chars(s, a, b)
}

/// Index of the first class-`k` character, if any.
pub fn find_class(s: &[char], k: CharClass) -> (r: Option<usize>)
    ensures
        match r {
            Some(i) => i < s@.len() && i == first_in(s@, k),
            None => first_in(s@, k) == s@.len(),
        },
{
    let n = s.len();
    let mut i: usize = 0;
    assert(s@.skip(0) =~= s@);
    while i < n
        invariant
            i <= n == s@.len(),
            first_in(s@, k) == i + first_in(s@.skip(i as int), k),
        decreases n - i,
    {
        if class_has(k, s[i]) {
            return Some(i);
        }
        assert(s@.skip(i as int).drop_first() =~= s@.skip(i + 1));
        i += 1;
    }
    None
}

/// Index of the last class-`k` character, if any.
pub fn rfind_class(s: &[char], k: CharClass) -> (r: Option<usize>)
    ensures
        match r {
            Some(i) => i < s@.len() && last_in(s@, k) == Some(i as int),
            None => last_in(s@, k) is None,
        },
{
    let mut e: usize = s.len();
    assert(s@.take(e as int) =~= s@);
    while e > 0
        invariant
            e <= s@.len(),
            last_in(s@, k) == last_in(s@.take(e as int), k),
        decreases e,
    {
        if class_has(k, s[e - 1]) {
            return Some(e - 1);
        }
        assert(s@.take(e as int).drop_last() =~= s@.take(e - 1));
        e -= 1;
    }
    None
}

/// Whether `p` is a prefix of `s[at..]`.
pub fn starts_with_at(s: &[char], at: usize, p: &[char]) -> (b: bool)
    requires
        at <= s@.len(),
    ensures
        b == starts_with(s@.skip(at as int), p@),
{
    let n = s.len();
    let m = p.len();
    if m > n - at {
        return false;
    }
    let mut j: usize = 0;
    while j < m
        invariant
            m == p@.len(),
            at + m <= n == s@.len(),
            j <= m,
            forall|q: int| 0 <= q < j ==> s@[at + q] == p@[q],
        decreases m - j,
    {
        if s[at + j] != p[j] {
            assert(s@.skip(at as int).take(m as int)[j as int] != p@[j as int]);
            return false;
        }
        j += 1;
    }
    assert(s@.skip(at as int).take(m as int) =~= p@);
    true
}

/// Index of the first occurrence of the non-empty pattern `p` in `s`.
pub fn find_sub_chars(s: &[char], p: &[char]) -> (r: Option<usize>)
    requires
        p@.len() > 0,
    ensures
        match r {
            Some(i) => find_sub(s@, p@) == Some(i as int) && i + p@.len() <= s@.len(),
            None => find_sub(s@, p@) is None,
        },
{
    let n = s.len();
    let mut i: usize = 0;
    assert(s@.skip(0) =~= s@);
    while i < n
        invariant
            i <= n == s@.len(),
            p@.len() > 0,
            find_sub(s@, p@) == (match find_sub(s@.skip(i as int), p@) {
                Some(j) => Some(j + i),
                None => None,
            }),
        decreases n - i,
    {
        if starts_with_at(s, i, p) {
            return Some(i);
        }
        assert(s@.skip(i as int).drop_first() =~= s@.skip(i + 1));
        i += 1;
    }
    assert(s@.skip(n as int).len() == 0);
    None
}

/// Index of the last occurrence of the pattern `p` in `s`.
pub fn rfind_sub_chars(s: &[char], p: &[char]) -> (r: Option<usize>)
    ensures
        match r {
            Some(i) => rfind_sub(s@, p@) == Some(i as int) && i + p@.len() <= s@.len(),
            None => rfind_sub(s@, p@) is None,
        },
{
    let m = p.len();
    let mut e: usize = s.len();
    assert(s@.take(e as int) =~= s@);
    loop
        invariant
            e <= s@.len(),
            m == p@.len(),
            rfind_sub(s@, p@) == rfind_sub(s@.take(e as int), p@),
        decreases e,
    {
        if m > e {
            return None;
        }
        let at = e - m;
        let hit = starts_with_at(s, at, p);
        assert(s@.take(e as int).skip(e - m) =~= s@.skip(at as int).take(m as int));
        assert(s@.take(e as int).skip(e - m).take(m as int) =~= s@.take(e as int).skip(e - m));
        if hit {
            assert(s@.skip(at as int).take(m as int) == p@);
            return Some(at);
        }
        if e == 0 {
            return None;
        }
        assert(s@.take(e as int).drop_last() =~= s@.take(e - 1));
        e -= 1;
    }
}

} // verus!

verus! {

/// `p` occurs in `s` (the empty pattern occurs everywhere).
pub open spec fn contains_seq(s: Seq<char>, p: Seq<char>) -> bool {
    find_sub(s, p) is Some
}

/// Whether `p` occurs in `s`.
pub fn contains_chars(s: &[char], p: &[char]) -> (b: bool)
    ensures
        b == contains_seq(s@, p@),
{
    if p.len() == 0 {
        assert(s@.take(0) =~= p@);
        return true;
    }
    find_sub_chars(s, p).is_some()
}

/// Whether `p` occurs in `s`.
pub fn str_contains(s: &str, p: &str) -> (b: bool)
    ensures
        b == contains_seq(s@, p@),
{
    let sc = crate::text::str_chars(s);
    let pc = crate::text::str_chars(p);
    contains_chars(sc.as_slice(), pc.as_slice())
}

/// Whether `p` occurs in `s` once `s` is lower-cased (ASCII letters only).
pub fn str_contains_lower(s: &str, p: &str) -> (b: bool)
    ensures
        b == contains_seq(lower_seq(s@), p@),
{
    let sc = crate::text::str_chars(s);
    let low = lower_chars(sc.as_slice());
    let pc = crate::text::str_chars(p);
    contains_chars(low.as_slice(), pc.as_slice())
}

} // verus!
