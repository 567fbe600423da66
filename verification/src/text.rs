//! Small character-level helpers shared by the string-processing modules.

use vstd::prelude::*;

verus! {

/// Appends one character to a string (`String::push`).
#[verifier::external_body]
pub fn string_push(s: &mut String, c: char)
    ensures
        final(s)@ == old(s)@.push(c),
{
    s.push(c);
}

/// The characters of a string slice, in order.
pub fn str_chars(s: &str) -> (out: Vec<char>)
    ensures
        out@ == s@,
{
    let mut out: Vec<char> = Vec::new();
    for c in it: s.chars()
        invariant
            out@ == it.seq().take(it.index() as int),
    {
        out.push(c);
    }
    out
}

/// Builds a string from a sequence of characters.
pub fn chars_to_string(cs: &[char]) -> (out: String)
    ensures
        out@ == cs@,
{
    let mut out = String::new();
    let n = cs.len();
    for i in 0..n
        invariant
            n == cs@.len(),
            out@ == cs@.take(i as int),
    {
        string_push(&mut out, cs[i]);
        assert(cs@.take(i as int).push(cs@[i as int]) =~= cs@.take(i + 1));
    }
    assert(cs@.take(n as int) =~= cs@);
    out
}

} // verus!

verus! {

/// Lower-case hexadecimal digit for `d < 16`.
pub open spec fn hex_digit_lower(d: u64) -> char {
    if d < 10 {
        ((48 + d) as u8) as char
    } else {
        ((87 + d) as u8) as char
    }
}

/// The `n` lowest hexadecimal digits of `v`, most significant first.
pub open spec fn hex_lower(v: u64, n: nat) -> Seq<char>
    decreases n,
{
    if n == 0 {
        Seq::empty()
    } else {
        hex_lower(v / 16, (n - 1) as nat).push(hex_digit_lower(v % 16))
    }
}

/// `hex_lower(v, n)` has `n` digits.
pub proof fn lemma_hex_lower_len(v: u64, n: nat)
    ensures
        hex_lower(v, n).len() == n,
    decreases n,
{
    if n > 0 {
        lemma_hex_lower_len(v / 16, (n - 1) as nat);
    }
}

/// A lower-case hexadecimal digit character.
pub open spec fn lower_hex_char(c: char) -> bool {
    ('0' <= c && c <= '9') || ('a' <= c && c <= 'f')
}

/// Every character of `hex_lower(v, n)` is a lower-case hex digit.
pub proof fn lemma_hex_lower_chars(v: u64, n: nat)
    ensures
        forall|i: int| 0 <= i < hex_lower(v, n).len() ==> lower_hex_char(#[trigger] hex_lower(v, n)[i]),
    decreases n,
{
    if n > 0 {
        lemma_hex_lower_chars(v / 16, (n - 1) as nat);
        let d = v % 16;
        let c = hex_digit_lower(d);
        if d < 10 {
            assert(((48 + d) as u8) as char == c);
            assert('0' <= c && c <= '9');
        } else {
            assert(((87 + d) as u8) as char == c);
            assert('a' <= c && c <= 'f');
        }
        let prev = hex_lower(v / 16, (n - 1) as nat);
        let h = hex_lower(v, n);
        assert(h == prev.push(c));
        assert forall|i: int| 0 <= i < h.len() implies lower_hex_char(#[trigger] h[i]) by {
            if i < prev.len() {
                assert(h[i] == prev[i]);
            } else {
                assert(h[i] == c);
            }
        }
    }
}

/// Digit character for a value below 16.
pub fn hex_digit_char(d: u64) -> (c: char)
    requires
        d < 16,
    ensures
        c == hex_digit_lower(d),
{
    if d < 10 {
        ((48 + d) as u8) as char
    } else {
        ((87 + d) as u8) as char
    }
}

/// Appends the `width` lowest hexadecimal digits of `v` (zero padded).
pub fn push_hex_lower(out: &mut String, v: u64, width: usize)
    ensures
        final(out)@ == old(out)@ + hex_lower(v, width as nat),
    decreases width,
{
    if width > 0 {
        push_hex_lower(out, v / 16, width - 1);
        string_push(out, hex_digit_char(v % 16));
        assert(final(out)@ =~= old(out)@ + hex_lower(v, width as nat)) by {
            assert(hex_lower(v, width as nat) == hex_lower(v / 16, (width - 1) as nat).push(hex_digit_lower(v % 16)));
        }
    } else {
        assert(old(out)@ + hex_lower(v, 0) =~= old(out)@);
    }
}

} // verus!

verus! {

/// `String::from_utf8_lossy` of a byte sequence: ill-formed sequences become
/// U+FFFD. Which replacement characters appear is `std`'s algorithm and is
/// only named here.
pub uninterp spec fn utf8_lossy(bytes: Seq<u8>) -> Seq<char>;

/// Decodes bytes as UTF-8, replacing ill-formed sequences
/// (`String::from_utf8_lossy`). Claims: the result is the named lossy decoding
/// of the bytes, and well-formed UTF-8 decodes exactly.
#[verifier::external_body]
pub fn string_from_utf8_lossy(bytes: &[u8]) -> (s: String)
    ensures
        s@ == utf8_lossy(bytes@),
        vstd::utf8::valid_utf8(bytes@) ==> s@ == vstd::utf8::decode_utf8(bytes@),
{
    String::from_utf8_lossy(bytes).into_owned()
}

} // verus!

verus! {

/// Decimal digit character for `d < 10`.
pub open spec fn dec_digit(d: nat) -> char {
    ((48 + d) as u8) as char
}

/// Decimal text of `v` without leading zeros ("0" for zero).
pub open spec fn decimal(v: nat) -> Seq<char>
    decreases v,
{
    if v < 10 {
        seq![dec_digit(v)]
    } else {
        decimal(v / 10).push(dec_digit(v % 10))
    }
}

/// Decimal text of `v` left-padded with zeros to at least `w` digits.
pub open spec fn decimal_padded(v: nat, w: nat) -> Seq<char> {
    if decimal(v).len() >= w {
        decimal(v)
    } else {
        Seq::new((w - decimal(v).len()) as nat, |i: int| '0') + decimal(v)
    }
}

/// Appends the decimal text of `v`.
pub fn push_decimal(out: &mut String, v: u64)
    ensures
        final(out)@ == old(out)@ + decimal(v as nat),
    decreases v,
{
    if v >= 10 {
        push_decimal(out, v / 10);
    }
    string_push(out, ((48 + v % 10) as u8) as char);
    assert(final(out)@ =~= old(out)@ + decimal(v as nat));
}

/// Number of decimal digits of `v`.
pub fn decimal_len(v: u64) -> (n: usize)
    ensures
        n == decimal(v as nat).len(),
    decreases v,
{
    if v < 10 {
        1
    } else {
        let k = decimal_len(v / 10);
        proof { lemma_decimal_len_bound(v as nat); }
        k + 1
    }
}

proof fn lemma_decimal_len_bound(v: nat)
    requires
        v <= u64::MAX,
    ensures
        1 <= decimal(v).len() <= 20,
{
    assert(pow10(20) == 100000000000000000000) by { reveal_with_fuel(pow10, 21); }
    lemma_decimal_len_digits(v, 20);
    lemma_decimal_nonempty(v);
}

proof fn lemma_decimal_nonempty(v: nat)
    ensures
        decimal(v).len() >= 1,
    decreases v,
{
    if v >= 10 {
        lemma_decimal_nonempty(v / 10);
    }
}

proof fn lemma_decimal_len_digits(v: nat, k: nat)
    ensures
        v < pow10(k) ==> decimal(v).len() <= k || k == 0,
    decreases v,
{
    if v >= 10 && k > 0 && v < pow10(k) {
        assert(v / 10 < pow10((k - 1) as nat)) by (nonlinear_arith)
            requires v < pow10(k), pow10(k) == 10 * pow10((k - 1) as nat);
        lemma_decimal_len_digits(v / 10, (k - 1) as nat);
        if k == 1 {
            assert(false);
        }
    }
}

/// Ten to the power `k`.
pub open spec fn pow10(k: nat) -> nat
    decreases k,
{
    if k == 0 { 1 } else { 10 * pow10((k - 1) as nat) }
}

/// Appends the decimal text of `v`, zero-padded to at least `width` digits.
pub fn push_decimal_padded(out: &mut String, v: u64, width: usize)
    ensures
        final(out)@ == old(out)@ + decimal_padded(v as nat, width as nat),
{
    let digits = decimal_len(v);
    let ghost start = out@;
    if digits < width {
        let pad = width - digits;
        let mut i: usize = 0;
        while i < pad
            invariant
                i <= pad,
                out@ == start + Seq::new(i as nat, |j: int| '0'),
            decreases pad - i,
        {
            string_push(out, '0');
            assert(out@ =~= start + Seq::new((i + 1) as nat, |j: int| '0'));
            i += 1;
        }
    }
    let ghost mid = out@;
    push_decimal(out, v);
    assert(out@ =~= start + decimal_padded(v as nat, width as nat));
}

} // verus!

verus! {

/// A UTF-16 surrogate code unit.
pub open spec fn is_surrogate(u: u16) -> bool {
    0xD800 <= u && u <= 0xDFFF
}

/// A high surrogate followed by a low one starts `units`.
pub open spec fn starts_with_pair(units: Seq<u16>) -> bool {
    units.len() >= 2 && 0xD800 <= units[0] && units[0] <= 0xDBFF && 0xDC00 <= units[1] && units[1] <= 0xDFFF
}

/// The character a surrogate pair at the start of `units` stands for.
pub open spec fn pair_char(units: Seq<u16>) -> char {
    (0x10000 + (units[0] - 0xD800) * 0x400 + (units[1] - 0xDC00)) as char
}

/// UTF-16 decoding with replacement (`String::from_utf16_lossy`): a unit
/// outside the surrogate range is its own character, a high surrogate
/// followed by a low one is one character, and any other surrogate is
/// U+FFFD.
pub open spec fn utf16_lossy(units: Seq<u16>) -> Seq<char>
    decreases units.len(),
{
    if units.len() == 0 {
        Seq::empty()
    } else if !is_surrogate(units[0]) {
        seq![units[0] as char] + utf16_lossy(units.drop_first())
    } else if starts_with_pair(units) {
        seq![pair_char(units)] + utf16_lossy(units.skip(2))
    } else {
        seq!['\u{FFFD}'] + utf16_lossy(units.drop_first())
    }
}

/// Code units outside the surrogate range, each one character.
pub open spec fn bmp_without_surrogates(units: Seq<u16>) -> bool {
    forall|i: int| 0 <= i < units.len() ==> (units[i] < 0xD800 || units[i] > 0xDFFF)
}

/// Code units with no surrogate decode one character each, both with
/// replacement and strictly.
pub proof fn lemma_utf16_without_surrogates(units: Seq<u16>)
    requires
        bmp_without_surrogates(units),
    ensures
        utf16_lossy(units) == units.map_values(|u: u16| u as char),
        utf16_strict(units) == Some(units.map_values(|u: u16| u as char)),
    decreases units.len(),
{
    if units.len() > 0 {
        let rest = units.drop_first();
        assert(bmp_without_surrogates(rest)) by {
            assert forall|i: int| 0 <= i < rest.len() implies (rest[i] < 0xD800 || rest[i] > 0xDFFF) by {
                assert(rest[i] == units[i + 1]);
            }
        }
        lemma_utf16_without_surrogates(rest);
        assert(units[0] < 0xD800 || units[0] > 0xDFFF);
        assert(seq![units[0] as char] + rest.map_values(|u: u16| u as char) =~= units.map_values(|u: u16| u as char));
    } else {
        assert(units.map_values(|u: u16| u as char) =~= Seq::<char>::empty());
    }
}

/// Decodes UTF-16 with replacement (`String::from_utf16_lossy`). Claims: the
/// result is [`utf16_lossy`] of the units.
#[verifier::external_body]
pub fn string_from_utf16_lossy(units: &[u16]) -> (s: String)
    ensures
        s@ == utf16_lossy(units@),
{
    String::from_utf16_lossy(units)
}

} // verus!

verus! {

/// Appends all characters of `s`.
pub fn push_str_chars(out: &mut String, s: &str)
    ensures
        final(out)@ == old(out)@ + s@,
{
    let cs = str_chars(s);
    let n = cs.len();
    let mut i: usize = 0;
    while i < n
        invariant
            i <= n == cs@.len(),
            cs@ == s@,
            out@ == old(out)@ + cs@.take(i as int),
        decreases n - i,
    {
        string_push(out, cs[i]);
        assert(cs@.take(i + 1) =~= cs@.take(i as int).push(cs@[i as int]));
        i += 1;
    }
    assert(cs@.take(n as int) =~= cs@);
}

/// `a` followed by `b`.
pub fn concat_str(a: &str, b: &str) -> (r: String)
    ensures
        r@ == a@ + b@,
{
    let mut r = a.to_owned();
    push_str_chars(&mut r, b);
    r
}

/// Whether two strings hold the same characters.
pub fn str_eq(a: &str, b: &str) -> (r: bool)
    ensures
        r == (a@ == b@),
{
    let x = a.to_owned();
    let y = b.to_owned();
    x == y
}

} // verus!

verus! {

/// Strict UTF-16 decoding (`String::from_utf16`): as [`utf16_lossy`], but
/// `None` where a surrogate is not part of a pair.
pub open spec fn utf16_strict(units: Seq<u16>) -> Option<Seq<char>>
    decreases units.len(),
{
    if units.len() == 0 {
        Some(Seq::empty())
    } else if !is_surrogate(units[0]) {
        match utf16_strict(units.drop_first()) {
            Some(t) => Some(seq![units[0] as char] + t),
            None => None,
        }
    } else if starts_with_pair(units) {
        match utf16_strict(units.skip(2)) {
            Some(t) => Some(seq![pair_char(units)] + t),
            None => None,
        }
    } else {
        None
    }
}

/// Decodes UTF-16 strictly (`String::from_utf16`). Claims: the result is
/// [`utf16_strict`] of the units.
#[verifier::external_body]
pub fn string_from_utf16(units: &[u16]) -> (r: Option<String>)
    ensures
        match r {
            Some(s) => utf16_strict(units@) == Some(s@),
            None => utf16_strict(units@) is None,
        },
{
    String::from_utf16(units).ok()
}

/// Decodes UTF-8 strictly (`std::str::from_utf8`). Claims: it succeeds
/// exactly on well-formed UTF-8, and then yields the decoded text.
#[verifier::external_body]
pub fn str_from_utf8(bytes: &[u8]) -> (r: Option<String>)
    ensures
        match r {
            Some(s) => vstd::utf8::valid_utf8(bytes@) && s@ == vstd::utf8::decode_utf8(bytes@),
            None => !vstd::utf8::valid_utf8(bytes@),
        },
{
    match std::str::from_utf8(bytes) {
        Ok(s) => Some(s.to_owned()),
        Err(_) => None,
    }
}

} // verus!
