//! Decimal integer parsing with the semantics of `str::parse` for unsigned
//! integers: an optional `+`, then ASCII digits, checked against the maximum.

use vstd::prelude::*;

verus! {

/// Why a decimal integer could not be parsed.
#[derive(Clone, Copy, Debug, PartialEq, Eq, Structural)]
pub enum ParseIntKind {
    /// The text was empty.
    Empty,
    /// A character was not a decimal digit (or a lone sign).
    InvalidDigit,
    /// The value exceeds the target type.
    PosOverflow,
}

/// The message `ParseIntError` displays for each kind.
pub open spec fn parse_int_message(k: ParseIntKind) -> Seq<char> {
    match k {
        ParseIntKind::Empty => "cannot parse integer from empty string"@,
        ParseIntKind::InvalidDigit => "invalid digit found in string"@,
        ParseIntKind::PosOverflow => "number too large to fit in target type"@,
    }
}

/// Displays a parse failure the way `ParseIntError` does.
pub fn parse_int_message_string(k: ParseIntKind) -> (s: String)
    ensures
        s@ == parse_int_message(k),
{
    match k {
        ParseIntKind::Empty => "cannot parse integer from empty string".to_owned(),
        ParseIntKind::InvalidDigit => "invalid digit found in string".to_owned(),
        ParseIntKind::PosOverflow => "number too large to fit in target type".to_owned(),
    }
}

/// ASCII decimal digit.
pub open spec fn is_digit(c: char) -> bool {
    '0' <= c && c <= '9'
}

/// Value of an ASCII decimal digit.
pub open spec fn digit_value(c: char) -> nat {
    ((c as u32) - 48) as nat
}

/// Parses the digits of `s` left to right, starting from `acc`, failing on the
/// first non-digit or as soon as the value exceeds `max`.
pub open spec fn digits_from(s: Seq<char>, acc: nat, max: nat) -> Result<nat, ParseIntKind>
    decreases s.len(),
{
    if s.len() == 0 {
        Ok(acc)
    } else if !is_digit(s[0]) {
        Err(ParseIntKind::InvalidDigit)
    } else if acc * 10 + digit_value(s[0]) > max {
        Err(ParseIntKind::PosOverflow)
    } else {
        digits_from(s.drop_first(), acc * 10 + digit_value(s[0]), max)
    }
}

/// `str::parse` for an unsigned type whose maximum is `max`.
pub open spec fn parse_unsigned(s: Seq<char>, max: nat) -> Result<nat, ParseIntKind> {
    if s.len() == 0 {
        Err(ParseIntKind::Empty)
    } else if s.len() == 1 && (s[0] == '+' || s[0] == '-') {
        Err(ParseIntKind::InvalidDigit)
    } else if s[0] == '+' {
        digits_from(s.drop_first(), 0, max)
    } else {
        digits_from(s, 0, max)
    }
}

/// Parses `s[from..]` as an unsigned decimal no larger than `max`.
pub fn parse_unsigned_chars(s: &[char], from: usize, max: u64) -> (r: Result<u64, ParseIntKind>)
    requires
        from <= s@.len(),
    ensures
        match r {
            Ok(v) => parse_unsigned(s@.skip(from as int), max as nat) == Ok::<nat, ParseIntKind>(v as nat),
            Err(k) => parse_unsigned(s@.skip(from as int), max as nat) == Err::<nat, ParseIntKind>(k),
        },
{
    let n = s.len();
    let ghost t = s@.skip(from as int);
    if from == n {
        return Err(ParseIntKind::Empty);
    }
    if n - from == 1 && (s[from] == '+' || s[from] == '-') {
        return Err(ParseIntKind::InvalidDigit);
    }
    let mut i = from;
    if s[from] == '+' {
        i = from + 1;
        assert(t.drop_first() =~= s@.skip(i as int));
    } else {
        assert(t =~= s@.skip(i as int));
    }
    let ghost start = s@.skip(i as int);
    assert(parse_unsigned(t, max as nat) == digits_from(start, 0, max as nat));
    let mut acc: u64 = 0;
    while i < n
        invariant
            from <= i <= n == s@.len(),
            acc <= max,
            t == s@.skip(from as int),
            parse_unsigned(t, max as nat) == digits_from(s@.skip(i as int), acc as nat, max as nat),
        decreases n - i,
    {
        let c = s[i];
        assert(s@.skip(i as int)[0] == c);
        if !('0' <= c && c <= '9') {
            return Err(ParseIntKind::InvalidDigit);
        }
        let d = (c as u32 - 48) as u64;
        let v: u128 = acc as u128 * 10 + d as u128;
        if v > max as u128 {
            return Err(ParseIntKind::PosOverflow);
        }
        assert(s@.skip(i as int).drop_first() =~= s@.skip(i + 1));
        acc = v as u64;
        i += 1;
    }
    Ok(acc)
}

} // verus!
