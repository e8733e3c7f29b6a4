//! Decimal text of unsigned integers, and the parser for it.

use vstd::prelude::*;

use crate::text::push_char;

verus! {

/// The character of a decimal digit `d` (0 to 9).
pub open spec fn digit_char(d: nat) -> char {
    ((48 + d) as u32) as char
}

/// The shortest decimal representation of `n`, without sign or padding.
pub open spec fn decimal_text(n: nat) -> Seq<char>
    decreases n,
{
    if n < 10 {
        seq![digit_char(n)]
    } else {
        decimal_text(n / 10).push(digit_char(n % 10))
    }
}

fn digit_to_char(d: u64) -> (c: char)
    requires
        d < 10,
    ensures
        c == digit_char(d as nat),
{
    let b: u8 = 48u8 + (d as u8);
    b as char
}

/// Appends the decimal text of `n` to `out`.
pub fn push_decimal(out: &mut String, n: u64)
    ensures
        final(out)@ == old(out)@ + decimal_text(n as nat),
    decreases n,
{
    if n < 10 {
        push_char(out, digit_to_char(n));
        assert(decimal_text(n as nat) == seq![digit_char(n as nat)]);
    } else {
        push_decimal(out, n / 10);
        push_char(out, digit_to_char(n % 10));
    }
}

/// Why text is not the decimal of an unsigned 64-bit integer.
#[derive(Debug, Clone, Copy, PartialEq, Eq)]
pub enum ParseNumberError {
    /// The text is empty.
    Empty,
    /// The text holds a character that is not a decimal digit
    /// (after an optional leading `+`), or is a lone sign.
    InvalidDigit,
    /// The number does not fit in 64 bits.
    PosOverflow,
}

impl ParseNumberError {
    /// The message that describes the error.
    pub fn message(&self) -> (m: &'static str)
        ensures
            m@ == self.spec_message(),
    {
        match self {
            ParseNumberError::Empty => "cannot parse integer from empty string",
            ParseNumberError::InvalidDigit => "invalid digit found in string",
            ParseNumberError::PosOverflow => "number too large to fit in target type",
        }
    }

    /// The message that describes the error, as std words it for integer parsing.
    pub open spec fn spec_message(&self) -> Seq<char> {
        match self {
            ParseNumberError::Empty => "cannot parse integer from empty string"@,
            ParseNumberError::InvalidDigit => "invalid digit found in string"@,
            ParseNumberError::PosOverflow => "number too large to fit in target type"@,
        }
    }
}

/// Whether `c` is an ASCII decimal digit.
pub open spec fn is_digit(c: char) -> bool {
    '0' <= c && c <= '9'
}

/// The value of the decimal digit `c`.
pub open spec fn digit_value(c: char) -> nat {
    (c as int - 48) as nat
}

/// Reads the decimal digits of `digits` left to right into `acc`, failing at the
/// first character that is not a digit or at the first digit that takes the
/// value past `u64::MAX`.
pub open spec fn scan_decimal(digits: Seq<char>, acc: nat) -> Result<nat, ParseNumberError>
    decreases digits.len(),
{
    if digits.len() == 0 {
        Ok(acc)
    } else if !is_digit(digits[0]) {
        Err(ParseNumberError::InvalidDigit)
    } else if acc * 10 + digit_value(digits[0]) > u64::MAX {
        Err(ParseNumberError::PosOverflow)
    } else {
        scan_decimal(digits.drop_first(), acc * 10 + digit_value(digits[0]))
    }
}

/// What parsing `s` as an unsigned 64-bit integer gives: an optional `+`
/// followed by at least one decimal digit, with no other character.
pub open spec fn spec_parse_u64(s: Seq<char>) -> Result<u64, ParseNumberError> {
    if s.len() == 0 {
        Err(ParseNumberError::Empty)
    } else if (s[0] == '+' || s[0] == '-') && s.len() == 1 {
        Err(ParseNumberError::InvalidDigit)
    } else {
        let digits = if s[0] == '+' { s.drop_first() } else { s };
        match scan_decimal(digits, 0) {
            Ok(n) => Ok(n as u64),
            Err(e) => Err(e),
        }
    }
}

/// Parses the characters `s` as an unsigned 64-bit decimal integer.
pub fn parse_u64(s: &[char]) -> (r: Result<u64, ParseNumberError>)
    ensures
        r == spec_parse_u64(s@),
{
    let len = s.len();
    if len == 0 {
        return Err(ParseNumberError::Empty);
    }
    if (s[0] == '+' || s[0] == '-') && len == 1 {
        return Err(ParseNumberError::InvalidDigit);
    }
    let start: usize = if s[0] == '+' { 1 } else { 0 };
    let ghost digits = if s@[0] == '+' { s@.drop_first() } else { s@ };
    assert(digits == s@.subrange(start as int, len as int));
    let ghost parsed = match scan_decimal(digits, 0) {
        Ok(n) => Ok::<u64, ParseNumberError>(n as u64),
        Err(e) => Err(e),
    };
    assert(spec_parse_u64(s@) == parsed);
    let mut acc: u64 = 0;
    let mut i: usize = start;
    while i < len
        invariant
            start <= i <= len,
            len == s@.len(),
            digits == s@.subrange(start as int, len as int),
            spec_parse_u64(s@) == parsed,
            parsed == match scan_decimal(digits, 0) {
                Ok(n) => Ok::<u64, ParseNumberError>(n as u64),
                Err(e) => Err(e),
            },
            scan_decimal(digits, 0) == scan_decimal(s@.subrange(i as int, len as int), acc as nat),
        decreases len - i,
    {
        let c = s[i];
        let ghost rest = s@.subrange(i as int, len as int);
        assert(rest[0] == c);
        assert(rest.drop_first() == s@.subrange(i + 1, len as int));
        if !('0' <= c && c <= '9') {
            return Err(ParseNumberError::InvalidDigit);
        }
        let d: u64 = (c as u32 - 48) as u64;
        assert(d == digit_value(c));
        if acc > (u64::MAX - d) / 10 {
            assert(acc * 10 + d > u64::MAX) by (nonlinear_arith)
                requires acc > (u64::MAX - d) / 10, d < 10;
            return Err(ParseNumberError::PosOverflow);
        }
        assert(acc * 10 + d <= u64::MAX) by (nonlinear_arith)
            requires acc <= (u64::MAX - d) / 10, d < 10;
        acc = acc * 10 + d;
        i = i + 1;
    }
    assert(s@.subrange(len as int, len as int).len() == 0);
    Ok(acc)
}

proof fn lemma_scan_push(s: Seq<char>, c: char, acc: nat)
    ensures
        scan_decimal(s.push(c), acc) == match scan_decimal(s, acc) {
            Ok(v) => scan_decimal(seq![c], v),
            Err(e) => Err(e),
        },
    decreases s.len(),
{
    if s.len() == 0 {
        assert(s.push(c) == seq![c]);
    } else {
        assert(s.push(c).drop_first() == s.drop_first().push(c));
        assert(s.push(c)[0] == s[0]);
        if is_digit(s[0]) && acc * 10 + digit_value(s[0]) <= u64::MAX {
            lemma_scan_push(s.drop_first(), c, acc * 10 + digit_value(s[0]));
        }
    }
}

/// The decimal text of a number is a non-empty run of digits.
pub proof fn lemma_decimal_text_digits(n: nat)
    ensures
        decimal_text(n).len() > 0,
        forall|i: int| 0 <= i < decimal_text(n).len() ==> is_digit(#[trigger] decimal_text(n)[i]),
        decimal_text(n)[0] != '+',
    decreases n,
{
    if n >= 10 {
        lemma_decimal_text_digits(n / 10);
    }
}

/// The decimal text of a 64-bit value scans back to that value.
proof fn lemma_scan_decimal_text(n: nat)
    requires
        n <= u64::MAX,
    ensures
        scan_decimal(decimal_text(n), 0) == Ok::<nat, ParseNumberError>(n),
    decreases n,
{
    let d = digit_char(n % 10);
    assert(digit_value(d) == n % 10);
    assert(seq![d].drop_first().len() == 0);
    assert(is_digit(d));
    assert((n / 10) * 10 + n % 10 == n);
    assert(scan_decimal(seq![d].drop_first(), n) == Ok::<nat, ParseNumberError>(n));
    assert(scan_decimal(seq![d], n / 10) == Ok::<nat, ParseNumberError>(n));
    if n < 10 {
        assert(decimal_text(n) == seq![d]);
    } else {
        lemma_scan_decimal_text(n / 10);
        lemma_scan_push(decimal_text(n / 10), d, 0);
    }
}

/// Law: parsing the decimal text of any 64-bit value gives that value back.
pub proof fn law_parse_decimal_roundtrip(n: u64)
    ensures
        spec_parse_u64(decimal_text(n as nat)) == Ok::<u64, ParseNumberError>(n),
{
    lemma_decimal_text_digits(n as nat);
    lemma_scan_decimal_text(n as nat);
    let s = decimal_text(n as nat);
    assert(is_digit(s[0]));
}

} // verus!
