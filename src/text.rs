//! Character-level helpers: comparing texts, reading and writing decimal digits,
//! and ASCII case mapping.
use vstd::prelude::*;

verus! {

pub open spec fn is_digit(c: char) -> bool {
    '0' <= c && c <= '9'
}

pub open spec fn digit_value(c: char) -> nat {
    (c as int - '0' as int) as nat
}

pub open spec fn all_digits(s: Seq<char>) -> bool {
    forall|i: int| 0 <= i < s.len() ==> is_digit(#[trigger] s[i])
}

/// The number that a run of decimal digits denotes.
pub open spec fn digits_value(s: Seq<char>) -> nat
    decreases s.len(),
{
    if s.len() == 0 {
        0
    } else {
        digits_value(s.drop_last()) * 10 + digit_value(s.last())
    }
}

/// `Some(v)` when `v` fits in a `u64`, `None` otherwise.
pub open spec fn capped(v: nat) -> Option<u64> {
    if v <= u64::MAX {
        Some(v as u64)
    } else {
        None
    }
}

/// A non-empty run of digits whose value fits in a `u64`.
pub open spec fn u64_of_text(s: Seq<char>) -> Option<u64> {
    if s.len() > 0 && all_digits(s) {
        capped(digits_value(s))
    } else {
        None
    }
}

/// An optional minus sign followed by a non-empty run of digits, within `i64`.
pub open spec fn i64_of_text(s: Seq<char>) -> Option<i64> {
    if s.len() > 0 && s[0] == '-' {
        let b = s.skip(1);
        if b.len() > 0 && all_digits(b) && digits_value(b) <= 0x8000_0000_0000_0000 {
            Some((-(digits_value(b) as int)) as i64)
        } else {
            None
        }
    } else if s.len() > 0 && all_digits(s) && digits_value(s) <= i64::MAX {
        Some(digits_value(s) as i64)
    } else {
        None
    }
}

pub open spec fn upper_char(c: char) -> char {
    if 'a' <= c && c <= 'z' {
        ((c as u8) - 32) as u8 as char
    } else {
        c
    }
}

pub open spec fn lower_char(c: char) -> char {
    if 'A' <= c && c <= 'Z' {
        ((c as u8) + 32) as u8 as char
    } else {
        c
    }
}

pub open spec fn upper_text(s: Seq<char>) -> Seq<char> {
    s.map_values(|c: char| upper_char(c))
}

pub open spec fn lower_text(s: Seq<char>) -> Seq<char> {
    s.map_values(|c: char| lower_char(c))
}

/// The shortest decimal writing of `n`.
pub open spec fn decimal_text(n: nat) -> Seq<char>
    decreases n,
{
    if n < 10 {
        seq![digit_char(n)]
    } else {
        decimal_text(n / 10).push(digit_char(n % 10))
    }
}

pub open spec fn digit_char(d: nat) -> char {
    (48 + d) as u8 as char
}

/// Relies on String::push: appends one character.
#[verifier::external_body]
pub(crate) fn push_char(s: &mut String, c: char)
    ensures
        final(s)@ == old(s)@.push(c),
{
    s.push(c)
}

/// Whether two texts hold the same characters.
pub fn text_is(a: &str, b: &str) -> (r: bool)
    ensures
        r == (a@ == b@),
{
    let n = a.unicode_len();
    if n != b.unicode_len() {
        return false;
    }
    let mut i: usize = 0;
    while i < n
        invariant
            n == a@.len(),
            n == b@.len(),
            0 <= i <= n,
            forall|j: int| 0 <= j < i ==> a@[j] == b@[j],
        decreases n - i,
    {
        if a.get_char(i) != b.get_char(i) {
            return false;
        }
        i = i + 1;
    }
    assert(a@ =~= b@);
    true
}

/// One more digit at the end of a run whose value is capped at `u64::MAX`.
pub(crate) fn push_digit(acc: Option<u64>, c: char, Ghost(v): Ghost<nat>) -> (r: Option<u64>)
    requires
        is_digit(c),
        acc == capped(v),
    ensures
        r == capped(v * 10 + digit_value(c)),
{
    let d = (c as u32 - '0' as u32) as u64;
    assert(d == digit_value(c));
    match acc {
        None => {
            assert(v * 10 + digit_value(c) > u64::MAX) by (nonlinear_arith)
                requires v > u64::MAX;
            None
        },
        Some(a) => {
            if a > (u64::MAX - d) / 10 {
                assert(v * 10 + d > u64::MAX) by (nonlinear_arith)
                    requires v == a, a > (u64::MAX - d) / 10, d < 10;
                None
            } else {
                assert(a * 10 + d <= u64::MAX) by (nonlinear_arith)
                    requires a <= (u64::MAX - d) / 10, d < 10;
                Some(a * 10 + d)
            }
        },
    }
}

/// Reads the characters `from..to` of `s` as a run of digits, capped at `u64::MAX`;
/// `Err(())` when one of them is not a digit.
pub(crate) fn read_digits(s: &str, from: usize, to: usize) -> (r: Result<Option<u64>, ()>)
    requires
        from <= to <= s@.len(),
    ensures
        r is Ok <==> all_digits(s@.subrange(from as int, to as int)),
        r is Ok ==> r->Ok_0 == capped(digits_value(s@.subrange(from as int, to as int))),
{
    let mut acc: Option<u64> = Some(0);
    let mut i: usize = from;
    while i < to
        invariant
            from <= i <= to <= s@.len(),
            all_digits(s@.subrange(from as int, i as int)),
            acc == capped(digits_value(s@.subrange(from as int, i as int))),
        decreases to - i,
    {
        let c = s.get_char(i);
        let ghost pre = s@.subrange(from as int, i as int);
        let ghost next = s@.subrange(from as int, i + 1);
        assert(next.drop_last() =~= pre);
        if !('0' <= c && c <= '9') {
            assert(!is_digit(s@.subrange(from as int, to as int)[i - from]));
            return Err(());
        }
        acc = push_digit(acc, c, Ghost(digits_value(pre)));
        i = i + 1;
    }
    Ok(acc)
}

/// Parses a non-empty run of digits into a `u64`.
pub fn parse_u64(s: &str) -> (r: Option<u64>)
    ensures
        r == u64_of_text(s@),
{
    let n = s.unicode_len();
    if n == 0 {
        return None;
    }
    assert(s@.subrange(0, n as int) =~= s@);
    match read_digits(s, 0, n) {
        Ok(v) => v,
        Err(_) => None,
    }
}

/// Parses an optionally negative run of digits into an `i64`.
pub fn parse_i64(s: &str) -> (r: Option<i64>)
    ensures
        r == i64_of_text(s@),
{
    let n = s.unicode_len();
    if n == 0 {
        return None;
    }
    if s.get_char(0) == '-' {
        if n == 1 {
            return None;
        }
        assert(s@.subrange(1, n as int) =~= s@.skip(1));
        match read_digits(s, 1, n) {
            Ok(Some(v)) => {
                if v <= 0x8000_0000_0000_0000u64 {
                    if v == 0x8000_0000_0000_0000u64 {
                        Some(i64::MIN)
                    } else {
                        Some(-(v as i64))
                    }
                } else {
                    None
                }
            },
            _ => None,
        }
    } else {
        assert(s@.subrange(0, n as int) =~= s@);
        match read_digits(s, 0, n) {
            Ok(Some(v)) => {
                if v <= i64::MAX as u64 {
                    Some(v as i64)
                } else {
                    None
                }
            },
            _ => None,
        }
    }
}

/// Appends the shortest decimal writing of `n` to `out`.
pub fn push_decimal(out: &mut String, n: u64)
    ensures
        final(out)@ == old(out)@ + decimal_text(n as nat),
    decreases n,
{
    if n >= 10 {
        push_decimal(out, n / 10);
    }
    let c = (48u8 + (n % 10) as u8) as char;
    push_char(out, c);
}

pub fn upper_ascii(c: char) -> (r: char)
    ensures
        r == upper_char(c),
{
    if 'a' <= c && c <= 'z' {
        ((c as u8) - 32) as char
    } else {
        c
    }
}

pub fn lower_ascii(c: char) -> (r: char)
    ensures
        r == lower_char(c),
{
    if 'A' <= c && c <= 'Z' {
        ((c as u8) + 32) as char
    } else {
        c
    }
}

} // verus!
