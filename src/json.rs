//! The structured value that a frame holds, and the per-field coercions that
//! event decoding applies to it.
use vstd::prelude::*;
use crate::text::{
    all_digits, capped, decimal_text, digit_char, digit_value, digits_value, i64_of_text, is_digit,
    parse_i64, parse_u64, push_char, push_decimal, read_digits, text_is, u64_of_text,
};

verus! {

/// A parsed JSON document. Numbers keep their written form.
pub enum JsonValue {
    Null,
    Bool(bool),
    Number(String),
    Str(String),
    Array(Vec<JsonValue>),
    Object(Vec<(String, JsonValue)>),
}

/// Why a frame could not be turned into an event.
#[derive(Clone, Debug)]
pub enum DecodeError {
    /// The payload is not structured data, or not of the expected overall shape.
    Malformed,
    /// The discriminator names no known event.
    UnknownEventType { name: String },
    /// A required field is absent, or its value cannot be read as the field's type.
    FieldCoercion { field: String },
}

/// serde_json's document type, opaque here: it is only carried into `from_outside`.
#[verifier::external_type_specification]
#[verifier::external_body]
pub struct ExOutsideJson(serde_json::Value);

/// What serde_json makes of a byte string: `None` when it is not a JSON document.
pub uninterp spec fn json_of(bytes: Seq<u8>) -> Option<JsonValue>;

/// Relies on serde_json::from_slice into serde_json::Value: the document a byte
/// string holds, which depends on the bytes alone.
#[verifier::external_body]
pub(crate) fn parse_json(bytes: &[u8]) -> (r: Option<JsonValue>)
    ensures
        r == json_of(bytes@),
{
    match serde_json::from_slice::<serde_json::Value>(bytes) {
        Ok(v) => Some(from_outside(&v)),
        Err(_) => None,
    }
}

/// Moves a serde_json::Value into the library's own value type, one node for one node.
#[verifier::external_body]
fn from_outside(v: &serde_json::Value) -> JsonValue {
    match v {
        serde_json::Value::Null => JsonValue::Null,
        serde_json::Value::Bool(b) => JsonValue::Bool(*b),
        serde_json::Value::Number(n) => JsonValue::Number(n.to_string()),
        serde_json::Value::String(s) => JsonValue::Str(s.clone()),
        serde_json::Value::Array(a) => JsonValue::Array(a.iter().map(from_outside).collect()),
        serde_json::Value::Object(m) => JsonValue::Object(
            m.iter().map(|(k, x)| (k.clone(), from_outside(x))).collect(),
        ),
    }
}

/// A fixed-point number: `mantissa / 10^scale`, negated when `negative`.
#[derive(Clone, Copy, Debug, PartialEq, Eq, Structural)]
pub struct Decimal {
    pub negative: bool,
    pub mantissa: u64,
    pub scale: u32,
}

/// Index of the first `'.'` in `s`, or `s.len()` when there is none.
pub open spec fn dot_index(s: Seq<char>) -> nat
    decreases s.len(),
{
    if s.len() == 0 {
        0
    } else if s[0] == '.' {
        0
    } else {
        1 + dot_index(s.skip(1))
    }
}

pub open spec fn unsigned_part(s: Seq<char>) -> Seq<char> {
    if s.len() > 0 && s[0] == '-' {
        s.skip(1)
    } else {
        s
    }
}

pub open spec fn int_digits(s: Seq<char>) -> Seq<char> {
    let b = unsigned_part(s);
    b.take(dot_index(b) as int)
}

pub open spec fn frac_digits(s: Seq<char>) -> Seq<char> {
    let b = unsigned_part(s);
    if dot_index(b) < b.len() {
        b.skip(dot_index(b) + 1int)
    } else {
        Seq::empty()
    }
}

/// A decimal written as an optional `-`, digits, and optionally `.` and more digits,
/// whose digits together fit in a `u64`.
pub open spec fn decimal_of_text(s: Seq<char>) -> Option<Decimal> {
    let b = unsigned_part(s);
    let ip = int_digits(s);
    let fp = frac_digits(s);
    if ip.len() > 0 && all_digits(ip) && all_digits(fp) && (dot_index(b) < b.len() ==> fp.len() > 0)
        && digits_value(ip + fp) <= u64::MAX && fp.len() <= u32::MAX {
        Some(Decimal {
            negative: s.len() > 0 && s[0] == '-',
            mantissa: digits_value(ip + fp) as u64,
            scale: fp.len() as u32,
        })
    } else {
        None
    }
}

proof fn lemma_dot_index(s: Seq<char>, i: int)
    requires
        0 <= i <= s.len(),
        forall|j: int| 0 <= j < i ==> s[j] != '.',
    ensures
        i < s.len() && s[i] == '.' ==> dot_index(s) == i,
        i == s.len() ==> dot_index(s) == s.len(),
    decreases i,
{
    if i > 0 {
        lemma_dot_index(s.skip(1), i - 1);
    } else if s.len() > 0 {
    }
}

proof fn lemma_digits_concat(a: Seq<char>, b: Seq<char>, j: int)
    requires
        0 <= j < b.len(),
    ensures
        (a + b.take(j + 1)).drop_last() == a + b.take(j),
        (a + b.take(j + 1)).last() == b[j],
{
    assert((a + b.take(j + 1)).drop_last() =~= a + b.take(j));
}

/// Parses the written form of a decimal.
pub fn parse_decimal(s: &str) -> (r: Option<Decimal>)
    ensures
        r == decimal_of_text(s@),
{
    let n = s.unicode_len();
    let neg = n > 0 && s.get_char(0) == '-';
    let start: usize = if neg { 1 } else { 0 };
    let ghost b = unsigned_part(s@);
    assert(b =~= s@.subrange(start as int, n as int));
    let mut k: usize = start;
    while k < n && s.get_char(k) != '.'
        invariant
            start <= k <= n == s@.len(),
            forall|j: int| start <= j < k ==> s@[j] != '.',
        decreases n - k,
    {
        k = k + 1;
    }
    proof {
        lemma_dot_index(b, k - start);
    }
    let ghost ip = int_digits(s@);
    let ghost fp = frac_digits(s@);
    assert(ip =~= s@.subrange(start as int, k as int));
    if k == start {
        return None;
    }
    let int_part = match read_digits(s, start, k) {
        Ok(v) => v,
        Err(_) => return None,
    };
    let mut acc = int_part;
    let frac_start: usize = if k < n { k + 1 } else { n };
    if k < n && frac_start == n {
        return None;
    }
    assert(fp =~= s@.subrange(frac_start as int, n as int));
    assert(ip + fp.take(0) =~= ip);
    let mut i: usize = frac_start;
    while i < n
        invariant
            frac_start <= i <= n == s@.len(),
            fp =~= s@.subrange(frac_start as int, n as int),
            ip == int_digits(s@),
            fp == frac_digits(s@),
            all_digits(fp.take(i - frac_start)),
            acc == capped(digits_value(ip + fp.take(i - frac_start))),
        decreases n - i,
    {
        let c = s.get_char(i);
        if !('0' <= c && c <= '9') {
            assert(fp[i - frac_start] == c);
            assert(!crate::text::is_digit(fp[i - frac_start]));
            assert(!all_digits(fp));
            return None;
        }
        proof {
            lemma_digits_concat(ip, fp, i - frac_start);
        }
        acc = crate::text::push_digit(acc, c, Ghost(digits_value(ip + fp.take(i - frac_start))));
        assert(fp.take(i + 1 - frac_start) =~= fp.take(i - frac_start).push(c));
        i = i + 1;
    }
    assert(fp.take(n - frac_start) =~= fp);
    if n - frac_start > u32::MAX as usize {
        return None;
    }
    match acc {
        Some(m) => Some(Decimal { negative: neg, mantissa: m, scale: (n - frac_start) as u32 }),
        None => None,
    }
}

pub open spec fn zeros(n: nat) -> Seq<char> {
    Seq::new(n, |i: int| '0')
}

/// The digits of the mantissa, with zeros in front so that at least one stands
/// before the point.
pub open spec fn mantissa_digits(d: Decimal) -> Seq<char> {
    let t = decimal_text(d.mantissa as nat);
    if t.len() <= d.scale {
        zeros((d.scale + 1 - t.len()) as nat) + t
    } else {
        t
    }
}

/// The written form of a decimal: sign, integer digits, and the `scale` fraction
/// digits after a point when there are any.
pub open spec fn decimal_to_text(d: Decimal) -> Seq<char> {
    let g = mantissa_digits(d);
    let k = g.len() - d.scale;
    (if d.negative { seq!['-'] } else { Seq::empty() }) + g.take(k) + (if d.scale > 0 {
        seq!['.'] + g.skip(k)
    } else {
        Seq::empty()
    })
}

fn push_range(out: &mut String, s: &str, from: usize, to: usize)
    requires
        from <= to <= s@.len(),
    ensures
        final(out)@ == old(out)@ + s@.subrange(from as int, to as int),
{
    let ghost start = out@;
    let mut i: usize = from;
    while i < to
        invariant
            from <= i <= to <= s@.len(),
            out@ == start + s@.subrange(from as int, i as int),
        decreases to - i,
    {
        push_char(out, s.get_char(i));
        assert(s@.subrange(from as int, i + 1) =~= s@.subrange(from as int, i as int).push(s@[i as int]));
        i = i + 1;
    }
}

fn push_zeros(out: &mut String, n: u32)
    ensures
        final(out)@ == old(out)@ + zeros(n as nat),
{
    let ghost start = out@;
    let mut i: u32 = 0;
    while i < n
        invariant
            i <= n,
            out@ == start + zeros(i as nat),
        decreases n - i,
    {
        push_char(out, '0');
        assert(zeros((i + 1) as nat) =~= zeros(i as nat).push('0'));
        i = i + 1;
    }
}

impl Decimal {
    /// The written form, which `parse_decimal` reads back to the same value.
    pub fn to_text(&self) -> (r: String)
        ensures
            r@ == decimal_to_text(*self),
    {
        let mut digits = String::new();
        push_decimal(&mut digits, self.mantissa);
        proof {
            lemma_text_digits(self.mantissa as nat);
        }
        let t = digits.as_str();
        let len = t.unicode_len();
        let mut out = String::new();
        if self.negative {
            push_char(&mut out, '-');
        }
        let ghost sign = out@;
        let ghost g = mantissa_digits(*self);
        if (len as u64) <= (self.scale as u64) {
            let pad = (self.scale as u64 - len as u64) as u32;
            push_char(&mut out, '0');
            push_char(&mut out, '.');
            push_zeros(&mut out, pad);
            push_range(&mut out, t, 0, len);
            proof {
                assert(t@.subrange(0, len as int) =~= t@);
                assert(g =~= zeros((pad + 1) as nat) + t@);
                assert(g.take(1) =~= seq!['0']);
                assert(g.skip(1) =~= zeros(pad as nat) + t@);
                assert(out@ =~= decimal_to_text(*self));
            }
        } else {
            let k = len - self.scale as usize;
            push_range(&mut out, t, 0, k);
            if self.scale > 0 {
                push_char(&mut out, '.');
                push_range(&mut out, t, k, len);
            }
            proof {
                assert(g == t@);
                assert(g.take(k as int) =~= t@.subrange(0, k as int));
                assert(g.skip(k as int) =~= t@.subrange(k as int, len as int));
                assert(out@ =~= decimal_to_text(*self));
            }
        }
        out
    }
}

proof fn lemma_text_digits(n: nat)
    ensures
        all_digits(decimal_text(n)),
        digits_value(decimal_text(n)) == n,
        decimal_text(n).len() >= 1,
    decreases n,
{
    if n >= 10 {
        lemma_text_digits(n / 10);
        let t = decimal_text(n);
        assert(t.drop_last() =~= decimal_text(n / 10));
        assert(digit_value(digit_char(n % 10)) == n % 10);
        assert(t.last() == digit_char(n % 10));
        assert((n / 10) * 10 + n % 10 == n) by (nonlinear_arith);
        assert(digits_value(t) == digits_value(t.drop_last()) * 10 + digit_value(t.last()));
        assert forall|i: int| 0 <= i < t.len() implies is_digit(#[trigger] t[i]) by {
            if i < t.len() - 1 {
                assert(t[i] == decimal_text(n / 10)[i]);
            }
        }
    } else {
        assert(digit_value(digit_char(n)) == n);
        let t = decimal_text(n);
        assert(t.drop_last() =~= Seq::<char>::empty());
        assert(t.last() == digit_char(n));
        assert(digits_value(t) == digits_value(t.drop_last()) * 10 + digit_value(t.last()));
    }
}

proof fn lemma_zeros_value(j: nat, s: Seq<char>)
    ensures
        digits_value(zeros(j) + s) == digits_value(s),
        all_digits(s) ==> all_digits(zeros(j) + s),
    decreases s.len() + j,
{
    if s.len() > 0 {
        assert((zeros(j) + s).drop_last() =~= zeros(j) + s.drop_last());
        lemma_zeros_value(j, s.drop_last());
    } else if j > 0 {
        assert((zeros(j) + s).drop_last() =~= zeros((j - 1) as nat) + s);
        lemma_zeros_value((j - 1) as nat, s);
    } else {
        assert(zeros(j) + s =~= s);
    }
    if all_digits(s) {
        assert forall|i: int| 0 <= i < (zeros(j) + s).len() implies is_digit(#[trigger] (zeros(j) + s)[i]) by {
            if i >= j {
                assert((zeros(j) + s)[i] == s[i - j]);
            }
        }
    }
}

/// Writing a decimal and reading the text back gives the same decimal.
#[verifier::rlimit(100)]
pub proof fn lemma_decimal_text_round_trip(d: Decimal)
    ensures
        decimal_of_text(decimal_to_text(d)) == Some(d),
{
    let t = decimal_text(d.mantissa as nat);
    lemma_text_digits(d.mantissa as nat);
    let g = mantissa_digits(d);
    if t.len() <= d.scale {
        lemma_zeros_value((d.scale + 1 - t.len()) as nat, t);
    }
    assert(all_digits(g) && digits_value(g) == d.mantissa);
    let k = g.len() - d.scale;
    let s = decimal_to_text(d);
    let sign: Seq<char> = if d.negative { seq!['-'] } else { Seq::empty() };
    let rest: Seq<char> = if d.scale > 0 { seq!['.'] + g.skip(k) } else { Seq::empty() };
    let b = g.take(k) + rest;
    assert(s =~= sign + b);
    assert(is_digit(b[0]));
    assert(unsigned_part(s) =~= b);
    assert forall|j: int| 0 <= j < k implies b[j] != '.' by {
        assert(b[j] == g[j]);
    }
    if d.scale > 0 {
        assert(b[k] == '.');
        lemma_dot_index(b, k);
        assert(b.skip(k + 1) =~= g.skip(k));
    } else {
        lemma_dot_index(b, k);
        assert(g.skip(k) =~= Seq::<char>::empty());
    }
    assert(b.take(k) =~= g.take(k));
    assert(int_digits(s) + frac_digits(s) =~= g);
    assert forall|j: int| 0 <= j < int_digits(s).len() implies is_digit(#[trigger] int_digits(s)[j]) by {
        assert(int_digits(s)[j] == g[j]);
    }
    assert forall|j: int| 0 <= j < frac_digits(s).len() implies is_digit(#[trigger] frac_digits(s)[j]) by {
        assert(frac_digits(s)[j] == g[j + k]);
    }
    assert(s.len() > 0 && s[0] == '-' <==> d.negative);
}

/// The value under `key` in an object's fields: the first entry with that key.
pub open spec fn lookup(fields: Seq<(String, JsonValue)>, key: Seq<char>) -> Option<JsonValue>
    decreases fields.len(),
{
    if fields.len() == 0 {
        None
    } else if fields[0].0@ == key {
        Some(fields[0].1)
    } else {
        lookup(fields.skip(1), key)
    }
}

/// The text of a number, or of a string that carries a number.
pub open spec fn numeric_text(v: JsonValue) -> Option<Seq<char>> {
    match v {
        JsonValue::Number(t) => Some(t@),
        JsonValue::Str(t) => Some(t@),
        _ => None,
    }
}

pub open spec fn field_u64(m: Seq<(String, JsonValue)>, k: Seq<char>) -> Option<u64> {
    match lookup(m, k) {
        Some(v) => match numeric_text(v) {
            Some(t) => u64_of_text(t),
            None => None,
        },
        None => None,
    }
}

pub open spec fn field_i64(m: Seq<(String, JsonValue)>, k: Seq<char>) -> Option<i64> {
    match lookup(m, k) {
        Some(v) => match numeric_text(v) {
            Some(t) => i64_of_text(t),
            None => None,
        },
        None => None,
    }
}

pub open spec fn field_decimal(m: Seq<(String, JsonValue)>, k: Seq<char>) -> Option<Decimal> {
    match lookup(m, k) {
        Some(v) => match numeric_text(v) {
            Some(t) => decimal_of_text(t),
            None => None,
        },
        None => None,
    }
}

pub open spec fn field_text(m: Seq<(String, JsonValue)>, k: Seq<char>) -> Option<Seq<char>> {
    match lookup(m, k) {
        Some(JsonValue::Str(t)) => Some(t@),
        _ => None,
    }
}

/// An optional text: absent or null is `Some(None)`, a string is `Some(Some(_))`,
/// anything else fails.
pub open spec fn field_opt_text(m: Seq<(String, JsonValue)>, k: Seq<char>) -> Option<Option<Seq<char>>> {
    match lookup(m, k) {
        None => Some(None),
        Some(JsonValue::Null) => Some(None),
        Some(JsonValue::Str(t)) => Some(Some(t@)),
        _ => None,
    }
}

/// A flag: a boolean, `0` or `1` as a number or a string, or `"true"` / `"false"`.
pub open spec fn flag_of(v: JsonValue) -> Option<bool> {
    match v {
        JsonValue::Bool(b) => Some(b),
        JsonValue::Number(t) => if t@ == "0"@ {
            Some(false)
        } else if t@ == "1"@ {
            Some(true)
        } else {
            None
        },
        JsonValue::Str(t) => if t@ == "0"@ || t@ == "false"@ {
            Some(false)
        } else if t@ == "1"@ || t@ == "true"@ {
            Some(true)
        } else {
            None
        },
        _ => None,
    }
}

pub open spec fn field_flag(m: Seq<(String, JsonValue)>, k: Seq<char>) -> Option<bool> {
    match lookup(m, k) {
        Some(v) => flag_of(v),
        None => None,
    }
}

pub open spec fn field_object(m: Seq<(String, JsonValue)>, k: Seq<char>) -> Option<Seq<(String, JsonValue)>> {
    match lookup(m, k) {
        Some(JsonValue::Object(o)) => Some(o@),
        _ => None,
    }
}

pub open spec fn field_array(m: Seq<(String, JsonValue)>, k: Seq<char>) -> Option<Seq<JsonValue>> {
    match lookup(m, k) {
        Some(JsonValue::Array(a)) => Some(a@),
        _ => None,
    }
}

/// `e` reports the field `k` as missing or unreadable.
pub open spec fn names_field(e: DecodeError, k: Seq<char>) -> bool {
    e is FieldCoercion && e->field@ == k
}

pub fn coercion_error(k: &str) -> (e: DecodeError)
    ensures
        names_field(e, k@),
{
    DecodeError::FieldCoercion { field: String::from_str(k) }
}

/// Finds the value under `key`.
pub fn get<'a>(m: &'a Vec<(String, JsonValue)>, key: &str) -> (r: Option<&'a JsonValue>)
    ensures
        r matches Some(v) ==> lookup(m@, key@) == Some(*v),
        r is None ==> lookup(m@, key@) is None,
{
    let mut i: usize = 0;
    assert(m@.skip(0) =~= m@);
    while i < m.len()
        invariant
            0 <= i <= m@.len(),
            lookup(m@, key@) == lookup(m@.skip(i as int), key@),
        decreases m@.len() - i,
    {
        assert(m@.skip(i as int).skip(1) =~= m@.skip(i + 1));
        if text_is(m[i].0.as_str(), key) {
            return Some(&m[i].1);
        }
        i = i + 1;
    }
    None
}

fn numeric_of(v: &JsonValue) -> (r: Option<&str>)
    ensures
        r matches Some(t) ==> numeric_text(*v) == Some(t@),
        r is None ==> numeric_text(*v) is None,
{
    match v {
        JsonValue::Number(t) => Some(t.as_str()),
        JsonValue::Str(t) => Some(t.as_str()),
        _ => None,
    }
}

pub fn get_u64(m: &Vec<(String, JsonValue)>, k: &str) -> (r: Result<u64, DecodeError>)
    ensures
        r is Ok <==> field_u64(m@, k@) is Some,
        r matches Ok(n) ==> field_u64(m@, k@) == Some(n),
        r matches Err(e) ==> names_field(e, k@),
{
    match get(m, k) {
        Some(v) => match numeric_of(v) {
            Some(t) => match parse_u64(t) {
                Some(n) => Ok(n),
                None => Err(coercion_error(k)),
            },
            None => Err(coercion_error(k)),
        },
        None => Err(coercion_error(k)),
    }
}

pub fn get_i64(m: &Vec<(String, JsonValue)>, k: &str) -> (r: Result<i64, DecodeError>)
    ensures
        r is Ok <==> field_i64(m@, k@) is Some,
        r matches Ok(n) ==> field_i64(m@, k@) == Some(n),
        r matches Err(e) ==> names_field(e, k@),
{
    match get(m, k) {
        Some(v) => match numeric_of(v) {
            Some(t) => match parse_i64(t) {
                Some(n) => Ok(n),
                None => Err(coercion_error(k)),
            },
            None => Err(coercion_error(k)),
        },
        None => Err(coercion_error(k)),
    }
}

pub fn get_decimal(m: &Vec<(String, JsonValue)>, k: &str) -> (r: Result<Decimal, DecodeError>)
    ensures
        r is Ok <==> field_decimal(m@, k@) is Some,
        r matches Ok(d) ==> field_decimal(m@, k@) == Some(d),
        r matches Err(e) ==> names_field(e, k@),
{
    match get(m, k) {
        Some(v) => match numeric_of(v) {
            Some(t) => match parse_decimal(t) {
                Some(d) => Ok(d),
                None => Err(coercion_error(k)),
            },
            None => Err(coercion_error(k)),
        },
        None => Err(coercion_error(k)),
    }
}

pub fn get_text(m: &Vec<(String, JsonValue)>, k: &str) -> (r: Result<String, DecodeError>)
    ensures
        r is Ok <==> field_text(m@, k@) is Some,
        r matches Ok(t) ==> field_text(m@, k@) == Some(t@),
        r matches Err(e) ==> names_field(e, k@),
{
    match get(m, k) {
        Some(JsonValue::Str(t)) => Ok(t.clone()),
        _ => Err(coercion_error(k)),
    }
}

pub fn get_opt_text(m: &Vec<(String, JsonValue)>, k: &str) -> (r: Result<Option<String>, DecodeError>)
    ensures
        r is Ok <==> field_opt_text(m@, k@) is Some,
        r matches Ok(None) ==> field_opt_text(m@, k@) == Some(None::<Seq<char>>),
        r matches Ok(Some(t)) ==> field_opt_text(m@, k@) == Some(Some(t@)),
        r matches Err(e) ==> names_field(e, k@),
{
    match get(m, k) {
        None => Ok(None),
        Some(JsonValue::Null) => Ok(None),
        Some(JsonValue::Str(t)) => Ok(Some(t.clone())),
        _ => Err(coercion_error(k)),
    }
}

pub fn get_flag(m: &Vec<(String, JsonValue)>, k: &str) -> (r: Result<bool, DecodeError>)
    ensures
        r is Ok <==> field_flag(m@, k@) is Some,
        r matches Ok(b) ==> field_flag(m@, k@) == Some(b),
        r matches Err(e) ==> names_field(e, k@),
{
    match get(m, k) {
        Some(JsonValue::Bool(b)) => Ok(*b),
        Some(JsonValue::Number(t)) => if text_is(t.as_str(), "0") {
            Ok(false)
        } else if text_is(t.as_str(), "1") {
            Ok(true)
        } else {
            Err(coercion_error(k))
        },
        Some(JsonValue::Str(t)) => if text_is(t.as_str(), "0") || text_is(t.as_str(), "false") {
            Ok(false)
        } else if text_is(t.as_str(), "1") || text_is(t.as_str(), "true") {
            Ok(true)
        } else {
            Err(coercion_error(k))
        },
        _ => Err(coercion_error(k)),
    }
}

pub fn get_object<'a>(m: &'a Vec<(String, JsonValue)>, k: &str) -> (r: Result<&'a Vec<(String, JsonValue)>, DecodeError>)
    ensures
        r is Ok <==> field_object(m@, k@) is Some,
        r matches Ok(o) ==> field_object(m@, k@) == Some(o@),
        r matches Err(e) ==> names_field(e, k@),
{
    match get(m, k) {
        Some(JsonValue::Object(o)) => Ok(o),
        _ => Err(coercion_error(k)),
    }
}

pub fn get_array<'a>(m: &'a Vec<(String, JsonValue)>, k: &str) -> (r: Result<&'a Vec<JsonValue>, DecodeError>)
    ensures
        r is Ok <==> field_array(m@, k@) is Some,
        r matches Ok(a) ==> field_array(m@, k@) == Some(a@),
        r matches Err(e) ==> names_field(e, k@),
{
    match get(m, k) {
        Some(JsonValue::Array(a)) => Ok(a),
        _ => Err(coercion_error(k)),
    }
}

} // verus!
