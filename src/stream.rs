//! Stream names and the addresses that subscribe to them.
use vstd::prelude::*;
use crate::text::{decimal_text, lower_ascii, lower_char, lower_text, push_char, push_decimal};

verus! {

/// Why a connection could not be opened.
#[derive(Clone, Copy, Debug, PartialEq, Eq, Structural)]
pub enum ConnectError {
    /// The transport's handshake failed.
    Handshake,
    /// A stream name is empty, or no stream was named.
    InvalidTarget,
}

fn push_str(out: &mut String, s: &str)
    ensures
        final(out)@ == old(out)@ + s@,
{
    out.append(s);
}

fn push_lower(out: &mut String, s: &str)
    ensures
        final(out)@ == old(out)@ + lower_text(s@),
{
    let ghost start = out@;
    let n = s.unicode_len();
    let mut i: usize = 0;
    while i < n
        invariant
            0 <= i <= n == s@.len(),
            out@ == start + lower_text(s@.take(i as int)),
        decreases n - i,
    {
        let c = s.get_char(i);
        push_char(out, lower_ascii(c));
        assert(lower_text(s@.take(i + 1)) =~= lower_text(s@.take(i as int)).push(lower_char(c)));
        i = i + 1;
    }
    assert(s@.take(n as int) =~= s@);
}

/// `<symbol>@depth<levels>@<interval>ms`, the symbol in lower case.
pub fn partial_book_depth_stream(symbol: &str, levels: u64, interval_ms: u64) -> (r: String)
    ensures
        r@ == lower_text(symbol@) + "@depth"@ + decimal_text(levels as nat) + "@"@
            + decimal_text(interval_ms as nat) + "ms"@,
{
    let mut out = String::new();
    push_lower(&mut out, symbol);
    push_str(&mut out, "@depth");
    push_decimal(&mut out, levels);
    push_str(&mut out, "@");
    push_decimal(&mut out, interval_ms);
    push_str(&mut out, "ms");
    out
}

/// `<symbol>@<channel>`, the symbol in lower case.
pub fn symbol_stream(symbol: &str, channel: &str) -> (r: String)
    ensures
        r@ == lower_text(symbol@) + "@"@ + channel@,
{
    let mut out = String::new();
    push_lower(&mut out, symbol);
    push_str(&mut out, "@");
    push_str(&mut out, channel);
    out
}

pub fn agg_trade_stream(symbol: &str) -> (r: String)
    ensures
        r@ == lower_text(symbol@) + "@"@ + "aggTrade"@,
{
    symbol_stream(symbol, "aggTrade")
}

pub fn trade_stream(symbol: &str) -> (r: String)
    ensures
        r@ == lower_text(symbol@) + "@"@ + "trade"@,
{
    symbol_stream(symbol, "trade")
}

pub fn book_ticker_stream(symbol: &str) -> (r: String)
    ensures
        r@ == lower_text(symbol@) + "@"@ + "bookTicker"@,
{
    symbol_stream(symbol, "bookTicker")
}

/// `<symbol>@kline_<interval>`.
pub fn kline_stream(symbol: &str, interval: &str) -> (r: String)
    ensures
        r@ == lower_text(symbol@) + "@kline_"@ + interval@,
{
    let mut out = String::new();
    push_lower(&mut out, symbol);
    push_str(&mut out, "@kline_");
    push_str(&mut out, interval);
    out
}

/// The stream of every symbol's rolling statistics.
pub fn all_ticker_stream() -> (r: String)
    ensures
        r@ == "!ticker@arr"@,
{
    String::from_str("!ticker@arr")
}

/// The stream of every symbol's condensed rolling statistics.
pub fn all_mini_ticker_stream() -> (r: String)
    ensures
        r@ == "!miniTicker@arr"@,
{
    String::from_str("!miniTicker@arr")
}

/// The names joined by `/`.
pub open spec fn joined(names: Seq<Seq<char>>) -> Seq<char>
    decreases names.len(),
{
    if names.len() == 0 {
        Seq::empty()
    } else if names.len() == 1 {
        names[0]
    } else {
        joined(names.drop_last()) + "/"@ + names.last()
    }
}

pub open spec fn views(names: Seq<String>) -> Seq<Seq<char>> {
    names.map_values(|s: String| s@)
}

/// The address of a single stream: `<base>/<name>`.
pub fn stream_address(base: &str, name: &str) -> (r: Result<String, ConnectError>)
    ensures
        name@.len() == 0 <==> r is Err,
        r matches Err(e) ==> e == ConnectError::InvalidTarget,
        r matches Ok(a) ==> a@ == base@ + "/"@ + name@,
{
    if name.unicode_len() == 0 {
        return Err(ConnectError::InvalidTarget);
    }
    let mut out = String::new();
    push_str(&mut out, base);
    push_str(&mut out, "/");
    push_str(&mut out, name);
    Ok(out)
}

/// The address of a combined stream: `<base>/stream?streams=<name1>/<name2>/...`.
pub fn combined_stream_address(base: &str, names: &Vec<String>) -> (r: Result<String, ConnectError>)
    ensures
        r is Err <==> (names@.len() == 0 || exists|i: int| 0 <= i < names@.len() && (#[trigger] names@[i])@.len() == 0),
        r matches Err(e) ==> e == ConnectError::InvalidTarget,
        r matches Ok(a) ==> a@ == base@ + "/stream?streams="@ + joined(views(names@)),
{
    if names.len() == 0 {
        return Err(ConnectError::InvalidTarget);
    }
    let mut out = String::new();
    push_str(&mut out, base);
    push_str(&mut out, "/stream?streams=");
    let ghost head = out@;
    let mut i: usize = 0;
    while i < names.len()
        invariant
            0 <= i <= names@.len(),
            names@.len() > 0,
            forall|j: int| 0 <= j < i ==> (#[trigger] names@[j])@.len() > 0,
            out@ == head + joined(views(names@.take(i as int))),
        decreases names@.len() - i,
    {
        if names[i].unicode_len() == 0 {
            return Err(ConnectError::InvalidTarget);
        }
        let ghost before = views(names@.take(i as int));
        let ghost after = views(names@.take(i + 1));
        assert(after.drop_last() =~= before);
        if i > 0 {
            push_str(&mut out, "/");
        }
        push_str(&mut out, names[i].as_str());
        assert(out@ =~= head + joined(after));
        i = i + 1;
    }
    assert(names@.take(names@.len() as int) =~= names@);
    Ok(out)
}

} // verus!
