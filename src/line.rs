//! Lines are the unit of the wire format: UTF-8 bytes ending in a newline.
//! This module builds the lines that the producer publishes.

use vstd::prelude::*;

verus! {

/// The newline that ends every line.
pub open spec fn newline() -> Seq<u8> {
    seq![10u8]
}

/// The start of the line sent when a fetch fails.
pub open spec fn error_prefix() -> Seq<u8> {
    seq![69u8, 114u8, 114u8, 111u8, 114u8, 32u8, 102u8, 101u8, 116u8, 99u8, 104u8, 105u8, 110u8, 103u8, 32u8, 112u8, 114u8, 105u8, 99u8, 101u8, 58u8, 32u8]
}

fn error_prefix_bytes() -> (r: Vec<u8>)
    ensures
        r@ == error_prefix(),
{
    let r: Vec<u8> = vec![69u8, 114u8, 114u8, 111u8, 114u8, 32u8, 102u8, 101u8, 116u8, 99u8, 104u8, 105u8, 110u8, 103u8, 32u8, 112u8, 114u8, 105u8, 99u8, 101u8, 58u8, 32u8];
    proof { assert(r@ =~= error_prefix()); }
    r
}

/// The start of a quote line, before the symbol.
pub open spec fn quote_prefix() -> Seq<u8> {
    seq![83u8, 116u8, 111u8, 99u8, 107u8, 32u8, 112u8, 114u8, 105u8, 99u8, 101u8, 32u8, 40u8]
}

fn quote_prefix_bytes() -> (r: Vec<u8>)
    ensures
        r@ == quote_prefix(),
{
    let r: Vec<u8> = vec![83u8, 116u8, 111u8, 99u8, 107u8, 32u8, 112u8, 114u8, 105u8, 99u8, 101u8, 32u8, 40u8];
    proof { assert(r@ =~= quote_prefix()); }
    r
}

/// What stands between the symbol and the price of a quote line.
pub open spec fn quote_infix() -> Seq<u8> {
    seq![41u8, 58u8, 32u8]
}

fn quote_infix_bytes() -> (r: Vec<u8>)
    ensures
        r@ == quote_infix(),
{
    let r: Vec<u8> = vec![41u8, 58u8, 32u8];
    proof { assert(r@ =~= quote_infix()); }
    r
}

/// What stands between the symbol and the reason of a parse error line.
pub open spec fn parse_error_infix() -> Seq<u8> {
    seq![41u8, 58u8, 32u8, 80u8, 97u8, 114u8, 115u8, 101u8, 32u8, 69u8, 114u8, 114u8, 111u8, 114u8, 32u8, 45u8, 32u8]
}

fn parse_error_infix_bytes() -> (r: Vec<u8>)
    ensures
        r@ == parse_error_infix(),
{
    let r: Vec<u8> = vec![41u8, 58u8, 32u8, 80u8, 97u8, 114u8, 115u8, 101u8, 32u8, 69u8, 114u8, 114u8, 111u8, 114u8, 32u8, 45u8, 32u8];
    proof { assert(r@ =~= parse_error_infix()); }
    r
}

/// The start of the line sent before any value was produced.
pub open spec fn placeholder_prefix() -> Seq<u8> {
    seq![83u8, 116u8, 111u8, 99u8, 107u8, 32u8, 80u8, 114u8, 105u8, 99u8, 101u8, 32u8, 40u8]
}

fn placeholder_prefix_bytes() -> (r: Vec<u8>)
    ensures
        r@ == placeholder_prefix(),
{
    let r: Vec<u8> = vec![83u8, 116u8, 111u8, 99u8, 107u8, 32u8, 80u8, 114u8, 105u8, 99u8, 101u8, 32u8, 40u8];
    proof { assert(r@ =~= placeholder_prefix()); }
    r
}

/// The end of the line sent before any value was produced, before the newline.
pub open spec fn placeholder_suffix() -> Seq<u8> {
    seq![41u8, 58u8, 32u8, 73u8, 110u8, 105u8, 116u8, 105u8, 97u8, 108u8, 105u8, 122u8, 105u8, 110u8, 103u8]
}

fn placeholder_suffix_bytes() -> (r: Vec<u8>)
    ensures
        r@ == placeholder_suffix(),
{
    let r: Vec<u8> = vec![41u8, 58u8, 32u8, 73u8, 110u8, 105u8, 116u8, 105u8, 97u8, 108u8, 105u8, 122u8, 105u8, 110u8, 103u8];
    proof { assert(r@ =~= placeholder_suffix()); }
    r
}

/// The start of a generated price line.
pub open spec fn synthetic_prefix() -> Seq<u8> {
    seq![83u8, 116u8, 111u8, 99u8, 107u8, 32u8, 80u8, 114u8, 105u8, 99u8, 101u8, 58u8, 32u8]
}

fn synthetic_prefix_bytes() -> (r: Vec<u8>)
    ensures
        r@ == synthetic_prefix(),
{
    let r: Vec<u8> = vec![83u8, 116u8, 111u8, 99u8, 107u8, 32u8, 80u8, 114u8, 105u8, 99u8, 101u8, 58u8, 32u8];
    proof { assert(r@ =~= synthetic_prefix()); }
    r
}

/// Returns a fresh vector holding the same bytes.
pub fn copy_line(v: &Vec<u8>) -> (r: Vec<u8>)
    ensures
        r@ == v@,
{
    let mut r: Vec<u8> = Vec::new();
    append(&mut r, v);
    r
}

/// Appends the bytes of `b` to `out`.
pub fn append(out: &mut Vec<u8>, b: &Vec<u8>)
    ensures
        final(out)@ == old(out)@ + b@,
{
    let ghost start = out@;
    let mut i: usize = 0;
    while i < b.len()
        invariant
            i <= b@.len(),
            out@ == start + b@.subrange(0, i as int),
        decreases b@.len() - i,
    {
        out.push(b[i]);
        i = i + 1;
        assert(out@ =~= start + b@.subrange(0, i as int));
    }
    assert(b@.subrange(0, b@.len() as int) =~= b@);
}

/// The decimal digits of `n`, most significant first, without leading zeros.
pub open spec fn decimal(n: nat) -> Seq<u8>
    decreases n,
{
    if n < 10 {
        seq![(48 + n) as u8]
    } else {
        decimal(n / 10).push((48 + n % 10) as u8)
    }
}

/// Writes `n` in decimal.
pub fn decimal_bytes(n: u64) -> (r: Vec<u8>)
    ensures
        r@ == decimal(n as nat),
    decreases n,
{
    if n < 10 {
        let r: Vec<u8> = vec![(48 + n) as u8];
        assert(r@ =~= decimal(n as nat));
        r
    } else {
        let mut r = decimal_bytes(n / 10);
        r.push((48 + n % 10) as u8);
        r
    }
}

/// An amount in hundredths written with two decimals: `12345` is `123.45`.
pub open spec fn hundredths(n: nat) -> Seq<u8> {
    decimal(n / 100) + seq![46u8, (48 + (n % 100) / 10) as u8, (48 + n % 10) as u8]
}

/// Writes an amount in hundredths with two decimals.
pub fn hundredths_bytes(n: u64) -> (r: Vec<u8>)
    ensures
        r@ == hundredths(n as nat),
{
    let mut r = decimal_bytes(n / 100);
    let tail: Vec<u8> = vec![46u8, (48 + (n % 100) / 10) as u8, (48 + n % 10) as u8];
    append(&mut r, &tail);
    assert(tail@ =~= seq![46u8, (48 + (n as nat % 100) / 10) as u8, (48 + n as nat % 10) as u8]);
    r
}

/// The line sent when fetching a value failed for `reason`.
pub open spec fn error_line(reason: Seq<u8>) -> Seq<u8> {
    error_prefix() + reason + newline()
}

/// The line for a quote of `symbol` at the price written `price`.
pub open spec fn quote_line(symbol: Seq<u8>, price: Seq<u8>) -> Seq<u8> {
    quote_prefix() + symbol + quote_infix() + price + newline()
}

/// The line for a reply on `symbol` that could not be read, for `reason`.
pub open spec fn parse_error_line(symbol: Seq<u8>, reason: Seq<u8>) -> Seq<u8> {
    quote_prefix() + symbol + parse_error_infix() + reason + newline()
}

/// The line sent to consumers before any value was produced.
pub open spec fn placeholder_line(symbol: Seq<u8>) -> Seq<u8> {
    placeholder_prefix() + symbol + placeholder_suffix() + newline()
}

/// The line for a generated price of `cents` hundredths.
pub open spec fn synthetic_line(cents: nat) -> Seq<u8> {
    synthetic_prefix() + hundredths(cents) + newline()
}

fn newline_bytes() -> (r: Vec<u8>)
    ensures
        r@ == newline(),
{
    let r: Vec<u8> = vec![10u8];
    assert(r@ =~= newline());
    r
}

/// Builds the line sent when fetching a value failed for `reason`.
pub fn make_error_line(reason: &Vec<u8>) -> (r: Vec<u8>)
    ensures
        r@ == error_line(reason@),
{
    let mut r = error_prefix_bytes();
    append(&mut r, reason);
    append(&mut r, &newline_bytes());
    r
}

/// Builds the line for a quote of `symbol` at the price written `price`.
pub fn make_quote_line(symbol: &Vec<u8>, price: &Vec<u8>) -> (r: Vec<u8>)
    ensures
        r@ == quote_line(symbol@, price@),
{
    let mut r = quote_prefix_bytes();
    append(&mut r, symbol);
    append(&mut r, &quote_infix_bytes());
    append(&mut r, price);
    append(&mut r, &newline_bytes());
    r
}

/// Builds the line for a reply on `symbol` that could not be read.
pub fn make_parse_error_line(symbol: &Vec<u8>, reason: &Vec<u8>) -> (r: Vec<u8>)
    ensures
        r@ == parse_error_line(symbol@, reason@),
{
    let mut r = quote_prefix_bytes();
    append(&mut r, symbol);
    append(&mut r, &parse_error_infix_bytes());
    append(&mut r, reason);
    append(&mut r, &newline_bytes());
    r
}

/// Builds the line sent before any value was produced.
pub fn make_placeholder_line(symbol: &Vec<u8>) -> (r: Vec<u8>)
    ensures
        r@ == placeholder_line(symbol@),
{
    let mut r = placeholder_prefix_bytes();
    append(&mut r, symbol);
    append(&mut r, &placeholder_suffix_bytes());
    append(&mut r, &newline_bytes());
    r
}

/// Builds the line for a generated price of `cents` hundredths.
pub fn make_synthetic_line(cents: u64) -> (r: Vec<u8>)
    ensures
        r@ == synthetic_line(cents as nat),
{
    let mut r = synthetic_prefix_bytes();
    append(&mut r, &hundredths_bytes(cents));
    append(&mut r, &newline_bytes());
    r
}

/// An error line can be told from every quote, parse error and generated
/// line by its first byte.
pub proof fn lemma_error_line_distinguishable(reason: Seq<u8>, symbol: Seq<u8>, text: Seq<u8>, cents: nat)
    ensures
        error_line(reason)[0] == 69u8,
        quote_line(symbol, text)[0] == 83u8,
        parse_error_line(symbol, text)[0] == 83u8,
        synthetic_line(cents)[0] == 83u8,
        error_line(reason) != quote_line(symbol, text),
        error_line(reason) != parse_error_line(symbol, text),
        error_line(reason) != synthetic_line(cents),
{
    assert(error_line(reason)[0] == error_prefix()[0]);
    assert(quote_line(symbol, text)[0] == quote_prefix()[0]);
    assert(parse_error_line(symbol, text)[0] == quote_prefix()[0]);
    assert(synthetic_line(cents)[0] == synthetic_prefix()[0]);
}

} // verus!
