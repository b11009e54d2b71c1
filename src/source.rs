//! The producer side: turning what the value source yields into lines.

use vstd::prelude::*;
use crate::hub::{update_spec, Hub};
use crate::line::{
    error_line, make_error_line, make_parse_error_line, make_quote_line, make_synthetic_line,
    parse_error_line, quote_line, synthetic_line,
};

verus! {

/// Lowest generated price, in hundredths.
pub const SYNTHETIC_LOW: u64 = 10000;

/// Generated prices stay below this, in hundredths.
pub const SYNTHETIC_HIGH: u64 = 20000;

/// What one fetch from the remote quote service came to.
pub enum FetchOutcome {
    /// A quote whose price is written `price`.
    Quote { price: Vec<u8> },
    /// A reply came but could not be read as a quote, for `reason`.
    Unreadable { reason: Vec<u8> },
    /// The request failed, for `reason`.
    Failed { reason: Vec<u8> },
}

/// The line published for a fetch outcome on `symbol`.
pub open spec fn outcome_line(symbol: Seq<u8>, outcome: FetchOutcome) -> Seq<u8> {
    match outcome {
        FetchOutcome::Quote { price } => quote_line(symbol, price@),
        FetchOutcome::Unreadable { reason } => parse_error_line(symbol, reason@),
        FetchOutcome::Failed { reason } => error_line(reason@),
    }
}

/// Builds the line published for a fetch outcome on `symbol`. A failed
/// fetch becomes an error line, so that consumers see it.
pub fn make_outcome_line(symbol: &Vec<u8>, outcome: &FetchOutcome) -> (r: Vec<u8>)
    ensures
        r@ == outcome_line(symbol@, *outcome),
{
    match outcome {
        FetchOutcome::Quote { price } => make_quote_line(symbol, price),
        FetchOutcome::Unreadable { reason } => make_parse_error_line(symbol, reason),
        FetchOutcome::Failed { reason } => make_error_line(reason),
    }
}

/// Relies on rand::random_range: on a non-empty range `low..high` it returns
/// a value `r` with `low <= r < high` (it panics on an empty range).
#[verifier::external_body]
fn random_below(low: u64, high: u64) -> (r: u64)
    requires
        low < high,
    ensures
        low <= r < high,
{
    rand::random_range(low..high)
}

/// Generates the line for a random price between 100.00 and 199.99.
pub fn next_synthetic_line() -> (r: Vec<u8>)
    ensures
        exists|cents: nat| SYNTHETIC_LOW <= cents < SYNTHETIC_HIGH && r@ == synthetic_line(cents),
{
    let cents = random_below(SYNTHETIC_LOW, SYNTHETIC_HIGH);
    make_synthetic_line(cents)
}

/// One cycle of the producer fed by the remote quote service: the outcome
/// of the fetch becomes a line, which is cached and then published. A
/// failed fetch is published as an error line.
pub fn produce_from_fetch(hub: &mut Hub, symbol: &Vec<u8>, outcome: &FetchOutcome)
    requires
        old(hub).wf(),
        old(hub)@.channel.history.len() < u64::MAX,
    ensures
        final(hub).wf(),
        final(hub)@ == update_spec(old(hub)@, outcome_line(symbol@, *outcome)),
{
    let line = make_outcome_line(symbol, outcome);
    hub.update(&line);
}

/// One cycle of the producer fed by the generator: a random price line is
/// cached and then published.
pub fn produce_synthetic(hub: &mut Hub)
    requires
        old(hub).wf(),
        old(hub)@.channel.history.len() < u64::MAX,
    ensures
        final(hub).wf(),
        exists|cents: nat| SYNTHETIC_LOW <= cents < SYNTHETIC_HIGH
            && final(hub)@ == update_spec(old(hub)@, synthetic_line(cents)),
{
    let line = next_synthetic_line();
    hub.update(&line);
}

} // verus!
