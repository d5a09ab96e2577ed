//! Metrics-forwarding agent core: samples a fixed schema of counters from a
//! nested status document, turns cumulative counters into per-interval deltas,
//! and encodes the result into the vendor JSON envelope.

pub mod config;
pub mod driver;
pub mod newrelic;
pub mod stats;
pub mod status;
pub mod text;

use vstd::prelude::*;

verus! {

/// A decimal number with exactly six fractional digits, stored as a signed
/// count of millionths. Fractional status fields (byte counters, the index
/// miss ratio) are held in this exact form.
#[derive(Debug, Clone, Copy, PartialEq, Eq, Structural)]
pub struct Decimal6 {
    pub millionths: i64,
}

} // verus!
