//! A verified currency-conversion core: a store of directional
//! exchange-rate records and the resolver that decides, for each
//! conversion request, whether a cached rate is fresh enough to reuse,
//! which stale record to drop, and what an external rate fetch must be
//! asked for.  Rates are exact fractions, so the reverse direction of a
//! pair is the exact reciprocal and a round trip returns the original
//! value.

pub mod amounts;
pub mod bytes;
pub mod resolve;
pub mod store;
pub mod suggest;

pub use amounts::Amount;
pub use amounts::Rate;
pub use amounts::WideAmount;
