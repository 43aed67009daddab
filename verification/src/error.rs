//! What can go wrong when amounts are merged or an intent is built.

use crate::amount::AmountSpec;
use crate::timestamp::Timestamp;
use vstd::prelude::*;

verus! {

/// The failures of the two validating operations. Each carries what is needed
/// to say precisely what was wrong.
#[derive(Debug, Clone, PartialEq, Eq)]
pub enum Error {
    /// Two amounts of different kinds, neither of them `Zero`, were merged.
    /// Holds the left and the right operand.
    IncompatibleAmountError(AmountSpec, AmountSpec),
    /// An intent was built with `before` earlier than `after`. Holds `before`
    /// and `after`.
    InvalidBeforeAfter(Timestamp, Timestamp),
    /// An intent for all tickers was built with an absolute amount.
    InvalidCombination,
}

} // verus!
