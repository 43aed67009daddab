//! The target of a position intent: one ticker symbol, or every ticker held.

use crate::amount::AmountSpec;
use vstd::prelude::*;

verus! {

/// What an intent applies to.
#[derive(Debug, Clone, PartialEq, Eq)]
pub enum TickerSpec {
    /// One ticker, by its symbol.
    Ticker(String),
    /// Every ticker that the strategy holds.
    All,
}

/// A [`TickerSpec`] with the symbol as a sequence of characters.
pub enum TickerView {
    Ticker(Seq<char>),
    All,
}

impl View for TickerSpec {
    type V = TickerView;

    open spec fn view(&self) -> TickerView {
        match self {
            TickerSpec::Ticker(symbol) => TickerView::Ticker(symbol@),
            TickerSpec::All => TickerView::All,
        }
    }
}

impl TickerView {
    /// Whether an intent may pair this target with `amount`.
    ///
    /// An absolute amount of dollars or shares has no meaning for "every
    /// ticker"; every other pairing is allowed.
    pub open spec fn admits(self, amount: AmountSpec) -> bool {
        !(self is All && amount.is_absolute())
    }
}

impl TickerSpec {
    /// Whether an intent may pair this target with `amount`. The table is
    /// written out in full, one line for each pairing.
    pub(crate) fn admits(&self, amount: &AmountSpec) -> (b: bool)
        ensures
            b == self@.admits(*amount),
    {
        match (self, amount) {
            (TickerSpec::All, AmountSpec::Dollars(_)) => false,
            (TickerSpec::All, AmountSpec::Shares(_)) => false,
            (TickerSpec::All, AmountSpec::Percent(_)) => true,
            (TickerSpec::All, AmountSpec::Zero) => true,
            (TickerSpec::Ticker(_), AmountSpec::Dollars(_)) => true,
            (TickerSpec::Ticker(_), AmountSpec::Shares(_)) => true,
            (TickerSpec::Ticker(_), AmountSpec::Percent(_)) => true,
            (TickerSpec::Ticker(_), AmountSpec::Zero) => true,
        }
    }
}

impl From<&str> for TickerSpec {
    /// The ticker with the given symbol.
    fn from(symbol: &str) -> (t: TickerSpec)
        ensures
            t@ == TickerView::Ticker(symbol@),
    {
        TickerSpec::Ticker(symbol.to_owned())
    }
}

impl vstd::std_specs::convert::FromSpecImpl<&str> for TickerSpec {
    open spec fn obeys_from_spec() -> bool {
        false
    }

    open spec fn from_spec(symbol: &str) -> TickerSpec {
        arbitrary()
    }
}

impl From<String> for TickerSpec {
    /// The ticker with the given symbol.
    fn from(symbol: String) -> (t: TickerSpec) {
        TickerSpec::Ticker(symbol)
    }
}

impl vstd::std_specs::convert::FromSpecImpl<String> for TickerSpec {
    open spec fn obeys_from_spec() -> bool {
        true
    }

    open spec fn from_spec(symbol: String) -> TickerSpec {
        TickerSpec::Ticker(symbol)
    }
}

} // verus!
