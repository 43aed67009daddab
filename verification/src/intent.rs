//! The finished position intent.

use crate::amount::AmountSpec;
use crate::builder::{BuilderView, PositionIntentBuilder};
use crate::decimal::Decimal;
use crate::id::IntentId;
use crate::policy::UpdatePolicy;
use crate::ticker::{TickerSpec, TickerView};
use crate::timestamp::Timestamp;
use vstd::prelude::*;

verus! {

/// A request to change a position, handed from a strategy to the order
/// manager. It is made once, by [`PositionIntentBuilder::build`], and never
/// changed afterwards.
#[derive(Debug, Clone, PartialEq)]
pub struct PositionIntent {
    /// The identifier of this intent, generated when it was built.
    pub id: IntentId,
    /// The strategy that asks for the position. Dollar limits are shared
    /// between all positions of one strategy.
    pub strategy: String,
    /// One leg of the strategy's position. Sub-strategies stay within the
    /// dollar limits of the strategy, but the order manager keeps track of
    /// the holdings of each.
    pub sub_strategy: Option<String>,
    /// When the intent was built.
    pub timestamp: Timestamp,
    /// What the intent applies to.
    pub ticker: TickerSpec,
    /// By how much the position is to change.
    pub amount: AmountSpec,
    /// How the intent is reconciled with a position that is already open.
    pub update_policy: UpdatePolicy,
    /// The price at which the strategy decided to send the intent.
    pub decision_price: Option<Decimal>,
    /// The limit price of the order.
    pub limit_price: Option<Decimal>,
    /// The stop price of the order.
    pub stop_price: Option<Decimal>,
    /// The end of the time in which the intent can be acted on.
    pub before: Option<Timestamp>,
    /// The start of the time in which the intent can be acted on.
    pub after: Option<Timestamp>,
}

/// A [`PositionIntent`] with its strings as sequences of characters.
pub struct IntentView {
    pub id: IntentId,
    pub strategy: Seq<char>,
    pub sub_strategy: Option<Seq<char>>,
    pub timestamp: Timestamp,
    pub ticker: TickerView,
    pub amount: AmountSpec,
    pub update_policy: UpdatePolicy,
    pub decision_price: Option<Decimal>,
    pub limit_price: Option<Decimal>,
    pub stop_price: Option<Decimal>,
    pub before: Option<Timestamp>,
    pub after: Option<Timestamp>,
}

impl View for PositionIntent {
    type V = IntentView;

    open spec fn view(&self) -> IntentView {
        IntentView {
            id: self.id,
            strategy: self.strategy@,
            sub_strategy: match self.sub_strategy {
                Some(s) => Some(s@),
                None => None,
            },
            timestamp: self.timestamp,
            ticker: self.ticker@,
            amount: self.amount,
            update_policy: self.update_policy,
            decision_price: self.decision_price,
            limit_price: self.limit_price,
            stop_price: self.stop_price,
            before: self.before,
            after: self.after,
        }
    }
}

impl IntentView {
    /// What every built intent satisfies: its window does not close before
    /// it opens, and it pairs "every ticker" with no absolute amount.
    pub open spec fn consistent(self) -> bool {
        &&& self.before is Some && self.after is Some ==> !self.before->0.precedes(self.after->0)
        &&& self.ticker.admits(self.amount)
    }
}

impl PositionIntent {
    /// Starts an intent of `strategy` for `ticker` and `amount`. Every
    /// optional field is unset and the update policy is `Update`.
    pub fn builder(strategy: &str, ticker: TickerSpec, amount: AmountSpec) -> (b:
        PositionIntentBuilder)
        ensures
            b@ == BuilderView::initial(strategy@, ticker@, amount),
    {
        PositionIntentBuilder::new(strategy, ticker, amount)
    }
}

} // verus!
