//! Collects the fields of a position intent and validates them.

use crate::amount::AmountSpec;
use crate::decimal::Decimal;
use crate::error::Error;
use crate::id::IntentId;
use crate::intent::{IntentView, PositionIntent};
use crate::policy::UpdatePolicy;
use crate::ticker::{TickerSpec, TickerView};
use crate::timestamp::{Timestamp, NANOS_PER_SEC};
use vstd::prelude::*;

verus! {

/// The fields of an intent that is being put together.
///
/// Strategy, ticker and amount are fixed when the builder is made. Each
/// setter records one optional field and overwrites what was recorded before.
/// [`PositionIntentBuilder::build`] consumes the builder.
#[derive(Debug, Clone)]
pub struct PositionIntentBuilder {
    strategy: String,
    sub_strategy: Option<String>,
    ticker: TickerSpec,
    amount: AmountSpec,
    update_policy: UpdatePolicy,
    decision_price: Option<Decimal>,
    limit_price: Option<Decimal>,
    stop_price: Option<Decimal>,
    before: Option<Timestamp>,
    after: Option<Timestamp>,
}

/// A [`PositionIntentBuilder`] with its strings as sequences of characters.
pub struct BuilderView {
    pub strategy: Seq<char>,
    pub sub_strategy: Option<Seq<char>>,
    pub ticker: TickerView,
    pub amount: AmountSpec,
    pub update_policy: UpdatePolicy,
    pub decision_price: Option<Decimal>,
    pub limit_price: Option<Decimal>,
    pub stop_price: Option<Decimal>,
    pub before: Option<Timestamp>,
    pub after: Option<Timestamp>,
}

impl View for PositionIntentBuilder {
    type V = BuilderView;

    closed spec fn view(&self) -> BuilderView {
        BuilderView {
            strategy: self.strategy@,
            sub_strategy: match self.sub_strategy {
                Some(s) => Some(s@),
                None => None,
            },
            ticker: self.ticker@,
            amount: self.amount,
            update_policy: self.update_policy,
            decision_price: self.decision_price,
            limit_price: self.limit_price,
            stop_price: self.stop_price,
            before: self.before,
            after: self.after,
        }
    }
}

impl BuilderView {
    /// A builder to which nothing optional has been given yet.
    pub open spec fn initial(strategy: Seq<char>, ticker: TickerView, amount: AmountSpec) -> Self {
        BuilderView {
            strategy,
            sub_strategy: None,
            ticker,
            amount,
            update_policy: UpdatePolicy::Update,
            decision_price: None,
            limit_price: None,
            stop_price: None,
            before: None,
            after: None,
        }
    }

    /// Whether both ends of the window are set and `before` is earlier than
    /// `after`.
    pub open spec fn window_inverted(self) -> bool {
        self.before is Some && self.after is Some && self.before->0.precedes(self.after->0)
    }

    /// Why the fields make no valid intent: `None` if they do. The window is
    /// checked first, then the pairing of ticker and amount.
    pub open spec fn violation(self) -> Option<Error> {
        if self.window_inverted() {
            Some(Error::InvalidBeforeAfter(self.before->0, self.after->0))
        } else if !self.ticker.admits(self.amount) {
            Some(Error::InvalidCombination)
        } else {
            None
        }
    }

    /// The intent with these fields, the identifier `id` and the creation
    /// time `timestamp`.
    pub open spec fn intent(self, id: IntentId, timestamp: Timestamp) -> IntentView {
        IntentView {
            id,
            strategy: self.strategy,
            sub_strategy: self.sub_strategy,
            timestamp,
            ticker: self.ticker,
            amount: self.amount,
            update_policy: self.update_policy,
            decision_price: self.decision_price,
            limit_price: self.limit_price,
            stop_price: self.stop_price,
            before: self.before,
            after: self.after,
        }
    }

    /// What building gives with the identifier `id` at the time `timestamp`.
    pub open spec fn outcome(self, id: IntentId, timestamp: Timestamp) -> Result<IntentView, Error> {
        match self.violation() {
            Some(e) => Err(e),
            None => Ok(self.intent(id, timestamp)),
        }
    }
}

impl PositionIntentBuilder {
    /// A builder for `strategy`, `ticker` and `amount` with every optional
    /// field unset and the update policy `Update`.
    pub(crate) fn new(strategy: &str, ticker: TickerSpec, amount: AmountSpec) -> (b: Self)
        ensures
            b@ == BuilderView::initial(strategy@, ticker@, amount),
    {
        PositionIntentBuilder {
            strategy: strategy.to_owned(),
            sub_strategy: None,
            ticker,
            amount,
            update_policy: UpdatePolicy::Update,
            decision_price: None,
            limit_price: None,
            stop_price: None,
            before: None,
            after: None,
        }
    }

    /// Sets the sub-strategy.
    pub fn sub_strategy(self, sub_strategy: &str) -> (b: Self)
        ensures
            b@ == (BuilderView { sub_strategy: Some(sub_strategy@), ..self@ }),
    {
        let mut b = self;
        b.sub_strategy = Some(sub_strategy.to_owned());
        b
    }

    /// Sets the price at which the decision was made.
    pub fn decision_price(self, decision_price: Decimal) -> (b: Self)
        ensures
            b@ == (BuilderView { decision_price: Some(decision_price), ..self@ }),
    {
        let mut b = self;
        b.decision_price = Some(decision_price);
        b
    }

    /// Sets the limit price.
    pub fn limit_price(self, limit_price: Decimal) -> (b: Self)
        ensures
            b@ == (BuilderView { limit_price: Some(limit_price), ..self@ }),
    {
        let mut b = self;
        b.limit_price = Some(limit_price);
        b
    }

    /// Sets the stop price.
    pub fn stop_price(self, stop_price: Decimal) -> (b: Self)
        ensures
            b@ == (BuilderView { stop_price: Some(stop_price), ..self@ }),
    {
        let mut b = self;
        b.stop_price = Some(stop_price);
        b
    }

    /// Sets the end of the window in which the intent can be acted on.
    pub fn before(self, before: Timestamp) -> (b: Self)
        ensures
            b@ == (BuilderView { before: Some(before), ..self@ }),
    {
        let mut b = self;
        b.before = Some(before);
        b
    }

    /// Sets the start of the window in which the intent can be acted on.
    pub fn after(self, after: Timestamp) -> (b: Self)
        ensures
            b@ == (BuilderView { after: Some(after), ..self@ }),
    {
        let mut b = self;
        b.after = Some(after);
        b
    }

    /// Sets the update policy.
    pub fn update_policy(self, policy: UpdatePolicy) -> (b: Self)
        ensures
            b@ == (BuilderView { update_policy: policy, ..self@ }),
    {
        let mut b = self;
        b.update_policy = policy;
        b
    }

    /// Checks the fields: the window first, then ticker and amount.
    fn check(&self) -> (r: Option<Error>)
        ensures
            r == self@.violation(),
    {
        if let Some(before) = self.before {
            if let Some(after) = self.after {
                if before.is_before(&after) {
                    return Some(Error::InvalidBeforeAfter(before, after));
                }
            }
        }
        if !self.ticker.admits(&self.amount) {
            return Some(Error::InvalidCombination);
        }
        None
    }

    /// Moves the fields into an intent.
    fn assemble(self, id: IntentId, timestamp: Timestamp) -> (p: PositionIntent)
        ensures
            p@ == self@.intent(id, timestamp),
    {
        PositionIntent {
            id,
            strategy: self.strategy,
            sub_strategy: self.sub_strategy,
            timestamp,
            ticker: self.ticker,
            amount: self.amount,
            update_policy: self.update_policy,
            decision_price: self.decision_price,
            limit_price: self.limit_price,
            stop_price: self.stop_price,
            before: self.before,
            after: self.after,
        }
    }

    /// Validates the fields and makes the intent with the given identifier
    /// and creation time.
    ///
    /// Fails exactly when the fields violate a rule, with the error of the
    /// first rule violated. Otherwise the intent holds the fields as they were
    /// given.
    pub fn build_with(self, id: IntentId, timestamp: Timestamp) -> (r: Result<PositionIntent, Error>)
        ensures
            match self@.outcome(id, timestamp) {
                Ok(v) => r matches Ok(p) && p@ == v && p@.consistent(),
                Err(e) => r == Err::<PositionIntent, Error>(e),
            },
    {
        match self.check() {
            Some(e) => Err(e),
            None => Ok(self.assemble(id, timestamp)),
        }
    }

    /// Validates the fields and makes the intent, with a fresh identifier and
    /// the current time as its creation time.
    ///
    /// Fails exactly when the fields violate a rule, with the error of the
    /// first rule violated. Otherwise the intent holds the fields as they were
    /// given, whatever identifier and time it received.
    pub fn build(self) -> (r: Result<PositionIntent, Error>)
        ensures
            match self@.violation() {
                Some(e) => r == Err::<PositionIntent, Error>(e),
                None => {
                    &&& r matches Ok(p)
                    &&& p@ == self@.intent(p.id, p.timestamp)
                    &&& p@.consistent()
                    &&& p.id.is_random()
                    &&& 0 <= p.timestamp.secs
                    &&& p.timestamp.nanos < NANOS_PER_SEC
                },
            },
    {
        // The generator and the clock are asked only for fields that are valid.
        match self.check() {
            Some(e) => Err(e),
            None => {
                let id = IntentId::fresh();
                let timestamp = Timestamp::now();
                self.build_with(id, timestamp)
            },
        }
    }
}

/// A window whose `before` is strictly earlier than its `after` is rejected,
/// and the error holds the two instants. Nothing else about the fields
/// matters: this check comes first.
pub proof fn lemma_inverted_window_is_rejected(
    b: BuilderView,
    before: Timestamp,
    after: Timestamp,
    id: IntentId,
    timestamp: Timestamp,
)
    requires
        b.before == Some(before),
        b.after == Some(after),
        before.precedes(after),
    ensures
        b.violation() == Some(Error::InvalidBeforeAfter(before, after)),
        b.outcome(id, timestamp) == Err::<IntentView, Error>(
            Error::InvalidBeforeAfter(before, after),
        ),
{
}

/// A window passes its check when an end of it is unset, or when `before` is
/// not earlier than `after`: building then never fails on account of the
/// window.
pub proof fn lemma_other_windows_pass(b: BuilderView)
    requires
        b.before is None || b.after is None || !b.before->0.precedes(b.after->0),
    ensures
        !b.window_inverted(),
        !(b.violation() matches Some(Error::InvalidBeforeAfter(_, _))),
        b.violation() is Some <==> !b.ticker.admits(b.amount),
{
}

/// An intent for every ticker with an amount in dollars or shares is
/// rejected: it always fails, and it fails as an invalid combination unless
/// its window is inverted, which is reported first.
pub proof fn lemma_all_rejects_absolute_amounts(b: BuilderView, id: IntentId, timestamp: Timestamp)
    requires
        b.ticker is All,
        b.amount is Dollars || b.amount is Shares,
    ensures
        b.outcome(id, timestamp) is Err,
        !b.window_inverted() ==> b.outcome(id, timestamp) == Err::<IntentView, Error>(
            Error::InvalidCombination,
        ),
{
}

/// Every other pairing of ticker and amount is admitted: an intent for every
/// ticker with a percentage or `Zero`, and an intent for one ticker with any
/// amount, is built unless its window is inverted.
pub proof fn lemma_other_pairings_are_admitted(b: BuilderView, id: IntentId, timestamp: Timestamp)
    requires
        b.ticker is Ticker || b.amount is Percent || b.amount is Zero,
        !b.window_inverted(),
    ensures
        b.violation() is None,
        b.outcome(id, timestamp) == Ok::<IntentView, Error>(b.intent(id, timestamp)),
        b.intent(id, timestamp).consistent(),
{
}

/// Exactly two things make building fail: an inverted window, and "every
/// ticker" paired with an absolute amount. The fields pass exactly when the
/// intent made of them is consistent.
pub proof fn lemma_violation_cases(b: BuilderView, id: IntentId, timestamp: Timestamp)
    ensures
        b.violation() is Some <==> b.window_inverted() || (b.ticker is All
            && b.amount.is_absolute()),
        b.violation() is None <==> b.intent(id, timestamp).consistent(),
{
}

} // verus!
