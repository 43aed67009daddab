//! How much a position is to change, and how two such requests combine.

use crate::decimal::Decimal;
use crate::error::Error;
use vstd::prelude::*;

verus! {

/// The size of a requested position change.
#[derive(Debug, Clone, PartialEq, Eq)]
pub enum AmountSpec {
    /// An absolute currency value.
    Dollars(Decimal),
    /// An absolute number of shares.
    Shares(Decimal),
    /// A percentage of a reference that the order manager defines.
    Percent(Decimal),
    /// No change.
    Zero,
}

impl AmountSpec {
    /// Whether the amount is absolute: a currency value or a share count.
    pub open spec fn is_absolute(self) -> bool {
        self is Dollars || self is Shares
    }

    /// Whether two amounts are of the same kind, whatever they hold.
    pub open spec fn same_kind(self, other: AmountSpec) -> bool {
        ||| self is Dollars && other is Dollars
        ||| self is Shares && other is Shares
        ||| self is Percent && other is Percent
        ||| self is Zero && other is Zero
    }

    /// The two numbers that a merge adds: the payloads of two amounts of the
    /// same kind. `None` for every other pair.
    pub open spec fn addends(self, other: AmountSpec) -> Option<(Decimal, Decimal)> {
        match (self, other) {
            (AmountSpec::Dollars(x), AmountSpec::Dollars(y)) => Some((x, y)),
            (AmountSpec::Shares(x), AmountSpec::Shares(y)) => Some((x, y)),
            (AmountSpec::Percent(x), AmountSpec::Percent(y)) => Some((x, y)),
            _ => None,
        }
    }

    /// Whether merging needs no sum that overflows.
    pub open spec fn mergeable(self, other: AmountSpec) -> bool {
        self.addends(other) matches Some((x, y)) ==> x.spec_checked_add(y) is Some
    }

    /// The amount of the same kind as `self` that holds `value`; `Zero` holds
    /// nothing and stays `Zero`.
    pub open spec fn with_value(self, value: Decimal) -> AmountSpec {
        match self {
            AmountSpec::Dollars(_) => AmountSpec::Dollars(value),
            AmountSpec::Shares(_) => AmountSpec::Shares(value),
            AmountSpec::Percent(_) => AmountSpec::Percent(value),
            AmountSpec::Zero => AmountSpec::Zero,
        }
    }

    /// The merge of two amounts.
    ///
    /// Two amounts of the same kind give that kind with the sum of what they
    /// hold. Otherwise `Zero` leaves the other operand as it is. Otherwise the
    /// two are of different kinds and do not merge.
    pub open spec fn spec_merge(self, other: AmountSpec) -> Result<AmountSpec, Error> {
        if let Some((x, y)) = self.addends(other) {
            Ok(self.with_value(x.spec_add(y)))
        } else if self is Zero {
            Ok(other)
        } else if other is Zero {
            Ok(self)
        } else {
            Err(Error::IncompatibleAmountError(self, other))
        }
    }

    /// Merges two amounts that belong to the same strategy and ticker.
    ///
    /// The sum of two amounts of the same kind must not overflow; where that
    /// is not known, use [`AmountSpec::checked_merge`].
    pub fn merge(self, other: AmountSpec) -> (r: Result<AmountSpec, Error>)
        requires
            self.mergeable(other),
        ensures
            r == self.spec_merge(other),
    {
        match (self, other) {
            (AmountSpec::Dollars(x), AmountSpec::Dollars(y)) => Ok(AmountSpec::Dollars(x.plus(y))),
            (AmountSpec::Shares(x), AmountSpec::Shares(y)) => Ok(AmountSpec::Shares(x.plus(y))),
            (AmountSpec::Percent(x), AmountSpec::Percent(y)) => Ok(AmountSpec::Percent(x.plus(y))),
            (AmountSpec::Zero, AmountSpec::Zero) => Ok(AmountSpec::Zero),
            (AmountSpec::Zero, y) => Ok(y),
            (x, AmountSpec::Zero) => Ok(x),
            (x, y) => Err(Error::IncompatibleAmountError(x, y)),
        }
    }

    /// Whether [`AmountSpec::merge`] can be called on the two amounts.
    pub fn can_merge(&self, other: &AmountSpec) -> (b: bool)
        ensures
            b == self.mergeable(*other),
    {
        match (self, other) {
            (AmountSpec::Dollars(x), AmountSpec::Dollars(y)) => x.sum_fits(*y),
            (AmountSpec::Shares(x), AmountSpec::Shares(y)) => x.sum_fits(*y),
            (AmountSpec::Percent(x), AmountSpec::Percent(y)) => x.sum_fits(*y),
            _ => true,
        }
    }

    /// Merges two amounts, or returns `None` where their sum overflows.
    pub fn checked_merge(self, other: AmountSpec) -> (r: Option<Result<AmountSpec, Error>>)
        ensures
            r == if self.mergeable(other) {
                Some(self.spec_merge(other))
            } else {
                None
            },
    {
        if self.can_merge(&other) {
            Some(self.merge(other))
        } else {
            None
        }
    }
}

/// Two amounts of the same kind merge into that kind, holding the sum of what
/// the two held, wherever that sum can be held.
pub proof fn lemma_merge_adds_same_kind(x: Decimal, y: Decimal)
    requires
        x.spec_checked_add(y) is Some,
    ensures
        AmountSpec::Dollars(x).mergeable(AmountSpec::Dollars(y)),
        AmountSpec::Dollars(x).spec_merge(AmountSpec::Dollars(y)) == Ok::<AmountSpec, Error>(
            AmountSpec::Dollars(x.spec_add(y)),
        ),
        AmountSpec::Shares(x).mergeable(AmountSpec::Shares(y)),
        AmountSpec::Shares(x).spec_merge(AmountSpec::Shares(y)) == Ok::<AmountSpec, Error>(
            AmountSpec::Shares(x.spec_add(y)),
        ),
        AmountSpec::Percent(x).mergeable(AmountSpec::Percent(y)),
        AmountSpec::Percent(x).spec_merge(AmountSpec::Percent(y)) == Ok::<AmountSpec, Error>(
            AmountSpec::Percent(x.spec_add(y)),
        ),
{
}

/// `Zero` is the identity of merging, on either side: merging it with any
/// amount gives that amount, and merging it with itself gives `Zero`.
pub proof fn lemma_merge_zero_is_identity(v: AmountSpec)
    ensures
        AmountSpec::Zero.mergeable(v),
        AmountSpec::Zero.spec_merge(v) == Ok::<AmountSpec, Error>(v),
        v.mergeable(AmountSpec::Zero),
        v.spec_merge(AmountSpec::Zero) == Ok::<AmountSpec, Error>(v),
        AmountSpec::Zero.spec_merge(AmountSpec::Zero) == Ok::<AmountSpec, Error>(AmountSpec::Zero),
{
}

/// Two amounts of different kinds, neither of them `Zero`, do not merge, and
/// the error holds the two operands as they were given, left and right.
pub proof fn lemma_merge_rejects_different_kinds(a: AmountSpec, b: AmountSpec)
    requires
        a !is Zero,
        b !is Zero,
        !a.same_kind(b),
    ensures
        a.mergeable(b),
        a.spec_merge(b) == Err::<AmountSpec, Error>(Error::IncompatibleAmountError(a, b)),
{
}

/// Merging fails in no other case: two amounts merge as soon as one of them
/// is `Zero` or both are of the same kind.
pub proof fn lemma_merge_succeeds_otherwise(a: AmountSpec, b: AmountSpec)
    requires
        a is Zero || b is Zero || a.same_kind(b),
    ensures
        a.spec_merge(b) is Ok,
{
}

/// Whether two amounts merge does not depend on which of them is on the
/// left, and neither does the result where one of them is `Zero`.
pub proof fn lemma_merge_is_symmetric_by_case(a: AmountSpec, b: AmountSpec)
    ensures
        a.spec_merge(b) is Ok <==> b.spec_merge(a) is Ok,
        a.same_kind(b) <==> b.same_kind(a),
        a is Zero || b is Zero ==> a.spec_merge(b) == b.spec_merge(a),
{
}

} // verus!
