use position_intent::{AmountSpec, Decimal, Error};

fn dec(mantissa: i128, scale: u32) -> Decimal {
    Decimal::try_new(mantissa, scale).unwrap()
}

fn largest() -> Decimal {
    dec(79_228_162_514_264_337_593_543_950_335, 0)
}

#[test]
fn dollars_add_up() {
    let merged = AmountSpec::Dollars(Decimal::new(1, 0)).merge(AmountSpec::Dollars(Decimal::new(2, 0)));
    assert_eq!(merged, Ok(AmountSpec::Dollars(Decimal::new(3, 0))));
}

#[test]
fn shares_add_up() {
    let merged = AmountSpec::Shares(Decimal::new(50, 0)).merge(AmountSpec::Shares(Decimal::new(-20, 0)));
    assert_eq!(merged, Ok(AmountSpec::Shares(Decimal::new(30, 0))));
}

#[test]
fn percent_adds_up() {
    let merged = AmountSpec::Percent(Decimal::new(125, 1)).merge(AmountSpec::Percent(Decimal::new(75, 1)));
    assert_eq!(merged, Ok(AmountSpec::Percent(Decimal::new(200, 1))));
}

#[test]
fn sum_takes_the_larger_scale() {
    // 1.5 + 2.25 = 3.75
    let merged = AmountSpec::Dollars(Decimal::new(15, 1)).merge(AmountSpec::Dollars(Decimal::new(225, 2)));
    match merged {
        Ok(AmountSpec::Dollars(sum)) => {
            assert_eq!(sum.mantissa(), 375);
            assert_eq!(sum.scale(), 2);
        }
        other => panic!("unexpected merge result: {:?}", other),
    }
}

#[test]
fn sum_is_exact_beyond_binary_floats() {
    // 0.1 + 0.2 = 0.3
    let merged = AmountSpec::Dollars(Decimal::new(1, 1)).merge(AmountSpec::Dollars(Decimal::new(2, 1)));
    assert_eq!(merged, Ok(AmountSpec::Dollars(Decimal::new(3, 1))));
}

#[test]
fn sum_keeps_all_96_bits() {
    let a = dec(79_228_162_514_264_337_593_543_950_334, 0);
    let merged = AmountSpec::Shares(a).merge(AmountSpec::Shares(Decimal::new(1, 0)));
    assert_eq!(merged, Ok(AmountSpec::Shares(largest())));
}

#[test]
fn zero_is_left_identity() {
    let amounts = vec![
        AmountSpec::Dollars(Decimal::new(7, 0)),
        AmountSpec::Shares(Decimal::new(-3, 0)),
        AmountSpec::Percent(Decimal::new(105, 1)),
        AmountSpec::Zero,
    ];
    for v in amounts {
        assert_eq!(AmountSpec::Zero.merge(v.clone()), Ok(v));
    }
}

#[test]
fn zero_is_right_identity() {
    let amounts = vec![
        AmountSpec::Dollars(Decimal::new(7, 0)),
        AmountSpec::Shares(Decimal::new(-3, 0)),
        AmountSpec::Percent(Decimal::new(105, 1)),
        AmountSpec::Zero,
    ];
    for v in amounts {
        assert_eq!(v.clone().merge(AmountSpec::Zero), Ok(v));
    }
}

#[test]
fn zero_with_zero_is_zero() {
    assert_eq!(AmountSpec::Zero.merge(AmountSpec::Zero), Ok(AmountSpec::Zero));
}

#[test]
fn zero_keeps_the_largest_decimal() {
    let v = AmountSpec::Dollars(largest());
    assert_eq!(AmountSpec::Zero.merge(v.clone()), Ok(v.clone()));
    assert_eq!(v.clone().merge(AmountSpec::Zero), Ok(v));
}

#[test]
fn different_kinds_do_not_merge() {
    let amounts = vec![
        AmountSpec::Dollars(Decimal::new(1, 0)),
        AmountSpec::Shares(Decimal::new(2, 0)),
        AmountSpec::Percent(Decimal::new(3, 0)),
    ];
    for (i, a) in amounts.iter().enumerate() {
        for (j, b) in amounts.iter().enumerate() {
            if i != j {
                assert_eq!(
                    a.clone().merge(b.clone()),
                    Err(Error::IncompatibleAmountError(a.clone(), b.clone()))
                );
            }
        }
    }
}

#[test]
fn incompatible_error_holds_left_and_right() {
    let left = AmountSpec::Shares(Decimal::new(50, 0));
    let right = AmountSpec::Percent(Decimal::new(10, 0));
    match left.clone().merge(right.clone()) {
        Err(Error::IncompatibleAmountError(l, r)) => {
            assert_eq!(l, left);
            assert_eq!(r, right);
        }
        other => panic!("unexpected merge result: {:?}", other),
    }
}

#[test]
fn can_merge_is_false_on_overflow_only() {
    let max = AmountSpec::Dollars(largest());
    assert!(!max.can_merge(&max));
    assert!(max.can_merge(&AmountSpec::Zero));
    assert!(max.can_merge(&AmountSpec::Shares(largest())));
    assert!(max.can_merge(&AmountSpec::Dollars(Decimal::new(-1, 0))));
    assert!(AmountSpec::Dollars(Decimal::new(1, 0)).can_merge(&AmountSpec::Dollars(Decimal::new(1, 0))));
}

#[test]
fn checked_merge_is_none_on_overflow() {
    let max = AmountSpec::Dollars(largest());
    assert_eq!(max.clone().checked_merge(max), None);
    let min = AmountSpec::Percent(dec(-79_228_162_514_264_337_593_543_950_335, 0));
    assert_eq!(min.clone().checked_merge(min), None);
}

#[test]
fn checked_merge_agrees_with_merge() {
    let a = AmountSpec::Dollars(Decimal::new(15, 1));
    let b = AmountSpec::Dollars(Decimal::new(225, 2));
    assert_eq!(a.clone().checked_merge(b.clone()), Some(a.merge(b)));
    let c = AmountSpec::Shares(Decimal::new(1, 0));
    let d = AmountSpec::Percent(Decimal::new(1, 0));
    assert_eq!(
        c.clone().checked_merge(d.clone()),
        Some(Err(Error::IncompatibleAmountError(c, d)))
    );
    assert_eq!(AmountSpec::Zero.checked_merge(AmountSpec::Zero), Some(Ok(AmountSpec::Zero)));
}

#[test]
fn merge_agrees_with_rust_decimal() {
    let pairs: Vec<((i128, u32), (i128, u32))> = vec![
        ((1, 0), (1, 0)),
        ((15, 1), (225, 2)),
        ((-15, 1), (15, 1)),
        ((123_456_789_012_345_678_901_234_567, 9), (1, 28)),
        ((79_228_162_514_264_337_593_543_950_335, 1), (79_228_162_514_264_337_593_543_950_335, 1)),
        ((0, 5), (42, 0)),
    ];
    for ((am, asc), (bm, bsc)) in pairs {
        let expected = rust_decimal::Decimal::from_i128_with_scale(am, asc)
            .checked_add(rust_decimal::Decimal::from_i128_with_scale(bm, bsc))
            .unwrap();
        let merged = AmountSpec::Shares(dec(am, asc)).merge(AmountSpec::Shares(dec(bm, bsc)));
        assert_eq!(merged, Ok(AmountSpec::Shares(dec(expected.mantissa(), expected.scale()))));
    }
}
