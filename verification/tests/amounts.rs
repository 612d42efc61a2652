use little_ledger::model::common::{
    Amount, DecimalParts, NegativeAmountError, MAX_MANTISSA, MAX_SCALE,
};

fn parts(mantissa: i128, scale: u32) -> DecimalParts {
    DecimalParts::new(mantissa, scale).expect("parts within range")
}

fn amount(mantissa: i128, scale: u32) -> Amount {
    Amount::try_from(parts(mantissa, scale)).expect("an amount that is not negative")
}

fn held_as(amount: Amount) -> (i128, u32) {
    (amount.parts().mantissa(), amount.parts().scale())
}

/// `mantissa * 10^digits`, where it is within the mantissa range.
fn scaled(mantissa: i128, digits: u32) -> Option<i128> {
    let mut x = mantissa;
    for _ in 0..digits {
        x = x.checked_mul(10)?;
        if x > MAX_MANTISSA {
            return None;
        }
    }
    Some(x)
}

/// The sum as the contract of `+` states it, where the sum fits.
fn expected_sum(a: (i128, u32), b: (i128, u32)) -> Option<(i128, u32)> {
    if a.0 == 0 {
        return Some(b);
    }
    if b.0 == 0 {
        return Some(a);
    }
    let t = a.1.max(b.1);
    let sum = scaled(a.0, t - a.1)? + scaled(b.0, t - b.1)?;
    if sum <= MAX_MANTISSA {
        Some((sum, t))
    } else {
        None
    }
}

/// The difference as the contract of `-` states it, for `a >= b`, where
/// the difference fits.
fn expected_difference(a: (i128, u32), b: (i128, u32)) -> Option<(i128, u32)> {
    if a.0 == 0 {
        return Some(b);
    }
    if b.0 == 0 {
        return Some(a);
    }
    let t = a.1.max(b.1);
    let x = scaled(a.0, t - a.1)?;
    let y = scaled(b.0, t - b.1).expect("the smaller operand fits where the larger does");
    Some((x - y, t))
}

/// A fixed sequence of numbers that looks random enough to cover the
/// cases.
fn next(state: &mut u64) -> u64 {
    *state = state
        .wrapping_mul(6364136223846793005)
        .wrapping_add(1442695040888963407);
    *state >> 11
}

fn sample(state: &mut u64) -> (i128, u32) {
    let bits = (next(state) % 97) as u32;
    let raw = ((next(state) as u128) << 64) | (next(state) as u128) << 11 | next(state) as u128;
    let mantissa = if bits == 0 {
        0
    } else {
        (raw >> (128 - bits)) as i128
    };
    let scale = (next(state) % 29) as u32;
    (mantissa.min(MAX_MANTISSA), scale)
}

#[test]
fn parts_are_accepted_over_the_whole_range_and_no_further() {
    assert_eq!(MAX_MANTISSA, 79_228_162_514_264_337_593_543_950_335);
    assert_eq!(MAX_SCALE, 28);
    assert!(DecimalParts::new(MAX_MANTISSA, MAX_SCALE).is_some());
    assert!(DecimalParts::new(-MAX_MANTISSA, 0).is_some());
    assert!(DecimalParts::new(0, 0).is_some());
    assert!(DecimalParts::new(MAX_MANTISSA + 1, 0).is_none());
    assert!(DecimalParts::new(-MAX_MANTISSA - 1, 0).is_none());
    assert!(DecimalParts::new(1, MAX_SCALE + 1).is_none());
    let d = parts(-12345, 4);
    assert_eq!(d.mantissa(), -12345);
    assert_eq!(d.scale(), 4);
}

#[test]
fn parts_are_equal_only_when_both_parts_are() {
    assert_eq!(parts(10, 1), parts(10, 1));
    assert_ne!(parts(10, 1), parts(100, 2));
    assert_ne!(parts(10, 1), parts(1, 0));
}

#[test]
fn an_amount_keeps_the_parts_it_was_made_of() {
    assert_eq!(held_as(amount(12345, 4)), (12345, 4));
    assert_eq!(held_as(amount(0, 7)), (0, 7));
    assert_eq!(held_as(amount(MAX_MANTISSA, 28)), (MAX_MANTISSA, 28));
}

#[test]
fn every_negative_decimal_is_refused() {
    assert_eq!(
        Amount::try_from(parts(-1, 0)).expect_err("negative"),
        NegativeAmountError
    );
    assert!(Amount::try_from(parts(-1, 28)).is_err());
    assert!(Amount::try_from(parts(-MAX_MANTISSA, 3)).is_err());
    assert!(Amount::try_from(parts(0, 0)).is_ok());
    assert!(Amount::try_from(parts(0, 28)).is_ok());
    assert!(Amount::try_from(parts(1, 28)).is_ok());
}

#[test]
fn zero_is_held_without_fractional_digits() {
    assert_eq!(held_as(Amount::zero()), (0, 0));
}

#[test]
fn a_sum_is_held_at_the_wider_scale() {
    // 1.5 + 2.25 = 3.75
    assert_eq!(held_as(amount(15, 1) + amount(225, 2)), (375, 2));
    // 2.25 + 1.5 = 3.75
    assert_eq!(held_as(amount(225, 2) + amount(15, 1)), (375, 2));
    // 10 + 10 = 20
    assert_eq!(held_as(amount(10, 0) + amount(10, 0)), (20, 0));
    // 1.2345 + 5.4321 = 6.6666
    assert_eq!(held_as(amount(12345, 4) + amount(54321, 4)), (66666, 4));
    // 0.50 + 0.50 = 1.00
    assert_eq!(held_as(amount(50, 2) + amount(50, 2)), (100, 2));
}

#[test]
fn a_sum_with_zero_is_the_other_operand_as_it_is() {
    assert_eq!(held_as(amount(0, 2) + amount(5, 0)), (5, 0));
    assert_eq!(held_as(amount(5, 0) + amount(0, 2)), (5, 0));
    assert_eq!(held_as(amount(0, 0) + amount(0, 2)), (0, 2));
    assert_eq!(held_as(amount(0, 2) + amount(0, 0)), (0, 0));
    assert_eq!(held_as(Amount::zero() + amount(12345, 4)), (12345, 4));
    assert_eq!(
        held_as(amount(0, 28) + amount(MAX_MANTISSA, 0)),
        (MAX_MANTISSA, 0)
    );
    assert_eq!(
        held_as(amount(MAX_MANTISSA, 0) + amount(0, 28)),
        (MAX_MANTISSA, 0)
    );
}

#[test]
fn a_sum_of_wide_operands_is_exact() {
    let two_32: i128 = 1 << 32;
    let two_64: i128 = 1 << 64;
    // one operand needs more than 32 bits once it is aligned
    assert_eq!(
        held_as(amount(4_000_000_000, 0) + amount(1, 3)),
        (4_000_000_000_001, 3)
    );
    assert_eq!(
        held_as(amount(two_32, 0) + amount(5, 1)),
        (two_32 * 10 + 5, 1)
    );
    // more than 64 bits
    assert_eq!(
        held_as(amount(two_64, 0) + amount(1, 5)),
        (two_64 * 100_000 + 1, 5)
    );
    assert_eq!(
        held_as(amount(two_64, 2) + amount(two_64, 2)),
        (two_64 * 2, 2)
    );
    // scales far apart
    assert_eq!(
        held_as(amount(1, 0) + amount(1, 25)),
        (10_000_000_000_000_000_000_000_001, 25)
    );
    assert_eq!(
        held_as(amount(7, 28) + amount(7, 0)),
        (70_000_000_000_000_000_000_000_000_007, 28)
    );
    // up to the very end of the range
    assert_eq!(
        held_as(amount(MAX_MANTISSA - 1, 0) + amount(1, 0)),
        (MAX_MANTISSA, 0)
    );
    assert_eq!(
        held_as(amount(MAX_MANTISSA - 10, 1) + amount(1, 0)),
        (MAX_MANTISSA, 1)
    );
}

#[test]
fn can_add_tells_whether_the_sum_fits() {
    assert!(amount(1, 0).can_add(&amount(1, 0)));
    assert!(amount(MAX_MANTISSA - 1, 0).can_add(&amount(1, 0)));
    assert!(!amount(MAX_MANTISSA, 0).can_add(&amount(1, 0)));
    assert!(!amount(MAX_MANTISSA, 5).can_add(&amount(1, 5)));
    // aligning the first operand to one more digit leaves the range
    assert!(!amount(MAX_MANTISSA, 0).can_add(&amount(1, 1)));
    assert!(!amount(1, 1).can_add(&amount(MAX_MANTISSA, 0)));
    assert!(!amount(7_922_816_251_426_433_759_354_395_034, 0).can_add(&amount(1, 1)));
    assert!(amount(7_922_816_251_426_433_759_354_395_033, 0).can_add(&amount(5, 1)));
    assert!(!amount(7_922_816_251_426_433_759_354_395_033, 0).can_add(&amount(6, 1)));
    // a zero operand always fits
    assert!(amount(MAX_MANTISSA, 0).can_add(&amount(0, 28)));
    assert!(amount(0, 28).can_add(&amount(MAX_MANTISSA, 0)));
    assert!(Amount::zero().can_add(&Amount::zero()));
}

#[test]
fn a_difference_is_held_at_the_wider_scale() {
    // 3.75 - 1.5 = 2.25
    assert_eq!(held_as(amount(375, 2) - amount(15, 1)), (225, 2));
    // 10 - 2 = 8
    assert_eq!(held_as(amount(10, 0) - amount(2, 0)), (8, 0));
    // 100.25 - 7 = 93.25
    assert_eq!(held_as(amount(10025, 2) - amount(7, 0)), (9325, 2));
    // 7 - 0.25 = 6.75
    assert_eq!(held_as(amount(7, 0) - amount(25, 2)), (675, 2));
    // 1.2345 - 1.2345 = 0.0000
    assert_eq!(held_as(amount(12345, 4) - amount(12345, 4)), (0, 4));
    // 1.0 - 1.00 = 0.00
    assert_eq!(held_as(amount(10, 1) - amount(100, 2)), (0, 2));
}

#[test]
fn a_difference_with_zero_is_the_other_operand_as_it_is() {
    assert_eq!(held_as(amount(5, 0) - amount(0, 2)), (5, 0));
    assert_eq!(held_as(amount(12345, 4) - Amount::zero()), (12345, 4));
    assert_eq!(held_as(amount(0, 2) - amount(0, 0)), (0, 0));
    assert_eq!(held_as(amount(0, 0) - amount(0, 2)), (0, 2));
    assert_eq!(
        held_as(amount(MAX_MANTISSA, 0) - amount(0, 28)),
        (MAX_MANTISSA, 0)
    );
}

#[test]
fn a_difference_of_wide_operands_is_exact() {
    let two_32: i128 = 1 << 32;
    let two_64: i128 = 1 << 64;
    assert_eq!(
        held_as(amount(4_000_000_000, 0) - amount(1, 3)),
        (3_999_999_999_999, 3)
    );
    assert_eq!(
        held_as(amount(two_32, 0) - amount(5, 1)),
        (two_32 * 10 - 5, 1)
    );
    assert_eq!(
        held_as(amount(two_64, 0) - amount(1, 5)),
        (two_64 * 100_000 - 1, 5)
    );
    assert_eq!(
        held_as(amount(two_64 * 100_000 + 3, 5) - amount(two_64, 0)),
        (3, 5)
    );
    assert_eq!(
        held_as(amount(1, 0) - amount(1, 25)),
        (9_999_999_999_999_999_999_999_999, 25)
    );
    assert_eq!(
        held_as(amount(MAX_MANTISSA, 0) - amount(MAX_MANTISSA, 0)),
        (0, 0)
    );
    assert_eq!(held_as(amount(MAX_MANTISSA, 0) - amount(1, 0)), (MAX_MANTISSA - 1, 0));
    assert_eq!(
        held_as(amount(MAX_MANTISSA, 28) - amount(1, 0)),
        (MAX_MANTISSA - 10_000_000_000_000_000_000_000_000_000, 28)
    );
}

#[test]
fn a_difference_stops_at_zero() {
    assert_eq!(held_as(amount(1, 0) - amount(2, 0)), (0, 0));
    assert_eq!(held_as(amount(199, 2) - amount(2, 0)), (0, 0));
    assert_eq!(held_as(Amount::zero() - amount(MAX_MANTISSA, 0)), (0, 0));
}

#[test]
fn can_sub_tells_whether_the_difference_fits() {
    assert!(amount(10, 0).can_sub(&amount(2, 0)));
    assert!(amount(MAX_MANTISSA, 0).can_sub(&amount(1, 0)));
    assert!(amount(MAX_MANTISSA, 28).can_sub(&amount(1, 0)));
    // the minuend cannot be written with 28 digits
    assert!(!amount(10_000_000_000_000_000_000_000_000_000, 0).can_sub(&amount(1, 28)));
    assert!(!amount(MAX_MANTISSA, 0).can_sub(&amount(1, 1)));
    assert!(amount(7_922_816_251_426_433_759_354_395_033, 0).can_sub(&amount(1, 1)));
    assert!(!amount(7_922_816_251_426_433_759_354_395_034, 0).can_sub(&amount(1, 1)));
    // a zero operand always fits
    assert!(amount(MAX_MANTISSA, 0).can_sub(&amount(0, 28)));
}

#[test]
fn sums_and_differences_are_what_the_contracts_say_on_many_operands() {
    let mut state: u64 = 0x5eed;
    let mut sums = 0;
    let mut differences = 0;
    for _ in 0..20_000 {
        let a = sample(&mut state);
        let b = sample(&mut state);
        let x = amount(a.0, a.1);
        let y = amount(b.0, b.1);
        let sum = expected_sum(a, b);
        assert_eq!(x.can_add(&y), sum.is_some(), "{a:?} + {b:?}");
        if let Some(sum) = sum {
            assert_eq!(held_as(x + y), sum, "{a:?} + {b:?}");
            sums += 1;
        }
        let (hi, lo, p, q) = if x >= y { (a, b, x, y) } else { (b, a, y, x) };
        let difference = expected_difference(hi, lo);
        assert_eq!(p.can_sub(&q), difference.is_some(), "{hi:?} - {lo:?}");
        if let Some(difference) = difference {
            assert_eq!(held_as(p - q), difference, "{hi:?} - {lo:?}");
            differences += 1;
        }
    }
    assert!(sums > 1_000);
    assert!(differences > 1_000);
}

#[test]
fn sums_and_differences_are_what_the_contracts_say_on_small_operands() {
    let mut state: u64 = 0xfeed;
    for _ in 0..20_000 {
        let a = ((next(&mut state) % 2_000) as i128, (next(&mut state) % 6) as u32);
        let b = ((next(&mut state) % 2_000) as i128, (next(&mut state) % 6) as u32);
        let x = amount(a.0, a.1);
        let y = amount(b.0, b.1);
        assert!(x.can_add(&y));
        assert_eq!(Some(held_as(x + y)), expected_sum(a, b), "{a:?} + {b:?}");
        let (hi, lo, p, q) = if x >= y { (a, b, x, y) } else { (b, a, y, x) };
        assert!(p.can_sub(&q));
        assert_eq!(
            Some(held_as(p - q)),
            expected_difference(hi, lo),
            "{hi:?} - {lo:?}"
        );
    }
}

#[test]
fn amounts_are_equal_when_their_values_are() {
    assert_eq!(amount(10, 1), amount(100, 2));
    assert_eq!(amount(1, 0), amount(10_000_000_000_000_000_000_000_000_000, 28));
    assert_eq!(amount(0, 0), amount(0, 28));
    assert_ne!(amount(10, 1), amount(11, 1));
    assert_ne!(amount(1, 0), amount(1, 1));
    assert_ne!(amount(10, 1), amount(101, 2));
}

#[test]
fn amounts_are_ordered_by_their_values() {
    assert!(amount(5, 1) < amount(51, 2));
    assert!(amount(2, 0) > amount(1999, 3));
    assert!(amount(10, 1) >= amount(1, 0));
    assert!(amount(10, 1) <= amount(1, 0));
    assert!(!(amount(10, 1) < amount(1, 0)));
    assert!(amount(MAX_MANTISSA, 28) < amount(8, 0));
    assert!(amount(MAX_MANTISSA, 0) > amount(MAX_MANTISSA, 1));
    assert!(Amount::zero() < amount(1, 28));
    assert_eq!(
        amount(10, 1).partial_cmp(&amount(1, 0)),
        Some(std::cmp::Ordering::Equal)
    );
    assert_eq!(
        amount(1, 0).partial_cmp(&amount(2, 0)),
        Some(std::cmp::Ordering::Less)
    );
    assert_eq!(
        amount(3, 0).partial_cmp(&amount(2, 0)),
        Some(std::cmp::Ordering::Greater)
    );
}

#[test]
fn amounts_can_be_added_to_and_taken_from_in_place() {
    let mut a = amount(15, 1);
    a += amount(225, 2);
    assert_eq!(held_as(a), (375, 2));
    a -= amount(75, 2);
    assert_eq!(held_as(a), (300, 2));
    a -= amount(4, 0);
    assert_eq!(held_as(a), (0, 0));
}
