use novax_bot::amount::Amount;

#[test]
fn words_round_trip_keeps_every_word() {
    let w: [u64; 4] = [1, 2, 3, u64::MAX];
    let a = Amount::from_words(w);
    assert_eq!(a.lo, 1 + (2u128 << 64));
    assert_eq!(a.hi, 3 + ((u64::MAX as u128) << 64));
    assert_eq!(a.to_words(), w);
}

#[test]
fn order_compares_high_half_first() {
    let small = Amount { hi: 0, lo: u128::MAX };
    let big = Amount { hi: 1, lo: 0 };
    assert!(small.le(&big));
    assert!(small.lt(&big));
    assert!(!big.le(&small));
    assert!(big.le(&big));
    assert!(!big.lt(&big));
}

#[test]
fn saturating_sub_borrows_across_halves() {
    let a = Amount { hi: 1, lo: 0 };
    let b = Amount::from_u64(1);
    assert_eq!(a.saturating_sub(&b), Amount { hi: 0, lo: u128::MAX });
    assert_eq!(b.saturating_sub(&a), Amount::zero());
    assert_eq!(Amount::from_u64(5).saturating_sub(&Amount::from_u64(1)), Amount::from_u64(4));
}

#[test]
fn to_u64_only_where_it_fits() {
    assert_eq!(Amount::from_u64(u64::MAX).to_u64(), Some(u64::MAX));
    assert_eq!(Amount::from_u128(u64::MAX as u128 + 1).to_u64(), None);
    assert_eq!(Amount { hi: 1, lo: 0 }.to_u64(), None);
    assert!(Amount::zero().is_zero());
    assert!(!Amount { hi: 1, lo: 0 }.is_zero());
}

#[test]
fn display_splits_whole_tokens_and_fraction() {
    let unit: u128 = 1_000_000_000_000_000_000;
    let (whole, fraction) = Amount::from_u128(3 * unit + 250).to_display();
    assert_eq!(whole, Amount::from_u64(3));
    assert_eq!(fraction, 250);
    let (whole, fraction) = Amount::from_u64(999).to_display();
    assert!(whole.is_zero());
    assert_eq!(fraction, 999);
    // 2^128 = 340282366920938463463.374607431768211456 tokens
    let (whole, fraction) = Amount { hi: 1, lo: 0 }.to_display();
    assert_eq!(whole, Amount::from_u128(340282366920938463463));
    assert_eq!(fraction, 374607431768211456);
}

#[test]
fn checked_add_carries_and_refuses_overflow() {
    let a = Amount { hi: 0, lo: u128::MAX };
    assert_eq!(a.checked_add(&Amount::from_u64(1)), Some(Amount { hi: 1, lo: 0 }));
    assert_eq!(Amount::from_u64(2).checked_add(&Amount::from_u64(3)), Some(Amount::from_u64(5)));
    let top = Amount { hi: u128::MAX, lo: u128::MAX };
    assert_eq!(top.checked_add(&Amount::zero()), Some(top));
    assert_eq!(top.checked_add(&Amount::from_u64(1)), None);
    assert_eq!(Amount { hi: u128::MAX, lo: 0 }.checked_add(&Amount { hi: 1, lo: 0 }), None);
}
