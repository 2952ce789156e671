use binary_options::{compute_payout, ErrorCode, Payout};

#[test]
fn payout_of_a_thousand_at_ten_percent() {
    let payout = compute_payout(1000, 10).unwrap();
    assert_eq!(payout.return_amount, 1000);
    assert_eq!(payout.fee_amount, 200);
    assert_eq!(payout.bonus_amount, 1800);
    assert_eq!(payout.bonus_amount + payout.fee_amount, 2000);
    assert_eq!(payout.return_amount + payout.bonus_amount, 2800);
}

#[test]
fn payout_without_fee_is_the_whole_reward() {
    assert_eq!(
        compute_payout(500, 0),
        Ok(Payout { return_amount: 500, bonus_amount: 1000, fee_amount: 0 })
    );
}

#[test]
fn payout_with_full_fee_leaves_only_the_stake() {
    assert_eq!(
        compute_payout(500, 100),
        Ok(Payout { return_amount: 500, bonus_amount: 0, fee_amount: 1000 })
    );
}

#[test]
fn fee_is_rounded_down() {
    // 2 * 33 / 100 = 0.66
    assert_eq!(
        compute_payout(1, 33),
        Ok(Payout { return_amount: 1, bonus_amount: 2, fee_amount: 0 })
    );
    // 14 * 15 / 100 = 2.1
    assert_eq!(
        compute_payout(7, 15),
        Ok(Payout { return_amount: 7, bonus_amount: 12, fee_amount: 2 })
    );
    // 198 * 99 / 100 = 196.02
    assert_eq!(
        compute_payout(99, 99),
        Ok(Payout { return_amount: 99, bonus_amount: 2, fee_amount: 196 })
    );
}

#[test]
fn payout_of_nothing_is_nothing() {
    assert_eq!(
        compute_payout(0, 10),
        Ok(Payout { return_amount: 0, bonus_amount: 0, fee_amount: 0 })
    );
}

#[test]
fn payout_matches_the_formula_on_a_grid() {
    let stakes: [u64; 7] = [1, 2, 3, 49, 50, 999, 123_456_789];
    for stake in stakes {
        for fee_percent in 0..=100u64 {
            let payout = compute_payout(stake, fee_percent).unwrap();
            let reward = stake * 2;
            let fee = reward * fee_percent / 100;
            assert_eq!(payout.return_amount, stake);
            assert_eq!(payout.fee_amount, fee);
            assert_eq!(payout.bonus_amount, reward - fee);
            assert_eq!(
                payout.return_amount + payout.bonus_amount,
                stake + (stake * 2 - (stake * 2 * fee_percent / 100))
            );
        }
    }
}

#[test]
fn largest_stake_whose_reward_fits() {
    let stake = u64::MAX / 2;
    assert_eq!(
        compute_payout(stake, 50),
        Ok(Payout { return_amount: stake, bonus_amount: stake, fee_amount: stake })
    );
    assert_eq!(
        compute_payout(stake, 100),
        Ok(Payout { return_amount: stake, bonus_amount: 0, fee_amount: u64::MAX - 1 })
    );
    assert_eq!(
        compute_payout(stake, 1),
        Ok(Payout {
            return_amount: stake,
            bonus_amount: 18_262_276_632_972_456_098,
            fee_amount: 184_467_440_737_095_516,
        })
    );
}

#[test]
fn reward_that_does_not_fit_is_refused() {
    assert_eq!(compute_payout(u64::MAX / 2 + 1, 10), Err(ErrorCode::ArithmeticOverflow));
    assert_eq!(compute_payout(u64::MAX, 0), Err(ErrorCode::ArithmeticOverflow));
}

#[test]
fn fee_above_the_reward_is_refused() {
    assert_eq!(compute_payout(10, 150), Err(ErrorCode::ArithmeticOverflow));
    assert_eq!(compute_payout(1000, 101), Err(ErrorCode::ArithmeticOverflow));
    assert_eq!(compute_payout(5, u64::MAX), Err(ErrorCode::ArithmeticOverflow));
    // 2 * 149 / 100 rounds down to the whole reward
    assert_eq!(
        compute_payout(1, 149),
        Ok(Payout { return_amount: 1, bonus_amount: 0, fee_amount: 2 })
    );
}
