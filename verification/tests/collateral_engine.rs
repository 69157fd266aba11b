use z_fubao::address::Address;
use z_fubao::collateral::LedgerOp;
use z_fubao::error::LendingError;
use z_fubao::processor::Processor;
use z_fubao::state::{Obligation, ZFubaoConfig};

fn config(ltv_ratio: u8, price: u64) -> ZFubaoConfig {
    ZFubaoConfig {
        authority: Address { bytes: [1; 32] },
        zbtc_mint: Address { bytes: [2; 32] },
        zusd_mint: Address { bytes: [3; 32] },
        authority_bump: 255,
        global_config_bump: 254,
        ltv_ratio,
        price,
        start_time: 0,
        szusd_price_ratio: 10_000,
    }
}

fn position(zbtc_deposit: u64, zusd_borrowed: u64) -> Obligation {
    Obligation { zbtc_deposit, zusd_borrowed }
}

fn collateralized(obligation: &Obligation, config: &ZFubaoConfig) -> bool {
    (obligation.zusd_borrowed as u128) * 100
        <= (obligation.zbtc_deposit as u128) * (config.price as u128) * (config.ltv_ratio as u128)
}

#[test]
fn max_borrowable_of_the_reference_position() {
    // 1_000_000_000 * 50_000 / 1_000 = 50_000_000_000, of which 70 percent.
    let limit = Processor::calculate_max_borrowable(&position(1_000_000_000, 0), &config(70, 50_000));
    assert_eq!(limit, Ok(35_000_000_000));
}

#[test]
fn borrow_then_repay_on_the_reference_position() {
    let config = config(70, 50_000);
    let start = position(1_000_000_000, 0);
    let borrowed = start.borrow(&config, 500_000_000).unwrap();
    assert_eq!(borrowed, position(1_000_000_000, 500_000_000));
    let repaid = borrowed.repay(200_000_000).unwrap();
    assert_eq!(repaid, position(1_000_000_000, 300_000_000));
    assert_eq!(Processor::calculate_max_borrowable(&repaid, &config), Ok(34_700_000_000));
}

#[test]
fn max_borrowable_rounds_down_twice() {
    // 1_999 / 1_000 = 1, and 1 * 99 / 100 = 0.
    assert_eq!(Processor::calculate_max_borrowable(&position(1_999, 0), &config(99, 1)), Ok(0));
    // 2_000 / 1_000 = 2, and 2 * 99 / 100 = 1.
    assert_eq!(Processor::calculate_max_borrowable(&position(2_000, 0), &config(99, 1)), Ok(1));
    assert_eq!(Processor::calculate_max_borrowable(&position(0, 0), &config(75, 50_000)), Ok(0));
}

#[test]
fn max_borrowable_subtracts_the_debt() {
    let config = config(75, 50_000);
    assert_eq!(
        Processor::calculate_max_borrowable(&position(500_000_000, 300_000_000), &config),
        Ok(18_450_000_000)
    );
    assert_eq!(
        Processor::calculate_max_borrowable(&position(500_000_000, 18_750_000_000), &config),
        Ok(0)
    );
}

#[test]
fn max_borrowable_fails_when_the_debt_exceeds_the_cap() {
    let config = config(75, 50_000);
    assert_eq!(
        Processor::calculate_max_borrowable(&position(500_000_000, 18_750_000_001), &config),
        Err(LendingError::ArithmeticError)
    );
    assert_eq!(
        Processor::calculate_max_borrowable(&position(0, 1), &config),
        Err(LendingError::ArithmeticError)
    );
}

#[test]
fn max_borrowable_fails_on_overflow() {
    assert_eq!(
        Processor::calculate_max_borrowable(&position(u64::MAX, 0), &config(75, 2)),
        Err(LendingError::ArithmeticError)
    );
    // The largest value that fits, at the largest ratio a byte can hold.
    assert_eq!(
        Processor::calculate_max_borrowable(&position(u64::MAX, 0), &config(100, 1)),
        Ok(18_446_744_073_709_551)
    );
    assert_eq!(
        Processor::calculate_max_borrowable(&position(u64::MAX, 0), &config(255, 1)),
        Ok(47_039_197_387_959_355)
    );
}

#[test]
fn max_withdrawable_of_a_position_without_debt_is_the_deposit() {
    assert_eq!(
        Processor::calculate_max_withdrawable(&position(1_000_000_000, 0), &config(75, 50_000)),
        Ok(1_000_000_000)
    );
}

#[test]
fn max_withdrawable_keeps_what_the_debt_requires() {
    // 300_000_000 * 100 / 75 = 400_000_000 of value must stay.
    let config = config(75, 50_000);
    assert_eq!(
        Processor::calculate_max_withdrawable(&position(1_000_000_000, 300_000_000), &config),
        Ok(999_992_000)
    );
    assert_eq!(
        Processor::calculate_max_withdrawable(&position(500_000_000, 300_000_000), &config),
        Ok(499_992_000)
    );
}

#[test]
fn max_withdrawable_rounds_down() {
    // 1 * 100 / 70 = 1 of value must stay, and (2_000 * 3 - 1) / 3 = 1_999.
    assert_eq!(Processor::calculate_max_withdrawable(&position(2_000, 1), &config(70, 3)), Ok(1_999));
}

#[test]
fn max_withdrawable_fails_on_each_checked_operation() {
    let arithmetic = Err(LendingError::ArithmeticError);
    // The value of the collateral overflows.
    assert_eq!(Processor::calculate_max_withdrawable(&position(u64::MAX, 0), &config(75, 2)), arithmetic);
    // The debt times one hundred overflows.
    assert_eq!(
        Processor::calculate_max_withdrawable(&position(1, u64::MAX / 100 + 1), &config(75, 1)),
        arithmetic
    );
    // The ratio is zero.
    assert_eq!(Processor::calculate_max_withdrawable(&position(10, 0), &config(0, 1)), arithmetic);
    // The debt requires more than is pledged.
    assert_eq!(Processor::calculate_max_withdrawable(&position(1, 100), &config(50, 1)), arithmetic);
    // The price is zero.
    assert_eq!(Processor::calculate_max_withdrawable(&position(10, 0), &config(75, 0)), arithmetic);
}

#[test]
fn deposit_adds_to_the_collateral() {
    assert_eq!(position(5, 7).deposit(3), Ok(position(8, 7)));
    assert_eq!(position(0, 0).deposit(u64::MAX), Ok(position(u64::MAX, 0)));
}

#[test]
fn deposit_of_nothing_is_refused() {
    assert_eq!(position(5, 7).deposit(0), Err(LendingError::InvalidArgument));
}

#[test]
fn deposit_that_overflows_is_refused() {
    assert_eq!(position(u64::MAX, 0).deposit(1), Err(LendingError::ArithmeticError));
    assert_eq!(position(1, 0).deposit(u64::MAX), Err(LendingError::ArithmeticError));
}

#[test]
fn withdraw_at_the_limit_succeeds_and_one_above_fails() {
    let cases = [
        (position(1_000_000_000, 300_000_000), config(75, 50_000)),
        (position(2_000, 1), config(70, 3)),
        (position(1_000_000_000, 0), config(1, 1)),
        (position(17, 5), config(100, 1)),
        (position(0, 0), config(75, 50_000)),
    ];
    for (obligation, config) in cases {
        let limit = Processor::calculate_max_withdrawable(&obligation, &config).unwrap();
        assert_eq!(
            obligation.withdraw(&config, limit),
            Ok(position(obligation.zbtc_deposit - limit, obligation.zusd_borrowed))
        );
        assert_eq!(obligation.withdraw(&config, limit + 1), Err(LendingError::LimitExceeded));
    }
}

#[test]
fn withdraw_fails_as_the_limit_does() {
    assert_eq!(position(10, 0).withdraw(&config(0, 1), 0), Err(LendingError::ArithmeticError));
    assert_eq!(position(1, 100).withdraw(&config(50, 1), 0), Err(LendingError::ArithmeticError));
}

#[test]
fn borrow_at_the_limit_succeeds_and_one_above_fails() {
    let cases = [
        (position(1_000_000_000, 300_000_000), config(75, 50_000)),
        (position(2_000, 0), config(99, 1)),
        (position(0, 0), config(75, 50_000)),
    ];
    for (obligation, config) in cases {
        let limit = Processor::calculate_max_borrowable(&obligation, &config).unwrap();
        assert_eq!(
            obligation.borrow(&config, limit),
            Ok(position(obligation.zbtc_deposit, obligation.zusd_borrowed + limit))
        );
        assert_eq!(obligation.borrow(&config, limit + 1), Err(LendingError::LimitExceeded));
    }
}

#[test]
fn borrow_fails_as_the_limit_does() {
    assert_eq!(position(0, 1).borrow(&config(75, 1), 0), Err(LendingError::ArithmeticError));
}

#[test]
fn repay_up_to_the_debt() {
    assert_eq!(position(5, 7).repay(7), Ok(position(5, 0)));
    assert_eq!(position(5, 7).repay(0), Ok(position(5, 7)));
    assert_eq!(position(5, 7).repay(8), Err(LendingError::LimitExceeded));
}

#[test]
fn borrow_then_repay_restores_the_debt() {
    let config = config(75, 50_000);
    for start in [position(1_000_000_000, 0), position(1_000_000_000, 123), position(40, 1)] {
        let limit = Processor::calculate_max_borrowable(&start, &config).unwrap();
        for amount in [0, 1, limit / 2, limit] {
            let borrowed = start.borrow(&config, amount).unwrap();
            assert_eq!(borrowed.repay(amount), Ok(start));
        }
    }
}

#[test]
fn deposit_raises_the_borrow_limit_by_its_share() {
    // Values that leave no remainder: the increase is d * price * ltv / 100_000.
    let config = config(75, 50_000);
    let start = position(1_000_000_000, 300_000_000);
    let before = Processor::calculate_max_borrowable(&start, &config).unwrap();
    for amount in [1u64, 2, 1_000, 123_456, 1_000_000_000] {
        let after = Processor::calculate_max_borrowable(&start.deposit(amount).unwrap(), &config).unwrap();
        assert_eq!(after - before, amount * 50_000 * 75 / 100_000);
    }
}

#[test]
fn deposit_raises_the_borrow_limit_within_the_rounding() {
    // One unit at price 500 is worth nothing alone and completes a thousand here.
    let config = config(100, 500);
    let before = Processor::calculate_max_borrowable(&position(1, 0), &config).unwrap();
    let after = Processor::calculate_max_borrowable(&position(2, 0), &config).unwrap();
    assert_eq!((before, after), (0, 1));
    assert_eq!(1 * 500 * 100 / 100_000, 0);

    for ltv in [1u8, 33, 70, 99, 100] {
        for price in [1u64, 7, 999, 1_000, 1_001] {
            let config = self::config(ltv, price);
            for held in [0u64, 1, 999, 1_000, 54_321] {
                for amount in [1u64, 2, 999, 1_000, 1_001, 98_765] {
                    let start = position(held, 0);
                    let before = Processor::calculate_max_borrowable(&start, &config).unwrap();
                    let after =
                        Processor::calculate_max_borrowable(&start.deposit(amount).unwrap(), &config)
                            .unwrap();
                    let share = amount * price * (ltv as u64) / 100_000;
                    assert!(before <= after);
                    assert!(share <= after - before + 1);
                    assert!(after - before <= share + 2);
                }
            }
        }
    }
}

#[test]
fn accepted_operations_keep_the_position_collateralized() {
    let config = config(75, 50_000);
    let ops = [
        LedgerOp::Deposit { amount: 1_000_000_000 },
        LedgerOp::Borrow { amount: 500_000_000 },
        LedgerOp::Repay { amount: 200_000_000 },
        LedgerOp::Withdraw { amount: 500_000_000 },
        LedgerOp::Borrow { amount: 18_450_000_000 },
        LedgerOp::Deposit { amount: 1 },
        LedgerOp::Repay { amount: 18_750_000_000 },
        LedgerOp::Withdraw { amount: 500_000_001 },
    ];
    let mut reached = position(0, 0);
    for (done, op) in ops.iter().enumerate() {
        reached = reached.apply(&config, *op).unwrap();
        assert!(collateralized(&reached, &config));
        assert_eq!(position(0, 0).apply_all(&config, &ops[..done + 1]), Ok(reached));
    }
    assert_eq!(reached, position(0, 0));
}

#[test]
fn refused_operations_stop_the_list() {
    let config = config(75, 50_000);
    let ops = [
        LedgerOp::Deposit { amount: 1_000_000_000 },
        LedgerOp::Borrow { amount: 37_500_000_001 },
        LedgerOp::Deposit { amount: 0 },
    ];
    assert_eq!(position(0, 0).apply_all(&config, &ops), Err(LendingError::LimitExceeded));
    assert_eq!(position(0, 0).apply_all(&config, &ops[..1]), Ok(position(1_000_000_000, 0)));
    assert_eq!(position(3, 4).apply_all(&config, &[]), Ok(position(3, 4)));
    assert_eq!(
        position(0, 0).apply_all(&config, &[LedgerOp::Repay { amount: 1 }]),
        Err(LendingError::LimitExceeded)
    );
    assert_eq!(
        position(0, 0).apply_all(&config, &[LedgerOp::Deposit { amount: 0 }]),
        Err(LendingError::InvalidArgument)
    );
}

#[test]
fn withdrawal_into_the_rounding_leaves_a_fraction_uncovered() {
    // What the debt requires, 100 / 70, is rounded down to 1, so all but one
    // unit of value may leave; one unit supports a debt of only 0.7.
    let config = config(70, 1);
    let start = position(0, 0)
        .apply_all(&config, &[LedgerOp::Deposit { amount: 2_000 }, LedgerOp::Borrow { amount: 1 }])
        .unwrap();
    assert_eq!(start, position(2_000, 1));
    assert!(collateralized(&start, &config));
    let left = start.withdraw(&config, 1_999).unwrap();
    assert_eq!(left, position(1, 1));
    assert!(!collateralized(&left, &config));
    // The rounded requirement is still covered: nothing more may leave.
    assert_eq!(Processor::calculate_max_withdrawable(&left, &config), Ok(0));
    // One unit less and the position stays collateralized.
    assert!(collateralized(&start.withdraw(&config, 1_998).unwrap(), &config));
}
