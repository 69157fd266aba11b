//! The collateralization engine: how much a position may still borrow or
//! withdraw, and the four transitions of an obligation.

use crate::error::LendingError;
use crate::processor::Processor;
use crate::state::{Obligation, ZFubaoConfig, DECIMAL_ADJUSTMENT, PERCENT};
use vstd::prelude::*;

verus! {

/// One of the four operations that change an obligation.
#[derive(Debug, Clone, Copy, PartialEq, Eq, Structural)]
pub enum LedgerOp {
    Deposit { amount: u64 },
    Withdraw { amount: u64 },
    Borrow { amount: u64 },
    Repay { amount: u64 },
}

/// Value of the pledged collateral, in units of the debt asset before the
/// decimal adjustment.
pub open spec fn collateral_value(obligation: Obligation, config: ZFubaoConfig) -> int {
    obligation.zbtc_deposit * config.price
}

/// The largest debt that the collateral supports: the loan-to-value share of
/// the collateral's adjusted value, each division rounding down.
pub open spec fn ltv_cap(obligation: Obligation, config: ZFubaoConfig) -> int {
    (collateral_value(obligation, config) / (DECIMAL_ADJUSTMENT as int)) * config.ltv_ratio / (
    PERCENT as int)
}

/// The least collateral value that keeps the debt within the loan-to-value
/// ratio, rounded down.
pub open spec fn min_collateral_value(obligation: Obligation, config: ZFubaoConfig) -> int
    recommends
        config.ltv_ratio > 0,
{
    obligation.zusd_borrowed * PERCENT / (config.ltv_ratio as int)
}

/// What the position may still borrow. It is an `ArithmeticError` where the
/// collateral's value does not fit in 64 bits, and where the debt already
/// exceeds the cap: the headroom is never clamped.
pub open spec fn max_borrowable(obligation: Obligation, config: ZFubaoConfig) -> Result<
    u64,
    LendingError,
> {
    if collateral_value(obligation, config) > u64::MAX {
        Err(LendingError::ArithmeticError)
    } else if obligation.zusd_borrowed > ltv_cap(obligation, config) {
        Err(LendingError::ArithmeticError)
    } else {
        Ok((ltv_cap(obligation, config) - obligation.zusd_borrowed) as u64)
    }
}

/// What the position may still withdraw, in units of collateral. It is an
/// `ArithmeticError` where a product does not fit in 64 bits, where the
/// loan-to-value ratio or the price is zero, and where the debt needs more
/// collateral than is pledged.
pub open spec fn max_withdrawable(obligation: Obligation, config: ZFubaoConfig) -> Result<
    u64,
    LendingError,
> {
    if collateral_value(obligation, config) > u64::MAX {
        Err(LendingError::ArithmeticError)
    } else if obligation.zusd_borrowed * PERCENT > u64::MAX {
        Err(LendingError::ArithmeticError)
    } else if config.ltv_ratio == 0 {
        Err(LendingError::ArithmeticError)
    } else if min_collateral_value(obligation, config) > collateral_value(obligation, config) {
        Err(LendingError::ArithmeticError)
    } else if config.price == 0 {
        Err(LendingError::ArithmeticError)
    } else {
        Ok(
            ((collateral_value(obligation, config) - min_collateral_value(obligation, config)) / (
            config.price as int)) as u64,
        )
    }
}

impl Processor {
    /// Computes what the position may still borrow.
    pub fn calculate_max_borrowable(obligation: &Obligation, global_config: &ZFubaoConfig) -> (max:
        Result<u64, LendingError>)
        ensures
            max == max_borrowable(*obligation, *global_config),
    {
        let value = match obligation.zbtc_deposit.checked_mul(global_config.price) {
            Some(value) => value / DECIMAL_ADJUSTMENT,
            None => return Err(LendingError::ArithmeticError),
        };
        assert(value * global_config.ltv_ratio <= u64::MAX) by (nonlinear_arith)
            requires
                0 <= value <= u64::MAX / 1000,
                0 <= global_config.ltv_ratio <= 255,
        ;
        let share = match value.checked_mul(global_config.ltv_ratio as u64) {
            Some(share) => share,
            None => return Err(LendingError::ArithmeticError),
        };
        let cap = share / PERCENT;
        match cap.checked_sub(obligation.zusd_borrowed) {
            Some(max) => Ok(max),
            None => Err(LendingError::ArithmeticError),
        }
    }

    /// Computes what the position may still withdraw.
    pub fn calculate_max_withdrawable(obligation: &Obligation, global_config: &ZFubaoConfig) -> (max:
        Result<u64, LendingError>)
        ensures
            max == max_withdrawable(*obligation, *global_config),
    {
        let value = match obligation.zbtc_deposit.checked_mul(global_config.price) {
            Some(value) => value,
            None => return Err(LendingError::ArithmeticError),
        };
        let scaled = match obligation.zusd_borrowed.checked_mul(PERCENT) {
            Some(scaled) => scaled,
            None => return Err(LendingError::ArithmeticError),
        };
        let required = match scaled.checked_div(global_config.ltv_ratio as u64) {
            Some(required) => required,
            None => return Err(LendingError::ArithmeticError),
        };
        let headroom = match value.checked_sub(required) {
            Some(headroom) => headroom,
            None => return Err(LendingError::ArithmeticError),
        };
        match headroom.checked_div(global_config.price) {
            Some(max) => Ok(max),
            None => Err(LendingError::ArithmeticError),
        }
    }
}

impl Obligation {
    /// The position after `amount` of collateral is pledged: the amount must
    /// be positive and the deposit must still fit in 64 bits.
    pub open spec fn after_deposit(self, amount: u64) -> Result<Obligation, LendingError> {
        if amount == 0 {
            Err(LendingError::InvalidArgument)
        } else if self.zbtc_deposit + amount > u64::MAX {
            Err(LendingError::ArithmeticError)
        } else {
            Ok(Obligation { zbtc_deposit: (self.zbtc_deposit + amount) as u64, ..self })
        }
    }

    /// The position after `amount` of collateral is taken back: the amount
    /// may not exceed what the position may withdraw.
    pub open spec fn after_withdraw(self, config: ZFubaoConfig, amount: u64) -> Result<
        Obligation,
        LendingError,
    > {
        match max_withdrawable(self, config) {
            Err(error) => Err(error),
            Ok(max) => if amount > max {
                Err(LendingError::LimitExceeded)
            } else {
                Ok(Obligation { zbtc_deposit: (self.zbtc_deposit - amount) as u64, ..self })
            },
        }
    }

    /// The position after `amount` is borrowed: the amount may not exceed
    /// what the position may borrow.
    pub open spec fn after_borrow(self, config: ZFubaoConfig, amount: u64) -> Result<
        Obligation,
        LendingError,
    > {
        match max_borrowable(self, config) {
            Err(error) => Err(error),
            Ok(max) => if amount > max {
                Err(LendingError::LimitExceeded)
            } else {
                Ok(Obligation { zusd_borrowed: (self.zusd_borrowed + amount) as u64, ..self })
            },
        }
    }

    /// The position after `amount` of debt is paid back: the amount may not
    /// exceed the debt.
    pub open spec fn after_repay(self, amount: u64) -> Result<Obligation, LendingError> {
        if amount > self.zusd_borrowed {
            Err(LendingError::LimitExceeded)
        } else {
            Ok(Obligation { zusd_borrowed: (self.zusd_borrowed - amount) as u64, ..self })
        }
    }

    /// The position after one operation.
    pub open spec fn after(self, config: ZFubaoConfig, op: LedgerOp) -> Result<
        Obligation,
        LendingError,
    > {
        match op {
            LedgerOp::Deposit { amount } => self.after_deposit(amount),
            LedgerOp::Withdraw { amount } => self.after_withdraw(config, amount),
            LedgerOp::Borrow { amount } => self.after_borrow(config, amount),
            LedgerOp::Repay { amount } => self.after_repay(amount),
        }
    }

    /// The position after a list of operations, each applied to what the
    /// one before it left; the error of the first that is refused.
    pub open spec fn after_all(self, config: ZFubaoConfig, ops: Seq<LedgerOp>) -> Result<
        Obligation,
        LendingError,
    >
        decreases ops.len(),
    {
        if ops.len() == 0 {
            Ok(self)
        } else {
            match self.after_all(config, ops.drop_last()) {
                Ok(reached) => reached.after(config, ops.last()),
                Err(error) => Err(error),
            }
        }
    }

    /// Pledges `amount` of collateral.
    pub fn deposit(&self, amount: u64) -> (next: Result<Obligation, LendingError>)
        ensures
            next == self.after_deposit(amount),
    {
        if amount == 0 {
            return Err(LendingError::InvalidArgument);
        }
        match self.zbtc_deposit.checked_add(amount) {
            Some(zbtc_deposit) => Ok(
                Obligation { zbtc_deposit, zusd_borrowed: self.zusd_borrowed },
            ),
            None => Err(LendingError::ArithmeticError),
        }
    }

    /// Takes back `amount` of collateral.
    pub fn withdraw(&self, config: &ZFubaoConfig, amount: u64) -> (next: Result<
        Obligation,
        LendingError,
    >)
        ensures
            next == self.after_withdraw(*config, amount),
    {
        let max = match Processor::calculate_max_withdrawable(self, config) {
            Ok(max) => max,
            Err(error) => return Err(error),
        };
        if amount > max {
            return Err(LendingError::LimitExceeded);
        }
        proof {
            lemma_withdrawable_within_deposit(*self, *config);
        }
        Ok(
            Obligation {
                zbtc_deposit: self.zbtc_deposit - amount,
                zusd_borrowed: self.zusd_borrowed,
            },
        )
    }

    /// Borrows `amount`.
    pub fn borrow(&self, config: &ZFubaoConfig, amount: u64) -> (next: Result<
        Obligation,
        LendingError,
    >)
        ensures
            next == self.after_borrow(*config, amount),
    {
        let max = match Processor::calculate_max_borrowable(self, config) {
            Ok(max) => max,
            Err(error) => return Err(error),
        };
        if amount > max {
            return Err(LendingError::LimitExceeded);
        }
        proof {
            lemma_cap_fits(*self, *config);
        }
        Ok(
            Obligation {
                zbtc_deposit: self.zbtc_deposit,
                zusd_borrowed: self.zusd_borrowed + amount,
            },
        )
    }

    /// Pays back `amount` of debt.
    pub fn repay(&self, amount: u64) -> (next: Result<Obligation, LendingError>)
        ensures
            next == self.after_repay(amount),
    {
        if amount > self.zusd_borrowed {
            return Err(LendingError::LimitExceeded);
        }
        Ok(
            Obligation {
                zbtc_deposit: self.zbtc_deposit,
                zusd_borrowed: self.zusd_borrowed - amount,
            },
        )
    }
}

impl Obligation {
    /// Applies one operation.
    pub fn apply(&self, config: &ZFubaoConfig, op: LedgerOp) -> (next: Result<
        Obligation,
        LendingError,
    >)
        ensures
            next == self.after(*config, op),
    {
        match op {
            LedgerOp::Deposit { amount } => self.deposit(amount),
            LedgerOp::Withdraw { amount } => self.withdraw(config, amount),
            LedgerOp::Borrow { amount } => self.borrow(config, amount),
            LedgerOp::Repay { amount } => self.repay(amount),
        }
    }

    /// Applies a list of operations in order and stops at the first that is
    /// refused.
    pub fn apply_all(&self, config: &ZFubaoConfig, ops: &[LedgerOp]) -> (last: Result<
        Obligation,
        LendingError,
    >)
        ensures
            last == self.after_all(*config, ops@),
    {
        let mut reached = *self;
        let mut i: usize = 0;
        assert(ops@.take(0).len() == 0);
        while i < ops.len()
            invariant
                i <= ops.len(),
                self.after_all(*config, ops@.take(i as int)) == Ok::<Obligation, LendingError>(
                    reached,
                ),
            decreases ops.len() - i,
        {
            proof {
                assert(ops@.take(i + 1).drop_last() =~= ops@.take(i as int));
                assert(ops@.take(i + 1).last() == ops@[i as int]);
            }
            match reached.apply(config, ops[i]) {
                Ok(next) => {
                    reached = next;
                },
                Err(error) => {
                    proof {
                        lemma_refusal_stays(*self, *config, ops@, i + 1);
                    }
                    return Err(error);
                },
            }
            i += 1;
        }
        assert(ops@.take(i as int) =~= ops@);
        Ok(reached)
    }
}

/// A list of operations whose beginning is refused is refused, with the same
/// error.
pub proof fn lemma_refusal_stays(
    start: Obligation,
    config: ZFubaoConfig,
    ops: Seq<LedgerOp>,
    n: int,
)
    requires
        0 <= n <= ops.len(),
        start.after_all(config, ops.take(n)) is Err,
    ensures
        start.after_all(config, ops) == start.after_all(config, ops.take(n)),
    decreases ops.len() - n,
{
    if n == ops.len() {
        assert(ops.take(n) =~= ops);
    } else {
        assert(ops.take(n + 1).drop_last() =~= ops.take(n));
        lemma_refusal_stays(start, config, ops, n + 1);
    }
}

/// What may be withdrawn never exceeds what is pledged.
pub proof fn lemma_withdrawable_within_deposit(obligation: Obligation, config: ZFubaoConfig)
    requires
        max_withdrawable(obligation, config) is Ok,
    ensures
        max_withdrawable(obligation, config).unwrap() <= obligation.zbtc_deposit,
{
    let value = collateral_value(obligation, config);
    let required = min_collateral_value(obligation, config);
    let price = config.price as int;
    let deposit = obligation.zbtc_deposit as int;
    assert(required >= 0) by (nonlinear_arith)
        requires
            required == (obligation.zusd_borrowed * PERCENT) / (config.ltv_ratio as int),
            config.ltv_ratio > 0,
            obligation.zusd_borrowed * PERCENT >= 0,
    ;
    assert((value - required) / price <= deposit) by (nonlinear_arith)
        requires
            value == deposit * price,
            price > 0,
            0 <= required <= value,
    ;
}

/// Where the borrowing limit exists, the cap behind it fits in 64 bits.
pub proof fn lemma_cap_fits(obligation: Obligation, config: ZFubaoConfig)
    requires
        max_borrowable(obligation, config) is Ok,
    ensures
        0 <= ltv_cap(obligation, config) <= u64::MAX,
        max_borrowable(obligation, config).unwrap() + obligation.zusd_borrowed == ltv_cap(
            obligation,
            config,
        ),
{
    let adjusted = collateral_value(obligation, config) / (DECIMAL_ADJUSTMENT as int);
    assert(0 <= adjusted * config.ltv_ratio <= u64::MAX) by (nonlinear_arith)
        requires
            0 <= adjusted <= u64::MAX / 1000,
            0 <= config.ltv_ratio <= 255,
    ;
}

/// Whether the debt is within the loan-to-value share of the collateral's
/// value.
pub open spec fn is_collateralized(obligation: Obligation, config: ZFubaoConfig) -> bool {
    obligation.zusd_borrowed * PERCENT <= obligation.zbtc_deposit * config.price
        * config.ltv_ratio
}

/// Whether the collateral's value covers what the debt requires once that
/// requirement is rounded down: the bound that a withdrawal is held to.
pub open spec fn is_covered(obligation: Obligation, config: ZFubaoConfig) -> bool {
    min_collateral_value(obligation, config) <= collateral_value(obligation, config)
}

/// Whether a withdrawal of `amount` leaves exactly the rounded-down
/// requirement behind while the debt's true requirement is a fraction more.
pub open spec fn withdraws_into_rounding(
    obligation: Obligation,
    config: ZFubaoConfig,
    amount: u64,
) -> bool {
    &&& (obligation.zusd_borrowed * PERCENT) % (config.ltv_ratio as int) != 0
    &&& (obligation.zbtc_deposit - amount) * config.price == min_collateral_value(
        obligation,
        config,
    )
}

/// Borrowing any amount within the limit and then repaying the same amount
/// restores the position exactly.
pub proof fn lemma_borrow_then_repay(obligation: Obligation, config: ZFubaoConfig, amount: u64)
    requires
        max_borrowable(obligation, config) is Ok,
        amount <= max_borrowable(obligation, config).unwrap(),
    ensures
        obligation.after_borrow(config, amount) is Ok,
        obligation.after_borrow(config, amount).unwrap().after_repay(amount) == Ok::<
            Obligation,
            LendingError,
        >(obligation),
{
    lemma_cap_fits(obligation, config);
}

/// A withdrawal succeeds up to what the position may withdraw and fails with
/// `LimitExceeded` above it.
pub proof fn lemma_withdraw_boundary(obligation: Obligation, config: ZFubaoConfig, amount: u64)
    requires
        max_withdrawable(obligation, config) is Ok,
    ensures
        amount <= max_withdrawable(obligation, config).unwrap() ==> obligation.after_withdraw(
            config,
            amount,
        ) is Ok,
        amount > max_withdrawable(obligation, config).unwrap() ==> obligation.after_withdraw(
            config,
            amount,
        ) == Err::<Obligation, LendingError>(LendingError::LimitExceeded),
{
}

/// A loan succeeds up to what the position may borrow and fails with
/// `LimitExceeded` above it.
pub proof fn lemma_borrow_boundary(obligation: Obligation, config: ZFubaoConfig, amount: u64)
    requires
        max_borrowable(obligation, config) is Ok,
    ensures
        amount <= max_borrowable(obligation, config).unwrap() ==> obligation.after_borrow(
            config,
            amount,
        ) is Ok,
        amount > max_borrowable(obligation, config).unwrap() ==> obligation.after_borrow(
            config,
            amount,
        ) == Err::<Obligation, LendingError>(LendingError::LimitExceeded),
{
}

/// An accepted deposit keeps a collateralized position collateralized.
pub proof fn lemma_deposit_keeps_collateralized(
    obligation: Obligation,
    config: ZFubaoConfig,
    amount: u64,
)
    requires
        is_collateralized(obligation, config),
        obligation.after_deposit(amount) is Ok,
    ensures
        is_collateralized(obligation.after_deposit(amount).unwrap(), config),
{
    let deposit = obligation.zbtc_deposit as int;
    let price = config.price as int;
    let ltv = config.ltv_ratio as int;
    assert(deposit * price * ltv <= (deposit + amount) * price * ltv) by (nonlinear_arith)
        requires
            deposit >= 0,
            amount >= 0,
            price >= 0,
            ltv >= 0,
    ;
}

/// An accepted loan leaves the position collateralized, whatever it was
/// before.
pub proof fn lemma_borrow_keeps_collateralized(
    obligation: Obligation,
    config: ZFubaoConfig,
    amount: u64,
)
    requires
        obligation.after_borrow(config, amount) is Ok,
    ensures
        is_collateralized(obligation.after_borrow(config, amount).unwrap(), config),
{
    let value = collateral_value(obligation, config);
    let ltv = config.ltv_ratio as int;
    let adjusted = value / (DECIMAL_ADJUSTMENT as int);
    let debt = obligation.zusd_borrowed + amount;
    assert(value >= 0) by (nonlinear_arith)
        requires
            value == obligation.zbtc_deposit * config.price,
    ;
    assert(debt * 100 <= adjusted * ltv);
    assert(adjusted * ltv <= value * ltv) by (nonlinear_arith)
        requires
            0 <= adjusted <= value,
            ltv >= 0,
    ;
}

/// An accepted repayment keeps a collateralized position collateralized.
pub proof fn lemma_repay_keeps_collateralized(
    obligation: Obligation,
    config: ZFubaoConfig,
    amount: u64,
)
    requires
        is_collateralized(obligation, config),
        obligation.after_repay(amount) is Ok,
    ensures
        is_collateralized(obligation.after_repay(amount).unwrap(), config),
{
}

/// An accepted withdrawal leaves the position collateralized except where
/// it withdraws into the rounding of the requirement, and there it does not.
pub proof fn lemma_withdraw_keeps_collateralized(
    obligation: Obligation,
    config: ZFubaoConfig,
    amount: u64,
)
    requires
        obligation.after_withdraw(config, amount) is Ok,
    ensures
        is_collateralized(obligation.after_withdraw(config, amount).unwrap(), config)
            <==> !withdraws_into_rounding(obligation, config, amount),
        is_covered(obligation.after_withdraw(config, amount).unwrap(), config),
{
    let deposit = obligation.zbtc_deposit as int;
    let price = config.price as int;
    let ltv = config.ltv_ratio as int;
    let scaled = obligation.zusd_borrowed * PERCENT;
    let required = scaled / ltv;
    let value = deposit * price;
    let max = (value - required) / price;
    let left = (deposit - amount) * price;
    lemma_withdrawable_within_deposit(obligation, config);
    assert(scaled == ltv * required + scaled % ltv && 0 <= scaled % ltv < ltv) by (nonlinear_arith)
        requires
            ltv > 0,
            required == scaled / ltv,
    ;
    assert(left >= required) by (nonlinear_arith)
        requires
            left == (deposit - amount) * price,
            value == deposit * price,
            max == (value - required) / price,
            amount <= max,
            price > 0,
            value - required >= 0,
    ;
    if left == required {
        assert(left * ltv == ltv * required) by (nonlinear_arith)
            requires
                left == required,
        ;
    } else {
        assert(left * ltv >= ltv * required + ltv) by (nonlinear_arith)
            requires
                left >= required + 1,
                ltv > 0,
        ;
    }
    assert((deposit - amount) * price * ltv == left * ltv);
}

/// The loan-to-value share of the value of `amount` units of collateral,
/// after the decimal adjustment and rounded down once.
pub open spec fn ltv_share(amount: u64, config: ZFubaoConfig) -> int {
    amount * config.price * config.ltv_ratio / (PERCENT * DECIMAL_ADJUSTMENT)
}

/// Whether a deposit of `amount` raises the cap by the loan-to-value share of
/// its own value, stated over the remainders that the divisions leave: the
/// cap rounds down twice and takes along what the position's own value left
/// over, the share rounds down once.
pub open spec fn deposit_rounds_evenly(
    obligation: Obligation,
    config: ZFubaoConfig,
    amount: u64,
) -> bool {
    let scale = DECIMAL_ADJUSTMENT as int;
    let held = collateral_value(obligation, config);
    let added = amount * config.price;
    let carry: int = if held % scale + added % scale >= scale {
        1
    } else {
        0
    };
    let with_carry = (added / scale + carry) * config.ltv_ratio + (held / scale
        * config.ltv_ratio) % (PERCENT as int);
    let without = added / scale * config.ltv_ratio + (added % scale) * config.ltv_ratio / scale;
    with_carry / (PERCENT as int) == without / (PERCENT as int)
}

/// A deposit never lowers what the position may borrow. It raises it by the
/// loan-to-value share of the deposit's value, give or take the rounding: by
/// no less than the share minus one, by no more than the share plus two, and
/// by exactly the share where, and only where, the deposit rounds evenly.
pub proof fn lemma_deposit_raises_borrow_limit(
    obligation: Obligation,
    config: ZFubaoConfig,
    amount: u64,
)
    requires
        config.is_valid(),
        obligation.after_deposit(amount) is Ok,
        max_borrowable(obligation, config) is Ok,
        max_borrowable(obligation.after_deposit(amount).unwrap(), config) is Ok,
    ensures
        ({
            let before = max_borrowable(obligation, config).unwrap();
            let after = max_borrowable(obligation.after_deposit(amount).unwrap(), config).unwrap();
            let share = ltv_share(amount, config);
            &&& before <= after
            &&& share - 1 <= after - before <= share + 2
            &&& after - before == share <==> deposit_rounds_evenly(obligation, config, amount)
        }),
{
    let next = obligation.after_deposit(amount).unwrap();
    lemma_cap_fits(obligation, config);
    lemma_cap_fits(next, config);
    let ltv = config.ltv_ratio as int;
    let held = collateral_value(obligation, config);
    let added = amount * config.price;
    assert(collateral_value(next, config) == held + added && held >= 0 && added >= 0)
        by (nonlinear_arith)
        requires
            held == obligation.zbtc_deposit * config.price,
            added == amount * config.price,
            collateral_value(next, config) == (obligation.zbtc_deposit + amount) * config.price,
    ;
    let x = held / 1000;
    let z = added / 1000;
    let r = added % 1000;
    let carry: int = if held % 1000 + r >= 1000 {
        1
    } else {
        0
    };
    assert((held + added) / 1000 == x + z + carry);
    let xl = x * ltv;
    let zl = z * ltv;
    let rl = r * ltv;
    assert((x + z + carry) * ltv == xl + zl + carry * ltv && (z + carry) * ltv == zl + carry
        * ltv) by (nonlinear_arith)
        requires
            xl == x * ltv,
            zl == z * ltv,
    ;
    assert(added * ltv == 1000 * zl + rl) by (nonlinear_arith)
        requires
            added == 1000 * z + r,
            zl == z * ltv,
            rl == r * ltv,
    ;
    assert(0 <= rl < 1000 * ltv && xl >= 0 && zl >= 0 && 0 <= carry * ltv <= 100)
        by (nonlinear_arith)
        requires
            rl == r * ltv,
            xl == x * ltv,
            zl == z * ltv,
            0 <= r < 1000,
            x >= 0,
            z >= 0,
            0 <= carry <= 1,
            1 <= ltv <= 100,
    ;
    assert(ltv_cap(obligation, config) == xl / 100);
    assert(ltv_cap(next, config) == (xl + zl + carry * ltv) / 100);
    assert(ltv_share(amount, config) == (1000 * zl + rl) / 100000);
    assert((1000 * zl + rl) / 100000 == (zl + rl / 1000) / 100);
    assert((xl + zl + carry * ltv) / 100 - xl / 100 == (zl + carry * ltv + xl % 100) / 100);
}

/// A collateralized position is covered.
pub proof fn lemma_collateralized_is_covered(obligation: Obligation, config: ZFubaoConfig)
    requires
        config.ltv_ratio > 0,
        is_collateralized(obligation, config),
    ensures
        is_covered(obligation, config),
{
    let scaled = obligation.zusd_borrowed * PERCENT;
    let value = collateral_value(obligation, config);
    let ltv = config.ltv_ratio as int;
    assert(scaled / ltv <= value) by (nonlinear_arith)
        requires
            ltv > 0,
            scaled <= value * ltv,
    ;
}

/// Every accepted operation keeps a covered position covered.
pub proof fn lemma_operation_keeps_covered(
    obligation: Obligation,
    config: ZFubaoConfig,
    op: LedgerOp,
)
    requires
        config.ltv_ratio > 0,
        is_covered(obligation, config),
        obligation.after(config, op) is Ok,
    ensures
        is_covered(obligation.after(config, op).unwrap(), config),
{
    let next = obligation.after(config, op).unwrap();
    let ltv = config.ltv_ratio as int;
    match op {
        LedgerOp::Deposit { amount } => {
            assert(collateral_value(obligation, config) <= collateral_value(next, config))
                by (nonlinear_arith)
                requires
                    collateral_value(obligation, config) == obligation.zbtc_deposit * config.price,
                    collateral_value(next, config) == (obligation.zbtc_deposit + amount)
                        * config.price,
            ;
        },
        LedgerOp::Withdraw { amount } => {
            lemma_withdraw_keeps_collateralized(obligation, config, amount);
        },
        LedgerOp::Borrow { amount } => {
            lemma_borrow_keeps_collateralized(obligation, config, amount);
            lemma_collateralized_is_covered(next, config);
        },
        LedgerOp::Repay { amount } => {
            let before = obligation.zusd_borrowed * PERCENT;
            let after = next.zusd_borrowed * PERCENT;
            assert(after / ltv <= before / ltv) by (nonlinear_arith)
                requires
                    ltv > 0,
                    0 <= after <= before,
            ;
        },
    }
}

/// After any list of operations that were each accepted, a position that
/// was covered is covered.
pub proof fn lemma_accepted_operations_keep_covered(
    start: Obligation,
    config: ZFubaoConfig,
    ops: Seq<LedgerOp>,
)
    requires
        config.ltv_ratio > 0,
        is_covered(start, config),
        start.after_all(config, ops) is Ok,
    ensures
        is_covered(start.after_all(config, ops).unwrap(), config),
    decreases ops.len(),
{
    if ops.len() > 0 {
        lemma_accepted_operations_keep_covered(start, config, ops.drop_last());
        lemma_operation_keeps_covered(
            start.after_all(config, ops.drop_last()).unwrap(),
            config,
            ops.last(),
        );
    }
}

/// Whether no withdrawal in the list withdraws into the rounding of the
/// requirement.
pub open spec fn never_withdraws_into_rounding(
    start: Obligation,
    config: ZFubaoConfig,
    ops: Seq<LedgerOp>,
) -> bool
    decreases ops.len(),
{
    if ops.len() == 0 {
        true
    } else {
        &&& never_withdraws_into_rounding(start, config, ops.drop_last())
        &&& match (start.after_all(config, ops.drop_last()), ops.last()) {
            (Ok(reached), LedgerOp::Withdraw { amount }) => !withdraws_into_rounding(
                reached,
                config,
                amount,
            ),
            _ => true,
        }
    }
}

/// After any list of operations that were each accepted, a position that
/// was collateralized is collateralized, provided that no withdrawal in the
/// list withdraws into the rounding of the requirement.
pub proof fn lemma_accepted_operations_keep_collateralized(
    start: Obligation,
    config: ZFubaoConfig,
    ops: Seq<LedgerOp>,
)
    requires
        is_collateralized(start, config),
        start.after_all(config, ops) is Ok,
        never_withdraws_into_rounding(start, config, ops),
    ensures
        is_collateralized(start.after_all(config, ops).unwrap(), config),
    decreases ops.len(),
{
    if ops.len() > 0 {
        lemma_accepted_operations_keep_collateralized(start, config, ops.drop_last());
        let reached = start.after_all(config, ops.drop_last()).unwrap();
        match ops.last() {
            LedgerOp::Deposit { amount } => {
                lemma_deposit_keeps_collateralized(reached, config, amount);
            },
            LedgerOp::Withdraw { amount } => {
                lemma_withdraw_keeps_collateralized(reached, config, amount);
            },
            LedgerOp::Borrow { amount } => {
                lemma_borrow_keeps_collateralized(reached, config, amount);
            },
            LedgerOp::Repay { amount } => {
                lemma_repay_keeps_collateralized(reached, config, amount);
            },
        }
    }
}

} // verus!
