//! The transition processor: one entry point that decodes an operation and
//! answers with the effects that carry it out.
//!
//! Every operation is decided in two stages. Its plan checks the accounts and
//! the arguments against the addresses derived for them and computes the new
//! state; it calls nothing outside this library. Processing derives the
//! addresses, makes the plan and assembles it into effects. An operation that
//! fails answers with its error and no effect.

use crate::address::Address;
use crate::collateral::max_withdrawable;
use crate::effect::{
    assemble, assembled, outcome_view, Account, Effect, EffectView, Record, Signer, Step,
    TokenCall, TokenKind,
};
use crate::error::LendingError;
use crate::instructions::ZFubaoInstruction;
use crate::pda::derived_view;
use crate::state::{
    authority_address, find_authority_pda, find_global_config_pda, find_obligation_pda,
    global_config_address, obligation_address, Obligation, ZFubaoConfig, RATIO_SCALE,
};
use vstd::prelude::*;

verus! {

/// The program's operations. It holds no state of its own: every operation
/// is given the accounts it works on.
pub struct Processor;

/// A plan, or the error that stands in its place.
pub type Plan = Result<Seq<Step>, LendingError>;

/// What an operation answers.
pub type Outcome = Result<Seq<EffectView>, LendingError>;

/// A plan as a mathematical value.
pub open spec fn plan_view(plan: Result<Vec<Step>, LendingError>) -> Plan {
    match plan {
        Ok(steps) => Ok(steps@),
        Err(error) => Err(error),
    }
}

/// The outcome of a plan on `accounts`: the error of a plan that failed, and
/// else its effects or the error of the first step that cannot be carried
/// out.
pub open spec fn carried_out(accounts: Seq<Account>, plan: Plan) -> Outcome {
    match plan {
        Ok(steps) => assembled(accounts, steps),
        Err(error) => Err(error),
    }
}

/// Whether `account` lies at the derived address `derived`.
pub open spec fn at_address(account: Account, derived: Option<(Seq<u8>, u8)>) -> bool {
    derived matches Some((key, _)) && account.key@ == key
}

/// The step that allocates `space` bytes for the account at `index` where it
/// holds no data yet, and nothing where it does.
pub open spec fn created_if_empty(
    accounts: Seq<Account>,
    index: usize,
    space: usize,
    signer: Signer,
) -> Seq<Step> {
    if accounts[index as int].data@.len() == 0 {
        seq![Step::CreateAccount { payer: 0, account: index, space, signer }]
    } else {
        seq![]
    }
}

/// The obligation stored in `account`: the account must hold exactly one
/// record and belong to the program.
pub open spec fn stored_obligation(program_id: Address, account: Account) -> Result<
    Obligation,
    LendingError,
> {
    match Obligation::decoding(account.data@) {
        Some(obligation) if account.owner == program_id => Ok(obligation),
        _ => Err(LendingError::StateError),
    }
}

/// The configuration stored in `account`: the account must hold exactly one
/// record and belong to the program.
pub open spec fn stored_config(program_id: Address, account: Account) -> Result<
    ZFubaoConfig,
    LendingError,
> {
    match ZFubaoConfig::decoding(account.data@) {
        Some(config) if account.owner == program_id => Ok(config),
        _ => Err(LendingError::StateError),
    }
}

/// The market's configuration as an operation reads it: the account must lie
/// at the address derived for the configuration and hold the program's
/// record.
pub open spec fn market(
    program_id: Address,
    account: Account,
    derived: Option<(Seq<u8>, u8)>,
) -> Result<ZFubaoConfig, LendingError> {
    if !at_address(account, derived) {
        Err(LendingError::AddressMismatch)
    } else {
        stored_config(program_id, account)
    }
}

/// The market's configuration for an operation that acts in the authority's
/// name: the third account must be the market's configuration, and the
/// second the authority that the configuration names.
pub open spec fn custody(
    program_id: Address,
    accounts: Seq<Account>,
    derived: Option<(Seq<u8>, u8)>,
) -> Result<ZFubaoConfig, LendingError> {
    match market(program_id, accounts[2], derived) {
        Err(error) => Err(error),
        Ok(config) => if accounts[1].key != config.authority {
            Err(LendingError::AddressMismatch)
        } else {
            Ok(config)
        },
    }
}

/// The position of the user who calls a lending operation: the user, first
/// among the accounts, must sign, and the obligation, fourth among them, must
/// lie at the address derived for the user and hold the user's record.
pub open spec fn position(
    program_id: Address,
    accounts: Seq<Account>,
    derived: Option<(Seq<u8>, u8)>,
) -> Result<Obligation, LendingError> {
    if accounts.len() < 7 {
        Err(LendingError::NotEnoughAccountKeys)
    } else if !accounts[0].is_signer {
        Err(LendingError::AuthenticationError)
    } else if !at_address(accounts[3], derived) {
        Err(LendingError::AddressMismatch)
    } else {
        stored_obligation(program_id, accounts[3])
    }
}

/// A call of the token program.
pub open spec fn token_step(
    kind: TokenKind,
    token_program: usize,
    first: usize,
    second: usize,
    authority: usize,
    amount: u64,
    signer: Signer,
) -> Step {
    Step::Token {
        call: TokenCall { kind, token_program, first, second, authority, amount },
        signer,
    }
}

fn token(
    kind: TokenKind,
    token_program: usize,
    first: usize,
    second: usize,
    authority: usize,
    amount: u64,
    signer: Signer,
) -> (step: Step)
    ensures
        step == token_step(kind, token_program, first, second, authority, amount, signer),
{
    Step::Token {
        call: TokenCall { kind, token_program, first, second, authority, amount },
        signer,
    }
}

fn load_obligation(program_id: &Address, account: &Account) -> (read: Result<
    Obligation,
    LendingError,
>)
    ensures
        read == stored_obligation(*program_id, *account),
{
    let obligation = match Obligation::unpack(account.data.as_slice()) {
        Ok(obligation) => obligation,
        Err(error) => return Err(error),
    };
    if !account.owner.same(program_id) {
        return Err(LendingError::StateError);
    }
    Ok(obligation)
}

fn load_config(program_id: &Address, account: &Account) -> (read: Result<
    ZFubaoConfig,
    LendingError,
>)
    ensures
        read == stored_config(*program_id, *account),
{
    let config = match ZFubaoConfig::unpack(account.data.as_slice()) {
        Ok(config) => config,
        Err(error) => return Err(error),
    };
    if !account.owner.same(program_id) {
        return Err(LendingError::StateError);
    }
    Ok(config)
}

fn load_market(program_id: &Address, account: &Account, derived: Option<(Address, u8)>) -> (read:
    Result<ZFubaoConfig, LendingError>)
    ensures
        read == market(*program_id, *account, derived_view(derived)),
{
    match derived {
        Some((key, _)) => {
            if !account.key.same(&key) {
                return Err(LendingError::AddressMismatch);
            }
        },
        None => return Err(LendingError::AddressMismatch),
    }
    load_config(program_id, account)
}

fn load_custody(program_id: &Address, accounts: &[Account], derived: Option<(Address, u8)>) -> (read:
    Result<ZFubaoConfig, LendingError>)
    requires
        accounts@.len() >= 3,
    ensures
        read == custody(*program_id, accounts@, derived_view(derived)),
{
    let config = match load_market(program_id, &accounts[2], derived) {
        Ok(config) => config,
        Err(error) => return Err(error),
    };
    if !accounts[1].key.same(&config.authority) {
        return Err(LendingError::AddressMismatch);
    }
    Ok(config)
}

fn load_position(program_id: &Address, accounts: &[Account], derived: Option<(Address, u8)>) -> (read:
    Result<Obligation, LendingError>)
    ensures
        read == position(*program_id, accounts@, derived_view(derived)),
{
    if accounts.len() < 7 {
        return Err(LendingError::NotEnoughAccountKeys);
    }
    if !accounts[0].is_signer {
        return Err(LendingError::AuthenticationError);
    }
    match derived {
        Some((key, _)) => {
            if !accounts[3].key.same(&key) {
                return Err(LendingError::AddressMismatch);
            }
        },
        None => return Err(LendingError::AddressMismatch),
    }
    load_obligation(program_id, &accounts[3])
}

impl Processor {
    /// The plan of `Initialize`.
    ///
    /// The owner must sign; the authority and the configuration must lie at
    /// their derived addresses; the configuration must not exist yet, that
    /// is, its account must hold no data; the parameters must satisfy the
    /// invariant of the configuration; and the clock must be available. The
    /// authority is created where it holds no data, and the configuration
    /// is created and written with the exchange ratio at one. A market is
    /// initialized once: afterwards only the refresh changes its record.
    pub open spec fn initialize_plan(
        accounts: Seq<Account>,
        ltv_ratio: u8,
        price: u64,
        clock: Option<i64>,
        authority: Option<(Seq<u8>, u8)>,
        global_config: Option<(Seq<u8>, u8)>,
    ) -> Plan {
        if accounts.len() < 6 {
            Err(LendingError::NotEnoughAccountKeys)
        } else if !accounts[0].is_signer {
            Err(LendingError::AuthenticationError)
        } else if !at_address(accounts[1], authority) {
            Err(LendingError::AddressMismatch)
        } else if !at_address(accounts[2], global_config) {
            Err(LendingError::AddressMismatch)
        } else if accounts[2].data@.len() != 0 {
            Err(LendingError::StateError)
        } else if !(1 <= ltv_ratio <= 100 && price > 0) {
            Err(LendingError::InvalidArgument)
        } else if clock is None {
            Err(LendingError::ClockUnavailable)
        } else {
            let authority_bump = authority.unwrap().1;
            let global_config_bump = global_config.unwrap().1;
            let config = ZFubaoConfig {
                authority: accounts[1].key,
                zbtc_mint: accounts[3].key,
                zusd_mint: accounts[4].key,
                authority_bump,
                global_config_bump,
                ltv_ratio,
                price,
                start_time: clock.unwrap(),
                szusd_price_ratio: RATIO_SCALE,
            };
            Ok(
                created_if_empty(accounts, 1, 0, Signer::Authority { bump: authority_bump })
                    + seq![
                    Step::CreateAccount {
                        payer: 0,
                        account: 2,
                        space: ZFubaoConfig::LEN,
                        signer: Signer::GlobalConfig { bump: global_config_bump },
                    },
                    Step::Store { account: 2, record: Record::Config(config) },
                ],
            )
        }
    }

    /// What `Initialize` answers.
    pub open spec fn initialize_outcome(
        program_id: Address,
        accounts: Seq<Account>,
        ltv_ratio: u8,
        price: u64,
        clock: Option<i64>,
    ) -> Outcome {
        carried_out(
            accounts,
            Self::initialize_plan(
                accounts,
                ltv_ratio,
                price,
                clock,
                authority_address(program_id),
                global_config_address(program_id),
            ),
        )
    }

    /// Plans `Initialize` against the derived addresses of the authority and
    /// of the configuration.
    pub fn plan_initialize(
        accounts: &[Account],
        ltv_ratio: u8,
        price: u64,
        clock: Option<i64>,
        authority: Option<(Address, u8)>,
        global_config: Option<(Address, u8)>,
    ) -> (plan: Result<Vec<Step>, LendingError>)
        ensures
            plan_view(plan) == Self::initialize_plan(
                accounts@,
                ltv_ratio,
                price,
                clock,
                derived_view(authority),
                derived_view(global_config),
            ),
            plan matches Ok(steps) ==> steps@.last() matches Step::Store {
                record: Record::Config(config),
                ..
            } && config.is_valid(),
    {
        if accounts.len() < 6 {
            return Err(LendingError::NotEnoughAccountKeys);
        }
        if !accounts[0].is_signer {
            return Err(LendingError::AuthenticationError);
        }
        let authority_bump = match authority {
            Some((key, bump)) => {
                if !accounts[1].key.same(&key) {
                    return Err(LendingError::AddressMismatch);
                }
                bump
            },
            None => return Err(LendingError::AddressMismatch),
        };
        let global_config_bump = match global_config {
            Some((key, bump)) => {
                if !accounts[2].key.same(&key) {
                    return Err(LendingError::AddressMismatch);
                }
                bump
            },
            None => return Err(LendingError::AddressMismatch),
        };
        if accounts[2].data.len() != 0 {
            return Err(LendingError::StateError);
        }
        if ltv_ratio < 1 || ltv_ratio > 100 || price == 0 {
            return Err(LendingError::InvalidArgument);
        }
        let start_time = match clock {
            Some(now) => now,
            None => return Err(LendingError::ClockUnavailable),
        };
        let config = ZFubaoConfig {
            authority: accounts[1].key,
            zbtc_mint: accounts[3].key,
            zusd_mint: accounts[4].key,
            authority_bump,
            global_config_bump,
            ltv_ratio,
            price,
            start_time,
            szusd_price_ratio: RATIO_SCALE,
        };
        let mut steps: Vec<Step> = Vec::new();
        if accounts[1].data.len() == 0 {
            steps.push(
                Step::CreateAccount {
                    payer: 0,
                    account: 1,
                    space: 0,
                    signer: Signer::Authority { bump: authority_bump },
                },
            );
        }
        steps.push(
            Step::CreateAccount {
                payer: 0,
                account: 2,
                space: ZFubaoConfig::LEN,
                signer: Signer::GlobalConfig { bump: global_config_bump },
            },
        );
        steps.push(Step::Store { account: 2, record: Record::Config(config) });
        assert(steps@ =~= Self::initialize_plan(
            accounts@,
            ltv_ratio,
            price,
            clock,
            derived_view(authority),
            derived_view(global_config),
        ).unwrap());
        Ok(steps)
    }

    /// Carries out `Initialize`: derives the addresses of the authority and
    /// of the configuration, plans against them and assembles the plan.
    pub fn process_initialize(
        program_id: &Address,
        accounts: &[Account],
        ltv_ratio: u8,
        price: u64,
        clock: Option<i64>,
    ) -> (outcome: Result<Vec<Effect>, LendingError>)
        ensures
            outcome_view(outcome) == Self::initialize_outcome(
                *program_id,
                accounts@,
                ltv_ratio,
                price,
                clock,
            ),
    {
        let authority = find_authority_pda(program_id);
        let global_config = find_global_config_pda(program_id);
        match Self::plan_initialize(accounts, ltv_ratio, price, clock, authority, global_config) {
            Ok(steps) => assemble(accounts, &steps),
            Err(error) => Err(error),
        }
    }

    /// The plan of `InitObligation`.
    ///
    /// The user must sign; the obligation must lie at the address derived for
    /// the user, hold no data and not yet belong to the program. It is
    /// created and written with no collateral and no debt.
    pub open spec fn init_obligation_plan(
        program_id: Address,
        accounts: Seq<Account>,
        derived: Option<(Seq<u8>, u8)>,
    ) -> Plan {
        if accounts.len() < 5 {
            Err(LendingError::NotEnoughAccountKeys)
        } else if !accounts[0].is_signer {
            Err(LendingError::AuthenticationError)
        } else if !at_address(accounts[3], derived) {
            Err(LendingError::AddressMismatch)
        } else if accounts[3].data@.len() != 0 || accounts[3].owner == program_id {
            Err(LendingError::StateError)
        } else {
            Ok(
                seq![
                    Step::CreateAccount {
                        payer: 0,
                        account: 3,
                        space: Obligation::LEN,
                        signer: Signer::Obligation { user: accounts[0].key, bump: derived.unwrap().1 },
                    },
                    Step::Store {
                        account: 3,
                        record: Record::Obligation(Obligation { zbtc_deposit: 0, zusd_borrowed: 0 }),
                    },
                ],
            )
        }
    }

    /// What `InitObligation` answers.
    pub open spec fn init_obligation_outcome(program_id: Address, accounts: Seq<Account>) -> Outcome {
        carried_out(
            accounts,
            Self::init_obligation_plan(
                program_id,
                accounts,
                obligation_address(accounts[0].key, program_id),
            ),
        )
    }

    /// Plans `InitObligation` against the address derived for the user.
    pub fn plan_init_obligation(
        program_id: &Address,
        accounts: &[Account],
        derived: Option<(Address, u8)>,
    ) -> (plan: Result<Vec<Step>, LendingError>)
        ensures
            plan_view(plan) == Self::init_obligation_plan(
                *program_id,
                accounts@,
                derived_view(derived),
            ),
    {
        if accounts.len() < 5 {
            return Err(LendingError::NotEnoughAccountKeys);
        }
        if !accounts[0].is_signer {
            return Err(LendingError::AuthenticationError);
        }
        let bump = match derived {
            Some((key, bump)) => {
                if !accounts[3].key.same(&key) {
                    return Err(LendingError::AddressMismatch);
                }
                bump
            },
            None => return Err(LendingError::AddressMismatch),
        };
        if accounts[3].data.len() != 0 || accounts[3].owner.same(program_id) {
            return Err(LendingError::StateError);
        }
        let mut steps: Vec<Step> = Vec::new();
        steps.push(
            Step::CreateAccount {
                payer: 0,
                account: 3,
                space: Obligation::LEN,
                signer: Signer::Obligation { user: accounts[0].key, bump },
            },
        );
        steps.push(
            Step::Store {
                account: 3,
                record: Record::Obligation(Obligation { zbtc_deposit: 0, zusd_borrowed: 0 }),
            },
        );
        assert(steps@ =~= Self::init_obligation_plan(
            *program_id,
            accounts@,
            derived_view(derived),
        ).unwrap());
        Ok(steps)
    }

    /// Carries out `InitObligation`.
    pub fn process_init_obligation(program_id: &Address, accounts: &[Account]) -> (outcome: Result<
        Vec<Effect>,
        LendingError,
    >)
        ensures
            outcome_view(outcome) == Self::init_obligation_outcome(*program_id, accounts@),
    {
        if accounts.len() < 5 {
            return Err(LendingError::NotEnoughAccountKeys);
        }
        let derived = find_obligation_pda(&accounts[0].key, program_id);
        match Self::plan_init_obligation(program_id, accounts, derived) {
            Ok(steps) => assemble(accounts, &steps),
            Err(error) => Err(error),
        }
    }

    /// The plan of `DepositZBTC`.
    ///
    /// The user's position must be in order and the deposit accepted. The
    /// amount moves from the user's collateral account to the vault in the
    /// user's name, and the obligation is written with the larger deposit.
    pub open spec fn deposit_plan(
        program_id: Address,
        accounts: Seq<Account>,
        amount: u64,
        derived: Option<(Seq<u8>, u8)>,
    ) -> Plan {
        match position(program_id, accounts, derived) {
            Err(error) => Err(error),
            Ok(obligation) => match obligation.after_deposit(amount) {
                Err(error) => Err(error),
                Ok(next) => Ok(
                    seq![
                        token_step(TokenKind::Transfer, 6, 4, 5, 0, amount, Signer::Caller),
                        Step::Store { account: 3, record: Record::Obligation(next) },
                    ],
                ),
            },
        }
    }

    /// What `DepositZBTC` answers.
    pub open spec fn deposit_outcome(program_id: Address, accounts: Seq<Account>, amount: u64) -> Outcome {
        carried_out(
            accounts,
            Self::deposit_plan(
                program_id,
                accounts,
                amount,
                obligation_address(accounts[0].key, program_id),
            ),
        )
    }

    /// Plans `DepositZBTC` against the address derived for the user.
    pub fn plan_deposit_zbtc(
        program_id: &Address,
        accounts: &[Account],
        amount: u64,
        derived: Option<(Address, u8)>,
    ) -> (plan: Result<Vec<Step>, LendingError>)
        ensures
            plan_view(plan) == Self::deposit_plan(
                *program_id,
                accounts@,
                amount,
                derived_view(derived),
            ),
    {
        let obligation = match load_position(program_id, accounts, derived) {
            Ok(obligation) => obligation,
            Err(error) => return Err(error),
        };
        let next = match obligation.deposit(amount) {
            Ok(next) => next,
            Err(error) => return Err(error),
        };
        let mut steps: Vec<Step> = Vec::new();
        steps.push(token(TokenKind::Transfer, 6, 4, 5, 0, amount, Signer::Caller));
        steps.push(Step::Store { account: 3, record: Record::Obligation(next) });
        assert(steps@ =~= Self::deposit_plan(
            *program_id,
            accounts@,
            amount,
            derived_view(derived),
        ).unwrap());
        Ok(steps)
    }

    /// Carries out `DepositZBTC`.
    pub fn process_deposit_zbtc(program_id: &Address, accounts: &[Account], amount: u64) -> (outcome:
        Result<Vec<Effect>, LendingError>)
        ensures
            outcome_view(outcome) == Self::deposit_outcome(*program_id, accounts@, amount),
    {
        if accounts.len() < 7 {
            return Err(LendingError::NotEnoughAccountKeys);
        }
        let derived = find_obligation_pda(&accounts[0].key, program_id);
        match Self::plan_deposit_zbtc(program_id, accounts, amount, derived) {
            Ok(steps) => assemble(accounts, &steps),
            Err(error) => Err(error),
        }
    }

    /// The plan of `WithdrawZBTC`.
    ///
    /// The user's position must be in order, the third account must be the
    /// market's configuration and the second its authority, and the
    /// withdrawal must be within what the position may withdraw. The amount moves from the vault to the
    /// user's collateral account in the authority's name, and the obligation
    /// is written with the smaller deposit.
    pub open spec fn withdraw_plan(
        program_id: Address,
        accounts: Seq<Account>,
        amount: u64,
        derived: Option<(Seq<u8>, u8)>,
        global_config: Option<(Seq<u8>, u8)>,
    ) -> Plan {
        match position(program_id, accounts, derived) {
            Err(error) => Err(error),
            Ok(obligation) => match custody(program_id, accounts, global_config) {
                Err(error) => Err(error),
                Ok(config) => match obligation.after_withdraw(config, amount) {
                    Err(error) => Err(error),
                    Ok(next) => Ok(
                        seq![
                            token_step(
                                TokenKind::Transfer,
                                6,
                                5,
                                4,
                                1,
                                amount,
                                Signer::Authority { bump: config.authority_bump },
                            ),
                            Step::Store { account: 3, record: Record::Obligation(next) },
                        ],
                    ),
                },
            },
        }
    }

    /// What `WithdrawZBTC` answers.
    pub open spec fn withdraw_outcome(program_id: Address, accounts: Seq<Account>, amount: u64) -> Outcome {
        carried_out(
            accounts,
            Self::withdraw_plan(
                program_id,
                accounts,
                amount,
                obligation_address(accounts[0].key, program_id),
                global_config_address(program_id),
            ),
        )
    }

    /// Plans `WithdrawZBTC` against the addresses derived for the user and for the
    /// configuration.
    pub fn plan_withdraw_zbtc(
        program_id: &Address,
        accounts: &[Account],
        amount: u64,
        derived: Option<(Address, u8)>,
        global_config: Option<(Address, u8)>,
    ) -> (plan: Result<Vec<Step>, LendingError>)
        ensures
            plan_view(plan) == Self::withdraw_plan(
                *program_id,
                accounts@,
                amount,
                derived_view(derived),
                derived_view(global_config),
            ),
    {
        let obligation = match load_position(program_id, accounts, derived) {
            Ok(obligation) => obligation,
            Err(error) => return Err(error),
        };
        let config = match load_custody(program_id, accounts, global_config) {
            Ok(config) => config,
            Err(error) => return Err(error),
        };
        let next = match obligation.withdraw(&config, amount) {
            Ok(next) => next,
            Err(error) => return Err(error),
        };
        let signer = Signer::Authority { bump: config.authority_bump };
        let mut steps: Vec<Step> = Vec::new();
        steps.push(token(TokenKind::Transfer, 6, 5, 4, 1, amount, signer));
        steps.push(Step::Store { account: 3, record: Record::Obligation(next) });
        assert(steps@ =~= Self::withdraw_plan(
            *program_id,
            accounts@,
            amount,
            derived_view(derived),
            derived_view(global_config),
        ).unwrap());
        Ok(steps)
    }

    /// Carries out `WithdrawZBTC`.
    pub fn process_withdraw_zbtc(program_id: &Address, accounts: &[Account], amount: u64) -> (outcome:
        Result<Vec<Effect>, LendingError>)
        ensures
            outcome_view(outcome) == Self::withdraw_outcome(*program_id, accounts@, amount),
    {
        if accounts.len() < 7 {
            return Err(LendingError::NotEnoughAccountKeys);
        }
        let derived = find_obligation_pda(&accounts[0].key, program_id);
        let global_config = find_global_config_pda(program_id);
        match Self::plan_withdraw_zbtc(program_id, accounts, amount, derived, global_config) {
            Ok(steps) => assemble(accounts, &steps),
            Err(error) => Err(error),
        }
    }

    /// The plan of `BorrowZUSD`.
    ///
    /// The user's position must be in order, the third account must be the
    /// market's configuration and the second its authority, and the loan
    /// must be within what the position may borrow. The amount is minted to the user's debt-asset
    /// account in the authority's name, and the obligation is written with
    /// the larger debt.
    pub open spec fn borrow_plan(
        program_id: Address,
        accounts: Seq<Account>,
        amount: u64,
        derived: Option<(Seq<u8>, u8)>,
        global_config: Option<(Seq<u8>, u8)>,
    ) -> Plan {
        match position(program_id, accounts, derived) {
            Err(error) => Err(error),
            Ok(obligation) => match custody(program_id, accounts, global_config) {
                Err(error) => Err(error),
                Ok(config) => match obligation.after_borrow(config, amount) {
                    Err(error) => Err(error),
                    Ok(next) => Ok(
                        seq![
                            token_step(
                                TokenKind::MintTo,
                                6,
                                5,
                                4,
                                1,
                                amount,
                                Signer::Authority { bump: config.authority_bump },
                            ),
                            Step::Store { account: 3, record: Record::Obligation(next) },
                        ],
                    ),
                },
            },
        }
    }

    /// What `BorrowZUSD` answers.
    pub open spec fn borrow_outcome(program_id: Address, accounts: Seq<Account>, amount: u64) -> Outcome {
        carried_out(
            accounts,
            Self::borrow_plan(
                program_id,
                accounts,
                amount,
                obligation_address(accounts[0].key, program_id),
                global_config_address(program_id),
            ),
        )
    }

    /// Plans `BorrowZUSD` against the addresses derived for the user and for the
    /// configuration.
    pub fn plan_borrow_zusd(
        program_id: &Address,
        accounts: &[Account],
        amount: u64,
        derived: Option<(Address, u8)>,
        global_config: Option<(Address, u8)>,
    ) -> (plan: Result<Vec<Step>, LendingError>)
        ensures
            plan_view(plan) == Self::borrow_plan(
                *program_id,
                accounts@,
                amount,
                derived_view(derived),
                derived_view(global_config),
            ),
    {
        let obligation = match load_position(program_id, accounts, derived) {
            Ok(obligation) => obligation,
            Err(error) => return Err(error),
        };
        let config = match load_custody(program_id, accounts, global_config) {
            Ok(config) => config,
            Err(error) => return Err(error),
        };
        let next = match obligation.borrow(&config, amount) {
            Ok(next) => next,
            Err(error) => return Err(error),
        };
        let signer = Signer::Authority { bump: config.authority_bump };
        let mut steps: Vec<Step> = Vec::new();
        steps.push(token(TokenKind::MintTo, 6, 5, 4, 1, amount, signer));
        steps.push(Step::Store { account: 3, record: Record::Obligation(next) });
        assert(steps@ =~= Self::borrow_plan(
            *program_id,
            accounts@,
            amount,
            derived_view(derived),
            derived_view(global_config),
        ).unwrap());
        Ok(steps)
    }

    /// Carries out `BorrowZUSD`.
    pub fn process_borrow_zusd(program_id: &Address, accounts: &[Account], amount: u64) -> (outcome:
        Result<Vec<Effect>, LendingError>)
        ensures
            outcome_view(outcome) == Self::borrow_outcome(*program_id, accounts@, amount),
    {
        if accounts.len() < 7 {
            return Err(LendingError::NotEnoughAccountKeys);
        }
        let derived = find_obligation_pda(&accounts[0].key, program_id);
        let global_config = find_global_config_pda(program_id);
        match Self::plan_borrow_zusd(program_id, accounts, amount, derived, global_config) {
            Ok(steps) => assemble(accounts, &steps),
            Err(error) => Err(error),
        }
    }

    /// The plan of `RepayZUSD`.
    ///
    /// The user's position must be in order, the third account must be the
    /// market's configuration, and the amount may not exceed the debt.
    /// The amount is burned from the user's debt-asset account in the user's
    /// name, and the obligation is written with the smaller debt.
    pub open spec fn repay_plan(
        program_id: Address,
        accounts: Seq<Account>,
        amount: u64,
        derived: Option<(Seq<u8>, u8)>,
        global_config: Option<(Seq<u8>, u8)>,
    ) -> Plan {
        match position(program_id, accounts, derived) {
            Err(error) => Err(error),
            Ok(obligation) => match market(program_id, accounts[2], global_config) {
                Err(error) => Err(error),
                Ok(config) => match obligation.after_repay(amount) {
                    Err(error) => Err(error),
                    Ok(next) => Ok(
                        seq![
                            token_step(
                                TokenKind::Burn,
                                6,
                                4,
                                5,
                                0,
                                amount,
                                Signer::Authority { bump: config.authority_bump },
                            ),
                            Step::Store { account: 3, record: Record::Obligation(next) },
                        ],
                    ),
                },
            },
        }
    }

    /// What `RepayZUSD` answers.
    pub open spec fn repay_outcome(program_id: Address, accounts: Seq<Account>, amount: u64) -> Outcome {
        carried_out(
            accounts,
            Self::repay_plan(
                program_id,
                accounts,
                amount,
                obligation_address(accounts[0].key, program_id),
                global_config_address(program_id),
            ),
        )
    }

    /// Plans `RepayZUSD` against the addresses derived for the user and for the
    /// configuration.
    pub fn plan_repay_zusd(
        program_id: &Address,
        accounts: &[Account],
        amount: u64,
        derived: Option<(Address, u8)>,
        global_config: Option<(Address, u8)>,
    ) -> (plan: Result<Vec<Step>, LendingError>)
        ensures
            plan_view(plan) == Self::repay_plan(
                *program_id,
                accounts@,
                amount,
                derived_view(derived),
                derived_view(global_config),
            ),
    {
        let obligation = match load_position(program_id, accounts, derived) {
            Ok(obligation) => obligation,
            Err(error) => return Err(error),
        };
        let config = match load_market(program_id, &accounts[2], global_config) {
            Ok(config) => config,
            Err(error) => return Err(error),
        };
        let next = match obligation.repay(amount) {
            Ok(next) => next,
            Err(error) => return Err(error),
        };
        let signer = Signer::Authority { bump: config.authority_bump };
        let mut steps: Vec<Step> = Vec::new();
        steps.push(token(TokenKind::Burn, 6, 4, 5, 0, amount, signer));
        steps.push(Step::Store { account: 3, record: Record::Obligation(next) });
        assert(steps@ =~= Self::repay_plan(
            *program_id,
            accounts@,
            amount,
            derived_view(derived),
            derived_view(global_config),
        ).unwrap());
        Ok(steps)
    }

    /// Carries out `RepayZUSD`.
    pub fn process_repay_zusd(program_id: &Address, accounts: &[Account], amount: u64) -> (outcome:
        Result<Vec<Effect>, LendingError>)
        ensures
            outcome_view(outcome) == Self::repay_outcome(*program_id, accounts@, amount),
    {
        if accounts.len() < 7 {
            return Err(LendingError::NotEnoughAccountKeys);
        }
        let derived = find_obligation_pda(&accounts[0].key, program_id);
        let global_config = find_global_config_pda(program_id);
        match Self::plan_repay_zusd(program_id, accounts, amount, derived, global_config) {
            Ok(steps) => assemble(accounts, &steps),
            Err(error) => Err(error),
        }
    }

    /// The configuration that `Stake` and `Unstake` read: the user, first
    /// among the ten accounts, must sign, the third must be the market's
    /// configuration and the second the authority that it names.
    pub open spec fn staking_config(
        program_id: Address,
        accounts: Seq<Account>,
        global_config: Option<(Seq<u8>, u8)>,
    ) -> Result<ZFubaoConfig, LendingError> {
        if accounts.len() < 10 {
            Err(LendingError::NotEnoughAccountKeys)
        } else if !accounts[0].is_signer {
            Err(LendingError::AuthenticationError)
        } else {
            custody(program_id, accounts, global_config)
        }
    }

    /// The plan of `Stake`.
    ///
    /// The amount moves from the user's debt-asset account to the staking
    /// vault in the user's name, and the receipt units that it is worth at
    /// the exchange ratio are minted to the user's receipt account in the
    /// authority's name.
    pub open spec fn stake_plan(
        program_id: Address,
        accounts: Seq<Account>,
        amount: u64,
        global_config: Option<(Seq<u8>, u8)>,
    ) -> Plan {
        match Self::staking_config(program_id, accounts, global_config) {
            Err(error) => Err(error),
            Ok(config) => match config.staked(amount) {
                Err(error) => Err(error),
                Ok(receipt) => Ok(
                    seq![
                        token_step(TokenKind::Transfer, 8, 3, 7, 0, amount, Signer::Caller),
                        token_step(
                            TokenKind::MintTo,
                            8,
                            6,
                            4,
                            1,
                            receipt,
                            Signer::Authority { bump: config.authority_bump },
                        ),
                    ],
                ),
            },
        }
    }

    /// What `Stake` answers.
    pub open spec fn stake_outcome(program_id: Address, accounts: Seq<Account>, amount: u64) -> Outcome {
        carried_out(
            accounts,
            Self::stake_plan(program_id, accounts, amount, global_config_address(program_id)),
        )
    }

    /// The plan of `Unstake`.
    ///
    /// The amount is burned from the user's receipt account in the user's
    /// name, and the debt-asset units that it redeems at the whole part of
    /// the exchange ratio move from the staking vault to the user's
    /// debt-asset account in the authority's name.
    pub open spec fn unstake_plan(
        program_id: Address,
        accounts: Seq<Account>,
        amount: u64,
        global_config: Option<(Seq<u8>, u8)>,
    ) -> Plan {
        match Self::staking_config(program_id, accounts, global_config) {
            Err(error) => Err(error),
            Ok(config) => match config.unstaked(amount) {
                Err(error) => Err(error),
                Ok(payout) => Ok(
                    seq![
                        token_step(TokenKind::Burn, 8, 4, 6, 0, amount, Signer::Caller),
                        token_step(
                            TokenKind::Transfer,
                            8,
                            7,
                            3,
                            1,
                            payout,
                            Signer::Authority { bump: config.authority_bump },
                        ),
                    ],
                ),
            },
        }
    }

    /// What `Unstake` answers.
    pub open spec fn unstake_outcome(program_id: Address, accounts: Seq<Account>, amount: u64) -> Outcome {
        carried_out(
            accounts,
            Self::unstake_plan(program_id, accounts, amount, global_config_address(program_id)),
        )
    }

    /// The plan of `RefreshPrice`.
    ///
    /// The administrative authority alone may refresh: the first account
    /// must have signed, the second must be the market's configuration, the
    /// first must be the authority that the configuration names, and the
    /// clock must be available. The authority is a derived address, so its
    /// signature is one given in its name with its seeds. The configuration
    /// is written with the exchange ratio advanced to the clock's time.
    pub open spec fn refresh_plan(
        program_id: Address,
        accounts: Seq<Account>,
        clock: Option<i64>,
        global_config: Option<(Seq<u8>, u8)>,
    ) -> Plan {
        if accounts.len() < 2 {
            Err(LendingError::NotEnoughAccountKeys)
        } else if !accounts[0].is_signer {
            Err(LendingError::AuthenticationError)
        } else {
            match market(program_id, accounts[1], global_config) {
                Err(error) => Err(error),
                Ok(config) => if accounts[0].key != config.authority {
                    Err(LendingError::AddressMismatch)
                } else {
                    match clock {
                        None => Err(LendingError::ClockUnavailable),
                        Some(now) => match config.refreshed(now) {
                            Err(error) => Err(error),
                            Ok(next) => Ok(
                                seq![Step::Store { account: 1, record: Record::Config(next) }],
                            ),
                        },
                    }
                },
            }
        }
    }

    /// What `RefreshPrice` answers.
    pub open spec fn refresh_outcome(
        program_id: Address,
        accounts: Seq<Account>,
        clock: Option<i64>,
    ) -> Outcome {
        carried_out(
            accounts,
            Self::refresh_plan(program_id, accounts, clock, global_config_address(program_id)),
        )
    }

    fn load_staking_config(
        program_id: &Address,
        accounts: &[Account],
        global_config: Option<(Address, u8)>,
    ) -> (read: Result<ZFubaoConfig, LendingError>)
        ensures
            read == Self::staking_config(*program_id, accounts@, derived_view(global_config)),
    {
        if accounts.len() < 10 {
            return Err(LendingError::NotEnoughAccountKeys);
        }
        if !accounts[0].is_signer {
            return Err(LendingError::AuthenticationError);
        }
        load_custody(program_id, accounts, global_config)
    }

    /// Plans `Stake` against the address derived for the configuration.
    pub fn plan_stake(
        program_id: &Address,
        accounts: &[Account],
        amount: u64,
        global_config: Option<(Address, u8)>,
    ) -> (plan: Result<Vec<Step>, LendingError>)
        ensures
            plan_view(plan) == Self::stake_plan(
                *program_id,
                accounts@,
                amount,
                derived_view(global_config),
            ),
    {
        let config = match Self::load_staking_config(program_id, accounts, global_config) {
            Ok(config) => config,
            Err(error) => return Err(error),
        };
        let receipt = match config.stake(amount) {
            Ok(receipt) => receipt,
            Err(error) => return Err(error),
        };
        let signer = Signer::Authority { bump: config.authority_bump };
        let mut steps: Vec<Step> = Vec::new();
        steps.push(token(TokenKind::Transfer, 8, 3, 7, 0, amount, Signer::Caller));
        steps.push(token(TokenKind::MintTo, 8, 6, 4, 1, receipt, signer));
        assert(steps@ =~= Self::stake_plan(
            *program_id,
            accounts@,
            amount,
            derived_view(global_config),
        ).unwrap());
        Ok(steps)
    }

    /// Carries out `Stake`.
    pub fn process_stake(program_id: &Address, accounts: &[Account], amount: u64) -> (outcome: Result<
        Vec<Effect>,
        LendingError,
    >)
        ensures
            outcome_view(outcome) == Self::stake_outcome(*program_id, accounts@, amount),
    {
        let global_config = find_global_config_pda(program_id);
        match Self::plan_stake(program_id, accounts, amount, global_config) {
            Ok(steps) => assemble(accounts, &steps),
            Err(error) => Err(error),
        }
    }

    /// Plans `Unstake` against the address derived for the configuration.
    pub fn plan_unstake(
        program_id: &Address,
        accounts: &[Account],
        amount: u64,
        global_config: Option<(Address, u8)>,
    ) -> (plan: Result<Vec<Step>, LendingError>)
        ensures
            plan_view(plan) == Self::unstake_plan(
                *program_id,
                accounts@,
                amount,
                derived_view(global_config),
            ),
    {
        let config = match Self::load_staking_config(program_id, accounts, global_config) {
            Ok(config) => config,
            Err(error) => return Err(error),
        };
        let payout = match config.unstake(amount) {
            Ok(payout) => payout,
            Err(error) => return Err(error),
        };
        let signer = Signer::Authority { bump: config.authority_bump };
        let mut steps: Vec<Step> = Vec::new();
        steps.push(token(TokenKind::Burn, 8, 4, 6, 0, amount, Signer::Caller));
        steps.push(token(TokenKind::Transfer, 8, 7, 3, 1, payout, signer));
        assert(steps@ =~= Self::unstake_plan(
            *program_id,
            accounts@,
            amount,
            derived_view(global_config),
        ).unwrap());
        Ok(steps)
    }

    /// Carries out `Unstake`.
    pub fn process_unstake(program_id: &Address, accounts: &[Account], amount: u64) -> (outcome:
        Result<Vec<Effect>, LendingError>)
        ensures
            outcome_view(outcome) == Self::unstake_outcome(*program_id, accounts@, amount),
    {
        let global_config = find_global_config_pda(program_id);
        match Self::plan_unstake(program_id, accounts, amount, global_config) {
            Ok(steps) => assemble(accounts, &steps),
            Err(error) => Err(error),
        }
    }

    /// Plans `RefreshPrice` against the address derived for the
    /// configuration.
    pub fn plan_refresh_price(
        program_id: &Address,
        accounts: &[Account],
        clock: Option<i64>,
        global_config: Option<(Address, u8)>,
    ) -> (plan: Result<Vec<Step>, LendingError>)
        ensures
            plan_view(plan) == Self::refresh_plan(
                *program_id,
                accounts@,
                clock,
                derived_view(global_config),
            ),
            plan matches Ok(steps) ==> steps@.len() == 1 && (steps@[0] matches Step::Store {
                record: Record::Config(config),
                ..
            } && config.szusd_price_ratio >= market(
                *program_id,
                accounts@[1],
                derived_view(global_config),
            ).unwrap().szusd_price_ratio),
    {
        if accounts.len() < 2 {
            return Err(LendingError::NotEnoughAccountKeys);
        }
        if !accounts[0].is_signer {
            return Err(LendingError::AuthenticationError);
        }
        let config = match load_market(program_id, &accounts[1], global_config) {
            Ok(config) => config,
            Err(error) => return Err(error),
        };
        if !accounts[0].key.same(&config.authority) {
            return Err(LendingError::AddressMismatch);
        }
        let now = match clock {
            Some(now) => now,
            None => return Err(LendingError::ClockUnavailable),
        };
        let next = match config.refresh_rate(now) {
            Ok(next) => next,
            Err(error) => return Err(error),
        };
        let mut steps: Vec<Step> = Vec::new();
        steps.push(Step::Store { account: 1, record: Record::Config(next) });
        assert(steps@ =~= Self::refresh_plan(
            *program_id,
            accounts@,
            clock,
            derived_view(global_config),
        ).unwrap());
        Ok(steps)
    }

    /// Carries out `RefreshPrice`.
    pub fn process_refresh_price(program_id: &Address, accounts: &[Account], clock: Option<i64>) -> (outcome:
        Result<Vec<Effect>, LendingError>)
        ensures
            outcome_view(outcome) == Self::refresh_outcome(*program_id, accounts@, clock),
    {
        let global_config = find_global_config_pda(program_id);
        match Self::plan_refresh_price(program_id, accounts, clock, global_config) {
            Ok(steps) => assemble(accounts, &steps),
            Err(error) => Err(error),
        }
    }

    /// What the program answers to the operation that `instruction_data`
    /// encodes: `InvalidInstructionData` where it encodes none, and else
    /// what that operation answers.
    pub open spec fn process_outcome(
        program_id: Address,
        accounts: Seq<Account>,
        instruction_data: Seq<u8>,
        clock: Option<i64>,
    ) -> Outcome {
        match ZFubaoInstruction::decoding(instruction_data) {
            None => Err(LendingError::InvalidInstructionData),
            Some(ZFubaoInstruction::Initialize { ltv_ratio, price }) => Self::initialize_outcome(
                program_id,
                accounts,
                ltv_ratio,
                price,
                clock,
            ),
            Some(ZFubaoInstruction::InitObligation) => Self::init_obligation_outcome(
                program_id,
                accounts,
            ),
            Some(ZFubaoInstruction::DepositZBTC { amount }) => Self::deposit_outcome(
                program_id,
                accounts,
                amount,
            ),
            Some(ZFubaoInstruction::WithdrawZBTC { amount }) => Self::withdraw_outcome(
                program_id,
                accounts,
                amount,
            ),
            Some(ZFubaoInstruction::BorrowZUSD { amount }) => Self::borrow_outcome(
                program_id,
                accounts,
                amount,
            ),
            Some(ZFubaoInstruction::RepayZUSD { amount }) => Self::repay_outcome(
                program_id,
                accounts,
                amount,
            ),
            Some(ZFubaoInstruction::Stake { amount }) => Self::stake_outcome(
                program_id,
                accounts,
                amount,
            ),
            Some(ZFubaoInstruction::RefreshPrice) => Self::refresh_outcome(
                program_id,
                accounts,
                clock,
            ),
            Some(ZFubaoInstruction::Unstake { amount }) => Self::unstake_outcome(
                program_id,
                accounts,
                amount,
            ),
        }
    }

    /// Decodes the operation and carries it out on `accounts`. The clock is
    /// the platform's current time, where it could be read.
    pub fn process(
        program_id: &Address,
        accounts: &[Account],
        instruction_data: &[u8],
        clock: Option<i64>,
    ) -> (outcome: Result<Vec<Effect>, LendingError>)
        ensures
            outcome_view(outcome) == Self::process_outcome(
                *program_id,
                accounts@,
                instruction_data@,
                clock,
            ),
    {
        let instruction = match ZFubaoInstruction::unpack(instruction_data) {
            Ok(instruction) => instruction,
            Err(error) => return Err(error),
        };
        match instruction {
            ZFubaoInstruction::Initialize { ltv_ratio, price } => Self::process_initialize(
                program_id,
                accounts,
                ltv_ratio,
                price,
                clock,
            ),
            ZFubaoInstruction::InitObligation => Self::process_init_obligation(
                program_id,
                accounts,
            ),
            ZFubaoInstruction::DepositZBTC { amount } => Self::process_deposit_zbtc(
                program_id,
                accounts,
                amount,
            ),
            ZFubaoInstruction::WithdrawZBTC { amount } => Self::process_withdraw_zbtc(
                program_id,
                accounts,
                amount,
            ),
            ZFubaoInstruction::BorrowZUSD { amount } => Self::process_borrow_zusd(
                program_id,
                accounts,
                amount,
            ),
            ZFubaoInstruction::RepayZUSD { amount } => Self::process_repay_zusd(
                program_id,
                accounts,
                amount,
            ),
            ZFubaoInstruction::Stake { amount } => Self::process_stake(program_id, accounts, amount),
            ZFubaoInstruction::RefreshPrice => Self::process_refresh_price(
                program_id,
                accounts,
                clock,
            ),
            ZFubaoInstruction::Unstake { amount } => Self::process_unstake(
                program_id,
                accounts,
                amount,
            ),
        }
    }

    /// A withdrawal by a user whose position and custody are in order is
    /// planned up to what the position may withdraw, and is refused with
    /// `LimitExceeded` above it.
    pub proof fn lemma_withdraw_plan_boundary(
        program_id: Address,
        accounts: Seq<Account>,
        amount: u64,
        derived: Option<(Seq<u8>, u8)>,
        global_config: Option<(Seq<u8>, u8)>,
    )
        requires
            position(program_id, accounts, derived) is Ok,
            custody(program_id, accounts, global_config) is Ok,
            max_withdrawable(
                position(program_id, accounts, derived).unwrap(),
                custody(program_id, accounts, global_config).unwrap(),
            ) is Ok,
        ensures
            ({
                let limit = max_withdrawable(
                    position(program_id, accounts, derived).unwrap(),
                    custody(program_id, accounts, global_config).unwrap(),
                ).unwrap();
                let plan = Self::withdraw_plan(program_id, accounts, amount, derived, global_config);
                &&& amount <= limit ==> plan is Ok
                &&& amount > limit ==> plan == Err::<Seq<Step>, LendingError>(
                    LendingError::LimitExceeded,
                )
            }),
    {
    }

    /// A market is initialized once: where the configuration account holds
    /// data, a signed `Initialize` at the right addresses is a `StateError`,
    /// whatever its parameters and whatever the clock.
    pub proof fn lemma_initialize_once(
        accounts: Seq<Account>,
        ltv_ratio: u8,
        price: u64,
        clock: Option<i64>,
        authority: Option<(Seq<u8>, u8)>,
        global_config: Option<(Seq<u8>, u8)>,
    )
        requires
            accounts.len() >= 6,
            accounts[0].is_signer,
            at_address(accounts[1], authority),
            at_address(accounts[2], global_config),
            accounts[2].data@.len() != 0,
        ensures
            Self::initialize_plan(accounts, ltv_ratio, price, clock, authority, global_config)
                == Err::<Seq<Step>, LendingError>(LendingError::StateError),
    {
    }

    /// No refresh is planned unless the authority that the configuration
    /// names has signed it.
    pub proof fn lemma_refresh_needs_the_authority(
        program_id: Address,
        accounts: Seq<Account>,
        clock: Option<i64>,
        global_config: Option<(Seq<u8>, u8)>,
    )
        requires
            Self::refresh_plan(program_id, accounts, clock, global_config) is Ok,
        ensures
            accounts.len() >= 2,
            accounts[0].is_signer,
            market(program_id, accounts[1], global_config) is Ok,
            accounts[0].key == market(program_id, accounts[1], global_config).unwrap().authority,
    {
    }
}

} // verus!
