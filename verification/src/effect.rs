//! What an operation reads and what it asks the platform to carry out.
//!
//! An operation never touches an account. It reads the accounts it is given
//! and answers with a plan: an ordered list of steps that refer to those
//! accounts by position. Assembling the plan turns every token step into the
//! instruction that the token program will run. The platform carries the
//! effects out in order and applies all of them or none.

use crate::address::{bytes_of, Address};
use crate::error::LendingError;
use crate::pda::seeds_view;
use crate::state::{
    Obligation, ZFubaoConfig, AUTHORITY_SEED, GLOBAL_CONFIG_SEED, OBLIGATION_SEED,
};
use crate::token::{
    burn, mint_to, token_instruction, transfer, Instruction, InstructionView, TOKEN_PROGRAM_ID,
};
use vstd::prelude::*;

verus! {

/// An account as an operation sees it.
#[derive(Debug, Clone, PartialEq, Eq)]
pub struct Account {
    /// The account's address.
    pub key: Address,
    /// The program that owns the account and alone may write to it.
    pub owner: Address,
    /// Whether the account's holder authorized the operation.
    pub is_signer: bool,
    /// The bytes stored in the account.
    pub data: Vec<u8>,
}

/// The derived address in whose name a step is signed.
#[derive(Debug, Clone, Copy, PartialEq, Eq)]
pub enum Signer {
    /// No derived address signs: the caller's own signature suffices.
    Caller,
    /// The custody authority.
    Authority { bump: u8 },
    /// The market configuration.
    GlobalConfig { bump: u8 },
    /// The obligation of `user`.
    Obligation { user: Address, bump: u8 },
}

/// A record to be stored.
#[derive(Debug, Clone, Copy, PartialEq, Eq)]
pub enum Record {
    Config(ZFubaoConfig),
    Obligation(Obligation),
}

/// The three operations asked of the token program.
#[derive(Debug, Clone, Copy, PartialEq, Eq, Structural)]
pub enum TokenKind {
    /// Moves tokens from the first account to the second.
    Transfer,
    /// Mints tokens of the first account, a mint, to the second.
    MintTo,
    /// Burns tokens of the first account, which belong to the second, a mint.
    Burn,
}

/// One call of the token program; accounts are named by position.
#[derive(Debug, Clone, Copy, PartialEq, Eq)]
pub struct TokenCall {
    pub kind: TokenKind,
    /// The token program itself.
    pub token_program: usize,
    pub first: usize,
    pub second: usize,
    /// The account in whose name the tokens move.
    pub authority: usize,
    pub amount: u64,
}

/// One step of a plan.
#[derive(Debug, Clone, Copy, PartialEq, Eq)]
pub enum Step {
    /// Allocate `space` bytes for `account`, owned by this program and paid
    /// for by `payer`.
    CreateAccount { payer: usize, account: usize, space: usize, signer: Signer },
    /// Call the token program.
    Token { call: TokenCall, signer: Signer },
    /// Write the record at the start of the account's data.
    Store { account: usize, record: Record },
}

/// One effect for the platform to carry out.
#[derive(Debug, Clone, PartialEq, Eq)]
pub enum Effect {
    /// Allocate `space` bytes for `account`, owned by this program and paid
    /// for by `payer`.
    CreateAccount { payer: usize, account: usize, space: usize, signer: Signer },
    /// Invoke `instruction`, which carries out `call`.
    Invoke { call: TokenCall, instruction: Instruction, signer: Signer },
    /// Write the record at the start of the account's data.
    Store { account: usize, record: Record },
}

/// An effect as a mathematical value.
pub ghost enum EffectView {
    CreateAccount { payer: usize, account: usize, space: usize, signer: Signer },
    Invoke { call: TokenCall, instruction: InstructionView, signer: Signer },
    Store { account: usize, record: Record },
}

impl View for Effect {
    type V = EffectView;

    open spec fn view(&self) -> EffectView {
        match *self {
            Effect::CreateAccount { payer, account, space, signer } => EffectView::CreateAccount {
                payer,
                account,
                space,
                signer,
            },
            Effect::Invoke { call, instruction, signer } => EffectView::Invoke {
                call,
                instruction: instruction@,
                signer,
            },
            Effect::Store { account, record } => EffectView::Store { account, record },
        }
    }
}

/// The effects of a list as mathematical values.
pub open spec fn effects_view(effects: Seq<Effect>) -> Seq<EffectView> {
    Seq::new(effects.len(), |i: int| effects[i]@)
}

impl Signer {
    /// The seeds from which the signing address is derived, bump seed last;
    /// none where no derived address signs.
    pub open spec fn seeds(self) -> Seq<Seq<u8>> {
        match self {
            Signer::Caller => seq![],
            Signer::Authority { bump } => seq![AUTHORITY_SEED@, seq![bump]],
            Signer::GlobalConfig { bump } => seq![GLOBAL_CONFIG_SEED@, seq![bump]],
            Signer::Obligation { user, bump } => seq![OBLIGATION_SEED@, user@, seq![bump]],
        }
    }

    /// The seeds to sign with, for the platform.
    pub fn signer_seeds(&self) -> (out: Vec<Vec<u8>>)
        ensures
            seeds_view(out@) == self.seeds(),
    {
        let mut out: Vec<Vec<u8>> = Vec::new();
        match *self {
            Signer::Caller => {},
            Signer::Authority { bump } => {
                out.push(bytes_of(&AUTHORITY_SEED));
                out.push(vec![bump]);
            },
            Signer::GlobalConfig { bump } => {
                out.push(bytes_of(&GLOBAL_CONFIG_SEED));
                out.push(vec![bump]);
            },
            Signer::Obligation { user, bump } => {
                out.push(bytes_of(&OBLIGATION_SEED));
                out.push(user.to_vec());
                out.push(vec![bump]);
            },
        }
        assert(seeds_view(out@) =~~= self.seeds());
        out
    }
}

impl Record {
    /// The stored form of the record.
    pub open spec fn encoding(self) -> Seq<u8> {
        match self {
            Record::Config(config) => config.encoding(),
            Record::Obligation(obligation) => obligation.encoding(),
        }
    }

    /// Writes the record in its stored form.
    pub fn pack(&self) -> (out: Vec<u8>)
        ensures
            out@ == self.encoding(),
    {
        match self {
            Record::Config(config) => config.pack(),
            Record::Obligation(obligation) => obligation.pack(),
        }
    }
}

impl TokenKind {
    /// The tag by which the token program tells its operations apart.
    pub open spec fn tag(self) -> u8 {
        match self {
            TokenKind::Transfer => 3,
            TokenKind::MintTo => 7,
            TokenKind::Burn => 8,
        }
    }
}

impl TokenCall {
    /// Whether the call names only accounts among the first `count`.
    pub open spec fn in_range(self, count: nat) -> bool {
        &&& self.token_program < count
        &&& self.first < count
        &&& self.second < count
        &&& self.authority < count
    }

    /// The instruction that carries out the call on `accounts`: lacking an
    /// account is `NotEnoughAccountKeys`, and an account in the token
    /// program's place that is not the token program is `IncorrectProgramId`.
    pub open spec fn instruction(self, accounts: Seq<Account>) -> Result<
        InstructionView,
        LendingError,
    > {
        if !self.in_range(accounts.len()) {
            Err(LendingError::NotEnoughAccountKeys)
        } else if accounts[self.token_program as int].key.bytes != TOKEN_PROGRAM_ID {
            Err(LendingError::IncorrectProgramId)
        } else {
            Ok(
                token_instruction(
                    self.kind.tag(),
                    accounts[self.first as int].key,
                    accounts[self.second as int].key,
                    accounts[self.authority as int].key,
                    self.amount,
                ),
            )
        }
    }

    /// Builds the instruction that carries out the call on `accounts`.
    pub fn build(&self, accounts: &[Account]) -> (built: Result<Instruction, LendingError>)
        ensures
            match built {
                Ok(instruction) => self.instruction(accounts@) == Ok::<
                    InstructionView,
                    LendingError,
                >(instruction@),
                Err(error) => self.instruction(accounts@) == Err::<InstructionView, LendingError>(
                    error,
                ),
            },
    {
        let count = accounts.len();
        if self.token_program >= count || self.first >= count || self.second >= count
            || self.authority >= count {
            return Err(LendingError::NotEnoughAccountKeys);
        }
        let program = &accounts[self.token_program].key;
        let first = &accounts[self.first].key;
        let second = &accounts[self.second].key;
        let authority = &accounts[self.authority].key;
        let built = match self.kind {
            TokenKind::Transfer => transfer(program, first, second, authority, self.amount),
            TokenKind::MintTo => mint_to(program, first, second, authority, self.amount),
            TokenKind::Burn => burn(program, first, second, authority, self.amount),
        };
        match built {
            Ok(instruction) => Ok(instruction),
            Err(_) => Err(LendingError::IncorrectProgramId),
        }
    }
}

impl Step {
    /// Whether the step names only accounts among the first `count`.
    pub open spec fn in_range(self, count: nat) -> bool {
        match self {
            Step::CreateAccount { payer, account, .. } => payer < count && account < count,
            Step::Token { call, .. } => call.in_range(count),
            Step::Store { account, .. } => account < count,
        }
    }

    /// The effect that carries out the step on `accounts`.
    pub open spec fn effect(self, accounts: Seq<Account>) -> Result<EffectView, LendingError> {
        match self {
            Step::CreateAccount { payer, account, space, signer } => {
                if payer < accounts.len() && account < accounts.len() {
                    Ok(EffectView::CreateAccount { payer, account, space, signer })
                } else {
                    Err(LendingError::NotEnoughAccountKeys)
                }
            },
            Step::Token { call, signer } => match call.instruction(accounts) {
                Ok(instruction) => Ok(EffectView::Invoke { call, instruction, signer }),
                Err(error) => Err(error),
            },
            Step::Store { account, record } => {
                if account < accounts.len() {
                    Ok(EffectView::Store { account, record })
                } else {
                    Err(LendingError::NotEnoughAccountKeys)
                }
            },
        }
    }

    /// Turns the step into its effect on `accounts`.
    pub fn assemble(&self, accounts: &[Account]) -> (made: Result<Effect, LendingError>)
        ensures
            match made {
                Ok(effect) => self.effect(accounts@) == Ok::<EffectView, LendingError>(effect@),
                Err(error) => self.effect(accounts@) == Err::<EffectView, LendingError>(error),
            },
    {
        match *self {
            Step::CreateAccount { payer, account, space, signer } => {
                if payer < accounts.len() && account < accounts.len() {
                    Ok(Effect::CreateAccount { payer, account, space, signer })
                } else {
                    Err(LendingError::NotEnoughAccountKeys)
                }
            },
            Step::Token { call, signer } => match call.build(accounts) {
                Ok(instruction) => Ok(Effect::Invoke { call, instruction, signer }),
                Err(error) => Err(error),
            },
            Step::Store { account, record } => {
                if account < accounts.len() {
                    Ok(Effect::Store { account, record })
                } else {
                    Err(LendingError::NotEnoughAccountKeys)
                }
            },
        }
    }
}

/// The effects that carry out a plan on `accounts`, or the error of the first
/// step that cannot be carried out.
pub open spec fn assembled(accounts: Seq<Account>, steps: Seq<Step>) -> Result<
    Seq<EffectView>,
    LendingError,
>
    decreases steps.len(),
{
    if steps.len() == 0 {
        Ok(Seq::empty())
    } else {
        match assembled(accounts, steps.drop_last()) {
            Err(error) => Err(error),
            Ok(effects) => match steps.last().effect(accounts) {
                Err(error) => Err(error),
                Ok(effect) => Ok(effects.push(effect)),
            },
        }
    }
}

/// What an operation answers: its effects as mathematical values, or its
/// error.
pub open spec fn outcome_view(outcome: Result<Vec<Effect>, LendingError>) -> Result<
    Seq<EffectView>,
    LendingError,
> {
    match outcome {
        Ok(effects) => Ok(effects_view(effects@)),
        Err(error) => Err(error),
    }
}

/// Turns a plan into the effects that carry it out on `accounts`. No effect
/// is handed out unless every step can be carried out.
pub fn assemble(accounts: &[Account], steps: &Vec<Step>) -> (outcome: Result<
    Vec<Effect>,
    LendingError,
>)
    ensures
        outcome_view(outcome) == assembled(accounts@, steps@),
{
    let mut effects: Vec<Effect> = Vec::new();
    let mut i: usize = 0;
    assert(steps@.take(0).len() == 0);
    assert(effects_view(effects@) =~= Seq::empty());
    while i < steps.len()
        invariant
            i <= steps.len(),
            assembled(accounts@, steps@.take(i as int)) == Ok::<Seq<EffectView>, LendingError>(
                effects_view(effects@),
            ),
        decreases steps.len() - i,
    {
        proof {
            assert(steps@.take(i + 1).drop_last() =~= steps@.take(i as int));
            assert(steps@.take(i + 1).last() == steps@[i as int]);
        }
        match steps[i].assemble(accounts) {
            Ok(effect) => {
                let ghost before = effects_view(effects@);
                effects.push(effect);
                assert(effects_view(effects@) =~= before.push(effect@));
            },
            Err(error) => {
                proof {
                    lemma_failure_stays(accounts@, steps@, i + 1);
                }
                return Err(error);
            },
        }
        i += 1;
    }
    assert(steps@.take(i as int) =~= steps@);
    Ok(effects)
}

/// A plan whose beginning cannot be carried out cannot be carried out, and
/// fails as its beginning does.
pub proof fn lemma_failure_stays(accounts: Seq<Account>, steps: Seq<Step>, n: int)
    requires
        0 <= n <= steps.len(),
        assembled(accounts, steps.take(n)) is Err,
    ensures
        assembled(accounts, steps) == assembled(accounts, steps.take(n)),
    decreases steps.len() - n,
{
    if n == steps.len() {
        assert(steps.take(n) =~= steps);
    } else {
        assert(steps.take(n + 1).drop_last() =~= steps.take(n));
        lemma_failure_stays(accounts, steps, n + 1);
    }
}

} // verus!
