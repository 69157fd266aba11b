//! Instructions for the token program.

use crate::address::Address;
use solana_program::program_error::ProgramError;
use vstd::bytes::spec_u64_to_le_bytes;
use vstd::prelude::*;

verus! {

/// The platform's error type, carried through unread.
#[verifier::external_type_specification]
#[verifier::external_body]
pub struct ExProgramError(ProgramError);

/// The address of the token program.
pub const TOKEN_PROGRAM_ID: [u8; 32] = [
    6, 221, 246, 225, 215, 101, 161, 147, 217, 203, 225, 70, 206, 235, 121, 172,
    28, 180, 133, 237, 95, 91, 55, 145, 58, 140, 245, 133, 126, 255, 0, 169,
];

/// How an instruction refers to one account.
#[derive(Debug, Clone, Copy, PartialEq, Eq)]
pub struct AccountMeta {
    pub pubkey: Address,
    pub is_signer: bool,
    pub is_writable: bool,
}

/// A call into another program: the program, the accounts it is given and
/// the data it interprets.
#[derive(Debug, Clone, PartialEq, Eq)]
pub struct Instruction {
    pub program_id: Address,
    pub accounts: Vec<AccountMeta>,
    pub data: Vec<u8>,
}

/// An instruction as a mathematical value.
pub ghost struct InstructionView {
    pub program_id: Address,
    pub accounts: Seq<AccountMeta>,
    pub data: Seq<u8>,
}

impl View for Instruction {
    type V = InstructionView;

    open spec fn view(&self) -> InstructionView {
        InstructionView {
            program_id: self.program_id,
            accounts: self.accounts@,
            data: self.data@,
        }
    }
}

/// The instruction that moves, mints or burns `amount`: the account that is
/// debited or minted from comes first, then its counterpart, then the
/// authority, which alone signs; the data is the operation's tag followed by
/// the amount in little-endian order.
pub open spec fn token_instruction(
    tag: u8,
    first: Address,
    second: Address,
    authority: Address,
    amount: u64,
) -> InstructionView {
    InstructionView {
        program_id: Address { bytes: TOKEN_PROGRAM_ID },
        accounts: seq![
            AccountMeta { pubkey: first, is_signer: false, is_writable: true },
            AccountMeta { pubkey: second, is_signer: false, is_writable: true },
            AccountMeta { pubkey: authority, is_signer: true, is_writable: false },
        ],
        data: seq![tag] + spec_u64_to_le_bytes(amount),
    }
}

/// Calls `spl_token::instruction::transfer` with no additional signers. The
/// builder refuses any program but the token program; otherwise it lists the
/// source and the destination as writable, the authority as the read-only
/// signer, and packs tag 3 with the amount.
#[verifier::external_body]
pub(crate) fn transfer(
    token_program: &Address,
    source: &Address,
    destination: &Address,
    authority: &Address,
    amount: u64,
) -> (built: Result<Instruction, ProgramError>)
    ensures
        built is Ok <==> token_program.bytes == TOKEN_PROGRAM_ID,
        built matches Ok(instruction) ==> instruction@ == token_instruction(
            3,
            *source,
            *destination,
            *authority,
            amount,
        ),
{
    let (program, first, second) = (token_program.bytes.into(), source.bytes.into(), destination.bytes.into());
    let owner = authority.bytes.into();
    let built = spl_token::instruction::transfer(&program, &first, &second, &owner, &[], amount)?;
    let metas = built.accounts.iter().map(|meta| AccountMeta {
        pubkey: Address { bytes: meta.pubkey.to_bytes() },
        is_signer: meta.is_signer,
        is_writable: meta.is_writable,
    });
    let program_id = Address { bytes: built.program_id.to_bytes() };
    Ok(Instruction { program_id, accounts: metas.collect(), data: built.data })
}

/// Calls `spl_token::instruction::mint_to` with no additional signers. The
/// builder refuses any program but the token program; otherwise it lists the
/// mint and the receiving account as writable, the mint's authority as the
/// read-only signer, and packs tag 7 with the amount.
#[verifier::external_body]
pub(crate) fn mint_to(
    token_program: &Address,
    mint: &Address,
    account: &Address,
    authority: &Address,
    amount: u64,
) -> (built: Result<Instruction, ProgramError>)
    ensures
        built is Ok <==> token_program.bytes == TOKEN_PROGRAM_ID,
        built matches Ok(instruction) ==> instruction@ == token_instruction(
            7,
            *mint,
            *account,
            *authority,
            amount,
        ),
{
    let (program, first, second) = (token_program.bytes.into(), mint.bytes.into(), account.bytes.into());
    let owner = authority.bytes.into();
    let built = spl_token::instruction::mint_to(&program, &first, &second, &owner, &[], amount)?;
    let metas = built.accounts.iter().map(|meta| AccountMeta {
        pubkey: Address { bytes: meta.pubkey.to_bytes() },
        is_signer: meta.is_signer,
        is_writable: meta.is_writable,
    });
    let program_id = Address { bytes: built.program_id.to_bytes() };
    Ok(Instruction { program_id, accounts: metas.collect(), data: built.data })
}

/// Calls `spl_token::instruction::burn` with no additional signers. The
/// builder refuses any program but the token program; otherwise it lists the
/// account to burn from and its mint as writable, the account's authority as
/// the read-only signer, and packs tag 8 with the amount.
#[verifier::external_body]
pub(crate) fn burn(
    token_program: &Address,
    account: &Address,
    mint: &Address,
    authority: &Address,
    amount: u64,
) -> (built: Result<Instruction, ProgramError>)
    ensures
        built is Ok <==> token_program.bytes == TOKEN_PROGRAM_ID,
        built matches Ok(instruction) ==> instruction@ == token_instruction(
            8,
            *account,
            *mint,
            *authority,
            amount,
        ),
{
    let (program, first, second) = (token_program.bytes.into(), account.bytes.into(), mint.bytes.into());
    let owner = authority.bytes.into();
    let built = spl_token::instruction::burn(&program, &first, &second, &owner, &[], amount)?;
    let metas = built.accounts.iter().map(|meta| AccountMeta {
        pubkey: Address { bytes: meta.pubkey.to_bytes() },
        is_signer: meta.is_signer,
        is_writable: meta.is_writable,
    });
    let program_id = Address { bytes: built.program_id.to_bytes() };
    Ok(Instruction { program_id, accounts: metas.collect(), data: built.data })
}

} // verus!
