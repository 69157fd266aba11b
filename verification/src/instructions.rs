//! The nine operations and their wire format.
//!
//! An operation travels as one tag byte followed by its arguments in
//! declaration order, integers least significant byte first, and nothing
//! after them.

use crate::error::LendingError;
use vstd::bytes::{
    lemma_auto_spec_u64_to_from_le_bytes, spec_u64_from_le_bytes, spec_u64_to_le_bytes,
    u64_from_le_bytes, u64_to_le_bytes,
};
use vstd::prelude::*;
use vstd::slice::slice_subrange;

verus! {

/// An operation of the program, with the accounts that it expects in order.
#[derive(Debug, Clone, Copy, PartialEq, Eq, Structural)]
pub enum ZFubaoInstruction {
    /// Creates the market configuration. A market is initialized once.
    ///
    /// Accounts: the signing owner, who pays; the authority; the
    /// configuration (written); the collateral mint; the debt mint; the
    /// system program.
    Initialize { ltv_ratio: u8, price: u64 },
    /// Creates the empty obligation of a user.
    ///
    /// Accounts: the signing user, who pays; the authority; the
    /// configuration; the obligation (written); the system program.
    InitObligation,
    /// Pledges collateral.
    ///
    /// Accounts: the signing user; the authority; the configuration; the
    /// obligation (written); the user's collateral account; the collateral
    /// vault; the token program.
    DepositZBTC { amount: u64 },
    /// Takes collateral back.
    ///
    /// Accounts: as for a deposit.
    WithdrawZBTC { amount: u64 },
    /// Borrows the debt asset.
    ///
    /// Accounts: the signing user; the authority; the configuration; the
    /// obligation (written); the user's debt-asset account; the debt mint;
    /// the token program.
    BorrowZUSD { amount: u64 },
    /// Pays debt back.
    ///
    /// Accounts: as for borrowing.
    RepayZUSD { amount: u64 },
    /// Stakes the debt asset and mints the staking receipt.
    ///
    /// Accounts: the signing user; the authority; the configuration; the
    /// user's debt-asset account; the user's receipt account; the debt mint;
    /// the receipt mint; the staking vault; the token program; the system
    /// program.
    Stake { amount: u64 },
    /// Advances the staking exchange ratio to the current time.
    ///
    /// Accounts: the signing authority; the configuration (written).
    RefreshPrice,
    /// Burns the staking receipt and pays the debt asset back.
    ///
    /// Accounts: as for staking.
    Unstake { amount: u64 },
}

impl ZFubaoInstruction {
    /// The tag byte of the operation.
    pub open spec fn tag(self) -> u8 {
        match self {
            ZFubaoInstruction::Initialize { .. } => 0,
            ZFubaoInstruction::InitObligation => 1,
            ZFubaoInstruction::DepositZBTC { .. } => 2,
            ZFubaoInstruction::WithdrawZBTC { .. } => 3,
            ZFubaoInstruction::BorrowZUSD { .. } => 4,
            ZFubaoInstruction::RepayZUSD { .. } => 5,
            ZFubaoInstruction::Stake { .. } => 6,
            ZFubaoInstruction::RefreshPrice => 7,
            ZFubaoInstruction::Unstake { .. } => 8,
        }
    }

    /// The operation on the wire.
    pub open spec fn encoding(self) -> Seq<u8> {
        match self {
            ZFubaoInstruction::Initialize { ltv_ratio, price } => seq![0u8, ltv_ratio]
                + spec_u64_to_le_bytes(price),
            ZFubaoInstruction::InitObligation => seq![1u8],
            ZFubaoInstruction::DepositZBTC { amount } => seq![2u8] + spec_u64_to_le_bytes(amount),
            ZFubaoInstruction::WithdrawZBTC { amount } => seq![3u8] + spec_u64_to_le_bytes(amount),
            ZFubaoInstruction::BorrowZUSD { amount } => seq![4u8] + spec_u64_to_le_bytes(amount),
            ZFubaoInstruction::RepayZUSD { amount } => seq![5u8] + spec_u64_to_le_bytes(amount),
            ZFubaoInstruction::Stake { amount } => seq![6u8] + spec_u64_to_le_bytes(amount),
            ZFubaoInstruction::RefreshPrice => seq![7u8],
            ZFubaoInstruction::Unstake { amount } => seq![8u8] + spec_u64_to_le_bytes(amount),
        }
    }

    /// The operation that `data` encodes, if it encodes one: the tag must be
    /// known and the arguments must fill the rest of `data` exactly.
    pub open spec fn decoding(data: Seq<u8>) -> Option<ZFubaoInstruction> {
        if data.len() == 0 {
            None
        } else if data[0] == 0 && data.len() == 10 {
            Some(
                ZFubaoInstruction::Initialize {
                    ltv_ratio: data[1],
                    price: spec_u64_from_le_bytes(data.subrange(2, 10)),
                },
            )
        } else if data[0] == 1 && data.len() == 1 {
            Some(ZFubaoInstruction::InitObligation)
        } else if data[0] == 7 && data.len() == 1 {
            Some(ZFubaoInstruction::RefreshPrice)
        } else if data.len() == 9 {
            let amount = spec_u64_from_le_bytes(data.subrange(1, 9));
            if data[0] == 2 {
                Some(ZFubaoInstruction::DepositZBTC { amount })
            } else if data[0] == 3 {
                Some(ZFubaoInstruction::WithdrawZBTC { amount })
            } else if data[0] == 4 {
                Some(ZFubaoInstruction::BorrowZUSD { amount })
            } else if data[0] == 5 {
                Some(ZFubaoInstruction::RepayZUSD { amount })
            } else if data[0] == 6 {
                Some(ZFubaoInstruction::Stake { amount })
            } else if data[0] == 8 {
                Some(ZFubaoInstruction::Unstake { amount })
            } else {
                None
            }
        } else {
            None
        }
    }

    /// Reads an operation from the wire. Bytes that encode no operation are
    /// `InvalidInstructionData`.
    pub fn unpack(input: &[u8]) -> (read: Result<ZFubaoInstruction, LendingError>)
        ensures
            read == match Self::decoding(input@) {
                Some(instruction) => Ok::<ZFubaoInstruction, LendingError>(instruction),
                None => Err(LendingError::InvalidInstructionData),
            },
    {
        if input.len() == 0 {
            return Err(LendingError::InvalidInstructionData);
        }
        let tag = input[0];
        if tag == 0 && input.len() == 10 {
            let price = u64_from_le_bytes(slice_subrange(input, 2, 10));
            Ok(ZFubaoInstruction::Initialize { ltv_ratio: input[1], price })
        } else if tag == 1 && input.len() == 1 {
            Ok(ZFubaoInstruction::InitObligation)
        } else if tag == 7 && input.len() == 1 {
            Ok(ZFubaoInstruction::RefreshPrice)
        } else if input.len() == 9 {
            let amount = u64_from_le_bytes(slice_subrange(input, 1, 9));
            match tag {
                2 => Ok(ZFubaoInstruction::DepositZBTC { amount }),
                3 => Ok(ZFubaoInstruction::WithdrawZBTC { amount }),
                4 => Ok(ZFubaoInstruction::BorrowZUSD { amount }),
                5 => Ok(ZFubaoInstruction::RepayZUSD { amount }),
                6 => Ok(ZFubaoInstruction::Stake { amount }),
                8 => Ok(ZFubaoInstruction::Unstake { amount }),
                _ => Err(LendingError::InvalidInstructionData),
            }
        } else {
            Err(LendingError::InvalidInstructionData)
        }
    }

    /// Writes the operation as it travels on the wire.
    pub fn pack(&self) -> (buf: Vec<u8>)
        ensures
            buf@ == self.encoding(),
            buf@[0] == self.tag(),
            Self::decoding(buf@) == Some(*self),
    {
        let mut buf: Vec<u8> = Vec::with_capacity(9);
        match *self {
            ZFubaoInstruction::Initialize { ltv_ratio, price } => {
                buf.push(0);
                buf.push(ltv_ratio);
                let mut bytes = u64_to_le_bytes(price);
                buf.append(&mut bytes);
            },
            ZFubaoInstruction::InitObligation => {
                buf.push(1);
            },
            ZFubaoInstruction::DepositZBTC { amount } => {
                buf.push(2);
                let mut bytes = u64_to_le_bytes(amount);
                buf.append(&mut bytes);
            },
            ZFubaoInstruction::WithdrawZBTC { amount } => {
                buf.push(3);
                let mut bytes = u64_to_le_bytes(amount);
                buf.append(&mut bytes);
            },
            ZFubaoInstruction::BorrowZUSD { amount } => {
                buf.push(4);
                let mut bytes = u64_to_le_bytes(amount);
                buf.append(&mut bytes);
            },
            ZFubaoInstruction::RepayZUSD { amount } => {
                buf.push(5);
                let mut bytes = u64_to_le_bytes(amount);
                buf.append(&mut bytes);
            },
            ZFubaoInstruction::Stake { amount } => {
                buf.push(6);
                let mut bytes = u64_to_le_bytes(amount);
                buf.append(&mut bytes);
            },
            ZFubaoInstruction::RefreshPrice => {
                buf.push(7);
            },
            ZFubaoInstruction::Unstake { amount } => {
                buf.push(8);
                let mut bytes = u64_to_le_bytes(amount);
                buf.append(&mut bytes);
            },
        }
        assert(buf@ =~= self.encoding());
        proof {
            self.lemma_encoding_roundtrip();
        }
        buf
    }

    /// Reading what was written gives the operation back.
    pub proof fn lemma_encoding_roundtrip(self)
        ensures
            Self::decoding(self.encoding()) == Some(self),
    {
        lemma_auto_spec_u64_to_from_le_bytes();
        let data = self.encoding();
        match self {
            ZFubaoInstruction::Initialize { ltv_ratio, price } => {
                assert(data.subrange(2, 10) =~= spec_u64_to_le_bytes(price));
            },
            ZFubaoInstruction::InitObligation => {},
            ZFubaoInstruction::RefreshPrice => {},
            ZFubaoInstruction::DepositZBTC { amount } => {
                assert(data.subrange(1, 9) =~= spec_u64_to_le_bytes(amount));
            },
            ZFubaoInstruction::WithdrawZBTC { amount } => {
                assert(data.subrange(1, 9) =~= spec_u64_to_le_bytes(amount));
            },
            ZFubaoInstruction::BorrowZUSD { amount } => {
                assert(data.subrange(1, 9) =~= spec_u64_to_le_bytes(amount));
            },
            ZFubaoInstruction::RepayZUSD { amount } => {
                assert(data.subrange(1, 9) =~= spec_u64_to_le_bytes(amount));
            },
            ZFubaoInstruction::Stake { amount } => {
                assert(data.subrange(1, 9) =~= spec_u64_to_le_bytes(amount));
            },
            ZFubaoInstruction::Unstake { amount } => {
                assert(data.subrange(1, 9) =~= spec_u64_to_le_bytes(amount));
            },
        }
    }

    /// Bytes that encode an operation are the wire form of that operation:
    /// no operation has two encodings.
    pub proof fn lemma_decoding_exact(data: Seq<u8>)
        requires
            Self::decoding(data) is Some,
        ensures
            Self::decoding(data).unwrap().encoding() == data,
    {
        lemma_auto_spec_u64_to_from_le_bytes();
        let instruction = Self::decoding(data).unwrap();
        if data.len() == 10 {
            let rest = data.subrange(2, 10);
            assert(spec_u64_to_le_bytes(spec_u64_from_le_bytes(rest)) == rest);
            assert(seq![0u8, data[1]] + rest =~= data);
        } else if data.len() == 9 {
            let rest = data.subrange(1, 9);
            assert(spec_u64_to_le_bytes(spec_u64_from_le_bytes(rest)) == rest);
            assert(seq![data[0]] + rest =~= data);
        } else {
            assert(seq![data[0]] =~= data);
        }
    }
}

} // verus!
