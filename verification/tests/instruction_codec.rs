use z_fubao::error::LendingError;
use z_fubao::instructions::ZFubaoInstruction;

fn all_instructions() -> Vec<ZFubaoInstruction> {
    vec![
        ZFubaoInstruction::Initialize { ltv_ratio: 75, price: 50_000 },
        ZFubaoInstruction::InitObligation,
        ZFubaoInstruction::DepositZBTC { amount: 1_000_000_000 },
        ZFubaoInstruction::WithdrawZBTC { amount: 500_000_000 },
        ZFubaoInstruction::BorrowZUSD { amount: 500_000_000 },
        ZFubaoInstruction::RepayZUSD { amount: 200_000_000 },
        ZFubaoInstruction::Stake { amount: 100_000_000 },
        ZFubaoInstruction::RefreshPrice,
        ZFubaoInstruction::Unstake { amount: u64::MAX },
    ]
}

#[test]
fn pack_initialize_is_tag_ratio_and_price() {
    let packed = ZFubaoInstruction::Initialize { ltv_ratio: 70, price: 50_000 }.pack();
    assert_eq!(packed, vec![0, 70, 0x50, 0xc3, 0, 0, 0, 0, 0, 0]);
}

#[test]
fn pack_operations_without_arguments_is_one_byte() {
    assert_eq!(ZFubaoInstruction::InitObligation.pack(), vec![1]);
    assert_eq!(ZFubaoInstruction::RefreshPrice.pack(), vec![7]);
}

#[test]
fn pack_amount_operations_is_tag_and_little_endian_amount() {
    let amount: u64 = 1_000_000_000;
    let tail = [0x00, 0xca, 0x9a, 0x3b, 0, 0, 0, 0];
    let cases = [
        (ZFubaoInstruction::DepositZBTC { amount }, 2u8),
        (ZFubaoInstruction::WithdrawZBTC { amount }, 3),
        (ZFubaoInstruction::BorrowZUSD { amount }, 4),
        (ZFubaoInstruction::RepayZUSD { amount }, 5),
        (ZFubaoInstruction::Stake { amount }, 6),
        (ZFubaoInstruction::Unstake { amount }, 8),
    ];
    for (instruction, tag) in cases {
        let mut expected = vec![tag];
        expected.extend_from_slice(&tail);
        assert_eq!(instruction.pack(), expected);
    }
}

#[test]
fn unpack_reads_back_what_pack_wrote() {
    for instruction in all_instructions() {
        assert_eq!(ZFubaoInstruction::unpack(&instruction.pack()), Ok(instruction));
    }
}

#[test]
fn unpack_refuses_empty_input() {
    assert_eq!(ZFubaoInstruction::unpack(&[]), Err(LendingError::InvalidInstructionData));
}

#[test]
fn unpack_refuses_unknown_tags() {
    assert_eq!(ZFubaoInstruction::unpack(&[9]), Err(LendingError::InvalidInstructionData));
    assert_eq!(
        ZFubaoInstruction::unpack(&[9, 1, 0, 0, 0, 0, 0, 0, 0]),
        Err(LendingError::InvalidInstructionData)
    );
    assert_eq!(ZFubaoInstruction::unpack(&[255]), Err(LendingError::InvalidInstructionData));
}

#[test]
fn unpack_refuses_missing_bytes() {
    for instruction in all_instructions() {
        let packed = instruction.pack();
        for cut in 0..packed.len() {
            assert_eq!(
                ZFubaoInstruction::unpack(&packed[..cut]),
                Err(LendingError::InvalidInstructionData)
            );
        }
    }
}

#[test]
fn unpack_refuses_trailing_bytes() {
    for instruction in all_instructions() {
        let mut packed = instruction.pack();
        packed.push(0);
        assert_eq!(ZFubaoInstruction::unpack(&packed), Err(LendingError::InvalidInstructionData));
    }
}

#[test]
fn unpack_does_not_confuse_lengths_of_different_tags() {
    // Ten bytes are an `Initialize` only under tag 0, one byte is no deposit.
    assert_eq!(
        ZFubaoInstruction::unpack(&[2, 70, 0x50, 0xc3, 0, 0, 0, 0, 0, 0]),
        Err(LendingError::InvalidInstructionData)
    );
    assert_eq!(ZFubaoInstruction::unpack(&[2]), Err(LendingError::InvalidInstructionData));
    assert_eq!(
        ZFubaoInstruction::unpack(&[0, 1, 0, 0, 0, 0, 0, 0, 0]),
        Err(LendingError::InvalidInstructionData)
    );
}

#[test]
fn wire_format_is_the_borsh_layout_of_tag_and_fields() {
    assert_eq!(
        ZFubaoInstruction::Initialize { ltv_ratio: 75, price: 50_000 }.pack(),
        borsh::to_vec(&(0u8, 75u8, 50_000u64)).unwrap()
    );
    assert_eq!(
        ZFubaoInstruction::Stake { amount: 123_456_789_012 }.pack(),
        borsh::to_vec(&(6u8, 123_456_789_012u64)).unwrap()
    );
    assert_eq!(ZFubaoInstruction::RefreshPrice.pack(), borsh::to_vec(&7u8).unwrap());
    let bytes = borsh::to_vec(&(4u8, 77u64)).unwrap();
    assert_eq!(ZFubaoInstruction::unpack(&bytes), Ok(ZFubaoInstruction::BorrowZUSD { amount: 77 }));
}
