use solana_program::pubkey::Pubkey;
use z_fubao::address::{bytes_of, Address};
use z_fubao::effect::{Record, Signer};
use z_fubao::error::LendingError;
use z_fubao::state::{
    find_authority_pda, find_global_config_pda, find_obligation_pda, Obligation, ZFubaoConfig,
    AUTHORITY_SEED, DECIMAL_ADJUSTMENT, GLOBAL_CONFIG_SEED, OBLIGATION_SEED, PERCENT,
    RATE_INTERVAL, RATIO_SCALE,
};

fn address(fill: u8) -> Address {
    Address { bytes: [fill; 32] }
}

fn sample_config() -> ZFubaoConfig {
    ZFubaoConfig {
        authority: address(1),
        zbtc_mint: address(2),
        zusd_mint: address(3),
        authority_bump: 254,
        global_config_bump: 253,
        ltv_ratio: 75,
        price: 50_000,
        start_time: 1_700_000_000,
        szusd_price_ratio: 10_000,
    }
}

#[test]
fn seeds_spell_their_names() {
    assert_eq!(&AUTHORITY_SEED[..], b"authority");
    assert_eq!(&GLOBAL_CONFIG_SEED[..], b"global_config");
    assert_eq!(&OBLIGATION_SEED[..], b"obligation");
}

#[test]
fn constants_of_the_protocol() {
    assert_eq!(PERCENT, 100);
    assert_eq!(DECIMAL_ADJUSTMENT, 1_000);
    assert_eq!(RATIO_SCALE, 10_000);
    assert_eq!(RATE_INTERVAL, 1_000);
    assert_eq!(Obligation::LEN, 16);
    assert_eq!(ZFubaoConfig::LEN, 123);
}

#[test]
fn obligation_is_stored_as_two_little_endian_words() {
    let obligation = Obligation { zbtc_deposit: 1_000_000_000, zusd_borrowed: 258 };
    assert_eq!(
        obligation.pack(),
        vec![0x00, 0xca, 0x9a, 0x3b, 0, 0, 0, 0, 2, 1, 0, 0, 0, 0, 0, 0]
    );
}

#[test]
fn obligation_round_trip() {
    for obligation in [
        Obligation { zbtc_deposit: 0, zusd_borrowed: 0 },
        Obligation { zbtc_deposit: 1, zusd_borrowed: u64::MAX },
        Obligation { zbtc_deposit: u64::MAX, zusd_borrowed: 300_000_000 },
    ] {
        assert_eq!(Obligation::unpack(&obligation.pack()), Ok(obligation));
    }
}

#[test]
fn obligation_of_any_other_length_is_a_state_error() {
    assert_eq!(Obligation::unpack(&[]), Err(LendingError::StateError));
    assert_eq!(Obligation::unpack(&[0; 15]), Err(LendingError::StateError));
    assert_eq!(Obligation::unpack(&[0; 17]), Err(LendingError::StateError));
    assert_eq!(
        Obligation::unpack(&[0; 16]),
        Ok(Obligation { zbtc_deposit: 0, zusd_borrowed: 0 })
    );
}

#[test]
fn config_layout_field_by_field() {
    let packed = sample_config().pack();
    assert_eq!(packed.len(), 123);
    assert_eq!(&packed[0..32], &[1u8; 32]);
    assert_eq!(&packed[32..64], &[2u8; 32]);
    assert_eq!(&packed[64..96], &[3u8; 32]);
    assert_eq!(&packed[96..99], &[254, 253, 75]);
    assert_eq!(&packed[99..107], &50_000u64.to_le_bytes());
    assert_eq!(&packed[107..115], &1_700_000_000i64.to_le_bytes());
    assert_eq!(&packed[115..123], &10_000u64.to_le_bytes());
}

#[test]
fn config_round_trip() {
    let config = sample_config();
    assert_eq!(ZFubaoConfig::unpack(&config.pack()), Ok(config));
}

#[test]
fn config_round_trip_with_times_of_either_sign() {
    for start_time in [i64::MIN, -1_000, -1, 0, 1, i64::MAX] {
        let config = ZFubaoConfig { start_time, ..sample_config() };
        let packed = config.pack();
        assert_eq!(&packed[107..115], &start_time.to_le_bytes());
        assert_eq!(ZFubaoConfig::unpack(&packed), Ok(config));
    }
}

#[test]
fn config_of_any_other_length_is_a_state_error() {
    assert_eq!(ZFubaoConfig::unpack(&[]), Err(LendingError::StateError));
    assert_eq!(ZFubaoConfig::unpack(&[0; 122]), Err(LendingError::StateError));
    assert_eq!(ZFubaoConfig::unpack(&[0; 124]), Err(LendingError::StateError));
    assert!(ZFubaoConfig::unpack(&[0; 123]).is_ok());
}

#[test]
fn records_are_stored_in_the_borsh_layout_of_their_fields() {
    let obligation = Obligation { zbtc_deposit: 7, zusd_borrowed: 9 };
    assert_eq!(obligation.pack(), borsh::to_vec(&(7u64, 9u64)).unwrap());
    let config = sample_config();
    let fields = (
        config.authority.bytes,
        config.zbtc_mint.bytes,
        config.zusd_mint.bytes,
        config.authority_bump,
        config.global_config_bump,
        config.ltv_ratio,
        config.price,
        config.start_time,
        config.szusd_price_ratio,
    );
    assert_eq!(config.pack(), borsh::to_vec(&fields).unwrap());
}

#[test]
fn record_packs_as_the_record_it_holds() {
    let obligation = Obligation { zbtc_deposit: 7, zusd_borrowed: 9 };
    assert_eq!(Record::Obligation(obligation).pack(), obligation.pack());
    assert_eq!(Record::Config(sample_config()).pack(), sample_config().pack());
}

#[test]
fn current_price_is_the_whole_part_of_the_ratio() {
    let at = |szusd_price_ratio| {
        ZFubaoConfig { szusd_price_ratio, ..sample_config() }.get_current_szusd_price_in_zusd()
    };
    assert_eq!(at(0), 0);
    assert_eq!(at(9_999), 0);
    assert_eq!(at(10_000), 1);
    assert_eq!(at(19_999), 1);
    assert_eq!(at(20_000), 2);
    assert_eq!(at(u64::MAX), 1_844_674_407_370_955);
}

#[test]
fn address_comparison_and_bytes() {
    let a = address(5);
    let mut b = address(5);
    assert!(a.same(&b));
    b.bytes[31] = 6;
    assert!(!a.same(&b));
    b.bytes[31] = 5;
    b.bytes[0] = 4;
    assert!(!a.same(&b));
    assert_eq!(a.to_vec(), vec![5u8; 32]);
    assert_eq!(bytes_of(&[1u8, 2, 3]), vec![1, 2, 3]);
    assert_eq!(bytes_of::<0>(&[]), Vec::<u8>::new());
}

#[test]
fn derived_addresses_are_those_of_the_platform() {
    let program = Pubkey::new_from_array([42; 32]);
    let program_id = Address { bytes: program.to_bytes() };
    let user = Pubkey::new_from_array([7; 32]);

    let (key, bump) = Pubkey::find_program_address(&[b"authority"], &program);
    assert_eq!(find_authority_pda(&program_id), Some((Address { bytes: key.to_bytes() }, bump)));

    let (key, bump) = Pubkey::find_program_address(&[b"global_config"], &program);
    assert_eq!(
        find_global_config_pda(&program_id),
        Some((Address { bytes: key.to_bytes() }, bump))
    );

    let (key, bump) = Pubkey::find_program_address(&[b"obligation", user.as_ref()], &program);
    assert_eq!(
        find_obligation_pda(&Address { bytes: user.to_bytes() }, &program_id),
        Some((Address { bytes: key.to_bytes() }, bump))
    );
}

#[test]
fn derived_addresses_differ_by_user_and_by_program() {
    let program_id = address(42);
    let first = find_obligation_pda(&address(7), &program_id).unwrap();
    let second = find_obligation_pda(&address(8), &program_id).unwrap();
    let elsewhere = find_obligation_pda(&address(7), &address(43)).unwrap();
    assert_ne!(first.0, second.0);
    assert_ne!(first.0, elsewhere.0);
    assert_ne!(first.0, address(7));
    assert_eq!(find_obligation_pda(&address(7), &program_id), Some(first));
}

#[test]
fn signer_seeds_end_with_the_bump() {
    assert_eq!(Signer::Caller.signer_seeds(), Vec::<Vec<u8>>::new());
    assert_eq!(
        Signer::Authority { bump: 254 }.signer_seeds(),
        vec![b"authority".to_vec(), vec![254]]
    );
    assert_eq!(
        Signer::GlobalConfig { bump: 3 }.signer_seeds(),
        vec![b"global_config".to_vec(), vec![3]]
    );
    assert_eq!(
        Signer::Obligation { user: address(9), bump: 255 }.signer_seeds(),
        vec![b"obligation".to_vec(), vec![9; 32], vec![255]]
    );
}

#[test]
fn signer_seeds_rederive_the_signing_address() {
    let program = Pubkey::new_from_array([42; 32]);
    let program_id = Address { bytes: program.to_bytes() };
    let (key, bump) = find_authority_pda(&program_id).unwrap();
    let seeds = Signer::Authority { bump }.signer_seeds();
    let parts: Vec<&[u8]> = seeds.iter().map(|seed| seed.as_slice()).collect();
    let made = Pubkey::create_program_address(&parts, &program).unwrap();
    assert_eq!(made.to_bytes(), key.bytes);
}
