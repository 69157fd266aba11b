//! The two persisted records, their binary layout and the constants of the
//! protocol.

use crate::address::{
    address_of, bytes_of, lemma_address_of_view, lemma_view_of_address, Address,
};
use crate::error::LendingError;
use crate::pda::{derived_view, program_address, seeds_view, try_find_program_address};
use vstd::bytes::{
    lemma_auto_spec_u64_to_from_le_bytes, spec_u64_from_le_bytes, spec_u64_to_le_bytes,
    u64_from_le_bytes, u64_to_le_bytes,
};
use vstd::prelude::*;
use vstd::slice::slice_subrange;

verus! {

/// Seed of the address that holds custody of the pooled assets: `authority`.
pub const AUTHORITY_SEED: [u8; 9] = [97, 117, 116, 104, 111, 114, 105, 116, 121];

/// Seed of the address of the market configuration: `global_config`.
pub const GLOBAL_CONFIG_SEED: [u8; 13] = [
    103, 108, 111, 98, 97, 108, 95, 99, 111, 110, 102, 105, 103,
];

/// Seed of the address of a user's obligation: `obligation`.
pub const OBLIGATION_SEED: [u8; 10] = [111, 98, 108, 105, 103, 97, 116, 105, 111, 110];

/// The loan-to-value ratio is a percentage.
pub const PERCENT: u64 = 100;

/// Divisor applied to the collateral's value when the borrowing limit is
/// computed, to reconcile the decimal precision of the two assets.
///
/// The withdrawal limit applies no such divisor, so the same collateral
/// secures a thousand times more debt on withdrawal than it admits on
/// borrowing. Whether the divisor corrects a difference in precision or
/// overstates it is an open question; it is a parameter of the protocol,
/// named here and used nowhere as a literal.
pub const DECIMAL_ADJUSTMENT: u64 = 1_000;

/// Scale of the staking exchange ratio: `RATIO_SCALE` stands for 1.0000.
pub const RATIO_SCALE: u64 = 10_000;

/// Number of time units that advance the staking exchange ratio by one step.
pub const RATE_INTERVAL: i64 = 1_000;

/// The market configuration: one record, shared by every obligation.
///
/// It is stored in 123 bytes: the three addresses, the two bump seeds, the
/// loan-to-value ratio, and then the price, the start time and the exchange
/// ratio, each in eight bytes, least significant byte first.
#[derive(Debug, Clone, Copy, PartialEq, Eq)]
pub struct ZFubaoConfig {
    /// Identity that controls custody of the pooled assets.
    pub authority: Address,
    /// Mint of the collateral asset.
    pub zbtc_mint: Address,
    /// Mint of the debt asset.
    pub zusd_mint: Address,
    /// Bump seed of the authority's derived address.
    pub authority_bump: u8,
    /// Bump seed of the configuration's derived address.
    pub global_config_bump: u8,
    /// Largest debt, as a percentage of the collateral's value.
    pub ltv_ratio: u8,
    /// Price of one unit of collateral in units of the debt asset.
    pub price: u64,
    /// Time at which the exchange ratio started to drift.
    pub start_time: i64,
    /// Staking exchange ratio, in units of 1/10000.
    pub szusd_price_ratio: u64,
}

/// A user's position: the collateral pledged and the debt owed.
///
/// It is stored in 16 bytes: the deposit, then the debt, each in eight bytes,
/// least significant byte first.
#[derive(Debug, Clone, Copy, PartialEq, Eq, Structural)]
pub struct Obligation {
    pub zbtc_deposit: u64,
    pub zusd_borrowed: u64,
}

/// The bit pattern of a signed 64-bit number in two's complement.
pub open spec fn i64_bits(x: i64) -> u64 {
    if x >= 0 {
        x as u64
    } else {
        (x + 0x1_0000_0000_0000_0000) as u64
    }
}

/// The signed number that a 64-bit pattern stands for in two's complement.
pub open spec fn bits_i64(bits: u64) -> i64 {
    if bits <= 0x7fff_ffff_ffff_ffff {
        bits as i64
    } else {
        (bits - 0x1_0000_0000_0000_0000) as i64
    }
}

fn i64_to_bits(x: i64) -> (bits: u64)
    ensures
        bits == i64_bits(x),
{
    if x >= 0 {
        x as u64
    } else {
        let low: u64 = (x - i64::MIN) as u64;
        low + 0x8000_0000_0000_0000
    }
}

fn i64_from_bits(bits: u64) -> (x: i64)
    ensures
        x == bits_i64(bits),
{
    if bits <= 0x7fff_ffff_ffff_ffff {
        bits as i64
    } else {
        let low: i64 = (bits - 0x8000_0000_0000_0000) as i64;
        low + i64::MIN
    }
}

/// Reads the address stored in the 32 bytes from `offset` on.
fn address_at(data: &[u8], offset: usize) -> (address: Address)
    requires
        offset + 32 <= data@.len(),
    ensures
        address == address_of(data@.subrange(offset as int, offset + 32)),
{
    let mut bytes: [u8; 32] = [0u8; 32];
    let mut i: usize = 0;
    while i < 32
        invariant
            i <= 32,
            offset + 32 <= data.len(),
            forall|j: int| 0 <= j < i ==> bytes@[j] == data@[offset + j],
        decreases 32 - i,
    {
        bytes[i] = data[offset + i];
        i += 1;
    }
    assert(bytes =~= address_of(data@.subrange(offset as int, offset + 32)).bytes);
    Address { bytes }
}

impl Obligation {
    /// Size of the stored record in bytes.
    pub const LEN: usize = 8 + 8;

    /// The stored form of the record.
    pub open spec fn encoding(self) -> Seq<u8> {
        spec_u64_to_le_bytes(self.zbtc_deposit) + spec_u64_to_le_bytes(self.zusd_borrowed)
    }

    /// The record that `data` stores, if it stores one: `data` must hold
    /// exactly the record's 16 bytes.
    pub open spec fn decoding(data: Seq<u8>) -> Option<Obligation> {
        if data.len() == 16 {
            Some(
                Obligation {
                    zbtc_deposit: spec_u64_from_le_bytes(data.subrange(0, 8)),
                    zusd_borrowed: spec_u64_from_le_bytes(data.subrange(8, 16)),
                },
            )
        } else {
            None
        }
    }

    /// Writes the record in its stored form.
    pub fn pack(&self) -> (out: Vec<u8>)
        ensures
            out@ == self.encoding(),
            out@.len() == Self::LEN,
    {
        let mut out = u64_to_le_bytes(self.zbtc_deposit);
        let mut rest = u64_to_le_bytes(self.zusd_borrowed);
        out.append(&mut rest);
        out
    }

    /// Reads a record from its stored form; anything but the 16 bytes of a
    /// record is a `StateError`.
    pub fn unpack(data: &[u8]) -> (read: Result<Obligation, LendingError>)
        ensures
            read == match Self::decoding(data@) {
                Some(obligation) => Ok::<Obligation, LendingError>(obligation),
                None => Err(LendingError::StateError),
            },
    {
        if data.len() != 16 {
            return Err(LendingError::StateError);
        }
        let zbtc_deposit = u64_from_le_bytes(slice_subrange(data, 0, 8));
        let zusd_borrowed = u64_from_le_bytes(slice_subrange(data, 8, 16));
        Ok(Obligation { zbtc_deposit, zusd_borrowed })
    }

    /// Reading what was written gives the record back, and a record is
    /// written in exactly one way.
    pub proof fn lemma_encoding_roundtrip(self)
        ensures
            self.encoding().len() == 16,
            Self::decoding(self.encoding()) == Some(self),
    {
        lemma_auto_spec_u64_to_from_le_bytes();
        let a = spec_u64_to_le_bytes(self.zbtc_deposit);
        let b = spec_u64_to_le_bytes(self.zusd_borrowed);
        assert((a + b).subrange(0, 8) =~= a);
        assert((a + b).subrange(8, 16) =~= b);
    }

    /// Bytes that store a record are the stored form of that record.
    pub proof fn lemma_decoding_exact(data: Seq<u8>)
        requires
            Self::decoding(data) is Some,
        ensures
            Self::decoding(data).unwrap().encoding() == data,
    {
        lemma_auto_spec_u64_to_from_le_bytes();
        let a = data.subrange(0, 8);
        let b = data.subrange(8, 16);
        assert(spec_u64_to_le_bytes(spec_u64_from_le_bytes(a)) == a);
        assert(spec_u64_to_le_bytes(spec_u64_from_le_bytes(b)) == b);
        assert(a + b =~= data);
    }
}

impl ZFubaoConfig {
    /// Size of the stored record in bytes.
    pub const LEN: usize = 32 + 32 + 32 + 1 + 1 + 1 + 8 + 8 + 8;

    /// The invariant of the data model: the loan-to-value ratio is a
    /// percentage of at least one, and the price and the exchange ratio are
    /// positive.
    pub open spec fn is_valid(self) -> bool {
        &&& 1 <= self.ltv_ratio <= 100
        &&& self.price > 0
        &&& self.szusd_price_ratio > 0
    }

    /// The stored form of the record.
    pub open spec fn encoding(self) -> Seq<u8> {
        self.authority@ + self.zbtc_mint@ + self.zusd_mint@ + seq![
            self.authority_bump,
            self.global_config_bump,
            self.ltv_ratio,
        ] + spec_u64_to_le_bytes(self.price) + spec_u64_to_le_bytes(i64_bits(self.start_time))
            + spec_u64_to_le_bytes(self.szusd_price_ratio)
    }

    /// The record that `data` stores, if it stores one: `data` must hold
    /// exactly the record's 123 bytes.
    pub open spec fn decoding(data: Seq<u8>) -> Option<ZFubaoConfig> {
        if data.len() == 123 {
            Some(
                ZFubaoConfig {
                    authority: address_of(data.subrange(0, 32)),
                    zbtc_mint: address_of(data.subrange(32, 64)),
                    zusd_mint: address_of(data.subrange(64, 96)),
                    authority_bump: data[96],
                    global_config_bump: data[97],
                    ltv_ratio: data[98],
                    price: spec_u64_from_le_bytes(data.subrange(99, 107)),
                    start_time: bits_i64(spec_u64_from_le_bytes(data.subrange(107, 115))),
                    szusd_price_ratio: spec_u64_from_le_bytes(data.subrange(115, 123)),
                },
            )
        } else {
            None
        }
    }

    /// The whole units of debt asset that one unit of the staking receipt
    /// redeems: the exchange ratio without its fraction.
    pub fn get_current_szusd_price_in_zusd(&self) -> (price: u64)
        ensures
            price == self.szusd_price_ratio / RATIO_SCALE,
    {
        self.szusd_price_ratio / RATIO_SCALE
    }

    /// Writes the record in its stored form.
    pub fn pack(&self) -> (out: Vec<u8>)
        ensures
            out@ == self.encoding(),
            out@.len() == Self::LEN,
    {
        let mut out = self.authority.to_vec();
        let mut part = self.zbtc_mint.to_vec();
        out.append(&mut part);
        part = self.zusd_mint.to_vec();
        out.append(&mut part);
        out.push(self.authority_bump);
        out.push(self.global_config_bump);
        out.push(self.ltv_ratio);
        part = u64_to_le_bytes(self.price);
        out.append(&mut part);
        part = u64_to_le_bytes(i64_to_bits(self.start_time));
        out.append(&mut part);
        part = u64_to_le_bytes(self.szusd_price_ratio);
        out.append(&mut part);
        assert(out@ =~= self.encoding());
        out
    }

    /// Reads a record from its stored form; anything but the 123 bytes of a
    /// record is a `StateError`.
    pub fn unpack(data: &[u8]) -> (read: Result<ZFubaoConfig, LendingError>)
        ensures
            read == match Self::decoding(data@) {
                Some(config) => Ok::<ZFubaoConfig, LendingError>(config),
                None => Err(LendingError::StateError),
            },
    {
        if data.len() != 123 {
            return Err(LendingError::StateError);
        }
        let config = ZFubaoConfig {
            authority: address_at(data, 0),
            zbtc_mint: address_at(data, 32),
            zusd_mint: address_at(data, 64),
            authority_bump: data[96],
            global_config_bump: data[97],
            ltv_ratio: data[98],
            price: u64_from_le_bytes(slice_subrange(data, 99, 107)),
            start_time: i64_from_bits(u64_from_le_bytes(slice_subrange(data, 107, 115))),
            szusd_price_ratio: u64_from_le_bytes(slice_subrange(data, 115, 123)),
        };
        Ok(config)
    }

    /// Reading what was written gives the record back.
    pub proof fn lemma_encoding_roundtrip(self)
        ensures
            self.encoding().len() == 123,
            Self::decoding(self.encoding()) == Some(self),
    {
        lemma_auto_spec_u64_to_from_le_bytes();
        let data = self.encoding();
        assert(data.len() == 123);
        assert(data.subrange(0, 32) =~= self.authority@);
        assert(data.subrange(32, 64) =~= self.zbtc_mint@);
        assert(data.subrange(64, 96) =~= self.zusd_mint@);
        assert(data.subrange(99, 107) =~= spec_u64_to_le_bytes(self.price));
        assert(data.subrange(107, 115) =~= spec_u64_to_le_bytes(i64_bits(self.start_time)));
        assert(data.subrange(115, 123) =~= spec_u64_to_le_bytes(self.szusd_price_ratio));
        assert(bits_i64(i64_bits(self.start_time)) == self.start_time);
        lemma_address_of_view(self.authority);
        lemma_address_of_view(self.zbtc_mint);
        lemma_address_of_view(self.zusd_mint);
    }

    /// Bytes that store a record are the stored form of that record.
    pub proof fn lemma_decoding_exact(data: Seq<u8>)
        requires
            Self::decoding(data) is Some,
        ensures
            Self::decoding(data).unwrap().encoding() == data,
    {
        lemma_auto_spec_u64_to_from_le_bytes();
        let config = Self::decoding(data).unwrap();
        lemma_view_of_address(data.subrange(0, 32));
        lemma_view_of_address(data.subrange(32, 64));
        lemma_view_of_address(data.subrange(64, 96));
        let bits = spec_u64_from_le_bytes(data.subrange(107, 115));
        assert(i64_bits(bits_i64(bits)) == bits);
        assert(spec_u64_to_le_bytes(config.price) == data.subrange(99, 107));
        assert(spec_u64_to_le_bytes(i64_bits(config.start_time)) == data.subrange(107, 115));
        assert(spec_u64_to_le_bytes(config.szusd_price_ratio) == data.subrange(115, 123));
        assert(config.encoding() =~= data);
    }
}

/// The derived address of the custody authority of a program.
pub open spec fn authority_address(program_id: Address) -> Option<(Seq<u8>, u8)> {
    program_address(seq![AUTHORITY_SEED@], program_id@)
}

/// The derived address of the market configuration of a program.
pub open spec fn global_config_address(program_id: Address) -> Option<(Seq<u8>, u8)> {
    program_address(seq![GLOBAL_CONFIG_SEED@], program_id@)
}

/// The derived address of the obligation of `user` with a program.
pub open spec fn obligation_address(user: Address, program_id: Address) -> Option<(Seq<u8>, u8)> {
    program_address(seq![OBLIGATION_SEED@, user@], program_id@)
}

/// Derives the address of the custody authority, with its bump seed.
pub fn find_authority_pda(program_id: &Address) -> (found: Option<(Address, u8)>)
    ensures
        derived_view(found) == authority_address(*program_id),
{
    let mut seeds: Vec<Vec<u8>> = Vec::new();
    seeds.push(bytes_of(&AUTHORITY_SEED));
    assert(seeds_view(seeds@) =~= seq![AUTHORITY_SEED@]);
    try_find_program_address(&seeds, program_id)
}

/// Derives the address of the market configuration, with its bump seed.
pub fn find_global_config_pda(program_id: &Address) -> (found: Option<(Address, u8)>)
    ensures
        derived_view(found) == global_config_address(*program_id),
{
    let mut seeds: Vec<Vec<u8>> = Vec::new();
    seeds.push(bytes_of(&GLOBAL_CONFIG_SEED));
    assert(seeds_view(seeds@) =~= seq![GLOBAL_CONFIG_SEED@]);
    try_find_program_address(&seeds, program_id)
}

/// Derives the address of the obligation of `user`, with its bump seed;
/// `None` in the improbable case that the seeds admit no address.
pub fn find_obligation_pda(user: &Address, program_id: &Address) -> (found: Option<(Address, u8)>)
    ensures
        derived_view(found) == obligation_address(*user, *program_id),
{
    let mut seeds: Vec<Vec<u8>> = Vec::new();
    seeds.push(bytes_of(&OBLIGATION_SEED));
    seeds.push(user.to_vec());
    assert(seeds_view(seeds@) =~= seq![OBLIGATION_SEED@, user@]);
    try_find_program_address(&seeds, program_id)
}

} // verus!
