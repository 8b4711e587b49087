use vstd::prelude::*;

use crate::error::EscrowError;
use crate::layout::{
    le_bytes, le_u64_at, lemma_le_round_trip, read_key, read_u64_le, write_key, write_u64_le,
    Pubkey,
};

verus! {

/// Offset of the maker's address in a stored record.
pub const MAKER_OFFSET: usize = 1;

/// Offset of the deposit account's address in a stored record.
pub const DEPOSIT_OFFSET: usize = 33;

/// Offset of the maker's receiving account's address in a stored record.
pub const RECEIVER_OFFSET: usize = 65;

/// Offset of the expected amount in a stored record.
pub const AMOUNT_OFFSET: usize = 97;

/// One pending trade, as stored in its record account.
#[derive(Clone, Copy, Debug, PartialEq, Eq)]
pub struct Escrow {
    pub is_initialized: bool,
    pub maker_pubkey: Pubkey,
    pub tmp_token0_pubkey: Pubkey,
    /// maker's account that receives the counter-asset from the taker
    pub maker_token1_pubkey: Pubkey,
    pub maker_token1_expected_amount: u64,
}

/// The stored form of a record: flag, three addresses, then the amount.
pub open spec fn record_bytes(e: Escrow) -> Seq<u8> {
    seq![if e.is_initialized { 1u8 } else { 0u8 }] + e.maker_pubkey@ + e.tmp_token0_pubkey@
        + e.maker_token1_pubkey@ + le_bytes(e.maker_token1_expected_amount)
}

/// The first bytes of `src` are the stored form of `e`.
pub open spec fn holds_record(src: Seq<u8>, e: Escrow) -> bool {
    &&& src.len() >= Escrow::LEN
    &&& src[0] == if e.is_initialized { 1u8 } else { 0u8 }
    &&& e.maker_pubkey@ == src.subrange(MAKER_OFFSET as int, DEPOSIT_OFFSET as int)
    &&& e.tmp_token0_pubkey@ == src.subrange(DEPOSIT_OFFSET as int, RECEIVER_OFFSET as int)
    &&& e.maker_token1_pubkey@ == src.subrange(RECEIVER_OFFSET as int, AMOUNT_OFFSET as int)
    &&& e.maker_token1_expected_amount == le_u64_at(src, AMOUNT_OFFSET as int)
}

/// The flag byte of a stored record is 0 or 1.
pub open spec fn valid_flag(src: Seq<u8>) -> bool {
    src[0] == 0 || src[0] == 1
}

impl Escrow {
    /// Size in bytes of a stored record.
    pub const LEN: usize = 105;

    pub open spec fn spec_is_initialized(&self) -> bool {
        self.is_initialized
    }

    pub fn is_initialized(&self) -> (r: bool)
        ensures
            r == self.is_initialized,
    {
        self.is_initialized
    }

    /// Reads a record from the first `LEN` bytes of `src`.
    pub fn unpack_from_slice(src: &[u8]) -> (r: Result<Escrow, EscrowError>)
        requires
            src@.len() >= Escrow::LEN,
        ensures
            r is Ok <==> valid_flag(src@),
            r is Ok ==> holds_record(src@, r->Ok_0),
            r is Err ==> r->Err_0 == EscrowError::InvalidAccountData,
    {
        let is_initialized = if src[0] == 0 {
            false
        } else if src[0] == 1 {
            true
        } else {
            return Err(EscrowError::InvalidAccountData);
        };
        Ok(Escrow {
            is_initialized,
            maker_pubkey: read_key(src, MAKER_OFFSET),
            tmp_token0_pubkey: read_key(src, DEPOSIT_OFFSET),
            maker_token1_pubkey: read_key(src, RECEIVER_OFFSET),
            maker_token1_expected_amount: read_u64_le(src, AMOUNT_OFFSET),
        })
    }

    /// Writes this record into the first `LEN` bytes of `dst`.
    pub fn pack_into_slice(&self, dst: &mut [u8])
        requires
            old(dst)@.len() >= Escrow::LEN,
        ensures
            final(dst)@ == record_bytes(*self) + old(dst)@.subrange(
                Escrow::LEN as int,
                old(dst)@.len() as int,
            ),
    {
        dst[0] = if self.is_initialized {
            1u8
        } else {
            0u8
        };
        write_key(dst, MAKER_OFFSET, &self.maker_pubkey);
        write_key(dst, DEPOSIT_OFFSET, &self.tmp_token0_pubkey);
        write_key(dst, RECEIVER_OFFSET, &self.maker_token1_pubkey);
        write_u64_le(dst, AMOUNT_OFFSET, self.maker_token1_expected_amount);
        assert(dst@ =~= record_bytes(*self) + old(dst)@.subrange(
            Escrow::LEN as int,
            old(dst)@.len() as int,
        ));
    }

    /// Reads a record from storage of exactly `LEN` bytes, initialized or not.
    pub fn unpack_unchecked(input: &[u8]) -> (r: Result<Escrow, EscrowError>)
        ensures
            r is Ok <==> input@.len() == Escrow::LEN && valid_flag(input@),
            r is Ok ==> holds_record(input@, r->Ok_0),
            r is Err ==> r->Err_0 == EscrowError::InvalidAccountData,
    {
        if input.len() != Escrow::LEN {
            return Err(EscrowError::InvalidAccountData);
        }
        Self::unpack_from_slice(input)
    }

    /// Reads a live record from storage of exactly `LEN` bytes.
    pub fn unpack(input: &[u8]) -> (r: Result<Escrow, EscrowError>)
        ensures
            r is Ok <==> input@.len() == Escrow::LEN && input@[0] == 1,
            r is Ok ==> holds_record(input@, r->Ok_0),
            r is Err ==> r->Err_0 == if input@.len() == Escrow::LEN && input@[0] == 0 {
                EscrowError::UninitializedAccount
            } else {
                EscrowError::InvalidAccountData
            },
    {
        let value = Self::unpack_unchecked(input)?;
        if value.is_initialized() {
            Ok(value)
        } else {
            Err(EscrowError::UninitializedAccount)
        }
    }

    /// Writes `src` into storage of exactly `LEN` bytes.
    pub fn pack(src: Escrow, dst: &mut [u8]) -> (r: Result<(), EscrowError>)
        ensures
            r is Ok <==> old(dst)@.len() == Escrow::LEN,
            r is Ok ==> final(dst)@ == record_bytes(src),
            r is Err ==> r->Err_0 == EscrowError::InvalidAccountData && final(dst)@ == old(dst)@,
    {
        if dst.len() != Escrow::LEN {
            return Err(EscrowError::InvalidAccountData);
        }
        src.pack_into_slice(dst);
        assert(dst@ =~= record_bytes(src));
        Ok(())
    }
}

/// A stored record is `LEN` bytes long and reads back as the record that was
/// written.
pub proof fn lemma_record_round_trip(e: Escrow)
    ensures
        record_bytes(e).len() == Escrow::LEN,
        valid_flag(record_bytes(e)),
        holds_record(record_bytes(e), e),
{
    lemma_le_round_trip(e.maker_token1_expected_amount);
    let b = record_bytes(e);
    assert(b.subrange(MAKER_OFFSET as int, DEPOSIT_OFFSET as int) =~= e.maker_pubkey@);
    assert(b.subrange(DEPOSIT_OFFSET as int, RECEIVER_OFFSET as int) =~= e.tmp_token0_pubkey@);
    assert(b.subrange(RECEIVER_OFFSET as int, AMOUNT_OFFSET as int) =~= e.maker_token1_pubkey@);
    assert(b.subrange(AMOUNT_OFFSET as int, Escrow::LEN as int) =~= le_bytes(
        e.maker_token1_expected_amount,
    ));
    assert(le_u64_at(b, AMOUNT_OFFSET as int) == le_u64_at(
        le_bytes(e.maker_token1_expected_amount),
        0,
    ));
}

} // verus!
