use vstd::prelude::*;

use crate::error::EscrowError;
use crate::layout::{le_bytes, le_u64_at, lemma_le_round_trip, push_u64_le, read_u64_le, Pubkey};
use crate::ledger::{rent_sysvar_id, rent_sysvar_key};

verus! {

/// Length in bytes of the amount that follows the tag of every request.
pub const AMOUNT_LEN: usize = 8;

/// A request to the escrow program.
#[derive(Clone, Copy, Debug, PartialEq, Eq, Structural)]
pub enum EscrowInstruction {
    /// Starts a trade: records it and hands the maker's deposit account to the
    /// derived authority.
    ///
    /// Accounts expected:
    ///
    /// 0. `[signer]` the maker
    /// 1. `[writable]` the deposit account, funded and owned by the maker
    /// 2. `[]` the maker's account that receives the counter-asset
    /// 3. `[writable]` the record account
    /// 4. `[]` the rent sysvar
    /// 5. `[]` the token program
    InitEscrow {
        /// the amount of the counter-asset the maker expects to receive
        amount: u64,
    },
    /// Completes a trade.
    ///
    /// Accounts expected:
    ///
    /// 0. `[signer]` the taker
    /// 1. `[writable]` the taker's account that pays the counter-asset
    /// 2. `[writable]` the taker's account that receives the deposit
    /// 3. `[writable]` the deposit account, owned by the derived authority
    /// 4. `[writable]` the maker's main account, which gets the rent back
    /// 5. `[writable]` the maker's account that receives the counter-asset
    /// 6. `[writable]` the record account
    /// 7. `[]` the token program
    /// 8. `[]` the derived authority
    Exchange {
        /// the amount of the deposit the taker expects to receive
        amount: u64,
    },
}

/// The amount carried in the first eight bytes of a request's payload.
pub open spec fn spec_unpack_amount(rest: Seq<u8>) -> Result<u64, EscrowError> {
    if rest.len() < AMOUNT_LEN {
        Err(EscrowError::InvalidInstructionData)
    } else {
        Ok(le_u64_at(rest, 0))
    }
}

/// The request that a byte buffer encodes.
pub open spec fn spec_unpack(input: Seq<u8>) -> Result<EscrowInstruction, EscrowError> {
    if input.len() == 0 {
        Err(EscrowError::InvalidInstruction)
    } else {
        let rest = input.subrange(1, input.len() as int);
        if input[0] == 0 {
            match spec_unpack_amount(rest) {
                Ok(amount) => Ok(EscrowInstruction::InitEscrow { amount }),
                Err(e) => Err(e),
            }
        } else if input[0] == 1 {
            match spec_unpack_amount(rest) {
                Ok(amount) => Ok(EscrowInstruction::Exchange { amount }),
                Err(e) => Err(e),
            }
        } else {
            Err(EscrowError::InvalidInstruction)
        }
    }
}

impl EscrowInstruction {
    /// The bytes that encode this request: its tag, then its amount.
    pub open spec fn spec_pack(self) -> Seq<u8> {
        match self {
            EscrowInstruction::InitEscrow { amount } => seq![0u8] + le_bytes(amount),
            EscrowInstruction::Exchange { amount } => seq![1u8] + le_bytes(amount),
        }
    }

    /// Decodes a request from a byte buffer.
    pub fn unpack(input: &[u8]) -> (r: Result<EscrowInstruction, EscrowError>)
        ensures
            r == spec_unpack(input@),
            input@.len() > 0 && input@[0] > 1 ==> r == Err::<EscrowInstruction, EscrowError>(
                EscrowError::InvalidInstruction,
            ),
    {
        if input.len() == 0 {
            return Err(EscrowError::InvalidInstruction);
        }
        let (head, rest) = input.split_at(1);
        let tag = head[0];
        if tag == 0 {
            match Self::unpack_init_escrow(rest) {
                Ok(amount) => Ok(EscrowInstruction::InitEscrow { amount }),
                Err(e) => Err(e),
            }
        } else if tag == 1 {
            match Self::unpack_exchange(rest) {
                Ok(amount) => Ok(EscrowInstruction::Exchange { amount }),
                Err(e) => Err(e),
            }
        } else {
            Err(EscrowError::InvalidInstruction)
        }
    }

    fn unpack_init_escrow(input: &[u8]) -> (r: Result<u64, EscrowError>)
        ensures
            r == spec_unpack_amount(input@),
    {
        if input.len() < AMOUNT_LEN {
            return Err(EscrowError::InvalidInstructionData);
        }
        Ok(read_u64_le(input, 0))
    }

    /// An exchange carries the same payload as an init.
    fn unpack_exchange(input: &[u8]) -> (r: Result<u64, EscrowError>)
        ensures
            r == spec_unpack_amount(input@),
    {
        Self::unpack_init_escrow(input)
    }

    /// Encodes this request.
    pub fn pack(&self) -> (r: Vec<u8>)
        ensures
            r@ == self.spec_pack(),
            r@.len() == 1 + AMOUNT_LEN,
    {
        let mut buf: Vec<u8> = Vec::with_capacity(1 + AMOUNT_LEN);
        match self {
            EscrowInstruction::InitEscrow { amount } => {
                buf.push(0u8);
                push_u64_le(&mut buf, *amount);
            },
            EscrowInstruction::Exchange { amount } => {
                buf.push(1u8);
                push_u64_le(&mut buf, *amount);
            },
        }
        assert(buf@ =~= self.spec_pack());
        buf
    }
}

/// Decoding the encoding of a request gives the request back.
pub proof fn lemma_unpack_pack(r: EscrowInstruction)
    ensures
        spec_unpack(r.spec_pack()) == Ok::<EscrowInstruction, EscrowError>(r),
{
    let amount = match r {
        EscrowInstruction::InitEscrow { amount } => amount,
        EscrowInstruction::Exchange { amount } => amount,
    };
    lemma_le_round_trip(amount);
    let bytes = r.spec_pack();
    let rest = bytes.subrange(1, bytes.len() as int);
    assert(rest =~= le_bytes(amount));
}

/// Every tag byte other than 0 and 1 is refused, whatever follows it.
pub proof fn lemma_unknown_tag_refused(input: Seq<u8>)
    requires
        input.len() > 0,
        input[0] > 1,
    ensures
        spec_unpack(input) == Err::<EscrowInstruction, EscrowError>(EscrowError::InvalidInstruction),
{
}

/// One account named by a request, with how the request uses it.
#[derive(Clone, Copy, Debug, PartialEq, Eq)]
pub struct AccountMeta {
    pub pubkey: Pubkey,
    pub is_signer: bool,
    pub is_writable: bool,
}

/// A request for a program, ready to be placed in a transaction.
#[derive(Clone, Debug, PartialEq, Eq)]
pub struct Request {
    pub program_id: Pubkey,
    pub accounts: Vec<AccountMeta>,
    pub data: Vec<u8>,
}

/// `m` names `key`, with these signer and writable flags.
pub open spec fn is_meta(m: AccountMeta, key: Seq<u8>, is_signer: bool, is_writable: bool) -> bool {
    m.pubkey@ == key && m.is_signer == is_signer && m.is_writable == is_writable
}

/// Creates an `InitEscrow` request, naming its accounts in the order the
/// program expects them.
pub fn init_escrow(
    escrow_program_id: &Pubkey,
    maker: &Pubkey,
    tmp_token0: &Pubkey,
    maker_token1: &Pubkey,
    escrow_info: &Pubkey,
    token_program_id: &Pubkey,
    amount: u64,
) -> (r: Result<Request, EscrowError>)
    ensures
        r is Ok,
        r->Ok_0.program_id == *escrow_program_id,
        r->Ok_0.data@ == (EscrowInstruction::InitEscrow { amount }).spec_pack(),
        r->Ok_0.accounts@.len() == 6,
        is_meta(r->Ok_0.accounts@[0], maker@, true, false),
        is_meta(r->Ok_0.accounts@[1], tmp_token0@, false, true),
        is_meta(r->Ok_0.accounts@[2], maker_token1@, false, false),
        is_meta(r->Ok_0.accounts@[3], escrow_info@, false, true),
        is_meta(r->Ok_0.accounts@[4], rent_sysvar_key(), false, false),
        is_meta(r->Ok_0.accounts@[5], token_program_id@, false, false),
{
    let data = EscrowInstruction::InitEscrow { amount }.pack();
    let mut accounts: Vec<AccountMeta> = Vec::with_capacity(6);
    accounts.push(AccountMeta { pubkey: *maker, is_signer: true, is_writable: false });
    accounts.push(AccountMeta { pubkey: *tmp_token0, is_signer: false, is_writable: true });
    accounts.push(AccountMeta { pubkey: *maker_token1, is_signer: false, is_writable: false });
    accounts.push(AccountMeta { pubkey: *escrow_info, is_signer: false, is_writable: true });
    accounts.push(AccountMeta { pubkey: rent_sysvar_id(), is_signer: false, is_writable: false });
    accounts.push(AccountMeta { pubkey: *token_program_id, is_signer: false, is_writable: false });
    Ok(Request { program_id: *escrow_program_id, accounts, data })
}

/// Creates an `Exchange` request, naming its accounts in the order the
/// program expects them.
pub fn exchange(
    escrow_program_id: &Pubkey,
    taker: &Pubkey,
    taker_token1: &Pubkey,
    taker_token0: &Pubkey,
    pda_tmp_token0: &Pubkey,
    maker: &Pubkey,
    maker_token1: &Pubkey,
    escrow_info: &Pubkey,
    token_program_id: &Pubkey,
    pda: &Pubkey,
    amount: u64,
) -> (r: Result<Request, EscrowError>)
    ensures
        r is Ok,
        r->Ok_0.program_id == *escrow_program_id,
        r->Ok_0.data@ == (EscrowInstruction::Exchange { amount }).spec_pack(),
        r->Ok_0.accounts@.len() == 9,
        is_meta(r->Ok_0.accounts@[0], taker@, true, false),
        is_meta(r->Ok_0.accounts@[1], taker_token1@, false, true),
        is_meta(r->Ok_0.accounts@[2], taker_token0@, false, true),
        is_meta(r->Ok_0.accounts@[3], pda_tmp_token0@, false, true),
        is_meta(r->Ok_0.accounts@[4], maker@, false, true),
        is_meta(r->Ok_0.accounts@[5], maker_token1@, false, true),
        is_meta(r->Ok_0.accounts@[6], escrow_info@, false, true),
        is_meta(r->Ok_0.accounts@[7], token_program_id@, false, false),
        is_meta(r->Ok_0.accounts@[8], pda@, false, false),
{
    let data = EscrowInstruction::Exchange { amount }.pack();
    let mut accounts: Vec<AccountMeta> = Vec::with_capacity(9);
    accounts.push(AccountMeta { pubkey: *taker, is_signer: true, is_writable: false });
    accounts.push(AccountMeta { pubkey: *taker_token1, is_signer: false, is_writable: true });
    accounts.push(AccountMeta { pubkey: *taker_token0, is_signer: false, is_writable: true });
    accounts.push(AccountMeta { pubkey: *pda_tmp_token0, is_signer: false, is_writable: true });
    accounts.push(AccountMeta { pubkey: *maker, is_signer: false, is_writable: true });
    accounts.push(AccountMeta { pubkey: *maker_token1, is_signer: false, is_writable: true });
    accounts.push(AccountMeta { pubkey: *escrow_info, is_signer: false, is_writable: true });
    accounts.push(AccountMeta { pubkey: *token_program_id, is_signer: false, is_writable: false });
    accounts.push(AccountMeta { pubkey: *pda, is_signer: false, is_writable: false });
    Ok(Request { program_id: *escrow_program_id, accounts, data })
}

} // verus!
