use vstd::prelude::*;

use solana_program::pubkey::Pubkey as HostKey;

use crate::error::EscrowError;
use crate::instruction::{is_meta, AccountMeta, Request};
use crate::layout::{le_bytes, le_u64_at, Pubkey};

verus! {

/// The address and bump that the host derives for `program_id` from one seed,
/// if one exists.
pub uninterp spec fn program_address(seed: Seq<u8>, program_id: Seq<u8>) -> Option<(Seq<u8>, u8)>;

/// The address of the token program,
/// `TokenkegQfeZyiNwAJbNbGKPFXCWuBvf9Ss623VQ5DA`.
pub open spec fn token_program_key() -> Seq<u8> {
    seq![
        6u8, 221u8, 246u8, 225u8, 215u8, 101u8, 161u8, 147u8, 217u8, 203u8, 225u8, 70u8, 206u8,
        235u8, 121u8, 172u8, 28u8, 180u8, 133u8, 237u8, 95u8, 91u8, 55u8, 145u8, 58u8, 140u8,
        245u8, 133u8, 126u8, 255u8, 0u8, 169u8,
    ]
}

/// Relies on spl_token::id: the token program's fixed address.
#[verifier::external_body]
pub(crate) fn token_program_id() -> (r: Pubkey)
    ensures
        r@ == token_program_key(),
{
    Pubkey(spl_token::id().to_bytes())
}

/// `q` is spl-token's transfer of `amount` from `source` to `destination`,
/// with `authority` named once as the owner and once as its one signer.
pub open spec fn transfer_request(
    q: Request,
    token_program: Seq<u8>,
    source: Seq<u8>,
    destination: Seq<u8>,
    authority: Seq<u8>,
    amount: u64,
) -> bool {
    &&& q.program_id@ == token_program
    &&& q.data@ == seq![3u8] + le_bytes(amount)
    &&& q.accounts@.len() == 4
    &&& is_meta(q.accounts@[0], source, false, true)
    &&& is_meta(q.accounts@[1], destination, false, true)
    &&& is_meta(q.accounts@[2], authority, false, false)
    &&& is_meta(q.accounts@[3], authority, true, false)
}

/// `q` is spl-token's change of the account-owner authority of `account` to
/// `new_owner`, with the current `owner` named once as owner and once as
/// its one signer.
pub open spec fn set_owner_request(
    q: Request,
    token_program: Seq<u8>,
    account: Seq<u8>,
    new_owner: Seq<u8>,
    owner: Seq<u8>,
) -> bool {
    &&& q.program_id@ == token_program
    &&& q.data@ == seq![6u8, 2u8, 1u8] + new_owner
    &&& q.accounts@.len() == 3
    &&& is_meta(q.accounts@[0], account, false, true)
    &&& is_meta(q.accounts@[1], owner, false, false)
    &&& is_meta(q.accounts@[2], owner, true, false)
}

/// `q` is spl-token's closing of `account` in favour of `destination`, with
/// `owner` named once as owner and once as its one signer.
pub open spec fn close_account_request(
    q: Request,
    token_program: Seq<u8>,
    account: Seq<u8>,
    destination: Seq<u8>,
    owner: Seq<u8>,
) -> bool {
    &&& q.program_id@ == token_program
    &&& q.data@ == seq![9u8]
    &&& q.accounts@.len() == 4
    &&& is_meta(q.accounts@[0], account, false, true)
    &&& is_meta(q.accounts@[1], destination, false, true)
    &&& is_meta(q.accounts@[2], owner, false, false)
    &&& is_meta(q.accounts@[3], owner, true, false)
}

/// Relies on spl_token::instruction::transfer, called with `authority` as its
/// one signer: it fails unless the program id is the token program's, and
/// otherwise builds the program id, the four account metas and the data
/// (tag 3, then the amount, little-endian) stated here.
#[verifier::external_body]
pub(crate) fn transfer_instruction(
    token_program: &Pubkey,
    source: &Pubkey,
    destination: &Pubkey,
    authority: &Pubkey,
    amount: u64,
) -> (r: Option<Request>)
    ensures
        r is Some <==> token_program@ == token_program_key(),
        r matches Some(q) ==> transfer_request(
            q,
            token_program@,
            source@,
            destination@,
            authority@,
            amount,
        ),
{
    let auth: HostKey = authority.0.into();
    let ix = spl_token::instruction::transfer(
        &token_program.0.into(), &source.0.into(), &destination.0.into(), &auth, &[&auth], amount,
    ).ok()?;
    let accounts = ix.accounts.iter().map(|m| AccountMeta {
        pubkey: Pubkey(m.pubkey.to_bytes()), is_signer: m.is_signer, is_writable: m.is_writable,
    }).collect();
    Some(Request { program_id: Pubkey(ix.program_id.to_bytes()), accounts, data: ix.data })
}

/// Relies on spl_token::instruction::set_authority, called with the
/// account-owner authority type, `new_owner` and `owner` as its one signer: it
/// fails unless the program id is the token program's, and otherwise builds
/// the program id, the three account metas and the data (tag 6, authority
/// type 2, option tag 1, then the new owner) stated here.
#[verifier::external_body]
pub(crate) fn set_owner_instruction(
    token_program: &Pubkey,
    account: &Pubkey,
    new_owner: &Pubkey,
    owner: &Pubkey,
) -> (r: Option<Request>)
    ensures
        r is Some <==> token_program@ == token_program_key(),
        r matches Some(q) ==> set_owner_request(q, token_program@, account@, new_owner@, owner@),
{
    let current: HostKey = owner.0.into();
    let ix = spl_token::instruction::set_authority(
        &token_program.0.into(), &account.0.into(), Some(&new_owner.0.into()),
        spl_token::instruction::AuthorityType::AccountOwner, &current, &[&current],
    ).ok()?;
    let accounts = ix.accounts.iter().map(|m| AccountMeta {
        pubkey: Pubkey(m.pubkey.to_bytes()), is_signer: m.is_signer, is_writable: m.is_writable,
    }).collect();
    Some(Request { program_id: Pubkey(ix.program_id.to_bytes()), accounts, data: ix.data })
}

/// Relies on spl_token::instruction::close_account, called with `owner` as its
/// one signer: it fails unless the program id is the token program's, and
/// otherwise builds the program id, the four account metas and the data
/// (tag 9) stated here.
#[verifier::external_body]
pub(crate) fn close_account_instruction(
    token_program: &Pubkey,
    account: &Pubkey,
    destination: &Pubkey,
    owner: &Pubkey,
) -> (r: Option<Request>)
    ensures
        r is Some <==> token_program@ == token_program_key(),
        r matches Some(q) ==> close_account_request(
            q,
            token_program@,
            account@,
            destination@,
            owner@,
        ),
{
    let current: HostKey = owner.0.into();
    let ix = spl_token::instruction::close_account(
        &token_program.0.into(), &account.0.into(), &destination.0.into(), &current, &[&current],
    ).ok()?;
    let accounts = ix.accounts.iter().map(|m| AccountMeta {
        pubkey: Pubkey(m.pubkey.to_bytes()), is_signer: m.is_signer, is_writable: m.is_writable,
    }).collect();
    Some(Request { program_id: Pubkey(ix.program_id.to_bytes()), accounts, data: ix.data })
}

/// Size in bytes of a token account's data.
pub const TOKEN_ACCOUNT_LEN: usize = 165;

/// Offset of the held amount in a token account's data.
pub const TOKEN_AMOUNT_OFFSET: usize = 64;

/// Offset of the state byte (0 uninitialized, 1 initialized, 2 frozen).
pub const TOKEN_STATE_OFFSET: usize = 108;

/// A four-byte option tag at `at`: 0 for none, 1 for some.
pub open spec fn valid_option_tag(d: Seq<u8>, at: int) -> bool {
    (d[at] == 0 || d[at] == 1) && d[at + 1] == 0 && d[at + 2] == 0 && d[at + 3] == 0
}

/// The data of a token account is well formed: right size, valid state and
/// option tags (delegate, native flag, close authority).
pub open spec fn token_account_well_formed(d: Seq<u8>) -> bool {
    &&& d.len() == TOKEN_ACCOUNT_LEN
    &&& valid_option_tag(d, 72)
    &&& d[TOKEN_STATE_OFFSET as int] <= 2
    &&& valid_option_tag(d, 109)
    &&& valid_option_tag(d, 129)
}

/// The amount a token account holds, or why its data cannot be read.
pub open spec fn token_amount(d: Seq<u8>) -> Result<u64, EscrowError> {
    if !token_account_well_formed(d) {
        Err(EscrowError::InvalidAccountData)
    } else if d[TOKEN_STATE_OFFSET as int] == 0 {
        Err(EscrowError::UninitializedAccount)
    } else {
        Ok(le_u64_at(d, TOKEN_AMOUNT_OFFSET as int))
    }
}

/// Relies on spl_token's `Pack::unpack` for `spl_token::state::Account`: it
/// checks the size, the option tags and the state byte, refuses an
/// uninitialized account, and reads the amount at its fixed offset.
#[verifier::external_body]
pub(crate) fn token_account_amount(data: &[u8]) -> (r: Result<u64, EscrowError>)
    ensures
        r == token_amount(data@),
{
    match <spl_token::state::Account as solana_program::program_pack::Pack>::unpack(data) {
        Ok(account) => Ok(account.amount),
        Err(solana_program::program_error::ProgramError::UninitializedAccount) => Err(
            EscrowError::UninitializedAccount,
        ),
        Err(_) => Err(EscrowError::InvalidAccountData),
    }
}

/// Relies on solana_program's Pubkey::try_find_program_address with the one
/// seed `seed`: a pure function of the seed and the program id.
#[verifier::external_body]
pub(crate) fn find_program_address(seed: &[u8], program_id: &Pubkey) -> (r: Option<(Pubkey, u8)>)
    ensures
        r is None <==> program_address(seed@, program_id@) is None,
        r matches Some((k, b)) ==> program_address(seed@, program_id@) == Some((k@, b)),
{
    solana_program::pubkey::Pubkey::try_find_program_address(
        &[seed],
        &solana_program::pubkey::Pubkey::new_from_array(program_id.0),
    ).map(|(k, b)| (Pubkey(k.to_bytes()), b))
}

/// The address of the rent sysvar.
pub open spec fn rent_sysvar_key() -> Seq<u8> {
    seq![
        6u8, 167u8, 213u8, 23u8, 25u8, 44u8, 92u8, 81u8, 33u8, 140u8, 201u8, 76u8, 61u8, 74u8,
        241u8, 127u8, 88u8, 218u8, 238u8, 8u8, 155u8, 161u8, 253u8, 68u8, 227u8, 219u8, 217u8,
        138u8, 0u8, 0u8, 0u8, 0u8,
    ]
}

/// Relies on solana_program::sysvar::rent::id: the rent sysvar's fixed
/// address, `SysvarRent111111111111111111111111111111111`.
#[verifier::external_body]
pub(crate) fn rent_sysvar_id() -> (r: Pubkey)
    ensures
        r@ == rent_sysvar_key(),
{
    Pubkey(solana_program::sysvar::rent::id().to_bytes())
}

} // verus!
