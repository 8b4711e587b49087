use vstd::prelude::*;

use crate::error::EscrowError;
use crate::instruction::{spec_unpack, EscrowInstruction, Request};
use crate::layout::{le_u64_at, Pubkey};
use crate::ledger::{
    close_account_instruction, close_account_request, find_program_address, program_address,
    set_owner_instruction, set_owner_request, token_account_amount, token_amount,
    token_program_id, token_program_key, transfer_instruction, transfer_request,
};
use crate::state::{
    record_bytes, Escrow, AMOUNT_OFFSET, DEPOSIT_OFFSET, MAKER_OFFSET, RECEIVER_OFFSET,
};

verus! {

/// What the processor reads of one account that the host hands in.
#[derive(Clone, Debug, PartialEq, Eq)]
pub struct AccountState {
    pub key: Pubkey,
    pub is_signer: bool,
    /// the program that owns the account
    pub owner: Pubkey,
    pub lamports: u64,
    pub data: Vec<u8>,
}

/// A call to the token program, in plain terms.
#[derive(Clone, Copy, Debug, PartialEq, Eq)]
pub enum TokenCall {
    /// Make `new_owner` the owner of the token account `account`, signed by
    /// its current `owner`.
    SetOwner { account: Pubkey, new_owner: Pubkey, owner: Pubkey },
    /// Move `amount` from `source` to `destination`, signed by `authority`.
    Transfer { source: Pubkey, destination: Pubkey, authority: Pubkey, amount: u64 },
    /// Close the empty token account `account`, its lamports going to
    /// `destination`, signed by its `owner`.
    CloseAccount { account: Pubkey, destination: Pubkey, owner: Pubkey },
}

/// One call that the host must make into the token program.
pub struct Invocation {
    pub call: TokenCall,
    /// the token program instruction that carries `call`
    pub request: Request,
    /// positions, in the request's account list, of the accounts to hand over
    pub accounts: Vec<usize>,
    /// `Some(bump)` when the derived authority signs, with this bump seed
    pub authority_bump: Option<u8>,
}

/// After the calls of an exchange: the record's lamports go to the maker and
/// the record is wiped.
#[derive(Clone, Copy, Debug, PartialEq, Eq)]
pub struct Settlement {
    /// position of the maker's main account
    pub maker: usize,
    /// position of the record account
    pub record: usize,
}

/// What the host does, in order, once a request has been accepted.
pub struct Plan {
    pub calls: Vec<Invocation>,
    pub settlement: Option<Settlement>,
}

/// The seed from which the program's authority is derived: the ASCII bytes of
/// `escrow`.
pub open spec fn authority_seed() -> Seq<u8> {
    seq![101u8, 115u8, 99u8, 114u8, 111u8, 119u8]
}

/// The seed from which the program's authority is derived.
pub fn authority_seed_bytes() -> (r: [u8; 6])
    ensures
        r@ == authority_seed(),
{
    let r: [u8; 6] = [101u8, 115u8, 99u8, 114u8, 111u8, 119u8];
    assert(r@ =~= authority_seed());
    r
}

/// The authority of `program_id`, which owns every deposit account in escrow,
/// with its bump seed.
pub open spec fn spec_authority(program_id: Seq<u8>) -> Option<(Seq<u8>, u8)> {
    program_address(authority_seed(), program_id)
}

/// Derives the authority of `program_id` and its bump seed.
pub fn find_authority(program_id: &Pubkey) -> (r: Option<(Pubkey, u8)>)
    ensures
        r is None <==> spec_authority(program_id@) is None,
        r matches Some((k, b)) ==> spec_authority(program_id@) == Some((k@, b)),
{
    let seed = authority_seed_bytes();
    find_program_address(seed.as_slice(), program_id)
}

pub open spec fn is_set_owner(c: TokenCall, account: Seq<u8>, new_owner: Seq<u8>, owner: Seq<u8>) -> bool {
    match c {
        TokenCall::SetOwner { account: a, new_owner: n, owner: o } => a@ == account && n@
            == new_owner && o@ == owner,
        _ => false,
    }
}

pub open spec fn is_transfer(
    c: TokenCall,
    source: Seq<u8>,
    destination: Seq<u8>,
    authority: Seq<u8>,
    amount: u64,
) -> bool {
    match c {
        TokenCall::Transfer { source: s, destination: d, authority: a, amount: n } => s@
            == source && d@ == destination && a@ == authority && n == amount,
        _ => false,
    }
}

pub open spec fn is_close_account(c: TokenCall, account: Seq<u8>, destination: Seq<u8>, owner: Seq<u8>) -> bool {
    match c {
        TokenCall::CloseAccount { account: a, destination: d, owner: o } => a@ == account && d@
            == destination && o@ == owner,
        _ => false,
    }
}

/// `q` is the instruction of the token program at `token_program` that
/// carries `c`.
pub open spec fn carries(q: Request, c: TokenCall, token_program: Seq<u8>) -> bool {
    match c {
        TokenCall::SetOwner { account, new_owner, owner } => set_owner_request(
            q,
            token_program,
            account@,
            new_owner@,
            owner@,
        ),
        TokenCall::Transfer { source, destination, authority, amount } => transfer_request(
            q,
            token_program,
            source@,
            destination@,
            authority@,
            amount,
        ),
        TokenCall::CloseAccount { account, destination, owner } => close_account_request(
            q,
            token_program,
            account@,
            destination@,
            owner@,
        ),
    }
}

/// Builds the instruction that carries `call`.
fn build_instruction(token_program: &Pubkey, call: &TokenCall) -> (r: Option<Request>)
    ensures
        r is Some <==> token_program@ == token_program_key(),
        r matches Some(q) ==> carries(q, *call, token_program@),
{
    match call {
        TokenCall::SetOwner { account, new_owner, owner } => set_owner_instruction(
            token_program,
            account,
            new_owner,
            owner,
        ),
        TokenCall::Transfer { source, destination, authority, amount } => transfer_instruction(
            token_program,
            source,
            destination,
            authority,
            *amount,
        ),
        TokenCall::CloseAccount { account, destination, owner } => close_account_instruction(
            token_program,
            account,
            destination,
            owner,
        ),
    }
}

/// Packages `call` for the host, or fails when `token_program` is not the
/// token program.
fn invocation(token_program: &Pubkey, call: TokenCall, accounts: Vec<usize>, authority_bump: Option<
    u8,
>) -> (r: Result<Invocation, EscrowError>)
    ensures
        r is Ok <==> token_program@ == token_program_key(),
        r is Err ==> r->Err_0 == EscrowError::IncorrectProgramId,
        r is Ok ==> r->Ok_0.call == call && r->Ok_0.accounts@ == accounts@ && r->Ok_0.authority_bump
            == authority_bump && carries(r->Ok_0.request, call, token_program@),
{
    match build_instruction(token_program, &call) {
        Some(request) => Ok(Invocation { call, request, accounts, authority_bump }),
        None => Err(EscrowError::IncorrectProgramId),
    }
}

/// Why an init request with these accounts fails, checked in order, if it does.
///
/// `rent_exempt` says whether the record account (position 3) is exempt from
/// rent under the rent sysvar (position 4); `None` when that sysvar cannot be
/// read.
pub open spec fn init_error(accounts: Seq<AccountState>, program_id: Seq<u8>, rent_exempt: Option<
    bool,
>) -> Option<EscrowError> {
    if accounts.len() < 1 {
        Some(EscrowError::NotEnoughAccountKeys)
    } else if !accounts[0].is_signer {
        Some(EscrowError::MissingRequiredSignature)
    } else if accounts.len() < 3 {
        Some(EscrowError::NotEnoughAccountKeys)
    } else if accounts[2].owner@ != token_program_key() {
        Some(EscrowError::IncorrectProgramId)
    } else if accounts.len() < 5 {
        Some(EscrowError::NotEnoughAccountKeys)
    } else if rent_exempt is None {
        Some(EscrowError::InvalidArgument)
    } else if rent_exempt == Some(false) {
        Some(EscrowError::NotRentExempt)
    } else if accounts[3].data@.len() != Escrow::LEN || !(accounts[3].data@[0] == 0
        || accounts[3].data@[0] == 1) {
        Some(EscrowError::InvalidAccountData)
    } else if accounts[3].data@[0] == 1 {
        Some(EscrowError::AccountAlreadyInitialized)
    } else if spec_authority(program_id) is None {
        Some(EscrowError::InvalidSeeds)
    } else if accounts.len() < 6 {
        Some(EscrowError::NotEnoughAccountKeys)
    } else if accounts[5].key@ != token_program_key() {
        Some(EscrowError::IncorrectProgramId)
    } else {
        None
    }
}

/// The record that an accepted init request writes.
pub open spec fn new_record(accounts: Seq<AccountState>, amount: u64) -> Escrow {
    Escrow {
        is_initialized: true,
        maker_pubkey: accounts[0].key,
        tmp_token0_pubkey: accounts[1].key,
        maker_token1_pubkey: accounts[2].key,
        maker_token1_expected_amount: amount,
    }
}

/// An accepted init request: the record account (position 3) holds the new
/// record and nothing else changed; the one call hands the deposit account to
/// the derived authority, signed by the maker.
pub open spec fn init_done(
    before: Seq<AccountState>,
    after: Seq<AccountState>,
    plan: Plan,
    amount: u64,
    program_id: Seq<u8>,
) -> bool {
    &&& after.len() == before.len()
    &&& forall|i: int| 0 <= i < before.len() && i != 3 ==> after[i] == before[i]
    &&& after[3].key == before[3].key
    &&& after[3].is_signer == before[3].is_signer
    &&& after[3].owner == before[3].owner
    &&& after[3].lamports == before[3].lamports
    &&& after[3].data@ == record_bytes(new_record(before, amount))
    &&& plan.settlement is None
    &&& plan.calls@.len() == 1
    &&& is_set_owner(
        plan.calls@[0].call,
        before[1].key@,
        spec_authority(program_id)->Some_0.0,
        before[0].key@,
    )
    &&& carries(plan.calls@[0].request, plan.calls@[0].call, before[5].key@)
    &&& plan.calls@[0].accounts@ == seq![1usize, 0usize, 5usize]
    &&& plan.calls@[0].authority_bump is None
}

/// Starts a trade (see `EscrowInstruction::InitEscrow` for the accounts).
pub fn process_init_escrow(
    accounts: &mut Vec<AccountState>,
    amount: u64,
    program_id: &Pubkey,
    rent_exempt: Option<bool>,
) -> (r: Result<Plan, EscrowError>)
    ensures
        r is Err <==> init_error(old(accounts)@, program_id@, rent_exempt) is Some,
        r is Err ==> r->Err_0 == init_error(old(accounts)@, program_id@, rent_exempt)->Some_0
            && final(accounts)@ == old(accounts)@,
        r is Ok ==> init_done(old(accounts)@, final(accounts)@, r->Ok_0, amount, program_id@),
        old(accounts)@.len() >= 1 && !old(accounts)@[0].is_signer ==> r == Err::<Plan, EscrowError>(
            EscrowError::MissingRequiredSignature,
        ),
        old(accounts)@.len() >= 5 && old(accounts)@[0].is_signer && old(accounts)@[2].owner@ == token_program_key() && rent_exempt == Some(false) ==> r == Err::<Plan, EscrowError>(
            EscrowError::NotRentExempt,
        ),
        old(accounts)@.len() >= 5 && old(accounts)@[0].is_signer && old(accounts)@[2].owner@ == token_program_key() && rent_exempt == Some(true) && old(accounts)@[3].data@.len() == Escrow::LEN && old(
            accounts,
        )@[3].data@[0] == 1 ==> r == Err::<Plan, EscrowError>(
            EscrowError::AccountAlreadyInitialized,
        ),
{
    if accounts.len() < 1 {
        return Err(EscrowError::NotEnoughAccountKeys);
    }
    if !accounts[0].is_signer {
        return Err(EscrowError::MissingRequiredSignature);
    }
    if accounts.len() < 3 {
        return Err(EscrowError::NotEnoughAccountKeys);
    }
    let token_program = token_program_id();
    if !(accounts[2].owner == token_program) {
        return Err(EscrowError::IncorrectProgramId);
    }
    if accounts.len() < 5 {
        return Err(EscrowError::NotEnoughAccountKeys);
    }
    match rent_exempt {
        None => {
            return Err(EscrowError::InvalidArgument);
        },
        Some(false) => {
            return Err(EscrowError::NotRentExempt);
        },
        Some(true) => {},
    }
    let stored = match Escrow::unpack_unchecked(accounts[3].data.as_slice()) {
        Ok(e) => e,
        Err(e) => {
            return Err(e);
        },
    };
    if stored.is_initialized() {
        return Err(EscrowError::AccountAlreadyInitialized);
    }
    let record = Escrow {
        is_initialized: true,
        maker_pubkey: accounts[0].key,
        tmp_token0_pubkey: accounts[1].key,
        maker_token1_pubkey: accounts[2].key,
        maker_token1_expected_amount: amount,
    };
    let (pda, _bump) = match find_authority(program_id) {
        Some(found) => found,
        None => {
            return Err(EscrowError::InvalidSeeds);
        },
    };
    if accounts.len() < 6 {
        return Err(EscrowError::NotEnoughAccountKeys);
    }
    let call = TokenCall::SetOwner { account: accounts[1].key, new_owner: pda, owner: accounts[0].key };
    let set_owner = invocation(&accounts[5].key, call, vec![1usize, 0usize, 5usize], None)?;
    let ghost before = accounts@;
    let mut data = accounts[3].data.clone();
    assert(data@ == before[3].data@);
    if Escrow::pack(record, data.as_mut_slice()).is_err() {
        return Err(EscrowError::InvalidAccountData);
    }
    let target = AccountState {
        key: accounts[3].key,
        is_signer: accounts[3].is_signer,
        owner: accounts[3].owner,
        lamports: accounts[3].lamports,
        data,
    };
    accounts[3] = target;
    let mut calls: Vec<Invocation> = Vec::new();
    calls.push(set_owner);
    Ok(Plan { calls, settlement: None })
}

/// The record stored in `data` names these deposit, maker and receiving accounts.
pub open spec fn record_names(data: Seq<u8>, deposit: Seq<u8>, maker: Seq<u8>, receiver: Seq<u8>) -> bool {
    &&& data.subrange(DEPOSIT_OFFSET as int, RECEIVER_OFFSET as int) == deposit
    &&& data.subrange(MAKER_OFFSET as int, DEPOSIT_OFFSET as int) == maker
    &&& data.subrange(RECEIVER_OFFSET as int, AMOUNT_OFFSET as int) == receiver
}

/// Why an exchange request with these accounts fails, checked in order, if it
/// does.
pub open spec fn exchange_error(accounts: Seq<AccountState>, amount: u64, program_id: Seq<u8>) -> Option<
    EscrowError,
> {
    if accounts.len() < 1 {
        Some(EscrowError::NotEnoughAccountKeys)
    } else if !accounts[0].is_signer {
        Some(EscrowError::MissingRequiredSignature)
    } else if accounts.len() < 4 {
        Some(EscrowError::NotEnoughAccountKeys)
    } else if token_amount(accounts[3].data@) is Err {
        Some(token_amount(accounts[3].data@)->Err_0)
    } else if token_amount(accounts[3].data@)->Ok_0 != amount {
        Some(EscrowError::ExpectedAmountMismatch)
    } else if accounts.len() < 7 {
        Some(EscrowError::NotEnoughAccountKeys)
    } else if accounts[6].data@.len() != Escrow::LEN || accounts[6].data@[0] > 1 {
        Some(EscrowError::InvalidAccountData)
    } else if accounts[6].data@[0] == 0 {
        Some(EscrowError::UninitializedAccount)
    } else if !record_names(
        accounts[6].data@,
        accounts[3].key@,
        accounts[4].key@,
        accounts[5].key@,
    ) {
        Some(EscrowError::InvalidAccountData)
    } else if accounts.len() < 8 {
        Some(EscrowError::NotEnoughAccountKeys)
    } else if accounts[7].key@ != token_program_key() {
        Some(EscrowError::IncorrectProgramId)
    } else if spec_authority(program_id) is None {
        Some(EscrowError::InvalidSeeds)
    } else if accounts.len() < 9 {
        Some(EscrowError::NotEnoughAccountKeys)
    } else {
        None
    }
}

/// An accepted exchange: the taker pays the maker the recorded amount; the
/// derived authority moves the whole deposit to the taker and closes the
/// deposit account in the maker's favour; then the record is settled.
pub open spec fn exchange_plan(accounts: Seq<AccountState>, plan: Plan, program_id: Seq<u8>) -> bool {
    let (pda, bump) = spec_authority(program_id)->Some_0;
    &&& plan.calls@.len() == 3
    &&& is_transfer(
        plan.calls@[0].call,
        accounts[1].key@,
        accounts[5].key@,
        accounts[0].key@,
        le_u64_at(accounts[6].data@, AMOUNT_OFFSET as int),
    )
    &&& carries(plan.calls@[0].request, plan.calls@[0].call, accounts[7].key@)
    &&& plan.calls@[0].accounts@ == seq![1usize, 5usize, 0usize, 7usize]
    &&& plan.calls@[0].authority_bump is None
    &&& is_transfer(
        plan.calls@[1].call,
        accounts[3].key@,
        accounts[2].key@,
        pda,
        token_amount(accounts[3].data@)->Ok_0,
    )
    &&& carries(plan.calls@[1].request, plan.calls@[1].call, accounts[7].key@)
    &&& plan.calls@[1].accounts@ == seq![3usize, 2usize, 8usize, 7usize]
    &&& plan.calls@[1].authority_bump == Some(bump)
    &&& is_close_account(plan.calls@[2].call, accounts[3].key@, accounts[4].key@, pda)
    &&& carries(plan.calls@[2].request, plan.calls@[2].call, accounts[7].key@)
    &&& plan.calls@[2].accounts@ == seq![3usize, 4usize, 8usize, 7usize]
    &&& plan.calls@[2].authority_bump == Some(bump)
    &&& plan.settlement == Some(Settlement { maker: 4, record: 6 })
}

/// Completes a trade (see `EscrowInstruction::Exchange` for the accounts).
/// `amount` is what the taker expects to receive of the deposit.
pub fn process_exchange(accounts: &Vec<AccountState>, amount: u64, program_id: &Pubkey) -> (r:
    Result<Plan, EscrowError>)
    ensures
        r is Err <==> exchange_error(accounts@, amount, program_id@) is Some,
        r is Err ==> r->Err_0 == exchange_error(accounts@, amount, program_id@)->Some_0,
        r is Ok ==> exchange_plan(accounts@, r->Ok_0, program_id@),
        accounts@.len() >= 4 && accounts@[0].is_signer && token_amount(accounts@[3].data@) is Ok
            && token_amount(accounts@[3].data@)->Ok_0 != amount ==> r == Err::<Plan, EscrowError>(
            EscrowError::ExpectedAmountMismatch,
        ),
        accounts@.len() >= 7 && accounts@[0].is_signer && token_amount(accounts@[3].data@) == Ok::<
            u64,
            EscrowError,
        >(amount) && accounts@[6].data@.len() == Escrow::LEN && accounts@[6].data@[0] == 1
            && !record_names(
            accounts@[6].data@,
            accounts@[3].key@,
            accounts@[4].key@,
            accounts@[5].key@,
        ) ==> r == Err::<Plan, EscrowError>(EscrowError::InvalidAccountData),
{
    if accounts.len() < 1 {
        return Err(EscrowError::NotEnoughAccountKeys);
    }
    if !accounts[0].is_signer {
        return Err(EscrowError::MissingRequiredSignature);
    }
    if accounts.len() < 4 {
        return Err(EscrowError::NotEnoughAccountKeys);
    }
    // the deposit must still hold what the taker saw, or the maker changed it
    let held = match token_account_amount(accounts[3].data.as_slice()) {
        Ok(held) => held,
        Err(e) => {
            return Err(e);
        },
    };
    if held != amount {
        return Err(EscrowError::ExpectedAmountMismatch);
    }
    if accounts.len() < 7 {
        return Err(EscrowError::NotEnoughAccountKeys);
    }
    let record = match Escrow::unpack(accounts[6].data.as_slice()) {
        Ok(e) => e,
        Err(e) => {
            return Err(e);
        },
    };
    if !(record.tmp_token0_pubkey == accounts[3].key) {
        return Err(EscrowError::InvalidAccountData);
    }
    if !(record.maker_pubkey == accounts[4].key) {
        return Err(EscrowError::InvalidAccountData);
    }
    if !(record.maker_token1_pubkey == accounts[5].key) {
        return Err(EscrowError::InvalidAccountData);
    }
    if accounts.len() < 8 {
        return Err(EscrowError::NotEnoughAccountKeys);
    }
    let token_program = &accounts[7].key;
    let pay_maker = TokenCall::Transfer {
        source: accounts[1].key,
        destination: accounts[5].key,
        authority: accounts[0].key,
        amount: record.maker_token1_expected_amount,
    };
    let pay_maker = invocation(token_program, pay_maker, vec![1usize, 5usize, 0usize, 7usize], None)?;
    let (pda, bump) = match find_authority(program_id) {
        Some(found) => found,
        None => {
            return Err(EscrowError::InvalidSeeds);
        },
    };
    if accounts.len() < 9 {
        return Err(EscrowError::NotEnoughAccountKeys);
    }
    let pay_taker = TokenCall::Transfer {
        source: accounts[3].key,
        destination: accounts[2].key,
        authority: pda,
        amount: held,
    };
    let pay_taker = invocation(
        token_program,
        pay_taker,
        vec![3usize, 2usize, 8usize, 7usize],
        Some(bump),
    )?;
    // the maker paid the deposit account's rent, so it goes back to them
    let close = TokenCall::CloseAccount { account: accounts[3].key, destination: accounts[4].key, owner: pda };
    let close = invocation(token_program, close, vec![3usize, 4usize, 8usize, 7usize], Some(bump))?;
    let mut calls: Vec<Invocation> = Vec::new();
    calls.push(pay_maker);
    calls.push(pay_taker);
    calls.push(close);
    Ok(Plan { calls, settlement: Some(Settlement { maker: 4, record: 6 }) })
}

/// Settles a record once the calls of its exchange have been made: the
/// record's lamports are credited to the maker, and the record's lamports and
/// data are zeroed so that nothing later in the same transaction can reuse it.
pub fn close_escrow_account(maker: &mut AccountState, record: &mut AccountState) -> (r: Result<
    (),
    EscrowError,
>)
    ensures
        r is Ok <==> old(maker).lamports + old(record).lamports <= u64::MAX,
        r is Ok ==> final(maker).lamports == old(maker).lamports + old(record).lamports
            && final(record).lamports == 0 && final(record).data@ == Seq::new(
            old(record).data@.len(),
            |i: int| 0u8,
        ),
        r is Ok ==> final(maker).key == old(maker).key && final(maker).is_signer == old(
            maker,
        ).is_signer && final(maker).owner == old(maker).owner && final(maker).data == old(
            maker,
        ).data,
        r is Ok ==> final(record).key == old(record).key && final(record).is_signer == old(
            record,
        ).is_signer && final(record).owner == old(record).owner,
        r is Err ==> r->Err_0 == EscrowError::AmountOverflow && *final(maker) == *old(maker)
            && *final(record) == *old(record),
{
    match maker.lamports.checked_add(record.lamports) {
        Some(total) => {
            maker.lamports = total;
            record.lamports = 0;
            let n = record.data.len();
            let mut zeros: Vec<u8> = Vec::with_capacity(n);
            while zeros.len() < n
                invariant
                    zeros@.len() <= n,
                    forall|j: int| 0 <= j < zeros@.len() ==> zeros@[j] == 0u8,
                decreases n - zeros@.len(),
            {
                zeros.push(0u8);
            }
            assert(zeros@ =~= Seq::new(old(record).data@.len(), |j: int| 0u8));
            record.data = zeros;
            Ok(())
        },
        None => Err(EscrowError::AmountOverflow),
    }
}

/// Once a record has been zeroed by its settlement, every further exchange
/// against it fails.
pub proof fn lemma_settled_record_refuses_exchange(
    accounts: Seq<AccountState>,
    amount: u64,
    program_id: Seq<u8>,
)
    requires
        accounts.len() >= 7,
        accounts[6].data@ == Seq::new(accounts[6].data@.len(), |i: int| 0u8),
    ensures
        exchange_error(accounts, amount, program_id) is Some,
{
    if accounts[6].data@.len() > 0 {
        assert(accounts[6].data@[0] == 0u8);
    }
}

/// The authority that signs an exchange's payout and close is the one that an
/// init by the same program made owner of the deposit, and the payout moves
/// the deposit's whole balance.
pub proof fn lemma_exchange_signs_as_init_owner(
    init_before: Seq<AccountState>,
    init_after: Seq<AccountState>,
    init_plan: Plan,
    expected: u64,
    accounts: Seq<AccountState>,
    plan: Plan,
    program_id: Seq<u8>,
)
    requires
        init_done(init_before, init_after, init_plan, expected, program_id),
        exchange_plan(accounts, plan, program_id),
        accounts[3].key@ == init_before[1].key@,
    ensures
        init_plan.calls@[0].call matches TokenCall::SetOwner { new_owner, .. } && (plan.calls@[
            1
        ].call matches TokenCall::Transfer { source, authority, amount, .. } && source@
            == init_before[1].key@ && authority@ == new_owner@ && amount == token_amount(
            accounts[3].data@,
        )->Ok_0),
        init_plan.calls@[0].call matches TokenCall::SetOwner { new_owner, .. } && (plan.calls@[
            2
        ].call matches TokenCall::CloseAccount { account, owner, .. } && account@
            == init_before[1].key@ && owner@ == new_owner@),
{
}

/// Decodes a request and carries out the checks of its operation.
///
/// `rent_exempt` matters to an init request only (see `init_error`).
pub fn process_instruction(
    program_id: &Pubkey,
    accounts: &mut Vec<AccountState>,
    instruction_data: &[u8],
    rent_exempt: Option<bool>,
) -> (r: Result<Plan, EscrowError>)
    ensures
        spec_unpack(instruction_data@) is Err ==> r == Err::<Plan, EscrowError>(
            spec_unpack(instruction_data@)->Err_0,
        ) && final(accounts)@ == old(accounts)@,
        spec_unpack(instruction_data@) matches Ok(EscrowInstruction::InitEscrow { amount }) ==> {
            &&& r is Err <==> init_error(old(accounts)@, program_id@, rent_exempt) is Some
            &&& r is Err ==> r->Err_0 == init_error(old(accounts)@, program_id@, rent_exempt)->Some_0
                && final(accounts)@ == old(accounts)@
            &&& r is Ok ==> init_done(old(accounts)@, final(accounts)@, r->Ok_0, amount, program_id@)
        },
        spec_unpack(instruction_data@) matches Ok(EscrowInstruction::Exchange { amount }) ==> {
            &&& final(accounts)@ == old(accounts)@
            &&& r is Err <==> exchange_error(old(accounts)@, amount, program_id@) is Some
            &&& r is Err ==> r->Err_0 == exchange_error(old(accounts)@, amount, program_id@)->Some_0
            &&& r is Ok ==> exchange_plan(old(accounts)@, r->Ok_0, program_id@)
        },
{
    let instruction = match EscrowInstruction::unpack(instruction_data) {
        Ok(i) => i,
        Err(e) => {
            return Err(e);
        },
    };
    match instruction {
        EscrowInstruction::InitEscrow { amount } => process_init_escrow(
            accounts,
            amount,
            program_id,
            rent_exempt,
        ),
        EscrowInstruction::Exchange { amount } => process_exchange(accounts, amount, program_id),
    }
}

} // verus!
