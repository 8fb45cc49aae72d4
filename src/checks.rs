//! The account checks that every handler runs before it acts.
use vstd::prelude::*;
use vstd::bytes::spec_u64_from_le_bytes;

use crate::accounts::{assert_token_account_mint, assert_token_account_owner, AccountRef, TokenAccountState};
use crate::codec::{decoded_listing, deserialize_listing_bytes};
use crate::error::{EscrowError, ProcessError};
use crate::host::{token_record_valid, unpack_token_account};
use crate::listing::Listing;
use crate::types::{Address, LISTING_LEN};

verus! {

/// The asset of a token sub-account record.
pub open spec fn record_mint(data: Seq<u8>) -> Seq<u8> {
    data.subrange(0, 32)
}

/// The owner of a token sub-account record.
pub open spec fn record_owner(data: Seq<u8>) -> Seq<u8> {
    data.subrange(32, 64)
}

/// The balance of a token sub-account record.
pub open spec fn record_amount(data: Seq<u8>) -> u64 {
    spec_u64_from_le_bytes(data.subrange(64, 72))
}

/// Whether `e` is how a handler reports the expected failure: a record
/// that the token standard cannot read comes back as invalid or as
/// uninitialised data, as the token standard decides.
pub open spec fn reported_as(e: ProcessError, expected: ProcessError) -> bool {
    e == expected || (expected == ProcessError::InvalidAccountData && e == ProcessError::UninitializedAccount)
}

/// The first failed check of a token sub-account expected to be owned by
/// `owner` and to hold `mint`, or `None` when it passes.
pub open spec fn token_account_failure(data: Seq<u8>, owner: Seq<u8>, mint: Seq<u8>) -> Option<ProcessError> {
    if !token_record_valid(data) {
        Some(ProcessError::InvalidAccountData)
    } else if record_owner(data) != owner {
        Some(ProcessError::Escrow(EscrowError::IncorrectAuthority))
    } else if record_mint(data) != mint {
        Some(ProcessError::Escrow(EscrowError::MintMismatch))
    } else {
        None
    }
}

/// The first failed check of the account that stores a listing, or
/// `None` when it passes.
pub open spec fn listing_account_failure(program_id: Seq<u8>, account: AccountRef) -> Option<ProcessError> {
    if account.owner@ != program_id {
        Some(ProcessError::IncorrectProgramId)
    } else if account.data@.len() < LISTING_LEN {
        Some(ProcessError::Escrow(EscrowError::AccountLengthMismatch))
    } else if decoded_listing(account.data@) is None {
        Some(ProcessError::Escrow(EscrowError::InvalidInstructionData))
    } else {
        None
    }
}

/// Reads a token sub-account and checks its owner and asset.
pub fn load_token_account(account: &AccountRef, owner: &Address, mint: &Address) -> (r: Result<TokenAccountState, ProcessError>)
    ensures
        r is Err <==> token_account_failure(account.data@, owner@, mint@) is Some,
        r matches Err(e) ==> reported_as(e, token_account_failure(account.data@, owner@, mint@)->0),
        r matches Ok(t) ==> t.amount == record_amount(account.data@) && t.owner@ == owner@ && t.mint@ == mint@,
{
    let state = unpack_token_account(account.data.as_slice())?;
    assert_token_account_owner(&state, owner)?;
    assert_token_account_mint(&state, mint)?;
    Ok(state)
}

/// Checks the account that stores a listing (owned by this program and
/// long enough) and decodes the listing it holds.
pub fn deserialize_listing(program_id: &Address, account: &AccountRef) -> (r: Result<Listing, ProcessError>)
    ensures
        r is Err <==> listing_account_failure(program_id@, *account) is Some,
        r matches Err(e) ==> e == listing_account_failure(program_id@, *account)->0,
        r matches Ok(l) ==> decoded_listing(account.data@) == Some(l),
{
    if !account.owner.same_as(program_id) {
        return Err(ProcessError::IncorrectProgramId);
    }
    if account.data.len() < LISTING_LEN {
        return Err(ProcessError::Escrow(EscrowError::AccountLengthMismatch));
    }
    match deserialize_listing_bytes(account.data.as_slice()) {
        Some(l) => Ok(l),
        None => Err(ProcessError::Escrow(EscrowError::InvalidInstructionData)),
    }
}

/// Whether every byte is zero.
pub open spec fn all_zero(data: Seq<u8>) -> bool {
    forall|i: int| 0 <= i < data.len() ==> data[i] == 0
}

/// Whether a record has never been written: every byte is zero.
pub fn is_zeroed(data: &Vec<u8>) -> (r: bool)
    ensures
        r == all_zero(data@),
{
    let mut i: usize = 0;
    while i < data.len()
        invariant
            i <= data@.len(),
            forall|j: int| 0 <= j < i ==> data@[j] == 0,
        decreases data@.len() - i,
    {
        if data[i] != 0 {
            return false;
        }
        i = i + 1;
    }
    true
}

} // verus!
