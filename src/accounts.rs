use vstd::prelude::*;

use crate::error::{EscrowError, ProcessError};
use crate::types::Address;

verus! {

/// What a handler sees of one account it was handed.
#[derive(Clone, Debug)]
pub struct AccountRef {
    /// The account's address.
    pub key: Address,
    /// The program that owns the account.
    pub owner: Address,
    /// Whether the account signed the transaction.
    pub is_signer: bool,
    /// The account's data.
    pub data: Vec<u8>,
}

/// The fields of a token sub-account that the escrow reads.
#[derive(Clone, Copy, Debug)]
pub struct TokenAccountState {
    /// The asset the sub-account holds.
    pub mint: Address,
    /// The identity allowed to move its tokens.
    pub owner: Address,
    /// Its balance.
    pub amount: u64,
}

/// Checks that a token sub-account is owned by `owner`.
pub fn assert_token_account_owner(account: &TokenAccountState, owner: &Address) -> (r: Result<(), ProcessError>)
    ensures
        r is Ok <==> account.owner@ == owner@,
        r is Err ==> r == Err::<(), ProcessError>(ProcessError::Escrow(EscrowError::IncorrectAuthority)),
{
    if !account.owner.same_as(owner) {
        return Err(ProcessError::Escrow(EscrowError::IncorrectAuthority));
    }
    Ok(())
}

/// Checks that a token sub-account holds the asset `mint`.
pub fn assert_token_account_mint(account: &TokenAccountState, mint: &Address) -> (r: Result<(), ProcessError>)
    ensures
        r is Ok <==> account.mint@ == mint@,
        r is Err ==> r == Err::<(), ProcessError>(ProcessError::Escrow(EscrowError::MintMismatch)),
{
    if !account.mint.same_as(mint) {
        return Err(ProcessError::Escrow(EscrowError::MintMismatch));
    }
    Ok(())
}

} // verus!
