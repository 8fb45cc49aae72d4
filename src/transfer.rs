//! Token transfers that a handler asks the host to perform, in order,
//! within the same atomic unit.
use vstd::prelude::*;

use crate::listing::Listing;
use crate::types::Address;

verus! {

/// The seeds that sign for a vault: presented to the host's signed
/// invocation, they let the program act for the key-less custody address.
#[derive(Clone, Copy, Debug)]
pub struct VaultSigner {
    /// The listing's seller.
    pub seller: Address,
    /// The listing's identifier.
    pub listing_id: u64,
    /// The stored bump.
    pub bump: u8,
}

/// One transfer of the token standard.
#[derive(Clone, Copy, Debug)]
pub struct TokenTransfer {
    /// The sub-account the tokens leave.
    pub source: Address,
    /// The sub-account the tokens reach.
    pub destination: Address,
    /// The identity that authorises the move.
    pub authority: Address,
    /// How many units move.
    pub amount: u64,
    /// `None`: the authority signed the transaction itself; `Some`: the
    /// authority is the vault, and these seeds sign for it.
    pub vault_signer: Option<VaultSigner>,
}

/// What a successful handler hands back: the listing to store and the
/// transfers to perform with it.
#[derive(Clone, Debug)]
pub struct Transition {
    /// The listing after the operation.
    pub listing: Listing,
    /// The transfers, in the order they are to run.
    pub transfers: Vec<TokenTransfer>,
}

/// Whether `t` moves `amount` units from `source` to `destination` under
/// the signature of `authority`.
pub open spec fn signed_transfer(t: TokenTransfer, source: Seq<u8>, destination: Seq<u8>, authority: Seq<u8>, amount: u64) -> bool {
    t.source@ == source && t.destination@ == destination && t.authority@ == authority && t.amount == amount
        && t.vault_signer is None
}

/// Whether `t` moves `amount` units out of the vault of `l` to
/// `destination`, signed for by the listing's stored seeds.
pub open spec fn vault_transfer(t: TokenTransfer, l: Listing, source: Seq<u8>, destination: Seq<u8>, amount: u64) -> bool {
    &&& t.source@ == source
    &&& t.destination@ == destination
    &&& t.authority@ == l.vault_authority@
    &&& t.amount == amount
    &&& t.vault_signer matches Some(s) && s.seller@ == l.seller@ && s.listing_id == l.listing_id
        && s.bump == l.vault_bump
}

/// A transfer signed by its authority.
pub fn signer_transfer(source: Address, destination: Address, authority: Address, amount: u64) -> (r: TokenTransfer)
    ensures
        signed_transfer(r, source@, destination@, authority@, amount),
{
    TokenTransfer { source, destination, authority, amount, vault_signer: None }
}

/// A transfer out of the vault of `l`, signed for by its stored seeds.
pub fn vault_signed_transfer(l: &Listing, source: Address, destination: Address, amount: u64) -> (r: TokenTransfer)
    ensures
        vault_transfer(r, *l, source@, destination@, amount),
{
    let signer = VaultSigner { seller: l.seller, listing_id: l.listing_id, bump: l.vault_bump };
    TokenTransfer { source, destination, authority: l.vault_authority, amount, vault_signer: Some(signer) }
}

} // verus!
