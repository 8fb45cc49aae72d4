//! The four operations and the switch from an operation to its handler.
use vstd::prelude::*;

use crate::accounts::AccountRef;
use crate::checks::reported_as;
use crate::codec::decoded_listing;
use crate::error::ProcessError;
use crate::listing::Listing;
use crate::machine::{
    cancel_failure, cancel_listing, deposit_failure, deposit_tokens, initialize_failure, initialize_listing,
    initialized_as, purchase_failure, purchase_tokens, purchased,
};
use crate::transfer::Transition;
use crate::types::{Address, ListingStatus};

verus! {

/// The operations a caller may submit.
#[derive(Clone, Debug)]
pub enum EscrowInstruction {
    /// Create a listing in a zeroed, program-owned record.
    InitializeListing {
        /// Identifier chosen by the seller.
        listing_id: u64,
        /// Quote units per base unit.
        price_per_token: u64,
        /// Base units offered.
        quantity: u64,
        /// Whether buyers may take part of the listing.
        allow_partial: bool,
        /// Fee payment method code (0 native, 1 X402).
        fee_payment_method: u8,
        /// Payment proof, required on the X402 path.
        x402_payload: Option<String>,
    },
    /// Move the seller's tokens into the vault, activating the listing.
    DepositTokens,
    /// Buy `quantity` base units.
    Purchase {
        /// Base units to buy.
        quantity: u64,
    },
    /// Withdraw the listing and reclaim unsold tokens.
    CancelListing,
}

/// The first failure of an instruction, or `None` when it is accepted.
pub open spec fn instruction_failure(
    program_id: Seq<u8>,
    a: Seq<AccountRef>,
    instruction: EscrowInstruction,
) -> Option<ProcessError> {
    match instruction {
        EscrowInstruction::InitializeListing {
            listing_id,
            price_per_token,
            quantity,
            allow_partial,
            fee_payment_method,
            x402_payload,
        } => initialize_failure(program_id, a, listing_id, price_per_token, quantity, fee_payment_method, x402_payload),
        EscrowInstruction::DepositTokens => deposit_failure(program_id, a),
        EscrowInstruction::Purchase { quantity } => purchase_failure(program_id, a, quantity),
        EscrowInstruction::CancelListing => cancel_failure(program_id, a),
    }
}

/// Runs the handler of `instruction`. An initialization's transition
/// carries no transfer.
pub fn dispatch(
    program_id: &Address,
    accounts: &[AccountRef],
    instruction: EscrowInstruction,
) -> (r: Result<Transition, ProcessError>)
    ensures
        r is Err <==> instruction_failure(program_id@, accounts@, instruction) is Some,
        r matches Err(e) ==> reported_as(e, instruction_failure(program_id@, accounts@, instruction)->0),
        r matches Ok(t) ==> match instruction {
            EscrowInstruction::InitializeListing {
                listing_id,
                price_per_token,
                quantity,
                allow_partial,
                fee_payment_method,
                x402_payload,
            } => t.transfers@.len() == 0 && initialized_as(
                t.listing,
                program_id@,
                accounts@,
                listing_id,
                price_per_token,
                quantity,
                allow_partial,
                fee_payment_method,
                x402_payload,
            ),
            EscrowInstruction::DepositTokens => t.listing == (Listing { status: ListingStatus::Active, ..decoded_listing(accounts@[1].data@)->0 }),
            EscrowInstruction::Purchase { quantity } => t.listing == purchased(decoded_listing(accounts@[1].data@)->0, quantity),
            EscrowInstruction::CancelListing => t.listing == (Listing { status: ListingStatus::Cancelled, ..decoded_listing(accounts@[1].data@)->0 }),
        },
{
    match instruction {
        EscrowInstruction::InitializeListing {
            listing_id,
            price_per_token,
            quantity,
            allow_partial,
            fee_payment_method,
            x402_payload,
        } => {
            let listing = initialize_listing(
                program_id,
                accounts,
                listing_id,
                price_per_token,
                quantity,
                allow_partial,
                fee_payment_method,
                x402_payload,
            )?;
            Ok(Transition { listing, transfers: Vec::new() })
        },
        EscrowInstruction::DepositTokens => deposit_tokens(program_id, accounts),
        EscrowInstruction::Purchase { quantity } => purchase_tokens(program_id, accounts, quantity),
        EscrowInstruction::CancelListing => cancel_listing(program_id, accounts),
    }
}

} // verus!
