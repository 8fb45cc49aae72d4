//! Properties that hold across the handlers, proved from their contracts.
use vstd::prelude::*;

use crate::accounts::AccountRef;
use crate::authority::rederived_vault;
use crate::checks::listing_account_failure;
use crate::codec::decoded_listing;
use crate::error::{EscrowError, ProcessError};
use crate::listing::{flags_allow_partial, Listing};
use crate::machine::{cancel_failure, initialize_failure, payload_present, purchase_failure, purchased};
use crate::types::ListingStatus;

verus! {

/// Whether a purchase of `quantity` fits what the listing still offers.
pub open spec fn purchase_fits(l: Listing, quantity: u64) -> bool {
    0 < quantity <= l.remaining_spec()
}

/// The listing after a sequence of purchase attempts: an attempt that fits
/// takes effect, one that does not is refused and changes nothing.
pub open spec fn after_purchases(l: Listing, quantities: Seq<u64>) -> Listing
    decreases quantities.len(),
{
    if quantities.len() == 0 {
        l
    } else {
        let next = if purchase_fits(l, quantities[0]) {
            purchased(l, quantities[0])
        } else {
            l
        };
        after_purchases(next, quantities.drop_first())
    }
}

/// A purchase that fits never lowers `filled` and never takes it past `quantity`.
pub proof fn lemma_purchase_fill_bounds(l: Listing, quantity: u64)
    requires
        l.wf(),
        purchase_fits(l, quantity),
    ensures
        l.filled <= purchased(l, quantity).filled,
        purchased(l, quantity).wf(),
        purchased(l, quantity).quantity == l.quantity,
{
}

/// Across any sequence of purchases, `filled` never decreases and never
/// exceeds `quantity`.
pub proof fn lemma_fill_monotone(l: Listing, quantities: Seq<u64>)
    requires
        l.wf(),
    ensures
        l.filled <= after_purchases(l, quantities).filled,
        after_purchases(l, quantities).wf(),
        after_purchases(l, quantities).quantity == l.quantity,
    decreases quantities.len(),
{
    if quantities.len() > 0 {
        let next = if purchase_fits(l, quantities[0]) {
            purchased(l, quantities[0])
        } else {
            l
        };
        lemma_fill_monotone(next, quantities.drop_first());
    }
}

/// Whether every check of a purchase that comes before the quantity checks
/// passes: enough accounts, the buyer signed, the listing record is sound,
/// the listing is Active, and the custody address is the stored one and
/// is reproduced by the stored seeds.
pub open spec fn purchase_reaches_quantity_checks(program_id: Seq<u8>, a: Seq<AccountRef>, l: Listing) -> bool {
    &&& a.len() >= 8
    &&& a[0].is_signer
    &&& listing_account_failure(program_id, a[1]) is None
    &&& decoded_listing(a[1].data@) == Some(l)
    &&& l.status == ListingStatus::Active
    &&& a[5].key@ == l.vault_authority@
    &&& rederived_vault(program_id, l.seller@, l.listing_id, l.vault_bump) == Some(l.vault_authority@)
}

/// A listing without partial fills is never bought in part: a purchase of
/// fewer units than remain is refused, with PartialFillDisabled once the
/// checks before it pass, so it never completes the listing.
pub proof fn lemma_no_partial_fill(program_id: Seq<u8>, a: Seq<AccountRef>, l: Listing, quantity: u64)
    requires
        decoded_listing(a[1].data@) == Some(l),
        !flags_allow_partial(l.flags),
        quantity < l.remaining_spec(),
    ensures
        purchase_failure(program_id, a, quantity) is Some,
        quantity > 0 && purchase_reaches_quantity_checks(program_id, a, l) ==> purchase_failure(program_id, a, quantity) == Some(ProcessError::Escrow(EscrowError::PartialFillDisabled)),
{
}

/// A purchase accepted on a listing without partial fills buys all that remains.
pub proof fn lemma_whole_purchase_completes(program_id: Seq<u8>, a: Seq<AccountRef>, l: Listing, quantity: u64)
    requires
        decoded_listing(a[1].data@) == Some(l),
        l.wf(),
        !flags_allow_partial(l.flags),
        purchase_failure(program_id, a, quantity) is None,
    ensures
        quantity == l.remaining_spec(),
        purchased(l, quantity).status == ListingStatus::Completed,
{
}

/// Whether every check of a cancellation before the status check passes.
pub open spec fn cancel_reaches_status_check(program_id: Seq<u8>, a: Seq<AccountRef>, l: Listing) -> bool {
    &&& a.len() >= 6
    &&& a[0].is_signer
    &&& listing_account_failure(program_id, a[1]) is None
    &&& decoded_listing(a[1].data@) == Some(l)
    &&& l.seller@ == a[0].key@
}

/// A Completed or Cancelled listing cannot be cancelled: the attempt is
/// refused, with InvalidListingStatus once the checks before it pass.
pub proof fn lemma_cancel_terminal(program_id: Seq<u8>, a: Seq<AccountRef>, l: Listing)
    requires
        decoded_listing(a[1].data@) == Some(l),
        l.status == ListingStatus::Completed || l.status == ListingStatus::Cancelled,
    ensures
        cancel_failure(program_id, a) is Some,
        cancel_reaches_status_check(program_id, a, l) ==> cancel_failure(program_id, a) == Some(
            ProcessError::Escrow(EscrowError::InvalidListingStatus),
        ),
{
}

/// A listing awaiting its deposit is always cancelled once the checks
/// before the status check pass.
pub proof fn lemma_cancel_awaiting_accepted(program_id: Seq<u8>, a: Seq<AccountRef>, l: Listing)
    requires
        l.status == ListingStatus::AwaitingDeposit,
        cancel_reaches_status_check(program_id, a, l),
    ensures
        cancel_failure(program_id, a) is None,
{
}

/// Vault transfers are authorised only by the stored seeds: where the
/// stored seller, listing id and bump do not reproduce the stored custody
/// address, neither a purchase nor a cancellation that would move vault
/// tokens is accepted.
pub proof fn lemma_rederivation_guards_vault(program_id: Seq<u8>, a: Seq<AccountRef>, l: Listing, quantity: u64)
    requires
        decoded_listing(a[1].data@) == Some(l),
        rederived_vault(program_id, l.seller@, l.listing_id, l.vault_bump) != Some(l.vault_authority@),
    ensures
        purchase_failure(program_id, a, quantity) is Some,
        l.status == ListingStatus::Active && l.remaining_spec() > 0 ==> cancel_failure(program_id, a) is Some,
{
}

/// The custody seeds and address never change after creation: a purchase
/// keeps the seller, listing id, bump and custody address, so the stored
/// seeds go on reproducing the stored address.
pub proof fn lemma_purchase_keeps_custody(program_id: Seq<u8>, l: Listing, quantity: u64)
    requires
        rederived_vault(program_id, l.seller@, l.listing_id, l.vault_bump) == Some(l.vault_authority@),
    ensures
        ({
            let n = purchased(l, quantity);
            rederived_vault(program_id, n.seller@, n.listing_id, n.vault_bump) == Some(n.vault_authority@)
        }),
{
}

/// On the X402 path, with every other check passing, initialization is
/// refused with InvalidX402Proof exactly when the proof is absent or empty.
pub proof fn lemma_payment_proof_required(
    program_id: Seq<u8>,
    a: Seq<AccountRef>,
    listing_id: u64,
    price_per_token: u64,
    quantity: u64,
    x402_payload: Option<String>,
)
    requires
        initialize_failure(program_id, a, listing_id, price_per_token, quantity, 0, None) is None,
    ensures
        initialize_failure(program_id, a, listing_id, price_per_token, quantity, 1, x402_payload) == if payload_present(
            x402_payload,
        ) {
            None
        } else {
            Some(ProcessError::Escrow(EscrowError::InvalidX402Proof))
        },
{
}

} // verus!
