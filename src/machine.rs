//! The listing state machine: initialize, deposit, purchase and cancel.
//!
//! Each handler validates eagerly and reports the first violated
//! condition; on success it hands back the listing to store and the
//! transfers to perform, which the host commits together or not at all.
use vstd::prelude::*;

use vstd::utf8::encode_utf8;

use crate::accounts::AccountRef;
use crate::authority::{derive_vault_authority, rederived_vault, vault_matches, vault_seeds};
use crate::codec::decoded_listing;
use crate::checks::{
    all_zero, deserialize_listing, is_zeroed, listing_account_failure, load_token_account, record_amount,
    reported_as, token_account_failure,
};
use crate::error::{EscrowError, ProcessError};
use crate::fees::{
    listing_fee, listing_fee_spec, quote_amount, quote_amount_spec, quote_payable, verify_x402_payment,
};
use crate::host::{
    associated_token_address, associated_token_address_of, found_program_address, keccak_digest_of,
    mint_record_valid, system_program_id, unpack_mint_decimals, zero_address,
};
use crate::listing::{flags_allow_partial, Listing};
use crate::transfer::{signed_transfer, signer_transfer, vault_signed_transfer, vault_transfer, Transition};
use crate::types::{fee_method_code, status_may_advance, Address, FeePaymentMethod, ListingStatus, LISTING_LEN};

verus! {

/// Number of accounts a deposit reads: seller, listing, seller token
/// account, custody address, vault token account, token program.
pub const DEPOSIT_ACCOUNTS: usize = 6;

/// Number of accounts a purchase reads: buyer, listing, seller quote
/// account, buyer quote account, buyer base account, custody address,
/// vault token account, token program.
pub const PURCHASE_ACCOUNTS: usize = 8;

/// Number of accounts a cancellation reads: seller, listing, custody
/// address, vault token account, seller base account, token program.
pub const CANCEL_ACCOUNTS: usize = 6;

// ---------------------------------------------------------------- deposit

/// The first failed check of a deposit, or `None` when it may proceed.
pub open spec fn deposit_failure(program_id: Seq<u8>, a: Seq<AccountRef>) -> Option<ProcessError> {
    let l = decoded_listing(a[1].data@)->0;
    if a.len() < DEPOSIT_ACCOUNTS {
        Some(ProcessError::NotEnoughAccountKeys)
    } else if !a[0].is_signer {
        Some(ProcessError::MissingRequiredSignature)
    } else if listing_account_failure(program_id, a[1]) is Some {
        listing_account_failure(program_id, a[1])
    } else if l.status != ListingStatus::AwaitingDeposit {
        Some(ProcessError::Escrow(EscrowError::InvalidListingStatus))
    } else if a[0].key@ != l.seller@ {
        Some(ProcessError::Escrow(EscrowError::IncorrectAuthority))
    } else if token_account_failure(a[2].data@, a[0].key@, l.base_mint@) is Some {
        token_account_failure(a[2].data@, a[0].key@, l.base_mint@)
    } else if token_account_failure(a[4].data@, a[3].key@, l.base_mint@) is Some {
        token_account_failure(a[4].data@, a[3].key@, l.base_mint@)
    } else if a[3].key@ != l.vault_authority@ {
        Some(ProcessError::Escrow(EscrowError::IncorrectAuthority))
    } else if record_amount(a[2].data@) < l.quantity {
        Some(ProcessError::InsufficientFunds)
    } else {
        None
    }
}

/// Moves the seller's `quantity` base units into the vault and activates
/// the listing.
pub fn deposit_tokens(program_id: &Address, accounts: &[AccountRef]) -> (r: Result<Transition, ProcessError>)
    ensures
        r is Err <==> deposit_failure(program_id@, accounts@) is Some,
        r matches Err(e) ==> reported_as(e, deposit_failure(program_id@, accounts@)->0),
        r matches Ok(t) ==> ({
            let l = decoded_listing(accounts@[1].data@)->0;
            let a = accounts@;
            &&& t.listing == (Listing { status: ListingStatus::Active, ..l })
            &&& status_may_advance(l.status, t.listing.status)
            &&& t.transfers@.len() == 1
            &&& signed_transfer(t.transfers@[0], a[2].key@, a[4].key@, a[0].key@, l.quantity)
        }),
{
    if accounts.len() < DEPOSIT_ACCOUNTS {
        return Err(ProcessError::NotEnoughAccountKeys);
    }
    let seller = &accounts[0];
    let listing_account = &accounts[1];
    let seller_token = &accounts[2];
    let vault_authority = &accounts[3];
    let vault_token = &accounts[4];
    if !seller.is_signer {
        return Err(ProcessError::MissingRequiredSignature);
    }
    let mut listing = deserialize_listing(program_id, listing_account)?;
    if listing.status() != ListingStatus::AwaitingDeposit {
        return Err(ProcessError::Escrow(EscrowError::InvalidListingStatus));
    }
    if !seller.key.same_as(&listing.seller) {
        return Err(ProcessError::Escrow(EscrowError::IncorrectAuthority));
    }
    let seller_state = load_token_account(seller_token, &seller.key, &listing.base_mint)?;
    let _vault_state = load_token_account(vault_token, &vault_authority.key, &listing.base_mint)?;
    if !vault_authority.key.same_as(&listing.vault_authority) {
        return Err(ProcessError::Escrow(EscrowError::IncorrectAuthority));
    }
    let amount = listing.quantity;
    if seller_state.amount < amount {
        return Err(ProcessError::InsufficientFunds);
    }
    let transfer = signer_transfer(seller_token.key, vault_token.key, seller.key, amount);
    listing.set_status(ListingStatus::Active);
    let mut transfers = Vec::new();
    transfers.push(transfer);
    Ok(Transition { listing, transfers })
}

// --------------------------------------------------------------- purchase

/// The listing after `quantity` more units were sold: `filled` grows by
/// `quantity`, and the listing is Completed once nothing remains.
pub open spec fn purchased(l: Listing, quantity: u64) -> Listing {
    let filled = (l.filled + quantity) as u64;
    Listing {
        filled,
        status: if filled >= l.quantity { ListingStatus::Completed } else { l.status },
        ..l
    }
}

/// The first failed check of a purchase of `quantity`, or `None` when it may proceed.
pub open spec fn purchase_failure(program_id: Seq<u8>, a: Seq<AccountRef>, quantity: u64) -> Option<ProcessError> {
    let l = decoded_listing(a[1].data@)->0;
    let remaining = l.remaining_spec();
    let quote = quote_amount_spec(quantity, l.price_per_token, l.base_decimals);
    if quantity == 0 {
        Some(ProcessError::Escrow(EscrowError::AmountOverflow))
    } else if a.len() < PURCHASE_ACCOUNTS {
        Some(ProcessError::NotEnoughAccountKeys)
    } else if !a[0].is_signer {
        Some(ProcessError::MissingRequiredSignature)
    } else if listing_account_failure(program_id, a[1]) is Some {
        listing_account_failure(program_id, a[1])
    } else if l.status != ListingStatus::Active {
        Some(ProcessError::Escrow(EscrowError::InvalidListingStatus))
    } else if a[5].key@ != l.vault_authority@ {
        Some(ProcessError::Escrow(EscrowError::IncorrectAuthority))
    } else if rederived_vault(program_id, l.seller@, l.listing_id, l.vault_bump) != Some(l.vault_authority@) {
        Some(ProcessError::Escrow(EscrowError::IncorrectAuthority))
    } else if quantity > remaining {
        Some(ProcessError::Escrow(EscrowError::InsufficientQuantity))
    } else if quantity < remaining && !flags_allow_partial(l.flags) {
        Some(ProcessError::Escrow(EscrowError::PartialFillDisabled))
    } else if !quote_payable(quantity, l.price_per_token, l.base_decimals) {
        Some(ProcessError::Escrow(EscrowError::AmountOverflow))
    } else if token_account_failure(a[2].data@, l.seller@, l.quote_mint@) is Some {
        token_account_failure(a[2].data@, l.seller@, l.quote_mint@)
    } else if token_account_failure(a[3].data@, a[0].key@, l.quote_mint@) is Some {
        token_account_failure(a[3].data@, a[0].key@, l.quote_mint@)
    } else if record_amount(a[3].data@) < quote {
        Some(ProcessError::InsufficientFunds)
    } else if token_account_failure(a[4].data@, a[0].key@, l.base_mint@) is Some {
        token_account_failure(a[4].data@, a[0].key@, l.base_mint@)
    } else if token_account_failure(a[6].data@, a[5].key@, l.base_mint@) is Some {
        token_account_failure(a[6].data@, a[5].key@, l.base_mint@)
    } else if record_amount(a[6].data@) < quantity {
        Some(ProcessError::InsufficientFunds)
    } else if l.filled + quantity > u64::MAX {
        Some(ProcessError::Escrow(EscrowError::AmountOverflow))
    } else {
        None
    }
}

/// Sells `quantity` base units to the buyer: the buyer pays the quote to
/// the seller, and the vault, signed for by its stored seeds, releases the
/// units to the buyer.
pub fn purchase_tokens(program_id: &Address, accounts: &[AccountRef], quantity: u64) -> (r: Result<Transition, ProcessError>)
    ensures
        r is Err <==> purchase_failure(program_id@, accounts@, quantity) is Some,
        r matches Err(e) ==> reported_as(e, purchase_failure(program_id@, accounts@, quantity)->0),
        r matches Ok(t) ==> ({
            let l = decoded_listing(accounts@[1].data@)->0;
            let a = accounts@;
            let quote = quote_amount_spec(quantity, l.price_per_token, l.base_decimals);
            &&& t.listing == purchased(l, quantity)
            &&& l.filled <= t.listing.filled <= t.listing.quantity
            &&& status_may_advance(l.status, t.listing.status)
            &&& rederived_vault(program_id@, l.seller@, l.listing_id, l.vault_bump) == Some(l.vault_authority@)
            &&& 0 < quantity <= l.remaining_spec()
            &&& t.transfers@.len() == 2
            &&& signed_transfer(t.transfers@[0], a[3].key@, a[2].key@, a[0].key@, quote as u64)
            &&& vault_transfer(t.transfers@[1], l, a[6].key@, a[4].key@, quantity)
        }),
{
    if quantity == 0 {
        return Err(ProcessError::Escrow(EscrowError::AmountOverflow));
    }
    if accounts.len() < PURCHASE_ACCOUNTS {
        return Err(ProcessError::NotEnoughAccountKeys);
    }
    let buyer = &accounts[0];
    let listing_account = &accounts[1];
    let seller_quote = &accounts[2];
    let buyer_quote = &accounts[3];
    let buyer_base = &accounts[4];
    let vault_authority = &accounts[5];
    let vault_token = &accounts[6];
    if !buyer.is_signer {
        return Err(ProcessError::MissingRequiredSignature);
    }
    let mut listing = deserialize_listing(program_id, listing_account)?;
    if listing.status() != ListingStatus::Active {
        return Err(ProcessError::Escrow(EscrowError::InvalidListingStatus));
    }
    if !vault_authority.key.same_as(&listing.vault_authority) {
        return Err(ProcessError::Escrow(EscrowError::IncorrectAuthority));
    }
    if !vault_matches(program_id, &listing.seller, listing.listing_id, listing.vault_bump, &listing.vault_authority) {
        return Err(ProcessError::Escrow(EscrowError::IncorrectAuthority));
    }
    let remaining = listing.remaining();
    if quantity > remaining {
        return Err(ProcessError::Escrow(EscrowError::InsufficientQuantity));
    }
    if quantity < remaining && !listing.allow_partial() {
        return Err(ProcessError::Escrow(EscrowError::PartialFillDisabled));
    }
    let quote = match quote_amount(quantity, listing.price_per_token, listing.base_decimals) {
        Ok(q) => q,
        Err(e) => return Err(ProcessError::Escrow(e)),
    };
    let _seller_quote_state = load_token_account(seller_quote, &listing.seller, &listing.quote_mint)?;
    let buyer_quote_state = load_token_account(buyer_quote, &buyer.key, &listing.quote_mint)?;
    if buyer_quote_state.amount < quote {
        return Err(ProcessError::InsufficientFunds);
    }
    let _buyer_base_state = load_token_account(buyer_base, &buyer.key, &listing.base_mint)?;
    let vault_state = load_token_account(vault_token, &vault_authority.key, &listing.base_mint)?;
    if vault_state.amount < quantity {
        return Err(ProcessError::InsufficientFunds);
    }
    let pay = signer_transfer(buyer_quote.key, seller_quote.key, buyer.key, quote);
    let release = vault_signed_transfer(&listing, vault_token.key, buyer_base.key, quantity);
    listing.filled = match listing.filled.checked_add(quantity) {
        Some(f) => f,
        None => return Err(ProcessError::Escrow(EscrowError::AmountOverflow)),
    };
    if listing.filled >= listing.quantity {
        listing.set_status(ListingStatus::Completed);
    }
    let mut transfers = Vec::new();
    transfers.push(pay);
    transfers.push(release);
    Ok(Transition { listing, transfers })
}

// ----------------------------------------------------------------- cancel

/// The first failed check of a cancellation, or `None` when it may proceed.
pub open spec fn cancel_failure(program_id: Seq<u8>, a: Seq<AccountRef>) -> Option<ProcessError> {
    let l = decoded_listing(a[1].data@)->0;
    if a.len() < CANCEL_ACCOUNTS {
        Some(ProcessError::NotEnoughAccountKeys)
    } else if !a[0].is_signer {
        Some(ProcessError::MissingRequiredSignature)
    } else if listing_account_failure(program_id, a[1]) is Some {
        listing_account_failure(program_id, a[1])
    } else if l.seller@ != a[0].key@ {
        Some(ProcessError::Escrow(EscrowError::IncorrectAuthority))
    } else if l.status == ListingStatus::AwaitingDeposit {
        None
    } else if l.status != ListingStatus::Active {
        Some(ProcessError::Escrow(EscrowError::InvalidListingStatus))
    } else if l.remaining_spec() == 0 {
        None
    } else if a[2].key@ != l.vault_authority@ {
        Some(ProcessError::Escrow(EscrowError::IncorrectAuthority))
    } else if rederived_vault(program_id, l.seller@, l.listing_id, l.vault_bump) != Some(l.vault_authority@) {
        Some(ProcessError::Escrow(EscrowError::IncorrectAuthority))
    } else if token_account_failure(a[3].data@, a[2].key@, l.base_mint@) is Some {
        token_account_failure(a[3].data@, a[2].key@, l.base_mint@)
    } else if token_account_failure(a[4].data@, a[0].key@, l.base_mint@) is Some {
        token_account_failure(a[4].data@, a[0].key@, l.base_mint@)
    } else {
        None
    }
}

/// Withdraws the listing: from AwaitingDeposit at once, from Active after
/// the vault, signed for by its stored seeds, returns the unsold units to
/// the seller.
pub fn cancel_listing(program_id: &Address, accounts: &[AccountRef]) -> (r: Result<Transition, ProcessError>)
    ensures
        r is Err <==> cancel_failure(program_id@, accounts@) is Some,
        r matches Err(e) ==> reported_as(e, cancel_failure(program_id@, accounts@)->0),
        r matches Ok(t) ==> ({
            let l = decoded_listing(accounts@[1].data@)->0;
            let a = accounts@;
            &&& t.listing == (Listing { status: ListingStatus::Cancelled, ..l })
            &&& status_may_advance(l.status, t.listing.status)
            &&& l.status == ListingStatus::AwaitingDeposit ==> t.transfers@.len() == 0
            &&& l.status == ListingStatus::Active && l.remaining_spec() == 0 ==> t.transfers@.len() == 0
            &&& l.status == ListingStatus::Active && l.remaining_spec() > 0 ==> {
                &&& t.transfers@.len() == 1
                &&& vault_transfer(t.transfers@[0], l, a[3].key@, a[4].key@, l.remaining_spec() as u64)
                &&& rederived_vault(program_id@, l.seller@, l.listing_id, l.vault_bump) == Some(l.vault_authority@)
            }
        }),
{
    if accounts.len() < CANCEL_ACCOUNTS {
        return Err(ProcessError::NotEnoughAccountKeys);
    }
    let seller = &accounts[0];
    let listing_account = &accounts[1];
    let vault_authority = &accounts[2];
    let vault_token = &accounts[3];
    let seller_token = &accounts[4];
    if !seller.is_signer {
        return Err(ProcessError::MissingRequiredSignature);
    }
    let mut listing = deserialize_listing(program_id, listing_account)?;
    if !listing.seller.same_as(&seller.key) {
        return Err(ProcessError::Escrow(EscrowError::IncorrectAuthority));
    }
    let mut transfers = Vec::new();
    match listing.status() {
        ListingStatus::AwaitingDeposit => {
            listing.set_status(ListingStatus::Cancelled);
            return Ok(Transition { listing, transfers });
        },
        ListingStatus::Active => {},
        _ => return Err(ProcessError::Escrow(EscrowError::InvalidListingStatus)),
    }
    let remaining = listing.remaining();
    if remaining > 0 {
        if !vault_authority.key.same_as(&listing.vault_authority) {
            return Err(ProcessError::Escrow(EscrowError::IncorrectAuthority));
        }
        if !vault_matches(program_id, &listing.seller, listing.listing_id, listing.vault_bump, &listing.vault_authority) {
            return Err(ProcessError::Escrow(EscrowError::IncorrectAuthority));
        }
        let _vault_state = load_token_account(vault_token, &vault_authority.key, &listing.base_mint)?;
        let _seller_state = load_token_account(seller_token, &seller.key, &listing.base_mint)?;
        transfers.push(vault_signed_transfer(&listing, vault_token.key, seller_token.key, remaining));
    }
    listing.set_status(ListingStatus::Cancelled);
    Ok(Transition { listing, transfers })
}

// ------------------------------------------------------------- initialize

/// Number of accounts an initialization reads: seller, listing, custody
/// address, vault token account, base mint, quote mint, system program.
pub const INITIALIZE_ACCOUNTS: usize = 7;

/// Whether a payment proof was supplied and is non-empty.
pub open spec fn payload_present(payload: Option<String>) -> bool {
    payload matches Some(p) && encode_utf8(p@).len() > 0
}

/// The first failed check of an initialization, or `None` when it may proceed.
pub open spec fn initialize_failure(
    program_id: Seq<u8>,
    a: Seq<AccountRef>,
    listing_id: u64,
    price_per_token: u64,
    quantity: u64,
    fee_payment_method: u8,
    x402_payload: Option<String>,
) -> Option<ProcessError> {
    let found = found_program_address(vault_seeds(a[0].key@, listing_id), program_id);
    if quantity == 0 || price_per_token == 0 {
        Some(ProcessError::Escrow(EscrowError::AmountOverflow))
    } else if a.len() < INITIALIZE_ACCOUNTS {
        Some(ProcessError::NotEnoughAccountKeys)
    } else if !a[0].is_signer {
        Some(ProcessError::MissingRequiredSignature)
    } else if a[1].owner@ != program_id {
        Some(ProcessError::IncorrectProgramId)
    } else if !all_zero(a[1].data@) {
        Some(ProcessError::Escrow(EscrowError::AlreadyInitialized))
    } else if a[6].key@ != zero_address() {
        Some(ProcessError::IncorrectProgramId)
    } else if found is None {
        Some(ProcessError::InvalidSeeds)
    } else if found matches Some((vault, _)) && a[2].key@ != vault {
        Some(ProcessError::Escrow(EscrowError::IncorrectAuthority))
    } else if a[3].key@ != associated_token_address_of(a[2].key@, a[4].key@) {
        Some(ProcessError::Escrow(EscrowError::MintMismatch))
    } else if !mint_record_valid(a[4].data@) {
        Some(ProcessError::InvalidAccountData)
    } else if listing_fee_spec(price_per_token, quantity) > u64::MAX {
        Some(ProcessError::Escrow(EscrowError::AmountOverflow))
    } else if fee_payment_method == 1 && !payload_present(x402_payload) {
        Some(ProcessError::Escrow(EscrowError::InvalidX402Proof))
    } else if fee_payment_method > 1 {
        Some(ProcessError::Escrow(EscrowError::InvalidInstructionData))
    } else if a[1].data@.len() < LISTING_LEN {
        Some(ProcessError::Escrow(EscrowError::AccountLengthMismatch))
    } else {
        None
    }
}

/// Whether `l` is the listing that an accepted initialization writes.
pub open spec fn initialized_as(
    l: Listing,
    program_id: Seq<u8>,
    a: Seq<AccountRef>,
    listing_id: u64,
    price_per_token: u64,
    quantity: u64,
    allow_partial: bool,
    fee_payment_method: u8,
    x402_payload: Option<String>,
) -> bool {
    &&& l.seller@ == a[0].key@
    &&& l.base_mint@ == a[4].key@
    &&& l.quote_mint@ == a[5].key@
    &&& found_program_address(vault_seeds(a[0].key@, listing_id), program_id) == Some((l.vault_authority@, l.vault_bump))
    &&& l.vault_authority@ == a[2].key@
    &&& rederived_vault(program_id, l.seller@, listing_id, l.vault_bump) == Some(l.vault_authority@)
    &&& l.price_per_token == price_per_token
    &&& l.quantity == quantity
    &&& l.filled == 0
    &&& l.listing_id == listing_id
    &&& l.flags == (if allow_partial { 1u8 } else { 0u8 })
    &&& l.status == ListingStatus::AwaitingDeposit
    &&& l.base_decimals == a[4].data@[44]
    &&& fee_method_code(l.fee_payment_method) == fee_payment_method
    &&& l.fee_amount_paid == listing_fee_spec(price_per_token, quantity)
    &&& fee_payment_method == 0 ==> l.x402_payload_hash@ == zero_address()
    &&& fee_payment_method == 1 ==> l.x402_payload_hash@ == keccak_digest_of(encode_utf8(x402_payload->0@))
}

/// Creates a listing in the zeroed record `accounts[1]`: checks the
/// accounts, derives the custody address, records the base asset's scale
/// and the fee, and commits to the payment proof on the X402 path. The
/// native fee is recorded only; collecting it is not part of this step.
pub fn initialize_listing(
    program_id: &Address,
    accounts: &[AccountRef],
    listing_id: u64,
    price_per_token: u64,
    quantity: u64,
    allow_partial: bool,
    fee_payment_method: u8,
    x402_payload: Option<String>,
) -> (r: Result<Listing, ProcessError>)
    ensures
        r is Err <==> initialize_failure(
            program_id@, accounts@, listing_id, price_per_token, quantity, fee_payment_method, x402_payload,
        ) is Some,
        r matches Err(e) ==> reported_as(
            e,
            initialize_failure(
                program_id@, accounts@, listing_id, price_per_token, quantity, fee_payment_method, x402_payload,
            )->0,
        ),
        r matches Ok(l) ==> initialized_as(
            l, program_id@, accounts@, listing_id, price_per_token, quantity, allow_partial, fee_payment_method,
            x402_payload,
        ),
{
    if quantity == 0 || price_per_token == 0 {
        return Err(ProcessError::Escrow(EscrowError::AmountOverflow));
    }
    if accounts.len() < INITIALIZE_ACCOUNTS {
        return Err(ProcessError::NotEnoughAccountKeys);
    }
    let seller = &accounts[0];
    let listing_account = &accounts[1];
    let vault_authority = &accounts[2];
    let vault_token = &accounts[3];
    let base_mint = &accounts[4];
    let quote_mint = &accounts[5];
    let system_program = &accounts[6];
    if !seller.is_signer {
        return Err(ProcessError::MissingRequiredSignature);
    }
    if !listing_account.owner.same_as(program_id) {
        return Err(ProcessError::IncorrectProgramId);
    }
    if !is_zeroed(&listing_account.data) {
        return Err(ProcessError::Escrow(EscrowError::AlreadyInitialized));
    }
    if !system_program.key.same_as(&system_program_id()) {
        return Err(ProcessError::IncorrectProgramId);
    }
    let (expected_vault, bump) = match derive_vault_authority(program_id, &seller.key, listing_id) {
        Some(found) => found,
        None => return Err(ProcessError::InvalidSeeds),
    };
    if !vault_authority.key.same_as(&expected_vault) {
        return Err(ProcessError::Escrow(EscrowError::IncorrectAuthority));
    }
    let expected_vault_token = associated_token_address(&vault_authority.key, &base_mint.key);
    if !vault_token.key.same_as(&expected_vault_token) {
        return Err(ProcessError::Escrow(EscrowError::MintMismatch));
    }
    let base_decimals = unpack_mint_decimals(base_mint.data.as_slice())?;
    let fee_amount = match listing_fee(price_per_token, quantity) {
        Ok(f) => f,
        Err(e) => return Err(ProcessError::Escrow(e)),
    };
    let (method, x402_payload_hash) = if fee_payment_method == 1 {
        let payload = match x402_payload {
            Some(p) => p,
            None => return Err(ProcessError::Escrow(EscrowError::InvalidX402Proof)),
        };
        match verify_x402_payment(payload.as_str(), fee_amount) {
            Ok(h) => (FeePaymentMethod::X402, h),
            Err(e) => return Err(ProcessError::Escrow(e)),
        }
    } else if fee_payment_method == 0 {
        (FeePaymentMethod::NativeSol, [0u8; 32])
    } else {
        return Err(ProcessError::Escrow(EscrowError::InvalidInstructionData));
    };
    if listing_account.data.len() < LISTING_LEN {
        return Err(ProcessError::Escrow(EscrowError::AccountLengthMismatch));
    }
    let flags: u8 = if allow_partial { 1 } else { 0 };
    proof {
        assert(x402_payload_hash@ =~= zero_address() || fee_payment_method == 1);
    }
    Ok(Listing {
        seller: seller.key,
        base_mint: base_mint.key,
        quote_mint: quote_mint.key,
        vault_authority: vault_authority.key,
        price_per_token,
        quantity,
        filled: 0,
        listing_id,
        flags,
        vault_bump: bump,
        status: ListingStatus::AwaitingDeposit,
        base_decimals,
        fee_payment_method: method,
        fee_amount_paid: fee_amount,
        x402_payload_hash,
    })
}

} // verus!
