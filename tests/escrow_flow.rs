use escrow_program::accounts::AccountRef;
use escrow_program::codec::{deserialize_listing_bytes, serialize_listing};
use escrow_program::error::{EscrowError, ProcessError};
use escrow_program::fees::{listing_fee, quote_amount, verify_x402_payment};
use escrow_program::instruction::{dispatch, EscrowInstruction};
use escrow_program::listing::Listing;
use escrow_program::machine::{cancel_listing, deposit_tokens, initialize_listing, purchase_tokens};
use escrow_program::transfer::Transition;
use escrow_program::types::{Address, FeePaymentMethod, ListingStatus, LISTING_LEN};
use escrow_program::wire::decode_instruction;

use solana_program::program_pack::Pack;
use solana_program::pubkey::Pubkey;
use spl_token::state::{Account as TokenAccount, AccountState, Mint};

fn program() -> Address {
    Address::new([7u8; 32])
}

fn key(n: u8) -> Address {
    Address::new([n; 32])
}

fn pubkey(a: &Address) -> Pubkey {
    Pubkey::new_from_array(a.bytes)
}

fn account(key: Address, is_signer: bool) -> AccountRef {
    AccountRef { key, owner: key, is_signer, data: Vec::new() }
}

fn with_data(key: Address, data: Vec<u8>) -> AccountRef {
    AccountRef { key, owner: Address::new([6u8; 32]), is_signer: false, data }
}

fn token_data(mint: &Address, owner: &Address, amount: u64) -> Vec<u8> {
    let state = TokenAccount {
        mint: pubkey(mint),
        owner: pubkey(owner),
        amount,
        state: AccountState::Initialized,
        ..TokenAccount::default()
    };
    let mut data = vec![0u8; TokenAccount::LEN];
    TokenAccount::pack(state, &mut data).unwrap();
    data
}

fn mint_data(decimals: u8) -> Vec<u8> {
    let mint = Mint { decimals, is_initialized: true, ..Mint::default() };
    let mut data = vec![0u8; Mint::LEN];
    Mint::pack(mint, &mut data).unwrap();
    data
}

fn seller() -> Address {
    key(1)
}

fn buyer() -> Address {
    key(2)
}

fn base_mint() -> Address {
    key(3)
}

fn quote_mint() -> Address {
    key(4)
}

fn vault_of(listing_id: u64) -> (Address, u8) {
    let id = listing_id.to_le_bytes();
    let seller = seller();
    let seeds: &[&[u8]] = &[b"vault", &seller.bytes, &id];
    let (pda, bump) = Pubkey::find_program_address(seeds, &pubkey(&program()));
    (Address::new(pda.to_bytes()), bump)
}

fn vault_token(listing_id: u64) -> Address {
    let (vault, _) = vault_of(listing_id);
    let ata = spl_associated_token_account::get_associated_token_address(&pubkey(&vault), &pubkey(&base_mint()));
    Address::new(ata.to_bytes())
}

fn listing_record() -> AccountRef {
    AccountRef { key: key(9), owner: program(), is_signer: false, data: vec![0u8; LISTING_LEN] }
}

fn holding(mut accounts: Vec<AccountRef>, listing: &Listing) -> Vec<AccountRef> {
    accounts[1].data = serialize_listing(listing);
    accounts
}

fn init_accounts(listing_id: u64) -> Vec<AccountRef> {
    let (vault, _) = vault_of(listing_id);
    vec![
        account(seller(), true),
        listing_record(),
        account(vault, false),
        account(vault_token(listing_id), false),
        with_data(base_mint(), mint_data(6)),
        account(quote_mint(), false),
        account(Address::new([0u8; 32]), false),
    ]
}

fn init(listing_id: u64, price: u64, quantity: u64, partial: bool, method: u8, payload: Option<String>) -> Result<Listing, ProcessError> {
    initialize_listing(&program(), &init_accounts(listing_id), listing_id, price, quantity, partial, method, payload)
}

fn deposit_accounts(listing_id: u64, seller_balance: u64) -> Vec<AccountRef> {
    let (vault, _) = vault_of(listing_id);
    vec![
        account(seller(), true),
        listing_record(),
        with_data(key(20), token_data(&base_mint(), &seller(), seller_balance)),
        account(vault, false),
        with_data(vault_token(listing_id), token_data(&base_mint(), &vault, 0)),
        account(key(30), false),
    ]
}

fn purchase_accounts(listing_id: u64, buyer_quote: u64, vault_balance: u64) -> Vec<AccountRef> {
    let (vault, _) = vault_of(listing_id);
    vec![
        account(buyer(), true),
        listing_record(),
        with_data(key(21), token_data(&quote_mint(), &seller(), 0)),
        with_data(key(22), token_data(&quote_mint(), &buyer(), buyer_quote)),
        with_data(key(23), token_data(&base_mint(), &buyer(), 0)),
        account(vault, false),
        with_data(vault_token(listing_id), token_data(&base_mint(), &vault, vault_balance)),
        account(key(30), false),
    ]
}

fn cancel_accounts(listing_id: u64) -> Vec<AccountRef> {
    let (vault, _) = vault_of(listing_id);
    vec![
        account(seller(), true),
        listing_record(),
        account(vault, false),
        with_data(vault_token(listing_id), token_data(&base_mint(), &vault, 1_000_000_000)),
        with_data(key(20), token_data(&base_mint(), &seller(), 0)),
        account(key(30), false),
    ]
}

fn active_listing(listing_id: u64, quantity: u64, partial: bool) -> Listing {
    let listing = init(listing_id, 1_000_000, quantity, partial, 0, None).unwrap();
    let t = deposit_tokens(&program(), &holding(deposit_accounts(listing_id, quantity), &listing)).unwrap();
    t.listing
}

fn escrow(e: EscrowError) -> ProcessError {
    ProcessError::Escrow(e)
}

#[test]
fn test_initialize_listing_native_sol_fee() {
    let listing_id = 12345u64;
    let price_per_token = 1_000_000u64;
    let quantity = 100_000_000u64;
    let listing = init(listing_id, price_per_token, quantity, true, 0, None).unwrap();
    assert_eq!(listing.seller, seller());
    assert_eq!(listing.status(), ListingStatus::AwaitingDeposit);
    assert_eq!(listing.fee_payment_method.as_u8(), 0);
    let expected_fee = (price_per_token as u128 * quantity as u128 / 100) as u64;
    assert_eq!(listing.fee_amount_paid, expected_fee);
    assert_eq!(listing.x402_payload_hash, [0u8; 32]);
}

#[test]
fn test_initialize_listing_x402_fee_valid_payload() {
    let listing_id = 67890u64;
    let price_per_token = 2_000_000u64;
    let quantity = 50_000_000u64;
    let payload = "x402-payment-proof-base64-encoded-data-12345".to_string();
    let listing = init(listing_id, price_per_token, quantity, true, 1, Some(payload.clone())).unwrap();
    assert_eq!(listing.seller, seller());
    assert_eq!(listing.status(), ListingStatus::AwaitingDeposit);
    assert_eq!(listing.fee_payment_method.as_u8(), 1);
    let expected_fee = (price_per_token as u128 * quantity as u128 / 100) as u64;
    assert_eq!(listing.fee_amount_paid, expected_fee);
    assert_ne!(listing.x402_payload_hash, [0u8; 32]);
    assert_eq!(listing.x402_payload_hash.len(), 32);
    assert_eq!(listing.x402_payload_hash, solana_program::keccak::hash(payload.as_bytes()).to_bytes());
}

#[test]
fn test_initialize_listing_x402_fee_missing_payload() {
    let r = init(11111, 1_500_000, 75_000_000, true, 1, None);
    assert_eq!(r.unwrap_err(), escrow(EscrowError::InvalidX402Proof));
}

#[test]
fn test_initialize_listing_x402_fee_empty_payload() {
    let r = init(22222, 3_000_000, 25_000_000, true, 1, Some(String::new()));
    assert_eq!(r.unwrap_err(), escrow(EscrowError::InvalidX402Proof));
}

#[test]
fn test_x402_fee_calculation() {
    let price_per_token = 10_000_000u64;
    let quantity = 1_000_000_000u64;
    let listing = init(99999, price_per_token, quantity, true, 1, Some("valid-x402-proof-for-fee-test".to_string())).unwrap();
    let expected_fee = (price_per_token as u128 * quantity as u128 / 100) as u64;
    assert_eq!(listing.fee_amount_paid, expected_fee);
    assert_eq!(listing.fee_amount_paid, 100_000_000_000_000u64);
}

#[test]
fn native_listing_records_fee_status_and_zero_hash() {
    let listing = init(1, 1_000_000, 100_000_000, true, 0, None).unwrap();
    assert_eq!(listing.fee_amount_paid, 1_000_000_000_000);
    assert_eq!(listing.status, ListingStatus::AwaitingDeposit);
    assert_eq!(listing.x402_payload_hash, [0u8; 32]);
    assert_eq!(listing.fee_payment_method, FeePaymentMethod::NativeSol);
    assert_eq!(listing.filled, 0);
    assert!(listing.allow_partial());
    assert_eq!(listing.base_decimals, 6);
    let (vault, bump) = vault_of(1);
    assert_eq!(listing.vault_authority, vault);
    assert_eq!(listing.vault_bump, bump);
}

#[test]
fn two_purchases_complete_exactly_after_the_second() {
    let listing = init(5, 1_000_000, 100_000_000, true, 0, None).unwrap();
    assert_eq!(listing.status, ListingStatus::AwaitingDeposit);
    let t = deposit_tokens(&program(), &holding(deposit_accounts(5, 100_000_000), &listing)).unwrap();
    assert_eq!(t.listing.status, ListingStatus::Active);
    assert_eq!(t.transfers.len(), 1);
    assert_eq!(t.transfers[0].amount, 100_000_000);
    assert_eq!(t.transfers[0].authority, seller());
    assert!(t.transfers[0].vault_signer.is_none());
    let first = purchase_tokens(&program(), &holding(purchase_accounts(5, 1_000_000_000, 100_000_000), &t.listing), 30_000_000).unwrap();
    assert_eq!(first.listing.filled, 30_000_000);
    assert_eq!(first.listing.status, ListingStatus::Active);
    assert_eq!(first.transfers.len(), 2);
    // 30_000_000 * 1_000_000 / 10^6
    assert_eq!(first.transfers[0].amount, 30_000_000);
    assert_eq!(first.transfers[0].authority, buyer());
    assert_eq!(first.transfers[1].amount, 30_000_000);
    assert_eq!(first.transfers[1].source, vault_token(5));
    assert_eq!(first.transfers[1].vault_signer.unwrap().bump, vault_of(5).1);
    let second = purchase_tokens(&program(), &holding(purchase_accounts(5, 1_000_000_000, 70_000_000), &first.listing), 70_000_000).unwrap();
    assert_eq!(second.listing.filled, 100_000_000);
    assert_eq!(second.listing.status, ListingStatus::Completed);
    assert_eq!(second.listing.remaining(), 0);
}

#[test]
fn partial_purchase_refused_without_partial_fills() {
    let listing = active_listing(6, 100_000_000, false);
    let r = purchase_tokens(&program(), &holding(purchase_accounts(6, 1_000_000_000, 100_000_000), &listing), 30_000_000);
    assert_eq!(r.unwrap_err(), escrow(EscrowError::PartialFillDisabled));
    let whole = purchase_tokens(&program(), &holding(purchase_accounts(6, 1_000_000_000, 100_000_000), &listing), 100_000_000).unwrap();
    assert_eq!(whole.listing.status, ListingStatus::Completed);
}

#[test]
fn purchase_beyond_remaining_refused() {
    let listing = active_listing(7, 100_000_000, true);
    let r = purchase_tokens(&program(), &holding(purchase_accounts(7, 1_000_000_000, 200_000_000), &listing), 100_000_001);
    assert_eq!(r.unwrap_err(), escrow(EscrowError::InsufficientQuantity));
}

#[test]
fn purchase_of_zero_refused() {
    let listing = active_listing(8, 100_000_000, true);
    let r = purchase_tokens(&program(), &holding(purchase_accounts(8, 1_000_000_000, 100_000_000), &listing), 0);
    assert_eq!(r.unwrap_err(), escrow(EscrowError::AmountOverflow));
}

#[test]
fn purchase_with_zero_quote_refused() {
    let listing = active_listing(9, 100_000_000, true);
    // 10 units at price 1 with 6 decimals owe 10 / 10^6, which rounds to zero
    let cheap = Listing { price_per_token: 1, ..listing };
    let r = purchase_tokens(&program(), &holding(purchase_accounts(9, 1_000_000_000, 100_000_000), &cheap), 10);
    assert_eq!(r.unwrap_err(), escrow(EscrowError::AmountOverflow));
}

#[test]
fn purchase_needs_buyer_funds() {
    let listing = active_listing(10, 100_000_000, true);
    let r = purchase_tokens(&program(), &holding(purchase_accounts(10, 5, 100_000_000), &listing), 30_000_000);
    assert_eq!(r.unwrap_err(), ProcessError::InsufficientFunds);
}

#[test]
fn purchase_refused_before_deposit() {
    let listing = init(11, 1_000_000, 100_000_000, true, 0, None).unwrap();
    let r = purchase_tokens(&program(), &holding(purchase_accounts(11, 1_000_000_000, 100_000_000), &listing), 1_000_000);
    assert_eq!(r.unwrap_err(), escrow(EscrowError::InvalidListingStatus));
}

#[test]
fn tampered_bump_aborts_vault_transfers() {
    let listing = active_listing(12, 100_000_000, true);
    let tampered = Listing { vault_bump: listing.vault_bump.wrapping_sub(1), ..listing };
    let r = purchase_tokens(&program(), &holding(purchase_accounts(12, 1_000_000_000, 100_000_000), &tampered), 1_000_000);
    assert_eq!(r.unwrap_err(), escrow(EscrowError::IncorrectAuthority));
    let c = cancel_listing(&program(), &holding(cancel_accounts(12), &tampered));
    assert_eq!(c.unwrap_err(), escrow(EscrowError::IncorrectAuthority));
}

#[test]
fn wrong_vault_authority_refused() {
    let listing = active_listing(13, 100_000_000, true);
    let mut accounts = purchase_accounts(13, 1_000_000_000, 100_000_000);
    accounts[5] = account(key(44), false);
    let r = purchase_tokens(&program(), &holding(accounts.clone(), &listing), 1_000_000);
    assert_eq!(r.unwrap_err(), escrow(EscrowError::IncorrectAuthority));
}

#[test]
fn cancel_awaiting_deposit_moves_nothing() {
    let listing = init(14, 1_000_000, 100_000_000, true, 0, None).unwrap();
    let t = cancel_listing(&program(), &holding(cancel_accounts(14), &listing)).unwrap();
    assert_eq!(t.listing.status, ListingStatus::Cancelled);
    assert!(t.transfers.is_empty());
}

#[test]
fn cancel_active_returns_remaining() {
    let listing = active_listing(15, 100_000_000, true);
    let bought = purchase_tokens(&program(), &holding(purchase_accounts(15, 1_000_000_000, 100_000_000), &listing), 30_000_000).unwrap();
    let t = cancel_listing(&program(), &holding(cancel_accounts(15), &bought.listing)).unwrap();
    assert_eq!(t.listing.status, ListingStatus::Cancelled);
    assert_eq!(t.transfers.len(), 1);
    assert_eq!(t.transfers[0].amount, 70_000_000);
    assert_eq!(t.transfers[0].destination, key(20));
    assert_eq!(t.transfers[0].authority, vault_of(15).0);
    assert!(t.transfers[0].vault_signer.is_some());
}

#[test]
fn cancel_terminal_listing_refused() {
    let listing = active_listing(16, 100_000_000, true);
    let done = purchase_tokens(&program(), &holding(purchase_accounts(16, 1_000_000_000, 100_000_000), &listing), 100_000_000).unwrap();
    let r = cancel_listing(&program(), &holding(cancel_accounts(16), &done.listing));
    assert_eq!(r.unwrap_err(), escrow(EscrowError::InvalidListingStatus));
    let cancelled = Listing { status: ListingStatus::Cancelled, ..listing };
    let r2 = cancel_listing(&program(), &holding(cancel_accounts(16), &cancelled));
    assert_eq!(r2.unwrap_err(), escrow(EscrowError::InvalidListingStatus));
}

#[test]
fn cancel_by_other_identity_refused() {
    let listing = active_listing(17, 100_000_000, true);
    let mut accounts = cancel_accounts(17);
    accounts[0] = account(buyer(), true);
    let r = cancel_listing(&program(), &holding(accounts.clone(), &listing));
    assert_eq!(r.unwrap_err(), escrow(EscrowError::IncorrectAuthority));
}

#[test]
fn deposit_twice_refused() {
    let listing = active_listing(18, 100_000_000, true);
    let r = deposit_tokens(&program(), &holding(deposit_accounts(18, 100_000_000), &listing));
    assert_eq!(r.unwrap_err(), escrow(EscrowError::InvalidListingStatus));
}

#[test]
fn deposit_needs_seller_funds() {
    let listing = init(19, 1_000_000, 100_000_000, true, 0, None).unwrap();
    let r = deposit_tokens(&program(), &holding(deposit_accounts(19, 99_999_999), &listing));
    assert_eq!(r.unwrap_err(), ProcessError::InsufficientFunds);
}

#[test]
fn deposit_with_wrong_mint_refused() {
    let listing = init(20, 1_000_000, 100_000_000, true, 0, None).unwrap();
    let mut accounts = deposit_accounts(20, 100_000_000);
    accounts[2] = with_data(key(20), token_data(&quote_mint(), &seller(), 100_000_000));
    let r = deposit_tokens(&program(), &holding(accounts.clone(), &listing));
    assert_eq!(r.unwrap_err(), escrow(EscrowError::MintMismatch));
}

#[test]
fn deposit_with_unreadable_record_refused() {
    let listing = init(21, 1_000_000, 100_000_000, true, 0, None).unwrap();
    let mut accounts = deposit_accounts(21, 100_000_000);
    accounts[2] = with_data(key(20), vec![1u8; 10]);
    let r = deposit_tokens(&program(), &holding(accounts.clone(), &listing));
    assert_eq!(r.unwrap_err(), ProcessError::InvalidAccountData);
}

#[test]
fn deposit_with_undecodable_listing_refused() {
    let mut accounts = deposit_accounts(22, 100_000_000);
    accounts[1].data[164] = 2;
    let r = deposit_tokens(&program(), &accounts);
    assert_eq!(r.unwrap_err(), escrow(EscrowError::InvalidInstructionData));
}

#[test]
fn handlers_need_enough_accounts() {
    let accounts = init_accounts(23);
    let r = initialize_listing(&program(), &accounts[..6], 23, 1, 1, true, 0, None);
    assert_eq!(r.unwrap_err(), ProcessError::NotEnoughAccountKeys);
}

#[test]
fn initialize_needs_signer() {
    let mut accounts = init_accounts(24);
    accounts[0].is_signer = false;
    let r = initialize_listing(&program(), &accounts, 24, 1, 1, true, 0, None);
    assert_eq!(r.unwrap_err(), ProcessError::MissingRequiredSignature);
}

#[test]
fn initialize_refuses_written_record() {
    let mut accounts = init_accounts(25);
    accounts[1].data[3] = 1;
    let r = initialize_listing(&program(), &accounts, 25, 1, 1, true, 0, None);
    assert_eq!(r.unwrap_err(), escrow(EscrowError::AlreadyInitialized));
}

#[test]
fn initialize_refuses_foreign_record() {
    let mut accounts = init_accounts(26);
    accounts[1].owner = key(50);
    let r = initialize_listing(&program(), &accounts, 26, 1, 1, true, 0, None);
    assert_eq!(r.unwrap_err(), ProcessError::IncorrectProgramId);
}

#[test]
fn initialize_refuses_short_record() {
    let mut accounts = init_accounts(27);
    accounts[1].data = vec![0u8; LISTING_LEN - 1];
    let r = initialize_listing(&program(), &accounts, 27, 1, 1, true, 0, None);
    assert_eq!(r.unwrap_err(), escrow(EscrowError::AccountLengthMismatch));
}

#[test]
fn initialize_refuses_wrong_custody_address() {
    let mut accounts = init_accounts(28);
    accounts[2] = account(key(60), false);
    let r = initialize_listing(&program(), &accounts, 28, 1, 1, true, 0, None);
    assert_eq!(r.unwrap_err(), escrow(EscrowError::IncorrectAuthority));
}

#[test]
fn initialize_refuses_wrong_vault_token_account() {
    let mut accounts = init_accounts(29);
    accounts[3] = account(key(61), false);
    let r = initialize_listing(&program(), &accounts, 29, 1, 1, true, 0, None);
    assert_eq!(r.unwrap_err(), escrow(EscrowError::MintMismatch));
}

#[test]
fn initialize_refuses_wrong_system_program() {
    let mut accounts = init_accounts(30);
    accounts[6] = account(key(62), false);
    let r = initialize_listing(&program(), &accounts, 30, 1, 1, true, 0, None);
    assert_eq!(r.unwrap_err(), ProcessError::IncorrectProgramId);
}

#[test]
fn initialize_refuses_zero_amounts() {
    assert_eq!(init(31, 0, 10, true, 0, None).unwrap_err(), escrow(EscrowError::AmountOverflow));
    assert_eq!(init(31, 10, 0, true, 0, None).unwrap_err(), escrow(EscrowError::AmountOverflow));
}

#[test]
fn initialize_refuses_unknown_fee_method() {
    let r = init(32, 1_000_000, 100, true, 2, None);
    assert_eq!(r.unwrap_err(), escrow(EscrowError::InvalidInstructionData));
}

#[test]
fn initialize_refuses_fee_beyond_64_bits() {
    let r = init(33, u64::MAX, u64::MAX, true, 0, None);
    assert_eq!(r.unwrap_err(), escrow(EscrowError::AmountOverflow));
}

#[test]
fn initialize_without_partial_clears_flag() {
    let listing = init(34, 5, 7, false, 0, None).unwrap();
    assert_eq!(listing.flags, 0);
    assert!(!listing.allow_partial());
}

#[test]
fn fee_uses_wide_intermediate() {
    assert_eq!(listing_fee(u64::MAX, 100), Ok(u64::MAX));
    assert_eq!(listing_fee(u64::MAX, 50), Ok(u64::MAX / 2));
    assert_eq!(listing_fee(99, 1), Ok(0));
    assert_eq!(listing_fee(1_000_000, 100_000_000), Ok(1_000_000_000_000));
    assert_eq!(listing_fee(u64::MAX, 101), Err(EscrowError::AmountOverflow));
}

#[test]
fn quote_rounds_down_and_checks_range() {
    assert_eq!(quote_amount(30_000_000, 1_000_000, 6), Ok(30_000_000));
    assert_eq!(quote_amount(3, 7, 1), Ok(2));
    assert_eq!(quote_amount(1, 1, 1), Err(EscrowError::AmountOverflow));
    assert_eq!(quote_amount(u64::MAX, u64::MAX, 0), Err(EscrowError::AmountOverflow));
    assert_eq!(quote_amount(u64::MAX, u64::MAX, 19), Err(EscrowError::AmountOverflow));
    assert_eq!(quote_amount(u64::MAX, u64::MAX, 20), Ok(3_402_823_669_209_384_634));
    assert_eq!(quote_amount(u64::MAX, u64::MAX, 38), Ok(3));
    assert_eq!(quote_amount(u64::MAX, u64::MAX, 39), Err(EscrowError::AmountOverflow));
}

#[test]
fn payment_proof_digest_is_keccak() {
    let h = verify_x402_payment("proof", 0).unwrap();
    assert_eq!(h, solana_program::keccak::hash(b"proof").to_bytes());
    assert_ne!(h, [0u8; 32]);
    assert_eq!(verify_x402_payment("", 5), Err(EscrowError::InvalidX402Proof));
}

#[test]
fn status_and_method_codes() {
    assert_eq!(ListingStatus::AwaitingDeposit.as_u8(), 0);
    assert_eq!(ListingStatus::Active.as_u8(), 1);
    assert_eq!(ListingStatus::Completed.as_u8(), 2);
    assert_eq!(ListingStatus::Cancelled.as_u8(), 3);
    assert_eq!(ListingStatus::from_u8(1), ListingStatus::Active);
    assert_eq!(ListingStatus::from_u8(200), ListingStatus::Cancelled);
    assert_eq!(FeePaymentMethod::X402.as_u8(), 1);
    assert_eq!(FeePaymentMethod::from_u8(0), Some(FeePaymentMethod::NativeSol));
    assert_eq!(FeePaymentMethod::from_u8(2), None);
}

#[test]
fn error_codes_are_stable() {
    assert_eq!(EscrowError::InvalidInstructionData.code(), 0);
    assert_eq!(EscrowError::PartialFillDisabled.code(), 8);
    assert_eq!(EscrowError::X402AmountMismatch.code(), 10);
    assert_eq!(EscrowError::MintMismatch.message(), "Token mint mismatch");
}

#[test]
fn listing_helpers() {
    let mut listing = init(35, 5, 70, true, 0, None).unwrap();
    listing.filled = 20;
    assert_eq!(listing.remaining(), 50);
    listing.filled = 90;
    assert_eq!(listing.remaining(), 0);
    listing.set_status(ListingStatus::Active);
    assert_eq!(listing.status(), ListingStatus::Active);
    assert_eq!(listing.quantity, 70);
}

#[test]
fn dispatch_routes_each_instruction() {
    let instruction = EscrowInstruction::InitializeListing {
        listing_id: 36,
        price_per_token: 1_000_000,
        quantity: 100_000_000,
        allow_partial: true,
        fee_payment_method: 0,
        x402_payload: None,
    };
    let t: Transition = dispatch(&program(), &init_accounts(36), instruction).unwrap();
    assert!(t.transfers.is_empty());
    assert_eq!(t.listing.status, ListingStatus::AwaitingDeposit);
    let d = dispatch(&program(), &holding(deposit_accounts(36, 100_000_000), &t.listing), EscrowInstruction::DepositTokens).unwrap();
    assert_eq!(d.listing.status, ListingStatus::Active);
    let p = dispatch(&program(), &holding(purchase_accounts(36, 1_000_000_000, 100_000_000), &d.listing), EscrowInstruction::Purchase { quantity: 1_000_000 }).unwrap();
    assert_eq!(p.listing.filled, 1_000_000);
    let c = dispatch(&program(), &holding(cancel_accounts(36), &p.listing), EscrowInstruction::CancelListing).unwrap();
    assert_eq!(c.transfers[0].amount, 99_000_000);
}

#[test]
fn address_equality_compares_bytes() {
    let mut b = [5u8; 32];
    assert_eq!(Address::new(b), key(5));
    b[31] = 6;
    assert_ne!(Address::new(b), key(5));
}

#[test]
fn listing_record_round_trip() {
    let listing = init(40, 1_000_000, 100_000_000, true, 1, Some("p".to_string())).unwrap();
    let bytes = serialize_listing(&listing);
    assert_eq!(bytes.len(), LISTING_LEN);
    assert_eq!(&bytes[0..32], &seller().bytes);
    assert_eq!(&bytes[128..136], &1_000_000u64.to_le_bytes());
    assert_eq!(bytes[160], 1);
    assert_eq!(bytes[162], 0);
    assert_eq!(bytes[164], 1);
    assert_eq!(&bytes[165..173], &1_000_000_000_000u64.to_le_bytes());
    let back = deserialize_listing_bytes(&bytes).unwrap();
    assert_eq!(serialize_listing(&back), bytes);
    assert_eq!(back.fee_amount_paid, listing.fee_amount_paid);
    assert_eq!(back.vault_authority, listing.vault_authority);
}

#[test]
fn listing_record_decoding_rules() {
    let listing = init(41, 1_000_000, 100_000_000, true, 0, None).unwrap();
    let mut bytes = serialize_listing(&listing);
    bytes[162] = 9;
    assert_eq!(deserialize_listing_bytes(&bytes).unwrap().status, ListingStatus::Cancelled);
    bytes[164] = 2;
    assert!(deserialize_listing_bytes(&bytes).is_none());
    let short = serialize_listing(&listing);
    assert!(deserialize_listing_bytes(&short[..LISTING_LEN - 1]).is_none());
    let mut long = serialize_listing(&listing);
    long.push(0);
    assert!(deserialize_listing_bytes(&long).is_none());
}

fn init_bytes(payload: Option<&[u8]>) -> Vec<u8> {
    let mut b = vec![0u8];
    b.extend_from_slice(&12345u64.to_le_bytes());
    b.extend_from_slice(&1_000_000u64.to_le_bytes());
    b.extend_from_slice(&100_000_000u64.to_le_bytes());
    b.push(1);
    b.push(1);
    match payload {
        None => b.push(0),
        Some(p) => {
            b.push(1);
            b.extend_from_slice(&(p.len() as u32).to_le_bytes());
            b.extend_from_slice(p);
        }
    }
    b
}

#[test]
fn instruction_decoding_reads_each_layout() {
    assert!(matches!(decode_instruction(&[1]), Some(EscrowInstruction::DepositTokens)));
    assert!(matches!(decode_instruction(&[3]), Some(EscrowInstruction::CancelListing)));
    let mut purchase = vec![2u8];
    purchase.extend_from_slice(&30_000_000u64.to_le_bytes());
    assert!(matches!(decode_instruction(&purchase), Some(EscrowInstruction::Purchase { quantity: 30_000_000 })));
    match decode_instruction(&init_bytes(Some(b"proof"))) {
        Some(EscrowInstruction::InitializeListing {
            listing_id,
            price_per_token,
            quantity,
            allow_partial,
            fee_payment_method,
            x402_payload,
        }) => {
            assert_eq!(listing_id, 12345);
            assert_eq!(price_per_token, 1_000_000);
            assert_eq!(quantity, 100_000_000);
            assert!(allow_partial);
            assert_eq!(fee_payment_method, 1);
            assert_eq!(x402_payload.as_deref(), Some("proof"));
        }
        other => panic!("unexpected {:?}", other),
    }
    assert!(matches!(
        decode_instruction(&init_bytes(None)),
        Some(EscrowInstruction::InitializeListing { x402_payload: None, .. })
    ));
}

#[test]
fn instruction_decoding_rejects_malformed_bytes() {
    assert!(decode_instruction(&[]).is_none());
    assert!(decode_instruction(&[4]).is_none());
    assert!(decode_instruction(&[1, 0]).is_none());
    assert!(decode_instruction(&[2, 1, 2, 3]).is_none());
    let mut trailing = init_bytes(None);
    trailing.push(0);
    assert!(decode_instruction(&trailing).is_none());
    let mut bad_flag = init_bytes(None);
    bad_flag[25] = 2;
    assert!(decode_instruction(&bad_flag).is_none());
    assert!(decode_instruction(&init_bytes(Some(&[0xff, 0xfe]))).is_none());
    let mut short_text = init_bytes(Some(b"abc"));
    short_text.pop();
    assert!(decode_instruction(&short_text).is_none());
}
