//! The calls into the ledger platform, the token standard and std that
//! the library relies on, each with its contract.
use vstd::prelude::*;
use vstd::bytes::spec_u64_from_le_bytes;
use vstd::utf8::{encode_utf8, valid_utf8};

use solana_program::program_error::ProgramError;
use solana_program::program_pack::Pack;
use solana_program::pubkey::Pubkey;

use crate::accounts::TokenAccountState;
use crate::error::ProcessError;
use crate::types::Address;

verus! {

/// The address and bump that the platform's derived-address search finds for seeds and a program.
pub uninterp spec fn found_program_address(seeds: Seq<Seq<u8>>, program_id: Seq<u8>) -> Option<(Seq<u8>, u8)>;

/// The derived address of seeds (bump included) and a program, if it is off the curve.
pub uninterp spec fn created_program_address(seeds: Seq<Seq<u8>>, program_id: Seq<u8>) -> Option<Seq<u8>>;

/// The associated token sub-account of a wallet for an asset.
pub uninterp spec fn associated_token_address_of(wallet: Seq<u8>, mint: Seq<u8>) -> Seq<u8>;

/// The Keccak-256 digest of bytes.
pub uninterp spec fn keccak_digest_of(bytes: Seq<u8>) -> Seq<u8>;

/// Whether bytes hold an initialised mint record of the token standard.
pub uninterp spec fn mint_record_valid(data: Seq<u8>) -> bool;

/// Whether bytes hold an initialised token sub-account record of the token standard.
pub uninterp spec fn token_record_valid(data: Seq<u8>) -> bool;

/// The all-zero identity.
pub open spec fn zero_address() -> Seq<u8> {
    Seq::new(32, |i: int| 0u8)
}

/// Relies on solana_program::system_program::ID, declared as the base-58
/// text of 32 zero bytes.
#[verifier::external_body]
pub(crate) fn system_program_id() -> (r: Address)
    ensures
        r@ == zero_address(),
{
    Address { bytes: solana_program::system_program::ID.to_bytes() }
}

/// Relies on Pubkey::try_find_program_address: it tries the bumps from 255
/// down, appends each as a last seed, and returns the first address that
/// Pubkey::create_program_address accepts, with that bump.
#[verifier::external_body]
pub(crate) fn try_find_program_address(seeds: &Vec<Vec<u8>>, program_id: &Address) -> (r: Option<(Address, u8)>)
    ensures
        match r {
            Some((a, b)) => found_program_address(seeds.deep_view(), program_id@) == Some((a@, b))
                && created_program_address(seeds.deep_view().push(seq![b]), program_id@) == Some(a@),
            None => found_program_address(seeds.deep_view(), program_id@) is None,
        },
{
    let refs: Vec<&[u8]> = seeds.iter().map(|s| s.as_slice()).collect();
    let pid = Pubkey::new_from_array(program_id.bytes);
    Pubkey::try_find_program_address(&refs, &pid).map(|(a, b)| (Address { bytes: a.to_bytes() }, b))
}

/// Relies on Pubkey::create_program_address: the derived address of the
/// seeds, or an error where the seeds are too many or too long or the
/// digest lies on the curve.
#[verifier::external_body]
pub(crate) fn create_program_address(seeds: &Vec<Vec<u8>>, program_id: &Address) -> (r: Option<Address>)
    ensures
        match r {
            Some(a) => created_program_address(seeds.deep_view(), program_id@) == Some(a@),
            None => created_program_address(seeds.deep_view(), program_id@) is None,
        },
{
    let refs: Vec<&[u8]> = seeds.iter().map(|s| s.as_slice()).collect();
    let pid = Pubkey::new_from_array(program_id.bytes);
    Pubkey::create_program_address(&refs, &pid).ok().map(|a| Address { bytes: a.to_bytes() })
}

/// Relies on spl_associated_token_account::get_associated_token_address:
/// the associated token sub-account of `wallet` for `mint`, a derived
/// address that depends on its arguments alone. (Its search for a bump
/// panics only if none of the 255 candidates is off the curve.)
#[verifier::external_body]
pub(crate) fn associated_token_address(wallet: &Address, mint: &Address) -> (r: Address)
    ensures
        r@ == associated_token_address_of(wallet@, mint@),
{
    let w = Pubkey::new_from_array(wallet.bytes);
    let m = Pubkey::new_from_array(mint.bytes);
    Address { bytes: spl_associated_token_account::get_associated_token_address(&w, &m).to_bytes() }
}

/// Relies on solana_program::keccak::hash: the 32-byte Keccak-256 digest.
#[verifier::external_body]
pub(crate) fn keccak_digest(bytes: &[u8]) -> (r: [u8; 32])
    ensures
        r@ == keccak_digest_of(bytes@),
{
    solana_program::keccak::hash(bytes).to_bytes()
}

/// Relies on spl_token::state::Mint::unpack: it refuses any length but 82
/// bytes, and reads the decimal scale from byte 44.
#[verifier::external_body]
pub(crate) fn unpack_mint_decimals(data: &[u8]) -> (r: Result<u8, ProcessError>)
    ensures
        r is Ok <==> mint_record_valid(data@),
        r matches Ok(d) ==> data@.len() == 82 && d == data@[44],
        data@.len() != 82 ==> r is Err,
        r matches Err(e) ==> e == ProcessError::InvalidAccountData || e == ProcessError::UninitializedAccount,
{
    match spl_token::state::Mint::unpack(data) {
        Ok(m) => Ok(m.decimals),
        Err(ProgramError::UninitializedAccount) => Err(ProcessError::UninitializedAccount),
        Err(_) => Err(ProcessError::InvalidAccountData),
    }
}

/// Relies on spl_token::state::Account::unpack: it refuses any length but
/// 165 bytes, and reads the asset from bytes 0..32, the owner from bytes
/// 32..64 and the balance, little-endian, from bytes 64..72.
#[verifier::external_body]
pub(crate) fn unpack_token_account(data: &[u8]) -> (r: Result<TokenAccountState, ProcessError>)
    ensures
        r is Ok <==> token_record_valid(data@),
        r matches Ok(t) ==> data@.len() == 165 && t.mint@ == data@.subrange(0, 32)
            && t.owner@ == data@.subrange(32, 64)
            && t.amount == spec_u64_from_le_bytes(data@.subrange(64, 72)),
        data@.len() != 165 ==> r is Err,
        r matches Err(e) ==> e == ProcessError::InvalidAccountData || e == ProcessError::UninitializedAccount,
{
    match spl_token::state::Account::unpack(data) {
        Ok(a) => Ok(TokenAccountState {
            mint: Address { bytes: a.mint.to_bytes() },
            owner: Address { bytes: a.owner.to_bytes() },
            amount: a.amount,
        }),
        Err(ProgramError::UninitializedAccount) => Err(ProcessError::UninitializedAccount),
        Err(_) => Err(ProcessError::InvalidAccountData),
    }
}

/// Relies on String::from_utf8: it succeeds exactly on valid UTF-8, and
/// the string then holds the given bytes.
#[verifier::external_body]
pub(crate) fn string_from_utf8(bytes: Vec<u8>) -> (r: Option<String>)
    ensures
        r is Some <==> valid_utf8(bytes@),
        r matches Some(s) ==> encode_utf8(s@) == bytes@,
{
    String::from_utf8(bytes).ok()
}

} // verus!
