//! The key-less custody address of a listing's vault.
//!
//! The address is derived from the seeds `("vault", seller, listing_id)`
//! and a bump found once at creation; every later vault transfer presents
//! the same seeds with the stored bump.
use vstd::prelude::*;
use vstd::bytes::{spec_u64_to_le_bytes, u64_to_le_bytes};

use crate::host::{create_program_address, created_program_address, found_program_address, try_find_program_address};
use crate::types::Address;

verus! {

/// The fixed first seed, the bytes of `"vault"`.
pub open spec fn vault_prefix() -> Seq<u8> {
    seq![118u8, 97u8, 117u8, 108u8, 116u8]
}

/// The seeds of a vault, without the bump.
pub open spec fn vault_seeds(seller: Seq<u8>, listing_id: u64) -> Seq<Seq<u8>> {
    seq![vault_prefix(), seller, spec_u64_to_le_bytes(listing_id)]
}

/// The seeds of a vault with its bump appended: what signs for the vault.
pub open spec fn vault_signer_seeds(seller: Seq<u8>, listing_id: u64, bump: u8) -> Seq<Seq<u8>> {
    vault_seeds(seller, listing_id).push(seq![bump])
}

/// The custody address that the seeds and bump reproduce, if any.
pub open spec fn rederived_vault(program_id: Seq<u8>, seller: Seq<u8>, listing_id: u64, bump: u8) -> Option<Seq<u8>> {
    created_program_address(vault_signer_seeds(seller, listing_id, bump), program_id)
}

fn bytes_of(a: &Address) -> (r: Vec<u8>)
    ensures
        r@ == a@,
{
    let mut out: Vec<u8> = Vec::new();
    let mut i: usize = 0;
    while i < 32
        invariant
            i <= 32,
            a@.len() == 32,
            out@ == a@.subrange(0, i as int),
        decreases 32 - i,
    {
        out.push(a.bytes[i]);
        i = i + 1;
        assert(out@ =~= a@.subrange(0, i as int));
    }
    assert(out@ =~= a@);
    out
}

proof fn lemma_bytes_deep_view(v: Vec<u8>)
    ensures
        v.deep_view() == v@,
{
    assert(v.deep_view() =~= v@);
}

fn vault_seed_list(seller: &Address, listing_id: u64) -> (r: Vec<Vec<u8>>)
    ensures
        r.deep_view() == vault_seeds(seller@, listing_id),
{
    let prefix: Vec<u8> = vec![118u8, 97u8, 117u8, 108u8, 116u8];
    let seller_bytes = bytes_of(seller);
    let id_bytes = u64_to_le_bytes(listing_id);
    let ghost (p, s, d) = (prefix, seller_bytes, id_bytes);
    let mut seeds: Vec<Vec<u8>> = Vec::new();
    seeds.push(prefix);
    seeds.push(seller_bytes);
    seeds.push(id_bytes);
    proof {
        lemma_bytes_deep_view(p);
        lemma_bytes_deep_view(s);
        lemma_bytes_deep_view(d);
        assert(p@ =~= vault_prefix());
        assert(seeds.deep_view() =~= vault_seeds(seller@, listing_id));
    }
    seeds
}

/// Finds the custody address of a new listing and the bump that makes it
/// reproducible. The result reproduces itself: presenting the seeds with
/// the returned bump gives the returned address again.
pub fn derive_vault_authority(program_id: &Address, seller: &Address, listing_id: u64) -> (r: Option<(Address, u8)>)
    ensures
        match r {
            Some((a, b)) => found_program_address(vault_seeds(seller@, listing_id), program_id@) == Some((a@, b))
                && rederived_vault(program_id@, seller@, listing_id, b) == Some(a@),
            None => found_program_address(vault_seeds(seller@, listing_id), program_id@) is None,
        },
{
    let seeds = vault_seed_list(seller, listing_id);
    try_find_program_address(&seeds, program_id)
}

/// Re-derives the custody address from the stored seller, listing id and bump.
pub fn rederive_vault_authority(program_id: &Address, seller: &Address, listing_id: u64, bump: u8) -> (r: Option<Address>)
    ensures
        match r {
            Some(a) => rederived_vault(program_id@, seller@, listing_id, bump) == Some(a@),
            None => rederived_vault(program_id@, seller@, listing_id, bump) is None,
        },
{
    let mut seeds = vault_seed_list(seller, listing_id);
    let ghost before = seeds;
    let bump_seed: Vec<u8> = vec![bump];
    let ghost bs = bump_seed;
    seeds.push(bump_seed);
    proof {
        lemma_bytes_deep_view(bs);
        assert(bs@ =~= seq![bump]);
        assert(seeds.deep_view() =~= before.deep_view().push(seq![bump]));
    }
    create_program_address(&seeds, program_id)
}

/// Whether `vault` is the address that the listing's stored seeds and bump reproduce.
pub fn vault_matches(program_id: &Address, seller: &Address, listing_id: u64, bump: u8, vault: &Address) -> (r: bool)
    ensures
        r == (rederived_vault(program_id@, seller@, listing_id, bump) == Some(vault@)),
{
    match rederive_vault_authority(program_id, seller, listing_id, bump) {
        Some(a) => a.same_as(vault),
        None => false,
    }
}

} // verus!
