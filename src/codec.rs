//! The fixed binary layout of the stored listing record: the fields in
//! declaration order, integers little-endian, each code in one byte.
use vstd::prelude::*;
use vstd::bytes::{
    lemma_auto_spec_u64_to_from_le_bytes, spec_u64_from_le_bytes, spec_u64_to_le_bytes, u64_from_le_bytes,
    u64_to_le_bytes,
};
use vstd::slice::slice_subrange;

use crate::listing::Listing;
use crate::types::{fee_method_code, status_code, Address, FeePaymentMethod, ListingStatus, LISTING_LEN};

verus! {

/// Offset of the status byte in the record.
pub const STATUS_OFFSET: usize = 162;

/// Offset of the fee payment method byte in the record.
pub const FEE_METHOD_OFFSET: usize = 164;

/// The bytes of a listing record.
pub open spec fn listing_bytes(l: Listing) -> Seq<u8> {
    l.seller@ + l.base_mint@ + l.quote_mint@ + l.vault_authority@ + spec_u64_to_le_bytes(l.price_per_token)
        + spec_u64_to_le_bytes(l.quantity) + spec_u64_to_le_bytes(l.filled) + spec_u64_to_le_bytes(l.listing_id)
        + seq![l.flags, l.vault_bump, status_code(l.status), l.base_decimals, fee_method_code(l.fee_payment_method)]
        + spec_u64_to_le_bytes(l.fee_amount_paid) + l.x402_payload_hash@
}

/// A record with an unknown status byte read as Cancelled.
pub open spec fn normalized_record(data: Seq<u8>) -> Seq<u8> {
    if data[STATUS_OFFSET as int] <= 3 {
        data
    } else {
        data.update(STATUS_OFFSET as int, 3)
    }
}

/// What a record decodes to: the listing whose bytes it holds, once an
/// unknown status byte is read as Cancelled; nothing where its length is
/// not the layout's or its fee payment method is unknown.
pub open spec fn decoded_listing(data: Seq<u8>) -> Option<Listing> {
    if data.len() == LISTING_LEN && data[FEE_METHOD_OFFSET as int] <= 1 {
        Some(choose|l: Listing| listing_bytes(l) == normalized_record(data))
    } else {
        None
    }
}

fn push_array(out: &mut Vec<u8>, bytes: &[u8; 32])
    ensures
        final(out)@ == old(out)@ + bytes@,
{
    let ghost start = out@;
    let mut i: usize = 0;
    while i < 32
        invariant
            i <= 32,
            bytes@.len() == 32,
            out@ == start + bytes@.subrange(0, i as int),
        decreases 32 - i,
    {
        out.push(bytes[i]);
        i = i + 1;
        assert(out@ =~= start + bytes@.subrange(0, i as int));
    }
    assert(bytes@.subrange(0, 32) =~= bytes@);
}

fn push_u64(out: &mut Vec<u8>, x: u64)
    ensures
        final(out)@ == old(out)@ + spec_u64_to_le_bytes(x),
{
    let mut bytes = u64_to_le_bytes(x);
    let ghost b = bytes@;
    out.append(&mut bytes);
    assert(out@ =~= old(out)@ + b);
}

/// Writes a listing in its record layout.
pub fn serialize_listing(l: &Listing) -> (r: Vec<u8>)
    ensures
        r@ == listing_bytes(*l),
        r@.len() == LISTING_LEN,
{
    proof {
        lemma_auto_spec_u64_to_from_le_bytes();
    }
    let mut out: Vec<u8> = Vec::new();
    push_array(&mut out, &l.seller.bytes);
    push_array(&mut out, &l.base_mint.bytes);
    push_array(&mut out, &l.quote_mint.bytes);
    push_array(&mut out, &l.vault_authority.bytes);
    push_u64(&mut out, l.price_per_token);
    push_u64(&mut out, l.quantity);
    push_u64(&mut out, l.filled);
    push_u64(&mut out, l.listing_id);
    let ghost before = out@;
    out.push(l.flags);
    out.push(l.vault_bump);
    out.push(l.status.as_u8());
    out.push(l.base_decimals);
    out.push(l.fee_payment_method.as_u8());
    assert(out@ =~= before + seq![
        l.flags,
        l.vault_bump,
        status_code(l.status),
        l.base_decimals,
        fee_method_code(l.fee_payment_method),
    ]);
    push_u64(&mut out, l.fee_amount_paid);
    push_array(&mut out, &l.x402_payload_hash);
    out
}

fn read_array(data: &[u8], at: usize) -> (r: [u8; 32])
    requires
        at + 32 <= data@.len() <= LISTING_LEN,
    ensures
        r@ == data@.subrange(at as int, at + 32),
{
    let mut out: [u8; 32] = [0u8; 32];
    let mut i: usize = 0;
    while i < 32
        invariant
            i <= 32,
            at + 32 <= data@.len() <= LISTING_LEN,
            out@.len() == 32,
            forall|j: int| 0 <= j < i ==> out@[j] == data@[at + j],
        decreases 32 - i,
    {
        out[i] = data[at + i];
        i = i + 1;
    }
    assert(out@ =~= data@.subrange(at as int, at + 32));
    out
}

fn read_u64(data: &[u8], at: usize) -> (r: u64)
    requires
        at + 8 <= data@.len() <= LISTING_LEN,
    ensures
        r == spec_u64_from_le_bytes(data@.subrange(at as int, at + 8)),
{
    u64_from_le_bytes(slice_subrange(data, at, at + 8))
}

/// Reads a listing record. Only a record of exactly the layout's length
/// with a known fee payment method decodes; an unknown status byte reads
/// as Cancelled, and every other byte is kept as written.
pub fn deserialize_listing_bytes(data: &[u8]) -> (r: Option<Listing>)
    ensures
        r == decoded_listing(data@),
        r is Some <==> data@.len() == LISTING_LEN && data@[FEE_METHOD_OFFSET as int] <= 1,
        r matches Some(l) ==> data@[STATUS_OFFSET as int] <= 3 ==> listing_bytes(l) == data@,
        r matches Some(l) ==> data@[STATUS_OFFSET as int] > 3 ==> l.status == ListingStatus::Cancelled
            && listing_bytes(l) == data@.update(STATUS_OFFSET as int, 3),
{
    if data.len() != LISTING_LEN {
        return None;
    }
    let fee_payment_method = match FeePaymentMethod::from_u8(data[FEE_METHOD_OFFSET]) {
        Some(m) => m,
        None => return None,
    };
    let l = Listing {
        seller: Address::new(read_array(data, 0)),
        base_mint: Address::new(read_array(data, 32)),
        quote_mint: Address::new(read_array(data, 64)),
        vault_authority: Address::new(read_array(data, 96)),
        price_per_token: read_u64(data, 128),
        quantity: read_u64(data, 136),
        filled: read_u64(data, 144),
        listing_id: read_u64(data, 152),
        flags: data[160],
        vault_bump: data[161],
        status: ListingStatus::from_u8(data[STATUS_OFFSET]),
        base_decimals: data[163],
        fee_payment_method,
        fee_amount_paid: read_u64(data, 165),
        x402_payload_hash: read_array(data, 173),
    };
    proof {
        lemma_auto_spec_u64_to_from_le_bytes();
        let d = data@;
        let e = if d[162] <= 3 { d } else { d.update(162, 3) };
        assert(e.subrange(0, 162) =~= d.subrange(0, 162));
        assert(e.subrange(163, 205) =~= d.subrange(163, 205));
        assert(listing_bytes(l) =~= e);
        assert(e == normalized_record(d));
        let c = choose|c: Listing| listing_bytes(c) == normalized_record(d);
        lemma_listing_bytes_injective(c, l);
    }
    Some(l)
}

/// Distinct listings have distinct records. With the contracts of
/// `serialize_listing` and `deserialize_listing_bytes`, reading back a
/// written record gives the listing that was written.
pub proof fn lemma_listing_bytes_injective(l1: Listing, l2: Listing)
    requires
        listing_bytes(l1) == listing_bytes(l2),
    ensures
        l1 == l2,
{
    lemma_auto_spec_u64_to_from_le_bytes();
    let b = listing_bytes(l1);
    let c = listing_bytes(l2);
    assert(b.len() == 205);
    assert(l1.seller@ =~= b.subrange(0, 32));
    assert(l2.seller@ =~= c.subrange(0, 32));
    assert(l1.base_mint@ =~= b.subrange(32, 64));
    assert(l2.base_mint@ =~= c.subrange(32, 64));
    assert(l1.quote_mint@ =~= b.subrange(64, 96));
    assert(l2.quote_mint@ =~= c.subrange(64, 96));
    assert(l1.vault_authority@ =~= b.subrange(96, 128));
    assert(l2.vault_authority@ =~= c.subrange(96, 128));
    assert(spec_u64_to_le_bytes(l1.price_per_token) =~= b.subrange(128, 136));
    assert(spec_u64_to_le_bytes(l2.price_per_token) =~= c.subrange(128, 136));
    assert(spec_u64_to_le_bytes(l1.quantity) =~= b.subrange(136, 144));
    assert(spec_u64_to_le_bytes(l2.quantity) =~= c.subrange(136, 144));
    assert(spec_u64_to_le_bytes(l1.filled) =~= b.subrange(144, 152));
    assert(spec_u64_to_le_bytes(l2.filled) =~= c.subrange(144, 152));
    assert(spec_u64_to_le_bytes(l1.listing_id) =~= b.subrange(152, 160));
    assert(spec_u64_to_le_bytes(l2.listing_id) =~= c.subrange(152, 160));
    assert(b[160] == l1.flags && c[160] == l2.flags);
    assert(b[161] == l1.vault_bump && c[161] == l2.vault_bump);
    assert(b[162] == status_code(l1.status) && c[162] == status_code(l2.status));
    assert(b[163] == l1.base_decimals && c[163] == l2.base_decimals);
    assert(b[164] == fee_method_code(l1.fee_payment_method) && c[164] == fee_method_code(l2.fee_payment_method));
    assert(spec_u64_to_le_bytes(l1.fee_amount_paid) =~= b.subrange(165, 173));
    assert(spec_u64_to_le_bytes(l2.fee_amount_paid) =~= c.subrange(165, 173));
    assert(l1.x402_payload_hash@ =~= b.subrange(173, 205));
    assert(l2.x402_payload_hash@ =~= c.subrange(173, 205));
    assert(spec_u64_from_le_bytes(spec_u64_to_le_bytes(l1.price_per_token)) == l1.price_per_token);
    assert(spec_u64_from_le_bytes(spec_u64_to_le_bytes(l1.quantity)) == l1.quantity);
    assert(spec_u64_from_le_bytes(spec_u64_to_le_bytes(l1.filled)) == l1.filled);
    assert(spec_u64_from_le_bytes(spec_u64_to_le_bytes(l1.listing_id)) == l1.listing_id);
    assert(spec_u64_from_le_bytes(spec_u64_to_le_bytes(l1.fee_amount_paid)) == l1.fee_amount_paid);
    assert(spec_u64_from_le_bytes(spec_u64_to_le_bytes(l2.price_per_token)) == l2.price_per_token);
    assert(spec_u64_from_le_bytes(spec_u64_to_le_bytes(l2.quantity)) == l2.quantity);
    assert(spec_u64_from_le_bytes(spec_u64_to_le_bytes(l2.filled)) == l2.filled);
    assert(spec_u64_from_le_bytes(spec_u64_to_le_bytes(l2.listing_id)) == l2.listing_id);
    assert(spec_u64_from_le_bytes(spec_u64_to_le_bytes(l2.fee_amount_paid)) == l2.fee_amount_paid);
    assert(l1.seller.bytes =~= l2.seller.bytes);
    assert(l1.base_mint.bytes =~= l2.base_mint.bytes);
    assert(l1.quote_mint.bytes =~= l2.quote_mint.bytes);
    assert(l1.vault_authority.bytes =~= l2.vault_authority.bytes);
    assert(l1.x402_payload_hash =~= l2.x402_payload_hash);
}

} // verus!
