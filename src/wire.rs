//! The binary layout of instructions: a one-byte tag in declaration
//! order, then the fields in order; integers little-endian, a flag as one
//! byte 0 or 1, an optional text as a tag byte then, when present, its
//! UTF-8 length in four bytes and its UTF-8 bytes. The whole input must be
//! consumed.
use vstd::prelude::*;
use vstd::bytes::{
    lemma_auto_spec_u32_to_from_le_bytes, lemma_auto_spec_u64_to_from_le_bytes, spec_u32_from_le_bytes,
    spec_u32_to_le_bytes, spec_u64_from_le_bytes, spec_u64_to_le_bytes, u32_from_le_bytes, u64_from_le_bytes,
};
use vstd::slice::slice_subrange;
use vstd::utf8::{encode_utf8, encode_utf8_valid_utf8, valid_utf8};

use crate::host::string_from_utf8;
use crate::instruction::EscrowInstruction;

verus! {

/// The bytes of an optional text.
pub open spec fn optional_text_bytes(p: Option<String>) -> Seq<u8> {
    match p {
        None => seq![0u8],
        Some(s) => seq![1u8] + spec_u32_to_le_bytes(encode_utf8(s@).len() as u32) + encode_utf8(s@),
    }
}

/// The bytes of an instruction.
pub open spec fn instruction_bytes(i: EscrowInstruction) -> Seq<u8> {
    match i {
        EscrowInstruction::InitializeListing {
            listing_id,
            price_per_token,
            quantity,
            allow_partial,
            fee_payment_method,
            x402_payload,
        } => seq![0u8] + spec_u64_to_le_bytes(listing_id) + spec_u64_to_le_bytes(price_per_token)
            + spec_u64_to_le_bytes(quantity) + seq![if allow_partial { 1u8 } else { 0u8 }, fee_payment_method]
            + optional_text_bytes(x402_payload),
        EscrowInstruction::DepositTokens => seq![1u8],
        EscrowInstruction::Purchase { quantity } => seq![2u8] + spec_u64_to_le_bytes(quantity),
        EscrowInstruction::CancelListing => seq![3u8],
    }
}

/// Whether an instruction has a layout: its text, if any, has a 32-bit length.
pub open spec fn encodable(i: EscrowInstruction) -> bool {
    i matches EscrowInstruction::InitializeListing { x402_payload: Some(s), .. } ==> encode_utf8(s@).len()
        <= u32::MAX
}

proof fn lemma_instruction_shape(i: EscrowInstruction)
    requires
        encodable(i),
    ensures
        ({
            let b = instruction_bytes(i);
            match i {
                EscrowInstruction::InitializeListing {
                    listing_id,
                    price_per_token,
                    quantity,
                    allow_partial,
                    fee_payment_method,
                    x402_payload,
                } => {
                    &&& b.len() >= 28
                    &&& b[0] == 0
                    &&& b.subrange(1, 9) == spec_u64_to_le_bytes(listing_id)
                    &&& b.subrange(9, 17) == spec_u64_to_le_bytes(price_per_token)
                    &&& b.subrange(17, 25) == spec_u64_to_le_bytes(quantity)
                    &&& b[25] == (if allow_partial { 1u8 } else { 0u8 })
                    &&& b[26] == fee_payment_method
                    &&& (x402_payload is None <==> b[27] == 0)
                    &&& (x402_payload is Some <==> b[27] == 1)
                    &&& x402_payload is None ==> b.len() == 28
                    &&& x402_payload matches Some(s) ==> {
                        &&& b.len() >= 32
                        &&& spec_u32_from_le_bytes(b.subrange(28, 32)) == encode_utf8(s@).len()
                        &&& b.len() == 32 + encode_utf8(s@).len()
                        &&& b.subrange(32, b.len() as int) == encode_utf8(s@)
                        &&& valid_utf8(b.subrange(32, b.len() as int))
                    }
                },
                EscrowInstruction::DepositTokens => b == seq![1u8],
                EscrowInstruction::Purchase { quantity } => b.len() == 9 && b[0] == 2 && b.subrange(1, 9)
                    == spec_u64_to_le_bytes(quantity),
                EscrowInstruction::CancelListing => b == seq![3u8],
            }
        }),
{
    lemma_auto_spec_u64_to_from_le_bytes();
    lemma_auto_spec_u32_to_from_le_bytes();
    let b = instruction_bytes(i);
    match i {
        EscrowInstruction::InitializeListing {
            listing_id,
            price_per_token,
            quantity,
            allow_partial,
            fee_payment_method,
            x402_payload,
        } => {
            assert(b.subrange(1, 9) =~= spec_u64_to_le_bytes(listing_id));
            assert(b.subrange(9, 17) =~= spec_u64_to_le_bytes(price_per_token));
            assert(b.subrange(17, 25) =~= spec_u64_to_le_bytes(quantity));
            match x402_payload {
                Some(s) => {
                    let t = encode_utf8(s@);
                    encode_utf8_valid_utf8(s@);
                    assert(b.subrange(28, 32) =~= spec_u32_to_le_bytes(t.len() as u32));
                    assert(b.subrange(32, b.len() as int) =~= t);
                },
                None => {},
            }
        },
        EscrowInstruction::Purchase { quantity } => {
            assert(b.subrange(1, 9) =~= spec_u64_to_le_bytes(quantity));
        },
        _ => {},
    }
}

/// Whether no instruction with a layout has the given bytes.
pub open spec fn no_instruction_has(data: Seq<u8>) -> bool {
    forall|i: EscrowInstruction| encodable(i) ==> instruction_bytes(i) != data
}

fn read_u64(data: &[u8], at: usize) -> (r: u64)
    requires
        at <= 17,
        at + 8 <= data@.len(),
    ensures
        r == spec_u64_from_le_bytes(data@.subrange(at as int, at + 8)),
{
    u64_from_le_bytes(slice_subrange(data, at, at + 8))
}

fn copy_bytes(data: &[u8], from: usize) -> (r: Vec<u8>)
    requires
        from <= data@.len(),
    ensures
        r@ == data@.subrange(from as int, data@.len() as int),
{
    let mut out: Vec<u8> = Vec::new();
    let mut i: usize = from;
    while i < data.len()
        invariant
            from <= i <= data@.len(),
            out@ == data@.subrange(from as int, i as int),
        decreases data@.len() - i,
    {
        out.push(data[i]);
        i = i + 1;
        assert(out@ =~= data@.subrange(from as int, i as int));
    }
    out
}

/// Decodes an instruction: the instruction whose layout the bytes are,
/// or `None` where no instruction has these bytes.
pub fn decode_instruction(data: &[u8]) -> (r: Option<EscrowInstruction>)
    ensures
        r matches Some(i) ==> instruction_bytes(i) == data@ && encodable(i),
        r is None ==> no_instruction_has(data@),
{
    proof {
        lemma_auto_spec_u64_to_from_le_bytes();
        lemma_auto_spec_u32_to_from_le_bytes();
    }
    let n = data.len();
    if n == 0 {
        proof {
            assert forall|i: EscrowInstruction| encodable(i) implies instruction_bytes(i) != data@ by {
                lemma_instruction_shape(i);
            }
        }
        return None;
    }
    let tag = data[0];
    if tag == 1 || tag == 3 {
        if n != 1 {
            proof {
                assert forall|i: EscrowInstruction| encodable(i) implies instruction_bytes(i) != data@ by {
                    lemma_instruction_shape(i);
                }
            }
            return None;
        }
        let i = if tag == 1 { EscrowInstruction::DepositTokens } else { EscrowInstruction::CancelListing };
        proof {
            assert(instruction_bytes(i) =~= data@);
        }
        return Some(i);
    }
    if tag == 2 {
        if n != 9 {
            proof {
                assert forall|i: EscrowInstruction| encodable(i) implies instruction_bytes(i) != data@ by {
                    lemma_instruction_shape(i);
                }
            }
            return None;
        }
        let quantity = read_u64(data, 1);
        let i = EscrowInstruction::Purchase { quantity };
        proof {
            assert(data@ =~= seq![2u8] + data@.subrange(1, 9));
        }
        return Some(i);
    }
    if tag != 0 || n < 28 || data[25] > 1 || data[27] > 1 {
        proof {
            assert forall|i: EscrowInstruction| encodable(i) implies instruction_bytes(i) != data@ by {
                lemma_instruction_shape(i);
            }
        }
        return None;
    }
    let listing_id = read_u64(data, 1);
    let price_per_token = read_u64(data, 9);
    let quantity = read_u64(data, 17);
    let allow_partial = data[25] == 1;
    let fee_payment_method = data[26];
    let x402_payload = if data[27] == 0 {
        if n != 28 {
            proof {
                assert forall|i: EscrowInstruction| encodable(i) implies instruction_bytes(i) != data@ by {
                    lemma_instruction_shape(i);
                }
            }
            return None;
        }
        None
    } else {
        if n < 32 {
            proof {
                assert forall|i: EscrowInstruction| encodable(i) implies instruction_bytes(i) != data@ by {
                    lemma_instruction_shape(i);
                }
            }
            return None;
        }
        let len = u32_from_le_bytes(slice_subrange(data, 28, 32));
        if (n - 32) as u64 != len as u64 {
            proof {
                assert forall|i: EscrowInstruction| encodable(i) implies instruction_bytes(i) != data@ by {
                    lemma_instruction_shape(i);
                }
            }
            return None;
        }
        let text = copy_bytes(data, 32);
        match string_from_utf8(text) {
            Some(s) => Some(s),
            None => {
                proof {
                    assert forall|i: EscrowInstruction| encodable(i) implies instruction_bytes(i) != data@ by {
                        lemma_instruction_shape(i);
                    }
                }
                return None;
            },
        }
    };
    let ghost payload = x402_payload;
    let i = EscrowInstruction::InitializeListing {
        listing_id,
        price_per_token,
        quantity,
        allow_partial,
        fee_payment_method,
        x402_payload,
    };
    proof {
        let d = data@;
        let head = seq![0u8] + d.subrange(1, 9) + d.subrange(9, 17) + d.subrange(17, 25) + seq![d[25], d[26]];
        match payload {
            None => {
                assert(d =~= head + seq![0u8]);
            },
            Some(s) => {
                assert(encode_utf8(s@) == d.subrange(32, d.len() as int));
                assert(spec_u32_to_le_bytes(encode_utf8(s@).len() as u32) == d.subrange(28, 32));
                assert(d =~= head + (seq![1u8] + d.subrange(28, 32) + d.subrange(32, d.len() as int)));
            },
        }
        assert(instruction_bytes(i) =~= d);
    }
    Some(i)
}

} // verus!
