//! The listing fee, the quote owed for a purchase, and the payment-proof commitment.
use vstd::prelude::*;
use vstd::utf8::encode_utf8;

use crate::error::EscrowError;
use crate::host::{keccak_digest, keccak_digest_of};

verus! {

/// Divisor of the trade value that gives the listing fee (one percent).
pub const FEE_DIVISOR: u128 = 100;

/// Largest decimal scale whose power of ten fits in 128 bits.
pub const MAX_DECIMALS: u8 = 38;

/// `10` to the power `n`.
pub open spec fn pow10(n: nat) -> nat
    decreases n,
{
    if n == 0 {
        1
    } else {
        10 * pow10((n - 1) as nat)
    }
}

/// The listing fee: one percent of `price * quantity`, rounded down.
pub open spec fn listing_fee_spec(price_per_token: u64, quantity: u64) -> int {
    (price_per_token as int * quantity as int) / 100
}

/// The quote owed for `quantity` base units: `quantity * price / 10^decimals`, rounded down.
pub open spec fn quote_amount_spec(quantity: u64, price_per_token: u64, decimals: u8) -> int {
    (quantity as int * price_per_token as int) / (pow10(decimals as nat) as int)
}

/// Whether a purchase of `quantity` has a payable quote: the scale has a
/// 128-bit power of ten and the quote is neither zero nor beyond 64 bits.
pub open spec fn quote_payable(quantity: u64, price_per_token: u64, decimals: u8) -> bool {
    decimals <= MAX_DECIMALS && 0 < quote_amount_spec(quantity, price_per_token, decimals) <= u64::MAX
}

proof fn lemma_pow10_positive(n: nat)
    ensures
        pow10(n) >= 1,
    decreases n,
{
    if n > 0 {
        lemma_pow10_positive((n - 1) as nat);
    }
}

proof fn lemma_pow10_monotone(m: nat, n: nat)
    requires
        m <= n,
    ensures
        pow10(m) <= pow10(n),
    decreases n,
{
    if m < n {
        lemma_pow10_monotone(m, (n - 1) as nat);
        lemma_pow10_positive((n - 1) as nat);
    }
}

proof fn lemma_pow10_fits_u128(n: nat)
    requires
        n <= 38,
    ensures
        pow10(n) <= u128::MAX,
{
    lemma_pow10_monotone(n, 38);
    reveal_with_fuel(pow10, 39);
    assert(pow10(38) == 100000000000000000000000000000000000000nat);
}

proof fn lemma_product_fits_u128(a: u64, b: u64)
    ensures
        0 <= a as int * b as int <= u128::MAX,
{
    assert(0 <= a as int * b as int <= 0xffff_ffff_ffff_ffffint * 0xffff_ffff_ffff_ffffint) by (nonlinear_arith)
        requires
            0 <= a <= 0xffff_ffff_ffff_ffffint,
            0 <= b <= 0xffff_ffff_ffff_ffffint,
    ;
}

/// `10^decimals` in 128 bits, or `None` where it does not fit.
pub fn decimals_factor(decimals: u8) -> (r: Option<u128>)
    ensures
        r is Some <==> decimals <= MAX_DECIMALS,
        r matches Some(f) ==> f == pow10(decimals as nat),
{
    if decimals > MAX_DECIMALS {
        return None;
    }
    let mut factor: u128 = 1;
    let mut i: u8 = 0;
    while i < decimals
        invariant
            i <= decimals <= 38,
            factor == pow10(i as nat),
        decreases decimals - i,
    {
        proof {
            lemma_pow10_fits_u128((i + 1) as nat);
        }
        factor = factor * 10;
        i = i + 1;
    }
    Some(factor)
}

/// The listing fee, one percent of the trade value, computed with a
/// 128-bit intermediate; `AmountOverflow` where it does not fit 64 bits.
pub fn listing_fee(price_per_token: u64, quantity: u64) -> (r: Result<u64, EscrowError>)
    ensures
        r is Ok <==> listing_fee_spec(price_per_token, quantity) <= u64::MAX,
        r matches Ok(fee) ==> fee == listing_fee_spec(price_per_token, quantity),
        r matches Err(e) ==> e == EscrowError::AmountOverflow,
{
    proof {
        lemma_product_fits_u128(price_per_token, quantity);
    }
    let trade_value: u128 = (price_per_token as u128) * (quantity as u128);
    let fee: u128 = trade_value / FEE_DIVISOR;
    if fee > u64::MAX as u128 {
        return Err(EscrowError::AmountOverflow);
    }
    Ok(fee as u64)
}

/// The quote owed for `quantity` base units at `price_per_token` with a
/// base asset of `decimals` places, rounded down; `AmountOverflow` where the
/// scale has no 128-bit power of ten or the quote is zero or beyond 64 bits.
pub fn quote_amount(quantity: u64, price_per_token: u64, decimals: u8) -> (r: Result<u64, EscrowError>)
    ensures
        r is Ok <==> quote_payable(quantity, price_per_token, decimals),
        r matches Ok(q) ==> q == quote_amount_spec(quantity, price_per_token, decimals),
        r matches Err(e) ==> e == EscrowError::AmountOverflow,
{
    let factor = match decimals_factor(decimals) {
        Some(f) => f,
        None => return Err(EscrowError::AmountOverflow),
    };
    proof {
        lemma_product_fits_u128(quantity, price_per_token);
        lemma_pow10_positive(decimals as nat);
    }
    let gross: u128 = (quantity as u128) * (price_per_token as u128);
    let quote: u128 = gross / factor;
    if quote == 0 || quote > u64::MAX as u128 {
        return Err(EscrowError::AmountOverflow);
    }
    Ok(quote as u64)
}

/// Checks a payment proof and returns the digest to store.
///
/// The proof is only required to be non-empty: nothing here checks it
/// against an actual payment of `_expected_amount`, which is left to a
/// future attestation step.
pub fn verify_x402_payment(payload: &str, _expected_amount: u64) -> (r: Result<[u8; 32], EscrowError>)
    ensures
        r is Err <==> encode_utf8(payload@).len() == 0,
        r matches Ok(h) ==> h@ == keccak_digest_of(encode_utf8(payload@)),
        r matches Err(e) ==> e == EscrowError::InvalidX402Proof,
{
    let bytes: &[u8] = payload.as_bytes();
    if bytes.len() == 0 {
        return Err(EscrowError::InvalidX402Proof);
    }
    Ok(keccak_digest(bytes))
}

} // verus!
