use vstd::prelude::*;

use crate::types::{Address, FeePaymentMethod, ListingStatus};

verus! {

/// The persistent record of one listing.
#[derive(Clone, Copy, Debug)]
pub struct Listing {
    /// The identity that created the listing and receives the proceeds.
    pub seller: Address,
    /// The asset being sold.
    pub base_mint: Address,
    /// The asset accepted as payment.
    pub quote_mint: Address,
    /// The derived custody address that controls the vault.
    pub vault_authority: Address,
    /// Quote units per base unit, before decimals.
    pub price_per_token: u64,
    /// Base units offered in total.
    pub quantity: u64,
    /// Base units sold so far.
    pub filled: u64,
    /// Identifier chosen by the seller; part of the custody seed.
    pub listing_id: u64,
    /// Bit 0: partial fills allowed.
    pub flags: u8,
    /// Adjustment value that makes the custody derivation reproducible.
    pub vault_bump: u8,
    /// Lifecycle state.
    pub status: ListingStatus,
    /// Decimal scale of the base asset, read once at creation.
    pub base_decimals: u8,
    /// How the listing fee is paid.
    pub fee_payment_method: FeePaymentMethod,
    /// The fee computed at creation.
    pub fee_amount_paid: u64,
    /// Digest of the payment proof; all zero when none was given.
    pub x402_payload_hash: [u8; 32],
}

/// Whether bit 0 of the flags is set.
pub open spec fn flags_allow_partial(flags: u8) -> bool {
    flags % 2 == 1
}

impl Listing {
    /// The invariant of every stored listing: no more sold than offered.
    pub open spec fn wf(&self) -> bool {
        self.filled <= self.quantity
    }

    /// Base units still offered.
    pub open spec fn remaining_spec(&self) -> int {
        if self.filled <= self.quantity {
            self.quantity - self.filled
        } else {
            0
        }
    }

    /// Whether partial fills are allowed.
    pub fn allow_partial(&self) -> (r: bool)
        ensures
            r == flags_allow_partial(self.flags),
    {
        let flags: u8 = self.flags;
        let bit: u8 = flags & 1;
        assert(flags & 1 == flags % 2) by (bit_vector);
        bit == 1
    }

    /// Base units still offered: `quantity - filled`, never below zero.
    pub fn remaining(&self) -> (r: u64)
        ensures
            r == self.remaining_spec(),
    {
        self.quantity.saturating_sub(self.filled)
    }

    /// The lifecycle state.
    pub fn status(&self) -> (r: ListingStatus)
        ensures
            r == self.status,
    {
        self.status
    }

    /// Sets the lifecycle state, leaving every other field as it was.
    pub fn set_status(&mut self, status: ListingStatus)
        ensures
            *final(self) == (Listing { status, ..*old(self) }),
    {
        self.status = status;
    }
}

} // verus!
