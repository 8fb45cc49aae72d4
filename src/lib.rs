//! Custodial escrow for over-the-counter token listings.
//!
//! A seller lists a quantity of a base asset at a fixed price in a quote
//! asset; a vault controlled by a key-less derived address holds the tokens
//! until buyers purchase them or the seller cancels. This crate holds the
//! listing state machine, the custody-address derivation, the fee and
//! payment-proof rules and the account checks, each with its contract.
//! Reading accounts, decoding instructions and invoking the token program
//! are left to the host glue.

pub mod types;
pub mod error;
pub mod listing;
pub mod codec;
pub mod accounts;
pub mod checks;
pub mod host;
pub mod fees;
pub mod authority;
pub mod transfer;
pub mod machine;
pub mod laws;
pub mod instruction;
pub mod wire;
