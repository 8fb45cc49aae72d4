use vstd::prelude::*;

verus! {

/// Failures specific to the escrow rules, each with a stable code.
#[derive(Clone, Copy, Debug, PartialEq, Eq, Structural)]
pub enum EscrowError {
    /// Instruction or record bytes could not be decoded, or a code is unknown.
    InvalidInstructionData,
    /// The listing record is shorter than its fixed layout.
    AccountLengthMismatch,
    /// The listing record was initialised before.
    AlreadyInitialized,
    /// An account does not have the expected owner or derived address.
    IncorrectAuthority,
    /// The listing is not in a state that allows the operation.
    InvalidListingStatus,
    /// An amount is zero where it may not be, or does not fit its field.
    AmountOverflow,
    /// A token account holds another asset than expected.
    MintMismatch,
    /// Fewer tokens remain than were asked for.
    InsufficientQuantity,
    /// The listing must be bought whole.
    PartialFillDisabled,
    /// The payment proof is missing or empty.
    InvalidX402Proof,
    /// The payment proof is for another amount.
    X402AmountMismatch,
}

/// The stable numeric code of an escrow error.
pub open spec fn escrow_error_code(e: EscrowError) -> u32 {
    match e {
        EscrowError::InvalidInstructionData => 0,
        EscrowError::AccountLengthMismatch => 1,
        EscrowError::AlreadyInitialized => 2,
        EscrowError::IncorrectAuthority => 3,
        EscrowError::InvalidListingStatus => 4,
        EscrowError::AmountOverflow => 5,
        EscrowError::MintMismatch => 6,
        EscrowError::InsufficientQuantity => 7,
        EscrowError::PartialFillDisabled => 8,
        EscrowError::InvalidX402Proof => 9,
        EscrowError::X402AmountMismatch => 10,
    }
}

impl EscrowError {
    /// The stable numeric code, in declaration order from 0.
    pub fn code(&self) -> (r: u32)
        ensures
            r == escrow_error_code(*self),
    {
        match self {
            EscrowError::InvalidInstructionData => 0,
            EscrowError::AccountLengthMismatch => 1,
            EscrowError::AlreadyInitialized => 2,
            EscrowError::IncorrectAuthority => 3,
            EscrowError::InvalidListingStatus => 4,
            EscrowError::AmountOverflow => 5,
            EscrowError::MintMismatch => 6,
            EscrowError::InsufficientQuantity => 7,
            EscrowError::PartialFillDisabled => 8,
            EscrowError::InvalidX402Proof => 9,
            EscrowError::X402AmountMismatch => 10,
        }
    }

    /// A short description of the failure.
    pub fn message(&self) -> (r: &'static str) {
        match self {
            EscrowError::InvalidInstructionData => "Invalid instruction data",
            EscrowError::AccountLengthMismatch => "Account length mismatch",
            EscrowError::AlreadyInitialized => "Listing already initialised",
            EscrowError::IncorrectAuthority => "Incorrect authority provided",
            EscrowError::InvalidListingStatus => "Invalid listing status for action",
            EscrowError::AmountOverflow => "Amount overflow or invalid quantity",
            EscrowError::MintMismatch => "Token mint mismatch",
            EscrowError::InsufficientQuantity => "Insufficient remaining quantity",
            EscrowError::PartialFillDisabled => "Partial fills disabled",
            EscrowError::InvalidX402Proof => "x402 payment proof missing or invalid",
            EscrowError::X402AmountMismatch => "x402 payment amount mismatch",
        }
    }
}

/// Why a handler refused an instruction: an escrow rule, or a condition
/// that the host platform reports with its own error.
#[derive(Clone, Copy, Debug, PartialEq, Eq, Structural)]
pub enum ProcessError {
    /// A rule of the escrow.
    Escrow(EscrowError),
    /// A required signer did not sign.
    MissingRequiredSignature,
    /// A source account holds too few tokens.
    InsufficientFunds,
    /// An account is not owned by the expected program.
    IncorrectProgramId,
    /// Account bytes do not hold the expected token-program record.
    InvalidAccountData,
    /// A token-program record is present but not initialised.
    UninitializedAccount,
    /// Fewer accounts were supplied than the instruction needs.
    NotEnoughAccountKeys,
    /// No derived address exists for the seeds.
    InvalidSeeds,
}

} // verus!
