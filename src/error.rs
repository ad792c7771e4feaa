use vstd::prelude::*;

verus! {

/// Failures that belong to the vault's own rules. Each carries a stable
/// numeric code, reported to the ledger as a custom program error.
#[derive(Clone, Copy, Debug, PartialEq, Eq, Structural)]
pub enum CustomError {
    IncorrectPdaKey,
    AlreadyInitialized,
    NotInitialized,
    DoesNotSupportMint,
    InvalidTokenAccount,
    InvalidAmount,
    InsufficientFunds,
}

impl CustomError {
    pub open spec fn spec_code(self) -> u32 {
        match self {
            CustomError::IncorrectPdaKey => 0,
            CustomError::AlreadyInitialized => 1,
            CustomError::NotInitialized => 2,
            CustomError::DoesNotSupportMint => 3,
            CustomError::InvalidTokenAccount => 4,
            CustomError::InvalidAmount => 5,
            CustomError::InsufficientFunds => 6,
        }
    }

    /// The numeric code of this error, in declaration order.
    pub fn code(&self) -> (r: u32)
        ensures
            r == self.spec_code(),
    {
        match self {
            CustomError::IncorrectPdaKey => 0,
            CustomError::AlreadyInitialized => 1,
            CustomError::NotInitialized => 2,
            CustomError::DoesNotSupportMint => 3,
            CustomError::InvalidTokenAccount => 4,
            CustomError::InvalidAmount => 5,
            CustomError::InsufficientFunds => 6,
        }
    }
}

/// Every way a request to the vault can be rejected.
#[derive(Clone, Copy, Debug, PartialEq, Eq, Structural)]
pub enum VaultError {
    /// A rule of the vault itself was broken.
    Custom(CustomError),
    /// The request named the wrong program.
    IncorrectProgramId,
    /// The command bytes carry an unknown tag or a payload of the wrong length.
    InvalidInstructionData,
    /// Fewer accounts were passed than the command reads.
    NotEnoughAccountKeys,
    /// The authority account did not sign the request.
    MissingRequiredSignature,
    /// The signing authority is not the one stored in the vault record.
    Unauthorized,
    /// The vault region does not start with the vault record's discriminator.
    TypeMismatch,
    /// The vault region has the wrong length for a vault record.
    Corrupt,
    /// No bump yields a program address for the vault seed.
    AddressUnavailable,
    /// The vault's token account bytes are not a token account.
    InvalidAccountData,
    /// The vault's token account has not been initialized.
    UninitializedAccount,
}

} // verus!
