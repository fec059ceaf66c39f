use vstd::prelude::*;

verus! {

/// Failures specific to the escrow program, reported to the ledger as custom codes.
#[derive(Debug, Clone, Copy, PartialEq, Eq, Structural)]
pub enum EscrowError {
    /// The operation bytes could not be decoded.
    InvalidInstruction,
    /// The escrow storage slot holds fewer lamports than the rent-exemption minimum.
    NotRentExempt,
    /// No live escrow record is stored in the slot.
    AccountNotInitialized,
    /// The operation bytes are malformed.
    InvalidInstructionData,
    /// The claimed amount differs from the custodial balance.
    ExpectedAmountMismatch,
    /// Native-currency accounting would overflow.
    AmountOverflow,
}

impl EscrowError {
    /// The custom error code under which the ledger reports this failure.
    pub open spec fn spec_code(self) -> u32 {
        match self {
            EscrowError::InvalidInstruction => 0,
            EscrowError::NotRentExempt => 1,
            EscrowError::AccountNotInitialized => 2,
            EscrowError::InvalidInstructionData => 3,
            EscrowError::ExpectedAmountMismatch => 4,
            EscrowError::AmountOverflow => 5,
        }
    }

    /// The custom error code under which the ledger reports this failure.
    pub fn code(&self) -> (r: u32)
        ensures
            r == self.spec_code(),
    {
        match self {
            EscrowError::InvalidInstruction => 0,
            EscrowError::NotRentExempt => 1,
            EscrowError::AccountNotInitialized => 2,
            EscrowError::InvalidInstructionData => 3,
            EscrowError::ExpectedAmountMismatch => 4,
            EscrowError::AmountOverflow => 5,
        }
    }
}

/// Why a call to the processor was rejected: a generic ledger failure or an escrow one.
#[derive(Debug, Clone, Copy, PartialEq, Eq, Structural)]
pub enum ProcessError {
    /// A party that must authorize the call did not sign it.
    MissingRequiredSignature,
    /// An account is not owned by, or is not, the expected program.
    IncorrectProgramId,
    /// The escrow storage slot already holds a live record.
    AccountAlreadyInitialized,
    /// A token account has not been initialized by the token ledger.
    UninitializedAccount,
    /// Account data is malformed or does not match the recorded escrow.
    InvalidAccountData,
    /// Fewer accounts were supplied than the operation needs.
    NotEnoughAccountKeys,
    /// The rent parameters of the ledger could not be read.
    InvalidArgument,
    /// No custodial identity can be derived for this program.
    InvalidSeeds,
    /// A failure specific to the escrow program.
    Escrow(EscrowError),
}

} // verus!
