use vstd::prelude::*;

verus! {

/// Errors raised by the staking program itself; each has a stable numeric code.
#[derive(Debug, Clone, Copy, PartialEq, Eq, Structural)]
pub enum StakingError {
    InvalidInstruction,
    NotRentExempt,
    NotInitialized,
    AlreadyInitialized,
    InvalidOwner,
    InvalidTokenAccount,
    InsufficientRewards,
    InvalidMint,
    InvalidPDA,
    InvalidTokenAccountOwner,
    LamportTransferOverflow,
    ArithmeticOverflow,
    InsufficientFunds,
}

impl StakingError {
    /// The numeric code of an error: its position in the declaration.
    pub open spec fn spec_code(self) -> u32 {
        match self {
            StakingError::InvalidInstruction => 0,
            StakingError::NotRentExempt => 1,
            StakingError::NotInitialized => 2,
            StakingError::AlreadyInitialized => 3,
            StakingError::InvalidOwner => 4,
            StakingError::InvalidTokenAccount => 5,
            StakingError::InsufficientRewards => 6,
            StakingError::InvalidMint => 7,
            StakingError::InvalidPDA => 8,
            StakingError::InvalidTokenAccountOwner => 9,
            StakingError::LamportTransferOverflow => 10,
            StakingError::ArithmeticOverflow => 11,
            StakingError::InsufficientFunds => 12,
        }
    }

    /// The numeric code surfaced to the caller for this error.
    pub fn code(&self) -> (r: u32)
        ensures
            r == self.spec_code(),
    {
        match self {
            StakingError::InvalidInstruction => 0,
            StakingError::NotRentExempt => 1,
            StakingError::NotInitialized => 2,
            StakingError::AlreadyInitialized => 3,
            StakingError::InvalidOwner => 4,
            StakingError::InvalidTokenAccount => 5,
            StakingError::InsufficientRewards => 6,
            StakingError::InvalidMint => 7,
            StakingError::InvalidPDA => 8,
            StakingError::InvalidTokenAccountOwner => 9,
            StakingError::LamportTransferOverflow => 10,
            StakingError::ArithmeticOverflow => 11,
            StakingError::InsufficientFunds => 12,
        }
    }

    /// A short human-readable description of the error.
    pub fn message(&self) -> (r: &'static str) {
        match self {
            StakingError::InvalidInstruction => "Invalid instruction",
            StakingError::NotRentExempt => "Account not rent exempt",
            StakingError::NotInitialized => "Account not initialized",
            StakingError::AlreadyInitialized => "Account already initialized",
            StakingError::InvalidOwner => "Invalid account owner",
            StakingError::InvalidTokenAccount => "Invalid token account",
            StakingError::InsufficientRewards => "Insufficient rewards available",
            StakingError::InvalidMint => "Invalid mint",
            StakingError::InvalidPDA => "Invalid PDA",
            StakingError::InvalidTokenAccountOwner => "Invalid token account owner",
            StakingError::LamportTransferOverflow => "Lamport transfer calculation overflowed",
            StakingError::ArithmeticOverflow => "Arithmetic overflow",
            StakingError::InsufficientFunds => "Insufficient funds",
        }
    }
}

/// Failures surfaced by an instruction: the program's own errors, carried as
/// their numeric code, and the host's primitive errors that the program raises.
#[derive(Debug, Clone, Copy, PartialEq, Eq, Structural)]
pub enum ProgramError {
    Custom(u32),
    InvalidAccountData,
    InvalidSeeds,
    MissingRequiredSignature,
    NotEnoughAccountKeys,
}

/// The host-level failure that carries a program error.
pub open spec fn custom(e: StakingError) -> ProgramError {
    ProgramError::Custom(e.spec_code())
}

impl From<StakingError> for ProgramError {
    fn from(e: StakingError) -> (r: ProgramError) {
        ProgramError::Custom(e.code())
    }
}

impl vstd::std_specs::convert::FromSpecImpl<StakingError> for ProgramError {
    open spec fn obeys_from_spec() -> bool {
        true
    }

    open spec fn from_spec(e: StakingError) -> ProgramError {
        custom(e)
    }
}

impl StakingError {
    /// Wraps this error as the host-level failure that carries its code.
    pub fn to_program_error(self) -> (r: ProgramError)
        ensures
            r == custom(self),
    {
        ProgramError::Custom(self.code())
    }
}

} // verus!
