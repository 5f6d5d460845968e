use vstd::prelude::*;

verus! {

/// Failures that are specific to the escrow program.
#[derive(Debug, Copy, Clone, PartialEq, Eq, Structural)]
pub enum EscrowError {
    /// The instruction buffer is empty, too short, or carries an unknown tag.
    InvalidInstruction,
    /// The escrow account does not hold enough lamports to be rent-exempt.
    NotRentExempt,
}

impl EscrowError {
    /// The stable numeric code under which the error reaches the host.
    pub open spec fn spec_code(self) -> u32 {
        match self {
            EscrowError::InvalidInstruction => 0,
            EscrowError::NotRentExempt => 1,
        }
    }

    pub fn code(&self) -> (r: u32)
        ensures
            r == self.spec_code(),
    {
        match self {
            EscrowError::InvalidInstruction => 0,
            EscrowError::NotRentExempt => 1,
        }
    }

    /// A short human-readable description.
    pub fn message(&self) -> (r: &'static str)
        ensures
            *self == EscrowError::InvalidInstruction ==> r@ == "Invalid Instruction"@,
            *self == EscrowError::NotRentExempt ==> r@ == "Not enough lamports to exempt rent"@,
    {
        match self {
            EscrowError::InvalidInstruction => "Invalid Instruction",
            EscrowError::NotRentExempt => "Not enough lamports to exempt rent",
        }
    }
}

/// The host's generic error channel, restricted to the conditions that this
/// program reports. Program-specific failures travel as `Custom(code)`.
#[derive(Debug, Copy, Clone, PartialEq, Eq, Structural)]
pub enum ProgramError {
    Custom(u32),
    InvalidArgument,
    InvalidAccountData,
    IncorrectProgramId,
    MissingRequiredSignature,
    AccountAlreadyInitialized,
    NotEnoughAccountKeys,
    InvalidSeeds,
}

/// The host error that an escrow error is reported as.
pub open spec fn program_error_of(e: EscrowError) -> ProgramError {
    ProgramError::Custom(e.spec_code())
}

impl From<EscrowError> for ProgramError {
    fn from(err: EscrowError) -> (r: ProgramError) {
        ProgramError::Custom(err.code())
    }
}

impl vstd::std_specs::convert::FromSpecImpl<EscrowError> for ProgramError {
    open spec fn obeys_from_spec() -> bool {
        true
    }

    open spec fn from_spec(err: EscrowError) -> ProgramError {
        program_error_of(err)
    }
}

} // verus!
