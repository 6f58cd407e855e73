//! Error conditions of the program: the domain errors, and the broader fault
//! type that an operation surfaces to its caller.

use vstd::prelude::*;

verus! {

/// Domain error conditions of the affiliate-marketing program. `code` gives
/// the numeric value each condition is reported under.
#[derive(Clone, Copy, PartialEq, Eq, Structural, Debug)]
pub enum CandyMachineAffiliatesError {
    ActionNotAllowed,
    UninitializedAccount,
    InvalidPDA,
    InvalidDataLength,
    AmountOverflow,
    ProjectTitleTooLong,
    InvalidProjectMaxAffiliateCount,
    ProjectMaxAffiliateCountReached,
    ProjectAffiliateCountLargerThanNewMaxAffiliateCount,
    IncorrectTreasuryAccount,
    RewardRedeemMismatchedAccounts,
    AffiliateAccountBalanceNotEnough,
}

impl CandyMachineAffiliatesError {
    pub open spec fn spec_code(self) -> u32 {
        match self {
            CandyMachineAffiliatesError::ActionNotAllowed => 0,
            CandyMachineAffiliatesError::UninitializedAccount => 1,
            CandyMachineAffiliatesError::InvalidPDA => 2,
            CandyMachineAffiliatesError::InvalidDataLength => 3,
            CandyMachineAffiliatesError::AmountOverflow => 4,
            CandyMachineAffiliatesError::ProjectTitleTooLong => 5,
            CandyMachineAffiliatesError::InvalidProjectMaxAffiliateCount => 6,
            CandyMachineAffiliatesError::ProjectMaxAffiliateCountReached => 7,
            CandyMachineAffiliatesError::ProjectAffiliateCountLargerThanNewMaxAffiliateCount => 8,
            CandyMachineAffiliatesError::IncorrectTreasuryAccount => 9,
            CandyMachineAffiliatesError::RewardRedeemMismatchedAccounts => 10,
            CandyMachineAffiliatesError::AffiliateAccountBalanceNotEnough => 11,
        }
    }

    /// The numeric code this condition is reported under.
    pub fn code(&self) -> (r: u32)
        ensures
            r == self.spec_code(),
    {
        match self {
            CandyMachineAffiliatesError::ActionNotAllowed => 0,
            CandyMachineAffiliatesError::UninitializedAccount => 1,
            CandyMachineAffiliatesError::InvalidPDA => 2,
            CandyMachineAffiliatesError::InvalidDataLength => 3,
            CandyMachineAffiliatesError::AmountOverflow => 4,
            CandyMachineAffiliatesError::ProjectTitleTooLong => 5,
            CandyMachineAffiliatesError::InvalidProjectMaxAffiliateCount => 6,
            CandyMachineAffiliatesError::ProjectMaxAffiliateCountReached => 7,
            CandyMachineAffiliatesError::ProjectAffiliateCountLargerThanNewMaxAffiliateCount => 8,
            CandyMachineAffiliatesError::IncorrectTreasuryAccount => 9,
            CandyMachineAffiliatesError::RewardRedeemMismatchedAccounts => 10,
            CandyMachineAffiliatesError::AffiliateAccountBalanceNotEnough => 11,
        }
    }
}

/// What an operation reports when it refuses to act: either a condition of
/// the surrounding ledger runtime (missing signature, foreign owner, a slot
/// already in use) or a domain error of this program.
#[derive(Clone, Copy, PartialEq, Eq, Structural, Debug)]
pub enum ProgramFault {
    MissingRequiredSignature,
    IllegalOwner,
    IncorrectProgramId,
    NotEnoughAccountKeys,
    AccountAlreadyInitialized,
    AccountAlreadyInUse,
    InsufficientFunds,
    InvalidInstructionData,
    InvalidAccountData,
    AccountDataTooSmall,
    Custom(CandyMachineAffiliatesError),
}

impl From<CandyMachineAffiliatesError> for ProgramFault {
    fn from(e: CandyMachineAffiliatesError) -> (r: ProgramFault) {
        ProgramFault::Custom(e)
    }
}

impl vstd::std_specs::convert::FromSpecImpl<CandyMachineAffiliatesError> for ProgramFault {
    open spec fn obeys_from_spec() -> bool {
        true
    }

    open spec fn from_spec(e: CandyMachineAffiliatesError) -> ProgramFault {
        ProgramFault::Custom(e)
    }
}

} // verus!
