use vstd::prelude::*;

verus! {

/// Why an operation on a pool or a schedule was refused.
#[derive(Clone, Copy, Debug, PartialEq, Eq, Structural)]
pub enum ErrorCode {
    /// The claim came before the cliff.
    ClaimNotAvailableYet,
    /// Everything vested so far has been withdrawn already.
    NothingToClaim,
    /// The schedule ends no later than it starts.
    InvalidVestingPeriod,
    /// The vested amount cannot be computed in 64 bits.
    CalculationOverflow,
    /// A pool is already stored under the company name.
    DuplicatePool,
    /// The caller does not own the pool.
    Unauthorized,
}

impl ErrorCode {
    /// The characters of the text that explains the error to a user.
    pub open spec fn message_text(self) -> Seq<char> {
        match self {
            ErrorCode::ClaimNotAvailableYet => "Claiming is not available yet."@,
            ErrorCode::NothingToClaim => "There is nothing to claim."@,
            ErrorCode::InvalidVestingPeriod => "Invalid vesting period."@,
            ErrorCode::CalculationOverflow => "Calculation overflow."@,
            ErrorCode::DuplicatePool => "A vesting account already exists for this company."@,
            ErrorCode::Unauthorized => "Only the owner of the vesting account may do this."@,
        }
    }

    /// The text that explains the error to a user.
    pub fn message(&self) -> (text: &'static str)
        ensures
            text@ == self.message_text(),
    {
        match self {
            ErrorCode::ClaimNotAvailableYet => "Claiming is not available yet.",
            ErrorCode::NothingToClaim => "There is nothing to claim.",
            ErrorCode::InvalidVestingPeriod => "Invalid vesting period.",
            ErrorCode::CalculationOverflow => "Calculation overflow.",
            ErrorCode::DuplicatePool => "A vesting account already exists for this company.",
            ErrorCode::Unauthorized => "Only the owner of the vesting account may do this.",
        }
    }
}

} // verus!
