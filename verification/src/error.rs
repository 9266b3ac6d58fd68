use vstd::prelude::*;

verus! {

/// Why an instruction was refused.
#[derive(Clone, Copy, Debug, PartialEq, Eq, Structural)]
pub enum CharityError {
    NameTooLong,
    DescriptionTooLong,
    InvalidDeadline,
    DeadlinePassed,
    InvalidAmount,
    InsufficientFunds,
    PendingDonorFunds,
    Unauthorized,
    MathOverflow,
    CampaignTooNew,
}

impl CharityError {
    /// The human-readable message attached to each refusal.
    pub fn message(&self) -> (s: &'static str)
        ensures
            s@ == match *self {
                CharityError::NameTooLong => "Campaign name must be 50 characters or fewer"@,
                CharityError::DescriptionTooLong => "Campaign description must be 200 characters or fewer"@,
                CharityError::InvalidDeadline => "Deadline must be zero (no deadline) or in the future"@,
                CharityError::DeadlinePassed => "This campaign's deadline has passed"@,
                CharityError::InvalidAmount => "Amount must be greater than zero"@,
                CharityError::InsufficientFunds => "Campaign does not have enough withdrawable funds for this operation"@,
                CharityError::PendingDonorFunds => "Campaign still has donor funds that have not been withdrawn or refunded"@,
                CharityError::Unauthorized => "Signer is not authorized to perform this action"@,
                CharityError::MathOverflow => "Arithmetic overflow"@,
                CharityError::CampaignTooNew => "A campaign cannot be closed in the slot it was created in"@,
            },
    {
        match self {
            CharityError::NameTooLong => "Campaign name must be 50 characters or fewer",
            CharityError::DescriptionTooLong => "Campaign description must be 200 characters or fewer",
            CharityError::InvalidDeadline => "Deadline must be zero (no deadline) or in the future",
            CharityError::DeadlinePassed => "This campaign's deadline has passed",
            CharityError::InvalidAmount => "Amount must be greater than zero",
            CharityError::InsufficientFunds => "Campaign does not have enough withdrawable funds for this operation",
            CharityError::PendingDonorFunds => "Campaign still has donor funds that have not been withdrawn or refunded",
            CharityError::Unauthorized => "Signer is not authorized to perform this action",
            CharityError::MathOverflow => "Arithmetic overflow",
            CharityError::CampaignTooNew => "A campaign cannot be closed in the slot it was created in",
        }
    }
}

} // verus!
