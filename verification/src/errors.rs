use vstd::prelude::*;

verus! {

/// Every reason for which a call of one of the contracts is refused.
#[derive(Clone, Copy, Debug, PartialEq, Eq, Structural)]
pub enum KoraError {
    AlreadyInitialized,
    NotInitialized,
    NotAdmin,
    Unauthorized,
    ProtocolPaused,
    InvalidAmount,
    InvalidAddress,
    InvalidFeeRate,
    InvalidDueDate,
    InvalidLength,
    InvalidRiskScore,
    ArithmeticOverflow,
    ArithmeticUnderflow,
    TokenNotWhitelisted,
    ComplianceNotAttested,
    InvoiceAlreadyExists,
    InvoiceFrozen,
    ListingNotFound,
    ListingAlreadyCancelled,
    ListingFullyFunded,
    FundingDeadlinePassed,
    FundingNotExpired,
    ExceedsFundingTarget,
    CancellationPending,
    NoCancellationPending,
    RefundAlreadyClaimed,
    NoContribution,
    InsufficientFunds,
    NotVerifier,
    SMENotRegistered,
    DebtorNotRegistered,
    ScoreUpdateCooldownNotElapsed,
    NoUpgradeProposed,
    UpgradeTimelockNotElapsed,
    /// An error that a part of the protocol outside these contracts raised, by its code.
    Protocol(u32),
}

impl KoraError {
    /// `Ok` where a condition holds, and this error where it does not.
    pub open spec fn unless(self, condition: bool) -> Result<(), KoraError> {
        if condition {
            Ok(())
        } else {
            Err(self)
        }
    }
}

/// An error stands exactly where its condition fails.
pub proof fn error_stands_where_condition_fails(error: KoraError, condition: bool)
    ensures
        error.unless(condition) is Ok <==> condition,
        error.unless(condition) == Err::<(), KoraError>(error) <==> !condition,
{
}

} // verus!
