use vstd::prelude::*;

verus! {

/// Every way a transition can fail.
#[derive(Debug, Clone, Copy, PartialEq, Eq, Structural)]
pub enum LoanError {
    Unauthorized,
    ProgramPaused,
    UserAlreadyRegistered,
    UserNotFound,
    InvalidLoanAmount,
    InvalidInterestRate,
    InvalidTenure,
    ActiveLoanExists,
    LoanNotFound,
    LoanNotActive,
    InvalidPaymentAmount,
    InvalidInstallmentNumber,
    InstallmentAlreadyPaid,
    LoanAlreadyCompleted,
    LoanAlreadyDefaulted,
    InsufficientPayment,
    PaymentTooEarly,
    InvalidRiskScore,
    InvalidDefaultProbability,
    MathOverflow,
    NameTooLong,
    InvalidStringFormat,
    LowCreditScore,
    HighRiskUser,
    IncomeTooLow,
}

} // verus!
