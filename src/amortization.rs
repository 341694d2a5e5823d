//! Loan terms: the bounds on what may be borrowed, and the repayment totals
//! that follow from a monthly installment.
use vstd::prelude::*;

use crate::errors::LoanError;

verus! {

/// Smallest principal that may be borrowed, in base units.
pub const MIN_PRINCIPAL: u64 = 5_000_000_000;

/// Largest principal that may be borrowed, in base units.
pub const MAX_PRINCIPAL: u64 = 500_000_000_000;

/// Highest annual interest rate, in hundredths of a percent.
pub const MAX_INTEREST_RATE: u16 = 3000;

pub const MIN_TENURE_MONTHS: u8 = 3;

pub const MAX_TENURE_MONTHS: u8 = 60;

/// Length of a loan month: a fixed thirty days.
pub const SECONDS_PER_MONTH: i64 = 2_592_000;

pub open spec fn valid_principal(principal: u64) -> bool {
    MIN_PRINCIPAL <= principal <= MAX_PRINCIPAL
}

pub open spec fn valid_interest_rate(rate: u16) -> bool {
    0 < rate <= MAX_INTEREST_RATE
}

pub open spec fn valid_tenure(tenure_months: u8) -> bool {
    MIN_TENURE_MONTHS <= tenure_months <= MAX_TENURE_MONTHS
}

/// The first of the three term checks that fails, if any.
pub open spec fn terms_error(principal: u64, rate: u16, tenure_months: u8) -> Option<LoanError> {
    if !valid_principal(principal) {
        Some(LoanError::InvalidLoanAmount)
    } else if !valid_interest_rate(rate) {
        Some(LoanError::InvalidInterestRate)
    } else if !valid_tenure(tenure_months) {
        Some(LoanError::InvalidTenure)
    } else {
        None
    }
}

/// Checks principal, annual rate and tenure against their bounds, in that order.
pub fn validate_terms(principal: u64, rate: u16, tenure_months: u8) -> (r: Result<(), LoanError>)
    ensures
        r is Ok <==> terms_error(principal, rate, tenure_months) is None,
        r is Err ==> terms_error(principal, rate, tenure_months) == Some(r->Err_0),
{
    if !(principal >= MIN_PRINCIPAL && principal <= MAX_PRINCIPAL) {
        Err(LoanError::InvalidLoanAmount)
    } else if !(rate > 0 && rate <= MAX_INTEREST_RATE) {
        Err(LoanError::InvalidInterestRate)
    } else if !(tenure_months >= MIN_TENURE_MONTHS && tenure_months <= MAX_TENURE_MONTHS) {
        Err(LoanError::InvalidTenure)
    } else {
        Ok(())
    }
}

/// Total repayment of a loan: the installment paid in every month of the tenure.
pub fn total_repayment(monthly_installment: u64, tenure_months: u8) -> (r: Result<u64, LoanError>)
    ensures
        r is Ok <==> monthly_installment * tenure_months <= u64::MAX,
        r matches Ok(total) ==> total == monthly_installment * tenure_months,
        r matches Err(e) ==> e == LoanError::MathOverflow,
{
    match monthly_installment.checked_mul(tenure_months as u64) {
        Some(total) => Ok(total),
        None => Err(LoanError::MathOverflow),
    }
}

/// Timestamp at which the last month of the tenure ends.
pub open spec fn end_of_term(start_timestamp: i64, tenure_months: u8) -> int {
    start_timestamp + tenure_months * SECONDS_PER_MONTH
}

pub fn loan_end_timestamp(start_timestamp: i64, tenure_months: u8) -> (r: Result<i64, LoanError>)
    ensures
        r is Ok <==> end_of_term(start_timestamp, tenure_months) <= i64::MAX,
        r matches Ok(end) ==> end == end_of_term(start_timestamp, tenure_months),
        r matches Err(e) ==> e == LoanError::MathOverflow,
{
    let span: i64 = (tenure_months as i64) * SECONDS_PER_MONTH;
    match start_timestamp.checked_add(span) {
        Some(end) => Ok(end),
        None => Err(LoanError::MathOverflow),
    }
}

} // verus!
