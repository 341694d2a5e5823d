//! Credit-score adjustments and risk-tier lending limits.
use vstd::prelude::*;

use crate::amortization::MAX_PRINCIPAL;
use crate::errors::LoanError;
use crate::state::RiskLevel;

verus! {

/// Lowest credit score that behaviour-driven adjustments leave a borrower with.
pub const MIN_CREDIT_SCORE: u16 = 300;

/// Highest credit score that behaviour-driven adjustments leave a borrower with.
pub const MAX_CREDIT_SCORE: u16 = 850;

/// Score of a newly registered borrower.
pub const INITIAL_CREDIT_SCORE: u16 = 500;

pub const ON_TIME_PAYMENT_BONUS: u16 = 2;

pub const LATE_PAYMENT_PENALTY: u16 = 5;

pub const LOAN_COMPLETION_BONUS: u16 = 20;

pub const LOAN_DEFAULT_PENALTY: u16 = 100;

/// Highest score an administrator may assign in a risk assessment.
pub const MAX_RISK_SCORE: u16 = 1000;

/// Highest default probability, in basis points.
pub const MAX_DEFAULT_PROBABILITY: u16 = 10_000;

pub open spec fn min_int(a: int, b: int) -> int {
    if a <= b { a } else { b }
}

pub open spec fn max_int(a: int, b: int) -> int {
    if a >= b { a } else { b }
}

/// A score raised by `bonus`, clamped at the ceiling.
pub open spec fn raised_score(score: u16, bonus: u16) -> int {
    min_int(score + bonus, MAX_CREDIT_SCORE as int)
}

/// A score lowered by `penalty`, clamped at the floor.
pub open spec fn lowered_score(score: u16, penalty: u16) -> int {
    max_int(score - penalty, MIN_CREDIT_SCORE as int)
}

pub open spec fn in_score_bounds(score: u16) -> bool {
    MIN_CREDIT_SCORE <= score <= MAX_CREDIT_SCORE
}

fn raise_score(score: u16, bonus: u16) -> (r: u16)
    ensures
        r == raised_score(score, bonus),
{
    let raised = score.saturating_add(bonus);
    if raised > MAX_CREDIT_SCORE {
        MAX_CREDIT_SCORE
    } else {
        raised
    }
}

fn lower_score(score: u16, penalty: u16) -> (r: u16)
    ensures
        r == lowered_score(score, penalty),
{
    let lowered = score.saturating_sub(penalty);
    if lowered < MIN_CREDIT_SCORE {
        MIN_CREDIT_SCORE
    } else {
        lowered
    }
}

/// Score after one installment paid: nudged up when on time, down when late.
pub open spec fn score_after_payment(score: u16, on_time: bool) -> int {
    if on_time {
        raised_score(score, ON_TIME_PAYMENT_BONUS)
    } else {
        lowered_score(score, LATE_PAYMENT_PENALTY)
    }
}

pub fn apply_payment_outcome(score: u16, on_time: bool) -> (r: u16)
    ensures
        r == score_after_payment(score, on_time),
{
    if on_time {
        raise_score(score, ON_TIME_PAYMENT_BONUS)
    } else {
        lower_score(score, LATE_PAYMENT_PENALTY)
    }
}

/// Score after a loan is repaid in full.
pub fn apply_completion(score: u16) -> (r: u16)
    ensures
        r == raised_score(score, LOAN_COMPLETION_BONUS),
{
    raise_score(score, LOAN_COMPLETION_BONUS)
}

/// Score after a loan is written off as defaulted.
pub fn apply_default(score: u16) -> (r: u16)
    ensures
        r == lowered_score(score, LOAN_DEFAULT_PENALTY),
{
    lower_score(score, LOAN_DEFAULT_PENALTY)
}

/// Months of income that a borrower of each risk tier may borrow.
pub open spec fn multiplier_of(level: RiskLevel) -> int {
    match level {
        RiskLevel::Low => 10,
        RiskLevel::Medium => 6,
        RiskLevel::High => 3,
        RiskLevel::Critical => 1,
    }
}

pub fn income_multiplier(level: RiskLevel) -> (r: u64)
    ensures
        r == multiplier_of(level),
{
    match level {
        RiskLevel::Low => 10,
        RiskLevel::Medium => 6,
        RiskLevel::High => 3,
        RiskLevel::Critical => 1,
    }
}

/// Lending limit for a borrower: income times the tier's multiplier, never
/// above the largest principal the program lends.
pub open spec fn max_loan_of(monthly_income: u64, level: RiskLevel) -> int {
    min_int(monthly_income * multiplier_of(level), MAX_PRINCIPAL as int)
}

pub fn recommended_max_loan(monthly_income: u64, level: RiskLevel) -> (r: Result<u64, LoanError>)
    ensures
        r is Ok <==> monthly_income * multiplier_of(level) <= u64::MAX,
        r matches Ok(limit) ==> limit == max_loan_of(monthly_income, level),
        r matches Err(e) ==> e == LoanError::MathOverflow,
{
    match monthly_income.checked_mul(income_multiplier(level)) {
        Some(limit) => {
            if limit > MAX_PRINCIPAL {
                Ok(MAX_PRINCIPAL)
            } else {
                Ok(limit)
            }
        },
        None => Err(LoanError::MathOverflow),
    }
}

} // verus!
