//! Domain events: one per successful transition, carrying what an external
//! indexer needs.
use vstd::prelude::*;

use crate::state::{Address, EmploymentType, RiskLevel};

verus! {

#[derive(Clone, Debug)]
pub struct UserRegistered {
    pub user: Address,
    pub full_name: String,
    pub monthly_income: u64,
    pub employment_type: EmploymentType,
    pub timestamp: i64,
}

#[derive(Clone, Copy, Debug)]
pub struct LoanCreated {
    pub loan_id: u64,
    pub user: Address,
    pub principal_amount: u64,
    pub interest_rate: u16,
    pub tenure_months: u8,
    pub monthly_installment: u64,
    pub total_amount: u64,
    pub start_timestamp: i64,
    pub end_timestamp: i64,
}

#[derive(Clone, Copy, Debug)]
pub struct PaymentRecorded {
    pub loan: Address,
    pub user: Address,
    pub installment_number: u8,
    pub amount: u64,
    pub fine_amount: u64,
    pub payment_timestamp: i64,
    pub on_time: bool,
    pub days_late: u16,
}

#[derive(Clone, Copy, Debug)]
pub struct RiskScoreUpdated {
    pub user: Address,
    pub old_score: u16,
    pub new_score: u16,
    pub risk_level: RiskLevel,
    pub default_probability: u16,
    pub timestamp: i64,
}

#[derive(Clone, Copy, Debug)]
pub struct LoanDefaulted {
    pub loan_id: u64,
    pub user: Address,
    pub outstanding_balance: u64,
    pub total_fines: u64,
    pub defaulted_timestamp: i64,
}

#[derive(Clone, Copy, Debug)]
pub struct LoanCompleted {
    pub loan_id: u64,
    pub user: Address,
    pub total_repaid: u64,
    pub completed_timestamp: i64,
}

#[derive(Clone, Copy, Debug)]
pub struct FineWaived {
    pub loan: Address,
    pub user: Address,
    pub installment_number: u8,
    pub waived_amount: u64,
    pub waived_by: Address,
    pub timestamp: i64,
}

} // verus!
