//! The transitions of the loan lifecycle. Each module holds the set of
//! records that its transition reads and writes, and the transition itself.
pub mod create_loan;
pub mod record_payment;
pub mod get_credit_score;
pub mod initialize;
pub mod register_user;
pub mod update_user_profile;
pub mod mark_loan_completed;
pub mod mark_loan_defaulted;
pub mod update_risk_score;
pub mod waive_fine;
