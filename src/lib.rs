//! Micro-loan lifecycle and credit-risk state machine.
//!
//! Every transition takes the records it touches plus its caller-supplied
//! parameters and either commits new record values and returns a domain
//! event, or fails with a [`errors::LoanError`] and leaves the records as they
//! were.

pub mod amortization;
pub mod credit;
pub mod errors;
pub mod events;
pub mod instructions;
pub mod invariants;
pub mod lateness;
pub mod state;

pub use instructions::create_loan::handler as create_loan;
pub use instructions::create_loan::CreateLoan;
pub use instructions::get_credit_score::handler as get_credit_score;
pub use instructions::get_credit_score::GetCreditScore;
pub use instructions::initialize::handler as initialize;
pub use instructions::initialize::Initialize;
pub use instructions::mark_loan_completed::handler as mark_loan_completed;
pub use instructions::mark_loan_completed::MarkLoanCompleted;
pub use instructions::mark_loan_defaulted::handler as mark_loan_defaulted;
pub use instructions::mark_loan_defaulted::MarkLoanDefaulted;
pub use instructions::record_payment::handler as record_payment;
pub use instructions::record_payment::RecordPayment;
pub use instructions::register_user::handler as register_user;
pub use instructions::register_user::RegisterUser;
pub use instructions::update_risk_score::handler as update_risk_score;
pub use instructions::update_risk_score::UpdateRiskScore;
pub use instructions::update_user_profile::handler as update_user_profile;
pub use instructions::update_user_profile::UpdateUserProfile;
pub use instructions::waive_fine::handler as waive_fine;
pub use instructions::waive_fine::WaiveFine;
