//! Laws that hold across the transitions of the lifecycle, stated over the
//! same spec functions that the transitions' contracts use.
use vstd::prelude::*;

use crate::amortization::terms_error;
use crate::credit::in_score_bounds;
use crate::errors::LoanError;
use crate::instructions::create_loan::{
    create_loan_error, originated_loan, profile_with_new_loan, CreateLoan,
};
use crate::instructions::mark_loan_completed::{
    mark_loan_completed_error, profile_after_completion, MarkLoanCompleted,
};
use crate::instructions::mark_loan_defaulted::{
    mark_loan_defaulted_error, profile_after_default, MarkLoanDefaulted,
};
use crate::instructions::record_payment::{
    fine_due, loan_after_payment, new_payment_record, profile_after_payment, record_payment_error,
    RecordPayment,
};
use crate::instructions::register_user::{new_profile, register_user_error, RegisterUser};
use crate::instructions::update_user_profile::{update_user_profile_error, UpdateUserProfile};
use crate::lateness::is_on_time;
use crate::state::{EmploymentType, LoanStatus, RiskLevel, UserProfile};

verus! {

/// What every borrower profile satisfies: at most one active loan, and a
/// credit score within its floor and ceiling.
pub open spec fn profile_in_bounds(p: UserProfile) -> bool {
    p.active_loans <= 1 && in_score_bounds(p.credit_score)
}

/// An originated loan owes its installment in every month of its tenure, and
/// all of it is outstanding.
pub proof fn lemma_originated_loan_terms(
    ctx: CreateLoan,
    now: i64,
    principal_amount: u64,
    interest_rate: u16,
    tenure_months: u8,
    start_timestamp: i64,
    monthly_installment: u64,
)
    requires
        create_loan_error(
            ctx,
            principal_amount,
            interest_rate,
            tenure_months,
            start_timestamp,
            monthly_installment,
        ) is None,
    ensures
        ({
            let loan = originated_loan(
                ctx,
                now,
                principal_amount,
                interest_rate,
                tenure_months,
                start_timestamp,
                monthly_installment,
            );
            &&& loan.total_amount == loan.monthly_installment * loan.tenure_months
            &&& loan.outstanding_balance == loan.total_amount
            &&& loan.status == LoanStatus::Active
        }),
{
}

/// Recording a payment never raises a loan's outstanding balance.
pub proof fn lemma_payment_never_raises_balance(
    ctx: RecordPayment,
    now: i64,
    installment_number: u8,
    amount: u64,
    payment_hash: Seq<char>,
)
    requires
        record_payment_error(ctx, now, installment_number, amount, payment_hash) is None,
    ensures
        loan_after_payment(
            ctx.loan,
            amount,
            fine_due(ctx.loan, installment_number, now),
        ).outstanding_balance <= ctx.loan.outstanding_balance,
{
}

/// A loan is completed only once nothing of it is outstanding.
pub proof fn lemma_completion_requires_zero_balance(ctx: MarkLoanCompleted)
    requires
        mark_loan_completed_error(ctx) is None,
    ensures
        ctx.loan.outstanding_balance == 0,
        ctx.loan.status == LoanStatus::Active,
{
}

/// A borrower who already holds an active loan cannot originate another:
/// once the program runs and the terms are valid, origination fails with
/// `ActiveLoanExists`.
pub proof fn lemma_second_active_loan_refused(
    ctx: CreateLoan,
    principal_amount: u64,
    interest_rate: u16,
    tenure_months: u8,
    start_timestamp: i64,
    monthly_installment: u64,
)
    requires
        ctx.user_profile.active_loans == 1,
        !ctx.program_state.paused,
        terms_error(principal_amount, interest_rate, tenure_months) is None,
    ensures
        create_loan_error(
            ctx,
            principal_amount,
            interest_rate,
            tenure_months,
            start_timestamp,
            monthly_installment,
        ) == Some(LoanError::ActiveLoanExists),
{
}

/// A newly registered profile is within bounds.
pub proof fn lemma_registration_in_bounds(
    ctx: RegisterUser,
    now: i64,
    full_name: String,
    monthly_income: u64,
    employment_type: EmploymentType,
)
    ensures
        profile_in_bounds(new_profile(ctx, now, full_name, monthly_income, employment_type)),
{
}

/// Origination keeps a profile within bounds: it succeeds only from no active
/// loan and leaves exactly one.
pub proof fn lemma_origination_keeps_bounds(
    ctx: CreateLoan,
    now: i64,
    principal_amount: u64,
    interest_rate: u16,
    tenure_months: u8,
    start_timestamp: i64,
    monthly_installment: u64,
)
    requires
        profile_in_bounds(ctx.user_profile),
        create_loan_error(
            ctx,
            principal_amount,
            interest_rate,
            tenure_months,
            start_timestamp,
            monthly_installment,
        ) is None,
    ensures
        ctx.user_profile.active_loans == 0,
        profile_with_new_loan(ctx.user_profile, now, principal_amount).active_loans == 1,
        profile_in_bounds(profile_with_new_loan(ctx.user_profile, now, principal_amount)),
{
}

/// A payment keeps a profile within bounds.
pub proof fn lemma_payment_keeps_bounds(
    ctx: RecordPayment,
    now: i64,
    installment_number: u8,
    amount: u64,
    payment_hash: Seq<char>,
)
    requires
        profile_in_bounds(ctx.user_profile),
        record_payment_error(ctx, now, installment_number, amount, payment_hash) is None,
    ensures
        profile_in_bounds(
            profile_after_payment(
                ctx.user_profile,
                now,
                amount,
                is_on_time(ctx.loan.start_timestamp, installment_number, now),
            ),
        ),
{
}

/// Closing a loan, by completion or by default, keeps a profile within bounds.
pub proof fn lemma_closing_keeps_bounds(p: UserProfile, now: i64)
    requires
        profile_in_bounds(p),
    ensures
        profile_in_bounds(profile_after_completion(p, now)),
        profile_in_bounds(profile_after_default(p, now)),
{
}

/// A risk assessment keeps a profile within bounds when the assigned score
/// is itself within them.
pub proof fn lemma_risk_update_keeps_bounds(
    p: UserProfile,
    now: i64,
    risk_score: u16,
    risk_level: RiskLevel,
)
    requires
        profile_in_bounds(p),
        in_score_bounds(risk_score),
    ensures
        profile_in_bounds(UserProfile { credit_score: risk_score, risk_level, last_updated: now, ..p }),
{
}

/// Editing a profile's income or employment keeps it within bounds.
pub proof fn lemma_profile_edit_keeps_bounds(
    ctx: UpdateUserProfile,
    now: i64,
    monthly_income: u64,
    employment_type: EmploymentType,
)
    requires
        profile_in_bounds(ctx.user_profile),
        update_user_profile_error(ctx, Some(monthly_income)) is None,
    ensures
        profile_in_bounds(
            UserProfile { monthly_income, employment_type, last_updated: now, ..ctx.user_profile },
        ),
{
}

/// Once an installment is paid, paying it again fails with
/// `InstallmentAlreadyPaid`, whatever the time, amount or proof token.
pub proof fn lemma_installment_paid_once(
    ctx: RecordPayment,
    now: i64,
    installment_number: u8,
    amount: u64,
    payment_hash: String,
    later: RecordPayment,
    again_now: i64,
    again_amount: u64,
    again_hash: Seq<char>,
)
    requires
        record_payment_error(ctx, now, installment_number, amount, payment_hash@) is None,
        later.payment_record == Some(
            new_payment_record(ctx, now, installment_number, amount, payment_hash),
        ),
    ensures
        record_payment_error(later, again_now, installment_number, again_amount, again_hash)
            == Some(LoanError::InstallmentAlreadyPaid),
{
}

/// Once a borrower is registered, registering the same identity again fails
/// with `UserAlreadyRegistered`.
pub proof fn lemma_user_registered_once(
    ctx: RegisterUser,
    now: i64,
    full_name: String,
    monthly_income: u64,
    employment_type: EmploymentType,
    later: RegisterUser,
    again_name: Seq<char>,
    again_income: u64,
)
    requires
        register_user_error(ctx, full_name@, monthly_income) is None,
        later.user_profile == Some(
            new_profile(ctx, now, full_name, monthly_income, employment_type),
        ),
    ensures
        register_user_error(later, again_name, again_income) == Some(
            LoanError::UserAlreadyRegistered,
        ),
{
}

} // verus!
