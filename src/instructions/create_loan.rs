use vstd::prelude::*;

use crate::amortization::{end_of_term, loan_end_timestamp, terms_error, total_repayment, validate_terms};
use crate::errors::LoanError;
use crate::events::LoanCreated;
use crate::state::{Address, Loan, LoanProgramState, LoanStatus, UserProfile};

verus! {

/// Records touched by loan origination.
#[derive(Clone, Debug)]
pub struct CreateLoan {
    pub user_profile: UserProfile,
    /// Slot of the new loan record; every field is written on success.
    pub loan: Loan,
    pub program_state: LoanProgramState,
    pub user_authority: Address,
    pub loan_bump: u8,
}

/// The first check that origination fails, if any.
pub open spec fn create_loan_error(
    ctx: CreateLoan,
    principal_amount: u64,
    interest_rate: u16,
    tenure_months: u8,
    start_timestamp: i64,
    monthly_installment: u64,
) -> Option<LoanError> {
    if ctx.program_state.paused {
        Some(LoanError::ProgramPaused)
    } else if terms_error(principal_amount, interest_rate, tenure_months) is Some {
        terms_error(principal_amount, interest_rate, tenure_months)
    } else if ctx.user_profile.active_loans != 0 {
        Some(LoanError::ActiveLoanExists)
    } else if monthly_installment * tenure_months > u64::MAX
        || end_of_term(start_timestamp, tenure_months) > i64::MAX
        || ctx.user_profile.total_loans + 1 > u16::MAX
        || ctx.user_profile.total_borrowed + principal_amount > u64::MAX
        || ctx.program_state.total_loans + 1 > u64::MAX
        || ctx.program_state.total_volume + principal_amount > u64::MAX {
        Some(LoanError::MathOverflow)
    } else {
        None
    }
}

/// The loan record that a successful origination writes.
pub open spec fn originated_loan(
    ctx: CreateLoan,
    now: i64,
    principal_amount: u64,
    interest_rate: u16,
    tenure_months: u8,
    start_timestamp: i64,
    monthly_installment: u64,
) -> Loan {
    Loan {
        user: ctx.user_authority,
        loan_id: ctx.program_state.total_loans,
        principal_amount,
        interest_rate,
        tenure_months,
        monthly_installment,
        total_amount: (monthly_installment * tenure_months) as u64,
        outstanding_balance: (monthly_installment * tenure_months) as u64,
        total_repaid: 0,
        total_fines: 0,
        start_timestamp,
        end_timestamp: end_of_term(start_timestamp, tenure_months) as i64,
        status: LoanStatus::Active,
        created_timestamp: now,
        completed_timestamp: None,
        defaulted_timestamp: None,
        bump: ctx.loan_bump,
    }
}

/// The borrower's profile after a successful origination.
pub open spec fn profile_with_new_loan(p: UserProfile, now: i64, principal_amount: u64) -> UserProfile {
    UserProfile {
        total_loans: (p.total_loans + 1) as u16,
        active_loans: (p.active_loans + 1) as u8,
        total_borrowed: (p.total_borrowed + principal_amount) as u64,
        last_updated: now,
        ..p
    }
}

/// The program state after a successful origination.
pub open spec fn program_with_new_loan(s: LoanProgramState, principal_amount: u64) -> LoanProgramState {
    LoanProgramState {
        total_loans: (s.total_loans + 1) as u64,
        total_volume: (s.total_volume + principal_amount) as u64,
        ..s
    }
}

/// Originates a loan for a borrower with no active loan.
///
/// `monthly_installment` is the amortized installment for these terms; the
/// total repayment is that installment times the tenure, and the whole of it
/// starts out outstanding. The loan takes the program's running loan counter
/// as its id, and the borrower's and the program's aggregates grow by one loan
/// and by the principal.
pub fn handler(
    ctx: &mut CreateLoan,
    now: i64,
    principal_amount: u64,
    interest_rate: u16,
    tenure_months: u8,
    start_timestamp: i64,
    monthly_installment: u64,
) -> (r: Result<LoanCreated, LoanError>)
    ensures
        r is Ok <==> create_loan_error(
            *old(ctx),
            principal_amount,
            interest_rate,
            tenure_months,
            start_timestamp,
            monthly_installment,
        ) is None,
        r matches Err(e) ==> {
            &&& create_loan_error(
                *old(ctx),
                principal_amount,
                interest_rate,
                tenure_months,
                start_timestamp,
                monthly_installment,
            ) == Some(e)
            &&& *final(ctx) == *old(ctx)
        },
        r matches Ok(event) ==> {
            let loan = originated_loan(
                *old(ctx),
                now,
                principal_amount,
                interest_rate,
                tenure_months,
                start_timestamp,
                monthly_installment,
            );
            &&& final(ctx).loan == loan
            &&& final(ctx).user_profile == profile_with_new_loan(
                old(ctx).user_profile,
                now,
                principal_amount,
            )
            &&& final(ctx).program_state == program_with_new_loan(
                old(ctx).program_state,
                principal_amount,
            )
            &&& final(ctx).user_authority == old(ctx).user_authority
            &&& final(ctx).loan_bump == old(ctx).loan_bump
            &&& event == (LoanCreated {
                loan_id: loan.loan_id,
                user: loan.user,
                principal_amount,
                interest_rate,
                tenure_months,
                monthly_installment,
                total_amount: loan.total_amount,
                start_timestamp,
                end_timestamp: loan.end_timestamp,
            })
        },
{
    if ctx.program_state.paused {
        return Err(LoanError::ProgramPaused);
    }
    validate_terms(principal_amount, interest_rate, tenure_months)?;
    if ctx.user_profile.active_loans != 0 {
        return Err(LoanError::ActiveLoanExists);
    }
    let total_amount = total_repayment(monthly_installment, tenure_months)?;
    let end_timestamp = loan_end_timestamp(start_timestamp, tenure_months)?;
    let user_total_loans = match ctx.user_profile.total_loans.checked_add(1) {
        Some(n) => n,
        None => return Err(LoanError::MathOverflow),
    };
    let total_borrowed = match ctx.user_profile.total_borrowed.checked_add(principal_amount) {
        Some(n) => n,
        None => return Err(LoanError::MathOverflow),
    };
    let program_total_loans = match ctx.program_state.total_loans.checked_add(1) {
        Some(n) => n,
        None => return Err(LoanError::MathOverflow),
    };
    let total_volume = match ctx.program_state.total_volume.checked_add(principal_amount) {
        Some(n) => n,
        None => return Err(LoanError::MathOverflow),
    };

    let loan_id = ctx.program_state.total_loans;
    ctx.loan = Loan {
        user: ctx.user_authority,
        loan_id,
        principal_amount,
        interest_rate,
        tenure_months,
        monthly_installment,
        total_amount,
        outstanding_balance: total_amount,
        total_repaid: 0,
        total_fines: 0,
        start_timestamp,
        end_timestamp,
        status: LoanStatus::Active,
        created_timestamp: now,
        completed_timestamp: None,
        defaulted_timestamp: None,
        bump: ctx.loan_bump,
    };

    ctx.user_profile.total_loans = user_total_loans;
    ctx.user_profile.active_loans = 1;
    ctx.user_profile.total_borrowed = total_borrowed;
    ctx.user_profile.last_updated = now;

    ctx.program_state.total_loans = program_total_loans;
    ctx.program_state.total_volume = total_volume;

    Ok(LoanCreated {
        loan_id,
        user: ctx.user_authority,
        principal_amount,
        interest_rate,
        tenure_months,
        monthly_installment,
        total_amount,
        start_timestamp,
        end_timestamp,
    })
}

} // verus!
