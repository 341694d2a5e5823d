use vstd::prelude::*;

use crate::credit::{apply_completion, raised_score, LOAN_COMPLETION_BONUS};
use crate::errors::LoanError;
use crate::events::LoanCompleted;
use crate::state::{Loan, LoanStatus, UserProfile};

verus! {

/// Records touched when a repaid loan is closed.
#[derive(Clone, Debug)]
pub struct MarkLoanCompleted {
    pub loan: Loan,
    pub user_profile: UserProfile,
}

pub open spec fn mark_loan_completed_error(ctx: MarkLoanCompleted) -> Option<LoanError> {
    if ctx.loan.status != LoanStatus::Active {
        Some(LoanError::LoanNotActive)
    } else if ctx.loan.outstanding_balance != 0 {
        Some(LoanError::InsufficientPayment)
    } else if ctx.user_profile.completed_loans + 1 > u16::MAX {
        Some(LoanError::MathOverflow)
    } else {
        None
    }
}

/// The borrower after completing a loan: one active loan fewer, one completed
/// loan more, and the score raised by 20 up to no higher than 850.
pub open spec fn profile_after_completion(p: UserProfile, now: i64) -> UserProfile {
    UserProfile {
        active_loans: if p.active_loans > 0 {
            (p.active_loans - 1) as u8
        } else {
            0
        },
        completed_loans: (p.completed_loans + 1) as u16,
        credit_score: raised_score(p.credit_score, LOAN_COMPLETION_BONUS) as u16,
        last_updated: now,
        ..p
    }
}

/// Moves a fully repaid active loan to the terminal Completed state and
/// rewards its borrower.
pub fn handler(ctx: &mut MarkLoanCompleted, now: i64) -> (r: Result<LoanCompleted, LoanError>)
    ensures
        r is Ok <==> mark_loan_completed_error(*old(ctx)) is None,
        r matches Err(e) ==> {
            &&& mark_loan_completed_error(*old(ctx)) == Some(e)
            &&& *final(ctx) == *old(ctx)
        },
        r matches Ok(event) ==> {
            let loan = old(ctx).loan;
            &&& final(ctx).loan == (Loan {
                status: LoanStatus::Completed,
                completed_timestamp: Some(now),
                ..loan
            })
            &&& final(ctx).user_profile == profile_after_completion(old(ctx).user_profile, now)
            &&& event == (LoanCompleted {
                loan_id: loan.loan_id,
                user: loan.user,
                total_repaid: loan.total_repaid,
                completed_timestamp: now,
            })
        },
{
    if ctx.loan.status != LoanStatus::Active {
        return Err(LoanError::LoanNotActive);
    }
    if ctx.loan.outstanding_balance != 0 {
        return Err(LoanError::InsufficientPayment);
    }
    let completed_loans = match ctx.user_profile.completed_loans.checked_add(1) {
        Some(n) => n,
        None => return Err(LoanError::MathOverflow),
    };

    ctx.loan.status = LoanStatus::Completed;
    ctx.loan.completed_timestamp = Some(now);

    ctx.user_profile.active_loans = ctx.user_profile.active_loans.saturating_sub(1);
    ctx.user_profile.completed_loans = completed_loans;
    ctx.user_profile.credit_score = apply_completion(ctx.user_profile.credit_score);
    ctx.user_profile.last_updated = now;

    Ok(LoanCompleted {
        loan_id: ctx.loan.loan_id,
        user: ctx.loan.user,
        total_repaid: ctx.loan.total_repaid,
        completed_timestamp: now,
    })
}

} // verus!
