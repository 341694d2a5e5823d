use vstd::prelude::*;

use crate::credit::{apply_default, lowered_score, LOAN_DEFAULT_PENALTY};
use crate::errors::LoanError;
use crate::events::LoanDefaulted;
use crate::state::{Loan, LoanStatus, RiskLevel, UserProfile};

verus! {

/// Records touched when a loan is written off.
#[derive(Clone, Debug)]
pub struct MarkLoanDefaulted {
    pub loan: Loan,
    pub user_profile: UserProfile,
}

pub open spec fn mark_loan_defaulted_error(ctx: MarkLoanDefaulted) -> Option<LoanError> {
    if ctx.loan.status != LoanStatus::Active {
        Some(LoanError::LoanNotActive)
    } else if ctx.loan.outstanding_balance == 0 {
        Some(LoanError::LoanAlreadyCompleted)
    } else if ctx.user_profile.defaulted_loans + 1 > u8::MAX {
        Some(LoanError::MathOverflow)
    } else {
        None
    }
}

/// The borrower after a default: one active loan fewer, one default more, the
/// score cut by 100 down to no lower than 300, and the risk level critical.
pub open spec fn profile_after_default(p: UserProfile, now: i64) -> UserProfile {
    UserProfile {
        active_loans: if p.active_loans > 0 {
            (p.active_loans - 1) as u8
        } else {
            0
        },
        defaulted_loans: (p.defaulted_loans + 1) as u8,
        credit_score: lowered_score(p.credit_score, LOAN_DEFAULT_PENALTY) as u16,
        risk_level: RiskLevel::Critical,
        last_updated: now,
        ..p
    }
}

/// Moves an active loan that still has a balance to the terminal Defaulted
/// state and penalises its borrower.
pub fn handler(ctx: &mut MarkLoanDefaulted, now: i64) -> (r: Result<LoanDefaulted, LoanError>)
    ensures
        r is Ok <==> mark_loan_defaulted_error(*old(ctx)) is None,
        r matches Err(e) ==> {
            &&& mark_loan_defaulted_error(*old(ctx)) == Some(e)
            &&& *final(ctx) == *old(ctx)
        },
        r matches Ok(event) ==> {
            let loan = old(ctx).loan;
            &&& final(ctx).loan == (Loan {
                status: LoanStatus::Defaulted,
                defaulted_timestamp: Some(now),
                ..loan
            })
            &&& final(ctx).user_profile == profile_after_default(old(ctx).user_profile, now)
            &&& event == (LoanDefaulted {
                loan_id: loan.loan_id,
                user: loan.user,
                outstanding_balance: loan.outstanding_balance,
                total_fines: loan.total_fines,
                defaulted_timestamp: now,
            })
        },
{
    if ctx.loan.status != LoanStatus::Active {
        return Err(LoanError::LoanNotActive);
    }
    if ctx.loan.outstanding_balance == 0 {
        return Err(LoanError::LoanAlreadyCompleted);
    }
    let defaulted_loans = match ctx.user_profile.defaulted_loans.checked_add(1) {
        Some(n) => n,
        None => return Err(LoanError::MathOverflow),
    };

    ctx.loan.status = LoanStatus::Defaulted;
    ctx.loan.defaulted_timestamp = Some(now);

    ctx.user_profile.active_loans = ctx.user_profile.active_loans.saturating_sub(1);
    ctx.user_profile.defaulted_loans = defaulted_loans;
    ctx.user_profile.credit_score = apply_default(ctx.user_profile.credit_score);
    ctx.user_profile.risk_level = RiskLevel::Critical;
    ctx.user_profile.last_updated = now;

    Ok(LoanDefaulted {
        loan_id: ctx.loan.loan_id,
        user: ctx.loan.user,
        outstanding_balance: ctx.loan.outstanding_balance,
        total_fines: ctx.loan.total_fines,
        defaulted_timestamp: now,
    })
}

} // verus!
