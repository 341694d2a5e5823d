use vstd::prelude::*;

use crate::credit::INITIAL_CREDIT_SCORE;
use crate::errors::LoanError;
use crate::events::UserRegistered;
use crate::state::{byte_len, Address, EmploymentType, LoanProgramState, RiskLevel, UserProfile};

verus! {

/// Records touched by registering a borrower.
#[derive(Clone, Debug)]
pub struct RegisterUser {
    /// The profile slot keyed by the borrower's identity: empty until registered.
    pub user_profile: Option<UserProfile>,
    pub program_state: LoanProgramState,
    pub authority: Address,
    pub profile_bump: u8,
}

/// The first check that registration fails, if any.
pub open spec fn register_user_error(
    ctx: RegisterUser,
    full_name: Seq<char>,
    monthly_income: u64,
) -> Option<LoanError> {
    if ctx.user_profile is Some {
        Some(LoanError::UserAlreadyRegistered)
    } else if ctx.program_state.paused {
        Some(LoanError::ProgramPaused)
    } else if byte_len(full_name) > UserProfile::MAX_NAME_LEN {
        Some(LoanError::NameTooLong)
    } else if monthly_income == 0 {
        Some(LoanError::IncomeTooLow)
    } else if ctx.program_state.total_users + 1 > u64::MAX {
        Some(LoanError::MathOverflow)
    } else {
        None
    }
}

/// A new borrower's profile: no loans, no payments, a starting score of 500
/// and a medium risk level.
pub open spec fn new_profile(
    ctx: RegisterUser,
    now: i64,
    full_name: String,
    monthly_income: u64,
    employment_type: EmploymentType,
) -> UserProfile {
    UserProfile {
        authority: ctx.authority,
        full_name,
        monthly_income,
        employment_type,
        total_loans: 0,
        active_loans: 0,
        completed_loans: 0,
        defaulted_loans: 0,
        total_borrowed: 0,
        total_repaid: 0,
        on_time_payments: 0,
        late_payments: 0,
        missed_payments: 0,
        credit_score: INITIAL_CREDIT_SCORE,
        risk_level: RiskLevel::Medium,
        registration_timestamp: now,
        last_updated: now,
        bump: ctx.profile_bump,
    }
}

/// Registers a borrower under `ctx.authority` and counts them in the program.
pub fn handler(
    ctx: &mut RegisterUser,
    now: i64,
    full_name: String,
    monthly_income: u64,
    employment_type: EmploymentType,
) -> (r: Result<UserRegistered, LoanError>)
    ensures
        r is Ok <==> register_user_error(*old(ctx), full_name@, monthly_income) is None,
        r matches Err(e) ==> {
            &&& register_user_error(*old(ctx), full_name@, monthly_income) == Some(e)
            &&& *final(ctx) == *old(ctx)
        },
        r matches Ok(event) ==> {
            &&& final(ctx).user_profile == Some(
                new_profile(*old(ctx), now, full_name, monthly_income, employment_type),
            )
            &&& final(ctx).program_state == (LoanProgramState {
                total_users: (old(ctx).program_state.total_users + 1) as u64,
                ..old(ctx).program_state
            })
            &&& final(ctx).authority == old(ctx).authority
            &&& final(ctx).profile_bump == old(ctx).profile_bump
            &&& event == (UserRegistered {
                user: old(ctx).authority,
                full_name,
                monthly_income,
                employment_type,
                timestamp: now,
            })
        },
{
    if ctx.user_profile.is_some() {
        return Err(LoanError::UserAlreadyRegistered);
    }
    if ctx.program_state.paused {
        return Err(LoanError::ProgramPaused);
    }
    if full_name.as_str().as_bytes().len() > UserProfile::MAX_NAME_LEN {
        return Err(LoanError::NameTooLong);
    }
    if monthly_income == 0 {
        return Err(LoanError::IncomeTooLow);
    }
    let total_users = match ctx.program_state.total_users.checked_add(1) {
        Some(n) => n,
        None => return Err(LoanError::MathOverflow),
    };

    ctx.user_profile = Some(
        UserProfile {
            authority: ctx.authority,
            full_name: full_name.clone(),
            monthly_income,
            employment_type,
            total_loans: 0,
            active_loans: 0,
            completed_loans: 0,
            defaulted_loans: 0,
            total_borrowed: 0,
            total_repaid: 0,
            on_time_payments: 0,
            late_payments: 0,
            missed_payments: 0,
            credit_score: INITIAL_CREDIT_SCORE,
            risk_level: RiskLevel::Medium,
            registration_timestamp: now,
            last_updated: now,
            bump: ctx.profile_bump,
        },
    );
    ctx.program_state.total_users = total_users;

    Ok(UserRegistered {
        user: ctx.authority,
        full_name,
        monthly_income,
        employment_type,
        timestamp: now,
    })
}

} // verus!
