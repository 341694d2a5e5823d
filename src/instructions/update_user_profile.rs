use vstd::prelude::*;

use crate::errors::LoanError;
use crate::state::{Address, EmploymentType, UserProfile};

verus! {

/// Records touched when a borrower edits their own profile.
#[derive(Clone, Debug)]
pub struct UpdateUserProfile {
    pub user_profile: UserProfile,
    /// The caller.
    pub authority: Address,
}

pub open spec fn update_user_profile_error(
    ctx: UpdateUserProfile,
    monthly_income: Option<u64>,
) -> Option<LoanError> {
    if !ctx.authority.same(ctx.user_profile.authority) {
        Some(LoanError::Unauthorized)
    } else if monthly_income == Some(0u64) {
        Some(LoanError::IncomeTooLow)
    } else {
        None
    }
}

/// Lets the profile's owner replace the income (which must stay positive)
/// and/or the employment category.
pub fn handler(
    ctx: &mut UpdateUserProfile,
    now: i64,
    monthly_income: Option<u64>,
    employment_type: Option<EmploymentType>,
) -> (r: Result<(), LoanError>)
    ensures
        r is Ok <==> update_user_profile_error(*old(ctx), monthly_income) is None,
        r matches Err(e) ==> {
            &&& update_user_profile_error(*old(ctx), monthly_income) == Some(e)
            &&& *final(ctx) == *old(ctx)
        },
        r is Ok ==> {
            let p = old(ctx).user_profile;
            &&& final(ctx).user_profile == (UserProfile {
                monthly_income: match monthly_income {
                    Some(income) => income,
                    None => p.monthly_income,
                },
                employment_type: match employment_type {
                    Some(kind) => kind,
                    None => p.employment_type,
                },
                last_updated: now,
                ..p
            })
            &&& final(ctx).authority == old(ctx).authority
        },
{
    if !ctx.authority.equals(&ctx.user_profile.authority) {
        return Err(LoanError::Unauthorized);
    }
    if let Some(income) = monthly_income {
        if income == 0 {
            return Err(LoanError::IncomeTooLow);
        }
        ctx.user_profile.monthly_income = income;
    }
    if let Some(kind) = employment_type {
        ctx.user_profile.employment_type = kind;
    }
    ctx.user_profile.last_updated = now;
    Ok(())
}

} // verus!
