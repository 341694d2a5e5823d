use vstd::prelude::*;

use crate::errors::LoanError;
use crate::state::UserProfile;

verus! {

/// The record read when a borrower's score is queried.
#[derive(Clone, Debug)]
pub struct GetCreditScore {
    pub user_profile: UserProfile,
}

/// The borrower's current credit score.
pub fn handler(ctx: &GetCreditScore) -> (r: Result<u16, LoanError>)
    ensures
        r == Ok::<u16, LoanError>(ctx.user_profile.credit_score),
{
    Ok(ctx.user_profile.credit_score)
}

} // verus!
