use vstd::prelude::*;

use crate::credit::{
    max_loan_of, multiplier_of, recommended_max_loan, MAX_DEFAULT_PROBABILITY, MAX_RISK_SCORE,
};
use crate::errors::LoanError;
use crate::events::RiskScoreUpdated;
use crate::state::{Address, LoanProgramState, RiskLevel, RiskProfile, UserProfile};

verus! {

/// Number of factors that a risk assessment weighs.
pub const RISK_FACTORS: u8 = 5;

/// Records touched by a risk assessment.
#[derive(Clone, Debug)]
pub struct UpdateRiskScore {
    pub user_profile: UserProfile,
    /// The borrower's risk profile, empty before the first assessment.
    pub risk_profile: Option<RiskProfile>,
    pub program_state: LoanProgramState,
    /// The assessed borrower.
    pub user: Address,
    /// The caller, who must be the program's administrator.
    pub admin: Address,
    pub risk_bump: u8,
}

pub open spec fn update_risk_score_error(
    ctx: UpdateRiskScore,
    risk_score: u16,
    risk_level: RiskLevel,
    default_probability: u16,
) -> Option<LoanError> {
    if !ctx.admin.same(ctx.program_state.authority) {
        Some(LoanError::Unauthorized)
    } else if risk_score > MAX_RISK_SCORE {
        Some(LoanError::InvalidRiskScore)
    } else if default_probability > MAX_DEFAULT_PROBABILITY {
        Some(LoanError::InvalidDefaultProbability)
    } else if ctx.user_profile.monthly_income * multiplier_of(risk_level) > u64::MAX {
        Some(LoanError::MathOverflow)
    } else {
        None
    }
}

/// Records an administrator's risk assessment of a borrower: the profile
/// takes the new score and level, and the risk profile is written (created on
/// the first assessment) with a lending limit from income and risk tier.
pub fn handler(
    ctx: &mut UpdateRiskScore,
    now: i64,
    risk_score: u16,
    risk_level: RiskLevel,
    default_probability: u16,
) -> (r: Result<RiskScoreUpdated, LoanError>)
    ensures
        r is Ok <==> update_risk_score_error(*old(ctx), risk_score, risk_level, default_probability)
            is None,
        r matches Err(e) ==> {
            &&& update_risk_score_error(*old(ctx), risk_score, risk_level, default_probability)
                == Some(e)
            &&& *final(ctx) == *old(ctx)
        },
        r matches Ok(event) ==> {
            let p = old(ctx).user_profile;
            &&& final(ctx).user_profile == (UserProfile {
                credit_score: risk_score,
                risk_level,
                last_updated: now,
                ..p
            })
            &&& final(ctx).risk_profile == Some(
                RiskProfile {
                    user: old(ctx).user,
                    risk_score,
                    risk_level,
                    default_probability,
                    recommended_max_loan: max_loan_of(p.monthly_income, risk_level) as u64,
                    last_calculated: now,
                    factors_count: RISK_FACTORS,
                    bump: old(ctx).risk_bump,
                },
            )
            &&& final(ctx).program_state == old(ctx).program_state
            &&& final(ctx).user == old(ctx).user
            &&& final(ctx).admin == old(ctx).admin
            &&& final(ctx).risk_bump == old(ctx).risk_bump
            &&& event == (RiskScoreUpdated {
                user: old(ctx).user,
                old_score: p.credit_score,
                new_score: risk_score,
                risk_level,
                default_probability,
                timestamp: now,
            })
        },
{
    if !ctx.admin.equals(&ctx.program_state.authority) {
        return Err(LoanError::Unauthorized);
    }
    if risk_score > MAX_RISK_SCORE {
        return Err(LoanError::InvalidRiskScore);
    }
    if default_probability > MAX_DEFAULT_PROBABILITY {
        return Err(LoanError::InvalidDefaultProbability);
    }
    let limit = recommended_max_loan(ctx.user_profile.monthly_income, risk_level)?;

    let old_score = ctx.user_profile.credit_score;
    ctx.user_profile.credit_score = risk_score;
    ctx.user_profile.risk_level = risk_level;
    ctx.user_profile.last_updated = now;

    ctx.risk_profile = Some(
        RiskProfile {
            user: ctx.user,
            risk_score,
            risk_level,
            default_probability,
            recommended_max_loan: limit,
            last_calculated: now,
            factors_count: RISK_FACTORS,
            bump: ctx.risk_bump,
        },
    );

    Ok(RiskScoreUpdated {
        user: ctx.user,
        old_score,
        new_score: risk_score,
        risk_level,
        default_probability,
        timestamp: now,
    })
}

} // verus!
