use vstd::prelude::*;

use crate::errors::LoanError;
use crate::state::{Address, LoanProgramState};

verus! {

/// Highest program fee, in hundredths of a percent.
pub const MAX_FEE_PERCENTAGE: u16 = 1000;

/// Records touched when the program is set up.
#[derive(Clone, Copy, Debug)]
pub struct Initialize {
    /// Slot of the program state; every field is written on success.
    pub program_state: LoanProgramState,
    /// The administrator.
    pub authority: Address,
    pub program_bump: u8,
}

/// Sets up the program with `ctx.authority` as administrator, empty totals,
/// the given fee and new registrations and loans allowed.
pub fn handler(ctx: &mut Initialize, fee_percentage: u16) -> (r: Result<(), LoanError>)
    ensures
        r is Ok <==> fee_percentage <= MAX_FEE_PERCENTAGE,
        r is Err ==> r == Err::<(), LoanError>(LoanError::InvalidInterestRate) && *final(ctx)
            == *old(ctx),
        r is Ok ==> *final(ctx) == (Initialize {
            program_state: LoanProgramState {
                authority: old(ctx).authority,
                total_users: 0,
                total_loans: 0,
                total_volume: 0,
                fee_percentage,
                paused: false,
                bump: old(ctx).program_bump,
            },
            ..*old(ctx)
        }),
{
    if fee_percentage > MAX_FEE_PERCENTAGE {
        return Err(LoanError::InvalidInterestRate);
    }
    ctx.program_state = LoanProgramState {
        authority: ctx.authority,
        total_users: 0,
        total_loans: 0,
        total_volume: 0,
        fee_percentage,
        paused: false,
        bump: ctx.program_bump,
    };
    Ok(())
}

} // verus!
