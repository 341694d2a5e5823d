use vstd::prelude::*;

use crate::errors::LoanError;
use crate::events::FineWaived;
use crate::state::{Address, Loan, LoanProgramState, PaymentRecord};

verus! {

/// Records touched when an administrator waives part of a fine.
#[derive(Clone, Debug)]
pub struct WaiveFine {
    pub loan: Loan,
    pub loan_key: Address,
    /// The payment record of the installment whose fine is waived.
    pub payment_record: PaymentRecord,
    pub program_state: LoanProgramState,
    /// The caller, who must be the program's administrator.
    pub admin: Address,
}

pub open spec fn waive_fine_error(ctx: WaiveFine, waived_amount: u64) -> Option<LoanError> {
    if !ctx.admin.same(ctx.program_state.authority) {
        Some(LoanError::Unauthorized)
    } else if waived_amount > ctx.payment_record.fine_amount || waived_amount
        > ctx.loan.total_fines {
        Some(LoanError::InvalidPaymentAmount)
    } else {
        None
    }
}

/// Waives up to the fine charged on one installment.
///
/// The waiver lowers the loan's accumulated fines only. The outstanding
/// balance never included fines, so it is left as it is, and the payment
/// record keeps the fine it was charged.
pub fn handler(
    ctx: &mut WaiveFine,
    now: i64,
    installment_number: u8,
    waived_amount: u64,
) -> (r: Result<FineWaived, LoanError>)
    ensures
        r is Ok <==> waive_fine_error(*old(ctx), waived_amount) is None,
        r matches Err(e) ==> {
            &&& waive_fine_error(*old(ctx), waived_amount) == Some(e)
            &&& *final(ctx) == *old(ctx)
        },
        r matches Ok(event) ==> {
            &&& *final(ctx) == (WaiveFine {
                loan: Loan {
                    total_fines: (old(ctx).loan.total_fines - waived_amount) as u64,
                    ..old(ctx).loan
                },
                ..*old(ctx)
            })
            &&& event == (FineWaived {
                loan: old(ctx).loan_key,
                user: old(ctx).loan.user,
                installment_number,
                waived_amount,
                waived_by: old(ctx).admin,
                timestamp: now,
            })
        },
{
    if !ctx.admin.equals(&ctx.program_state.authority) {
        return Err(LoanError::Unauthorized);
    }
    if waived_amount > ctx.payment_record.fine_amount || waived_amount > ctx.loan.total_fines {
        return Err(LoanError::InvalidPaymentAmount);
    }
    ctx.loan.total_fines = ctx.loan.total_fines - waived_amount;

    Ok(FineWaived {
        loan: ctx.loan_key,
        user: ctx.loan.user,
        installment_number,
        waived_amount,
        waived_by: ctx.admin,
        timestamp: now,
    })
}

} // verus!
