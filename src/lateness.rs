//! When an installment falls due, whether a payment was late, and the fine
//! that lateness accrues.
use vstd::prelude::*;

use crate::amortization::SECONDS_PER_MONTH;
use crate::errors::LoanError;

verus! {

pub const SECONDS_PER_DAY: i64 = 86_400;

/// Tolerance after a due date before a payment counts as late: two days.
pub const GRACE_PERIOD_SECONDS: i64 = 172_800;

/// Fine accrued per day late, in basis points of the installment.
pub const DAILY_FINE_RATE_BP: u64 = 50;

pub const BASIS_POINTS: u64 = 10_000;

/// Installment `n` falls due `n` loan months after the loan starts.
pub open spec fn due_date(loan_start: i64, installment_number: u8) -> int {
    loan_start + installment_number * SECONDS_PER_MONTH
}

/// Last moment at which a payment of installment `n` is on time.
pub open spec fn grace_end(loan_start: i64, installment_number: u8) -> int {
    due_date(loan_start, installment_number) + GRACE_PERIOD_SECONDS
}

pub open spec fn is_on_time(loan_start: i64, installment_number: u8, now: i64) -> bool {
    now <= grace_end(loan_start, installment_number)
}

/// Whole days elapsed since the grace window closed; zero for an on-time payment.
pub open spec fn days_late_of(loan_start: i64, installment_number: u8, now: i64) -> int {
    if is_on_time(loan_start, installment_number, now) {
        0
    } else {
        (now - grace_end(loan_start, installment_number)) / (SECONDS_PER_DAY as int)
    }
}

/// The uncapped daily-rate fine: installment × rate × days / 10 000, rounded down.
pub open spec fn fine_of(monthly_installment: u64, days_late: int) -> int {
    monthly_installment * DAILY_FINE_RATE_BP * days_late / (BASIS_POINTS as int)
}

/// Outcome of assessing one payment against its due date.
#[derive(Clone, Copy, Debug, PartialEq, Eq, Structural)]
pub struct PaymentAssessment {
    pub on_time: bool,
    pub days_late: u16,
    pub fine_amount: u64,
}

/// Whether assessing a payment overflows the record's fields.
pub open spec fn assessment_overflows(
    loan_start: i64,
    installment_number: u8,
    monthly_installment: u64,
    now: i64,
) -> bool {
    let days = days_late_of(loan_start, installment_number, now);
    days > u16::MAX || fine_of(monthly_installment, days) > u64::MAX
}

/// Decides whether a payment made at `now` is on time, how many whole days
/// late it is, and the fine it owes. The fine is not capped.
pub fn assess_payment(
    loan_start: i64,
    installment_number: u8,
    monthly_installment: u64,
    now: i64,
) -> (r: Result<PaymentAssessment, LoanError>)
    ensures
        r is Ok <==> !assessment_overflows(loan_start, installment_number, monthly_installment, now),
        r matches Ok(a) ==> {
            &&& a.on_time == is_on_time(loan_start, installment_number, now)
            &&& a.days_late == days_late_of(loan_start, installment_number, now)
            &&& a.fine_amount == fine_of(monthly_installment, a.days_late as int)
        },
        r matches Err(e) ==> e == LoanError::MathOverflow,
{
    let month: i128 = SECONDS_PER_MONTH as i128;
    let due: i128 = loan_start as i128 + (installment_number as i128) * month;
    let window_end: i128 = due + GRACE_PERIOD_SECONDS as i128;
    let on_time = (now as i128) <= window_end;
    let days: u128 = if on_time {
        0
    } else {
        ((now as i128 - window_end) as u128) / (SECONDS_PER_DAY as u128)
    };
    if days > u16::MAX as u128 {
        return Err(LoanError::MathOverflow);
    }
    let days_late = days as u16;
    let rate: u128 = DAILY_FINE_RATE_BP as u128;
    assert(rate == 50);
    let per_day: u128 = (monthly_installment as u128) * rate;
    assert(per_day * (days_late as u128) <= 0xffff_ffff_ffff_ffff * 50 * 0xffff) by (nonlinear_arith)
        requires
            per_day <= 0xffff_ffff_ffff_ffff * 50,
            days_late <= 0xffff,
    ;
    let fine: u128 = per_day * (days_late as u128) / (BASIS_POINTS as u128);
    if fine > u64::MAX as u128 {
        return Err(LoanError::MathOverflow);
    }
    Ok(PaymentAssessment { on_time, days_late, fine_amount: fine as u64 })
}

} // verus!
