use vstd::prelude::*;

use crate::credit::{apply_payment_outcome, score_after_payment};
use crate::errors::LoanError;
use crate::events::PaymentRecorded;
use crate::lateness::{
    assess_payment, assessment_overflows, days_late_of, fine_of, is_on_time, PaymentAssessment,
};
use crate::state::{byte_len, Address, Loan, LoanStatus, PaymentRecord, UserProfile};

verus! {

/// Records touched by recording one installment payment.
#[derive(Clone, Debug)]
pub struct RecordPayment {
    pub loan: Loan,
    /// Address of the loan record, which the payment record refers to.
    pub loan_key: Address,
    pub user_profile: UserProfile,
    /// The record slot of this (loan, installment) pair: empty until paid.
    pub payment_record: Option<PaymentRecord>,
    pub payment_bump: u8,
}

/// Fine owed by installment `n` of `loan` when paid at `now`.
pub open spec fn fine_due(loan: Loan, installment_number: u8, now: i64) -> int {
    fine_of(loan.monthly_installment, days_late_of(loan.start_timestamp, installment_number, now))
}

/// The first check that recording a payment fails, if any.
pub open spec fn record_payment_error(
    ctx: RecordPayment,
    now: i64,
    installment_number: u8,
    amount: u64,
    payment_hash: Seq<char>,
) -> Option<LoanError> {
    let loan = ctx.loan;
    let p = ctx.user_profile;
    let on_time = is_on_time(loan.start_timestamp, installment_number, now);
    let fine = fine_due(loan, installment_number, now);
    if ctx.payment_record is Some {
        Some(LoanError::InstallmentAlreadyPaid)
    } else if loan.status != LoanStatus::Active {
        Some(LoanError::LoanNotActive)
    } else if !(0 < installment_number <= loan.tenure_months) {
        Some(LoanError::InvalidInstallmentNumber)
    } else if amount == 0 {
        Some(LoanError::InvalidPaymentAmount)
    } else if byte_len(payment_hash) > PaymentRecord::MAX_HASH_LEN {
        Some(LoanError::InvalidStringFormat)
    } else if assessment_overflows(
        loan.start_timestamp,
        installment_number,
        loan.monthly_installment,
        now,
    ) || loan.monthly_installment + fine > u64::MAX {
        Some(LoanError::MathOverflow)
    } else if amount < loan.monthly_installment + fine {
        Some(LoanError::InsufficientPayment)
    } else if loan.total_repaid + amount > u64::MAX || loan.total_fines + fine > u64::MAX
        || p.total_repaid + amount > u64::MAX || (on_time && p.on_time_payments + 1 > u16::MAX)
        || (!on_time && p.late_payments + 1 > u16::MAX) {
        Some(LoanError::MathOverflow)
    } else {
        None
    }
}

/// The loan after a payment of `amount` that includes `fine`: the balance
/// falls by the part that is not fine, and never below zero.
pub open spec fn loan_after_payment(loan: Loan, amount: u64, fine: int) -> Loan {
    Loan {
        outstanding_balance: if loan.outstanding_balance >= amount - fine {
            (loan.outstanding_balance - (amount - fine)) as u64
        } else {
            0
        },
        total_repaid: (loan.total_repaid + amount) as u64,
        total_fines: (loan.total_fines + fine) as u64,
        ..loan
    }
}

/// The borrower's profile after one payment.
pub open spec fn profile_after_payment(p: UserProfile, now: i64, amount: u64, on_time: bool) -> UserProfile {
    UserProfile {
        total_repaid: (p.total_repaid + amount) as u64,
        on_time_payments: if on_time {
            (p.on_time_payments + 1) as u16
        } else {
            p.on_time_payments
        },
        late_payments: if on_time {
            p.late_payments
        } else {
            (p.late_payments + 1) as u16
        },
        credit_score: score_after_payment(p.credit_score, on_time) as u16,
        last_updated: now,
        ..p
    }
}

/// The payment record that a successful payment creates.
pub open spec fn new_payment_record(
    ctx: RecordPayment,
    now: i64,
    installment_number: u8,
    amount: u64,
    payment_hash: String,
) -> PaymentRecord {
    let loan = ctx.loan;
    PaymentRecord {
        loan: ctx.loan_key,
        user: loan.user,
        installment_number,
        amount,
        fine_amount: fine_due(loan, installment_number, now) as u64,
        payment_timestamp: now,
        payment_hash,
        on_time: is_on_time(loan.start_timestamp, installment_number, now),
        days_late: days_late_of(loan.start_timestamp, installment_number, now) as u16,
        bump: ctx.payment_bump,
    }
}

/// Records the payment of one installment of an active loan at time `now`.
///
/// The installment falls due `installment_number` loan months after the
/// loan's start; after a two-day grace window each whole day late adds a fine
/// of 0.5% of the installment. `amount` must cover the installment and the
/// fine. An installment can be paid only once.
pub fn handler(
    ctx: &mut RecordPayment,
    now: i64,
    installment_number: u8,
    amount: u64,
    payment_hash: String,
) -> (r: Result<PaymentRecorded, LoanError>)
    ensures
        r is Ok <==> record_payment_error(*old(ctx), now, installment_number, amount, payment_hash@)
            is None,
        r matches Err(e) ==> {
            &&& record_payment_error(*old(ctx), now, installment_number, amount, payment_hash@)
                == Some(e)
            &&& *final(ctx) == *old(ctx)
        },
        r matches Ok(event) ==> {
            let record = new_payment_record(
                *old(ctx),
                now,
                installment_number,
                amount,
                payment_hash,
            );
            &&& final(ctx).payment_record == Some(record)
            &&& final(ctx).loan == loan_after_payment(old(ctx).loan, amount, record.fine_amount as int)
            &&& final(ctx).user_profile == profile_after_payment(
                old(ctx).user_profile,
                now,
                amount,
                record.on_time,
            )
            &&& final(ctx).loan_key == old(ctx).loan_key
            &&& final(ctx).payment_bump == old(ctx).payment_bump
            &&& event == (PaymentRecorded {
                loan: record.loan,
                user: record.user,
                installment_number,
                amount,
                fine_amount: record.fine_amount,
                payment_timestamp: now,
                on_time: record.on_time,
                days_late: record.days_late,
            })
        },
{
    if ctx.payment_record.is_some() {
        return Err(LoanError::InstallmentAlreadyPaid);
    }
    if ctx.loan.status != LoanStatus::Active {
        return Err(LoanError::LoanNotActive);
    }
    if !(installment_number > 0 && installment_number <= ctx.loan.tenure_months) {
        return Err(LoanError::InvalidInstallmentNumber);
    }
    if amount == 0 {
        return Err(LoanError::InvalidPaymentAmount);
    }
    if payment_hash.as_str().as_bytes().len() > PaymentRecord::MAX_HASH_LEN {
        return Err(LoanError::InvalidStringFormat);
    }
    let assessment: PaymentAssessment = assess_payment(
        ctx.loan.start_timestamp,
        installment_number,
        ctx.loan.monthly_installment,
        now,
    )?;
    let fine_amount = assessment.fine_amount;
    let on_time = assessment.on_time;
    let total_due = match ctx.loan.monthly_installment.checked_add(fine_amount) {
        Some(n) => n,
        None => return Err(LoanError::MathOverflow),
    };
    if amount < total_due {
        return Err(LoanError::InsufficientPayment);
    }
    let loan_repaid = match ctx.loan.total_repaid.checked_add(amount) {
        Some(n) => n,
        None => return Err(LoanError::MathOverflow),
    };
    let loan_fines = match ctx.loan.total_fines.checked_add(fine_amount) {
        Some(n) => n,
        None => return Err(LoanError::MathOverflow),
    };
    let user_repaid = match ctx.user_profile.total_repaid.checked_add(amount) {
        Some(n) => n,
        None => return Err(LoanError::MathOverflow),
    };
    let mut on_time_payments = ctx.user_profile.on_time_payments;
    let mut late_payments = ctx.user_profile.late_payments;
    if on_time {
        on_time_payments = match on_time_payments.checked_add(1) {
            Some(n) => n,
            None => return Err(LoanError::MathOverflow),
        };
    } else {
        late_payments = match late_payments.checked_add(1) {
            Some(n) => n,
            None => return Err(LoanError::MathOverflow),
        };
    }

    let principal_portion = amount - fine_amount;
    ctx.loan.outstanding_balance = ctx.loan.outstanding_balance.saturating_sub(principal_portion);
    ctx.loan.total_repaid = loan_repaid;
    ctx.loan.total_fines = loan_fines;

    ctx.user_profile.total_repaid = user_repaid;
    ctx.user_profile.on_time_payments = on_time_payments;
    ctx.user_profile.late_payments = late_payments;
    ctx.user_profile.credit_score = apply_payment_outcome(ctx.user_profile.credit_score, on_time);
    ctx.user_profile.last_updated = now;

    let user = ctx.loan.user;
    let loan_key = ctx.loan_key;
    ctx.payment_record = Some(
        PaymentRecord {
            loan: loan_key,
            user,
            installment_number,
            amount,
            fine_amount,
            payment_timestamp: now,
            payment_hash,
            on_time,
            days_late: assessment.days_late,
            bump: ctx.payment_bump,
        },
    );

    Ok(PaymentRecorded {
        loan: loan_key,
        user,
        installment_number,
        amount,
        fine_amount,
        payment_timestamp: now,
        on_time,
        days_late: assessment.days_late,
    })
}

} // verus!
