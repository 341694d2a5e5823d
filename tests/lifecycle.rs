use loan_management::errors::LoanError;
use loan_management::state::{
    Address, EmploymentType, Loan, LoanProgramState, LoanStatus, PaymentRecord, RiskLevel,
    UserProfile,
};
use loan_management::{
    create_loan, get_credit_score, initialize, mark_loan_completed, mark_loan_defaulted,
    record_payment, register_user, update_risk_score, update_user_profile, waive_fine, CreateLoan,
    GetCreditScore, Initialize, MarkLoanCompleted, MarkLoanDefaulted, RecordPayment, RegisterUser,
    UpdateRiskScore, UpdateUserProfile, WaiveFine,
};

const DAY: i64 = 86_400;
const MONTH: i64 = 30 * DAY;
const START: i64 = 1_700_000_000;

fn admin() -> Address {
    Address::new([1u8; 32])
}

fn borrower() -> Address {
    Address::new([2u8; 32])
}

fn loan_address() -> Address {
    Address::new([3u8; 32])
}

fn program() -> LoanProgramState {
    LoanProgramState {
        authority: admin(),
        total_users: 0,
        total_loans: 0,
        total_volume: 0,
        fee_percentage: 100,
        paused: false,
        bump: 255,
    }
}

fn profile() -> UserProfile {
    let mut ctx = RegisterUser {
        user_profile: None,
        program_state: program(),
        authority: borrower(),
        profile_bump: 254,
    };
    register_user(&mut ctx, START, "Ayesha Khan".to_string(), 80_000_000_000, EmploymentType::Salaried)
        .unwrap();
    ctx.user_profile.unwrap()
}

fn empty_loan() -> Loan {
    Loan {
        user: Address::new([0u8; 32]),
        loan_id: 0,
        principal_amount: 0,
        interest_rate: 0,
        tenure_months: 0,
        monthly_installment: 0,
        total_amount: 0,
        outstanding_balance: 0,
        total_repaid: 0,
        total_fines: 0,
        start_timestamp: 0,
        end_timestamp: 0,
        status: LoanStatus::Cancelled,
        created_timestamp: 0,
        completed_timestamp: None,
        defaulted_timestamp: None,
        bump: 0,
    }
}

/// The amortized installment, computed as a ledger client would.
fn amortized_installment(principal: u64, rate: u16, tenure: u8) -> u64 {
    let monthly_rate = (rate as f64) / 12.0 / 10000.0;
    let growth = (1.0 + monthly_rate).powf(tenure as f64);
    ((principal as f64) * monthly_rate * growth / (growth - 1.0)) as u64
}

fn origination(user_profile: UserProfile) -> CreateLoan {
    CreateLoan {
        user_profile,
        loan: empty_loan(),
        program_state: program(),
        user_authority: borrower(),
        loan_bump: 253,
    }
}

fn active_loan(principal: u64, rate: u16, tenure: u8) -> (Loan, UserProfile) {
    let mut ctx = origination(profile());
    let installment = amortized_installment(principal, rate, tenure);
    create_loan(&mut ctx, START, principal, rate, tenure, START, installment).unwrap();
    (ctx.loan, ctx.user_profile)
}

fn payment(loan: Loan, user_profile: UserProfile) -> RecordPayment {
    RecordPayment {
        loan,
        loan_key: loan_address(),
        user_profile,
        payment_record: None,
        payment_bump: 252,
    }
}

#[test]
fn initialize_sets_up_empty_program() {
    let mut ctx = Initialize { program_state: program(), authority: admin(), program_bump: 9 };
    ctx.program_state.total_users = 5;
    assert_eq!(initialize(&mut ctx, 250), Ok(()));
    assert_eq!(ctx.program_state.total_users, 0);
    assert_eq!(ctx.program_state.fee_percentage, 250);
    assert_eq!(ctx.program_state.bump, 9);
    assert!(!ctx.program_state.paused);
    assert!(ctx.program_state.authority.equals(&admin()));
}

#[test]
fn initialize_rejects_fee_above_ten_percent() {
    let mut ctx = Initialize { program_state: program(), authority: admin(), program_bump: 9 };
    assert_eq!(initialize(&mut ctx, 1001), Err(LoanError::InvalidInterestRate));
    assert_eq!(ctx.program_state.fee_percentage, 100);
}

#[test]
fn register_creates_profile_with_starting_score() {
    let mut ctx = RegisterUser {
        user_profile: None,
        program_state: program(),
        authority: borrower(),
        profile_bump: 254,
    };
    let event = register_user(&mut ctx, START, "Ali".to_string(), 50_000, EmploymentType::DailyWage)
        .unwrap();
    let p = ctx.user_profile.unwrap();
    assert_eq!(p.credit_score, 500);
    assert_eq!(p.risk_level, RiskLevel::Medium);
    assert_eq!(p.active_loans, 0);
    assert_eq!(p.full_name, "Ali");
    assert_eq!(p.registration_timestamp, START);
    assert_eq!(ctx.program_state.total_users, 1);
    assert_eq!(event.full_name, "Ali");
    assert_eq!(event.monthly_income, 50_000);
}

#[test]
fn register_same_identity_twice_fails() {
    let mut ctx = RegisterUser {
        user_profile: None,
        program_state: program(),
        authority: borrower(),
        profile_bump: 254,
    };
    assert!(register_user(&mut ctx, START, "Ali".to_string(), 50_000, EmploymentType::Salaried).is_ok());
    assert_eq!(
        register_user(&mut ctx, START + 1, "Ali".to_string(), 50_000, EmploymentType::Salaried)
            .unwrap_err(),
        LoanError::UserAlreadyRegistered
    );
    assert_eq!(ctx.program_state.total_users, 1);
}

#[test]
fn register_rejects_paused_long_name_and_no_income() {
    let mut ctx = RegisterUser {
        user_profile: None,
        program_state: program(),
        authority: borrower(),
        profile_bump: 254,
    };
    let long_name = "x".repeat(101);
    assert_eq!(
        register_user(&mut ctx, START, long_name, 1, EmploymentType::Salaried).unwrap_err(),
        LoanError::NameTooLong
    );
    // 50 two-byte characters are exactly 100 bytes.
    assert!(register_user(&mut ctx, START, "é".repeat(50), 1, EmploymentType::Salaried).is_ok());
    ctx.user_profile = None;
    assert_eq!(
        register_user(&mut ctx, START, "é".repeat(51), 1, EmploymentType::Salaried).unwrap_err(),
        LoanError::NameTooLong
    );
    assert_eq!(
        register_user(&mut ctx, START, "Ali".to_string(), 0, EmploymentType::Unemployed).unwrap_err(),
        LoanError::IncomeTooLow
    );
    ctx.program_state.paused = true;
    assert_eq!(
        register_user(&mut ctx, START, "Ali".to_string(), 1, EmploymentType::Salaried).unwrap_err(),
        LoanError::ProgramPaused
    );
    assert!(ctx.user_profile.is_none());
}

#[test]
fn register_counter_overflow_fails() {
    let mut ctx = RegisterUser {
        user_profile: None,
        program_state: program(),
        authority: borrower(),
        profile_bump: 254,
    };
    ctx.program_state.total_users = u64::MAX;
    assert_eq!(
        register_user(&mut ctx, START, "Ali".to_string(), 1, EmploymentType::Salaried).unwrap_err(),
        LoanError::MathOverflow
    );
}

#[test]
fn owner_updates_income_and_employment() {
    let mut ctx = UpdateUserProfile { user_profile: profile(), authority: borrower() };
    assert_eq!(
        update_user_profile(&mut ctx, START + 5, Some(90_000), Some(EmploymentType::BusinessOwner)),
        Ok(())
    );
    assert_eq!(ctx.user_profile.monthly_income, 90_000);
    assert_eq!(ctx.user_profile.employment_type, EmploymentType::BusinessOwner);
    assert_eq!(ctx.user_profile.last_updated, START + 5);
    assert_eq!(update_user_profile(&mut ctx, START + 6, None, None), Ok(()));
    assert_eq!(ctx.user_profile.monthly_income, 90_000);
}

#[test]
fn profile_update_checks_owner_and_income() {
    let mut ctx = UpdateUserProfile { user_profile: profile(), authority: admin() };
    assert_eq!(update_user_profile(&mut ctx, START, Some(1), None), Err(LoanError::Unauthorized));
    ctx.authority = borrower();
    assert_eq!(update_user_profile(&mut ctx, START, Some(0), None), Err(LoanError::IncomeTooLow));
    assert_eq!(ctx.user_profile.monthly_income, 80_000_000_000);
}

#[test]
fn twelve_month_loan_at_twelve_percent() {
    let principal = 10_000_000_000;
    let installment = amortized_installment(principal, 1200, 12);
    let mut ctx = origination(profile());
    let event = create_loan(&mut ctx, START + 7, principal, 1200, 12, START, installment).unwrap();
    assert!(ctx.loan.monthly_installment > 0);
    assert_eq!(ctx.loan.monthly_installment * 12, ctx.loan.total_amount);
    assert!(ctx.loan.total_amount > principal);
    assert_eq!(ctx.loan.outstanding_balance, ctx.loan.total_amount);
    assert_eq!(ctx.loan.status, LoanStatus::Active);
    assert_eq!(ctx.loan.end_timestamp, START + 12 * MONTH);
    assert_eq!(ctx.loan.created_timestamp, START + 7);
    assert_eq!(ctx.loan.loan_id, 0);
    assert_eq!(ctx.user_profile.active_loans, 1);
    assert_eq!(ctx.user_profile.total_loans, 1);
    assert_eq!(ctx.user_profile.total_borrowed, principal);
    assert_eq!(ctx.program_state.total_loans, 1);
    assert_eq!(ctx.program_state.total_volume, principal);
    assert_eq!(event.total_amount, ctx.loan.total_amount);
}

#[test]
fn loan_takes_running_counter_as_id() {
    let mut ctx = origination(profile());
    ctx.program_state.total_loans = 41;
    ctx.program_state.total_volume = 7;
    create_loan(&mut ctx, START, 5_000_000_000, 100, 3, START, 1_700_000_000).unwrap();
    assert_eq!(ctx.loan.loan_id, 41);
    assert_eq!(ctx.program_state.total_loans, 42);
    assert_eq!(ctx.program_state.total_volume, 5_000_000_007);
    assert_eq!(ctx.loan.total_amount, 5_100_000_000);
}

#[test]
fn second_active_loan_is_refused() {
    let (_, p) = active_loan(10_000_000_000, 1200, 12);
    let mut ctx = origination(p);
    assert_eq!(
        create_loan(&mut ctx, START, 10_000_000_000, 1200, 12, START, 900_000_000).unwrap_err(),
        LoanError::ActiveLoanExists
    );
    assert_eq!(ctx.user_profile.active_loans, 1);
    assert_eq!(ctx.program_state.total_loans, 0);
}

#[test]
fn loan_creation_rejects_bad_terms_and_pause() {
    let mut ctx = origination(profile());
    assert_eq!(
        create_loan(&mut ctx, START, 1_000, 1200, 12, START, 1).unwrap_err(),
        LoanError::InvalidLoanAmount
    );
    assert_eq!(
        create_loan(&mut ctx, START, 10_000_000_000, 0, 12, START, 1).unwrap_err(),
        LoanError::InvalidInterestRate
    );
    assert_eq!(
        create_loan(&mut ctx, START, 10_000_000_000, 1200, 61, START, 1).unwrap_err(),
        LoanError::InvalidTenure
    );
    ctx.program_state.paused = true;
    assert_eq!(
        create_loan(&mut ctx, START, 10_000_000_000, 1200, 12, START, 1).unwrap_err(),
        LoanError::ProgramPaused
    );
}

#[test]
fn loan_creation_overflow_fails_without_changes() {
    let mut ctx = origination(profile());
    assert_eq!(
        create_loan(&mut ctx, START, 10_000_000_000, 1200, 12, START, u64::MAX / 4).unwrap_err(),
        LoanError::MathOverflow
    );
    ctx.program_state.total_volume = u64::MAX - 1;
    assert_eq!(
        create_loan(&mut ctx, START, 10_000_000_000, 1200, 12, START, 1).unwrap_err(),
        LoanError::MathOverflow
    );
    assert_eq!(ctx.user_profile.total_loans, 0);
    assert_eq!(ctx.user_profile.active_loans, 0);
    assert_eq!(ctx.loan.status, LoanStatus::Cancelled);
}

#[test]
fn on_time_payment_reduces_balance_and_raises_score() {
    let (loan, p) = active_loan(10_000_000_000, 1200, 12);
    let installment = loan.monthly_installment;
    let mut ctx = payment(loan, p);
    let event = record_payment(&mut ctx, START + MONTH, 1, installment, "tx-1".to_string()).unwrap();
    assert!(event.on_time);
    assert_eq!(event.days_late, 0);
    assert_eq!(event.fine_amount, 0);
    assert_eq!(ctx.loan.outstanding_balance, installment * 11);
    assert_eq!(ctx.loan.total_repaid, installment);
    assert_eq!(ctx.user_profile.credit_score, 502);
    assert_eq!(ctx.user_profile.on_time_payments, 1);
    assert_eq!(ctx.user_profile.total_repaid, installment);
    let record = ctx.payment_record.unwrap();
    assert_eq!(record.installment_number, 1);
    assert_eq!(record.payment_hash, "tx-1");
    assert!(record.loan.equals(&loan_address()));
    assert!(record.user.equals(&borrower()));
}

#[test]
fn payment_five_days_late_is_fined() {
    let (loan, p) = active_loan(10_000_000_000, 1200, 12);
    let installment = loan.monthly_installment;
    let fine = installment * 50 * 5 / 10_000;
    let paid_at = START + MONTH + 2 * DAY + 5 * DAY + 60;

    let mut short = payment(loan, p.clone());
    assert_eq!(
        record_payment(&mut short, paid_at, 1, installment + fine - 1, "tx".to_string()).unwrap_err(),
        LoanError::InsufficientPayment
    );
    assert!(short.payment_record.is_none());

    let mut ctx = payment(loan, p);
    let event = record_payment(&mut ctx, paid_at, 1, installment + fine, "tx".to_string()).unwrap();
    assert!(!event.on_time);
    assert_eq!(event.days_late, 5);
    assert_eq!(event.fine_amount, fine);
    assert_eq!(ctx.loan.total_fines, fine);
    assert_eq!(ctx.loan.total_repaid, installment + fine);
    // The fine is not part of the principal owed.
    assert_eq!(ctx.loan.outstanding_balance, installment * 11);
    assert_eq!(ctx.user_profile.late_payments, 1);
    assert_eq!(ctx.user_profile.credit_score, 495);
}

#[test]
fn installment_is_paid_only_once() {
    let (loan, p) = active_loan(10_000_000_000, 1200, 12);
    let installment = loan.monthly_installment;
    let mut ctx = payment(loan, p);
    assert!(record_payment(&mut ctx, START + MONTH, 3, installment, "a".to_string()).is_ok());
    let balance = ctx.loan.outstanding_balance;
    assert_eq!(
        record_payment(&mut ctx, START + MONTH, 3, installment, "a".to_string()).unwrap_err(),
        LoanError::InstallmentAlreadyPaid
    );
    assert_eq!(ctx.loan.outstanding_balance, balance);
}

#[test]
fn payment_validation_errors() {
    let (loan, p) = active_loan(10_000_000_000, 1200, 12);
    let installment = loan.monthly_installment;
    let mut ctx = payment(loan, p);
    assert_eq!(
        record_payment(&mut ctx, START, 0, installment, String::new()).unwrap_err(),
        LoanError::InvalidInstallmentNumber
    );
    assert_eq!(
        record_payment(&mut ctx, START, 13, installment, String::new()).unwrap_err(),
        LoanError::InvalidInstallmentNumber
    );
    assert_eq!(
        record_payment(&mut ctx, START, 1, 0, String::new()).unwrap_err(),
        LoanError::InvalidPaymentAmount
    );
    assert_eq!(
        record_payment(&mut ctx, START, 1, installment, "h".repeat(101)).unwrap_err(),
        LoanError::InvalidStringFormat
    );
    assert!(record_payment(&mut ctx, START, 1, installment, "h".repeat(100)).is_ok());

    let mut closed = payment(loan, ctx.user_profile.clone());
    closed.loan.status = LoanStatus::Completed;
    assert_eq!(
        record_payment(&mut closed, START, 2, installment, String::new()).unwrap_err(),
        LoanError::LoanNotActive
    );
}

#[test]
fn full_repayment_then_completion() {
    let (loan, p) = active_loan(10_000_000_000, 1200, 12);
    let installment = loan.monthly_installment;
    let mut loan = loan;
    let mut p = p;
    let mut previous = loan.outstanding_balance;
    for n in 1..=12u8 {
        let mut done = MarkLoanCompleted { loan, user_profile: p.clone() };
        assert_eq!(mark_loan_completed(&mut done, START).unwrap_err(), LoanError::InsufficientPayment);

        let mut ctx = payment(loan, p);
        record_payment(&mut ctx, START + (n as i64) * MONTH, n, installment, "t".to_string()).unwrap();
        assert!(ctx.loan.outstanding_balance <= previous);
        previous = ctx.loan.outstanding_balance;
        loan = ctx.loan;
        p = ctx.user_profile;
    }
    assert_eq!(loan.outstanding_balance, 0);
    assert_eq!(p.credit_score, 524);

    let mut done = MarkLoanCompleted { loan, user_profile: p };
    let event = mark_loan_completed(&mut done, START + 400 * DAY).unwrap();
    assert_eq!(done.loan.status, LoanStatus::Completed);
    assert_eq!(done.loan.completed_timestamp, Some(START + 400 * DAY));
    assert_eq!(done.user_profile.active_loans, 0);
    assert_eq!(done.user_profile.completed_loans, 1);
    assert_eq!(done.user_profile.credit_score, 544);
    assert_eq!(event.total_repaid, installment * 12);
    assert_eq!(mark_loan_completed(&mut done, START).unwrap_err(), LoanError::LoanNotActive);
}

#[test]
fn overpayment_leaves_balance_at_zero() {
    let (loan, p) = active_loan(10_000_000_000, 1200, 12);
    let mut ctx = payment(loan, p);
    record_payment(&mut ctx, START, 1, u64::MAX / 2, String::new()).unwrap();
    assert_eq!(ctx.loan.outstanding_balance, 0);
}

#[test]
fn default_marks_loan_and_penalises_borrower() {
    let (loan, p) = active_loan(10_000_000_000, 1200, 12);
    let mut ctx = MarkLoanDefaulted { loan, user_profile: p };
    let event = mark_loan_defaulted(&mut ctx, START + 200 * DAY).unwrap();
    assert_eq!(ctx.loan.status, LoanStatus::Defaulted);
    assert_eq!(ctx.loan.defaulted_timestamp, Some(START + 200 * DAY));
    assert_eq!(ctx.user_profile.risk_level, RiskLevel::Critical);
    assert_eq!(ctx.user_profile.credit_score, 400);
    assert_eq!(ctx.user_profile.active_loans, 0);
    assert_eq!(ctx.user_profile.defaulted_loans, 1);
    assert_eq!(event.outstanding_balance, loan.outstanding_balance);
    assert_eq!(mark_loan_defaulted(&mut ctx, START).unwrap_err(), LoanError::LoanNotActive);
}

#[test]
fn default_floors_score() {
    let (loan, mut p) = active_loan(10_000_000_000, 1200, 12);
    p.credit_score = 340;
    let mut ctx = MarkLoanDefaulted { loan, user_profile: p };
    mark_loan_defaulted(&mut ctx, START).unwrap();
    assert_eq!(ctx.user_profile.credit_score, 300);
}

#[test]
fn default_of_repaid_loan_is_refused() {
    let (mut loan, p) = active_loan(10_000_000_000, 1200, 12);
    loan.outstanding_balance = 0;
    let mut ctx = MarkLoanDefaulted { loan, user_profile: p };
    assert_eq!(mark_loan_defaulted(&mut ctx, START).unwrap_err(), LoanError::LoanAlreadyCompleted);
    assert_eq!(ctx.loan.status, LoanStatus::Active);
}

#[test]
fn late_payments_never_push_score_below_floor() {
    let (loan, mut p) = active_loan(10_000_000_000, 1200, 60);
    p.credit_score = 312;
    let mut loan = loan;
    for n in 1..=4u8 {
        let mut ctx = payment(loan, p);
        let at = START + (n as i64) * MONTH + 3 * DAY;
        record_payment(&mut ctx, at, n, loan.monthly_installment * 2, String::new()).unwrap();
        assert!(ctx.user_profile.credit_score >= 300);
        loan = ctx.loan;
        p = ctx.user_profile;
    }
    assert_eq!(p.credit_score, 300);
}

#[test]
fn waiver_reduces_fines_only() {
    let (mut loan, _) = active_loan(10_000_000_000, 1200, 12);
    loan.total_fines = 5_000;
    let record = PaymentRecord {
        loan: loan_address(),
        user: borrower(),
        installment_number: 2,
        amount: loan.monthly_installment + 3_000,
        fine_amount: 3_000,
        payment_timestamp: START,
        payment_hash: String::new(),
        on_time: false,
        days_late: 1,
        bump: 1,
    };
    let balance = loan.outstanding_balance;
    let mut ctx = WaiveFine {
        loan,
        loan_key: loan_address(),
        payment_record: record,
        program_state: program(),
        admin: admin(),
    };
    let event = waive_fine(&mut ctx, START, 2, 2_000).unwrap();
    assert_eq!(ctx.loan.total_fines, 3_000);
    assert_eq!(ctx.loan.outstanding_balance, balance);
    assert_eq!(ctx.payment_record.fine_amount, 3_000);
    assert_eq!(event.waived_amount, 2_000);
    assert_eq!(waive_fine(&mut ctx, START, 2, 3_001).unwrap_err(), LoanError::InvalidPaymentAmount);
    ctx.admin = borrower();
    assert_eq!(waive_fine(&mut ctx, START, 2, 1).unwrap_err(), LoanError::Unauthorized);
}

#[test]
fn waiver_cannot_exceed_loan_fines() {
    let (mut loan, _) = active_loan(10_000_000_000, 1200, 12);
    loan.total_fines = 100;
    let record = PaymentRecord {
        loan: loan_address(),
        user: borrower(),
        installment_number: 1,
        amount: 0,
        fine_amount: 3_000,
        payment_timestamp: START,
        payment_hash: String::new(),
        on_time: false,
        days_late: 1,
        bump: 1,
    };
    let mut ctx = WaiveFine {
        loan,
        loan_key: loan_address(),
        payment_record: record,
        program_state: program(),
        admin: admin(),
    };
    assert_eq!(waive_fine(&mut ctx, START, 1, 101).unwrap_err(), LoanError::InvalidPaymentAmount);
    assert_eq!(ctx.loan.total_fines, 100);
}

#[test]
fn risk_update_writes_both_profiles() {
    let mut ctx = UpdateRiskScore {
        user_profile: profile(),
        risk_profile: None,
        program_state: program(),
        user: borrower(),
        admin: admin(),
        risk_bump: 7,
    };
    let event = update_risk_score(&mut ctx, START + 9, 720, RiskLevel::Low, 150).unwrap();
    assert_eq!(event.old_score, 500);
    assert_eq!(event.new_score, 720);
    assert_eq!(ctx.user_profile.credit_score, 720);
    assert_eq!(ctx.user_profile.risk_level, RiskLevel::Low);
    let risk = ctx.risk_profile.unwrap();
    assert_eq!(risk.risk_score, 720);
    assert_eq!(risk.default_probability, 150);
    assert_eq!(risk.recommended_max_loan, 500_000_000_000);
    assert_eq!(risk.factors_count, 5);
    assert_eq!(risk.last_calculated, START + 9);

    let again = update_risk_score(&mut ctx, START + 10, 400, RiskLevel::High, 9000).unwrap();
    assert_eq!(again.old_score, 720);
    assert_eq!(ctx.risk_profile.unwrap().recommended_max_loan, 240_000_000_000);
}

#[test]
fn risk_update_validation_errors() {
    let mut ctx = UpdateRiskScore {
        user_profile: profile(),
        risk_profile: None,
        program_state: program(),
        user: borrower(),
        admin: admin(),
        risk_bump: 7,
    };
    assert_eq!(
        update_risk_score(&mut ctx, START, 1001, RiskLevel::Low, 0).unwrap_err(),
        LoanError::InvalidRiskScore
    );
    assert_eq!(
        update_risk_score(&mut ctx, START, 1000, RiskLevel::Low, 10_001).unwrap_err(),
        LoanError::InvalidDefaultProbability
    );
    ctx.user_profile.monthly_income = u64::MAX / 2;
    assert_eq!(
        update_risk_score(&mut ctx, START, 600, RiskLevel::Medium, 0).unwrap_err(),
        LoanError::MathOverflow
    );
    ctx.admin = borrower();
    assert_eq!(
        update_risk_score(&mut ctx, START, 600, RiskLevel::Medium, 0).unwrap_err(),
        LoanError::Unauthorized
    );
    assert!(ctx.risk_profile.is_none());
    assert_eq!(ctx.user_profile.credit_score, 500);
}

#[test]
fn credit_score_query_returns_current_score() {
    let mut p = profile();
    p.credit_score = 612;
    assert_eq!(get_credit_score(&GetCreditScore { user_profile: p }), Ok(612));
}
