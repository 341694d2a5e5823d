use vstd::prelude::*;
use vstd::utf8::encode_utf8;

verus! {

/// A 32-byte ledger identity: a user, an administrator or a record address.
#[derive(Clone, Copy, Debug)]
pub struct Address {
    pub bytes: [u8; 32],
}

impl Address {
    /// Two addresses are the same identity when all of their bytes agree.
    pub open spec fn same(self, other: Address) -> bool {
        self.bytes@ == other.bytes@
    }

    pub fn new(bytes: [u8; 32]) -> (r: Address)
        ensures
            r.bytes@ == bytes@,
    {
        Address { bytes }
    }

    /// Compares two identities byte by byte.
    pub fn equals(&self, other: &Address) -> (r: bool)
        ensures
            r == self.same(*other),
    {
        let mut i: usize = 0;
        while i < 32
            invariant
                0 <= i <= 32,
                forall|j: int| 0 <= j < i ==> self.bytes@[j] == other.bytes@[j],
            decreases 32 - i,
        {
            if self.bytes[i] != other.bytes[i] {
                return false;
            }
            i = i + 1;
        }
        assert(self.bytes@ =~= other.bytes@);
        true
    }
}

/// Number of bytes that a string occupies in its UTF-8 encoding.
pub open spec fn byte_len(s: Seq<char>) -> nat {
    encode_utf8(s).len()
}

#[derive(Clone, Copy, Debug, PartialEq, Eq, Structural)]
pub enum EmploymentType {
    Salaried,
    SelfEmployed,
    BusinessOwner,
    DailyWage,
    Unemployed,
}

#[derive(Clone, Copy, Debug, PartialEq, Eq, Structural)]
pub enum LoanStatus {
    Active,
    Completed,
    Defaulted,
    Cancelled,
}

#[derive(Clone, Copy, Debug, PartialEq, Eq, Structural)]
pub enum RiskLevel {
    Low,
    Medium,
    High,
    Critical,
}

/// The single program-wide record: administrator and global aggregates.
#[derive(Clone, Copy, Debug)]
pub struct LoanProgramState {
    pub authority: Address,
    pub total_users: u64,
    pub total_loans: u64,
    pub total_volume: u64,
    /// Program fee in hundredths of a percent.
    pub fee_percentage: u16,
    pub paused: bool,
    pub bump: u8,
}

impl LoanProgramState {
    /// Stored size: discriminator followed by the fields in order.
    pub const LEN: usize = 8 + 32 + 8 + 8 + 8 + 2 + 1 + 1;
}

/// One borrower's profile, keyed by the borrower's identity.
#[derive(Clone, Debug)]
pub struct UserProfile {
    pub authority: Address,
    pub full_name: String,
    pub monthly_income: u64,
    pub employment_type: EmploymentType,
    pub total_loans: u16,
    pub active_loans: u8,
    pub completed_loans: u16,
    pub defaulted_loans: u8,
    pub total_borrowed: u64,
    pub total_repaid: u64,
    pub on_time_payments: u16,
    pub late_payments: u16,
    pub missed_payments: u16,
    pub credit_score: u16,
    pub risk_level: RiskLevel,
    pub registration_timestamp: i64,
    pub last_updated: i64,
    pub bump: u8,
}

impl UserProfile {
    /// Longest accepted name, in bytes.
    pub const MAX_NAME_LEN: usize = 100;

    /// Stored size, with the name's length prefix and its maximum length.
    pub const LEN: usize = 8 + 32 + (4 + 100) + 8 + 1 + 2 + 1 + 2 + 1 + 8 + 8 + 2 + 2 + 2 + 2 + 1 + 8
        + 8 + 1;
}

/// One loan, keyed by borrower and the program's running loan counter.
#[derive(Clone, Copy, Debug)]
pub struct Loan {
    pub user: Address,
    pub loan_id: u64,
    pub principal_amount: u64,
    /// Annual rate in hundredths of a percent.
    pub interest_rate: u16,
    pub tenure_months: u8,
    pub monthly_installment: u64,
    pub total_amount: u64,
    pub outstanding_balance: u64,
    pub total_repaid: u64,
    pub total_fines: u64,
    pub start_timestamp: i64,
    pub end_timestamp: i64,
    pub status: LoanStatus,
    pub created_timestamp: i64,
    pub completed_timestamp: Option<i64>,
    pub defaulted_timestamp: Option<i64>,
    pub bump: u8,
}

impl Loan {
    pub const LEN: usize = 8 + 32 + 8 + 8 + 2 + 1 + 8 + 8 + 8 + 8 + 8 + 8 + 8 + 1 + 8 + (1 + 8) + (1
        + 8) + 1;
}

/// The record of one paid installment, keyed by loan and installment number.
#[derive(Clone, Debug)]
pub struct PaymentRecord {
    pub loan: Address,
    pub user: Address,
    pub installment_number: u8,
    pub amount: u64,
    pub fine_amount: u64,
    pub payment_timestamp: i64,
    pub payment_hash: String,
    pub on_time: bool,
    pub days_late: u16,
    pub bump: u8,
}

impl PaymentRecord {
    /// Longest accepted payment proof token, in bytes.
    pub const MAX_HASH_LEN: usize = 100;

    pub const LEN: usize = 8 + 32 + 32 + 1 + 8 + 8 + 8 + (4 + 100) + 1 + 2 + 1;
}

/// The latest risk assessment of one borrower.
#[derive(Clone, Copy, Debug)]
pub struct RiskProfile {
    pub user: Address,
    pub risk_score: u16,
    pub risk_level: RiskLevel,
    /// Probability of default in basis points.
    pub default_probability: u16,
    pub recommended_max_loan: u64,
    pub last_calculated: i64,
    pub factors_count: u8,
    pub bump: u8,
}

impl RiskProfile {
    pub const LEN: usize = 8 + 32 + 2 + 1 + 2 + 8 + 8 + 1 + 1;
}

} // verus!
