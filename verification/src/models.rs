use vstd::prelude::*;

use crate::calendar::Date;
use crate::errors::AppError;
use crate::text::str_eq;

verus! {

/// Whether an account holds what the owner has (`Asset`) or what the owner
/// owes (`Liability`). A liability account's balance may never be positive.
#[derive(Debug, Clone, Copy, PartialEq, Eq, Structural)]
pub enum AccountType {
    Asset,
    Liability,
}

impl AccountType {
    pub open spec fn spec_str(self) -> Seq<char> {
        match self {
            AccountType::Asset => "Asset"@,
            AccountType::Liability => "Liability"@,
        }
    }

    pub open spec fn spec_of_str(s: Seq<char>) -> Result<AccountType, AppError> {
        if s == "Asset"@ {
            Ok(AccountType::Asset)
        } else if s == "Liability"@ {
            Ok(AccountType::Liability)
        } else {
            Err(AppError::InvalidInput)
        }
    }

    /// The stable text under which the store encodes this variant.
    pub fn as_str(&self) -> (r: &'static str)
        ensures
            r@ == self.spec_str(),
    {
        match self {
            AccountType::Asset => "Asset",
            AccountType::Liability => "Liability",
        }
    }

    /// Decodes the store's text encoding; unknown text is `InvalidInput`.
    pub fn from_db(value: &str) -> (r: Result<AccountType, AppError>)
        ensures
            r == AccountType::spec_of_str(value@),
    {
        if str_eq(value, "Asset") {
            Ok(AccountType::Asset)
        } else if str_eq(value, "Liability") {
            Ok(AccountType::Liability)
        } else {
            Err(AppError::InvalidInput)
        }
    }
}

/// A classification tag on accounts; it has no effect on the engine's rules.
#[derive(Debug, Clone, Copy, PartialEq, Eq, Structural)]
pub enum AssetPurpose {
    Investment,
    Productivity,
    LifeSupport,
    Spiritual,
}

impl AssetPurpose {
    pub open spec fn spec_str(self) -> Seq<char> {
        match self {
            AssetPurpose::Investment => "Investment"@,
            AssetPurpose::Productivity => "Productivity"@,
            AssetPurpose::LifeSupport => "LifeSupport"@,
            AssetPurpose::Spiritual => "Spiritual"@,
        }
    }

    pub open spec fn spec_of_str(s: Seq<char>) -> Result<AssetPurpose, AppError> {
        if s == "Investment"@ {
            Ok(AssetPurpose::Investment)
        } else if s == "Productivity"@ {
            Ok(AssetPurpose::Productivity)
        } else if s == "LifeSupport"@ {
            Ok(AssetPurpose::LifeSupport)
        } else if s == "Spiritual"@ {
            Ok(AssetPurpose::Spiritual)
        } else {
            Err(AppError::InvalidInput)
        }
    }

    /// The stable text under which the store encodes this variant.
    pub fn as_str(&self) -> (r: &'static str)
        ensures
            r@ == self.spec_str(),
    {
        match self {
            AssetPurpose::Investment => "Investment",
            AssetPurpose::Productivity => "Productivity",
            AssetPurpose::LifeSupport => "LifeSupport",
            AssetPurpose::Spiritual => "Spiritual",
        }
    }

    /// Decodes the store's text encoding; unknown text is `InvalidInput`.
    pub fn from_db(value: &str) -> (r: Result<AssetPurpose, AppError>)
        ensures
            r == AssetPurpose::spec_of_str(value@),
    {
        if str_eq(value, "Investment") {
            Ok(AssetPurpose::Investment)
        } else if str_eq(value, "Productivity") {
            Ok(AssetPurpose::Productivity)
        } else if str_eq(value, "LifeSupport") {
            Ok(AssetPurpose::LifeSupport)
        } else if str_eq(value, "Spiritual") {
            Ok(AssetPurpose::Spiritual)
        } else {
            Err(AppError::InvalidInput)
        }
    }
}

/// The economic nature of a transaction: an ordinary cash `Flow`, a
/// non-cash `Depreciation` posting, or a reconciliation `Adjustment`.
#[derive(Debug, Clone, Copy, PartialEq, Eq, Structural)]
pub enum AccrualType {
    Flow,
    Depreciation,
    Adjustment,
}

impl AccrualType {
    pub open spec fn spec_str(self) -> Seq<char> {
        match self {
            AccrualType::Flow => "Flow"@,
            AccrualType::Depreciation => "Depreciation"@,
            AccrualType::Adjustment => "Adjustment"@,
        }
    }

    pub open spec fn spec_of_str(s: Seq<char>) -> Result<AccrualType, AppError> {
        if s == "Flow"@ {
            Ok(AccrualType::Flow)
        } else if s == "Depreciation"@ {
            Ok(AccrualType::Depreciation)
        } else if s == "Adjustment"@ {
            Ok(AccrualType::Adjustment)
        } else {
            Err(AppError::InvalidInput)
        }
    }

    /// The stable text under which the store encodes this variant.
    pub fn as_str(&self) -> (r: &'static str)
        ensures
            r@ == self.spec_str(),
    {
        match self {
            AccrualType::Flow => "Flow",
            AccrualType::Depreciation => "Depreciation",
            AccrualType::Adjustment => "Adjustment",
        }
    }

    /// Decodes the store's text encoding; unknown text is `InvalidInput`.
    pub fn from_db(value: &str) -> (r: Result<AccrualType, AppError>)
        ensures
            r == AccrualType::spec_of_str(value@),
    {
        if str_eq(value, "Flow") {
            Ok(AccrualType::Flow)
        } else if str_eq(value, "Depreciation") {
            Ok(AccrualType::Depreciation)
        } else if str_eq(value, "Adjustment") {
            Ok(AccrualType::Adjustment)
        } else {
            Err(AppError::InvalidInput)
        }
    }
}

/// How a purchase is expensed over its schedule: equal monthly parts
/// (`Linear`) or weighted toward the early periods (`Accelerated`).
#[derive(Debug, Clone, Copy, PartialEq, Eq, Structural)]
pub enum AmortizationStrategy {
    Linear,
    Accelerated,
}

impl AmortizationStrategy {
    pub open spec fn spec_str(self) -> Seq<char> {
        match self {
            AmortizationStrategy::Linear => "Linear"@,
            AmortizationStrategy::Accelerated => "Accelerated"@,
        }
    }

    pub open spec fn spec_of_str(s: Seq<char>) -> Result<AmortizationStrategy, AppError> {
        if s == "Linear"@ {
            Ok(AmortizationStrategy::Linear)
        } else if s == "Accelerated"@ {
            Ok(AmortizationStrategy::Accelerated)
        } else {
            Err(AppError::InvalidInput)
        }
    }

    /// The stable text under which the store encodes this variant.
    pub fn as_str(&self) -> (r: &'static str)
        ensures
            r@ == self.spec_str(),
    {
        match self {
            AmortizationStrategy::Linear => "Linear",
            AmortizationStrategy::Accelerated => "Accelerated",
        }
    }

    /// Decodes the store's text encoding; unknown text is `InvalidInput`.
    pub fn from_db(value: &str) -> (r: Result<AmortizationStrategy, AppError>)
        ensures
            r == AmortizationStrategy::spec_of_str(value@),
    {
        if str_eq(value, "Linear") {
            Ok(AmortizationStrategy::Linear)
        } else if str_eq(value, "Accelerated") {
            Ok(AmortizationStrategy::Accelerated)
        } else {
            Err(AppError::InvalidInput)
        }
    }
}

/// The life stage of an amortization schedule. The engine moves a schedule
/// from `Active` to `Completed` when its final period posts; `Cancelled` is
/// reachable only through an external collaborator.
#[derive(Debug, Clone, Copy, PartialEq, Eq, Structural)]
pub enum ScheduleStatus {
    Active,
    Completed,
    Cancelled,
}

impl ScheduleStatus {
    pub open spec fn spec_str(self) -> Seq<char> {
        match self {
            ScheduleStatus::Active => "Active"@,
            ScheduleStatus::Completed => "Completed"@,
            ScheduleStatus::Cancelled => "Cancelled"@,
        }
    }

    pub open spec fn spec_of_str(s: Seq<char>) -> Result<ScheduleStatus, AppError> {
        if s == "Active"@ {
            Ok(ScheduleStatus::Active)
        } else if s == "Completed"@ {
            Ok(ScheduleStatus::Completed)
        } else if s == "Cancelled"@ {
            Ok(ScheduleStatus::Cancelled)
        } else {
            Err(AppError::InvalidInput)
        }
    }

    /// The stable text under which the store encodes this variant.
    pub fn as_str(&self) -> (r: &'static str)
        ensures
            r@ == self.spec_str(),
    {
        match self {
            ScheduleStatus::Active => "Active",
            ScheduleStatus::Completed => "Completed",
            ScheduleStatus::Cancelled => "Cancelled",
        }
    }

    /// Decodes the store's text encoding; unknown text is `InvalidInput`.
    pub fn from_db(value: &str) -> (r: Result<ScheduleStatus, AppError>)
        ensures
            r == ScheduleStatus::spec_of_str(value@),
    {
        if str_eq(value, "Active") {
            Ok(ScheduleStatus::Active)
        } else if str_eq(value, "Completed") {
            Ok(ScheduleStatus::Completed)
        } else if str_eq(value, "Cancelled") {
            Ok(ScheduleStatus::Cancelled)
        } else {
            Err(AppError::InvalidInput)
        }
    }
}

fn clone_opt_string(o: &Option<String>) -> (r: Option<String>)
    ensures
        r == *o,
{
    match o {
        Some(s) => Some(s.clone()),
        None => None,
    }
}

/// A monetary account. `balance_cents` is a cached running total in minor
/// currency units; the posting engine is its only writer.
#[derive(Debug, PartialEq, Eq)]
pub struct AccountDto {
    pub id: u64,
    pub name: String,
    pub account_type: AccountType,
    pub purpose: AssetPurpose,
    pub balance_cents: i64,
    pub created_at: String,
    pub updated_at: String,
}

impl Clone for AccountDto {
    fn clone(&self) -> (r: Self)
        ensures
            r == *self,
    {
        AccountDto {
            id: self.id,
            name: self.name.clone(),
            account_type: self.account_type,
            purpose: self.purpose,
            balance_cents: self.balance_cents,
            created_at: self.created_at.clone(),
            updated_at: self.updated_at.clone(),
        }
    }
}

/// A movement of `amount_cents` between up to two accounts. Immutable once
/// created: corrections are posted as new adjustments, never edits.
#[derive(Debug, PartialEq, Eq)]
pub struct TransactionDto {
    pub id: u64,
    pub amount_cents: i64,
    pub from_account_id: Option<u64>,
    pub to_account_id: Option<u64>,
    pub payee_id: Option<u64>,
    pub category_id: Option<u64>,
    pub accrual_type: AccrualType,
    pub is_asset_purchase: bool,
    pub note: Option<String>,
    pub occurred_at: String,
    pub created_at: String,
}

impl Clone for TransactionDto {
    fn clone(&self) -> (r: Self)
        ensures
            r == *self,
    {
        TransactionDto {
            id: self.id,
            amount_cents: self.amount_cents,
            from_account_id: self.from_account_id,
            to_account_id: self.to_account_id,
            payee_id: self.payee_id,
            category_id: self.category_id,
            accrual_type: self.accrual_type,
            is_asset_purchase: self.is_asset_purchase,
            note: clone_opt_string(&self.note),
            occurred_at: self.occurred_at.clone(),
            created_at: self.created_at.clone(),
        }
    }
}

/// The plan by which one asset purchase is expensed over
/// `total_periods` months, starting in the month of `start_date`.
#[derive(Debug, Clone, Copy, PartialEq, Eq, Structural)]
pub struct AmortizationScheduleDto {
    pub id: u64,
    pub asset_account_id: u64,
    pub strategy: AmortizationStrategy,
    pub total_periods: i64,
    pub residual_cents: i64,
    pub start_date: Date,
    pub source_transaction_id: u64,
    pub status: ScheduleStatus,
}

/// The record that a schedule's depreciation for one period has been
/// posted. At most one exists per (schedule, period): this pairing is the
/// idempotence key that prevents double-posting.
#[derive(Debug, Clone, PartialEq, Eq)]
pub struct AmortizationPosting {
    pub id: u64,
    pub schedule_id: u64,
    pub period_ym: String,
    pub amount_cents: i64,
    pub transaction_id: u64,
    pub generated_at: String,
}

/// The append-only audit record of one reconciliation: the asserted and
/// system balances, their delta, and the adjustment transaction if one was
/// posted.
#[derive(Debug, Clone, PartialEq, Eq)]
pub struct BalanceSnapshot {
    pub id: u64,
    pub account_id: u64,
    pub actual_balance_cents: i64,
    pub system_balance_cents: i64,
    pub delta_cents: i64,
    pub captured_at: String,
    pub adjustment_tx_id: Option<u64>,
}

/// A request to open an account.
#[derive(Debug, Clone, PartialEq, Eq)]
pub struct CreateAccountInput {
    pub name: String,
    pub account_type: AccountType,
    pub purpose: AssetPurpose,
    pub initial_balance_cents: i64,
}

/// A request to post a transaction. `occurred_at`, when given, must already
/// be a canonical UTC timestamp; when absent the posting time is used.
#[derive(Debug, Clone, PartialEq, Eq)]
pub struct CreateTransactionInput {
    pub amount_cents: i64,
    pub from_account_id: Option<u64>,
    pub to_account_id: Option<u64>,
    pub payee_id: Option<u64>,
    pub category_id: Option<u64>,
    pub accrual_type: Option<AccrualType>,
    pub is_asset_purchase: Option<bool>,
    pub note: Option<String>,
    pub occurred_at: Option<String>,
}

/// A request to buy an asset out of a funding account and schedule its
/// depreciation.
#[derive(Debug, Clone, PartialEq, Eq)]
pub struct CreateAssetPurchaseInput {
    pub from_account_id: u64,
    pub asset_account_id: u64,
    pub amount_cents: i64,
    pub category_id: Option<u64>,
    pub payee_id: Option<u64>,
    pub note: Option<String>,
    pub occurred_at: Option<String>,
    pub strategy: AmortizationStrategy,
    pub total_periods: i64,
    pub residual_cents: i64,
    pub start_date: String,
}

/// The outcome of an asset purchase: the posted flow transaction and the
/// active schedule created with it.
#[derive(Debug, Clone, PartialEq, Eq)]
pub struct AssetPurchaseResultDto {
    pub transaction: TransactionDto,
    pub schedule: AmortizationScheduleDto,
}

/// A request to reconcile an account against a real-world balance.
#[derive(Debug, Clone, PartialEq, Eq)]
pub struct ReconcileInput {
    pub account_id: u64,
    pub actual_balance_cents: i64,
    pub occurred_at: Option<String>,
    pub note: Option<String>,
}

/// The outcome of a reconciliation: the refreshed account, the delta
/// between asserted and system balance, and the adjustment posted for a
/// nonzero delta.
#[derive(Debug, Clone, PartialEq, Eq)]
pub struct ReconcileResultDto {
    pub account: AccountDto,
    pub delta_cents: i64,
    pub adjustment_transaction: Option<TransactionDto>,
}

/// An optional restriction of a transaction listing by period and accrual
/// type.
#[derive(Debug, Clone, PartialEq, Eq)]
pub struct TransactionFilter {
    pub period_ym: Option<String>,
    pub accrual_type: Option<AccrualType>,
}

/// A transaction listing and its size.
#[derive(Debug, Clone, PartialEq, Eq)]
pub struct PagedTransactionsDto {
    pub items: Vec<TransactionDto>,
    pub total: usize,
}

/// The period a report is asked for.
#[derive(Debug, Clone, PartialEq, Eq)]
pub struct ReportPeriodInput {
    pub period_ym: String,
}

/// What one report line aggregates: all depreciation, the transactions of
/// one category, or the transactions with no category.
#[derive(Debug, Clone, Copy, PartialEq, Eq, Structural)]
pub enum ReportLabel {
    Depreciation,
    Uncategorized,
    Category(u64),
}

/// One line of a report: a label and the summed amount under it.
#[derive(Debug, Clone, Copy, PartialEq, Eq, Structural)]
pub struct ReportItemDto {
    pub label: ReportLabel,
    pub amount_cents: i64,
}

/// A periodic expense report: one line per label and the total over all of
/// them.
#[derive(Debug, Clone, PartialEq, Eq)]
pub struct ReportDto {
    pub period_ym: String,
    pub total_expense_cents: i64,
    pub items: Vec<ReportItemDto>,
}

/// An optional period range (inclusive on both ends) for the adjustment
/// ratio figures.
#[derive(Debug, Clone, PartialEq, Eq)]
pub struct KpiPeriodInput {
    pub from_period_ym: Option<String>,
    pub to_period_ym: Option<String>,
}

} // verus!
