use vstd::prelude::*;

use crate::errors::AppError;
use crate::models::{
    AccountDto, AccountType, AccrualType, AmortizationPosting, AmortizationScheduleDto,
    BalanceSnapshot, CreateAccountInput, CreateTransactionInput, TransactionDto,
};

verus! {

/// The in-memory ledger: the engine's whole state. All account mutation
/// goes through the posting engine; transactions, postings and snapshots
/// are append-only. `next_id` feeds the identities of everything the
/// engine creates.
pub struct Ledger {
    pub accounts: Vec<AccountDto>,
    pub transactions: Vec<TransactionDto>,
    pub schedules: Vec<AmortizationScheduleDto>,
    pub postings: Vec<AmortizationPosting>,
    pub snapshots: Vec<BalanceSnapshot>,
    pub next_id: u64,
}

/// The mathematical model of a ledger: each table as a sequence.
#[verifier::ext_equal]
pub ghost struct LedgerView {
    pub accounts: Seq<AccountDto>,
    pub transactions: Seq<TransactionDto>,
    pub schedules: Seq<AmortizationScheduleDto>,
    pub postings: Seq<AmortizationPosting>,
    pub snapshots: Seq<BalanceSnapshot>,
    pub next_id: u64,
}

impl View for Ledger {
    type V = LedgerView;

    open spec fn view(&self) -> LedgerView {
        LedgerView {
            accounts: self.accounts@,
            transactions: self.transactions@,
            schedules: self.schedules@,
            postings: self.postings@,
            snapshots: self.snapshots@,
            next_id: self.next_id,
        }
    }
}

pub open spec fn has_account(accounts: Seq<AccountDto>, id: u64) -> bool {
    exists|i: int| 0 <= i < accounts.len() && accounts[i].id == id
}

pub open spec fn account_by_id(accounts: Seq<AccountDto>, id: u64) -> AccountDto {
    accounts[choose|i: int| 0 <= i < accounts.len() && accounts[i].id == id]
}

pub open spec fn has_transaction(transactions: Seq<TransactionDto>, id: u64) -> bool {
    exists|i: int| 0 <= i < transactions.len() && transactions[i].id == id
}

pub open spec fn transaction_by_id(transactions: Seq<TransactionDto>, id: u64) -> TransactionDto {
    transactions[choose|i: int| 0 <= i < transactions.len() && transactions[i].id == id]
}

pub open spec fn has_schedule(schedules: Seq<AmortizationScheduleDto>, id: u64) -> bool {
    exists|i: int| 0 <= i < schedules.len() && schedules[i].id == id
}

pub open spec fn schedule_by_id(
    schedules: Seq<AmortizationScheduleDto>,
    id: u64,
) -> AmortizationScheduleDto {
    schedules[choose|i: int| 0 <= i < schedules.len() && schedules[i].id == id]
}

/// The record that schedule `sid` has already posted period `period`.
pub open spec fn has_posting_for(
    postings: Seq<AmortizationPosting>,
    sid: u64,
    period: Seq<char>,
) -> bool {
    exists|i: int|
        0 <= i < postings.len() && postings[i].schedule_id == sid && postings[i].period_ym@
            == period
}

pub open spec fn account_ids_unique(accounts: Seq<AccountDto>) -> bool {
    forall|i: int, j: int|
        0 <= i < j < accounts.len() ==> accounts[i].id != accounts[j].id
}

pub open spec fn transaction_ids_unique(transactions: Seq<TransactionDto>) -> bool {
    forall|i: int, j: int|
        0 <= i < j < transactions.len() ==> transactions[i].id != transactions[j].id
}

pub open spec fn schedule_ids_unique(schedules: Seq<AmortizationScheduleDto>) -> bool {
    forall|i: int, j: int|
        0 <= i < j < schedules.len() ==> schedules[i].id != schedules[j].id
}

pub open spec fn posting_ids_unique(postings: Seq<AmortizationPosting>) -> bool {
    forall|i: int, j: int|
        0 <= i < j < postings.len() ==> postings[i].id != postings[j].id
}

pub open spec fn snapshot_ids_unique(snapshots: Seq<BalanceSnapshot>) -> bool {
    forall|i: int, j: int|
        0 <= i < j < snapshots.len() ==> snapshots[i].id != snapshots[j].id
}

/// At most one posting per (schedule, period): the idempotence key of the
/// depreciation scheduler.
pub open spec fn posting_keys_unique(postings: Seq<AmortizationPosting>) -> bool {
    forall|i: int, j: int|
        0 <= i < j < postings.len() ==> !(postings[i].schedule_id == postings[j].schedule_id
            && postings[i].period_ym@ == postings[j].period_ym@)
}

/// The liability invariant: a liability account never shows a positive
/// balance.
pub open spec fn liability_respected(accounts: Seq<AccountDto>) -> bool {
    forall|i: int|
        0 <= i < accounts.len() ==> (accounts[i].account_type == AccountType::Liability
            ==> accounts[i].balance_cents <= 0)
}

impl LedgerView {
    /// Every identity already issued lies below `next_id`, so the next one
    /// is fresh.
    pub open spec fn ids_below_next(self) -> bool {
        &&& forall|i: int| 0 <= i < self.accounts.len() ==> self.accounts[i].id < self.next_id
        &&& forall|i: int|
            0 <= i < self.transactions.len() ==> self.transactions[i].id < self.next_id
        &&& forall|i: int| 0 <= i < self.schedules.len() ==> self.schedules[i].id < self.next_id
        &&& forall|i: int| 0 <= i < self.postings.len() ==> self.postings[i].id < self.next_id
        &&& forall|i: int| 0 <= i < self.snapshots.len() ==> self.snapshots[i].id < self.next_id
    }

    /// Every schedule is sound: a positive life, a non-negative residual no
    /// larger than the purchase amount of its (existing) source
    /// transaction, and a valid start date.
    pub open spec fn schedules_wf(self) -> bool {
        forall|i: int|
            0 <= i < self.schedules.len() ==> {
                let s = #[trigger] self.schedules[i];
                &&& s.total_periods > 0
                &&& s.residual_cents >= 0
                &&& s.start_date.wf()
                &&& has_transaction(self.transactions, s.source_transaction_id)
                &&& transaction_by_id(self.transactions, s.source_transaction_id).amount_cents
                    >= s.residual_cents
            }
    }

    /// The ledger's well-formedness: unique identities, fresh `next_id`,
    /// positive transaction and posting amounts, sound schedules, the
    /// (schedule, period) idempotence key, and the liability invariant.
    pub open spec fn wf(self) -> bool {
        &&& account_ids_unique(self.accounts)
        &&& transaction_ids_unique(self.transactions)
        &&& schedule_ids_unique(self.schedules)
        &&& posting_ids_unique(self.postings)
        &&& snapshot_ids_unique(self.snapshots)
        &&& posting_keys_unique(self.postings)
        &&& self.ids_below_next()
        &&& liability_respected(self.accounts)
        &&& forall|i: int|
            0 <= i < self.transactions.len() ==> #[trigger] self.transactions[i].amount_cents > 0
        &&& forall|i: int|
            0 <= i < self.postings.len() ==> #[trigger] self.postings[i].amount_cents > 0
        &&& self.schedules_wf()
    }
}

impl Ledger {
    pub open spec fn wf(self) -> bool {
        self@.wf()
    }

    /// An empty ledger.
    pub fn new() -> (l: Ledger)
        ensures
            l.wf(),
            l@.accounts =~= Seq::<AccountDto>::empty(),
            l@.transactions =~= Seq::<TransactionDto>::empty(),
            l@.schedules =~= Seq::<AmortizationScheduleDto>::empty(),
            l@.postings =~= Seq::<AmortizationPosting>::empty(),
            l@.snapshots =~= Seq::<BalanceSnapshot>::empty(),
            l@.next_id == 1,
    {
        Ledger {
            accounts: Vec::new(),
            transactions: Vec::new(),
            schedules: Vec::new(),
            postings: Vec::new(),
            snapshots: Vec::new(),
            next_id: 1,
        }
    }

    /// Finds the position of the account with the given identity.
    pub(crate) fn find_account_index(&self, id: u64) -> (r: Option<usize>)
        ensures
            match r {
                Some(i) => i < self.accounts@.len() && self.accounts@[i as int].id == id,
                None => !has_account(self.accounts@, id),
            },
    {
        let mut i: usize = 0;
        while i < self.accounts.len()
            invariant
                i <= self.accounts@.len(),
                forall|j: int| 0 <= j < i ==> self.accounts@[j].id != id,
            decreases self.accounts@.len() - i,
        {
            if self.accounts[i].id == id {
                return Some(i);
            }
            i = i + 1;
        }
        None
    }

    pub(crate) fn find_transaction_index(&self, id: u64) -> (r: Option<usize>)
        ensures
            match r {
                Some(i) => i < self.transactions@.len() && self.transactions@[i as int].id == id,
                None => !has_transaction(self.transactions@, id),
            },
    {
        let mut i: usize = 0;
        while i < self.transactions.len()
            invariant
                i <= self.transactions@.len(),
                forall|j: int| 0 <= j < i ==> self.transactions@[j].id != id,
            decreases self.transactions@.len() - i,
        {
            if self.transactions[i].id == id {
                return Some(i);
            }
            i = i + 1;
        }
        None
    }

    pub(crate) fn find_schedule_index(&self, id: u64) -> (r: Option<usize>)
        ensures
            match r {
                Some(i) => i < self.schedules@.len() && self.schedules@[i as int].id == id,
                None => !has_schedule(self.schedules@, id),
            },
    {
        let mut i: usize = 0;
        while i < self.schedules.len()
            invariant
                i <= self.schedules@.len(),
                forall|j: int| 0 <= j < i ==> self.schedules@[j].id != id,
            decreases self.schedules@.len() - i,
        {
            if self.schedules[i].id == id {
                return Some(i);
            }
            i = i + 1;
        }
        None
    }

    /// Loads a copy of the account with the given identity, or `NotFound`.
    pub fn load_account_by_id(&self, id: u64) -> (r: Result<AccountDto, AppError>)
        ensures
            match r {
                Ok(a) => has_account(self.accounts@, id) && a.id == id && (exists|i: int|
                    0 <= i < self.accounts@.len() && self.accounts@[i] == a),
                Err(e) => !has_account(self.accounts@, id) && e == AppError::NotFound,
            },
    {
        match self.find_account_index(id) {
            Some(i) => Ok(self.accounts[i].clone()),
            None => Err(AppError::NotFound),
        }
    }

    /// Loads a copy of the transaction with the given identity, or
    /// `NotFound`.
    pub fn load_transaction_by_id(&self, id: u64) -> (r: Result<TransactionDto, AppError>)
        ensures
            match r {
                Ok(t) => has_transaction(self.transactions@, id) && t.id == id && (exists|i: int|
                    0 <= i < self.transactions@.len() && self.transactions@[i] == t),
                Err(e) => !has_transaction(self.transactions@, id) && e == AppError::NotFound,
            },
    {
        match self.find_transaction_index(id) {
            Some(i) => Ok(self.transactions[i].clone()),
            None => Err(AppError::NotFound),
        }
    }

    /// Loads the schedule with the given identity, or `NotFound`.
    pub fn load_schedule_by_id(&self, id: u64) -> (r: Result<AmortizationScheduleDto, AppError>)
        ensures
            match r {
                Ok(s) => has_schedule(self.schedules@, id) && s.id == id && (exists|i: int|
                    0 <= i < self.schedules@.len() && self.schedules@[i] == s),
                Err(e) => !has_schedule(self.schedules@, id) && e == AppError::NotFound,
            },
    {
        match self.find_schedule_index(id) {
            Some(i) => Ok(self.schedules[i]),
            None => Err(AppError::NotFound),
        }
    }

    /// Replaces the balance of the account at position `i` and stamps its
    /// update time. The commit half of one posting leg; validation happens
    /// before any call.
    fn set_account_balance(&mut self, i: usize, new_balance: i64, now: &String)
        requires
            i < old(self).accounts@.len(),
        ensures
            final(self)@.accounts == old(self)@.accounts.update(
                i as int,
                AccountDto {
                    balance_cents: new_balance,
                    updated_at: *now,
                    ..old(self)@.accounts[i as int]
                },
            ),
            final(self)@.transactions == old(self)@.transactions,
            final(self)@.schedules == old(self)@.schedules,
            final(self)@.postings == old(self)@.postings,
            final(self)@.snapshots == old(self)@.snapshots,
            final(self)@.next_id == old(self)@.next_id,
    {
        let mut a = self.accounts.remove(i);
        a.balance_cents = new_balance;
        a.updated_at = now.clone();
        self.accounts.insert(i, a);
        proof {
            assert(self@.accounts =~= old(self)@.accounts.update(
                i as int,
                AccountDto {
                    balance_cents: new_balance,
                    updated_at: *now,
                    ..old(self)@.accounts[i as int]
                },
            ));
        }
    }

    /// Opens an account. Rejects an empty name and a liability account with
    /// a positive opening balance; otherwise the account is appended with
    /// the next identity and both timestamps set to `now`.
    pub fn create_account(&mut self, input: CreateAccountInput, now: String) -> (r: Result<
        AccountDto,
        AppError,
    >)
        requires
            old(self).wf(),
            old(self)@.next_id < u64::MAX,
        ensures
            final(self).wf(),
            match r {
                Ok(a) => {
                    &&& input.name@.len() > 0
                    &&& !(input.account_type == AccountType::Liability
                        && input.initial_balance_cents > 0)
                    &&& a == (AccountDto {
                        id: old(self)@.next_id,
                        name: input.name,
                        account_type: input.account_type,
                        purpose: input.purpose,
                        balance_cents: input.initial_balance_cents,
                        created_at: now,
                        updated_at: now,
                    })
                    &&& final(self)@ == (LedgerView {
                        accounts: old(self)@.accounts.push(a),
                        next_id: (old(self)@.next_id + 1) as u64,
                        ..old(self)@
                    })
                },
                Err(e) => {
                    &&& e == AppError::InvalidInput
                    &&& (input.name@.len() == 0 || (input.account_type == AccountType::Liability
                        && input.initial_balance_cents > 0))
                    &&& final(self)@ == old(self)@
                },
            },
    {
        if input.name.as_str().unicode_len() == 0 {
            return Err(AppError::InvalidInput);
        }
        if matches!(input.account_type, AccountType::Liability) && input.initial_balance_cents > 0 {
            return Err(AppError::InvalidInput);
        }
        let a = AccountDto {
            id: self.next_id,
            name: input.name,
            account_type: input.account_type,
            purpose: input.purpose,
            balance_cents: input.initial_balance_cents,
            created_at: now.clone(),
            updated_at: now,
        };
        let out = a.clone();
        self.accounts.push(a);
        self.next_id = self.next_id + 1;
        proof {
            assert(self@ =~= (LedgerView {
                accounts: old(self)@.accounts.push(out),
                next_id: (old(self)@.next_id + 1) as u64,
                ..old(self)@
            }));
        }
        Ok(out)
    }
}

/// The signed change one posting applies to the account with identity
/// `id`: `-amount` when it is the `from` leg, `+amount` when it is the
/// `to` leg, both (a net zero) when it is both.
pub open spec fn leg_delta(id: u64, from: Option<u64>, to: Option<u64>, amount: int) -> int {
    (if from == Some(id) {
        -amount
    } else {
        0
    }) + (if to == Some(id) {
        amount
    } else {
        0
    })
}

pub open spec fn leg_touches(id: u64, from: Option<u64>, to: Option<u64>) -> bool {
    from == Some(id) || to == Some(id)
}

/// The accounts after one posting's legs are applied: each implicated
/// account receives its signed delta and a fresh update stamp; all other
/// accounts are untouched.
pub open spec fn spec_apply_legs(
    accounts: Seq<AccountDto>,
    from: Option<u64>,
    to: Option<u64>,
    amount: int,
    now: String,
) -> Seq<AccountDto> {
    accounts.map(
        |i: int, a: AccountDto|
            if leg_touches(a.id, from, to) {
                AccountDto {
                    balance_cents: (a.balance_cents + leg_delta(a.id, from, to, amount)) as i64,
                    updated_at: now,
                    ..a
                }
            } else {
                a
            },
    )
}

/// Whether applying `-amount` to the `from` account stays within `i64` and
/// the liability rule.
pub open spec fn from_leg_ok(accounts: Seq<AccountDto>, f: u64, amount: int) -> bool {
    let a = account_by_id(accounts, f);
    let nb = a.balance_cents - amount;
    &&& i64::MIN <= nb <= i64::MAX
    &&& (a.account_type == AccountType::Liability ==> nb <= 0)
}

/// Whether applying `+amount` to the `to` account — on top of the `from`
/// leg when both name the same account — stays within `i64` and the
/// liability rule.
pub open spec fn to_leg_ok(
    accounts: Seq<AccountDto>,
    from: Option<u64>,
    t: u64,
    amount: int,
) -> bool {
    let a = account_by_id(accounts, t);
    let base = if from == Some(t) {
        a.balance_cents - amount
    } else {
        a.balance_cents as int
    };
    let nb = base + amount;
    &&& i64::MIN <= nb <= i64::MAX
    &&& (a.account_type == AccountType::Liability ==> nb <= 0)
}

pub open spec fn spec_to_leg_error(
    accounts: Seq<AccountDto>,
    from: Option<u64>,
    to: Option<u64>,
    amount: int,
) -> Option<AppError> {
    match to {
        Some(t) => {
            if !has_account(accounts, t) {
                Some(AppError::NotFound)
            } else if !to_leg_ok(accounts, from, t, amount) {
                Some(AppError::InvalidInput)
            } else {
                None
            }
        },
        None => None,
    }
}

/// The first error the posting engine meets while checking a posting's
/// legs against the current accounts, in the order the legs are applied:
/// `None` when both legs go through.
pub open spec fn spec_leg_error(
    accounts: Seq<AccountDto>,
    from: Option<u64>,
    to: Option<u64>,
    amount: int,
) -> Option<AppError> {
    match from {
        Some(f) => {
            if !has_account(accounts, f) {
                Some(AppError::NotFound)
            } else if !from_leg_ok(accounts, f, amount) {
                Some(AppError::InvalidInput)
            } else {
                spec_to_leg_error(accounts, from, to, amount)
            }
        },
        None => spec_to_leg_error(accounts, from, to, amount),
    }
}

/// The accrual type a posting request denotes: `Flow` unless it says
/// otherwise.
pub open spec fn spec_effective_accrual(input: CreateTransactionInput) -> AccrualType {
    match input.accrual_type {
        Some(a) => a,
        None => AccrualType::Flow,
    }
}

/// The outcome the posting engine owes a request on a given ledger:
/// `None` when it must succeed, otherwise exactly the error it must
/// report. The amount must be positive; a non-depreciation posting needs
/// at least one leg, existing accounts behind both legs, balances that
/// stay within `i64`, and the liability rule after either leg.
pub open spec fn spec_post_error(l: LedgerView, input: CreateTransactionInput) -> Option<
    AppError,
> {
    let accrual = spec_effective_accrual(input);
    if input.amount_cents <= 0 {
        Some(AppError::InvalidInput)
    } else if accrual != AccrualType::Depreciation && input.from_account_id is None
        && input.to_account_id is None {
        Some(AppError::InvalidInput)
    } else if accrual == AccrualType::Depreciation {
        None
    } else {
        spec_leg_error(l.accounts, input.from_account_id, input.to_account_id,
            input.amount_cents as int)
    }
}

/// The transaction the posting engine records for a request, under the
/// identity `id`, stamped `now`.
pub open spec fn spec_posted_transaction(
    input: CreateTransactionInput,
    id: u64,
    now: String,
) -> TransactionDto {
    TransactionDto {
        id: id,
        amount_cents: input.amount_cents,
        from_account_id: input.from_account_id,
        to_account_id: input.to_account_id,
        payee_id: input.payee_id,
        category_id: input.category_id,
        accrual_type: spec_effective_accrual(input),
        is_asset_purchase: match input.is_asset_purchase {
            Some(b) => b,
            None => false,
        },
        note: input.note,
        occurred_at: match input.occurred_at {
            Some(s) => s,
            None => now,
        },
        created_at: now,
    }
}

impl Ledger {
    /// The posting engine: records one transaction and atomically applies
    /// its balance deltas — `-amount` to the `from` account, `+amount` to
    /// the `to` account — re-checking the liability invariant after each
    /// leg. Depreciation postings carry no balance effect. On any error
    /// the ledger is exactly as before.
    #[verifier::rlimit(50)]
    pub fn post_transaction(&mut self, input: CreateTransactionInput, now: String) -> (r: Result<
        TransactionDto,
        AppError,
    >)
        requires
            old(self).wf(),
            old(self)@.next_id < u64::MAX,
        ensures
            final(self).wf(),
            match r {
                Ok(tx) => {
                    &&& spec_post_error(old(self)@, input) is None
                    &&& tx == spec_posted_transaction(input, old(self)@.next_id, now)
                    &&& final(self)@ == (LedgerView {
                        transactions: old(self)@.transactions.push(tx),
                        accounts: if spec_effective_accrual(input) == AccrualType::Depreciation {
                            old(self)@.accounts
                        } else {
                            spec_apply_legs(
                                old(self)@.accounts,
                                input.from_account_id,
                                input.to_account_id,
                                input.amount_cents as int,
                                now,
                            )
                        },
                        next_id: (old(self)@.next_id + 1) as u64,
                        ..old(self)@
                    })
                },
                Err(e) => {
                    &&& spec_post_error(old(self)@, input) == Some(e)
                    &&& final(self)@ == old(self)@
                },
            },
    {
        if input.amount_cents <= 0 {
            return Err(AppError::InvalidInput);
        }
        let accrual = match input.accrual_type {
            Some(a) => a,
            None => AccrualType::Flow,
        };
        let is_depreciation = matches!(accrual, AccrualType::Depreciation);
        if !is_depreciation && input.from_account_id.is_none() && input.to_account_id.is_none() {
            return Err(AppError::InvalidInput);
        }
        // Validate both legs before touching anything, so a failure
        // leaves no trace.
        let mut from_plan: Option<(usize, i64)> = None;
        let mut to_plan: Option<(usize, i64)> = None;
        if !is_depreciation {
            if let Some(fid) = input.from_account_id {
                let i = match self.find_account_index(fid) {
                    Some(i) => i,
                    None => { return Err(AppError::NotFound) },
                };
                proof {
                    lemma_account_by_id_is_at(self@.accounts, fid, i as int);
                }
                let nb = match self.accounts[i].balance_cents.checked_sub(input.amount_cents) {
                    Some(nb) => nb,
                    None => { return Err(AppError::InvalidInput) },
                };
                if matches!(self.accounts[i].account_type, AccountType::Liability) && nb > 0 {
                    return Err(AppError::InvalidInput);
                }
                from_plan = Some((i, nb));
            }
            if let Some(tid) = input.to_account_id {
                let j = match self.find_account_index(tid) {
                    Some(j) => j,
                    None => { return Err(AppError::NotFound) },
                };
                proof {
                    lemma_account_by_id_is_at(self@.accounts, tid, j as int);
                }
                let base = match from_plan {
                    Some((i, nb)) => {
                        if i == j {
                            nb
                        } else {
                            self.accounts[j].balance_cents
                        }
                    },
                    None => self.accounts[j].balance_cents,
                };
                let nb2 = match base.checked_add(input.amount_cents) {
                    Some(nb2) => nb2,
                    None => { return Err(AppError::InvalidInput) },
                };
                if matches!(self.accounts[j].account_type, AccountType::Liability) && nb2 > 0 {
                    return Err(AppError::InvalidInput);
                }
                to_plan = Some((j, nb2));
            }
        }
        // Commit: the transaction row, then each leg.
        let occurred_at = match input.occurred_at {
            Some(s) => s,
            None => now.clone(),
        };
        let tx = TransactionDto {
            id: self.next_id,
            amount_cents: input.amount_cents,
            from_account_id: input.from_account_id,
            to_account_id: input.to_account_id,
            payee_id: input.payee_id,
            category_id: input.category_id,
            accrual_type: accrual,
            is_asset_purchase: match input.is_asset_purchase {
                Some(b) => b,
                None => false,
            },
            note: input.note,
            occurred_at: occurred_at,
            created_at: now.clone(),
        };
        let out = tx.clone();
        self.transactions.push(tx);
        self.next_id = self.next_id + 1;
        if let Some((i, nb)) = from_plan {
            self.set_account_balance(i, nb, &now);
        }
        if let Some((j, nb2)) = to_plan {
            self.set_account_balance(j, nb2, &now);
        }
        proof {
            let old_accounts = old(self)@.accounts;
            let amount = input.amount_cents as int;
            if !is_depreciation {
                assert(self@.accounts =~= spec_apply_legs(
                    old_accounts,
                    input.from_account_id,
                    input.to_account_id,
                    amount,
                    now,
                ));
            }
            assert(self@ =~= (LedgerView {
                transactions: old(self)@.transactions.push(out),
                accounts: if is_depreciation {
                    old(self)@.accounts
                } else {
                    spec_apply_legs(
                        old_accounts,
                        input.from_account_id,
                        input.to_account_id,
                        amount,
                        now,
                    )
                },
                next_id: (old(self)@.next_id + 1) as u64,
                ..old(self)@
            }));
            lemma_post_preserves_wf(old(self)@, self@, input, out, now);
        }
        Ok(out)
    }
}

/// Under unique identities, the account `choose` picks for an identity is
/// the one at any index carrying that identity.
pub proof fn lemma_account_by_id_is_at(accounts: Seq<AccountDto>, id: u64, i: int)
    requires
        account_ids_unique(accounts),
        0 <= i < accounts.len(),
        accounts[i].id == id,
    ensures
        account_by_id(accounts, id) == accounts[i],
        has_account(accounts, id),
{
    assert(has_account(accounts, id));
    let j = choose|j: int| 0 <= j < accounts.len() && accounts[j].id == id;
    if i != j {
        assert(accounts[i].id != accounts[j].id);
    }
}

/// The transaction `choose` picks for an identity is the one at any index
/// carrying that identity.
pub proof fn lemma_transaction_by_id_is_at(transactions: Seq<TransactionDto>, id: u64, i: int)
    requires
        transaction_ids_unique(transactions),
        0 <= i < transactions.len(),
        transactions[i].id == id,
    ensures
        transaction_by_id(transactions, id) == transactions[i],
        has_transaction(transactions, id),
{
    assert(has_transaction(transactions, id));
    let j = choose|j: int| 0 <= j < transactions.len() && transactions[j].id == id;
    if i != j {
        assert(transactions[i].id != transactions[j].id);
    }
}

proof fn lemma_post_preserves_wf(
    pre: LedgerView,
    post: LedgerView,
    input: CreateTransactionInput,
    tx: TransactionDto,
    now: String,
)
    requires
        pre.wf(),
        pre.next_id < u64::MAX,
        input.amount_cents > 0,
        tx == spec_posted_transaction(input, pre.next_id, now),
        post == (LedgerView {
            transactions: pre.transactions.push(tx),
            accounts: if spec_effective_accrual(input) == AccrualType::Depreciation {
                pre.accounts
            } else {
                spec_apply_legs(
                    pre.accounts,
                    input.from_account_id,
                    input.to_account_id,
                    input.amount_cents as int,
                    now,
                )
            },
            next_id: (pre.next_id + 1) as u64,
            ..pre
        }),
        spec_effective_accrual(input) != AccrualType::Depreciation ==> spec_leg_error(
            pre.accounts,
            input.from_account_id,
            input.to_account_id,
            input.amount_cents as int,
        ) is None,
    ensures
        post.wf(),
{
    let amount = input.amount_cents as int;
    let from = input.from_account_id;
    let to = input.to_account_id;
    assert(transaction_ids_unique(post.transactions)) by {
        assert(forall|i: int|
            0 <= i < pre.transactions.len() ==> pre.transactions[i].id < pre.next_id);
    }
    if spec_effective_accrual(input) != AccrualType::Depreciation {
        let applied = spec_apply_legs(pre.accounts, from, to, amount, now);
        assert forall|i: int| 0 <= i < applied.len() implies (applied[i].account_type
            == AccountType::Liability ==> applied[i].balance_cents <= 0) by {
            let a = pre.accounts[i];
            if leg_touches(a.id, from, to) {
                if from == Some(a.id) {
                    lemma_account_by_id_is_at(pre.accounts, a.id, i);
                    if to == Some(a.id) {
                        assert(leg_delta(a.id, from, to, amount) == 0);
                    } else {
                        assert(from_leg_ok(pre.accounts, a.id, amount));
                    }
                } else {
                    lemma_account_by_id_is_at(pre.accounts, a.id, i);
                    assert(to_leg_ok(pre.accounts, from, a.id, amount));
                }
            }
        }
        assert(account_ids_unique(post.accounts));
        assert(post.schedules_wf()) by {
            lemma_append_preserves_schedules_wf(pre, post.transactions, post.schedules);
        }
    } else {
        assert(post.schedules_wf()) by {
            lemma_append_preserves_schedules_wf(pre, post.transactions, post.schedules);
        }
    }
}

/// The total money the given accounts show.
pub open spec fn sum_balances(accounts: Seq<AccountDto>) -> int
    decreases accounts.len(),
{
    if accounts.len() == 0 {
        0
    } else {
        sum_balances(accounts.drop_last()) + accounts.last().balance_cents
    }
}

pub open spec fn count_id(accounts: Seq<AccountDto>, id: u64) -> int
    decreases accounts.len(),
{
    if accounts.len() == 0 {
        0
    } else {
        count_id(accounts.drop_last(), id) + if accounts.last().id == id {
            1int
        } else {
            0int
        }
    }
}

proof fn lemma_count_id_zero(accounts: Seq<AccountDto>, id: u64)
    requires
        !has_account(accounts, id),
    ensures
        count_id(accounts, id) == 0,
    decreases accounts.len(),
{
    if accounts.len() > 0 {
        assert(!has_account(accounts.drop_last(), id)) by {
            assert(forall|i: int|
                0 <= i < accounts.len() - 1 ==> accounts.drop_last()[i] == accounts[i]);
        }
        lemma_count_id_zero(accounts.drop_last(), id);
    }
}

proof fn lemma_count_id_unique(accounts: Seq<AccountDto>, id: u64)
    requires
        account_ids_unique(accounts),
        has_account(accounts, id),
    ensures
        count_id(accounts, id) == 1,
    decreases accounts.len(),
{
    let rest = accounts.drop_last();
    assert(forall|i: int| 0 <= i < accounts.len() - 1 ==> rest[i] == accounts[i]);
    if accounts.last().id == id {
        assert(!has_account(rest, id));
        lemma_count_id_zero(rest, id);
    } else {
        let w = choose|i: int| 0 <= i < accounts.len() && accounts[i].id == id;
        assert(0 <= w < accounts.len() - 1);
        assert(has_account(rest, id));
        lemma_count_id_unique(rest, id);
    }
}

proof fn lemma_sum_apply_legs(
    accounts: Seq<AccountDto>,
    from: Option<u64>,
    to: Option<u64>,
    amount: int,
    now: String,
)
    requires
        forall|i: int|
            0 <= i < accounts.len() ==> (leg_touches(#[trigger] accounts[i].id, from, to)
                ==> i64::MIN <= accounts[i].balance_cents + leg_delta(
                accounts[i].id,
                from,
                to,
                amount,
            ) <= i64::MAX),
    ensures
        sum_balances(spec_apply_legs(accounts, from, to, amount, now)) == sum_balances(accounts)
            + (match to {
            Some(t) => amount * count_id(accounts, t),
            None => 0,
        }) - (match from {
            Some(f) => amount * count_id(accounts, f),
            None => 0,
        }),
    decreases accounts.len(),
{
    let applied = spec_apply_legs(accounts, from, to, amount, now);
    if accounts.len() == 0 {
        assert(applied.len() == 0);
        if to is Some {
            assert(amount * 0 == 0) by (nonlinear_arith);
        }
        if from is Some {
            assert(amount * 0 == 0) by (nonlinear_arith);
        }
    } else {
        let rest = accounts.drop_last();
        assert(forall|i: int| 0 <= i < rest.len() ==> rest[i] == accounts[i]);
        lemma_sum_apply_legs(rest, from, to, amount, now);
        assert(applied.drop_last() =~= spec_apply_legs(rest, from, to, amount, now));
        let a = accounts.last();
        assert(applied.last() == if leg_touches(a.id, from, to) {
            AccountDto {
                balance_cents: (a.balance_cents + leg_delta(a.id, from, to, amount)) as i64,
                updated_at: now,
                ..a
            }
        } else {
            a
        });
        match to {
            Some(t) => {
                let c = count_id(rest, t);
                assert(amount * (c + 1) == amount * c + amount) by (nonlinear_arith);
            },
            None => {},
        }
        match from {
            Some(f) => {
                let c = count_id(rest, f);
                assert(amount * (c + 1) == amount * c + amount) by (nonlinear_arith);
            },
            None => {},
        }
    }
}

/// Conservation: when a posting names both legs, the balance deltas it
/// applies sum to zero — the total over all account balances is exactly
/// what it was before. Money moves; none is created.
pub proof fn lemma_posting_conserves_total(
    accounts: Seq<AccountDto>,
    f: u64,
    t: u64,
    amount: int,
    now: String,
)
    requires
        account_ids_unique(accounts),
        spec_leg_error(accounts, Some(f), Some(t), amount) is None,
    ensures
        sum_balances(spec_apply_legs(accounts, Some(f), Some(t), amount, now)) == sum_balances(
            accounts,
        ),
{
    let from = Some(f);
    let to = Some(t);
    assert forall|i: int|
        0 <= i < accounts.len() implies (leg_touches(#[trigger] accounts[i].id, from, to)
        ==> i64::MIN <= accounts[i].balance_cents + leg_delta(accounts[i].id, from, to, amount)
        <= i64::MAX) by {
        let a = accounts[i];
        if leg_touches(a.id, from, to) {
            lemma_account_by_id_is_at(accounts, a.id, i);
            if a.id == f && a.id == t {
                assert(leg_delta(a.id, from, to, amount) == 0);
            } else if a.id == f {
                assert(from_leg_ok(accounts, f, amount));
            } else {
                assert(to_leg_ok(accounts, from, t, amount));
            }
        }
    }
    lemma_sum_apply_legs(accounts, from, to, amount, now);
    lemma_count_id_unique(accounts, f);
    lemma_count_id_unique(accounts, t);
    assert(amount * 1 == amount) by (nonlinear_arith);
}

/// The liability invariant as an explicit law: a well-formed ledger never
/// shows a positive balance on a liability account — and every engine
/// operation requires and re-establishes well-formedness.
pub proof fn lemma_liability_invariant(l: LedgerView)
    requires
        l.wf(),
    ensures
        forall|i: int|
            0 <= i < l.accounts.len() ==> (l.accounts[i].account_type == AccountType::Liability
                ==> l.accounts[i].balance_cents <= 0),
{
}

/// Appending transactions never invalidates a schedule's reference to its
/// source transaction, because issued identities stay below `next_id`.
proof fn lemma_append_preserves_schedules_wf(
    pre: LedgerView,
    new_transactions: Seq<TransactionDto>,
    schedules: Seq<AmortizationScheduleDto>,
)
    requires
        pre.wf(),
        schedules == pre.schedules,
        new_transactions.len() >= pre.transactions.len(),
        forall|i: int|
            0 <= i < pre.transactions.len() ==> new_transactions[i] == pre.transactions[i],
        forall|i: int|
            pre.transactions.len() <= i < new_transactions.len()
                ==> #[trigger] new_transactions[i].id >= pre.next_id,
        transaction_ids_unique(new_transactions),
    ensures
        forall|i: int|
            0 <= i < schedules.len() ==> {
                let s = #[trigger] schedules[i];
                &&& has_transaction(new_transactions, s.source_transaction_id)
                &&& transaction_by_id(new_transactions, s.source_transaction_id).amount_cents
                    >= s.residual_cents
            },
{
    assert forall|i: int| 0 <= i < schedules.len() implies {
        let s = #[trigger] schedules[i];
        &&& has_transaction(new_transactions, s.source_transaction_id)
        &&& transaction_by_id(new_transactions, s.source_transaction_id).amount_cents
            >= s.residual_cents
    } by {
        let s = schedules[i];
        let sid = s.source_transaction_id;
        let j = choose|j: int|
            0 <= j < pre.transactions.len() && pre.transactions[j].id == sid;
        assert(pre.transactions[j].id == sid);
        assert(new_transactions[j] == pre.transactions[j]);
        lemma_transaction_by_id_is_at(new_transactions, sid, j);
        lemma_transaction_by_id_is_at(pre.transactions, sid, j);
    }
}

} // verus!
