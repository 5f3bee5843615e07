use vstd::prelude::*;

use crate::errors::AppError;
use crate::ledger::{
    account_by_id, has_account, lemma_account_by_id_is_at, spec_apply_legs, Ledger, LedgerView,
};
use crate::models::{
    AccountType, AccrualType, BalanceSnapshot, CreateTransactionInput, ReconcileInput,
    ReconcileResultDto,
};

verus! {

/// The error a reconciliation owes a request on a given ledger, or `None`
/// when it must succeed: the account must exist, the delta between the
/// asserted and system balances must fit in `i64`, and a liability account
/// may not be asserted to a positive balance.
pub open spec fn spec_reconcile_error(l: LedgerView, input: ReconcileInput) -> Option<AppError> {
    if !has_account(l.accounts, input.account_id) {
        Some(AppError::NotFound)
    } else {
        let a = account_by_id(l.accounts, input.account_id);
        let delta = input.actual_balance_cents - a.balance_cents;
        if delta == 0 {
            None
        } else if !(i64::MIN < delta <= i64::MAX) {
            Some(AppError::InvalidInput)
        } else if a.account_type == AccountType::Liability && input.actual_balance_cents > 0 {
            Some(AppError::InvalidInput)
        } else {
            None
        }
    }
}

/// The absolute amount of a reconciliation adjustment.
pub open spec fn spec_adjustment_amount(delta: int) -> int {
    if delta < 0 {
        -delta
    } else {
        delta
    }
}

/// The `from` leg of a reconciliation adjustment: the account itself when
/// the system balance overstates reality (money must leave).
pub open spec fn spec_adjustment_from(id: u64, delta: int) -> Option<u64> {
    if delta < 0 {
        Some(id)
    } else {
        None
    }
}

/// The `to` leg of a reconciliation adjustment: the account itself when
/// the system balance understates reality (money must enter).
pub open spec fn spec_adjustment_to(id: u64, delta: int) -> Option<u64> {
    if delta > 0 {
        Some(id)
    } else {
        None
    }
}

impl Ledger {
    /// Reconciles an account against an asserted real-world balance:
    /// computes `delta = actual - system`; for a nonzero delta posts an
    /// `Adjustment` of `|delta|` through the posting engine (withdrawing
    /// when the system overstated, depositing when it understated); and
    /// always — even at delta zero — appends a `BalanceSnapshot` recording
    /// the attempt. On any error the ledger is exactly as before.
    #[verifier::rlimit(50)]
    pub fn reconcile_account(&mut self, input: ReconcileInput, now: String) -> (r: Result<
        ReconcileResultDto,
        AppError,
    >)
        requires
            old(self).wf(),
            old(self)@.next_id as int + 2 <= u64::MAX as int,
        ensures
            final(self).wf(),
            match r {
                Ok(res) => {
                    let a0 = account_by_id(old(self)@.accounts, input.account_id);
                    let delta = input.actual_balance_cents - a0.balance_cents;
                    &&& spec_reconcile_error(old(self)@, input) is None
                    &&& has_account(old(self)@.accounts, input.account_id)
                    &&& res.delta_cents == delta
                    &&& res.account.id == input.account_id
                    &&& res.account.balance_cents == input.actual_balance_cents
                    &&& if delta == 0 {
                        &&& res.adjustment_transaction is None
                        &&& res.account == a0
                        &&& final(self)@ == (LedgerView {
                            snapshots: old(self)@.snapshots.push(
                                BalanceSnapshot {
                                    id: old(self)@.next_id,
                                    account_id: input.account_id,
                                    actual_balance_cents: input.actual_balance_cents,
                                    system_balance_cents: a0.balance_cents,
                                    delta_cents: 0,
                                    captured_at: now,
                                    adjustment_tx_id: None,
                                },
                            ),
                            next_id: (old(self)@.next_id + 1) as u64,
                            ..old(self)@
                        })
                    } else {
                        &&& res.adjustment_transaction matches Some(tx) && {
                            &&& tx.id == old(self)@.next_id
                            &&& tx.amount_cents == spec_adjustment_amount(delta)
                            &&& tx.from_account_id == spec_adjustment_from(input.account_id, delta)
                            &&& tx.to_account_id == spec_adjustment_to(input.account_id, delta)
                            &&& tx.payee_id is None
                            &&& tx.category_id is None
                            &&& tx.accrual_type == AccrualType::Adjustment
                            &&& !tx.is_asset_purchase
                            &&& match input.note {
                                Some(n) => tx.note == Some(n),
                                None => tx.note matches Some(d) && d@
                                    == "Auto adjustment from reconciliation"@,
                            }
                            &&& tx.occurred_at == match input.occurred_at {
                                Some(s) => s,
                                None => now,
                            }
                            &&& tx.created_at == now
                            &&& res.account == account_by_id(final(self)@.accounts, input.account_id)
                            &&& final(self)@ == (LedgerView {
                                transactions: old(self)@.transactions.push(tx),
                                accounts: spec_apply_legs(
                                    old(self)@.accounts,
                                    spec_adjustment_from(input.account_id, delta),
                                    spec_adjustment_to(input.account_id, delta),
                                    spec_adjustment_amount(delta),
                                    now,
                                ),
                                snapshots: old(self)@.snapshots.push(
                                    BalanceSnapshot {
                                        id: (old(self)@.next_id + 1) as u64,
                                        account_id: input.account_id,
                                        actual_balance_cents: input.actual_balance_cents,
                                        system_balance_cents: a0.balance_cents,
                                        delta_cents: delta as i64,
                                        captured_at: now,
                                        adjustment_tx_id: Some(tx.id),
                                    },
                                ),
                                next_id: (old(self)@.next_id + 2) as u64,
                                ..old(self)@
                            })
                        }
                    }
                },
                Err(e) => {
                    &&& spec_reconcile_error(old(self)@, input) == Some(e)
                    &&& final(self)@ == old(self)@
                },
            },
    {
        let idx = match self.find_account_index(input.account_id) {
            Some(i) => i,
            None => { return Err(AppError::NotFound) },
        };
        proof {
            lemma_account_by_id_is_at(self@.accounts, input.account_id, idx as int);
        }
        let system_balance = self.accounts[idx].balance_cents;
        let delta = match input.actual_balance_cents.checked_sub(system_balance) {
            Some(d) => d,
            None => { return Err(AppError::InvalidInput) },
        };
        if delta == 0 {
            let snapshot = BalanceSnapshot {
                id: self.next_id,
                account_id: input.account_id,
                actual_balance_cents: input.actual_balance_cents,
                system_balance_cents: system_balance,
                delta_cents: 0,
                captured_at: now,
                adjustment_tx_id: None,
            };
            let account = self.accounts[idx].clone();
            let ghost pre = self@;
            self.snapshots.push(snapshot);
            self.next_id = self.next_id + 1;
            proof {
                assert(self@ =~= (LedgerView {
                    snapshots: pre.snapshots.push(snapshot),
                    next_id: (pre.next_id + 1) as u64,
                    ..pre
                }));
            }
            return Ok(
                ReconcileResultDto { account: account, delta_cents: 0, adjustment_transaction: None },
            );
        }
        if delta == i64::MIN {
            return Err(AppError::InvalidInput);
        }
        let amount = if delta < 0 {
            -delta
        } else {
            delta
        };
        let from_leg: Option<u64> = if delta < 0 {
            Some(input.account_id)
        } else {
            None
        };
        let to_leg: Option<u64> = if delta > 0 {
            Some(input.account_id)
        } else {
            None
        };
        let note: Option<String> = match input.note {
            Some(n) => Some(n),
            None => Some(String::from_str("Auto adjustment from reconciliation")),
        };
        let request = CreateTransactionInput {
            amount_cents: amount,
            from_account_id: from_leg,
            to_account_id: to_leg,
            payee_id: None,
            category_id: None,
            accrual_type: Some(AccrualType::Adjustment),
            is_asset_purchase: Some(false),
            note: note,
            occurred_at: input.occurred_at,
        };
        let tx = match self.post_transaction(request, now.clone()) {
            Ok(tx) => tx,
            Err(e) => { return Err(e) },
        };
        let snapshot = BalanceSnapshot {
            id: self.next_id,
            account_id: input.account_id,
            actual_balance_cents: input.actual_balance_cents,
            system_balance_cents: system_balance,
            delta_cents: delta,
            captured_at: now,
            adjustment_tx_id: Some(tx.id),
        };
        let ghost mid = self@;
        self.snapshots.push(snapshot);
        self.next_id = self.next_id + 1;
        proof {
            assert(self@ =~= (LedgerView {
                snapshots: mid.snapshots.push(snapshot),
                next_id: (mid.next_id + 1) as u64,
                ..mid
            }));
            lemma_account_by_id_is_at(self@.accounts, input.account_id, idx as int);
        }
        let account = self.accounts[idx].clone();
        let out_tx = tx.clone();
        proof {
            assert(self@ =~= (LedgerView {
                transactions: old(self)@.transactions.push(tx),
                accounts: spec_apply_legs(
                    old(self)@.accounts,
                    spec_adjustment_from(input.account_id, delta as int),
                    spec_adjustment_to(input.account_id, delta as int),
                    spec_adjustment_amount(delta as int),
                    now,
                ),
                snapshots: old(self)@.snapshots.push(snapshot),
                next_id: (old(self)@.next_id + 2) as u64,
                ..old(self)@
            }));
        }
        Ok(
            ReconcileResultDto {
                account: account,
                delta_cents: delta,
                adjustment_transaction: Some(out_tx),
            },
        )
    }
}

} // verus!
