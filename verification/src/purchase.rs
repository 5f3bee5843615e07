use vstd::prelude::*;

use crate::calendar::{date_of_str, parse_date_ymd};
use crate::errors::AppError;
use crate::ledger::{
    has_transaction, lemma_transaction_by_id_is_at, spec_apply_legs, spec_leg_error,
    spec_posted_transaction, transaction_by_id, Ledger, LedgerView,
};
use crate::models::{
    AccrualType, AmortizationScheduleDto, AssetPurchaseResultDto, CreateAssetPurchaseInput,
    CreateTransactionInput, ScheduleStatus, TransactionDto,
};

verus! {

/// The error an asset purchase owes a request on a given ledger, or `None`
/// when it must succeed: the amount must be positive, the schedule life
/// positive, the residual within `[0, amount]`, the start date a valid
/// `YYYY-MM-DD`, and the funding and asset legs must pass the posting
/// engine's checks.
pub open spec fn spec_purchase_error(l: LedgerView, input: CreateAssetPurchaseInput) -> Option<
    AppError,
> {
    if input.amount_cents <= 0 {
        Some(AppError::InvalidInput)
    } else if input.total_periods <= 0 {
        Some(AppError::InvalidInput)
    } else if input.residual_cents < 0 || input.residual_cents > input.amount_cents {
        Some(AppError::InvalidInput)
    } else if date_of_str(input.start_date@) is None {
        Some(AppError::InvalidInput)
    } else {
        spec_leg_error(
            l.accounts,
            Some(input.from_account_id),
            Some(input.asset_account_id),
            input.amount_cents as int,
        )
    }
}

/// The posting request an asset purchase hands to the posting engine: a
/// flow from the funding account into the asset account, flagged as an
/// asset purchase.
pub open spec fn spec_purchase_request(input: CreateAssetPurchaseInput) -> CreateTransactionInput {
    CreateTransactionInput {
        amount_cents: input.amount_cents,
        from_account_id: Some(input.from_account_id),
        to_account_id: Some(input.asset_account_id),
        payee_id: input.payee_id,
        category_id: input.category_id,
        accrual_type: Some(AccrualType::Flow),
        is_asset_purchase: Some(true),
        note: input.note,
        occurred_at: input.occurred_at,
    }
}

/// The schedule an asset purchase creates under identity `id`, referencing
/// the purchase transaction `tx_id`.
pub open spec fn spec_purchase_schedule(
    input: CreateAssetPurchaseInput,
    id: u64,
    tx_id: u64,
) -> AmortizationScheduleDto {
    AmortizationScheduleDto {
        id: id,
        asset_account_id: input.asset_account_id,
        strategy: input.strategy,
        total_periods: input.total_periods,
        residual_cents: input.residual_cents,
        start_date: date_of_str(input.start_date@)->0,
        source_transaction_id: tx_id,
        status: ScheduleStatus::Active,
    }
}

impl Ledger {
    /// Buys an asset: posts a flow transaction from the funding account to
    /// the asset account through the posting engine, then creates the
    /// `Active` amortization schedule that will expense it. All three
    /// effects commit together; on any error — a failed validation or a
    /// violated liability invariant — the ledger is exactly as before,
    /// with no transaction, no balance change and no schedule.
    #[verifier::rlimit(50)]
    pub fn create_asset_purchase(
        &mut self,
        input: CreateAssetPurchaseInput,
        now: String,
    ) -> (r: Result<AssetPurchaseResultDto, AppError>)
        requires
            old(self).wf(),
            old(self)@.next_id as int + 2 <= u64::MAX as int,
        ensures
            final(self).wf(),
            match r {
                Ok(res) => {
                    &&& spec_purchase_error(old(self)@, input) is None
                    &&& res.transaction == spec_posted_transaction(
                        spec_purchase_request(input),
                        old(self)@.next_id,
                        now,
                    )
                    &&& res.schedule == spec_purchase_schedule(
                        input,
                        (old(self)@.next_id + 1) as u64,
                        old(self)@.next_id,
                    )
                    &&& final(self)@ == (LedgerView {
                        transactions: old(self)@.transactions.push(res.transaction),
                        accounts: spec_apply_legs(
                            old(self)@.accounts,
                            Some(input.from_account_id),
                            Some(input.asset_account_id),
                            input.amount_cents as int,
                            now,
                        ),
                        schedules: old(self)@.schedules.push(res.schedule),
                        next_id: (old(self)@.next_id + 2) as u64,
                        ..old(self)@
                    })
                },
                Err(e) => {
                    &&& spec_purchase_error(old(self)@, input) == Some(e)
                    &&& final(self)@ == old(self)@
                },
            },
    {
        if input.amount_cents <= 0 {
            return Err(AppError::InvalidInput);
        }
        if input.total_periods <= 0 {
            return Err(AppError::InvalidInput);
        }
        if input.residual_cents < 0 || input.residual_cents > input.amount_cents {
            return Err(AppError::InvalidInput);
        }
        let start_date = match parse_date_ymd(input.start_date.as_str()) {
            Ok(d) => d,
            Err(e) => { return Err(e) },
        };
        let request = CreateTransactionInput {
            amount_cents: input.amount_cents,
            from_account_id: Some(input.from_account_id),
            to_account_id: Some(input.asset_account_id),
            payee_id: input.payee_id,
            category_id: input.category_id,
            accrual_type: Some(AccrualType::Flow),
            is_asset_purchase: Some(true),
            note: input.note,
            occurred_at: input.occurred_at,
        };
        let tx = match self.post_transaction(request, now) {
            Ok(tx) => tx,
            Err(e) => { return Err(e) },
        };
        let schedule = AmortizationScheduleDto {
            id: self.next_id,
            asset_account_id: input.asset_account_id,
            strategy: input.strategy,
            total_periods: input.total_periods,
            residual_cents: input.residual_cents,
            start_date: start_date,
            source_transaction_id: tx.id,
            status: ScheduleStatus::Active,
        };
        let ghost mid = self@;
        self.schedules.push(schedule);
        self.next_id = self.next_id + 1;
        proof {
            assert(self@ =~= (LedgerView {
                schedules: mid.schedules.push(schedule),
                next_id: (mid.next_id + 1) as u64,
                ..mid
            }));
            // The new schedule's source transaction is the purchase
            // transaction just pushed, whose amount covers the residual.
            let txs = self@.transactions;
            assert(txs[txs.len() - 1] == tx);
            lemma_transaction_by_id_is_at(txs, tx.id, txs.len() - 1);
            assert(self@.schedules_wf()) by {
                assert(forall|i: int|
                    0 <= i < mid.schedules.len() ==> self@.schedules[i] == mid.schedules[i]);
            }
            assert(self@ =~= (LedgerView {
                transactions: old(self)@.transactions.push(tx),
                accounts: spec_apply_legs(
                    old(self)@.accounts,
                    Some(input.from_account_id),
                    Some(input.asset_account_id),
                    input.amount_cents as int,
                    now,
                ),
                schedules: old(self)@.schedules.push(schedule),
                next_id: (old(self)@.next_id + 2) as u64,
                ..old(self)@
            }));
        }
        Ok(AssetPurchaseResultDto { transaction: tx, schedule: schedule })
    }
}

} // verus!
