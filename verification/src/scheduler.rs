use vstd::prelude::*;

use crate::calendar::{months_between, parse_period, period_first_instant, period_of_str, Date};
use crate::depreciation::calculate_depreciation_amount;
use crate::depreciation::spec_depreciation_amount;
use crate::errors::AppError;
use crate::ledger::{
    has_posting_for, has_transaction, lemma_transaction_by_id_is_at, transaction_by_id, Ledger,
    LedgerView,
};
use crate::models::{
    AccrualType, AmortizationPosting, AmortizationScheduleDto, ScheduleStatus, TransactionDto,
};
use crate::text::str_eq;

verus! {

/// The zero-based count of calendar months from a schedule's start month
/// to period `p`; negative before the start, at or beyond `total_periods`
/// after the schedule's life.
pub open spec fn spec_period_index(s: AmortizationScheduleDto, p: Date) -> int {
    p.month_ordinal() - s.start_date.month_ordinal()
}

/// The amount schedule `s` posts for period `p` under its strategy: its
/// depreciable base is its source purchase amount less its residual.
pub open spec fn spec_schedule_amount(l: LedgerView, s: AmortizationScheduleDto, p: Date) -> int {
    spec_depreciation_amount(
        s.strategy,
        transaction_by_id(l.transactions, s.source_transaction_id).amount_cents
            - s.residual_cents,
        s.total_periods as int,
        spec_period_index(s, p),
    )
}

/// Whether schedule `s` still owes a posting for period `p`: it is active,
/// the period falls inside its life, nothing was posted yet for
/// (schedule, period), and the strategy assigns the period a positive
/// amount.
pub open spec fn spec_schedule_due(
    l: LedgerView,
    s: AmortizationScheduleDto,
    p: Date,
    period: Seq<char>,
) -> bool {
    &&& s.status == ScheduleStatus::Active
    &&& 0 <= spec_period_index(s, p) < s.total_periods
    &&& !has_posting_for(l.postings, s.id, period)
    &&& spec_schedule_amount(l, s, p) > 0
}

/// No schedule owes a posting for period `p` any more.
pub open spec fn spec_period_covered(l: LedgerView, p: Date, period: Seq<char>) -> bool {
    forall|i: int|
        0 <= i < l.schedules.len() ==> !spec_schedule_due(l, #[trigger] l.schedules[i], p, period)
}

/// What a depreciation sweep may never touch, and how it grows the rest:
/// accounts and snapshots stay put, transactions and postings are only
/// appended and in equal numbers, and each pair consumes two fresh
/// identities.
pub open spec fn spec_sweep_frame(pre: LedgerView, post: LedgerView) -> bool {
    &&& post.accounts == pre.accounts
    &&& post.snapshots == pre.snapshots
    &&& post.transactions.len() >= pre.transactions.len()
    &&& forall|k: int|
        0 <= k < pre.transactions.len() ==> post.transactions[k] == pre.transactions[k]
    &&& post.postings.len() >= pre.postings.len()
    &&& forall|k: int| 0 <= k < pre.postings.len() ==> post.postings[k] == pre.postings[k]
    &&& post.postings.len() - pre.postings.len() == post.transactions.len()
        - pre.transactions.len()
    &&& post.next_id == pre.next_id + 2 * (post.postings.len() - pre.postings.len())
    &&& forall|k: int|
        pre.transactions.len() <= k < post.transactions.len()
            ==> #[trigger] post.transactions[k].id >= pre.next_id
}

/// Every posting a sweep adds is for this very period, belongs to a
/// schedule that owed it, carries that schedule's exact strategy amount,
/// and points at a depreciation transaction of the same amount, without
/// legs, dated to the period's first instant.
pub open spec fn spec_new_postings_sound(
    pre: LedgerView,
    post: LedgerView,
    p: Date,
    period: Seq<char>,
) -> bool {
    forall|k: int|
        pre.postings.len() <= k < post.postings.len() ==> {
            let posting = #[trigger] post.postings[k];
            &&& posting.period_ym@ == period
            &&& posting.amount_cents > 0
            &&& exists|i: int|
                0 <= i < pre.schedules.len() && (#[trigger] pre.schedules[i]).id
                    == posting.schedule_id && spec_schedule_due(pre, pre.schedules[i], p, period)
                    && posting.amount_cents == spec_schedule_amount(pre, pre.schedules[i], p)
            &&& exists|j: int|
                0 <= j < post.transactions.len() && {
                    let tx = #[trigger] post.transactions[j];
                    &&& tx.id == posting.transaction_id
                    &&& tx.amount_cents == posting.amount_cents
                    &&& tx.accrual_type == AccrualType::Depreciation
                    &&& tx.from_account_id is None
                    &&& tx.to_account_id is None
                    &&& !tx.is_asset_purchase
                    &&& tx.occurred_at@ == period + "-01T00:00:00Z"@
                }
        }
}

/// How a sweep may change the schedule at one position: a schedule that
/// owed its final period moves from `Active` to `Completed`; any other is
/// untouched.
pub open spec fn spec_advanced_at(
    pre: LedgerView,
    post: LedgerView,
    j: int,
    p: Date,
    period: Seq<char>,
) -> bool {
    let s0 = pre.schedules[j];
    if spec_schedule_due(pre, s0, p, period) && spec_period_index(s0, p) == s0.total_periods
        - 1 {
        post.schedules[j] == AmortizationScheduleDto { status: ScheduleStatus::Completed, ..s0 }
    } else {
        post.schedules[j] == s0
    }
}

/// A sweep changes no schedule but the status of those that posted their
/// final period, which move from `Active` to `Completed`.
pub open spec fn spec_schedules_advanced(
    pre: LedgerView,
    post: LedgerView,
    p: Date,
    period: Seq<char>,
) -> bool {
    &&& post.schedules.len() == pre.schedules.len()
    &&& forall|i: int| 0 <= i < pre.schedules.len() ==> spec_advanced_at(pre, post, i, p, period)
}

/// Appending transactions with fresh identities and appending postings can
/// only retire a schedule's dueness, never create it; its strategy amount
/// is untouched.
proof fn lemma_due_monotone(
    l1: LedgerView,
    l2: LedgerView,
    s: AmortizationScheduleDto,
    p: Date,
    period: Seq<char>,
)
    requires
        l1.wf(),
        l2.transactions.len() >= l1.transactions.len(),
        forall|k: int|
            0 <= k < l1.transactions.len() ==> l2.transactions[k] == l1.transactions[k],
        forall|k: int|
            l1.transactions.len() <= k < l2.transactions.len()
                ==> #[trigger] l2.transactions[k].id >= l1.next_id,
        crate::ledger::transaction_ids_unique(l2.transactions),
        l2.postings.len() >= l1.postings.len(),
        forall|k: int| 0 <= k < l1.postings.len() ==> l2.postings[k] == l1.postings[k],
        has_transaction(l1.transactions, s.source_transaction_id),
    ensures
        spec_schedule_amount(l2, s, p) == spec_schedule_amount(l1, s, p),
        spec_schedule_due(l2, s, p, period) ==> spec_schedule_due(l1, s, p, period),
        has_posting_for(l1.postings, s.id, period) ==> has_posting_for(l2.postings, s.id, period),
{
    let id = s.source_transaction_id;
    let j = choose|j: int| 0 <= j < l1.transactions.len() && l1.transactions[j].id == id;
    lemma_transaction_by_id_is_at(l1.transactions, id, j);
    lemma_transaction_by_id_is_at(l2.transactions, id, j);
    if has_posting_for(l1.postings, s.id, period) {
        let k = choose|k: int|
            0 <= k < l1.postings.len() && l1.postings[k].schedule_id == s.id
                && l1.postings[k].period_ym@ == period;
        assert(l2.postings[k].schedule_id == s.id && l2.postings[k].period_ym@ == period);
    }
}

/// One step of the sweep: schedule `i` owed period `p` and receives its
/// depreciation transaction `tx` and posting `posting`; every invariant of
/// the sweep is carried from the state `head` before the step to the state
/// `cur` after it.
#[verifier::rlimit(50)]
proof fn lemma_sweep_step(
    pre: LedgerView,
    head: LedgerView,
    cur: LedgerView,
    s: AmortizationScheduleDto,
    i: int,
    p: Date,
    period: Seq<char>,
    tx: TransactionDto,
    posting: AmortizationPosting,
)
    requires
        pre.wf(),
        head.wf(),
        head.next_id as int + 2 <= u64::MAX as int,
        spec_sweep_frame(pre, head),
        spec_new_postings_sound(pre, head, p, period),
        head.schedules.len() == pre.schedules.len(),
        0 <= i < pre.schedules.len(),
        forall|j: int| i <= j < pre.schedules.len() ==> head.schedules[j] == pre.schedules[j],
        forall|j: int|
            0 <= j < i ==> !spec_schedule_due(head, #[trigger] head.schedules[j], p, period),
        forall|j: int| 0 <= j < i ==> spec_advanced_at(pre, head, j, p, period),
        forall|k: int, j: int|
            pre.postings.len() <= k < head.postings.len() && i <= j < pre.schedules.len() ==> (
            #[trigger] pre.schedules[j]).id != (#[trigger] head.postings[k]).schedule_id,
        s == head.schedules[i],
        spec_schedule_due(head, s, p, period),
        spec_schedule_due(pre, s, p, period),
        spec_schedule_amount(pre, s, p) == spec_schedule_amount(head, s, p),
        tx.id == head.next_id,
        tx.amount_cents == spec_schedule_amount(head, s, p),
        tx.from_account_id is None,
        tx.to_account_id is None,
        tx.accrual_type == AccrualType::Depreciation,
        !tx.is_asset_purchase,
        tx.occurred_at@ == period + "-01T00:00:00Z"@,
        posting.id == head.next_id + 1,
        posting.schedule_id == s.id,
        posting.period_ym@ == period,
        posting.amount_cents == tx.amount_cents,
        posting.transaction_id == tx.id,
        cur == (LedgerView {
            transactions: head.transactions.push(tx),
            postings: head.postings.push(posting),
            schedules: if spec_period_index(s, p) == s.total_periods - 1 {
                head.schedules.update(
                    i,
                    AmortizationScheduleDto { status: ScheduleStatus::Completed, ..s },
                )
            } else {
                head.schedules
            },
            next_id: (head.next_id + 2) as u64,
            ..head
        }),
    ensures
        cur.wf(),
        spec_sweep_frame(pre, cur),
        spec_new_postings_sound(pre, cur, p, period),
        cur.schedules.len() == pre.schedules.len(),
        forall|j: int| i + 1 <= j < pre.schedules.len() ==> cur.schedules[j] == pre.schedules[j],
        forall|j: int|
            0 <= j < i + 1 ==> !spec_schedule_due(cur, #[trigger] cur.schedules[j], p, period),
        forall|j: int| 0 <= j < i + 1 ==> spec_advanced_at(pre, cur, j, p, period),
        forall|k: int, j: int|
            pre.postings.len() <= k < cur.postings.len() && i + 1 <= j < pre.schedules.len()
                ==> (#[trigger] pre.schedules[j]).id != (#[trigger] cur.postings[k]).schedule_id,
        !spec_period_covered(pre, p, period),
{
    // The two appended records carry fresh identities.
    assert(cur.transactions[cur.transactions.len() - 1].id == head.next_id);
    assert(cur.postings[cur.postings.len() - 1].id == head.next_id + 1);
    // Well-formedness is preserved.
    assert(crate::ledger::transaction_ids_unique(cur.transactions));
    assert(crate::ledger::posting_ids_unique(cur.postings));
    assert(crate::ledger::posting_keys_unique(cur.postings));
    assert(cur.schedules_wf()) by {
        assert forall|j: int| 0 <= j < cur.schedules.len() implies {
            let sj = #[trigger] cur.schedules[j];
            &&& sj.total_periods > 0
            &&& sj.residual_cents >= 0
            &&& sj.start_date.wf()
            &&& has_transaction(cur.transactions, sj.source_transaction_id)
            &&& transaction_by_id(cur.transactions, sj.source_transaction_id).amount_cents
                >= sj.residual_cents
        } by {
            let sj = cur.schedules[j];
            assert(sj.total_periods > 0 && sj.residual_cents >= 0 && sj.start_date.wf()
                && has_transaction(head.transactions, sj.source_transaction_id)
                && transaction_by_id(head.transactions, sj.source_transaction_id).amount_cents
                >= sj.residual_cents) by {
                assert(sj == head.schedules[j] || sj == AmortizationScheduleDto {
                    status: ScheduleStatus::Completed,
                    ..head.schedules[j]
                });
            }
            let w = choose|w: int|
                0 <= w < head.transactions.len() && head.transactions[w].id
                    == sj.source_transaction_id;
            lemma_transaction_by_id_is_at(head.transactions, sj.source_transaction_id, w);
            assert(cur.transactions[w] == head.transactions[w]);
            lemma_transaction_by_id_is_at(cur.transactions, sj.source_transaction_id, w);
        }
    }
    assert(cur.wf());
    // Every new posting — the ones carried from `head` and the one just
    // added — is sound with respect to the pre state.
    assert(spec_new_postings_sound(pre, cur, p, period)) by {
        assert forall|k: int| pre.postings.len() <= k < cur.postings.len() implies {
            let po = #[trigger] cur.postings[k];
            &&& po.period_ym@ == period
            &&& po.amount_cents > 0
            &&& exists|ii: int|
                0 <= ii < pre.schedules.len() && (#[trigger] pre.schedules[ii]).id
                    == po.schedule_id && spec_schedule_due(pre, pre.schedules[ii], p, period)
                    && po.amount_cents == spec_schedule_amount(pre, pre.schedules[ii], p)
            &&& exists|jj: int|
                0 <= jj < cur.transactions.len() && {
                    let txj = #[trigger] cur.transactions[jj];
                    &&& txj.id == po.transaction_id
                    &&& txj.amount_cents == po.amount_cents
                    &&& txj.accrual_type == AccrualType::Depreciation
                    &&& txj.from_account_id is None
                    &&& txj.to_account_id is None
                    &&& !txj.is_asset_purchase
                    &&& txj.occurred_at@ == period + "-01T00:00:00Z"@
                }
        } by {
            if k < cur.postings.len() - 1 {
                assert(cur.postings[k] == head.postings[k]);
                let ii = choose|ii: int|
                    0 <= ii < pre.schedules.len() && (#[trigger] pre.schedules[ii]).id
                        == head.postings[k].schedule_id && spec_schedule_due(
                        pre,
                        pre.schedules[ii],
                        p,
                        period,
                    ) && head.postings[k].amount_cents == spec_schedule_amount(
                        pre,
                        pre.schedules[ii],
                        p,
                    );
                assert(pre.schedules[ii].id == cur.postings[k].schedule_id);
                let jj = choose|jj: int|
                    0 <= jj < head.transactions.len() && {
                        let txj = #[trigger] head.transactions[jj];
                        &&& txj.id == head.postings[k].transaction_id
                        &&& txj.amount_cents == head.postings[k].amount_cents
                        &&& txj.accrual_type == AccrualType::Depreciation
                        &&& txj.from_account_id is None
                        &&& txj.to_account_id is None
                        &&& !txj.is_asset_purchase
                        &&& txj.occurred_at@ == period + "-01T00:00:00Z"@
                    };
                assert(cur.transactions[jj] == head.transactions[jj]);
            } else {
                let po = cur.postings[k];
                assert(po == posting);
                assert(pre.schedules[i].id == po.schedule_id);
                assert(po.amount_cents == spec_schedule_amount(pre, pre.schedules[i], p));
                assert(cur.transactions[cur.transactions.len() - 1] == tx);
            }
        }
    }
    // Schedules up to and including `i` follow the advance rule and are no
    // longer due.
    assert forall|j: int|
        0 <= j < i + 1 implies !spec_schedule_due(cur, #[trigger] cur.schedules[j], p, period) by {
        if j == i {
            assert(has_posting_for(cur.postings, s.id, period)) by {
                assert(cur.postings[cur.postings.len() - 1].schedule_id == s.id);
            }
            assert(cur.schedules[j].id == s.id);
        } else {
            assert(!spec_schedule_due(head, head.schedules[j], p, period));
            assert(cur.schedules[j] == head.schedules[j]);
            assert(has_transaction(head.transactions, head.schedules[j].source_transaction_id));
            lemma_due_monotone(head, cur, head.schedules[j], p, period);
        }
    }
    assert forall|j: int| 0 <= j < i + 1 implies spec_advanced_at(pre, cur, j, p, period) by {
        if j < i {
            assert(spec_advanced_at(pre, head, j, p, period));
            assert(cur.schedules[j] == head.schedules[j]);
        } else {
            assert(pre.schedules[i] == s);
        }
    }
    assert(!spec_period_covered(pre, p, period)) by {
        assert(spec_schedule_due(pre, pre.schedules[i], p, period));
    }
    assert forall|k: int, j: int|
        pre.postings.len() <= k < cur.postings.len() && i + 1 <= j
            < pre.schedules.len() implies (#[trigger] pre.schedules[j]).id != (
    #[trigger] cur.postings[k]).schedule_id by {
        if k < cur.postings.len() - 1 {
            assert(cur.postings[k] == head.postings[k]);
        } else {
            assert(cur.postings[k].schedule_id == pre.schedules[i].id);
        }
    }
}

impl Ledger {
    /// Whether a posting for (schedule `sid`, `period`) already exists.
    fn find_posting_for(&self, sid: u64, period: &str) -> (r: bool)
        ensures
            r == has_posting_for(self.postings@, sid, period@),
    {
        let mut i: usize = 0;
        while i < self.postings.len()
            invariant
                i <= self.postings@.len(),
                forall|j: int|
                    0 <= j < i ==> !(self.postings@[j].schedule_id == sid
                        && self.postings@[j].period_ym@ == period@),
            decreases self.postings@.len() - i,
        {
            if self.postings[i].schedule_id == sid && str_eq(
                self.postings[i].period_ym.as_str(),
                period,
            ) {
                return true;
            }
            i = i + 1;
        }
        false
    }

    /// Materializes the depreciation owed for one period, idempotently.
    /// Resolves `period_ym` (failing `InvalidInput` on anything but a
    /// valid `YYYY-MM`), then gives every active schedule whose life
    /// covers the period and which has not posted it yet its strategy
    /// amount: one depreciation transaction without legs, dated to the
    /// period's first instant, one posting under the (schedule, period)
    /// key, and — when the final period posts — the move to `Completed`.
    /// Calling it again for the same period changes nothing.
    #[verifier::rlimit(100)]
    pub fn ensure_depreciation_for_period(&mut self, period_ym: &str, now: String) -> (r: Result<
        (),
        AppError,
    >)
        requires
            old(self).wf(),
            old(self)@.next_id as int + 2 * old(self)@.schedules.len() <= u64::MAX as int,
        ensures
            final(self).wf(),
            match r {
                Ok(_) => {
                    let p = period_of_str(period_ym@)->0;
                    &&& period_of_str(period_ym@) is Some
                    &&& spec_sweep_frame(old(self)@, final(self)@)
                    &&& spec_new_postings_sound(old(self)@, final(self)@, p, period_ym@)
                    &&& spec_schedules_advanced(old(self)@, final(self)@, p, period_ym@)
                    &&& spec_period_covered(final(self)@, p, period_ym@)
                    &&& (spec_period_covered(old(self)@, p, period_ym@) ==> final(self)@ == old(
                        self,
                    )@)
                },
                Err(e) => {
                    &&& e == AppError::InvalidInput
                    &&& period_of_str(period_ym@) is None
                    &&& final(self)@ == old(self)@
                },
            },
    {
        let p = match parse_period(period_ym) {
            Ok(p) => p,
            Err(e) => { return Err(e) },
        };
        let occurred = period_first_instant(period_ym);
        let ghost pre = self@;
        let mut i: usize = 0;
        while i < self.schedules.len()
            invariant
                pre.wf(),
                self@.wf(),
                p == period_of_str(period_ym@)->0,
                p.wf(),
                occurred@ == period_ym@ + "-01T00:00:00Z"@,
                i <= self@.schedules.len(),
                self@.schedules.len() == pre.schedules.len(),
                self@.next_id as int + 2 * (self@.schedules.len() - i) <= u64::MAX as int,
                spec_sweep_frame(pre, self@),
                spec_new_postings_sound(pre, self@, p, period_ym@),
                forall|k: int, j: int|
                    pre.postings.len() <= k < self@.postings.len() && i <= j
                        < pre.schedules.len() ==> (#[trigger] pre.schedules[j]).id != (
                    #[trigger] self@.postings[k]).schedule_id,
                forall|j: int| i <= j < pre.schedules.len() ==> self@.schedules[j] == pre.schedules[j],
                forall|j: int| 0 <= j < i ==> spec_advanced_at(pre, self@, j, p, period_ym@),
                forall|j: int|
                    0 <= j < i ==> !spec_schedule_due(
                        self@,
                        #[trigger] self@.schedules[j],
                        p,
                        period_ym@,
                    ),
                spec_period_covered(pre, p, period_ym@) ==> self@ == pre,
            decreases self@.schedules.len() - i,
        {
            let ghost head = self@;
            let s = self.schedules[i];
            proof {
                assert(head.schedules[i as int] == pre.schedules[i as int]);
            }
            if !matches!(s.status, ScheduleStatus::Active) {
                proof {
                    assert(!spec_schedule_due(head, s, p, period_ym@));
                    assert(!spec_schedule_due(pre, s, p, period_ym@));
                }
                i = i + 1;
                continue;
            }
            proof {
                assert(s.start_date.wf() && s.total_periods > 0) by {
                    assert(head.schedules[i as int] == s);
                }
            }
            let start_month = s.start_date.month_start();
            let period_index = months_between(start_month, p);
            if period_index < 0 || period_index >= s.total_periods {
                proof {
                    assert(!spec_schedule_due(head, s, p, period_ym@));
                    assert(!spec_schedule_due(pre, s, p, period_ym@));
                }
                i = i + 1;
                continue;
            }
            if self.find_posting_for(s.id, period_ym) {
                proof {
                    // The posting found is one that existed before the
                    // sweep: the sweep's own postings belong to schedules
                    // already processed, whose identities differ.
                    let k = choose|k: int|
                        0 <= k < head.postings.len() && head.postings[k].schedule_id == s.id
                            && head.postings[k].period_ym@ == period_ym@;
                    if k >= pre.postings.len() {
                        assert(pre.schedules[i as int].id != head.postings[k].schedule_id);
                        assert(false);
                    }
                    assert(has_posting_for(pre.postings, s.id, period_ym@)) by {
                        assert(pre.postings[k].schedule_id == s.id && pre.postings[k].period_ym@
                            == period_ym@);
                    }
                    assert(!spec_schedule_due(pre, s, p, period_ym@));
                    assert(!spec_schedule_due(head, s, p, period_ym@));
                }
                i = i + 1;
                continue;
            }
            let tx_idx = match self.find_transaction_index(s.source_transaction_id) {
                Some(t) => t,
                None => {
                    // Unreachable: well-formedness guarantees every
                    // schedule's source transaction exists.
                    proof {
                        assert(has_transaction(head.transactions, s.source_transaction_id));
                        assert(false);
                    }
                    return Err(AppError::NotFound)
                },
            };
            let purchase_amount = self.transactions[tx_idx].amount_cents;
            proof {
                lemma_transaction_by_id_is_at(
                    head.transactions,
                    s.source_transaction_id,
                    tx_idx as int,
                );
            }
            let base = purchase_amount - s.residual_cents;
            let amount = calculate_depreciation_amount(
                &s.strategy,
                base,
                s.total_periods,
                period_index,
            );
            if amount <= 0 {
                proof {
                    assert(spec_schedule_amount(head, s, p) <= 0);
                    assert(!spec_schedule_due(head, s, p, period_ym@));
                    lemma_due_monotone(pre, head, s, p, period_ym@);
                    assert(!spec_schedule_due(pre, s, p, period_ym@));
                }
                i = i + 1;
                continue;
            }
            // The schedule owes this period: record the depreciation
            // transaction and the posting under the idempotence key.
            proof {
                lemma_due_monotone(pre, head, s, p, period_ym@);
                assert(!has_posting_for(pre.postings, s.id, period_ym@)) by {
                    if has_posting_for(pre.postings, s.id, period_ym@) {
                        let k = choose|k: int|
                            0 <= k < pre.postings.len() && pre.postings[k].schedule_id == s.id
                                && pre.postings[k].period_ym@ == period_ym@;
                        assert(head.postings[k] == pre.postings[k]);
                    }
                }
                assert(spec_schedule_amount(head, s, p) == amount);
                assert(spec_schedule_due(pre, s, p, period_ym@));
                assert(!spec_period_covered(pre, p, period_ym@));
            }
            let tx = TransactionDto {
                id: self.next_id,
                amount_cents: amount,
                from_account_id: None,
                to_account_id: None,
                payee_id: None,
                category_id: None,
                accrual_type: AccrualType::Depreciation,
                is_asset_purchase: false,
                note: Some(String::from_str("Depreciation for ").concat(period_ym)),
                occurred_at: occurred.clone(),
                created_at: now.clone(),
            };
            let posting = AmortizationPosting {
                id: self.next_id + 1,
                schedule_id: s.id,
                period_ym: String::from_str(period_ym),
                amount_cents: amount,
                transaction_id: self.next_id,
                generated_at: now.clone(),
            };
            let ghost g_tx = tx;
            let ghost g_posting = posting;
            self.transactions.push(tx);
            self.postings.push(posting);
            self.next_id = self.next_id + 2;
            let last_period = period_index == s.total_periods - 1;
            if last_period {
                let mut s2 = self.schedules.remove(i);
                s2.status = ScheduleStatus::Completed;
                self.schedules.insert(i, s2);
                proof {
                    assert(self@.schedules =~= head.schedules.update(
                        i as int,
                        AmortizationScheduleDto { status: ScheduleStatus::Completed, ..s },
                    ));
                }
            }
            proof {
                if !last_period {
                    assert(self@.schedules =~= head.schedules);
                }
                assert(self@ =~= (LedgerView {
                    transactions: head.transactions.push(g_tx),
                    postings: head.postings.push(g_posting),
                    schedules: if spec_period_index(s, p) == s.total_periods - 1 {
                        head.schedules.update(
                            i as int,
                            AmortizationScheduleDto { status: ScheduleStatus::Completed, ..s },
                        )
                    } else {
                        head.schedules
                    },
                    next_id: (head.next_id + 2) as u64,
                    ..head
                }));
                lemma_sweep_step(pre, head, self@, s, i as int, p, period_ym@, g_tx, g_posting);
            }
            i = i + 1;
        }
        proof {
            assert(spec_period_covered(self@, p, period_ym@));
        }
        Ok(())
    }
}

} // verus!
