use vstd::prelude::*;

use crate::calendar::{parse_period, period_of_str};
use crate::errors::AppError;
use crate::ledger::Ledger;
use crate::models::{
    AccountDto, AccrualType, KpiPeriodInput, PagedTransactionsDto, ReportDto, ReportItemDto,
    ReportLabel, ReportPeriodInput, TransactionDto, TransactionFilter,
};
use crate::scheduler::{
    spec_new_postings_sound, spec_period_covered, spec_schedules_advanced, spec_sweep_frame,
};
use crate::text::{is_prefix_of, lex_le, lex_le_str, starts_with};

verus! {

/// Whether a transaction matches a listing filter: its business timestamp
/// starts with the requested period, and its accrual type agrees.
pub open spec fn spec_tx_matches(t: TransactionDto, filter: Option<TransactionFilter>) -> bool {
    match filter {
        None => true,
        Some(f) => {
            &&& match f.period_ym {
                Some(p) => is_prefix_of(p@, t.occurred_at@),
                None => true,
            }
            &&& match f.accrual_type {
                Some(a) => t.accrual_type == a,
                None => true,
            }
        },
    }
}

/// The transactions matching a filter, in ledger order.
pub open spec fn spec_filtered_txs(s: Seq<TransactionDto>, filter: Option<TransactionFilter>) -> Seq<
    TransactionDto,
>
    decreases s.len(),
{
    if s.len() == 0 {
        Seq::empty()
    } else if spec_tx_matches(s.last(), filter) {
        spec_filtered_txs(s.drop_last(), filter).push(s.last())
    } else {
        spec_filtered_txs(s.drop_last(), filter)
    }
}

/// The label a transaction reports under: all depreciation under one
/// heading, anything else under its category or `Uncategorized`.
pub open spec fn spec_tx_label(t: TransactionDto) -> ReportLabel {
    if t.accrual_type == AccrualType::Depreciation {
        ReportLabel::Depreciation
    } else {
        match t.category_id {
            Some(c) => ReportLabel::Category(c),
            None => ReportLabel::Uncategorized,
        }
    }
}

/// Whether a transaction belongs to a report of the given period: the
/// cash-flow report takes everything but depreciation; the utility report
/// takes ordinary expenses (flows that are not asset purchases) plus
/// depreciation.
pub open spec fn spec_report_included(
    t: TransactionDto,
    period: Seq<char>,
    utility: bool,
) -> bool {
    &&& is_prefix_of(period, t.occurred_at@)
    &&& if utility {
        (t.accrual_type == AccrualType::Flow && !t.is_asset_purchase) || t.accrual_type
            == AccrualType::Depreciation
    } else {
        t.accrual_type != AccrualType::Depreciation
    }
}

/// The report total: the sum over all included transactions.
pub open spec fn spec_report_total(s: Seq<TransactionDto>, period: Seq<char>, utility: bool) -> int
    decreases s.len(),
{
    if s.len() == 0 {
        0
    } else {
        spec_report_total(s.drop_last(), period, utility) + if spec_report_included(
            s.last(),
            period,
            utility,
        ) {
            s.last().amount_cents as int
        } else {
            0
        }
    }
}

/// One report line's amount: the sum over the included transactions that
/// report under the given label.
pub open spec fn spec_label_total(
    s: Seq<TransactionDto>,
    period: Seq<char>,
    utility: bool,
    label: ReportLabel,
) -> int
    decreases s.len(),
{
    if s.len() == 0 {
        0
    } else {
        spec_label_total(s.drop_last(), period, utility, label) + if spec_report_included(
            s.last(),
            period,
            utility,
        ) && spec_tx_label(s.last()) == label {
            s.last().amount_cents as int
        } else {
            0
        }
    }
}

/// An exact periodic report over the given transactions: one line per
/// label that occurs, carrying exactly that label's (positive) sum, every
/// included transaction's label present, and the total the sum over
/// everything included.
pub open spec fn spec_report_exact(
    s: Seq<TransactionDto>,
    period: Seq<char>,
    utility: bool,
    items: Seq<ReportItemDto>,
    total: int,
) -> bool {
    &&& total == spec_report_total(s, period, utility)
    &&& forall|k1: int, k2: int|
        0 <= k1 < k2 < items.len() ==> (#[trigger] items[k1]).label != (
        #[trigger] items[k2]).label
    &&& forall|k: int|
        0 <= k < items.len() ==> (#[trigger] items[k]).amount_cents == spec_label_total(
            s,
            period,
            utility,
            items[k].label,
        )
    &&& forall|k: int| 0 <= k < items.len() ==> (#[trigger] items[k]).amount_cents > 0
    &&& forall|j: int|
        0 <= j < s.len() && spec_report_included(#[trigger] s[j], period, utility) ==> exists|
            k: int,
        |
            0 <= k < items.len() && (#[trigger] items[k]).label == spec_tx_label(s[j])
}

/// A label under which no included transaction reports sums to zero.
proof fn lemma_label_total_zero(
    s: Seq<TransactionDto>,
    period: Seq<char>,
    utility: bool,
    label: ReportLabel,
)
    requires
        forall|j: int|
            0 <= j < s.len() ==> !(spec_report_included(#[trigger] s[j], period, utility)
                && spec_tx_label(s[j]) == label),
    ensures
        spec_label_total(s, period, utility, label) == 0,
    decreases s.len(),
{
    if s.len() > 0 {
        assert(forall|j: int| 0 <= j < s.len() - 1 ==> s.drop_last()[j] == s[j]);
        lemma_label_total_zero(s.drop_last(), period, utility, label);
    }
}

/// The prefix a period range is matched against: the first seven
/// characters of a business timestamp, or all of a shorter one.
pub open spec fn spec_prefix7(s: Seq<char>) -> Seq<char> {
    if s.len() <= 7 {
        s
    } else {
        s.subrange(0, 7)
    }
}

/// Whether a transaction falls in an optional inclusive period range.
pub open spec fn spec_in_kpi_range(
    t: TransactionDto,
    from: Option<String>,
    to: Option<String>,
) -> bool {
    &&& match from {
        Some(f) => lex_le(f@, spec_prefix7(t.occurred_at@)),
        None => true,
    }
    &&& match to {
        Some(g) => lex_le(spec_prefix7(t.occurred_at@), g@),
        None => true,
    }
}

/// The adjustment volume: the summed amounts of adjustment transactions in
/// the range.
pub open spec fn spec_adjustment_total(
    s: Seq<TransactionDto>,
    from: Option<String>,
    to: Option<String>,
) -> int
    decreases s.len(),
{
    if s.len() == 0 {
        0
    } else {
        spec_adjustment_total(s.drop_last(), from, to) + if s.last().accrual_type
            == AccrualType::Adjustment && spec_in_kpi_range(s.last(), from, to) {
            s.last().amount_cents as int
        } else {
            0
        }
    }
}

/// The expense volume: the summed amounts of ordinary flows (no asset
/// purchases) in the range.
pub open spec fn spec_expense_total(
    s: Seq<TransactionDto>,
    from: Option<String>,
    to: Option<String>,
) -> int
    decreases s.len(),
{
    if s.len() == 0 {
        0
    } else {
        spec_expense_total(s.drop_last(), from, to) + if s.last().accrual_type
            == AccrualType::Flow && !s.last().is_asset_purchase && spec_in_kpi_range(
            s.last(),
            from,
            to,
        ) {
            s.last().amount_cents as int
        } else {
            0
        }
    }
}

impl Ledger {
    /// All accounts, in creation order.
    pub fn list_accounts(&self) -> (r: Vec<AccountDto>)
        ensures
            r@ == self.accounts@,
    {
        let mut out: Vec<AccountDto> = Vec::new();
        let mut i: usize = 0;
        while i < self.accounts.len()
            invariant
                i <= self.accounts@.len(),
                out@ == self.accounts@.subrange(0, i as int),
            decreases self.accounts@.len() - i,
        {
            out.push(self.accounts[i].clone());
            proof {
                assert(out@ =~= self.accounts@.subrange(0, i + 1));
            }
            i = i + 1;
        }
        proof {
            assert(self.accounts@.subrange(0, self.accounts@.len() as int) =~= self.accounts@);
        }
        out
    }

    /// The transactions matching a filter, in ledger order, with their
    /// count. A filter period that is not a valid `YYYY-MM` is
    /// `InvalidInput`.
    pub fn list_transactions(&self, filter: Option<TransactionFilter>) -> (r: Result<
        PagedTransactionsDto,
        AppError,
    >)
        ensures
            match r {
                Ok(page) => {
                    &&& match filter {
                        Some(f) => match f.period_ym {
                            Some(p) => period_of_str(p@) is Some,
                            None => true,
                        },
                        None => true,
                    }
                    &&& page.items@ == spec_filtered_txs(self.transactions@, filter)
                    &&& page.total == page.items@.len()
                },
                Err(e) => {
                    &&& e == AppError::InvalidInput
                    &&& match filter {
                        Some(f) => match f.period_ym {
                            Some(p) => period_of_str(p@) is None,
                            None => false,
                        },
                        None => false,
                    }
                },
            },
    {
        let (period, accrual): (Option<String>, Option<AccrualType>) = match filter {
            Some(f) => (f.period_ym, f.accrual_type),
            None => (None, None),
        };
        if let Some(p) = &period {
            if let Err(e) = parse_period(p.as_str()) {
                return Err(e);
            }
        }
        let mut items: Vec<TransactionDto> = Vec::new();
        let mut i: usize = 0;
        while i < self.transactions.len()
            invariant
                i <= self.transactions@.len(),
                items@ == spec_filtered_txs(self.transactions@.subrange(0, i as int), filter),
                match filter {
                    Some(f) => period == f.period_ym && accrual == f.accrual_type,
                    None => period is None && accrual is None,
                },
            decreases self.transactions@.len() - i,
        {
            let t = &self.transactions[i];
            let period_ok = match &period {
                Some(p) => starts_with(t.occurred_at.as_str(), p.as_str()),
                None => true,
            };
            let accrual_ok = match accrual {
                Some(a) => t.accrual_type == a,
                None => true,
            };
            proof {
                let prefix = self.transactions@.subrange(0, i + 1);
                assert(prefix.drop_last() =~= self.transactions@.subrange(0, i as int));
                assert(prefix.last() == self.transactions@[i as int]);
            }
            if period_ok && accrual_ok {
                items.push(self.transactions[i].clone());
            }
            i = i + 1;
        }
        proof {
            assert(self.transactions@.subrange(0, self.transactions@.len() as int)
                =~= self.transactions@);
        }
        let total = items.len();
        Ok(PagedTransactionsDto { items: items, total: total })
    }

    /// The figures behind the adjustment ratio: the total adjustment volume
    /// and the total ordinary expense volume, over an optional inclusive
    /// period range. A present range bound that is not a valid `YYYY-MM`
    /// is `InvalidInput`, as is a volume beyond `i64`.
    pub fn list_adjustment_kpi(&self, input: Option<KpiPeriodInput>) -> (r: Result<
        (i64, i64),
        AppError,
    >)
        requires
            self.wf(),
        ensures
            ({
                let from = match input {
                    Some(k) => k.from_period_ym,
                    None => None::<String>,
                };
                let to = match input {
                    Some(k) => k.to_period_ym,
                    None => None::<String>,
                };
                match r {
                    Ok(totals) => {
                        &&& totals.0 == spec_adjustment_total(self.transactions@, from, to)
                        &&& totals.1 == spec_expense_total(self.transactions@, from, to)
                    },
                    Err(e) => {
                        &&& e == AppError::InvalidInput
                        &&& ((match from {
                            Some(f) => period_of_str(f@) is None,
                            None => false,
                        }) || (match to {
                            Some(g) => period_of_str(g@) is None,
                            None => false,
                        }) || spec_adjustment_total(self.transactions@, from, to) > i64::MAX
                            || spec_expense_total(self.transactions@, from, to) > i64::MAX)
                    },
                }
            }),
    {
        let (from, to): (Option<String>, Option<String>) = match input {
            Some(k) => (k.from_period_ym, k.to_period_ym),
            None => (None, None),
        };
        if let Some(f) = &from {
            if let Err(e) = parse_period(f.as_str()) {
                return Err(e);
            }
        }
        if let Some(g) = &to {
            if let Err(e) = parse_period(g.as_str()) {
                return Err(e);
            }
        }
        let mut adjustment: i128 = 0;
        let mut expense: i128 = 0;
        let mut i: usize = 0;
        while i < self.transactions.len()
            invariant
                self.wf(),
                i <= self.transactions@.len(),
                adjustment == spec_adjustment_total(
                    self.transactions@.subrange(0, i as int),
                    from,
                    to,
                ),
                expense == spec_expense_total(self.transactions@.subrange(0, i as int), from, to),
                0 <= adjustment <= i as int * (i64::MAX as int),
                0 <= expense <= i as int * (i64::MAX as int),
            decreases self.transactions@.len() - i,
        {
            let t = &self.transactions[i];
            let occ = t.occurred_at.as_str();
            let occ_len = occ.unicode_len();
            let cut = if occ_len < 7 {
                occ_len
            } else {
                7
            };
            let pfx = occ.substring_char(0, cut);
            proof {
                assert(pfx@ =~= spec_prefix7(t.occurred_at@));
            }
            let in_range = (match &from {
                Some(f) => lex_le_str(f.as_str(), pfx),
                None => true,
            }) && (match &to {
                Some(g) => lex_le_str(pfx, g.as_str()),
                None => true,
            });
            proof {
                let prefix = self.transactions@.subrange(0, i + 1);
                assert(prefix.drop_last() =~= self.transactions@.subrange(0, i as int));
                assert(prefix.last() == self.transactions@[i as int]);
                assert(t.amount_cents > 0);
                assert((i as int + 1) * (i64::MAX as int) == i as int * (i64::MAX as int) + (
                i64::MAX as int)) by (nonlinear_arith);
                assert((i as int + 1) * (i64::MAX as int) < i128::MAX) by (nonlinear_arith)
                    requires
                        0 <= i as int + 1 <= 0x1_0000_0000_0000_0000,
                ;
            }
            if in_range {
                if matches!(t.accrual_type, AccrualType::Adjustment) {
                    adjustment = adjustment + t.amount_cents as i128;
                } else if matches!(t.accrual_type, AccrualType::Flow) && !t.is_asset_purchase {
                    expense = expense + t.amount_cents as i128;
                }
            }
            i = i + 1;
        }
        proof {
            assert(self.transactions@.subrange(0, self.transactions@.len() as int)
                =~= self.transactions@);
        }
        if adjustment > i64::MAX as i128 || expense > i64::MAX as i128 {
            return Err(AppError::InvalidInput);
        }
        Ok((adjustment as i64, expense as i64))
    }

    /// Groups the period's included transactions by report label and sums
    /// each group exactly; lines appear in order of first occurrence.
    #[verifier::rlimit(100)]
    fn build_report(&self, period_ym: &str, utility: bool) -> (r: Result<
        (Vec<ReportItemDto>, i64),
        AppError,
    >)
        requires
            self.wf(),
        ensures
            match r {
                Ok(out) => {
                    &&& period_of_str(period_ym@) is Some
                    &&& spec_report_exact(
                        self.transactions@,
                        period_ym@,
                        utility,
                        out.0@,
                        out.1 as int,
                    )
                },
                Err(e) => {
                    &&& e == AppError::InvalidInput
                    &&& (period_of_str(period_ym@) is None || spec_report_total(
                        self.transactions@,
                        period_ym@,
                        utility,
                    ) > i64::MAX)
                },
            },
    {
        if let Err(e) = parse_period(period_ym) {
            return Err(e);
        }
        let mut acc: Vec<(ReportLabel, i128)> = Vec::new();
        let mut total: i128 = 0;
        let mut i: usize = 0;
        while i < self.transactions.len()
            invariant
                self.wf(),
                i <= self.transactions@.len(),
                total == spec_report_total(
                    self.transactions@.subrange(0, i as int),
                    period_ym@,
                    utility,
                ),
                0 <= total <= i as int * (i64::MAX as int),
                forall|k1: int, k2: int|
                    0 <= k1 < k2 < acc@.len() ==> (#[trigger] acc@[k1]).0 != (#[trigger] acc@[k2]).0,
                forall|k: int|
                    0 <= k < acc@.len() ==> (#[trigger] acc@[k]).1 == spec_label_total(
                        self.transactions@.subrange(0, i as int),
                        period_ym@,
                        utility,
                        acc@[k].0,
                    ) && 0 < acc@[k].1 <= total,
                forall|j: int|
                    0 <= j < i && spec_report_included(
                        #[trigger] self.transactions@[j],
                        period_ym@,
                        utility,
                    ) ==> exists|k: int|
                        0 <= k < acc@.len() && (#[trigger] acc@[k]).0 == spec_tx_label(
                            self.transactions@[j],
                        ),
            decreases self.transactions@.len() - i,
        {
            let ghost acc0 = acc@;
            let t = &self.transactions[i];
            let included = starts_with(t.occurred_at.as_str(), period_ym) && (if utility {
                (matches!(t.accrual_type, AccrualType::Flow) && !t.is_asset_purchase) || matches!(
                    t.accrual_type,
                    AccrualType::Depreciation,
                )
            } else {
                !matches!(t.accrual_type, AccrualType::Depreciation)
            });
            proof {
                assert(included == spec_report_included(
                    self.transactions@[i as int],
                    period_ym@,
                    utility,
                ));
            }
            proof {
                let prefix = self.transactions@.subrange(0, i + 1);
                assert(prefix.drop_last() =~= self.transactions@.subrange(0, i as int));
                assert(prefix.last() == self.transactions@[i as int]);
                assert(t.amount_cents > 0);
                assert((i as int + 1) * (i64::MAX as int) == i as int * (i64::MAX as int) + (
                i64::MAX as int)) by (nonlinear_arith);
                assert((i as int + 1) * (i64::MAX as int) < i128::MAX) by (nonlinear_arith)
                    requires
                        0 <= i as int + 1 <= 0x1_0000_0000_0000_0000,
                ;
            }
            if included {
                let label = if matches!(t.accrual_type, AccrualType::Depreciation) {
                    ReportLabel::Depreciation
                } else {
                    match t.category_id {
                        Some(c) => ReportLabel::Category(c),
                        None => ReportLabel::Uncategorized,
                    }
                };
                let amount = t.amount_cents;
                total = total + amount as i128;
                proof {
                    assert(label == spec_tx_label(self.transactions@[i as int]));
                }
                match find_label(&acc, label) {
                    Some(k) => {
                        let entry = acc.remove(k);
                        acc.insert(k, (entry.0, entry.1 + amount as i128));
                        proof {
                            assert(acc@ =~= acc0.update(
                                k as int,
                                (entry.0, (entry.1 + amount as i128) as i128),
                            ));
                            assert(acc@[k as int].0 == label);
                        }
                    },
                    None => {
                        proof {
                            lemma_label_total_zero(
                                self.transactions@.subrange(0, i as int),
                                period_ym@,
                                utility,
                                label,
                            );
                        }
                        acc.push((label, amount as i128));
                        proof {
                            assert(acc@[acc@.len() - 1].0 == label);
                        }
                    },
                }
            }
            proof {
                assert(forall|m: int|
                    0 <= m < acc0.len() ==> (#[trigger] acc@[m]).0 == acc0[m].0);
                assert forall|j: int|
                    0 <= j < i + 1 && spec_report_included(
                        #[trigger] self.transactions@[j],
                        period_ym@,
                        utility,
                    ) implies exists|k: int|
                    0 <= k < acc@.len() && (#[trigger] acc@[k]).0 == spec_tx_label(
                        self.transactions@[j],
                    ) by {
                    if j < i {
                        let k0 = choose|k0: int|
                            0 <= k0 < acc0.len() && acc0[k0].0 == spec_tx_label(
                                self.transactions@[j],
                            );
                        assert(acc@[k0].0 == spec_tx_label(self.transactions@[j]));
                    } else {
                        assert(spec_tx_label(self.transactions@[j]) == spec_tx_label(
                            self.transactions@[i as int],
                        ));
                    }
                }
            }
            i = i + 1;
        }
        proof {
            assert(self.transactions@.subrange(0, self.transactions@.len() as int)
                =~= self.transactions@);
        }
        if total > i64::MAX as i128 {
            return Err(AppError::InvalidInput);
        }
        let mut items: Vec<ReportItemDto> = Vec::new();
        let mut k: usize = 0;
        while k < acc.len()
            invariant
                k <= acc@.len(),
                items@.len() == k,
                forall|m: int| 0 <= m < acc@.len() ==> 0 < (#[trigger] acc@[m]).1 <= i64::MAX,
                forall|m: int|
                    0 <= m < k ==> (#[trigger] items@[m]).label == acc@[m].0 && items@[m].amount_cents
                        == acc@[m].1,
            decreases acc@.len() - k,
        {
            let entry = acc[k];
            items.push(ReportItemDto { label: entry.0, amount_cents: entry.1 as i64 });
            k = k + 1;
        }
        proof {
            let s = self.transactions@;
            assert forall|j: int|
                0 <= j < s.len() && spec_report_included(#[trigger] s[j], period_ym@, utility)
                    implies exists|m: int|
                0 <= m < items@.len() && (#[trigger] items@[m]).label == spec_tx_label(s[j]) by {
                let k0 = choose|k0: int|
                    0 <= k0 < acc@.len() && (#[trigger] acc@[k0]).0 == spec_tx_label(s[j]);
                assert(items@[k0].label == spec_tx_label(s[j]));
            }
        }
        Ok((items, total as i64))
    }

    /// The cash-flow report for one period: every non-depreciation
    /// transaction of the period, grouped by category. A period that is
    /// not a valid `YYYY-MM`, or a total beyond `i64`, is `InvalidInput`.
    pub fn get_cash_flow_report(&self, input: ReportPeriodInput) -> (r: Result<
        ReportDto,
        AppError,
    >)
        requires
            self.wf(),
        ensures
            match r {
                Ok(rep) => {
                    &&& period_of_str(input.period_ym@) is Some
                    &&& rep.period_ym == input.period_ym
                    &&& spec_report_exact(
                        self.transactions@,
                        input.period_ym@,
                        false,
                        rep.items@,
                        rep.total_expense_cents as int,
                    )
                },
                Err(e) => {
                    &&& e == AppError::InvalidInput
                    &&& (period_of_str(input.period_ym@) is None || spec_report_total(
                        self.transactions@,
                        input.period_ym@,
                        false,
                    ) > i64::MAX)
                },
            },
    {
        let built = match self.build_report(input.period_ym.as_str(), false) {
            Ok(b) => b,
            Err(e) => { return Err(e) },
        };
        Ok(
            ReportDto {
                period_ym: input.period_ym,
                total_expense_cents: built.1,
                items: built.0,
            },
        )
    }

    /// The utility report for one period: materializes the period's
    /// depreciation first, then groups the period's ordinary expenses by
    /// category together with one depreciation line. The depreciation
    /// sweep commits even when a total beyond `i64` then fails the report.
    pub fn get_utility_report(&mut self, input: ReportPeriodInput, now: String) -> (r: Result<
        ReportDto,
        AppError,
    >)
        requires
            old(self).wf(),
            old(self)@.next_id as int + 2 * old(self)@.schedules.len() <= u64::MAX as int,
        ensures
            final(self).wf(),
            match r {
                Ok(rep) => {
                    let p = period_of_str(input.period_ym@)->0;
                    &&& period_of_str(input.period_ym@) is Some
                    &&& spec_sweep_frame(old(self)@, final(self)@)
                    &&& spec_new_postings_sound(old(self)@, final(self)@, p, input.period_ym@)
                    &&& spec_schedules_advanced(old(self)@, final(self)@, p, input.period_ym@)
                    &&& spec_period_covered(final(self)@, p, input.period_ym@)
                    &&& (spec_period_covered(old(self)@, p, input.period_ym@) ==> final(self)@
                        == old(self)@)
                    &&& rep.period_ym == input.period_ym
                    &&& spec_report_exact(
                        final(self)@.transactions,
                        input.period_ym@,
                        true,
                        rep.items@,
                        rep.total_expense_cents as int,
                    )
                },
                Err(e) => {
                    &&& e == AppError::InvalidInput
                    &&& if period_of_str(input.period_ym@) is None {
                        final(self)@ == old(self)@
                    } else {
                        let p = period_of_str(input.period_ym@)->0;
                        &&& spec_sweep_frame(old(self)@, final(self)@)
                        &&& spec_new_postings_sound(old(self)@, final(self)@, p, input.period_ym@)
                        &&& spec_schedules_advanced(old(self)@, final(self)@, p, input.period_ym@)
                        &&& spec_period_covered(final(self)@, p, input.period_ym@)
                        &&& spec_report_total(final(self)@.transactions, input.period_ym@, true)
                            > i64::MAX
                    }
                },
            },
    {
        if let Err(e) = self.ensure_depreciation_for_period(input.period_ym.as_str(), now) {
            return Err(e);
        }
        let built = match self.build_report(input.period_ym.as_str(), true) {
            Ok(b) => b,
            Err(e) => { return Err(e) },
        };
        Ok(
            ReportDto {
                period_ym: input.period_ym,
                total_expense_cents: built.1,
                items: built.0,
            },
        )
    }
}

/// Finds the position of a label among the accumulated report lines.
fn find_label(acc: &Vec<(ReportLabel, i128)>, label: ReportLabel) -> (r: Option<usize>)
    ensures
        match r {
            Some(k) => k < acc@.len() && acc@[k as int].0 == label,
            None => forall|k: int| 0 <= k < acc@.len() ==> (#[trigger] acc@[k]).0 != label,
        },
{
    let mut k: usize = 0;
    while k < acc.len()
        invariant
            k <= acc@.len(),
            forall|m: int| 0 <= m < k ==> (#[trigger] acc@[m]).0 != label,
        decreases acc@.len() - k,
    {
        if acc[k].0 == label {
            return Some(k);
        }
        k = k + 1;
    }
    None
}

} // verus!
