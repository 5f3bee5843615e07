use oikonomos::calendar::{months_between, parse_date_ymd, parse_period, Date};
use oikonomos::errors::AppError;
use oikonomos::ledger::Ledger;
use oikonomos::models::{
    AccountType, AccrualType, AmortizationStrategy, AssetPurpose, CreateAccountInput,
    CreateTransactionInput, KpiPeriodInput, ReportLabel, ReportPeriodInput, ScheduleStatus,
    TransactionFilter,
};

fn now() -> String {
    "2026-02-22T12:00:00Z".to_string()
}

fn tx_input(
    amount: i64,
    from: Option<u64>,
    to: Option<u64>,
    accrual: AccrualType,
    category: Option<u64>,
    occurred: &str,
) -> CreateTransactionInput {
    CreateTransactionInput {
        amount_cents: amount,
        from_account_id: from,
        to_account_id: to,
        payee_id: None,
        category_id: category,
        accrual_type: Some(accrual),
        is_asset_purchase: None,
        note: None,
        occurred_at: Some(occurred.to_string()),
    }
}

fn asset(ledger: &mut Ledger, name: &str, balance: i64) -> u64 {
    ledger
        .create_account(
            CreateAccountInput {
                name: name.to_string(),
                account_type: AccountType::Asset,
                purpose: AssetPurpose::Productivity,
                initial_balance_cents: balance,
            },
            now(),
        )
        .unwrap()
        .id
}

#[test]
fn parse_period_accepts_only_canonical_year_month() {
    let d = parse_period("2026-02").unwrap();
    assert_eq!(d, Date { year: 2026, month: 2, day: 1 });
    assert_eq!(parse_period("0001-12").unwrap(), Date { year: 1, month: 12, day: 1 });
    for bad in ["2026-13", "2026-00", "2026-2", "2026", "2026-02-01", "abcd-ef", "2026_02", ""] {
        assert!(matches!(parse_period(bad), Err(AppError::InvalidInput)), "{bad}");
    }
}

#[test]
fn parse_date_validates_the_gregorian_calendar() {
    assert_eq!(parse_date_ymd("2026-01-31").unwrap(), Date { year: 2026, month: 1, day: 31 });
    assert_eq!(parse_date_ymd("2024-02-29").unwrap(), Date { year: 2024, month: 2, day: 29 });
    assert_eq!(parse_date_ymd("2000-02-29").unwrap(), Date { year: 2000, month: 2, day: 29 });
    for bad in [
        "2023-02-29",
        "1900-02-29",
        "2026-04-31",
        "2026-00-10",
        "2026-13-01",
        "2026-01-00",
        "2026-1-01",
        "20260101",
        "2026-01-01T00:00:00Z",
    ] {
        assert!(matches!(parse_date_ymd(bad), Err(AppError::InvalidInput)), "{bad}");
    }
}

#[test]
fn months_between_counts_whole_calendar_months() {
    let jan = Date { year: 2026, month: 1, day: 1 };
    let mar = Date { year: 2026, month: 3, day: 1 };
    let dec_prev = Date { year: 2025, month: 12, day: 1 };
    assert_eq!(months_between(jan, mar), 2);
    assert_eq!(months_between(mar, jan), -2);
    assert_eq!(months_between(dec_prev, jan), 1);
    assert_eq!(months_between(jan, jan), 0);
}

#[test]
fn enum_text_encodings_round_trip() {
    assert_eq!(AccountType::Asset.as_str(), "Asset");
    assert_eq!(AccountType::Liability.as_str(), "Liability");
    assert!(matches!(AccountType::from_db("Asset"), Ok(AccountType::Asset)));
    assert!(matches!(AccountType::from_db("Liability"), Ok(AccountType::Liability)));
    assert!(matches!(AccountType::from_db("asset"), Err(AppError::InvalidInput)));

    for p in [
        AssetPurpose::Investment,
        AssetPurpose::Productivity,
        AssetPurpose::LifeSupport,
        AssetPurpose::Spiritual,
    ] {
        assert_eq!(AssetPurpose::from_db(p.as_str()).unwrap(), p);
    }
    assert!(matches!(AssetPurpose::from_db("Other"), Err(AppError::InvalidInput)));

    for a in [AccrualType::Flow, AccrualType::Depreciation, AccrualType::Adjustment] {
        assert_eq!(AccrualType::from_db(a.as_str()).unwrap(), a);
    }
    assert!(matches!(AccrualType::from_db(""), Err(AppError::InvalidInput)));

    for s in [AmortizationStrategy::Linear, AmortizationStrategy::Accelerated] {
        assert_eq!(AmortizationStrategy::from_db(s.as_str()).unwrap(), s);
    }
    assert!(matches!(AmortizationStrategy::from_db("Declining"), Err(AppError::InvalidInput)));

    for s in [ScheduleStatus::Active, ScheduleStatus::Completed, ScheduleStatus::Cancelled] {
        assert_eq!(ScheduleStatus::from_db(s.as_str()).unwrap(), s);
    }
    assert!(matches!(ScheduleStatus::from_db("Paused"), Err(AppError::InvalidInput)));
}

#[test]
fn error_kinds_have_stable_tags() {
    assert_eq!(AppError::InvalidInput.as_str(), "InvalidInput");
    assert_eq!(AppError::NotFound.as_str(), "NotFound");
}

#[test]
fn list_accounts_returns_every_account() {
    let mut ledger = Ledger::new();
    let a = asset(&mut ledger, "One", 10);
    let b = asset(&mut ledger, "Two", 20);
    let accounts = ledger.list_accounts();
    assert_eq!(accounts.len(), 2);
    assert_eq!(accounts[0].id, a);
    assert_eq!(accounts[1].id, b);
    assert_eq!(accounts[1].balance_cents, 20);
}

#[test]
fn list_transactions_filters_by_period_and_accrual() {
    let mut ledger = Ledger::new();
    let a = asset(&mut ledger, "A", 100_000);
    let b = asset(&mut ledger, "B", 0);
    ledger
        .post_transaction(
            tx_input(100, Some(a), Some(b), AccrualType::Flow, None, "2026-01-10T09:00:00Z"),
            now(),
        )
        .unwrap();
    ledger
        .post_transaction(
            tx_input(200, Some(a), Some(b), AccrualType::Flow, None, "2026-02-10T09:00:00Z"),
            now(),
        )
        .unwrap();
    ledger
        .post_transaction(
            tx_input(300, Some(a), None, AccrualType::Adjustment, None, "2026-02-11T09:00:00Z"),
            now(),
        )
        .unwrap();

    let all = ledger.list_transactions(None).unwrap();
    assert_eq!(all.total, 3);

    let feb = ledger
        .list_transactions(Some(TransactionFilter {
            period_ym: Some("2026-02".to_string()),
            accrual_type: None,
        }))
        .unwrap();
    assert_eq!(feb.total, 2);
    assert!(feb.items.iter().all(|t| t.occurred_at.starts_with("2026-02")));

    let feb_adjustments = ledger
        .list_transactions(Some(TransactionFilter {
            period_ym: Some("2026-02".to_string()),
            accrual_type: Some(AccrualType::Adjustment),
        }))
        .unwrap();
    assert_eq!(feb_adjustments.total, 1);
    assert_eq!(feb_adjustments.items[0].amount_cents, 300);

    let bad = ledger.list_transactions(Some(TransactionFilter {
        period_ym: Some("2026-2".to_string()),
        accrual_type: None,
    }));
    assert!(matches!(bad, Err(AppError::InvalidInput)));
}

#[test]
fn cash_flow_report_groups_by_category_and_skips_depreciation() {
    let mut ledger = Ledger::new();
    let a = asset(&mut ledger, "A", 100_000);
    let b = asset(&mut ledger, "B", 0);
    ledger
        .post_transaction(
            tx_input(100, Some(a), Some(b), AccrualType::Flow, Some(7), "2026-02-01T00:00:00Z"),
            now(),
        )
        .unwrap();
    ledger
        .post_transaction(
            tx_input(250, Some(a), Some(b), AccrualType::Flow, Some(7), "2026-02-02T00:00:00Z"),
            now(),
        )
        .unwrap();
    ledger
        .post_transaction(
            tx_input(40, Some(a), Some(b), AccrualType::Flow, None, "2026-02-03T00:00:00Z"),
            now(),
        )
        .unwrap();
    ledger
        .post_transaction(
            tx_input(999, None, None, AccrualType::Depreciation, None, "2026-02-01T00:00:00Z"),
            now(),
        )
        .unwrap();
    ledger
        .post_transaction(
            tx_input(5000, Some(a), Some(b), AccrualType::Flow, Some(7), "2026-03-01T00:00:00Z"),
            now(),
        )
        .unwrap();

    let rep = ledger
        .get_cash_flow_report(ReportPeriodInput { period_ym: "2026-02".to_string() })
        .unwrap();
    assert_eq!(rep.period_ym, "2026-02");
    assert_eq!(rep.total_expense_cents, 390);
    assert_eq!(rep.items.len(), 2);
    let by_label = |l: ReportLabel| rep.items.iter().find(|it| it.label == l).unwrap().amount_cents;
    assert_eq!(by_label(ReportLabel::Category(7)), 350);
    assert_eq!(by_label(ReportLabel::Uncategorized), 40);

    let bad = ledger.get_cash_flow_report(ReportPeriodInput { period_ym: "x".to_string() });
    assert!(matches!(bad, Err(AppError::InvalidInput)));
}

#[test]
fn utility_report_materializes_depreciation_and_reports_it() {
    let mut ledger = Ledger::new();
    let a = asset(&mut ledger, "Checking", 100_000);
    let desk = asset(&mut ledger, "Desk", 0);
    ledger
        .create_asset_purchase(
            oikonomos::models::CreateAssetPurchaseInput {
                from_account_id: a,
                asset_account_id: desk,
                amount_cents: 6000,
                category_id: Some(3),
                payee_id: None,
                note: None,
                occurred_at: Some("2026-01-05T00:00:00Z".to_string()),
                strategy: AmortizationStrategy::Linear,
                total_periods: 3,
                residual_cents: 0,
                start_date: "2026-01-01".to_string(),
            },
            now(),
        )
        .unwrap();
    ledger
        .post_transaction(
            tx_input(120, Some(a), None, AccrualType::Flow, Some(3), "2026-01-20T00:00:00Z"),
            now(),
        )
        .unwrap();

    let rep = ledger
        .get_utility_report(ReportPeriodInput { period_ym: "2026-01".to_string() }, now())
        .unwrap();
    // The sweep posted January's 2000 of depreciation; the purchase itself
    // is excluded (asset purchase), the ordinary expense included.
    assert_eq!(ledger.postings.len(), 1);
    assert_eq!(rep.total_expense_cents, 2120);
    let by_label = |l: ReportLabel| rep.items.iter().find(|it| it.label == l).unwrap().amount_cents;
    assert_eq!(by_label(ReportLabel::Depreciation), 2000);
    assert_eq!(by_label(ReportLabel::Category(3)), 120);

    // A second call adds nothing: the sweep is idempotent.
    let rep2 = ledger
        .get_utility_report(ReportPeriodInput { period_ym: "2026-01".to_string() }, now())
        .unwrap();
    assert_eq!(ledger.postings.len(), 1);
    assert_eq!(rep2.total_expense_cents, 2120);
}

#[test]
fn adjustment_kpi_sums_adjustments_and_expenses_in_range() {
    let mut ledger = Ledger::new();
    let a = asset(&mut ledger, "A", 100_000);
    let b = asset(&mut ledger, "B", 0);
    ledger
        .post_transaction(
            tx_input(100, Some(a), Some(b), AccrualType::Flow, None, "2026-01-10T00:00:00Z"),
            now(),
        )
        .unwrap();
    ledger
        .post_transaction(
            tx_input(300, Some(a), None, AccrualType::Adjustment, None, "2026-02-10T00:00:00Z"),
            now(),
        )
        .unwrap();
    ledger
        .post_transaction(
            tx_input(700, Some(a), Some(b), AccrualType::Flow, None, "2026-03-10T00:00:00Z"),
            now(),
        )
        .unwrap();

    let (adj_all, exp_all) = ledger.list_adjustment_kpi(None).unwrap();
    assert_eq!(adj_all, 300);
    assert_eq!(exp_all, 800);

    let (adj, exp) = ledger
        .list_adjustment_kpi(Some(KpiPeriodInput {
            from_period_ym: Some("2026-02".to_string()),
            to_period_ym: Some("2026-02".to_string()),
        }))
        .unwrap();
    assert_eq!(adj, 300);
    assert_eq!(exp, 0);

    let (adj2, exp2) = ledger
        .list_adjustment_kpi(Some(KpiPeriodInput {
            from_period_ym: Some("2026-02".to_string()),
            to_period_ym: None,
        }))
        .unwrap();
    assert_eq!(adj2, 300);
    assert_eq!(exp2, 700);

    let bad = ledger.list_adjustment_kpi(Some(KpiPeriodInput {
        from_period_ym: Some("nope".to_string()),
        to_period_ym: None,
    }));
    assert!(matches!(bad, Err(AppError::InvalidInput)));
}
