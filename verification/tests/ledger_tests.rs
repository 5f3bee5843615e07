use oikonomos::depreciation::calculate_depreciation_amount;
use oikonomos::errors::AppError;
use oikonomos::ledger::Ledger;
use oikonomos::models::{
    AccountType, AccrualType, AmortizationStrategy, AssetPurpose, CreateAccountInput,
    CreateAssetPurchaseInput, CreateTransactionInput, ReconcileInput, ScheduleStatus,
};

fn now() -> String {
    "2026-02-22T12:00:00Z".to_string()
}

fn account_input(name: &str, account_type: AccountType, balance: i64) -> CreateAccountInput {
    CreateAccountInput {
        name: name.to_string(),
        account_type,
        purpose: AssetPurpose::LifeSupport,
        initial_balance_cents: balance,
    }
}

fn flow_input(amount: i64, from: Option<u64>, to: Option<u64>) -> CreateTransactionInput {
    CreateTransactionInput {
        amount_cents: amount,
        from_account_id: from,
        to_account_id: to,
        payee_id: None,
        category_id: None,
        accrual_type: Some(AccrualType::Flow),
        is_asset_purchase: None,
        note: None,
        occurred_at: Some("2026-02-01T00:00:00Z".to_string()),
    }
}

#[test]
fn scenario_a_flow_into_liability_is_rejected_without_state_change() {
    let mut ledger = Ledger::new();
    let checking = ledger
        .create_account(account_input("Checking", AccountType::Asset, 0), now())
        .unwrap();
    let card = ledger
        .create_account(account_input("CreditCard", AccountType::Liability, 0), now())
        .unwrap();
    let r = ledger.post_transaction(flow_input(5000, Some(checking.id), Some(card.id)), now());
    assert!(matches!(r, Err(AppError::InvalidInput)));
    assert_eq!(ledger.transactions.len(), 0);
    assert_eq!(ledger.load_account_by_id(checking.id).unwrap().balance_cents, 0);
    assert_eq!(ledger.load_account_by_id(card.id).unwrap().balance_cents, 0);
}

#[test]
fn scenario_b_purchase_then_linear_depreciation_completes_schedule() {
    let mut ledger = Ledger::new();
    let checking = ledger
        .create_account(account_input("Checking", AccountType::Asset, 100_000), now())
        .unwrap();
    let laptop = ledger
        .create_account(account_input("Laptop", AccountType::Asset, 0), now())
        .unwrap();
    let result = ledger
        .create_asset_purchase(
            CreateAssetPurchaseInput {
                from_account_id: checking.id,
                asset_account_id: laptop.id,
                amount_cents: 120_000,
                category_id: None,
                payee_id: None,
                note: None,
                occurred_at: None,
                strategy: AmortizationStrategy::Linear,
                total_periods: 3,
                residual_cents: 0,
                start_date: "2026-01-01".to_string(),
            },
            now(),
        )
        .unwrap();
    // Asset accounts may go negative: only the liability rule is enforced.
    assert_eq!(ledger.load_account_by_id(checking.id).unwrap().balance_cents, -20_000);
    assert_eq!(ledger.load_account_by_id(laptop.id).unwrap().balance_cents, 120_000);
    assert!(result.transaction.is_asset_purchase);
    assert_eq!(result.schedule.status, ScheduleStatus::Active);

    for period in ["2026-01", "2026-02", "2026-03"] {
        ledger.ensure_depreciation_for_period(period, now()).unwrap();
    }
    assert_eq!(ledger.postings.len(), 3);
    let total: i64 = ledger.postings.iter().map(|p| p.amount_cents).sum();
    assert_eq!(total, 120_000);
    for p in &ledger.postings {
        assert_eq!(p.amount_cents, 40_000);
    }
    assert_eq!(ledger.schedules[0].status, ScheduleStatus::Completed);
    // Depreciation carries no legs and changes no balances.
    assert_eq!(ledger.load_account_by_id(checking.id).unwrap().balance_cents, -20_000);
    assert_eq!(ledger.load_account_by_id(laptop.id).unwrap().balance_cents, 120_000);
}

#[test]
fn scenario_c_accelerated_weights_sum_exactly() {
    let s = AmortizationStrategy::Accelerated;
    assert_eq!(calculate_depreciation_amount(&s, 6000, 3, 0), 3000);
    assert_eq!(calculate_depreciation_amount(&s, 6000, 3, 1), 2000);
    assert_eq!(calculate_depreciation_amount(&s, 6000, 3, 2), 1000);
}

#[test]
fn accelerated_truncation_drift_lands_on_last_period() {
    let s = AmortizationStrategy::Accelerated;
    // base 1000 over 3 periods: weights 3,2,1 over 6 -> 500, 333, then the rest.
    assert_eq!(calculate_depreciation_amount(&s, 1000, 3, 0), 500);
    assert_eq!(calculate_depreciation_amount(&s, 1000, 3, 1), 333);
    assert_eq!(calculate_depreciation_amount(&s, 1000, 3, 2), 167);
}

#[test]
fn linear_remainder_lands_on_last_period() {
    let s = AmortizationStrategy::Linear;
    assert_eq!(calculate_depreciation_amount(&s, 100, 3, 0), 33);
    assert_eq!(calculate_depreciation_amount(&s, 100, 3, 1), 33);
    assert_eq!(calculate_depreciation_amount(&s, 100, 3, 2), 34);
    // Outside the schedule's life the amount is zero.
    assert_eq!(calculate_depreciation_amount(&s, 100, 3, 3), 0);
    assert_eq!(calculate_depreciation_amount(&s, 100, 3, -1), 0);
    assert_eq!(calculate_depreciation_amount(&s, 0, 3, 1), 0);
}

#[test]
fn scenario_d_reconcile_zero_delta_records_snapshot_only() {
    let mut ledger = Ledger::new();
    let checking = ledger
        .create_account(account_input("Checking", AccountType::Asset, 500), now())
        .unwrap();
    let r = ledger
        .reconcile_account(
            ReconcileInput {
                account_id: checking.id,
                actual_balance_cents: 500,
                occurred_at: None,
                note: None,
            },
            now(),
        )
        .unwrap();
    assert_eq!(r.delta_cents, 0);
    assert!(r.adjustment_transaction.is_none());
    assert_eq!(ledger.transactions.len(), 0);
    assert_eq!(ledger.snapshots.len(), 1);
    assert_eq!(ledger.snapshots[0].delta_cents, 0);
    assert_eq!(ledger.snapshots[0].system_balance_cents, 500);
    assert_eq!(ledger.snapshots[0].adjustment_tx_id, None);
}

#[test]
fn scenario_e_reconcile_shortfall_withdraws_from_account() {
    let mut ledger = Ledger::new();
    let checking = ledger
        .create_account(account_input("Checking", AccountType::Asset, 1000), now())
        .unwrap();
    let r = ledger
        .reconcile_account(
            ReconcileInput {
                account_id: checking.id,
                actual_balance_cents: 700,
                occurred_at: None,
                note: None,
            },
            now(),
        )
        .unwrap();
    assert_eq!(r.delta_cents, -300);
    let adjustment = r.adjustment_transaction.unwrap();
    assert_eq!(adjustment.amount_cents, 300);
    assert_eq!(adjustment.from_account_id, Some(checking.id));
    assert_eq!(adjustment.to_account_id, None);
    assert_eq!(adjustment.accrual_type, AccrualType::Adjustment);
    assert_eq!(r.account.balance_cents, 700);
    assert_eq!(ledger.load_account_by_id(checking.id).unwrap().balance_cents, 700);
    assert_eq!(ledger.snapshots.len(), 1);
    assert_eq!(ledger.snapshots[0].delta_cents, -300);
    assert_eq!(ledger.snapshots[0].adjustment_tx_id, Some(adjustment.id));
}

#[test]
fn reconcile_surplus_deposits_into_account() {
    let mut ledger = Ledger::new();
    let checking = ledger
        .create_account(account_input("Checking", AccountType::Asset, 100), now())
        .unwrap();
    let r = ledger
        .reconcile_account(
            ReconcileInput {
                account_id: checking.id,
                actual_balance_cents: 450,
                occurred_at: None,
                note: None,
            },
            now(),
        )
        .unwrap();
    assert_eq!(r.delta_cents, 350);
    let adjustment = r.adjustment_transaction.unwrap();
    assert_eq!(adjustment.from_account_id, None);
    assert_eq!(adjustment.to_account_id, Some(checking.id));
    assert_eq!(r.account.balance_cents, 450);
}

#[test]
fn reconcile_missing_account_is_not_found() {
    let mut ledger = Ledger::new();
    let r = ledger.reconcile_account(
        ReconcileInput {
            account_id: 77,
            actual_balance_cents: 0,
            occurred_at: None,
            note: None,
        },
        now(),
    );
    assert!(matches!(r, Err(AppError::NotFound)));
    assert_eq!(ledger.snapshots.len(), 0);
}

#[test]
fn depreciation_for_period_is_idempotent() {
    let mut ledger = Ledger::new();
    let checking = ledger
        .create_account(account_input("Checking", AccountType::Asset, 0), now())
        .unwrap();
    let desk = ledger
        .create_account(account_input("Desk", AccountType::Asset, 0), now())
        .unwrap();
    ledger
        .create_asset_purchase(
            CreateAssetPurchaseInput {
                from_account_id: checking.id,
                asset_account_id: desk.id,
                amount_cents: 9000,
                category_id: None,
                payee_id: None,
                note: None,
                occurred_at: None,
                strategy: AmortizationStrategy::Accelerated,
                total_periods: 3,
                residual_cents: 0,
                start_date: "2026-01-15".to_string(),
            },
            now(),
        )
        .unwrap();
    ledger.ensure_depreciation_for_period("2026-01", now()).unwrap();
    let postings_after_first = ledger.postings.len();
    let transactions_after_first = ledger.transactions.len();
    let balances_after_first: Vec<i64> =
        ledger.accounts.iter().map(|a| a.balance_cents).collect();
    let status_after_first = ledger.schedules[0].status;

    ledger.ensure_depreciation_for_period("2026-01", now()).unwrap();
    assert_eq!(ledger.postings.len(), postings_after_first);
    assert_eq!(ledger.transactions.len(), transactions_after_first);
    let balances_after_second: Vec<i64> =
        ledger.accounts.iter().map(|a| a.balance_cents).collect();
    assert_eq!(balances_after_second, balances_after_first);
    assert_eq!(ledger.schedules[0].status, status_after_first);
    assert_eq!(postings_after_first, 1);
    assert_eq!(ledger.postings[0].amount_cents, 4500);
}

#[test]
fn depreciation_skips_periods_outside_schedule_life() {
    let mut ledger = Ledger::new();
    let checking = ledger
        .create_account(account_input("Checking", AccountType::Asset, 0), now())
        .unwrap();
    let desk = ledger
        .create_account(account_input("Desk", AccountType::Asset, 0), now())
        .unwrap();
    ledger
        .create_asset_purchase(
            CreateAssetPurchaseInput {
                from_account_id: checking.id,
                asset_account_id: desk.id,
                amount_cents: 1200,
                category_id: None,
                payee_id: None,
                note: None,
                occurred_at: None,
                strategy: AmortizationStrategy::Linear,
                total_periods: 2,
                residual_cents: 0,
                start_date: "2026-03-01".to_string(),
            },
            now(),
        )
        .unwrap();
    ledger.ensure_depreciation_for_period("2026-02", now()).unwrap();
    assert_eq!(ledger.postings.len(), 0);
    ledger.ensure_depreciation_for_period("2026-05", now()).unwrap();
    assert_eq!(ledger.postings.len(), 0);
    ledger.ensure_depreciation_for_period("2026-04", now()).unwrap();
    assert_eq!(ledger.postings.len(), 1);
    assert_eq!(ledger.postings[0].period_ym, "2026-04");
    // Posting the last period completes the schedule even out of order.
    assert_eq!(ledger.schedules[0].status, ScheduleStatus::Completed);
}

#[test]
fn depreciation_respects_residual_value() {
    let mut ledger = Ledger::new();
    let checking = ledger
        .create_account(account_input("Checking", AccountType::Asset, 0), now())
        .unwrap();
    let desk = ledger
        .create_account(account_input("Desk", AccountType::Asset, 0), now())
        .unwrap();
    ledger
        .create_asset_purchase(
            CreateAssetPurchaseInput {
                from_account_id: checking.id,
                asset_account_id: desk.id,
                amount_cents: 1000,
                category_id: None,
                payee_id: None,
                note: None,
                occurred_at: None,
                strategy: AmortizationStrategy::Linear,
                total_periods: 2,
                residual_cents: 400,
                start_date: "2026-01-01".to_string(),
            },
            now(),
        )
        .unwrap();
    ledger.ensure_depreciation_for_period("2026-01", now()).unwrap();
    ledger.ensure_depreciation_for_period("2026-02", now()).unwrap();
    let total: i64 = ledger.postings.iter().map(|p| p.amount_cents).sum();
    assert_eq!(total, 600);
}

#[test]
fn purchase_validation_failures_leave_no_trace() {
    let mut ledger = Ledger::new();
    let checking = ledger
        .create_account(account_input("Checking", AccountType::Asset, 1000), now())
        .unwrap();
    let desk = ledger
        .create_account(account_input("Desk", AccountType::Asset, 0), now())
        .unwrap();
    let base = CreateAssetPurchaseInput {
        from_account_id: checking.id,
        asset_account_id: desk.id,
        amount_cents: 500,
        category_id: None,
        payee_id: None,
        note: None,
        occurred_at: None,
        strategy: AmortizationStrategy::Linear,
        total_periods: 2,
        residual_cents: 0,
        start_date: "2026-01-01".to_string(),
    };
    let cases = [
        CreateAssetPurchaseInput { amount_cents: 0, ..base.clone() },
        CreateAssetPurchaseInput { total_periods: 0, ..base.clone() },
        CreateAssetPurchaseInput { residual_cents: 600, ..base.clone() },
        CreateAssetPurchaseInput { residual_cents: -1, ..base.clone() },
        CreateAssetPurchaseInput { start_date: "2026-13-01".to_string(), ..base.clone() },
        CreateAssetPurchaseInput { start_date: "2026/01/01".to_string(), ..base.clone() },
    ];
    for input in cases {
        let r = ledger.create_asset_purchase(input, now());
        assert!(matches!(r, Err(AppError::InvalidInput)));
    }
    assert_eq!(ledger.transactions.len(), 0);
    assert_eq!(ledger.schedules.len(), 0);
    assert_eq!(ledger.load_account_by_id(checking.id).unwrap().balance_cents, 1000);
}

#[test]
fn purchase_violating_liability_rule_is_atomic() {
    let mut ledger = Ledger::new();
    let checking = ledger
        .create_account(account_input("Checking", AccountType::Asset, 1000), now())
        .unwrap();
    let card = ledger
        .create_account(account_input("CreditCard", AccountType::Liability, 0), now())
        .unwrap();
    // The asset leg would push the liability account positive.
    let r = ledger.create_asset_purchase(
        CreateAssetPurchaseInput {
            from_account_id: checking.id,
            asset_account_id: card.id,
            amount_cents: 500,
            category_id: None,
            payee_id: None,
            note: None,
            occurred_at: None,
            strategy: AmortizationStrategy::Linear,
            total_periods: 2,
            residual_cents: 0,
            start_date: "2026-01-01".to_string(),
        },
        now(),
    );
    assert!(matches!(r, Err(AppError::InvalidInput)));
    assert_eq!(ledger.transactions.len(), 0);
    assert_eq!(ledger.schedules.len(), 0);
    assert_eq!(ledger.load_account_by_id(checking.id).unwrap().balance_cents, 1000);
    assert_eq!(ledger.load_account_by_id(card.id).unwrap().balance_cents, 0);
}

#[test]
fn post_transaction_validates_shape_and_accounts() {
    let mut ledger = Ledger::new();
    let checking = ledger
        .create_account(account_input("Checking", AccountType::Asset, 100), now())
        .unwrap();
    let zero = ledger.post_transaction(flow_input(0, Some(checking.id), None), now());
    assert!(matches!(zero, Err(AppError::InvalidInput)));
    let negative = ledger.post_transaction(flow_input(-5, Some(checking.id), None), now());
    assert!(matches!(negative, Err(AppError::InvalidInput)));
    let legless = ledger.post_transaction(flow_input(10, None, None), now());
    assert!(matches!(legless, Err(AppError::InvalidInput)));
    let ghost_account = ledger.post_transaction(flow_input(10, Some(999), None), now());
    assert!(matches!(ghost_account, Err(AppError::NotFound)));
    assert_eq!(ledger.transactions.len(), 0);
}

#[test]
fn depreciation_posting_needs_no_legs() {
    let mut ledger = Ledger::new();
    let tx = ledger
        .post_transaction(
            CreateTransactionInput {
                amount_cents: 250,
                from_account_id: None,
                to_account_id: None,
                payee_id: None,
                category_id: None,
                accrual_type: Some(AccrualType::Depreciation),
                is_asset_purchase: None,
                note: None,
                occurred_at: None,
            },
            now(),
        )
        .unwrap();
    assert_eq!(tx.amount_cents, 250);
    assert_eq!(tx.occurred_at, now());
    assert_eq!(ledger.transactions.len(), 1);
}

#[test]
fn liability_account_can_be_paid_down_and_charged() {
    let mut ledger = Ledger::new();
    let checking = ledger
        .create_account(account_input("Checking", AccountType::Asset, 10_000), now())
        .unwrap();
    let card = ledger
        .create_account(account_input("CreditCard", AccountType::Liability, -3000), now())
        .unwrap();
    // Paying down the card moves it toward zero but never past it.
    let pay = ledger
        .post_transaction(flow_input(3000, Some(checking.id), Some(card.id)), now())
        .unwrap();
    assert_eq!(pay.amount_cents, 3000);
    assert_eq!(ledger.load_account_by_id(card.id).unwrap().balance_cents, 0);
    assert_eq!(ledger.load_account_by_id(checking.id).unwrap().balance_cents, 7000);
    // Charging the card pushes it negative, which is allowed.
    ledger
        .post_transaction(flow_input(1500, Some(card.id), Some(checking.id)), now())
        .unwrap();
    assert_eq!(ledger.load_account_by_id(card.id).unwrap().balance_cents, -1500);
    assert_eq!(ledger.load_account_by_id(checking.id).unwrap().balance_cents, 8500);
}

#[test]
fn transfer_with_both_legs_conserves_total_balance() {
    let mut ledger = Ledger::new();
    let a = ledger
        .create_account(account_input("A", AccountType::Asset, 4200), now())
        .unwrap();
    let b = ledger
        .create_account(account_input("B", AccountType::Asset, -300), now())
        .unwrap();
    let sum_before: i64 = ledger.accounts.iter().map(|x| x.balance_cents).sum();
    ledger.post_transaction(flow_input(999, Some(a.id), Some(b.id)), now()).unwrap();
    let sum_after: i64 = ledger.accounts.iter().map(|x| x.balance_cents).sum();
    assert_eq!(sum_before, sum_after);
    assert_eq!(ledger.load_account_by_id(a.id).unwrap().balance_cents, 3201);
    assert_eq!(ledger.load_account_by_id(b.id).unwrap().balance_cents, 699);
    // A transfer from an account to itself nets to zero as well.
    ledger.post_transaction(flow_input(50, Some(a.id), Some(a.id)), now()).unwrap();
    assert_eq!(ledger.load_account_by_id(a.id).unwrap().balance_cents, 3201);
}

#[test]
fn create_account_rejects_bad_input() {
    let mut ledger = Ledger::new();
    let unnamed = ledger.create_account(account_input("", AccountType::Asset, 0), now());
    assert!(matches!(unnamed, Err(AppError::InvalidInput)));
    let positive_liability =
        ledger.create_account(account_input("Card", AccountType::Liability, 1), now());
    assert!(matches!(positive_liability, Err(AppError::InvalidInput)));
    let negative_liability =
        ledger.create_account(account_input("Card", AccountType::Liability, -10), now());
    assert!(negative_liability.is_ok());
    assert_eq!(ledger.accounts.len(), 1);
}
