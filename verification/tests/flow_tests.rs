use accounts_manager::account::Account;
use accounts_manager::events::{
    AccountEvent, BalanceOperationType, UpdateBalanceReason, operation_type_of,
};
use accounts_manager::flows::{
    create_account, get_accounts_vector, get_client_account, get_client_accounts, update_balance,
    update_client_account_balance, AccountDefaults, CreateAccountRequest, UpdateBalanceRequest,
    UpdateTradingDisabledRequest, UpdateTradingGroupRequest, update_account_trading_disabled,
    update_account_trading_group,
};
use accounts_manager::process_id_cache::ProcessIdCache;
use accounts_manager::store::AccountsStore;
use accounts_manager::RESULT_OK;

fn defaults() -> AccountDefaults {
    AccountDefaults {
        default_account_balance: 1_000,
        default_account_trading_group: "standard".to_string(),
        accounts_default_currency: Some("USD".to_string()),
    }
}

fn balance_request(delta: i64, process_id: &str, allow_negative: bool) -> UpdateBalanceRequest {
    UpdateBalanceRequest {
        trader_id: "T1".to_string(),
        account_id: "A1".to_string(),
        delta,
        process_id: process_id.to_string(),
        allow_negative_balance: allow_negative,
        comment: "test move".to_string(),
        reason: UpdateBalanceReason::Deposit,
        reference_transaction_id: None,
    }
}

fn seeded_store(balance: i64) -> AccountsStore {
    let mut store = AccountsStore::new(Vec::new());
    let req = CreateAccountRequest {
        trader_id: "T1".to_string(),
        currency: "USD".to_string(),
        process_id: "boot".to_string(),
        trading_group_id: None,
    };
    let (account, _) = create_account(&mut store, &req, &defaults(), "A1".to_string(), 100);
    assert_eq!(account.id, "A1");
    store
        .update_balance(
            &"T1".to_string(),
            &"A1".to_string(),
            balance - 1_000,
            &"boot".to_string(),
            true,
            100,
        )
        .unwrap();
    store
}

#[test]
fn created_account_gets_the_configured_defaults() {
    let mut store = AccountsStore::new(Vec::new());
    let req = CreateAccountRequest {
        trader_id: "T1".to_string(),
        currency: "USD".to_string(),
        process_id: "proc-1".to_string(),
        trading_group_id: None,
    };
    let (account, event) = create_account(&mut store, &req, &defaults(), "A1".to_string(), 500);
    assert_eq!(account.balance, 1_000);
    assert!(!account.trading_disabled);
    assert_eq!(account.currency, "USD");
    assert_eq!(account.trader_id, "T1");
    assert_eq!(account.trading_group, "standard");
    assert_eq!(account.create_date, 500);
    assert_eq!(account.last_update_date, 500);
    assert_eq!(account.create_process_id, "proc-1");
    assert!(account.metadata.is_empty());
    match event {
        AccountEvent::Created(a) => assert_eq!(a.id, "A1"),
        AccountEvent::Updated(_, _) => panic!("creation must publish a creation event"),
    }
    assert!(store.get_account(&"T1".to_string(), &"A1".to_string()).is_some());
}

#[test]
fn created_account_takes_the_requested_group_override() {
    let mut store = AccountsStore::new(Vec::new());
    let req = CreateAccountRequest {
        trader_id: "T1".to_string(),
        currency: "EUR".to_string(),
        process_id: "proc-1".to_string(),
        trading_group_id: Some("vip".to_string()),
    };
    let (account, _) = create_account(&mut store, &req, &defaults(), "A1".to_string(), 500);
    assert_eq!(account.trading_group, "vip");
}

#[test]
fn update_balance_flow_builds_the_audit_event() {
    let mut store = seeded_store(100);
    let req = balance_request(-40, "proc-2", false);
    let (account, event) = update_balance(&mut store, &req, "tx-1".to_string(), 9_000).unwrap();
    assert_eq!(account.balance, 60);
    match event {
        AccountEvent::Updated(snapshot, Some(op)) => {
            assert_eq!(snapshot.balance, 60);
            assert_eq!(op.id, "tx-1");
            assert_eq!(op.trader_id, "T1");
            assert_eq!(op.account_id, "A1");
            assert_eq!(op.delta, -40);
            assert_eq!(op.process_id, Some("proc-2".to_string()));
            assert_eq!(op.comment, Some("test move".to_string()));
            assert_eq!(op.date_time_unix_ms, 9_000);
            assert!(op.reference_operation_id.is_none());
            assert!(matches!(op.operation_type, BalanceOperationType::Deposit));
        }
        _ => panic!("a balance change must publish an update event with an operation record"),
    }
}

#[test]
fn a_correction_carries_its_reference_operation() {
    let mut store = seeded_store(100);
    let mut req = balance_request(-10, "proc-8", false);
    req.reason = UpdateBalanceReason::BalanceCorrection;
    req.reference_transaction_id = Some("tx-0".to_string());
    let (_, event) = update_balance(&mut store, &req, "tx-1".to_string(), 9_500).unwrap();
    match event {
        AccountEvent::Updated(_, Some(op)) => {
            assert_eq!(op.reference_operation_id, Some("tx-0".to_string()));
            assert!(matches!(op.operation_type, BalanceOperationType::BalanceCorrection));
        }
        _ => panic!("a balance change must publish an update event with an operation record"),
    }
}

#[test]
fn rejected_update_returns_not_enough_balance_and_changes_nothing() {
    let mut store = seeded_store(30);
    let mut cache = ProcessIdCache::new();
    let req = balance_request(-50, "proc-3", false);
    let (response, event) =
        update_client_account_balance(&mut store, &mut cache, &req, "tx-1".to_string(), 7_000);
    assert_eq!(response.result, 3);
    assert!(response.update_balance_info.is_none());
    assert!(event.is_none());
    let balance = store
        .get_account(&"T1".to_string(), &"A1".to_string())
        .unwrap()
        .balance;
    assert_eq!(balance, 30);
}

#[test]
fn retried_rejection_replays_the_identical_response_without_a_new_event() {
    let mut store = seeded_store(30);
    let mut cache = ProcessIdCache::new();
    let req = balance_request(-50, "proc-3", false);
    let (first, _) =
        update_client_account_balance(&mut store, &mut cache, &req, "tx-1".to_string(), 7_000);
    let (second, event) =
        update_client_account_balance(&mut store, &mut cache, &req, "tx-2".to_string(), 8_000);
    assert_eq!(second.result, first.result);
    assert!(second.update_balance_info.is_none());
    assert!(event.is_none());
    let balance = store
        .get_account(&"T1".to_string(), &"A1".to_string())
        .unwrap()
        .balance;
    assert_eq!(balance, 30);
}

#[test]
fn retried_success_replays_the_response_and_applies_the_delta_once() {
    let mut store = seeded_store(100);
    let mut cache = ProcessIdCache::new();
    let req = balance_request(25, "proc-4", false);
    let (first, first_event) =
        update_client_account_balance(&mut store, &mut cache, &req, "tx-1".to_string(), 7_000);
    assert_eq!(first.result, RESULT_OK);
    assert!(first_event.is_some());
    let (second, second_event) =
        update_client_account_balance(&mut store, &mut cache, &req, "tx-9".to_string(), 9_999);
    assert!(second_event.is_none());
    assert_eq!(second.result, first.result);
    let first_info = first.update_balance_info.unwrap();
    let second_info = second.update_balance_info.unwrap();
    assert_eq!(second_info.operation_id, first_info.operation_id);
    assert_eq!(second_info.account.balance, first_info.account.balance);
    let balance = store
        .get_account(&"T1".to_string(), &"A1".to_string())
        .unwrap()
        .balance;
    assert_eq!(balance, 125);
}

#[test]
fn trading_disabled_change_publishes_an_event_without_an_operation() {
    let mut store = seeded_store(100);
    let req = UpdateTradingDisabledRequest {
        trader_id: "T1".to_string(),
        account_id: "A1".to_string(),
        trading_disabled: true,
        process_id: "proc-5".to_string(),
    };
    let (response, event) = update_account_trading_disabled(&mut store, &req, 6_000);
    assert_eq!(response.result, RESULT_OK);
    assert!(response.account.as_ref().unwrap().trading_disabled);
    match event {
        Some(AccountEvent::Updated(_, None)) => {}
        _ => panic!("a metadata change must publish an update event without an operation record"),
    }
}

#[test]
fn trading_disabled_change_on_unknown_trader_fails_without_an_event() {
    let mut store = seeded_store(100);
    let req = UpdateTradingDisabledRequest {
        trader_id: "T9".to_string(),
        account_id: "A1".to_string(),
        trading_disabled: true,
        process_id: "proc-5".to_string(),
    };
    let (response, event) = update_account_trading_disabled(&mut store, &req, 6_000);
    assert_eq!(response.result, 2);
    assert!(response.account.is_none());
    assert!(event.is_none());
}

#[test]
fn trading_group_change_publishes_an_event_without_an_operation() {
    let mut store = seeded_store(100);
    let req = UpdateTradingGroupRequest {
        trader_id: "T1".to_string(),
        account_id: "A1".to_string(),
        new_trading_group: "vip".to_string(),
        process_id: "proc-6".to_string(),
    };
    let (response, event) = update_account_trading_group(&mut store, &req, 6_500);
    assert_eq!(response.result, RESULT_OK);
    assert_eq!(response.account.unwrap().trading_group, "vip");
    match event {
        Some(AccountEvent::Updated(a, None)) => assert_eq!(a.trading_group, "vip"),
        _ => panic!("a metadata change must publish an update event without an operation record"),
    }
}

#[test]
fn get_client_account_wraps_the_lookup() {
    let store = seeded_store(100);
    let found = get_client_account(&store, &"T1".to_string(), &"A1".to_string());
    assert_eq!(found.result, RESULT_OK);
    assert_eq!(found.account.unwrap().id, "A1");
    let missing = get_client_account(&store, &"T1".to_string(), &"A9".to_string());
    assert_eq!(missing.result, 1);
    assert!(missing.account.is_none());
}

#[test]
fn read_path_provisions_a_default_currency_account() {
    let mut store = AccountsStore::new(Vec::new());
    let (accounts, event) = get_client_accounts(
        &mut store,
        &"T1".to_string(),
        &defaults(),
        "A-fresh".to_string(),
        "proc-7".to_string(),
        42,
    );
    assert_eq!(accounts.len(), 1);
    assert_eq!(accounts[0].currency, "USD");
    assert_eq!(accounts[0].balance, 1_000);
    assert!(matches!(event, Some(AccountEvent::Created(_))));
    assert!(store.get_account(&"T1".to_string(), &"A-fresh".to_string()).is_some());
}

#[test]
fn read_path_without_default_currency_degrades_to_empty() {
    let mut store = AccountsStore::new(Vec::new());
    let no_currency = AccountDefaults {
        default_account_balance: 1_000,
        default_account_trading_group: "standard".to_string(),
        accounts_default_currency: None,
    };
    let (accounts, event) = get_client_accounts(
        &mut store,
        &"T1".to_string(),
        &no_currency,
        "A-fresh".to_string(),
        "proc-7".to_string(),
        42,
    );
    assert!(accounts.is_empty());
    assert!(event.is_none());
    assert!(store.get_accounts(&"T1".to_string()).is_none());
}

#[test]
fn read_path_returns_existing_accounts_without_provisioning() {
    let mut store = seeded_store(100);
    let (accounts, event) = get_client_accounts(
        &mut store,
        &"T1".to_string(),
        &defaults(),
        "A-fresh".to_string(),
        "proc-7".to_string(),
        42,
    );
    assert_eq!(accounts.len(), 1);
    assert_eq!(accounts[0].id, "A1");
    assert!(event.is_none());
}

#[test]
fn reason_maps_to_its_operation_type() {
    assert!(matches!(
        operation_type_of(UpdateBalanceReason::TradingResult),
        BalanceOperationType::Trading
    ));
    assert!(matches!(
        operation_type_of(UpdateBalanceReason::Withdrawal),
        BalanceOperationType::Withdrawal
    ));
    assert!(matches!(
        operation_type_of(UpdateBalanceReason::Voucher),
        BalanceOperationType::Voucher
    ));
}

#[test]
fn accounts_vector_degrades_missing_to_empty() {
    let some: Option<Vec<Account>> = Some(vec![]);
    assert!(get_accounts_vector(some).is_empty());
    let store = seeded_store(1);
    let found = get_accounts_vector(store.get_accounts(&"T1".to_string()));
    assert_eq!(found.len(), 1);
    let missing = get_accounts_vector(store.get_accounts(&"T9".to_string()));
    assert!(missing.is_empty());
}
