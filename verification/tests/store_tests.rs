use accounts_manager::account::{Account, MetadataItem};
use accounts_manager::store::{AccountsStore, OperationError};

fn mk_account(trader_id: &str, id: &str, currency: &str, balance: i64) -> Account {
    Account {
        id: id.to_string(),
        currency: currency.to_string(),
        trader_id: trader_id.to_string(),
        create_date: 1_000,
        last_update_date: 1_000,
        last_update_process_id: "boot".to_string(),
        balance,
        trading_disabled: false,
        create_process_id: "boot".to_string(),
        trading_group: "default".to_string(),
        metadata: vec![MetadataItem { key: "tier".to_string(), value: "basic".to_string() }],
    }
}

#[test]
fn get_account_finds_by_trader_and_id() {
    let store = AccountsStore::new(vec![
        mk_account("T1", "A1", "USD", 100),
        mk_account("T2", "A2", "EUR", 200),
    ]);
    let found = store.get_account(&"T1".to_string(), &"A1".to_string()).unwrap();
    assert_eq!(found.balance, 100);
    assert_eq!(found.currency, "USD");
    assert!(store.get_account(&"T1".to_string(), &"A2".to_string()).is_none());
    assert!(store.get_account(&"T3".to_string(), &"A1".to_string()).is_none());
}

#[test]
fn get_accounts_distinguishes_unknown_trader() {
    let store = AccountsStore::new(vec![
        mk_account("T1", "A1", "USD", 100),
        mk_account("T1", "A2", "EUR", 200),
    ]);
    let accounts = store.get_accounts(&"T1".to_string()).unwrap();
    assert_eq!(accounts.len(), 2);
    assert!(store.get_accounts(&"T9".to_string()).is_none());
}

#[test]
fn reverse_lookup_answers_the_owning_trader() {
    let mut store = AccountsStore::new(vec![mk_account("T1", "A1", "USD", 100)]);
    store.add_account(mk_account("T2", "A2", "EUR", 50));
    assert_eq!(
        store.get_trader_id_by_account_id(&"A1".to_string()),
        Some("T1".to_string())
    );
    assert_eq!(
        store.get_trader_id_by_account_id(&"A2".to_string()),
        Some("T2".to_string())
    );
    assert!(store.get_trader_id_by_account_id(&"A9".to_string()).is_none());
}

#[test]
fn add_account_replaces_same_account_id() {
    let mut store = AccountsStore::new(vec![mk_account("T1", "A1", "USD", 100)]);
    store.add_account(mk_account("T1", "A1", "USD", 500));
    let accounts = store.get_accounts(&"T1".to_string()).unwrap();
    assert_eq!(accounts.len(), 1);
    assert_eq!(accounts[0].balance, 500);
}

#[test]
fn update_balance_commits_delta_and_stamps() {
    let mut store = AccountsStore::new(vec![mk_account("T1", "A1", "USD", 100)]);
    let updated = store
        .update_balance(
            &"T1".to_string(),
            &"A1".to_string(),
            -30,
            &"proc-7".to_string(),
            false,
            2_000,
        )
        .unwrap();
    assert_eq!(updated.balance, 70);
    assert_eq!(updated.last_update_date, 2_000);
    assert_eq!(updated.last_update_process_id, "proc-7");
    assert_eq!(updated.create_date, 1_000);
    let stored = store.get_account(&"T1".to_string(), &"A1".to_string()).unwrap();
    assert_eq!(stored.balance, 70);
}

#[test]
fn update_balance_error_codes() {
    let mut store = AccountsStore::new(vec![mk_account("T1", "A1", "USD", 30)]);

    let trader_missing = store
        .update_balance(&"T9".to_string(), &"A1".to_string(), 1, &"p".to_string(), false, 0)
        .unwrap_err();
    assert!(matches!(trader_missing, OperationError::TraderNotFound));
    assert_eq!(trader_missing.as_grpc_error(), 2);

    let account_missing = store
        .update_balance(&"T1".to_string(), &"A9".to_string(), 1, &"p".to_string(), false, 0)
        .unwrap_err();
    assert!(matches!(account_missing, OperationError::AccountNotFound));
    assert_eq!(account_missing.as_grpc_error(), 1);

    let not_enough = store
        .update_balance(&"T1".to_string(), &"A1".to_string(), -50, &"p".to_string(), false, 0)
        .unwrap_err();
    assert!(matches!(not_enough, OperationError::NotEnoughBalance));
    assert_eq!(not_enough.as_grpc_error(), 3);

    let overflow = store
        .update_balance(
            &"T1".to_string(),
            &"A1".to_string(),
            i64::MAX,
            &"p".to_string(),
            true,
            0,
        )
        .unwrap_err();
    assert!(matches!(overflow, OperationError::BalanceOverflow));
    assert_eq!(overflow.as_grpc_error(), 4);

    // No failing call mutated anything.
    let stored = store.get_account(&"T1".to_string(), &"A1".to_string()).unwrap();
    assert_eq!(stored.balance, 30);
    assert_eq!(stored.last_update_process_id, "boot");
}

#[test]
fn update_balance_allows_negative_when_permitted() {
    let mut store = AccountsStore::new(vec![mk_account("T1", "A1", "USD", 30)]);
    let updated = store
        .update_balance(&"T1".to_string(), &"A1".to_string(), -50, &"p".to_string(), true, 5)
        .unwrap();
    assert_eq!(updated.balance, -20);
}

#[test]
fn balances_stay_non_negative_across_updates() {
    let mut store = AccountsStore::new(vec![mk_account("T1", "A1", "USD", 10)]);
    let deltas: [i64; 6] = [5, -12, -3, -20, 100, -115];
    for (step, delta) in deltas.iter().enumerate() {
        let _ = store.update_balance(
            &"T1".to_string(),
            &"A1".to_string(),
            *delta,
            &format!("p{}", step),
            false,
            step as u64,
        );
        let balance = store
            .get_account(&"T1".to_string(), &"A1".to_string())
            .unwrap()
            .balance;
        assert!(balance >= 0);
    }
}

#[test]
fn linearized_updates_sum_their_deltas() {
    let mut store = AccountsStore::new(vec![mk_account("T1", "A1", "USD", 100)]);
    let deltas: [i64; 5] = [10, -5, 3, -250, 42];
    for (step, delta) in deltas.iter().enumerate() {
        store
            .update_balance(
                &"T1".to_string(),
                &"A1".to_string(),
                *delta,
                &format!("p{}", step),
                true,
                step as u64,
            )
            .unwrap();
    }
    let balance = store
        .get_account(&"T1".to_string(), &"A1".to_string())
        .unwrap()
        .balance;
    assert_eq!(balance, 100 + 10 - 5 + 3 - 250 + 42);
}

#[test]
fn update_trading_disabled_touches_only_the_flag_and_stamp() {
    let mut store = AccountsStore::new(vec![mk_account("T1", "A1", "USD", 100)]);
    let updated = store
        .update_trading_disabled(
            &"T1".to_string(),
            &"A1".to_string(),
            true,
            &"proc-9".to_string(),
            3_000,
        )
        .unwrap();
    assert!(updated.trading_disabled);
    assert_eq!(updated.balance, 100);
    assert_eq!(updated.last_update_date, 3_000);
    assert_eq!(updated.last_update_process_id, "proc-9");
    let missing = store
        .update_trading_disabled(&"T1".to_string(), &"A9".to_string(), true, &"p".to_string(), 0)
        .unwrap_err();
    assert!(matches!(missing, OperationError::AccountNotFound));
}

#[test]
fn update_trading_group_replaces_the_group() {
    let mut store = AccountsStore::new(vec![mk_account("T1", "A1", "USD", 100)]);
    let updated = store
        .update_trading_group(
            &"T1".to_string(),
            &"A1".to_string(),
            &"vip".to_string(),
            &"proc-3".to_string(),
            4_000,
        )
        .unwrap();
    assert_eq!(updated.trading_group, "vip");
    assert_eq!(updated.last_update_date, 4_000);
}

#[test]
fn get_multiple_accounts_concatenates_buckets() {
    let store = AccountsStore::new(vec![
        mk_account("T1", "A1", "USD", 1),
        mk_account("T2", "A2", "EUR", 2),
        mk_account("T1", "A3", "GBP", 3),
    ]);
    let both = store
        .get_multiple_accounts(&vec!["T1".to_string(), "T2".to_string()])
        .unwrap();
    assert_eq!(both.len(), 3);
    assert!(store
        .get_multiple_accounts(&vec!["T1".to_string(), "T9".to_string()])
        .is_none());
}

#[test]
fn lookups_copy_the_metadata_list() {
    let store = AccountsStore::new(vec![mk_account("T1", "A1", "USD", 1)]);
    let copy = store.get_account(&"T1".to_string(), &"A1".to_string()).unwrap();
    assert_eq!(copy.metadata.len(), 1);
    assert_eq!(copy.metadata[0].key, "tier");
    assert_eq!(copy.metadata[0].value, "basic");
}

#[test]
fn an_empty_snapshot_means_no_accounts_yet() {
    let store = AccountsStore::new(Vec::new());
    assert!(store.get_accounts(&"T1".to_string()).is_none());
    assert!(store.get_account(&"T1".to_string(), &"A1".to_string()).is_none());
    assert!(store.get_trader_id_by_account_id(&"A1".to_string()).is_none());
}

#[test]
fn get_accounts_by_trading_group_filters_by_group() {
    let mut store = AccountsStore::new(vec![mk_account("T1", "A1", "USD", 1)]);
    let mut vip = mk_account("T2", "A2", "USD", 2);
    vip.trading_group = "vip".to_string();
    store.add_account(vip);
    let found = store.get_accounts_by_trading_group(&"vip".to_string());
    assert_eq!(found.len(), 1);
    assert_eq!(found[0].id, "A2");
    assert!(store.get_accounts_by_trading_group(&"none".to_string()).is_empty());
}
