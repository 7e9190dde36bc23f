use accounts_manager::account::Account;
use accounts_manager::clock::utc_now_ms;
use accounts_manager::events::{
    events_of_queue_items, AccountEvent, AccountsPersistQueue, PersistAccountQueueItem,
};
use accounts_manager::ids::new_uuid_string;
use accounts_manager::process_id_cache::ProcessIdCache;
use accounts_manager::responses::UpdateBalanceResponse;
use accounts_manager::search::{BalanceRange, DateRange, SearchAccounts};
use accounts_manager::store::AccountsStore;

fn mk_account(
    trader_id: &str,
    id: &str,
    currency: &str,
    balance: i64,
    disabled: bool,
    created: u64,
) -> Account {
    Account {
        id: id.to_string(),
        currency: currency.to_string(),
        trader_id: trader_id.to_string(),
        create_date: created,
        last_update_date: created,
        last_update_process_id: "boot".to_string(),
        balance,
        trading_disabled: disabled,
        create_process_id: "boot".to_string(),
        trading_group: "default".to_string(),
        metadata: Vec::new(),
    }
}

fn empty_filter() -> SearchAccounts {
    SearchAccounts {
        trader_ids: Vec::new(),
        currency: None,
        created: None,
        balance: None,
        disabled: None,
    }
}

fn sample_store() -> AccountsStore {
    AccountsStore::new(vec![
        mk_account("T1", "A1", "USD", 100, true, 10),
        mk_account("T1", "A2", "USD", 200, false, 20),
        mk_account("T2", "A3", "EUR", 300, true, 30),
        mk_account("T3", "A4", "USD", 50, true, 40),
    ])
}

#[test]
fn search_conjoins_currency_and_disabled() {
    let store = sample_store();
    let mut filter = empty_filter();
    filter.currency = Some("USD".to_string());
    filter.disabled = Some(true);
    let found = store.search(&filter).unwrap();
    let mut ids: Vec<String> = found.iter().map(|a| a.id.clone()).collect();
    ids.sort();
    assert_eq!(ids, vec!["A1".to_string(), "A4".to_string()]);
}

#[test]
fn search_with_empty_filter_returns_all_accounts() {
    let store = sample_store();
    let found = store.search(&empty_filter()).unwrap();
    assert_eq!(found.len(), 4);
}

#[test]
fn search_applies_trader_allow_list() {
    let store = sample_store();
    let mut filter = empty_filter();
    filter.trader_ids = vec!["T2".to_string(), "T3".to_string()];
    let found = store.search(&filter).unwrap();
    let mut ids: Vec<String> = found.iter().map(|a| a.id.clone()).collect();
    ids.sort();
    assert_eq!(ids, vec!["A3".to_string(), "A4".to_string()]);
}

#[test]
fn search_ranges_are_inclusive_on_both_ends() {
    let store = sample_store();
    let mut filter = empty_filter();
    filter.created = Some(DateRange { from: Some(20), to: Some(30) });
    let found = store.search(&filter).unwrap();
    let mut ids: Vec<String> = found.iter().map(|a| a.id.clone()).collect();
    ids.sort();
    assert_eq!(ids, vec!["A2".to_string(), "A3".to_string()]);

    let mut balance_filter = empty_filter();
    balance_filter.balance = Some(BalanceRange { from: Some(100), to: None });
    let rich = store.search(&balance_filter).unwrap();
    let mut rich_ids: Vec<String> = rich.iter().map(|a| a.id.clone()).collect();
    rich_ids.sort();
    assert_eq!(rich_ids, vec!["A1".to_string(), "A2".to_string(), "A3".to_string()]);
}

#[test]
fn queue_is_fifo_and_drains_completely() {
    let mut queue = AccountsPersistQueue::new();
    assert_eq!(queue.len(), 0);
    queue.enqueue(PersistAccountQueueItem::CreateAccount(mk_account(
        "T1", "A1", "USD", 1, false, 0,
    )));
    queue.enqueue(PersistAccountQueueItem::UpdateAccount(mk_account(
        "T1", "A1", "USD", 2, false, 1,
    )));
    assert_eq!(queue.len(), 2);
    let drained = queue.dequeue_all();
    assert_eq!(queue.len(), 0);
    assert_eq!(drained.len(), 2);
    assert!(matches!(drained[0], PersistAccountQueueItem::CreateAccount(_)));
    assert!(matches!(drained[1], PersistAccountQueueItem::UpdateAccount(_)));
}

#[test]
fn drained_items_map_to_their_publish_events() {
    let mut queue = AccountsPersistQueue::new();
    queue.enqueue(PersistAccountQueueItem::CreateAccount(mk_account(
        "T1", "A1", "USD", 1, false, 0,
    )));
    queue.enqueue(PersistAccountQueueItem::UpdateAccount(mk_account(
        "T2", "A2", "EUR", 2, false, 1,
    )));
    let drained = queue.dequeue_all();
    let events = events_of_queue_items(&drained);
    assert_eq!(events.len(), 2);
    match &events[0] {
        AccountEvent::Created(a) => assert_eq!(a.id, "A1"),
        _ => panic!("a queued creation must publish a creation event"),
    }
    match &events[1] {
        AccountEvent::Updated(a, op) => {
            assert_eq!(a.id, "A2");
            assert!(op.is_none());
        }
        _ => panic!("a queued update must publish an update event"),
    }
}

#[test]
fn queue_recovers_from_backup_items() {
    let recovered = vec![PersistAccountQueueItem::UpdateAccount(mk_account(
        "T1", "A1", "USD", 7, false, 0,
    ))];
    let mut queue = AccountsPersistQueue::from_items(recovered);
    assert_eq!(queue.len(), 1);
    let drained = queue.dequeue_all();
    assert_eq!(drained.len(), 1);
}

#[test]
fn process_id_cache_stores_and_replaces() {
    let mut cache = ProcessIdCache::new();
    assert!(cache.get(&"p1".to_string()).is_none());
    cache.set(
        &"p1".to_string(),
        UpdateBalanceResponse { result: 3, update_balance_info: None },
    );
    assert_eq!(cache.get(&"p1".to_string()).unwrap().result, 3);
    cache.set(
        &"p1".to_string(),
        UpdateBalanceResponse { result: 0, update_balance_info: None },
    );
    assert_eq!(cache.get(&"p1".to_string()).unwrap().result, 0);
    assert!(cache.get(&"p2".to_string()).is_none());
}

#[test]
fn fresh_identifiers_have_the_hyphenated_uuid_shape() {
    let id = new_uuid_string();
    assert_eq!(id.len(), 36);
    let hyphens: Vec<usize> = id
        .char_indices()
        .filter(|(_, c)| *c == '-')
        .map(|(i, _)| i)
        .collect();
    assert_eq!(hyphens, vec![8, 13, 18, 23]);
}

#[test]
fn the_clock_feeds_the_update_stamp() {
    let now = utc_now_ms();
    let mut store = AccountsStore::new(vec![mk_account("T1", "A1", "USD", 10, false, 0)]);
    let updated = store
        .update_balance(&"T1".to_string(), &"A1".to_string(), 1, &"p".to_string(), false, now)
        .unwrap();
    assert_eq!(updated.last_update_date, now);
}
