//! The account store: the in-memory index of every account, keyed by
//! `(trader_id, account_id)`, with the mutation operations of the balance
//! protocol.
//!
//! Every mutation is specified by a transition function over the store model,
//! so that callers know exactly which stores and results a call can produce.
//! Reads return copies of the stored accounts; no caller ever holds a
//! reference into the store.

use vstd::prelude::*;

use crate::account::{opt_account_view, Account, AccountModel};
use crate::model::{
    accounts_of_trader, find_account, find_id_idx, find_pair_idx, first_idx, lemma_first_idx,
    lemma_first_idx_at, of_id, of_pair, of_trader, store_wf, trader_exists, trader_of_account,
};

verus! {

/// A domain error of a store mutation: expected, returned as a structured
/// result, and never accompanied by a side effect on the store.
#[derive(Clone, Copy, Debug, PartialEq, Eq, Structural)]
pub enum OperationError {
    /// The trader holds no accounts at all.
    TraderNotFound,
    /// The trader exists, but holds no account with the given id.
    AccountNotFound,
    /// The mutation would drive the balance negative without permission.
    NotEnoughBalance,
    /// The mutation would leave the fixed-point balance range; it is rejected
    /// without mutating anything.
    BalanceOverflow,
}

impl OperationError {
    /// The wire result code of this error: a small positive integer.
    pub open spec fn code_spec(self) -> i32 {
        match self {
            OperationError::AccountNotFound => 1,
            OperationError::TraderNotFound => 2,
            OperationError::NotEnoughBalance => 3,
            OperationError::BalanceOverflow => 4,
        }
    }

    pub fn as_grpc_error(&self) -> (r: i32)
        ensures
            r == self.code_spec(),
    {
        match self {
            OperationError::AccountNotFound => 1,
            OperationError::TraderNotFound => 2,
            OperationError::NotEnoughBalance => 3,
            OperationError::BalanceOverflow => 4,
        }
    }
}

/// The view of a mutation result, for contracts over `Result` values.
pub open spec fn res_account_view(r: Result<Account, OperationError>) -> Result<
    AccountModel,
    OperationError,
> {
    match r {
        Result::Ok(a) => Result::Ok(a@),
        Result::Err(e) => Result::Err(e),
    }
}

/// Effect of inserting an account. An existing account with the same account
/// id is replaced in place — whichever trader held it, since account ids are
/// unique across all traders — and a fresh id is appended.
pub open spec fn spec_add_account(s: Seq<AccountModel>, a: AccountModel) -> Seq<AccountModel> {
    let k = find_id_idx(s, a.id);
    if k >= 0 {
        s.update(k, a)
    } else {
        s.push(a)
    }
}

/// Effect of a balance update. The lookups fail in order (trader, then
/// account); a new balance below zero is refused unless the caller allows a
/// negative balance; a new balance outside the fixed-point range is refused;
/// otherwise the balance is committed and the update stamp is set, atomically.
pub open spec fn spec_update_balance(
    s: Seq<AccountModel>,
    trader_id: Seq<char>,
    account_id: Seq<char>,
    delta: int,
    process_id: Seq<char>,
    now_ms: int,
    allow_negative: bool,
) -> (Seq<AccountModel>, Result<AccountModel, OperationError>) {
    if !trader_exists(s, trader_id) {
        (s, Result::Err(OperationError::TraderNotFound))
    } else {
        let k = find_pair_idx(s, trader_id, account_id);
        if k < 0 {
            (s, Result::Err(OperationError::AccountNotFound))
        } else {
            let a = s[k];
            let new_balance = a.balance + delta;
            if !allow_negative && new_balance < 0 {
                (s, Result::Err(OperationError::NotEnoughBalance))
            } else if new_balance < i64::MIN || new_balance > i64::MAX {
                (s, Result::Err(OperationError::BalanceOverflow))
            } else {
                let a2 = AccountModel {
                    balance: new_balance,
                    last_update_date: now_ms,
                    last_update_process_id: process_id,
                    ..a
                };
                (s.update(k, a2), Result::Ok(a2))
            }
        }
    }
}

/// Effect of setting the trading-disabled flag: the flag and the update stamp
/// change together, nothing else.
pub open spec fn spec_update_trading_disabled(
    s: Seq<AccountModel>,
    trader_id: Seq<char>,
    account_id: Seq<char>,
    trading_disabled: bool,
    process_id: Seq<char>,
    now_ms: int,
) -> (Seq<AccountModel>, Result<AccountModel, OperationError>) {
    if !trader_exists(s, trader_id) {
        (s, Result::Err(OperationError::TraderNotFound))
    } else {
        let k = find_pair_idx(s, trader_id, account_id);
        if k < 0 {
            (s, Result::Err(OperationError::AccountNotFound))
        } else {
            let a2 = AccountModel {
                trading_disabled,
                last_update_date: now_ms,
                last_update_process_id: process_id,
                ..s[k]
            };
            (s.update(k, a2), Result::Ok(a2))
        }
    }
}

/// Effect of setting the trading group: the group and the update stamp change
/// together, nothing else.
pub open spec fn spec_update_trading_group(
    s: Seq<AccountModel>,
    trader_id: Seq<char>,
    account_id: Seq<char>,
    trading_group: Seq<char>,
    process_id: Seq<char>,
    now_ms: int,
) -> (Seq<AccountModel>, Result<AccountModel, OperationError>) {
    if !trader_exists(s, trader_id) {
        (s, Result::Err(OperationError::TraderNotFound))
    } else {
        let k = find_pair_idx(s, trader_id, account_id);
        if k < 0 {
            (s, Result::Err(OperationError::AccountNotFound))
        } else {
            let a2 = AccountModel {
                trading_group,
                last_update_date: now_ms,
                last_update_process_id: process_id,
                ..s[k]
            };
            (s.update(k, a2), Result::Ok(a2))
        }
    }
}

/// The in-memory index of all accounts. It owns its accounts exclusively and
/// is the single source of truth while the process is alive; concurrency
/// wrapping (one exclusive/shared lock around the whole store) is the
/// caller's.
pub struct AccountsStore {
    pub accounts: Vec<Account>,
}

impl View for AccountsStore {
    type V = Seq<AccountModel>;

    open spec fn view(&self) -> Seq<AccountModel> {
        self.accounts@.map_values(|a: Account| a@)
    }
}

impl AccountsStore {
    /// Builds the store from a snapshot, e.g. the boot-time load from the
    /// persistence service. The snapshot must respect the data-model
    /// invariant that account ids are unique.
    pub fn new(accounts: Vec<Account>) -> (r: Self)
        requires
            forall|i: int, j: int|
                0 <= i < j < accounts@.len() ==> (#[trigger] accounts@[i])@.id != (
                #[trigger] accounts@[j])@.id,
        ensures
            r@ == accounts@.map_values(|a: Account| a@),
            store_wf(r@),
    {
        let r = AccountsStore { accounts };
        proof {
            assert forall|i: int, j: int| 0 <= i < j < r@.len() implies (#[trigger] r@[i]).id != (
            #[trigger] r@[j]).id by {
                assert(r@[i] == r.accounts@[i]@);
                assert(r@[j] == r.accounts@[j]@);
            }
        }
        r
    }

    /// Scans for the account keyed by `(trader_id, account_id)`: whether the
    /// trader exists at all, and the index of the account if there is one.
    fn find_pair_index(&self, trader_id: &String, account_id: &String) -> (r: (
        bool,
        Option<usize>,
    ))
        ensures
            r.0 == trader_exists(self@, trader_id@),
            match r.1 {
                Option::Some(k) => (k as int) < self@.len() && find_pair_idx(
                    self@,
                    trader_id@,
                    account_id@,
                ) == k as int,
                Option::None => find_pair_idx(self@, trader_id@, account_id@) == -1,
            },
    {
        let ghost s = self@;
        let mut i: usize = 0;
        let mut trader_found = false;
        let mut found_idx: Option<usize> = None;
        while i < self.accounts.len()
            invariant
                i <= self.accounts.len(),
                s == self@,
                s.len() == self.accounts.len(),
                trader_found == exists|j: int|
                    0 <= j < i && (#[trigger] s[j]).trader_id == trader_id@,
                match found_idx {
                    Option::None => forall|j: int|
                        0 <= j < i ==> !(of_pair(trader_id@, account_id@)(#[trigger] s[j])),
                    Option::Some(k) => k < i && of_pair(trader_id@, account_id@)(s[k as int])
                        && forall|j: int|
                        0 <= j < k ==> !(of_pair(trader_id@, account_id@)(#[trigger] s[j])),
                },
            decreases self.accounts.len() - i,
        {
            let a = &self.accounts[i];
            proof {
                assert(s[i as int] == a@);
            }
            if a.trader_id == *trader_id {
                trader_found = true;
                if found_idx.is_none() && a.id == *account_id {
                    found_idx = Some(i);
                }
            }
            i = i + 1;
        }
        proof {
            match found_idx {
                Option::None => {
                    lemma_first_idx(s, of_pair(trader_id@, account_id@));
                },
                Option::Some(k) => {
                    lemma_first_idx_at(s, of_pair(trader_id@, account_id@), k as int);
                },
            }
        }
        (trader_found, found_idx)
    }

    /// Point lookup; returns a copy of the account, no side effects.
    pub fn get_account(&self, trader_id: &String, account_id: &String) -> (r: Option<Account>)
        ensures
            opt_account_view(r) == find_account(self@, trader_id@, account_id@),
    {
        let (_, found_idx) = self.find_pair_index(trader_id, account_id);
        match found_idx {
            Some(k) => Some(self.accounts[k].clone()),
            None => None,
        }
    }

    /// Reverse lookup: the trader that holds the account with this id,
    /// found by a scan over all accounts.
    pub fn get_trader_id_by_account_id(&self, account_id: &String) -> (r: Option<String>)
        ensures
            match r {
                Option::Some(t) => trader_of_account(self@, account_id@) == Option::Some(t@),
                Option::None => trader_of_account(self@, account_id@) is None,
            },
    {
        let ghost s = self@;
        let mut i: usize = 0;
        while i < self.accounts.len()
            invariant
                i <= self.accounts.len(),
                s == self@,
                s.len() == self.accounts.len(),
                forall|j: int| 0 <= j < i ==> !(of_id(account_id@)(#[trigger] s[j])),
            decreases self.accounts.len() - i,
        {
            let a = &self.accounts[i];
            proof {
                assert(s[i as int] == a@);
            }
            if a.id == *account_id {
                proof {
                    lemma_first_idx_at(s, of_id(account_id@), i as int);
                }
                return Some(a.trader_id.clone());
            }
            i = i + 1;
        }
        proof {
            lemma_first_idx(s, of_id(account_id@));
        }
        None
    }

    /// All accounts of one trader, as copies, in store order; `None` when the
    /// trader holds no accounts.
    pub fn get_accounts(&self, trader_id: &String) -> (r: Option<Vec<Account>>)
        ensures
            match r {
                Option::Some(v) => trader_exists(self@, trader_id@) && v@.map_values(
                    |a: Account| a@,
                ) == accounts_of_trader(self@, trader_id@),
                Option::None => !trader_exists(self@, trader_id@),
            },
    {
        let out = self.collect_trader_accounts(trader_id);
        proof {
            crate::model::lemma_filter_empty_iff_no_match(self@, of_trader(trader_id@));
        }
        if out.len() == 0 {
            None
        } else {
            Some(out)
        }
    }

    /// Copies of all accounts of one trader, possibly empty.
    fn collect_trader_accounts(&self, trader_id: &String) -> (out: Vec<Account>)
        ensures
            out@.map_values(|a: Account| a@) == accounts_of_trader(self@, trader_id@),
    {
        let ghost s = self@;
        let ghost p = of_trader(trader_id@);
        let mut out: Vec<Account> = Vec::new();
        let mut i: usize = 0;
        proof {
            assert(out@.map_values(|a: Account| a@) =~= s.take(0).filter(p));
        }
        while i < self.accounts.len()
            invariant
                i <= self.accounts.len(),
                s == self@,
                p == of_trader(trader_id@),
                s.len() == self.accounts.len(),
                out@.map_values(|a: Account| a@) == s.take(i as int).filter(p),
            decreases self.accounts.len() - i,
        {
            let a = &self.accounts[i];
            proof {
                assert(s[i as int] == a@);
                crate::model::lemma_filter_take_step(s, p, i as int);
            }
            if a.trader_id == *trader_id {
                let ghost prev = out@;
                out.push(a.clone());
                proof {
                    assert(out@.map_values(|x: Account| x@) =~= prev.map_values(|x: Account| x@)
                        .push(a@));
                }
            }
            i = i + 1;
        }
        proof {
            crate::model::lemma_filter_take_all(s, p);
        }
        out
    }

    /// Index of the first account stored under this account id, or `None`.
    fn find_id_index(&self, account_id: &String) -> (r: Option<usize>)
        ensures
            match r {
                Option::Some(k) => (k as int) < self@.len() && find_id_idx(self@, account_id@)
                    == k as int,
                Option::None => find_id_idx(self@, account_id@) == -1,
            },
    {
        let ghost s = self@;
        let mut i: usize = 0;
        while i < self.accounts.len()
            invariant
                i <= self.accounts.len(),
                s == self@,
                s.len() == self.accounts.len(),
                forall|j: int| 0 <= j < i ==> !(of_id(account_id@)(#[trigger] s[j])),
            decreases self.accounts.len() - i,
        {
            let a = &self.accounts[i];
            proof {
                assert(s[i as int] == self.accounts@[i as int]@);
            }
            if a.id == *account_id {
                proof {
                    lemma_first_idx_at(s, of_id(account_id@), i as int);
                }
                return Some(i);
            }
            i = i + 1;
        }
        proof {
            lemma_first_idx(s, of_id(account_id@));
        }
        None
    }

    /// Inserts an account; an account already stored under the same account
    /// id is silently replaced. Returns a copy of the inserted account.
    pub fn add_account(&mut self, account: Account) -> (r: Account)
        requires
            store_wf(old(self)@),
        ensures
            final(self)@ == spec_add_account(old(self)@, account@),
            store_wf(final(self)@),
            r@ == account@,
    {
        let ghost s = old(self)@;
        let ghost a_model = account@;
        let found = self.find_id_index(&account.id);
        let snapshot = account.clone();
        match found {
            Some(k) => {
                let _ = self.accounts.remove(k);
                self.accounts.insert(k, account);
                proof {
                    assert(self.accounts@ =~= old(self).accounts@.update(k as int, account));
                    assert forall|j: int| 0 <= j < self@.len() implies self@[j] == s.update(
                        k as int,
                        a_model,
                    )[j] by {
                        assert(self@[j] == self.accounts@[j]@);
                        assert(s[j] == old(self).accounts@[j]@);
                        if j != k as int {
                            assert(self.accounts@[j] == old(self).accounts@[j]);
                        }
                    }
                    assert(self@ =~= s.update(k as int, a_model));
                    lemma_first_idx(s, of_id(a_model.id));
                    assert forall|x: int, y: int| 0 <= x < y < self@.len() implies (
                    #[trigger] self@[x]).id != (#[trigger] self@[y]).id by {
                        assert(s[x].id == self@[x].id || x == k as int);
                        assert(s[y].id == self@[y].id || y == k as int);
                        assert(s[k as int].id == a_model.id);
                        assert(s[x].id != s[y].id);
                    }
                }
            },
            None => {
                self.accounts.push(account);
                proof {
                    assert(self.accounts@ =~= old(self).accounts@.push(account));
                    assert forall|j: int| 0 <= j < self@.len() implies self@[j] == s.push(
                        a_model,
                    )[j] by {
                        assert(self@[j] == self.accounts@[j]@);
                        if j < s.len() {
                            assert(s[j] == old(self).accounts@[j]@);
                            assert(self.accounts@[j] == old(self).accounts@[j]);
                        }
                    }
                    assert(self@ =~= s.push(a_model));
                    lemma_first_idx(s, of_id(a_model.id));
                    assert forall|x: int, y: int| 0 <= x < y < self@.len() implies (
                    #[trigger] self@[x]).id != (#[trigger] self@[y]).id by {
                        if y < s.len() {
                            assert(s[x].id != s[y].id);
                        } else {
                            assert(!(of_id(a_model.id)(s[x])));
                        }
                    }
                }
            },
        }
        snapshot
    }

    /// Updates an account balance: trader and account lookup, the
    /// negative-balance rule, and the range check, committed together with the
    /// update stamp while the caller holds exclusive access.
    pub fn update_balance(
        &mut self,
        trader_id: &String,
        account_id: &String,
        delta: i64,
        process_id: &String,
        allow_negative_balance: bool,
        now_ms: u64,
    ) -> (r: Result<Account, OperationError>)
        requires
            store_wf(old(self)@),
        ensures
            final(self)@ == spec_update_balance(
                old(self)@,
                trader_id@,
                account_id@,
                delta as int,
                process_id@,
                now_ms as int,
                allow_negative_balance,
            ).0,
            res_account_view(r) == spec_update_balance(
                old(self)@,
                trader_id@,
                account_id@,
                delta as int,
                process_id@,
                now_ms as int,
                allow_negative_balance,
            ).1,
            store_wf(final(self)@),
    {
        let ghost s = old(self)@;
        let (trader_found, found_idx) = self.find_pair_index(trader_id, account_id);
        if !trader_found {
            return Err(OperationError::TraderNotFound);
        }
        let k = match found_idx {
            Some(k) => k,
            None => {
                return Err(OperationError::AccountNotFound);
            },
        };
        proof {
            assert(s[k as int] == self.accounts@[k as int]@);
        }
        match self.accounts[k].balance.checked_add(delta) {
            Some(new_balance) => {
                if !allow_negative_balance && new_balance < 0 {
                    Err(OperationError::NotEnoughBalance)
                } else {
                    let mut a = self.accounts.remove(k);
                    a.balance = new_balance;
                    a.last_update_date = now_ms;
                    a.last_update_process_id = process_id.clone();
                    let snapshot = a.clone();
                    let ghost a2 = a@;
                    self.accounts.insert(k, a);
                    proof {
                        assert(self.accounts@ =~= old(self).accounts@.update(k as int, a));
                        lemma_view_update(old(self).accounts@, self.accounts@, k as int, a);
                        assert(self@ =~= s.update(k as int, a2));
                        crate::model::lemma_wf_update_same_id(s, k as int, a2);
                    }
                    Ok(snapshot)
                }
            },
            None => {
                if !allow_negative_balance && delta < 0 {
                    Err(OperationError::NotEnoughBalance)
                } else {
                    Err(OperationError::BalanceOverflow)
                }
            },
        }
    }

    /// Sets the trading-disabled flag of an account, together with the update
    /// stamp.
    pub fn update_trading_disabled(
        &mut self,
        trader_id: &String,
        account_id: &String,
        trading_disabled: bool,
        process_id: &String,
        now_ms: u64,
    ) -> (r: Result<Account, OperationError>)
        requires
            store_wf(old(self)@),
        ensures
            final(self)@ == spec_update_trading_disabled(
                old(self)@,
                trader_id@,
                account_id@,
                trading_disabled,
                process_id@,
                now_ms as int,
            ).0,
            res_account_view(r) == spec_update_trading_disabled(
                old(self)@,
                trader_id@,
                account_id@,
                trading_disabled,
                process_id@,
                now_ms as int,
            ).1,
            store_wf(final(self)@),
    {
        let ghost s = old(self)@;
        let (trader_found, found_idx) = self.find_pair_index(trader_id, account_id);
        if !trader_found {
            return Err(OperationError::TraderNotFound);
        }
        let k = match found_idx {
            Some(k) => k,
            None => {
                return Err(OperationError::AccountNotFound);
            },
        };
        proof {
            assert(s[k as int] == self.accounts@[k as int]@);
        }
        let mut a = self.accounts.remove(k);
        a.trading_disabled = trading_disabled;
        a.last_update_date = now_ms;
        a.last_update_process_id = process_id.clone();
        let snapshot = a.clone();
        let ghost a2 = a@;
        self.accounts.insert(k, a);
        proof {
            assert(self.accounts@ =~= old(self).accounts@.update(k as int, a));
            lemma_view_update(old(self).accounts@, self.accounts@, k as int, a);
            assert(self@ =~= s.update(k as int, a2));
            crate::model::lemma_wf_update_same_id(s, k as int, a2);
        }
        Ok(snapshot)
    }

    /// Sets the trading group of an account, together with the update stamp.
    pub fn update_trading_group(
        &mut self,
        trader_id: &String,
        account_id: &String,
        trading_group: &String,
        process_id: &String,
        now_ms: u64,
    ) -> (r: Result<Account, OperationError>)
        requires
            store_wf(old(self)@),
        ensures
            final(self)@ == spec_update_trading_group(
                old(self)@,
                trader_id@,
                account_id@,
                trading_group@,
                process_id@,
                now_ms as int,
            ).0,
            res_account_view(r) == spec_update_trading_group(
                old(self)@,
                trader_id@,
                account_id@,
                trading_group@,
                process_id@,
                now_ms as int,
            ).1,
            store_wf(final(self)@),
    {
        let ghost s = old(self)@;
        let (trader_found, found_idx) = self.find_pair_index(trader_id, account_id);
        if !trader_found {
            return Err(OperationError::TraderNotFound);
        }
        let k = match found_idx {
            Some(k) => k,
            None => {
                return Err(OperationError::AccountNotFound);
            },
        };
        proof {
            assert(s[k as int] == self.accounts@[k as int]@);
        }
        let mut a = self.accounts.remove(k);
        a.trading_group = trading_group.clone();
        a.last_update_date = now_ms;
        a.last_update_process_id = process_id.clone();
        let snapshot = a.clone();
        let ghost a2 = a@;
        self.accounts.insert(k, a);
        proof {
            assert(self.accounts@ =~= old(self).accounts@.update(k as int, a));
            lemma_view_update(old(self).accounts@, self.accounts@, k as int, a);
            assert(self@ =~= s.update(k as int, a2));
            crate::model::lemma_wf_update_same_id(s, k as int, a2);
        }
        Ok(snapshot)
    }

    /// The accounts of several traders at once: `None` as soon as one of the
    /// traders holds no accounts, otherwise all their accounts, bucket by
    /// bucket in the order given.
    pub fn get_multiple_accounts(&self, trader_ids: &Vec<String>) -> (r: Option<Vec<Account>>)
        ensures
            match r {
                Option::Some(v) => (forall|k: int|
                    0 <= k < trader_ids@.len() ==> trader_exists(self@, (
                    #[trigger] trader_ids@[k])@)) && v@.map_values(|a: Account| a@)
                    == crate::model::concat_buckets(
                    self@,
                    trader_ids@.map_values(|t: String| t@),
                ),
                Option::None => exists|k: int|
                    0 <= k < trader_ids@.len() && !trader_exists(self@, (
                    #[trigger] trader_ids@[k])@),
            },
    {
        let ghost s = self@;
        let ghost tids = trader_ids@.map_values(|t: String| t@);
        let mut out: Vec<Account> = Vec::new();
        let mut i: usize = 0;
        proof {
            assert(out@.map_values(|a: Account| a@) =~= crate::model::concat_buckets(
                s,
                tids.take(0),
            ));
        }
        while i < trader_ids.len()
            invariant
                i <= trader_ids.len(),
                s == self@,
                tids == trader_ids@.map_values(|t: String| t@),
                tids.len() == trader_ids@.len(),
                forall|k: int| 0 <= k < i ==> trader_exists(s, #[trigger] tids[k]),
                out@.map_values(|a: Account| a@) == crate::model::concat_buckets(
                    s,
                    tids.take(i as int),
                ),
            decreases trader_ids.len() - i,
        {
            proof {
                assert(tids[i as int] == trader_ids@[i as int]@);
            }
            match self.get_accounts(&trader_ids[i]) {
                Option::None => {
                    return None;
                },
                Option::Some(mut bucket) => {
                    let ghost prev = out@;
                    let ghost bucket_view = bucket@;
                    out.append(&mut bucket);
                    proof {
                        assert(tids.take(i as int + 1).drop_last() =~= tids.take(i as int));
                        assert(tids.take(i as int + 1).last() == tids[i as int]);
                        assert(out@.map_values(|a: Account| a@) =~= prev.map_values(
                            |a: Account| a@,
                        ) + bucket_view.map_values(|a: Account| a@)) by {
                            assert(out@ == prev + bucket_view);
                        }
                    }
                },
            }
            i = i + 1;
        }
        proof {
            assert(tids.take(tids.len() as int) =~= tids);
            assert forall|k: int| 0 <= k < trader_ids@.len() implies trader_exists(
                self@,
                (#[trigger] trader_ids@[k])@,
            ) by {
                assert(tids[k] == trader_ids@[k]@);
            }
        }
        Some(out)
    }

    /// Copies of all accounts of one trading group, possibly empty.
    pub fn get_accounts_by_trading_group(&self, trading_group: &String) -> (out: Vec<Account>)
        ensures
            out@.map_values(|a: Account| a@) == crate::model::accounts_of_group(
                self@,
                trading_group@,
            ),
    {
        let ghost s = self@;
        let ghost p = crate::model::of_group(trading_group@);
        let mut out: Vec<Account> = Vec::new();
        let mut i: usize = 0;
        proof {
            assert(out@.map_values(|a: Account| a@) =~= s.take(0).filter(p));
        }
        while i < self.accounts.len()
            invariant
                i <= self.accounts.len(),
                s == self@,
                p == crate::model::of_group(trading_group@),
                s.len() == self.accounts.len(),
                out@.map_values(|a: Account| a@) == s.take(i as int).filter(p),
            decreases self.accounts.len() - i,
        {
            let a = &self.accounts[i];
            proof {
                assert(s[i as int] == a@);
                crate::model::lemma_filter_take_step(s, p, i as int);
            }
            if a.trading_group == *trading_group {
                let ghost prev = out@;
                out.push(a.clone());
                proof {
                    assert(out@.map_values(|x: Account| x@) =~= prev.map_values(|x: Account| x@)
                        .push(a@));
                }
            }
            i = i + 1;
        }
        proof {
            crate::model::lemma_filter_take_all(s, p);
        }
        out
    }
}

/// Element views commute with an in-place replacement of one element.
proof fn lemma_view_update(pre: Seq<Account>, post: Seq<Account>, k: int, a: Account)
    requires
        0 <= k < pre.len(),
        post == pre.update(k, a),
    ensures
        post.map_values(|x: Account| x@) =~= pre.map_values(|x: Account| x@).update(k, a@),
{
    crate::model::lemma_map_values_update(pre, k, a, |x: Account| x@);
}

} // verus!
