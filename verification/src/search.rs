//! Account search: a linear scan over all accounts applying a conjunction of
//! optional filters. An absent filter matches everything in its dimension.

use vstd::prelude::*;

use crate::account::{Account, AccountModel};
use crate::model::lemma_filter_take_all;
use crate::model::lemma_filter_take_step;
use crate::store::AccountsStore;

verus! {

/// An inclusive creation-date range; either end is optional.
pub struct DateRange {
    pub from: Option<u64>,
    pub to: Option<u64>,
}

/// An inclusive balance range; either end is optional.
pub struct BalanceRange {
    pub from: Option<i64>,
    pub to: Option<i64>,
}

/// The search request: every present filter must hold of a matching account.
pub struct SearchAccounts {
    /// Allow-list of traders; empty means any trader.
    pub trader_ids: Vec<String>,
    pub currency: Option<String>,
    pub created: Option<DateRange>,
    pub balance: Option<BalanceRange>,
    pub disabled: Option<bool>,
}

pub ghost struct DateRangeModel {
    pub from: Option<int>,
    pub to: Option<int>,
}

pub ghost struct BalanceRangeModel {
    pub from: Option<int>,
    pub to: Option<int>,
}

pub ghost struct SearchAccountsModel {
    pub trader_ids: Seq<Seq<char>>,
    pub currency: Option<Seq<char>>,
    pub created: Option<DateRangeModel>,
    pub balance: Option<BalanceRangeModel>,
    pub disabled: Option<bool>,
}

impl View for DateRange {
    type V = DateRangeModel;

    open spec fn view(&self) -> DateRangeModel {
        DateRangeModel {
            from: match self.from {
                Option::Some(x) => Option::Some(x as int),
                Option::None => Option::None,
            },
            to: match self.to {
                Option::Some(x) => Option::Some(x as int),
                Option::None => Option::None,
            },
        }
    }
}

impl View for BalanceRange {
    type V = BalanceRangeModel;

    open spec fn view(&self) -> BalanceRangeModel {
        BalanceRangeModel {
            from: match self.from {
                Option::Some(x) => Option::Some(x as int),
                Option::None => Option::None,
            },
            to: match self.to {
                Option::Some(x) => Option::Some(x as int),
                Option::None => Option::None,
            },
        }
    }
}

impl View for SearchAccounts {
    type V = SearchAccountsModel;

    open spec fn view(&self) -> SearchAccountsModel {
        SearchAccountsModel {
            trader_ids: self.trader_ids@.map_values(|t: String| t@),
            currency: match self.currency {
                Option::Some(c) => Option::Some(c@),
                Option::None => Option::None,
            },
            created: match self.created {
                Option::Some(r) => Option::Some(r@),
                Option::None => Option::None,
            },
            balance: match self.balance {
                Option::Some(r) => Option::Some(r@),
                Option::None => Option::None,
            },
            disabled: self.disabled,
        }
    }
}

/// The conjunction of all present filters: a trader allow-list, currency
/// equality, inclusive creation-date and balance ranges, and trading-disabled
/// equality. An absent filter holds of every account.
pub open spec fn matches_search(a: AccountModel, f: SearchAccountsModel) -> bool {
    &&& (f.trader_ids.len() > 0 ==> f.trader_ids.contains(a.trader_id))
    &&& (match f.currency {
        Option::Some(c) => a.currency == c,
        Option::None => true,
    })
    &&& (match f.created {
        Option::Some(r) => {
            &&& (match r.from {
                Option::Some(x) => a.create_date >= x,
                Option::None => true,
            })
            &&& (match r.to {
                Option::Some(x) => a.create_date <= x,
                Option::None => true,
            })
        },
        Option::None => true,
    })
    &&& (match f.balance {
        Option::Some(r) => {
            &&& (match r.from {
                Option::Some(x) => a.balance >= x,
                Option::None => true,
            })
            &&& (match r.to {
                Option::Some(x) => a.balance <= x,
                Option::None => true,
            })
        },
        Option::None => true,
    })
    &&& (match f.disabled {
        Option::Some(d) => a.trading_disabled == d,
        Option::None => true,
    })
}

/// The search filter as a predicate over account models.
pub open spec fn search_pred(f: SearchAccountsModel) -> spec_fn(AccountModel) -> bool {
    |a: AccountModel| matches_search(a, f)
}

/// Decides the search filter for one account.
pub fn account_matches_search(a: &Account, f: &SearchAccounts) -> (r: bool)
    ensures
        r == matches_search(a@, f@),
{
    let ghost tids = f@.trader_ids;
    if f.trader_ids.len() > 0 {
        let mut found = false;
        let mut i: usize = 0;
        while i < f.trader_ids.len()
            invariant
                i <= f.trader_ids.len(),
                tids == f@.trader_ids,
                tids.len() == f.trader_ids@.len(),
                found == exists|j: int| 0 <= j < i && #[trigger] tids[j] == a.trader_id@,
            decreases f.trader_ids.len() - i,
        {
            proof {
                assert(tids[i as int] == f.trader_ids@[i as int]@);
            }
            if f.trader_ids[i] == a.trader_id {
                found = true;
            }
            i = i + 1;
        }
        if !found {
            proof {
                assert(!tids.contains(a@.trader_id));
            }
            return false;
        }
        proof {
            let j = choose|j: int| 0 <= j < tids.len() && #[trigger] tids[j] == a.trader_id@;
            assert(tids.contains(a@.trader_id));
        }
    }
    match &f.currency {
        Some(c) => {
            if !(a.currency == *c) {
                return false;
            }
        },
        None => {},
    }
    match &f.created {
        Some(r) => {
            match r.from {
                Some(x) => {
                    if a.create_date < x {
                        return false;
                    }
                },
                None => {},
            }
            match r.to {
                Some(x) => {
                    if a.create_date > x {
                        return false;
                    }
                },
                None => {},
            }
        },
        None => {},
    }
    match &f.balance {
        Some(r) => {
            match r.from {
                Some(x) => {
                    if a.balance < x {
                        return false;
                    }
                },
                None => {},
            }
            match r.to {
                Some(x) => {
                    if a.balance > x {
                        return false;
                    }
                },
                None => {},
            }
        },
        None => {},
    }
    match f.disabled {
        Some(d) => {
            if a.trading_disabled != d {
                return false;
            }
        },
        None => {},
    }
    true
}

impl AccountsStore {
    /// Linear scan over all accounts, returning copies of exactly those that
    /// match every present filter, in store order.
    pub fn search(&self, search: &SearchAccounts) -> (r: Option<Vec<Account>>)
        ensures
            r is Some,
            match r {
                Option::Some(v) => v@.map_values(|a: Account| a@) == self@.filter(
                    search_pred(search@),
                ),
                Option::None => false,
            },
    {
        let ghost s = self@;
        let ghost p = search_pred(search@);
        let mut out: Vec<Account> = Vec::new();
        let mut i: usize = 0;
        proof {
            assert(out@.map_values(|a: Account| a@) =~= s.take(0).filter(p));
        }
        while i < self.accounts.len()
            invariant
                i <= self.accounts.len(),
                s == self@,
                p == search_pred(search@),
                s.len() == self.accounts.len(),
                out@.map_values(|a: Account| a@) == s.take(i as int).filter(p),
            decreases self.accounts.len() - i,
        {
            let a = &self.accounts[i];
            proof {
                assert(s[i as int] == a@);
                lemma_filter_take_step(s, p, i as int);
            }
            if account_matches_search(a, search) {
                let ghost prev = out@;
                out.push(a.clone());
                proof {
                    assert(out@.map_values(|x: Account| x@) =~= prev.map_values(|x: Account| x@)
                        .push(a@));
                }
            }
            i = i + 1;
        }
        proof {
            lemma_filter_take_all(s, p);
        }
        Some(out)
    }
}

} // verus!
