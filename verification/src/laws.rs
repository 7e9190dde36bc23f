//! The laws of the store and of the balance protocol, stated and proved over
//! the models: uniqueness of account ids, balance non-negativity under the
//! default rule, idempotency of retried balance updates, linearized balance
//! arithmetic, exactness of search, and reverse-lookup consistency.

use vstd::prelude::*;

use crate::account::AccountModel;
use crate::flows::{spec_handle_update_balance, UpdateBalanceRequestModel};
use crate::model::{
    accounts_of_trader, find_account, find_id_idx, find_pair_idx, first_idx, lemma_first_idx,
    lemma_first_idx_at, of_id, of_pair, of_trader, store_wf, trader_exists, trader_of_account,
};
use crate::process_id_cache::{cache_find, cache_wf, lemma_cache_set_find, CacheEntryModel};
use crate::search::{matches_search, search_pred, SearchAccountsModel};
use crate::store::{spec_add_account, spec_update_balance};

verus! {

/// A filter of a well-formed store cannot repeat an account id.
pub proof fn lemma_filter_unique_ids(s: Seq<AccountModel>, p: spec_fn(AccountModel) -> bool)
    requires
        store_wf(s),
    ensures
        store_wf(s.filter(p)),
    decreases s.len(),
{
    reveal(Seq::filter);
    if s.len() > 0 {
        let rest = s.drop_last();
        assert(forall|i: int| 0 <= i < rest.len() ==> #[trigger] rest[i] == s[i]);
        lemma_filter_unique_ids(rest, p);
        let f = rest.filter(p);
        if p(s.last()) {
            let out = f.push(s.last());
            assert forall|i: int, j: int| 0 <= i < j < out.len() implies (#[trigger] out[i]).id != (
            #[trigger] out[j]).id by {
                if j == f.len() as int {
                    assert(f.contains(f[i]));
                    rest.lemma_filter_contains_rev(p, f[i]);
                    let k = rest.lemma_contains_to_index(f[i]);
                    assert(s[k] == f[i]);
                    assert(s[k].id != s[s.len() - 1].id);
                }
            }
        }
    }
}

/// Uniqueness: any two distinct accounts of one trader carry distinct
/// account ids.
pub proof fn lemma_trader_account_uniqueness(
    s: Seq<AccountModel>,
    trader_id: Seq<char>,
    i: int,
    j: int,
)
    requires
        store_wf(s),
        0 <= i < j < accounts_of_trader(s, trader_id).len(),
    ensures
        accounts_of_trader(s, trader_id)[i].id != accounts_of_trader(s, trader_id)[j].id,
{
    lemma_filter_unique_ids(s, of_trader(trader_id));
}

/// Every balance of the store is non-negative.
pub open spec fn all_balances_non_negative(s: Seq<AccountModel>) -> bool {
    forall|i: int| 0 <= i < s.len() ==> (#[trigger] s[i]).balance >= 0
}

/// One balance update that does not allow a negative balance keeps every
/// balance non-negative: a failing update changes nothing, and a committing
/// one commits exactly the non-negative new balance.
pub proof fn lemma_update_balance_keeps_non_negative(
    s: Seq<AccountModel>,
    trader_id: Seq<char>,
    account_id: Seq<char>,
    delta: int,
    process_id: Seq<char>,
    now_ms: int,
)
    requires
        all_balances_non_negative(s),
    ensures
        all_balances_non_negative(
            spec_update_balance(s, trader_id, account_id, delta, process_id, now_ms, false).0,
        ),
{
    let s2 = spec_update_balance(s, trader_id, account_id, delta, process_id, now_ms, false).0;
    let k = find_pair_idx(s, trader_id, account_id);
    lemma_first_idx(s, of_pair(trader_id, account_id));
    assert forall|i: int| 0 <= i < s2.len() implies (#[trigger] s2[i]).balance >= 0 by {
        if s2 != s {
            assert(s[i].balance >= 0);
            if i != k {
                assert(s2[i] == s[i]);
            }
        } else {
            assert(s2[i].balance == s[i].balance);
        }
    }
}

/// Inserting an account with a non-negative balance — as creation with a
/// non-negative configured default does — keeps every balance non-negative,
/// which grounds the induction for stores the service builds itself.
pub proof fn lemma_add_account_keeps_non_negative(s: Seq<AccountModel>, a: AccountModel)
    requires
        all_balances_non_negative(s),
        a.balance >= 0,
    ensures
        all_balances_non_negative(spec_add_account(s, a)),
{
    let s2 = spec_add_account(s, a);
    let k = find_id_idx(s, a.id);
    lemma_first_idx(s, of_id(a.id));
    assert forall|i: int| 0 <= i < s2.len() implies (#[trigger] s2[i]).balance >= 0 by {
        if k >= 0 && i != k {
            assert(s2[i] == s[i]);
        }
        if k < 0 && i < s.len() {
            assert(s2[i] == s[i]);
        }
    }
}

/// The arguments of one balance update against the store.
pub ghost struct BalanceUpdateArgs {
    pub trader_id: Seq<char>,
    pub account_id: Seq<char>,
    pub delta: int,
    pub process_id: Seq<char>,
    pub now_ms: int,
    pub allow_negative_balance: bool,
}

/// The store after a sequence of balance updates, applied in order.
pub open spec fn apply_balance_updates(
    s: Seq<AccountModel>,
    us: Seq<BalanceUpdateArgs>,
) -> Seq<AccountModel>
    decreases us.len(),
{
    if us.len() == 0 {
        s
    } else {
        let u = us[0];
        apply_balance_updates(
            spec_update_balance(
                s,
                u.trader_id,
                u.account_id,
                u.delta,
                u.process_id,
                u.now_ms,
                u.allow_negative_balance,
            ).0,
            us.drop_first(),
        )
    }
}

/// Balance non-negativity: starting from non-negative balances, any sequence
/// of balance updates in which no step allows a negative balance leaves every
/// balance non-negative after every step.
pub proof fn lemma_balance_non_negativity(s: Seq<AccountModel>, us: Seq<BalanceUpdateArgs>)
    requires
        all_balances_non_negative(s),
        forall|i: int| 0 <= i < us.len() ==> !(#[trigger] us[i]).allow_negative_balance,
    ensures
        all_balances_non_negative(apply_balance_updates(s, us)),
    decreases us.len(),
{
    if us.len() > 0 {
        let u = us[0];
        lemma_update_balance_keeps_non_negative(
            s,
            u.trader_id,
            u.account_id,
            u.delta,
            u.process_id,
            u.now_ms,
        );
        let s1 = spec_update_balance(
            s,
            u.trader_id,
            u.account_id,
            u.delta,
            u.process_id,
            u.now_ms,
            u.allow_negative_balance,
        ).0;
        assert(forall|i: int|
            0 <= i < us.drop_first().len() ==> #[trigger] us.drop_first()[i] == us[i + 1]);
        lemma_balance_non_negativity(s1, us.drop_first());
    }
}

/// After replacing the account at its lookup position by one with the same
/// key, the lookup answers the replacement.
pub proof fn lemma_find_account_after_update(
    s: Seq<AccountModel>,
    k: int,
    a2: AccountModel,
)
    requires
        0 <= k,
        find_pair_idx(s, a2.trader_id, a2.id) == k,
    ensures
        find_account(s.update(k, a2), a2.trader_id, a2.id) == Option::Some(a2),
{
    let p = of_pair(a2.trader_id, a2.id);
    lemma_first_idx(s, p);
    let s2 = s.update(k, a2);
    assert forall|j: int| 0 <= j < k implies !(p(#[trigger] s2[j])) by {
        assert(s2[j] == s[j]);
    }
    lemma_first_idx_at(s2, p, k);
}

/// The balance an optional lookup answers; zero when there is none.
pub open spec fn balance_of(o: Option<AccountModel>) -> int {
    match o {
        Option::Some(a) => a.balance,
        Option::None => 0,
    }
}

/// Idempotency: the first balance-update call under a fresh process id
/// computes and caches a response; a second call with the same process id —
/// whatever transaction id or clock reading it carries — replays that
/// response verbatim, leaves the store and the cache as they were, publishes
/// nothing, and so the balance reflects exactly one application of the delta.
pub proof fn lemma_update_balance_idempotent(
    s0: Seq<AccountModel>,
    c0: Seq<CacheEntryModel>,
    req: UpdateBalanceRequestModel,
    transaction_id1: Seq<char>,
    now_ms1: int,
    transaction_id2: Seq<char>,
    now_ms2: int,
)
    requires
        cache_wf(c0),
        cache_find(c0, req.process_id) is None,
    ensures
        ({
            let first = spec_handle_update_balance(s0, c0, req, transaction_id1, now_ms1);
            let second = spec_handle_update_balance(
                first.0,
                first.1,
                req,
                transaction_id2,
                now_ms2,
            );
            &&& second.2 == first.2
            &&& second.0 == first.0
            &&& second.1 == first.1
            &&& second.3 is None
            &&& (first.2.result == crate::RESULT_OK ==> find_account(
                s0,
                req.trader_id,
                req.account_id,
            ) is Some && find_account(second.0, req.trader_id, req.account_id) is Some
                && balance_of(find_account(second.0, req.trader_id, req.account_id)) == balance_of(
                find_account(s0, req.trader_id, req.account_id),
            ) + req.delta)
        }),
{
    let first = spec_handle_update_balance(s0, c0, req, transaction_id1, now_ms1);
    lemma_cache_set_find(c0, req.process_id, first.2);
    assert(cache_find(first.1, req.process_id) == Option::Some(first.2));
    if first.2.result == crate::RESULT_OK {
        let k = find_pair_idx(s0, req.trader_id, req.account_id);
        lemma_first_idx(s0, of_pair(req.trader_id, req.account_id));
        let res = spec_update_balance(
            s0,
            req.trader_id,
            req.account_id,
            req.delta,
            req.process_id,
            now_ms1,
            req.allow_negative_balance,
        ).1;
        assert(res is Ok) by {
            if res is Err {
                let e = res->Err_0;
                assert(first.2.result == e.code_spec());
            }
        }
        let a2 = res->Ok_0;
        lemma_find_account_after_update(s0, k, a2);
    }
}

/// Search exactness: an account is in the search result exactly when it is in
/// the store and matches every present filter.
pub proof fn lemma_search_exactness(
    s: Seq<AccountModel>,
    f: SearchAccountsModel,
    a: AccountModel,
)
    ensures
        s.filter(search_pred(f)).contains(a) <==> (s.contains(a) && matches_search(a, f)),
{
    if s.filter(search_pred(f)).contains(a) {
        s.lemma_filter_contains_rev(search_pred(f), a);
        let i = s.filter(search_pred(f)).lemma_contains_to_index(a);
        s.lemma_filter_pred(search_pred(f), i);
    }
    if s.contains(a) && matches_search(a, f) {
        let i = s.lemma_contains_to_index(a);
        s.lemma_filter_contains(search_pred(f), i);
    }
}

/// Is every dimension of the filter absent?
pub open spec fn empty_filter(f: SearchAccountsModel) -> bool {
    &&& f.trader_ids.len() == 0
    &&& f.currency is None
    &&& f.created is None
    &&& f.balance is None
    &&& f.disabled is None
}

/// An empty filter set matches every account, so the search returns the whole
/// store.
pub proof fn lemma_empty_search_returns_all(s: Seq<AccountModel>, f: SearchAccountsModel)
    requires
        empty_filter(f),
    ensures
        s.filter(search_pred(f)) == s,
    decreases s.len(),
{
    reveal(Seq::filter);
    if s.len() > 0 {
        lemma_empty_search_returns_all(s.drop_last(), f);
        assert(s.filter(search_pred(f)) =~= s);
    }
}

/// Reverse-lookup consistency, at the lookup level: whenever the pair lookup
/// finds an account of a trader, the reverse lookup by its account id alone
/// answers that trader.
pub proof fn lemma_reverse_lookup(
    s: Seq<AccountModel>,
    trader_id: Seq<char>,
    account_id: Seq<char>,
)
    requires
        store_wf(s),
        find_account(s, trader_id, account_id) is Some,
    ensures
        trader_of_account(s, account_id) == Option::Some(trader_id),
{
    crate::model::lemma_find_pair_is_find_id(s, trader_id, account_id);
    let k = find_pair_idx(s, trader_id, account_id);
    lemma_first_idx(s, of_pair(trader_id, account_id));
}

/// Reverse-lookup consistency, at the insertion level: after an account is
/// inserted, looking its id up in either direction finds it — the pair lookup
/// answers the account, the reverse lookup its trader.
pub proof fn lemma_add_account_found(s: Seq<AccountModel>, a: AccountModel)
    requires
        store_wf(s),
    ensures
        find_account(spec_add_account(s, a), a.trader_id, a.id) == Option::Some(a),
        trader_of_account(spec_add_account(s, a), a.id) == Option::Some(a.trader_id),
{
    let s2 = spec_add_account(s, a);
    let k = find_id_idx(s, a.id);
    lemma_first_idx(s, of_id(a.id));
    if k >= 0 {
        assert(s2 == s.update(k, a));
        assert forall|j: int| 0 <= j < k implies !(of_pair(a.trader_id, a.id)(
        #[trigger] s2[j])) by {
            assert(s2[j] == s[j]);
            assert(!(of_id(a.id)(s[j])));
        }
        lemma_first_idx_at(s2, of_pair(a.trader_id, a.id), k);
        assert forall|j: int| 0 <= j < k implies !(of_id(a.id)(#[trigger] s2[j])) by {
            assert(s2[j] == s[j]);
        }
        lemma_first_idx_at(s2, of_id(a.id), k);
    } else {
        assert(s2 == s.push(a));
        let n = s.len() as int;
        assert forall|j: int| 0 <= j < n implies !(of_pair(a.trader_id, a.id)(
        #[trigger] s2[j])) by {
            assert(s2[j] == s[j]);
            assert(!(of_id(a.id)(s[j])));
        }
        lemma_first_idx_at(s2, of_pair(a.trader_id, a.id), n);
        assert forall|j: int| 0 <= j < n implies !(of_id(a.id)(#[trigger] s2[j])) by {
            assert(s2[j] == s[j]);
        }
        lemma_first_idx_at(s2, of_id(a.id), n);
    }
}

/// The sum of the deltas of a sequence of balance updates.
pub open spec fn sum_deltas(us: Seq<BalanceUpdateArgs>) -> int
    decreases us.len(),
{
    if us.len() == 0 {
        0
    } else {
        us[0].delta + sum_deltas(us.drop_first())
    }
}

/// Removing one update from a sequence removes exactly its delta from the
/// sum.
proof fn lemma_sum_deltas_remove(us: Seq<BalanceUpdateArgs>, i: int)
    requires
        0 <= i < us.len(),
    ensures
        sum_deltas(us.remove(i)) == sum_deltas(us) - us[i].delta,
    decreases i,
{
    if i == 0 {
        assert(us.remove(0) =~= us.drop_first());
    } else {
        assert(us.remove(i).drop_first() =~= us.drop_first().remove(i - 1));
        assert(us.drop_first()[i - 1] == us[i]);
        lemma_sum_deltas_remove(us.drop_first(), i - 1);
        assert(us.remove(i)[0] == us[0]);
    }
}

/// The sum of the deltas does not depend on the order of the updates: two
/// sequences holding the same updates, however interleaved, sum alike.
pub proof fn lemma_sum_deltas_permutation(us1: Seq<BalanceUpdateArgs>, us2: Seq<BalanceUpdateArgs>)
    requires
        us1.to_multiset() == us2.to_multiset(),
    ensures
        sum_deltas(us1) == sum_deltas(us2),
    decreases us1.len(),
{
    us1.to_multiset_ensures();
    us2.to_multiset_ensures();
    if us1.len() == 0 {
        assert(us2.len() == 0);
    } else {
        let u = us1[0];
        assert(us1.contains(u));
        assert(us2.to_multiset().count(u) > 0);
        assert(us2.contains(u));
        let i = us2.lemma_contains_to_index(u);
        assert(us1.remove(0) =~= us1.drop_first());
        assert(us1.remove(0).to_multiset() =~= us1.to_multiset().remove(u));
        assert(us2.remove(i).to_multiset() =~= us2.to_multiset().remove(u));
        lemma_sum_deltas_remove(us2, i);
        lemma_sum_deltas_permutation(us1.drop_first(), us2.remove(i));
    }
}

/// Linearizability of balance arithmetic for one account: any sequence of
/// balance updates against the same account — every interleaving of
/// concurrent calls is such a sequence, since the store's exclusive lock
/// linearizes them — with negative balances allowed and every intermediate
/// balance within the fixed-point range, ends with the balance equal to the
/// initial balance plus the sum of all deltas, in whatever order the calls
/// were interleaved.
pub proof fn lemma_linearized_balance_sum(
    s: Seq<AccountModel>,
    us: Seq<BalanceUpdateArgs>,
    trader_id: Seq<char>,
    account_id: Seq<char>,
)
    requires
        find_account(s, trader_id, account_id) is Some,
        forall|i: int|
            0 <= i < us.len() ==> (#[trigger] us[i]).trader_id == trader_id
                && us[i].account_id == account_id && us[i].allow_negative_balance,
        forall|i: int|
            0 <= i <= us.len() ==> i64::MIN <= balance_of(
                find_account(s, trader_id, account_id),
            ) + sum_deltas(#[trigger] us.take(i)) <= i64::MAX,
    ensures
        find_account(apply_balance_updates(s, us), trader_id, account_id) is Some,
        balance_of(find_account(apply_balance_updates(s, us), trader_id, account_id))
            == balance_of(find_account(s, trader_id, account_id)) + sum_deltas(us),
    decreases us.len(),
{
    let b0 = balance_of(find_account(s, trader_id, account_id));
    if us.len() == 0 {
        assert(sum_deltas(us) == 0);
    } else {
        let u = us[0];
        let k = find_pair_idx(s, trader_id, account_id);
        lemma_first_idx(s, of_pair(trader_id, account_id));
        assert(trader_exists(s, trader_id)) by {
            assert(s[k].trader_id == trader_id);
        }
        assert(us.take(1).drop_first() =~= us.take(0));
        assert(us.take(1)[0] == u);
        assert(sum_deltas(us.take(1)) == u.delta + sum_deltas(us.take(0)));
        assert(us.take(0) =~= Seq::<BalanceUpdateArgs>::empty());
        assert(sum_deltas(us.take(0)) == 0);
        assert(i64::MIN <= b0 + u.delta <= i64::MAX);
        let step = spec_update_balance(
            s,
            u.trader_id,
            u.account_id,
            u.delta,
            u.process_id,
            u.now_ms,
            u.allow_negative_balance,
        );
        let a2 = step.1->Ok_0;
        assert(step.0 == s.update(k, a2));
        lemma_find_account_after_update(s, k, a2);
        let s1 = step.0;
        let rest = us.drop_first();
        assert(forall|i: int| 0 <= i < rest.len() ==> #[trigger] rest[i] == us[i + 1]);
        assert forall|i: int|
            0 <= i <= rest.len() implies i64::MIN <= balance_of(
            find_account(s1, trader_id, account_id),
        ) + sum_deltas(#[trigger] rest.take(i)) <= i64::MAX by {
            assert(us.take(i + 1).drop_first() =~= rest.take(i));
            assert(us.take(i + 1)[0] == u);
            assert(sum_deltas(us.take(i + 1)) == u.delta + sum_deltas(rest.take(i)));
        }
        lemma_linearized_balance_sum(s1, rest, trader_id, account_id);
        assert(us.drop_first() == rest);
        assert(sum_deltas(us) == u.delta + sum_deltas(rest));
    }
}

} // verus!
