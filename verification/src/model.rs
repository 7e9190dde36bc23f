//! Mathematical model of the account store: lookup and well-formedness
//! specifications over a sequence of account models.
//!
//! The store holds every account in one sequence; the two-level keying by
//! `(trader_id, account_id)` is expressed by the lookup functions below, and
//! the data-model invariant that an account id is unique across all traders
//! makes the pair lookup and the reverse lookup agree.

use vstd::prelude::*;

use crate::account::AccountModel;

verus! {

/// Index of the first element satisfying `p`, or -1 when there is none.
pub open spec fn first_idx<A>(s: Seq<A>, p: spec_fn(A) -> bool) -> int
    decreases s.len(),
{
    if s.len() == 0 {
        -1
    } else if p(s[0]) {
        0
    } else {
        let r = first_idx(s.drop_first(), p);
        if r < 0 {
            -1
        } else {
            r + 1
        }
    }
}

/// `first_idx` finds the first match: it is -1 exactly when nothing matches,
/// and otherwise points at a match with no match before it.
pub proof fn lemma_first_idx<A>(s: Seq<A>, p: spec_fn(A) -> bool)
    ensures
        first_idx(s, p) == -1 ==> (forall|i: int| 0 <= i < s.len() ==> !p(#[trigger] s[i])),
        first_idx(s, p) != -1 ==> 0 <= first_idx(s, p) < s.len() && p(s[first_idx(s, p)]),
        first_idx(s, p) != -1 ==> (forall|i: int|
            0 <= i < first_idx(s, p) ==> !p(#[trigger] s[i])),
    decreases s.len(),
{
    if s.len() > 0 && !p(s[0]) {
        lemma_first_idx(s.drop_first(), p);
        assert(forall|i: int| 1 <= i < s.len() ==> #[trigger] s[i] == s.drop_first()[i - 1]);
    }
}

/// The first match is at `k` when `p` holds there and nowhere earlier.
pub proof fn lemma_first_idx_at<A>(s: Seq<A>, p: spec_fn(A) -> bool, k: int)
    requires
        0 <= k < s.len(),
        p(s[k]),
        forall|i: int| 0 <= i < k ==> !p(#[trigger] s[i]),
    ensures
        first_idx(s, p) == k,
{
    lemma_first_idx(s, p);
}

/// The predicate selecting the accounts of one trader.
pub open spec fn of_trader(trader_id: Seq<char>) -> spec_fn(AccountModel) -> bool {
    |a: AccountModel| a.trader_id == trader_id
}

/// The predicate selecting the account keyed by `(trader_id, account_id)`.
pub open spec fn of_pair(trader_id: Seq<char>, account_id: Seq<char>) -> spec_fn(
    AccountModel,
) -> bool {
    |a: AccountModel| a.trader_id == trader_id && a.id == account_id
}

/// The predicate selecting accounts by account id alone.
pub open spec fn of_id(account_id: Seq<char>) -> spec_fn(AccountModel) -> bool {
    |a: AccountModel| a.id == account_id
}

/// Does any account of the store belong to this trader?
pub open spec fn trader_exists(s: Seq<AccountModel>, trader_id: Seq<char>) -> bool {
    exists|i: int| 0 <= i < s.len() && (#[trigger] s[i]).trader_id == trader_id
}

/// Index of the account keyed by `(trader_id, account_id)`, or -1.
pub open spec fn find_pair_idx(
    s: Seq<AccountModel>,
    trader_id: Seq<char>,
    account_id: Seq<char>,
) -> int {
    first_idx(s, of_pair(trader_id, account_id))
}

/// Point lookup by `(trader_id, account_id)`.
pub open spec fn find_account(
    s: Seq<AccountModel>,
    trader_id: Seq<char>,
    account_id: Seq<char>,
) -> Option<AccountModel> {
    let k = find_pair_idx(s, trader_id, account_id);
    if k >= 0 {
        Option::Some(s[k])
    } else {
        Option::None
    }
}

/// Index of the first account with this account id under any trader, or -1.
pub open spec fn find_id_idx(s: Seq<AccountModel>, account_id: Seq<char>) -> int {
    first_idx(s, of_id(account_id))
}

/// Reverse lookup: the trader that holds the account with this id.
pub open spec fn trader_of_account(s: Seq<AccountModel>, account_id: Seq<char>) -> Option<
    Seq<char>,
> {
    let k = find_id_idx(s, account_id);
    if k >= 0 {
        Option::Some(s[k].trader_id)
    } else {
        Option::None
    }
}

/// All accounts of one trader, in store order.
pub open spec fn accounts_of_trader(s: Seq<AccountModel>, trader_id: Seq<char>) -> Seq<
    AccountModel,
> {
    s.filter(of_trader(trader_id))
}

/// Store well-formedness: an account id occurs at most once, across all
/// traders.
pub open spec fn store_wf(s: Seq<AccountModel>) -> bool {
    forall|i: int, j: int|
        0 <= i < j < s.len() ==> (#[trigger] s[i]).id != (#[trigger] s[j]).id
}

/// In a well-formed store the pair lookup, when it succeeds, agrees with the
/// lookup by account id alone.
pub proof fn lemma_find_pair_is_find_id(
    s: Seq<AccountModel>,
    trader_id: Seq<char>,
    account_id: Seq<char>,
)
    requires
        store_wf(s),
        find_pair_idx(s, trader_id, account_id) >= 0,
    ensures
        find_id_idx(s, account_id) == find_pair_idx(s, trader_id, account_id),
{
    let k = find_pair_idx(s, trader_id, account_id);
    lemma_first_idx(s, of_pair(trader_id, account_id));
    assert forall|i: int| 0 <= i < k implies !(of_id(account_id)(#[trigger] s[i])) by {
        assert(s[i].id != s[k].id);
    }
    lemma_first_idx_at(s, of_id(account_id), k);
}

/// Filtering by predicate one step at a time: the filter of a prefix grows by
/// the next element exactly when the predicate holds of it.
pub proof fn lemma_filter_take_step<A>(s: Seq<A>, p: spec_fn(A) -> bool, i: int)
    requires
        0 <= i < s.len(),
    ensures
        s.take(i + 1).filter(p) == if p(s[i]) {
            s.take(i).filter(p).push(s[i])
        } else {
            s.take(i).filter(p)
        },
{
    reveal(Seq::filter);
    assert(s.take(i + 1).drop_last() =~= s.take(i));
    assert(s.take(i + 1).last() == s[i]);
}

/// The filter of the whole sequence, reached from the full-length prefix.
pub proof fn lemma_filter_take_all<A>(s: Seq<A>, p: spec_fn(A) -> bool)
    ensures
        s.take(s.len() as int).filter(p) == s.filter(p),
{
    assert(s.take(s.len() as int) =~= s);
}

/// The predicate selecting the accounts of one trading group.
pub open spec fn of_group(trading_group: Seq<char>) -> spec_fn(AccountModel) -> bool {
    |a: AccountModel| a.trading_group == trading_group
}

/// All accounts of one trading group, in store order.
pub open spec fn accounts_of_group(s: Seq<AccountModel>, trading_group: Seq<char>) -> Seq<
    AccountModel,
> {
    s.filter(of_group(trading_group))
}

/// The accounts of a list of traders, bucket by bucket, in list order.
pub open spec fn concat_buckets(s: Seq<AccountModel>, trader_ids: Seq<Seq<char>>) -> Seq<
    AccountModel,
>
    decreases trader_ids.len(),
{
    if trader_ids.len() == 0 {
        Seq::empty()
    } else {
        concat_buckets(s, trader_ids.drop_last()) + accounts_of_trader(s, trader_ids.last())
    }
}

/// Replacing an account by one with the same id preserves the uniqueness of
/// account ids.
pub proof fn lemma_wf_update_same_id(s: Seq<AccountModel>, k: int, a2: AccountModel)
    requires
        store_wf(s),
        0 <= k < s.len(),
        a2.id == s[k].id,
    ensures
        store_wf(s.update(k, a2)),
{
    let s2 = s.update(k, a2);
    assert forall|x: int, y: int| 0 <= x < y < s2.len() implies (#[trigger] s2[x]).id != (
    #[trigger] s2[y]).id by {
        assert(s2[x].id == s[x].id);
        assert(s2[y].id == s[y].id);
        assert(s[x].id != s[y].id);
    }
}

/// Element-wise mapping commutes with replacing one element.
pub proof fn lemma_map_values_update<A, B>(s: Seq<A>, k: int, a: A, f: spec_fn(A) -> B)
    requires
        0 <= k < s.len(),
    ensures
        s.update(k, a).map_values(f) =~= s.map_values(f).update(k, f(a)),
{
    assert forall|j: int| 0 <= j < s.len() implies #[trigger] s.update(k, a).map_values(f)[j]
        == s.map_values(f).update(k, f(a))[j] by {
        if j != k {
            assert(s.update(k, a)[j] == s[j]);
        }
    }
}

/// A filter is empty exactly when no element matches.
pub proof fn lemma_filter_empty_iff_no_match<A>(s: Seq<A>, p: spec_fn(A) -> bool)
    ensures
        (s.filter(p).len() == 0) <==> (forall|i: int| 0 <= i < s.len() ==> !p(#[trigger] s[i])),
    decreases s.len(),
{
    reveal(Seq::filter);
    if s.len() > 0 {
        lemma_filter_empty_iff_no_match(s.drop_last(), p);
        assert(forall|i: int| 0 <= i < s.len() - 1 ==> #[trigger] s[i] == s.drop_last()[i]);
        assert(s.last() == s[s.len() - 1]);
    }
}

} // verus!
