//! The account entity: the balance record with its metadata, and its
//! mathematical model.
//!
//! Balances are fixed-point amounts held in an `i64` (the smallest currency
//! unit), so that balance arithmetic is exact and free of rounding drift.

use vstd::prelude::*;

verus! {

/// One key/value entry of an account's open-ended metadata list.
#[derive(Debug)]
pub struct MetadataItem {
    pub key: String,
    pub value: String,
}

/// Model of a metadata entry: both strings as character sequences.
pub ghost struct MetadataItemModel {
    pub key: Seq<char>,
    pub value: Seq<char>,
}

impl View for MetadataItem {
    type V = MetadataItemModel;

    open spec fn view(&self) -> MetadataItemModel {
        MetadataItemModel { key: self.key@, value: self.value@ }
    }
}

impl Clone for MetadataItem {
    fn clone(&self) -> (r: Self)
        ensures
            r == *self,
    {
        MetadataItem { key: self.key.clone(), value: self.value.clone() }
    }
}

/// A trading account: a balance-bearing entity scoped to one trader and one
/// currency, uniquely identified by `(trader_id, id)`, with `id` also unique
/// across all traders.
#[derive(Debug)]
pub struct Account {
    pub id: String,
    pub currency: String,
    pub trader_id: String,
    pub create_date: u64,
    pub last_update_date: u64,
    pub last_update_process_id: String,
    pub balance: i64,
    pub trading_disabled: bool,
    pub create_process_id: String,
    pub trading_group: String,
    pub metadata: Vec<MetadataItem>,
}

/// Mathematical model of an account: strings as character sequences and
/// numbers as unbounded integers.
pub ghost struct AccountModel {
    pub id: Seq<char>,
    pub currency: Seq<char>,
    pub trader_id: Seq<char>,
    pub create_date: int,
    pub last_update_date: int,
    pub last_update_process_id: Seq<char>,
    pub balance: int,
    pub trading_disabled: bool,
    pub create_process_id: Seq<char>,
    pub trading_group: Seq<char>,
    pub metadata: Seq<MetadataItemModel>,
}

impl View for Account {
    type V = AccountModel;

    open spec fn view(&self) -> AccountModel {
        AccountModel {
            id: self.id@,
            currency: self.currency@,
            trader_id: self.trader_id@,
            create_date: self.create_date as int,
            last_update_date: self.last_update_date as int,
            last_update_process_id: self.last_update_process_id@,
            balance: self.balance as int,
            trading_disabled: self.trading_disabled,
            create_process_id: self.create_process_id@,
            trading_group: self.trading_group@,
            metadata: self.metadata@.map_values(|m: MetadataItem| m@),
        }
    }
}

impl Clone for Account {
    fn clone(&self) -> (r: Self)
        ensures
            r@ == self@,
    {
        let mut metadata: Vec<MetadataItem> = Vec::new();
        let mut j: usize = 0;
        while j < self.metadata.len()
            invariant
                j <= self.metadata.len(),
                metadata@ == self.metadata@.take(j as int),
            decreases self.metadata.len() - j,
        {
            metadata.push(self.metadata[j].clone());
            proof {
                assert(metadata@ =~= self.metadata@.take(j as int + 1));
            }
            j = j + 1;
        }
        proof {
            assert(metadata@ =~= self.metadata@);
        }
        Account {
            id: self.id.clone(),
            currency: self.currency.clone(),
            trader_id: self.trader_id.clone(),
            create_date: self.create_date,
            last_update_date: self.last_update_date,
            last_update_process_id: self.last_update_process_id.clone(),
            balance: self.balance,
            trading_disabled: self.trading_disabled,
            create_process_id: self.create_process_id.clone(),
            trading_group: self.trading_group.clone(),
            metadata,
        }
    }
}

/// The view of an optional account, for contracts over `Option<Account>`
/// results.
pub open spec fn opt_account_view(r: Option<Account>) -> Option<AccountModel> {
    match r {
        Option::None => Option::None,
        Option::Some(a) => Option::Some(a@),
    }
}

} // verus!
