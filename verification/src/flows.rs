//! The mutation flows behind the RPC surface: account creation with its
//! defaults, the balance-update flow with its idempotency gate and audit
//! record, the trading-disabled and trading-group changes, and the implicit
//! provisioning of the "my accounts" read path.
//!
//! Each entry point is a function of the store (and, for balance updates, the
//! idempotency cache), the request, a fresh transaction id and the current
//! time; it returns the response together with the event to publish, if the
//! mutation committed. The caller performs the publication and holds the
//! locks.

use vstd::prelude::*;

use crate::account::{Account, AccountModel, MetadataItemModel};
use crate::events::{
    opt_event_view, operation_type_of, spec_operation_type_of, AccountEvent, AccountEventModel,
    BalanceOperation, BalanceOperationModel, UpdateBalanceReason,
};
use crate::model::{accounts_of_trader, store_wf, trader_exists};
use crate::process_id_cache::{cache_find, cache_set, cache_wf, CacheEntryModel, ProcessIdCache};
use crate::responses::{
    UpdateBalanceInfo, UpdateBalanceInfoModel, UpdateBalanceResponse, UpdateBalanceResponseModel,
    UpdateTradingDisabledResponse, UpdateTradingDisabledResponseModel,
};
use crate::store::{
    spec_add_account, spec_update_balance, spec_update_trading_disabled, spec_update_trading_group,
    AccountsStore, OperationError,
};

verus! {

/// The configured defaults a new account is filled from.
pub struct AccountDefaults {
    pub default_account_balance: i64,
    pub default_account_trading_group: String,
    pub accounts_default_currency: Option<String>,
}

pub ghost struct AccountDefaultsModel {
    pub default_account_balance: int,
    pub default_account_trading_group: Seq<char>,
    pub accounts_default_currency: Option<Seq<char>>,
}

impl View for AccountDefaults {
    type V = AccountDefaultsModel;

    open spec fn view(&self) -> AccountDefaultsModel {
        AccountDefaultsModel {
            default_account_balance: self.default_account_balance as int,
            default_account_trading_group: self.default_account_trading_group@,
            accounts_default_currency: crate::events::opt_str_view(self.accounts_default_currency),
        }
    }
}

/// An account-creation request.
pub struct CreateAccountRequest {
    pub trader_id: String,
    pub currency: String,
    pub process_id: String,
    pub trading_group_id: Option<String>,
}

pub ghost struct CreateAccountRequestModel {
    pub trader_id: Seq<char>,
    pub currency: Seq<char>,
    pub process_id: Seq<char>,
    pub trading_group_id: Option<Seq<char>>,
}

impl View for CreateAccountRequest {
    type V = CreateAccountRequestModel;

    open spec fn view(&self) -> CreateAccountRequestModel {
        CreateAccountRequestModel {
            trader_id: self.trader_id@,
            currency: self.currency@,
            process_id: self.process_id@,
            trading_group_id: crate::events::opt_str_view(self.trading_group_id),
        }
    }
}

/// A balance-update request.
pub struct UpdateBalanceRequest {
    pub trader_id: String,
    pub account_id: String,
    pub delta: i64,
    pub process_id: String,
    pub allow_negative_balance: bool,
    pub comment: String,
    pub reason: UpdateBalanceReason,
    pub reference_transaction_id: Option<String>,
}

pub ghost struct UpdateBalanceRequestModel {
    pub trader_id: Seq<char>,
    pub account_id: Seq<char>,
    pub delta: int,
    pub process_id: Seq<char>,
    pub allow_negative_balance: bool,
    pub comment: Seq<char>,
    pub reason: UpdateBalanceReason,
    pub reference_transaction_id: Option<Seq<char>>,
}

impl View for UpdateBalanceRequest {
    type V = UpdateBalanceRequestModel;

    open spec fn view(&self) -> UpdateBalanceRequestModel {
        UpdateBalanceRequestModel {
            trader_id: self.trader_id@,
            account_id: self.account_id@,
            delta: self.delta as int,
            process_id: self.process_id@,
            allow_negative_balance: self.allow_negative_balance,
            comment: self.comment@,
            reason: self.reason,
            reference_transaction_id: crate::events::opt_str_view(
                self.reference_transaction_id,
            ),
        }
    }
}

/// A trading-disabled change request.
pub struct UpdateTradingDisabledRequest {
    pub trader_id: String,
    pub account_id: String,
    pub trading_disabled: bool,
    pub process_id: String,
}

pub ghost struct UpdateTradingDisabledRequestModel {
    pub trader_id: Seq<char>,
    pub account_id: Seq<char>,
    pub trading_disabled: bool,
    pub process_id: Seq<char>,
}

impl View for UpdateTradingDisabledRequest {
    type V = UpdateTradingDisabledRequestModel;

    open spec fn view(&self) -> UpdateTradingDisabledRequestModel {
        UpdateTradingDisabledRequestModel {
            trader_id: self.trader_id@,
            account_id: self.account_id@,
            trading_disabled: self.trading_disabled,
            process_id: self.process_id@,
        }
    }
}

/// A trading-group change request.
pub struct UpdateTradingGroupRequest {
    pub trader_id: String,
    pub account_id: String,
    pub new_trading_group: String,
    pub process_id: String,
}

pub ghost struct UpdateTradingGroupRequestModel {
    pub trader_id: Seq<char>,
    pub account_id: Seq<char>,
    pub new_trading_group: Seq<char>,
    pub process_id: Seq<char>,
}

impl View for UpdateTradingGroupRequest {
    type V = UpdateTradingGroupRequestModel;

    open spec fn view(&self) -> UpdateTradingGroupRequestModel {
        UpdateTradingGroupRequestModel {
            trader_id: self.trader_id@,
            account_id: self.account_id@,
            new_trading_group: self.new_trading_group@,
            process_id: self.process_id@,
        }
    }
}

/// The account a creation request produces: the configured default balance,
/// trading enabled, creation and update stamps both at `now_ms`, the group
/// from the request or the configured default, and no metadata.
pub open spec fn spec_new_account(
    req: CreateAccountRequestModel,
    defaults: AccountDefaultsModel,
    new_account_id: Seq<char>,
    now_ms: int,
) -> AccountModel {
    AccountModel {
        id: new_account_id,
        currency: req.currency,
        trader_id: req.trader_id,
        create_date: now_ms,
        last_update_date: now_ms,
        last_update_process_id: req.process_id,
        balance: defaults.default_account_balance,
        trading_disabled: false,
        create_process_id: req.process_id,
        trading_group: match req.trading_group_id {
            Option::Some(g) => g,
            Option::None => defaults.default_account_trading_group,
        },
        metadata: Seq::empty(),
    }
}

/// Creates an account: allocates it from the request and the defaults, stores
/// it, and yields the creation event to publish. Returns the stored account.
pub fn create_account(
    store: &mut AccountsStore,
    req: &CreateAccountRequest,
    defaults: &AccountDefaults,
    new_account_id: String,
    now_ms: u64,
) -> (r: (Account, AccountEvent))
    requires
        store_wf(old(store)@),
    ensures
        store_wf(final(store)@),
        r.0@ == spec_new_account(req@, defaults@, new_account_id@, now_ms as int),
        final(store)@ == spec_add_account(old(store)@, r.0@),
        r.1@ == AccountEventModel::Created(r.0@),
{
    let account = Account {
        id: new_account_id,
        currency: req.currency.clone(),
        trader_id: req.trader_id.clone(),
        create_date: now_ms,
        last_update_date: now_ms,
        last_update_process_id: req.process_id.clone(),
        balance: defaults.default_account_balance,
        trading_disabled: false,
        create_process_id: req.process_id.clone(),
        trading_group: match &req.trading_group_id {
            Some(g) => g.clone(),
            None => defaults.default_account_trading_group.clone(),
        },
        metadata: Vec::new(),
    };
    proof {
        assert(account@.metadata =~= Seq::<MetadataItemModel>::empty());
    }
    let inserted = store.add_account(account);
    let for_event = inserted.clone();
    let event = AccountEvent::Created(for_event);
    (inserted, event)
}

/// The audit operation record of one committed balance change.
pub open spec fn spec_balance_operation(
    req: UpdateBalanceRequestModel,
    transaction_id: Seq<char>,
    now_ms: int,
) -> BalanceOperationModel {
    BalanceOperationModel {
        id: transaction_id,
        trader_id: req.trader_id,
        account_id: req.account_id,
        operation_type: spec_operation_type_of(req.reason),
        process_id: Option::Some(req.process_id),
        delta: req.delta,
        date_time_unix_ms: now_ms,
        comment: Option::Some(req.comment),
        reference_operation_id: req.reference_transaction_id,
    }
}

/// The store transition a balance-update request asks for.
pub open spec fn spec_flow_update_balance(
    s: Seq<AccountModel>,
    req: UpdateBalanceRequestModel,
    now_ms: int,
) -> (Seq<AccountModel>, Result<AccountModel, OperationError>) {
    spec_update_balance(
        s,
        req.trader_id,
        req.account_id,
        req.delta,
        req.process_id,
        now_ms,
        req.allow_negative_balance,
    )
}

/// The balance mutation flow: mutates the store and, on success, wraps the
/// post-update snapshot and the audit operation record into the update event
/// to publish. On a domain error nothing is mutated and no event is produced.
pub fn update_balance(
    store: &mut AccountsStore,
    req: &UpdateBalanceRequest,
    transaction_id: String,
    now_ms: u64,
) -> (r: Result<(Account, AccountEvent), OperationError>)
    requires
        store_wf(old(store)@),
    ensures
        store_wf(final(store)@),
        final(store)@ == spec_flow_update_balance(old(store)@, req@, now_ms as int).0,
        match r {
            Result::Ok(p) => spec_flow_update_balance(old(store)@, req@, now_ms as int).1
                == Result::<AccountModel, OperationError>::Ok(p.0@) && p.1@
                == AccountEventModel::Updated(
                p.0@,
                Option::Some(spec_balance_operation(req@, transaction_id@, now_ms as int)),
            ),
            Result::Err(e) => spec_flow_update_balance(old(store)@, req@, now_ms as int).1
                == Result::<AccountModel, OperationError>::Err(e),
        },
{
    let result = store.update_balance(
        &req.trader_id,
        &req.account_id,
        req.delta,
        &req.process_id,
        req.allow_negative_balance,
        now_ms,
    );
    match result {
        Ok(account) => {
            let operation = BalanceOperation {
                id: transaction_id,
                trader_id: req.trader_id.clone(),
                account_id: req.account_id.clone(),
                operation_type: operation_type_of(req.reason),
                process_id: Some(req.process_id.clone()),
                delta: req.delta,
                date_time_unix_ms: now_ms,
                comment: Some(req.comment.clone()),
                reference_operation_id: match &req.reference_transaction_id {
                    Some(x) => Some(x.clone()),
                    None => None,
                },
            };
            let snapshot = account.clone();
            let event = AccountEvent::Updated(account, Some(operation));
            Ok((snapshot, event))
        },
        Err(e) => Err(e),
    }
}

/// Linearized semantics of one balance-update call over the store and cache
/// models. A cache hit replays the stored response verbatim and changes
/// nothing; a miss runs the mutation, builds the response, caches it under
/// the caller's process id — success and domain error alike — and yields an
/// event exactly when the mutation committed.
pub open spec fn spec_handle_update_balance(
    s: Seq<AccountModel>,
    c: Seq<CacheEntryModel>,
    req: UpdateBalanceRequestModel,
    transaction_id: Seq<char>,
    now_ms: int,
) -> (Seq<AccountModel>, Seq<CacheEntryModel>, UpdateBalanceResponseModel, Option<
    AccountEventModel,
>) {
    match cache_find(c, req.process_id) {
        Option::Some(resp) => (s, c, resp, Option::<AccountEventModel>::None),
        Option::None => {
            let (s2, res) = spec_flow_update_balance(s, req, now_ms);
            match res {
                Result::Ok(a) => {
                    let resp = UpdateBalanceResponseModel {
                        result: crate::RESULT_OK,
                        update_balance_info: Option::Some(
                            UpdateBalanceInfoModel { account: a, operation_id: transaction_id },
                        ),
                    };
                    (
                        s2,
                        cache_set(c, req.process_id, resp),
                        resp,
                        Option::Some(
                            AccountEventModel::Updated(
                                a,
                                Option::Some(spec_balance_operation(req, transaction_id, now_ms)),
                            ),
                        ),
                    )
                },
                Result::Err(e) => {
                    let resp = UpdateBalanceResponseModel {
                        result: e.code_spec(),
                        update_balance_info: Option::None,
                    };
                    (s2, cache_set(c, req.process_id, resp), resp, Option::None)
                },
            }
        },
    }
}

/// The balance-update entry point: the idempotency gate, the mutation flow,
/// the response, and the caching of the response under the process id.
/// Returns the response and the event to publish, if any.
pub fn update_client_account_balance(
    store: &mut AccountsStore,
    cache: &mut ProcessIdCache,
    req: &UpdateBalanceRequest,
    transaction_id: String,
    now_ms: u64,
) -> (r: (UpdateBalanceResponse, Option<AccountEvent>))
    requires
        store_wf(old(store)@),
        cache_wf(old(cache)@),
    ensures
        store_wf(final(store)@),
        cache_wf(final(cache)@),
        final(store)@ == spec_handle_update_balance(
            old(store)@,
            old(cache)@,
            req@,
            transaction_id@,
            now_ms as int,
        ).0,
        final(cache)@ == spec_handle_update_balance(
            old(store)@,
            old(cache)@,
            req@,
            transaction_id@,
            now_ms as int,
        ).1,
        r.0@ == spec_handle_update_balance(
            old(store)@,
            old(cache)@,
            req@,
            transaction_id@,
            now_ms as int,
        ).2,
        opt_event_view(r.1) == spec_handle_update_balance(
            old(store)@,
            old(cache)@,
            req@,
            transaction_id@,
            now_ms as int,
        ).3,
{
    match cache.get(&req.process_id) {
        Some(resp) => (resp, None),
        None => {
            let result = update_balance(store, req, transaction_id.clone(), now_ms);
            match result {
                Ok(p) => {
                    let (account, event) = p;
                    let response = UpdateBalanceResponse {
                        result: crate::RESULT_OK,
                        update_balance_info: Some(
                            UpdateBalanceInfo { account, operation_id: transaction_id },
                        ),
                    };
                    cache.set(&req.process_id, response.clone());
                    (response, Some(event))
                },
                Err(e) => {
                    let response = UpdateBalanceResponse {
                        result: e.as_grpc_error(),
                        update_balance_info: None,
                    };
                    cache.set(&req.process_id, response.clone());
                    (response, None)
                },
            }
        },
    }
}

/// The response and event of a trading-disabled change: no idempotency gate,
/// and the update event carries no operation record.
pub open spec fn spec_handle_trading_disabled(
    s: Seq<AccountModel>,
    req: UpdateTradingDisabledRequestModel,
    now_ms: int,
) -> (Seq<AccountModel>, UpdateTradingDisabledResponseModel, Option<AccountEventModel>) {
    let (s2, res) = spec_update_trading_disabled(
        s,
        req.trader_id,
        req.account_id,
        req.trading_disabled,
        req.process_id,
        now_ms,
    );
    match res {
        Result::Ok(a) => (
            s2,
            UpdateTradingDisabledResponseModel {
                result: crate::RESULT_OK,
                account: Option::Some(a),
            },
            Option::Some(AccountEventModel::Updated(a, Option::None)),
        ),
        Result::Err(e) => (
            s2,
            UpdateTradingDisabledResponseModel { result: e.code_spec(), account: Option::None },
            Option::<AccountEventModel>::None,
        ),
    }
}

/// The trading-disabled entry point.
pub fn update_account_trading_disabled(
    store: &mut AccountsStore,
    req: &UpdateTradingDisabledRequest,
    now_ms: u64,
) -> (r: (UpdateTradingDisabledResponse, Option<AccountEvent>))
    requires
        store_wf(old(store)@),
    ensures
        store_wf(final(store)@),
        final(store)@ == spec_handle_trading_disabled(old(store)@, req@, now_ms as int).0,
        r.0@ == spec_handle_trading_disabled(old(store)@, req@, now_ms as int).1,
        opt_event_view(r.1) == spec_handle_trading_disabled(old(store)@, req@, now_ms as int).2,
{
    let result = store.update_trading_disabled(
        &req.trader_id,
        &req.account_id,
        req.trading_disabled,
        &req.process_id,
        now_ms,
    );
    match result {
        Ok(account) => {
            let for_event = account.clone();
            let response = UpdateTradingDisabledResponse {
                result: crate::RESULT_OK,
                account: Some(account),
            };
            (response, Some(AccountEvent::Updated(for_event, None)))
        },
        Err(e) => {
            let response = UpdateTradingDisabledResponse {
                result: e.as_grpc_error(),
                account: None,
            };
            (response, None)
        },
    }
}

/// The response and event of a trading-group change: same shape as the
/// trading-disabled change.
pub open spec fn spec_handle_trading_group(
    s: Seq<AccountModel>,
    req: UpdateTradingGroupRequestModel,
    now_ms: int,
) -> (Seq<AccountModel>, UpdateTradingDisabledResponseModel, Option<AccountEventModel>) {
    let (s2, res) = spec_update_trading_group(
        s,
        req.trader_id,
        req.account_id,
        req.new_trading_group,
        req.process_id,
        now_ms,
    );
    match res {
        Result::Ok(a) => (
            s2,
            UpdateTradingDisabledResponseModel {
                result: crate::RESULT_OK,
                account: Option::Some(a),
            },
            Option::Some(AccountEventModel::Updated(a, Option::None)),
        ),
        Result::Err(e) => (
            s2,
            UpdateTradingDisabledResponseModel { result: e.code_spec(), account: Option::None },
            Option::<AccountEventModel>::None,
        ),
    }
}

/// The trading-group entry point; it answers with the same response shape as
/// the trading-disabled change.
pub fn update_account_trading_group(
    store: &mut AccountsStore,
    req: &UpdateTradingGroupRequest,
    now_ms: u64,
) -> (r: (UpdateTradingDisabledResponse, Option<AccountEvent>))
    requires
        store_wf(old(store)@),
    ensures
        store_wf(final(store)@),
        final(store)@ == spec_handle_trading_group(old(store)@, req@, now_ms as int).0,
        r.0@ == spec_handle_trading_group(old(store)@, req@, now_ms as int).1,
        opt_event_view(r.1) == spec_handle_trading_group(old(store)@, req@, now_ms as int).2,
{
    let result = store.update_trading_group(
        &req.trader_id,
        &req.account_id,
        &req.new_trading_group,
        &req.process_id,
        now_ms,
    );
    match result {
        Ok(account) => {
            let for_event = account.clone();
            let response = UpdateTradingDisabledResponse {
                result: crate::RESULT_OK,
                account: Some(account),
            };
            (response, Some(AccountEvent::Updated(for_event, None)))
        },
        Err(e) => {
            let response = UpdateTradingDisabledResponse {
                result: e.as_grpc_error(),
                account: None,
            };
            (response, None)
        },
    }
}

/// The "my accounts" read path and its implicit provisioning: a trader with
/// accounts gets them; one with none and a configured default currency
/// silently gets an account of that currency created, and that account alone
/// comes back with its creation event; otherwise the list is empty.
pub open spec fn spec_get_client_accounts(
    s: Seq<AccountModel>,
    trader_id: Seq<char>,
    defaults: AccountDefaultsModel,
    provision_account_id: Seq<char>,
    provision_process_id: Seq<char>,
    now_ms: int,
) -> (Seq<AccountModel>, Seq<AccountModel>, Option<AccountEventModel>) {
    if trader_exists(s, trader_id) {
        (s, accounts_of_trader(s, trader_id), Option::<AccountEventModel>::None)
    } else {
        match defaults.accounts_default_currency {
            Option::Some(currency) => {
                let req = CreateAccountRequestModel {
                    trader_id,
                    currency,
                    process_id: provision_process_id,
                    trading_group_id: Option::None,
                };
                let a = spec_new_account(req, defaults, provision_account_id, now_ms);
                (spec_add_account(s, a), seq![a], Option::Some(AccountEventModel::Created(a)))
            },
            Option::None => (
                s,
                Seq::<AccountModel>::empty(),
                Option::<AccountEventModel>::None,
            ),
        }
    }
}

/// The "my accounts" entry point. The provisioning id and process id are used
/// only when a default-currency account has to be created.
pub fn get_client_accounts(
    store: &mut AccountsStore,
    trader_id: &String,
    defaults: &AccountDefaults,
    provision_account_id: String,
    provision_process_id: String,
    now_ms: u64,
) -> (r: (Vec<Account>, Option<AccountEvent>))
    requires
        store_wf(old(store)@),
    ensures
        store_wf(final(store)@),
        final(store)@ == spec_get_client_accounts(
            old(store)@,
            trader_id@,
            defaults@,
            provision_account_id@,
            provision_process_id@,
            now_ms as int,
        ).0,
        r.0@.map_values(|a: Account| a@) == spec_get_client_accounts(
            old(store)@,
            trader_id@,
            defaults@,
            provision_account_id@,
            provision_process_id@,
            now_ms as int,
        ).1,
        opt_event_view(r.1) == spec_get_client_accounts(
            old(store)@,
            trader_id@,
            defaults@,
            provision_account_id@,
            provision_process_id@,
            now_ms as int,
        ).2,
{
    match store.get_accounts(trader_id) {
        Some(accounts) => (accounts, None),
        None => {
            match &defaults.accounts_default_currency {
                Some(currency) => {
                    let req = CreateAccountRequest {
                        trader_id: trader_id.clone(),
                        currency: currency.clone(),
                        process_id: provision_process_id,
                        trading_group_id: None,
                    };
                    let (account, event) = create_account(
                        store,
                        &req,
                        defaults,
                        provision_account_id,
                        now_ms,
                    );
                    let ghost a_model = account@;
                    let mut out: Vec<Account> = Vec::new();
                    out.push(account);
                    proof {
                        assert(out@.map_values(|a: Account| a@) =~= seq![a_model]);
                    }
                    (out, Some(event))
                },
                None => {
                    let out: Vec<Account> = Vec::new();
                    proof {
                        assert(out@.map_values(|a: Account| a@) =~= Seq::<AccountModel>::empty());
                    }
                    (out, None)
                },
            }
        },
    }
}

/// The point-lookup entry point: the account wrapped in a response, or the
/// account-not-found code.
pub fn get_client_account(
    store: &AccountsStore,
    trader_id: &String,
    account_id: &String,
) -> (r: crate::responses::GetClientAccountResponse)
    ensures
        match crate::model::find_account(store@, trader_id@, account_id@) {
            Option::Some(a) => r@.result == crate::RESULT_OK && r@.account == Option::Some(a),
            Option::None => r@.result == OperationError::AccountNotFound.code_spec() && r@.account
                is None,
        },
{
    crate::responses::client_account_response(store.get_account(trader_id, account_id))
}

/// Flattens an optional account list: a missing result degrades to the empty
/// list, as the stream-producing endpoints answer an empty stream.
pub fn get_accounts_vector(accounts: Option<Vec<Account>>) -> (r: Vec<Account>)
    ensures
        match accounts {
            Option::Some(v) => r == v,
            Option::None => r@.len() == 0,
        },
{
    match accounts {
        Some(v) => v,
        None => Vec::new(),
    }
}

} // verus!
