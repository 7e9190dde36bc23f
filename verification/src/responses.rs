//! RPC-level response values. Every response carries an explicit result code:
//! zero on success, a small positive integer for a domain error.

use vstd::prelude::*;

use crate::account::{Account, AccountModel};
use crate::store::OperationError;

verus! {

/// The payload of a successful balance update: the post-update account
/// snapshot and the transaction id of the audit record.
pub struct UpdateBalanceInfo {
    pub account: Account,
    pub operation_id: String,
}

pub ghost struct UpdateBalanceInfoModel {
    pub account: AccountModel,
    pub operation_id: Seq<char>,
}

impl View for UpdateBalanceInfo {
    type V = UpdateBalanceInfoModel;

    open spec fn view(&self) -> UpdateBalanceInfoModel {
        UpdateBalanceInfoModel { account: self.account@, operation_id: self.operation_id@ }
    }
}

impl Clone for UpdateBalanceInfo {
    fn clone(&self) -> (r: Self)
        ensures
            r@ == self@,
    {
        UpdateBalanceInfo {
            account: self.account.clone(),
            operation_id: self.operation_id.clone(),
        }
    }
}

/// The response of the balance-update entry point: result code zero with the
/// update payload, or a domain-error code with no payload.
pub struct UpdateBalanceResponse {
    pub result: i32,
    pub update_balance_info: Option<UpdateBalanceInfo>,
}

pub ghost struct UpdateBalanceResponseModel {
    pub result: i32,
    pub update_balance_info: Option<UpdateBalanceInfoModel>,
}

impl View for UpdateBalanceResponse {
    type V = UpdateBalanceResponseModel;

    open spec fn view(&self) -> UpdateBalanceResponseModel {
        UpdateBalanceResponseModel {
            result: self.result,
            update_balance_info: match self.update_balance_info {
                Option::Some(i) => Option::Some(i@),
                Option::None => Option::None,
            },
        }
    }
}

impl Clone for UpdateBalanceResponse {
    fn clone(&self) -> (r: Self)
        ensures
            r@ == self@,
    {
        UpdateBalanceResponse {
            result: self.result,
            update_balance_info: match &self.update_balance_info {
                Some(i) => Some(i.clone()),
                None => None,
            },
        }
    }
}

/// The response of a point lookup: the account when it exists, the
/// account-not-found code otherwise.
pub struct GetClientAccountResponse {
    pub result: i32,
    pub account: Option<Account>,
}

pub ghost struct GetClientAccountResponseModel {
    pub result: i32,
    pub account: Option<AccountModel>,
}

impl View for GetClientAccountResponse {
    type V = GetClientAccountResponseModel;

    open spec fn view(&self) -> GetClientAccountResponseModel {
        GetClientAccountResponseModel {
            result: self.result,
            account: match self.account {
                Option::Some(a) => Option::Some(a@),
                Option::None => Option::None,
            },
        }
    }
}

/// Wraps a lookup result as a response: code zero with the account, or the
/// account-not-found code with none.
pub fn client_account_response(account: Option<Account>) -> (r: GetClientAccountResponse)
    ensures
        match account {
            Option::Some(a) => r@.result == crate::RESULT_OK && r@.account == Option::Some(a@),
            Option::None => r@.result == OperationError::AccountNotFound.code_spec() && r@.account
                is None,
        },
{
    match account {
        Some(a) => GetClientAccountResponse { result: crate::RESULT_OK, account: Some(a) },
        None => GetClientAccountResponse {
            result: OperationError::AccountNotFound.as_grpc_error(),
            account: None,
        },
    }
}

/// The response of a trading-disabled or trading-group change: code zero with
/// the post-update account, or the domain-error code with none.
pub struct UpdateTradingDisabledResponse {
    pub result: i32,
    pub account: Option<Account>,
}

pub ghost struct UpdateTradingDisabledResponseModel {
    pub result: i32,
    pub account: Option<AccountModel>,
}

impl View for UpdateTradingDisabledResponse {
    type V = UpdateTradingDisabledResponseModel;

    open spec fn view(&self) -> UpdateTradingDisabledResponseModel {
        UpdateTradingDisabledResponseModel {
            result: self.result,
            account: match self.account {
                Option::Some(a) => Option::Some(a@),
                Option::None => Option::None,
            },
        }
    }
}

} // verus!
