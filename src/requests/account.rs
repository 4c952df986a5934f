//! Requests about accounts.

use vstd::prelude::*;

use crate::bundle::{ParamValue, RequestBundle, ValueView};
use super::{
    entry,
    opt_entry,
    put,
    put_opt,
    text_value,
    int32_value,
    int_value,
    bool_value,
    texts_value,
    opt_text,
    opt_int32,
    opt_int,
    opt_bool,
    opt_texts,
};

verus! {

/// The parameters of an account listing that no registered operation takes yet.
#[derive(Debug)]
pub struct TokenAccountsRequest {
    pub account: String,
    pub page: Option<i32>,
    pub page_size: Option<i32>,
}

/// The parameters of an account listing that no registered operation takes yet.
#[derive(Debug)]
pub struct DefiActivitiesRequest {
    pub account: String,
    pub page: Option<i32>,
    pub page_size: Option<i32>,
    pub before_tx: Option<String>,
}

/// The parameters of `balance_change`.
#[derive(Debug)]
pub struct BalanceChangeRequest {
    /// Sent under the key `address`.
    pub account: String,
    pub token_account: Option<String>,
    pub token: Option<String>,
    pub from_time: Option<i64>,
    pub to_time: Option<i64>,
    pub page: Option<i32>,
    pub page_size: Option<i32>,
    pub remove_spam: Option<String>,
    pub amount: Option<Vec<String>>,
    pub flow: Option<String>,
    pub sort_by: Option<String>,
    pub sort_order: Option<String>,
    pub before_tx: Option<String>,
}

impl BalanceChangeRequest {
    /// The bundle of the supplied parameters, in declaration order.
    pub fn into_bundle(self) -> (r: RequestBundle)
        ensures
            r@ == entry("address"@, ValueView::Text(self.account@))
                + opt_entry("token_account"@, opt_text(self.token_account))
                + opt_entry("token"@, opt_text(self.token))
                + opt_entry("from_time"@, opt_int(self.from_time))
                + opt_entry("to_time"@, opt_int(self.to_time))
                + opt_entry("page"@, opt_int32(self.page))
                + opt_entry("page_size"@, opt_int32(self.page_size))
                + opt_entry("remove_spam"@, opt_text(self.remove_spam))
                + opt_entry("amount"@, opt_texts(self.amount))
                + opt_entry("flow"@, opt_text(self.flow))
                + opt_entry("sort_by"@, opt_text(self.sort_by))
                + opt_entry("sort_order"@, opt_text(self.sort_order))
                + opt_entry("before_tx"@, opt_text(self.before_tx)),
    {
        let mut b = RequestBundle::new();
        put(&mut b, "address", ParamValue::Text(self.account));
        assert(b@ =~= entry("address"@, ValueView::Text(self.account@)));
        put_opt(&mut b, "token_account", text_value(self.token_account));
        put_opt(&mut b, "token", text_value(self.token));
        put_opt(&mut b, "from_time", int_value(self.from_time));
        put_opt(&mut b, "to_time", int_value(self.to_time));
        put_opt(&mut b, "page", int32_value(self.page));
        put_opt(&mut b, "page_size", int32_value(self.page_size));
        put_opt(&mut b, "remove_spam", text_value(self.remove_spam));
        put_opt(&mut b, "amount", texts_value(self.amount));
        put_opt(&mut b, "flow", text_value(self.flow));
        put_opt(&mut b, "sort_by", text_value(self.sort_by));
        put_opt(&mut b, "sort_order", text_value(self.sort_order));
        put_opt(&mut b, "before_tx", text_value(self.before_tx));
        b
    }
}

/// The parameters of `account_detail`.
#[derive(Debug)]
pub struct AccountDetailRequest {
    pub address: String,
}

impl AccountDetailRequest {
    /// The bundle of the supplied parameters, in declaration order.
    pub fn into_bundle(self) -> (r: RequestBundle)
        ensures
            r@ == entry("address"@, ValueView::Text(self.address@)),
    {
        let mut b = RequestBundle::new();
        put(&mut b, "address", ParamValue::Text(self.address));
        assert(b@ =~= entry("address"@, ValueView::Text(self.address@)));
        b
    }
}

/// The parameters of `account_transfer`.
#[derive(Debug)]
pub struct AccountTransferRequest {
    pub address: String,
    pub activity_type: Option<Vec<String>>,
    pub token_account: Option<String>,
    pub from: Option<String>,
    pub to: Option<String>,
    pub token: Option<String>,
    pub amount: Option<Vec<String>>,
    pub from_time: Option<i64>,
    pub to_time: Option<i64>,
    pub exclude_amount_zero: Option<bool>,
    pub flow: Option<String>,
    pub page: Option<i32>,
    pub page_size: Option<i32>,
    pub sort_by: Option<String>,
    pub sort_order: Option<String>,
    pub value: Option<Vec<String>>,
}

impl AccountTransferRequest {
    /// The bundle of the supplied parameters, in declaration order.
    pub fn into_bundle(self) -> (r: RequestBundle)
        ensures
            r@ == entry("address"@, ValueView::Text(self.address@))
                + opt_entry("activity_type"@, opt_texts(self.activity_type))
                + opt_entry("token_account"@, opt_text(self.token_account))
                + opt_entry("from"@, opt_text(self.from))
                + opt_entry("to"@, opt_text(self.to))
                + opt_entry("token"@, opt_text(self.token))
                + opt_entry("amount"@, opt_texts(self.amount))
                + opt_entry("from_time"@, opt_int(self.from_time))
                + opt_entry("to_time"@, opt_int(self.to_time))
                + opt_entry("exclude_amount_zero"@, opt_bool(self.exclude_amount_zero))
                + opt_entry("flow"@, opt_text(self.flow))
                + opt_entry("page"@, opt_int32(self.page))
                + opt_entry("page_size"@, opt_int32(self.page_size))
                + opt_entry("sort_by"@, opt_text(self.sort_by))
                + opt_entry("sort_order"@, opt_text(self.sort_order))
                + opt_entry("value"@, opt_texts(self.value)),
    {
        let mut b = RequestBundle::new();
        put(&mut b, "address", ParamValue::Text(self.address));
        assert(b@ =~= entry("address"@, ValueView::Text(self.address@)));
        put_opt(&mut b, "activity_type", texts_value(self.activity_type));
        put_opt(&mut b, "token_account", text_value(self.token_account));
        put_opt(&mut b, "from", text_value(self.from));
        put_opt(&mut b, "to", text_value(self.to));
        put_opt(&mut b, "token", text_value(self.token));
        put_opt(&mut b, "amount", texts_value(self.amount));
        put_opt(&mut b, "from_time", int_value(self.from_time));
        put_opt(&mut b, "to_time", int_value(self.to_time));
        put_opt(&mut b, "exclude_amount_zero", bool_value(self.exclude_amount_zero));
        put_opt(&mut b, "flow", text_value(self.flow));
        put_opt(&mut b, "page", int32_value(self.page));
        put_opt(&mut b, "page_size", int32_value(self.page_size));
        put_opt(&mut b, "sort_by", text_value(self.sort_by));
        put_opt(&mut b, "sort_order", text_value(self.sort_order));
        put_opt(&mut b, "value", texts_value(self.value));
        b
    }
}

/// The parameters of `account_defi_activities`.
#[derive(Debug)]
pub struct AccountDefiActivitiesRequest {
    pub address: String,
    pub activity_type: Option<Vec<String>>,
    pub from: Option<String>,
    pub platform: Option<Vec<String>>,
    pub source: Option<Vec<String>>,
    pub token: Option<String>,
    pub from_time: Option<i64>,
    pub to_time: Option<i64>,
    pub page: Option<i32>,
    pub page_size: Option<i32>,
    pub sort_by: Option<String>,
    pub sort_order: Option<String>,
}

impl AccountDefiActivitiesRequest {
    /// The bundle of the supplied parameters, in declaration order.
    pub fn into_bundle(self) -> (r: RequestBundle)
        ensures
            r@ == entry("address"@, ValueView::Text(self.address@))
                + opt_entry("activity_type"@, opt_texts(self.activity_type))
                + opt_entry("from"@, opt_text(self.from))
                + opt_entry("platform"@, opt_texts(self.platform))
                + opt_entry("source"@, opt_texts(self.source))
                + opt_entry("token"@, opt_text(self.token))
                + opt_entry("from_time"@, opt_int(self.from_time))
                + opt_entry("to_time"@, opt_int(self.to_time))
                + opt_entry("page"@, opt_int32(self.page))
                + opt_entry("page_size"@, opt_int32(self.page_size))
                + opt_entry("sort_by"@, opt_text(self.sort_by))
                + opt_entry("sort_order"@, opt_text(self.sort_order)),
    {
        let mut b = RequestBundle::new();
        put(&mut b, "address", ParamValue::Text(self.address));
        assert(b@ =~= entry("address"@, ValueView::Text(self.address@)));
        put_opt(&mut b, "activity_type", texts_value(self.activity_type));
        put_opt(&mut b, "from", text_value(self.from));
        put_opt(&mut b, "platform", texts_value(self.platform));
        put_opt(&mut b, "source", texts_value(self.source));
        put_opt(&mut b, "token", text_value(self.token));
        put_opt(&mut b, "from_time", int_value(self.from_time));
        put_opt(&mut b, "to_time", int_value(self.to_time));
        put_opt(&mut b, "page", int32_value(self.page));
        put_opt(&mut b, "page_size", int32_value(self.page_size));
        put_opt(&mut b, "sort_by", text_value(self.sort_by));
        put_opt(&mut b, "sort_order", text_value(self.sort_order));
        b
    }
}

/// The parameters of `account_transactions`.
#[derive(Debug)]
pub struct AccountTransactionsRequest {
    pub address: String,
    pub before: Option<String>,
    pub limit: Option<i32>,
}

impl AccountTransactionsRequest {
    /// The bundle of the supplied parameters, in declaration order.
    pub fn into_bundle(self) -> (r: RequestBundle)
        ensures
            r@ == entry("address"@, ValueView::Text(self.address@))
                + opt_entry("before"@, opt_text(self.before))
                + opt_entry("limit"@, opt_int32(self.limit)),
    {
        let mut b = RequestBundle::new();
        put(&mut b, "address", ParamValue::Text(self.address));
        assert(b@ =~= entry("address"@, ValueView::Text(self.address@)));
        put_opt(&mut b, "before", text_value(self.before));
        put_opt(&mut b, "limit", int32_value(self.limit));
        b
    }
}

/// The parameters of `account_portfolio`.
#[derive(Debug)]
pub struct AccountPortfolioRequest {
    pub address: String,
}

impl AccountPortfolioRequest {
    /// The bundle of the supplied parameters, in declaration order.
    pub fn into_bundle(self) -> (r: RequestBundle)
        ensures
            r@ == entry("address"@, ValueView::Text(self.address@)),
    {
        let mut b = RequestBundle::new();
        put(&mut b, "address", ParamValue::Text(self.address));
        assert(b@ =~= entry("address"@, ValueView::Text(self.address@)));
        b
    }
}

/// The parameters of `account_token_accounts`.
#[derive(Debug)]
pub struct AccountTokenAccountsRequest {
    pub address: String,
    /// Sent under the key `type`.
    pub token_type: String,
    pub page: Option<i32>,
    pub page_size: Option<i32>,
    pub hide_zero: Option<bool>,
}

impl AccountTokenAccountsRequest {
    /// The bundle of the supplied parameters, in declaration order.
    pub fn into_bundle(self) -> (r: RequestBundle)
        ensures
            r@ == entry("address"@, ValueView::Text(self.address@))
                + entry("type"@, ValueView::Text(self.token_type@))
                + opt_entry("page"@, opt_int32(self.page))
                + opt_entry("page_size"@, opt_int32(self.page_size))
                + opt_entry("hide_zero"@, opt_bool(self.hide_zero)),
    {
        let mut b = RequestBundle::new();
        put(&mut b, "address", ParamValue::Text(self.address));
        assert(b@ =~= entry("address"@, ValueView::Text(self.address@)));
        put(&mut b, "type", ParamValue::Text(self.token_type));
        put_opt(&mut b, "page", int32_value(self.page));
        put_opt(&mut b, "page_size", int32_value(self.page_size));
        put_opt(&mut b, "hide_zero", bool_value(self.hide_zero));
        b
    }
}

/// The parameters of `account_stake`.
#[derive(Debug)]
pub struct AccountStakeRequest {
    pub address: String,
    pub page: Option<i32>,
    pub page_size: Option<i32>,
}

impl AccountStakeRequest {
    /// The bundle of the supplied parameters, in declaration order.
    pub fn into_bundle(self) -> (r: RequestBundle)
        ensures
            r@ == entry("address"@, ValueView::Text(self.address@))
                + opt_entry("page"@, opt_int32(self.page))
                + opt_entry("page_size"@, opt_int32(self.page_size)),
    {
        let mut b = RequestBundle::new();
        put(&mut b, "address", ParamValue::Text(self.address));
        assert(b@ =~= entry("address"@, ValueView::Text(self.address@)));
        put_opt(&mut b, "page", int32_value(self.page));
        put_opt(&mut b, "page_size", int32_value(self.page_size));
        b
    }
}

/// The parameters of `account_reward_export`.
#[derive(Debug)]
pub struct AccountRewardExportRequest {
    pub address: String,
    pub time_from: Option<i64>,
    pub time_to: Option<i64>,
}

impl AccountRewardExportRequest {
    /// The bundle of the supplied parameters, in declaration order.
    pub fn into_bundle(self) -> (r: RequestBundle)
        ensures
            r@ == entry("address"@, ValueView::Text(self.address@))
                + opt_entry("time_from"@, opt_int(self.time_from))
                + opt_entry("time_to"@, opt_int(self.time_to)),
    {
        let mut b = RequestBundle::new();
        put(&mut b, "address", ParamValue::Text(self.address));
        assert(b@ =~= entry("address"@, ValueView::Text(self.address@)));
        put_opt(&mut b, "time_from", int_value(self.time_from));
        put_opt(&mut b, "time_to", int_value(self.time_to));
        b
    }
}

/// The parameters of `account_transfer_export`.
#[derive(Debug)]
pub struct AccountTransferExportRequest {
    pub address: String,
    pub activity_type: Option<Vec<String>>,
    pub token_account: Option<String>,
    pub from: Option<String>,
    pub to: Option<String>,
    pub token: Option<String>,
    pub amount: Option<Vec<String>>,
    pub from_time: Option<i64>,
    pub to_time: Option<i64>,
    pub exclude_amount_zero: Option<bool>,
    pub flow: Option<String>,
}

impl AccountTransferExportRequest {
    /// The bundle of the supplied parameters, in declaration order.
    pub fn into_bundle(self) -> (r: RequestBundle)
        ensures
            r@ == entry("address"@, ValueView::Text(self.address@))
                + opt_entry("activity_type"@, opt_texts(self.activity_type))
                + opt_entry("token_account"@, opt_text(self.token_account))
                + opt_entry("from"@, opt_text(self.from))
                + opt_entry("to"@, opt_text(self.to))
                + opt_entry("token"@, opt_text(self.token))
                + opt_entry("amount"@, opt_texts(self.amount))
                + opt_entry("from_time"@, opt_int(self.from_time))
                + opt_entry("to_time"@, opt_int(self.to_time))
                + opt_entry("exclude_amount_zero"@, opt_bool(self.exclude_amount_zero))
                + opt_entry("flow"@, opt_text(self.flow)),
    {
        let mut b = RequestBundle::new();
        put(&mut b, "address", ParamValue::Text(self.address));
        assert(b@ =~= entry("address"@, ValueView::Text(self.address@)));
        put_opt(&mut b, "activity_type", texts_value(self.activity_type));
        put_opt(&mut b, "token_account", text_value(self.token_account));
        put_opt(&mut b, "from", text_value(self.from));
        put_opt(&mut b, "to", text_value(self.to));
        put_opt(&mut b, "token", text_value(self.token));
        put_opt(&mut b, "amount", texts_value(self.amount));
        put_opt(&mut b, "from_time", int_value(self.from_time));
        put_opt(&mut b, "to_time", int_value(self.to_time));
        put_opt(&mut b, "exclude_amount_zero", bool_value(self.exclude_amount_zero));
        put_opt(&mut b, "flow", text_value(self.flow));
        b
    }
}

/// The parameters of `account_metadata`.
#[derive(Debug)]
pub struct AccountMetadataRequest {
    pub address: String,
}

impl AccountMetadataRequest {
    /// The bundle of the supplied parameters, in declaration order.
    pub fn into_bundle(self) -> (r: RequestBundle)
        ensures
            r@ == entry("address"@, ValueView::Text(self.address@)),
    {
        let mut b = RequestBundle::new();
        put(&mut b, "address", ParamValue::Text(self.address));
        assert(b@ =~= entry("address"@, ValueView::Text(self.address@)));
        b
    }
}

} // verus!
