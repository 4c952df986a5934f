//! Requests about tokens.

use vstd::prelude::*;

use crate::bundle::{texts_view, ParamValue, RequestBundle, ValueView};
use super::{
    entry,
    opt_entry,
    put,
    put_opt,
    text_value,
    int32_value,
    int_value,
    bool_value,
    texts_value,
    ints_value,
    opt_text,
    opt_int32,
    opt_int,
    opt_bool,
    opt_texts,
    opt_ints,
};

verus! {

/// The parameters of `token_meta`.
#[derive(Debug)]
pub struct TokenMetaRequest {
    pub token_address: String,
}

impl TokenMetaRequest {
    /// The bundle of the supplied parameters, in declaration order.
    pub fn into_bundle(self) -> (r: RequestBundle)
        ensures
            r@ == entry("token_address"@, ValueView::Text(self.token_address@)),
    {
        let mut b = RequestBundle::new();
        put(&mut b, "token_address", ParamValue::Text(self.token_address));
        assert(b@ =~= entry("token_address"@, ValueView::Text(self.token_address@)));
        b
    }
}

/// The parameters of `token_markets`.
#[derive(Debug)]
pub struct TokenMarketsRequest {
    pub token_address: String,
    pub sort_by: Option<String>,
    pub program: Option<Vec<String>>,
    pub page: Option<i32>,
    pub page_size: Option<i32>,
}

impl TokenMarketsRequest {
    /// The bundle of the supplied parameters, in declaration order.
    pub fn into_bundle(self) -> (r: RequestBundle)
        ensures
            r@ == entry("token_address"@, ValueView::Text(self.token_address@))
                + opt_entry("sort_by"@, opt_text(self.sort_by))
                + opt_entry("program"@, opt_texts(self.program))
                + opt_entry("page"@, opt_int32(self.page))
                + opt_entry("page_size"@, opt_int32(self.page_size)),
    {
        let mut b = RequestBundle::new();
        put(&mut b, "token_address", ParamValue::Text(self.token_address));
        assert(b@ =~= entry("token_address"@, ValueView::Text(self.token_address@)));
        put_opt(&mut b, "sort_by", text_value(self.sort_by));
        put_opt(&mut b, "program", texts_value(self.program));
        put_opt(&mut b, "page", int32_value(self.page));
        put_opt(&mut b, "page_size", int32_value(self.page_size));
        b
    }
}

/// The parameters of `token_holders`.
#[derive(Debug)]
pub struct TokenHoldersRequest {
    pub token_address: String,
    pub page: Option<i32>,
    pub page_size: Option<i32>,
    pub from_amount: Option<String>,
    pub to_amount: Option<String>,
}

impl TokenHoldersRequest {
    /// The bundle of the supplied parameters, in declaration order.
    pub fn into_bundle(self) -> (r: RequestBundle)
        ensures
            r@ == entry("token_address"@, ValueView::Text(self.token_address@))
                + opt_entry("page"@, opt_int32(self.page))
                + opt_entry("page_size"@, opt_int32(self.page_size))
                + opt_entry("from_amount"@, opt_text(self.from_amount))
                + opt_entry("to_amount"@, opt_text(self.to_amount)),
    {
        let mut b = RequestBundle::new();
        put(&mut b, "token_address", ParamValue::Text(self.token_address));
        assert(b@ =~= entry("token_address"@, ValueView::Text(self.token_address@)));
        put_opt(&mut b, "page", int32_value(self.page));
        put_opt(&mut b, "page_size", int32_value(self.page_size));
        put_opt(&mut b, "from_amount", text_value(self.from_amount));
        put_opt(&mut b, "to_amount", text_value(self.to_amount));
        b
    }
}

/// The parameters of `token_price`.
#[derive(Debug)]
pub struct TokenPriceRequest {
    pub token_address: String,
    pub from_time: Option<i64>,
    pub to_time: Option<i64>,
}

impl TokenPriceRequest {
    /// The bundle of the supplied parameters, in declaration order.
    pub fn into_bundle(self) -> (r: RequestBundle)
        ensures
            r@ == entry("token_address"@, ValueView::Text(self.token_address@))
                + opt_entry("from_time"@, opt_int(self.from_time))
                + opt_entry("to_time"@, opt_int(self.to_time)),
    {
        let mut b = RequestBundle::new();
        put(&mut b, "token_address", ParamValue::Text(self.token_address));
        assert(b@ =~= entry("token_address"@, ValueView::Text(self.token_address@)));
        put_opt(&mut b, "from_time", int_value(self.from_time));
        put_opt(&mut b, "to_time", int_value(self.to_time));
        b
    }
}

/// The parameters of `token_transfer`.
#[derive(Debug)]
pub struct TokenTransferRequest {
    pub address: String,
    pub activity_type: Option<Vec<String>>,
    pub from: Option<String>,
    pub to: Option<String>,
    pub amount: Option<Vec<String>>,
    pub block_time: Option<Vec<i64>>,
    pub exclude_amount_zero: Option<bool>,
    pub page: Option<i32>,
    pub page_size: Option<i32>,
    pub sort_by: Option<String>,
    pub sort_order: Option<String>,
    pub value: Option<Vec<String>>,
}

impl TokenTransferRequest {
    /// The bundle of the supplied parameters, in declaration order.
    pub fn into_bundle(self) -> (r: RequestBundle)
        ensures
            r@ == entry("address"@, ValueView::Text(self.address@))
                + opt_entry("activity_type"@, opt_texts(self.activity_type))
                + opt_entry("from"@, opt_text(self.from))
                + opt_entry("to"@, opt_text(self.to))
                + opt_entry("amount"@, opt_texts(self.amount))
                + opt_entry("block_time"@, opt_ints(self.block_time))
                + opt_entry("exclude_amount_zero"@, opt_bool(self.exclude_amount_zero))
                + opt_entry("page"@, opt_int32(self.page))
                + opt_entry("page_size"@, opt_int32(self.page_size))
                + opt_entry("sort_by"@, opt_text(self.sort_by))
                + opt_entry("sort_order"@, opt_text(self.sort_order))
                + opt_entry("value"@, opt_texts(self.value)),
    {
        let mut b = RequestBundle::new();
        put(&mut b, "address", ParamValue::Text(self.address));
        assert(b@ =~= entry("address"@, ValueView::Text(self.address@)));
        put_opt(&mut b, "activity_type", texts_value(self.activity_type));
        put_opt(&mut b, "from", text_value(self.from));
        put_opt(&mut b, "to", text_value(self.to));
        put_opt(&mut b, "amount", texts_value(self.amount));
        put_opt(&mut b, "block_time", ints_value(self.block_time));
        put_opt(&mut b, "exclude_amount_zero", bool_value(self.exclude_amount_zero));
        put_opt(&mut b, "page", int32_value(self.page));
        put_opt(&mut b, "page_size", int32_value(self.page_size));
        put_opt(&mut b, "sort_by", text_value(self.sort_by));
        put_opt(&mut b, "sort_order", text_value(self.sort_order));
        put_opt(&mut b, "value", texts_value(self.value));
        b
    }
}

/// The parameters of `token_defi_activities`.
#[derive(Debug)]
pub struct TokenDefiActivitiesRequest {
    pub address: String,
    pub from: Option<String>,
    pub platform: Option<Vec<String>>,
    pub source: Option<Vec<String>>,
    pub activity_type: Option<Vec<String>>,
    pub token: Option<String>,
    pub from_time: Option<i64>,
    pub to_time: Option<i64>,
    pub page: Option<i32>,
    pub page_size: Option<i32>,
    pub sort_by: Option<String>,
    pub sort_order: Option<String>,
}

impl TokenDefiActivitiesRequest {
    /// The bundle of the supplied parameters, in declaration order.
    pub fn into_bundle(self) -> (r: RequestBundle)
        ensures
            r@ == entry("address"@, ValueView::Text(self.address@))
                + opt_entry("from"@, opt_text(self.from))
                + opt_entry("platform"@, opt_texts(self.platform))
                + opt_entry("source"@, opt_texts(self.source))
                + opt_entry("activity_type"@, opt_texts(self.activity_type))
                + opt_entry("token"@, opt_text(self.token))
                + opt_entry("from_time"@, opt_int(self.from_time))
                + opt_entry("to_time"@, opt_int(self.to_time))
                + opt_entry("page"@, opt_int32(self.page))
                + opt_entry("page_size"@, opt_int32(self.page_size))
                + opt_entry("sort_by"@, opt_text(self.sort_by))
                + opt_entry("sort_order"@, opt_text(self.sort_order)),
    {
        let mut b = RequestBundle::new();
        put(&mut b, "address", ParamValue::Text(self.address));
        assert(b@ =~= entry("address"@, ValueView::Text(self.address@)));
        put_opt(&mut b, "from", text_value(self.from));
        put_opt(&mut b, "platform", texts_value(self.platform));
        put_opt(&mut b, "source", texts_value(self.source));
        put_opt(&mut b, "activity_type", texts_value(self.activity_type));
        put_opt(&mut b, "token", text_value(self.token));
        put_opt(&mut b, "from_time", int_value(self.from_time));
        put_opt(&mut b, "to_time", int_value(self.to_time));
        put_opt(&mut b, "page", int32_value(self.page));
        put_opt(&mut b, "page_size", int32_value(self.page_size));
        put_opt(&mut b, "sort_by", text_value(self.sort_by));
        put_opt(&mut b, "sort_order", text_value(self.sort_order));
        b
    }
}

/// The parameters of `token_meta_multi`.
#[derive(Debug)]
pub struct TokenMetaMultiRequest {
    pub address: Vec<String>,
}

impl TokenMetaMultiRequest {
    /// The bundle of the supplied parameters, in declaration order.
    pub fn into_bundle(self) -> (r: RequestBundle)
        ensures
            r@ == entry("address"@, ValueView::TextList(texts_view(self.address@))),
    {
        let mut b = RequestBundle::new();
        put(&mut b, "address", ParamValue::TextList(self.address));
        assert(b@ =~= entry("address"@, ValueView::TextList(texts_view(self.address@))));
        b
    }
}

/// The parameters of `token_price_multi`.
#[derive(Debug)]
pub struct TokenPriceMultiRequest {
    pub address: Vec<String>,
    pub from_time: Option<i64>,
    pub to_time: Option<i64>,
}

impl TokenPriceMultiRequest {
    /// The bundle of the supplied parameters, in declaration order.
    pub fn into_bundle(self) -> (r: RequestBundle)
        ensures
            r@ == entry("address"@, ValueView::TextList(texts_view(self.address@)))
                + opt_entry("from_time"@, opt_int(self.from_time))
                + opt_entry("to_time"@, opt_int(self.to_time)),
    {
        let mut b = RequestBundle::new();
        put(&mut b, "address", ParamValue::TextList(self.address));
        assert(b@ =~= entry("address"@, ValueView::TextList(texts_view(self.address@))));
        put_opt(&mut b, "from_time", int_value(self.from_time));
        put_opt(&mut b, "to_time", int_value(self.to_time));
        b
    }
}

/// The parameters of `token_list`.
#[derive(Debug)]
pub struct TokenListRequest {
    pub sort_by: Option<String>,
    pub sort_order: Option<String>,
    pub page: Option<i32>,
    pub page_size: Option<i32>,
}

impl TokenListRequest {
    /// The bundle of the supplied parameters, in declaration order.
    pub fn into_bundle(self) -> (r: RequestBundle)
        ensures
            r@ == opt_entry("sort_by"@, opt_text(self.sort_by))
                + opt_entry("sort_order"@, opt_text(self.sort_order))
                + opt_entry("page"@, opt_int32(self.page))
                + opt_entry("page_size"@, opt_int32(self.page_size)),
    {
        let mut b = RequestBundle::new();
        put_opt(&mut b, "sort_by", text_value(self.sort_by));
        assert(b@ =~= opt_entry("sort_by"@, opt_text(self.sort_by)));
        put_opt(&mut b, "sort_order", text_value(self.sort_order));
        put_opt(&mut b, "page", int32_value(self.page));
        put_opt(&mut b, "page_size", int32_value(self.page_size));
        b
    }
}

/// The parameters of `token_top`.
#[derive(Debug)]
pub struct TokenTopRequest {
}

impl TokenTopRequest {
    /// The bundle of the supplied parameters, in declaration order.
    pub fn into_bundle(self) -> (r: RequestBundle)
        ensures
            r@ == Seq::<(Seq<char>, ValueView)>::empty(),
    {
        let mut b = RequestBundle::new();
        b
    }
}

/// The parameters of `token_trending`.
#[derive(Debug)]
pub struct TokenTrendingRequest {
    pub limit: Option<i32>,
}

impl TokenTrendingRequest {
    /// The bundle of the supplied parameters, in declaration order.
    pub fn into_bundle(self) -> (r: RequestBundle)
        ensures
            r@ == opt_entry("limit"@, opt_int32(self.limit)),
    {
        let mut b = RequestBundle::new();
        put_opt(&mut b, "limit", int32_value(self.limit));
        assert(b@ =~= opt_entry("limit"@, opt_int32(self.limit)));
        b
    }
}

} // verus!
