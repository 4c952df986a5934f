//! Requests about NFTs.

use vstd::prelude::*;

use crate::bundle::{ParamValue, RequestBundle, ValueView};
use super::{
    entry,
    opt_entry,
    put,
    put_opt,
    text_value,
    int32_value,
    int_value,
    texts_value,
    opt_text,
    opt_int32,
    opt_int,
    opt_texts,
};

verus! {

/// The parameters of `nft_news`.
#[derive(Debug)]
pub struct NftNewsRequest {
    pub filter: String,
    pub page: Option<i32>,
    pub page_size: Option<i32>,
}

impl NftNewsRequest {
    /// The bundle of the supplied parameters, in declaration order.
    pub fn into_bundle(self) -> (r: RequestBundle)
        ensures
            r@ == entry("filter"@, ValueView::Text(self.filter@))
                + opt_entry("page"@, opt_int32(self.page))
                + opt_entry("page_size"@, opt_int32(self.page_size)),
    {
        let mut b = RequestBundle::new();
        put(&mut b, "filter", ParamValue::Text(self.filter));
        assert(b@ =~= entry("filter"@, ValueView::Text(self.filter@)));
        put_opt(&mut b, "page", int32_value(self.page));
        put_opt(&mut b, "page_size", int32_value(self.page_size));
        b
    }
}

/// The parameters of `nft_activities`.
#[derive(Debug)]
pub struct NftActivitiesRequest {
    pub from: Option<String>,
    pub to: Option<String>,
    pub source: Option<Vec<String>>,
    pub activity_type: Option<Vec<String>>,
    pub from_time: Option<i64>,
    pub to_time: Option<i64>,
    pub token: Option<String>,
    pub collection: Option<String>,
    pub currency_token: Option<String>,
    pub price: Option<Vec<String>>,
    pub page: Option<i32>,
    pub page_size: Option<i32>,
}

impl NftActivitiesRequest {
    /// The bundle of the supplied parameters, in declaration order.
    pub fn into_bundle(self) -> (r: RequestBundle)
        ensures
            r@ == opt_entry("from"@, opt_text(self.from))
                + opt_entry("to"@, opt_text(self.to))
                + opt_entry("source"@, opt_texts(self.source))
                + opt_entry("activity_type"@, opt_texts(self.activity_type))
                + opt_entry("from_time"@, opt_int(self.from_time))
                + opt_entry("to_time"@, opt_int(self.to_time))
                + opt_entry("token"@, opt_text(self.token))
                + opt_entry("collection"@, opt_text(self.collection))
                + opt_entry("currency_token"@, opt_text(self.currency_token))
                + opt_entry("price"@, opt_texts(self.price))
                + opt_entry("page"@, opt_int32(self.page))
                + opt_entry("page_size"@, opt_int32(self.page_size)),
    {
        let mut b = RequestBundle::new();
        put_opt(&mut b, "from", text_value(self.from));
        assert(b@ =~= opt_entry("from"@, opt_text(self.from)));
        put_opt(&mut b, "to", text_value(self.to));
        put_opt(&mut b, "source", texts_value(self.source));
        put_opt(&mut b, "activity_type", texts_value(self.activity_type));
        put_opt(&mut b, "from_time", int_value(self.from_time));
        put_opt(&mut b, "to_time", int_value(self.to_time));
        put_opt(&mut b, "token", text_value(self.token));
        put_opt(&mut b, "collection", text_value(self.collection));
        put_opt(&mut b, "currency_token", text_value(self.currency_token));
        put_opt(&mut b, "price", texts_value(self.price));
        put_opt(&mut b, "page", int32_value(self.page));
        put_opt(&mut b, "page_size", int32_value(self.page_size));
        b
    }
}

/// The parameters of `nft_collection_lists`.
#[derive(Debug)]
pub struct NftCollectionListsRequest {
    pub range: Option<i32>,
    pub sort_order: Option<String>,
    pub sort_by: Option<String>,
    pub page: Option<i32>,
    pub page_size: Option<i32>,
    pub collection: Option<String>,
}

impl NftCollectionListsRequest {
    /// The bundle of the supplied parameters, in declaration order.
    pub fn into_bundle(self) -> (r: RequestBundle)
        ensures
            r@ == opt_entry("range"@, opt_int32(self.range))
                + opt_entry("sort_order"@, opt_text(self.sort_order))
                + opt_entry("sort_by"@, opt_text(self.sort_by))
                + opt_entry("page"@, opt_int32(self.page))
                + opt_entry("page_size"@, opt_int32(self.page_size))
                + opt_entry("collection"@, opt_text(self.collection)),
    {
        let mut b = RequestBundle::new();
        put_opt(&mut b, "range", int32_value(self.range));
        assert(b@ =~= opt_entry("range"@, opt_int32(self.range)));
        put_opt(&mut b, "sort_order", text_value(self.sort_order));
        put_opt(&mut b, "sort_by", text_value(self.sort_by));
        put_opt(&mut b, "page", int32_value(self.page));
        put_opt(&mut b, "page_size", int32_value(self.page_size));
        put_opt(&mut b, "collection", text_value(self.collection));
        b
    }
}

/// The parameters of `nft_collection_items`.
#[derive(Debug)]
pub struct NftCollectionItemsRequest {
    pub collection: String,
    pub sort_by: Option<String>,
    pub page: Option<i32>,
    pub page_size: Option<i32>,
}

impl NftCollectionItemsRequest {
    /// The bundle of the supplied parameters, in declaration order.
    pub fn into_bundle(self) -> (r: RequestBundle)
        ensures
            r@ == entry("collection"@, ValueView::Text(self.collection@))
                + opt_entry("sort_by"@, opt_text(self.sort_by))
                + opt_entry("page"@, opt_int32(self.page))
                + opt_entry("page_size"@, opt_int32(self.page_size)),
    {
        let mut b = RequestBundle::new();
        put(&mut b, "collection", ParamValue::Text(self.collection));
        assert(b@ =~= entry("collection"@, ValueView::Text(self.collection@)));
        put_opt(&mut b, "sort_by", text_value(self.sort_by));
        put_opt(&mut b, "page", int32_value(self.page));
        put_opt(&mut b, "page_size", int32_value(self.page_size));
        b
    }
}

} // verus!
