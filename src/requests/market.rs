//! Requests about pool markets.

use vstd::prelude::*;

use crate::bundle::{ParamValue, RequestBundle, ValueView};
use super::{
    entry,
    opt_entry,
    put,
    put_opt,
    text_value,
    int32_value,
    texts_value,
    opt_text,
    opt_int32,
    opt_texts,
};

verus! {

/// The parameters of `market_list`.
#[derive(Debug)]
pub struct MarketListRequest {
    pub page: Option<i32>,
    pub page_size: Option<i32>,
    pub program: Option<String>,
}

impl MarketListRequest {
    /// The bundle of the supplied parameters, in declaration order.
    pub fn into_bundle(self) -> (r: RequestBundle)
        ensures
            r@ == opt_entry("page"@, opt_int32(self.page))
                + opt_entry("page_size"@, opt_int32(self.page_size))
                + opt_entry("program"@, opt_text(self.program)),
    {
        let mut b = RequestBundle::new();
        put_opt(&mut b, "page", int32_value(self.page));
        assert(b@ =~= opt_entry("page"@, opt_int32(self.page)));
        put_opt(&mut b, "page_size", int32_value(self.page_size));
        put_opt(&mut b, "program", text_value(self.program));
        b
    }
}

/// The parameters of `market_info`.
#[derive(Debug)]
pub struct MarketInfoRequest {
    pub address: String,
}

impl MarketInfoRequest {
    /// The bundle of the supplied parameters, in declaration order.
    pub fn into_bundle(self) -> (r: RequestBundle)
        ensures
            r@ == entry("address"@, ValueView::Text(self.address@)),
    {
        let mut b = RequestBundle::new();
        put(&mut b, "address", ParamValue::Text(self.address));
        assert(b@ =~= entry("address"@, ValueView::Text(self.address@)));
        b
    }
}

/// The parameters of `market_volume`.
#[derive(Debug)]
pub struct MarketVolumeRequest {
    pub address: String,
    pub time: Option<Vec<String>>,
}

impl MarketVolumeRequest {
    /// The bundle of the supplied parameters, in declaration order.
    pub fn into_bundle(self) -> (r: RequestBundle)
        ensures
            r@ == entry("address"@, ValueView::Text(self.address@))
                + opt_entry("time"@, opt_texts(self.time)),
    {
        let mut b = RequestBundle::new();
        put(&mut b, "address", ParamValue::Text(self.address));
        assert(b@ =~= entry("address"@, ValueView::Text(self.address@)));
        put_opt(&mut b, "time", texts_value(self.time));
        b
    }
}

} // verus!
