//! Requests about blocks.

use vstd::prelude::*;

use crate::bundle::{ParamValue, RequestBundle, ValueView};
use super::{
    entry,
    opt_entry,
    put,
    put_opt,
    text_value,
    int32_value,
    bool_value,
    opt_text,
    opt_int32,
    opt_bool,
};

verus! {

/// The parameters of `block_last`.
#[derive(Debug)]
pub struct BlockLastRequest {
    pub limit: Option<i32>,
}

impl BlockLastRequest {
    /// The bundle of the supplied parameters, in declaration order.
    pub fn into_bundle(self) -> (r: RequestBundle)
        ensures
            r@ == opt_entry("limit"@, opt_int32(self.limit)),
    {
        let mut b = RequestBundle::new();
        put_opt(&mut b, "limit", int32_value(self.limit));
        assert(b@ =~= opt_entry("limit"@, opt_int32(self.limit)));
        b
    }
}

/// The parameters of `block_transactions`.
#[derive(Debug)]
pub struct BlockTransactionsRequest {
    pub block: i64,
    pub page: Option<i32>,
    pub page_size: Option<i32>,
    pub exclude_vote: Option<bool>,
    pub program: Option<String>,
}

impl BlockTransactionsRequest {
    /// The bundle of the supplied parameters, in declaration order.
    pub fn into_bundle(self) -> (r: RequestBundle)
        ensures
            r@ == entry("block"@, ValueView::Integer(self.block))
                + opt_entry("page"@, opt_int32(self.page))
                + opt_entry("page_size"@, opt_int32(self.page_size))
                + opt_entry("exclude_vote"@, opt_bool(self.exclude_vote))
                + opt_entry("program"@, opt_text(self.program)),
    {
        let mut b = RequestBundle::new();
        put(&mut b, "block", ParamValue::Integer(self.block));
        assert(b@ =~= entry("block"@, ValueView::Integer(self.block)));
        put_opt(&mut b, "page", int32_value(self.page));
        put_opt(&mut b, "page_size", int32_value(self.page_size));
        put_opt(&mut b, "exclude_vote", bool_value(self.exclude_vote));
        put_opt(&mut b, "program", text_value(self.program));
        b
    }
}

/// The parameters of `block_detail`.
#[derive(Debug)]
pub struct BlockDetailRequest {
    pub block: i64,
}

impl BlockDetailRequest {
    /// The bundle of the supplied parameters, in declaration order.
    pub fn into_bundle(self) -> (r: RequestBundle)
        ensures
            r@ == entry("block"@, ValueView::Integer(self.block)),
    {
        let mut b = RequestBundle::new();
        put(&mut b, "block", ParamValue::Integer(self.block));
        assert(b@ =~= entry("block"@, ValueView::Integer(self.block)));
        b
    }
}

} // verus!
