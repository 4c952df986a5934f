//! Requests about transactions.

use vstd::prelude::*;

use crate::bundle::{ParamValue, RequestBundle, ValueView};
use super::{entry, opt_entry, put, put_opt, text_value, int32_value, opt_text, opt_int32};

verus! {

/// The parameters of `transaction_detail`.
#[derive(Debug)]
pub struct TransactionDetailRequest {
    pub tx: String,
}

impl TransactionDetailRequest {
    /// The bundle of the supplied parameters, in declaration order.
    pub fn into_bundle(self) -> (r: RequestBundle)
        ensures
            r@ == entry("tx"@, ValueView::Text(self.tx@)),
    {
        let mut b = RequestBundle::new();
        put(&mut b, "tx", ParamValue::Text(self.tx));
        assert(b@ =~= entry("tx"@, ValueView::Text(self.tx@)));
        b
    }
}

/// The parameters of `transaction_actions`.
#[derive(Debug)]
pub struct TransactionActionsRequest {
    pub tx: String,
}

impl TransactionActionsRequest {
    /// The bundle of the supplied parameters, in declaration order.
    pub fn into_bundle(self) -> (r: RequestBundle)
        ensures
            r@ == entry("tx"@, ValueView::Text(self.tx@)),
    {
        let mut b = RequestBundle::new();
        put(&mut b, "tx", ParamValue::Text(self.tx));
        assert(b@ =~= entry("tx"@, ValueView::Text(self.tx@)));
        b
    }
}

/// The parameters of `transaction_last`.
#[derive(Debug)]
pub struct TransactionLastRequest {
    pub limit: Option<i32>,
    pub filter: Option<String>,
}

impl TransactionLastRequest {
    /// The bundle of the supplied parameters, in declaration order.
    pub fn into_bundle(self) -> (r: RequestBundle)
        ensures
            r@ == opt_entry("limit"@, opt_int32(self.limit))
                + opt_entry("filter"@, opt_text(self.filter)),
    {
        let mut b = RequestBundle::new();
        put_opt(&mut b, "limit", int32_value(self.limit));
        assert(b@ =~= opt_entry("limit"@, opt_int32(self.limit)));
        put_opt(&mut b, "filter", text_value(self.filter));
        b
    }
}

} // verus!
