//! Typed requests, one per operation, and their conversion into bundles.

use vstd::prelude::*;

use crate::bundle::{texts_view, ParamValue, RequestBundle, ValueView};

pub mod account;
pub mod block;
pub mod market;
pub mod nft;
pub mod token;
pub mod transaction;

verus! {

/// A request of `chain_info`, which takes no parameters.
#[derive(Debug)]
pub struct ChainInfoRequest {}

impl ChainInfoRequest {
    pub fn into_bundle(self) -> (r: RequestBundle)
        ensures
            r@ == Seq::<(Seq<char>, ValueView)>::empty(),
    {
        RequestBundle::new()
    }
}

/// The bundle entry of a supplied parameter.
pub open spec fn entry(key: Seq<char>, v: ValueView) -> Seq<(Seq<char>, ValueView)> {
    seq![(key, v)]
}

/// The bundle entry of an optional parameter: none where it is left out.
pub open spec fn opt_entry(key: Seq<char>, v: Option<ValueView>) -> Seq<(Seq<char>, ValueView)> {
    match v {
        Some(v) => seq![(key, v)],
        None => Seq::empty(),
    }
}

pub open spec fn opt_view(v: Option<ParamValue>) -> Option<ValueView> {
    match v {
        Some(v) => Some(v@),
        None => None,
    }
}

pub open spec fn opt_text(v: Option<String>) -> Option<ValueView> {
    match v {
        Some(s) => Some(ValueView::Text(s@)),
        None => None,
    }
}

pub open spec fn opt_int32(v: Option<i32>) -> Option<ValueView> {
    match v {
        Some(i) => Some(ValueView::Integer(i as i64)),
        None => None,
    }
}

pub open spec fn opt_int(v: Option<i64>) -> Option<ValueView> {
    match v {
        Some(i) => Some(ValueView::Integer(i)),
        None => None,
    }
}

pub open spec fn opt_bool(v: Option<bool>) -> Option<ValueView> {
    match v {
        Some(b) => Some(ValueView::Boolean(b)),
        None => None,
    }
}

pub open spec fn opt_texts(v: Option<Vec<String>>) -> Option<ValueView> {
    match v {
        Some(l) => Some(ValueView::TextList(texts_view(l@))),
        None => None,
    }
}

pub open spec fn opt_ints(v: Option<Vec<i64>>) -> Option<ValueView> {
    match v {
        Some(l) => Some(ValueView::IntegerList(l@)),
        None => None,
    }
}

fn put(b: &mut RequestBundle, key: &'static str, v: ParamValue)
    ensures
        final(b)@ == old(b)@ + entry(key@, v@),
{
    let ghost before = b@;
    let ghost e = (key@, v@);
    b.push(key.to_owned(), v);
    assert(b@ =~= before + entry(e.0, e.1));
}

fn put_opt(b: &mut RequestBundle, key: &'static str, v: Option<ParamValue>)
    ensures
        final(b)@ == old(b)@ + opt_entry(key@, opt_view(v)),
{
    let ghost before = b@;
    match v {
        Some(v) => put(b, key, v),
        None => {
            assert(b@ =~= before + opt_entry(key@, None));
        },
    }
}

fn text_value(v: Option<String>) -> (r: Option<ParamValue>)
    ensures
        opt_view(r) == opt_text(v),
{
    match v {
        Some(s) => Some(ParamValue::Text(s)),
        None => None,
    }
}

fn int32_value(v: Option<i32>) -> (r: Option<ParamValue>)
    ensures
        opt_view(r) == opt_int32(v),
{
    match v {
        Some(i) => Some(ParamValue::Integer(i as i64)),
        None => None,
    }
}

fn int_value(v: Option<i64>) -> (r: Option<ParamValue>)
    ensures
        opt_view(r) == opt_int(v),
{
    match v {
        Some(i) => Some(ParamValue::Integer(i)),
        None => None,
    }
}

fn bool_value(v: Option<bool>) -> (r: Option<ParamValue>)
    ensures
        opt_view(r) == opt_bool(v),
{
    match v {
        Some(b) => Some(ParamValue::Boolean(b)),
        None => None,
    }
}

fn texts_value(v: Option<Vec<String>>) -> (r: Option<ParamValue>)
    ensures
        opt_view(r) == opt_texts(v),
{
    match v {
        Some(l) => Some(ParamValue::TextList(l)),
        None => None,
    }
}

fn ints_value(v: Option<Vec<i64>>) -> (r: Option<ParamValue>)
    ensures
        opt_view(r) == opt_ints(v),
{
    match v {
        Some(l) => Some(ParamValue::IntegerList(l)),
        None => None,
    }
}

} // verus!
