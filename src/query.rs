//! Turning a bundle into an upstream query against an operation's shape,
//! and reading a query back.

use vstd::prelude::*;

use crate::bundle::{texts_view, value_for, ParamValue, RequestBundle, ValueView};
use crate::failure::Failure;
use crate::registry::{OperationSpec, OperationView, ParamSpec, ValueKind};
use crate::text::{decimal_text, format_i64, in_i64, parse_decimal, parse_i64, same_text};

verus! {

pub open spec fn bool_text(b: bool) -> Seq<char> {
    if b {
        "true"@
    } else {
        "false"@
    }
}

/// The query values a parameter value serializes to: one for a scalar, one
/// per element for a list.
pub open spec fn encode_value(v: ValueView) -> Seq<Seq<char>> {
    match v {
        ValueView::Text(s) => seq![s],
        ValueView::Integer(i) => seq![decimal_text(i as int)],
        ValueView::Boolean(b) => seq![bool_text(b)],
        ValueView::TextList(l) => l,
        ValueView::IntegerList(l) => l.map_values(|i: i64| decimal_text(i as int)),
    }
}

/// The query for `bundle`: one entry per declared parameter that the bundle
/// supplies, in declaration order.
pub open spec fn project(
    params: Seq<ParamSpec>,
    bundle: Seq<(Seq<char>, ValueView)>,
) -> Seq<(Seq<char>, Seq<Seq<char>>)>
    decreases params.len(),
{
    if params.len() == 0 {
        Seq::empty()
    } else {
        let rest = project(params.drop_last(), bundle);
        let p = params.last();
        match value_for(bundle, p.key@) {
            Some(v) => rest.push((p.key@, encode_value(v))),
            None => rest,
        }
    }
}

/// The `i`-th parameter is required and absent.
pub open spec fn missing_at(op: OperationView, bundle: Seq<(Seq<char>, ValueView)>, i: int) -> bool {
    &&& 0 <= i < op.parameters.len()
    &&& op.parameters[i].required
    &&& value_for(bundle, op.parameters[i].key@) is None
}

/// The `i`-th parameter is a list longer than the operation allows.
pub open spec fn exceeds_at(op: OperationView, bundle: Seq<(Seq<char>, ValueView)>, i: int) -> bool {
    &&& 0 <= i < op.parameters.len()
    &&& op.multi_value_limit is Some
    &&& value_for(bundle, op.parameters[i].key@) matches Some(v)
    &&& v.list_len() matches Some(n)
    &&& n > op.multi_value_limit->0
}

/// The bundle passes validation: nothing required is missing and no list is
/// over the limit.
pub open spec fn admissible(op: OperationView, bundle: Seq<(Seq<char>, ValueView)>) -> bool {
    &&& forall|i: int| !missing_at(op, bundle, i)
    &&& forall|i: int| !exceeds_at(op, bundle, i)
}

/// Why validation rejects `bundle`: the first required parameter that is
/// absent; or, with all of them present, the first list over the limit.
pub open spec fn rejection(op: OperationView, bundle: Seq<(Seq<char>, ValueView)>, f: Failure) -> bool {
    match f {
        Failure::MissingParameter { key } => exists|i: int|
            {
                &&& #[trigger] missing_at(op, bundle, i)
                &&& key@ == op.parameters[i].key@
                &&& forall|j: int| 0 <= j < i ==> !missing_at(op, bundle, j)
            },
        Failure::LimitExceeded { key, limit, actual } => {
            &&& forall|i: int| !missing_at(op, bundle, i)
            &&& op.multi_value_limit == Some(limit)
            &&& value_for(bundle, key@) matches Some(v) && v.list_len() == Some(actual as nat)
            &&& exists|i: int|
                {
                    &&& #[trigger] exceeds_at(op, bundle, i)
                    &&& key@ == op.parameters[i].key@
                    &&& forall|j: int| 0 <= j < i ==> !exceeds_at(op, bundle, j)
                }
        },
        _ => false,
    }
}

/// A query: keys in order, each with its values.
#[derive(Debug)]
pub struct UpstreamQuery {
    params: Vec<(String, Vec<String>)>,
}

pub open spec fn query_entry_view(e: (String, Vec<String>)) -> (Seq<char>, Seq<Seq<char>>) {
    (e.0@, texts_view(e.1@))
}

impl View for UpstreamQuery {
    type V = Seq<(Seq<char>, Seq<Seq<char>>)>;

    closed spec fn view(&self) -> Seq<(Seq<char>, Seq<Seq<char>>)> {
        self.params@.map_values(|e: (String, Vec<String>)| query_entry_view(e))
    }
}

fn clone_texts(v: &Vec<String>) -> (r: Vec<String>)
    ensures
        texts_view(r@) == texts_view(v@),
{
    let mut r: Vec<String> = Vec::new();
    let n = v.len();
    let mut i: usize = 0;
    while i < n
        invariant
            n == v@.len(),
            i <= n,
            r@.len() == i,
            forall|j: int| 0 <= j < i ==> (#[trigger] r@[j])@ == v@[j]@,
        decreases n - i,
    {
        r.push(v[i].clone());
        i = i + 1;
    }
    assert(texts_view(r@) =~= texts_view(v@));
    r
}

fn encode(v: &ParamValue) -> (r: Vec<String>)
    ensures
        texts_view(r@) == encode_value(v@),
{
    match v {
        ParamValue::Text(s) => {
            let r = vec![s.clone()];
            assert(texts_view(r@) =~= encode_value(v@));
            r
        },
        ParamValue::Integer(i) => {
            let r = vec![format_i64(*i)];
            assert(texts_view(r@) =~= encode_value(v@));
            r
        },
        ParamValue::Boolean(b) => {
            let t = if *b {
                "true".to_owned()
            } else {
                "false".to_owned()
            };
            let r = vec![t];
            assert(texts_view(r@) =~= encode_value(v@));
            r
        },
        ParamValue::TextList(l) => clone_texts(l),
        ParamValue::IntegerList(l) => {
            let mut r: Vec<String> = Vec::new();
            let n = l.len();
            let mut i: usize = 0;
            while i < n
                invariant
                    n == l@.len(),
                    i <= n,
                    r@.len() == i,
                    forall|j: int| 0 <= j < i ==> (#[trigger] r@[j])@ == decimal_text(l@[j] as int),
                decreases n - i,
            {
                r.push(format_i64(l[i]));
                i = i + 1;
            }
            assert(texts_view(r@) =~= encode_value(v@));
            r
        },
    }
}

/// Validates `bundle` against `op` and builds the query to send. Every
/// required parameter must be present (else `MissingParameter`, naming the
/// first absent one); then, where the operation caps lists, no list may be
/// longer than the cap (else `LimitExceeded`, naming the first such list).
pub fn build_query(op: &OperationSpec, bundle: &RequestBundle) -> (r: Result<UpstreamQuery, Failure>)
    ensures
        match r {
            Ok(q) => admissible(op@, bundle@) && q@ == project(op@.parameters, bundle@),
            Err(f) => rejection(op@, bundle@, f),
        },
{
    let n = op.parameters.len();
    let mut i: usize = 0;
    while i < n
        invariant
            n == op@.parameters.len(),
            i <= n,
            forall|j: int| 0 <= j < i ==> !missing_at(op@, bundle@, j),
        decreases n - i,
    {
        let p = op.parameters[i];
        if p.required && bundle.get(p.key).is_none() {
            assert(missing_at(op@, bundle@, i as int));
            return Err(Failure::MissingParameter { key: p.key.to_owned() });
        }
        i = i + 1;
    }
    assert forall|j: int| !missing_at(op@, bundle@, j) by {}
    if let Some(limit) = op.multi_value_limit {
        let mut i: usize = 0;
        while i < n
            invariant
                n == op@.parameters.len(),
                i <= n,
                op@.multi_value_limit == Some(limit),
                forall|j: int| !missing_at(op@, bundle@, j),
                forall|j: int| 0 <= j < i ==> !exceeds_at(op@, bundle@, j),
            decreases n - i,
        {
            let p = op.parameters[i];
            if let Some(v) = bundle.get(p.key) {
                if let Some(len) = v.list_len() {
                    if len > limit {
                        assert(exceeds_at(op@, bundle@, i as int));
                        return Err(Failure::LimitExceeded { key: p.key.to_owned(), limit, actual: len });
                    }
                }
            }
            i = i + 1;
        }
    }
    assert forall|j: int| !exceeds_at(op@, bundle@, j) by {}
    let mut out: Vec<(String, Vec<String>)> = Vec::new();
    let mut i: usize = 0;
    while i < n
        invariant
            n == op@.parameters.len(),
            i <= n,
            out@.map_values(|e: (String, Vec<String>)| query_entry_view(e)) == project(
                op@.parameters.subrange(0, i as int),
                bundle@,
            ),
        decreases n - i,
    {
        let p = op.parameters[i];
        let ghost before = out@;
        proof {
            let ps = op@.parameters.subrange(0, i + 1);
            assert(ps.drop_last() =~= op@.parameters.subrange(0, i as int));
            assert(ps.last() == p);
        }
        match bundle.get(p.key) {
            Some(v) => {
                let e = (p.key.to_owned(), encode(v));
                out.push(e);
                assert(out@.map_values(|e: (String, Vec<String>)| query_entry_view(e)) =~= before.map_values(
                    |e: (String, Vec<String>)| query_entry_view(e),
                ).push(query_entry_view(e)));
            },
            None => {},
        }
        i = i + 1;
    }
    assert(op@.parameters.subrange(0, n as int) =~= op@.parameters);
    Ok(UpstreamQuery { params: out })
}

/// The (key, value) pairs of a query, lists spread into one pair per element.
pub open spec fn flatten(q: Seq<(Seq<char>, Seq<Seq<char>>)>) -> Seq<(Seq<char>, Seq<char>)>
    decreases q.len(),
{
    if q.len() == 0 {
        Seq::empty()
    } else {
        flatten(q.drop_last()) + spread(q.last().0, q.last().1)
    }
}

/// One pair per value, each under `key`.
pub open spec fn spread(key: Seq<char>, values: Seq<Seq<char>>) -> Seq<(Seq<char>, Seq<char>)> {
    values.map_values(|v: Seq<char>| (key, v))
}

pub open spec fn pairs_view(v: Seq<(String, String)>) -> Seq<(Seq<char>, Seq<char>)> {
    v.map_values(|p: (String, String)| (p.0@, p.1@))
}

impl UpstreamQuery {
    pub fn len(&self) -> (r: usize)
        ensures
            r == self@.len(),
    {
        self.params.len()
    }

    /// The values sent under `key`.
    pub fn get(&self, key: &str) -> (r: Option<&Vec<String>>)
        ensures
            match r {
                Some(v) => value_for(self@, key@) == Some(texts_view(v@)),
                None => value_for(self@, key@) is None,
            },
    {
        let n = self.params.len();
        let mut i: usize = 0;
        assert(self@.subrange(0, n as int) =~= self@);
        while i < n
            invariant
                n == self@.len(),
                i <= n,
                value_for(self@, key@) == value_for(self@.subrange(i as int, n as int), key@),
            decreases n - i,
        {
            let ghost rest = self@.subrange(i as int, n as int);
            assert(rest[0] == self@[i as int]);
            if same_text(self.params[i].0.as_str(), key) {
                return Some(&self.params[i].1);
            }
            assert(rest.drop_first() =~= self@.subrange(i + 1, n as int));
            i = i + 1;
        }
        None
    }

    /// The query as (key, value) pairs, in order, one pair per list element.
    pub fn pairs(&self) -> (r: Vec<(String, String)>)
        ensures
            pairs_view(r@) == flatten(self@),
    {
        let mut out: Vec<(String, String)> = Vec::new();
        let n = self.params.len();
        let mut i: usize = 0;
        while i < n
            invariant
                n == self@.len(),
                i <= n,
                pairs_view(out@) == flatten(self@.subrange(0, i as int)),
            decreases n - i,
        {
            let key = &self.params[i].0;
            let values = &self.params[i].1;
            let ghost start = pairs_view(out@);
            let ghost vals = texts_view(values@);
            let m = values.len();
            let mut j: usize = 0;
            while j < m
                invariant
                    m == values@.len(),
                    j <= m,
                    vals == texts_view(values@),
                    pairs_view(out@) == start + spread(key@, vals.subrange(0, j as int)),
                decreases m - j,
            {
                let ghost before = pairs_view(out@);
                out.push((key.clone(), values[j].clone()));
                assert(pairs_view(out@) =~= before.push((key@, vals[j as int])));
                assert(spread(key@, vals.subrange(0, j + 1)) =~= spread(key@, vals.subrange(0, j as int)).push(
                    (key@, vals[j as int]),
                ));
                j = j + 1;
            }
            proof {
                let qs = self@.subrange(0, i + 1);
                assert(qs.drop_last() =~= self@.subrange(0, i as int));
                assert(qs.last() == self@[i as int]);
                assert(vals.subrange(0, m as int) =~= vals);
            }
            i = i + 1;
        }
        assert(self@.subrange(0, n as int) =~= self@);
        out
    }
}

/// Reads the values of one parameter back from its query values.
pub open spec fn decode_value(kind: ValueKind, vals: Seq<Seq<char>>) -> Option<ValueView> {
    match kind {
        ValueKind::Text => if vals.len() == 1 {
            Some(ValueView::Text(vals[0]))
        } else {
            None
        },
        ValueKind::Integer => if vals.len() == 1 && parse_decimal(vals[0]) is Some && in_i64(
            parse_decimal(vals[0])->0,
        ) {
            Some(ValueView::Integer(parse_decimal(vals[0])->0 as i64))
        } else {
            None
        },
        ValueKind::Boolean => if vals == seq![bool_text(true)] {
            Some(ValueView::Boolean(true))
        } else if vals == seq![bool_text(false)] {
            Some(ValueView::Boolean(false))
        } else {
            None
        },
        ValueKind::TextList => Some(ValueView::TextList(vals)),
        ValueKind::IntegerList => if forall|j: int|
            0 <= j < vals.len() ==> parse_decimal(#[trigger] vals[j]) is Some && in_i64(
                parse_decimal(vals[j])->0,
            ) {
            Some(ValueView::IntegerList(vals.map_values(|t: Seq<char>| parse_decimal(t)->0 as i64)))
        } else {
            None
        },
    }
}

/// Reads a bundle back from a query, parameter by parameter in declaration
/// order; `None` where some value does not read as its declared kind.
pub open spec fn decode(
    params: Seq<ParamSpec>,
    q: Seq<(Seq<char>, Seq<Seq<char>>)>,
) -> Option<Seq<(Seq<char>, ValueView)>>
    decreases params.len(),
{
    if params.len() == 0 {
        Some(Seq::empty())
    } else {
        match decode(params.drop_last(), q) {
            None => None,
            Some(d) => {
                let p = params.last();
                match value_for(q, p.key@) {
                    None => Some(d),
                    Some(vals) => match decode_value(p.kind, vals) {
                        Some(v) => Some(d.push((p.key@, v))),
                        None => None,
                    },
                }
            },
        }
    }
}

fn decode_one(kind: ValueKind, vals: &Vec<String>) -> (r: Option<ParamValue>)
    ensures
        match r {
            Some(v) => decode_value(kind, texts_view(vals@)) == Some(v@),
            None => decode_value(kind, texts_view(vals@)) is None,
        },
{
    let ghost tv = texts_view(vals@);
    proof {
        reveal_strlit("true");
        reveal_strlit("false");
    }
    match kind {
        ValueKind::Text => {
            if vals.len() == 1 {
                Some(ParamValue::Text(vals[0].clone()))
            } else {
                None
            }
        },
        ValueKind::Integer => {
            if vals.len() == 1 {
                match parse_i64(vals[0].as_str()) {
                    Some(v) => Some(ParamValue::Integer(v)),
                    None => None,
                }
            } else {
                None
            }
        },
        ValueKind::Boolean => {
            if vals.len() == 1 && same_text(vals[0].as_str(), "true") {
                assert(tv =~= seq![bool_text(true)]);
                Some(ParamValue::Boolean(true))
            } else if vals.len() == 1 && same_text(vals[0].as_str(), "false") {
                assert(tv =~= seq![bool_text(false)]);
                Some(ParamValue::Boolean(false))
            } else {
                assert(tv != seq![bool_text(true)] && tv != seq![bool_text(false)]) by {
                    if tv.len() == 1 {
                        assert(tv[0] == vals@[0]@);
                    }
                }
                None
            }
        },
        ValueKind::TextList => Some(ParamValue::TextList(clone_texts(vals))),
        ValueKind::IntegerList => {
            let mut out: Vec<i64> = Vec::new();
            let n = vals.len();
            let mut i: usize = 0;
            while i < n
                invariant
                    n == vals@.len(),
                    kind == ValueKind::IntegerList,
                    tv == texts_view(vals@),
                    i <= n,
                    out@.len() == i,
                    forall|j: int|
                        0 <= j < i ==> parse_decimal(#[trigger] tv[j]) is Some && in_i64(
                            parse_decimal(tv[j])->0,
                        ) && out@[j] == parse_decimal(tv[j])->0 as i64,
                decreases n - i,
            {
                match parse_i64(vals[i].as_str()) {
                    Some(v) => out.push(v),
                    None => {
                        assert(tv[i as int] == vals@[i as int]@);
                        return None;
                    },
                }
                i = i + 1;
            }
            let r = ParamValue::IntegerList(out);
            assert(out@ =~= tv.map_values(|t: Seq<char>| parse_decimal(t)->0 as i64));
            Some(r)
        },
    }
}

/// Reads a bundle back from `q` against the parameters of `op`.
pub fn decode_query(op: &OperationSpec, q: &UpstreamQuery) -> (r: Option<RequestBundle>)
    ensures
        match r {
            Some(b) => decode(op@.parameters, q@) == Some(b@),
            None => decode(op@.parameters, q@) is None,
        },
{
    let mut out = RequestBundle::new();
    let n = op.parameters.len();
    let mut i: usize = 0;
    while i < n
        invariant
            n == op@.parameters.len(),
            i <= n,
            decode(op@.parameters.subrange(0, i as int), q@) == Some(out@),
        decreases n - i,
    {
        let p = op.parameters[i];
        proof {
            let ps = op@.parameters.subrange(0, i + 1);
            assert(ps.drop_last() =~= op@.parameters.subrange(0, i as int));
            assert(ps.last() == p);
        }
        match q.get(p.key) {
            Some(vals) => match decode_one(p.kind, vals) {
                Some(v) => out.push(p.key.to_owned(), v),
                None => {
                    proof {
                        lemma_decode_none_extends(op@.parameters, q@, i as int + 1);
                    }
                    return None;
                },
            },
            None => {},
        }
        i = i + 1;
    }
    assert(op@.parameters.subrange(0, n as int) =~= op@.parameters);
    Some(out)
}

/// Once a prefix of the parameters fails to read back, the whole list does.
proof fn lemma_decode_none_extends(params: Seq<ParamSpec>, q: Seq<(Seq<char>, Seq<Seq<char>>)>, k: int)
    requires
        0 <= k <= params.len(),
        decode(params.subrange(0, k), q) is None,
    ensures
        decode(params, q) is None,
    decreases params.len() - k,
{
    if k == params.len() {
        assert(params.subrange(0, k) =~= params);
    } else {
        let ps = params.subrange(0, k + 1);
        assert(ps.drop_last() =~= params.subrange(0, k));
        lemma_decode_none_extends(params, q, k + 1);
    }
}

} // verus!
