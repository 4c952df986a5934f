//! What holds of every operation and bundle: what the query carries, when a
//! call is turned away before any request, and reading a query back.

use vstd::prelude::*;

use crate::bundle::{has_key, lemma_value_for_has_key, lemma_value_for_push, value_for, ValueView};
use crate::failure::Failure;
use crate::query::{
    admissible, bool_text, decode, decode_value, encode_value, exceeds_at, missing_at, project,
    rejection,
};
use crate::registry::{declares_key, keys_unique, lemma_registered_wf, registered, OperationView, ParamSpec};
use crate::text::{in_i64, lemma_parse_decimal_text, parse_decimal};

verus! {

/// Every value the query carries comes from the bundle, under a declared key.
proof fn lemma_project_lookup(
    params: Seq<ParamSpec>,
    bundle: Seq<(Seq<char>, ValueView)>,
    key: Seq<char>,
)
    requires
        keys_unique(params),
    ensures
        value_for(project(params, bundle), key) == (if declares_key(params, key) && value_for(
            bundle,
            key,
        ) is Some {
            Some(encode_value(value_for(bundle, key)->0))
        } else {
            None
        }),
    decreases params.len(),
{
    if params.len() == 0 {
        assert(value_for(Seq::<(Seq<char>, Seq<Seq<char>>)>::empty(), key) is None);
    } else {
        let init = params.drop_last();
        let p = params.last();
        assert(keys_unique(init)) by {
            assert forall|i: int, j: int|
                0 <= i < init.len() && 0 <= j < init.len() && i != j implies (#[trigger] init[i]).key@
                != (#[trigger] init[j]).key@ by {
                assert(init[i] == params[i] && init[j] == params[j]);
            }
        }
        lemma_project_lookup(init, bundle, key);
        let rest = project(init, bundle);
        if let Some(v) = value_for(bundle, p.key@) {
            lemma_value_for_push(rest, (p.key@, encode_value(v)), key);
        }
        lemma_declares_last(params, key);
    }
}

/// A key is declared by a list exactly when it is declared by all but the
/// last parameter or is the last one's; with unique keys, not both.
proof fn lemma_declares_last(params: Seq<ParamSpec>, key: Seq<char>)
    requires
        params.len() > 0,
        keys_unique(params),
    ensures
        declares_key(params, key) == (declares_key(params.drop_last(), key) || params.last().key@
            == key),
        params.last().key@ == key ==> !declares_key(params.drop_last(), key),
{
    let init = params.drop_last();
    if declares_key(params, key) {
        let i = choose|i: int| 0 <= i < params.len() && (#[trigger] params[i]).key@ == key;
        if i < params.len() - 1 {
            assert(init[i] == params[i]);
        }
    }
    if declares_key(init, key) {
        let i = choose|i: int| 0 <= i < init.len() && (#[trigger] init[i]).key@ == key;
        assert(init[i] == params[i]);
        assert(params.len() - 1 != i);
    }
    if params.last().key@ == key {
        assert(params[params.len() - 1].key@ == key);
    }
}

/// For a registered operation, a bundle that supplies exactly the required
/// parameters, with every list within the cap, is accepted, and its query
/// holds exactly the required keys, each with its serialized value.
pub proof fn lemma_required_only(name: Seq<char>, op: OperationView, bundle: Seq<(Seq<char>, ValueView)>)
    requires
        registered(name) == Some(op),
        forall|i: int|
            0 <= i < op.parameters.len() ==> (value_for(bundle, (#[trigger] op.parameters[i]).key@)
                is Some <==> op.parameters[i].required),
        forall|i: int| !exceeds_at(op, bundle, i),
    ensures
        admissible(op, bundle),
        forall|key: Seq<char>|
            value_for(#[trigger] project(op.parameters, bundle), key) == (if exists|i: int|
                0 <= i < op.parameters.len() && (#[trigger] op.parameters[i]).required
                    && op.parameters[i].key@ == key {
                Some(encode_value(value_for(bundle, key)->0))
            } else {
                None
            }),
        forall|j: int|
            0 <= j < project(op.parameters, bundle).len() ==> exists|i: int|
                0 <= i < op.parameters.len() && (#[trigger] op.parameters[i]).required
                    && op.parameters[i].key@ == (#[trigger] project(op.parameters, bundle)[j]).0,
{
    lemma_registered_wf(name);
    let q = project(op.parameters, bundle);
    assert forall|i: int| !missing_at(op, bundle, i) by {}
    assert forall|key: Seq<char>|
        value_for(#[trigger] project(op.parameters, bundle), key) == (if exists|i: int|
            0 <= i < op.parameters.len() && (#[trigger] op.parameters[i]).required
                && op.parameters[i].key@ == key {
            Some(encode_value(value_for(bundle, key)->0))
        } else {
            None
        }) by {
        lemma_project_lookup(op.parameters, bundle, key);
        if declares_key(op.parameters, key) {
            let i = choose|i: int|
                0 <= i < op.parameters.len() && (#[trigger] op.parameters[i]).key@ == key;
            if exists|i2: int|
                0 <= i2 < op.parameters.len() && (#[trigger] op.parameters[i2]).required
                    && op.parameters[i2].key@ == key {
                let i2 = choose|i2: int|
                    0 <= i2 < op.parameters.len() && (#[trigger] op.parameters[i2]).required
                        && op.parameters[i2].key@ == key;
                assert(i == i2);
            }
        }
    }
    assert forall|j: int| 0 <= j < q.len() implies exists|i: int|
        0 <= i < op.parameters.len() && (#[trigger] op.parameters[i]).required
            && op.parameters[i].key@ == (#[trigger] q[j]).0 by {
        let key = q[j].0;
        assert(has_key(q, key));
        lemma_value_for_has_key(q, key);
        lemma_project_lookup(op.parameters, bundle, key);
        let i = choose|i: int|
            0 <= i < op.parameters.len() && (#[trigger] op.parameters[i]).key@ == key;
        assert(op.parameters[i].required);
    }
}

/// A parameter the bundle leaves out never reaches the query: no entry, not
/// even an empty one, carries its key.
pub proof fn lemma_absent_not_sent(
    params: Seq<ParamSpec>,
    bundle: Seq<(Seq<char>, ValueView)>,
    key: Seq<char>,
)
    requires
        value_for(bundle, key) is None,
    ensures
        forall|j: int|
            0 <= j < project(params, bundle).len() ==> (#[trigger] project(params, bundle)[j]).0
                != key,
    decreases params.len(),
{
    if params.len() > 0 {
        lemma_absent_not_sent(params.drop_last(), bundle, key);
        let rest = project(params.drop_last(), bundle);
        let p = params.last();
        if let Some(v) = value_for(bundle, p.key@) {
            let q = rest.push((p.key@, encode_value(v)));
            assert forall|j: int| 0 <= j < q.len() implies (#[trigger] q[j]).0 != key by {
                if j < rest.len() {
                    assert(q[j] == rest[j]);
                }
            }
        }
    }
}

/// A required parameter that is absent turns the call away with
/// `MissingParameter`, so no request is made.
pub proof fn lemma_missing_rejected(op: OperationView, bundle: Seq<(Seq<char>, ValueView)>, i: int)
    requires
        0 <= i < op.parameters.len(),
        op.parameters[i].required,
        value_for(bundle, op.parameters[i].key@) is None,
    ensures
        !admissible(op, bundle),
        forall|f: Failure| #[trigger] rejection(op, bundle, f) ==> f is MissingParameter,
{
    assert(missing_at(op, bundle, i));
}

/// With the required parameters present, a list longer than the operation's
/// cap turns the call away with `LimitExceeded`, so no request is made.
pub proof fn lemma_over_limit_rejected(op: OperationView, bundle: Seq<(Seq<char>, ValueView)>, i: int)
    requires
        0 <= i < op.parameters.len(),
        forall|j: int| !missing_at(op, bundle, j),
        op.multi_value_limit matches Some(limit) && value_for(bundle, op.parameters[i].key@) matches Some(
            v,
        ) && v.list_len() matches Some(n) && n > limit,
    ensures
        !admissible(op, bundle),
        forall|f: Failure| #[trigger] rejection(op, bundle, f) ==> f is LimitExceeded,
{
    assert(exceeds_at(op, bundle, i));
}

/// The bundle's values each have the kind their parameter declares.
pub open spec fn conforms(params: Seq<ParamSpec>, bundle: Seq<(Seq<char>, ValueView)>) -> bool {
    forall|i: int|
        0 <= i < params.len() ==> (value_for(bundle, (#[trigger] params[i]).key@) matches Some(v)
            ==> v.kind() == params[i].kind)
}

proof fn lemma_decode_encode(v: ValueView)
    ensures
        decode_value(v.kind(), encode_value(v)) == Some(v),
{
    match v {
        ValueView::Integer(i) => {
            lemma_parse_decimal_text(i as int);
        },
        ValueView::Boolean(b) => {
            reveal_strlit("true");
            reveal_strlit("false");
            assert(bool_text(true) != bool_text(false));
            assert(seq![bool_text(true)][0] != seq![bool_text(false)][0]);
        },
        ValueView::IntegerList(l) => {
            let vals = encode_value(v);
            assert forall|j: int| 0 <= j < vals.len() implies parse_decimal(#[trigger] vals[j]) is Some
                && in_i64(parse_decimal(vals[j])->0) by {
                lemma_parse_decimal_text(l[j] as int);
            }
            assert forall|j: int| 0 <= j < l.len() implies vals.map_values(
                |t: Seq<char>| parse_decimal(t)->0 as i64,
            )[j] == l[j] by {
                lemma_parse_decimal_text(l[j] as int);
            }
            assert(vals.map_values(|t: Seq<char>| parse_decimal(t)->0 as i64) =~= l);
        },
        _ => {},
    }
}

/// Reading the query of a bundle back against the same parameters gives
/// the bundle's values for exactly the declared keys it supplies.
pub proof fn lemma_round_trip(params: Seq<ParamSpec>, bundle: Seq<(Seq<char>, ValueView)>)
    requires
        keys_unique(params),
        conforms(params, bundle),
    ensures
        decode(params, project(params, bundle)) matches Some(d) && forall|key: Seq<char>|
            #[trigger] value_for(d, key) == (if declares_key(params, key) {
                value_for(bundle, key)
            } else {
                None
            }),
{
    lemma_round_trip_prefix(params, bundle, params.len() as int);
    assert(params.subrange(0, params.len() as int) =~= params);
}

proof fn lemma_round_trip_prefix(params: Seq<ParamSpec>, bundle: Seq<(Seq<char>, ValueView)>, n: int)
    requires
        keys_unique(params),
        conforms(params, bundle),
        0 <= n <= params.len(),
    ensures
        decode(params.subrange(0, n), project(params, bundle)) matches Some(d) && forall|key: Seq<char>|
            #[trigger] value_for(d, key) == (if declares_key(params.subrange(0, n), key) {
                value_for(bundle, key)
            } else {
                None
            }),
    decreases n,
{
    let q = project(params, bundle);
    let ps = params.subrange(0, n);
    if n == 0 {
        let d = Seq::<(Seq<char>, ValueView)>::empty();
        assert forall|key: Seq<char>| #[trigger] value_for(d, key) == (if declares_key(ps, key) {
            value_for(bundle, key)
        } else {
            None
        }) by {}
    } else {
        lemma_round_trip_prefix(params, bundle, n - 1);
        let init = params.subrange(0, n - 1);
        assert(ps.drop_last() =~= init);
        let d0 = decode(init, q)->0;
        let p = params[n - 1];
        assert(ps.last() == p);
        assert(keys_unique(ps)) by {
            assert forall|i: int, j: int|
                0 <= i < ps.len() && 0 <= j < ps.len() && i != j implies (#[trigger] ps[i]).key@
                != (#[trigger] ps[j]).key@ by {
                assert(ps[i] == params[i] && ps[j] == params[j]);
            }
        }
        lemma_project_lookup(params, bundle, p.key@);
        assert(declares_key(params, p.key@)) by {
            assert(params[n - 1].key@ == p.key@);
        }
        match value_for(bundle, p.key@) {
            None => {
                assert forall|key: Seq<char>| #[trigger] value_for(d0, key) == (if declares_key(ps, key) {
                    value_for(bundle, key)
                } else {
                    None
                }) by {
                    lemma_declares_last(ps, key);
                }
            },
            Some(v) => {
                assert(v.kind() == p.kind) by {
                    assert(params[n - 1] == p);
                }
                lemma_decode_encode(v);
                let d = d0.push((p.key@, v));
                assert forall|key: Seq<char>| #[trigger] value_for(d, key) == (if declares_key(ps, key) {
                    value_for(bundle, key)
                } else {
                    None
                }) by {
                    lemma_declares_last(ps, key);
                    lemma_value_for_push(d0, (p.key@, v), key);
                }
            },
        }
    }
}

} // verus!
