//! Parameter bundles: the values supplied for one invocation, by key.

use vstd::prelude::*;

use crate::registry::ValueKind;
use crate::text::same_text;

verus! {

/// One parameter value.
#[derive(Debug)]
pub enum ParamValue {
    Text(String),
    Integer(i64),
    Boolean(bool),
    TextList(Vec<String>),
    IntegerList(Vec<i64>),
}

pub enum ValueView {
    Text(Seq<char>),
    Integer(i64),
    Boolean(bool),
    TextList(Seq<Seq<char>>),
    IntegerList(Seq<i64>),
}

pub open spec fn texts_view(v: Seq<String>) -> Seq<Seq<char>> {
    v.map_values(|s: String| s@)
}

impl View for ParamValue {
    type V = ValueView;

    open spec fn view(&self) -> ValueView {
        match self {
            ParamValue::Text(s) => ValueView::Text(s@),
            ParamValue::Integer(i) => ValueView::Integer(*i),
            ParamValue::Boolean(b) => ValueView::Boolean(*b),
            ParamValue::TextList(l) => ValueView::TextList(texts_view(l@)),
            ParamValue::IntegerList(l) => ValueView::IntegerList(l@),
        }
    }
}

impl ValueView {
    pub open spec fn kind(&self) -> ValueKind {
        match self {
            ValueView::Text(_) => ValueKind::Text,
            ValueView::Integer(_) => ValueKind::Integer,
            ValueView::Boolean(_) => ValueKind::Boolean,
            ValueView::TextList(_) => ValueKind::TextList,
            ValueView::IntegerList(_) => ValueKind::IntegerList,
        }
    }

    /// The number of values a list holds; `None` for a scalar.
    pub open spec fn list_len(&self) -> Option<nat> {
        match self {
            ValueView::TextList(l) => Some(l.len()),
            ValueView::IntegerList(l) => Some(l.len()),
            _ => None,
        }
    }
}

impl ParamValue {
    pub fn kind(&self) -> (r: ValueKind)
        ensures
            r == self@.kind(),
    {
        match self {
            ParamValue::Text(_) => ValueKind::Text,
            ParamValue::Integer(_) => ValueKind::Integer,
            ParamValue::Boolean(_) => ValueKind::Boolean,
            ParamValue::TextList(_) => ValueKind::TextList,
            ParamValue::IntegerList(_) => ValueKind::IntegerList,
        }
    }

    /// The number of values a list holds; `None` for a scalar.
    pub fn list_len(&self) -> (r: Option<usize>)
        ensures
            match r {
                Some(n) => self@.list_len() == Some(n as nat),
                None => self@.list_len() is None,
            },
    {
        match self {
            ParamValue::TextList(l) => Some(l.len()),
            ParamValue::IntegerList(l) => Some(l.len()),
            _ => None,
        }
    }
}

/// The value stored under `key` in a sequence of keyed entries: the first
/// entry with that key.
pub open spec fn value_for<V>(entries: Seq<(Seq<char>, V)>, key: Seq<char>) -> Option<V>
    decreases entries.len(),
{
    if entries.len() == 0 {
        None
    } else if entries[0].0 == key {
        Some(entries[0].1)
    } else {
        value_for(entries.drop_first(), key)
    }
}

/// Whether some entry has key `key`.
pub open spec fn has_key<V>(entries: Seq<(Seq<char>, V)>, key: Seq<char>) -> bool {
    exists|i: int| 0 <= i < entries.len() && (#[trigger] entries[i]).0 == key
}

pub proof fn lemma_value_for_has_key<V>(entries: Seq<(Seq<char>, V)>, key: Seq<char>)
    ensures
        value_for(entries, key) is Some <==> has_key(entries, key),
    decreases entries.len(),
{
    if entries.len() > 0 {
        lemma_value_for_has_key(entries.drop_first(), key);
        if has_key(entries, key) && entries[0].0 != key {
            let i = choose|i: int| 0 <= i < entries.len() && (#[trigger] entries[i]).0 == key;
            assert(entries.drop_first()[i - 1].0 == key);
        }
        if has_key(entries.drop_first(), key) {
            let i = choose|i: int| 0 <= i < entries.len() - 1 && (#[trigger] entries.drop_first()[i]).0 == key;
            assert(entries[i + 1].0 == key);
        }
    }
}

/// Appending an entry leaves every key that was present as it was.
pub proof fn lemma_value_for_push<V>(entries: Seq<(Seq<char>, V)>, e: (Seq<char>, V), key: Seq<char>)
    ensures
        value_for(entries.push(e), key) == (if value_for(entries, key) is Some {
            value_for(entries, key)
        } else if e.0 == key {
            Some(e.1)
        } else {
            None
        }),
    decreases entries.len(),
{
    if entries.len() > 0 {
        assert(entries.push(e).drop_first() =~= entries.drop_first().push(e));
        assert(entries.push(e)[0] == entries[0]);
        lemma_value_for_push(entries.drop_first(), e, key);
    } else {
        assert(entries.push(e).drop_first() =~= Seq::<(Seq<char>, V)>::empty());
        assert(value_for(Seq::<(Seq<char>, V)>::empty(), key) is None);
    }
}

/// The values supplied for one invocation, by key.
#[derive(Debug)]
pub struct RequestBundle {
    entries: Vec<(String, ParamValue)>,
}

pub open spec fn entry_view(e: (String, ParamValue)) -> (Seq<char>, ValueView) {
    (e.0@, e.1@)
}

impl View for RequestBundle {
    type V = Seq<(Seq<char>, ValueView)>;

    closed spec fn view(&self) -> Seq<(Seq<char>, ValueView)> {
        self.entries@.map_values(|e: (String, ParamValue)| entry_view(e))
    }
}

impl RequestBundle {
    /// An empty bundle.
    pub fn new() -> (r: Self)
        ensures
            r@ == Seq::<(Seq<char>, ValueView)>::empty(),
    {
        let r = RequestBundle { entries: Vec::new() };
        assert(r@ =~= Seq::<(Seq<char>, ValueView)>::empty());
        r
    }

    pub fn len(&self) -> (r: usize)
        ensures
            r == self@.len(),
    {
        self.entries.len()
    }

    /// The position of the entry with key `key`, if any.
    fn position(&self, key: &str) -> (r: Option<usize>)
        ensures
            match r {
                Some(i) => i < self@.len() && value_for(self@, key@) == Some(self@[i as int].1)
                    && self@[i as int].0 == key@,
                None => value_for(self@, key@) is None,
            },
    {
        let n = self.entries.len();
        let mut i: usize = 0;
        assert(self@.subrange(0, n as int) =~= self@);
        while i < n
            invariant
                n == self@.len(),
                i <= n,
                value_for(self@, key@) == value_for(self@.subrange(i as int, n as int), key@),
            decreases n - i,
        {
            let ghost rest = self@.subrange(i as int, n as int);
            assert(rest[0] == self@[i as int]);
            if same_text(self.entries[i].0.as_str(), key) {
                return Some(i);
            }
            assert(rest.drop_first() =~= self@.subrange(i + 1, n as int));
            i = i + 1;
        }
        None
    }

    /// The value supplied under `key`.
    pub fn get(&self, key: &str) -> (r: Option<&ParamValue>)
        ensures
            match r {
                Some(v) => value_for(self@, key@) == Some(v@),
                None => value_for(self@, key@) is None,
            },
    {
        match self.position(key) {
            Some(i) => Some(&self.entries[i].1),
            None => None,
        }
    }

    /// Adds `value` under `key` unless the bundle already holds that key;
    /// returns whether it was added.
    pub fn insert(&mut self, key: String, value: ParamValue) -> (r: bool)
        ensures
            r == (value_for(old(self)@, key@) is None),
            r ==> final(self)@ == old(self)@.push((key@, value@)),
            !r ==> final(self)@ == old(self)@,
    {
        if self.position(key.as_str()).is_some() {
            return false;
        }
        let ghost before = self@;
        let ghost e = (key@, value@);
        self.entries.push((key, value));
        assert(self@ =~= before.push(e));
        true
    }

    /// Appends an entry without looking for an earlier one under its key.
    pub(crate) fn push(&mut self, key: String, value: ParamValue)
        ensures
            final(self)@ == old(self)@.push((key@, value@)),
    {
        let ghost before = self@;
        let ghost e = (key@, value@);
        self.entries.push((key, value));
        assert(self@ =~= before.push(e));
    }
}

} // verus!
