//! A JSON document as the login logic reads it: objects as their entries,
//! numbers by their value as an unsigned 64-bit integer where they have one.
use crate::text::str_eq;
use vstd::prelude::*;

verus! {

#[derive(Debug)]
pub enum JsonValue {
    Null,
    Bool(bool),
    /// A number, with its value when it is an integer in `0..=u64::MAX`.
    Number(Option<u64>),
    String(String),
    Array(Vec<JsonValue>),
    /// An object's entries; each key occurs once.
    Object(Vec<(String, JsonValue)>),
}

/// The value that an object holds under `key` (`Value::get` with a string
/// key): `None` for anything but an object.
pub open spec fn json_get(v: JsonValue, key: Seq<char>) -> Option<JsonValue> {
    match v {
        JsonValue::Object(entries) => entries_get(entries@, key),
        _ => None,
    }
}

pub open spec fn entries_get(es: Seq<(String, JsonValue)>, key: Seq<char>) -> Option<JsonValue>
    decreases es.len(),
{
    if es.len() == 0 {
        None
    } else if es[0].0@ == key {
        Some(es[0].1)
    } else {
        entries_get(es.drop_first(), key)
    }
}

/// `Value::as_str`.
pub open spec fn json_as_str(v: JsonValue) -> Option<Seq<char>> {
    match v {
        JsonValue::String(s) => Some(s@),
        _ => None,
    }
}

/// `Value::as_bool`.
pub open spec fn json_as_bool(v: JsonValue) -> Option<bool> {
    match v {
        JsonValue::Bool(b) => Some(b),
        _ => None,
    }
}

/// `Value::as_u64`.
pub open spec fn json_as_u64(v: JsonValue) -> Option<u64> {
    match v {
        JsonValue::Number(n) => n,
        _ => None,
    }
}

/// `json_get` followed by `json_as_str`, as `.get(key).and_then(Value::as_str)`.
pub open spec fn json_get_str(v: JsonValue, key: Seq<char>) -> Option<Seq<char>> {
    match json_get(v, key) {
        Some(x) => json_as_str(x),
        None => None,
    }
}

impl JsonValue {
    /// The value held under `key`, if this is an object that has one.
    pub fn get(&self, key: &str) -> (r: Option<&JsonValue>)
        ensures
            match r {
                Some(x) => json_get(*self, key@) == Some(*x),
                None => json_get(*self, key@) is None,
            },
    {
        match self {
            JsonValue::Object(entries) => {
                let n = entries.len();
                assert(entries@.skip(0) =~= entries@);
                for i in 0..n
                    invariant
                        n == entries@.len(),
                        json_get(*self, key@) == entries_get(entries@.skip(i as int), key@),
                        *self == JsonValue::Object(*entries),
                {
                    assert(entries@.skip(i as int)[0] == entries@[i as int]);
                    if str_eq(entries[i].0.as_str(), key) {
                        return Some(&entries[i].1);
                    }
                    assert(entries@.skip(i as int).drop_first() =~= entries@.skip(i + 1));
                }
                None
            },
            _ => None,
        }
    }

    pub fn as_str(&self) -> (r: Option<&str>)
        ensures
            match r {
                Some(s) => json_as_str(*self) == Some(s@),
                None => json_as_str(*self) is None,
            },
    {
        match self {
            JsonValue::String(s) => Some(s.as_str()),
            _ => None,
        }
    }

    pub fn as_bool(&self) -> (r: Option<bool>)
        ensures
            r == json_as_bool(*self),
    {
        match self {
            JsonValue::Bool(b) => Some(*b),
            _ => None,
        }
    }

    pub fn as_u64(&self) -> (r: Option<u64>)
        ensures
            r == json_as_u64(*self),
    {
        match self {
            JsonValue::Number(n) => *n,
            _ => None,
        }
    }
}

/// Keys under which a provider token would travel.
pub open spec fn is_provider_token_key(k: Seq<char>) -> bool {
    ||| k == "access_token"@
    ||| k == "refresh_token"@
    ||| k == "id_token"@
    ||| k == "provider_token"@
    ||| k == "oauth_token"@
}

/// Whether a provider token key occurs anywhere in the document.
pub open spec fn json_mentions_token(v: JsonValue) -> bool
    decreases v,
{
    match v {
        JsonValue::Object(entries) => entries_mention_token(entries@),
        JsonValue::Array(items) => items_mention_token(items@),
        _ => false,
    }
}

pub open spec fn entries_mention_token(es: Seq<(String, JsonValue)>) -> bool
    decreases es,
{
    if es.len() == 0 {
        false
    } else {
        is_provider_token_key(es[0].0@) || json_mentions_token(es[0].1) || entries_mention_token(
            es.drop_first(),
        )
    }
}

pub open spec fn items_mention_token(items: Seq<JsonValue>) -> bool
    decreases items,
{
    if items.len() == 0 {
        false
    } else {
        json_mentions_token(items[0]) || items_mention_token(items.drop_first())
    }
}

/// A document mentions a provider token when an object in it, at any
/// depth, has the key `access_token`, `refresh_token`, `id_token`,
/// `provider_token` or `oauth_token`; a scalar mentions none.
pub proof fn token_keys_are_found_at_any_depth(v: JsonValue)
    ensures
        v matches JsonValue::Object(entries) && (exists|k: int|
            0 <= k < entries@.len() && (#[trigger] entries@[k].0@ == "access_token"@
                || entries@[k].0@ == "refresh_token"@ || entries@[k].0@ == "id_token"@
                || entries@[k].0@ == "provider_token"@ || entries@[k].0@ == "oauth_token"@))
            ==> json_mentions_token(v),
        v matches JsonValue::Object(entries) && (exists|k: int|
            0 <= k < entries@.len() && json_mentions_token(#[trigger] entries@[k].1)) ==> json_mentions_token(v),
        v matches JsonValue::Array(items) && (exists|k: int|
            0 <= k < items@.len() && json_mentions_token(#[trigger] items@[k])) ==> json_mentions_token(v),
        (v is Null || v is Bool || v is Number || v is String) ==> !json_mentions_token(v),
{
    match v {
        JsonValue::Object(entries) => {
            if exists|k: int|
                0 <= k < entries@.len() && (#[trigger] entries@[k].0@ == "access_token"@
                    || entries@[k].0@ == "refresh_token"@ || entries@[k].0@ == "id_token"@
                    || entries@[k].0@ == "provider_token"@ || entries@[k].0@ == "oauth_token"@) {
                let k = choose|k: int|
                    0 <= k < entries@.len() && (#[trigger] entries@[k].0@ == "access_token"@
                        || entries@[k].0@ == "refresh_token"@ || entries@[k].0@ == "id_token"@
                        || entries@[k].0@ == "provider_token"@ || entries@[k].0@ == "oauth_token"@);
                lemma_entries_mention(entries@, k);
            }
            if exists|k: int| 0 <= k < entries@.len() && json_mentions_token(#[trigger] entries@[k].1) {
                let k = choose|k: int| 0 <= k < entries@.len() && json_mentions_token(#[trigger] entries@[k].1);
                lemma_entries_mention(entries@, k);
            }
        },
        JsonValue::Array(items) => {
            if exists|k: int| 0 <= k < items@.len() && json_mentions_token(#[trigger] items@[k]) {
                let k = choose|k: int| 0 <= k < items@.len() && json_mentions_token(#[trigger] items@[k]);
                lemma_items_mention(items@, k);
            }
        },
        _ => {},
    }
}

proof fn lemma_entries_mention(es: Seq<(String, JsonValue)>, k: int)
    requires
        0 <= k < es.len(),
        is_provider_token_key(es[k].0@) || json_mentions_token(es[k].1),
    ensures
        entries_mention_token(es),
    decreases es.len(),
{
    if k > 0 {
        assert(es.drop_first()[k - 1] == es[k]);
        lemma_entries_mention(es.drop_first(), k - 1);
    }
}

proof fn lemma_items_mention(items: Seq<JsonValue>, k: int)
    requires
        0 <= k < items.len(),
        json_mentions_token(items[k]),
    ensures
        items_mention_token(items),
    decreases items.len(),
{
    if k > 0 {
        assert(items.drop_first()[k - 1] == items[k]);
        lemma_items_mention(items.drop_first(), k - 1);
    }
}

fn is_provider_token_key_exec(k: &str) -> (r: bool)
    ensures
        r == is_provider_token_key(k@),
{
    str_eq(k, "access_token") || str_eq(k, "refresh_token") || str_eq(k, "id_token") || str_eq(
        k,
        "provider_token",
    ) || str_eq(k, "oauth_token")
}

/// Whether a document carries a provider token field at any depth.
pub fn contains_provider_token_field(value: &JsonValue) -> (r: bool)
    ensures
        r == json_mentions_token(*value),
    decreases value,
{
    match value {
        JsonValue::Object(entries) => {
            let n = entries.len();
            assert(entries@.skip(0) =~= entries@);
            for i in 0..n
                invariant
                    n == entries@.len(),
                    *value == JsonValue::Object(*entries),
                    json_mentions_token(*value) == entries_mention_token(entries@.skip(i as int)),
            {
                let ghost rest = entries@.skip(i as int);
                assert(rest[0] == entries@[i as int]);
                assert(decreases_to!(*value => entries@[i as int].1)) by {
                    assert(decreases_to!(*value => *entries));
                    assert(decreases_to!(*entries => entries@));
                    assert(decreases_to!(entries@ => entries@[i as int]));
                    assert(decreases_to!(entries@[i as int] => entries@[i as int].1));
                }
                if is_provider_token_key_exec(entries[i].0.as_str()) || contains_provider_token_field(
                    &entries[i].1,
                ) {
                    return true;
                }
                assert(rest.drop_first() =~= entries@.skip(i + 1));
            }
            false
        },
        JsonValue::Array(items) => {
            let n = items.len();
            assert(items@.skip(0) =~= items@);
            for i in 0..n
                invariant
                    n == items@.len(),
                    *value == JsonValue::Array(*items),
                    json_mentions_token(*value) == items_mention_token(items@.skip(i as int)),
            {
                let ghost rest = items@.skip(i as int);
                assert(rest[0] == items@[i as int]);
                assert(decreases_to!(*value => items@[i as int])) by {
                    assert(decreases_to!(*value => *items));
                    assert(decreases_to!(*items => items@));
                    assert(decreases_to!(items@ => items@[i as int]));
                }
                if contains_provider_token_field(&items[i]) {
                    return true;
                }
                assert(rest.drop_first() =~= items@.skip(i + 1));
            }
            false
        },
        _ => false,
    }
}

// ---------------------------------------------------------------------
// Documents as plain values
// ---------------------------------------------------------------------

/// A JSON document over plain values: what two documents are compared by.
pub enum JsonView {
    Null,
    Bool(bool),
    Number(Option<u64>),
    Str(Seq<char>),
    Array(Seq<JsonView>),
    Object(Seq<(Seq<char>, JsonView)>),
}

pub open spec fn json_view(v: JsonValue) -> JsonView
    decreases v,
{
    match v {
        JsonValue::Null => JsonView::Null,
        JsonValue::Bool(b) => JsonView::Bool(b),
        JsonValue::Number(n) => JsonView::Number(n),
        JsonValue::String(s) => JsonView::Str(s@),
        JsonValue::Array(items) => JsonView::Array(items_view(items@)),
        JsonValue::Object(entries) => JsonView::Object(entries_view(entries@)),
    }
}

pub open spec fn items_view(items: Seq<JsonValue>) -> Seq<JsonView>
    decreases items,
{
    if items.len() == 0 {
        Seq::empty()
    } else {
        seq![json_view(items[0])] + items_view(items.drop_first())
    }
}

pub open spec fn entries_view(es: Seq<(String, JsonValue)>) -> Seq<(Seq<char>, JsonView)>
    decreases es,
{
    if es.len() == 0 {
        Seq::empty()
    } else {
        seq![(es[0].0@, json_view(es[0].1))] + entries_view(es.drop_first())
    }
}

pub proof fn lemma_items_view(items: Seq<JsonValue>)
    ensures
        items_view(items).len() == items.len(),
        forall|i: int| 0 <= i < items.len() ==> #[trigger] items_view(items)[i] == json_view(items[i]),
    decreases items.len(),
{
    if items.len() > 0 {
        lemma_items_view(items.drop_first());
        assert forall|i: int| 0 <= i < items.len() implies #[trigger] items_view(items)[i]
            == json_view(items[i]) by {
            if i > 0 {
                assert(items.drop_first()[i - 1] == items[i]);
            }
        }
    }
}

pub proof fn lemma_entries_view(es: Seq<(String, JsonValue)>)
    ensures
        entries_view(es).len() == es.len(),
        forall|i: int| 0 <= i < es.len() ==> #[trigger] entries_view(es)[i] == (es[i].0@, json_view(es[i].1)),
    decreases es.len(),
{
    if es.len() > 0 {
        lemma_entries_view(es.drop_first());
        assert forall|i: int| 0 <= i < es.len() implies #[trigger] entries_view(es)[i] == (
        es[i].0@, json_view(es[i].1)) by {
            if i > 0 {
                assert(es.drop_first()[i - 1] == es[i]);
            }
        }
    }
}

/// Whether two documents are the same document.
pub fn json_same(a: &JsonValue, b: &JsonValue) -> (r: bool)
    ensures
        r == (json_view(*a) == json_view(*b)),
    decreases a,
{
    match (a, b) {
        (JsonValue::Null, JsonValue::Null) => true,
        (JsonValue::Bool(x), JsonValue::Bool(y)) => *x == *y,
        (JsonValue::Number(x), JsonValue::Number(y)) => match (x, y) {
            (Some(p), Some(q)) => *p == *q,
            (None, None) => true,
            _ => false,
        },
        (JsonValue::String(x), JsonValue::String(y)) => str_eq(x.as_str(), y.as_str()),
        (JsonValue::Array(x), JsonValue::Array(y)) => {
            proof {
                lemma_items_view(x@);
                lemma_items_view(y@);
            }
            if x.len() != y.len() {
                assert(items_view(x@).len() != items_view(y@).len());
                return false;
            }
            let n = x.len();
            for i in 0..n
                invariant
                    n == x@.len(),
                    n == y@.len(),
                    *a == JsonValue::Array(*x),
                    *b == JsonValue::Array(*y),
                    items_view(x@).len() == n,
                    items_view(y@).len() == n,
                    forall|k: int| 0 <= k < x@.len() ==> #[trigger] items_view(x@)[k] == json_view(x@[k]),
                    forall|k: int| 0 <= k < y@.len() ==> #[trigger] items_view(y@)[k] == json_view(y@[k]),
                    forall|k: int| 0 <= k < i ==> json_view(#[trigger] x@[k]) == json_view(y@[k]),
            {
                assert(decreases_to!(*a => x@[i as int])) by {
                    assert(decreases_to!(*a => *x));
                    assert(decreases_to!(*x => x@));
                    assert(decreases_to!(x@ => x@[i as int]));
                }
                if !json_same(&x[i], &y[i]) {
                    assert(items_view(x@)[i as int] != items_view(y@)[i as int]);
                    return false;
                }
            }
            assert(items_view(x@) =~= items_view(y@));
            true
        },
        (JsonValue::Object(x), JsonValue::Object(y)) => {
            proof {
                lemma_entries_view(x@);
                lemma_entries_view(y@);
            }
            if x.len() != y.len() {
                assert(entries_view(x@).len() != entries_view(y@).len());
                return false;
            }
            let n = x.len();
            for i in 0..n
                invariant
                    n == x@.len(),
                    n == y@.len(),
                    *a == JsonValue::Object(*x),
                    *b == JsonValue::Object(*y),
                    entries_view(x@).len() == n,
                    entries_view(y@).len() == n,
                    forall|k: int| 0 <= k < x@.len() ==> #[trigger] entries_view(x@)[k] == (x@[k].0@, json_view(x@[k].1)),
                    forall|k: int| 0 <= k < y@.len() ==> #[trigger] entries_view(y@)[k] == (y@[k].0@, json_view(y@[k].1)),
                    forall|k: int| 0 <= k < i ==> #[trigger] entries_view(x@)[k] == entries_view(y@)[k],
            {
                assert(decreases_to!(*a => x@[i as int].1)) by {
                    assert(decreases_to!(*a => *x));
                    assert(decreases_to!(*x => x@));
                    assert(decreases_to!(x@ => x@[i as int]));
                    assert(decreases_to!(x@[i as int] => x@[i as int].1));
                }
                if !str_eq(x[i].0.as_str(), y[i].0.as_str()) || !json_same(&x[i].1, &y[i].1) {
                    assert(entries_view(x@)[i as int] != entries_view(y@)[i as int]);
                    return false;
                }
            }
            assert(entries_view(x@) =~= entries_view(y@));
            true
        },
        _ => false,
    }
}

} // verus!
