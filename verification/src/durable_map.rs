//! How a durable map with composite keys is persisted: as the JSON array of
//! its entries, each a two-element array of key and value. Older records
//! wrote an empty map as `{}`, which still reads as no entries. Reading
//! collects the entries into a map, where a later entry for a key replaces
//! an earlier one.
use crate::json::{json_same, json_view, JsonValue, JsonView};
use vstd::prelude::*;

verus! {

/// The key and value that a two-element array holds.
pub open spec fn pair_of(item: JsonValue) -> (JsonValue, JsonValue) {
    match item {
        JsonValue::Array(p) => (p@[0], p@[1]),
        _ => (JsonValue::Null, JsonValue::Null),
    }
}

pub open spec fn is_pair(item: JsonValue) -> bool {
    item matches JsonValue::Array(p) && p@.len() == 2
}

/// The entries that a persisted map holds: `{}` holds none, an array of
/// two-element arrays holds one entry per element, in order; anything else
/// is not a persisted map.
pub open spec fn decode_entries(value: JsonValue) -> Option<Seq<(JsonValue, JsonValue)>> {
    match value {
        JsonValue::Object(es) => if es@.len() == 0 {
            Some(Seq::empty())
        } else {
            None
        },
        JsonValue::Array(items) => if forall|i: int| 0 <= i < items@.len() ==> is_pair(
            #[trigger] items@[i],
        ) {
            Some(Seq::new(items@.len(), |i: int| pair_of(items@[i])))
        } else {
            None
        },
        _ => None,
    }
}

/// `value` is the array that persists `entries`.
pub open spec fn encodes_entries(value: JsonValue, entries: Seq<(JsonValue, JsonValue)>) -> bool {
    value matches JsonValue::Array(items) && items@.len() == entries.len() && forall|i: int|
        0 <= i < entries.len() ==> (#[trigger] items@[i] matches JsonValue::Array(p) && p@ == seq![
            entries[i].0,
            entries[i].1,
        ])
}

/// The array that persists `entries`.
pub fn entries_to_json(entries: Vec<(JsonValue, JsonValue)>) -> (r: JsonValue)
    ensures
        encodes_entries(r, entries@),
{
    let ghost all = entries@;
    let mut rest = entries;
    let mut items: Vec<JsonValue> = Vec::new();
    while rest.len() > 0
        invariant
            all == all.take(items@.len() as int) + rest@,
            items@.len() <= all.len(),
            forall|i: int|
                0 <= i < items@.len() ==> (#[trigger] items@[i] matches JsonValue::Array(p) && p@
                    == seq![all[i].0, all[i].1]),
        decreases rest@.len(),
    {
        let ghost k = items@.len() as int;
        let ghost before = rest@;
        let (key, value) = rest.remove(0);
        assert(all[k] == (key, value)) by {
            assert(all[k] == (all.take(k) + before)[k]);
        }
        let mut pair: Vec<JsonValue> = Vec::new();
        pair.push(key);
        pair.push(value);
        assert(pair@ =~= seq![all[k].0, all[k].1]);
        items.push(JsonValue::Array(pair));
        assert(all.take(k + 1) =~= all.take(k).push(all[k]));
        assert(all == all.take(k + 1) + rest@);
    }
    assert(all.take(items@.len() as int) =~= all);
    JsonValue::Array(items)
}

/// The entries that `value` persists, as written, or `None` when it
/// persists none.
#[verifier::loop_isolation(false)]
fn decoded_entries(value: JsonValue) -> (r: Option<Vec<(JsonValue, JsonValue)>>)
    ensures
        match r {
            Some(v) => decode_entries(value) == Some(v@),
            None => decode_entries(value) is None,
        },
{
    match value {
        JsonValue::Object(es) => {
            if es.len() == 0 {
                let out: Vec<(JsonValue, JsonValue)> = Vec::new();
                assert(out@ =~= Seq::<(JsonValue, JsonValue)>::empty());
                Some(out)
            } else {
                None
            }
        },
        JsonValue::Array(items) => {
            let ghost all = items@;
            let mut rest = items;
            let mut out: Vec<(JsonValue, JsonValue)> = Vec::new();
            while rest.len() > 0
                invariant
                    all == all.take(out@.len() as int) + rest@,
                    out@.len() <= all.len(),
                    forall|i: int| 0 <= i < out@.len() ==> is_pair(#[trigger] all[i]),
                    forall|i: int| 0 <= i < out@.len() ==> #[trigger] out@[i] == pair_of(all[i]),
                decreases rest@.len(),
            {
                let ghost k = out@.len() as int;
                let ghost before = rest@;
                let item = rest.remove(0);
                assert(all[k] == item) by {
                    assert(all[k] == (all.take(k) + before)[k]);
                }
                match item {
                    JsonValue::Array(mut p) => {
                        if p.len() != 2 {
                            assert(!is_pair(all[k]));
                            return None;
                        }
                        let ghost pv = p@;
                        let second = p.pop().unwrap();
                        let first = p.pop().unwrap();
                        assert(first == pv[0] && second == pv[1]);
                        out.push((first, second));
                        assert(out@[k] == pair_of(all[k]));
                    },
                    _ => {
                        assert(!is_pair(all[k]));
                        return None;
                    },
                }
                assert(all.take(k + 1) =~= all.take(k).push(all[k]));
                assert(all == all.take(k + 1) + rest@);
            }
            assert(all.take(out@.len() as int) =~= all);
            assert(out@ =~= Seq::new(all.len(), |i: int| pair_of(all[i])));
            Some(out)
        },
        _ => None,
    }
}

/// The map that `value` persists: its entries collected with the later
/// entry for a key winning, or `None` when `value` persists no map.
pub fn entries_from_json(value: JsonValue) -> (r: Option<Vec<(JsonValue, JsonValue)>>)
    ensures
        match r {
            Some(v) => decode_entries(value) matches Some(d) && keys_distinct(v@) && entries_map(v@)
                == entries_map(d),
            None => decode_entries(value) is None,
        },
{
    match decoded_entries(value) {
        Some(entries) => Some(collect_entries(entries)),
        None => None,
    }
}

/// Reading back what was persisted gives the entries that were written, in
/// the order they were written.
pub proof fn persisted_entries_read_back(value: JsonValue, entries: Seq<(JsonValue, JsonValue)>)
    requires
        encodes_entries(value, entries),
    ensures
        decode_entries(value) == Some(entries),
{
    let items = value->Array_0;
    assert forall|i: int| 0 <= i < items@.len() implies is_pair(#[trigger] items@[i]) by {
        assert(items@[i] matches JsonValue::Array(p) && p@ == seq![entries[i].0, entries[i].1]);
    }
    assert(Seq::new(items@.len(), |i: int| pair_of(items@[i])) =~= entries) by {
        assert forall|i: int| 0 <= i < entries.len() implies #[trigger] pair_of(items@[i])
            == entries[i] by {
            assert(items@[i] matches JsonValue::Array(p) && p@ == seq![entries[i].0, entries[i].1]);
        }
    }
}

// ---------------------------------------------------------------------
// Collecting entries into a map
// ---------------------------------------------------------------------

/// The map that a sequence of entries builds when each entry is inserted
/// in turn: a later entry for a key replaces an earlier one.
pub open spec fn entries_map(entries: Seq<(JsonValue, JsonValue)>) -> Map<JsonView, JsonView>
    decreases entries.len(),
{
    if entries.len() == 0 {
        Map::empty()
    } else {
        entries_map(entries.drop_last()).insert(
            json_view(entries.last().0),
            json_view(entries.last().1),
        )
    }
}

/// No two entries have the same key.
pub open spec fn keys_distinct(entries: Seq<(JsonValue, JsonValue)>) -> bool {
    forall|i: int, j: int|
        0 <= i < j < entries.len() ==> json_view(#[trigger] entries[i].0) != json_view(
            #[trigger] entries[j].0,
        )
}

proof fn lemma_entries_map_update(
    out: Seq<(JsonValue, JsonValue)>,
    j: int,
    e: (JsonValue, JsonValue),
)
    requires
        keys_distinct(out),
        0 <= j < out.len(),
        json_view(out[j].0) == json_view(e.0),
    ensures
        entries_map(out.update(j, e)) == entries_map(out).insert(json_view(e.0), json_view(e.1)),
        keys_distinct(out.update(j, e)),
    decreases out.len(),
{
    let u = out.update(j, e);
    assert(keys_distinct(u)) by {
        assert forall|a: int, b: int| 0 <= a < b < u.len() implies json_view(#[trigger] u[a].0)
            != json_view(#[trigger] u[b].0) by {
            assert(json_view(out[a].0) != json_view(out[b].0));
        }
    }
    if j == out.len() - 1 {
        assert(u.drop_last() =~= out.drop_last());
        assert(entries_map(u) =~= entries_map(out).insert(json_view(e.0), json_view(e.1)));
    } else {
        let d = out.drop_last();
        assert(keys_distinct(d)) by {
            assert forall|a: int, b: int| 0 <= a < b < d.len() implies json_view(#[trigger] d[a].0)
                != json_view(#[trigger] d[b].0) by {
                assert(d[a] == out[a] && d[b] == out[b]);
            }
        }
        lemma_entries_map_update(d, j, e);
        assert(u.drop_last() =~= d.update(j, e));
        assert(u.last() == out.last());
        assert(json_view(out[j].0) != json_view(out[out.len() - 1].0));
        assert(entries_map(u) =~= entries_map(out).insert(json_view(e.0), json_view(e.1)));
    }
}

/// The entries collected into a map: each key once, with the value of its
/// last entry.
pub fn collect_entries(entries: Vec<(JsonValue, JsonValue)>) -> (r: Vec<(JsonValue, JsonValue)>)
    ensures
        keys_distinct(r@),
        entries_map(r@) == entries_map(entries@),
{
    let ghost all = entries@;
    let mut rest = entries;
    let mut out: Vec<(JsonValue, JsonValue)> = Vec::new();
    let ghost mut done: int = 0;
    while rest.len() > 0
        invariant
            0 <= done <= all.len(),
            all == all.take(done) + rest@,
            keys_distinct(out@),
            entries_map(out@) == entries_map(all.take(done)),
        decreases rest@.len(),
    {
        let ghost before = rest@;
        let (key, value) = rest.remove(0);
        assert(all[done] == (key, value)) by {
            assert(all[done] == (all.take(done) + before)[done]);
        }
        assert(all.take(done + 1).drop_last() =~= all.take(done));
        let mut found: Option<usize> = None;
        let n = out.len();
        for j in 0..n
            invariant
                n == out@.len(),
                found is None ==> forall|k: int| 0 <= k < j ==> json_view(#[trigger] out@[k].0)
                    != json_view(key),
                found matches Some(f) ==> f < n && json_view(out@[f as int].0) == json_view(key),
        {
            if found.is_none() && json_same(&out[j].0, &key) {
                found = Some(j);
            }
        }
        let ghost prev = out@;
        match found {
            Some(f) => {
                proof {
                    lemma_entries_map_update(prev, f as int, (key, value));
                }
                out.set(f, (key, value));
            },
            None => {
                out.push((key, value));
                assert(out@.drop_last() =~= prev);
                assert(keys_distinct(out@)) by {
                    assert forall|a: int, b: int| 0 <= a < b < out@.len() implies json_view(
                        #[trigger] out@[a].0,
                    ) != json_view(#[trigger] out@[b].0) by {
                        if b == out@.len() - 1 {
                            assert(out@[a] == prev[a]);
                        } else {
                            assert(out@[a] == prev[a] && out@[b] == prev[b]);
                        }
                    }
                }
            },
        }
        proof {
            done = done + 1;
        }
        assert(all == all.take(done) + rest@) by {
            assert(all.take(done) =~= all.take(done - 1).push(all[done - 1]));
            assert(before =~= seq![all[done - 1]] + rest@);
        }
    }
    assert(all.take(done) =~= all);
    out
}

/// Among entries for the same key, the last one decides the key's value.
pub proof fn later_entries_win(entries: Seq<(JsonValue, JsonValue)>, i: int)
    requires
        0 <= i < entries.len(),
        forall|j: int| i < j < entries.len() ==> json_view(#[trigger] entries[j].0) != json_view(
            entries[i].0,
        ),
    ensures
        entries_map(entries).contains_key(json_view(entries[i].0)),
        entries_map(entries)[json_view(entries[i].0)] == json_view(entries[i].1),
    decreases entries.len(),
{
    if i < entries.len() - 1 {
        let d = entries.drop_last();
        assert forall|j: int| i < j < d.len() implies json_view(#[trigger] d[j].0) != json_view(
            d[i].0,
        ) by {
            assert(d[j] == entries[j]);
        }
        later_entries_win(d, i);
        assert(json_view(entries[entries.len() - 1].0) != json_view(entries[i].0));
    }
}

/// Every key that occurs among the entries is in the map, and nothing else.
pub proof fn collected_keys_are_the_entries_keys(entries: Seq<(JsonValue, JsonValue)>, k: JsonView)
    ensures
        entries_map(entries).contains_key(k) <==> exists|i: int|
            0 <= i < entries.len() && json_view(#[trigger] entries[i].0) == k,
    decreases entries.len(),
{
    if entries.len() > 0 {
        let d = entries.drop_last();
        collected_keys_are_the_entries_keys(d, k);
        if exists|i: int| 0 <= i < d.len() && json_view(#[trigger] d[i].0) == k {
            let i = choose|i: int| 0 <= i < d.len() && json_view(#[trigger] d[i].0) == k;
            assert(entries[i] == d[i]);
        }
        if exists|i: int| 0 <= i < entries.len() && json_view(#[trigger] entries[i].0) == k {
            let i = choose|i: int| 0 <= i < entries.len() && json_view(#[trigger] entries[i].0) == k;
            if i < d.len() {
                assert(d[i] == entries[i]);
            }
        }
    }
}

} // verus!
