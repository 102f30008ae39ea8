use clusterflux::durable_map::{entries_from_json, entries_to_json};
use clusterflux::json::JsonValue;

fn text(s: &str) -> JsonValue {
    JsonValue::String(s.to_owned())
}

fn composite_key(tenant: &str, project: &str) -> JsonValue {
    JsonValue::Array(vec![text(tenant), text(project)])
}

fn same(a: &JsonValue, b: &JsonValue) -> bool {
    match (a, b) {
        (JsonValue::Null, JsonValue::Null) => true,
        (JsonValue::Bool(x), JsonValue::Bool(y)) => x == y,
        (JsonValue::Number(x), JsonValue::Number(y)) => x == y,
        (JsonValue::String(x), JsonValue::String(y)) => x == y,
        (JsonValue::Array(x), JsonValue::Array(y)) => {
            x.len() == y.len() && x.iter().zip(y).all(|(p, q)| same(p, q))
        }
        (JsonValue::Object(x), JsonValue::Object(y)) => {
            x.len() == y.len() && x.iter().zip(y).all(|(p, q)| p.0 == q.0 && same(&p.1, &q.1))
        }
        _ => false,
    }
}

fn same_entries(a: &[(JsonValue, JsonValue)], b: &[(JsonValue, JsonValue)]) -> bool {
    a.len() == b.len() && a.iter().zip(b).all(|(p, q)| same(&p.0, &q.0) && same(&p.1, &q.1))
}

fn fixture() -> Vec<(JsonValue, JsonValue)> {
    vec![(composite_key("tenant", "project"), JsonValue::Number(Some(7)))]
}

#[test]
fn composite_durable_map_round_trips_as_entries_and_reads_legacy_empty_object() {
    let encoded = entries_to_json(fixture());
    assert!(matches!(encoded, JsonValue::Array(_)));
    let decoded = entries_from_json(encoded).expect("entries");
    assert!(same_entries(&decoded, &fixture()));
    let legacy = entries_from_json(JsonValue::Object(Vec::new())).expect("entries");
    assert!(legacy.is_empty());
}

fn two_entries() -> Vec<(JsonValue, JsonValue)> {
    vec![
        (composite_key("a", "1"), JsonValue::Bool(true)),
        (composite_key("b", "2"), JsonValue::Null),
    ]
}

#[test]
fn entries_are_written_as_two_element_arrays_in_order() {
    let encoded = entries_to_json(two_entries());
    let expected = JsonValue::Array(vec![
        JsonValue::Array(vec![composite_key("a", "1"), JsonValue::Bool(true)]),
        JsonValue::Array(vec![composite_key("b", "2"), JsonValue::Null]),
    ]);
    assert!(same(&encoded, &expected));
    let decoded = entries_from_json(encoded).expect("entries");
    assert!(same_entries(&decoded, &two_entries()));
}

#[test]
fn other_documents_are_not_persisted_maps() {
    let populated_object = JsonValue::Object(vec![("k".to_owned(), JsonValue::Null)]);
    assert!(entries_from_json(populated_object).is_none());
    assert!(entries_from_json(JsonValue::Array(vec![JsonValue::Array(vec![JsonValue::Null])])).is_none());
    assert!(entries_from_json(JsonValue::Array(vec![JsonValue::Null])).is_none());
    assert!(entries_from_json(text("entries")).is_none());
    assert!(entries_from_json(JsonValue::Array(Vec::new())).expect("entries").is_empty());
}

#[test]
fn a_later_entry_for_a_key_replaces_an_earlier_one() {
    let encoded = JsonValue::Array(vec![
        JsonValue::Array(vec![composite_key("t", "p"), JsonValue::Number(Some(1))]),
        JsonValue::Array(vec![composite_key("u", "q"), JsonValue::Number(Some(5))]),
        JsonValue::Array(vec![composite_key("t", "p"), JsonValue::Number(Some(2))]),
    ]);
    let decoded = entries_from_json(encoded).expect("entries");
    assert!(same_entries(
        &decoded,
        &[
            (composite_key("t", "p"), JsonValue::Number(Some(2))),
            (composite_key("u", "q"), JsonValue::Number(Some(5))),
        ]
    ));
}
