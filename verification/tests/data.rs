use alma_negra::interpreter::{chunk_bounds, RECOGNIZER_CHUNK_LEN};
use alma_negra::models::{DarkSoulsData, DarkSoulsUsers};
use alma_negra::repository::{string_to_hasmap, try_string_to_hasmap};
use std::collections::HashMap;

#[test]
fn chunks_of_empty_recording() {
    assert!(chunk_bounds(0, RECOGNIZER_CHUNK_LEN).is_empty());
}

#[test]
fn chunks_exact_multiple() {
    assert_eq!(chunk_bounds(8000, 4000), vec![(0, 4000), (4000, 8000)]);
}

#[test]
fn chunks_with_rest() {
    assert_eq!(chunk_bounds(9001, 4000), vec![(0, 4000), (4000, 8000), (8000, 9001)]);
    assert_eq!(chunk_bounds(3, 4000), vec![(0, 3)]);
}

#[test]
fn chunks_agree_with_slice_chunks() {
    let samples: Vec<i16> = (0..10_123).map(|x| (x % 100) as i16).collect();
    let expected: Vec<&[i16]> = samples.chunks(RECOGNIZER_CHUNK_LEN).collect();
    let got: Vec<&[i16]> = chunk_bounds(samples.len(), RECOGNIZER_CHUNK_LEN)
        .into_iter()
        .map(|(s, e)| &samples[s..e])
        .collect();
    assert_eq!(got, expected);
}

#[test]
fn json_object_is_read() {
    let map = string_to_hasmap(r#"{"alice": {"deaths": 3}, "bob": [1, 2]}"#);
    let mut keys: Vec<&String> = map.keys().collect();
    keys.sort();
    assert_eq!(keys, vec!["alice", "bob"]);
    assert_eq!(map["bob"].as_array().map(|a| a.len()), Some(2));
    assert_eq!(map["alice"]["deaths"].as_u64(), Some(3));
}

#[test]
fn non_object_json_is_refused() {
    assert!(try_string_to_hasmap("[1, 2, 3]").is_none());
    assert!(try_string_to_hasmap("42").is_none());
}

#[test]
fn invalid_json_is_refused() {
    assert!(try_string_to_hasmap("{\"a\": ").is_none());
    assert!(try_string_to_hasmap("").is_none());
}

#[test]
fn try_reads_valid_object() {
    let map = try_string_to_hasmap(r#"{"x": null}"#).unwrap();
    assert_eq!(map.len(), 1);
    assert!(map["x"].is_null());
}

#[test]
fn user_statistics_keep_deaths() {
    let user = DarkSoulsUsers::new(17);
    assert_eq!(user.deaths(), 17);
    let mut users = HashMap::new();
    users.insert("solaire".to_string(), user);
    let data = DarkSoulsData { users };
    assert_eq!(data.users["solaire"].deaths(), 17);
}

#[test]
fn repeated_json_key_gives_one_entry() {
    let map = string_to_hasmap(r#"{"a": 1, "a": 2}"#);
    assert_eq!(map.len(), 1);
    assert_eq!(map["a"].as_u64(), Some(2));
}
