use ankra::table::{Entry, Table, TableConfig, TableState};
use ankra::{AnkraEngine, AnkraResponse};
use std::collections::HashMap;

fn entry(character: char, sequence: &str) -> Entry {
    Entry { character, sequence: sequence.to_string() }
}

fn layout() -> (Table, TableConfig) {
    let entries = vec![
        entry('日', "a"),
        entry('曰', "a"),
        entry('手', "q"),
        entry('抙', "qq"),
        entry('掱', "qqq"),
    ];
    let table = Table { id: "cangjie5".to_string(), entries };
    let mut specs: HashMap<u16, Vec<String>> = HashMap::new();
    specs.insert(65, vec!["COMMIT".to_string()]);
    specs.insert(23, vec!["NEXT".to_string()]);
    specs.insert(25, vec!["PREV".to_string()]);
    specs.insert(9, vec!["ESCAPE".to_string()]);
    specs.insert(22, vec!["BACKSPACE".to_string()]);
    specs.insert(10, vec!["1".to_string()]);
    specs.insert(11, vec!["2".to_string()]);
    specs.insert(18, vec!["9".to_string()]);
    specs.insert(19, vec!["0".to_string()]);
    let mut keys: HashMap<u16, Vec<char>> = HashMap::new();
    keys.insert(38, vec!['a']);
    keys.insert(24, vec!['q']);
    (table, TableConfig { specs, keys })
}

fn engine() -> AnkraEngine {
    let (table, config) = layout();
    AnkraEngine::new(table, config)
}

fn assert_reset(state: &TableState) {
    assert_eq!(state.index, 0);
    assert!(state.key_sequence.is_empty());
    assert!(state.relative_entries.is_empty());
    assert!(state.previous_character.is_empty());
}

#[test]
fn reset_clears_everything() {
    let mut e = engine();
    assert_eq!(e.on_key_press(24), AnkraResponse::Suggest("手".to_string()));
    e.reset();
    assert_reset(&e.table);
    // a fresh composition starts over
    assert_eq!(e.on_key_press(38), AnkraResponse::Suggest("日".to_string()));
}

#[test]
fn commit_leaves_reset_state() {
    let mut e = engine();
    assert_eq!(e.on_key_press(38), AnkraResponse::Suggest("日".to_string()));
    assert_eq!(e.on_key_press(65), AnkraResponse::Commit("日".to_string()));
    assert_reset(&e.table);
}

#[test]
fn incremental_filter_equals_full_rescan() {
    let mut e = engine();
    e.on_key_press(24);
    e.on_key_press(24);
    // after each step the candidate list equals a full rescan of the
    // dictionary by the typed sequence; check it at this step
    let expect: Vec<char> = e
        .table
        .table
        .entries
        .iter()
        .filter(|en| en.sequence.starts_with(&e.table.key_sequence))
        .map(|en| en.character)
        .collect();
    let got: Vec<char> = e.table.relative_entries.iter().map(|en| en.character).collect();
    assert_eq!(got, expect);
    assert_eq!(e.table.key_sequence, "qq");
}

#[test]
fn next_clamps_at_end_prev_clamps_at_zero() {
    let mut e = engine();
    assert_eq!(e.on_key_press(38), AnkraResponse::Suggest("日".to_string()));
    assert_eq!(e.on_key_press(25), AnkraResponse::Suggest("日".to_string())); // prev at 0
    assert_eq!(e.on_key_press(23), AnkraResponse::Suggest("曰".to_string())); // next
    assert_eq!(e.on_key_press(23), AnkraResponse::Suggest("曰".to_string())); // next at end
    assert_eq!(e.on_key_press(25), AnkraResponse::Suggest("日".to_string())); // prev
}

#[test]
fn next_prev_on_empty_list_keep_index_zero() {
    let mut e = engine();
    // nothing typed: the candidate list is empty and next/prev fall through
    // to a full scan of the dictionary with an empty sequence
    assert_eq!(e.on_key_press(23), AnkraResponse::Undefined);
    assert_eq!(e.table.index, 0);
    assert_eq!(e.on_key_press(25), AnkraResponse::Undefined);
    assert_eq!(e.table.index, 0);
}

#[test]
fn digit_jump_selects_and_clamps() {
    let mut e = engine();
    e.on_key_press(38);
    assert_eq!(e.on_key_press(11), AnkraResponse::Suggest("曰".to_string())); // digit 2
    assert_eq!(e.on_key_press(10), AnkraResponse::Suggest("日".to_string())); // digit 1
    assert_eq!(e.on_key_press(18), AnkraResponse::Suggest("曰".to_string())); // digit 9 clamps
    assert_eq!(e.on_key_press(19), AnkraResponse::Suggest("日".to_string())); // digit 0 clamps
}

#[test]
fn backspace_on_empty_sequence_is_a_no_op() {
    let mut e = engine();
    // nothing typed yet: backspace must not underflow; the key is simply
    // not a composition key here
    assert_eq!(e.on_key_press(22), AnkraResponse::Undefined);
    assert_reset(&e.table);
}

#[test]
fn escape_abandons_composition() {
    let mut e = engine();
    assert_eq!(e.on_key_press(24), AnkraResponse::Suggest("手".to_string()));
    assert_eq!(e.on_key_press(9), AnkraResponse::Empty);
    assert_reset(&e.table);
    // escape outside a composition is not consumed
    assert_eq!(e.on_key_press(9), AnkraResponse::Undefined);
}

#[test]
fn unmapped_key_is_undefined() {
    let mut e = engine();
    assert_eq!(e.on_key_press(99), AnkraResponse::Undefined);
    // an unmapped key mid-composition keeps the sequence but stays quiet
    assert_eq!(e.on_key_press(24), AnkraResponse::Suggest("手".to_string()));
    assert_eq!(e.on_key_press(99), AnkraResponse::Suggest("手".to_string()));
}

#[test]
fn empty_dictionary_yields_empty() {
    let (_, config) = layout();
    let table = Table { id: "empty".to_string(), entries: Vec::new() };
    let mut e = AnkraEngine::new(table, config);
    assert_eq!(e.on_key_press(38), AnkraResponse::Empty);
    assert_eq!(e.on_key_press(99), AnkraResponse::Empty);
}

#[test]
fn commit_with_empty_sequence_is_undefined() {
    let mut e = engine();
    assert_eq!(e.on_key_press(65), AnkraResponse::Undefined);
}

#[test]
fn release_is_always_undefined() {
    let mut e = engine();
    assert_eq!(e.on_key_release(38), AnkraResponse::Undefined);
    e.on_key_press(38);
    assert_eq!(e.on_key_release(38), AnkraResponse::Undefined);
    // and it does not disturb the composition
    assert_eq!(e.on_key_press(65), AnkraResponse::Commit("日".to_string()));
}

#[test]
fn keycode_lookups_take_the_first_mapping() {
    let mut specs: HashMap<u16, Vec<String>> = HashMap::new();
    specs.insert(65, vec!["COMMIT".to_string(), "NEXT".to_string()]);
    specs.insert(66, Vec::new());
    let mut keys: HashMap<u16, Vec<char>> = HashMap::new();
    keys.insert(38, vec!['a', 'b']);
    let config = TableConfig { specs, keys };
    assert_eq!(config.keycode_to_spec(&65), Some("COMMIT"));
    assert_eq!(config.keycode_to_spec(&66), None);
    assert_eq!(config.keycode_to_spec(&67), None);
    assert_eq!(config.keycode_to_char(&38), Some(&'a'));
    assert_eq!(config.keycode_to_char(&67), None);
}

#[test]
fn load_order_breaks_candidate_ties() {
    let entries = vec![entry('曰', "a"), entry('日', "a")];
    let table = Table { id: "swapped".to_string(), entries };
    let (_, config) = layout();
    let mut e = AnkraEngine::new(table, config);
    assert_eq!(e.on_key_press(38), AnkraResponse::Suggest("曰".to_string()));
}
