use zenoh_flat::parameters::{
    parameters_contains_key, parameters_extend, parameters_get, parameters_insert,
    parameters_is_well_formed, parameters_remove, parameters_values,
};

#[test]
fn lookups_return_the_first_occurrence() {
    let s = "a=1;b=2|3;a=4;c";
    assert_eq!(parameters_get(s, "a"), Some("1".to_string()));
    assert_eq!(parameters_get(s, "c"), Some("".to_string()));
    assert_eq!(parameters_get(s, "d"), None);
    assert!(parameters_contains_key(s, "c"));
    assert!(!parameters_contains_key(s, "d"));
    assert_eq!(parameters_values(s, "b"), vec!["2".to_string(), "3".to_string()]);
    assert!(parameters_values(s, "d").is_empty());
}

#[test]
fn value_is_split_on_first_equal_sign() {
    assert_eq!(parameters_get("k=v=w", "k"), Some("v=w".to_string()));
}

#[test]
fn mutations_rebuild_normalized_text() {
    assert_eq!(parameters_insert("a=1;b=2;a=3", "a", "9"), "b=2;a=9");
    assert_eq!(parameters_remove("a=1;b=2;a=3", "a"), "b=2");
    assert_eq!(parameters_remove("a=1;b=2", "z"), "a=1;b=2");
    assert_eq!(parameters_extend("a=1;b=2", "b=3;c=4"), "a=1;b=3;c=4");
    assert_eq!(parameters_insert("", "k", ""), "k");
}

#[test]
fn trailing_separators_are_ignored() {
    assert_eq!(parameters_get("a=1;;;", "a"), Some("1".to_string()));
    assert_eq!(parameters_get("a=1|", "a"), Some("1".to_string()));
}

#[test]
fn well_formedness() {
    assert!(parameters_is_well_formed("a=1;b"));
    assert!(!parameters_is_well_formed(""));
    assert!(!parameters_is_well_formed(";;"));
    assert!(!parameters_is_well_formed("a=1;=2"));
}

#[test]
fn insert_then_get_reads_back_the_value() {
    let s = "a=1;b=2|3;a=4;=x;c";
    let r = parameters_insert(s, "a", "9");
    assert_eq!(r, "b=2|3;c;a=9");
    assert_eq!(parameters_get(&r, "a"), Some("9".to_string()));
    assert_eq!(parameters_get(&r, "b"), parameters_get(s, "b"));
    assert_eq!(parameters_get(&r, "c"), parameters_get(s, "c"));
    let r = parameters_insert(s, "new", "v=w|z");
    assert_eq!(parameters_get(&r, "new"), Some("v=w|z".to_string()));
    assert_eq!(parameters_values(&r, "new"), vec!["v=w".to_string(), "z".to_string()]);
    assert_eq!(parameters_get(&r, "a"), Some("1".to_string()));
}

#[test]
fn insert_of_a_value_ending_in_a_separator_is_trimmed_on_reading() {
    let r = parameters_insert("a=1", "k", "v|");
    assert_eq!(r, "a=1;k=v|");
    assert_eq!(parameters_get(&r, "k"), Some("v".to_string()));
}

#[test]
fn remove_then_get_finds_nothing() {
    let s = "a=1;b=2;a=3;c";
    let r = parameters_remove(s, "a");
    assert_eq!(parameters_get(&r, "a"), None);
    assert!(!parameters_contains_key(&r, "a"));
    assert_eq!(parameters_get(&r, "b"), Some("2".to_string()));
    assert_eq!(parameters_get(&r, "c"), Some("".to_string()));
}

#[test]
fn remove_can_expose_a_trimmed_key() {
    let r = parameters_remove("k|;k=1", "k");
    assert_eq!(r, "k|");
    assert_eq!(parameters_get(&r, "k"), Some("".to_string()));
}

#[test]
fn extend_prefers_the_other_values() {
    let s = "a=1;b=2;d";
    let o = "b=3;c=4;b=5";
    let r = parameters_extend(s, o);
    assert_eq!(r, "a=1;d;b=3;c=4;b=5");
    assert_eq!(parameters_get(&r, "b"), Some("3".to_string()));
    assert_eq!(parameters_get(&r, "c"), Some("4".to_string()));
    assert_eq!(parameters_get(&r, "a"), Some("1".to_string()));
    assert_eq!(parameters_get(&r, "d"), Some("".to_string()));
}

#[test]
fn a_second_removal_changes_nothing() {
    let r = parameters_remove("b=2;a=1;c=3;a=4;=x", "a");
    assert_eq!(r, "b=2;c=3");
    assert_eq!(parameters_remove(&r, "a"), r);
}
