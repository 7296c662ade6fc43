use zenoh_flat::keyexpr::{
    keyexpr_as_str, keyexpr_includes, keyexpr_intersects, keyexpr_new_autocanonize,
    keyexpr_new_clone, keyexpr_new_concat, keyexpr_new_join, keyexpr_new_try_from,
    keyexpr_relation_to, keyexpr_to_string, z_keyexpr_concat, z_keyexpr_get_str,
    z_keyexpr_join, z_keyexpr_relation_to, z_keyexpr_try_from, SetIntersectionLevel,
};

fn ke(s: &str) -> zenoh_flat::keyexpr::KeyExpr {
    keyexpr_new_try_from(s.to_string()).unwrap()
}

#[test]
fn try_from_accepts_canonical_and_refuses_others() {
    assert_eq!(keyexpr_as_str(&ke("demo/example/**")), "demo/example/**");
    assert!(keyexpr_new_try_from("".to_string()).is_err());
    assert!(keyexpr_new_try_from("a//b".to_string()).is_err());
    assert!(keyexpr_new_try_from("a/**/**".to_string()).is_err());
    assert!(keyexpr_new_try_from("/a".to_string()).is_err());
    assert!(z_keyexpr_try_from("a/b".to_string()).is_ok());
}

#[test]
fn autocanonize_normalizes() {
    let k = keyexpr_new_autocanonize("a/**/**".to_string()).unwrap();
    assert_eq!(keyexpr_to_string(&k), "a/**");
    let k = keyexpr_new_autocanonize("a/**/*".to_string()).unwrap();
    assert_eq!(keyexpr_to_string(&k), "a/*/**");
    assert!(keyexpr_new_autocanonize("a//b".to_string()).is_err());
}

#[test]
fn relations() {
    let all = ke("a/**");
    let one = ke("a/b");
    let other = ke("c/d");
    let star = ke("a/*");
    assert!(keyexpr_intersects(&all, &one));
    assert!(keyexpr_includes(&all, &one));
    assert!(!keyexpr_includes(&one, &all));
    assert!(!keyexpr_intersects(&one, &other));
    assert_eq!(keyexpr_relation_to(&all, &one), SetIntersectionLevel::Includes);
    assert_eq!(keyexpr_relation_to(&one, &all), SetIntersectionLevel::Intersects);
    assert_eq!(keyexpr_relation_to(&one, &other), SetIntersectionLevel::Disjoint);
    assert_eq!(keyexpr_relation_to(&one, &keyexpr_new_clone(&one)), SetIntersectionLevel::Equals);
    assert_eq!(z_keyexpr_relation_to(&star, &all), SetIntersectionLevel::Intersects);
}

#[test]
fn join_inserts_a_separator_and_canonizes() {
    let a = ke("a/b");
    assert_eq!(keyexpr_as_str(&keyexpr_new_join(&a, "c".to_string()).unwrap()), "a/b/c");
    assert_eq!(keyexpr_as_str(&keyexpr_new_join(&ke("a/**"), "**".to_string()).unwrap()), "a/**");
    assert!(keyexpr_new_join(&a, "".to_string()).is_err());
    assert!(z_keyexpr_join(&a, "c".to_string()).is_ok());
}

#[test]
fn concat_appends_without_separator() {
    let a = ke("a/b");
    assert_eq!(z_keyexpr_get_str(&keyexpr_new_concat(&a, "c".to_string()).unwrap()), "a/bc");
    assert!(keyexpr_new_concat(&ke("a/*"), "*".to_string()).is_err());
    assert!(keyexpr_new_concat(&a, "/".to_string()).is_err());
    assert!(z_keyexpr_concat(&a, "/c".to_string()).is_ok());
}

#[test]
fn set_relation_laws() {
    let exprs = ["a/*", "*/b", "a/b", "a/c", "a/**", "a/b/c", "**"].map(ke);
    for a in &exprs {
        assert!(keyexpr_intersects(a, a));
        assert!(keyexpr_includes(a, a));
        for b in &exprs {
            assert_eq!(keyexpr_intersects(a, b), keyexpr_intersects(b, a));
            if keyexpr_includes(a, b) {
                assert!(keyexpr_intersects(a, b));
                for c in &exprs {
                    if keyexpr_includes(b, c) {
                        assert!(keyexpr_includes(a, c));
                    }
                }
            }
        }
    }
    assert!(keyexpr_intersects(&ke("a/*"), &ke("*/b")));
    assert!(!keyexpr_intersects(&ke("a/b"), &ke("a/c")));
    assert!(keyexpr_includes(&ke("a/**"), &ke("a/b/c")));
    assert!(!keyexpr_includes(&ke("a/b/c"), &ke("a/**")));
}

#[test]
fn wildcard_runs_the_canonizer_steps_through() {
    // Runs of `$*` pairs that the canonizer handles without reading past the
    // end: two characters after the run, a run of three or four pairs, or a
    // run that starts its chunk.
    for text in ["a$*$*bc", "a$*$*$*", "a$*$*$*$*", "$*$*", "x/$*$*", "a$*$*\u{e9}"] {
        let _ = keyexpr_new_autocanonize(text.to_string());
    }
    let k = keyexpr_new_autocanonize("a$*$*bc".to_string()).unwrap();
    assert_eq!(keyexpr_to_string(&k), "a$*bc");
    let base = ke("a");
    let _ = keyexpr_new_join(&base, "x$*$*yz".to_string());
}
