use zenoh_flat::config::{
    config_get_json,
    config_insert_json5,
    config_new_clone,
    config_new_default,
    config_new_from_json,
    config_new_from_json5,
    config_new_from_yaml,
    z_config_clone,
    z_config_default,
    z_config_from_json,
    z_config_from_json5,
    z_config_from_yaml,
    z_config_get_json,
    z_config_insert_json5,
};
use zenoh_flat::error::error_get_message;

#[test]
fn json5_and_yaml_parse() {
    let c = config_new_from_json5("{ mode: \"client\" }").unwrap();
    assert_eq!(config_get_json(&c, "mode").unwrap(), "\"client\"");
    assert!(config_new_from_json("{\"mode\": \"peer\"}").is_ok());
    let e = config_new_from_json5("{ mode: ").unwrap_err();
    assert!(error_get_message(&e).starts_with("JSON error: "));
    let y = config_new_from_yaml("mode: router\n").unwrap();
    assert_eq!(config_get_json(&y, "mode").unwrap(), "\"router\"");
    assert!(error_get_message(&config_new_from_yaml("mode: [").unwrap_err()).starts_with("YAML error: "));
}

#[test]
fn insert_and_clone() {
    let mut c = config_new_default();
    config_insert_json5(&mut c, "mode", "\"client\"").unwrap();
    let d = config_new_clone(&c);
    assert_eq!(config_get_json(&d, "mode").unwrap(), "\"client\"");
    assert!(config_insert_json5(&mut c, "no/such/key", "1").is_err());
    let mut z = z_config_clone(&z_config_default());
    assert!(z_config_insert_json5(&mut z, "mode", "\"peer\"").is_ok());
    assert_eq!(z_config_get_json(&z, "mode").unwrap(), "\"peer\"");
    assert!(z_config_from_json5("{}").is_ok());
    assert!(z_config_from_json("{}").is_ok());
    assert!(z_config_from_yaml("{}").is_ok());
}

#[test]
fn json_parses_as_json5() {
    let a = config_new_from_json("{\"mode\": \"client\"}").unwrap();
    let b = config_new_from_json5("{\"mode\": \"client\"}").unwrap();
    assert_eq!(config_get_json(&a, "mode").unwrap(), config_get_json(&b, "mode").unwrap());
    let ea = error_get_message(&config_new_from_json("{").unwrap_err());
    let eb = error_get_message(&config_new_from_json5("{").unwrap_err());
    assert_eq!(ea, eb);
    assert!(ea.starts_with("JSON error: "));
}

#[test]
fn failed_insert_reports_and_read_after_write() {
    let mut c = config_new_default();
    let before = config_get_json(&c, "mode").unwrap();
    let e = config_insert_json5(&mut c, "mode", "42").unwrap_err();
    assert!(!error_get_message(&e).is_empty());
    assert_eq!(config_get_json(&c, "mode").unwrap(), before);
    config_insert_json5(&mut c, "mode", "\"router\"").unwrap();
    assert_eq!(config_get_json(&c, "mode").unwrap(), "\"router\"");
    assert!(config_get_json(&c, "no/such/key").is_err());
}
