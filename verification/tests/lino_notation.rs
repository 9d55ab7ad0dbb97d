use trader_bot::lino_args::lino::{flatten_leaves, parse_lino, LinoValue};

fn get_number(value: &LinoValue, path: &str) -> Option<f64> {
    value
        .get(path)
        .and_then(|v| v.as_number_text())
        .and_then(|t| t.parse::<f64>().ok())
}

fn leaf_text(value: &LinoValue) -> String {
    match value {
        LinoValue::String(s) => s.clone(),
        LinoValue::Number(n) => n.clone(),
        LinoValue::Bool(b) => b.to_string(),
        _ => String::new(),
    }
}

fn flatten_to_env(value: &LinoValue, prefix: &str) -> Vec<(String, String)> {
    flatten_leaves(value, prefix)
        .into_iter()
        .map(|(k, v)| (k, leaf_text(v)))
        .collect()
}

#[test]
fn test_parse_simple_key_value() {
    let content = r"
key value
another_key another_value
";
    let result = parse_lino(content).unwrap();
    assert_eq!(result.get_str("key"), Some("value"));
    assert_eq!(result.get_str("another_key"), Some("another_value"));
}

#[test]
fn test_parse_nested_structure() {
    let content = r"
settings
  log_level info
  verbose false
";
    let result = parse_lino(content).unwrap();
    assert_eq!(result.get_str("settings/log_level"), Some("info"));
    assert_eq!(result.get_bool("settings/verbose"), Some(false));
}

#[test]
fn test_parse_deeply_nested() {
    let content = r"
users
  user1
    name John
    accounts
      main
        balance 1000
";
    let result = parse_lino(content).unwrap();
    assert_eq!(result.get_str("users/user1/name"), Some("John"));
    assert_eq!(
        get_number(&result, "users/user1/accounts/main/balance"),
        Some(1000.0)
    );
}

#[test]
fn test_parse_with_colons() {
    let content = r"
settings:
  log_level: info
  verbose: false
";
    let result = parse_lino(content).unwrap();
    assert_eq!(result.get_str("settings/log_level"), Some("info"));
}

#[test]
fn test_parse_allocation_config() {
    let content = r"
allocation
  SBER 30
  LKOH 30
  GAZP 40
";
    let result = parse_lino(content).unwrap();
    assert_eq!(get_number(&result, "allocation/SBER"), Some(30.0));
    assert_eq!(get_number(&result, "allocation/LKOH"), Some(30.0));
    assert_eq!(get_number(&result, "allocation/GAZP"), Some(40.0));
}

#[test]
fn test_parse_comments() {
    let content = r"
# This is a comment
key value
# Another comment
another_key value2
";
    let result = parse_lino(content).unwrap();
    assert_eq!(result.get_str("key"), Some("value"));
    assert_eq!(result.get_str("another_key"), Some("value2"));
}

#[test]
fn test_flatten_to_env() {
    let content = r"
settings
  log_level info
  verbose true
";
    let result = parse_lino(content).unwrap();
    let env_vars = flatten_to_env(&result, "");

    assert!(env_vars.contains(&("SETTINGS_LOG_LEVEL".to_string(), "info".to_string())));
    assert!(env_vars.contains(&("SETTINGS_VERBOSE".to_string(), "true".to_string())));
}

#[test]
fn test_parse_list_items() {
    let content = r"
users
  (
    name John
    broker tbank
  )
  (
    name Jane
    broker binance
  )
";
    let result = parse_lino(content).unwrap();
    if let Some(LinoValue::List(users)) = result.get("users") {
        assert_eq!(users.len(), 2);
    } else {
        panic!("Expected users to be a list");
    }
}

#[test]
fn test_parse_quoted_keys() {
    let content = r#"
"log level" info
"dry run" false
"#;
    let result = parse_lino(content).unwrap();
    assert_eq!(result.get_str("log_level"), Some("info"));
    assert_eq!(result.get_bool("dry_run"), Some(false));
}

#[test]
fn flatten_names_list_items_by_index() {
    let content = r"
users
  (
    name John
  )
  (
    name Jane
  )
";
    let result = parse_lino(content).unwrap();
    let env_vars = flatten_to_env(&result, "APP");
    assert_eq!(
        env_vars,
        vec![
            ("APP_USERS_0_NAME".to_string(), "John".to_string()),
            ("APP_USERS_1_NAME".to_string(), "Jane".to_string()),
        ]
    );
}

#[test]
fn parse_values_are_typed() {
    let content = r"
count -12.5
flag TRUE
name hello world
";
    let result = parse_lino(content).unwrap();
    assert_eq!(
        result.get("count").and_then(|v| v.as_number_text()),
        Some("-12.5")
    );
    assert_eq!(result.get_bool("flag"), Some(true));
    assert_eq!(result.get_str("name"), Some("hello world"));
    assert_eq!(result.get("missing"), None);
    assert!(result.get("count").unwrap().as_str().is_none());
}

#[test]
fn later_keys_replace_earlier_ones() {
    let result = parse_lino("key one\nkey two\n").unwrap();
    assert_eq!(result.get_str("key"), Some("two"));
    assert_eq!(result.as_object().unwrap().len(), 1);
}

#[test]
fn top_level_list_items_become_object_entries() {
    let result = parse_lino("(a 1)\n(b two)\n").unwrap();
    match &result {
        LinoValue::Object(entries) => assert_eq!(entries.len(), 2),
        other => panic!("expected an object, got {other:?}"),
    }
    assert!(result.get("a").is_some());
    assert_eq!(result.get_str("b"), Some("two"));
}
