use trader_bot::lino_args::{to_camel_case, to_kebab_case, to_pascal_case, to_snake_case, to_upper_case};
use trader_bot::lino_args::{env_key_variants, getenv_bool, getenv_int, getenv_u64, pick_env_value};
use trader_bot::lino_args::{choose_lenv_path, parse_lenv, LenvError};

#[test]
fn test_to_upper_case() {
    assert_eq!(to_upper_case("apiKey"), "API_KEY");
    assert_eq!(to_upper_case("myVariableName"), "MY_VARIABLE_NAME");
    assert_eq!(to_upper_case("api-key"), "API_KEY");
    assert_eq!(to_upper_case("API_KEY"), "API_KEY");
    assert_eq!(to_upper_case("api_key"), "API_KEY");
}

#[test]
fn test_to_camel_case() {
    assert_eq!(to_camel_case("api-key"), "apiKey");
    assert_eq!(to_camel_case("API_KEY"), "apiKey");
    assert_eq!(to_camel_case("my_variable_name"), "myVariableName");
    assert_eq!(to_camel_case("my-variable-name"), "myVariableName");
}

#[test]
fn test_to_kebab_case() {
    assert_eq!(to_kebab_case("apiKey"), "api-key");
    assert_eq!(to_kebab_case("API_KEY"), "api-key");
    assert_eq!(to_kebab_case("MyVariableName"), "my-variable-name");
    assert_eq!(to_kebab_case("my_variable"), "my-variable");
}

#[test]
fn test_to_snake_case() {
    assert_eq!(to_snake_case("apiKey"), "api_key");
    assert_eq!(to_snake_case("api-key"), "api_key");
    assert_eq!(to_snake_case("API_KEY"), "api_key");
    assert_eq!(to_snake_case("MyVar"), "my_var");
}

#[test]
fn test_to_pascal_case() {
    assert_eq!(to_pascal_case("api-key"), "ApiKey");
    assert_eq!(to_pascal_case("api_key"), "ApiKey");
    assert_eq!(to_pascal_case("my-variable-name"), "MyVariableName");
    assert_eq!(to_pascal_case("API_KEY"), "ApiKey");
}

#[test]
fn case_conversions_collapse_and_trim_separators() {
    assert_eq!(to_snake_case("__a--b  c"), "a_b_c");
    assert_eq!(to_kebab_case("-Hello World"), "hello-world");
    assert_eq!(to_upper_case("a__b"), "A_B");
    assert_eq!(to_camel_case("-abc"), "abc");
    assert_eq!(to_pascal_case(""), "");
    assert_eq!(to_upper_case(""), "");
    assert_eq!(to_upper_case("API-KEY"), "API_KEY");
}

#[test]
fn env_variants_in_lookup_order() {
    let v = env_key_variants("api_key");
    assert_eq!(v, vec!["api_key", "API_KEY", "apiKey", "api-key", "api_key", "ApiKey"]);
}

#[test]
fn first_found_variant_wins() {
    let found = vec![None, Some("a".to_string()), Some("b".to_string())];
    assert_eq!(pick_env_value(&found, "d"), "a");
    assert_eq!(pick_env_value(&vec![None, None], "d"), "d");
}

#[test]
fn test_getenv_with_default() {
    // An unset variable gives an empty found value.
    assert_eq!(pick_env_value(&vec![None; 6], "default"), "default");
}

#[test]
fn test_getenv_int() {
    assert_eq!(getenv_int("8080", 3000), 8080);
}

#[test]
fn test_getenv_int_invalid() {
    assert_eq!(getenv_int("not_a_number", 3000), 3000);
}

#[test]
fn getenv_int_edges() {
    assert_eq!(getenv_int("", 7), 7);
    assert_eq!(getenv_int("-12", 7), -12);
    assert_eq!(getenv_int("+12", 7), 12);
    assert_eq!(getenv_int("9223372036854775808", 7), 7);
    assert_eq!(getenv_u64("-1", 5), 5);
    assert_eq!(getenv_u64("18446744073709551615", 5), u64::MAX);
}

#[test]
fn test_getenv_bool_true_values() {
    for value in &["true", "1", "yes", "on", "TRUE", "YES", "ON"] {
        assert!(getenv_bool(value, false), "Expected true for value: {}", value);
    }
}

#[test]
fn test_getenv_bool_false_values() {
    for value in &["false", "0", "no", "off", "FALSE", "NO", "OFF"] {
        assert!(!getenv_bool(value, true), "Expected false for value: {}", value);
    }
}

#[test]
fn test_getenv_bool_invalid() {
    assert!(getenv_bool("maybe", true));
    assert!(!getenv_bool("", false));
}

#[test]
fn test_parse_lenv_simple() {
    let content = "\nAPI_KEY=my_secret\nPORT=8080\n";
    let vars = parse_lenv(content).unwrap();
    assert_eq!(vars.get("API_KEY"), Some(&"my_secret".to_string()));
    assert_eq!(vars.get("PORT"), Some(&"8080".to_string()));
}

#[test]
fn test_parse_lenv_with_comments() {
    let content = "\n# This is a comment\nAPI_KEY=secret\n# Another comment\nDEBUG=true\n";
    let vars = parse_lenv(content).unwrap();
    assert_eq!(vars.len(), 2);
    assert_eq!(vars.get("API_KEY"), Some(&"secret".to_string()));
    assert_eq!(vars.get("DEBUG"), Some(&"true".to_string()));
}

#[test]
fn test_parse_lenv_quoted_values() {
    let content = "\nMESSAGE=\"Hello, World!\"\nSINGLE='Single quoted'\nPLAIN=NoQuotes\n";
    let vars = parse_lenv(content).unwrap();
    assert_eq!(vars.get("MESSAGE"), Some(&"Hello, World!".to_string()));
    assert_eq!(vars.get("SINGLE"), Some(&"Single quoted".to_string()));
    assert_eq!(vars.get("PLAIN"), Some(&"NoQuotes".to_string()));
}

#[test]
fn test_parse_lenv_empty_lines() {
    let content = "\n\nAPI_KEY=value\n\nPORT=8080\n\n";
    let vars = parse_lenv(content).unwrap();
    assert_eq!(vars.len(), 2);
}

#[test]
fn test_parse_lenv_error_no_equals() {
    let result = parse_lenv("INVALID_LINE");
    assert!(result.is_err());
}

#[test]
fn test_parse_lenv_error_empty_key() {
    let result = parse_lenv("=value");
    assert!(result.is_err());
}

#[test]
fn parse_lenv_links_notation_and_errors() {
    let content = "# Configuration\nAPI_KEY: my_secret_key\nPORT: 8080\nDEBUG: true\nPORT=9090\r\n";
    let vars = parse_lenv(content).unwrap();
    assert_eq!(vars.get("API_KEY"), Some(&"my_secret_key".to_string()));
    assert_eq!(vars.get("PORT"), Some(&"9090".to_string()));
    assert_eq!(vars.len(), 3);
    match parse_lenv("A=1\n\nbad line\n") {
        Err(LenvError::Parse { line, message }) => {
            assert_eq!(line, 3);
            assert_eq!(message, "Missing ': ' or '=' separator");
        }
        _ => panic!("expected a parse error"),
    }
    match parse_lenv("A=1\n : x\n") {
        Err(LenvError::Parse { line, message }) => {
            assert_eq!(line, 2);
            assert_eq!(message, "Empty key");
        }
        _ => panic!("expected a parse error"),
    }
    assert_eq!(parse_lenv("Q=\"\n").unwrap().get("Q"), Some(&"\"".to_string()));
}

#[test]
fn lenv_error_messages() {
    let err = parse_lenv("A=1\n\nbad line\n").unwrap_err();
    assert_eq!(err.to_string(), "Parse error on line 3: Missing ': ' or '=' separator");
    let io = LenvError::Io(std::io::Error::new(std::io::ErrorKind::NotFound, "gone"));
    assert_eq!(io.to_string(), "IO error: gone");
}

#[test]
fn camel_is_pascal_with_lower_first_and_snake_is_kebab_with_underscores() {
    for s in ["api-key", "_lead_x", "--a", "HTTPServer", "api key id", "", "x", "9lives", "MY_VAR"] {
        let pascal = to_pascal_case(s);
        let mut lowered_first = String::new();
        for (i, c) in pascal.chars().enumerate() {
            if i == 0 {
                lowered_first.push(c.to_ascii_lowercase());
            } else {
                lowered_first.push(c);
            }
        }
        assert_eq!(to_camel_case(s), lowered_first, "camel of {s:?}");
        assert_eq!(to_snake_case(s), to_kebab_case(s).replace('-', "_"), "snake of {s:?}");
    }
}

#[test]
fn lenv_path_search_order() {
    let s = |t: &str| Some(t.to_string());
    assert_eq!(choose_lenv_path(s("a.lenv"), true, s("b.lenv"), true, true, s("/h/.lenv"), true), s("a.lenv"));
    assert_eq!(choose_lenv_path(s("a.lenv"), false, s("b.lenv"), true, true, s("/h/.lenv"), true), s("b.lenv"));
    assert_eq!(choose_lenv_path(None, false, s("b.lenv"), false, true, s("/h/.lenv"), true), s(".lenv"));
    assert_eq!(choose_lenv_path(None, false, None, false, false, s("/h/.lenv"), true), s("/h/.lenv"));
    assert_eq!(choose_lenv_path(None, false, None, false, false, s("/h/.lenv"), false), None);
    assert_eq!(choose_lenv_path(None, false, None, false, false, None, false), None);
}
