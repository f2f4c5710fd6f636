use astrid_sdk::elicit::{array, array_response, secret, secret_response, select, select_response, text, text_response, text_with_default, validate_key, ElicitResponse, ElicitType};
use astrid_sdk::error::SysError;

fn api_message<T: std::fmt::Debug>(r: Result<T, SysError>) -> String {
    match r {
        Err(SysError::ApiError(m)) => m,
        other => panic!("expected an API error, got {other:?}"),
    }
}

#[test]
fn blank_keys_are_refused() {
    assert_eq!(api_message(validate_key("")), "elicit key must not be empty");
    assert_eq!(api_message(validate_key(" \t\u{3000}\n")), "elicit key must not be empty");
    assert!(validate_key(" k ").is_ok());
    assert!(text("  ", "d").is_err());
    assert!(secret("", "d").is_err());
    assert!(array("\u{a0}", "d").is_err());
}

#[test]
fn requests_carry_kind_key_and_default() {
    let t = text("name", "Your name").unwrap();
    assert_eq!(t.kind, ElicitType::Text);
    assert_eq!(t.key, "name");
    assert_eq!(t.description, "Your name");
    assert_eq!(t.default_value, None);
    let d = text_with_default("name", "Your name", "anon").unwrap();
    assert_eq!(d.default_value.as_deref(), Some("anon"));
    assert_eq!(secret("api_key", "Key").unwrap().kind, ElicitType::Secret);
    assert_eq!(array("tags", "Tags").unwrap().kind, ElicitType::Array);
}

#[test]
fn select_needs_options() {
    assert_eq!(api_message(select("k", "d", &[])), "select requires at least one option");
    assert_eq!(api_message(select(" ", "d", &[])), "elicit key must not be empty");
    let req = select("color", "Pick", &["red", "blue"]).unwrap();
    assert_eq!(req.kind, ElicitType::Select);
    assert_eq!(req.options, Some(vec!["red".to_string(), "blue".to_string()]));
}

#[test]
fn select_response_checks_membership() {
    assert_eq!(select_response(&["red", "blue"], ElicitResponse::Value("blue".into())).unwrap(), "blue");
    assert_eq!(
        api_message(select_response(&["red"], ElicitResponse::Value("green".into()))),
        "host returned value 'green' not in provided options"
    );
    let long = "x".repeat(70);
    assert_eq!(
        api_message(select_response(&["red"], ElicitResponse::Value(long))),
        format!("host returned value '{}' not in provided options", "x".repeat(64))
    );
    assert!(api_message(select_response(&["red"], ElicitResponse::SecretStored))
        .starts_with("host returned unexpected response for select elicit: "));
}

#[test]
fn responses_of_the_wrong_shape_are_refused() {
    assert!(secret_response(ElicitResponse::SecretStored).is_ok());
    assert!(api_message(secret_response(ElicitResponse::Value("v".into())))
        .starts_with("host returned unexpected response for secret elicit: "));
    assert_eq!(text_response(ElicitResponse::Value("v".into())).unwrap(), "v");
    assert!(api_message(text_response(ElicitResponse::Values(vec![])))
        .starts_with("host returned unexpected response for text elicit: "));
    assert_eq!(array_response(ElicitResponse::Values(vec!["a".into()])).unwrap(), vec!["a".to_string()]);
    assert!(api_message(array_response(ElicitResponse::SecretStored))
        .starts_with("host returned unexpected response for array elicit: "));
}

#[test]
fn unexpected_response_names_the_response() {
    assert_eq!(
        api_message(select_response(&["red"], ElicitResponse::SecretStored)),
        "host returned unexpected response for select elicit: SecretStored"
    );
    assert_eq!(
        api_message(secret_response(ElicitResponse::Value("a\"b\\c\n".into()))),
        "host returned unexpected response for secret elicit: Value(\"a\\\"b\\\\c\\n\")"
    );
    assert_eq!(
        api_message(text_response(ElicitResponse::Values(vec!["x".into(), "y".into()]))),
        "host returned unexpected response for text elicit: Values([\"x\", \"y\"])"
    );
    assert_eq!(
        api_message(text_response(ElicitResponse::Values(vec![]))),
        format!("host returned unexpected response for text elicit: {:?}", ElicitResponse::Values(vec![]))
    );
}
