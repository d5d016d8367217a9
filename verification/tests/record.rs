use legal_toolkit_auth::record::{stored_token, token_from_parsed, token_in, token_record};

#[test]
fn record_is_compact_json_with_both_members() {
    assert_eq!(
        token_record("x", "2024-01-02T03:04:05Z"),
        r#"{"access_token":"x","stored_at":"2024-01-02T03:04:05Z"}"#
    );
}

#[test]
fn record_escapes_what_json_escapes() {
    assert_eq!(
        token_record("a\"b\\c\n", "t"),
        r#"{"access_token":"a\"b\\c\n","stored_at":"t"}"#
    );
}

#[test]
fn record_of_an_empty_token() {
    assert_eq!(token_record("", ""), r#"{"access_token":"","stored_at":""}"#);
}

#[test]
fn record_is_valid_json_with_string_members() {
    let text = token_record("abc.def.ghi", "2024-01-02T03:04:05.678Z");
    let value: serde_json::Value = serde_json::from_str(&text).unwrap();
    let object = value.as_object().unwrap();
    assert_eq!(object.len(), 2);
    assert_eq!(object["access_token"], serde_json::Value::String("abc.def.ghi".to_string()));
    assert_eq!(
        object["stored_at"],
        serde_json::Value::String("2024-01-02T03:04:05.678Z".to_string())
    );
}

#[test]
fn stored_token_reads_the_access_token() {
    let text = r#"{"access_token":"abc","stored_at":"2024-01-02T03:04:05Z"}"#;
    assert_eq!(stored_token(text), Ok(Some("abc".to_string())));
}

#[test]
fn stored_token_ignores_other_members_and_whitespace() {
    let text = "{ \"stored_at\": 5,\n \"extra\": [1, 2],\n \"access_token\": \"t\\u0041\" }";
    assert_eq!(stored_token(text), Ok(Some("tA".to_string())));
}

#[test]
fn stored_token_is_none_without_the_member() {
    assert_eq!(stored_token(r#"{"stored_at":"2024-01-02T03:04:05Z"}"#), Ok(None));
    assert_eq!(stored_token("{}"), Ok(None));
}

#[test]
fn stored_token_is_none_where_the_member_is_no_string() {
    assert_eq!(stored_token(r#"{"access_token":17}"#), Ok(None));
    assert_eq!(stored_token(r#"{"access_token":null}"#), Ok(None));
    assert_eq!(stored_token(r#"{"access_token":{"access_token":"x"}}"#), Ok(None));
}

#[test]
fn stored_token_is_none_where_the_text_is_no_object() {
    assert_eq!(stored_token(r#"["access_token"]"#), Ok(None));
    assert_eq!(stored_token(r#""access_token""#), Ok(None));
    assert_eq!(stored_token("17"), Ok(None));
}

#[test]
fn stored_token_reports_what_the_parser_says() {
    let complaint = serde_json::from_str::<serde_json::Value>("not json").unwrap_err().to_string();
    assert_eq!(
        stored_token("not json"),
        Err(format!("Failed to parse token from keyring: {}", complaint))
    );
    assert_eq!(
        stored_token("not json"),
        Err("Failed to parse token from keyring: expected ident at line 1 column 2".to_string())
    );
}

#[test]
fn stored_token_rejects_an_empty_text_and_trailing_text() {
    assert_eq!(
        stored_token(""),
        Err(
            "Failed to parse token from keyring: EOF while parsing a value at line 1 column 0"
                .to_string()
        )
    );
    assert_eq!(
        stored_token(r#"{"access_token":"x"} x"#),
        Err("Failed to parse token from keyring: trailing characters at line 1 column 22"
            .to_string())
    );
}

#[test]
fn token_in_reads_a_built_value() {
    let mut object = serde_json::Map::new();
    object.insert("access_token".to_string(), serde_json::Value::from("k"));
    assert_eq!(token_in(&serde_json::Value::Object(object)), Some("k".to_string()));
    assert_eq!(token_in(&serde_json::Value::Null), None);
}

#[test]
fn token_from_parsed_takes_either_outcome() {
    let parsed = serde_json::from_str::<serde_json::Value>(r#"{"access_token":"k"}"#);
    assert_eq!(token_from_parsed(parsed), Ok(Some("k".to_string())));
    let failed = serde_json::from_str::<serde_json::Value>("{");
    assert_eq!(
        token_from_parsed(failed),
        Err(
            "Failed to parse token from keyring: EOF while parsing an object at line 1 column 1"
                .to_string()
        )
    );
}

#[test]
fn written_record_reads_back() {
    for token in ["x", "", "abc.def-ghi_jkl", "with \"quotes\" and \\ and \u{1F511}", "\n\t"] {
        let text = token_record(token, "2024-01-02T03:04:05Z");
        assert_eq!(stored_token(&text), Ok(Some(token.to_string())));
    }
}
