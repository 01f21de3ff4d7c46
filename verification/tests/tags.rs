use cf_access::{token_type_from_tag, token_type_tag, Token, TokenType};

#[test]
fn application_tag_round_trips() {
    let tag = token_type_tag(TokenType::Application);
    assert_eq!(tag, "app");
    assert_eq!(
        token_type_from_tag(&tag.to_string()),
        Some(TokenType::Application)
    );
}

#[test]
fn global_tag_round_trips() {
    let tag = token_type_tag(TokenType::Global);
    assert_eq!(tag, "org");
    assert_eq!(token_type_from_tag(&tag.to_string()), Some(TokenType::Global));
}

#[test]
fn unknown_tag_names_no_token_type() {
    assert_eq!(token_type_from_tag(&"xyz".to_string()), None);
    assert_eq!(token_type_from_tag(&"APP".to_string()), None);
    assert_eq!(token_type_from_tag(&"".to_string()), None);
}

#[test]
fn default_token_is_an_empty_service_token() {
    match Token::default() {
        Token::Service { common_name } => assert_eq!(common_name, ""),
        other => panic!("expected a service token, got {other:?}"),
    }
}
