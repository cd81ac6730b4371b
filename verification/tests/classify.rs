use sql_lexer::token::Token;
use sql_lexer::token::token_from_char;
use sql_lexer::token::token_from_value;

#[test]
fn quoted_lexeme_is_a_string_literal() {
    let t = token_from_value("'abc'".to_string());
    assert_eq!(t, Token::StringValue("abc".to_string()));
}

#[test]
fn empty_quote_pair_is_an_empty_string_literal() {
    let t = token_from_value("''".to_string());
    assert_eq!(t, Token::StringValue("".to_string()));
}

#[test]
fn value_classification_matches_the_table() {
    assert_eq!(token_from_value("select".to_string()), Token::Select);
    assert_eq!(token_from_value("SELECT".to_string()), Token::Select);
    assert_eq!(token_from_value("123".to_string()), Token::Number("123".to_string()));
    assert_eq!(token_from_value("1.5".to_string()), Token::FloatNumber("1.5".to_string()));
    assert_eq!(token_from_value("name".to_string()), Token::Identifier("name".to_string()));
    assert_eq!(token_from_value("a.b".to_string()), Token::Illegal);
}

#[test]
fn operator_lexemes_agree_with_lookahead_path() {
    assert_eq!(token_from_value("<>".to_string()), Token::NotEqual);
    assert_eq!(token_from_value(">=".to_string()), Token::BiggerEqual);
    assert_eq!(token_from_value("<=".to_string()), Token::LessEqual);
}

#[test]
fn char_classification() {
    assert_eq!(token_from_char('='), Token::Equal);
    assert_eq!(token_from_char('>'), Token::Bigger);
    assert_eq!(token_from_char('<'), Token::Less);
    assert_eq!(token_from_char('+'), Token::Plus);
    assert_eq!(token_from_char('-'), Token::Minus);
    assert_eq!(token_from_char('/'), Token::Slash);
    assert_eq!(token_from_char('%'), Token::Percent);
    assert_eq!(token_from_char('.'), Token::Dot);
    assert_eq!(token_from_char(','), Token::Comma);
    assert_eq!(token_from_char(';'), Token::Semicolon);
    assert_eq!(token_from_char('('), Token::LeftParentheses);
    assert_eq!(token_from_char(')'), Token::RightParenteses);
    assert_eq!(token_from_char('\0'), Token::Eof);
    assert_eq!(token_from_char('@'), Token::Illegal);
}

#[test]
fn display_text_of_tokens() {
    assert_eq!(Token::Select.display_text(), "select");
    assert_eq!(Token::LessEqual.display_text(), "<=");
    assert_eq!(Token::LeftParentheses.display_text(), "(");
    assert_eq!(Token::Identifier("abc".to_string()).display_text(), "abc");
    assert_eq!(Token::Number("42".to_string()).display_text(), "42");
    assert_eq!(Token::FloatNumber("4.2".to_string()).display_text(), "4.2");
    assert_eq!(Token::StringValue("hi".to_string()).display_text(), "hi");
    assert_eq!(Token::Illegal.display_text(), "[illegal]");
}
