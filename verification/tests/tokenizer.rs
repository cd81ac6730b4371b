use sql_lexer::lexer::Lexer;
use sql_lexer::token::Token;

/// Collects every token of the input, including the final `Eof`.
fn tokens_of(input: &str) -> Vec<Token> {
    let mut lx = Lexer::new(input);
    let mut out = Vec::new();
    loop {
        let t = lx.next_token();
        let end = t == Token::Eof;
        out.push(t);
        if end {
            break;
        }
    }
    out
}

#[test]
fn empty_input_is_eof() {
    assert_eq!(tokens_of(""), vec![Token::Eof]);
}

#[test]
fn whitespace_only_is_eof() {
    assert_eq!(tokens_of("  \t\r\n "), vec![Token::Eof]);
}

#[test]
fn eof_is_absorbing() {
    let mut lx = Lexer::new("a b");
    assert_eq!(lx.next_token(), Token::Identifier("a".to_string()));
    assert_eq!(lx.next_token(), Token::Identifier("b".to_string()));
    for _ in 0..5 {
        assert_eq!(lx.next_token(), Token::Eof);
    }
}

#[test]
fn every_keyword_is_covered() {
    let table = vec![
        ("create", Token::Create),
        ("drop", Token::Drop),
        ("alter", Token::Alter),
        ("table", Token::Table),
        ("view", Token::View),
        ("index", Token::Index),
        ("select", Token::Select),
        ("insert", Token::Insert),
        ("delete", Token::Delete),
        ("update", Token::Update),
        ("where", Token::Where),
        ("from", Token::From),
        ("set", Token::SetKeyword),
        ("is", Token::Is),
        ("group", Token::Group),
        ("having", Token::Having),
        ("order", Token::Order),
        ("by", Token::By),
        ("commit", Token::Commit),
        ("rollback", Token::Rollback),
        ("join", Token::Join),
        ("inner", Token::Inner),
        ("left", Token::Left),
        ("right", Token::Right),
        ("full", Token::Full),
        ("primary", Token::Primary),
        ("foreign", Token::Foreign),
        ("key", Token::Key),
        ("references", Token::References),
        ("unique", Token::Unique),
        ("check", Token::Check),
        ("constraint", Token::Constraint),
        ("default", Token::Default),
        ("and", Token::And),
        ("or", Token::Or),
        ("not", Token::Not),
        ("in", Token::In),
        ("between", Token::Between),
        ("like", Token::Like),
        ("null", Token::Null),
        ("case", Token::Case),
        ("then", Token::Then),
        ("else", Token::Else),
        ("end", Token::End),
        ("as", Token::As),
        ("on", Token::On),
    ];
    for (word, expected) in table {
        assert_eq!(tokens_of(word), vec![expected.clone(), Token::Eof], "keyword {}", word);
        let upper = word.to_uppercase();
        assert_eq!(tokens_of(&upper), vec![expected, Token::Eof], "keyword {}", upper);
    }
}

#[test]
fn keywords_match_any_casing() {
    assert_eq!(tokens_of("SELECT"), vec![Token::Select, Token::Eof]);
    assert_eq!(tokens_of("select"), vec![Token::Select, Token::Eof]);
    assert_eq!(tokens_of("SeLeCt"), vec![Token::Select, Token::Eof]);
}

#[test]
fn two_char_operators_are_one_token() {
    assert_eq!(tokens_of("<="), vec![Token::LessEqual, Token::Eof]);
    assert_eq!(tokens_of(">="), vec![Token::BiggerEqual, Token::Eof]);
    assert_eq!(tokens_of("<>"), vec![Token::NotEqual, Token::Eof]);
}

#[test]
fn single_less_before_other_character() {
    assert_eq!(
        tokens_of("<5"),
        vec![Token::Less, Token::Number("5".to_string()), Token::Eof]
    );
    assert_eq!(
        tokens_of("<a"),
        vec![Token::Less, Token::Identifier("a".to_string()), Token::Eof]
    );
    assert_eq!(tokens_of(">("), vec![Token::Bigger, Token::LeftParentheses, Token::Eof]);
    assert_eq!(tokens_of("><"), vec![Token::Bigger, Token::Less, Token::Eof]);
    assert_eq!(tokens_of("<"), vec![Token::Less, Token::Eof]);
    assert_eq!(tokens_of(">"), vec![Token::Bigger, Token::Eof]);
}

#[test]
fn numeric_classification() {
    assert_eq!(tokens_of("123"), vec![Token::Number("123".to_string()), Token::Eof]);
    assert_eq!(tokens_of("12.5"), vec![Token::FloatNumber("12.5".to_string()), Token::Eof]);
    assert_eq!(tokens_of("12.5.6"), vec![Token::Illegal, Token::Eof]);
}

#[test]
fn trailing_point_is_still_a_float() {
    assert_eq!(tokens_of("1."), vec![Token::FloatNumber("1.".to_string()), Token::Eof]);
}

#[test]
fn identifier_keyword_boundary() {
    assert_eq!(
        tokens_of("accounts"),
        vec![Token::Identifier("accounts".to_string()), Token::Eof]
    );
    assert_eq!(tokens_of("Table"), vec![Token::Table, Token::Eof]);
}

#[test]
fn identifiers_are_stored_lowercased() {
    assert_eq!(tokens_of("AbC"), vec![Token::Identifier("abc".to_string()), Token::Eof]);
    assert_eq!(tokens_of("a_b"), vec![Token::Identifier("a_b".to_string()), Token::Eof]);
}

#[test]
fn leading_digit_lexeme_with_letters() {
    assert_eq!(tokens_of("1abc"), vec![Token::Identifier("1abc".to_string()), Token::Eof]);
}

#[test]
fn lexeme_with_inner_point_is_illegal() {
    assert_eq!(tokens_of("a.b"), vec![Token::Illegal, Token::Eof]);
}

#[test]
fn unrecognized_character_is_illegal() {
    assert_eq!(tokens_of("@"), vec![Token::Illegal, Token::Eof]);
    assert_eq!(
        tokens_of("a @ b"),
        vec![
            Token::Identifier("a".to_string()),
            Token::Illegal,
            Token::Identifier("b".to_string()),
            Token::Eof
        ]
    );
}

#[test]
fn whitespace_runs_do_not_matter() {
    let a = tokens_of("SELECT   *\tFROM\naccounts");
    let b = tokens_of("SELECT * FROM accounts");
    let c = tokens_of("SELECT\r\n  *  FROM\t\taccounts");
    assert_eq!(a, b);
    assert_eq!(a, c);
    assert_eq!(
        a,
        vec![
            Token::Select,
            Token::Illegal,
            Token::From,
            Token::Identifier("accounts".to_string()),
            Token::Eof
        ]
    );
}

#[test]
fn create_table_scenario() {
    assert_eq!(
        tokens_of("CREATE TABLE accounts(id int primary key);"),
        vec![
            Token::Create,
            Token::Table,
            Token::Identifier("accounts".to_string()),
            Token::LeftParentheses,
            Token::Identifier("id".to_string()),
            Token::Identifier("int".to_string()),
            Token::Primary,
            Token::Key,
            Token::RightParenteses,
            Token::Semicolon,
            Token::Eof
        ]
    );
}

#[test]
fn update_statement_scenario() {
    assert_eq!(
        tokens_of("UPDATE accounts SET id = 5423 WHERE LEN(name) > 15;"),
        vec![
            Token::Update,
            Token::Identifier("accounts".to_string()),
            Token::SetKeyword,
            Token::Identifier("id".to_string()),
            Token::Equal,
            Token::Number("5423".to_string()),
            Token::Where,
            Token::Identifier("len".to_string()),
            Token::LeftParentheses,
            Token::Identifier("name".to_string()),
            Token::RightParenteses,
            Token::Bigger,
            Token::Number("15".to_string()),
            Token::Semicolon,
            Token::Eof
        ]
    );
}

#[test]
fn punctuation_maps_one_to_one() {
    assert_eq!(
        tokens_of("= + - / % . , ; ( )"),
        vec![
            Token::Equal,
            Token::Plus,
            Token::Minus,
            Token::Slash,
            Token::Percent,
            Token::Dot,
            Token::Comma,
            Token::Semicolon,
            Token::LeftParentheses,
            Token::RightParenteses,
            Token::Eof
        ]
    );
}
