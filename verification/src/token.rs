//! The token taxonomy and the classification of lexemes into tokens.

use vstd::prelude::*;

verus! {

/// One lexical unit of the SQL dialect.
///
/// Fixed-identity variants carry no payload: one per reserved keyword and one
/// per operator or punctuation symbol. Payload variants carry the lexeme text.
/// `Eof` marks the end of the input; `Illegal` marks a lexeme that matches no
/// recognized shape.
#[derive(Debug, Clone, PartialEq)]
pub enum Token {
    Create,
    Drop,
    Alter,
    Table,
    View,
    Index,
    Select,
    Insert,
    Delete,
    Update,
    Where,
    From,
    SetKeyword,
    Is,
    Group,
    Having,
    Order,
    By,
    Commit,
    Rollback,
    Join,
    Inner,
    Left,
    Right,
    Full,
    Primary,
    Foreign,
    Key,
    References,
    Unique,
    Check,
    Constraint,
    Default,
    And,
    Or,
    Not,
    In,
    Between,
    Like,
    Null,
    Case,
    Then,
    Else,
    End,
    As,
    On,
    Equal,
    NotEqual,
    Bigger,
    Less,
    BiggerEqual,
    LessEqual,
    Plus,
    Minus,
    Slash,
    Percent,
    Dot,
    Comma,
    Semicolon,
    RightParenteses,
    LeftParentheses,
    Identifier(String),
    StringValue(String),
    Number(String),
    FloatNumber(String),
    Eof,
    Illegal,
}

/// The mathematical value of a [`Token`]: the same variants, with each text
/// payload abstracted to its sequence of characters.
pub enum TokenView {
    Create,
    Drop,
    Alter,
    Table,
    View,
    Index,
    Select,
    Insert,
    Delete,
    Update,
    Where,
    From,
    SetKeyword,
    Is,
    Group,
    Having,
    Order,
    By,
    Commit,
    Rollback,
    Join,
    Inner,
    Left,
    Right,
    Full,
    Primary,
    Foreign,
    Key,
    References,
    Unique,
    Check,
    Constraint,
    Default,
    And,
    Or,
    Not,
    In,
    Between,
    Like,
    Null,
    Case,
    Then,
    Else,
    End,
    As,
    On,
    Equal,
    NotEqual,
    Bigger,
    Less,
    BiggerEqual,
    LessEqual,
    Plus,
    Minus,
    Slash,
    Percent,
    Dot,
    Comma,
    Semicolon,
    RightParenteses,
    LeftParentheses,
    Identifier(Seq<char>),
    StringValue(Seq<char>),
    Number(Seq<char>),
    FloatNumber(Seq<char>),
    Eof,
    Illegal,
}

impl View for Token {
    type V = TokenView;

    open spec fn view(&self) -> TokenView {
        match self {
            Token::Create => TokenView::Create,
            Token::Drop => TokenView::Drop,
            Token::Alter => TokenView::Alter,
            Token::Table => TokenView::Table,
            Token::View => TokenView::View,
            Token::Index => TokenView::Index,
            Token::Select => TokenView::Select,
            Token::Insert => TokenView::Insert,
            Token::Delete => TokenView::Delete,
            Token::Update => TokenView::Update,
            Token::Where => TokenView::Where,
            Token::From => TokenView::From,
            Token::SetKeyword => TokenView::SetKeyword,
            Token::Is => TokenView::Is,
            Token::Group => TokenView::Group,
            Token::Having => TokenView::Having,
            Token::Order => TokenView::Order,
            Token::By => TokenView::By,
            Token::Commit => TokenView::Commit,
            Token::Rollback => TokenView::Rollback,
            Token::Join => TokenView::Join,
            Token::Inner => TokenView::Inner,
            Token::Left => TokenView::Left,
            Token::Right => TokenView::Right,
            Token::Full => TokenView::Full,
            Token::Primary => TokenView::Primary,
            Token::Foreign => TokenView::Foreign,
            Token::Key => TokenView::Key,
            Token::References => TokenView::References,
            Token::Unique => TokenView::Unique,
            Token::Check => TokenView::Check,
            Token::Constraint => TokenView::Constraint,
            Token::Default => TokenView::Default,
            Token::And => TokenView::And,
            Token::Or => TokenView::Or,
            Token::Not => TokenView::Not,
            Token::In => TokenView::In,
            Token::Between => TokenView::Between,
            Token::Like => TokenView::Like,
            Token::Null => TokenView::Null,
            Token::Case => TokenView::Case,
            Token::Then => TokenView::Then,
            Token::Else => TokenView::Else,
            Token::End => TokenView::End,
            Token::As => TokenView::As,
            Token::On => TokenView::On,
            Token::Equal => TokenView::Equal,
            Token::NotEqual => TokenView::NotEqual,
            Token::Bigger => TokenView::Bigger,
            Token::Less => TokenView::Less,
            Token::BiggerEqual => TokenView::BiggerEqual,
            Token::LessEqual => TokenView::LessEqual,
            Token::Plus => TokenView::Plus,
            Token::Minus => TokenView::Minus,
            Token::Slash => TokenView::Slash,
            Token::Percent => TokenView::Percent,
            Token::Dot => TokenView::Dot,
            Token::Comma => TokenView::Comma,
            Token::Semicolon => TokenView::Semicolon,
            Token::RightParenteses => TokenView::RightParenteses,
            Token::LeftParentheses => TokenView::LeftParentheses,
            Token::Identifier(s) => TokenView::Identifier(s@),
            Token::StringValue(s) => TokenView::StringValue(s@),
            Token::Number(s) => TokenView::Number(s@),
            Token::FloatNumber(s) => TokenView::FloatNumber(s@),
            Token::Eof => TokenView::Eof,
            Token::Illegal => TokenView::Illegal,
        }
    }
}

/// An ASCII decimal digit.
pub open spec fn is_digit_char(c: char) -> bool {
    '0' as u32 <= c as u32 && c as u32 <= '9' as u32
}

/// An ASCII letter, either case.
pub open spec fn is_letter_char(c: char) -> bool {
    ('a' as u32 <= c as u32 && c as u32 <= 'z' as u32) || ('A' as u32 <= c as u32 && c as u32
        <= 'Z' as u32)
}

/// The lowercase form of an ASCII letter; any other character is unchanged.
pub open spec fn spec_lower_char(c: char) -> char {
    if 'A' as u32 <= c as u32 && c as u32 <= 'Z' as u32 {
        ((c as u32) + 32) as char
    } else {
        c
    }
}

/// Character-wise ASCII lowercasing of a sequence.
pub open spec fn spec_lower(s: Seq<char>) -> Seq<char> {
    s.map_values(|c: char| spec_lower_char(c))
}

/// A character allowed in an identifier: ASCII letter, digit or underscore.
pub open spec fn is_ident_char(c: char) -> bool {
    is_letter_char(c) || is_digit_char(c) || c == '_'
}

/// Every character of the sequence is an ASCII digit.
pub open spec fn all_digits(s: Seq<char>) -> bool {
    forall|k: int| 0 <= k < s.len() ==> is_digit_char(#[trigger] s[k])
}

/// Every character of the sequence is an identifier character.
pub open spec fn is_ident_shape(s: Seq<char>) -> bool {
    forall|k: int| 0 <= k < s.len() ==> is_ident_char(#[trigger] s[k])
}

/// How many decimal points the sequence holds.
pub open spec fn dot_count(s: Seq<char>) -> nat
    decreases s.len(),
{
    if s.len() == 0 {
        0
    } else {
        dot_count(s.drop_last()) + if s.last() == '.' {
            1nat
        } else {
            0nat
        }
    }
}

/// A float literal: only digits and decimal points, with exactly one point.
pub open spec fn is_float_shape(s: Seq<char>) -> bool {
    &&& forall|k: int|
        0 <= k < s.len() ==> is_digit_char(#[trigger] s[k]) || s[k] == '.'
    &&& dot_count(s) == 1
}

/// A quoted lexeme: at least two characters, the first and last single quotes.
pub open spec fn is_quoted(s: Seq<char>) -> bool {
    s.len() >= 2 && s[0] == '\'' && s[s.len() - 1] == '\''
}

/// The token that a single character classifies to, outside the lexeme and
/// operator-lookahead paths: operator and punctuation symbols map one-to-one,
/// the null sentinel maps to `Eof`, anything else to `Illegal`.
pub open spec fn spec_token_of_char(c: char) -> TokenView {
    if c == '=' {
        TokenView::Equal
    } else if c == '>' {
        TokenView::Bigger
    } else if c == '<' {
        TokenView::Less
    } else if c == '+' {
        TokenView::Plus
    } else if c == '-' {
        TokenView::Minus
    } else if c == '/' {
        TokenView::Slash
    } else if c == '%' {
        TokenView::Percent
    } else if c == '.' {
        TokenView::Dot
    } else if c == ',' {
        TokenView::Comma
    } else if c == ';' {
        TokenView::Semicolon
    } else if c == '(' {
        TokenView::LeftParentheses
    } else if c == ')' {
        TokenView::RightParenteses
    } else if c == '\0' {
        TokenView::Eof
    } else {
        TokenView::Illegal
    }
}

/// The token that an already-lowercased word classifies to: a reserved
/// keyword or two-character operator from the fixed table, otherwise an
/// identifier when every character has identifier shape, otherwise `Illegal`.
pub open spec fn spec_classify_word(l: Seq<char>) -> TokenView {
    if l == "create"@ {
        TokenView::Create
    } else if l == "drop"@ {
        TokenView::Drop
    } else if l == "alter"@ {
        TokenView::Alter
    } else if l == "table"@ {
        TokenView::Table
    } else if l == "view"@ {
        TokenView::View
    } else if l == "index"@ {
        TokenView::Index
    } else if l == "select"@ {
        TokenView::Select
    } else if l == "insert"@ {
        TokenView::Insert
    } else if l == "delete"@ {
        TokenView::Delete
    } else if l == "update"@ {
        TokenView::Update
    } else if l == "where"@ {
        TokenView::Where
    } else if l == "from"@ {
        TokenView::From
    } else if l == "set"@ {
        TokenView::SetKeyword
    } else if l == "is"@ {
        TokenView::Is
    } else if l == "group"@ {
        TokenView::Group
    } else if l == "having"@ {
        TokenView::Having
    } else if l == "order"@ {
        TokenView::Order
    } else if l == "by"@ {
        TokenView::By
    } else if l == "commit"@ {
        TokenView::Commit
    } else if l == "rollback"@ {
        TokenView::Rollback
    } else if l == "join"@ {
        TokenView::Join
    } else if l == "inner"@ {
        TokenView::Inner
    } else if l == "left"@ {
        TokenView::Left
    } else if l == "right"@ {
        TokenView::Right
    } else if l == "full"@ {
        TokenView::Full
    } else if l == "primary"@ {
        TokenView::Primary
    } else if l == "foreign"@ {
        TokenView::Foreign
    } else if l == "key"@ {
        TokenView::Key
    } else if l == "references"@ {
        TokenView::References
    } else if l == "unique"@ {
        TokenView::Unique
    } else if l == "check"@ {
        TokenView::Check
    } else if l == "constraint"@ {
        TokenView::Constraint
    } else if l == "default"@ {
        TokenView::Default
    } else if l == "and"@ {
        TokenView::And
    } else if l == "or"@ {
        TokenView::Or
    } else if l == "not"@ {
        TokenView::Not
    } else if l == "in"@ {
        TokenView::In
    } else if l == "between"@ {
        TokenView::Between
    } else if l == "like"@ {
        TokenView::Like
    } else if l == "null"@ {
        TokenView::Null
    } else if l == "case"@ {
        TokenView::Case
    } else if l == "then"@ {
        TokenView::Then
    } else if l == "else"@ {
        TokenView::Else
    } else if l == "end"@ {
        TokenView::End
    } else if l == "as"@ {
        TokenView::As
    } else if l == "on"@ {
        TokenView::On
    } else if l == "<>"@ {
        TokenView::NotEqual
    } else if l == ">="@ {
        TokenView::BiggerEqual
    } else if l == "<="@ {
        TokenView::LessEqual
    } else if is_ident_shape(l) {
        TokenView::Identifier(l)
    } else {
        TokenView::Illegal
    }
}

/// The token that a whole lexeme classifies to. A quoted run is a string
/// literal whose payload drops the quotes; a digit-only run is an integer
/// literal; a run of digits with exactly one decimal point is a float
/// literal; anything else is lowercased and classified as a word.
pub open spec fn spec_token_of_value(s: Seq<char>) -> TokenView {
    if is_quoted(s) {
        TokenView::StringValue(s.subrange(1, s.len() - 1))
    } else if all_digits(s) {
        TokenView::Number(s)
    } else if is_float_shape(s) {
        TokenView::FloatNumber(s)
    } else {
        spec_classify_word(spec_lower(s))
    }
}

/// The display text of a token: each fixed-identity variant renders as its
/// lowercase keyword or symbol string, each payload variant as its payload.
/// The end-of-input sentinel has no display text and renders as empty here.
pub open spec fn spec_display_text(t: TokenView) -> Seq<char> {
    match t {
        TokenView::Create => "create"@,
        TokenView::Drop => "drop"@,
        TokenView::Alter => "alter"@,
        TokenView::Table => "table"@,
        TokenView::View => "view"@,
        TokenView::Index => "index"@,
        TokenView::Select => "select"@,
        TokenView::Insert => "insert"@,
        TokenView::Delete => "delete"@,
        TokenView::Update => "update"@,
        TokenView::Where => "where"@,
        TokenView::From => "from"@,
        TokenView::SetKeyword => "set"@,
        TokenView::Is => "is"@,
        TokenView::Group => "group"@,
        TokenView::Having => "having"@,
        TokenView::Order => "order"@,
        TokenView::By => "by"@,
        TokenView::Commit => "commit"@,
        TokenView::Rollback => "rollback"@,
        TokenView::Join => "join"@,
        TokenView::Inner => "inner"@,
        TokenView::Left => "left"@,
        TokenView::Right => "right"@,
        TokenView::Full => "full"@,
        TokenView::Primary => "primary"@,
        TokenView::Foreign => "foreign"@,
        TokenView::Key => "key"@,
        TokenView::References => "references"@,
        TokenView::Unique => "unique"@,
        TokenView::Check => "check"@,
        TokenView::Constraint => "constraint"@,
        TokenView::Default => "default"@,
        TokenView::And => "and"@,
        TokenView::Or => "or"@,
        TokenView::Not => "not"@,
        TokenView::In => "in"@,
        TokenView::Between => "between"@,
        TokenView::Like => "like"@,
        TokenView::Null => "null"@,
        TokenView::Case => "case"@,
        TokenView::Then => "then"@,
        TokenView::Else => "else"@,
        TokenView::End => "end"@,
        TokenView::As => "as"@,
        TokenView::On => "on"@,
        TokenView::Equal => "="@,
        TokenView::NotEqual => "<>"@,
        TokenView::Bigger => ">"@,
        TokenView::Less => "<"@,
        TokenView::BiggerEqual => ">="@,
        TokenView::LessEqual => "<="@,
        TokenView::Plus => "+"@,
        TokenView::Minus => "-"@,
        TokenView::Slash => "/"@,
        TokenView::Percent => "%"@,
        TokenView::Dot => "."@,
        TokenView::Comma => ","@,
        TokenView::Semicolon => ";"@,
        TokenView::RightParenteses => ")"@,
        TokenView::LeftParentheses => "("@,
        TokenView::Identifier(s) => s,
        TokenView::StringValue(s) => s,
        TokenView::Number(s) => s,
        TokenView::FloatNumber(s) => s,
        TokenView::Eof => Seq::empty(),
        TokenView::Illegal => "[illegal]"@,
    }
}

impl Token {
    /// The text a token prints as, as [`spec_display_text`] states. The
    /// end-of-input sentinel has no display text and is left out.
    pub fn display_text(&self) -> (r: String)
        requires
            !(self@ is Eof),
        ensures
            r@ == spec_display_text(self@),
    {
        match self {
            Token::Create => "create".to_owned(),
            Token::Drop => "drop".to_owned(),
            Token::Alter => "alter".to_owned(),
            Token::Table => "table".to_owned(),
            Token::View => "view".to_owned(),
            Token::Index => "index".to_owned(),
            Token::Select => "select".to_owned(),
            Token::Insert => "insert".to_owned(),
            Token::Delete => "delete".to_owned(),
            Token::Update => "update".to_owned(),
            Token::Where => "where".to_owned(),
            Token::From => "from".to_owned(),
            Token::SetKeyword => "set".to_owned(),
            Token::Is => "is".to_owned(),
            Token::Group => "group".to_owned(),
            Token::Having => "having".to_owned(),
            Token::Order => "order".to_owned(),
            Token::By => "by".to_owned(),
            Token::Commit => "commit".to_owned(),
            Token::Rollback => "rollback".to_owned(),
            Token::Join => "join".to_owned(),
            Token::Inner => "inner".to_owned(),
            Token::Left => "left".to_owned(),
            Token::Right => "right".to_owned(),
            Token::Full => "full".to_owned(),
            Token::Primary => "primary".to_owned(),
            Token::Foreign => "foreign".to_owned(),
            Token::Key => "key".to_owned(),
            Token::References => "references".to_owned(),
            Token::Unique => "unique".to_owned(),
            Token::Check => "check".to_owned(),
            Token::Constraint => "constraint".to_owned(),
            Token::Default => "default".to_owned(),
            Token::And => "and".to_owned(),
            Token::Or => "or".to_owned(),
            Token::Not => "not".to_owned(),
            Token::In => "in".to_owned(),
            Token::Between => "between".to_owned(),
            Token::Like => "like".to_owned(),
            Token::Null => "null".to_owned(),
            Token::Case => "case".to_owned(),
            Token::Then => "then".to_owned(),
            Token::Else => "else".to_owned(),
            Token::End => "end".to_owned(),
            Token::As => "as".to_owned(),
            Token::On => "on".to_owned(),
            Token::Equal => "=".to_owned(),
            Token::NotEqual => "<>".to_owned(),
            Token::Bigger => ">".to_owned(),
            Token::Less => "<".to_owned(),
            Token::BiggerEqual => ">=".to_owned(),
            Token::LessEqual => "<=".to_owned(),
            Token::Plus => "+".to_owned(),
            Token::Minus => "-".to_owned(),
            Token::Slash => "/".to_owned(),
            Token::Percent => "%".to_owned(),
            Token::Dot => ".".to_owned(),
            Token::Comma => ",".to_owned(),
            Token::Semicolon => ";".to_owned(),
            Token::RightParenteses => ")".to_owned(),
            Token::LeftParentheses => "(".to_owned(),
            Token::Identifier(s) => s.clone(),
            Token::StringValue(s) => s.clone(),
            Token::Number(s) => s.clone(),
            Token::FloatNumber(s) => s.clone(),
            Token::Eof => String::new(),
            Token::Illegal => "[illegal]".to_owned(),
        }
    }
}

/// Relies on String::push: appends the given character to the end of the
/// string.
#[verifier::external_body]
fn push_char(s: &mut String, c: char)
    ensures
        final(s)@ == old(s)@.push(c),
{
    s.push(c);
}

/// Lowercases one ASCII letter; any other character is returned unchanged.
fn lower_char(c: char) -> (r: char)
    ensures
        r == spec_lower_char(c),
{
    match c {
        'A' => 'a',
        'B' => 'b',
        'C' => 'c',
        'D' => 'd',
        'E' => 'e',
        'F' => 'f',
        'G' => 'g',
        'H' => 'h',
        'I' => 'i',
        'J' => 'j',
        'K' => 'k',
        'L' => 'l',
        'M' => 'm',
        'N' => 'n',
        'O' => 'o',
        'P' => 'p',
        'Q' => 'q',
        'R' => 'r',
        'S' => 's',
        'T' => 't',
        'U' => 'u',
        'V' => 'v',
        'W' => 'w',
        'X' => 'x',
        'Y' => 'y',
        'Z' => 'z',
        _ => c,
    }
}

/// Lowercases the ASCII letters of a string, character by character.
fn to_lower_ascii(v: &String) -> (r: String)
    ensures
        r@ == spec_lower(v@),
{
    let n = v.as_str().unicode_len();
    let mut out = String::new();
    let mut i: usize = 0;
    while i < n
        invariant
            n == v@.len(),
            i <= n,
            out@.len() == i,
            forall|k: int| 0 <= k < i ==> out@[k] == spec_lower_char(#[trigger] v@[k]),
        decreases n - i,
    {
        let c = v.as_str().get_char(i);
        push_char(&mut out, lower_char(c));
        i = i + 1;
    }
    assert(out@ =~= spec_lower(v@));
    out
}

/// Whether the string's characters are the given word.
fn word_is(v: &String, w: &str) -> (r: bool)
    ensures
        r == (v@ == w@),
{
    let t = w.to_owned();
    v.eq(&t)
}

/// Whether every character of the string is an ASCII digit.
fn check_all_digits(v: &String) -> (r: bool)
    ensures
        r == all_digits(v@),
{
    let n = v.as_str().unicode_len();
    let mut i: usize = 0;
    while i < n
        invariant
            n == v@.len(),
            i <= n,
            forall|k: int| 0 <= k < i ==> is_digit_char(#[trigger] v@[k]),
        decreases n - i,
    {
        let c = v.as_str().get_char(i);
        let u = c as u32;
        if u < '0' as u32 || u > '9' as u32 {
            return false;
        }
        i = i + 1;
    }
    true
}

/// Proves that dropping the last character of a sequence removes its
/// contribution to the decimal-point count.
proof fn lemma_dot_count_take(s: Seq<char>, i: int)
    requires
        0 <= i < s.len(),
    ensures
        dot_count(s.subrange(0, i + 1)) == dot_count(s.subrange(0, i)) + if s[i] == '.' {
            1nat
        } else {
            0nat
        },
{
    let t = s.subrange(0, i + 1);
    assert(t.drop_last() =~= s.subrange(0, i));
}

/// Whether the string has float shape: digits and decimal points only, with
/// exactly one point.
fn contains_float_number(v: &String) -> (r: bool)
    ensures
        r == is_float_shape(v@),
{
    let n = v.as_str().unicode_len();
    let mut dots: usize = 0;
    let mut i: usize = 0;
    assert(v@.subrange(0, 0) =~= Seq::<char>::empty());
    while i < n
        invariant
            n == v@.len(),
            i <= n,
            dots <= i,
            forall|k: int|
                0 <= k < i ==> is_digit_char(#[trigger] v@[k]) || v@[k] == '.',
            dots == dot_count(v@.subrange(0, i as int)),
        decreases n - i,
    {
        let c = v.as_str().get_char(i);
        let u = c as u32;
        proof {
            lemma_dot_count_take(v@, i as int);
        }
        if c == '.' {
            dots = dots + 1;
        } else if u < '0' as u32 || u > '9' as u32 {
            return false;
        }
        i = i + 1;
    }
    assert(v@.subrange(0, n as int) =~= v@);
    dots == 1
}

/// Whether every character of the string has identifier shape.
fn check_ident_shape(v: &String) -> (r: bool)
    ensures
        r == is_ident_shape(v@),
{
    let n = v.as_str().unicode_len();
    let mut i: usize = 0;
    while i < n
        invariant
            n == v@.len(),
            i <= n,
            forall|k: int| 0 <= k < i ==> is_ident_char(#[trigger] v@[k]),
        decreases n - i,
    {
        let c = v.as_str().get_char(i);
        let u = c as u32;
        let ok = ('a' as u32 <= u && u <= 'z' as u32) || ('A' as u32 <= u && u <= 'Z' as u32) || (
        '0' as u32 <= u && u <= '9' as u32) || c == '_';
        if !ok {
            return false;
        }
        i = i + 1;
    }
    true
}

/// Classifies one character into its token.
pub fn token_from_char(c: char) -> (t: Token)
    ensures
        t@ == spec_token_of_char(c),
{
    match c {
        '=' => Token::Equal,
        '>' => Token::Bigger,
        '<' => Token::Less,
        '+' => Token::Plus,
        '-' => Token::Minus,
        '/' => Token::Slash,
        '%' => Token::Percent,
        '.' => Token::Dot,
        ',' => Token::Comma,
        ';' => Token::Semicolon,
        '(' => Token::LeftParentheses,
        ')' => Token::RightParenteses,
        '\0' => Token::Eof,
        _ => Token::Illegal,
    }
}

/// Classifies an already-lowercased word against the keyword and operator
/// table, falling back to identifier or `Illegal`.
fn classify_word(l: String) -> (t: Token)
    ensures
        t@ == spec_classify_word(l@),
{
    if word_is(&l, "create") {
        Token::Create
    } else if word_is(&l, "drop") {
        Token::Drop
    } else if word_is(&l, "alter") {
        Token::Alter
    } else if word_is(&l, "table") {
        Token::Table
    } else if word_is(&l, "view") {
        Token::View
    } else if word_is(&l, "index") {
        Token::Index
    } else if word_is(&l, "select") {
        Token::Select
    } else if word_is(&l, "insert") {
        Token::Insert
    } else if word_is(&l, "delete") {
        Token::Delete
    } else if word_is(&l, "update") {
        Token::Update
    } else if word_is(&l, "where") {
        Token::Where
    } else if word_is(&l, "from") {
        Token::From
    } else if word_is(&l, "set") {
        Token::SetKeyword
    } else if word_is(&l, "is") {
        Token::Is
    } else if word_is(&l, "group") {
        Token::Group
    } else if word_is(&l, "having") {
        Token::Having
    } else if word_is(&l, "order") {
        Token::Order
    } else if word_is(&l, "by") {
        Token::By
    } else if word_is(&l, "commit") {
        Token::Commit
    } else if word_is(&l, "rollback") {
        Token::Rollback
    } else if word_is(&l, "join") {
        Token::Join
    } else if word_is(&l, "inner") {
        Token::Inner
    } else if word_is(&l, "left") {
        Token::Left
    } else if word_is(&l, "right") {
        Token::Right
    } else if word_is(&l, "full") {
        Token::Full
    } else if word_is(&l, "primary") {
        Token::Primary
    } else if word_is(&l, "foreign") {
        Token::Foreign
    } else if word_is(&l, "key") {
        Token::Key
    } else if word_is(&l, "references") {
        Token::References
    } else if word_is(&l, "unique") {
        Token::Unique
    } else if word_is(&l, "check") {
        Token::Check
    } else if word_is(&l, "constraint") {
        Token::Constraint
    } else if word_is(&l, "default") {
        Token::Default
    } else if word_is(&l, "and") {
        Token::And
    } else if word_is(&l, "or") {
        Token::Or
    } else if word_is(&l, "not") {
        Token::Not
    } else if word_is(&l, "in") {
        Token::In
    } else if word_is(&l, "between") {
        Token::Between
    } else if word_is(&l, "like") {
        Token::Like
    } else if word_is(&l, "null") {
        Token::Null
    } else if word_is(&l, "case") {
        Token::Case
    } else if word_is(&l, "then") {
        Token::Then
    } else if word_is(&l, "else") {
        Token::Else
    } else if word_is(&l, "end") {
        Token::End
    } else if word_is(&l, "as") {
        Token::As
    } else if word_is(&l, "on") {
        Token::On
    } else if word_is(&l, "<>") {
        Token::NotEqual
    } else if word_is(&l, ">=") {
        Token::BiggerEqual
    } else if word_is(&l, "<=") {
        Token::LessEqual
    } else if check_ident_shape(&l) {
        Token::Identifier(l)
    } else {
        Token::Illegal
    }
}

/// Classifies a whole lexeme into its token, as [`spec_token_of_value`]
/// states: string literal, integer literal, float literal, or a lowercased
/// word checked against the keyword table.
pub fn token_from_value(value: String) -> (t: Token)
    ensures
        t@ == spec_token_of_value(value@),
{
    let n = value.as_str().unicode_len();
    if n >= 2 && value.as_str().get_char(0) == '\'' && value.as_str().get_char(n - 1) == '\'' {
        let content = value.as_str().substring_char(1, n - 1).to_owned();
        return Token::StringValue(content);
    }
    if check_all_digits(&value) {
        return Token::Number(value);
    }
    if contains_float_number(&value) {
        return Token::FloatNumber(value);
    }
    let lowered = to_lower_ascii(&value);
    classify_word(lowered)
}

} // verus!
