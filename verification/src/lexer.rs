//! The tokenizer: a cursor over the source text with one character of
//! lookahead.

use vstd::prelude::*;

use crate::token::Token;
use crate::token::TokenView;
use crate::token::all_digits;
use crate::token::is_digit_char;
use crate::token::is_float_shape;
use crate::token::is_letter_char;
use crate::token::is_quoted;
use crate::token::spec_classify_word;
use crate::token::spec_lower;
use crate::token::spec_token_of_char;
use crate::token::spec_token_of_value;
use crate::token::token_from_char;
use crate::token::token_from_value;

verus! {

/// A whitespace character that separates lexemes and produces no token.
pub open spec fn is_whitespace_char(c: char) -> bool {
    c == ' ' || c == '\t' || c == '\n' || c == '\r'
}

/// A character that starts a scanned lexeme: an ASCII letter or digit.
pub open spec fn is_lexeme_start(c: char) -> bool {
    is_letter_char(c) || is_digit_char(c)
}

/// A character that continues a scanned lexeme: letter, digit, underscore or
/// decimal point.
pub open spec fn is_value_char(c: char) -> bool {
    is_letter_char(c) || is_digit_char(c) || c == '_' || c == '.'
}

/// The character under the cursor, or the null sentinel past the end.
pub open spec fn char_at(s: Seq<char>, i: int) -> char {
    if 0 <= i < s.len() {
        s[i]
    } else {
        '\0'
    }
}

/// The first position at or after `i` that does not hold whitespace.
pub open spec fn skip_ws_from(s: Seq<char>, i: int) -> int
    decreases s.len() - i,
{
    if 0 <= i < s.len() && is_whitespace_char(s[i]) {
        skip_ws_from(s, i + 1)
    } else {
        i
    }
}

/// The end of the maximal run of lexeme characters that starts at `i`.
pub open spec fn value_run_end(s: Seq<char>, i: int) -> int
    decreases s.len() - i,
{
    if 0 <= i < s.len() && is_value_char(s[i]) {
        value_run_end(s, i + 1)
    } else {
        i
    }
}

/// What one call of `next_token` does on input `s` with the cursor at `pos`:
/// the token it returns and the cursor position it leaves behind.
///
/// Whitespace is skipped first. A letter or digit starts a maximal run of
/// lexeme characters, classified as a whole. A `<` or `>` looks one character
/// ahead and consumes a two-character operator when it sees `<=`, `>=` or
/// `<>`. Any other character classifies alone; at the end of the input the
/// cursor stays put and the token is `Eof`.
pub open spec fn spec_next_token(s: Seq<char>, pos: int) -> (TokenView, int) {
    let i = skip_ws_from(s, pos);
    let c = char_at(s, i);
    if is_lexeme_start(c) {
        let j = value_run_end(s, i);
        (spec_token_of_value(s.subrange(i, j)), j)
    } else if c == '<' || c == '>' {
        let d = char_at(s, i + 1);
        if d == '=' || (c == '<' && d == '>') {
            (spec_token_of_value(seq![c, d]), i + 2)
        } else {
            (spec_token_of_char(c), i + 1)
        }
    } else if i < s.len() {
        (spec_token_of_char(c), i + 1)
    } else {
        (TokenView::Eof, s.len() as int)
    }
}

/// The tokenizer. It owns a cursor over the source text and hands out one
/// token per [`Lexer::next_token`] call until the input is exhausted, after
/// which every further call returns `Eof`.
pub struct Lexer<'a> {
    input: &'a str,
    pos: usize,
    len: usize,
}

impl<'a> Lexer<'a> {
    #[verifier::type_invariant]
    closed spec fn inv(&self) -> bool {
        self.len as nat == self.input@.len() && self.pos <= self.len
    }

    /// The characters of the source text.
    pub closed spec fn text(&self) -> Seq<char> {
        self.input@
    }

    /// The cursor: how many characters have been consumed.
    pub closed spec fn cursor(&self) -> int {
        self.pos as int
    }

    /// Makes a tokenizer over the full source text, with the cursor at the
    /// start.
    pub fn new(input: &'a str) -> (l: Lexer<'a>)
        ensures
            l.text() == input@,
            l.cursor() == 0,
    {
        let len = input.unicode_len();
        Lexer { input, pos: 0, len }
    }

    /// The character under the cursor: the one-character lookahead. Past the
    /// end of the input it is the null sentinel.
    fn current_char(&self) -> (c: char)
        ensures
            c == char_at(self.text(), self.cursor()),
    {
        proof {
            use_type_invariant(&self);
        }
        if self.pos < self.len {
            self.input.get_char(self.pos)
        } else {
            '\0'
        }
    }

    /// The character one past the cursor, or the null sentinel.
    fn peek_char(&self) -> (c: char)
        ensures
            c == char_at(self.text(), self.cursor() + 1),
    {
        proof {
            use_type_invariant(&self);
        }
        if self.pos < self.len {
            let q = self.pos + 1;
            if q < self.len {
                self.input.get_char(q)
            } else {
                '\0'
            }
        } else {
            '\0'
        }
    }

    /// Advances the cursor by one character; at the end of the input it
    /// stays put.
    fn read_char(&mut self)
        ensures
            final(self).text() == old(self).text(),
            final(self).cursor() == if old(self).cursor() < old(self).text().len() {
                old(self).cursor() + 1
            } else {
                old(self).cursor()
            },
    {
        proof {
            use_type_invariant(&*self);
        }
        if self.pos < self.len {
            self.pos = self.pos + 1;
        }
    }

    /// Skips the maximal run of whitespace under the cursor.
    fn skip_whitespaces(&mut self)
        ensures
            final(self).text() == old(self).text(),
            final(self).cursor() == skip_ws_from(old(self).text(), old(self).cursor()),
    {
        proof {
            use_type_invariant(&*self);
        }
        loop
            invariant
                self.text() == old(self).text(),
                old(self).cursor() <= self.cursor() <= self.text().len(),
                skip_ws_from(self.text(), self.cursor()) == skip_ws_from(
                    old(self).text(),
                    old(self).cursor(),
                ),
            decreases self.text().len() - self.cursor(),
        {
            let c = self.current_char();
            if c == ' ' || c == '\t' || c == '\n' || c == '\r' {
                self.read_char();
            } else {
                return ;
            }
        }
    }

    /// Consumes the maximal run of lexeme characters under the cursor and
    /// returns it as one string.
    fn read_value(&mut self) -> (v: String)
        ensures
            final(self).text() == old(self).text(),
            final(self).cursor() == value_run_end(old(self).text(), old(self).cursor()),
            old(self).cursor() <= final(self).cursor() <= final(self).text().len(),
            v@ == old(self).text().subrange(old(self).cursor(), final(self).cursor()),
    {
        proof {
            use_type_invariant(&*self);
        }
        let start = self.pos;
        loop
            invariant
                self.text() == old(self).text(),
                start == old(self).pos,
                old(self).cursor() <= self.cursor() <= self.text().len(),
                value_run_end(self.text(), self.cursor()) == value_run_end(
                    old(self).text(),
                    old(self).cursor(),
                ),
            ensures
                self.text() == old(self).text(),
                start == old(self).pos,
                old(self).cursor() <= self.cursor() <= self.text().len(),
                self.cursor() == value_run_end(old(self).text(), old(self).cursor()),
            decreases self.text().len() - self.cursor(),
        {
            let c = self.current_char();
            let u = c as u32;
            let ok = ('a' as u32 <= u && u <= 'z' as u32) || ('A' as u32 <= u && u <= 'Z' as u32)
                || ('0' as u32 <= u && u <= '9' as u32) || c == '_' || c == '.';
            if ok {
                self.read_char();
            } else {
                break ;
            }
        }
        proof {
            use_type_invariant(&*self);
        }
        self.input.substring_char(start, self.pos).to_owned()
    }

    /// Returns the next token and moves the cursor past the consumed lexeme,
    /// exactly as [`spec_next_token`] states. Calling it again after the end
    /// of the input keeps returning `Eof` with the cursor unchanged.
    pub fn next_token(&mut self) -> (t: Token)
        ensures
            final(self).text() == old(self).text(),
            t@ == spec_next_token(old(self).text(), old(self).cursor()).0,
            final(self).cursor() == spec_next_token(old(self).text(), old(self).cursor()).1,
            0 <= final(self).cursor() <= final(self).text().len(),
    {
        self.skip_whitespaces();
        let c = self.current_char();
        let u = c as u32;
        let starts_lexeme = ('a' as u32 <= u && u <= 'z' as u32) || ('A' as u32 <= u && u
            <= 'Z' as u32) || ('0' as u32 <= u && u <= '9' as u32);
        if starts_lexeme {
            let v = self.read_value();
            let t = token_from_value(v);
            proof {
                use_type_invariant(&*self);
            }
            t
        } else if c == '<' || c == '>' {
            let d = self.peek_char();
            if d == '=' || (c == '<' && d == '>') {
                proof {
                    use_type_invariant(&*self);
                }
                let start = self.pos;
                self.read_char();
                self.read_char();
                let w = self.input.substring_char(start, start + 2).to_owned();
                proof {
                    assert(w@ =~= seq![c, d]);
                }
                token_from_value(w)
            } else {
                let t = token_from_char(c);
                self.read_char();
                proof {
                    use_type_invariant(&*self);
                }
                t
            }
        } else {
            let t = token_from_char(c);
            self.read_char();
            proof {
                use_type_invariant(&*self);
            }
            t
        }
    }
}

/// Where the whitespace skip stops: no earlier than it started, no later
/// than the end of the input, and never on a whitespace character.
proof fn lemma_skip_ws_stops(s: Seq<char>, i: int)
    requires
        0 <= i <= s.len(),
    ensures
        i <= skip_ws_from(s, i) <= s.len(),
        skip_ws_from(s, i) < s.len() ==> !is_whitespace_char(s[skip_ws_from(s, i)]),
    decreases s.len() - i,
{
    if i < s.len() && is_whitespace_char(s[i]) {
        lemma_skip_ws_stops(s, i + 1);
    }
}

/// Where a lexeme run ends: no earlier than it started and no later than the
/// end of the input.
proof fn lemma_value_run_bounds(s: Seq<char>, i: int)
    requires
        0 <= i <= s.len(),
    ensures
        i <= value_run_end(s, i) <= s.len(),
        i < s.len() && is_value_char(s[i]) ==> value_run_end(s, i) > i,
    decreases s.len() - i,
{
    if i < s.len() && is_value_char(s[i]) {
        lemma_value_run_bounds(s, i + 1);
    }
}

/// A run over characters that are all lexeme characters reaches the end of
/// the input.
proof fn lemma_value_run_all(s: Seq<char>, i: int)
    requires
        0 <= i <= s.len(),
        forall|k: int| i <= k < s.len() ==> is_value_char(#[trigger] s[k]),
    ensures
        value_run_end(s, i) == s.len(),
    decreases s.len() - i,
{
    if i < s.len() {
        lemma_value_run_all(s, i + 1);
    }
}

/// Law: tokenization terminates and the end of the input is absorbing. While
/// input remains, one `next_token` step strictly advances the cursor, and the
/// cursor never passes the end; once the cursor stands at the end, the step
/// returns `Eof` and leaves the cursor where it is, so every later call does
/// the same.
pub proof fn lemma_next_token_progress(s: Seq<char>, pos: int)
    requires
        0 <= pos <= s.len(),
    ensures
        pos <= spec_next_token(s, pos).1 <= s.len(),
        pos < s.len() ==> spec_next_token(s, pos).1 > pos,
        pos == s.len() ==> spec_next_token(s, pos) == (TokenView::Eof, pos),
{
    lemma_skip_ws_stops(s, pos);
    let i = skip_ws_from(s, pos);
    let c = char_at(s, i);
    if is_lexeme_start(c) {
        lemma_value_run_bounds(s, i);
    }
}

/// Law: a lexeme made of letters alone is classified by its lowercase form,
/// so a reserved keyword is recognized in any casing: tokenizing such a word
/// from the start of the input consumes the whole input and yields the
/// word-table token of the lowercased word.
pub proof fn lemma_keyword_case_insensitive(s: Seq<char>)
    requires
        s.len() > 0,
        forall|k: int| 0 <= k < s.len() ==> is_letter_char(#[trigger] s[k]),
    ensures
        spec_next_token(s, 0) == (spec_classify_word(spec_lower(s)), s.len() as int),
{
    assert(skip_ws_from(s, 0) == 0);
    lemma_value_run_all(s, 0);
    assert(s.subrange(0, s.len() as int) =~= s);
    assert(!is_quoted(s));
    assert(!all_digits(s)) by {
        assert(!is_digit_char(s[0]));
    }
    assert(!is_float_shape(s)) by {
        assert(!(is_digit_char(s[0]) || s[0] == '.'));
    }
}

/// Law: the two-character comparison operators are consumed by lookahead as
/// one token, never as two single-character tokens: when the input starts
/// with `<=`, `>=` or `<>`, the first token is the matching two-character
/// operator and exactly two characters are consumed.
pub proof fn lemma_operator_lookahead(s: Seq<char>)
    requires
        s.len() >= 2,
        (s[0] == '<' && s[1] == '=') || (s[0] == '>' && s[1] == '=') || (s[0] == '<' && s[1]
            == '>'),
    ensures
        spec_next_token(s, 0).1 == 2,
        s[0] == '<' && s[1] == '=' ==> spec_next_token(s, 0).0 == TokenView::LessEqual,
        s[0] == '>' && s[1] == '=' ==> spec_next_token(s, 0).0 == TokenView::BiggerEqual,
        s[0] == '<' && s[1] == '>' ==> spec_next_token(s, 0).0 == TokenView::NotEqual,
{
    assert(skip_ws_from(s, 0) == 0);
    lemma_operator_paths_agree();
    if s[0] == '<' && s[1] == '=' {
        assert(seq![s[0], s[1]] =~= "<="@) by {
            reveal_strlit("<=");
        }
    } else if s[0] == '>' && s[1] == '=' {
        assert(seq![s[0], s[1]] =~= ">="@) by {
            reveal_strlit(">=");
        }
    } else {
        assert(seq![s[0], s[1]] =~= "<>"@) by {
            reveal_strlit("<>");
        }
    }
}

/// Law: a `<` or `>` followed by anything that does not complete a
/// two-character operator is one single-character token: exactly one
/// character is consumed and the next call starts at the following character.
pub proof fn lemma_operator_single(s: Seq<char>)
    requires
        s.len() >= 1,
        s[0] == '<' || s[0] == '>',
        char_at(s, 1) != '=',
        !(s[0] == '<' && char_at(s, 1) == '>'),
    ensures
        spec_next_token(s, 0).1 == 1,
        s[0] == '<' ==> spec_next_token(s, 0).0 == TokenView::Less,
        s[0] == '>' ==> spec_next_token(s, 0).0 == TokenView::Bigger,
{
    assert(skip_ws_from(s, 0) == 0);
}

/// Law: the generic word-classification path agrees with the lookahead path
/// on the two-character operator lexemes.
pub proof fn lemma_operator_paths_agree()
    ensures
        spec_token_of_value("<="@) == TokenView::LessEqual,
        spec_token_of_value(">="@) == TokenView::BiggerEqual,
        spec_token_of_value("<>"@) == TokenView::NotEqual,
{
    reveal_strlit("<=");
    reveal_strlit(">=");
    reveal_strlit("<>");
    reveal_strlit("create");
    reveal_strlit("drop");
    reveal_strlit("alter");
    reveal_strlit("table");
    reveal_strlit("view");
    reveal_strlit("index");
    reveal_strlit("select");
    reveal_strlit("insert");
    reveal_strlit("delete");
    reveal_strlit("update");
    reveal_strlit("where");
    reveal_strlit("from");
    reveal_strlit("set");
    reveal_strlit("is");
    reveal_strlit("group");
    reveal_strlit("having");
    reveal_strlit("order");
    reveal_strlit("by");
    reveal_strlit("commit");
    reveal_strlit("rollback");
    reveal_strlit("join");
    reveal_strlit("inner");
    reveal_strlit("left");
    reveal_strlit("right");
    reveal_strlit("full");
    reveal_strlit("primary");
    reveal_strlit("foreign");
    reveal_strlit("key");
    reveal_strlit("references");
    reveal_strlit("unique");
    reveal_strlit("check");
    reveal_strlit("constraint");
    reveal_strlit("default");
    reveal_strlit("and");
    reveal_strlit("or");
    reveal_strlit("not");
    reveal_strlit("in");
    reveal_strlit("between");
    reveal_strlit("like");
    reveal_strlit("null");
    reveal_strlit("case");
    reveal_strlit("then");
    reveal_strlit("else");
    reveal_strlit("end");
    reveal_strlit("as");
    reveal_strlit("on");
    assert(spec_lower("<="@) =~= "<="@);
    assert(spec_lower(">="@) =~= ">="@);
    assert(spec_lower("<>"@) =~= "<>"@);
    assert("<="@ != "<>"@) by {
        assert("<="@[1] == '=');
        assert("<>"@[1] == '>');
    }
    assert(!all_digits("<="@)) by {
        assert(!is_digit_char("<="@[0]));
    }
    assert(!all_digits(">="@)) by {
        assert(!is_digit_char(">="@[0]));
    }
    assert(!all_digits("<>"@)) by {
        assert(!is_digit_char("<>"@[0]));
    }
    assert(!is_float_shape("<="@)) by {
        assert(!(is_digit_char("<="@[0]) || "<="@[0] == '.'));
    }
    assert(!is_float_shape(">="@)) by {
        assert(!(is_digit_char(">="@[0]) || ">="@[0] == '.'));
    }
    assert(!is_float_shape("<>"@)) by {
        assert(!(is_digit_char("<>"@[0]) || "<>"@[0] == '.'));
    }
}

/// Law: whitespace produces no token and its run length does not matter: the
/// next token and the cursor it leaves behind are the same whether scanning
/// starts at a position or at the end of the whitespace run that begins
/// there.
pub proof fn lemma_whitespace_insensitive(s: Seq<char>, pos: int)
    requires
        0 <= pos <= s.len(),
    ensures
        spec_next_token(s, pos) == spec_next_token(s, skip_ws_from(s, pos)),
{
    lemma_skip_ws_stops(s, pos);
}

/// The whole stream of tokens from a cursor position: every `next_token`
/// result in order, up to and including the first `Eof`.
pub open spec fn spec_token_stream(s: Seq<char>, pos: int) -> Seq<TokenView>
    decreases s.len() - pos,
    when 0 <= pos <= s.len()
    via spec_token_stream_decreases
{
    let t = spec_next_token(s, pos).0;
    let p = spec_next_token(s, pos).1;
    if t is Eof {
        seq![t]
    } else {
        seq![t] + spec_token_stream(s, p)
    }
}

#[via_fn]
proof fn spec_token_stream_decreases(s: Seq<char>, pos: int) {
    lemma_next_token_progress(s, pos);
}

/// Whitespace skipping passes through a prefix of whitespace characters.
proof fn lemma_skip_ws_through_prefix(w: Seq<char>, s: Seq<char>, j: int)
    requires
        0 <= j <= w.len(),
        forall|k: int| 0 <= k < w.len() ==> is_whitespace_char(#[trigger] w[k]),
    ensures
        skip_ws_from(w + s, j) == skip_ws_from(w + s, w.len() as int),
    decreases w.len() - j,
{
    if j < w.len() {
        assert((w + s)[j] == w[j]);
        lemma_skip_ws_through_prefix(w, s, j + 1);
    }
}

/// Whitespace skipping after a prefix only looks at the part after it.
proof fn lemma_skip_ws_shift(w: Seq<char>, s: Seq<char>, j: int)
    requires
        0 <= j <= s.len(),
    ensures
        skip_ws_from(w + s, w.len() + j) == w.len() + skip_ws_from(s, j),
    decreases s.len() - j,
{
    if j < s.len() && is_whitespace_char(s[j]) {
        assert((w + s)[w.len() + j] == s[j]);
        lemma_skip_ws_shift(w, s, j + 1);
    }
}

/// A lexeme run after a prefix only looks at the part after it.
proof fn lemma_value_run_shift(w: Seq<char>, s: Seq<char>, j: int)
    requires
        0 <= j <= s.len(),
    ensures
        value_run_end(w + s, w.len() + j) == w.len() + value_run_end(s, j),
    decreases s.len() - j,
{
    if j < s.len() && is_value_char(s[j]) {
        assert((w + s)[w.len() + j] == s[j]);
        lemma_value_run_shift(w, s, j + 1);
    }
}

/// One tokenization step after a prefix only looks at the part after it: it
/// yields the same token and the same cursor advance as the step over the
/// suffix alone.
proof fn lemma_next_token_shift(w: Seq<char>, s: Seq<char>, j: int)
    requires
        0 <= j <= s.len(),
    ensures
        spec_next_token(w + s, w.len() + j).0 == spec_next_token(s, j).0,
        spec_next_token(w + s, w.len() + j).1 == w.len() + spec_next_token(s, j).1,
{
    let u = w + s;
    lemma_skip_ws_shift(w, s, j);
    lemma_skip_ws_stops(s, j);
    let i = skip_ws_from(s, j);
    assert(char_at(u, w.len() + i) == char_at(s, i));
    assert(char_at(u, w.len() + i + 1) == char_at(s, i + 1));
    let c = char_at(s, i);
    if is_lexeme_start(c) {
        lemma_value_run_shift(w, s, i);
        lemma_value_run_bounds(s, i);
        let e = value_run_end(s, i);
        assert(u.subrange(w.len() + i, w.len() + e) =~= s.subrange(i, e));
    }
}

/// Law: the token stream from a position depends only on the input from that
/// position on — the streams from matching positions before and after any
/// prefix are equal. With [`lemma_token_stream_whitespace_prefix`] this makes
/// whitespace runs between lexemes free: each token's suffix stream ignores
/// what came before it.
pub proof fn lemma_token_stream_shift(w: Seq<char>, s: Seq<char>, j: int)
    requires
        0 <= j <= s.len(),
    ensures
        spec_token_stream(w + s, w.len() + j) == spec_token_stream(s, j),
    decreases s.len() - j,
{
    lemma_next_token_shift(w, s, j);
    lemma_next_token_progress(s, j);
    let t = spec_next_token(s, j).0;
    let p = spec_next_token(s, j).1;
    if !(t is Eof) {
        lemma_token_stream_shift(w, s, p);
    }
}

/// Law: whitespace runs do not matter to the token stream: putting any run of
/// whitespace characters, of any length and kinds, in front of the input
/// leaves the whole stream of tokens unchanged.
pub proof fn lemma_token_stream_whitespace_prefix(w: Seq<char>, s: Seq<char>)
    requires
        forall|k: int| 0 <= k < w.len() ==> is_whitespace_char(#[trigger] w[k]),
    ensures
        spec_token_stream(w + s, 0) == spec_token_stream(s, 0),
{
    let u = w + s;
    lemma_skip_ws_through_prefix(w, s, 0);
    lemma_skip_ws_shift(w, s, 0);
    assert(skip_ws_from(u, 0) == skip_ws_from(u, w.len() as int));
    lemma_next_token_shift(w, s, 0);
    lemma_next_token_progress(s, 0);
    let t = spec_next_token(s, 0).0;
    let p = spec_next_token(s, 0).1;
    assert(spec_next_token(u, 0) == spec_next_token(u, w.len() as int));
    if !(t is Eof) {
        lemma_token_stream_shift(w, s, p);
    }
}

/// Law: tokenization of any finite input ends: the token stream is finite and
/// holds exactly one `Eof`, which stands at its end.
pub proof fn lemma_stream_ends_with_eof(s: Seq<char>, pos: int)
    requires
        0 <= pos <= s.len(),
    ensures
        spec_token_stream(s, pos).len() >= 1,
        spec_token_stream(s, pos).last() is Eof,
        forall|k: int|
            0 <= k < spec_token_stream(s, pos).len() - 1 ==> !(#[trigger] spec_token_stream(
                s,
                pos,
            )[k] is Eof),
    decreases s.len() - pos,
{
    lemma_next_token_progress(s, pos);
    let t = spec_next_token(s, pos).0;
    let p = spec_next_token(s, pos).1;
    if !(t is Eof) {
        lemma_stream_ends_with_eof(s, p);
    }
}

} // verus!

