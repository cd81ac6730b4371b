//! A tokenizer for a small SQL dialect.
//!
//! The library turns source text into a stream of [`token::Token`] values:
//! keywords, identifiers, literals, operators and punctuation, ended by a
//! single `Eof` token. The tokenizer never fails: input that matches no
//! recognized shape becomes an `Illegal` token and scanning continues.

pub mod lexer;
pub mod token;
