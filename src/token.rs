//! Tokens and lexical errors.

use vstd::prelude::*;

verus! {

/// A classified unit of source text.
#[derive(Debug, PartialEq, Eq)]
pub enum Token {
    Num(i32),
    Punc(String),
    Str(String),
    Kw(String),
    Var(String),
    Op(String),
}

/// The mathematical value of a token: its kind and its text.
pub enum TokenView {
    Num(i32),
    Punc(Seq<char>),
    Str(Seq<char>),
    Kw(Seq<char>),
    Var(Seq<char>),
    Op(Seq<char>),
}

impl View for Token {
    type V = TokenView;

    open spec fn view(&self) -> TokenView {
        match self {
            Token::Num(n) => TokenView::Num(*n),
            Token::Punc(t) => TokenView::Punc(t@),
            Token::Str(t) => TokenView::Str(t@),
            Token::Kw(t) => TokenView::Kw(t@),
            Token::Var(t) => TokenView::Var(t@),
            Token::Op(t) => TokenView::Op(t@),
        }
    }
}

impl Clone for Token {
    fn clone(&self) -> (r: Self)
        ensures
            r == *self,
    {
        match self {
            Token::Num(n) => Token::Num(*n),
            Token::Punc(t) => Token::Punc(t.clone()),
            Token::Str(t) => Token::Str(t.clone()),
            Token::Kw(t) => Token::Kw(t.clone()),
            Token::Var(t) => Token::Var(t.clone()),
            Token::Op(t) => Token::Op(t.clone()),
        }
    }
}

/// Why scanning stopped before the end of the text.
#[derive(Clone, Copy, Debug, PartialEq, Eq, Structural)]
pub enum LexError {
    /// The text ended inside a quoted string.
    UnterminatedString,
    /// A run of digits denotes a value above `i32::MAX`.
    NumberOverflow,
    /// A character that no token can start with.
    UnexpectedCharacter(char),
}

/// The reserved words of the language.
pub open spec fn is_keyword(t: Seq<char>) -> bool {
    t == "if"@ || t == "then"@ || t == "else"@ || t == "lambda"@ || t == "true"@ || t == "false"@
}

fn same_text(a: &String, b: &str) -> (r: bool)
    ensures
        r == (a@ == b@),
{
    let owned = b.to_owned();
    *a == owned
}

/// Exact membership of `t` in the keyword set.
pub fn is_keyword_text(t: &String) -> (r: bool)
    ensures
        r == is_keyword(t@),
{
    same_text(t, "if") || same_text(t, "then") || same_text(t, "else") || same_text(t, "lambda")
        || same_text(t, "true") || same_text(t, "false")
}

} // verus!
