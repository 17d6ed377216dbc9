//! Character classes that drive the scanner.

use vstd::prelude::*;

verus! {

/// Space, tab or newline.
pub open spec fn is_whitespace(c: char) -> bool {
    c == ' ' || c == '\t' || c == '\n'
}

/// An ASCII decimal digit.
pub open spec fn is_digit(c: char) -> bool {
    '0' <= c && c <= '9'
}

/// The first character of an identifier: a lowercase ASCII letter or `_`.
pub open spec fn is_id_start(c: char) -> bool {
    ('a' <= c && c <= 'z') || c == '_'
}

/// A character that may follow the first one in an identifier.
pub open spec fn is_id_char(c: char) -> bool {
    is_id_start(c) || is_digit(c) || c == '?' || c == '!' || c == '-' || c == '<' || c == '>'
        || c == '='
}

/// A delimiter that forms a token by itself.
pub open spec fn is_punctuation(c: char) -> bool {
    c == ',' || c == ';' || c == '(' || c == ')' || c == '{' || c == '}' || c == '[' || c == ']'
}

/// A character of an operator symbol.
pub open spec fn is_operator_char(c: char) -> bool {
    c == '+' || c == '-' || c == '*' || c == '/' || c == '%' || c == '=' || c == '&' || c == '|'
        || c == '<' || c == '>' || c == '!'
}

/// The classes of characters that the scanner consumes in runs.
#[derive(Clone, Copy, Debug, PartialEq, Eq)]
pub enum CharClass {
    Whitespace,
    Digit,
    IdChar,
    OperatorChar,
    NotNewline,
}

impl CharClass {
    /// Whether `c` belongs to the class.
    pub open spec fn contains(self, c: char) -> bool {
        match self {
            CharClass::Whitespace => is_whitespace(c),
            CharClass::Digit => is_digit(c),
            CharClass::IdChar => is_id_char(c),
            CharClass::OperatorChar => is_operator_char(c),
            CharClass::NotNewline => c != '\n',
        }
    }

    /// Tests whether `c` belongs to the class.
    pub fn matches(&self, c: char) -> (r: bool)
        ensures
            r == self.contains(c),
    {
        match self {
            CharClass::Whitespace => c == ' ' || c == '\t' || c == '\n',
            CharClass::Digit => '0' <= c && c <= '9',
            CharClass::IdChar => ('a' <= c && c <= 'z') || c == '_' || ('0' <= c && c <= '9')
                || c == '?' || c == '!' || c == '-' || c == '<' || c == '>' || c == '=',
            CharClass::OperatorChar => c == '+' || c == '-' || c == '*' || c == '/' || c == '%'
                || c == '=' || c == '&' || c == '|' || c == '<' || c == '>' || c == '!',
            CharClass::NotNewline => c != '\n',
        }
    }
}

pub fn is_digit_char(c: char) -> (r: bool)
    ensures
        r == is_digit(c),
{
    '0' <= c && c <= '9'
}

pub fn is_id_start_char(c: char) -> (r: bool)
    ensures
        r == is_id_start(c),
{
    ('a' <= c && c <= 'z') || c == '_'
}

pub fn is_punctuation_char(c: char) -> (r: bool)
    ensures
        r == is_punctuation(c),
{
    c == ',' || c == ';' || c == '(' || c == ')' || c == '{' || c == '}' || c == '[' || c == ']'
}

} // verus!
