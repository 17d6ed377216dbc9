//! The meaning of scanning, stated over the character sequence of the source.

use vstd::prelude::*;
use crate::chars::{CharClass, is_digit, is_whitespace, is_id_start, is_operator_char, is_punctuation};
use crate::token::{LexError, TokenView, is_keyword};

verus! {

/// The index where the maximal run of `class` characters that starts at `i` ends.
pub open spec fn run_end(s: Seq<char>, i: int, class: CharClass) -> int
    decreases s.len() - i,
{
    if 0 <= i < s.len() && class.contains(s[i]) {
        run_end(s, i + 1, class)
    } else {
        i
    }
}

pub proof fn lemma_run_end(s: Seq<char>, i: int, class: CharClass)
    ensures
        i <= run_end(s, i, class),
        0 <= i <= s.len() ==> run_end(s, i, class) <= s.len(),
        0 <= i <= s.len() ==> forall|k: int|
            i <= k < run_end(s, i, class) ==> class.contains(#[trigger] s[k]),
        0 <= i <= s.len() && run_end(s, i, class) < s.len() ==> !class.contains(
            s[run_end(s, i, class)],
        ),
    decreases s.len() - i,
{
    if 0 <= i < s.len() && class.contains(s[i]) {
        lemma_run_end(s, i + 1, class);
    }
}

/// The value of a run of decimal digits.
pub open spec fn digits_value(t: Seq<char>) -> int
    decreases t.len(),
{
    if t.len() == 0 {
        0
    } else {
        digits_value(t.drop_last()) * 10 + (t.last() as int - '0' as int)
    }
}

proof fn lemma_digits_nonneg(t: Seq<char>)
    requires
        forall|k: int| 0 <= k < t.len() ==> is_digit(#[trigger] t[k]),
    ensures
        0 <= digits_value(t),
    decreases t.len(),
{
    if t.len() > 0 {
        lemma_digits_nonneg(t.drop_last());
    }
}

/// A prefix of a digit run never has a larger value than the whole run.
pub proof fn lemma_digits_bounds(t: Seq<char>, k: int)
    requires
        0 <= k <= t.len(),
        forall|i: int| 0 <= i < t.len() ==> is_digit(#[trigger] t[i]),
    ensures
        0 <= digits_value(t.take(k)) <= digits_value(t),
    decreases t.len(),
{
    if k < t.len() {
        let u = t.drop_last();
        lemma_digits_bounds(u, k);
        assert(u.take(k) =~= t.take(k));
        lemma_digits_nonneg(u);
    } else {
        assert(t.take(k) =~= t);
        lemma_digits_nonneg(t);
    }
}

/// What a string body starting at `i` yields: its unescaped text and the index
/// just past the closing `end`, or `None` when the text ends first. A backslash
/// makes the next character literal.
pub open spec fn string_body(s: Seq<char>, i: int, end: char, escaped: bool) -> Option<
    (Seq<char>, int),
>
    decreases s.len() - i,
{
    if i < 0 || i >= s.len() {
        None
    } else if escaped {
        prefixed(s[i], string_body(s, i + 1, end, false))
    } else if s[i] == '\\' {
        string_body(s, i + 1, end, true)
    } else if s[i] == end {
        Some((Seq::empty(), i + 1))
    } else {
        prefixed(s[i], string_body(s, i + 1, end, false))
    }
}

/// `r` with `c` put in front of its text.
pub open spec fn prefixed(c: char, r: Option<(Seq<char>, int)>) -> Option<(Seq<char>, int)> {
    joined(seq![c], r)
}

/// `r` with `a` put in front of its text.
pub open spec fn joined(a: Seq<char>, r: Option<(Seq<char>, int)>) -> Option<(Seq<char>, int)> {
    match r {
        Some((t, e)) => Some((a + t, e)),
        None => None,
    }
}

/// The outcome of asking for one token.
pub enum Step {
    /// A token, and the index just past its text.
    Token(TokenView, int),
    /// No token is left.
    End,
    /// Scanning failed.
    Error(LexError),
}

/// A number token from the digit run at `j`.
pub open spec fn number_step(s: Seq<char>, j: int) -> Step {
    let e = run_end(s, j, CharClass::Digit);
    let v = digits_value(s.subrange(j, e));
    if v <= i32::MAX {
        Step::Token(TokenView::Num(v as i32), e)
    } else {
        Step::Error(LexError::NumberOverflow)
    }
}

/// A keyword or identifier token from the identifier that starts at `j`.
pub open spec fn ident_step(s: Seq<char>, j: int) -> Step {
    let e = run_end(s, j + 1, CharClass::IdChar);
    let t = s.subrange(j, e);
    if is_keyword(t) {
        Step::Token(TokenView::Kw(t), e)
    } else {
        Step::Token(TokenView::Var(t), e)
    }
}

/// A string token from the quoted string that opens at `j`.
pub open spec fn string_step(s: Seq<char>, j: int) -> Step {
    match string_body(s, j + 1, '"', false) {
        Some((t, e)) => Step::Token(TokenView::Str(t), e),
        None => Step::Error(LexError::UnterminatedString),
    }
}

/// An operator token from the operator run at `j`.
pub open spec fn operator_step(s: Seq<char>, j: int) -> Step {
    let e = run_end(s, j, CharClass::OperatorChar);
    Step::Token(TokenView::Op(s.subrange(j, e)), e)
}

/// Where scanning goes on after the comment that starts at `j`: past its newline.
pub open spec fn comment_end(s: Seq<char>, j: int) -> int {
    let k = run_end(s, j, CharClass::NotNewline);
    if k < s.len() {
        k + 1
    } else {
        k
    }
}

/// The next token of `s` from index `i`: whitespace and comments are skipped,
/// then the first character left decides the kind of token.
pub open spec fn next_step(s: Seq<char>, i: int) -> Step
    decreases s.len() - i,
    via next_step_decreases
{
    let j = run_end(s, i, CharClass::Whitespace);
    if j < 0 || j >= s.len() {
        Step::End
    } else if s[j] == '#' {
        next_step(s, comment_end(s, j))
    } else if s[j] == '"' {
        string_step(s, j)
    } else if is_digit(s[j]) {
        number_step(s, j)
    } else if is_id_start(s[j]) {
        ident_step(s, j)
    } else if is_punctuation(s[j]) {
        Step::Token(TokenView::Punc(seq![s[j]]), j + 1)
    } else if is_operator_char(s[j]) {
        operator_step(s, j)
    } else {
        Step::Error(LexError::UnexpectedCharacter(s[j]))
    }
}

#[via_fn]
proof fn next_step_decreases(s: Seq<char>, i: int) {
    lemma_run_end(s, i, CharClass::Whitespace);
    let j = run_end(s, i, CharClass::Whitespace);
    if 0 <= j < s.len() && s[j] == '#' {
        lemma_run_end(s, j, CharClass::NotNewline);
    }
}

/// Text made only of spaces, tabs and newlines holds no token: scanning it,
/// from any position, reaches the end at once.
pub proof fn lemma_blank_text_has_no_token(s: Seq<char>, i: int)
    requires
        0 <= i <= s.len(),
        forall|k: int| 0 <= k < s.len() ==> is_whitespace(#[trigger] s[k]),
    ensures
        next_step(s, i) == Step::End,
{
    lemma_run_end(s, i, CharClass::Whitespace);
}

} // verus!
