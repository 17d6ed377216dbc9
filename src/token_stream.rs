//! The lexer: token readers over a character source, and a one-token
//! lookahead buffer in front of them.

use vstd::prelude::*;
use crate::chars::{CharClass, is_digit, is_digit_char, is_id_start, is_id_start_char, is_punctuation_char};
use crate::input_stream::{Diagnostic, InputStream, column_at, line_at};
use crate::lexical::{
    Step,
    comment_end,
    digits_value,
    ident_step,
    joined,
    lemma_digits_bounds,
    lemma_run_end,
    next_step,
    number_step,
    operator_step,
    run_end,
    string_body,
    string_step,
};
use crate::token::{LexError, Token, TokenView, is_keyword_text};

verus! {

/// Relies on `String::push`: appends one character to the string.
#[verifier::external_body]
fn push_char(s: &mut String, c: char)
    ensures
        final(s)@ == old(s)@.push(c),
{
    s.push(c);
}

/// The value of a run of decimal digits, or `NumberOverflow` when it is above `i32::MAX`.
pub fn parse_number(digits: &String) -> (r: Result<i32, LexError>)
    requires
        forall|k: int| 0 <= k < digits@.len() ==> is_digit(#[trigger] digits@[k]),
    ensures
        digits_value(digits@) <= i32::MAX ==> r == Ok::<i32, LexError>(
            digits_value(digits@) as i32,
        ),
        digits_value(digits@) > i32::MAX ==> r == Err::<i32, LexError>(LexError::NumberOverflow),
{
    let ghost t = digits@;
    let text = digits.as_str();
    let n = text.unicode_len();
    let mut acc: i64 = 0;
    let mut k: usize = 0;
    while k < n
        invariant
            text@ == t,
            t == digits@,
            n == t.len(),
            k <= n,
            acc == digits_value(t.take(k as int)),
            0 <= acc <= i32::MAX,
            forall|i: int| 0 <= i < t.len() ==> is_digit(#[trigger] t[i]),
        decreases n - k,
    {
        let c = text.get_char(k);
        let d = (c as u32 - '0' as u32) as i64;
        assert(t.take(k + 1).drop_last() =~= t.take(k as int));
        acc = acc * 10 + d;
        k = k + 1;
        if acc > i32::MAX as i64 {
            proof {
                lemma_digits_bounds(t, k as int);
            }
            return Err(LexError::NumberOverflow);
        }
    }
    assert(t.take(n as int) =~= t);
    Ok(acc as i32)
}

/// The value of a token outcome that ends at `pos`.
pub open spec fn token_step(r: Result<Token, LexError>, pos: int) -> Step {
    match r {
        Ok(t) => Step::Token(t@, pos),
        Err(e) => Step::Error(e),
    }
}

/// The value of what a dispatch returned, with the position it left.
pub open spec fn dispatch_step(r: Result<Option<Token>, LexError>, pos: int) -> Step {
    match r {
        Ok(Some(t)) => Step::Token(t@, pos),
        Ok(None) => Step::End,
        Err(e) => Step::Error(e),
    }
}

/// What the lookahead buffer holds.
pub enum Pending {
    /// No token has been asked for yet.
    Unstarted,
    /// The token that `next` hands out next.
    Ready(TokenView),
    /// The text holds no further token; this lasts.
    Finished,
    /// Scanning failed; this lasts.
    Failed(LexError),
}

/// The buffer's contents after a step.
pub open spec fn pending_after(st: Step) -> Pending {
    match st {
        Step::Token(t, _) => Pending::Ready(t),
        Step::End => Pending::Finished,
        Step::Error(e) => Pending::Failed(e),
    }
}

/// What `peek` and `next` hand out for a buffer state.
pub open spec fn handed_out(p: Pending) -> Result<Option<TokenView>, LexError> {
    match p {
        Pending::Ready(t) => Ok(Some(t)),
        Pending::Failed(e) => Err(e),
        _ => Ok(None),
    }
}

/// The value of a result of `peek` or `next`.
pub open spec fn result_view(r: Result<Option<Token>, LexError>) -> Result<
    Option<TokenView>,
    LexError,
> {
    match r {
        Ok(Some(t)) => Ok(Some(t@)),
        Ok(None) => Ok(None),
        Err(e) => Err(e),
    }
}

/// The state of a lexer: the text, how much of it was consumed, and the buffer.
pub struct LexState {
    pub text: Seq<char>,
    pub pos: int,
    pub pending: Pending,
}

/// `st` holds in its buffer the outcome of scanning its text from `i`, and
/// for a token stands just past it.
pub open spec fn refilled(st: LexState, i: int) -> bool {
    let step = next_step(st.text, i);
    &&& st.pending == pending_after(step)
    &&& (step matches Step::Token(_, e) ==> st.pos == e)
}

enum Lookahead {
    Unstarted,
    Ready(Token),
    Finished,
    Failed(LexError),
}

impl Lookahead {
    spec fn view(&self) -> Pending {
        match self {
            Lookahead::Unstarted => Pending::Unstarted,
            Lookahead::Ready(t) => Pending::Ready(t@),
            Lookahead::Finished => Pending::Finished,
            Lookahead::Failed(e) => Pending::Failed(*e),
        }
    }
}

/// A lexer: a character source and a one-token lookahead buffer.
pub struct TokenStream {
    cur: Lookahead,
    iter: InputStream,
}

impl View for TokenStream {
    type V = LexState;

    closed spec fn view(&self) -> LexState {
        LexState { text: self.iter@.text, pos: self.iter@.pos, pending: self.cur.view() }
    }
}

impl TokenStream {
    pub closed spec fn wf(&self) -> bool {
        self.iter.wf()
    }

    /// A lexer over `input`, with nothing buffered yet.
    pub fn new(input: InputStream) -> (r: TokenStream)
        requires
            input.wf(),
        ensures
            r.wf(),
            r@.text == input@.text,
            r@.pos == input@.pos,
            r@.pending == Pending::Unstarted,
    {
        TokenStream { cur: Lookahead::Unstarted, iter: input }
    }

    /// Consumes the maximal run of `class` characters and returns it.
    fn read_while(&mut self, class: CharClass) -> (r: String)
        requires
            old(self).wf(),
        ensures
            final(self).wf(),
            final(self)@.text == old(self)@.text,
            final(self).cur == old(self).cur,
            final(self)@.pos == run_end(old(self)@.text, old(self)@.pos, class),
            r@ == old(self)@.text.subrange(old(self)@.pos, final(self)@.pos),
    {
        let ghost s = self.iter@.text;
        let ghost start = self.iter@.pos;
        proof {
            self.iter.lemma_wf();
        }
        let mut string = String::new();
        loop
            invariant
                self.wf(),
                self.iter@.text == s,
                self.cur == old(self).cur,
                0 <= start <= self.iter@.pos <= s.len(),
                run_end(s, self.iter@.pos, class) == run_end(s, start, class),
                string@ == s.subrange(start, self.iter@.pos),
            ensures
                self.iter@.pos == run_end(s, start, class),
            decreases s.len() - self.iter@.pos,
        {
            match self.iter.peek() {
                Some(c) => {
                    if class.matches(c) {
                        self.iter.next();
                        push_char(&mut string, c);
                        assert(string@ =~= s.subrange(start, self.iter@.pos));
                    } else {
                        break ;
                    }
                },
                None => {
                    break ;
                },
            }
        }
        string
    }

    /// Reads the digit run at the current position as a number.
    fn read_number(&mut self) -> (r: Result<Token, LexError>)
        requires
            old(self).wf(),
            old(self)@.pos < old(self)@.text.len(),
            is_digit(old(self)@.text[old(self)@.pos]),
        ensures
            final(self).wf(),
            final(self)@.text == old(self)@.text,
            final(self).cur == old(self).cur,
            token_step(r, final(self)@.pos) == number_step(old(self)@.text, old(self)@.pos),
    {
        let ghost s = self.iter@.text;
        let ghost j = self.iter@.pos;
        proof {
            self.iter.lemma_wf();
            lemma_run_end(s, j, CharClass::Digit);
        }
        let digits = self.read_while(CharClass::Digit);
        assert forall|k: int| 0 <= k < digits@.len() implies is_digit(
            #[trigger] digits@[k],
        ) by {
            assert(digits@[k] == s[j + k]);
        }
        match parse_number(&digits) {
            Ok(v) => Ok(Token::Num(v)),
            Err(e) => Err(e),
        }
    }

    /// Reads the identifier at the current position as a keyword or a name.
    fn read_ident(&mut self) -> (r: Token)
        requires
            old(self).wf(),
            old(self)@.pos < old(self)@.text.len(),
            is_id_start(old(self)@.text[old(self)@.pos]),
        ensures
            final(self).wf(),
            final(self)@.text == old(self)@.text,
            final(self).cur == old(self).cur,
            Step::Token(r@, final(self)@.pos) == ident_step(old(self)@.text, old(self)@.pos),
    {
        proof {
            self.iter.lemma_wf();
        }
        let id = self.read_while(CharClass::IdChar);
        if is_keyword_text(&id) {
            Token::Kw(id)
        } else {
            Token::Var(id)
        }
    }

    /// Reads a string that the current character opens and `end` closes;
    /// a backslash makes the character after it literal.
    fn read_escaped(&mut self, end: char) -> (r: Result<String, LexError>)
        requires
            old(self).wf(),
            old(self)@.pos < old(self)@.text.len(),
        ensures
            final(self).wf(),
            final(self)@.text == old(self)@.text,
            final(self).cur == old(self).cur,
            match string_body(old(self)@.text, old(self)@.pos + 1, end, false) {
                Some((t, e)) => r matches Ok(v) && v@ == t && final(self)@.pos == e,
                None => r == Err::<String, LexError>(LexError::UnterminatedString),
            },
    {
        let ghost s = self.iter@.text;
        let ghost start = self.iter@.pos;
        proof {
            self.iter.lemma_wf();
        }
        self.iter.next();
        let mut escaped = false;
        let mut string = String::new();
        loop
            invariant
                self.wf(),
                self.iter@.text == s,
                s == old(self)@.text,
                start == old(self)@.pos,
                self.cur == old(self).cur,
                0 <= start < self.iter@.pos <= s.len(),
                string_body(s, start + 1, end, false) == joined(
                    string@,
                    string_body(s, self.iter@.pos, end, escaped),
                ),
            decreases s.len() - self.iter@.pos,
        {
            let ghost acc = string@;
            let ghost i = self.iter@.pos;
            match self.iter.next() {
                None => {
                    return Err(LexError::UnterminatedString);
                },
                Some(ch) => {
                    if escaped || (ch != '\\' && ch != end) {
                        escaped = false;
                        push_char(&mut string, ch);
                        proof {
                            match string_body(s, i + 1, end, false) {
                                Some((t, e)) => {
                                    assert(acc + (seq![ch] + t) =~= acc.push(ch) + t);
                                },
                                None => {},
                            }
                        }
                    } else if ch == '\\' {
                        escaped = true;
                    } else {
                        assert(acc + Seq::<char>::empty() =~= acc);
                        return Ok(string);
                    }
                },
            }
        }
    }

    /// Reads the quoted string at the current position.
    fn read_string(&mut self) -> (r: Result<Token, LexError>)
        requires
            old(self).wf(),
            old(self)@.pos < old(self)@.text.len(),
        ensures
            final(self).wf(),
            final(self)@.text == old(self)@.text,
            final(self).cur == old(self).cur,
            token_step(r, final(self)@.pos) == string_step(old(self)@.text, old(self)@.pos),
    {
        match self.read_escaped('"') {
            Ok(text) => Ok(Token::Str(text)),
            Err(e) => Err(e),
        }
    }

    /// Skips a comment: the rest of the line, and its newline.
    fn skip_comment(&mut self)
        requires
            old(self).wf(),
        ensures
            final(self).wf(),
            final(self)@.text == old(self)@.text,
            final(self).cur == old(self).cur,
            final(self)@.pos == comment_end(old(self)@.text, old(self)@.pos),
    {
        proof {
            self.iter.lemma_wf();
            lemma_run_end(self.iter@.text, self.iter@.pos, CharClass::NotNewline);
        }
        self.read_while(CharClass::NotNewline);
        self.iter.next();
    }

    /// Produces the next token of the text: skips whitespace and comments,
    /// then lets the first character left choose the reader.
    fn read_next(&mut self) -> (r: Result<Option<Token>, LexError>)
        requires
            old(self).wf(),
        ensures
            final(self).wf(),
            final(self)@.text == old(self)@.text,
            final(self).cur == old(self).cur,
            dispatch_step(r, final(self)@.pos) == next_step(old(self)@.text, old(self)@.pos),
    {
        let ghost s = self.iter@.text;
        let ghost start = self.iter@.pos;
        loop
            invariant
                self.wf(),
                self.iter@.text == s,
                s == old(self)@.text,
                start == old(self)@.pos,
                self.cur == old(self).cur,
                next_step(s, self.iter@.pos) == next_step(s, start),
            decreases s.len() - self.iter@.pos,
        {
            let ghost i = self.iter@.pos;
            proof {
                self.iter.lemma_wf();
                lemma_run_end(s, i, CharClass::Whitespace);
            }
            self.read_while(CharClass::Whitespace);
            let ghost j = self.iter@.pos;
            match self.iter.peek() {
                None => {
                    return Ok(None);
                },
                Some(c) => {
                    if c == '#' {
                        proof {
                            lemma_run_end(s, j, CharClass::NotNewline);
                        }
                        self.skip_comment();
                    } else if c == '"' {
                        return match self.read_string() {
                            Ok(t) => Ok(Some(t)),
                            Err(e) => Err(e),
                        };
                    } else if is_digit_char(c) {
                        return match self.read_number() {
                            Ok(t) => Ok(Some(t)),
                            Err(e) => Err(e),
                        };
                    } else if is_id_start_char(c) {
                        proof {
                            lemma_run_end(s, j + 1, CharClass::IdChar);
                        }
                        return Ok(Some(self.read_ident()));
                    } else if is_punctuation_char(c) {
                        self.iter.next();
                        let mut text = String::new();
                        push_char(&mut text, c);
                        assert(text@ =~= seq![c]);
                        return Ok(Some(Token::Punc(text)));
                    } else if CharClass::OperatorChar.matches(c) {
                        let op = self.read_while(CharClass::OperatorChar);
                        return Ok(Some(Token::Op(op)));
                    } else {
                        return Err(LexError::UnexpectedCharacter(c));
                    }
                },
            }
        }
    }

    /// Hands out the buffered token (scanning it first when nothing was
    /// buffered yet) and buffers the one after it. Once the text holds no
    /// further token, or scanning failed, every call answers the same.
    pub fn next(&mut self) -> (r: Result<Option<Token>, LexError>)
        requires
            old(self).wf(),
        ensures
            final(self).wf(),
            final(self)@.text == old(self)@.text,
            match old(self)@.pending {
                Pending::Unstarted => {
                    let first = next_step(old(self)@.text, old(self)@.pos);
                    &&& result_view(r) == handed_out(pending_after(first))
                    &&& match first {
                        Step::Token(_, e) => refilled(final(self)@, e),
                        _ => final(self)@.pending == pending_after(first),
                    }
                },
                Pending::Ready(t) => {
                    &&& result_view(r) == Ok::<Option<TokenView>, LexError>(Some(t))
                    &&& refilled(final(self)@, old(self)@.pos)
                },
                _ => {
                    &&& result_view(r) == handed_out(old(self)@.pending)
                    &&& final(self)@ == old(self)@
                },
            },
    {
        let cur = match &self.cur {
            Lookahead::Unstarted => {
                match self.read_next() {
                    Ok(Some(t)) => t,
                    Ok(None) => {
                        self.cur = Lookahead::Finished;
                        return Ok(None);
                    },
                    Err(e) => {
                        self.cur = Lookahead::Failed(e);
                        return Err(e);
                    },
                }
            },
            Lookahead::Ready(t) => t.clone(),
            Lookahead::Finished => {
                return Ok(None);
            },
            Lookahead::Failed(e) => {
                return Err(*e);
            },
        };
        self.cur = match self.read_next() {
            Ok(Some(t)) => Lookahead::Ready(t),
            Ok(None) => Lookahead::Finished,
            Err(e) => Lookahead::Failed(e),
        };
        Ok(Some(cur))
    }

    /// The buffered token, without consuming it.
    pub fn peek(&self) -> (r: Result<Option<Token>, LexError>)
        ensures
            result_view(r) == handed_out(self@.pending),
    {
        match &self.cur {
            Lookahead::Ready(t) => Ok(Some(t.clone())),
            Lookahead::Failed(e) => Err(*e),
            _ => Ok(None),
        }
    }

    /// A fatal diagnostic carrying `msg` and the current position in the text.
    pub fn croak(&self, msg: String) -> (r: Diagnostic)
        requires
            self.wf(),
        ensures
            r.message == msg,
            r.line == line_at(self@.text, self@.pos),
            r.column == column_at(self@.text, self@.pos),
    {
        self.iter.croak(msg)
    }
}

} // verus!
