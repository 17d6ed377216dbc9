use token_stream::{InputStream, LexError, Token, TokenStream, parse_number};

fn stream(text: &str) -> TokenStream {
    TokenStream::new(InputStream::new(text))
}

fn lex(text: &str) -> (Vec<Token>, Option<LexError>) {
    let mut ts = stream(text);
    let mut tokens = Vec::new();
    loop {
        match ts.next() {
            Ok(Some(t)) => tokens.push(t),
            Ok(None) => return (tokens, None),
            Err(e) => return (tokens, Some(e)),
        }
    }
}

fn kw(s: &str) -> Token {
    Token::Kw(s.to_string())
}

fn var(s: &str) -> Token {
    Token::Var(s.to_string())
}

fn punc(s: &str) -> Token {
    Token::Punc(s.to_string())
}

fn op(s: &str) -> Token {
    Token::Op(s.to_string())
}

#[test]
fn whitespace_only_text_has_no_tokens() {
    for text in ["", " ", "\t", "\n", "  \t\n \n\t  "] {
        assert_eq!(lex(text), (vec![], None));
        let mut ts = stream(text);
        assert_eq!(ts.next(), Ok(None));
        assert_eq!(ts.peek(), Ok(None));
    }
}

#[test]
fn conditional_expression() {
    assert_eq!(
        lex("if x then 1 else 2"),
        (
            vec![kw("if"), var("x"), kw("then"), Token::Num(1), kw("else"), Token::Num(2)],
            None
        )
    );
}

#[test]
fn comment_yields_no_token() {
    assert_eq!(lex("1 # comment\n2"), (vec![Token::Num(1), Token::Num(2)], None));
}

#[test]
fn comment_at_end_of_text() {
    assert_eq!(lex("1 # trailing"), (vec![Token::Num(1)], None));
    assert_eq!(lex("# only a comment"), (vec![], None));
}

#[test]
fn escaped_quote_in_string() {
    assert_eq!(lex("\"a\\\"b\""), (vec![Token::Str("a\"b".to_string())], None));
}

#[test]
fn escaped_character_is_kept_as_is() {
    assert_eq!(lex("\"a\\nb\""), (vec![Token::Str("anb".to_string())], None));
    assert_eq!(lex("\"x\\\\\""), (vec![Token::Str("x\\".to_string())], None));
    assert_eq!(lex("\"\""), (vec![Token::Str(String::new())], None));
}

#[test]
fn peek_twice_is_stable() {
    let mut ts = stream("a b");
    assert_eq!(ts.next(), Ok(Some(var("a"))));
    assert_eq!(ts.peek(), Ok(Some(var("b"))));
    assert_eq!(ts.peek(), Ok(Some(var("b"))));
    assert_eq!(ts.next(), Ok(Some(var("b"))));
    assert_eq!(ts.peek(), Ok(None));
}

#[test]
fn peek_before_first_next_is_empty() {
    let mut ts = stream("a");
    assert_eq!(ts.peek(), Ok(None));
    assert_eq!(ts.next(), Ok(Some(var("a"))));
}

#[test]
fn exhausted_stream_stays_exhausted() {
    let mut ts = stream("x");
    assert_eq!(ts.next(), Ok(Some(var("x"))));
    for _ in 0..5 {
        assert_eq!(ts.next(), Ok(None));
        assert_eq!(ts.peek(), Ok(None));
    }
}

#[test]
fn identifier_keeps_its_letters() {
    assert_eq!(lex("hello"), (vec![var("hello")], None));
    assert_eq!(lex("a-b?"), (vec![var("a-b?")], None));
    assert_eq!(lex("_x1!"), (vec![var("_x1!")], None));
}

#[test]
fn keyword_needs_whole_word() {
    assert_eq!(lex("he"), (vec![var("he")], None));
    assert_eq!(lex("iff"), (vec![var("iff")], None));
    assert_eq!(lex("lambda true false"), (vec![kw("lambda"), kw("true"), kw("false")], None));
}

#[test]
fn unterminated_string_is_an_error() {
    assert_eq!(lex("\"abc"), (vec![], Some(LexError::UnterminatedString)));
    let mut ts = stream("\"abc");
    assert_eq!(ts.next(), Err(LexError::UnterminatedString));
    assert_eq!(ts.next(), Err(LexError::UnterminatedString));
    assert_eq!(ts.peek(), Err(LexError::UnterminatedString));
}

#[test]
fn number_overflow_is_an_error() {
    assert_eq!(lex("2147483647"), (vec![Token::Num(2147483647)], None));
    assert_eq!(lex("2147483648"), (vec![], Some(LexError::NumberOverflow)));
    assert_eq!(lex("007"), (vec![Token::Num(7)], None));
}

#[test]
fn unexpected_character_is_an_error() {
    assert_eq!(lex("@"), (vec![], Some(LexError::UnexpectedCharacter('@'))));
    assert_eq!(lex("X"), (vec![], Some(LexError::UnexpectedCharacter('X'))));
}

#[test]
fn error_after_a_token_comes_next() {
    let mut ts = stream("1 @");
    assert_eq!(ts.next(), Ok(Some(Token::Num(1))));
    assert_eq!(ts.peek(), Err(LexError::UnexpectedCharacter('@')));
    assert_eq!(ts.next(), Err(LexError::UnexpectedCharacter('@')));
}

#[test]
fn punctuation_and_operators() {
    assert_eq!(
        lex("(a, b) <= -3;"),
        (
            vec![
                punc("("),
                var("a"),
                punc(","),
                var("b"),
                punc(")"),
                op("<="),
                op("-"),
                Token::Num(3),
                punc(";")
            ],
            None
        )
    );
    assert_eq!(lex("{[x]}"), (vec![punc("{"), punc("["), var("x"), punc("]"), punc("}")], None));
    assert_eq!(lex("a+=1"), (vec![var("a"), op("+="), Token::Num(1)], None));
}

#[test]
fn lambda_expression() {
    assert_eq!(
        lex("lambda (n) n * 2"),
        (
            vec![kw("lambda"), punc("("), var("n"), punc(")"), var("n"), op("*"), Token::Num(2)],
            None
        )
    );
}

#[test]
fn croak_reports_position() {
    let mut ts = stream("ab\ncd");
    assert_eq!(ts.next(), Ok(Some(var("ab"))));
    let d = ts.croak("boom".to_string());
    assert_eq!(d.message, "boom");
    assert_eq!(d.line, 2);
    assert_eq!(d.column, 2);
    let fresh = stream("x");
    let d = fresh.croak("start".to_string());
    assert_eq!((d.line, d.column), (1, 0));
}

#[test]
fn input_stream_steps() {
    let mut input = InputStream::new("a\nb");
    assert_eq!(input.peek(), Some('a'));
    assert!(!input.eof());
    assert_eq!(input.next(), Some('a'));
    assert_eq!(input.next(), Some('\n'));
    let d = input.croak("here".to_string());
    assert_eq!((d.line, d.column), (2, 0));
    assert_eq!(input.next(), Some('b'));
    assert!(input.eof());
    assert_eq!(input.peek(), None);
    assert_eq!(input.next(), None);
}

#[test]
fn parse_number_values() {
    assert_eq!(parse_number(&"0".to_string()), Ok(0));
    assert_eq!(parse_number(&"0042".to_string()), Ok(42));
    assert_eq!(parse_number(&"".to_string()), Ok(0));
    assert_eq!(parse_number(&"99999999999".to_string()), Err(LexError::NumberOverflow));
}

#[test]
fn non_ascii_text() {
    assert_eq!(lex("\"é\" x"), (vec![Token::Str("é".to_string()), var("x")], None));
    assert_eq!(lex("é"), (vec![], Some(LexError::UnexpectedCharacter('é'))));
}
