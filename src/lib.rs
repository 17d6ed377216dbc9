//! A lexical scanner for a small scripting language: it turns source text
//! into keywords, identifiers, numbers, strings, punctuation and operators,
//! behind a one-token lookahead buffer.

pub mod chars;
pub mod input_stream;
pub mod lexical;
pub mod token;
pub mod token_stream;

pub use input_stream::{Diagnostic, InputStream};
pub use token::{LexError, Token};
pub use token_stream::{TokenStream, parse_number};
