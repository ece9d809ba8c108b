//! Reading Lua source into tokens.

mod cursor;
pub mod lexical;

pub use cursor::{lemma_bumps_from_start, line_col, position_in, position_of, source_fits, Cursor};
pub mod grammar;
mod search;
mod inner;
pub use inner::{lex_token, Tokenizer};
pub mod stream;
mod tokens;
pub use tokens::{
    lemma_stream_advance, lemma_stream_fill, lemma_stream_next, lemma_stream_peek, opt_token,
    opt_token_ref, read_token, stream_advance, stream_fill, stream_next, stream_ok, stream_peek,
    stream_progress, Tokens, TokensV,
};
pub use stream::tokenize;
