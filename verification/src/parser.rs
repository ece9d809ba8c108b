//! Parsing Lua tokens into a syntax tree.

mod machine;
mod names;
mod expressions;
mod statements;
mod chunk;
mod state;
pub mod steps;
pub mod rules;
pub mod precedence;
pub mod starts;
pub mod adjacency;

pub use state::{
    opt_error, progress, state_ok, ParseError, ParseErrorMessage, ParseErrorMessageV, ParseErrorV,
    ParserV,
};
pub use machine::Parser;
pub use chunk::parsed_ast;
