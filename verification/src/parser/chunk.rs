//! Parsing a whole chunk, proved to do what `rules::chunk` says.

use crate::ast::{Ast, AstV};
use crate::location::Span;
use crate::parser::machine::Parser;
use crate::parser::rules::{chunk, unexpected_token};
use crate::parser::state::{ParseError, ParseErrorMessage, ParseErrorV};
use crate::text::cut_text;
use crate::tokenizer::lemma_stream_fill;
use vstd::prelude::*;
use vstd::string::StringSliceAdditionalSpecFns;

verus! {

/// The view of the result of parsing a chunk.
pub open spec fn parsed_ast(r: Result<Ast, ParseError>) -> Result<AstV, ParseErrorV> {
    match r {
        Ok(a) => Ok(a@),
        Err(e) => Err(e@),
    }
}

impl<'a> Parser<'a> {
    /// The error for the token at which parsing stopped, with its text.
    fn unexpected_token(&mut self) -> (e: ParseError)
        requires
            old(self).wf(),
        ensures
            final(self).wf(),
            final(self).source() == old(self).source(),
            e@ == unexpected_token(old(self).bytes(), old(self).view()),
            final(self).view() == crate::parser::steps::with_tokens(
                old(self).view(),
                crate::tokenizer::stream_fill(old(self).bytes(), old(self).view().tokens),
            ),
    {
        let span = match self.tokens.current() {
            Some(t) => t.span(),
            None => Span::default(),
        };
        let source = self.tokens.source();
        let text = if source.is_empty() || span.end() > source.len() || span.start() > span.end()
            || !source.is_char_boundary(span.start()) || !source.is_char_boundary(span.end()) {
            let unknown = "<unknown>";
            proof {
                reveal_strlit("<unknown>");
            }
            unknown.to_owned()
        } else {
            cut_text(source, span.start(), span.end())
        };
        ParseError {
            position: self.tokens.position(),
            message: ParseErrorMessage::UnexpectedToken(text),
        }
    }

    /// A whole chunk: a block that must leave no token behind. `...` is
    /// allowed in it; where no statement can be read, or a token is left
    /// over, the error says which token it was.
    pub fn parse_ast(&mut self) -> (r: Result<Ast, ParseError>)
        requires
            old(self).wf(),
        ensures
            final(self).wf(),
            final(self).source() == old(self).source(),
            (parsed_ast(r), final(self).view()) == chunk(old(self).bytes(), old(self).view()),
            r is Ok ==> final(self).view().tokens.current is None && final(self).view().tokens.offset
                >= old(self).bytes().len(),
    {
        self.has_varargs = true;
        match self.parse_block(false) {
            Ok(block) => {
                proof {
                    lemma_stream_fill(self.bytes(), self.view().tokens);
                }
                let at_end = match self.peek_token() {
                    Err(e) => return Err(e),
                    Ok(t) => t.is_none(),
                };
                if at_end {
                    Ok(Ast { block })
                } else {
                    Err(self.unexpected_token())
                }
            },
            Err(Some(err)) => Err(err),
            Err(None) => Err(self.unexpected_token()),
        }
    }
}

} // verus!
