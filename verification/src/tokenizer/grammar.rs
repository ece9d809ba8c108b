//! The lexical grammar: which token the tokenizer reads at a given offset,
//! and where it stops.

use crate::ast::{InvalidType, KeywordType, SymbolType, TokenTypeV};
use crate::tokenizer::lexical::{
    byte_at, find_byte, is_digit, is_equal_sign, is_hex_digit, is_ident_char, is_ident_start,
    is_not_newline, lemma_find_byte, lemma_skip_while_bounds, skip_while,
};
use vstd::prelude::*;

verus! {

/// A token type together with the offset where the token ends.
pub struct Lexed {
    pub token_type: TokenTypeV,
    pub end: int,
}

pub open spec fn sym(s: SymbolType, end: int) -> Lexed {
    Lexed { token_type: TokenTypeV::Symbol(s), end }
}

pub open spec fn invalid(i: InvalidType, end: int) -> Lexed {
    Lexed { token_type: TokenTypeV::Invalid(i), end }
}

pub open spec fn unexpected(c: u8, end: int) -> Lexed {
    invalid(InvalidType::UnexpectedCharacter(c as char), end)
}

/// Reading a long bracket `[==[` or `]==]` whose first bracket is at `i`:
/// the number of `=` if the same bracket closes it, and the offset of that
/// closing bracket (or of the byte that is not one).
pub open spec fn long_bracket(b: Seq<u8>, i: int) -> (Option<int>, int) {
    let p = skip_while(b, i + 1, |c: u8| is_equal_sign(c));
    (if byte_at(b, p) == byte_at(b, i) { Some(p - (i + 1)) } else { None }, p)
}

/// Reading the body of a long string or comment from offset `i`, looking
/// for a closing bracket with `sep` equal signs. On success: the offset where
/// the text ends and the offset of the last closing bracket. On failure: the
/// offset where reading stopped.
pub open spec fn long_body(b: Seq<u8>, i: int, sep: int) -> (bool, int, int)
    decreases b.len() - i,
{
    if i < 1 || byte_at(b, i) == 0 {
        (false, 0, i)
    } else {
        match find_byte(b, i - 1, 93) {
            None => (false, 0, b.len() as int),
            Some(j) => {
                let at = if j >= i { j } else { i };
                proof {
                    lemma_find_byte(b, i - 1, 93);
                }
                if byte_at(b, at) != 93 && byte_at(b, at) != 61 {
                    long_body(b, at + 1, sep)
                } else {
                    proof {
                        lemma_skip_while_bounds(b, at + 1, |c: u8| is_equal_sign(c));
                    }
                    let (count, p) = long_bracket(b, at);
                    if count == Some(sep) {
                        (true, p - 1 - sep, p)
                    } else {
                        long_body(b, p, sep)
                    }
                }
            },
        }
    }
}

/// A numeral starting at `o` (a digit, or a `.` before a digit).
pub open spec fn lex_number(b: Seq<u8>, o: int) -> Lexed {
    if byte_at(b, o) == 48 && byte_at(b, o + 1) == 120 {
        let q = o + 2;
        if !is_hex_digit(byte_at(b, q)) {
            unexpected(byte_at(b, q), q)
        } else {
            let e = skip_while(b, q, |c: u8| is_hex_digit(c));
            Lexed { token_type: TokenTypeV::Number(b.subrange(o, e)), end: e }
        }
    } else {
        let p1 = skip_while(b, o, |c: u8| is_digit(c));
        if byte_at(b, p1) == 46 && !is_digit(byte_at(b, p1 + 1)) {
            unexpected(byte_at(b, p1 + 1), p1 + 1)
        } else {
            let p2 = if byte_at(b, p1) == 46 {
                skip_while(b, p1 + 2, |c: u8| is_digit(c))
            } else {
                p1
            };
            if byte_at(b, p2) == 101 || byte_at(b, p2) == 69 {
                let q = if byte_at(b, p2 + 1) == 43 || byte_at(b, p2 + 1) == 45 {
                    p2 + 2
                } else {
                    p2 + 1
                };
                if !is_digit(byte_at(b, q)) {
                    unexpected(byte_at(b, q), q)
                } else {
                    let p3 = skip_while(b, q, |c: u8| is_digit(c));
                    Lexed { token_type: TokenTypeV::Number(b.subrange(o, p3)), end: p3 }
                }
            } else {
                Lexed { token_type: TokenTypeV::Number(b.subrange(o, p2)), end: p2 }
            }
        }
    }
}

/// Scanning a quoted string from `i` for the closing `delim`: whether it
/// closes, and the offset of the closing quote (or where scanning stopped).
pub open spec fn quoted_end(b: Seq<u8>, i: int, delim: u8) -> (bool, int)
    decreases b.len() + 2 - i,
{
    let c = byte_at(b, i);
    if c == 0 || c == 10 || c == 13 || i < 0 {
        (false, i)
    } else if c == 92 {
        quoted_end(b, i + 2, delim)
    } else if c == delim {
        (true, i)
    } else {
        quoted_end(b, i + 1, delim)
    }
}

/// A quoted string whose opening quote is at `o`.
pub open spec fn lex_quoted(b: Seq<u8>, o: int) -> Lexed {
    let (closed, p) = quoted_end(b, o + 1, b[o]);
    if closed {
        Lexed { token_type: TokenTypeV::Str(b.subrange(o + 1, p)), end: p + 1 }
    } else {
        invalid(InvalidType::UnclosedString, p)
    }
}

/// A long string whose first `[` is at `o`.
pub open spec fn lex_long_string(b: Seq<u8>, o: int) -> Lexed {
    let (count, p) = long_bracket(b, o);
    match count {
        None => invalid(InvalidType::UnclosedString, p),
        Some(sep) => {
            let (closed, text_end, last) = long_body(b, p + 1, sep);
            if closed {
                Lexed { token_type: TokenTypeV::Str(b.subrange(p + 1, text_end)), end: last + 1 }
            } else {
                invalid(InvalidType::UnclosedString, last)
            }
        },
    }
}

/// The rest of a one-line comment whose text starts at `start`, read from
/// offset `i`: it runs up to the next line feed.
pub open spec fn line_comment(b: Seq<u8>, start: int, i: int) -> Lexed {
    match find_byte(b, i - 1, 10) {
        Some(j) => Lexed { token_type: TokenTypeV::Trivia(b.subrange(start, j)), end: j },
        None => Lexed {
            token_type: TokenTypeV::Trivia(b.subrange(start, b.len() as int)),
            end: b.len() as int,
        },
    }
}

/// A comment whose `--` is at `o`.
pub open spec fn lex_comment(b: Seq<u8>, o: int) -> Lexed {
    let i = o + 2;
    if byte_at(b, i) == 91 {
        let (count, p) = long_bracket(b, i);
        match count {
            Some(sep) => {
                let (closed, text_end, last) = long_body(b, p + 1, sep);
                if closed {
                    Lexed {
                        token_type: TokenTypeV::Trivia(b.subrange(p + 1, text_end)),
                        end: last + 1,
                    }
                } else {
                    invalid(InvalidType::UnclosedComment, last)
                }
            },
            None => line_comment(b, i, p),
        }
    } else {
        line_comment(b, i, i)
    }
}

/// The first line of the file after `#!`.
pub open spec fn lex_shebang(b: Seq<u8>) -> Lexed {
    let p = skip_while(b, 2, |c: u8| is_not_newline(c));
    Lexed { token_type: TokenTypeV::Trivia(b.subrange(2, p)), end: p }
}

/// A name or reserved word starting at `o`.
pub open spec fn lex_word(b: Seq<u8>, o: int) -> Lexed {
    let p = skip_while(b, o + 1, |c: u8| is_ident_char(c));
    let text = b.subrange(o, p);
    Lexed {
        token_type: match KeywordType::from_bytes_spec(text) {
            Some(k) => TokenTypeV::Keyword(k),
            None => TokenTypeV::Name(text),
        },
        end: p,
    }
}

/// Scanning white space from `i`: whether it ends well (a `\r` must be
/// followed by `\n`), and where it stops.
pub open spec fn space_end(b: Seq<u8>, i: int) -> (bool, int)
    decreases b.len() + 2 - i,
{
    let c = byte_at(b, i);
    if i < 0 {
        (true, i)
    } else if c == 32 || c == 9 || c == 10 {
        space_end(b, i + 1)
    } else if c == 13 {
        if byte_at(b, i + 1) == 10 {
            space_end(b, i + 2)
        } else {
            (false, i)
        }
    } else {
        (true, i)
    }
}

/// White space starting at `o`.
pub open spec fn lex_space(b: Seq<u8>, o: int) -> Lexed {
    let (ok, p) = space_end(b, o + 1);
    if ok {
        Lexed { token_type: TokenTypeV::Trivia(b.subrange(o, p)), end: p }
    } else {
        unexpected(13, p)
    }
}

/// The token that starts at offset `o` of the source `b`.
pub open spec fn lex(b: Seq<u8>, o: int) -> Lexed {
    let c0 = byte_at(b, o);
    let c = byte_at(b, o + 1);
    if c0 == 61 {
        if c == 61 { sym(SymbolType::EqualEqual, o + 2) } else { sym(SymbolType::Equal, o + 1) }
    } else if c0 == 126 {
        if c == 61 { sym(SymbolType::TildeEqual, o + 2) } else { unexpected(126, o + 1) }
    } else if c0 == 60 {
        if c == 61 { sym(SymbolType::LessEqual, o + 2) } else { sym(SymbolType::LessThan, o + 1) }
    } else if c0 == 62 {
        if c == 61 {
            sym(SymbolType::GreaterEqual, o + 2)
        } else {
            sym(SymbolType::GreaterThan, o + 1)
        }
    } else if c0 == 40 {
        sym(SymbolType::OpenParen, o + 1)
    } else if c0 == 41 {
        sym(SymbolType::CloseParen, o + 1)
    } else if c0 == 123 {
        sym(SymbolType::OpenBrace, o + 1)
    } else if c0 == 125 {
        sym(SymbolType::CloseBrace, o + 1)
    } else if c0 == 91 {
        if c == 61 || c == 91 { lex_long_string(b, o) } else { sym(SymbolType::OpenBracket, o + 1) }
    } else if c0 == 93 {
        sym(SymbolType::CloseBracket, o + 1)
    } else if c0 == 59 {
        sym(SymbolType::Semicolon, o + 1)
    } else if c0 == 58 {
        sym(SymbolType::Colon, o + 1)
    } else if c0 == 44 {
        sym(SymbolType::Comma, o + 1)
    } else if c0 == 46 {
        if is_digit(c) {
            lex_number(b, o)
        } else if c == 46 && byte_at(b, o + 2) == 46 {
            sym(SymbolType::DotDotDot, o + 3)
        } else if c == 46 {
            sym(SymbolType::DotDot, o + 2)
        } else {
            sym(SymbolType::Dot, o + 1)
        }
    } else if c0 == 43 {
        sym(SymbolType::Cross, o + 1)
    } else if c0 == 45 {
        if c == 45 { lex_comment(b, o) } else { sym(SymbolType::Dash, o + 1) }
    } else if c0 == 42 {
        sym(SymbolType::Star, o + 1)
    } else if c0 == 47 {
        sym(SymbolType::Slash, o + 1)
    } else if c0 == 37 {
        sym(SymbolType::Percent, o + 1)
    } else if c0 == 94 {
        sym(SymbolType::Caret, o + 1)
    } else if c0 == 35 {
        if c == 33 && o == 0 { lex_shebang(b) } else { sym(SymbolType::Hash, o + 1) }
    } else if c0 == 32 || c0 == 9 || c0 == 10 || (c0 == 13 && c == 10) {
        lex_space(b, o)
    } else if is_ident_start(c0) {
        lex_word(b, o)
    } else if is_digit(c0) {
        lex_number(b, o)
    } else if c0 == 39 || c0 == 34 {
        lex_quoted(b, o)
    } else {
        unexpected(c0, o + 1)
    }
}

} // verus!

verus! {

proof fn lemma_quoted_end_bounds(b: Seq<u8>, i: int, delim: u8)
    requires
        0 <= i <= b.len() + 1,
    ensures
        i <= quoted_end(b, i, delim).1 <= b.len() + 1,
        quoted_end(b, i, delim).0 ==> quoted_end(b, i, delim).1 < b.len(),
    decreases b.len() + 2 - i,
{
    let c = byte_at(b, i);
    if c == 0 || c == 10 || c == 13 {
    } else if c == 92 {
        lemma_quoted_end_bounds(b, i + 2, delim);
    } else if c == delim {
    } else {
        lemma_quoted_end_bounds(b, i + 1, delim);
    }
}

proof fn lemma_space_end_bounds(b: Seq<u8>, i: int)
    requires
        0 <= i <= b.len(),
    ensures
        i <= space_end(b, i).1 <= b.len(),
    decreases b.len() + 2 - i,
{
    let c = byte_at(b, i);
    if c == 32 || c == 9 || c == 10 {
        lemma_space_end_bounds(b, i + 1);
    } else if c == 13 {
        if byte_at(b, i + 1) == 10 {
            lemma_space_end_bounds(b, i + 2);
        }
    }
}

proof fn lemma_long_body_bounds(b: Seq<u8>, i: int, sep: int)
    requires
        1 <= i <= b.len(),
    ensures
        i <= long_body(b, i, sep).2 <= b.len(),
        long_body(b, i, sep).0 ==> long_body(b, i, sep).2 < b.len(),
    decreases b.len() - i,
{
    if byte_at(b, i) == 0 {
    } else {
        lemma_find_byte(b, i - 1, 93);
        match find_byte(b, i - 1, 93) {
            None => {},
            Some(j) => {
                let at = if j >= i { j } else { i };
                if byte_at(b, at) != 93 && byte_at(b, at) != 61 {
                    lemma_long_body_bounds(b, at + 1, sep);
                } else {
                    lemma_skip_while_bounds(b, at + 1, |c: u8| is_equal_sign(c));
                    let (count, p) = long_bracket(b, at);
                    if count == Some(sep) {
                    } else {
                        lemma_long_body_bounds(b, p, sep);
                    }
                }
            },
        }
    }
}

/// Reading a token always moves on, and never past one byte beyond the end.
pub proof fn lemma_lex_progress(b: Seq<u8>, o: int)
    requires
        0 <= o < b.len(),
    ensures
        o < lex(b, o).end <= b.len() + 1,
{
    let c0 = byte_at(b, o);
    let c = byte_at(b, o + 1);
    lemma_skip_while_bounds(b, o, |c: u8| is_digit(c));
    lemma_skip_while_bounds(b, o + 1, |c: u8| is_ident_char(c));
    lemma_skip_while_bounds(b, o + 1, |c: u8| is_equal_sign(c));
    lemma_skip_while_bounds(b, o + 3, |c: u8| is_equal_sign(c));
    if c0 == 46 || is_digit(c0) {
        let p1 = skip_while(b, o, |c: u8| is_digit(c));
        if byte_at(b, o) == 48 && byte_at(b, o + 1) == 120 {
            lemma_skip_while_bounds(b, o + 2, |c: u8| is_hex_digit(c));
        }
        lemma_skip_while_bounds(b, p1 + 2, |c: u8| is_digit(c));
        let p2 = if byte_at(b, p1) == 46 {
            skip_while(b, p1 + 2, |c: u8| is_digit(c))
        } else {
            p1
        };
        lemma_skip_while_bounds(b, p2 + 1, |c: u8| is_digit(c));
        lemma_skip_while_bounds(b, p2 + 2, |c: u8| is_digit(c));
    }
    if c0 == 39 || c0 == 34 {
        lemma_quoted_end_bounds(b, o + 1, b[o]);
    }
    if c0 == 32 || c0 == 9 || c0 == 10 || c0 == 13 {
        lemma_space_end_bounds(b, o + 1);
    }
    if c0 == 35 && c == 33 && o == 0 {
        lemma_skip_while_bounds(b, 2, |c: u8| is_not_newline(c));
    }
    if c0 == 91 && (c == 61 || c == 91) {
        let (count, p) = long_bracket(b, o);
        if count is Some {
            lemma_long_body_bounds(b, p + 1, count->0);
        }
    }
    if c0 == 45 && c == 45 {
        let i = o + 2;
        if byte_at(b, i) == 91 {
            lemma_skip_while_bounds(b, i + 1, |c: u8| is_equal_sign(c));
            let (count, p) = long_bracket(b, i);
            match count {
                Some(sep) => {
                    lemma_long_body_bounds(b, p + 1, sep);
                },
                None => {
                    lemma_find_byte(b, p - 1, 10);
                },
            }
        } else {
            lemma_find_byte(b, i - 1, 10);
        }
    }
}

/// The number of backslashes right before offset `k`, not counting any at
/// or before offset `lo`.
pub open spec fn backslashes_before(b: Seq<u8>, lo: int, k: int) -> nat
    decreases k - lo,
{
    if k - 1 > lo && 0 <= k - 1 < b.len() && b[k - 1] == 92 {
        1 + backslashes_before(b, lo, k - 1)
    } else {
        0
    }
}

/// Scanning a quoted string that opened at `o` from an offset `i` that no
/// backslash escapes: where it closes, the byte is the opening quote, not
/// escaped, and every earlier copy of the quote after `o` is escaped.
proof fn lemma_quoted_end_closes_on_delim(b: Seq<u8>, o: int, i: int)
    requires
        0 <= o < i <= b.len() + 1,
        b[o] == 34 || b[o] == 39,
        backslashes_before(b, o, i) % 2 == 0,
        forall|k: int| o < k < i && b[k] == b[o] ==> backslashes_before(b, o, k) % 2 == 1,
    ensures
        quoted_end(b, i, b[o]).0 ==> {
            let p = quoted_end(b, i, b[o]).1;
            &&& i <= p < b.len()
            &&& b[p] == b[o]
            &&& backslashes_before(b, o, p) % 2 == 0
            &&& forall|k: int| o < k < p && b[k] == b[o] ==> backslashes_before(b, o, k) % 2 == 1
        },
    decreases b.len() + 2 - i,
{
    let d = b[o];
    let c = byte_at(b, i);
    if c == 0 || c == 10 || c == 13 || i < 0 {
    } else if c == 92 {
        assert(backslashes_before(b, o, i + 1) == 1 + backslashes_before(b, o, i));
        if i + 1 < b.len() && b[i + 1] == 92 {
            assert(backslashes_before(b, o, i + 2) == 1 + backslashes_before(b, o, i + 1));
        } else {
            assert(backslashes_before(b, o, i + 2) == 0);
        }
        if i + 2 <= b.len() + 1 {
            lemma_quoted_end_closes_on_delim(b, o, i + 2);
        }
    } else if c == d {
    } else {
        assert(backslashes_before(b, o, i + 1) == 0);
        lemma_quoted_end_closes_on_delim(b, o, i + 1);
    }
}

/// A quoted string is closed only by the quote that opened it: when the
/// token at `o` is a string that opens with `'` or `"`, it ends with the same
/// quote, that quote is not escaped, and every copy of the opening quote in
/// between is escaped by an odd number of backslashes (so a quote of the
/// other kind is part of the text). Its text is what lies between the
/// quotes.
pub proof fn lemma_quoted_string_closes_on_its_quote(b: Seq<u8>, o: int)
    requires
        0 <= o < b.len(),
        b[o] == 34 || b[o] == 39,
    ensures
        lex(b, o).token_type is Str ==> {
            let p = lex(b, o).end - 1;
            &&& o < p < b.len()
            &&& b[p] == b[o]
            &&& backslashes_before(b, o, p) % 2 == 0
            &&& forall|k: int| o < k < p && b[k] == b[o] ==> backslashes_before(b, o, k) % 2 == 1
            &&& lex(b, o).token_type == TokenTypeV::Str(b.subrange(o + 1, p))
        },
{
    assert(backslashes_before(b, o, o + 1) == 0);
    lemma_quoted_end_closes_on_delim(b, o, o + 1);
}

/// A word is the longest run of identifier characters from its first
/// letter (or `_`): it is the keyword whose text it is, and otherwise a name
/// with that text.
pub proof fn lemma_word_token(b: Seq<u8>, o: int)
    requires
        0 <= o < b.len(),
        is_ident_start(b[o]),
    ensures
        o < lex(b, o).end <= b.len(),
        forall|k: int| o <= k < lex(b, o).end ==> is_ident_char(#[trigger] b[k]),
        lex(b, o).end == b.len() || !is_ident_char(b[lex(b, o).end]),
        lex(b, o).token_type matches TokenTypeV::Keyword(k) ==> k.bytes() == b.subrange(
            o,
            lex(b, o).end,
        ),
        lex(b, o).token_type matches TokenTypeV::Name(t) ==> {
            &&& t == b.subrange(o, lex(b, o).end)
            &&& forall|k: KeywordType| #[trigger] k.bytes() != t
        },
        lex(b, o).token_type is Keyword || lex(b, o).token_type is Name,
{
    lemma_skip_while_bounds(b, o + 1, |c: u8| is_ident_char(c));
    let p = skip_while(b, o + 1, |c: u8| is_ident_char(c));
    let text = b.subrange(o, p);
    assert(lex(b, o) == lex_word(b, o));
    assert forall|k: int| o <= k < p implies is_ident_char(#[trigger] b[k]) by {
        if k > o {
            assert((|c: u8| is_ident_char(c))(b[k]));
        }
    }
    if let Some(k) = KeywordType::from_bytes_spec(text) {
        crate::ast::lemma_keyword_text_round_trip(k, text);
    } else {
        assert forall|k: KeywordType| #[trigger] k.bytes() != text by {
            crate::ast::lemma_keyword_text_round_trip(k, text);
        }
    }
}

/// A symbol token's text is that symbol's text, and the two-character
/// symbols are read whole: a `=`, `<` or `>` is not followed by `=`, a `.`
/// by `.` or a digit, a `..` by `.`, a `-` by `-`, and a `[` by `[` or `=`.
pub proof fn lemma_symbol_token(b: Seq<u8>, o: int)
    requires
        0 <= o < b.len(),
    ensures
        lex(b, o).token_type matches TokenTypeV::Symbol(y) ==> {
            let e = lex(b, o).end;
            &&& o < e <= b.len()
            &&& y.bytes() == b.subrange(o, e)
            &&& (y is Equal || y is LessThan || y is GreaterThan) ==> byte_at(b, e) != 61
            &&& y is Dot ==> byte_at(b, e) != 46 && !is_digit(byte_at(b, e))
            &&& y is DotDot ==> byte_at(b, e) != 46
            &&& y is Dash ==> byte_at(b, e) != 45
            &&& y is OpenBracket ==> byte_at(b, e) != 61 && byte_at(b, e) != 91
        },
{
    lemma_lex_progress(b, o);
    let c0 = b[o];
    if let TokenTypeV::Symbol(y) = lex(b, o).token_type {
        let e = lex(b, o).end;
        assert(y.bytes() =~= b.subrange(o, e));
    }
}

/// A number token's text is the source from its first byte to its end, and
/// it is read whole: the byte after it is not a digit.
pub proof fn lemma_number_token(b: Seq<u8>, o: int)
    requires
        0 <= o < b.len(),
    ensures
        lex(b, o).token_type matches TokenTypeV::Number(t) ==> {
            let e = lex(b, o).end;
            &&& o < e <= b.len()
            &&& t == b.subrange(o, e)
            &&& !is_digit(byte_at(b, e))
        },
{
    lemma_lex_progress(b, o);
    lemma_skip_while_bounds(b, o, |c: u8| is_digit(c));
    lemma_skip_while_bounds(b, o + 2, |c: u8| is_hex_digit(c));
    let p1 = skip_while(b, o, |c: u8| is_digit(c));
    lemma_skip_while_bounds(b, p1 + 2, |c: u8| is_digit(c));
    let p2 = if byte_at(b, p1) == 46 {
        skip_while(b, p1 + 2, |c: u8| is_digit(c))
    } else {
        p1
    };
    lemma_skip_while_bounds(b, p2 + 1, |c: u8| is_digit(c));
    lemma_skip_while_bounds(b, p2 + 2, |c: u8| is_digit(c));
    let e = lex(b, o).end;
    if byte_at(b, e) < 58 && byte_at(b, e) >= 48 {
        assert(is_hex_digit(byte_at(b, e)));
    }
}

} // verus!
