//! The texts shown for positions and errors.

use crate::ast::InvalidType;
use crate::location::Position;
use crate::parser::{ParseError, ParseErrorMessage};
use crate::TokenizeError;
use vstd::prelude::*;
use vstd::string::StringExecFns;

verus! {

/// The digit character for `d` (below ten).
pub open spec fn digit_char(d: nat) -> char {
    if d == 0 {
        '0'
    } else if d == 1 {
        '1'
    } else if d == 2 {
        '2'
    } else if d == 3 {
        '3'
    } else if d == 4 {
        '4'
    } else if d == 5 {
        '5'
    } else if d == 6 {
        '6'
    } else if d == 7 {
        '7'
    } else if d == 8 {
        '8'
    } else {
        '9'
    }
}

/// The decimal digits of `n`, without leading zeros.
pub open spec fn decimal(n: nat) -> Seq<char>
    decreases n,
{
    if n < 10 {
        seq![digit_char(n)]
    } else {
        decimal(n / 10).push(digit_char(n % 10))
    }
}

/// `line:column`.
pub open spec fn position_text(p: Position) -> Seq<char> {
    decimal(p.line as nat) + ":"@ + decimal(p.column as nat)
}

/// What is wrong with a token that could not be read.
pub open spec fn invalid_text(i: InvalidType) -> Seq<char> {
    match i {
        InvalidType::UnexpectedCharacter(c) => "unexpected character `"@ + seq![c] + "`"@,
        InvalidType::UnclosedComment => "unclosed comment"@,
        InvalidType::UnclosedString => "unclosed string"@,
        InvalidType::InvalidShebang => "invalid shebang"@,
    }
}

/// What a parse error says.
pub open spec fn message_text(m: ParseErrorMessage) -> Seq<char> {
    match m {
        ParseErrorMessage::InvalidBreakUse => "invalid usage of break"@,
        ParseErrorMessage::InvalidVarargsUse => "invalid usage of varargs"@,
        ParseErrorMessage::Expected(s) => "expected "@ + s@,
        ParseErrorMessage::UnexpectedToken(s) => "unexpected token "@ + s@,
        ParseErrorMessage::Tokenization(i) => invalid_text(i),
    }
}

/// The text of a single digit.
fn digit_text(d: usize) -> (r: &'static str)
    requires
        d < 10,
    ensures
        r@ == seq![digit_char(d as nat)],
{
    proof {
        reveal_strlit("0");
        reveal_strlit("1");
        reveal_strlit("2");
        reveal_strlit("3");
        reveal_strlit("4");
        reveal_strlit("5");
        reveal_strlit("6");
        reveal_strlit("7");
        reveal_strlit("8");
        reveal_strlit("9");
    }
    if d == 0 {
        "0"
    } else if d == 1 {
        "1"
    } else if d == 2 {
        "2"
    } else if d == 3 {
        "3"
    } else if d == 4 {
        "4"
    } else if d == 5 {
        "5"
    } else if d == 6 {
        "6"
    } else if d == 7 {
        "7"
    } else if d == 8 {
        "8"
    } else {
        "9"
    }
}

/// The decimal text of `n`.
pub fn decimal_text(n: usize) -> (r: String)
    ensures
        r@ == decimal(n as nat),
    decreases n,
{
    if n < 10 {
        digit_text(n).to_owned()
    } else {
        let mut s = decimal_text(n / 10);
        s.append(digit_text(n % 10));
        s
    }
}

/// The one-character text of `c`, by std's `char::to_string`.
#[verifier::external_body]
fn char_text(c: char) -> (r: String)
    ensures
        r@ == seq![c],
{
    c.to_string()
}

impl Position {
    /// The position as `line:column`.
    pub fn to_text(&self) -> (r: String)
        ensures
            r@ == position_text(*self),
    {
        let mut s = decimal_text(self.line);
        s.append(":");
        let column = decimal_text(self.column);
        s.append(column.as_str());
        s
    }
}

impl InvalidType {
    /// What is wrong with the token.
    pub fn to_text(&self) -> (r: String)
        ensures
            r@ == invalid_text(*self),
    {
        match self {
            InvalidType::UnexpectedCharacter(c) => {
                let mut s = "unexpected character `".to_owned();
                let ch = char_text(*c);
                s.append(ch.as_str());
                s.append("`");
                s
            },
            InvalidType::UnclosedComment => "unclosed comment".to_owned(),
            InvalidType::UnclosedString => "unclosed string".to_owned(),
            InvalidType::InvalidShebang => "invalid shebang".to_owned(),
        }
    }
}

impl ParseErrorMessage {
    /// What the error says.
    pub fn to_text(&self) -> (r: String)
        ensures
            r@ == message_text(*self),
    {
        match self {
            ParseErrorMessage::InvalidBreakUse => "invalid usage of break".to_owned(),
            ParseErrorMessage::InvalidVarargsUse => "invalid usage of varargs".to_owned(),
            ParseErrorMessage::Expected(what) => {
                let mut s = "expected ".to_owned();
                s.append(what.as_str());
                s
            },
            ParseErrorMessage::UnexpectedToken(text) => {
                let mut s = "unexpected token ".to_owned();
                s.append(text.as_str());
                s
            },
            ParseErrorMessage::Tokenization(i) => i.to_text(),
        }
    }
}

impl ParseError {
    /// The error as `line:column: message`.
    pub fn to_text(&self) -> (r: String)
        ensures
            r@ == position_text(self.position) + ": "@ + message_text(self.message),
    {
        let mut s = self.position.to_text();
        s.append(": ");
        let message = self.message.to_text();
        s.append(message.as_str());
        s
    }
}

impl TokenizeError {
    /// The error as `line:column: message`.
    pub fn to_text(&self) -> (r: String)
        ensures
            r@ == position_text(self.position) + ": "@ + invalid_text(self.message),
    {
        let mut s = self.position.to_text();
        s.append(": ");
        let message = self.message.to_text();
        s.append(message.as_str());
        s
    }
}

} // verus!
