use vstd::prelude::*;
use vstd::string::StringSliceAdditionalSpecFns;
use vstd::utf8::{encode_scalar, encode_utf8, encode_utf8_decode_utf8};

verus! {

/// The reserved words of Lua.
#[derive(Debug, Clone, Copy, PartialEq, Eq, Hash, Structural)]
pub enum KeywordType {
    And,
    Break,
    Do,
    Else,
    ElseIf,
    End,
    False,
    For,
    Function,
    If,
    In,
    Local,
    Nil,
    Not,
    Or,
    Repeat,
    Return,
    Then,
    True,
    Until,
    While,
}

impl KeywordType {
    /// The source text of the item, as characters.
    pub open spec fn text(self) -> Seq<char> {
        match self {
            KeywordType::And => seq!['a', 'n', 'd'],
            KeywordType::Break => seq!['b', 'r', 'e', 'a', 'k'],
            KeywordType::Do => seq!['d', 'o'],
            KeywordType::Else => seq!['e', 'l', 's', 'e'],
            KeywordType::ElseIf => seq!['e', 'l', 's', 'e', 'i', 'f'],
            KeywordType::End => seq!['e', 'n', 'd'],
            KeywordType::False => seq!['f', 'a', 'l', 's', 'e'],
            KeywordType::For => seq!['f', 'o', 'r'],
            KeywordType::Function => seq!['f', 'u', 'n', 'c', 't', 'i', 'o', 'n'],
            KeywordType::If => seq!['i', 'f'],
            KeywordType::In => seq!['i', 'n'],
            KeywordType::Local => seq!['l', 'o', 'c', 'a', 'l'],
            KeywordType::Nil => seq!['n', 'i', 'l'],
            KeywordType::Not => seq!['n', 'o', 't'],
            KeywordType::Or => seq!['o', 'r'],
            KeywordType::Repeat => seq!['r', 'e', 'p', 'e', 'a', 't'],
            KeywordType::Return => seq!['r', 'e', 't', 'u', 'r', 'n'],
            KeywordType::Then => seq!['t', 'h', 'e', 'n'],
            KeywordType::True => seq!['t', 'r', 'u', 'e'],
            KeywordType::Until => seq!['u', 'n', 't', 'i', 'l'],
            KeywordType::While => seq!['w', 'h', 'i', 'l', 'e'],
        }
    }

    /// The source text of the item, as bytes.
    pub open spec fn bytes(self) -> Seq<u8> {
        match self {
            KeywordType::And => seq![97u8, 110u8, 100u8],
            KeywordType::Break => seq![98u8, 114u8, 101u8, 97u8, 107u8],
            KeywordType::Do => seq![100u8, 111u8],
            KeywordType::Else => seq![101u8, 108u8, 115u8, 101u8],
            KeywordType::ElseIf => seq![101u8, 108u8, 115u8, 101u8, 105u8, 102u8],
            KeywordType::End => seq![101u8, 110u8, 100u8],
            KeywordType::False => seq![102u8, 97u8, 108u8, 115u8, 101u8],
            KeywordType::For => seq![102u8, 111u8, 114u8],
            KeywordType::Function => seq![102u8, 117u8, 110u8, 99u8, 116u8, 105u8, 111u8, 110u8],
            KeywordType::If => seq![105u8, 102u8],
            KeywordType::In => seq![105u8, 110u8],
            KeywordType::Local => seq![108u8, 111u8, 99u8, 97u8, 108u8],
            KeywordType::Nil => seq![110u8, 105u8, 108u8],
            KeywordType::Not => seq![110u8, 111u8, 116u8],
            KeywordType::Or => seq![111u8, 114u8],
            KeywordType::Repeat => seq![114u8, 101u8, 112u8, 101u8, 97u8, 116u8],
            KeywordType::Return => seq![114u8, 101u8, 116u8, 117u8, 114u8, 110u8],
            KeywordType::Then => seq![116u8, 104u8, 101u8, 110u8],
            KeywordType::True => seq![116u8, 114u8, 117u8, 101u8],
            KeywordType::Until => seq![117u8, 110u8, 116u8, 105u8, 108u8],
            KeywordType::While => seq![119u8, 104u8, 105u8, 108u8, 101u8],
        }
    }

    /// The source text of the item.
    pub fn to_str(&self) -> (r: &'static str)
        ensures
            r@ == self.text(),
    {
        match self {
            KeywordType::And => {
                proof {
                    reveal_strlit("and");
                }
                "and"
            },
            KeywordType::Break => {
                proof {
                    reveal_strlit("break");
                }
                "break"
            },
            KeywordType::Do => {
                proof {
                    reveal_strlit("do");
                }
                "do"
            },
            KeywordType::Else => {
                proof {
                    reveal_strlit("else");
                }
                "else"
            },
            KeywordType::ElseIf => {
                proof {
                    reveal_strlit("elseif");
                }
                "elseif"
            },
            KeywordType::End => {
                proof {
                    reveal_strlit("end");
                }
                "end"
            },
            KeywordType::False => {
                proof {
                    reveal_strlit("false");
                }
                "false"
            },
            KeywordType::For => {
                proof {
                    reveal_strlit("for");
                }
                "for"
            },
            KeywordType::Function => {
                proof {
                    reveal_strlit("function");
                }
                "function"
            },
            KeywordType::If => {
                proof {
                    reveal_strlit("if");
                }
                "if"
            },
            KeywordType::In => {
                proof {
                    reveal_strlit("in");
                }
                "in"
            },
            KeywordType::Local => {
                proof {
                    reveal_strlit("local");
                }
                "local"
            },
            KeywordType::Nil => {
                proof {
                    reveal_strlit("nil");
                }
                "nil"
            },
            KeywordType::Not => {
                proof {
                    reveal_strlit("not");
                }
                "not"
            },
            KeywordType::Or => {
                proof {
                    reveal_strlit("or");
                }
                "or"
            },
            KeywordType::Repeat => {
                proof {
                    reveal_strlit("repeat");
                }
                "repeat"
            },
            KeywordType::Return => {
                proof {
                    reveal_strlit("return");
                }
                "return"
            },
            KeywordType::Then => {
                proof {
                    reveal_strlit("then");
                }
                "then"
            },
            KeywordType::True => {
                proof {
                    reveal_strlit("true");
                }
                "true"
            },
            KeywordType::Until => {
                proof {
                    reveal_strlit("until");
                }
                "until"
            },
            KeywordType::While => {
                proof {
                    reveal_strlit("while");
                }
                "while"
            },
        }
    }

    /// The item whose source text is exactly `t`, if there is one.
    pub open spec fn from_bytes_spec(t: Seq<u8>) -> Option<Self> {
        if t == KeywordType::And.bytes() {
            Some(KeywordType::And)
        } else if t == KeywordType::Break.bytes() {
            Some(KeywordType::Break)
        } else if t == KeywordType::Do.bytes() {
            Some(KeywordType::Do)
        } else if t == KeywordType::Else.bytes() {
            Some(KeywordType::Else)
        } else if t == KeywordType::ElseIf.bytes() {
            Some(KeywordType::ElseIf)
        } else if t == KeywordType::End.bytes() {
            Some(KeywordType::End)
        } else if t == KeywordType::False.bytes() {
            Some(KeywordType::False)
        } else if t == KeywordType::For.bytes() {
            Some(KeywordType::For)
        } else if t == KeywordType::Function.bytes() {
            Some(KeywordType::Function)
        } else if t == KeywordType::If.bytes() {
            Some(KeywordType::If)
        } else if t == KeywordType::In.bytes() {
            Some(KeywordType::In)
        } else if t == KeywordType::Local.bytes() {
            Some(KeywordType::Local)
        } else if t == KeywordType::Nil.bytes() {
            Some(KeywordType::Nil)
        } else if t == KeywordType::Not.bytes() {
            Some(KeywordType::Not)
        } else if t == KeywordType::Or.bytes() {
            Some(KeywordType::Or)
        } else if t == KeywordType::Repeat.bytes() {
            Some(KeywordType::Repeat)
        } else if t == KeywordType::Return.bytes() {
            Some(KeywordType::Return)
        } else if t == KeywordType::Then.bytes() {
            Some(KeywordType::Then)
        } else if t == KeywordType::True.bytes() {
            Some(KeywordType::True)
        } else if t == KeywordType::Until.bytes() {
            Some(KeywordType::Until)
        } else if t == KeywordType::While.bytes() {
            Some(KeywordType::While)
        } else {
            None
        }
    }

    /// The item whose source text is exactly `s`, if there is one.
    pub fn from_bytes(s: &[u8]) -> (r: Option<Self>)
        ensures
            r == Self::from_bytes_spec(s@),
            match r {
                Some(k) => s@ == k.bytes(),
                None => forall|k: Self| s@ != #[trigger] k.bytes(),
            },
    {
        let n = s.len();
        if n == 3 && s[0] == 97u8 && s[1] == 110u8 && s[2] == 100u8 {
            proof {
                assert(s@ =~= KeywordType::And.bytes());
            }
            return Some(KeywordType::And);
        }
        if n == 5 && s[0] == 98u8 && s[1] == 114u8 && s[2] == 101u8 && s[3] == 97u8 && s[4] == 107u8 {
            proof {
                assert(s@ =~= KeywordType::Break.bytes());
            }
            return Some(KeywordType::Break);
        }
        if n == 2 && s[0] == 100u8 && s[1] == 111u8 {
            proof {
                assert(s@ =~= KeywordType::Do.bytes());
            }
            return Some(KeywordType::Do);
        }
        if n == 4 && s[0] == 101u8 && s[1] == 108u8 && s[2] == 115u8 && s[3] == 101u8 {
            proof {
                assert(s@ =~= KeywordType::Else.bytes());
            }
            return Some(KeywordType::Else);
        }
        if n == 6 && s[0] == 101u8 && s[1] == 108u8 && s[2] == 115u8 && s[3] == 101u8 && s[4] == 105u8 && s[5] == 102u8 {
            proof {
                assert(s@ =~= KeywordType::ElseIf.bytes());
            }
            return Some(KeywordType::ElseIf);
        }
        if n == 3 && s[0] == 101u8 && s[1] == 110u8 && s[2] == 100u8 {
            proof {
                assert(s@ =~= KeywordType::End.bytes());
            }
            return Some(KeywordType::End);
        }
        if n == 5 && s[0] == 102u8 && s[1] == 97u8 && s[2] == 108u8 && s[3] == 115u8 && s[4] == 101u8 {
            proof {
                assert(s@ =~= KeywordType::False.bytes());
            }
            return Some(KeywordType::False);
        }
        if n == 3 && s[0] == 102u8 && s[1] == 111u8 && s[2] == 114u8 {
            proof {
                assert(s@ =~= KeywordType::For.bytes());
            }
            return Some(KeywordType::For);
        }
        if n == 8 && s[0] == 102u8 && s[1] == 117u8 && s[2] == 110u8 && s[3] == 99u8 && s[4] == 116u8 && s[5] == 105u8 && s[6] == 111u8 && s[7] == 110u8 {
            proof {
                assert(s@ =~= KeywordType::Function.bytes());
            }
            return Some(KeywordType::Function);
        }
        if n == 2 && s[0] == 105u8 && s[1] == 102u8 {
            proof {
                assert(s@ =~= KeywordType::If.bytes());
            }
            return Some(KeywordType::If);
        }
        if n == 2 && s[0] == 105u8 && s[1] == 110u8 {
            proof {
                assert(s@ =~= KeywordType::In.bytes());
            }
            return Some(KeywordType::In);
        }
        if n == 5 && s[0] == 108u8 && s[1] == 111u8 && s[2] == 99u8 && s[3] == 97u8 && s[4] == 108u8 {
            proof {
                assert(s@ =~= KeywordType::Local.bytes());
            }
            return Some(KeywordType::Local);
        }
        if n == 3 && s[0] == 110u8 && s[1] == 105u8 && s[2] == 108u8 {
            proof {
                assert(s@ =~= KeywordType::Nil.bytes());
            }
            return Some(KeywordType::Nil);
        }
        if n == 3 && s[0] == 110u8 && s[1] == 111u8 && s[2] == 116u8 {
            proof {
                assert(s@ =~= KeywordType::Not.bytes());
            }
            return Some(KeywordType::Not);
        }
        if n == 2 && s[0] == 111u8 && s[1] == 114u8 {
            proof {
                assert(s@ =~= KeywordType::Or.bytes());
            }
            return Some(KeywordType::Or);
        }
        if n == 6 && s[0] == 114u8 && s[1] == 101u8 && s[2] == 112u8 && s[3] == 101u8 && s[4] == 97u8 && s[5] == 116u8 {
            proof {
                assert(s@ =~= KeywordType::Repeat.bytes());
            }
            return Some(KeywordType::Repeat);
        }
        if n == 6 && s[0] == 114u8 && s[1] == 101u8 && s[2] == 116u8 && s[3] == 117u8 && s[4] == 114u8 && s[5] == 110u8 {
            proof {
                assert(s@ =~= KeywordType::Return.bytes());
            }
            return Some(KeywordType::Return);
        }
        if n == 4 && s[0] == 116u8 && s[1] == 104u8 && s[2] == 101u8 && s[3] == 110u8 {
            proof {
                assert(s@ =~= KeywordType::Then.bytes());
            }
            return Some(KeywordType::Then);
        }
        if n == 4 && s[0] == 116u8 && s[1] == 114u8 && s[2] == 117u8 && s[3] == 101u8 {
            proof {
                assert(s@ =~= KeywordType::True.bytes());
            }
            return Some(KeywordType::True);
        }
        if n == 5 && s[0] == 117u8 && s[1] == 110u8 && s[2] == 116u8 && s[3] == 105u8 && s[4] == 108u8 {
            proof {
                assert(s@ =~= KeywordType::Until.bytes());
            }
            return Some(KeywordType::Until);
        }
        if n == 5 && s[0] == 119u8 && s[1] == 104u8 && s[2] == 105u8 && s[3] == 108u8 && s[4] == 101u8 {
            proof {
                assert(s@ =~= KeywordType::While.bytes());
            }
            return Some(KeywordType::While);
        }
        proof {
            assert forall|k: Self| s@ != #[trigger] k.bytes() by {
                if s@ == k.bytes() {
                    match k {
                        KeywordType::And => {
                            assert(s@[0] == k.bytes()[0]);
                        },
                        KeywordType::Break => {
                            assert(s@[0] == k.bytes()[0]);
                        },
                        KeywordType::Do => {
                            assert(s@[0] == k.bytes()[0]);
                        },
                        KeywordType::Else => {
                            assert(s@[0] == k.bytes()[0]);
                        },
                        KeywordType::ElseIf => {
                            assert(s@[0] == k.bytes()[0]);
                        },
                        KeywordType::End => {
                            assert(s@[0] == k.bytes()[0]);
                        },
                        KeywordType::False => {
                            assert(s@[0] == k.bytes()[0]);
                        },
                        KeywordType::For => {
                            assert(s@[0] == k.bytes()[0]);
                        },
                        KeywordType::Function => {
                            assert(s@[0] == k.bytes()[0]);
                        },
                        KeywordType::If => {
                            assert(s@[0] == k.bytes()[0]);
                        },
                        KeywordType::In => {
                            assert(s@[0] == k.bytes()[0]);
                        },
                        KeywordType::Local => {
                            assert(s@[0] == k.bytes()[0]);
                        },
                        KeywordType::Nil => {
                            assert(s@[0] == k.bytes()[0]);
                        },
                        KeywordType::Not => {
                            assert(s@[0] == k.bytes()[0]);
                        },
                        KeywordType::Or => {
                            assert(s@[0] == k.bytes()[0]);
                        },
                        KeywordType::Repeat => {
                            assert(s@[0] == k.bytes()[0]);
                        },
                        KeywordType::Return => {
                            assert(s@[0] == k.bytes()[0]);
                        },
                        KeywordType::Then => {
                            assert(s@[0] == k.bytes()[0]);
                        },
                        KeywordType::True => {
                            assert(s@[0] == k.bytes()[0]);
                        },
                        KeywordType::Until => {
                            assert(s@[0] == k.bytes()[0]);
                        },
                        KeywordType::While => {
                            assert(s@[0] == k.bytes()[0]);
                        },
                    }
                }
            }
        }
        None
    }

}

/// The punctuation and operator symbols of Lua.
#[derive(Debug, Clone, Copy, PartialEq, Eq, Hash, Structural)]
pub enum SymbolType {
    DotDotDot,
    DotDot,
    Dot,
    SkinnyArrow,
    GreaterEqual,
    LessEqual,
    EqualEqual,
    TildeEqual,
    GreaterThan,
    LessThan,
    Equal,
    OpenParen,
    CloseParen,
    OpenBracket,
    CloseBracket,
    OpenBrace,
    CloseBrace,
    Semicolon,
    ColonColon,
    Colon,
    Comma,
    Cross,
    Dash,
    Star,
    Slash,
    Percent,
    Caret,
    Hash,
    MetatableTag,
    Question,
    VerticalBar,
    Ampersand,
}

impl SymbolType {
    /// The source text of the item, as characters.
    pub open spec fn text(self) -> Seq<char> {
        match self {
            SymbolType::DotDotDot => seq!['.', '.', '.'],
            SymbolType::DotDot => seq!['.', '.'],
            SymbolType::Dot => seq!['.'],
            SymbolType::SkinnyArrow => seq!['-', '>'],
            SymbolType::GreaterEqual => seq!['>', '='],
            SymbolType::LessEqual => seq!['<', '='],
            SymbolType::EqualEqual => seq!['=', '='],
            SymbolType::TildeEqual => seq!['~', '='],
            SymbolType::GreaterThan => seq!['>'],
            SymbolType::LessThan => seq!['<'],
            SymbolType::Equal => seq!['='],
            SymbolType::OpenParen => seq!['('],
            SymbolType::CloseParen => seq![')'],
            SymbolType::OpenBracket => seq!['['],
            SymbolType::CloseBracket => seq![']'],
            SymbolType::OpenBrace => seq!['{'],
            SymbolType::CloseBrace => seq!['}'],
            SymbolType::Semicolon => seq![';'],
            SymbolType::ColonColon => seq![':', ':'],
            SymbolType::Colon => seq![':'],
            SymbolType::Comma => seq![','],
            SymbolType::Cross => seq!['+'],
            SymbolType::Dash => seq!['-'],
            SymbolType::Star => seq!['*'],
            SymbolType::Slash => seq!['/'],
            SymbolType::Percent => seq!['%'],
            SymbolType::Caret => seq!['^'],
            SymbolType::Hash => seq!['#'],
            SymbolType::MetatableTag => seq!['@', 'm', 'e', 't', 'a', 't', 'a', 'b', 'l', 'e'],
            SymbolType::Question => seq!['?'],
            SymbolType::VerticalBar => seq!['|'],
            SymbolType::Ampersand => seq!['&'],
        }
    }

    /// The source text of the item, as bytes.
    pub open spec fn bytes(self) -> Seq<u8> {
        match self {
            SymbolType::DotDotDot => seq![46u8, 46u8, 46u8],
            SymbolType::DotDot => seq![46u8, 46u8],
            SymbolType::Dot => seq![46u8],
            SymbolType::SkinnyArrow => seq![45u8, 62u8],
            SymbolType::GreaterEqual => seq![62u8, 61u8],
            SymbolType::LessEqual => seq![60u8, 61u8],
            SymbolType::EqualEqual => seq![61u8, 61u8],
            SymbolType::TildeEqual => seq![126u8, 61u8],
            SymbolType::GreaterThan => seq![62u8],
            SymbolType::LessThan => seq![60u8],
            SymbolType::Equal => seq![61u8],
            SymbolType::OpenParen => seq![40u8],
            SymbolType::CloseParen => seq![41u8],
            SymbolType::OpenBracket => seq![91u8],
            SymbolType::CloseBracket => seq![93u8],
            SymbolType::OpenBrace => seq![123u8],
            SymbolType::CloseBrace => seq![125u8],
            SymbolType::Semicolon => seq![59u8],
            SymbolType::ColonColon => seq![58u8, 58u8],
            SymbolType::Colon => seq![58u8],
            SymbolType::Comma => seq![44u8],
            SymbolType::Cross => seq![43u8],
            SymbolType::Dash => seq![45u8],
            SymbolType::Star => seq![42u8],
            SymbolType::Slash => seq![47u8],
            SymbolType::Percent => seq![37u8],
            SymbolType::Caret => seq![94u8],
            SymbolType::Hash => seq![35u8],
            SymbolType::MetatableTag => seq![64u8, 109u8, 101u8, 116u8, 97u8, 116u8, 97u8, 98u8, 108u8, 101u8],
            SymbolType::Question => seq![63u8],
            SymbolType::VerticalBar => seq![124u8],
            SymbolType::Ampersand => seq![38u8],
        }
    }

    /// The source text of the item.
    pub fn to_str(&self) -> (r: &'static str)
        ensures
            r@ == self.text(),
    {
        match self {
            SymbolType::DotDotDot => {
                proof {
                    reveal_strlit("...");
                }
                "..."
            },
            SymbolType::DotDot => {
                proof {
                    reveal_strlit("..");
                }
                ".."
            },
            SymbolType::Dot => {
                proof {
                    reveal_strlit(".");
                }
                "."
            },
            SymbolType::SkinnyArrow => {
                proof {
                    reveal_strlit("->");
                }
                "->"
            },
            SymbolType::GreaterEqual => {
                proof {
                    reveal_strlit(">=");
                }
                ">="
            },
            SymbolType::LessEqual => {
                proof {
                    reveal_strlit("<=");
                }
                "<="
            },
            SymbolType::EqualEqual => {
                proof {
                    reveal_strlit("==");
                }
                "=="
            },
            SymbolType::TildeEqual => {
                proof {
                    reveal_strlit("~=");
                }
                "~="
            },
            SymbolType::GreaterThan => {
                proof {
                    reveal_strlit(">");
                }
                ">"
            },
            SymbolType::LessThan => {
                proof {
                    reveal_strlit("<");
                }
                "<"
            },
            SymbolType::Equal => {
                proof {
                    reveal_strlit("=");
                }
                "="
            },
            SymbolType::OpenParen => {
                proof {
                    reveal_strlit("(");
                }
                "("
            },
            SymbolType::CloseParen => {
                proof {
                    reveal_strlit(")");
                }
                ")"
            },
            SymbolType::OpenBracket => {
                proof {
                    reveal_strlit("[");
                }
                "["
            },
            SymbolType::CloseBracket => {
                proof {
                    reveal_strlit("]");
                }
                "]"
            },
            SymbolType::OpenBrace => {
                proof {
                    reveal_strlit("{");
                }
                "{"
            },
            SymbolType::CloseBrace => {
                proof {
                    reveal_strlit("}");
                }
                "}"
            },
            SymbolType::Semicolon => {
                proof {
                    reveal_strlit(";");
                }
                ";"
            },
            SymbolType::ColonColon => {
                proof {
                    reveal_strlit("::");
                }
                "::"
            },
            SymbolType::Colon => {
                proof {
                    reveal_strlit(":");
                }
                ":"
            },
            SymbolType::Comma => {
                proof {
                    reveal_strlit(",");
                }
                ","
            },
            SymbolType::Cross => {
                proof {
                    reveal_strlit("+");
                }
                "+"
            },
            SymbolType::Dash => {
                proof {
                    reveal_strlit("-");
                }
                "-"
            },
            SymbolType::Star => {
                proof {
                    reveal_strlit("*");
                }
                "*"
            },
            SymbolType::Slash => {
                proof {
                    reveal_strlit("/");
                }
                "/"
            },
            SymbolType::Percent => {
                proof {
                    reveal_strlit("%");
                }
                "%"
            },
            SymbolType::Caret => {
                proof {
                    reveal_strlit("^");
                }
                "^"
            },
            SymbolType::Hash => {
                proof {
                    reveal_strlit("#");
                }
                "#"
            },
            SymbolType::MetatableTag => {
                proof {
                    reveal_strlit("@metatable");
                }
                "@metatable"
            },
            SymbolType::Question => {
                proof {
                    reveal_strlit("?");
                }
                "?"
            },
            SymbolType::VerticalBar => {
                proof {
                    reveal_strlit("|");
                }
                "|"
            },
            SymbolType::Ampersand => {
                proof {
                    reveal_strlit("&");
                }
                "&"
            },
        }
    }

    /// The item whose source text is exactly `t`, if there is one.
    pub open spec fn from_bytes_spec(t: Seq<u8>) -> Option<Self> {
        if t == SymbolType::DotDotDot.bytes() {
            Some(SymbolType::DotDotDot)
        } else if t == SymbolType::DotDot.bytes() {
            Some(SymbolType::DotDot)
        } else if t == SymbolType::Dot.bytes() {
            Some(SymbolType::Dot)
        } else if t == SymbolType::SkinnyArrow.bytes() {
            Some(SymbolType::SkinnyArrow)
        } else if t == SymbolType::GreaterEqual.bytes() {
            Some(SymbolType::GreaterEqual)
        } else if t == SymbolType::LessEqual.bytes() {
            Some(SymbolType::LessEqual)
        } else if t == SymbolType::EqualEqual.bytes() {
            Some(SymbolType::EqualEqual)
        } else if t == SymbolType::TildeEqual.bytes() {
            Some(SymbolType::TildeEqual)
        } else if t == SymbolType::GreaterThan.bytes() {
            Some(SymbolType::GreaterThan)
        } else if t == SymbolType::LessThan.bytes() {
            Some(SymbolType::LessThan)
        } else if t == SymbolType::Equal.bytes() {
            Some(SymbolType::Equal)
        } else if t == SymbolType::OpenParen.bytes() {
            Some(SymbolType::OpenParen)
        } else if t == SymbolType::CloseParen.bytes() {
            Some(SymbolType::CloseParen)
        } else if t == SymbolType::OpenBracket.bytes() {
            Some(SymbolType::OpenBracket)
        } else if t == SymbolType::CloseBracket.bytes() {
            Some(SymbolType::CloseBracket)
        } else if t == SymbolType::OpenBrace.bytes() {
            Some(SymbolType::OpenBrace)
        } else if t == SymbolType::CloseBrace.bytes() {
            Some(SymbolType::CloseBrace)
        } else if t == SymbolType::Semicolon.bytes() {
            Some(SymbolType::Semicolon)
        } else if t == SymbolType::ColonColon.bytes() {
            Some(SymbolType::ColonColon)
        } else if t == SymbolType::Colon.bytes() {
            Some(SymbolType::Colon)
        } else if t == SymbolType::Comma.bytes() {
            Some(SymbolType::Comma)
        } else if t == SymbolType::Cross.bytes() {
            Some(SymbolType::Cross)
        } else if t == SymbolType::Dash.bytes() {
            Some(SymbolType::Dash)
        } else if t == SymbolType::Star.bytes() {
            Some(SymbolType::Star)
        } else if t == SymbolType::Slash.bytes() {
            Some(SymbolType::Slash)
        } else if t == SymbolType::Percent.bytes() {
            Some(SymbolType::Percent)
        } else if t == SymbolType::Caret.bytes() {
            Some(SymbolType::Caret)
        } else if t == SymbolType::Hash.bytes() {
            Some(SymbolType::Hash)
        } else if t == SymbolType::MetatableTag.bytes() {
            Some(SymbolType::MetatableTag)
        } else if t == SymbolType::Question.bytes() {
            Some(SymbolType::Question)
        } else if t == SymbolType::VerticalBar.bytes() {
            Some(SymbolType::VerticalBar)
        } else if t == SymbolType::Ampersand.bytes() {
            Some(SymbolType::Ampersand)
        } else {
            None
        }
    }

    /// The item whose source text is exactly `s`, if there is one.
    pub fn from_bytes(s: &[u8]) -> (r: Option<Self>)
        ensures
            r == Self::from_bytes_spec(s@),
            match r {
                Some(k) => s@ == k.bytes(),
                None => forall|k: Self| s@ != #[trigger] k.bytes(),
            },
    {
        let n = s.len();
        if n == 3 && s[0] == 46u8 && s[1] == 46u8 && s[2] == 46u8 {
            proof {
                assert(s@ =~= SymbolType::DotDotDot.bytes());
            }
            return Some(SymbolType::DotDotDot);
        }
        if n == 2 && s[0] == 46u8 && s[1] == 46u8 {
            proof {
                assert(s@ =~= SymbolType::DotDot.bytes());
            }
            return Some(SymbolType::DotDot);
        }
        if n == 1 && s[0] == 46u8 {
            proof {
                assert(s@ =~= SymbolType::Dot.bytes());
            }
            return Some(SymbolType::Dot);
        }
        if n == 2 && s[0] == 45u8 && s[1] == 62u8 {
            proof {
                assert(s@ =~= SymbolType::SkinnyArrow.bytes());
            }
            return Some(SymbolType::SkinnyArrow);
        }
        if n == 2 && s[0] == 62u8 && s[1] == 61u8 {
            proof {
                assert(s@ =~= SymbolType::GreaterEqual.bytes());
            }
            return Some(SymbolType::GreaterEqual);
        }
        if n == 2 && s[0] == 60u8 && s[1] == 61u8 {
            proof {
                assert(s@ =~= SymbolType::LessEqual.bytes());
            }
            return Some(SymbolType::LessEqual);
        }
        if n == 2 && s[0] == 61u8 && s[1] == 61u8 {
            proof {
                assert(s@ =~= SymbolType::EqualEqual.bytes());
            }
            return Some(SymbolType::EqualEqual);
        }
        if n == 2 && s[0] == 126u8 && s[1] == 61u8 {
            proof {
                assert(s@ =~= SymbolType::TildeEqual.bytes());
            }
            return Some(SymbolType::TildeEqual);
        }
        if n == 1 && s[0] == 62u8 {
            proof {
                assert(s@ =~= SymbolType::GreaterThan.bytes());
            }
            return Some(SymbolType::GreaterThan);
        }
        if n == 1 && s[0] == 60u8 {
            proof {
                assert(s@ =~= SymbolType::LessThan.bytes());
            }
            return Some(SymbolType::LessThan);
        }
        if n == 1 && s[0] == 61u8 {
            proof {
                assert(s@ =~= SymbolType::Equal.bytes());
            }
            return Some(SymbolType::Equal);
        }
        if n == 1 && s[0] == 40u8 {
            proof {
                assert(s@ =~= SymbolType::OpenParen.bytes());
            }
            return Some(SymbolType::OpenParen);
        }
        if n == 1 && s[0] == 41u8 {
            proof {
                assert(s@ =~= SymbolType::CloseParen.bytes());
            }
            return Some(SymbolType::CloseParen);
        }
        if n == 1 && s[0] == 91u8 {
            proof {
                assert(s@ =~= SymbolType::OpenBracket.bytes());
            }
            return Some(SymbolType::OpenBracket);
        }
        if n == 1 && s[0] == 93u8 {
            proof {
                assert(s@ =~= SymbolType::CloseBracket.bytes());
            }
            return Some(SymbolType::CloseBracket);
        }
        if n == 1 && s[0] == 123u8 {
            proof {
                assert(s@ =~= SymbolType::OpenBrace.bytes());
            }
            return Some(SymbolType::OpenBrace);
        }
        if n == 1 && s[0] == 125u8 {
            proof {
                assert(s@ =~= SymbolType::CloseBrace.bytes());
            }
            return Some(SymbolType::CloseBrace);
        }
        if n == 1 && s[0] == 59u8 {
            proof {
                assert(s@ =~= SymbolType::Semicolon.bytes());
            }
            return Some(SymbolType::Semicolon);
        }
        if n == 2 && s[0] == 58u8 && s[1] == 58u8 {
            proof {
                assert(s@ =~= SymbolType::ColonColon.bytes());
            }
            return Some(SymbolType::ColonColon);
        }
        if n == 1 && s[0] == 58u8 {
            proof {
                assert(s@ =~= SymbolType::Colon.bytes());
            }
            return Some(SymbolType::Colon);
        }
        if n == 1 && s[0] == 44u8 {
            proof {
                assert(s@ =~= SymbolType::Comma.bytes());
            }
            return Some(SymbolType::Comma);
        }
        if n == 1 && s[0] == 43u8 {
            proof {
                assert(s@ =~= SymbolType::Cross.bytes());
            }
            return Some(SymbolType::Cross);
        }
        if n == 1 && s[0] == 45u8 {
            proof {
                assert(s@ =~= SymbolType::Dash.bytes());
            }
            return Some(SymbolType::Dash);
        }
        if n == 1 && s[0] == 42u8 {
            proof {
                assert(s@ =~= SymbolType::Star.bytes());
            }
            return Some(SymbolType::Star);
        }
        if n == 1 && s[0] == 47u8 {
            proof {
                assert(s@ =~= SymbolType::Slash.bytes());
            }
            return Some(SymbolType::Slash);
        }
        if n == 1 && s[0] == 37u8 {
            proof {
                assert(s@ =~= SymbolType::Percent.bytes());
            }
            return Some(SymbolType::Percent);
        }
        if n == 1 && s[0] == 94u8 {
            proof {
                assert(s@ =~= SymbolType::Caret.bytes());
            }
            return Some(SymbolType::Caret);
        }
        if n == 1 && s[0] == 35u8 {
            proof {
                assert(s@ =~= SymbolType::Hash.bytes());
            }
            return Some(SymbolType::Hash);
        }
        if n == 10 && s[0] == 64u8 && s[1] == 109u8 && s[2] == 101u8 && s[3] == 116u8 && s[4] == 97u8 && s[5] == 116u8 && s[6] == 97u8 && s[7] == 98u8 && s[8] == 108u8 && s[9] == 101u8 {
            proof {
                assert(s@ =~= SymbolType::MetatableTag.bytes());
            }
            return Some(SymbolType::MetatableTag);
        }
        if n == 1 && s[0] == 63u8 {
            proof {
                assert(s@ =~= SymbolType::Question.bytes());
            }
            return Some(SymbolType::Question);
        }
        if n == 1 && s[0] == 124u8 {
            proof {
                assert(s@ =~= SymbolType::VerticalBar.bytes());
            }
            return Some(SymbolType::VerticalBar);
        }
        if n == 1 && s[0] == 38u8 {
            proof {
                assert(s@ =~= SymbolType::Ampersand.bytes());
            }
            return Some(SymbolType::Ampersand);
        }
        proof {
            assert forall|k: Self| s@ != #[trigger] k.bytes() by {
                if s@ == k.bytes() {
                    match k {
                        SymbolType::DotDotDot => {
                            assert(s@[0] == k.bytes()[0]);
                        },
                        SymbolType::DotDot => {
                            assert(s@[0] == k.bytes()[0]);
                        },
                        SymbolType::Dot => {
                            assert(s@[0] == k.bytes()[0]);
                        },
                        SymbolType::SkinnyArrow => {
                            assert(s@[0] == k.bytes()[0]);
                        },
                        SymbolType::GreaterEqual => {
                            assert(s@[0] == k.bytes()[0]);
                        },
                        SymbolType::LessEqual => {
                            assert(s@[0] == k.bytes()[0]);
                        },
                        SymbolType::EqualEqual => {
                            assert(s@[0] == k.bytes()[0]);
                        },
                        SymbolType::TildeEqual => {
                            assert(s@[0] == k.bytes()[0]);
                        },
                        SymbolType::GreaterThan => {
                            assert(s@[0] == k.bytes()[0]);
                        },
                        SymbolType::LessThan => {
                            assert(s@[0] == k.bytes()[0]);
                        },
                        SymbolType::Equal => {
                            assert(s@[0] == k.bytes()[0]);
                        },
                        SymbolType::OpenParen => {
                            assert(s@[0] == k.bytes()[0]);
                        },
                        SymbolType::CloseParen => {
                            assert(s@[0] == k.bytes()[0]);
                        },
                        SymbolType::OpenBracket => {
                            assert(s@[0] == k.bytes()[0]);
                        },
                        SymbolType::CloseBracket => {
                            assert(s@[0] == k.bytes()[0]);
                        },
                        SymbolType::OpenBrace => {
                            assert(s@[0] == k.bytes()[0]);
                        },
                        SymbolType::CloseBrace => {
                            assert(s@[0] == k.bytes()[0]);
                        },
                        SymbolType::Semicolon => {
                            assert(s@[0] == k.bytes()[0]);
                        },
                        SymbolType::ColonColon => {
                            assert(s@[0] == k.bytes()[0]);
                        },
                        SymbolType::Colon => {
                            assert(s@[0] == k.bytes()[0]);
                        },
                        SymbolType::Comma => {
                            assert(s@[0] == k.bytes()[0]);
                        },
                        SymbolType::Cross => {
                            assert(s@[0] == k.bytes()[0]);
                        },
                        SymbolType::Dash => {
                            assert(s@[0] == k.bytes()[0]);
                        },
                        SymbolType::Star => {
                            assert(s@[0] == k.bytes()[0]);
                        },
                        SymbolType::Slash => {
                            assert(s@[0] == k.bytes()[0]);
                        },
                        SymbolType::Percent => {
                            assert(s@[0] == k.bytes()[0]);
                        },
                        SymbolType::Caret => {
                            assert(s@[0] == k.bytes()[0]);
                        },
                        SymbolType::Hash => {
                            assert(s@[0] == k.bytes()[0]);
                        },
                        SymbolType::MetatableTag => {
                            assert(s@[0] == k.bytes()[0]);
                        },
                        SymbolType::Question => {
                            assert(s@[0] == k.bytes()[0]);
                        },
                        SymbolType::VerticalBar => {
                            assert(s@[0] == k.bytes()[0]);
                        },
                        SymbolType::Ampersand => {
                            assert(s@[0] == k.bytes()[0]);
                        },
                    }
                }
            }
        }
        None
    }

}

impl KeywordType {
    /// The keyword whose source text is exactly `s`, or an error saying
    /// that it is unknown.
    pub fn from_text(s: &str) -> (r: Result<Self, &'static str>)
        ensures
            r matches Ok(k) ==> Self::from_bytes_spec(s.spec_bytes()) == Some(k),
            r is Err ==> Self::from_bytes_spec(s.spec_bytes()) is None,
            r matches Err(m) ==> m@ == "unknown lua symbol"@,
    {
        match Self::from_bytes(s.as_bytes()) {
            Some(k) => Ok(k),
            None => Err("unknown lua symbol"),
        }
    }
}

impl std::str::FromStr for KeywordType {
    type Err = &'static str;

    fn from_str(s: &str) -> (r: Result<Self, &'static str>)
        ensures
            r matches Ok(k) ==> Self::from_bytes_spec(s.spec_bytes()) == Some(k),
            r is Err ==> Self::from_bytes_spec(s.spec_bytes()) is None,
            r matches Err(m) ==> m@ == "unknown lua symbol"@,
    {
        Self::from_text(s)
    }
}

impl SymbolType {
    /// The symbol whose source text is exactly `s`, or an error saying
    /// that it is unknown.
    pub fn from_text(s: &str) -> (r: Result<Self, &'static str>)
        ensures
            r matches Ok(k) ==> Self::from_bytes_spec(s.spec_bytes()) == Some(k),
            r is Err ==> Self::from_bytes_spec(s.spec_bytes()) is None,
            r matches Err(m) ==> m@ == "unknown lua symbol"@,
    {
        match Self::from_bytes(s.as_bytes()) {
            Some(k) => Ok(k),
            None => Err("unknown lua symbol"),
        }
    }
}

impl std::str::FromStr for SymbolType {
    type Err = &'static str;

    fn from_str(s: &str) -> (r: Result<Self, &'static str>)
        ensures
            r matches Ok(k) ==> Self::from_bytes_spec(s.spec_bytes()) == Some(k),
            r is Err ==> Self::from_bytes_spec(s.spec_bytes()) is None,
            r matches Err(m) ==> m@ == "unknown lua symbol"@,
    {
        Self::from_text(s)
    }
}

/// Reading the text of a keyword back gives the keyword: no two keywords share a
/// text, and a text is read as a keyword only if it is that keyword's text.
pub proof fn lemma_keyword_text_round_trip(k: KeywordType, t: Seq<u8>)
    ensures
        KeywordType::from_bytes_spec(k.bytes()) == Some(k),
        KeywordType::from_bytes_spec(t) == Some(k) ==> t == k.bytes(),
{
    assert(KeywordType::And.bytes().len() == 3 && KeywordType::And.bytes()[0] == 97u8 && KeywordType::And.bytes()[1] == 110u8 && KeywordType::And.bytes()[2] == 100u8);
    assert(KeywordType::Break.bytes().len() == 5 && KeywordType::Break.bytes()[0] == 98u8 && KeywordType::Break.bytes()[1] == 114u8 && KeywordType::Break.bytes()[2] == 101u8 && KeywordType::Break.bytes()[3] == 97u8 && KeywordType::Break.bytes()[4] == 107u8);
    assert(KeywordType::Do.bytes().len() == 2 && KeywordType::Do.bytes()[0] == 100u8 && KeywordType::Do.bytes()[1] == 111u8);
    assert(KeywordType::Else.bytes().len() == 4 && KeywordType::Else.bytes()[0] == 101u8 && KeywordType::Else.bytes()[1] == 108u8 && KeywordType::Else.bytes()[2] == 115u8 && KeywordType::Else.bytes()[3] == 101u8);
    assert(KeywordType::ElseIf.bytes().len() == 6 && KeywordType::ElseIf.bytes()[0] == 101u8 && KeywordType::ElseIf.bytes()[1] == 108u8 && KeywordType::ElseIf.bytes()[2] == 115u8 && KeywordType::ElseIf.bytes()[3] == 101u8 && KeywordType::ElseIf.bytes()[4] == 105u8 && KeywordType::ElseIf.bytes()[5] == 102u8);
    assert(KeywordType::End.bytes().len() == 3 && KeywordType::End.bytes()[0] == 101u8 && KeywordType::End.bytes()[1] == 110u8 && KeywordType::End.bytes()[2] == 100u8);
    assert(KeywordType::False.bytes().len() == 5 && KeywordType::False.bytes()[0] == 102u8 && KeywordType::False.bytes()[1] == 97u8 && KeywordType::False.bytes()[2] == 108u8 && KeywordType::False.bytes()[3] == 115u8 && KeywordType::False.bytes()[4] == 101u8);
    assert(KeywordType::For.bytes().len() == 3 && KeywordType::For.bytes()[0] == 102u8 && KeywordType::For.bytes()[1] == 111u8 && KeywordType::For.bytes()[2] == 114u8);
    assert(KeywordType::Function.bytes().len() == 8 && KeywordType::Function.bytes()[0] == 102u8 && KeywordType::Function.bytes()[1] == 117u8 && KeywordType::Function.bytes()[2] == 110u8 && KeywordType::Function.bytes()[3] == 99u8 && KeywordType::Function.bytes()[4] == 116u8 && KeywordType::Function.bytes()[5] == 105u8 && KeywordType::Function.bytes()[6] == 111u8 && KeywordType::Function.bytes()[7] == 110u8);
    assert(KeywordType::If.bytes().len() == 2 && KeywordType::If.bytes()[0] == 105u8 && KeywordType::If.bytes()[1] == 102u8);
    assert(KeywordType::In.bytes().len() == 2 && KeywordType::In.bytes()[0] == 105u8 && KeywordType::In.bytes()[1] == 110u8);
    assert(KeywordType::Local.bytes().len() == 5 && KeywordType::Local.bytes()[0] == 108u8 && KeywordType::Local.bytes()[1] == 111u8 && KeywordType::Local.bytes()[2] == 99u8 && KeywordType::Local.bytes()[3] == 97u8 && KeywordType::Local.bytes()[4] == 108u8);
    assert(KeywordType::Nil.bytes().len() == 3 && KeywordType::Nil.bytes()[0] == 110u8 && KeywordType::Nil.bytes()[1] == 105u8 && KeywordType::Nil.bytes()[2] == 108u8);
    assert(KeywordType::Not.bytes().len() == 3 && KeywordType::Not.bytes()[0] == 110u8 && KeywordType::Not.bytes()[1] == 111u8 && KeywordType::Not.bytes()[2] == 116u8);
    assert(KeywordType::Or.bytes().len() == 2 && KeywordType::Or.bytes()[0] == 111u8 && KeywordType::Or.bytes()[1] == 114u8);
    assert(KeywordType::Repeat.bytes().len() == 6 && KeywordType::Repeat.bytes()[0] == 114u8 && KeywordType::Repeat.bytes()[1] == 101u8 && KeywordType::Repeat.bytes()[2] == 112u8 && KeywordType::Repeat.bytes()[3] == 101u8 && KeywordType::Repeat.bytes()[4] == 97u8 && KeywordType::Repeat.bytes()[5] == 116u8);
    assert(KeywordType::Return.bytes().len() == 6 && KeywordType::Return.bytes()[0] == 114u8 && KeywordType::Return.bytes()[1] == 101u8 && KeywordType::Return.bytes()[2] == 116u8 && KeywordType::Return.bytes()[3] == 117u8 && KeywordType::Return.bytes()[4] == 114u8 && KeywordType::Return.bytes()[5] == 110u8);
    assert(KeywordType::Then.bytes().len() == 4 && KeywordType::Then.bytes()[0] == 116u8 && KeywordType::Then.bytes()[1] == 104u8 && KeywordType::Then.bytes()[2] == 101u8 && KeywordType::Then.bytes()[3] == 110u8);
    assert(KeywordType::True.bytes().len() == 4 && KeywordType::True.bytes()[0] == 116u8 && KeywordType::True.bytes()[1] == 114u8 && KeywordType::True.bytes()[2] == 117u8 && KeywordType::True.bytes()[3] == 101u8);
    assert(KeywordType::Until.bytes().len() == 5 && KeywordType::Until.bytes()[0] == 117u8 && KeywordType::Until.bytes()[1] == 110u8 && KeywordType::Until.bytes()[2] == 116u8 && KeywordType::Until.bytes()[3] == 105u8 && KeywordType::Until.bytes()[4] == 108u8);
    assert(KeywordType::While.bytes().len() == 5 && KeywordType::While.bytes()[0] == 119u8 && KeywordType::While.bytes()[1] == 104u8 && KeywordType::While.bytes()[2] == 105u8 && KeywordType::While.bytes()[3] == 108u8 && KeywordType::While.bytes()[4] == 101u8);
    match k {
        KeywordType::And => {},
        KeywordType::Break => {},
        KeywordType::Do => {},
        KeywordType::Else => {},
        KeywordType::ElseIf => {},
        KeywordType::End => {},
        KeywordType::False => {},
        KeywordType::For => {},
        KeywordType::Function => {},
        KeywordType::If => {},
        KeywordType::In => {},
        KeywordType::Local => {},
        KeywordType::Nil => {},
        KeywordType::Not => {},
        KeywordType::Or => {},
        KeywordType::Repeat => {},
        KeywordType::Return => {},
        KeywordType::Then => {},
        KeywordType::True => {},
        KeywordType::Until => {},
        KeywordType::While => {},
    }
}

/// Reading the text of a symbol back gives the symbol: no two symbols share a
/// text, and a text is read as a symbol only if it is that symbol's text.
pub proof fn lemma_symbol_text_round_trip(k: SymbolType, t: Seq<u8>)
    ensures
        SymbolType::from_bytes_spec(k.bytes()) == Some(k),
        SymbolType::from_bytes_spec(t) == Some(k) ==> t == k.bytes(),
{
    assert(SymbolType::DotDotDot.bytes().len() == 3 && SymbolType::DotDotDot.bytes()[0] == 46u8 && SymbolType::DotDotDot.bytes()[1] == 46u8 && SymbolType::DotDotDot.bytes()[2] == 46u8);
    assert(SymbolType::DotDot.bytes().len() == 2 && SymbolType::DotDot.bytes()[0] == 46u8 && SymbolType::DotDot.bytes()[1] == 46u8);
    assert(SymbolType::Dot.bytes().len() == 1 && SymbolType::Dot.bytes()[0] == 46u8);
    assert(SymbolType::SkinnyArrow.bytes().len() == 2 && SymbolType::SkinnyArrow.bytes()[0] == 45u8 && SymbolType::SkinnyArrow.bytes()[1] == 62u8);
    assert(SymbolType::GreaterEqual.bytes().len() == 2 && SymbolType::GreaterEqual.bytes()[0] == 62u8 && SymbolType::GreaterEqual.bytes()[1] == 61u8);
    assert(SymbolType::LessEqual.bytes().len() == 2 && SymbolType::LessEqual.bytes()[0] == 60u8 && SymbolType::LessEqual.bytes()[1] == 61u8);
    assert(SymbolType::EqualEqual.bytes().len() == 2 && SymbolType::EqualEqual.bytes()[0] == 61u8 && SymbolType::EqualEqual.bytes()[1] == 61u8);
    assert(SymbolType::TildeEqual.bytes().len() == 2 && SymbolType::TildeEqual.bytes()[0] == 126u8 && SymbolType::TildeEqual.bytes()[1] == 61u8);
    assert(SymbolType::GreaterThan.bytes().len() == 1 && SymbolType::GreaterThan.bytes()[0] == 62u8);
    assert(SymbolType::LessThan.bytes().len() == 1 && SymbolType::LessThan.bytes()[0] == 60u8);
    assert(SymbolType::Equal.bytes().len() == 1 && SymbolType::Equal.bytes()[0] == 61u8);
    assert(SymbolType::OpenParen.bytes().len() == 1 && SymbolType::OpenParen.bytes()[0] == 40u8);
    assert(SymbolType::CloseParen.bytes().len() == 1 && SymbolType::CloseParen.bytes()[0] == 41u8);
    assert(SymbolType::OpenBracket.bytes().len() == 1 && SymbolType::OpenBracket.bytes()[0] == 91u8);
    assert(SymbolType::CloseBracket.bytes().len() == 1 && SymbolType::CloseBracket.bytes()[0] == 93u8);
    assert(SymbolType::OpenBrace.bytes().len() == 1 && SymbolType::OpenBrace.bytes()[0] == 123u8);
    assert(SymbolType::CloseBrace.bytes().len() == 1 && SymbolType::CloseBrace.bytes()[0] == 125u8);
    assert(SymbolType::Semicolon.bytes().len() == 1 && SymbolType::Semicolon.bytes()[0] == 59u8);
    assert(SymbolType::ColonColon.bytes().len() == 2 && SymbolType::ColonColon.bytes()[0] == 58u8 && SymbolType::ColonColon.bytes()[1] == 58u8);
    assert(SymbolType::Colon.bytes().len() == 1 && SymbolType::Colon.bytes()[0] == 58u8);
    assert(SymbolType::Comma.bytes().len() == 1 && SymbolType::Comma.bytes()[0] == 44u8);
    assert(SymbolType::Cross.bytes().len() == 1 && SymbolType::Cross.bytes()[0] == 43u8);
    assert(SymbolType::Dash.bytes().len() == 1 && SymbolType::Dash.bytes()[0] == 45u8);
    assert(SymbolType::Star.bytes().len() == 1 && SymbolType::Star.bytes()[0] == 42u8);
    assert(SymbolType::Slash.bytes().len() == 1 && SymbolType::Slash.bytes()[0] == 47u8);
    assert(SymbolType::Percent.bytes().len() == 1 && SymbolType::Percent.bytes()[0] == 37u8);
    assert(SymbolType::Caret.bytes().len() == 1 && SymbolType::Caret.bytes()[0] == 94u8);
    assert(SymbolType::Hash.bytes().len() == 1 && SymbolType::Hash.bytes()[0] == 35u8);
    assert(SymbolType::MetatableTag.bytes().len() == 10 && SymbolType::MetatableTag.bytes()[0] == 64u8 && SymbolType::MetatableTag.bytes()[1] == 109u8 && SymbolType::MetatableTag.bytes()[2] == 101u8 && SymbolType::MetatableTag.bytes()[3] == 116u8 && SymbolType::MetatableTag.bytes()[4] == 97u8 && SymbolType::MetatableTag.bytes()[5] == 116u8 && SymbolType::MetatableTag.bytes()[6] == 97u8 && SymbolType::MetatableTag.bytes()[7] == 98u8 && SymbolType::MetatableTag.bytes()[8] == 108u8 && SymbolType::MetatableTag.bytes()[9] == 101u8);
    assert(SymbolType::Question.bytes().len() == 1 && SymbolType::Question.bytes()[0] == 63u8);
    assert(SymbolType::VerticalBar.bytes().len() == 1 && SymbolType::VerticalBar.bytes()[0] == 124u8);
    assert(SymbolType::Ampersand.bytes().len() == 1 && SymbolType::Ampersand.bytes()[0] == 38u8);
    match k {
        SymbolType::DotDotDot => {},
        SymbolType::DotDot => {},
        SymbolType::Dot => {},
        SymbolType::SkinnyArrow => {},
        SymbolType::GreaterEqual => {},
        SymbolType::LessEqual => {},
        SymbolType::EqualEqual => {},
        SymbolType::TildeEqual => {},
        SymbolType::GreaterThan => {},
        SymbolType::LessThan => {},
        SymbolType::Equal => {},
        SymbolType::OpenParen => {},
        SymbolType::CloseParen => {},
        SymbolType::OpenBracket => {},
        SymbolType::CloseBracket => {},
        SymbolType::OpenBrace => {},
        SymbolType::CloseBrace => {},
        SymbolType::Semicolon => {},
        SymbolType::ColonColon => {},
        SymbolType::Colon => {},
        SymbolType::Comma => {},
        SymbolType::Cross => {},
        SymbolType::Dash => {},
        SymbolType::Star => {},
        SymbolType::Slash => {},
        SymbolType::Percent => {},
        SymbolType::Caret => {},
        SymbolType::Hash => {},
        SymbolType::MetatableTag => {},
        SymbolType::Question => {},
        SymbolType::VerticalBar => {},
        SymbolType::Ampersand => {},
    }
}

/// The UTF-8 encoding of ASCII characters is their codes, one byte each.
pub proof fn lemma_encode_ascii(chars: Seq<char>)
    requires
        forall|i: int| 0 <= i < chars.len() ==> ((#[trigger] chars[i]) as u32) < 128,
    ensures
        encode_utf8(chars).len() == chars.len(),
        forall|i: int| 0 <= i < chars.len() ==> #[trigger] encode_utf8(chars)[i] == chars[i] as u32 as u8,
    decreases chars.len(),
{
    if chars.len() > 0 {
        let c = chars[0] as u32;
        assert(c & 0x7F == c) by (bit_vector)
            requires
                c < 128,
        ;
        let rest = chars.drop_first();
        assert forall|i: int| 0 <= i < rest.len() implies ((#[trigger] rest[i]) as u32) < 128 by {
            assert(rest[i] == chars[i + 1]);
        }
        lemma_encode_ascii(rest);
        assert(encode_scalar(c) == seq![c as u8]);
        assert forall|i: int| 0 <= i < chars.len() implies #[trigger] encode_utf8(chars)[i]
            == chars[i] as u32 as u8 by {
            if i > 0 {
                assert(encode_utf8(chars)[i] == encode_utf8(rest)[i - 1]);
                assert(rest[i - 1] == chars[i]);
            }
        }
    }
}

/// The bytes of a keyword are the UTF-8 encoding of its text.
pub proof fn lemma_keyword_text_bytes(k: KeywordType)
    ensures
        encode_utf8(k.text()) == k.bytes(),
{
    match k {
        KeywordType::And => {},
        KeywordType::Break => {},
        KeywordType::Do => {},
        KeywordType::Else => {},
        KeywordType::ElseIf => {},
        KeywordType::End => {},
        KeywordType::False => {},
        KeywordType::For => {},
        KeywordType::Function => {},
        KeywordType::If => {},
        KeywordType::In => {},
        KeywordType::Local => {},
        KeywordType::Nil => {},
        KeywordType::Not => {},
        KeywordType::Or => {},
        KeywordType::Repeat => {},
        KeywordType::Return => {},
        KeywordType::Then => {},
        KeywordType::True => {},
        KeywordType::Until => {},
        KeywordType::While => {},
    }
    lemma_encode_ascii(k.text());
    assert(encode_utf8(k.text()) =~= k.bytes());
}

/// The bytes of a symbol are the UTF-8 encoding of its text.
pub proof fn lemma_symbol_text_bytes(k: SymbolType)
    ensures
        encode_utf8(k.text()) == k.bytes(),
{
    match k {
        SymbolType::DotDotDot => {},
        SymbolType::DotDot => {},
        SymbolType::Dot => {},
        SymbolType::SkinnyArrow => {},
        SymbolType::GreaterEqual => {},
        SymbolType::LessEqual => {},
        SymbolType::EqualEqual => {},
        SymbolType::TildeEqual => {},
        SymbolType::GreaterThan => {},
        SymbolType::LessThan => {},
        SymbolType::Equal => {},
        SymbolType::OpenParen => {},
        SymbolType::CloseParen => {},
        SymbolType::OpenBracket => {},
        SymbolType::CloseBracket => {},
        SymbolType::OpenBrace => {},
        SymbolType::CloseBrace => {},
        SymbolType::Semicolon => {},
        SymbolType::ColonColon => {},
        SymbolType::Colon => {},
        SymbolType::Comma => {},
        SymbolType::Cross => {},
        SymbolType::Dash => {},
        SymbolType::Star => {},
        SymbolType::Slash => {},
        SymbolType::Percent => {},
        SymbolType::Caret => {},
        SymbolType::Hash => {},
        SymbolType::MetatableTag => {},
        SymbolType::Question => {},
        SymbolType::VerticalBar => {},
        SymbolType::Ampersand => {},
    }
    lemma_encode_ascii(k.text());
    assert(encode_utf8(k.text()) =~= k.bytes());
}

/// Reading back the text that `to_str` gives for a keyword gives that
/// keyword, and a string is read as a keyword only if it is that keyword's text.
pub proof fn lemma_keyword_str_round_trip(k: KeywordType, s: &str)
    ensures
        KeywordType::from_bytes_spec(encode_utf8(k.text())) == Some(k),
        KeywordType::from_bytes_spec(s.spec_bytes()) == Some(k) <==> s@ == k.text(),
{
    lemma_keyword_text_bytes(k);
    lemma_keyword_text_round_trip(k, s.spec_bytes());
    if KeywordType::from_bytes_spec(s.spec_bytes()) == Some(k) {
        encode_utf8_decode_utf8(s@);
        encode_utf8_decode_utf8(k.text());
    }
}

/// Reading back the text that `to_str` gives for a symbol gives that
/// symbol, and a string is read as a symbol only if it is that symbol's text.
pub proof fn lemma_symbol_str_round_trip(k: SymbolType, s: &str)
    ensures
        SymbolType::from_bytes_spec(encode_utf8(k.text())) == Some(k),
        SymbolType::from_bytes_spec(s.spec_bytes()) == Some(k) <==> s@ == k.text(),
{
    lemma_symbol_text_bytes(k);
    lemma_symbol_text_round_trip(k, s.spec_bytes());
    if SymbolType::from_bytes_spec(s.spec_bytes()) == Some(k) {
        encode_utf8_decode_utf8(s@);
        encode_utf8_decode_utf8(k.text());
    }
}

} // verus!
