use satlight::ast::{InvalidType, SymbolType, Token, TokenType};
use satlight::location::Span;
use satlight::tokenizer::{tokenize, Cursor};

fn tok(token_type: TokenType, start: usize, end: usize) -> Token {
    Token::new(token_type, Span::new(start, end))
}

fn tokenize_all(input: &str) -> std::vec::IntoIter<Token> {
    tokenize(input).into_iter()
}

#[test]
fn two_letter_symbols() {
    let mut tokens = tokenize_all("==~=<=>=..~=");
    assert_eq!(tokens.next(), Some(tok(TokenType::Symbol(SymbolType::EqualEqual), 0, 2)));
    assert_eq!(tokens.next(), Some(tok(TokenType::Symbol(SymbolType::TildeEqual), 2, 4)));
    assert_eq!(tokens.next(), Some(tok(TokenType::Symbol(SymbolType::LessEqual), 4, 6)));
    assert_eq!(tokens.next(), Some(tok(TokenType::Symbol(SymbolType::GreaterEqual), 6, 8)));
    assert_eq!(tokens.next(), Some(tok(TokenType::Symbol(SymbolType::DotDot), 8, 10)));
    assert_eq!(tokens.next(), Some(tok(TokenType::Symbol(SymbolType::TildeEqual), 10, 12)));
}

#[test]
fn disallowed_numbers() {
    let mut tokens = tokenize_all(r#"1."#);
    assert_eq!(tokens.next(), Some(tok(TokenType::Invalid(InvalidType::UnexpectedCharacter('\0')), 0, 2)));
    let mut tokens = tokenize_all(r#"0x"#);
    assert_eq!(tokens.next(), Some(tok(TokenType::Invalid(InvalidType::UnexpectedCharacter('\0')), 0, 2)));
    let mut tokens = tokenize_all(r#"1e"#);
    assert_eq!(tokens.next(), Some(tok(TokenType::Invalid(InvalidType::UnexpectedCharacter('\0')), 0, 2)));
}

#[test]
fn numbers() {
    let mut tokens = tokenize_all(r#"123 123.123 .123 123e123 123e+123 123.123e+123 0x12AB"#);
    assert_eq!(tokens.next(), Some(tok(TokenType::Number("123".to_string()), 0, 3)));
    assert_eq!(tokens.next(), Some(tok(TokenType::Trivia(" ".to_string()), 3, 4)));
    assert_eq!(tokens.next(), Some(tok(TokenType::Number("123.123".to_string()), 4, 11)));
    assert_eq!(tokens.next(), Some(tok(TokenType::Trivia(" ".to_string()), 11, 12)));
    assert_eq!(tokens.next(), Some(tok(TokenType::Number(".123".to_string()), 12, 16)));
    assert_eq!(tokens.next(), Some(tok(TokenType::Trivia(" ".to_string()), 16, 17)));
    assert_eq!(tokens.next(), Some(tok(TokenType::Number("123e123".to_string()), 17, 24)));
    assert_eq!(tokens.next(), Some(tok(TokenType::Trivia(" ".to_string()), 24, 25)));
    assert_eq!(tokens.next(), Some(tok(TokenType::Number("123e+123".to_string()), 25, 33)));
    assert_eq!(tokens.next(), Some(tok(TokenType::Trivia(" ".to_string()), 33, 34)));
    assert_eq!(tokens.next(), Some(tok(TokenType::Number("123.123e+123".to_string()), 34, 46)));
    assert_eq!(tokens.next(), Some(tok(TokenType::Trivia(" ".to_string()), 46, 47)));
    assert_eq!(tokens.next(), Some(tok(TokenType::Number("0x12AB".to_string()), 47, 53)));
}

#[test]
fn line_strings() {
    let mut tokens = tokenize_all(r#""Hello world" 'Hi' "\"" '"#);
    assert_eq!(tokens.next(), Some(tok(TokenType::Str("Hello world".to_string()), 0, 13)));
    assert_eq!(tokens.next(), Some(tok(TokenType::Trivia(" ".to_string()), 13, 14)));
    assert_eq!(tokens.next(), Some(tok(TokenType::Str("Hi".to_string()), 14, 18)));
    assert_eq!(tokens.next(), Some(tok(TokenType::Trivia(" ".to_string()), 18, 19)));
    assert_eq!(tokens.next(), Some(tok(TokenType::Str(("\\\"".to_string())), 19, 23)));
    assert_eq!(tokens.next(), Some(tok(TokenType::Trivia(" ".to_string()), 23, 24)));
    assert_eq!(tokens.next(), Some(tok(TokenType::Invalid(InvalidType::UnclosedString), 24, 25)));
    let mut tokens = tokenize_all("\"\\\n\"");
    assert_eq!(tokens.next(), Some(tok(TokenType::Str("\\\n".to_string()), 0, 4)));
}

#[test]
fn dot_symbols() {
    let mut tokens = tokenize_all("...,..,.");
    assert_eq!(tokens.next(), Some(tok(TokenType::Symbol(SymbolType::DotDotDot), 0, 3)));
    assert_eq!(tokens.next(), Some(tok(TokenType::Symbol(SymbolType::Comma), 3, 4)));
    assert_eq!(tokens.next(), Some(tok(TokenType::Symbol(SymbolType::DotDot), 4, 6)));
    assert_eq!(tokens.next(), Some(tok(TokenType::Symbol(SymbolType::Comma), 6, 7)));
    assert_eq!(tokens.next(), Some(tok(TokenType::Symbol(SymbolType::Dot), 7, 8)));
}

#[test]
fn multi_line_strings() {
    let mut tokens = tokenize_all("[[]][[foo]][==[hi]==][==[==[]==][==[]===]==][[]");
    assert_eq!(tokens.next(), Some(tok(TokenType::Str("".to_string()), 0, 4)));
    assert_eq!(tokens.next(), Some(tok(TokenType::Str("foo".to_string()), 4, 11)));
    assert_eq!(tokens.next(), Some(tok(TokenType::Str("hi".to_string()), 11, 21)));
    assert_eq!(tokens.next(), Some(tok(TokenType::Str("==[".to_string()), 21, 32)));
    assert_eq!(tokens.next(), Some(tok(TokenType::Str("]===".to_string()), 32, 44)));
    assert_eq!(tokens.next(), Some(tok(TokenType::Invalid(InvalidType::UnclosedString), 44, 47)));
}

#[test]
fn multi_line_comments() {
    let mut tokens = tokenize_all("--[[]]--[[foo]]--[==[hi]==]--[==[==[]==]--[==[]===]==]--[[");
    assert_eq!(tokens.next(), Some(tok(TokenType::Trivia("".to_string()), 0, 6)));
    assert_eq!(tokens.next(), Some(tok(TokenType::Trivia("foo".to_string()), 6, 15)));
    assert_eq!(tokens.next(), Some(tok(TokenType::Trivia("hi".to_string()), 15, 27)));
    assert_eq!(tokens.next(), Some(tok(TokenType::Trivia("==[".to_string()), 27, 40)));
    assert_eq!(tokens.next(), Some(tok(TokenType::Trivia("]===".to_string()), 40, 54)));
    assert_eq!(tokens.next(), Some(tok(TokenType::Invalid(InvalidType::UnclosedComment), 54, 58)));
}

#[test]
fn single_line_comments() {
    let mut tokens = tokenize_all("--\n--hello\n--[\n--[==");
    assert_eq!(tokens.next(), Some(tok(TokenType::Trivia("".to_string()), 0, 2)));
    assert_eq!(tokens.next(), Some(tok(TokenType::Trivia("\n".to_string()), 2, 3)));
    assert_eq!(tokens.next(), Some(tok(TokenType::Trivia("hello".to_string()), 3, 10)));
    assert_eq!(tokens.next(), Some(tok(TokenType::Trivia("\n".to_string()), 10, 11)));
    assert_eq!(tokens.next(), Some(tok(TokenType::Trivia("[".to_string()), 11, 14)));
    assert_eq!(tokens.next(), Some(tok(TokenType::Trivia("\n".to_string()), 14, 15)));
    assert_eq!(tokens.next(), Some(tok(TokenType::Trivia("[==".to_string()), 15, 20)));
}

#[test]
fn identifiers() {
    let mut tokens = tokenize_all("_foo bar f1 b2_ _1 _1a_2");
    assert_eq!(tokens.next(), Some(tok(TokenType::Name("_foo".to_string()), 0, 4)));
    assert_eq!(tokens.next(), Some(tok(TokenType::Trivia(" ".to_string()), 4, 5)));
    assert_eq!(tokens.next(), Some(tok(TokenType::Name("bar".to_string()), 5, 8)));
    assert_eq!(tokens.next(), Some(tok(TokenType::Trivia(" ".to_string()), 8, 9)));
    assert_eq!(tokens.next(), Some(tok(TokenType::Name("f1".to_string()), 9, 11)));
    assert_eq!(tokens.next(), Some(tok(TokenType::Trivia(" ".to_string()), 11, 12)));
    assert_eq!(tokens.next(), Some(tok(TokenType::Name("b2_".to_string()), 12, 15)));
    assert_eq!(tokens.next(), Some(tok(TokenType::Trivia(" ".to_string()), 15, 16)));
    assert_eq!(tokens.next(), Some(tok(TokenType::Name("_1".to_string()), 16, 18)));
    assert_eq!(tokens.next(), Some(tok(TokenType::Trivia(" ".to_string()), 18, 19)));
    assert_eq!(tokens.next(), Some(tok(TokenType::Name("_1a_2".to_string()), 19, 24)));
}

#[test]
fn shebang() {
    let mut tokens = tokenize_all("#!/usr/bin/lua");
    assert_eq!(tokens.next(), Some(tok(
            TokenType::Trivia("/usr/bin/lua".to_string()),
            0,
            14
        )));
}

#[test]
fn whitespaces() {
    let mut tokens = tokenize_all("\r\n \t\n");
    assert_eq!(tokens.next(), Some(tok(TokenType::Trivia("\r\n \t\n".to_string()), 0, 5)));
}

#[test]
fn disallowed_whitespace() {
    let mut tokens = tokenize_all("\r");
    assert_eq!(tokens.next(), Some(tok(
            TokenType::Invalid(InvalidType::UnexpectedCharacter('\r')),
            0,
            1
        )));
}

#[test]
fn one_letter_symbols() {
    let mut tokens = tokenize_all("(){}[]<>;:.+-*/%^#");
    assert_eq!(tokens.next(), Some(tok(TokenType::Symbol(SymbolType::OpenParen), 0, 1)));
    assert_eq!(tokens.next(), Some(tok(TokenType::Symbol(SymbolType::CloseParen), 1, 2)));
    assert_eq!(tokens.next(), Some(tok(TokenType::Symbol(SymbolType::OpenBrace), 2, 3)));
    assert_eq!(tokens.next(), Some(tok(TokenType::Symbol(SymbolType::CloseBrace), 3, 4)));
    assert_eq!(tokens.next(), Some(tok(TokenType::Symbol(SymbolType::OpenBracket), 4, 5)));
    assert_eq!(tokens.next(), Some(tok(TokenType::Symbol(SymbolType::CloseBracket), 5, 6)));
    assert_eq!(tokens.next(), Some(tok(TokenType::Symbol(SymbolType::LessThan), 6, 7)));
    assert_eq!(tokens.next(), Some(tok(TokenType::Symbol(SymbolType::GreaterThan), 7, 8)));
    assert_eq!(tokens.next(), Some(tok(TokenType::Symbol(SymbolType::Semicolon), 8, 9)));
    assert_eq!(tokens.next(), Some(tok(TokenType::Symbol(SymbolType::Colon), 9, 10)));
    assert_eq!(tokens.next(), Some(tok(TokenType::Symbol(SymbolType::Dot), 10, 11)));
    assert_eq!(tokens.next(), Some(tok(TokenType::Symbol(SymbolType::Cross), 11, 12)));
    assert_eq!(tokens.next(), Some(tok(TokenType::Symbol(SymbolType::Dash), 12, 13)));
    assert_eq!(tokens.next(), Some(tok(TokenType::Symbol(SymbolType::Star), 13, 14)));
    assert_eq!(tokens.next(), Some(tok(TokenType::Symbol(SymbolType::Slash), 14, 15)));
    assert_eq!(tokens.next(), Some(tok(TokenType::Symbol(SymbolType::Percent), 15, 16)));
    assert_eq!(tokens.next(), Some(tok(TokenType::Symbol(SymbolType::Caret), 16, 17)));
    assert_eq!(tokens.next(), Some(tok(TokenType::Symbol(SymbolType::Hash), 17, 18)));
}

#[test]
fn unclosed_long_string_runs_to_the_end() {
    let mut tokens = tokenize_all("[[abc");
    assert_eq!(tokens.next(), Some(tok(TokenType::Invalid(InvalidType::UnclosedString), 0, 5)));
    assert_eq!(tokens.next(), None);
}

#[test]
fn tokens_without_trivia() {
    let tokens = satlight::tokens("a = 1 -- one", true).unwrap();
    assert_eq!(
        tokens,
        vec![
            tok(TokenType::Name("a".to_string()), 0, 1),
            tok(TokenType::Symbol(SymbolType::Equal), 2, 3),
            tok(TokenType::Number("1".to_string()), 4, 5),
        ]
    );
}

#[test]
fn tokens_with_trivia_cover_the_input() {
    let tokens = satlight::tokens("a = 1", false).unwrap();
    assert_eq!(tokens.len(), 5);
    let mut end = 1;
    for t in &tokens {
        assert_eq!(t.span.start, end);
        end = t.span.end;
    }
    assert_eq!(end, 6);
}

#[test]
fn tokens_stop_at_the_first_invalid_token() {
    let e = satlight::tokens("a \r b", false).unwrap_err();
    assert_eq!(e.message, InvalidType::UnexpectedCharacter('\r'));
    assert_eq!(e.position, satlight::location::Position { line: 1, column: 3, offset: 2 });
}

#[test]
fn keywords_and_names() {
    let mut tokens = tokenize_all("local localx");
    assert_eq!(tokens.next(), Some(tok(TokenType::Keyword(satlight::ast::KeywordType::Local), 0, 5)));
    assert_eq!(tokens.next(), Some(tok(TokenType::Trivia(" ".to_string()), 5, 6)));
    assert_eq!(tokens.next(), Some(tok(TokenType::Name("localx".to_string()), 6, 12)));
    assert_eq!(tokens.next(), None);
}

#[test]
fn skipping_trivia_drops_only_trivia() {
    let input = "local x = 1 -- c\n  return x";
    let all = satlight::tokens(input, false).unwrap();
    let kept: Vec<Token> = all
        .into_iter()
        .filter(|t| !matches!(t.token_type, TokenType::Trivia(_)))
        .collect();
    assert_eq!(satlight::tokens(input, true).unwrap(), kept);
}

#[test]
fn next_after_current_gives_the_current_token() {
    let mut stream = satlight::tokenizer::Tokens::new("a b", true);
    let current = stream.current().cloned();
    assert_eq!(current, Some(tok(TokenType::Name("a".to_string()), 0, 1)));
    assert_eq!(stream.next(), current);
    assert_eq!(stream.next(), Some(tok(TokenType::Name("b".to_string()), 2, 3)));
    assert_eq!(stream.next(), None);
}

#[test]
fn bumps_from_a_fresh_cursor_count_the_bytes() {
    let mut c = Cursor::new("a\nb");
    assert_eq!(c.offset(), 0);
    assert!(!c.is_eof());
    assert_eq!(c.bump(), b'a');
    assert_eq!(c.offset(), 1);
    assert!(!c.is_eof());
    assert_eq!(c.bump(), b'\n');
    assert_eq!(c.prev(), b'\n');
    assert!(!c.is_eof());
    assert_eq!(c.bump(), b'b');
    assert_eq!(c.offset(), 3);
    assert!(c.is_eof());
    assert_eq!(c.current(), 0);
}
