use satlight::ast::InvalidType;
use satlight::location::Position;
use satlight::messages::decimal_text;
use satlight::parse;
use satlight::parser::ParseErrorMessage;

#[test]
fn decimals() {
    assert_eq!(decimal_text(0), "0");
    assert_eq!(decimal_text(7), "7");
    assert_eq!(decimal_text(10), "10");
    assert_eq!(decimal_text(1234), "1234");
}

#[test]
fn position_text_is_line_and_column() {
    let p = Position { line: 3, column: 17, offset: 40 };
    assert_eq!(p.to_text(), "3:17");
}

#[test]
fn invalid_token_texts() {
    assert_eq!(InvalidType::UnexpectedCharacter('$').to_text(), "unexpected character `$`");
    assert_eq!(InvalidType::UnexpectedCharacter('é').to_text(), "unexpected character `é`");
    assert_eq!(InvalidType::UnclosedComment.to_text(), "unclosed comment");
    assert_eq!(InvalidType::UnclosedString.to_text(), "unclosed string");
    assert_eq!(InvalidType::InvalidShebang.to_text(), "invalid shebang");
}

#[test]
fn parse_error_texts() {
    assert_eq!(parse("break").unwrap_err().to_text(), "1:6: invalid usage of break");
    assert_eq!(parse("x = ").unwrap_err().to_text(), "1:5: expected <expr>");
    assert_eq!(parse("end").unwrap_err().to_text(), "1:4: unexpected token <unknown>");
    assert_eq!(
        ParseErrorMessage::Tokenization(InvalidType::UnclosedString).to_text(),
        "unclosed string"
    );
    assert_eq!(ParseErrorMessage::InvalidVarargsUse.to_text(), "invalid usage of varargs");
}

#[test]
fn tokenize_error_text() {
    let e = satlight::tokens("a \r b", false).unwrap_err();
    assert_eq!(e.to_text(), "1:3: unexpected character `\r`");
}
