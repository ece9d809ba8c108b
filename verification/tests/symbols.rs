use satlight::ast::{KeywordType, SymbolType};
use std::str::FromStr;

#[test]
fn parse_symbols() {
    assert_eq!(SymbolType::from_str("...").unwrap(), SymbolType::DotDotDot);
    assert_eq!(SymbolType::from_str("..").unwrap(), SymbolType::DotDot);
    assert_eq!(SymbolType::from_str(".").unwrap(), SymbolType::Dot);
    assert_eq!(SymbolType::from_str("=").unwrap(), SymbolType::Equal);
    assert_eq!(SymbolType::from_str("==").unwrap(), SymbolType::EqualEqual);
    assert!(SymbolType::from_str("").is_err());
}

#[test]
fn symbol_text_round_trips() {
    for text in ["...", "..", ".", "->", ">=", "<=", "==", "~=", ">", "<", "=", "(", ")", "[", "]", "{", "}", ";", ":", ",", "+", "-", "*", "/", "%", "^", "#", "|", "&", "::", "?", "@metatable"] {
        let symbol = SymbolType::from_str(text).unwrap();
        assert_eq!(symbol.to_str(), text);
    }
}

#[test]
fn keywords_parse_from_their_text() {
    assert_eq!(KeywordType::from_str("function").unwrap(), KeywordType::Function);
    assert_eq!(KeywordType::from_str("elseif").unwrap(), KeywordType::ElseIf);
    assert_eq!(KeywordType::from_str("until").unwrap(), KeywordType::Until);
    assert_eq!(KeywordType::from_str("while").unwrap().to_str(), "while");
    assert_eq!(KeywordType::from_str("While"), Err("unknown lua symbol"));
    assert!(KeywordType::from_str("").is_err());
}

#[test]
fn unknown_symbols_are_errors() {
    assert_eq!(SymbolType::from_str("...."), Err("unknown lua symbol"));
    assert_eq!(SymbolType::from_str("!"), Err("unknown lua symbol"));
}
