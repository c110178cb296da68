//! Tests of literal decoding: escapes, raw forms, and their rejections.

use finelex::char_sequences::Charseq;
use finelex::escape_processing::{interpret_hexadecimal_escape_digits, LiteralComponent,
    MaybeInterpretation, try_escape_interpretation, try_single_escape_interpretation};
use finelex::fine_tokens::FineTokenData;
use finelex::pretokenisation::rules::match_raw_string_literal_for_edition_2021;
use finelex::pretokenisation::PretokenData;
use finelex::tokenisation::{analyse, Analysis};
use finelex::Edition;

fn cs(s: &str) -> Charseq {
    Charseq::new(s.chars().collect())
}

fn single_token_data(s: &str, edition: Edition) -> FineTokenData {
    match analyse(&cs(s), edition) {
        Analysis::Accepts(_, mut tokens) => {
            assert_eq!(tokens.len(), 1, "expected one token for {s:?}");
            tokens.remove(0).data
        },
        Analysis::Rejects(_) => panic!("rejected: {s:?}"),
        Analysis::ModelError(_) => panic!("model error: {s:?}"),
    }
}

fn rejects(s: &str) -> bool {
    matches!(analyse(&cs(s), Edition::E2024), Analysis::Rejects(_))
}

#[test]
fn character_literals() {
    assert!(matches!(single_token_data("'a'", Edition::E2024),
        FineTokenData::CharacterLiteral { represented_character: 'a', .. }));
    assert!(matches!(single_token_data("'\\n'", Edition::E2024),
        FineTokenData::CharacterLiteral { represented_character: '\n', .. }));
    assert!(matches!(single_token_data("'\\u{1F600}'", Edition::E2024),
        FineTokenData::CharacterLiteral { represented_character: '\u{1F600}', .. }));
    assert!(matches!(single_token_data("'\\x41'", Edition::E2024),
        FineTokenData::CharacterLiteral { represented_character: 'A', .. }));
    assert!(matches!(single_token_data("'\"'", Edition::E2024),
        FineTokenData::CharacterLiteral { represented_character: '"', .. }));
}

#[test]
fn character_literal_rejections() {
    // surrogate escape
    assert!(rejects("'\\u{D800}'"));
    // out-of-range escape
    assert!(rejects("'\\u{110000}'"));
    // eight-bit escape has no represented character
    assert!(rejects("'\\xFF'"));
    // unknown escape
    assert!(rejects("'\\q'"));
    // escape-only character
    assert!(rejects("'\t'"));
    // underscore suffix
    assert!(rejects("'a'_"));
    // other suffixes are fine
    assert!(!rejects("'a'k"));
}

#[test]
fn byte_literals() {
    assert!(matches!(single_token_data("b'a'", Edition::E2024),
        FineTokenData::ByteLiteral { represented_byte: 97, .. }));
    assert!(matches!(single_token_data("b'\\xFF'", Edition::E2024),
        FineTokenData::ByteLiteral { represented_byte: 255, .. }));
    // unicode escape is rejected in a byte literal
    assert!(rejects("b'\\u{41}'"));
    // non-ASCII character is rejected
    assert!(rejects("b'\u{e9}'"));
}

#[test]
fn string_literals() {
    match single_token_data("\"a\\u{1F600}b\"", Edition::E2024) {
        FineTokenData::StringLiteral { represented_string, .. } => {
            let s: String = represented_string.chars().iter().collect();
            assert_eq!(s, "a\u{1F600}b");
        },
        _ => panic!("expected string literal"),
    }
    // a string continuation escape swallows the newline and leading spaces
    match single_token_data("\"a\\\n   b\"", Edition::E2024) {
        FineTokenData::StringLiteral { represented_string, .. } => {
            let s: String = represented_string.chars().iter().collect();
            assert_eq!(s, "ab");
        },
        _ => panic!("expected string literal"),
    }
    // bare CR is rejected
    assert!(rejects("\"a\rb\""));
    // a hexadecimal escape of 0x80 or above has no represented character
    assert!(rejects("\"\\x80\""));
}

#[test]
fn byte_string_literals() {
    match single_token_data("b\"a\\xFF\"", Edition::E2024) {
        FineTokenData::ByteStringLiteral { represented_bytes, .. } => {
            assert_eq!(represented_bytes, vec![97, 255]);
        },
        _ => panic!("expected byte string"),
    }
    assert!(rejects("b\"\\u{41}\""));
    assert!(rejects("b\"\u{e9}\""));
}

#[test]
fn c_string_literals() {
    match single_token_data("c\"A\\xC3\\u{e9}\"", Edition::E2024) {
        FineTokenData::CStringLiteral { represented_bytes, .. } => {
            assert_eq!(represented_bytes, vec![0x41, 0xC3, 0xC3, 0xA9]);
        },
        _ => panic!("expected C string"),
    }
    // a represented zero byte is rejected
    assert!(rejects("c\"\\0\""));
    assert!(rejects("c\"\\x00\""));
    assert!(rejects("c\"a\\u{0}b\""));
}

#[test]
fn raw_string_literals() {
    match single_token_data("r\"\\n\"", Edition::E2024) {
        FineTokenData::RawStringLiteral { represented_string, suffix } => {
            let s: String = represented_string.chars().iter().collect();
            assert_eq!(s, "\\n");
            assert!(suffix.is_empty());
        },
        _ => panic!("expected raw string"),
    }
    match single_token_data("r#\"a\"x\"#", Edition::E2024) {
        FineTokenData::RawStringLiteral { represented_string, .. } => {
            let s: String = represented_string.chars().iter().collect();
            assert_eq!(s, "a\"x");
        },
        _ => panic!("expected raw string"),
    }
}

#[test]
fn raw_string_hash_limits() {
    // exactly 255 hashes is accepted
    let mut accepted = String::from("r");
    accepted.push_str(&"#".repeat(255));
    accepted.push_str("\"x\"");
    accepted.push_str(&"#".repeat(255));
    assert!(!rejects(&accepted));
    // 256 hashes is rejected
    let mut refused = String::from("r");
    refused.push_str(&"#".repeat(256));
    refused.push_str("\"x\"");
    refused.push_str(&"#".repeat(256));
    assert!(rejects(&refused));
}

#[test]
fn raw_byte_and_c_strings() {
    match single_token_data("br\"ab\"", Edition::E2024) {
        FineTokenData::RawByteStringLiteral { represented_bytes, .. } => {
            assert_eq!(represented_bytes, vec![97, 98]);
        },
        _ => panic!("expected raw byte string"),
    }
    // non-ASCII rejected in raw byte strings
    assert!(rejects("br\"\u{e9}\""));
    match single_token_data("cr\"\u{e9}\"", Edition::E2024) {
        FineTokenData::RawCStringLiteral { represented_bytes, .. } => {
            assert_eq!(represented_bytes, vec![0xC3, 0xA9]);
        },
        _ => panic!("expected raw C string"),
    }
    // C-string raw prefixes do not exist in the earliest edition: the
    // prefix lexes as a plain identifier there
    match analyse(&cs("cr\"x\""), Edition::E2015) {
        Analysis::Accepts(_, tokens) => {
            assert_eq!(tokens.len(), 2);
            assert!(matches!(&tokens[0].data, FineTokenData::Ident { represented_ident }
                if represented_ident.chars().iter().collect::<String>() == "cr"));
        },
        _ => panic!("expected two tokens"),
    }
}

#[test]
fn raw_literal() {
    // ported shapes: a hashed raw literal with suffix, a trailing space kept
    // out of the match, and a two-hash form whose content holds quotes
    let input: Vec<char> = "r#\"a\u{a3})\"#suff ".chars().collect();
    let (len, data) = match_raw_string_literal_for_edition_2021(&input, 0).unwrap();
    assert_eq!(len, 12);
    match data {
        PretokenData::RawDoubleQuotedLiteral { literal_content, suffix, .. } => {
            assert_eq!(literal_content.chars().iter().collect::<String>(), "a\u{a3})");
            assert_eq!(suffix.chars().iter().collect::<String>(), "suff");
        },
        _ => panic!("expected raw literal"),
    }

    let input: Vec<char> = "r#\"a\u{a3})\"#suff".chars().collect();
    let (len, _) = match_raw_string_literal_for_edition_2021(&input, 0).unwrap();
    assert_eq!(len, input.len());

    let input: Vec<char> = "r#\"a\u{a3})\"#".chars().collect();
    let (len, _) = match_raw_string_literal_for_edition_2021(&input, 0).unwrap();
    assert_eq!(len, input.len());

    let input: Vec<char> = "r##\"a\u{a3})\" \"# \"##suff ".chars().collect();
    let (len, data) = match_raw_string_literal_for_edition_2021(&input, 0).unwrap();
    assert_eq!(len, input.len() - 1);
    match data {
        PretokenData::RawDoubleQuotedLiteral { literal_content, .. } => {
            assert_eq!(literal_content.chars().iter().collect::<String>(), "a\u{a3})\" \"# ");
        },
        _ => panic!("expected raw literal"),
    }

    // an input with no raw opener does not match
    let input: Vec<char> = "x".chars().collect();
    assert!(match_raw_string_literal_for_edition_2021(&input, 0).is_none());
}

#[test]
fn integer_literals() {
    match single_token_data("1_000u32", Edition::E2024) {
        FineTokenData::IntegerLiteral { digits, suffix, .. } => {
            assert_eq!(digits.chars().iter().collect::<String>(), "1_000");
            assert_eq!(suffix.chars().iter().collect::<String>(), "u32");
        },
        _ => panic!("expected integer"),
    }
    // a literal of underscores only has no digits
    assert!(rejects("0x_"));
}

#[test]
fn escape_interpretation_functions() {
    assert_eq!(interpret_hexadecimal_escape_digits('4', '1'), Some(0x41));
    assert_eq!(interpret_hexadecimal_escape_digits('g', '1'), None);
    match try_single_escape_interpretation(&cs("\\n")) {
        MaybeInterpretation::HasInterpretation(LiteralComponent::SimpleEscape {
            represented_character,
        }) => assert_eq!(represented_character, '\n'),
        _ => panic!("expected a simple escape"),
    }
    // a string continuation escape has no single-escape interpretation
    assert!(matches!(
        try_single_escape_interpretation(&cs("\\\n")),
        MaybeInterpretation::HasNoInterpretation
    ));
    match try_escape_interpretation(&cs("a\\x42")) {
        MaybeInterpretation::HasInterpretation(components) => {
            assert_eq!(components.len(), 2);
            assert!(matches!(components[0],
                LiteralComponent::NonEscape { represented_character: 'a' }));
            assert!(matches!(components[1],
                LiteralComponent::HexadecimalEscape { represented_byte: 0x42 }));
        },
        _ => panic!("expected an interpretation"),
    }
    // a malformed escape has no interpretation
    assert!(matches!(
        try_escape_interpretation(&cs("\\q")),
        MaybeInterpretation::HasNoInterpretation
    ));
}
