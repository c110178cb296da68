//! Tests of cleaning and fine-grained lexical analysis.

use finelex::char_sequences::Charseq;
use finelex::cleaning::{clean, CleaningOutcome};
use finelex::fine_tokens::{CommentStyle, FineToken, FineTokenData};
use finelex::tokenisation::{analyse, lex_as_single_token, Analysis};
use finelex::{CleaningMode, Edition};

fn cs(s: &str) -> Charseq {
    Charseq::new(s.chars().collect())
}

fn accept_tokens(s: &str, edition: Edition) -> Vec<FineToken> {
    match analyse(&cs(s), edition) {
        Analysis::Accepts(_, tokens) => tokens,
        Analysis::Rejects(_) => panic!("rejected"),
        Analysis::ModelError(_) => panic!("model error"),
    }
}

fn rejects(s: &str, edition: Edition) -> bool {
    matches!(analyse(&cs(s), edition), Analysis::Rejects(_))
}

fn extent_of(t: &FineToken) -> String {
    match &t.origin {
        finelex::tokens_common::Origin::Natural { extent } => extent.chars().iter().collect(),
        finelex::tokens_common::Origin::Synthetic { .. } => panic!("synthetic"),
    }
}

#[test]
fn idents_and_punctuation() {
    let tokens = accept_tokens("a + b", Edition::E2024);
    assert_eq!(tokens.len(), 5);
    assert!(matches!(&tokens[0].data, FineTokenData::Ident { represented_ident }
        if represented_ident.chars().iter().collect::<String>() == "a"));
    assert!(matches!(&tokens[1].data, FineTokenData::Whitespace));
    assert!(matches!(&tokens[2].data, FineTokenData::Punctuation { mark: '+' }));
    assert!(matches!(&tokens[4].data, FineTokenData::Ident { .. }));
}

#[test]
fn extents_concatenate_to_input() {
    let input = "fn main() { let x = 1.5e3; } // done";
    let tokens = accept_tokens(input, Edition::E2024);
    let mut rebuilt = String::new();
    for t in &tokens {
        rebuilt.push_str(&extent_of(t));
    }
    assert_eq!(rebuilt, input);
}

#[test]
fn ident_normalised_to_nfc() {
    // 'e' followed by a combining acute accent normalises to a single scalar
    let tokens = accept_tokens("e\u{301}x", Edition::E2024);
    assert_eq!(tokens.len(), 1);
    match &tokens[0].data {
        FineTokenData::Ident { represented_ident } => {
            let s: String = represented_ident.chars().iter().collect();
            assert_eq!(s, "\u{e9}x");
        },
        _ => panic!("expected ident"),
    }
}

#[test]
fn forbidden_raw_idents_rejected() {
    assert!(rejects("r#crate", Edition::E2024));
    assert!(rejects("r#self", Edition::E2024));
    assert!(rejects("r#super", Edition::E2024));
    assert!(rejects("r#Self", Edition::E2024));
    assert!(rejects("r#_", Edition::E2024));
    assert!(!rejects("r#fred", Edition::E2024));
}

#[test]
fn raw_lifetime_by_edition() {
    // lexes as a single raw lifetime in later editions
    let tokens = accept_tokens("'r#foo", Edition::E2021);
    assert_eq!(tokens.len(), 1);
    assert!(matches!(&tokens[0].data, FineTokenData::RawLifetimeOrLabel { name }
        if name.chars().iter().collect::<String>() == "foo"));
    // lexes as lifetime, hash, ident in the earliest edition
    let tokens = accept_tokens("'r#foo", Edition::E2015);
    assert_eq!(tokens.len(), 3);
    assert!(matches!(&tokens[0].data, FineTokenData::LifetimeOrLabel { name }
        if name.chars().iter().collect::<String>() == "r"));
    assert!(matches!(&tokens[1].data, FineTokenData::Punctuation { mark: '#' }));
}

#[test]
fn reserved_guards_by_edition() {
    assert!(rejects("##", Edition::E2024));
    assert!(!rejects("##", Edition::E2021));
    assert!(rejects("#\"x\"#", Edition::E2024));
}

#[test]
fn longest_match_numeric_exception() {
    // a hexadecimal literal ties with a decimal-integer reading, which the
    // resolution rule allows
    let tokens = accept_tokens("0x3", Edition::E2024);
    assert_eq!(tokens.len(), 1);
    assert!(matches!(&tokens[0].data,
        FineTokenData::IntegerLiteral { base: finelex::tokens_common::NumericBase::Hexadecimal, .. }));
}

#[test]
fn float_shapes() {
    let tokens = accept_tokens("1.5e3 1.5 1. 1e2", Edition::E2024);
    let floats: Vec<String> = tokens
        .iter()
        .filter_map(|t| match &t.data {
            FineTokenData::FloatLiteral { body, .. } => {
                Some(body.chars().iter().collect::<String>())
            },
            _ => None,
        })
        .collect();
    assert_eq!(floats, vec!["1.5e3", "1.5", "1.", "1e2"]);
}

#[test]
fn reserved_float_shapes_rejected() {
    assert!(rejects("1e", Edition::E2024));
    assert!(rejects("1e_", Edition::E2024));
    assert!(rejects("0b1.5", Edition::E2024));
    assert!(rejects("0b1e5", Edition::E2024));
}

#[test]
fn binary_and_octal_digits_checked() {
    assert!(rejects("0b2", Edition::E2024));
    assert!(rejects("0o8", Edition::E2024));
    assert!(rejects("0b__", Edition::E2024));
    assert!(!rejects("0b1_0", Edition::E2024));
}

#[test]
fn comment_styles() {
    let tokens = accept_tokens("//x\n///doc\n//!in\n////many\n/*b*/ /**/ /*!bi*/", Edition::E2024);
    let styles: Vec<CommentStyle> = tokens
        .iter()
        .filter_map(|t| match &t.data {
            FineTokenData::LineComment { style, .. } => Some(*style),
            FineTokenData::BlockComment { style, .. } => Some(*style),
            _ => None,
        })
        .collect();
    assert_eq!(
        styles,
        vec![
            CommentStyle::NonDoc,
            CommentStyle::OuterDoc,
            CommentStyle::InnerDoc,
            CommentStyle::NonDoc,
            CommentStyle::NonDoc,
            CommentStyle::NonDoc,
            CommentStyle::InnerDoc,
        ]
    );
}

#[test]
fn unterminated_block_comment_rejected() {
    assert!(rejects("/* open", Edition::E2024));
    assert!(!rejects("/* nested /* ok */ */", Edition::E2024));
}

#[test]
fn cleaning_bom_and_crlf() {
    let out = match clean(&cs("\u{feff}a\r\nb\rc"), Edition::E2024, CleaningMode::CleanShebang) {
        CleaningOutcome::Accepts(y) => y.chars().iter().collect::<String>(),
        _ => panic!("cleaning failed"),
    };
    assert_eq!(out, "a\nb\rc");
}

#[test]
fn cleaning_lone_bom() {
    let out = match clean(&cs("\u{feff}"), Edition::E2024, CleaningMode::CleanShebang) {
        CleaningOutcome::Accepts(y) => y.chars().iter().collect::<String>(),
        _ => panic!("cleaning failed"),
    };
    assert_eq!(out, "");
}

#[test]
fn cleaning_shebang_stripped() {
    let out = match clean(&cs("#!/bin/sh\nfn"), Edition::E2024, CleaningMode::CleanShebang) {
        CleaningOutcome::Accepts(y) => y.chars().iter().collect::<String>(),
        _ => panic!("cleaning failed"),
    };
    assert_eq!(out, "fn");
}

#[test]
fn cleaning_shebang_attribute_kept() {
    let out = match clean(&cs("#![feature]"), Edition::E2024, CleaningMode::CleanShebang) {
        CleaningOutcome::Accepts(y) => y.chars().iter().collect::<String>(),
        _ => panic!("cleaning failed"),
    };
    assert_eq!(out, "#![feature]");
    // a comment may intervene before the bracket
    let out = match clean(&cs("#! /*c*/ [feature]"), Edition::E2024, CleaningMode::CleanShebang) {
        CleaningOutcome::Accepts(y) => y.chars().iter().collect::<String>(),
        _ => panic!("cleaning failed"),
    };
    assert_eq!(out, "#! /*c*/ [feature]");
}

#[test]
fn cleaning_frontmatter() {
    let input = "---info\nkey: value\n---\nfn";
    let out = match clean(&cs(input), Edition::E2024, CleaningMode::CleanShebangAndFrontmatter) {
        CleaningOutcome::Accepts(y) => y.chars().iter().collect::<String>(),
        _ => panic!("cleaning failed"),
    };
    assert_eq!(out, "fn");
    // an opener without a close is rejected
    assert!(matches!(
        clean(&cs("---\nbody"), Edition::E2024, CleaningMode::CleanShebangAndFrontmatter),
        CleaningOutcome::Rejects(_)
    ));
    // without the frontmatter mode the dashes lex as punctuation
    assert!(matches!(
        clean(&cs("---\nbody"), Edition::E2024, CleaningMode::CleanShebang),
        CleaningOutcome::Accepts(_)
    ));
}

#[test]
fn cleaning_idempotent_on_samples() {
    for input in ["\u{feff}x\r\ny", "#!/bin/sh\nfn main() {}", "a + b"] {
        let once = match clean(&cs(input), Edition::E2024, CleaningMode::CleanShebang) {
            CleaningOutcome::Accepts(y) => y,
            _ => panic!("cleaning failed"),
        };
        let twice = match clean(&once, Edition::E2024, CleaningMode::CleanShebang) {
            CleaningOutcome::Accepts(y) => y,
            _ => panic!("cleaning failed"),
        };
        assert_eq!(
            once.chars().iter().collect::<String>(),
            twice.chars().iter().collect::<String>()
        );
    }
}

#[test]
fn single_token_lexing() {
    let t = lex_as_single_token(&cs("r\"abc\""), Edition::E2024).unwrap();
    assert!(matches!(&t.data, FineTokenData::RawStringLiteral { represented_string, .. }
        if represented_string.chars().iter().collect::<String>() == "abc"));
    assert!(lex_as_single_token(&cs("a b"), Edition::E2024).is_none());
    assert!(lex_as_single_token(&cs(""), Edition::E2024).is_none());
}

#[test]
fn empty_input_accepted() {
    let tokens = accept_tokens("", Edition::E2024);
    assert_eq!(tokens.len(), 0);
}
