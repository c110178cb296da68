//! Boundary cases and smaller utility functions.

use finelex::char_sequences::{concat_charseqs, Charseq};
use finelex::cleaning::{clean, remove_bom, replace_crlf, CleaningOutcome};
use finelex::combination::{coarsen, CoarseTokenData};
use finelex::fine_tokens::FineTokenData;
use finelex::pretokenisation::{lex_one_pretoken, pretokenise, LexOutcome, PretokenData,
    PretokeniseEnd};
use finelex::tokenisation::{analyse, first_nonwhitespace_token, Analysis};
use finelex::tree_construction::construct_forest;
use finelex::tree_flattening::{flatten, FlatItem};
use finelex::trees::{GroupKind, Tree};
use finelex::unicode::{is_xid_continue, is_xid_start};
use finelex::utils::escape_for_display;
use finelex::{CleaningMode, Edition};

fn cs(s: &str) -> Charseq {
    Charseq::new(s.chars().collect())
}

fn coarse_marks(s: &str) -> Vec<String> {
    let tokens = match analyse(&cs(s), Edition::E2024) {
        Analysis::Accepts(_, tokens) => tokens,
        _ => panic!("analysis failed"),
    };
    let forest = construct_forest(&tokens).unwrap();
    coarsen(&forest)
        .contents
        .iter()
        .map(|t| match t {
            Tree::Token(tok) => match &tok.data {
                CoarseTokenData::Punctuation { marks } => marks.chars().iter().collect(),
                CoarseTokenData::Ident { represented_ident } => {
                    represented_ident.chars().iter().collect()
                },
                CoarseTokenData::IntegerLiteral { digits, .. } => {
                    digits.chars().iter().collect()
                },
                CoarseTokenData::FloatLiteral { body, .. } => body.chars().iter().collect(),
                _ => String::from("?"),
            },
            Tree::Group(..) => String::from("()"),
        })
        .collect()
}

#[test]
fn final_dot_float_only_without_certain_followers() {
    // a trailing dot makes a float only when not followed by a second dot,
    // an underscore, or an identifier start
    assert_eq!(coarse_marks("1."), vec!["1."]);
    assert_eq!(coarse_marks("1..2"), vec!["1", "..", "2"]);
    assert_eq!(coarse_marks("1._x"), vec!["1", ".", "_x"]);
    assert_eq!(coarse_marks("1.x"), vec!["1", ".", "x"]);
    assert_eq!(coarse_marks("1.5"), vec!["1.5"]);
}

#[test]
fn crlf_only_file() {
    let out = match clean(&cs("\r\n"), Edition::E2024, CleaningMode::CleanShebang) {
        CleaningOutcome::Accepts(y) => y.chars().iter().collect::<String>(),
        _ => panic!("cleaning failed"),
    };
    assert_eq!(out, "\n");
    assert!(matches!(analyse(&cs("\n"), Edition::E2024), Analysis::Accepts(..)));
}

#[test]
fn pretokenise_covers_input() {
    let input = cs("let x = 7;");
    let result = pretokenise(&input, Edition::E2024);
    assert_eq!(result.end, PretokeniseEnd::Complete);
    let total: usize = result.pretokens.iter().map(|p| p.extent.len()).sum();
    assert_eq!(total, input.len());
}

#[test]
fn pretokenise_stops_where_no_rule_matches() {
    let input = cs("a \u{0}");
    let result = pretokenise(&input, Edition::E2024);
    assert_eq!(result.end, PretokeniseEnd::NoRuleMatched);
    assert_eq!(result.pretokens.len(), 2);
}

#[test]
fn one_pretoken_at_a_time() {
    let input: Vec<char> = "fn main".chars().collect();
    match lex_one_pretoken(Edition::E2024, &input, 0) {
        LexOutcome::Lexed(p) => {
            assert_eq!(p.extent.chars().iter().collect::<String>(), "fn");
            assert!(matches!(p.data, PretokenData::Ident { .. }));
        },
        _ => panic!("expected a pretoken"),
    }
    match lex_one_pretoken(Edition::E2024, &input, 2) {
        LexOutcome::Lexed(p) => {
            assert!(matches!(p.data, PretokenData::Whitespace));
        },
        _ => panic!("expected whitespace"),
    }
}

#[test]
fn first_nonwhitespace_skips_comments() {
    let t = first_nonwhitespace_token(&cs("  /* c */ [x]"), Edition::E2024).unwrap();
    assert!(matches!(t.data, FineTokenData::Punctuation { mark: '[' }));
    assert!(first_nonwhitespace_token(&cs("  /* c */"), Edition::E2024).is_none());
}

#[test]
fn xid_wrappers_follow_the_tables() {
    assert!(is_xid_start('a'));
    assert!(is_xid_start('\u{3b1}'));
    assert!(!is_xid_start('1'));
    assert!(!is_xid_start('_'));
    assert!(is_xid_continue('1'));
    assert!(is_xid_continue('_'));
    assert!(!is_xid_continue(' '));
}

#[test]
fn unicode_identifiers_lex() {
    let tokens = match analyse(&cs("\u{3b1}\u{3b2}1 x\u{661}"), Edition::E2024) {
        Analysis::Accepts(_, tokens) => tokens,
        _ => panic!("analysis failed"),
    };
    assert!(matches!(&tokens[0].data, FineTokenData::Ident { .. }));
}

#[test]
fn charseq_operations() {
    let a = cs("ab");
    let b = cs("cd");
    let joined = concat_charseqs(&a, &b);
    assert_eq!(joined.chars().iter().collect::<String>(), "abcd");
    assert!(joined.contains('c'));
    assert!(!joined.contains('x'));
    let mut trimmed = joined.clone();
    trimmed.remove_range(1, 3);
    assert_eq!(trimmed.chars().iter().collect::<String>(), "ad");
    assert_eq!(joined.slice(1, 3).chars().iter().collect::<String>(), "bc");
    assert!(cs("").is_empty());
    assert_eq!(remove_bom(&cs("\u{feff}x")).chars().iter().collect::<String>(), "x");
    assert_eq!(replace_crlf(&cs("a\r\n\r\nb")).chars().iter().collect::<String>(), "a\n\nb");
}

#[test]
fn nfc_wrapper_normalises() {
    // a decomposed pair becomes one composed scalar, and normalising again
    // changes nothing
    let once = cs("e\u{301}").nfc();
    assert_eq!(once.chars().iter().collect::<String>(), "\u{e9}");
    let twice = once.nfc();
    assert_eq!(twice.chars().iter().collect::<String>(), "\u{e9}");
}

#[test]
fn display_escaping() {
    let shown = escape_for_display(&cs("a\tb\u{1F600}"));
    let s: String = shown.chars().iter().collect();
    assert_eq!(s, "a\u{2039}09\u{203a}b\u{2039}F600\u{203a}");
}

#[test]
fn flatten_restores_order() {
    let tokens = match analyse(&cs("a(b)c"), Edition::E2024) {
        Analysis::Accepts(_, tokens) => tokens,
        _ => panic!("analysis failed"),
    };
    let forest = construct_forest(&tokens).unwrap();
    let flat = flatten(&forest);
    let shapes: Vec<String> = flat
        .iter()
        .map(|item| match item {
            FlatItem::Token(t) => match &t.data {
                FineTokenData::Ident { represented_ident } => {
                    represented_ident.chars().iter().collect()
                },
                _ => String::from("?"),
            },
            FlatItem::OpenDelimiter(k) => String::from(k.open_char()),
            FlatItem::CloseDelimiter(k) => String::from(k.close_char()),
        })
        .collect();
    assert_eq!(shapes, vec!["a", "(", "b", ")", "c"]);
    assert_eq!(GroupKind::for_open_char('('), Some(GroupKind::Parenthesised));
    assert_eq!(GroupKind::for_close_char('}'), Some(GroupKind::Braced));
    assert_eq!(GroupKind::for_open_char('x'), None);
}

#[test]
fn reserved_lifetime_prefix_in_later_editions() {
    assert!(matches!(analyse(&cs("'ab#"), Edition::E2021), Analysis::Rejects(_)));
    assert!(matches!(analyse(&cs("'ab#"), Edition::E2015), Analysis::Accepts(..)));
}

#[test]
fn reserved_prefixes() {
    // an identifier directly followed by a quote is reserved in later
    // editions but lexes in the earliest
    assert!(matches!(analyse(&cs("foo\"bar\""), Edition::E2024), Analysis::Rejects(_)));
    assert!(matches!(analyse(&cs("foo\"bar\""), Edition::E2015), Analysis::Accepts(..)));
    // unterminated raw-string openers are reserved everywhere
    assert!(matches!(analyse(&cs("r#no"), Edition::E2015), Analysis::Accepts(..)));
    assert!(matches!(analyse(&cs("r# x"), Edition::E2015), Analysis::Rejects(_)));
}

#[test]
fn shebang_without_newline_strips_everything() {
    let out = match clean(&cs("#!/bin/sh"), Edition::E2024, CleaningMode::CleanShebang) {
        CleaningOutcome::Accepts(y) => y.chars().iter().collect::<String>(),
        _ => panic!("cleaning failed"),
    };
    assert_eq!(out, "");
}

#[test]
fn frontmatter_close_must_match_length() {
    // the closing dash run must have the opener's exact length
    let input = "---\nbody\n----\n---\nfn";
    let out = match clean(
        &cs(input),
        Edition::E2024,
        CleaningMode::CleanShebangAndFrontmatter,
    ) {
        CleaningOutcome::Accepts(y) => y.chars().iter().collect::<String>(),
        _ => panic!("cleaning failed"),
    };
    assert_eq!(out, "fn");
    // a longer run never closes a shorter opener
    assert!(matches!(
        clean(&cs("---\nbody\n----\n"), Edition::E2024, CleaningMode::CleanShebangAndFrontmatter),
        CleaningOutcome::Rejects(_)
    ));
}

#[test]
fn underscore_lifetime_lexes() {
    let tokens = match analyse(&cs("'_"), Edition::E2024) {
        Analysis::Accepts(_, tokens) => tokens,
        _ => panic!("analysis failed"),
    };
    assert!(matches!(&tokens[0].data, FineTokenData::LifetimeOrLabel { name }
        if name.chars().iter().collect::<String>() == "_"));
}
