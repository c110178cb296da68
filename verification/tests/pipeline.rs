//! Tests of the structural pipeline: forests, coarsening, doc lowering, and
//! regularisation.

use finelex::char_sequences::Charseq;
use finelex::combination::{coarsen, CoarseToken, CoarseTokenData, Spacing};
use finelex::comparison::{compare, regularised_from_peg, Comparison, Verdict};
use finelex::decl_lexing::{stringified_via_peg, DeclVerdict};
use finelex::doc_lowering::{lower_doc_comments, stringified_as_raw_literal};
use finelex::fine_tokens::{FineToken, FineTokenData};
use finelex::regular_tokens::{RegularToken, RegularTokenData};
use finelex::tokenisation::{analyse, lex_as_single_token, Analysis};
use finelex::tree_construction::construct_forest;
use finelex::trees::{Forest, GroupKind, Tree};
use finelex::{CleaningMode, Edition, Lowering};

fn cs(s: &str) -> Charseq {
    Charseq::new(s.chars().collect())
}

fn tokens_of(s: &str) -> Vec<FineToken> {
    match analyse(&cs(s), Edition::E2024) {
        Analysis::Accepts(_, tokens) => tokens,
        _ => panic!("analysis failed for {s:?}"),
    }
}

fn coarse_stream(s: &str) -> Vec<CoarseToken> {
    let forest = construct_forest(&tokens_of(s)).unwrap();
    let coarse = coarsen(&forest);
    coarse
        .contents
        .into_iter()
        .map(|t| match t {
            Tree::Token(tok) => tok,
            Tree::Group(..) => panic!("unexpected group"),
        })
        .collect()
}

#[test]
fn forest_groups_nest() {
    let forest = construct_forest(&tokens_of("a ( b [ c ] ) d")).unwrap();
    assert_eq!(forest.contents.len(), 5);
    match &forest.contents[2] {
        Tree::Group(GroupKind::Parenthesised, inner) => {
            assert_eq!(inner.contents.len(), 5);
            match &inner.contents[3] {
                Tree::Group(GroupKind::Bracketed, innermost) => {
                    assert_eq!(innermost.contents.len(), 3);
                },
                _ => panic!("expected bracketed group"),
            }
        },
        _ => panic!("expected parenthesised group"),
    }
}

#[test]
fn forest_rejects_unbalanced() {
    assert!(construct_forest(&tokens_of("( a")).is_err());
    assert!(construct_forest(&tokens_of(") a")).is_err());
    assert!(construct_forest(&tokens_of("( a ]")).is_err());
    assert!(construct_forest(&tokens_of("{ [ } ]")).is_err());
}

#[test]
fn three_tokens_spaced_alone() {
    let stream = coarse_stream("a + b");
    assert_eq!(stream.len(), 3);
    assert!(matches!(&stream[0].data, CoarseTokenData::Ident { represented_ident }
        if represented_ident.chars().iter().collect::<String>() == "a"));
    assert!(matches!(&stream[1].data, CoarseTokenData::Punctuation { marks }
        if marks.chars().iter().collect::<String>() == "+"));
    assert!(stream.iter().all(|t| t.spacing == Spacing::Alone));
}

#[test]
fn plus_equals_glues() {
    let stream = coarse_stream("x += 1_000u32");
    assert_eq!(stream.len(), 3);
    assert!(matches!(&stream[1].data, CoarseTokenData::Punctuation { marks }
        if marks.chars().iter().collect::<String>() == "+="));
    match &stream[2].data {
        CoarseTokenData::IntegerLiteral { digits, suffix, .. } => {
            assert_eq!(digits.chars().iter().collect::<String>(), "1_000");
            assert_eq!(suffix.chars().iter().collect::<String>(), "u32");
        },
        _ => panic!("expected integer literal"),
    }
}

#[test]
fn triple_glue_and_spacing_law() {
    let stream = coarse_stream("a ..= b .. = c");
    // `..=` glues to a triple; the later `..` and `=` are kept apart by the
    // whitespace between them
    let puncts: Vec<String> = stream
        .iter()
        .filter_map(|t| match &t.data {
            CoarseTokenData::Punctuation { marks } => {
                Some(marks.chars().iter().collect::<String>())
            },
            _ => None,
        })
        .collect();
    assert_eq!(puncts, vec!["..=", "..", "="]);
    // joint spacing appears exactly where the next token touches this one
    let stream = coarse_stream("a+ b");
    assert_eq!(stream[0].spacing, Spacing::Joint);
    assert_eq!(stream[1].spacing, Spacing::Alone);
}

#[test]
fn glue_respects_dropped_whitespace() {
    // `+ =` with whitespace between does not glue
    let stream = coarse_stream("a + = b");
    let puncts: Vec<String> = stream
        .iter()
        .filter_map(|t| match &t.data {
            CoarseTokenData::Punctuation { marks } => {
                Some(marks.chars().iter().collect::<String>())
            },
            _ => None,
        })
        .collect();
    assert_eq!(puncts, vec!["+", "="]);
}

#[test]
fn doc_comment_lowering() {
    let tokens = tokens_of("///doc\nfn");
    let lowered = lower_doc_comments(&tokens, Edition::E2024);
    let datas: Vec<&FineTokenData> = lowered.iter().map(|t| &t.data).collect();
    // # [space] [ doc = [space] r"doc" ] then the original newline and ident
    assert!(matches!(datas[0], FineTokenData::Punctuation { mark: '#' }));
    assert!(matches!(datas[1], FineTokenData::Whitespace));
    assert!(matches!(datas[2], FineTokenData::Punctuation { mark: '[' }));
    assert!(matches!(datas[3], FineTokenData::Ident { represented_ident }
        if represented_ident.chars().iter().collect::<String>() == "doc"));
    assert!(matches!(datas[4], FineTokenData::Punctuation { mark: '=' }));
    assert!(matches!(datas[5], FineTokenData::Whitespace));
    assert!(matches!(datas[6], FineTokenData::RawStringLiteral { represented_string, .. }
        if represented_string.chars().iter().collect::<String>() == "doc"));
    assert!(matches!(datas[7], FineTokenData::Punctuation { mark: ']' }));
    // inner doc-comments gain a `!`
    let tokens = tokens_of("//!doc\n");
    let lowered = lower_doc_comments(&tokens, Edition::E2024);
    assert!(matches!(&lowered[2].data, FineTokenData::Punctuation { mark: '!' }));
}

#[test]
fn doc_lowering_round_trip() {
    // the stringified form of the synthetic raw string lexes back to a
    // single raw-string token with the original body
    for body in ["doc", "with \" quote", "with \"# hashes"] {
        let source = format!("///{body}\n");
        let tokens = tokens_of(&source);
        let lowered = lower_doc_comments(&tokens, Edition::E2024);
        let stringified = match &lowered[6].origin {
            finelex::tokens_common::Origin::Synthetic { stringified, .. } => stringified.clone(),
            _ => panic!("expected a synthetic token"),
        };
        let relexed = lex_as_single_token(&stringified, Edition::E2024).unwrap();
        match &relexed.data {
            FineTokenData::RawStringLiteral { represented_string, .. } => {
                assert_eq!(represented_string.chars().iter().collect::<String>(), body);
            },
            _ => panic!("expected a raw string"),
        }
    }
}

#[test]
fn minimal_hash_counts() {
    let plain = stringified_as_raw_literal(&cs("doc"), Edition::E2024);
    assert_eq!(plain.chars().iter().collect::<String>(), "r\"doc\"");
    let quoted = stringified_as_raw_literal(&cs("a\"b"), Edition::E2024);
    assert_eq!(quoted.chars().iter().collect::<String>(), "r#\"a\"b\"#");
    let hashed = stringified_as_raw_literal(&cs("a\"#b"), Edition::E2024);
    assert_eq!(hashed.chars().iter().collect::<String>(), "r##\"a\"#b\"##");
}

fn regular_stream(s: &str, lowering: Lowering) -> Vec<RegularToken> {
    match regularised_from_peg(&cs(s), Edition::E2024, CleaningMode::CleanShebang, lowering) {
        Verdict::Accepts(f) => f
            .contents
            .into_iter()
            .map(|t| match t {
                Tree::Token(tok) => tok,
                Tree::Group(..) => panic!("unexpected group"),
            })
            .collect(),
        _ => panic!("pipeline failed for {s:?}"),
    }
}

#[test]
fn regularised_attribute_input() {
    // shebang cleaning leaves an inner attribute untouched
    let toks = match regularised_from_peg(
        &cs("#![feature]"),
        Edition::E2024,
        CleaningMode::CleanShebang,
        Lowering::NoLowering,
    ) {
        Verdict::Accepts(f) => f.contents,
        _ => panic!("pipeline failed"),
    };
    // #, !, then a bracketed group holding the ident
    assert_eq!(toks.len(), 3);
    assert!(matches!(&toks[2], Tree::Group(GroupKind::Bracketed, _)));
}

#[test]
fn regularised_c_string_gains_nul() {
    let stream = regular_stream("c\"ab\"", Lowering::NoLowering);
    match &stream[0].data {
        RegularTokenData::CstringLiteral { represented_bytes, .. } => {
            assert_eq!(represented_bytes, &vec![97, 98, 0]);
        },
        _ => panic!("expected C string"),
    }
}

#[test]
fn regularised_forbidden_suffix() {
    let stream = regular_stream("\"x\"abc", Lowering::NoLowering);
    match &stream[0].data {
        RegularTokenData::LiteralWithForbiddenSuffix { suffix } => {
            assert_eq!(suffix.chars().iter().collect::<String>(), "abc");
        },
        _ => panic!("expected a forbidden-suffix literal"),
    }
}

#[test]
fn regularised_lifetime_symbol() {
    let stream = regular_stream("'a", Lowering::NoLowering);
    match &stream[0].data {
        RegularTokenData::LifetimeOrLabel { symbol, .. } => {
            assert_eq!(symbol.chars().iter().collect::<String>(), "'a");
        },
        _ => panic!("expected a lifetime"),
    }
}

#[test]
fn comparing_verdicts() {
    let a = regularised_from_peg(
        &cs("a + b"),
        Edition::E2024,
        CleaningMode::CleanShebang,
        Lowering::NoLowering,
    );
    let b = regularised_from_peg(
        &cs("a  +  b"),
        Edition::E2024,
        CleaningMode::CleanShebang,
        Lowering::NoLowering,
    );
    // wider whitespace leaves the regularised tokens unchanged
    assert_eq!(compare(&a, &b), Comparison::Agree);
    let d = regularised_from_peg(
        &cs("a - b"),
        Edition::E2024,
        CleaningMode::CleanShebang,
        Lowering::NoLowering,
    );
    assert_eq!(compare(&a, &d), Comparison::Differ);
    let c = regularised_from_peg(
        &cs("a + b"),
        Edition::E2024,
        CleaningMode::CleanShebang,
        Lowering::NoLowering,
    );
    assert_eq!(compare(&a, &c), Comparison::Agree);
    let bad1 = regularised_from_peg(
        &cs("'\\q'"),
        Edition::E2024,
        CleaningMode::CleanShebang,
        Lowering::NoLowering,
    );
    let bad2 = regularised_from_peg(
        &cs("( ]"),
        Edition::E2024,
        CleaningMode::CleanShebang,
        Lowering::NoLowering,
    );
    assert_eq!(compare(&bad1, &bad2), Comparison::Agree);
    assert_eq!(compare(&a, &bad1), Comparison::Differ);
}

#[test]
fn lowered_doc_comment_pipeline() {
    // with lowering, the doc comment becomes `# [ doc = r"doc" ]`
    let toks = match regularised_from_peg(
        &cs("///doc\nfn"),
        Edition::E2024,
        CleaningMode::CleanShebang,
        Lowering::LowerDocComments,
    ) {
        Verdict::Accepts(f) => f.contents,
        _ => panic!("pipeline failed"),
    };
    // #, group [doc = r"doc"], ident fn
    assert_eq!(toks.len(), 3);
    assert!(matches!(&toks[0], Tree::Token(t)
        if matches!(&t.data, RegularTokenData::Punctuation { marks }
            if marks.chars().iter().collect::<String>() == "#")));
    match &toks[1] {
        Tree::Group(GroupKind::Bracketed, inner) => {
            assert_eq!(inner.contents.len(), 3);
        },
        _ => panic!("expected bracketed group"),
    }
    // without lowering, the doc comment survives as a token
    let toks = regular_stream("///doc\nfn", Lowering::NoLowering);
    assert!(matches!(&toks[0].data, RegularTokenData::DocComment { body, .. }
        if body.chars().iter().collect::<String>() == "doc"));
}

#[test]
fn stringified_rendering() {
    let forest = match stringified_via_peg(&cs("r#struct 1_000u32 ///d\u{f6}c\n"), Edition::E2024)
    {
        DeclVerdict::Accepts(f) => f,
        _ => panic!("stringification failed"),
    };
    let rendered: Vec<String> = forest
        .contents
        .iter()
        .map(|t| match t {
            Tree::Token(s) => s.chars().iter().collect(),
            Tree::Group(..) => String::from("(group)"),
        })
        .collect();
    // the raw identifier keeps its marker, the literal its written form, and
    // the lowered doc-comment renders as attribute tokens
    assert_eq!(rendered[0], "r#struct");
    assert_eq!(rendered[1], "1_000u32");
    assert_eq!(rendered[2], "#");
    assert_eq!(rendered[3], "(group)");
    match &forest.contents[3] {
        Tree::Group(GroupKind::Bracketed, inner) => {
            let inner_r: Vec<String> = inner
                .contents
                .iter()
                .map(|t| match t {
                    Tree::Token(s) => s.chars().iter().collect(),
                    Tree::Group(..) => String::from("(group)"),
                })
                .collect();
            assert_eq!(inner_r, vec!["doc", "=", "r\"d\u{f6}c\""]);
        },
        _ => panic!("expected a bracketed group"),
    }
}
