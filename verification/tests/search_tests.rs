use clipi::search::{copied_at_nanos, fts_query, one_line, plan_search, rank_fuzzy, SearchPlan};
use clipi::store::{ClipKind, ListRow};
use clipi::text::char_is_whitespace;
use fuzzy_matcher::skim::SkimMatcherV2;
use fuzzy_matcher::FuzzyMatcher;

fn row(id: i64, text: &str) -> ListRow {
    ListRow { id, kind: ClipKind::Text, text: text.to_string(), thumb_png: None, created_at: id }
}

#[test]
fn a_word_becomes_a_prefix_term() {
    assert_eq!(fts_query("fuzzy"), Some("fuzzy*".to_string()));
}

#[test]
fn words_are_cleaned_and_joined() {
    assert_eq!(fts_query("  hello, world! "), Some("hello* world*".to_string()));
    assert_eq!(fts_query("a_b-c.d e/f"), Some("a_b-c.d* ef*".to_string()));
    assert_eq!(fts_query("tab\tsep\nline"), Some("tab* sep* line*".to_string()));
}

#[test]
fn words_without_term_characters_are_dropped() {
    assert_eq!(fts_query("!!! ???"), None);
    assert_eq!(fts_query(""), None);
    assert_eq!(fts_query("   "), None);
    assert_eq!(fts_query("?? rust ##"), Some("rust*".to_string()));
}

#[test]
fn non_ascii_letters_are_kept() {
    assert_eq!(fts_query("café naïve"), Some("café* naïve*".to_string()));
}

#[test]
fn preview_is_the_first_line_trimmed() {
    assert_eq!(one_line("hello\nworld"), "hello");
    assert_eq!(one_line("   spaced out   "), "spaced out");
    assert_eq!(one_line("crlf line\r\nnext"), "crlf line");
    assert_eq!(one_line(""), "");
    assert_eq!(one_line("\nsecond"), "");
}

#[test]
fn long_previews_are_cut_at_96_characters() {
    let long: String = "x".repeat(100);
    let p = one_line(&long);
    assert_eq!(p, format!("{}...", "x".repeat(96)));
    let exact: String = "é".repeat(96);
    assert_eq!(one_line(&exact), exact);
}

#[test]
fn blank_search_lists_recent() {
    assert!(matches!(plan_search(""), SearchPlan::Recent));
    assert!(matches!(plan_search("   "), SearchPlan::Recent));
}

#[test]
fn image_search_lists_images() {
    assert!(matches!(plan_search("image"), SearchPlan::Images));
    assert!(matches!(plan_search(" IMAGE "), SearchPlan::Images));
    assert!(matches!(plan_search("ImAgE"), SearchPlan::Images));
    assert!(matches!(plan_search("images"), SearchPlan::FullText(_)));
}

#[test]
fn other_searches_are_full_text() {
    match plan_search(" fuzzy search ") {
        SearchPlan::FullText(q) => assert_eq!(q, "fuzzy* search*"),
        _ => panic!("expected a full-text search"),
    }
    assert!(matches!(plan_search("!!!"), SearchPlan::Recent));
}

#[test]
fn ranking_puts_matches_first_and_keeps_ties_in_order() {
    let rows = vec![row(1, "abc"), row(2, "fuzzy search rust"), row(3, "xyz"), row(4, "fuzzy")];
    let ranked = rank_fuzzy(rows, "fuzzy");
    let ids: Vec<i64> = ranked.iter().map(|r| r.id).collect();
    assert_eq!(ids.len(), 4);
    assert!(ids[0] == 2 || ids[0] == 4);
    assert!(ids[1] == 2 || ids[1] == 4);
    assert_eq!(&ids[2..], &[1, 3]);
}

#[test]
fn ranking_without_matches_keeps_order() {
    let rows = vec![row(5, "a"), row(6, "b"), row(7, "c")];
    let ranked = rank_fuzzy(rows, "zzz");
    let ids: Vec<i64> = ranked.iter().map(|r| r.id).collect();
    assert_eq!(ids, vec![5, 6, 7]);
    assert!(rank_fuzzy(Vec::new(), "q").is_empty());
}

#[test]
fn ranking_orders_by_score() {
    let texts = ["rust", "r u s t", "trust", "rusty nail", "no"];
    let rows: Vec<ListRow> = texts.iter().enumerate().map(|(i, t)| row(i as i64, t)).collect();
    let ranked = rank_fuzzy(rows, "rust");
    let m = SkimMatcherV2::default();
    let scores: Vec<i64> =
        ranked.iter().map(|r| m.fuzzy_match(&r.text, "rust").unwrap_or(0)).collect();
    for w in scores.windows(2) {
        assert!(w[0] >= w[1]);
    }
    for (a, b) in ranked.iter().zip(ranked.iter().skip(1)) {
        let sa = m.fuzzy_match(&a.text, "rust").unwrap_or(0);
        let sb = m.fuzzy_match(&b.text, "rust").unwrap_or(0);
        if sa == sb {
            assert!(a.id < b.id);
        }
    }
}

#[test]
fn timestamps_become_nanoseconds() {
    assert_eq!(copied_at_nanos(1_700_000_000_000_000), 1_700_000_000_000_000);
    assert_eq!(copied_at_nanos(999_999_999_999_999), 999_999_999_999_999_000);
    assert_eq!(copied_at_nanos(1_700_000_000_000_000_123), 1_700_000_000_000_000_123);
    assert_eq!(copied_at_nanos(1_000_000_000_000_000), 1_000_000_000_000_000_000);
    assert_eq!(copied_at_nanos(-5), -5000);
    assert_eq!(copied_at_nanos(-1_000_000_000_000_001), -1_000_000_000_000_001);
    assert_eq!(copied_at_nanos(0), 0);
}

#[test]
fn non_ascii_letters_stay_in_terms() {
    assert_eq!(fts_query("caf\u{e9} \u{00bf}qu\u{e9}?"), Some("caf\u{e9}* qu\u{e9}*".to_string()));
    assert_eq!(fts_query("a\u{3000}b"), Some("a* b*".to_string()));
}

#[test]
fn whitespace_is_the_unicode_set() {
    for c in ['\t', '\n', '\u{0B}', '\u{0C}', '\r', ' ', '\u{85}', '\u{A0}', '\u{1680}', '\u{2000}', '\u{200A}', '\u{2028}', '\u{2029}', '\u{202F}', '\u{205F}', '\u{3000}'] {
        assert!(char_is_whitespace(c));
        assert_eq!(char_is_whitespace(c), c.is_whitespace());
    }
    for c in ['a', '0', '_', '\u{200B}', '\u{1FFF}', '\u{FEFF}', '\u{0}'] {
        assert!(!char_is_whitespace(c));
        assert_eq!(char_is_whitespace(c), c.is_whitespace());
    }
}
