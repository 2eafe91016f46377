use grammar_api::api::AppError;
use grammar_api::check::{build_check_response, build_match, validate_payload, RawFinding};
use grammar_api::localize::get_context;

fn raw(message: &str, start: usize, end: usize, kind: &str, replacements: &[&str]) -> RawFinding {
    RawFinding {
        message: message.to_string(),
        start,
        end,
        kind: kind.to_string(),
        replacements: replacements.iter().map(|r| r.to_string()).collect(),
    }
}

#[test]
fn validate_accepts_small_text() {
    assert!(validate_payload("Hello, world!").is_ok());
}

#[test]
fn validate_accepts_empty_text() {
    assert!(validate_payload("").is_ok());
}

#[test]
fn validate_accepts_text_at_bound() {
    let text = "a".repeat(100 * 1024);
    assert!(validate_payload(&text).is_ok());
}

#[test]
fn validate_rejects_text_over_bound() {
    let text = "a".repeat(100 * 1024 + 1);
    assert_eq!(validate_payload(&text), Err(AppError::PayloadTooLarge));
}

#[test]
fn validate_counts_bytes_not_code_points() {
    // 51 201 two-byte code points exceed the 102 400-byte bound even though
    // the code-point count stays below it.
    let text = "é".repeat(51_201);
    assert_eq!(validate_payload(&text), Err(AppError::PayloadTooLarge));
    assert!(validate_payload(&"é".repeat(51_200)).is_ok());
}

#[test]
fn empty_findings_give_empty_matches() {
    let resp = build_check_response("The quick brown fox jumps over the lazy dog.", &vec![], 7);
    assert!(resp.matches.is_empty());
    assert_eq!(resp.metrics.processing_time_ms, 7);
}

#[test]
fn grammar_finding_is_assembled_exactly() {
    // The shape an engine reports for "This is an test.": the wrong
    // indefinite article spans code points 8..10.
    let text = "This is an test.";
    let findings = vec![raw(
        "Use `a` before a consonant sound.",
        8,
        10,
        "AnA",
        &["a"],
    )];
    let resp = build_check_response(text, &findings, 3);
    assert_eq!(resp.matches.len(), 1);
    let m = &resp.matches[0];
    assert_eq!(m.offset, 8);
    assert_eq!(m.length, 2);
    assert_eq!(m.message, "Use `a` before a consonant sound.");
    assert_eq!(m.replacements, vec!["a".to_string()]);
    assert_eq!(m.rule.id, "AnA");
    assert_eq!(m.rule.category, "grammar");
    // The whole text is shorter than the window radius on both sides.
    assert_eq!(m.context.text, text);
    assert_eq!(m.context.offset, 8);
    assert_eq!(m.context.length, 2);
}

#[test]
fn spelling_finding_is_assembled_exactly() {
    // The shape an engine reports for "The quik brown fox.": a misspelled
    // word at code points 4..8.
    let text = "The quik brown fox.";
    let findings = vec![raw(
        "Did you mean to spell `quik` this way?",
        4,
        8,
        "SpellCheck",
        &["quick", "quirk"],
    )];
    let resp = build_check_response(text, &findings, 2);
    assert_eq!(resp.matches.len(), 1);
    let m = &resp.matches[0];
    assert_eq!(m.offset, 4);
    assert_eq!(m.length, 4);
    assert_eq!(m.rule.category, "spelling");
    assert_eq!(m.replacements, vec!["quick".to_string(), "quirk".to_string()]);
}

#[test]
fn finding_order_is_preserved() {
    let text = "This is an test with erors and mispeled words.";
    let findings = vec![
        raw("article", 8, 10, "AnA", &["a"]),
        raw("spelling", 21, 26, "SpellCheck", &["errors"]),
        raw("spelling", 31, 39, "SpellCheck", &["misspelled"]),
    ];
    let resp = build_check_response(text, &findings, 1);
    assert_eq!(resp.matches.len(), 3);
    assert_eq!(resp.matches[0].offset, 8);
    assert_eq!(resp.matches[1].offset, 21);
    assert_eq!(resp.matches[2].offset, 31);
    assert_eq!(resp.matches[0].rule.category, "grammar");
    assert_eq!(resp.matches[1].rule.category, "spelling");
    assert_eq!(resp.matches[2].rule.category, "spelling");
}

#[test]
fn out_of_bounds_span_is_clamped() {
    let text = "short";
    let m = build_match(text, &raw("m", 100, 120, "K", &[]));
    assert_eq!(m.offset, 5);
    assert_eq!(m.length, 0);
    assert_eq!(m.context.text, "short");
}

#[test]
fn inverted_span_is_clamped_to_empty() {
    let text = "some words here";
    let m = build_match(text, &raw("m", 7, 3, "K", &[]));
    assert_eq!(m.offset, 7);
    assert_eq!(m.length, 0);
}

#[test]
fn span_bounds_hold_for_every_finding() {
    let text = "abcdef";
    for (s, e) in [(0usize, 0usize), (2, 4), (5, 6), (6, 6), (9, 2), (100, 200)] {
        let m = build_match(text, &raw("m", s, e, "K", &[]));
        assert!(m.offset + m.length <= text.chars().count());
        assert!(m.context.offset + m.context.length <= m.context.text.chars().count());
    }
}

#[test]
fn context_window_in_long_text() {
    // 60 'a's; span 30..32 gets exactly twenty code points on each side.
    let text = "a".repeat(60);
    let c = get_context(&text, 30, 32);
    assert_eq!(c.text.chars().count(), 42);
    assert_eq!(c.offset, 20);
    assert_eq!(c.length, 2);
}

#[test]
fn context_window_clamps_at_text_start() {
    let c = get_context("hello world", 0, 5);
    assert_eq!(c.text, "hello world");
    assert_eq!(c.offset, 0);
    assert_eq!(c.length, 5);
}

#[test]
fn context_window_clamps_at_text_end() {
    let text = "a".repeat(30);
    let c = get_context(&text, 25, 30);
    assert_eq!(c.text, "a".repeat(25));
    assert_eq!(c.offset, 20);
    assert_eq!(c.length, 5);
}

#[test]
fn context_window_zero_length_span() {
    let c = get_context("abc", 1, 1);
    assert_eq!(c.text, "abc");
    assert_eq!(c.offset, 1);
    assert_eq!(c.length, 0);
}

#[test]
fn context_window_counts_code_points_not_bytes() {
    // Each emoji is one code point but four bytes; the window and offsets
    // must count code points.
    let text = "😀😀😀😀😀 misteak 😀😀😀😀😀";
    // code points: 5 emoji, space, "misteak" at 6..13
    let c = get_context(text, 6, 13);
    assert_eq!(c.text, text);
    assert_eq!(c.offset, 6);
    assert_eq!(c.length, 7);
}

#[test]
fn context_never_splits_multibyte_characters() {
    let text = "ééééééééééééééééééééééééé misteak ééééééééééééééééééééééééé";
    // "misteak" spans code points 26..33
    let c = get_context(text, 26, 33);
    assert_eq!(c.text.chars().count(), 20 + 7 + 20);
    assert!(c.text.starts_with("éééééé"));
    assert_eq!(c.offset, 20);
    assert_eq!(c.length, 7);
}

#[test]
fn context_window_at_exact_radius() {
    let text = "b".repeat(45);
    let c = get_context(&text, 20, 25);
    assert_eq!(c.text, text);
    assert_eq!(c.offset, 20);
    assert_eq!(c.length, 5);
}
