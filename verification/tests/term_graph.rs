use cmd_sandbox::graph::build_term_graph;
use cmd_sandbox::text::{i64_text, split_words, str_is_blank, u64_text};

#[test]
fn adjacent_words_are_linked_both_ways() {
    let graph = build_term_graph("rust verification tools");
    assert!(graph.has_edge("rust", "verification"));
    assert!(graph.has_edge("verification", "rust"));
    assert!(graph.has_edge("verification", "tools"));
    assert!(graph.has_edge("tools", "verification"));
    assert!(!graph.has_edge("rust", "tools"));
}

#[test]
fn terms_are_lowercased() {
    let graph = build_term_graph("Hello WORLD");
    assert!(graph.contains_term("hello"));
    assert!(graph.contains_term("world"));
    assert!(!graph.contains_term("Hello"));
    assert!(!graph.contains_term("WORLD"));
    assert!(graph.has_edge("hello", "world"));
}

#[test]
fn single_word_makes_no_edges() {
    let graph = build_term_graph("lonely");
    assert!(!graph.contains_term("lonely"));
}

#[test]
fn empty_text_makes_an_empty_graph() {
    let graph = build_term_graph("");
    assert!(!graph.contains_term(""));
    let graph = build_term_graph("   \t  ");
    assert!(!graph.contains_term(" "));
}

#[test]
fn repeated_words_reuse_their_entry() {
    let graph = build_term_graph("a b a c");
    assert!(graph.has_edge("a", "b"));
    assert!(graph.has_edge("b", "a"));
    assert!(graph.has_edge("a", "c"));
    assert!(graph.has_edge("c", "a"));
    assert!(!graph.has_edge("b", "c"));
    assert!(!graph.has_edge("a", "a"));
}

#[test]
fn split_words_drops_all_whitespace() {
    let words = split_words("  one\ttwo \n three  ");
    assert_eq!(words, vec!["one", "two", "three"]);
    let none = split_words(" \t ");
    assert!(none.is_empty());
}

#[test]
fn blank_detection_matches_unicode_whitespace() {
    assert!(str_is_blank(""));
    assert!(str_is_blank(" \t\r\n"));
    assert!(str_is_blank("\u{a0}\u{2028}\u{3000}"));
    assert!(!str_is_blank(" x "));
}

#[test]
fn decimal_rendering_is_exact() {
    assert_eq!(u64_text(0), "0");
    assert_eq!(u64_text(207), "207");
    assert_eq!(u64_text(u64::MAX), "18446744073709551615");
    assert_eq!(i64_text(0), "0");
    assert_eq!(i64_text(-3), "-3");
    assert_eq!(i64_text(i64::MIN), "-9223372036854775808");
}
