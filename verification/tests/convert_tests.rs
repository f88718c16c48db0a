use openai::convert::StreamConverter;
use openai::text::{prefix_len, starts_with, str_eq, take_until};

#[test]
fn snapshot_that_extends_emits_only_the_suffix() {
    let mut converter = StreamConverter::new();
    let first = converter.push("Hello");
    let second = converter.push("Hello world");
    assert_eq!(first, "Hello");
    assert_eq!(second, " world");
    assert_eq!(format!("{}{}", first, second), "Hello world");
    assert_eq!(converter.previous(), "Hello world");
}

#[test]
fn snapshot_without_common_prefix_is_emitted_whole() {
    let mut converter = StreamConverter::new();
    assert_eq!(converter.push("Hello"), "Hello");
    assert_eq!(converter.push("Hi"), "Hi");
    assert_eq!(converter.previous(), "Hi");
}

#[test]
fn shorter_snapshot_is_a_replacement() {
    let mut converter = StreamConverter::new();
    assert_eq!(converter.push("Hello world"), "Hello world");
    assert_eq!(converter.push("Hello"), "Hello");
    assert_eq!(converter.push("Hello"), "");
    assert_eq!(converter.push(""), "");
    assert_eq!(converter.push("x"), "x");
}

#[test]
fn suffix_is_cut_at_characters_not_bytes() {
    let mut converter = StreamConverter::new();
    assert_eq!(converter.push("héllo"), "héllo");
    assert_eq!(converter.push("héllo wörld ✓"), " wörld ✓");
    assert_eq!(converter.push("héllo wörld ✓✓"), "✓");
}

#[test]
fn chunks_of_growing_snapshots_rebuild_the_last_one() {
    let snapshots = ["T", "Th", "The", "The quick", "The quick brown fox", "The quick brown fox"];
    let mut converter = StreamConverter::new();
    let mut joined = String::new();
    for snapshot in snapshots {
        joined.push_str(&converter.push(snapshot));
    }
    assert_eq!(joined, "The quick brown fox");
}

#[test]
fn only_the_first_candidate_counts() {
    let mut converter = StreamConverter::new();
    let event = vec!["one".to_string(), "other".to_string()];
    assert_eq!(converter.push_event(&event), "one");
    let event = vec!["one two".to_string()];
    assert_eq!(converter.push_event(&event), " two");
}

#[test]
fn converters_of_two_streams_do_not_share_state() {
    let mut a = StreamConverter::new();
    let mut b = StreamConverter::new();
    assert_eq!(a.push("abc"), "abc");
    assert_eq!(b.push("abcd"), "abcd");
    assert_eq!(a.push("abcd"), "d");
}

#[test]
fn text_helpers() {
    assert!(str_eq("", ""));
    assert!(str_eq("añb", "añb"));
    assert!(!str_eq("a", "b"));
    assert!(!str_eq("a", "ab"));
    assert!(starts_with("/v1/models", "/v1/"));
    assert!(starts_with("abc", ""));
    assert!(!starts_with("/v", "/v1/"));
    assert_eq!(prefix_len("hé", "héllo"), Some(2));
    assert_eq!(prefix_len("", ""), Some(0));
    assert_eq!(prefix_len("x", "héllo"), None);
    assert_eq!(take_until("a=b; c", 2, ';'), "b");
    assert_eq!(take_until("a=b", 2, ';'), "b");
    assert_eq!(take_until("a=", 2, ';'), "");
    assert_eq!(take_until("é;é;x", 2, ';'), "é");
    assert_eq!(take_until(";;", 0, ';'), "");
}
