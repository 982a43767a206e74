use chat::text::{contains_str, format_message, frame_line, mention_pattern, strip_line_end};

#[test]
fn strip_removes_trailing_newlines_only() {
    assert_eq!(strip_line_end("hello\n"), "hello");
    assert_eq!(strip_line_end("hello"), "hello");
    assert_eq!(strip_line_end("hello\n\n"), "hello");
    assert_eq!(strip_line_end("\n"), "");
    assert_eq!(strip_line_end(""), "");
    assert_eq!(strip_line_end("a\nb\n"), "a\nb");
}

#[test]
fn format_builds_the_wire_shape() {
    assert_eq!(format_message("alice", "hello @bob"), "alice: hello @bob");
    assert_eq!(format_message("bob", ""), "bob: ");
}

#[test]
fn mention_pattern_prefixes_the_name() {
    assert_eq!(mention_pattern("bob"), "@bob");
    assert_eq!(mention_pattern(""), "@");
}

#[test]
fn frame_appends_one_newline() {
    assert_eq!(frame_line("alice: hi"), "alice: hi\n");
    assert_eq!(frame_line(""), "\n");
}

#[test]
fn substring_search_finds_contained_patterns() {
    assert!(contains_str("hello @bob", "@bob"));
    assert!(contains_str("@bob", "@bob"));
    assert!(contains_str("x@boby", "@bob"));
    assert!(!contains_str("hello @bo", "@bob"));
    assert!(!contains_str("", "@bob"));
    assert!(contains_str("anything", ""));
    assert!(!contains_str("ab", "abc"));
}
