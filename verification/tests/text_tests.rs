use mirofish::text::{find_paragraph_boundary, find_sentence_boundary, preprocess_text, split_text};

#[test]
fn test_split_text_basic() {
    let text = "This is sentence one. This is sentence two. This is sentence three.";
    let chunks = split_text(text, 30, 5);
    assert!(!chunks.is_empty());
    assert!(chunks.len() >= 1);
}

#[test]
fn test_split_text_empty() {
    let chunks = split_text("", 100, 10);
    assert!(chunks.is_empty());
}

#[test]
fn test_split_text_small() {
    let text = "Hello world";
    let chunks = split_text(text, 100, 10);
    assert_eq!(chunks.len(), 1);
    assert_eq!(chunks[0], "Hello world");
}

#[test]
fn test_split_text_with_paragraphs() {
    let text = "First paragraph.\n\nSecond paragraph.\n\nThird paragraph.";
    let chunks = split_text(text, 20, 5);
    assert!(!chunks.is_empty());
}

#[test]
fn test_preprocess_text() {
    let text = "  Hello  \r\n  World  \r\n  \r\n  Test  ";
    let processed = preprocess_text(text);
    assert!(processed.contains("Hello"));
    assert!(processed.contains("World"));
    assert!(processed.contains("Test"));
}

#[test]
fn preprocess_keeps_nonblank_trimmed_lines_joined_by_blank_lines() {
    let processed = preprocess_text("  Hello  \r\n  World  \r\n  \r\n  Test  ");
    assert_eq!(processed, "Hello\n\nWorld\n\nTest");
}

#[test]
fn chunks_are_trimmed_nonempty_bounded_and_taken_from_the_text() {
    let text = "This is sentence one. This is sentence two. This is sentence three.";
    let chunks = split_text(text, 30, 5);
    for c in &chunks {
        assert!(!c.is_empty());
        assert!(c.chars().count() <= 30);
        assert_eq!(c.trim(), c.as_str());
        assert!(text.contains(c.as_str()));
    }
}

#[test]
fn chunks_end_at_sentence_boundaries() {
    let text = "This is sentence one. This is sentence two. This is sentence three.";
    let chunks = split_text(text, 30, 5);
    assert_eq!(chunks[0], "This is sentence one.");
}

#[test]
fn short_text_is_one_trimmed_chunk() {
    let chunks = split_text("   padded text   ", 100, 10);
    assert_eq!(chunks, vec!["padded text".to_string()]);
}

#[test]
fn blank_text_gives_no_chunk() {
    let chunks = split_text("     ", 100, 10);
    assert!(chunks.is_empty());
}

#[test]
fn paragraph_boundary_is_after_the_last_blank_line() {
    let chars: Vec<char> = "ab\n\ncd\n\nef".chars().collect();
    assert_eq!(find_paragraph_boundary(&chars), Some(8));
    let none: Vec<char> = "abc".chars().collect();
    assert_eq!(find_paragraph_boundary(&none), None);
}

#[test]
fn sentence_boundary_is_after_the_last_sentence_end() {
    let chars: Vec<char> = "One. Two! Three".chars().collect();
    assert_eq!(find_sentence_boundary(&chars), Some(10));
    let none: Vec<char> = "no end here".chars().collect();
    assert_eq!(find_sentence_boundary(&none), None);
}

#[test]
fn preprocessing_twice_is_preprocessing_once() {
    let text = "  One \r\n\r\n two\tthree  \r  \n\nfour ";
    let once = preprocess_text(text);
    assert_eq!(once, "One\n\ntwo\tthree\n\nfour");
    assert_eq!(preprocess_text(&once), once);
}
