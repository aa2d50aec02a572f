use chat_server::text::{chars_of, split_by, split_whitespace_tokens, text_eq};

#[test]
fn whitespace_tokens_skip_runs_of_white_space() {
    let tokens = split_whitespace_tokens("  Bearer \t abc\n def  ");
    assert_eq!(tokens, vec!["Bearer".to_string(), "abc".to_string(), "def".to_string()]);
}

#[test]
fn whitespace_tokens_of_blank_text_are_empty() {
    assert!(split_whitespace_tokens("").is_empty());
    assert!(split_whitespace_tokens(" \t\r\n").is_empty());
}

#[test]
fn whitespace_tokens_split_at_unicode_white_space() {
    let tokens = split_whitespace_tokens("a\u{3000}b\u{a0}c");
    assert_eq!(tokens, vec!["a".to_string(), "b".to_string(), "c".to_string()]);
}

#[test]
fn split_by_separator_keeps_empty_pieces() {
    assert_eq!(split_by("a:::b", ":::"), vec!["a".to_string(), "b".to_string()]);
    assert_eq!(split_by(":::", ":::"), vec!["".to_string(), "".to_string()]);
    assert_eq!(split_by("", ":"), vec!["".to_string()]);
    assert_eq!(split_by("abc", ":"), vec!["abc".to_string()]);
}

#[test]
fn split_by_matches_from_the_left_without_overlap() {
    assert_eq!(split_by("aaa", "aa"), vec!["".to_string(), "a".to_string()]);
    assert_eq!(split_by("a::::b", ":::"), vec!["a".to_string(), ":b".to_string()]);
    assert_eq!(split_by("x:y:z", ":"), "x:y:z".split(':').map(|s| s.to_string()).collect::<Vec<_>>());
}

#[test]
fn split_then_join_gives_the_text_back() {
    for s in ["", "a", "::", "a:b::c:", "héllo:wörld"] {
        assert_eq!(split_by(s, ":").join(":"), s);
    }
}

#[test]
fn chars_and_equality_of_texts() {
    assert_eq!(chars_of("héllo"), vec!['h', 'é', 'l', 'l', 'o']);
    assert!(text_eq("Basic", "Basic"));
    assert!(!text_eq("Basic", "basic"));
    assert!(!text_eq("Basic", "Basi"));
}

#[test]
fn whitespace_matches_the_standard_library() {
    for code in 0u32..0x3100 {
        if let Some(c) = char::from_u32(code) {
            let text = format!("a{}b", c);
            let expected: Vec<String> = text.split_whitespace().map(|t| t.to_string()).collect();
            assert_eq!(split_whitespace_tokens(&text), expected, "at U+{:04X}", code);
        }
    }
}
