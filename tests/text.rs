use chess_bot::text::{chars_of, is_space_char, join_from, push_decimal, same_text, split_words, starts_with};

#[test]
fn whitespace_matches_std() {
    for u in 0u32..0x3100 {
        if let Some(c) = char::from_u32(u) {
            assert_eq!(is_space_char(c), c.is_whitespace(), "U+{u:04X}");
        }
    }
    assert!(!is_space_char('\u{FEFF}'));
}

#[test]
fn split_matches_std() {
    for s in ["", "   ", "a", " a b  c ", "!ban <@X>  being\u{3000}rude\n", "\u{2003}x\u{85}y"] {
        let ours = split_words(s);
        let theirs: Vec<String> = s.split_whitespace().map(String::from).collect();
        assert_eq!(ours, theirs, "{s:?}");
    }
}

#[test]
fn join_and_decimal() {
    let ws: Vec<String> = vec!["a".into(), "bb".into(), "c".into()];
    assert_eq!(join_from(&ws, 0, ", "), "a, bb, c");
    assert_eq!(join_from(&ws, 1, " "), "bb c");
    assert_eq!(join_from(&ws, 3, " "), "");
    for n in [0u64, 7, 10, 404, 65535, u64::MAX] {
        let mut s = String::from("n=");
        push_decimal(&mut s, n);
        assert_eq!(s, format!("n={n}"));
    }
}

#[test]
fn prefix_and_equality() {
    let t = chars_of("!kick user");
    assert!(starts_with(&t, "!k"));
    assert!(starts_with(&t, ""));
    assert!(!starts_with(&t, "!ban"));
    assert!(!starts_with(&chars_of("!k"), "!kick"));
    assert!(same_text("abc", "abc"));
    assert!(!same_text("abc", "abd"));
    assert_eq!(chars_of("héllo"), vec!['h', 'é', 'l', 'l', 'o']);
}
