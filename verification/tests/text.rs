use access_window::text::{
    decimal_string, is_blank, is_white_space, same_text, split_str, strip_prefix,
    trim_str,
};

#[test]
fn white_space_agrees_with_std_for_every_char() {
    for u in 0u32..=0x10ffff {
        if let Some(c) = char::from_u32(u) {
            assert_eq!(is_white_space(c), c.is_whitespace(), "char {:#x}", u);
        }
    }
}

#[test]
fn trim_agrees_with_std() {
    let samples = ["", "   ", "  a b  ", "\t\nx\u{3000}", "\u{a0}y\u{85}", "no-space", " lead", "trail "];
    for s in samples {
        assert_eq!(trim_str(s), s.trim());
        assert_eq!(is_blank(s), s.trim().is_empty());
    }
}

#[test]
fn same_text_compares_characters() {
    assert!(same_text("draft", "draft"));
    assert!(!same_text("draft", "drafts"));
    assert!(!same_text("Draft", "draft"));
    assert!(same_text("", ""));
    assert!(same_text("größe", "größe"));
}

#[test]
fn strip_prefix_agrees_with_std() {
    let samples = [("Bearer abc", "Bearer "), ("bearer abc", "Bearer "), ("Bearer ", "Bearer "), ("Bear", "Bearer "), ("", "")];
    for (s, p) in samples {
        assert_eq!(strip_prefix(s, p), s.strip_prefix(p));
    }
}

#[test]
fn split_agrees_with_std() {
    let samples = ["", ",", "a,b", "a,,b,", "token:user:role", "ä,ö", ",,,"];
    for s in samples {
        let ours: Vec<&str> = split_str(s, ',');
        let std_pieces: Vec<&str> = s.split(',').collect();
        assert_eq!(ours, std_pieces);
    }
    assert_eq!(split_str("t:u:r", ':'), vec!["t", "u", "r"]);
}

#[test]
fn decimal_rendering() {
    for n in [0u64, 1, 9, 10, 42, 100, 12345, u64::MAX] {
        assert_eq!(decimal_string(n), n.to_string());
    }
}
