use cloudmesh::text::{contains_str, is_not_blank, is_white_space_char, str_equal, without_trailing_slashes};

#[test]
fn strings_are_equal_only_with_the_same_characters() {
    assert!(str_equal("node-1", "node-1"));
    assert!(str_equal("", ""));
    assert!(!str_equal("node-1", "node-2"));
    assert!(!str_equal("node", "node-1"));
    assert!(!str_equal("é", "e"));
}

#[test]
fn substring_search() {
    assert!(contains_str("violates foreign key constraint \"fk_node\"", "fk_node"));
    assert!(contains_str("violates foreign key constraint", "foreign key"));
    assert!(contains_str("abc", ""));
    assert!(contains_str("abc", "abc"));
    assert!(!contains_str("ab", "abc"));
    assert!(!contains_str("unique violation", "foreign key"));
    assert!(!contains_str("foreign_key", "foreign key"));
}

#[test]
fn blank_keys_are_recognised() {
    assert!(!is_not_blank(""));
    assert!(!is_not_blank("   \t\n"));
    assert!(!is_not_blank("\u{3000}\u{a0}\u{2028}"));
    assert!(is_not_blank("  key  "));
    assert!(is_not_blank("\u{200b}"));
}

#[test]
fn whitespace_matches_std() {
    for code in 0u32..=0x10FFFF {
        if let Some(c) = char::from_u32(code) {
            assert_eq!(is_white_space_char(c), c.is_whitespace(), "code point {code:#x}");
        }
    }
}

#[test]
fn trailing_slashes_are_removed() {
    for url in ["http://host:3000/", "http://host:3000///", "http://host:3000", "", "///", "a/b/"] {
        let trimmed = without_trailing_slashes(url);
        assert_eq!(trimmed, url.trim_end_matches('/'));
        assert_eq!(without_trailing_slashes(&trimmed), trimmed);
    }
}
