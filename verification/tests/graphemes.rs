use termedit::graphemes::{
    byte_offset, char_offset, count_graphemes, insert_at_grapheme, remove_grapheme,
    split_at_grapheme,
};

#[test]
fn counts_clusters_not_chars() {
    assert_eq!(count_graphemes(""), 0);
    assert_eq!(count_graphemes("abc"), 3);
    // "e" with a combining acute accent is two chars and one cluster.
    assert_eq!(count_graphemes("e\u{301}"), 1);
    assert_eq!(count_graphemes("a\u{310}e\u{301}o\u{308}\u{332}"), 3);
    // A carriage return and a line feed form one cluster; each flag is one.
    assert_eq!(count_graphemes("a\r\nb🇷🇺🇸🇹"), 5);
}

#[test]
fn char_offset_counts_the_chars_before_a_cluster() {
    let text = "a\u{310}e\u{301}o";
    assert_eq!(char_offset(text, 0), 0);
    assert_eq!(char_offset(text, 1), 2);
    assert_eq!(char_offset(text, 2), 4);
    assert_eq!(char_offset(text, 3), 5);
    // Beyond the last cluster: the length of the text.
    assert_eq!(char_offset(text, 9), 5);
}

#[test]
fn byte_offset_counts_the_bytes_before_a_cluster() {
    let text = "é🇷🇺x";
    assert_eq!(byte_offset(text, 0), 0);
    assert_eq!(byte_offset(text, 1), 2);
    assert_eq!(byte_offset(text, 2), 10);
    assert_eq!(byte_offset(text, 3), 11);
    assert_eq!(byte_offset(text, 4), 11);
}

#[test]
fn split_at_grapheme_never_cuts_a_cluster() {
    let (head, tail) = split_at_grapheme("e\u{301}x", 1);
    assert_eq!(head, "e\u{301}");
    assert_eq!(tail, "x");
    let (head, tail) = split_at_grapheme("abc", 0);
    assert_eq!(head, "");
    assert_eq!(tail, "abc");
    let (head, tail) = split_at_grapheme("abc", 7);
    assert_eq!(head, "abc");
    assert_eq!(tail, "");
}

#[test]
fn split_parts_make_up_the_text() {
    let text = "a🇷🇺e\u{301}b";
    for index in 0..6 {
        let (head, tail) = split_at_grapheme(text, index);
        assert_eq!(format!("{}{}", head, tail), text);
    }
}

#[test]
fn insert_at_grapheme_puts_the_char_between_clusters() {
    assert_eq!(insert_at_grapheme("ab", 1, 'x'), "axb");
    assert_eq!(insert_at_grapheme("ab", 0, 'x'), "xab");
    assert_eq!(insert_at_grapheme("ab", 2, 'x'), "abx");
    assert_eq!(insert_at_grapheme("ab", 5, 'x'), "abx");
    assert_eq!(insert_at_grapheme("é🇷🇺", 1, 'x'), "éx🇷🇺");
    assert_eq!(insert_at_grapheme("", 0, 'x'), "x");
}

#[test]
fn remove_grapheme_takes_out_a_whole_cluster() {
    assert_eq!(remove_grapheme("abc", 1), "ac");
    assert_eq!(remove_grapheme("ae\u{301}c", 1), "ac");
    assert_eq!(remove_grapheme("a🇷🇺c", 1), "ac");
    assert_eq!(remove_grapheme("abc", 3), "abc");
    assert_eq!(remove_grapheme("", 0), "");
}
