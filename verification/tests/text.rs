use hubbub::text::{join, len};

#[test]
fn join_puts_two_texts_together() {
    assert_eq!(join("ab", "cd"), "abcd");
    assert_eq!(join("", "x"), "x");
    assert_eq!(join("x", ""), "x");
}

#[test]
fn len_counts_bytes() {
    assert_eq!(len(""), 0);
    assert_eq!(len("abc"), 3);
    assert_eq!(len("é"), 2);
    assert_eq!(len("日本"), 6);
}
