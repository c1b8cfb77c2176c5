use wsforwarder::text::{append_decimal, same_text, split, split_once};

#[test]
fn splitting_keeps_empty_pieces() {
    assert_eq!(split("a;b", ';'), vec!["a", "b"]);
    assert_eq!(split("", ';'), vec![""]);
    assert_eq!(split(";", ';'), vec!["", ""]);
    assert_eq!(split("a;;\u{e9}\u{1f600};", ';'), vec!["a", "", "\u{e9}\u{1f600}", ""]);
    for text in ["", "x", "x/y/z", "/x//", "\u{e9}/\u{e9}"] {
        assert_eq!(split(text, '/'), text.split('/').collect::<Vec<_>>());
    }
}

#[test]
fn splitting_once_cuts_at_the_first_separator() {
    assert_eq!(split_once("a:b:c", ':'), Some(("a", "b:c")));
    assert_eq!(split_once(":", ':'), Some(("", "")));
    assert_eq!(split_once("\u{e9}:\u{e9}", ':'), Some(("\u{e9}", "\u{e9}")));
    assert_eq!(split_once("abc", ':'), None);
    assert_eq!(split_once("", ':'), None);
}

#[test]
fn texts_are_compared_by_their_characters() {
    assert!(same_text("Basic", "Basic"));
    assert!(!same_text("Basic", "basic"));
}

#[test]
fn numbers_are_written_in_decimal() {
    for n in [0, 9, 10, 99, 100, 1234567890, u64::MAX] {
        let mut out = "n=".to_string();
        append_decimal(&mut out, n);
        assert_eq!(out, format!("n={}", n));
    }
}
