use yewchat::text::{is_blank, is_gif_link, joined, same_text};

#[test]
fn gif_suffix_is_an_image() {
    assert!(is_gif_link("cat.gif"));
    assert!(is_gif_link("https://example.org/a/b.gif"));
}

#[test]
fn gif_suffix_is_exact() {
    assert!(!is_gif_link("cat.gif2"));
    assert!(!is_gif_link("cat.gif "));
    assert!(!is_gif_link("cat.gi"));
    assert!(!is_gif_link("catgif"));
    assert!(!is_gif_link("cat.gif.png"));
}

#[test]
fn gif_suffix_is_case_sensitive() {
    assert!(!is_gif_link("CAT.GIF"));
    assert!(!is_gif_link("cat.Gif"));
    assert!(!is_gif_link("cat.giF"));
}

#[test]
fn gif_suffix_on_short_texts() {
    assert!(is_gif_link(".gif"));
    assert!(!is_gif_link("gif"));
    assert!(!is_gif_link(""));
    assert!(!is_gif_link("."));
}

#[test]
fn gif_suffix_counts_characters_not_bytes() {
    assert!(is_gif_link("\u{732b}.gif"));
    assert!(is_gif_link("\u{1F600}.gif"));
    assert!(!is_gif_link("\u{732b}gif"));
    assert!(!is_gif_link(".gi\u{192}"));
}

#[test]
fn blank_texts() {
    assert!(is_blank(""));
    assert!(is_blank("   "));
    assert!(is_blank(" \t\r\n"));
    assert!(is_blank("\u{a0}\u{3000}"));
}

#[test]
fn texts_that_are_not_blank() {
    assert!(!is_blank("hello"));
    assert!(!is_blank("  a  "));
    assert!(!is_blank("\u{200b}"));
    assert!(!is_blank("."));
}

#[test]
fn same_text_compares_characters() {
    assert!(same_text("", ""));
    assert!(same_text("users", "users"));
    assert!(!same_text("users", "Users"));
    assert!(!same_text("users", "user"));
    assert!(!same_text("a", ""));
}

#[test]
fn joined_appends() {
    assert_eq!(joined("hi", "\u{1F600}"), "hi\u{1F600}");
    assert_eq!(joined("", "x"), "x");
    assert_eq!(joined("x", ""), "x");
    assert_eq!(joined("", ""), "");
}
