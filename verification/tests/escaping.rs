use etcgbot::escape::escape_markdown;
use etcgbot::templates::{render, Template};

#[test]
fn every_reserved_character_gains_a_backslash() {
    let escaped = escape_markdown("\\_*[]()~`>#+-=|{}.!");
    assert_eq!(escaped, "\\\\\\_\\*\\[\\]\\(\\)\\~\\`\\>\\#\\+\\-\\=\\|\\{\\}\\.\\!");
}

#[test]
fn a_backslash_in_a_name_is_escaped_and_survives() {
    assert_eq!(escape_markdown("a\\b"), "a\\\\b");
    assert_eq!(escape_markdown("ends with \\"), "ends with \\\\");
}

#[test]
fn plain_text_passes_through_unchanged() {
    assert_eq!(escape_markdown("Jan Kowalski"), "Jan Kowalski");
    assert_eq!(escape_markdown(""), "");
}

#[test]
fn reserved_characters_inside_a_name_are_escaped() {
    assert_eq!(escape_markdown("Jan.Kowalski!"), "Jan\\.Kowalski\\!");
    assert_eq!(escape_markdown("a_b*c"), "a\\_b\\*c");
}

#[test]
fn rendering_splices_the_escaped_name_between_the_halves() {
    let t = Template {
        before: String::from("hello "),
        after: String::from(", bye"),
    };
    let rendered = render(&t, "a.b");
    assert_eq!(rendered, "hello a\\.b, bye");
}
