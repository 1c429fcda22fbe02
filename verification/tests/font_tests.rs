use fontset::font::Font;

#[test]
fn font_parse_rejects_double_quote() {
    assert!(Font::parse("Fira \"Code\"".to_string()).is_none());
}

#[test]
fn font_parse_rejects_single_quote() {
    assert!(Font::parse("Fira'Code".to_string()).is_none());
}

#[test]
fn font_parse_rejects_tab() {
    assert!(Font::parse("Fira\tCode".to_string()).is_none());
}

#[test]
fn font_parse_rejects_newline() {
    assert!(Font::parse("Fira\nCode".to_string()).is_none());
}

#[test]
fn font_parse_rejects_carriage_return() {
    assert!(Font::parse("Fira\rCode".to_string()).is_none());
}

#[test]
fn font_parse_rejects_null() {
    assert!(Font::parse("Fira\u{0}Code".to_string()).is_none());
}

#[test]
fn font_parse_rejects_emoji() {
    // Neither ASCII-graphic nor alphanumeric.
    assert!(Font::parse("Fira \u{1F600}".to_string()).is_none());
}

#[test]
fn font_parse_accepts_spaces_and_ascii_graphic() {
    let font = Font::parse("DejaVu Sans Mono-12".to_string()).unwrap();
    assert_eq!(font.as_str(), "DejaVu Sans Mono-12");
}

#[test]
fn font_parse_accepts_plain_name() {
    let font = Font::parse("Fira Code".to_string()).unwrap();
    assert_eq!(font.as_str(), "Fira Code");
}

#[test]
fn font_parse_accepts_unicode_alphanumeric() {
    let font = Font::parse("Source Han Sans 日本語".to_string()).unwrap();
    assert_eq!(font.as_str(), "Source Han Sans 日本語");
}

#[test]
fn font_parse_accepts_empty() {
    let font = Font::parse(String::new()).unwrap();
    assert_eq!(font.as_str(), "");
}

#[test]
fn font_is_valid_char_classification() {
    assert!(Font::is_valid_char(' '));
    assert!(Font::is_valid_char('a'));
    assert!(Font::is_valid_char('0'));
    assert!(Font::is_valid_char('-'));
    assert!(Font::is_valid_char('~'));
    assert!(!Font::is_valid_char('\''));
    assert!(!Font::is_valid_char('"'));
    assert!(!Font::is_valid_char('\t'));
    assert!(!Font::is_valid_char('\n'));
    assert!(!Font::is_valid_char('\r'));
}

#[test]
fn font_is_valid_str_matches_parse() {
    assert!(Font::is_valid_str("Menlo 14"));
    assert!(!Font::is_valid_str("Menlo '14'"));
}
