use netaminity_agent::text::{decimal_text, target_of, white_space};

#[test]
fn decimal_notation() {
    assert_eq!(decimal_text(0), "0");
    assert_eq!(decimal_text(9), "9");
    assert_eq!(decimal_text(10), "10");
    assert_eq!(decimal_text(90210), "90210");
    assert_eq!(decimal_text(usize::MAX), usize::MAX.to_string());
}

#[test]
fn white_space_is_that_of_unicode() {
    for code in 0..=0x10ffffu32 {
        if let Some(c) = char::from_u32(code) {
            assert_eq!(white_space(c), c.is_whitespace(), "{:x}", code);
        }
    }
}

#[test]
fn target_is_the_second_word() {
    assert_eq!(target_of("GET /ready HTTP/1.1"), "/ready");
    assert_eq!(target_of("  GET \t /ready"), "/ready");
    assert_eq!(target_of("GET /ready\r\nHost: x"), "/ready");
    assert_eq!(target_of("GET "), "/");
    assert_eq!(target_of("GET"), "/");
    assert_eq!(target_of(" "), "/");
    assert_eq!(target_of(""), "/");
    for text in ["a b c", "\u{2003}a\u{2003}b", "\n\n", "x\u{200b}y z", "\u{85}1\u{85}2\u{85}"] {
        assert_eq!(target_of(text), text.split_whitespace().nth(1).unwrap_or("/"));
    }
}
