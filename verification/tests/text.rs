use bagel::error::ApiError;
use bagel::health::health;
use bagel::text::{is_whitespace, trimmed};

#[test]
fn whitespace_matches_std() {
    for n in 0..=0x10ffffu32 {
        if let Some(c) = char::from_u32(n) {
            assert_eq!(is_whitespace(c), c.is_whitespace(), "U+{n:04X}");
        }
    }
}

#[test]
fn trimmed_matches_std() {
    let samples = [
        "",
        " ",
        "a",
        "  Groceries ",
        "\t\n\u{b}\u{c}\r x y \r\n",
        "\u{1680}\u{2000}mid\u{200a}dle\u{2028}\u{2029}\u{202f}\u{205f}\u{3000}",
        "\u{200b}zero width stays\u{200b}",
        "ünï cödé  ",
        "\u{85}\u{a0}",
    ];
    for s in samples {
        assert_eq!(trimmed(s), s.trim(), "{s:?}");
    }
}

#[test]
fn rejection_keeps_status_and_message() {
    let message = "Failed to deserialize query string: project_id: invalid digit found in string";
    let response = ApiError::Rejected(400, message.to_string()).into_response();
    assert_eq!(response.status, 400);
    assert!(response.body.error.contains("project_id"));
}

#[test]
fn health_ok() {
    let h = health("0.1.0");
    assert_eq!(h.status, "ok");
    assert_eq!(h.version, "0.1.0");
}
