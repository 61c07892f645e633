use oxidized_server::chat::{
    check_chat_message, is_allowed_chat_character, is_chat_message_illegal, ChatCheck, MAX_CHAT_LENGTH,
    SPAM_DISCONNECT_REASON,
};

#[test]
fn test_allowed_char_printable_ascii() {
    for ch in ' '..='~' {
        assert!(
            is_allowed_chat_character(ch),
            "expected '{ch}' to be allowed"
        );
    }
}

#[test]
fn test_allowed_char_tab_and_newline() {
    assert!(is_allowed_chat_character('\t'));
    assert!(is_allowed_chat_character('\n'));
}

#[test]
fn test_allowed_char_rejects_null() {
    assert!(!is_allowed_chat_character('\0'));
}

#[test]
fn test_allowed_char_rejects_control_chars() {
    for code in (0x01..=0x08).chain(0x0B..=0x1F) {
        let ch = char::from(code);
        assert!(
            !is_allowed_chat_character(ch),
            "expected 0x{code:02X} to be rejected",
        );
    }
}

#[test]
fn test_allowed_char_rejects_del() {
    assert!(!is_allowed_chat_character('\u{7F}'));
}

#[test]
fn test_allowed_char_rejects_section_sign() {
    assert!(!is_allowed_chat_character('\u{00A7}'));
}

#[test]
fn test_allowed_char_unicode_above_a7() {
    assert!(is_allowed_chat_character('\u{00A8}'));
    assert!(is_allowed_chat_character('é'));
    assert!(is_allowed_chat_character('日'));
}

#[test]
fn test_illegal_message_empty() {
    assert!(!is_chat_message_illegal(""));
}

#[test]
fn test_illegal_message_normal_text() {
    assert!(!is_chat_message_illegal("Hello, world!"));
}

#[test]
fn test_illegal_message_with_null() {
    assert!(is_chat_message_illegal("hello\0world"));
}

#[test]
fn test_illegal_message_with_bel() {
    assert!(is_chat_message_illegal("ding\x07dong"));
}

#[test]
fn test_illegal_message_with_section_sign() {
    assert!(is_chat_message_illegal("color §c code"));
}

#[test]
fn test_illegal_message_tab_allowed() {
    assert!(!is_chat_message_illegal("col1\tcol2"));
}

#[test]
fn test_illegal_message_newline_allowed() {
    assert!(!is_chat_message_illegal("line1\nline2"));
}

#[test]
fn test_max_chat_length_boundary() {
    let at_limit = "a".repeat(MAX_CHAT_LENGTH);
    let over_limit = "a".repeat(MAX_CHAT_LENGTH + 1);
    assert_eq!(at_limit.len(), 256);
    assert!(at_limit.len() <= MAX_CHAT_LENGTH);
    assert!(over_limit.len() > MAX_CHAT_LENGTH);
}

#[test]
fn chat_empty_message_is_ignored() {
    assert_eq!(check_chat_message(""), ChatCheck::Empty);
    assert_eq!(check_chat_message("").disconnect_reason(), None);
}

#[test]
fn chat_length_is_counted_in_bytes() {
    let at_limit = "a".repeat(MAX_CHAT_LENGTH);
    assert_eq!(check_chat_message(&at_limit), ChatCheck::Accepted);
    let over_limit = "a".repeat(MAX_CHAT_LENGTH + 1);
    assert_eq!(check_chat_message(&over_limit), ChatCheck::TooLong);
    // 128 two-byte characters fill the limit exactly; one more goes over.
    let two_byte = "é".repeat(128);
    assert_eq!(check_chat_message(&two_byte), ChatCheck::Accepted);
    let too_many = "é".repeat(129);
    assert_eq!(check_chat_message(&too_many), ChatCheck::TooLong);
    assert_eq!(
        check_chat_message(&too_many).disconnect_reason(),
        Some("chat_validation_failed")
    );
}

#[test]
fn chat_illegal_characters_disconnect() {
    let check = check_chat_message("color §c code");
    assert_eq!(check, ChatCheck::IllegalCharacters);
    assert_eq!(
        check.disconnect_reason(),
        Some("multiplayer.disconnect.illegal_characters")
    );
    assert_eq!(check_chat_message("hello there"), ChatCheck::Accepted);
    assert_eq!(SPAM_DISCONNECT_REASON, "disconnect.spam");
}

#[test]
fn chat_length_checked_before_characters() {
    let long_and_illegal = format!("{}\u{7}", "a".repeat(MAX_CHAT_LENGTH));
    assert_eq!(check_chat_message(&long_and_illegal), ChatCheck::TooLong);
}
