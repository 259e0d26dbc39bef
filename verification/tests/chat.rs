use mu_app::chat::{
    handle_chat_keyboard_input, is_printable_char, ChatComposerState, ChatKey, ChatKeyInput,
    CHAT_DRAFT_CHAR_LIMIT,
};
use mu_app::panels::chat_draft_label;

fn keyboard_input(key: ChatKey, text: Option<&str>) -> ChatKeyInput {
    ChatKeyInput { pressed: true, key, text: text.map(Into::into) }
}

#[test]
fn composer_appends_text_and_limits_length() {
    let mut composer = ChatComposerState::default();
    composer.push_text("hello");
    composer.push_text(" world");

    assert_eq!(composer.draft(), "hello world");

    let limit = "a".repeat(CHAT_DRAFT_CHAR_LIMIT + 5);
    composer.push_text(&limit);

    assert_eq!(composer.draft_char_count(), CHAT_DRAFT_CHAR_LIMIT);
}

#[test]
fn composer_backspace_escape_and_enter_match_keyboard_events() {
    let mut composer = ChatComposerState::default();

    assert_eq!(
        handle_chat_keyboard_input(&mut composer, &keyboard_input(ChatKey::Other, Some("a"))),
        None
    );
    assert_eq!(composer.draft(), "a");

    assert_eq!(
        handle_chat_keyboard_input(&mut composer, &keyboard_input(ChatKey::Backspace, None)),
        None
    );
    assert_eq!(composer.draft(), "");

    composer.push_text("hi");
    assert_eq!(
        handle_chat_keyboard_input(&mut composer, &keyboard_input(ChatKey::Enter, None)),
        Some("hi".to_string())
    );

    assert_eq!(
        handle_chat_keyboard_input(&mut composer, &keyboard_input(ChatKey::Escape, None)),
        None
    );
    assert_eq!(composer.draft(), "");
    assert_eq!(composer.last_status(), Some("Draft cleared."));
}

#[test]
fn enter_on_an_empty_draft_reports_it() {
    let mut composer = ChatComposerState::new();
    assert_eq!(
        handle_chat_keyboard_input(&mut composer, &keyboard_input(ChatKey::Enter, None)),
        None
    );
    assert_eq!(composer.last_status(), Some("Draft is empty."));
}

#[test]
fn released_keys_and_unprintable_text_change_nothing() {
    let mut composer = ChatComposerState::new();
    composer.push_text("ok");
    let released = ChatKeyInput { pressed: false, key: ChatKey::Backspace, text: None };
    assert_eq!(handle_chat_keyboard_input(&mut composer, &released), None);
    assert_eq!(composer.draft(), "ok");

    handle_chat_keyboard_input(&mut composer, &keyboard_input(ChatKey::Other, Some("\u{7}")));
    handle_chat_keyboard_input(&mut composer, &keyboard_input(ChatKey::Other, Some("x\u{e000}")));
    handle_chat_keyboard_input(&mut composer, &keyboard_input(ChatKey::Other, None));
    assert_eq!(composer.draft(), "ok");

    handle_chat_keyboard_input(&mut composer, &keyboard_input(ChatKey::Other, Some("é!")));
    assert_eq!(composer.draft(), "oké!");
}

#[test]
fn printable_characters_exclude_controls_and_private_use() {
    assert!(is_printable_char('a'));
    assert!(is_printable_char(' '));
    assert!(is_printable_char('\u{e9}'));
    assert!(!is_printable_char('\n'));
    assert!(!is_printable_char('\u{7f}'));
    assert!(!is_printable_char('\u{e000}'));
    assert!(!is_printable_char('\u{f8ff}'));
    assert!(is_printable_char('\u{f900}'));
    assert!(!is_printable_char('\u{f0000}'));
    assert!(!is_printable_char('\u{10fffd}'));
    assert!(is_printable_char('\u{10ffff}'));
}

#[test]
fn sending_clears_the_draft_and_failure_keeps_it() {
    let mut composer = ChatComposerState::new();
    composer.push_text("hello");
    composer.mark_send_failed();
    assert_eq!(composer.draft(), "hello");
    assert_eq!(composer.last_status(), Some("Chat send unavailable."));
    assert_eq!(composer.last_sent(), None);

    composer.mark_sent("Selene", "hello".to_string());
    assert_eq!(composer.draft(), "");
    assert_eq!(composer.last_sent(), Some("hello"));
    assert_eq!(composer.last_status(), Some("Sent as Selene."));
}

#[test]
fn remaining_room_counts_characters() {
    let mut composer = ChatComposerState::new();
    assert_eq!(composer.draft_limit_remaining(), CHAT_DRAFT_CHAR_LIMIT);
    composer.push_text("ééé");
    assert_eq!(composer.draft_char_count(), 3);
    assert_eq!(composer.draft_limit_remaining(), CHAT_DRAFT_CHAR_LIMIT - 3);
    composer.backspace();
    assert_eq!(composer.draft(), "éé");
    composer.clear_draft();
    composer.backspace();
    assert_eq!(composer.draft(), "");
    composer.record_status("custom".to_string());
    assert_eq!(composer.last_status(), Some("custom"));
}

#[test]
fn chat_shell_shows_the_draft_or_a_placeholder() {
    let mut composer = ChatComposerState::new();
    assert_eq!(chat_draft_label(&composer), "<empty>");
    composer.push_text("hi there");
    assert_eq!(chat_draft_label(&composer), "hi there");
}
