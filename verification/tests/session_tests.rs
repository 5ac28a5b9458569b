use tui_chat::session::{KeyInput, SessionState};

fn label() -> String {
    String::from("You")
}

fn now() -> String {
    String::from("now")
}

#[test]
fn new_session_is_empty() {
    let s = SessionState::new();
    assert_eq!(s.log.len(), 0);
    assert_eq!(s.input, "");
    assert_eq!(s.scroll, 0);
    assert!(!s.quit_requested);
}

#[test]
fn seeded_session_has_six_messages() {
    let s = SessionState::seeded();
    assert_eq!(s.log.len(), 6);
    assert_eq!(s.log[0].sender, "系统");
    assert_eq!(s.log[0].content, "欢迎使用 Rust TUI QQ!");
    assert_eq!(s.log[0].timestamp, "10:00");
    assert_eq!(s.log[1].sender, "Alice");
    assert_eq!(s.log[5].sender, "Bob");
    assert_eq!(s.log[5].timestamp, "10:05");
    assert_eq!(s.scroll, 0);
    assert!(!s.quit_requested);
}

#[test]
fn append_blank_content_is_noop() {
    let mut s = SessionState::new();
    s.append_message(String::from("A"), String::from("   "), String::from("t"));
    assert_eq!(s.log.len(), 0);
    s.append_message(String::from("A"), String::from(""), String::from("t"));
    assert_eq!(s.log.len(), 0);
    s.append_message(String::from("A"), String::from(" \t\n"), String::from("t"));
    assert_eq!(s.log.len(), 0);
}

#[test]
fn append_keeps_content_untrimmed() {
    let mut s = SessionState::new();
    s.append_message(String::from("A"), String::from("  hi  "), String::from("t"));
    assert_eq!(s.log.len(), 1);
    assert_eq!(s.log[0].content, "  hi  ");
    assert_eq!(s.log[0].sender, "A");
    assert_eq!(s.log[0].timestamp, "t");
}

#[test]
fn commit_whitespace_only_keeps_log_and_buffer() {
    let mut s = SessionState::new();
    for c in "   ".chars() {
        s.edit_input_append(c);
    }
    s.scroll_up();
    let scroll_before = s.scroll;
    s.commit_input(label(), now());
    assert_eq!(s.log.len(), 0);
    assert_eq!(s.input, "   ");
    assert_eq!(s.scroll, scroll_before);
}

#[test]
fn commit_hello_appends_and_resets() {
    let mut s = SessionState::seeded();
    s.scroll_up();
    s.scroll_up();
    for c in "hello".chars() {
        s.edit_input_append(c);
    }
    let len_before = s.log.len();
    s.commit_input(label(), now());
    assert_eq!(s.log.len(), len_before + 1);
    let last = s.log.last().unwrap();
    assert_eq!(last.content, "hello");
    assert_eq!(last.sender, "You");
    assert_eq!(last.timestamp, "now");
    assert_eq!(s.input, "");
    assert_eq!(s.scroll, 0);
}

#[test]
fn backspace_on_empty_is_noop() {
    let mut s = SessionState::new();
    s.edit_input_backspace();
    assert_eq!(s.input, "");
}

#[test]
fn backspace_on_ab_yields_a() {
    let mut s = SessionState::new();
    s.edit_input_append('a');
    s.edit_input_append('b');
    s.edit_input_backspace();
    assert_eq!(s.input, "a");
}

#[test]
fn scroll_up_saturates_at_len_minus_one() {
    let mut s = SessionState::seeded();
    for _ in 0..20 {
        s.scroll_up();
    }
    assert_eq!(s.scroll, 5);
    s.scroll_up();
    assert_eq!(s.scroll, 5);
}

#[test]
fn scroll_up_on_empty_log_stays_zero() {
    let mut s = SessionState::new();
    for _ in 0..3 {
        s.scroll_up();
    }
    assert_eq!(s.scroll, 0);
}

#[test]
fn scroll_down_never_goes_below_zero() {
    let mut s = SessionState::seeded();
    s.scroll_up();
    s.scroll_up();
    for _ in 0..10 {
        s.scroll_down();
    }
    assert_eq!(s.scroll, 0);
}

#[test]
fn scroll_page_partially_applies_near_boundary() {
    let mut s = SessionState::seeded();
    s.scroll_page(true, 5);
    assert_eq!(s.scroll, 5);
    s.scroll_page(true, 5);
    assert_eq!(s.scroll, 5);
    s.scroll_page(false, 3);
    assert_eq!(s.scroll, 2);
    s.scroll_page(false, 5);
    assert_eq!(s.scroll, 0);
}

#[test]
fn request_quit_is_idempotent() {
    let mut s = SessionState::new();
    assert!(!s.quit_requested);
    s.request_quit();
    assert!(s.quit_requested);
    s.request_quit();
    assert!(s.quit_requested);
}

#[test]
fn handle_key_q_quits_without_typing() {
    let mut s = SessionState::new();
    s.handle_key(KeyInput::Char('q'), label(), now());
    assert!(s.quit_requested);
    assert_eq!(s.input, "");
}

#[test]
fn handle_key_typing_and_enter() {
    let mut s = SessionState::new();
    s.handle_key(KeyInput::Char('o'), label(), now());
    s.handle_key(KeyInput::Char('k'), label(), now());
    assert_eq!(s.input, "ok");
    s.handle_key(KeyInput::Enter, label(), now());
    assert_eq!(s.log.len(), 1);
    assert_eq!(s.log[0].content, "ok");
    assert_eq!(s.input, "");
}

#[test]
fn handle_key_arrows_and_pages() {
    let mut s = SessionState::seeded();
    s.handle_key(KeyInput::Up, label(), now());
    assert_eq!(s.scroll, 1);
    s.handle_key(KeyInput::PageUp, label(), now());
    assert_eq!(s.scroll, 5);
    s.handle_key(KeyInput::Down, label(), now());
    assert_eq!(s.scroll, 4);
    s.handle_key(KeyInput::PageDown, label(), now());
    assert_eq!(s.scroll, 0);
    s.handle_key(KeyInput::Other, label(), now());
    assert_eq!(s.scroll, 0);
    assert_eq!(s.log.len(), 6);
}

#[test]
fn end_to_end_scroll_then_send() {
    let mut s = SessionState::seeded();
    s.handle_key(KeyInput::Up, label(), now());
    s.handle_key(KeyInput::Up, label(), now());
    s.handle_key(KeyInput::Up, label(), now());
    assert_eq!(s.scroll, 3);
    s.handle_key(KeyInput::Char('o'), label(), now());
    s.handle_key(KeyInput::Char('k'), label(), now());
    s.handle_key(KeyInput::Enter, label(), now());
    assert_eq!(s.log.len(), 7);
    assert_eq!(s.log[6].content, "ok");
    assert_eq!(s.scroll, 0);
}
