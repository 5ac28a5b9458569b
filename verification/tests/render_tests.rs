use tui_chat::render::{compute_regions, project, style_for, SenderColor};
use tui_chat::session::SessionState;

#[test]
fn projection_is_pure() {
    let mut s = SessionState::seeded();
    s.scroll_up();
    s.edit_input_append('x');
    let f1 = project(&s, 80, 24);
    let f2 = project(&s, 80, 24);
    assert_eq!(f1, f2);
}

#[test]
fn regions_follow_the_fixed_layout() {
    let (title, viewport, input_box, status) = compute_regions(80, 24);
    assert_eq!((title.x, title.y, title.width, title.height), (1, 1, 78, 3));
    assert_eq!(
        (viewport.x, viewport.y, viewport.width, viewport.height),
        (1, 4, 78, 15)
    );
    assert_eq!(
        (input_box.x, input_box.y, input_box.width, input_box.height),
        (1, 19, 78, 3)
    );
    assert_eq!((status.x, status.y, status.width, status.height), (1, 22, 78, 1));
}

#[test]
fn tiny_screen_degrades_without_panicking() {
    let (title, viewport, input_box, status) = compute_regions(1, 1);
    assert_eq!(title.height, 0);
    assert_eq!(viewport.height, 0);
    assert_eq!(input_box.height, 0);
    assert_eq!(status.height, 0);
    let s = SessionState::seeded();
    let f = project(&s, 0, 0);
    assert_eq!(f.rows.len(), 0);
}

#[test]
fn style_table_matches_known_senders() {
    assert_eq!(style_for("You"), SenderColor::Green);
    assert_eq!(style_for("系统"), SenderColor::Red);
    assert_eq!(style_for("Alice"), SenderColor::Magenta);
    assert_eq!(style_for("Bob"), SenderColor::Yellow);
    assert_eq!(style_for("somebody"), SenderColor::Cyan);
    assert_eq!(style_for(""), SenderColor::Cyan);
}

#[test]
fn rows_are_newest_first_and_skip_scroll() {
    let mut s = SessionState::seeded();
    let f = project(&s, 80, 24);
    assert_eq!(f.rows.len(), 6);
    assert_eq!(f.rows[0].timestamp, "10:05");
    assert_eq!(f.rows[5].timestamp, "10:00");
    assert_eq!(f.rows[0].color, SenderColor::Yellow);
    s.scroll_up();
    s.scroll_up();
    let f = project(&s, 80, 24);
    assert_eq!(f.rows.len(), 4);
    assert_eq!(f.rows[0].timestamp, "10:03");
    assert_eq!(f.rows[0].sender, "You");
    assert_eq!(f.rows[0].color, SenderColor::Green);
}

#[test]
fn rows_are_clipped_to_the_viewport() {
    let s = SessionState::seeded();
    let f = project(&s, 80, 12);
    let visible = f.viewport.height as usize - 2;
    assert_eq!(f.rows.len(), visible.min(6));
}

#[test]
fn cursor_sits_after_the_input_text() {
    let mut s = SessionState::new();
    let f = project(&s, 80, 24);
    assert_eq!(f.cursor_x, f.input_box.x + 1);
    assert_eq!(f.cursor_y, f.input_box.y + 1);
    s.edit_input_append('h');
    s.edit_input_append('i');
    let f = project(&s, 80, 24);
    assert_eq!(f.cursor_x, f.input_box.x + 3);
}

#[test]
fn cursor_counts_characters_not_bytes() {
    let mut s = SessionState::new();
    s.edit_input_append('你');
    let f = project(&s, 80, 24);
    assert_eq!(f.cursor_x, f.input_box.x + 2);
    assert_eq!(f.input_length, 1);
}

#[test]
fn status_and_titles_embed_the_counters() {
    let mut s = SessionState::seeded();
    s.scroll_up();
    s.edit_input_append('a');
    s.edit_input_append('b');
    let f = project(&s, 80, 24);
    assert_eq!(f.title_text, "Rust TUI QQ - 聊天窗口");
    assert_eq!(f.viewport_title, "消息 (按上下箭头滚动: 1/5)");
    assert_eq!(f.input_title, "输入消息 (按Enter发送，q退出)");
    assert_eq!(f.input_text, "ab");
    assert_eq!(f.status_text, "总消息数: 6 | 滚动位置: 1 | 输入长度: 2");
    assert_eq!(f.total_messages, 6);
    assert_eq!(f.scroll_offset, 1);
    assert_eq!(f.input_length, 2);
}

#[test]
fn empty_log_indicator_saturates() {
    let s = SessionState::new();
    let f = project(&s, 80, 24);
    assert_eq!(f.viewport_title, "消息 (按上下箭头滚动: 0/0)");
    assert_eq!(f.status_text, "总消息数: 0 | 滚动位置: 0 | 输入长度: 0");
}
