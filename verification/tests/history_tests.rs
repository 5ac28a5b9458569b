use tui_chat::history::{extract_display_messages, parse, HistoryError};
use tui_chat::numfmt::dec_string;
use tui_chat::text::{str_eq, str_is_blank};

fn record(nickname: &str, raw: &str, time: u64) -> String {
    let mut s = String::new();
    s.push_str("{\"self_id\":1,\"user_id\":2,\"time\":");
    s.push_str(&time.to_string());
    s.push_str(",\"message_id\":3,\"message_seq\":4,\"real_id\":5,");
    s.push_str("\"real_seq\":\"7\",\"message_type\":\"group\",");
    s.push_str("\"sender\":{\"user_id\":2,\"nickname\":\"");
    s.push_str(nickname);
    s.push_str("\",\"card\":\"\",\"role\":\"member\"},");
    s.push_str("\"raw_message\":\"");
    s.push_str(raw);
    s.push_str("\",\"font\":0,\"sub_type\":\"normal\",");
    s.push_str("\"message\":[{\"type\":\"text\",\"data\":{\"text\":\"");
    s.push_str(raw);
    s.push_str("\"}}],\"message_format\":\"array\",\"post_type\":\"message\",");
    s.push_str("\"group_id\":979885968}");
    s
}

fn envelope(records: &[String]) -> String {
    let mut s = String::new();
    s.push_str("{\"status\":\"ok\",\"retcode\":0,\"data\":{\"messages\":[");
    s.push_str(&records.join(","));
    s.push_str("]},\"message\":\"\",\"wording\":\"\",\"echo\":null}");
    s
}

#[test]
fn two_records_extract_in_order() {
    let payload = envelope(&[record("Bob", "yo", 100), record("Alice", "hi", 101)]);
    let env = parse(&payload).unwrap();
    assert_eq!(env.records.len(), 2);
    let msgs = extract_display_messages(&env);
    assert_eq!(msgs.len(), 2);
    assert_eq!(msgs[1].sender, "Alice");
    assert_eq!(msgs[1].content, "hi");
    assert_eq!(msgs[0].sender, "Bob");
    assert_eq!(msgs[0].content, "yo");
}

#[test]
fn timestamps_derive_from_the_numeric_time() {
    let payload = envelope(&[record("Alice", "hi", 1700000000)]);
    let env = parse(&payload).unwrap();
    let msgs = extract_display_messages(&env);
    assert_eq!(msgs[0].timestamp, "1700000000");
}

#[test]
fn messages_replaced_by_a_number_is_a_shape_error() {
    let payload =
        "{\"status\":\"ok\",\"retcode\":0,\"data\":{\"messages\":7},\"message\":\"\",\"wording\":\"\"}";
    assert_eq!(parse(payload).unwrap_err(), HistoryError::ShapeError);
}

#[test]
fn malformed_json_is_a_parse_error() {
    assert_eq!(parse("{not json").unwrap_err(), HistoryError::ParseError);
    assert_eq!(parse("").unwrap_err(), HistoryError::ParseError);
}

#[test]
fn missing_data_or_wrong_shape_is_a_shape_error() {
    assert_eq!(parse("{}").unwrap_err(), HistoryError::ShapeError);
    assert_eq!(parse("[1,2]").unwrap_err(), HistoryError::ShapeError);
    assert_eq!(
        parse("{\"data\":5}").unwrap_err(),
        HistoryError::ShapeError
    );
    assert_eq!(
        parse("{\"data\":{}}").unwrap_err(),
        HistoryError::ShapeError
    );
}

#[test]
fn missing_record_field_is_a_parse_error() {
    let mut broken = record("Alice", "hi", 100).replace("\"font\":0,", "");
    let payload = envelope(&[broken.clone()]);
    assert_eq!(parse(&payload).unwrap_err(), HistoryError::ParseError);
    broken = record("Alice", "hi", 100).replace("\"font\":0", "\"font\":-1");
    let payload = envelope(&[broken]);
    assert_eq!(parse(&payload).unwrap_err(), HistoryError::ParseError);
}

#[test]
fn text_segment_without_text_is_a_parse_error() {
    let broken = record("Alice", "hi", 100)
        .replace("\"data\":{\"text\":\"hi\"}", "\"data\":{}");
    let payload = envelope(&[broken]);
    assert_eq!(parse(&payload).unwrap_err(), HistoryError::ParseError);
}

#[test]
fn non_text_segment_without_text_is_kept() {
    let changed = record("Alice", "hi", 100)
        .replace(
            "{\"type\":\"text\",\"data\":{\"text\":\"hi\"}}",
            "{\"type\":\"image\",\"data\":{\"url\":\"x\"}}",
        );
    let payload = envelope(&[changed]);
    let env = parse(&payload).unwrap();
    assert_eq!(env.records[0].segments.len(), 1);
    assert_eq!(env.records[0].segments[0].kind, "image");
    assert!(env.records[0].segments[0].text.is_none());
}

#[test]
fn empty_raw_message_is_kept_as_zero_length() {
    let payload = envelope(&[record("Alice", "", 100)]);
    let env = parse(&payload).unwrap();
    let msgs = extract_display_messages(&env);
    assert_eq!(msgs.len(), 1);
    assert_eq!(msgs[0].content, "");
}

#[test]
fn absent_diagnostics_and_extra_fields_are_tolerated() {
    let bare = format!("{{\"data\":{{\"messages\":[{}]}},\"extra\":42}}", record("Alice", "hi", 100));
    let env = parse(&bare).unwrap();
    assert!(env.status.is_none());
    assert!(env.retcode.is_none());
    assert!(env.echo.is_none());
    assert_eq!(env.records.len(), 1);
    let full = envelope(&[record("Alice", "hi", 100)]);
    let env = parse(&full).unwrap();
    assert_eq!(env.status.as_deref(), Some("ok"));
    assert_eq!(env.retcode, Some(0));
    assert!(env.echo.is_none());
}

#[test]
fn record_fields_carry_the_wire_values() {
    let payload = envelope(&[record("Alice", "hi", 100)]);
    let env = parse(&payload).unwrap();
    let r = &env.records[0];
    assert_eq!(r.self_id, 1);
    assert_eq!(r.user_id, 2);
    assert_eq!(r.message_id, 3);
    assert_eq!(r.message_seq, 4);
    assert_eq!(r.real_id, 5);
    assert_eq!(r.real_seq, "7");
    assert_eq!(r.message_type, "group");
    assert_eq!(r.sender.nickname, "Alice");
    assert_eq!(r.sender.role, "member");
    assert_eq!(r.raw_message, "hi");
    assert_eq!(r.group_id, 979885968);
    assert_eq!(r.segments[0].kind, "text");
    assert_eq!(r.segments[0].text.as_deref(), Some("hi"));
}

#[test]
fn decimal_rendering_is_exact() {
    assert_eq!(dec_string(0), "0");
    assert_eq!(dec_string(7), "7");
    assert_eq!(dec_string(10), "10");
    assert_eq!(dec_string(105), "105");
    assert_eq!(dec_string(u64::MAX), "18446744073709551615");
}

#[test]
fn text_helpers_behave() {
    assert!(str_is_blank(""));
    assert!(str_is_blank(" \t\r\n"));
    assert!(!str_is_blank(" a "));
    assert!(str_eq("abc", "abc"));
    assert!(!str_eq("abc", "abd"));
    assert!(!str_eq("abc", "ab"));
    assert!(str_eq("系统", "系统"));
    assert!(!str_eq("系统", "系"));
}
