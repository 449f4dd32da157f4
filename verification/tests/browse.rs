use logview::app::{App, AppArea};
use logview::dispatch::{handle_event, Action, AppEvent, Command};
use logview::json::{direction_of_label, parse_log_message};
use logview::log_message::StanzaDirection;
use logview::store::{load_records, LoadError};

fn line(message: &str, direction: Option<&str>, spans: &[&str]) -> String {
    let mut s = String::from("{\"timestamp\":\"2024-05-01T10:00:00Z\",\"level\":\"INFO\",");
    s.push_str("\"target\":\"conn\",\"fields\":{\"message\":\"");
    s.push_str(message);
    s.push('"');
    if let Some(d) = direction {
        s.push_str(",\"direction\":\"");
        s.push_str(d);
        s.push('"');
    }
    s.push('}');
    if !spans.is_empty() {
        s.push_str(",\"spans\":[");
        for (i, sp) in spans.iter().enumerate() {
            if i > 0 {
                s.push(',');
            }
            s.push_str("{\"name\":\"");
            s.push_str(sp);
            s.push_str("\"}");
        }
        s.push(']');
    }
    s.push('}');
    s
}

fn app_from(lines: Vec<String>) -> App {
    let (records, spans) = load_records(&lines).unwrap();
    App::new(records, spans)
}

#[test]
fn parse_accepts_the_record_schema() {
    let m = parse_log_message(&line("hello", Some("IN"), &["login"])).unwrap();
    assert_eq!(m.fields.message, "hello");
    assert!(matches!(m.fields.direction, Some(StanzaDirection::In)));
    assert_eq!(m.spans.as_ref().unwrap()[0].name, "login");
    assert_eq!(m.level, "INFO");
    assert_eq!(m.target, "conn");
}

#[test]
fn parse_rejects_bad_shapes() {
    // not JSON at all
    assert!(parse_log_message("not json").is_none());
    // unknown direction label
    assert!(parse_log_message(&line("x", Some("SIDEWAYS"), &[])).is_none());
    // invalid timestamp
    let bad = "{\"timestamp\":\"yesterday\",\"level\":\"I\",\"target\":\"t\",\"fields\":{\"message\":\"x\"}}";
    assert!(parse_log_message(bad).is_none());
    // missing message
    let no_msg = "{\"timestamp\":\"2024-05-01T10:00:00Z\",\"level\":\"I\",\"target\":\"t\",\"fields\":{}}";
    assert!(parse_log_message(no_msg).is_none());
}

#[test]
fn direction_labels_map_exactly() {
    assert!(matches!(direction_of_label("IN"), Some(StanzaDirection::In)));
    assert!(matches!(direction_of_label("OUT"), Some(StanzaDirection::Out)));
    assert!(direction_of_label("in").is_none());
    assert!(direction_of_label("").is_none());
}

#[test]
fn load_is_atomic_on_a_malformed_line() {
    let lines = vec![line("a", None, &[]), "garbage".to_string(), line("c", None, &[])];
    match load_records(&lines) {
        Err(LoadError::Malformed { line }) => assert_eq!(line, 1),
        other => panic!("expected a malformed-line failure, got {:?}", other.is_ok()),
    }
}

#[test]
fn span_index_is_sorted_and_deduplicated() {
    let lines = vec![
        line("a", None, &["zeta", "login"]),
        line("b", None, &["login"]),
        line("c", None, &["alpha"]),
    ];
    let (_, spans) = load_records(&lines).unwrap();
    assert_eq!(spans, vec!["alpha".to_string(), "login".to_string(), "zeta".to_string()]);
}

#[test]
fn three_records_filtered_by_login_span() {
    // the 2nd and 3rd records carry span "login"; selecting it yields
    // exactly those two, in their original order
    let lines = vec![
        line("first", None, &[]),
        line("second", None, &["login"]),
        line("third", None, &["login"]),
    ];
    let mut app = app_from(lines);
    assert_eq!(app.spans.items, vec!["[All Messages]".to_string(), "login".to_string()]);
    assert_eq!(app.messages_len(), 3);
    app.select_area(AppArea::Spans);
    app.handle_key_down();
    assert_eq!(app.spans.selected_index(), Some(1));
    assert_eq!(app.messages_len(), 2);
    assert_eq!(app.messages.items[0].fields.message, "second");
    assert_eq!(app.messages.items[1].fields.message, "third");
}

#[test]
fn reload_follows_the_tail_and_keeps_the_scroll_offset() {
    // five visible records, selection on the last, then two more appear
    let mut lines: Vec<String> = (0..5).map(|i| line(&format!("m{}", i), None, &[])).collect();
    let mut app = app_from(lines.clone());
    app.jump_to_end();
    assert_eq!(app.messages.selected_index(), Some(4));
    app.messages.set_offset(2);

    lines.push(line("m5", None, &[]));
    lines.push(line("m6", None, &[]));
    app.reload_messages(load_records(&lines));
    assert_eq!(app.messages_len(), 7);
    assert_eq!(app.messages.selected_index(), Some(6));
    assert_eq!(app.messages.state.offset, 2);
}

#[test]
fn reload_keeps_an_inner_selection_exactly() {
    let mut lines: Vec<String> = (0..5).map(|i| line(&format!("m{}", i), None, &[])).collect();
    let mut app = app_from(lines.clone());
    app.handle_key_down();
    app.handle_key_down();
    assert_eq!(app.messages.selected_index(), Some(2));
    lines.push(line("m5", None, &[]));
    app.reload_messages(load_records(&lines));
    assert_eq!(app.messages.selected_index(), Some(2));
}

#[test]
fn reload_restores_the_span_selection_by_value() {
    let lines = vec![
        line("a", None, &["alpha"]),
        line("b", None, &["login"]),
    ];
    let mut app = app_from(lines);
    app.select_area(AppArea::Spans);
    app.handle_key_down();
    app.handle_key_down();
    // "login" selected (index 2 after the sentinel and "alpha")
    assert_eq!(app.spans.selected_index(), Some(2));
    // after the reload "alpha" is gone, so "login" sits at index 1
    let new_lines = vec![line("b", None, &["login"]), line("c", None, &["login"])];
    app.reload_messages(load_records(&new_lines));
    assert_eq!(app.spans.items, vec!["[All Messages]".to_string(), "login".to_string()]);
    assert_eq!(app.spans.selected_index(), Some(1));
    assert_eq!(app.messages_len(), 2);
}

#[test]
fn failed_reload_keeps_the_previous_state() {
    let lines = vec![line("a", None, &[]), line("b", None, &[])];
    let mut app = app_from(lines);
    app.jump_to_end();
    let before_sel = app.messages.selected_index();
    let before_len = app.messages_len();
    let bad = vec![line("a", None, &[]), "broken".to_string()];
    app.reload_messages(load_records(&bad));
    assert_eq!(app.messages.selected_index(), before_sel);
    assert_eq!(app.messages_len(), before_len);
}

#[test]
fn unreadable_source_skips_the_reload() {
    let lines = vec![line("a", None, &[]), line("b", None, &[])];
    let mut app = app_from(lines);
    app.handle_key_down();
    let before = app.messages.selected_index();
    app.reload_messages(Err(LoadError::Unreadable));
    assert_eq!(app.messages.selected_index(), before);
    assert_eq!(app.messages_len(), 2);
}

#[test]
fn primary_span_and_null_direction_parse() {
    let with_span = "{\"timestamp\":\"2024-05-01T10:00:00Z\",\"level\":\"I\",\"target\":\"t\",\"fields\":{\"message\":\"x\",\"direction\":null},\"span\":{\"name\":\"top\"}}";
    let m = parse_log_message(with_span).unwrap();
    assert!(m.fields.direction.is_none());
    assert_eq!(m.span.unwrap().name, "top");
    assert!(m.spans.is_none());
}

#[test]
fn quit_during_inflight_reload_leaves_no_partial_state() {
    // a reload is requested; before its data comes back, quit arrives:
    // the loop stops and the state is exactly what it was
    let lines = vec![line("a", None, &["login"]), line("b", None, &[])];
    let mut app = app_from(lines);
    app.handle_key_down();
    let sel = app.messages.selected_index();
    let len = app.messages_len();
    let area = app.selected_area;

    let action = handle_event(&mut app, AppEvent::Key(Command::Reload));
    assert_eq!(action, Action::ReloadThenRedraw);
    let action = handle_event(&mut app, AppEvent::Key(Command::Quit));
    assert_eq!(action, Action::Stop);
    // the in-flight reload was abandoned before any data was applied
    assert_eq!(app.messages.selected_index(), sel);
    assert_eq!(app.messages_len(), len);
    assert_eq!(app.selected_area, area);
}

#[test]
fn dispatcher_routes_keys_and_stop_events() {
    let lines = vec![line("a", None, &[])];
    let mut app = app_from(lines);
    assert_eq!(handle_event(&mut app, AppEvent::Key(Command::FocusSpans)), Action::Redraw);
    assert_eq!(app.selected_area, AppArea::Spans);
    assert_eq!(handle_event(&mut app, AppEvent::Key(Command::FocusDetail)), Action::Redraw);
    assert_eq!(app.selected_area, AppArea::MessageDetail);
    assert_eq!(handle_event(&mut app, AppEvent::FileChanged), Action::ReloadThenRedraw);
    assert_eq!(handle_event(&mut app, AppEvent::Key(Command::CopyMessage)), Action::CopyThenRedraw);
    assert_eq!(handle_event(&mut app, AppEvent::Key(Command::Other)), Action::Redraw);
    assert_eq!(handle_event(&mut app, AppEvent::ProducersClosed), Action::Stop);
}

#[test]
fn copy_payload_yields_the_canonical_body() {
    let lines = vec![line("plain words", None, &[])];
    let app = app_from(lines);
    assert_eq!(app.copy_payload(), Some("plain words".to_string()));

    let lines = vec![line("<a><b/></a>", Some("OUT"), &[])];
    let app = app_from(lines);
    let copied = app.copy_payload().unwrap();
    assert!(copied.contains('\n'));
    assert!(copied.starts_with("<a>"));

    let empty = app_from(Vec::new());
    assert_eq!(empty.copy_payload(), None);
}

#[test]
fn detail_view_follows_the_selection_and_scrolls() {
    let lines = vec![
        line("first", None, &[]),
        line("one\\ntwo\\nthree", None, &[]),
    ];
    let mut app = app_from(lines);
    // a fresh state has no rendering yet; moving the selection creates one
    assert!(app.formatted_message.is_none());
    app.handle_key_down();
    let fm = app.formatted_message.as_ref().unwrap();
    assert_eq!(fm.message.len(), 3);
    assert_eq!(fm.vertical_position, 0);
    assert_eq!(fm.scroll_position(), (0, 0));
    // detail-pane navigation only scrolls
    app.select_area(AppArea::MessageDetail);
    app.handle_key_down();
    app.handle_key_down();
    assert_eq!(app.formatted_message.as_ref().unwrap().vertical_position, 2);
    app.handle_key_up();
    app.handle_key_up();
    app.handle_key_up();
    assert_eq!(app.formatted_message.as_ref().unwrap().vertical_position, 0);
    assert_eq!(app.messages.selected_index(), Some(1));
}

#[test]
fn detail_view_falls_back_to_raw_text_on_a_bad_body() {
    // direction set, body not XML: the viewer keeps running and shows the
    // raw text for that record only
    let lines = vec![line("broken <<< body", Some("IN"), &[])];
    let mut app = app_from(lines);
    app.jump_to_end();
    let fm = app.formatted_message.as_ref().unwrap();
    let joined: String = fm
        .message
        .iter()
        .flat_map(|l| l.spans.iter().map(|s| s.content.clone()))
        .collect();
    assert_eq!(joined, "broken <<< body");
    for linev in &fm.message {
        for span in &linev.spans {
            assert_eq!(span.color, None);
        }
    }
}
