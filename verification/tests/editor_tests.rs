use loadgen::editor::{
    handle_command, input_handling, input_handling_num, input_widget_builder, log_title,
    visible_log_range, App, CommandOutcome, InputMode, Key,
};
use loadgen::numtext::{parse_u64_or, parse_usize_or, u64_to_decimal};
use loadgen::state::AppState;

#[test]
fn default_app_fields() {
    let app = App::default();
    assert_eq!(app.dst_url, "");
    assert_eq!(app.delay_ms, "100");
    assert_eq!(app.header_size_kb, "1");
    assert_eq!(app.iteration, "1");
    assert_eq!(app.protocol_index, 0);
    assert_eq!(app.protocols, vec!["HTTP/1.1", "HTTP/2"]);
    assert_eq!(app.input_mode, InputMode::Normal);
    assert!(app.logs.is_empty());
    assert_eq!(app.log_scroll, 0);
    assert!(!app.running);
    assert_eq!(app.focused_item, 0);
}

#[test]
fn free_text_editing_appends_and_deletes() {
    let mut s = "ab".to_string();
    input_handling(&mut s, Key::Char('!'));
    assert_eq!(s, "ab!");
    input_handling(&mut s, Key::Backspace);
    assert_eq!(s, "ab");
    input_handling(&mut s, Key::Left);
    assert_eq!(s, "ab");
    let mut empty = String::new();
    input_handling(&mut empty, Key::Backspace);
    assert_eq!(empty, "");
}

#[test]
fn numeric_editing_accepts_only_digits() {
    let mut s = "10".to_string();
    input_handling_num(&mut s, Key::Char('5'));
    assert_eq!(s, "105");
    input_handling_num(&mut s, Key::Char('x'));
    assert_eq!(s, "105");
    input_handling_num(&mut s, Key::Backspace);
    assert_eq!(s, "10");
}

#[test]
fn decimal_rendering_is_exact() {
    assert_eq!(u64_to_decimal(0), "0");
    assert_eq!(u64_to_decimal(7), "7");
    assert_eq!(u64_to_decimal(105), "105");
    assert_eq!(u64_to_decimal(3000), "3000");
    assert_eq!(u64_to_decimal(u64::MAX), "18446744073709551615");
}

#[test]
fn parsing_recovers_with_defaults() {
    assert_eq!(parse_u64_or("250", 100), 250);
    assert_eq!(parse_u64_or("", 100), 100);
    assert_eq!(parse_u64_or("12x", 100), 100);
    assert_eq!(parse_u64_or("007", 100), 7);
    assert_eq!(parse_u64_or("99999999999999999999999", 100), 100);
    assert_eq!(parse_u64_or("18446744073709551615", 100), u64::MAX);
    assert_eq!(parse_usize_or("3", 1), 3);
    assert_eq!(parse_usize_or("-2", 1), 1);
}

#[test]
fn tab_cycles_focus_and_leaves_editing() {
    let mut app = App::default();
    let mut state = AppState::new();
    app.input_mode = InputMode::EditingDstUrl;
    for expected in [1, 2, 3, 4, 5, 6, 0] {
        let r = handle_command(&mut app, &mut state, Key::Tab);
        assert!(matches!(r, CommandOutcome::Continue));
        assert_eq!(app.focused_item, expected);
    }
    assert_eq!(app.input_mode, InputMode::Normal);
    handle_command(&mut app, &mut state, Key::BackTab);
    assert_eq!(app.focused_item, 6);
}

#[test]
fn enter_begins_editing_the_focused_field() {
    let mut app = App::default();
    let mut state = AppState::new();
    app.focused_item = 1;
    handle_command(&mut app, &mut state, Key::Enter);
    assert_eq!(app.input_mode, InputMode::EditingDelay);
    handle_command(&mut app, &mut state, Key::Char('5'));
    assert_eq!(app.delay_ms, "1005");
    handle_command(&mut app, &mut state, Key::Esc);
    assert_eq!(app.input_mode, InputMode::Normal);
}

#[test]
fn enter_on_the_selector_rotates_the_protocol() {
    let mut app = App::default();
    let mut state = AppState::new();
    app.focused_item = 4;
    handle_command(&mut app, &mut state, Key::Enter);
    assert_eq!(app.protocol_index, 1);
    handle_command(&mut app, &mut state, Key::Right);
    assert_eq!(app.protocol_index, 0);
    handle_command(&mut app, &mut state, Key::Left);
    assert_eq!(app.protocol_index, 1);
}

#[test]
fn enter_on_the_button_starts_and_stops_a_run() {
    let mut app = App::default();
    let mut state = AppState::new();
    app.dst_url = "http://example.com/".to_string();
    app.delay_ms = "20".to_string();
    app.header_size_kb = "nonsense".to_string();
    app.iteration = "4".to_string();
    app.focused_item = 5;
    handle_command(&mut app, &mut state, Key::Enter);
    assert!(state.running);
    assert_eq!(state.config.dst_url, "http://example.com/");
    assert_eq!(state.config.delay_ms, 20);
    // a non-numeric size falls back to the documented 1kb default
    assert_eq!(state.config.header_size_kb, 1);
    assert_eq!(state.config.iteration, 4);
    let started = state.snapshot();
    assert!(started.logs.last().unwrap().ends_with(
        "Process Start: Delay 20ms, Header Size 1kb, Protocol HTTP/1.1, Iter 4"
    ));
    // the space key toggles it back off
    handle_command(&mut app, &mut state, Key::Char(' '));
    assert!(!state.running);
    let stopped = state.snapshot();
    assert!(stopped.logs.last().unwrap().ends_with("Process Stopped by user"));
}

#[test]
fn q_quits_and_silently_halts_dispatch() {
    let mut app = App::default();
    let mut state = AppState::new();
    app.focused_item = 5;
    handle_command(&mut app, &mut state, Key::Enter);
    assert!(state.running);
    let logs_before = state.snapshot().logs.len();
    let r = handle_command(&mut app, &mut state, Key::Char('q'));
    assert!(matches!(r, CommandOutcome::Quit));
    assert!(!state.running);
    assert_eq!(state.snapshot().logs.len(), logs_before);
}

#[test]
fn log_area_scrolling() {
    let mut app = App::default();
    let mut state = AppState::new();
    app.focused_item = 6;
    app.logs = (0..5).map(|i| format!("line {}", i)).collect();
    handle_command(&mut app, &mut state, Key::End);
    assert_eq!(app.log_scroll, 4);
    handle_command(&mut app, &mut state, Key::Up);
    assert_eq!(app.log_scroll, 3);
    handle_command(&mut app, &mut state, Key::Down);
    assert_eq!(app.log_scroll, 4);
    handle_command(&mut app, &mut state, Key::Down);
    assert_eq!(app.log_scroll, 4);
    handle_command(&mut app, &mut state, Key::PageUp);
    assert_eq!(app.log_scroll, 0);
    handle_command(&mut app, &mut state, Key::PageDown);
    assert_eq!(app.log_scroll, 4);
    handle_command(&mut app, &mut state, Key::Home);
    assert_eq!(app.log_scroll, 0);
}

#[test]
fn widget_content_follows_focus_and_mode() {
    let mut app = App::default();
    app.dst_url = "http://x/".to_string();
    app.focused_item = 0;
    app.input_mode = InputMode::EditingDstUrl;
    let w = input_widget_builder(&app, 0, "Destination URL", InputMode::EditingDstUrl);
    assert_eq!(w.text, "http://x/");
    assert_eq!(w.title, "Destination URL");
    assert!(w.border_highlight);
    assert!(w.text_highlight);
    let w2 = input_widget_builder(&app, 1, "Delay (ms)", InputMode::EditingDelay);
    assert_eq!(w2.text, "100");
    assert!(!w2.border_highlight);
    assert!(!w2.text_highlight);
}

#[test]
fn visible_range_shows_the_tail_shifted_by_scroll() {
    assert_eq!(visible_log_range(0, 10, 0), (0, 0));
    assert_eq!(visible_log_range(100, 10, 0), (90, 100));
    assert_eq!(visible_log_range(100, 10, 5), (85, 100));
    assert_eq!(visible_log_range(4, 10, 0), (0, 4));
}

#[test]
fn refresh_copies_the_snapshot_fields() {
    let mut app = App::default();
    let mut state = AppState::new();
    app.focused_item = 5;
    handle_command(&mut app, &mut state, Key::Enter);
    let snap = state.snapshot();
    let expected_logs = snap.logs.clone();
    app.refresh_from(snap);
    assert!(app.running);
    assert_eq!(app.logs, expected_logs);
    // nothing else moved
    assert_eq!(app.focused_item, 5);
    assert_eq!(app.delay_ms, "100");
}

#[test]
fn log_titles() {
    assert_eq!(log_title(false, 3, 10), "Log");
    assert_eq!(log_title(true, 3, 10), "Log [3/9]");
    assert_eq!(log_title(true, 0, 0), "Log [0/0]");
}
