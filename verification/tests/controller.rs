use line_counter::controller::{Effect, Message, SessionState};
use line_counter::lines::count_lines;

fn expect_no_effect(e: Effect) {
    match e {
        Effect::NoEffect => {}
        _ => panic!("expected no effect"),
    }
}

#[test]
fn fresh_session_is_ready() {
    let s = SessionState::new();
    assert_eq!(s.selected_path, "");
    assert_eq!(s.last_count, None);
    assert_eq!(s.status_message, "ready");
}

#[test]
fn open_dialog_requests_the_picker_and_changes_nothing() {
    let mut s = SessionState::new();
    let e = s.update(Message::OpenFileDialog);
    match e {
        Effect::OpenPicker => {}
        _ => panic!("expected the picker to be requested"),
    }
    assert_eq!(s.selected_path, "");
    assert_eq!(s.last_count, None);
    assert_eq!(s.status_message, "ready");
}

#[test]
fn count_without_a_file_reports_the_error_and_counts_nothing() {
    let mut s = SessionState::new();
    let e = s.update(Message::CountLines);
    expect_no_effect(e);
    assert_eq!(s.status_message, "error: select a file first");
    assert_eq!(s.selected_path, "");
    assert_eq!(s.last_count, None);
}

#[test]
fn choosing_a_path_sets_it_and_clears_the_count() {
    let mut s = SessionState::new();
    s.update(Message::FilePathChanged(String::from("/tmp/a.txt")));
    let e = s.update(Message::CountLines);
    match e {
        Effect::CountFile(path) => assert_eq!(path, "/tmp/a.txt"),
        _ => panic!("expected a count to be requested"),
    }
    s.apply_count_result(Ok(5));
    assert_eq!(s.last_count, Some(5));
    s.update(Message::FilePathChanged(String::from("/tmp/b.txt")));
    assert_eq!(s.selected_path, "/tmp/b.txt");
    assert_eq!(s.last_count, None);
    assert_eq!(s.status_message, "file selected: /tmp/b.txt");
}

#[test]
fn cancelled_picker_changes_nothing() {
    let mut s = SessionState::new();
    s.update(Message::FilePathChanged(String::from("/tmp/a.txt")));
    let e = s.update(Message::FilePathChanged(String::new()));
    expect_no_effect(e);
    assert_eq!(s.selected_path, "/tmp/a.txt");
    assert_eq!(s.last_count, None);
    assert_eq!(s.status_message, "file selected: /tmp/a.txt");
}

#[test]
fn successful_count_is_stored_and_reported() {
    let mut s = SessionState::new();
    s.update(Message::FilePathChanged(String::from("/tmp/a.txt")));
    s.update(Message::CountLines);
    s.apply_count_result(Ok(12));
    assert_eq!(s.last_count, Some(12));
    assert_eq!(s.status_message, "counted: 12");
    assert_eq!(s.selected_path, "/tmp/a.txt");
}

#[test]
fn failed_count_clears_the_count_and_keeps_the_path() {
    let mut s = SessionState::new();
    s.update(Message::FilePathChanged(String::from("/tmp/a.txt")));
    s.update(Message::CountLines);
    s.apply_count_result(Ok(3));
    s.update(Message::CountLines);
    s.apply_count_result(Err(String::from("no such file")));
    assert_eq!(s.last_count, None);
    assert_eq!(s.selected_path, "/tmp/a.txt");
    assert_eq!(s.status_message, "error: no such file");
}

#[test]
fn copy_without_a_count_reports_nothing_to_copy() {
    let mut s = SessionState::new();
    let e = s.update(Message::CopyResult);
    expect_no_effect(e);
    assert_eq!(s.status_message, "nothing to copy");
}

#[test]
fn copy_writes_the_exact_clipboard_text() {
    let mut s = SessionState::new();
    s.update(Message::FilePathChanged(String::from("/tmp/a.txt")));
    s.update(Message::CountLines);
    s.apply_count_result(Ok(5));
    let e = s.update(Message::CopyResult);
    match e {
        Effect::WriteClipboard(text) => {
            assert_eq!(text, "file: /tmp/a.txt\nline count: 5");
        }
        _ => panic!("expected a clipboard write"),
    }
    assert_eq!(s.status_message, "copied to clipboard");
}

#[test]
fn empty_file_scenario_counts_zero_and_copies_it() {
    let mut s = SessionState::new();
    s.update(Message::FilePathChanged(String::from("/tmp/empty.txt")));
    let e = s.update(Message::CountLines);
    let contents: Vec<u8> = Vec::new();
    match e {
        Effect::CountFile(path) => {
            assert_eq!(path, "/tmp/empty.txt");
            s.apply_count_result(Ok(count_lines(&contents)));
        }
        _ => panic!("expected a count to be requested"),
    }
    assert!(s.status_message.contains('0'));
    assert_eq!(s.status_message, "counted: 0");
    let e = s.update(Message::CopyResult);
    match e {
        Effect::WriteClipboard(text) => {
            assert_eq!(text, "file: /tmp/empty.txt\nline count: 0");
        }
        _ => panic!("expected a clipboard write"),
    }
}
