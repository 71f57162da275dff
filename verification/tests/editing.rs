use commit_dash::dispatch::Key;
use commit_dash::session::{FileEntry, Mode, Session};

fn session_one_file() -> Session {
    Session::new(vec![FileEntry { name: "a.txt".to_string(), selected: false }])
}

#[test]
fn append_routes_to_commit_buffer() {
    let mut s = session_one_file();
    s.append_char(Mode::EditingCommitMessage, 'h');
    s.append_char(Mode::EditingCommitMessage, 'i');
    assert_eq!(s.commit_message, vec!['h', 'i']);
    assert!(s.pr_title.is_empty());
}

#[test]
fn append_routes_to_title_buffer() {
    let mut s = session_one_file();
    s.append_char(Mode::EditingPRTitle, 't');
    assert_eq!(s.pr_title, vec!['t']);
    assert!(s.commit_message.is_empty());
}

#[test]
fn append_in_normal_mode_is_a_no_op() {
    let mut s = session_one_file();
    s.append_char(Mode::Normal, 'x');
    assert!(s.commit_message.is_empty());
    assert!(s.pr_title.is_empty());
}

#[test]
fn delete_removes_last_char_only() {
    let mut s = session_one_file();
    s.append_char(Mode::EditingCommitMessage, 'a');
    s.append_char(Mode::EditingCommitMessage, 'b');
    s.delete_last_char(Mode::EditingCommitMessage);
    assert_eq!(s.commit_message, vec!['a']);
}

#[test]
fn delete_on_empty_buffer_is_a_no_op() {
    let mut s = session_one_file();
    s.delete_last_char(Mode::EditingCommitMessage);
    assert!(s.commit_message.is_empty());
    s.delete_last_char(Mode::EditingPRTitle);
    assert!(s.pr_title.is_empty());
}

#[test]
fn append_then_delete_restores_buffer() {
    // In both editing modes, over a non-trivial prior content.
    let mut s = session_one_file();
    s.append_char(Mode::EditingCommitMessage, 'w');
    s.append_char(Mode::EditingCommitMessage, 'i');
    s.append_char(Mode::EditingCommitMessage, 'p');
    let before = s.commit_message.clone();
    s.append_char(Mode::EditingCommitMessage, '!');
    s.delete_last_char(Mode::EditingCommitMessage);
    assert_eq!(s.commit_message, before);

    let before_title = s.pr_title.clone();
    s.append_char(Mode::EditingPRTitle, 'z');
    s.delete_last_char(Mode::EditingPRTitle);
    assert_eq!(s.pr_title, before_title);
}

#[test]
fn mode_transitions_do_not_touch_list_or_cursor() {
    let mut s = session_one_file();
    s.enter_mode(Mode::EditingPRTitle);
    assert_eq!(s.mode, Mode::EditingPRTitle);
    assert_eq!(s.cursor, Some(0));
    assert_eq!(s.files.len(), 1);
    s.return_to_normal();
    assert_eq!(s.mode, Mode::Normal);
    assert_eq!(s.cursor, Some(0));
}

#[test]
fn commit_edit_scenario_leaves_fi_and_normal_mode() {
    // Enter the commit editor, type 'f' 'i' 'x', delete once, cancel.
    let mut s = session_one_file();
    s.handle_key(Key::Char('c'));
    assert_eq!(s.mode, Mode::EditingCommitMessage);
    s.handle_key(Key::Char('f'));
    s.handle_key(Key::Char('i'));
    s.handle_key(Key::Char('x'));
    s.handle_key(Key::Backspace);
    s.handle_key(Key::Esc);
    assert_eq!(s.commit_message, vec!['f', 'i']);
    assert_eq!(s.mode, Mode::Normal);
}
