use commit_dash::session::{FileEntry, Session};

fn entry(name: &str, selected: bool) -> FileEntry {
    FileEntry { name: name.to_string(), selected }
}

fn session_with(names: &[&str]) -> Session {
    Session::new(names.iter().map(|n| entry(n, false)).collect())
}

#[test]
fn new_session_starts_on_first_entry() {
    let s = session_with(&["a.txt", "b.txt"]);
    assert_eq!(s.cursor, Some(0));
    assert!(!s.terminated);
    assert!(s.commit_message.is_empty());
    assert!(s.pr_title.is_empty());
}

#[test]
fn new_session_on_empty_list_has_no_cursor() {
    let s = session_with(&[]);
    assert_eq!(s.cursor, None);
}

#[test]
fn advance_moves_forward_and_wraps() {
    let mut s = session_with(&["a.txt", "b.txt", "c.txt"]);
    s.advance_selection();
    assert_eq!(s.cursor, Some(1));
    s.advance_selection();
    assert_eq!(s.cursor, Some(2));
    s.advance_selection();
    assert_eq!(s.cursor, Some(0));
}

#[test]
fn retreat_moves_back_and_wraps() {
    let mut s = session_with(&["a.txt", "b.txt", "c.txt"]);
    s.retreat_selection();
    assert_eq!(s.cursor, Some(2));
    s.retreat_selection();
    assert_eq!(s.cursor, Some(1));
}

#[test]
fn advancing_len_times_returns_to_start() {
    // Wraparound closure, instantiated at every starting index of a
    // four-entry list.
    for start in 0..4 {
        let mut s = session_with(&["a", "b", "c", "d"]);
        for _ in 0..start {
            s.advance_selection();
        }
        assert_eq!(s.cursor, Some(start));
        for _ in 0..4 {
            s.advance_selection();
        }
        assert_eq!(s.cursor, Some(start));
    }
}

#[test]
fn retreat_is_inverse_of_advance_everywhere() {
    for start in 0..3 {
        let mut s = session_with(&["a", "b", "c"]);
        for _ in 0..start {
            s.advance_selection();
        }
        s.advance_selection();
        s.retreat_selection();
        assert_eq!(s.cursor, Some(start));
        s.retreat_selection();
        s.advance_selection();
        assert_eq!(s.cursor, Some(start));
    }
}

#[test]
fn single_entry_list_wraps_in_place() {
    let mut s = session_with(&["only.txt"]);
    s.advance_selection();
    assert_eq!(s.cursor, Some(0));
    s.retreat_selection();
    assert_eq!(s.cursor, Some(0));
}

#[test]
fn navigation_is_a_no_op_on_empty_list() {
    let mut s = session_with(&[]);
    s.advance_selection();
    assert_eq!(s.cursor, None);
    s.retreat_selection();
    assert_eq!(s.cursor, None);
}

#[test]
fn toggle_flips_entry_under_cursor() {
    let mut s = session_with(&["a.txt", "b.txt"]);
    s.advance_selection();
    s.toggle_current();
    assert!(!s.files[0].selected);
    assert!(s.files[1].selected);
}

#[test]
fn toggle_twice_restores_selection() {
    let mut s = session_with(&["a.txt", "b.txt"]);
    s.toggle_current();
    s.toggle_current();
    assert!(!s.files[0].selected);
    let mut t = session_with(&["a.txt"]);
    t.toggle_current();
    assert!(t.files[0].selected);
    t.toggle_current();
    t.toggle_current();
    assert!(t.files[0].selected);
}

#[test]
fn toggle_without_cursor_is_a_no_op() {
    let mut s = session_with(&[]);
    s.toggle_current();
    assert!(s.files.is_empty());
    assert_eq!(s.cursor, None);
}
