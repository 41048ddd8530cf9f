use jump::app::{App, AppState, KeyAction};
use jump::fs::DirEntry;

fn entries(n: usize) -> Vec<DirEntry> {
    (0..n)
        .map(|i| DirEntry {
            path: format!("/tmp/d{}", i),
            name: format!("d{}", i),
        })
        .collect()
}

#[test]
fn test_app_creation() {
    let app = App::new("/tmp".to_string(), false, vec![]);
    assert_eq!(app.state, AppState::Selecting);
    assert_eq!(app.current_dir, "/tmp".to_string());
}

#[test]
fn two_keys_descend_to_the_labelled_entry() {
    let mut app = App::new("/tmp".to_string(), false, entries(20));
    assert_eq!(app.handle_key('s'), KeyAction::Stay);
    assert_eq!(app.state, AppState::PartialMatch);
    assert_eq!(app.first_char, Some('S'));
    assert_eq!(app.handle_key('d'), KeyAction::Descend(18));
    assert_eq!(app.state, AppState::Selecting);
    app.enter_dir("/tmp/d18".to_string(), entries(2));
    assert_eq!(app.labels.len(), 2);
    assert_eq!(app.current_dir, "/tmp/d18");
}

#[test]
fn unknown_first_key_is_ignored() {
    let mut app = App::new("/tmp".to_string(), false, entries(3));
    assert_eq!(app.handle_key('z'), KeyAction::Stay);
    assert_eq!(app.state, AppState::Selecting);
    assert_eq!(app.first_char, None);
    // only labels AA, AS, AD exist: 'S' starts none
    app.handle_key('s');
    assert_eq!(app.state, AppState::Selecting);
}

#[test]
fn unknown_pair_cancels_the_pending_key() {
    let mut app = App::new("/tmp".to_string(), false, entries(3));
    app.handle_key('a');
    assert_eq!(app.handle_key('q'), KeyAction::Stay);
    assert_eq!(app.state, AppState::Selecting);
    assert_eq!(app.first_char, None);
}

#[test]
fn hh_toggles_hidden_only_without_an_hh_label() {
    let mut app = App::new("/tmp".to_string(), false, entries(90));
    app.handle_key('h');
    assert_eq!(app.handle_key('h'), KeyAction::Descend(85));

    let mut small = App::new("/tmp".to_string(), false, entries(86));
    small.handle_key('h');
    assert_eq!(small.handle_key('H'), KeyAction::Descend(85));

    let mut few = App::new("/tmp".to_string(), false, entries(85));
    few.handle_key('h');
    assert_eq!(few.handle_key('h'), KeyAction::ToggleHidden);
    few.toggle_hidden(entries(4));
    assert!(few.show_hidden);
    assert_eq!(few.labels.len(), 4);
}

#[test]
fn go_up_cancels_pending_then_moves() {
    let mut app = App::new("/tmp/x".to_string(), false, entries(3));
    app.handle_key('a');
    assert_eq!(app.go_up(), None);
    assert_eq!(app.state, AppState::Selecting);
    assert_eq!(app.go_up(), Some("/tmp".to_string()));
}

#[test]
fn confirm_and_cancel_end_the_session() {
    let mut app = App::new("/tmp".to_string(), false, entries(3));
    app.handle_key('a');
    app.confirm();
    assert!(app.is_done());
    assert_eq!(app.selected_path(), Some("/tmp".to_string()));
    let mut other = App::new("/tmp".to_string(), false, entries(3));
    other.cancel();
    assert!(other.is_done());
    assert_eq!(other.selected_path(), None);
}

#[test]
fn go_up_keeps_flag_and_labels() {
    let mut app = App::new("/".to_string(), true, entries(3));
    assert_eq!(app.go_up(), None);
    assert!(app.show_hidden);
    assert_eq!(app.labels.len(), 3);
    assert_eq!(app.state, AppState::Selecting);
}
