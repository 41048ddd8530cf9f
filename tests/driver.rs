use jump::driver::{handle_event, input_event, Effect, InputEvent, KeyPress};
use jump::fs::DirEntry;
use jump::navigator::{FuzzyState, Mode};

fn state(n: usize) -> FuzzyState {
    let entries = (0..n)
        .map(|i| DirEntry {
            path: format!("/w/d{}", i),
            name: format!("d{}", i),
        })
        .collect();
    FuzzyState::new_in_dir("/w".to_string(), false, entries)
}

#[test]
fn key_bindings() {
    assert_eq!(input_event(KeyPress::Char('c'), true, false), InputEvent::Escape);
    assert_eq!(input_event(KeyPress::Char('d'), true, false), InputEvent::PageDown);
    assert_eq!(input_event(KeyPress::Char('u'), true, false), InputEvent::PageUp);
    assert_eq!(input_event(KeyPress::Char('g'), false, true), InputEvent::GoToEnd);
    assert_eq!(input_event(KeyPress::Char('g'), false, false), InputEvent::GoToStart);
    assert_eq!(input_event(KeyPress::Char('j'), false, false), InputEvent::ScrollDown);
    assert_eq!(input_event(KeyPress::Char('.'), false, false), InputEvent::ToggleHidden);
    assert_eq!(input_event(KeyPress::Char('q'), false, false), InputEvent::Char('q'));
    assert_eq!(input_event(KeyPress::Esc, false, false), InputEvent::Escape);
    assert_eq!(input_event(KeyPress::Other, false, false), InputEvent::Idle);
}

#[test]
fn count_then_motion_through_events() {
    let mut s = state(10);
    let (m, e) = handle_event(&mut s, Mode::Normal, InputEvent::Char('3'));
    assert_eq!((m.clone(), e), (Mode::Normal, Effect::Continue));
    assert_eq!(s.motion_count, Some(3));
    let (m, _) = handle_event(&mut s, m, InputEvent::ScrollDown);
    assert_eq!(s.selected_index, 3);
    assert_eq!(s.motion_count, None);
    let (_, _) = handle_event(&mut s, m, InputEvent::ScrollDown);
    assert_eq!(s.selected_index, 4);
}

#[test]
fn other_keys_drop_a_pending_count() {
    let mut s = state(10);
    handle_event(&mut s, Mode::Normal, InputEvent::Char('5'));
    handle_event(&mut s, Mode::Normal, InputEvent::GoToStart);
    assert_eq!(s.motion_count, None);
    handle_event(&mut s, Mode::Normal, InputEvent::ScrollDown);
    assert_eq!(s.selected_index, 1);
}

#[test]
fn search_mode_types_command_keys() {
    let mut s = state(3);
    let (m, _) = handle_event(&mut s, Mode::Normal, InputEvent::StartSearch);
    assert_eq!(m, Mode::Search);
    let (m, _) = handle_event(&mut s, m, InputEvent::Char('d'));
    let (m, _) = handle_event(&mut s, m, InputEvent::ScrollDown);
    assert_eq!(s.search_query, "dj");
    let (m, _) = handle_event(&mut s, m, InputEvent::Backspace);
    assert_eq!(m, Mode::Search);
    let (m, _) = handle_event(&mut s, m, InputEvent::Backspace);
    assert_eq!(m, Mode::Normal);
    let (m, _) = handle_event(&mut s, Mode::Search, InputEvent::Char('d'));
    let (m, _) = handle_event(&mut s, m, InputEvent::Escape);
    assert_eq!(m, Mode::Normal);
    assert!(s.search_query.is_empty());
    assert_eq!(s.result_count(), 3);
}

#[test]
fn normal_mode_effects() {
    let mut s = state(3);
    s.move_down();
    assert_eq!(handle_event(&mut s, Mode::Normal, InputEvent::Enter).1, Effect::Select("/w/d1".to_string()));
    assert_eq!(handle_event(&mut s, Mode::Normal, InputEvent::NavigateIn).1, Effect::DescendInto("/w/d1".to_string()));
    assert_eq!(handle_event(&mut s, Mode::Normal, InputEvent::NavigateOut).1, Effect::Ascend("/".to_string()));
    assert_eq!(
        handle_event(&mut s, Mode::Normal, InputEvent::ToggleHidden).1,
        Effect::ReloadHidden("/w".to_string(), true)
    );
    assert_eq!(handle_event(&mut s, Mode::Normal, InputEvent::Escape).1, Effect::Quit);
    let mut empty = state(0);
    assert_eq!(handle_event(&mut empty, Mode::Normal, InputEvent::Enter).1, Effect::Continue);
}

#[test]
fn bookmark_key_entry() {
    let mut s = state(2);
    let (m, _) = handle_event(&mut s, Mode::Normal, InputEvent::Bookmark);
    assert_eq!(m, Mode::BookmarkInput(String::new()));
    let (m, _) = handle_event(&mut s, m, InputEvent::Char('w'));
    let (m, _) = handle_event(&mut s, m, InputEvent::NavigateOut);
    assert_eq!(m, Mode::BookmarkInput("wh".to_string()));
    let (m, _) = handle_event(&mut s, m, InputEvent::Backspace);
    let (m, e) = handle_event(&mut s, m, InputEvent::Enter);
    assert_eq!(m, Mode::Normal);
    assert_eq!(
        e,
        Effect::SaveBookmark { path: "/w/d0".to_string(), name: "d0".to_string(), key: "w".to_string() }
    );
    let (m, _) = handle_event(&mut s, Mode::Normal, InputEvent::RemoveBookmark);
    assert_eq!(m, Mode::Normal);
}

#[test]
fn search_keys_drop_a_pending_count() {
    let mut s = state(10);
    s.set_motion_count(4);
    let (m, _) = handle_event(&mut s, Mode::Search, InputEvent::Char('d'));
    assert_eq!(m, Mode::Search);
    assert_eq!(s.motion_count, None);
}
