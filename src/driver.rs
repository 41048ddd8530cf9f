use vstd::prelude::*;

use crate::fs::safe_parent;
use crate::navigator::{FuzzyState, Mode};
use crate::text::{pop_char, push_char};

verus! {

/// A key as the terminal reports it, reduced to what the bindings read.
#[derive(Debug, Clone, Copy, PartialEq, Eq, Structural)]
pub enum KeyPress {
    Char(char),
    Esc,
    Backspace,
    Enter,
    Other,
}

/// What a keystroke asks the navigator for.
#[derive(Debug, Clone, Copy, PartialEq, Eq, Structural)]
pub enum InputEvent {
    Char(char),
    Escape,
    Backspace,
    Enter,
    ScrollUp,
    ScrollDown,
    PageUp,
    PageDown,
    GoToStart,
    GoToEnd,
    StartSearch,
    NavigateIn,
    NavigateOut,
    Bookmark,
    RemoveBookmark,
    ToggleHidden,
    Idle,
}

/// The key bindings: Ctrl+C quits, Ctrl+D / Ctrl+U page, Ctrl+H toggles
/// hidden entries; `/ g G j k l h b x .` are commands; other characters are
/// typed.
pub open spec fn event_for(key: KeyPress, ctrl: bool, shift: bool) -> InputEvent {
    match key {
        KeyPress::Char(c) => if ctrl && c == 'c' {
            InputEvent::Escape
        } else if ctrl && c == 'd' {
            InputEvent::PageDown
        } else if ctrl && c == 'u' {
            InputEvent::PageUp
        } else if ctrl && c == 'h' {
            InputEvent::ToggleHidden
        } else if c == '/' {
            InputEvent::StartSearch
        } else if c == 'g' {
            if shift { InputEvent::GoToEnd } else { InputEvent::GoToStart }
        } else if c == 'G' {
            InputEvent::GoToEnd
        } else if c == 'j' {
            InputEvent::ScrollDown
        } else if c == 'k' {
            InputEvent::ScrollUp
        } else if c == 'l' {
            InputEvent::NavigateIn
        } else if c == 'h' {
            InputEvent::NavigateOut
        } else if c == 'b' {
            InputEvent::Bookmark
        } else if c == 'x' {
            InputEvent::RemoveBookmark
        } else if c == '.' {
            InputEvent::ToggleHidden
        } else {
            InputEvent::Char(c)
        },
        KeyPress::Esc => InputEvent::Escape,
        KeyPress::Backspace => InputEvent::Backspace,
        KeyPress::Enter => InputEvent::Enter,
        KeyPress::Other => InputEvent::Idle,
    }
}

/// The event that a key (with Ctrl or Shift held) stands for.
pub fn input_event(key: KeyPress, ctrl: bool, shift: bool) -> (r: InputEvent)
    ensures
        r == event_for(key, ctrl, shift),
{
    match key {
        KeyPress::Char(c) => {
            if ctrl && c == 'c' {
                InputEvent::Escape
            } else if ctrl && c == 'd' {
                InputEvent::PageDown
            } else if ctrl && c == 'u' {
                InputEvent::PageUp
            } else if ctrl && c == 'h' {
                InputEvent::ToggleHidden
            } else if c == '/' {
                InputEvent::StartSearch
            } else if c == 'g' {
                if shift {
                    InputEvent::GoToEnd
                } else {
                    InputEvent::GoToStart
                }
            } else if c == 'G' {
                InputEvent::GoToEnd
            } else if c == 'j' {
                InputEvent::ScrollDown
            } else if c == 'k' {
                InputEvent::ScrollUp
            } else if c == 'l' {
                InputEvent::NavigateIn
            } else if c == 'h' {
                InputEvent::NavigateOut
            } else if c == 'b' {
                InputEvent::Bookmark
            } else if c == 'x' {
                InputEvent::RemoveBookmark
            } else if c == '.' {
                InputEvent::ToggleHidden
            } else {
                InputEvent::Char(c)
            }
        },
        KeyPress::Esc => InputEvent::Escape,
        KeyPress::Backspace => InputEvent::Backspace,
        KeyPress::Enter => InputEvent::Enter,
        KeyPress::Other => InputEvent::Idle,
    }
}

/// What the driver has to do after an event, beyond redrawing.
#[derive(Debug, Clone, PartialEq, Eq)]
pub enum Effect {
    /// Nothing more.
    Continue,
    /// Leave without choosing.
    Quit,
    /// This directory is chosen: record the visit, print it and leave.
    Select(String),
    /// If this directory is accessible, scan it and `navigate_into` it.
    DescendInto(String),
    /// Scan this parent directory and `navigate_back` to it.
    Ascend(String),
    /// Scan this directory with this hidden flag and `toggle_hidden`.
    ReloadHidden(String, bool),
    /// Store a bookmark, then reload the bookmarks.
    SaveBookmark { path: String, name: String, key: String },
    /// Remove the bookmark with this key, then reload the bookmarks.
    DropBookmark(String),
}

/// The character that a command key types while text is being entered.
pub open spec fn typed_char(e: InputEvent) -> Option<char> {
    match e {
        InputEvent::Char(c) => Some(c),
        InputEvent::StartSearch => Some('/'),
        InputEvent::NavigateIn => Some('l'),
        InputEvent::NavigateOut => Some('h'),
        InputEvent::Bookmark => Some('b'),
        InputEvent::RemoveBookmark => Some('x'),
        InputEvent::ScrollUp => Some('k'),
        InputEvent::ScrollDown => Some('j'),
        InputEvent::GoToStart => Some('g'),
        InputEvent::GoToEnd => Some('G'),
        InputEvent::ToggleHidden => Some('.'),
        _ => None,
    }
}

/// The highlighted item, if any.
pub open spec fn highlighted(s: FuzzyState) -> Option<crate::rank::FuzzyItem> {
    if s.selected_index < s.items@.len() { Some(s.items@[s.selected_index as int]) } else { None }
}

/// `f` is `o` filtered again under query `q`.
pub open spec fn refiltered(o: FuzzyState, f: FuzzyState, q: Seq<char>) -> bool {
    &&& f.search_query@ == q
    &&& f.shows_filter()
    &&& f.all_items@ == o.all_items@
    &&& f.bookmarks@ == o.bookmarks@
    &&& f.current_dir == o.current_dir
    &&& f.show_hidden == o.show_hidden
    &&& f.selected_index == 0
    &&& f.scroll_offset == 0
}

/// `f` is `o` with no repeat count pending.
pub open spec fn count_dropped(o: FuzzyState, f: FuzzyState) -> bool {
    &&& f.same_but_cursor(&o)
    &&& f.selected_index == o.selected_index
    &&& f.scroll_offset == o.scroll_offset
    &&& f.motion_count.is_none()
}

/// `f` is `o` with the cursor at `sel` and the window following it.
pub open spec fn moved_to(o: FuzzyState, f: FuzzyState, sel: int) -> bool {
    &&& f.same_but_cursor(&o)
    &&& f.selected_index == sel
    &&& f.scroll_offset == crate::navigator::scroll_for(sel, o.scroll_offset as int)
}

/// The last row's index (0 for an empty list).
pub open spec fn last_row(o: FuzzyState) -> int {
    if o.items@.len() > 0 { o.items@.len() - 1 } else { 0 }
}

/// Where a page motion puts the cursor.
pub open spec fn page_target(o: FuzzyState, down: bool) -> int {
    if down {
        if o.selected_index + crate::navigator::PAGE_SIZE <= last_row(o) {
            o.selected_index + crate::navigator::PAGE_SIZE
        } else {
            last_row(o)
        }
    } else if o.selected_index >= crate::navigator::PAGE_SIZE {
        o.selected_index - crate::navigator::PAGE_SIZE
    } else {
        0
    }
}

/// Where a counted vertical motion puts the cursor.
pub open spec fn repeat_target(o: FuzzyState, down: bool) -> int {
    let n = match o.motion_count { Some(c) => c as int, None => 1 };
    if down {
        if o.selected_index + n < last_row(o) { o.selected_index + n } else { last_row(o) }
    } else if o.selected_index > n {
        o.selected_index - n
    } else {
        0
    }
}

/// The digit that a typed character is, if it is one.
pub open spec fn digit_of(e: InputEvent) -> Option<nat> {
    match e {
        InputEvent::Char(c) => if '0' <= c && c <= '9' { Some((c as u32 - '0' as u32) as nat) } else { None },
        _ => None,
    }
}

/// One event in search mode. Every key here is text entry, so any pending
/// repeat count is dropped.
pub open spec fn step_search(o: FuzzyState, f: FuzzyState, e: InputEvent, r: (Mode, Effect)) -> bool {
    &&& f.motion_count.is_none()
    &&& match e {
        InputEvent::Escape => r == (Mode::Normal, Effect::Continue) && refiltered(o, f, Seq::empty())
            && f.items@ == o.all_items@,
        InputEvent::Backspace => {
            let q = if o.search_query@.len() > 0 { o.search_query@.drop_last() } else { o.search_query@ };
            refiltered(o, f, q) && r.1 == Effect::Continue
                && r.0 == if q.len() == 0 { Mode::Normal } else { Mode::Search }
        },
        InputEvent::Enter => count_dropped(o, f) && r.0 == Mode::Search && r.1 == match highlighted(o) {
            Some(it) => Effect::Select(it.entry.path),
            None => Effect::Continue,
        },
        InputEvent::PageUp => r == (Mode::Search, Effect::Continue) && moved_to(o, f, page_target(o, false)),
        InputEvent::PageDown => r == (Mode::Search, Effect::Continue) && moved_to(o, f, page_target(o, true)),
        _ => r == (Mode::Search, Effect::Continue) && match typed_char(e) {
            Some(c) => refiltered(o, f, o.search_query@.push(c)),
            None => count_dropped(o, f),
        },
    }
}

/// One event while a bookmark key is typed.
pub open spec fn step_bookmark_input(o: FuzzyState, f: FuzzyState, alias: String, e: InputEvent, r: (Mode, Effect)) -> bool {
    let m = Mode::BookmarkInput(alias);
    f == o && match e {
        InputEvent::Escape => r == (Mode::Normal, Effect::Continue),
        InputEvent::Backspace => r.1 == Effect::Continue && (r.0 matches Mode::BookmarkInput(a)
            && a@ == if alias@.len() > 0 { alias@.drop_last() } else { alias@ }),
        InputEvent::Enter => r.0 == Mode::Normal && r.1 == if alias@.len() > 0 && highlighted(o).is_some() {
            Effect::SaveBookmark {
                path: highlighted(o)->Some_0.entry.path,
                name: highlighted(o)->Some_0.entry.name,
                key: alias,
            }
        } else {
            Effect::Continue
        },
        _ => r.1 == Effect::Continue && match typed_char(e) {
            Some(c) => r.0 matches Mode::BookmarkInput(a) && a@ == alias@.push(c),
            None => r.0 == m,
        },
    }
}

/// One event while a bookmark removal waits for confirmation.
pub open spec fn step_bookmark_remove(o: FuzzyState, f: FuzzyState, e: InputEvent, r: (Mode, Effect)) -> bool {
    f == o && match e {
        InputEvent::Escape => r == (Mode::Normal, Effect::Continue),
        InputEvent::Enter => r.0 == Mode::Normal && r.1 == match highlighted(o) {
            Some(it) => match it.bookmark_key {
                Some(k) => Effect::DropBookmark(k),
                None => Effect::Continue,
            },
            None => Effect::Continue,
        },
        _ => r == (Mode::BookmarkRemove, Effect::Continue),
    }
}

/// One event in normal mode.
pub open spec fn step_normal(o: FuzzyState, f: FuzzyState, e: InputEvent, r: (Mode, Effect)) -> bool {
    match digit_of(e) {
        Some(d) => r == (Mode::Normal, Effect::Continue) && f.same_but_cursor(&o)
            && f.selected_index == o.selected_index && f.scroll_offset == o.scroll_offset
            && f.motion_count == Some(crate::navigator::count_after(o.motion_count, d)),
        None => match e {
            InputEvent::ScrollUp => r == (Mode::Normal, Effect::Continue) && moved_to(o, f, repeat_target(o, false))
                && f.motion_count.is_none(),
            InputEvent::ScrollDown => r == (Mode::Normal, Effect::Continue) && moved_to(o, f, repeat_target(o, true))
                && f.motion_count.is_none(),
            InputEvent::Idle => r == (Mode::Normal, Effect::Continue) && f == o,
            InputEvent::PageUp => r == (Mode::Normal, Effect::Continue) && moved_to(o, f, page_target(o, false))
                && f.motion_count.is_none(),
            InputEvent::PageDown => r == (Mode::Normal, Effect::Continue) && moved_to(o, f, page_target(o, true))
                && f.motion_count.is_none(),
            InputEvent::GoToStart => r == (Mode::Normal, Effect::Continue) && f.same_but_cursor(&o)
                && f.selected_index == 0 && f.scroll_offset == 0 && f.motion_count.is_none(),
            InputEvent::GoToEnd => r == (Mode::Normal, Effect::Continue) && moved_to(o, f, last_row(o))
                && f.motion_count.is_none(),
            _ => f.same_but_cursor(&o) && f.selected_index == o.selected_index
                && f.scroll_offset == o.scroll_offset && f.motion_count.is_none() && match e {
                InputEvent::StartSearch => r == (Mode::Search, Effect::Continue),
                InputEvent::Escape => r == (Mode::Normal, Effect::Quit),
                InputEvent::Enter => r.0 == Mode::Normal && r.1 == match highlighted(o) {
                    Some(it) => Effect::Select(it.entry.path),
                    None => Effect::Continue,
                },
                InputEvent::NavigateIn => r.0 == Mode::Normal && r.1 == match highlighted(o) {
                    Some(it) => Effect::DescendInto(it.entry.path),
                    None => Effect::Continue,
                },
                InputEvent::NavigateOut => r.0 == Mode::Normal && match safe_parent(o.current_dir@) {
                    Some(p) => r.1 matches Effect::Ascend(q) && q@ == p,
                    None => r.1 == Effect::Continue,
                },
                InputEvent::Bookmark => r.1 == Effect::Continue && if highlighted(o).is_some() {
                    r.0 matches Mode::BookmarkInput(a) && a@.len() == 0
                } else {
                    r.0 == Mode::Normal
                },
                InputEvent::RemoveBookmark => r.1 == Effect::Continue && r.0 == if highlighted(o) matches Some(it)
                    && it.is_bookmark {
                    Mode::BookmarkRemove
                } else {
                    Mode::Normal
                },
                InputEvent::ToggleHidden => r == (Mode::Normal, Effect::ReloadHidden(o.current_dir, !o.show_hidden)),
                _ => r == (Mode::Normal, Effect::Continue),
            },
        },
    }
}

/// How one event changes the navigator `o` into `f` in mode `m`, and what
/// it hands back (the next mode and the driver's effect).
pub open spec fn step_ok(o: FuzzyState, f: FuzzyState, m: Mode, e: InputEvent, r: (Mode, Effect)) -> bool {
    match m {
        Mode::Search => step_search(o, f, e, r),
        Mode::BookmarkInput(alias) => step_bookmark_input(o, f, alias, e, r),
        Mode::BookmarkRemove => step_bookmark_remove(o, f, e, r),
        Mode::Normal => step_normal(o, f, e, r),
    }
}

/// The character a command key types while text is being entered.
fn typed(e: InputEvent) -> (r: Option<char>)
    ensures
        r == typed_char(e),
{
    match e {
        InputEvent::Char(c) => Some(c),
        InputEvent::StartSearch => Some('/'),
        InputEvent::NavigateIn => Some('l'),
        InputEvent::NavigateOut => Some('h'),
        InputEvent::Bookmark => Some('b'),
        InputEvent::RemoveBookmark => Some('x'),
        InputEvent::ScrollUp => Some('k'),
        InputEvent::ScrollDown => Some('j'),
        InputEvent::GoToStart => Some('g'),
        InputEvent::GoToEnd => Some('G'),
        InputEvent::ToggleHidden => Some('.'),
        _ => None,
    }
}

/// The digit that an event types, if it is one.
fn digit(e: InputEvent) -> (r: Option<u8>)
    ensures
        match r {
            Some(d) => digit_of(e) == Some(d as nat) && d < 10,
            None => digit_of(e).is_none(),
        },
{
    match e {
        InputEvent::Char(c) => {
            if '0' <= c && c <= '9' {
                Some((c as u32 - '0' as u32) as u8)
            } else {
                None
            }
        },
        _ => None,
    }
}

/// One event in search mode.
fn handle_search(state: &mut FuzzyState, event: InputEvent) -> (r: (Mode, Effect))
    requires
        old(state).wf(),
    ensures
        final(state).wf(),
        step_search(*old(state), *final(state), event, r),
{
    state.clear_motion_count();
    match event {
        InputEvent::Escape => {
            state.clear_query();
            assert(state.search_query@ =~= Seq::<char>::empty());
            (Mode::Normal, Effect::Continue)
        },
        InputEvent::Backspace => {
            state.pop_char();
            if state.search_query.as_str().unicode_len() == 0 {
                (Mode::Normal, Effect::Continue)
            } else {
                (Mode::Search, Effect::Continue)
            }
        },
        InputEvent::Enter => match state.selected_item() {
            Some(it) => (Mode::Search, Effect::Select(it.path())),
            None => (Mode::Search, Effect::Continue),
        },
        InputEvent::PageUp => {
            state.page_up();
            (Mode::Search, Effect::Continue)
        },
        InputEvent::PageDown => {
            state.page_down();
            (Mode::Search, Effect::Continue)
        },
        _ => {
            match typed(event) {
                Some(c) => state.add_char(c),
                None => {},
            }
            (Mode::Search, Effect::Continue)
        },
    }
}

/// One event while a bookmark key is typed.
fn handle_bookmark_input(state: &mut FuzzyState, alias: String, event: InputEvent) -> (r: (Mode, Effect))
    requires
        old(state).wf(),
    ensures
        final(state).wf(),
        step_bookmark_input(*old(state), *final(state), alias, event, r),
{
    match event {
        InputEvent::Escape => (Mode::Normal, Effect::Continue),
        InputEvent::Backspace => {
            let mut a = alias;
            let _ = pop_char(&mut a);
            (Mode::BookmarkInput(a), Effect::Continue)
        },
        InputEvent::Enter => {
            if alias.as_str().unicode_len() > 0 {
                match state.selected_item() {
                    Some(it) => (
                        Mode::Normal,
                        Effect::SaveBookmark { path: it.path(), name: it.entry.name.clone(), key: alias },
                    ),
                    None => (Mode::Normal, Effect::Continue),
                }
            } else {
                (Mode::Normal, Effect::Continue)
            }
        },
        _ => match typed(event) {
            Some(c) => {
                let mut a = alias;
                push_char(&mut a, c);
                (Mode::BookmarkInput(a), Effect::Continue)
            },
            None => (Mode::BookmarkInput(alias), Effect::Continue),
        },
    }
}

/// One event while a bookmark removal waits for confirmation.
fn handle_bookmark_remove(state: &mut FuzzyState, event: InputEvent) -> (r: (Mode, Effect))
    requires
        old(state).wf(),
    ensures
        final(state).wf(),
        step_bookmark_remove(*old(state), *final(state), event, r),
{
    match event {
        InputEvent::Escape => (Mode::Normal, Effect::Continue),
        InputEvent::Enter => match state.selected_item() {
            Some(it) => match &it.bookmark_key {
                Some(k) => (Mode::Normal, Effect::DropBookmark(k.clone())),
                None => (Mode::Normal, Effect::Continue),
            },
            None => (Mode::Normal, Effect::Continue),
        },
        _ => (Mode::BookmarkRemove, Effect::Continue),
    }
}

/// One event in normal mode.
fn handle_normal(state: &mut FuzzyState, event: InputEvent) -> (r: (Mode, Effect))
    requires
        old(state).wf(),
    ensures
        final(state).wf(),
        step_normal(*old(state), *final(state), event, r),
{
    {
        match digit(event) {
            Some(d) => {
                state.push_count_digit(d);
                return (Mode::Normal, Effect::Continue);
            },
            None => {},
        }
        match event {
            InputEvent::ScrollUp => {
                state.move_up_repeated();
                return (Mode::Normal, Effect::Continue);
            },
            InputEvent::ScrollDown => {
                state.move_down_repeated();
                return (Mode::Normal, Effect::Continue);
            },
            InputEvent::Idle => {
                return (Mode::Normal, Effect::Continue);
            },
            _ => {},
        }
        state.clear_motion_count();
        match event {
            InputEvent::PageUp => {
                state.page_up();
                (Mode::Normal, Effect::Continue)
            },
            InputEvent::PageDown => {
                state.page_down();
                (Mode::Normal, Effect::Continue)
            },
            InputEvent::GoToStart => {
                state.go_to_start();
                (Mode::Normal, Effect::Continue)
            },
            InputEvent::GoToEnd => {
                state.go_to_end();
                (Mode::Normal, Effect::Continue)
            },
            InputEvent::StartSearch => (Mode::Search, Effect::Continue),
            InputEvent::Escape => (Mode::Normal, Effect::Quit),
            InputEvent::Enter => match state.selected_item() {
                Some(it) => (Mode::Normal, Effect::Select(it.path())),
                None => (Mode::Normal, Effect::Continue),
            },
            InputEvent::NavigateIn => match state.selected_item() {
                Some(it) => (Mode::Normal, Effect::DescendInto(it.path())),
                None => (Mode::Normal, Effect::Continue),
            },
            InputEvent::NavigateOut => match state.parent_dir() {
                Some(p) => (Mode::Normal, Effect::Ascend(p)),
                None => (Mode::Normal, Effect::Continue),
            },
            InputEvent::Bookmark => {
                if state.selected_item().is_some() {
                    (Mode::BookmarkInput(String::new()), Effect::Continue)
                } else {
                    (Mode::Normal, Effect::Continue)
                }
            },
            InputEvent::RemoveBookmark => {
                let marked = match state.selected_item() {
                    Some(it) => it.is_bookmark,
                    None => false,
                };
                if marked {
                    (Mode::BookmarkRemove, Effect::Continue)
                } else {
                    (Mode::Normal, Effect::Continue)
                }
            },
            InputEvent::ToggleHidden => (Mode::Normal, Effect::ReloadHidden(state.current_dir.clone(), !state.show_hidden)),
            _ => (Mode::Normal, Effect::Continue),
        }
    }
}

/// Applies one event to the navigator in mode `mode`: returns the next mode
/// and what the driver has to do (scan, store, print or leave).
pub fn handle_event(state: &mut FuzzyState, mode: Mode, event: InputEvent) -> (r: (Mode, Effect))
    requires
        old(state).wf(),
    ensures
        final(state).wf(),
        step_ok(*old(state), *final(state), mode, event, r),
{
    match mode {
        Mode::Search => handle_search(state, event),
        Mode::BookmarkInput(alias) => handle_bookmark_input(state, alias, event),
        Mode::BookmarkRemove => handle_bookmark_remove(state, event),
        Mode::Normal => handle_normal(state, event),
    }
}

} // verus!
