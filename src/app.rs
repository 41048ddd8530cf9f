use vstd::prelude::*;

use crate::fs::{parent_of, path_parent, DirEntry};
use crate::labels::{filter_by_first, find_label, generate_labels, is_label_set, spec_matches, Label};
use crate::text::{ascii_upper, to_ascii_upper};

verus! {

/// Where the label browser stands.
#[derive(Debug, Clone, Copy, PartialEq, Eq, Structural)]
pub enum AppState {
    /// Waiting for the first character of a label.
    Selecting,
    /// The first character is typed; waiting for the second.
    PartialMatch,
    Confirmed,
    Cancelled,
}

/// What the driver has to do after a keystroke.
#[derive(Debug, Clone, Copy, PartialEq, Eq, Structural)]
pub enum KeyAction {
    /// Nothing beyond the state change.
    Stay,
    /// Scan the entry at this index and `enter_dir` it.
    Descend(usize),
    /// Scan the current directory with the flag flipped and `toggle_hidden`.
    ToggleHidden,
}

/// The label browser: the entries of one directory, each with a label.
pub struct App {
    pub state: AppState,
    pub entries: Vec<DirEntry>,
    pub labels: Vec<Label>,
    pub first_char: Option<char>,
    pub current_dir: String,
    pub show_hidden: bool,
}

impl App {
    /// The labels match the entries, and a first character is pending exactly
    /// in `PartialMatch`.
    pub open spec fn wf(&self) -> bool {
        &&& is_label_set(self.labels@, self.entries@.len())
        &&& (self.state == AppState::PartialMatch <==> self.first_char.is_some())
    }

    /// Freshly showing `dir`, whose scan gave `entries`, with nothing pending.
    pub open spec fn shows(&self, dir: Seq<char>, entries: Seq<DirEntry>, show_hidden: bool) -> bool {
        &&& self.wf()
        &&& self.current_dir@ == dir
        &&& self.entries@ == entries
        &&& self.show_hidden == show_hidden
        &&& self.state == AppState::Selecting
        &&& self.first_char.is_none()
    }

    /// A browser on `start_dir`, whose scan gave `entries`.
    pub fn new(start_dir: String, show_hidden: bool, entries: Vec<DirEntry>) -> (r: Self)
        ensures
            r.shows(start_dir@, entries@, show_hidden),
    {
        let labels = generate_labels(entries.len());
        App { state: AppState::Selecting, entries, labels, first_char: None, current_dir: start_dir, show_hidden }
    }

    /// Interprets one keystroke (case-insensitive) against the labels.
    ///
    /// In `Selecting`, a character that starts some label becomes pending; any
    /// other is ignored. In `PartialMatch`, the pair `H`,`H` toggles hidden
    /// entries when no label is `HH`; a pair that is a label asks to descend
    /// into that entry; anything else drops the pending character.
    pub fn handle_key(&mut self, c: char) -> (r: KeyAction)
        requires
            old(self).wf(),
        ensures
            final(self).wf(),
            final(self).entries@ == old(self).entries@,
            final(self).labels@ == old(self).labels@,
            final(self).current_dir == old(self).current_dir,
            final(self).show_hidden == old(self).show_hidden,
            match old(self).state {
                AppState::Selecting => r == KeyAction::Stay && if exists|i: int|
                    0 <= i < old(self).labels@.len() && #[trigger] old(self).labels@[i].chars@[0] == ascii_upper(c) {
                    final(self).state == AppState::PartialMatch && final(self).first_char == Some(ascii_upper(c))
                } else {
                    final(self).state == AppState::Selecting && final(self).first_char.is_none()
                },
                AppState::PartialMatch => {
                    let first = old(self).first_char->Some_0;
                    let up = ascii_upper(c);
                    let no_label = forall|i: int| 0 <= i < old(self).labels@.len()
                        ==> !spec_matches(#[trigger] old(self).labels@[i], first, c);
                    &&& final(self).state == AppState::Selecting
                    &&& final(self).first_char.is_none()
                    &&& if first == 'H' && up == 'H' && no_label {
                        r == KeyAction::ToggleHidden
                    } else if no_label {
                        r == KeyAction::Stay
                    } else {
                        exists|i: usize| r == KeyAction::Descend(i) && i < old(self).entries@.len()
                            && spec_matches(old(self).labels@[i as int], first, c)
                            && forall|j: int| 0 <= j < i ==> !spec_matches(#[trigger] old(self).labels@[j], first, c)
                    }
                },
                _ => r == KeyAction::Stay && final(self).state == old(self).state
                    && final(self).first_char == old(self).first_char,
            },
    {
        let up = to_ascii_upper(c);
        match self.state {
            AppState::Selecting => {
                let matching = filter_by_first(self.labels.as_slice(), c);
                if matching.len() > 0 {
                    let w = matching[0];
                    assert(w < self.labels@.len() && self.labels@[w as int].chars@[0] == ascii_upper(c));
                    self.first_char = Some(up);
                    self.state = AppState::PartialMatch;
                } else {
                    proof {
                        assert forall|i: int| 0 <= i < self.labels@.len() implies #[trigger] self.labels@[i].chars@[0] != ascii_upper(c) by {
                            if self.labels@[i].chars@[0] == ascii_upper(c) {
                                assert(matching@.contains(i as usize));
                            }
                        }
                    }
                }
                KeyAction::Stay
            },
            AppState::PartialMatch => {
                let first = match self.first_char {
                    Some(f) => f,
                    None => 'H',
                };
                let found = find_label(self.labels.as_slice(), first, c);
                self.first_char = None;
                self.state = AppState::Selecting;
                proof {
                    if first == 'H' {
                        assert(ascii_upper('H') == 'H');
                    }
                }
                match found {
                    Some(idx) => {
                        assert(idx < self.entries@.len());
                        KeyAction::Descend(idx)
                    },
                    None => {
                        if first == 'H' && up == 'H' {
                            KeyAction::ToggleHidden
                        } else {
                            KeyAction::Stay
                        }
                    },
                }
            },
            _ => KeyAction::Stay,
        }
    }

    /// Shows `dir`, whose scan gave `entries`, with fresh labels.
    pub fn enter_dir(&mut self, dir: String, entries: Vec<DirEntry>)
        ensures
            final(self).shows(dir@, entries@, old(self).show_hidden),
    {
        self.labels = generate_labels(entries.len());
        self.entries = entries;
        self.current_dir = dir;
        self.first_char = None;
        self.state = AppState::Selecting;
    }

    /// Moves up: with a character pending, only drops it and returns `None`;
    /// otherwise returns the parent directory for the driver to scan and
    /// `enter_dir`, if there is one.
    pub fn go_up(&mut self) -> (r: Option<String>)
        requires
            old(self).wf(),
        ensures
            final(self).wf(),
            final(self).entries@ == old(self).entries@,
            final(self).labels@ == old(self).labels@,
            final(self).current_dir == old(self).current_dir,
            final(self).show_hidden == old(self).show_hidden,
            old(self).state != AppState::PartialMatch ==> final(self).first_char == old(self).first_char,
            old(self).state == AppState::PartialMatch ==> r.is_none() && final(self).state == AppState::Selecting
                && final(self).first_char.is_none(),
            old(self).state != AppState::PartialMatch ==> crate::fs::opt_view(r) == parent_of(old(self).current_dir@)
                && final(self).state == old(self).state,
    {
        if self.state == AppState::PartialMatch {
            self.first_char = None;
            self.state = AppState::Selecting;
            None
        } else {
            path_parent(self.current_dir.as_str())
        }
    }

    /// Flips the hidden-entry flag; `entries` is the scan of the current
    /// directory under the new flag.
    pub fn toggle_hidden(&mut self, entries: Vec<DirEntry>)
        ensures
            final(self).shows(old(self).current_dir@, entries@, !old(self).show_hidden),
    {
        self.show_hidden = !self.show_hidden;
        self.labels = generate_labels(entries.len());
        self.entries = entries;
        self.first_char = None;
        self.state = AppState::Selecting;
    }

    pub fn confirm(&mut self)
        ensures
            final(self).state == AppState::Confirmed,
            final(self).first_char.is_none(),
            final(self).current_dir == old(self).current_dir,
            final(self).entries@ == old(self).entries@,
            final(self).labels@ == old(self).labels@,
            final(self).show_hidden == old(self).show_hidden,
    {
        self.state = AppState::Confirmed;
        self.first_char = None;
    }

    pub fn cancel(&mut self)
        ensures
            final(self).state == AppState::Cancelled,
            final(self).first_char.is_none(),
            final(self).current_dir == old(self).current_dir,
            final(self).entries@ == old(self).entries@,
            final(self).labels@ == old(self).labels@,
            final(self).show_hidden == old(self).show_hidden,
    {
        self.state = AppState::Cancelled;
        self.first_char = None;
    }

    /// The directory chosen, once confirmed.
    pub fn selected_path(&self) -> (r: Option<String>)
        ensures
            r == if self.state == AppState::Confirmed { Some(self.current_dir) } else { None::<String> },
    {
        if self.state == AppState::Confirmed {
            Some(self.current_dir.clone())
        } else {
            None
        }
    }

    /// Whether the browser has reached an end state.
    pub fn is_done(&self) -> (r: bool)
        ensures
            r == (self.state == AppState::Confirmed || self.state == AppState::Cancelled),
    {
        self.state == AppState::Confirmed || self.state == AppState::Cancelled
    }
}

} // verus!
