use vstd::prelude::*;

use crate::text::{decimal, decimal_string};

verus! {

/// Picks an entry of a ranked list by typing its 1-based position.
pub struct NumberMode {
    /// The number typed so far (at most three digits).
    pub current_number: u32,
    /// The largest valid 0-based index (0 when the list is empty).
    pub max_number: usize,
    /// Set by `confirm`, cleared by `backspace` and `reset`.
    pub is_complete: bool,
    /// How many entries the list holds.
    pub entry_count: usize,
}

/// The index that number `n` selects in a list of `count` entries: `0` picks
/// the last entry, `1..=count` pick by position.
pub open spec fn index_for(n: nat, count: nat) -> Option<nat> {
    if n == 0 {
        if count > 0 { Some((count - 1) as nat) } else { None }
    } else if n <= count {
        Some((n - 1) as nat)
    } else {
        None
    }
}

/// An optional index as a natural number.
pub open spec fn as_index(r: Option<usize>) -> Option<nat> {
    match r {
        Some(i) => Some(i as nat),
        None => None,
    }
}

impl NumberMode {
    pub open spec fn wf(&self) -> bool {
        &&& self.current_number < 1000
        &&& self.max_number as int == if self.entry_count > 0 { self.entry_count - 1 } else { 0 }
    }

    pub open spec fn spec_selected(&self) -> Option<nat> {
        index_for(self.current_number as nat, self.entry_count as nat)
    }

    /// A selector over `max_entries` entries with nothing typed.
    pub fn new(max_entries: usize) -> (r: Self)
        ensures
            r.wf(),
            r.current_number == 0,
            r.entry_count == max_entries,
            !r.is_complete,
    {
        let max_number: usize = if max_entries > 0 { max_entries - 1 } else { 0 };
        NumberMode { current_number: 0, max_number, is_complete: false, entry_count: max_entries }
    }

    /// Clears the typed number and the completed flag.
    pub fn reset(&mut self)
        requires
            old(self).wf(),
        ensures
            final(self).wf(),
            final(self).current_number == 0,
            !final(self).is_complete,
            final(self).entry_count == old(self).entry_count,
    {
        self.current_number = 0;
        self.is_complete = false;
    }

    /// Appends a digit, unless the number is complete or already has three digits.
    pub fn add_digit(&mut self, digit: u8)
        requires
            old(self).wf(),
            digit < 10,
        ensures
            final(self).wf(),
            final(self).is_complete == old(self).is_complete,
            final(self).entry_count == old(self).entry_count,
            final(self).current_number == if !old(self).is_complete && old(self).current_number < 100 {
                old(self).current_number * 10 + digit
            } else {
                old(self).current_number as int
            },
    {
        if self.is_complete {
            return;
        }
        if self.current_number < 100 {
            self.current_number = self.current_number * 10 + digit as u32;
        }
    }

    /// Before `confirm`, drops the last digit; after it, only clears the
    /// completed flag.
    pub fn backspace(&mut self)
        requires
            old(self).wf(),
        ensures
            final(self).wf(),
            !final(self).is_complete,
            final(self).entry_count == old(self).entry_count,
            final(self).current_number == if old(self).is_complete {
                old(self).current_number as int
            } else {
                (old(self).current_number / 10) as int
            },
    {
        if self.is_complete {
            self.is_complete = false;
            return;
        }
        self.current_number = self.current_number / 10;
    }

    /// The 0-based index that the typed number selects, if any.
    pub fn selected_index(&self) -> (r: Option<usize>)
        requires
            self.wf(),
        ensures
            as_index(r) == self.spec_selected(),
    {
        let n = self.current_number as usize;
        if n == 0 {
            if self.entry_count > 0 {
                Some(self.entry_count - 1)
            } else {
                None
            }
        } else if n <= self.entry_count {
            Some(n - 1)
        } else {
            None
        }
    }

    /// Whether the typed number selects an entry.
    pub fn is_valid_selection(&self) -> (r: bool)
        requires
            self.wf(),
        ensures
            r == self.spec_selected().is_some(),
    {
        self.selected_index().is_some()
    }

    /// Marks the number complete and returns what it selects.
    pub fn confirm(&mut self) -> (r: Option<usize>)
        requires
            old(self).wf(),
        ensures
            final(self).wf(),
            final(self).is_complete,
            final(self).current_number == old(self).current_number,
            final(self).entry_count == old(self).entry_count,
            as_index(r) == old(self).spec_selected(),
    {
        self.is_complete = true;
        self.selected_index()
    }

    /// The typed number in decimal, or `_` when nothing is typed.
    pub fn display_string(&self) -> (r: String)
        requires
            self.wf(),
        ensures
            r@ == if self.current_number == 0 { seq!['_'] } else { decimal(self.current_number as nat) },
    {
        if self.current_number == 0 {
            proof {
                reveal_strlit("_");
            }
            String::from_str("_")
        } else {
            decimal_string(self.current_number)
        }
    }
}

/// Confirming twice with no edit between returns the same index both times
/// and leaves the selector as the first confirmation left it.
pub proof fn lemma_confirm_idempotent(m: NumberMode, once: NumberMode, twice: NumberMode)
    requires
        m.wf(),
        once.wf() && once.is_complete && once.current_number == m.current_number
            && once.entry_count == m.entry_count,
        twice.wf() && twice.is_complete && twice.current_number == once.current_number
            && twice.entry_count == once.entry_count,
    ensures
        once.spec_selected() == m.spec_selected(),
        twice.spec_selected() == once.spec_selected(),
        twice.current_number == once.current_number,
{
}

} // verus!
