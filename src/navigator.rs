use vstd::prelude::*;

use crate::fs::{get_safe_parent, safe_parent, DirEntry};
use crate::rank::{
    bookmark_item, bookmark_score, candidates, lex_le, skim_score, copy_items, copy_opt, has_path, is_ranked, overlay,
    rank_items, scored, survivors, DbDirEntry, FuzzyItem, FuzzyMatchEngine,
};
use crate::text::{lowercase_of, pop_char, push_char};

verus! {

broadcast use vstd::seq_lib::group_to_multiset_ensures;

/// How many rows the list shows at once.
pub const VISIBLE_HEIGHT: usize = 15;

/// How far a page motion moves the cursor.
pub const PAGE_SIZE: usize = 10;

/// The first bookmark in `bms` whose path is `p`.
pub open spec fn find_bookmark(bms: Seq<DbDirEntry>, p: Seq<char>) -> Option<DbDirEntry>
    decreases bms.len(),
{
    if bms.len() == 0 {
        None
    } else if bms[0].path@ == p {
        Some(bms[0])
    } else {
        find_bookmark(bms.drop_first(), p)
    }
}

/// `it` marked as a bookmark exactly when some bookmark has its path.
pub open spec fn marked(it: FuzzyItem, bms: Seq<DbDirEntry>) -> FuzzyItem {
    match find_bookmark(bms, it.entry.path@) {
        Some(bm) => FuzzyItem {
            entry: it.entry,
            match_score: it.match_score,
            is_bookmark: true,
            bookmark_key: bm.bookmark_key,
        },
        None => FuzzyItem { entry: it.entry, match_score: it.match_score, is_bookmark: false, bookmark_key: None },
    }
}

/// The list that a scan result gives: every entry, in scan order, score 0,
/// marked against the bookmarks.
pub open spec fn listing(entries: Seq<DirEntry>, bms: Seq<DbDirEntry>) -> Seq<FuzzyItem> {
    entries.map_values(|e: DirEntry| marked(FuzzyItem { entry: e, match_score: 0, is_bookmark: false, bookmark_key: None }, bms))
}

/// The scroll offset that keeps `sel` visible, moving the window as little as
/// possible from `scroll`.
pub open spec fn scroll_for(sel: int, scroll: int) -> int {
    if sel < scroll {
        sel
    } else if sel >= scroll + VISIBLE_HEIGHT {
        sel - VISIBLE_HEIGHT + 1
    } else {
        scroll
    }
}

/// The pending repeat count after typing `digit`, saturating at the largest `usize`.
pub open spec fn count_after(old: Option<usize>, digit: nat) -> usize {
    let n = match old {
        Some(c) => c as int,
        None => 0,
    } * 10 + digit;
    if n > usize::MAX { usize::MAX } else { n as usize }
}

/// What the navigator's keys currently do.
#[derive(Debug, Clone, PartialEq)]
pub enum Mode {
    /// Keys move, descend, ascend and start the other modes.
    Normal,
    /// Keys edit the query.
    Search,
    /// Keys edit the key for a new bookmark on the highlighted item.
    BookmarkInput(String),
    /// Enter removes the highlighted item's bookmark.
    BookmarkRemove,
}

/// The live state of the fuzzy navigator.
#[derive(Debug, Clone)]
pub struct FuzzyState {
    pub search_query: String,
    pub all_items: Vec<FuzzyItem>,
    pub items: Vec<FuzzyItem>,
    pub selected_index: usize,
    pub scroll_offset: usize,
    pub matcher: FuzzyMatchEngine,
    pub current_dir: String,
    pub show_hidden: bool,
    pub bookmarks: Vec<DbDirEntry>,
    pub motion_count: Option<usize>,
}

/// An optional item reference as an optional item.
pub open spec fn as_item(r: Option<&FuzzyItem>) -> Option<FuzzyItem> {
    match r {
        Some(it) => Some(*it),
        None => None,
    }
}

/// Whether `items` holds an item with path `p`.
fn contains_path(items: &Vec<FuzzyItem>, p: &String) -> (r: bool)
    ensures
        r == has_path(items@, p@),
{
    let mut i: usize = 0;
    while i < items.len()
        invariant
            i <= items@.len(),
            forall|k: int| 0 <= k < i ==> #[trigger] items@[k].entry.path@ != p@,
        decreases items@.len() - i,
    {
        if items[i].entry.path == *p {
            return true;
        }
        i = i + 1;
    }
    false
}

/// The larger of two optional scores.
fn best_score(a: Option<i64>, b: Option<i64>) -> (r: Option<i64>)
    ensures
        r == crate::rank::best_of(a, b),
{
    match (a, b) {
        (Some(x), Some(y)) => Some(if x >= y { x } else { y }),
        (Some(x), None) => Some(x),
        (None, Some(y)) => Some(y),
        (None, None) => None,
    }
}

/// The first bookmark with path `p`.
fn lookup_bookmark(bms: &Vec<DbDirEntry>, p: &String) -> (r: Option<usize>)
    ensures
        match r {
            Some(i) => i < bms@.len() && find_bookmark(bms@, p@) == Some(bms@[i as int]),
            None => find_bookmark(bms@, p@).is_none(),
        },
{
    let mut i: usize = 0;
    assert(bms@.subrange(0, bms@.len() as int) =~= bms@);
    while i < bms.len()
        invariant
            i <= bms@.len(),
            find_bookmark(bms@, p@) == find_bookmark(bms@.subrange(i as int, bms@.len() as int), p@),
        decreases bms@.len() - i,
    {
        let ghost rest = bms@.subrange(i as int, bms@.len() as int);
        assert(rest[0] == bms@[i as int]);
        if bms[i].path == *p {
            return Some(i);
        }
        assert(rest.drop_first() =~= bms@.subrange(i + 1, bms@.len() as int));
        i = i + 1;
    }
    None
}

/// `it` marked against the bookmarks.
fn mark_item(it: FuzzyItem, bms: &Vec<DbDirEntry>) -> (r: FuzzyItem)
    ensures
        r == marked(it, bms@),
{
    match lookup_bookmark(bms, &it.entry.path) {
        Some(i) => FuzzyItem {
            entry: it.entry,
            match_score: it.match_score,
            is_bookmark: true,
            bookmark_key: copy_opt(&bms[i].bookmark_key),
        },
        None => FuzzyItem { entry: it.entry, match_score: it.match_score, is_bookmark: false, bookmark_key: None },
    }
}

/// Every item of `v` marked against the bookmarks.
fn mark_all(v: &Vec<FuzzyItem>, bms: &Vec<DbDirEntry>) -> (r: Vec<FuzzyItem>)
    ensures
        r@ == v@.map_values(|it: FuzzyItem| marked(it, bms@)),
{
    let mut out: Vec<FuzzyItem> = Vec::new();
    let mut i: usize = 0;
    while i < v.len()
        invariant
            i <= v@.len(),
            out@ == v@.subrange(0, i as int).map_values(|it: FuzzyItem| marked(it, bms@)),
        decreases v@.len() - i,
    {
        out.push(mark_item(v[i].copy(), bms));
        i = i + 1;
        assert(out@ =~= v@.subrange(0, i as int).map_values(|it: FuzzyItem| marked(it, bms@)));
    }
    assert(v@.subrange(0, v@.len() as int) =~= v@);
    out
}

/// The list for a scan result, marked against the bookmarks.
fn build_listing(entries: Vec<DirEntry>, bms: &Vec<DbDirEntry>) -> (r: Vec<FuzzyItem>)
    ensures
        r@ == listing(entries@, bms@),
{
    let mut out: Vec<FuzzyItem> = Vec::new();
    let mut i: usize = 0;
    while i < entries.len()
        invariant
            i <= entries@.len(),
            out@ == listing(entries@.subrange(0, i as int), bms@),
        decreases entries@.len() - i,
    {
        let it = FuzzyItem::new(entries[i].copy(), 0);
        out.push(mark_item(it, bms));
        i = i + 1;
        assert(out@ =~= listing(entries@.subrange(0, i as int), bms@));
    }
    assert(entries@.subrange(0, entries@.len() as int) =~= entries@);
    out
}

impl FuzzyState {
    /// The cursor lies in the list (at 0 when it is empty) and inside the
    /// visible window.
    pub open spec fn wf(&self) -> bool {
        &&& (self.items@.len() == 0 ==> self.selected_index == 0)
        &&& (self.items@.len() > 0 ==> self.selected_index < self.items@.len())
        &&& self.scroll_offset <= self.selected_index < self.scroll_offset + VISIBLE_HEIGHT
    }

    /// The shown list is what the query selects from the directory's items
    /// and the bookmarks: all items in scan order for an empty query, else the
    /// matching ones ranked.
    pub open spec fn shows_filter(&self) -> bool {
        if self.search_query@.len() == 0 {
            self.items@ == self.all_items@
        } else {
            &&& is_ranked(self.items@)
            &&& self.items@.to_multiset() == candidates(
                self.all_items@,
                self.bookmarks@,
                self.search_query@,
            ).to_multiset()
        }
    }

    /// The state just after directory `dir` was loaded from scan result `entries`.
    pub open spec fn is_loaded(
        &self,
        dir: Seq<char>,
        entries: Seq<DirEntry>,
        bms: Seq<DbDirEntry>,
        show_hidden: bool,
    ) -> bool {
        &&& self.current_dir@ == dir
        &&& self.bookmarks@ == bms
        &&& self.show_hidden == show_hidden
        &&& self.all_items@ == listing(entries, bms)
        &&& self.items@ == self.all_items@
        &&& self.search_query@.len() == 0
        &&& self.selected_index == 0
        &&& self.scroll_offset == 0
        &&& self.motion_count.is_none()
    }

    /// Only the cursor and the scroll offset differ.
    pub open spec fn same_but_cursor(&self, other: &Self) -> bool {
        &&& self.search_query == other.search_query
        &&& self.all_items@ == other.all_items@
        &&& self.items@ == other.items@
        &&& self.current_dir == other.current_dir
        &&& self.show_hidden == other.show_hidden
        &&& self.bookmarks@ == other.bookmarks@
    }

    /// A navigator on directory `dir` listing `entries` (a scan of it), with
    /// no bookmarks.
    pub fn new_in_dir(dir: String, show_hidden: bool, entries: Vec<DirEntry>) -> (r: Self)
        ensures
            r.wf(),
            r.is_loaded(dir@, entries@, Seq::empty(), show_hidden),
    {
        let bookmarks: Vec<DbDirEntry> = Vec::new();
        let items = build_listing(entries, &bookmarks);
        let all_items = copy_items(&items);
        FuzzyState {
            search_query: String::new(),
            all_items,
            items,
            selected_index: 0,
            scroll_offset: 0,
            matcher: FuzzyMatchEngine::new(),
            current_dir: dir,
            show_hidden,
            bookmarks,
            motion_count: None,
        }
    }

    /// A navigator at `/` over the given entries.
    pub fn with_entries(entries: Vec<DirEntry>) -> (r: Self)
        ensures
            r.wf(),
            r.is_loaded(seq!['/'], entries@, Seq::empty(), false),
    {
        proof {
            reveal_strlit("/");
        }
        let root = String::from_str("/");
        assert(root@ =~= seq!['/']);
        Self::new_in_dir(root, false, entries)
    }

    /// Replaces the bookmarks and re-marks every item against them.
    pub fn set_bookmarks(&mut self, bookmarks: Vec<DbDirEntry>)
        requires
            old(self).wf(),
        ensures
            final(self).wf(),
            final(self).bookmarks@ == bookmarks@,
            final(self).all_items@ == old(self).all_items@.map_values(|it: FuzzyItem| marked(it, bookmarks@)),
            final(self).items@ == old(self).items@.map_values(|it: FuzzyItem| marked(it, bookmarks@)),
            final(self).search_query == old(self).search_query,
            final(self).selected_index == old(self).selected_index,
            final(self).scroll_offset == old(self).scroll_offset,
            final(self).current_dir == old(self).current_dir,
            final(self).show_hidden == old(self).show_hidden,
    {
        self.bookmarks = bookmarks;
        self.refresh_bookmark_status();
    }

    fn refresh_bookmark_status(&mut self)
        requires
            old(self).wf(),
        ensures
            final(self).wf(),
            final(self).bookmarks@ == old(self).bookmarks@,
            final(self).all_items@ == old(self).all_items@.map_values(|it: FuzzyItem| marked(it, old(self).bookmarks@)),
            final(self).items@ == old(self).items@.map_values(|it: FuzzyItem| marked(it, old(self).bookmarks@)),
            final(self).search_query == old(self).search_query,
            final(self).selected_index == old(self).selected_index,
            final(self).scroll_offset == old(self).scroll_offset,
            final(self).current_dir == old(self).current_dir,
            final(self).show_hidden == old(self).show_hidden,
    {
        self.all_items = mark_all(&self.all_items, &self.bookmarks);
        self.items = mark_all(&self.items, &self.bookmarks);
    }

    /// Shows directory `dir`, whose scan gave `entries`: query, cursor and
    /// repeat count are cleared; bookmarks and the hidden flag are kept.
    pub fn load_dir(&mut self, dir: String, entries: Vec<DirEntry>)
        ensures
            final(self).wf(),
            final(self).is_loaded(dir@, entries@, old(self).bookmarks@, old(self).show_hidden),
    {
        let items = build_listing(entries, &self.bookmarks);
        self.current_dir = dir;
        self.all_items = copy_items(&items);
        self.items = items;
        self.search_query = String::new();
        self.selected_index = 0;
        self.scroll_offset = 0;
        self.motion_count = None;
    }

    /// The directory that `navigate_back` moves to, if any.
    pub fn parent_dir(&self) -> (r: Option<String>)
        ensures
            crate::fs::opt_view(r) == safe_parent(self.current_dir@),
    {
        get_safe_parent(self.current_dir.as_str())
    }

    /// Descends into the highlighted item, whose scan gave `entries`; does
    /// nothing when no item is highlighted.
    pub fn navigate_into(&mut self, entries: Vec<DirEntry>)
        requires
            old(self).wf(),
        ensures
            final(self).wf(),
            old(self).items@.len() > 0 ==> final(self).is_loaded(
                old(self).items@[old(self).selected_index as int].entry.path@,
                entries@,
                old(self).bookmarks@,
                old(self).show_hidden,
            ),
            old(self).items@.len() == 0 ==> *final(self) == *old(self),
    {
        if self.selected_index < self.items.len() {
            let target = self.items[self.selected_index].path();
            self.load_dir(target, entries);
        }
    }

    /// Moves up to the parent directory, whose scan gave `entries`; does
    /// nothing at the root.
    pub fn navigate_back(&mut self, entries: Vec<DirEntry>)
        requires
            old(self).wf(),
        ensures
            final(self).wf(),
            match safe_parent(old(self).current_dir@) {
                Some(p) => final(self).is_loaded(p, entries@, old(self).bookmarks@, old(self).show_hidden),
                None => *final(self) == *old(self),
            },
    {
        match self.parent_dir() {
            Some(p) => self.load_dir(p, entries),
            None => {},
        }
    }

    /// Flips the hidden-entry flag and shows the current directory again,
    /// whose scan under the new flag gave `entries`.
    pub fn toggle_hidden(&mut self, entries: Vec<DirEntry>)
        ensures
            final(self).wf(),
            final(self).is_loaded(old(self).current_dir@, entries@, old(self).bookmarks@, !old(self).show_hidden),
    {
        self.show_hidden = !self.show_hidden;
        let dir = self.current_dir.clone();
        self.load_dir(dir, entries);
    }

    /// Sets the pending repeat count.
    pub fn set_motion_count(&mut self, count: usize)
        ensures
            final(self).motion_count == Some(count),
            final(self).same_but_cursor(old(self)),
            final(self).selected_index == old(self).selected_index,
            final(self).scroll_offset == old(self).scroll_offset,
    {
        self.motion_count = Some(count);
    }

    /// Takes the pending repeat count, 1 when none is pending.
    pub fn take_motion_count(&mut self) -> (r: usize)
        ensures
            r == match old(self).motion_count {
                Some(c) => c,
                None => 1,
            },
            final(self).motion_count.is_none(),
            final(self).same_but_cursor(old(self)),
            final(self).selected_index == old(self).selected_index,
            final(self).scroll_offset == old(self).scroll_offset,
    {
        let r = match self.motion_count {
            Some(c) => c,
            None => 1,
        };
        self.motion_count = None;
        r
    }

    /// Appends a typed digit to the pending repeat count.
    pub fn push_count_digit(&mut self, digit: u8)
        requires
            digit < 10,
        ensures
            final(self).motion_count == Some(count_after(old(self).motion_count, digit as nat)),
            final(self).same_but_cursor(old(self)),
            final(self).selected_index == old(self).selected_index,
            final(self).scroll_offset == old(self).scroll_offset,
    {
        let base: usize = match self.motion_count {
            Some(c) => c,
            None => 0,
        };
        let next: usize = if base > (usize::MAX - digit as usize) / 10 {
            usize::MAX
        } else {
            base * 10 + digit as usize
        };
        proof {
            let n = base as int * 10 + digit as int;
            if base > (usize::MAX - digit as usize) / 10 {
                assert(n > usize::MAX) by (nonlinear_arith)
                    requires
                        base > (usize::MAX - digit as int) / 10,
                        n == base as int * 10 + digit as int,
                        0 <= digit < 10;
            }
        }
        self.motion_count = Some(next);
    }

    /// Drops the pending repeat count.
    pub fn clear_motion_count(&mut self)
        ensures
            final(self).motion_count.is_none(),
            final(self).same_but_cursor(old(self)),
            final(self).selected_index == old(self).selected_index,
            final(self).scroll_offset == old(self).scroll_offset,
    {
        self.motion_count = None;
    }

    /// Sets the query and filters again.
    pub fn set_query(&mut self, query: &str)
        ensures
            final(self).wf(),
            final(self).search_query@ == query@,
            final(self).shows_filter(),
            final(self).selected_index == 0,
            final(self).scroll_offset == 0,
            final(self).all_items@ == old(self).all_items@,
            final(self).bookmarks@ == old(self).bookmarks@,
            final(self).current_dir == old(self).current_dir,
            final(self).show_hidden == old(self).show_hidden,
            final(self).motion_count == old(self).motion_count,
    {
        self.search_query = String::from_str(query);
        self.filter_results();
    }

    /// Appends a character to the query and filters again.
    pub fn add_char(&mut self, c: char)
        ensures
            final(self).wf(),
            final(self).search_query@ == old(self).search_query@.push(c),
            final(self).shows_filter(),
            final(self).selected_index == 0,
            final(self).scroll_offset == 0,
            final(self).all_items@ == old(self).all_items@,
            final(self).bookmarks@ == old(self).bookmarks@,
            final(self).current_dir == old(self).current_dir,
            final(self).show_hidden == old(self).show_hidden,
            final(self).motion_count == old(self).motion_count,
    {
        push_char(&mut self.search_query, c);
        self.filter_results();
    }

    /// Removes the query's last character, if any, and filters again.
    pub fn pop_char(&mut self)
        ensures
            final(self).wf(),
            final(self).search_query@ == if old(self).search_query@.len() > 0 {
                old(self).search_query@.drop_last()
            } else {
                old(self).search_query@
            },
            final(self).shows_filter(),
            final(self).selected_index == 0,
            final(self).scroll_offset == 0,
            final(self).all_items@ == old(self).all_items@,
            final(self).bookmarks@ == old(self).bookmarks@,
            final(self).current_dir == old(self).current_dir,
            final(self).show_hidden == old(self).show_hidden,
            final(self).motion_count == old(self).motion_count,
    {
        let _ = pop_char(&mut self.search_query);
        self.filter_results();
    }

    /// Empties the query: every item shows again, in scan order.
    pub fn clear_query(&mut self)
        ensures
            final(self).wf(),
            final(self).search_query@.len() == 0,
            final(self).items@ == old(self).all_items@,
            final(self).selected_index == 0,
            final(self).scroll_offset == 0,
            final(self).all_items@ == old(self).all_items@,
            final(self).bookmarks@ == old(self).bookmarks@,
            final(self).current_dir == old(self).current_dir,
            final(self).show_hidden == old(self).show_hidden,
            final(self).motion_count == old(self).motion_count,
    {
        self.search_query = String::new();
        self.filter_results();
    }

    /// Filters again with the current query (after the bookmarks changed).
    pub fn refilter(&mut self)
        ensures
            final(self).wf(),
            final(self).search_query == old(self).search_query,
            final(self).shows_filter(),
            final(self).selected_index == 0,
            final(self).scroll_offset == 0,
            final(self).all_items@ == old(self).all_items@,
            final(self).bookmarks@ == old(self).bookmarks@,
            final(self).current_dir == old(self).current_dir,
            final(self).show_hidden == old(self).show_hidden,
            final(self).motion_count == old(self).motion_count,
    {
        self.filter_results();
    }

    fn filter_results(&mut self)
        ensures
            final(self).wf(),
            final(self).shows_filter(),
            final(self).selected_index == 0,
            final(self).scroll_offset == 0,
            final(self).search_query == old(self).search_query,
            final(self).all_items@ == old(self).all_items@,
            final(self).bookmarks@ == old(self).bookmarks@,
            final(self).current_dir == old(self).current_dir,
            final(self).show_hidden == old(self).show_hidden,
            final(self).motion_count == old(self).motion_count,
    {
        self.selected_index = 0;
        self.scroll_offset = 0;
        if self.search_query.as_str().unicode_len() == 0 {
            self.items = copy_items(&self.all_items);
            return;
        }
        let q = self.search_query.as_str();
        let ghost qv = q@;
        let mut filtered: Vec<FuzzyItem> = Vec::new();
        let mut i: usize = 0;
        while i < self.all_items.len()
            invariant
                qv == q@,
                i <= self.all_items@.len(),
                filtered@ == survivors(self.all_items@.subrange(0, i as int), qv),
            decreases self.all_items@.len() - i,
        {
            let ghost pre = self.all_items@.subrange(0, i as int);
            assert(self.all_items@.subrange(0, i + 1).drop_last() =~= pre);
            match self.matcher.get_score(q, self.all_items[i].entry.name.as_str()) {
                Some(s) => {
                    let mut it = self.all_items[i].copy();
                    it.match_score = s;
                    assert(it == scored(self.all_items@[i as int], s));
                    filtered.push(it);
                },
                None => {},
            }
            i = i + 1;
        }
        assert(self.all_items@.subrange(0, self.all_items@.len() as int) =~= self.all_items@);
        let ghost base = filtered@;
        let mut j: usize = 0;
        assert(self.bookmarks@.subrange(0, 0) =~= Seq::<DbDirEntry>::empty());
        while j < self.bookmarks.len()
            invariant
                qv == q@,
                base == survivors(self.all_items@, qv),
                j <= self.bookmarks@.len(),
                filtered@ == overlay(self.all_items@, base, self.bookmarks@.subrange(0, j as int), qv),
            decreases self.bookmarks@.len() - j,
        {
            let ghost pre = self.bookmarks@.subrange(0, j as int);
            assert(self.bookmarks@.subrange(0, j + 1).drop_last() =~= pre);
            let bm = &self.bookmarks[j];
            let name_score = self.matcher.get_score(q, bm.name.as_str());
            let key_score = match &bm.bookmark_key {
                Some(k) => self.matcher.get_score(q, k.as_str()),
                None => None,
            };
            let best = best_score(name_score, key_score);
            assert(best == bookmark_score(*bm, qv));
            match best {
                Some(s) => {
                    if !contains_path(&self.all_items, &bm.path) && !contains_path(&filtered, &bm.path) {
                        let mut it = FuzzyItem::from_bookmark(bm);
                        it.match_score = s;
                        assert(it == bookmark_item(*bm, s));
                        filtered.push(it);
                    }
                },
                None => {},
            }
            j = j + 1;
        }
        assert(self.bookmarks@.subrange(0, self.bookmarks@.len() as int) =~= self.bookmarks@);
        self.items = rank_items(filtered);
    }

    /// The highlighted item, if the list is not empty.
    pub fn selected_item(&self) -> (r: Option<&FuzzyItem>)
        ensures
            as_item(r) == if self.selected_index < self.items@.len() {
                Some(self.items@[self.selected_index as int])
            } else {
                None::<FuzzyItem>
            },
    {
        if self.selected_index < self.items.len() {
            Some(&self.items[self.selected_index])
        } else {
            None
        }
    }

    fn update_scroll(&mut self)
        ensures
            final(self).scroll_offset == scroll_for(old(self).selected_index as int, old(self).scroll_offset as int),
            final(self).selected_index == old(self).selected_index,
            final(self).same_but_cursor(old(self)),
            final(self).motion_count == old(self).motion_count,
    {
        if self.selected_index < self.scroll_offset {
            self.scroll_offset = self.selected_index;
        } else if self.scroll_offset <= usize::MAX - VISIBLE_HEIGHT && self.selected_index >= self.scroll_offset + VISIBLE_HEIGHT {
            self.scroll_offset = self.selected_index - VISIBLE_HEIGHT + 1;
        }
    }

    /// Moves the cursor one row up, stopping at the first row.
    pub fn move_up(&mut self)
        requires
            old(self).wf(),
        ensures
            final(self).wf(),
            final(self).same_but_cursor(old(self)),
            final(self).motion_count == old(self).motion_count,
            final(self).selected_index == if old(self).selected_index > 0 { old(self).selected_index - 1 } else { 0 },
            final(self).scroll_offset == scroll_for(final(self).selected_index as int, old(self).scroll_offset as int),
    {
        if self.selected_index > 0 {
            self.selected_index = self.selected_index - 1;
            self.update_scroll();
        }
    }

    /// Moves the cursor one row down, stopping at the last row.
    pub fn move_down(&mut self)
        requires
            old(self).wf(),
        ensures
            final(self).wf(),
            final(self).same_but_cursor(old(self)),
            final(self).motion_count == old(self).motion_count,
            final(self).selected_index == if old(self).selected_index + 1 < old(self).items@.len() {
                old(self).selected_index + 1
            } else {
                old(self).selected_index as int
            },
            final(self).scroll_offset == scroll_for(final(self).selected_index as int, old(self).scroll_offset as int),
    {
        if self.items.len() > 0 && self.selected_index < self.items.len() - 1 {
            self.selected_index = self.selected_index + 1;
            self.update_scroll();
        }
    }

    /// Applies the pending repeat count (1 if none) as that many steps down,
    /// stopping at the last row, and clears the count.
    pub fn move_down_repeated(&mut self)
        requires
            old(self).wf(),
        ensures
            final(self).wf(),
            final(self).same_but_cursor(old(self)),
            final(self).motion_count.is_none(),
            ({
                let n = match old(self).motion_count { Some(c) => c as int, None => 1 };
                let last = if old(self).items@.len() > 0 { old(self).items@.len() - 1 } else { 0 };
                final(self).selected_index == if old(self).selected_index + n < last {
                    old(self).selected_index + n
                } else {
                    last
                }
            }),
            final(self).scroll_offset == scroll_for(final(self).selected_index as int, old(self).scroll_offset as int),
    {
        let n = self.take_motion_count();
        let last: usize = if self.items.len() > 0 { self.items.len() - 1 } else { 0 };
        if self.selected_index < last && n < last - self.selected_index {
            self.selected_index = self.selected_index + n;
        } else {
            self.selected_index = last;
        }
        self.update_scroll();
    }

    /// Applies the pending repeat count (1 if none) as that many steps up,
    /// stopping at the first row, and clears the count.
    pub fn move_up_repeated(&mut self)
        requires
            old(self).wf(),
        ensures
            final(self).wf(),
            final(self).same_but_cursor(old(self)),
            final(self).motion_count.is_none(),
            ({
                let n = match old(self).motion_count { Some(c) => c as int, None => 1 };
                final(self).selected_index == if old(self).selected_index > n {
                    old(self).selected_index - n
                } else {
                    0
                }
            }),
            final(self).scroll_offset == scroll_for(final(self).selected_index as int, old(self).scroll_offset as int),
    {
        let n = self.take_motion_count();
        if self.selected_index > n {
            self.selected_index = self.selected_index - n;
        } else {
            self.selected_index = 0;
        }
        self.update_scroll();
    }

    /// Moves the cursor a page up, stopping at the first row.
    pub fn page_up(&mut self)
        requires
            old(self).wf(),
        ensures
            final(self).wf(),
            final(self).same_but_cursor(old(self)),
            final(self).motion_count == old(self).motion_count,
            final(self).selected_index == if old(self).selected_index >= PAGE_SIZE {
                old(self).selected_index - PAGE_SIZE
            } else {
                0
            },
            final(self).scroll_offset == scroll_for(final(self).selected_index as int, old(self).scroll_offset as int),
    {
        if self.selected_index >= PAGE_SIZE {
            self.selected_index = self.selected_index - PAGE_SIZE;
        } else {
            self.selected_index = 0;
        }
        self.update_scroll();
    }

    /// Moves the cursor a page down, stopping at the last row.
    pub fn page_down(&mut self)
        requires
            old(self).wf(),
        ensures
            final(self).wf(),
            final(self).same_but_cursor(old(self)),
            final(self).motion_count == old(self).motion_count,
            ({
                let last = if old(self).items@.len() > 0 { old(self).items@.len() - 1 } else { 0 };
                final(self).selected_index == if old(self).selected_index + PAGE_SIZE <= last {
                    old(self).selected_index + PAGE_SIZE
                } else {
                    last
                }
            }),
            final(self).scroll_offset == scroll_for(final(self).selected_index as int, old(self).scroll_offset as int),
    {
        let last: usize = if self.items.len() > 0 { self.items.len() - 1 } else { 0 };
        if self.selected_index < last && PAGE_SIZE <= last - self.selected_index {
            self.selected_index = self.selected_index + PAGE_SIZE;
        } else {
            self.selected_index = last;
        }
        self.update_scroll();
    }

    /// Jumps to the first row.
    pub fn go_to_start(&mut self)
        ensures
            final(self).wf(),
            final(self).same_but_cursor(old(self)),
            final(self).motion_count == old(self).motion_count,
            final(self).selected_index == 0,
            final(self).scroll_offset == 0,
    {
        self.selected_index = 0;
        self.scroll_offset = 0;
    }

    /// Jumps to the last row.
    pub fn go_to_end(&mut self)
        requires
            old(self).wf(),
        ensures
            final(self).wf(),
            final(self).same_but_cursor(old(self)),
            final(self).motion_count == old(self).motion_count,
            final(self).selected_index == if old(self).items@.len() > 0 { old(self).items@.len() - 1 } else { 0 },
            final(self).scroll_offset == scroll_for(final(self).selected_index as int, old(self).scroll_offset as int),
    {
        self.selected_index = if self.items.len() > 0 { self.items.len() - 1 } else { 0 };
        self.update_scroll();
    }

    /// How many items the list shows.
    pub fn result_count(&self) -> (r: usize)
        ensures
            r == self.items@.len(),
    {
        self.items.len()
    }
}

/// No item survives a query that matches no name.
proof fn lemma_survivors_empty(all: Seq<FuzzyItem>, q: Seq<char>)
    requires
        forall|i: int| 0 <= i < all.len() ==> skim_score(q, (#[trigger] all[i]).entry.name@).is_none(),
    ensures
        survivors(all, q).len() == 0,
    decreases all.len(),
{
    if all.len() > 0 {
        let prev = all.drop_last();
        assert forall|i: int| 0 <= i < prev.len() implies skim_score(q, (#[trigger] prev[i]).entry.name@).is_none() by {
            assert(prev[i] == all[i]);
        }
        lemma_survivors_empty(prev, q);
        assert(skim_score(q, all[all.len() - 1].entry.name@).is_none());
    }
}

/// No bookmark is added for a query that matches none of them.
proof fn lemma_overlay_unchanged(children: Seq<FuzzyItem>, base: Seq<FuzzyItem>, bms: Seq<DbDirEntry>, q: Seq<char>)
    requires
        forall|j: int| 0 <= j < bms.len() ==> bookmark_score(#[trigger] bms[j], q).is_none(),
    ensures
        overlay(children, base, bms, q) == base,
    decreases bms.len(),
{
    if bms.len() > 0 {
        let prev = bms.drop_last();
        assert forall|j: int| 0 <= j < prev.len() implies bookmark_score(#[trigger] prev[j], q).is_none() by {
            assert(prev[j] == bms[j]);
        }
        lemma_overlay_unchanged(children, base, prev, q);
        assert(bookmark_score(bms[bms.len() - 1], q).is_none());
    }
}

/// A non-empty query that matches no item name and no bookmark leaves the
/// filtered list empty.
pub proof fn lemma_no_match_empty(s: FuzzyState)
    requires
        s.shows_filter(),
        s.search_query@.len() > 0,
        forall|i: int| 0 <= i < s.all_items@.len()
            ==> skim_score(s.search_query@, (#[trigger] s.all_items@[i]).entry.name@).is_none(),
        forall|j: int| 0 <= j < s.bookmarks@.len()
            ==> bookmark_score(#[trigger] s.bookmarks@[j], s.search_query@).is_none(),
    ensures
        s.items@.len() == 0,
{
    let q = s.search_query@;
    lemma_survivors_empty(s.all_items@, q);
    lemma_overlay_unchanged(s.all_items@, survivors(s.all_items@, q), s.bookmarks@, q);
    assert(candidates(s.all_items@, s.bookmarks@, q).len() == 0);
    assert(s.items@.to_multiset().len() == s.items@.len());
}

/// Descending into a child and moving back to its parent shows the starting
/// directory's list again, in the same order, when the parent's scan gives
/// what it gave before.
pub proof fn lemma_into_then_back_restores(
    start: FuzzyState,
    inside: FuzzyState,
    back: FuzzyState,
    dir: Seq<char>,
    child: Seq<char>,
    dir_entries: Seq<DirEntry>,
    child_entries: Seq<DirEntry>,
)
    requires
        start.is_loaded(dir, dir_entries, start.bookmarks@, start.show_hidden),
        inside.is_loaded(child, child_entries, start.bookmarks@, start.show_hidden),
        safe_parent(child) == Some(dir),
        back.is_loaded(safe_parent(inside.current_dir@)->Some_0, dir_entries, inside.bookmarks@, inside.show_hidden),
    ensures
        back.current_dir@ == start.current_dir@,
        back.all_items@ == start.all_items@,
        back.items@ == start.items@,
        back.show_hidden == start.show_hidden,
{
}

/// When the candidates of a non-empty query have pairwise different
/// case-insensitive names, the filtered list is strictly ordered: each row
/// has a higher score than the next, or the same score and a smaller name.
pub proof fn lemma_filter_strictly_ranked(s: FuzzyState)
    requires
        s.shows_filter(),
        s.search_query@.len() > 0,
        ({
            let c = candidates(s.all_items@, s.bookmarks@, s.search_query@);
            forall|k: int, l: int| 0 <= k < l < c.len()
                ==> lowercase_of((#[trigger] c[k]).entry.name@) != lowercase_of((#[trigger] c[l]).entry.name@)
        }),
    ensures
        forall|i: int, j: int| 0 <= i < j < s.items@.len()
            ==> (#[trigger] s.items@[i]).match_score > (#[trigger] s.items@[j]).match_score
            || (s.items@[i].match_score == s.items@[j].match_score
                && lex_le(lowercase_of(s.items@[i].entry.name@), lowercase_of(s.items@[j].entry.name@))
                && !lex_le(lowercase_of(s.items@[j].entry.name@), lowercase_of(s.items@[i].entry.name@))),
{
    let c = candidates(s.all_items@, s.bookmarks@, s.search_query@);
    let v = s.items@;
    assert forall|k: int, l: int| 0 <= k < c.len() && 0 <= l < c.len() && k != l implies c[k] != c[l] by {
        if k < l {
            assert(lowercase_of(c[k].entry.name@) != lowercase_of(c[l].entry.name@));
        } else {
            assert(lowercase_of(c[l].entry.name@) != lowercase_of(c[k].entry.name@));
        }
    }
    assert(c.no_duplicates());
    c.lemma_multiset_has_no_duplicates();
    v.lemma_multiset_has_no_duplicates_conv();
    assert forall|i: int, j: int| 0 <= i < j < v.len()
        implies lowercase_of((#[trigger] v[i]).entry.name@) != lowercase_of((#[trigger] v[j]).entry.name@) by {
        assert(v.contains(v[i]));
        assert(v.contains(v[j]));
        assert(v.to_multiset().count(v[i]) > 0);
        assert(v.to_multiset().count(v[j]) > 0);
        assert(c.contains(v[i]));
        assert(c.contains(v[j]));
        let k = choose|k: int| 0 <= k < c.len() && c[k] == v[i];
        let l = choose|l: int| 0 <= l < c.len() && c[l] == v[j];
        assert(v[i] != v[j]);
        assert(k != l);
        if k < l {
            assert(lowercase_of(c[k].entry.name@) != lowercase_of(c[l].entry.name@));
        } else {
            assert(lowercase_of(c[l].entry.name@) != lowercase_of(c[k].entry.name@));
        }
    }
    crate::rank::lemma_ranked_strict(v);
}

} // verus!
