use vstd::prelude::*;

use crate::fs::DirEntry;
use crate::text::{lowercase_of, to_lowercase};

use fuzzy_matcher::FuzzyMatcher;

verus! {

broadcast use vstd::seq_lib::group_to_multiset_ensures;

/// The score that the skim fuzzy matcher gives `text` for `pattern`, or
/// nothing when `text` does not match.
pub uninterp spec fn skim_score(pattern: Seq<char>, text: Seq<char>) -> Option<i64>;

/// What the skim fuzzy matcher reports for `text` and `pattern`: the score
/// and the positions of the matched characters, or nothing when `text` does
/// not match.
pub uninterp spec fn skim_indices(pattern: Seq<char>, text: Seq<char>) -> Option<(i64, Seq<usize>)>;

/// A text with how well it matched a pattern.
#[derive(Debug, Clone)]
pub struct MatchResult {
    pub text: String,
    pub score: i64,
    pub indices: Vec<usize>,
    pub is_match: bool,
}

/// A match result as plain values: text, score, positions, whether it matched.
pub open spec fn result_view(m: MatchResult) -> (Seq<char>, i64, Seq<usize>, bool) {
    (m.text@, m.score, m.indices@, m.is_match)
}

/// What matching `text` against `pattern` gives: an empty pattern matches
/// everything with score 0; a text that does not match gets the lowest score.
pub open spec fn match_view(pattern: Seq<char>, text: Seq<char>) -> (Seq<char>, i64, Seq<usize>, bool) {
    if pattern.len() == 0 {
        (text, 0, Seq::empty(), true)
    } else {
        match skim_indices(pattern, text) {
            Some((s, ix)) => (text, s, ix, true),
            None => (text, i64::MIN, Seq::empty(), false),
        }
    }
}

/// The match results that a list keeps, in the order of the texts: all of
/// them for an empty pattern, else those that matched.
pub open spec fn kept_matches(pattern: Seq<char>, texts: Seq<&str>) -> Seq<(Seq<char>, i64, Seq<usize>, bool)>
    decreases texts.len(),
{
    if texts.len() == 0 {
        Seq::empty()
    } else {
        let prev = kept_matches(pattern, texts.drop_last());
        let m = match_view(pattern, texts.last()@);
        if pattern.len() == 0 || m.1 > i64::MIN { prev.push(m) } else { prev }
    }
}

/// Highest score first.
pub open spec fn by_score_desc(s: Seq<(Seq<char>, i64, Seq<usize>, bool)>) -> bool {
    forall|i: int, j: int| 0 <= i < j < s.len() ==> (#[trigger] s[i]).1 >= (#[trigger] s[j]).1
}

/// Relies on `fuzzy_matcher::skim::SkimMatcherV2::fuzzy_indices` in its
/// default configuration: the score and matched positions of `text` for
/// `pattern`, `None` when it does not match.
#[verifier::external_body]
fn skim_fuzzy_indices(pattern: &str, text: &str) -> (r: Option<(i64, Vec<usize>)>)
    ensures
        match r {
            Some(found) => skim_indices(pattern@, text@) == Some((found.0, found.1@)),
            None => skim_indices(pattern@, text@).is_none(),
        },
{
    fuzzy_matcher::skim::SkimMatcherV2::default().fuzzy_indices(text, pattern)
}

/// Scores names against a query with the skim algorithm.
#[derive(Debug, Clone, Copy)]
pub struct FuzzyMatchEngine {}

impl FuzzyMatchEngine {
    pub fn new() -> Self {
        FuzzyMatchEngine {  }
    }

    /// Relies on `fuzzy_matcher::skim::SkimMatcherV2::fuzzy_match` in its
    /// default configuration: the match score of `text` for `pattern`, `None`
    /// when it does not match.
    #[verifier::external_body]
    pub fn get_score(&self, pattern: &str, text: &str) -> (r: Option<i64>)
        ensures
            r == skim_score(pattern@, text@),
    {
        fuzzy_matcher::skim::SkimMatcherV2::default().fuzzy_match(text, pattern)
    }

    /// The positions of `pattern`'s characters in `text`, if it matches.
    pub fn get_indices(&self, pattern: &str, text: &str) -> (r: Option<Vec<usize>>)
        ensures
            match r {
                Some(ix) => skim_indices(pattern@, text@) matches Some(found) && found.1 == ix@,
                None => skim_indices(pattern@, text@).is_none(),
            },
    {
        match skim_fuzzy_indices(pattern, text) {
            Some(found) => Some(found.1),
            None => None,
        }
    }

    /// Matches one text against a pattern.
    pub fn match_text(&self, pattern: &str, text: &str) -> (r: Option<MatchResult>)
        ensures
            r matches Some(m) && result_view(m) == match_view(pattern@, text@),
    {
        if pattern.unicode_len() == 0 {
            return Some(MatchResult { text: String::from_str(text), score: 0, indices: Vec::new(), is_match: true });
        }
        match skim_fuzzy_indices(pattern, text) {
            Some(found) => Some(MatchResult { text: String::from_str(text), score: found.0, indices: found.1, is_match: true }),
            None => Some(MatchResult { text: String::from_str(text), score: i64::MIN, indices: Vec::new(), is_match: false }),
        }
    }

    /// Matches every text against a pattern and keeps those that matched
    /// (all of them for an empty pattern), highest score first.
    pub fn match_list(&self, pattern: &str, texts: &[&str]) -> (r: Vec<MatchResult>)
        ensures
            by_score_desc(r@.map_values(|m: MatchResult| result_view(m))),
            r@.map_values(|m: MatchResult| result_view(m)).to_multiset() == kept_matches(pattern@, texts@).to_multiset(),
    {
        let empty = pattern.unicode_len() == 0;
        let mut out: Vec<MatchResult> = Vec::new();
        let ghost kept: Seq<(Seq<char>, i64, Seq<usize>, bool)> = Seq::empty();
        let mut i: usize = 0;
        while i < texts.len()
            invariant
                empty == (pattern@.len() == 0),
                i <= texts@.len(),
                by_score_desc(out@.map_values(|m: MatchResult| result_view(m))),
                out@.map_values(|m: MatchResult| result_view(m)).to_multiset()
                    == kept_matches(pattern@, texts@.subrange(0, i as int)).to_multiset(),
            decreases texts@.len() - i,
        {
            let ghost pre = texts@.subrange(0, i as int);
            assert(texts@.subrange(0, i + 1).drop_last() =~= pre);
            let m = self.match_text(pattern, texts[i]).unwrap();
            if empty || m.score > i64::MIN {
                let mut p: usize = 0;
                while p < out.len() && out[p].score >= m.score
                    invariant
                        p <= out@.len(),
                        forall|k: int| 0 <= k < p ==> (#[trigger] out@[k]).score >= m.score,
                    decreases out@.len() - p,
                {
                    p = p + 1;
                }
                let ghost before = out@;
                let ghost mv = result_view(m);
                out.insert(p, m);
                proof {
                    let views = out@.map_values(|m: MatchResult| result_view(m));
                    let old_views = before.map_values(|m: MatchResult| result_view(m));
                    assert(views =~= old_views.insert(p as int, mv));
                    assert forall|a: int, b: int| 0 <= a < b < views.len() implies (#[trigger] views[a]).1 >= (#[trigger] views[b]).1 by {
                        if b < p {
                        } else if b == p {
                        } else if a < p {
                            assert(before[b - 1].score < mv.1 || before[p as int].score < mv.1);
                        } else if a == p {
                            assert(before[p as int].score < mv.1);
                            assert(old_views[p as int].1 >= old_views[b - 1].1);
                        } else {
                        }
                    }
                }
            }
            i = i + 1;
        }
        assert(texts@.subrange(0, texts@.len() as int) =~= texts@);
        out
    }
}

/// A persisted directory record as the navigator sees it: a bookmark when
/// `is_bookmark` holds, addressed by `bookmark_key`.
#[derive(Debug, Clone)]
pub struct DbDirEntry {
    pub path: String,
    pub name: String,
    pub is_bookmark: bool,
    pub bookmark_key: Option<String>,
}

/// One row of the navigator's list.
#[derive(Debug, Clone)]
pub struct FuzzyItem {
    pub entry: DirEntry,
    pub match_score: i64,
    pub is_bookmark: bool,
    pub bookmark_key: Option<String>,
}

/// An item with its match score replaced.
pub open spec fn scored(it: FuzzyItem, s: i64) -> FuzzyItem {
    FuzzyItem { entry: it.entry, match_score: s, is_bookmark: it.is_bookmark, bookmark_key: it.bookmark_key }
}

/// The item that stands for bookmark `bm` with score `s`.
pub open spec fn bookmark_item(bm: DbDirEntry, s: i64) -> FuzzyItem {
    FuzzyItem {
        entry: DirEntry { path: bm.path, name: bm.name },
        match_score: s,
        is_bookmark: true,
        bookmark_key: bm.bookmark_key,
    }
}

/// The items whose name matches `q`, in their order, each with its score.
pub open spec fn survivors(items: Seq<FuzzyItem>, q: Seq<char>) -> Seq<FuzzyItem>
    decreases items.len(),
{
    if items.len() == 0 {
        Seq::empty()
    } else {
        let prev = survivors(items.drop_last(), q);
        match skim_score(q, items.last().entry.name@) {
            Some(s) => prev.push(scored(items.last(), s)),
            None => prev,
        }
    }
}

/// The larger of two optional scores; a present score beats an absent one.
pub open spec fn best_of(a: Option<i64>, b: Option<i64>) -> Option<i64> {
    match (a, b) {
        (Some(x), Some(y)) => Some(if x >= y { x } else { y }),
        (Some(x), None) => Some(x),
        (None, Some(y)) => Some(y),
        (None, None) => None,
    }
}

/// A bookmark's score: the better of its name's and its key's.
pub open spec fn bookmark_score(bm: DbDirEntry, q: Seq<char>) -> Option<i64> {
    best_of(
        skim_score(q, bm.name@),
        match bm.bookmark_key {
            Some(k) => skim_score(q, k@),
            None => None,
        },
    )
}

/// Some item of `items` has path `p`.
pub open spec fn has_path(items: Seq<FuzzyItem>, p: Seq<char>) -> bool {
    exists|i: int| 0 <= i < items.len() && #[trigger] items[i].entry.path@ == p
}

/// `base` with each matching bookmark of `bms` appended, in order, unless
/// its path is one of the directory's items `children` or is already among
/// the rows added.
pub open spec fn overlay(children: Seq<FuzzyItem>, base: Seq<FuzzyItem>, bms: Seq<DbDirEntry>, q: Seq<char>) -> Seq<FuzzyItem>
    decreases bms.len(),
{
    if bms.len() == 0 {
        base
    } else {
        let prev = overlay(children, base, bms.drop_last(), q);
        let bm = bms.last();
        match bookmark_score(bm, q) {
            Some(s) => if has_path(children, bm.path@) || has_path(prev, bm.path@) {
                prev
            } else {
                prev.push(bookmark_item(bm, s))
            },
            None => prev,
        }
    }
}

/// What a non-empty query keeps, before ranking: the directory's items
/// whose names match, and the matching bookmarks that are not children of
/// the directory.
pub open spec fn candidates(all: Seq<FuzzyItem>, bms: Seq<DbDirEntry>, q: Seq<char>) -> Seq<FuzzyItem> {
    overlay(all, survivors(all, q), bms, q)
}

/// Lexicographic order of character sequences by code point (that of `str`'s `Ord`).
pub open spec fn lex_le(a: Seq<char>, b: Seq<char>) -> bool
    decreases a.len(),
{
    if a.len() == 0 {
        true
    } else if b.len() == 0 {
        false
    } else if a[0] as u32 != b[0] as u32 {
        (a[0] as u32) < (b[0] as u32)
    } else {
        lex_le(a.drop_first(), b.drop_first())
    }
}

/// `a` may stand before `b`: a higher score, or an equal one and a
/// case-insensitive name that is not greater.
pub open spec fn ranks_before(a: FuzzyItem, b: FuzzyItem) -> bool {
    a.match_score > b.match_score || (a.match_score == b.match_score && lex_le(
        lowercase_of(a.entry.name@),
        lowercase_of(b.entry.name@),
    ))
}

/// Sorted by descending score, then ascending case-insensitive name.
pub open spec fn is_ranked(s: Seq<FuzzyItem>) -> bool {
    forall|i: int, j: int| 0 <= i < j < s.len() ==> ranks_before(#[trigger] s[i], #[trigger] s[j])
}

pub proof fn lemma_lex_total(a: Seq<char>, b: Seq<char>)
    ensures
        lex_le(a, b) || lex_le(b, a),
    decreases a.len(),
{
    if a.len() > 0 && b.len() > 0 && a[0] as u32 == b[0] as u32 {
        lemma_lex_total(a.drop_first(), b.drop_first());
    }
}

pub proof fn lemma_lex_trans(a: Seq<char>, b: Seq<char>, c: Seq<char>)
    requires
        lex_le(a, b),
        lex_le(b, c),
    ensures
        lex_le(a, c),
    decreases a.len(),
{
    if a.len() > 0 && b.len() > 0 && c.len() > 0 && a[0] as u32 == b[0] as u32 && b[0] as u32 == c[0] as u32 {
        lemma_lex_trans(a.drop_first(), b.drop_first(), c.drop_first());
    }
}

/// Two sequences that each come before the other are equal.
pub proof fn lemma_lex_antisymmetric(a: Seq<char>, b: Seq<char>)
    requires
        lex_le(a, b),
        lex_le(b, a),
    ensures
        a == b,
    decreases a.len(),
{
    if a.len() > 0 && b.len() > 0 {
        lemma_lex_antisymmetric(a.drop_first(), b.drop_first());
        assert(a[0] as u32 == b[0] as u32);
        vstd::utf8::char_u32_cast(a[0], a[0] as u32);
        vstd::utf8::char_u32_cast(b[0], b[0] as u32);
        assert(a[0] == b[0]);
        assert(a =~= seq![a[0]] + a.drop_first());
        assert(b =~= seq![b[0]] + b.drop_first());
    }
}

/// In a ranked list whose case-insensitive names differ pairwise, every row
/// comes strictly before the next: a higher score, or an equal score and a
/// smaller name.
pub proof fn lemma_ranked_strict(s: Seq<FuzzyItem>)
    requires
        is_ranked(s),
        forall|i: int, j: int| 0 <= i < j < s.len()
            ==> lowercase_of((#[trigger] s[i]).entry.name@) != lowercase_of((#[trigger] s[j]).entry.name@),
    ensures
        forall|i: int, j: int| 0 <= i < j < s.len() ==> (#[trigger] s[i]).match_score > (#[trigger] s[j]).match_score
            || ((s[i]).match_score == (s[j]).match_score
                && lex_le(lowercase_of(s[i].entry.name@), lowercase_of(s[j].entry.name@))
                && !lex_le(lowercase_of(s[j].entry.name@), lowercase_of(s[i].entry.name@))),
{
    assert forall|i: int, j: int| 0 <= i < j < s.len() implies (#[trigger] s[i]).match_score > (#[trigger] s[j]).match_score
        || ((s[i]).match_score == (s[j]).match_score
            && lex_le(lowercase_of(s[i].entry.name@), lowercase_of(s[j].entry.name@))
            && !lex_le(lowercase_of(s[j].entry.name@), lowercase_of(s[i].entry.name@))) by {
        let a = lowercase_of(s[i].entry.name@);
        let b = lowercase_of(s[j].entry.name@);
        assert(ranks_before(s[i], s[j]));
        if s[i].match_score == s[j].match_score && lex_le(b, a) {
            lemma_lex_antisymmetric(a, b);
        }
    }
}

pub proof fn lemma_ranks_total(a: FuzzyItem, b: FuzzyItem)
    ensures
        ranks_before(a, b) || ranks_before(b, a),
{
    lemma_lex_total(lowercase_of(a.entry.name@), lowercase_of(b.entry.name@));
}

pub proof fn lemma_ranks_trans(a: FuzzyItem, b: FuzzyItem, c: FuzzyItem)
    requires
        ranks_before(a, b),
        ranks_before(b, c),
    ensures
        ranks_before(a, c),
{
    if a.match_score == b.match_score && b.match_score == c.match_score {
        lemma_lex_trans(
            lowercase_of(a.entry.name@),
            lowercase_of(b.entry.name@),
            lowercase_of(c.entry.name@),
        );
    }
}

/// An exact copy of an optional string.
pub fn copy_opt(s: &Option<String>) -> (r: Option<String>)
    ensures
        r == *s,
{
    match s {
        Some(v) => Some(v.clone()),
        None => None,
    }
}

impl DirEntry {
    /// An exact copy.
    pub fn copy(&self) -> (r: DirEntry)
        ensures
            r == *self,
    {
        DirEntry { path: self.path.clone(), name: self.name.clone() }
    }
}

impl FuzzyItem {
    /// A directory found by a scan, not a bookmark.
    pub fn new(entry: DirEntry, match_score: i64) -> (r: Self)
        ensures
            r == (FuzzyItem { entry, match_score, is_bookmark: false, bookmark_key: None }),
    {
        FuzzyItem { entry, match_score, is_bookmark: false, bookmark_key: None }
    }

    /// The item that stands for a bookmark, with score 0.
    pub fn from_bookmark(db_entry: &DbDirEntry) -> (r: Self)
        ensures
            r == bookmark_item(*db_entry, 0),
    {
        FuzzyItem {
            entry: DirEntry { path: db_entry.path.clone(), name: db_entry.name.clone() },
            match_score: 0,
            is_bookmark: true,
            bookmark_key: copy_opt(&db_entry.bookmark_key),
        }
    }

    /// The item's path.
    pub fn path(&self) -> (r: String)
        ensures
            r == self.entry.path,
    {
        self.entry.path.clone()
    }

    /// An exact copy.
    pub fn copy(&self) -> (r: FuzzyItem)
        ensures
            r == *self,
    {
        FuzzyItem {
            entry: self.entry.copy(),
            match_score: self.match_score,
            is_bookmark: self.is_bookmark,
            bookmark_key: copy_opt(&self.bookmark_key),
        }
    }
}

/// An exact copy of a list of items.
pub fn copy_items(v: &Vec<FuzzyItem>) -> (r: Vec<FuzzyItem>)
    ensures
        r@ == v@,
{
    let mut out: Vec<FuzzyItem> = Vec::new();
    let mut i: usize = 0;
    while i < v.len()
        invariant
            i <= v@.len(),
            out@ == v@.subrange(0, i as int),
        decreases v@.len() - i,
    {
        out.push(v[i].copy());
        i = i + 1;
        assert(out@ =~= v@.subrange(0, i as int));
    }
    assert(out@ =~= v@);
    out
}

/// Whether `a` comes before or equals `b` in code-point order.
pub fn lex_le_exec(a: &str, b: &str) -> (r: bool)
    ensures
        r == lex_le(a@, b@),
{
    let la = a.unicode_len();
    let lb = b.unicode_len();
    let mut i: usize = 0;
    assert(a@.subrange(0, la as int) =~= a@);
    assert(b@.subrange(0, lb as int) =~= b@);
    while i < la && i < lb
        invariant
            la == a@.len(),
            lb == b@.len(),
            i <= la,
            i <= lb,
            lex_le(a@, b@) == lex_le(a@.subrange(i as int, la as int), b@.subrange(i as int, lb as int)),
        decreases la - i,
    {
        let ca = a.get_char(i);
        let cb = b.get_char(i);
        let ghost sa = a@.subrange(i as int, la as int);
        let ghost sb = b@.subrange(i as int, lb as int);
        assert(sa[0] == ca && sb[0] == cb);
        if ca as u32 != cb as u32 {
            return (ca as u32) < (cb as u32);
        }
        assert(sa.drop_first() =~= a@.subrange(i + 1, la as int));
        assert(sb.drop_first() =~= b@.subrange(i + 1, lb as int));
        i = i + 1;
    }
    i == la
}

/// Whether `a` may stand before `b`, given their lowercase names.
fn ranks_before_exec(a: &FuzzyItem, a_key: &String, b: &FuzzyItem, b_key: &String) -> (r: bool)
    requires
        a_key@ == lowercase_of(a.entry.name@),
        b_key@ == lowercase_of(b.entry.name@),
    ensures
        r == ranks_before(*a, *b),
{
    a.match_score > b.match_score || (a.match_score == b.match_score && lex_le_exec(a_key.as_str(), b_key.as_str()))
}

/// The items ranked: descending score, then ascending case-insensitive name,
/// items that tie keeping their order.
pub fn rank_items(v: Vec<FuzzyItem>) -> (r: Vec<FuzzyItem>)
    ensures
        is_ranked(r@),
        r@.to_multiset() == v@.to_multiset(),
{
    let mut out: Vec<FuzzyItem> = Vec::new();
    let mut keys: Vec<String> = Vec::new();
    let mut i: usize = 0;
    while i < v.len()
        invariant
            i <= v@.len(),
            keys@.len() == out@.len(),
            forall|k: int| 0 <= k < out@.len() ==> #[trigger] keys@[k]@ == lowercase_of(out@[k].entry.name@),
            is_ranked(out@),
            out@.to_multiset() == v@.subrange(0, i as int).to_multiset(),
        decreases v@.len() - i,
    {
        let x = v[i].copy();
        let x_key = to_lowercase(x.entry.name.as_str());
        let mut p: usize = 0;
        while p < out.len() && ranks_before_exec(&out[p], &keys[p], &x, &x_key)
            invariant
                p <= out@.len(),
                x_key@ == lowercase_of(x.entry.name@),
                keys@.len() == out@.len(),
                forall|k: int| 0 <= k < out@.len() ==> #[trigger] keys@[k]@ == lowercase_of(out@[k].entry.name@),
                forall|k: int| 0 <= k < p ==> ranks_before(#[trigger] out@[k], x),
            decreases out@.len() - p,
        {
            p = p + 1;
        }
        proof {
            assert forall|k: int| p <= k < out@.len() implies ranks_before(x, #[trigger] out@[k]) by {
                assert(!ranks_before(out@[p as int], x));
                if k > p {
                    assert(ranks_before(out@[p as int], out@[k]));
                    if ranks_before(out@[k], x) {
                        lemma_ranks_trans(out@[p as int], out@[k], x);
                    }
                }
                lemma_ranks_total(out@[k], x);
            }
        }
        let ghost before = out@;
        out.insert(p, x);
        keys.insert(p, x_key);
        proof {
            assert(v@.subrange(0, i + 1) =~= v@.subrange(0, i as int).push(v@[i as int]));
            assert forall|k: int| 0 <= k < out@.len() implies #[trigger] keys@[k]@ == lowercase_of(out@[k].entry.name@) by {
                if k < p {
                } else if k == p {
                } else {
                    assert(out@[k] == before[k - 1]);
                }
            }
            assert forall|a: int, b: int| 0 <= a < b < out@.len() implies ranks_before(#[trigger] out@[a], #[trigger] out@[b]) by {
                if b < p {
                    assert(out@[a] == before[a] && out@[b] == before[b]);
                } else if b == p {
                    assert(out@[a] == before[a]);
                } else if a < p {
                    assert(out@[a] == before[a] && out@[b] == before[b - 1]);
                    assert(ranks_before(before[a], x));
                    assert(ranks_before(x, before[b - 1]));
                    lemma_ranks_trans(before[a], x, before[b - 1]);
                } else if a == p {
                    assert(out@[b] == before[b - 1]);
                } else {
                    assert(out@[a] == before[a - 1] && out@[b] == before[b - 1]);
                }
            }
        }
        i = i + 1;
    }
    assert(v@.subrange(0, v@.len() as int) =~= v@);
    out
}

} // verus!
