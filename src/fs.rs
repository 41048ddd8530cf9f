use vstd::prelude::*;

use crate::rank::{lemma_lex_total, lemma_lex_trans, lex_le, lex_le_exec};
use crate::text::{lowercase_of, to_lowercase};

verus! {

broadcast use vstd::seq_lib::group_to_multiset_ensures;

/// What `Path::parent` gives for a path: the path without its final
/// component, or nothing for a root or an empty path.
pub uninterp spec fn parent_of(path: Seq<char>) -> Option<Seq<char>>;

/// A directory found by a scan: its full path and its own name.
#[derive(Debug, Clone)]
pub struct DirEntry {
    pub path: String,
    pub name: String,
}

/// Why a directory could not be scanned.
#[derive(Debug, Clone, PartialEq, Eq)]
pub enum ScanError {
    NotFound(String),
    NotDirectory(String),
    IoError(String),
}

/// Relies on `std::path::Path::parent`: the path without its final component.
#[verifier::external_body]
pub(crate) fn path_parent(path: &str) -> (r: Option<String>)
    ensures
        match r {
            Some(p) => parent_of(path@) == Some(p@),
            None => parent_of(path@).is_none(),
        },
{
    std::path::Path::new(path).parent().map(|p| p.to_string_lossy().into_owned())
}

/// The parent that navigation may move to: none for the root `/`, and none
/// where the parent would be empty (a relative path of one component).
pub open spec fn safe_parent(path: Seq<char>) -> Option<Seq<char>> {
    if path == seq!['/'] {
        None
    } else {
        match parent_of(path) {
            Some(p) => if p.len() > 0 { Some(p) } else { None },
            None => None,
        }
    }
}

/// An optional string as an optional sequence of characters.
pub open spec fn opt_view(r: Option<String>) -> Option<Seq<char>> {
    match r {
        Some(s) => Some(s@),
        None => None,
    }
}

/// The parent directory to move up to, if there is one.
pub fn get_safe_parent(dir: &str) -> (r: Option<String>)
    ensures
        opt_view(r) == safe_parent(dir@),
{
    let chars = dir.unicode_len();
    if chars == 1 && dir.get_char(0) == '/' {
        assert(dir@ =~= seq!['/']);
        return None;
    }
    proof {
        if dir@ == seq!['/'] {
            assert(dir@.len() == 1 && dir@[0] == '/');
        }
    }
    match path_parent(dir) {
        Some(p) => {
            if p.as_str().unicode_len() > 0 {
                Some(p)
            } else {
                None
            }
        },
        None => None,
    }
}

/// A dot-named entry, hidden unless asked for.
pub open spec fn is_hidden_name(name: Seq<char>) -> bool {
    name.len() > 0 && name[0] == '.'
}

/// The scanned entries that are shown, in scan order.
pub open spec fn shown_entries(raw: Seq<DirEntry>, show_hidden: bool) -> Seq<DirEntry>
    decreases raw.len(),
{
    if raw.len() == 0 {
        Seq::empty()
    } else {
        let prev = shown_entries(raw.drop_last(), show_hidden);
        if show_hidden || !is_hidden_name(raw.last().name@) { prev.push(raw.last()) } else { prev }
    }
}

/// Entry `a` may stand before `b`: its case-insensitive name is not greater.
pub open spec fn name_le(a: DirEntry, b: DirEntry) -> bool {
    lex_le(lowercase_of(a.name@), lowercase_of(b.name@))
}

/// Sorted by case-insensitive name.
pub open spec fn is_name_sorted(s: Seq<DirEntry>) -> bool {
    forall|i: int, j: int| 0 <= i < j < s.len() ==> name_le(#[trigger] s[i], #[trigger] s[j])
}

/// The listing of a directory from what a scan found: dot-named entries
/// dropped unless `show_hidden`, the rest by case-insensitive name, entries
/// whose names tie keeping their order.
pub fn arrange_scan(raw: Vec<DirEntry>, show_hidden: bool) -> (r: Vec<DirEntry>)
    ensures
        is_name_sorted(r@),
        r@.to_multiset() == shown_entries(raw@, show_hidden).to_multiset(),
{
    let mut out: Vec<DirEntry> = Vec::new();
    let mut keys: Vec<String> = Vec::new();
    let mut i: usize = 0;
    while i < raw.len()
        invariant
            i <= raw@.len(),
            keys@.len() == out@.len(),
            forall|k: int| 0 <= k < out@.len() ==> #[trigger] keys@[k]@ == lowercase_of(out@[k].name@),
            is_name_sorted(out@),
            out@.to_multiset() == shown_entries(raw@.subrange(0, i as int), show_hidden).to_multiset(),
        decreases raw@.len() - i,
    {
        assert(raw@.subrange(0, i + 1).drop_last() =~= raw@.subrange(0, i as int));
        let name = &raw[i].name;
        let hidden = name.as_str().unicode_len() > 0 && name.as_str().get_char(0) == '.';
        assert(hidden == is_hidden_name(raw@[i as int].name@));
        assert(raw@.subrange(0, i + 1).last() == raw@[i as int]);
        if show_hidden || !hidden {
            let x = DirEntry { path: raw[i].path.clone(), name: raw[i].name.clone() };
            assert(x == raw@[i as int]);
            let x_key = to_lowercase(x.name.as_str());
            let mut p: usize = 0;
            while p < out.len() && lex_le_exec(keys[p].as_str(), x_key.as_str())
                invariant
                    p <= out@.len(),
                    x_key@ == lowercase_of(x.name@),
                    keys@.len() == out@.len(),
                    forall|k: int| 0 <= k < out@.len() ==> #[trigger] keys@[k]@ == lowercase_of(out@[k].name@),
                    forall|k: int| 0 <= k < p ==> name_le(#[trigger] out@[k], x),
                decreases out@.len() - p,
            {
                p = p + 1;
            }
            proof {
                assert forall|k: int| p <= k < out@.len() implies name_le(x, #[trigger] out@[k]) by {
                    assert(!name_le(out@[p as int], x));
                    if k > p {
                        assert(name_le(out@[p as int], out@[k]));
                        if name_le(out@[k], x) {
                            lemma_lex_trans(lowercase_of(out@[p as int].name@), lowercase_of(out@[k].name@), lowercase_of(x.name@));
                        }
                    }
                    lemma_lex_total(lowercase_of(out@[k].name@), lowercase_of(x.name@));
                }
            }
            let ghost before = out@;
            out.insert(p, x);
            keys.insert(p, x_key);
            proof {
                assert(out@ == before.insert(p as int, x));
                assert(shown_entries(raw@.subrange(0, i + 1), show_hidden)
                    == shown_entries(raw@.subrange(0, i as int), show_hidden).push(x));
                assert forall|k: int| 0 <= k < out@.len() implies #[trigger] keys@[k]@ == lowercase_of(out@[k].name@) by {
                    if k > p {
                        assert(out@[k] == before[k - 1]);
                    }
                }
                assert forall|a: int, b: int| 0 <= a < b < out@.len() implies name_le(#[trigger] out@[a], #[trigger] out@[b]) by {
                    if b < p {
                        assert(out@[a] == before[a] && out@[b] == before[b]);
                    } else if b == p {
                        assert(out@[a] == before[a]);
                    } else if a < p {
                        assert(out@[a] == before[a] && out@[b] == before[b - 1]);
                        lemma_lex_trans(lowercase_of(before[a].name@), lowercase_of(x.name@), lowercase_of(before[b - 1].name@));
                    } else if a == p {
                        assert(out@[b] == before[b - 1]);
                    } else {
                        assert(out@[a] == before[a - 1] && out@[b] == before[b - 1]);
                    }
                }
            }
        }
        i = i + 1;
    }
    assert(raw@.subrange(0, raw@.len() as int) =~= raw@);
    out
}

} // verus!
