use vstd::prelude::*;

use crate::text::{ascii_upper, push_char, to_ascii_upper};

verus! {

/// The label alphabet, in the order in which labels are handed out.
pub open spec fn keys() -> Seq<char> {
    seq!['A', 'S', 'D', 'F', 'G', 'H', 'J', 'K', 'L', 'Q', 'W', 'E', 'R', 'U', 'I', 'O']
}

/// How many labels there are at most: every pair of alphabet symbols.
pub const MAX_LABELS: usize = 256;

/// A two-character address of a list entry.
#[derive(Debug, Clone, PartialEq, Eq)]
pub struct Label {
    pub chars: [char; 2],
}

/// The characters of the label at index `i`: the alphabet drives the first
/// character in the outer loop and the second in the inner one.
pub open spec fn label_chars(i: int) -> Seq<char> {
    seq![keys()[i / 16], keys()[i % 16]]
}

/// The labels handed out for a list of `count` entries.
pub open spec fn label_count(count: nat) -> nat {
    if count < 256 { count } else { 256 }
}

/// `labels` is the label set for `n` entries.
pub open spec fn is_label_set(labels: Seq<Label>, n: nat) -> bool {
    &&& labels.len() == label_count(n)
    &&& forall|i: int| 0 <= i < labels.len() ==> #[trigger] labels[i].chars@ == label_chars(i)
}

/// Label `l` is addressed by the keystrokes `first` and `second`, in either case.
pub open spec fn spec_matches(l: Label, first: char, second: char) -> bool {
    l.chars@[0] == ascii_upper(first) && l.chars@[1] == ascii_upper(second)
}

/// The alphabet symbol at position `i`.
fn key(i: usize) -> (c: char)
    requires
        i < 16,
    ensures
        c == keys()[i as int],
{
    match i {
        0 => 'A',
        1 => 'S',
        2 => 'D',
        3 => 'F',
        4 => 'G',
        5 => 'H',
        6 => 'J',
        7 => 'K',
        8 => 'L',
        9 => 'Q',
        10 => 'W',
        11 => 'E',
        12 => 'R',
        13 => 'U',
        14 => 'I',
        _ => 'O',
    }
}

impl Label {
    pub fn new(first: char, second: char) -> (r: Self)
        ensures
            r.chars@ == seq![first, second],
    {
        let r = Label { chars: [first, second] };
        assert(r.chars@ =~= seq![first, second]);
        r
    }

    /// The two characters as a string.
    pub fn as_str(&self) -> (r: String)
        ensures
            r@ == self.chars@,
    {
        let mut s = String::new();
        push_char(&mut s, self.chars[0]);
        push_char(&mut s, self.chars[1]);
        assert(s@ =~= self.chars@);
        s
    }

    /// Whether `c`, in either case, is the label's first character.
    pub fn matches_first(&self, c: char) -> (r: bool)
        ensures
            r == (self.chars@[0] == ascii_upper(c)),
    {
        self.chars[0] == to_ascii_upper(c)
    }

    /// Whether `c`, in either case, is the label's second character.
    pub fn matches_second(&self, c: char) -> (r: bool)
        ensures
            r == (self.chars@[1] == ascii_upper(c)),
    {
        self.chars[1] == to_ascii_upper(c)
    }

    /// Whether typing `first` then `second` addresses this label.
    pub fn matches(&self, first: char, second: char) -> (r: bool)
        ensures
            r == spec_matches(*self, first, second),
    {
        self.matches_first(first) && self.matches_second(second)
    }
}

/// One label for each of the first `min(count, 256)` entries, in the fixed
/// enumeration order.
pub fn generate_labels(count: usize) -> (r: Vec<Label>)
    ensures
        is_label_set(r@, count as nat),
{
    let capped: usize = if count < MAX_LABELS { count } else { MAX_LABELS };
    let mut labels: Vec<Label> = Vec::new();
    let mut i: usize = 0;
    while i < capped
        invariant
            capped == label_count(count as nat),
            capped <= 256,
            i <= capped,
            labels@.len() == i,
            forall|j: int| 0 <= j < i ==> #[trigger] labels@[j].chars@ == label_chars(j),
        decreases capped - i,
    {
        let l = Label::new(key(i / 16), key(i % 16));
        labels.push(l);
        i = i + 1;
    }
    labels
}

/// The index of the label that `first` then `second` address, if any.
pub fn find_label(labels: &[Label], first: char, second: char) -> (r: Option<usize>)
    ensures
        match r {
            Some(i) => i < labels@.len() && spec_matches(labels@[i as int], first, second)
                && forall|j: int| 0 <= j < i ==> !spec_matches(#[trigger] labels@[j], first, second),
            None => forall|j: int| 0 <= j < labels@.len() ==> !spec_matches(#[trigger] labels@[j], first, second),
        },
{
    let mut i: usize = 0;
    while i < labels.len()
        invariant
            i <= labels@.len(),
            forall|j: int| 0 <= j < i ==> !spec_matches(#[trigger] labels@[j], first, second),
        decreases labels@.len() - i,
    {
        if labels[i].matches(first, second) {
            return Some(i);
        }
        i = i + 1;
    }
    None
}

/// The indices, in increasing order, of the labels whose first character is
/// `first` (in either case).
pub fn filter_by_first(labels: &[Label], first: char) -> (r: Vec<usize>)
    ensures
        forall|k: int| 0 <= k < r@.len() ==> #[trigger] r@[k] < labels@.len()
            && labels@[r@[k] as int].chars@[0] == ascii_upper(first),
        forall|k: int, m: int| 0 <= k < m < r@.len() ==> #[trigger] r@[k] < #[trigger] r@[m],
        forall|j: int| 0 <= j < labels@.len() && #[trigger] labels@[j].chars@[0] == ascii_upper(first)
            ==> r@.contains(j as usize),
{
    let mut out: Vec<usize> = Vec::new();
    let mut i: usize = 0;
    while i < labels.len()
        invariant
            i <= labels@.len(),
            forall|k: int| 0 <= k < out@.len() ==> #[trigger] out@[k] < i
                && labels@[out@[k] as int].chars@[0] == ascii_upper(first),
            forall|k: int, m: int| 0 <= k < m < out@.len() ==> #[trigger] out@[k] < #[trigger] out@[m],
            forall|j: int| 0 <= j < i && #[trigger] labels@[j].chars@[0] == ascii_upper(first)
                ==> out@.contains(j as usize),
        decreases labels@.len() - i,
    {
        if labels[i].matches_first(first) {
            let ghost before = out@;
            out.push(i);
            proof {
                assert(out@[out@.len() - 1] == i);
                assert forall|j: int| 0 <= j < i + 1 && #[trigger] labels@[j].chars@[0] == ascii_upper(first)
                    implies out@.contains(j as usize) by {
                    if j < i {
                        let k = choose|k: int| 0 <= k < before.len() && before[k] == j as usize;
                        assert(out@[k] == j as usize);
                    } else {
                        assert(out@[out@.len() - 1] == j as usize);
                    }
                }
            }
        }
        i = i + 1;
    }
    out
}

/// A label set holds `min(n, 256)` labels, no two of them alike.
pub proof fn lemma_labels_address_uniquely(labels: Seq<Label>, n: nat, i: int, j: int)
    requires
        is_label_set(labels, n),
        0 <= i < labels.len(),
        0 <= j < labels.len(),
        i != j,
    ensures
        labels[i].chars@ != labels[j].chars@,
        labels.len() == label_count(n),
{
    lemma_keys_distinct();
    assert(labels[i].chars@ == label_chars(i));
    assert(labels[j].chars@ == label_chars(j));
    if labels[i].chars@ == labels[j].chars@ {
        assert(label_chars(i)[0] == label_chars(j)[0]);
        assert(label_chars(i)[1] == label_chars(j)[1]);
        assert(i / 16 == j / 16);
        assert(i % 16 == j % 16);
        assert(i == 16 * (i / 16) + i % 16) by (nonlinear_arith)
            requires 0 <= i;
        assert(j == 16 * (j / 16) + j % 16) by (nonlinear_arith)
            requires 0 <= j;
    }
}

/// Typing the two characters of label `i` of a label set, in either case,
/// addresses label `i` and no other.
pub proof fn lemma_label_resolves(labels: Seq<Label>, n: nat, i: int, first: char, second: char)
    requires
        is_label_set(labels, n),
        0 <= i < labels.len(),
        ascii_upper(first) == labels[i].chars@[0],
        ascii_upper(second) == labels[i].chars@[1],
    ensures
        forall|j: int| 0 <= j < labels.len() ==> (spec_matches(#[trigger] labels[j], first, second) <==> j == i),
{
    assert forall|j: int| 0 <= j < labels.len() implies (spec_matches(#[trigger] labels[j], first, second) <==> j == i) by {
        if j != i {
            lemma_labels_address_uniquely(labels, n, i, j);
            assert(labels[i].chars@.len() == 2 && labels[j].chars@.len() == 2);
            if spec_matches(labels[j], first, second) {
                assert(labels[i].chars@ =~= labels[j].chars@);
            }
        }
    }
}

/// The alphabet has no repeated symbol.
pub proof fn lemma_keys_distinct()
    ensures
        forall|a: int, b: int| 0 <= a < 16 && 0 <= b < 16 && a != b ==> keys()[a] != keys()[b],
{
    let k = keys();
    assert(k.len() == 16);
    assert(k[0] == 'A' && k[1] == 'S' && k[2] == 'D' && k[3] == 'F' && k[4] == 'G' && k[5] == 'H'
        && k[6] == 'J' && k[7] == 'K' && k[8] == 'L' && k[9] == 'Q' && k[10] == 'W' && k[11] == 'E'
        && k[12] == 'R' && k[13] == 'U' && k[14] == 'I' && k[15] == 'O');
}

} // verus!
