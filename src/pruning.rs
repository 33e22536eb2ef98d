use vstd::prelude::*;
use crate::text::{
    chars_of, find_from, lemma_last_before_bound, last_before, occurs_at, rfind, trim,
    trim_bounds,
};

verus! {

/// The marker `- [deleted]` that opens a pruning notice.
pub open spec fn deleted_marker() -> Seq<char> {
    seq!['-', ' ', '[', 'd', 'e', 'l', 'e', 't', 'e', 'd', ']']
}

/// The marker `(none)` that stands for the vanished remote side.
pub open spec fn none_marker() -> Seq<char> {
    seq!['(', 'n', 'o', 'n', 'e', ')']
}

/// The arrow `->` that points at the local name.
pub open spec fn arrow_marker() -> Seq<char> {
    seq!['-', '>']
}

/// Whether the three markers of a pruning notice stand in `s`, in order and apart.
pub open spec fn has_prune_markers(s: Seq<char>) -> bool {
    exists|i: int, j: int, k: int|
        #![trigger occurs_at(s, deleted_marker(), i), occurs_at(s, none_marker(), j), occurs_at(s, arrow_marker(), k)]
        occurs_at(s, deleted_marker(), i) && occurs_at(s, none_marker(), j) && occurs_at(
            s,
            arrow_marker(),
            k,
        ) && i + deleted_marker().len() <= j && j + none_marker().len() <= k
}

/// The branch name that a line names after its last arrow, trimmed.
pub open spec fn name_after_arrow(s: Seq<char>) -> Seq<char> {
    trim(s.subrange(last_before(s, arrow_marker(), s.len() as int) + 2, s.len() as int))
}

/// The branch that a line of fetch output reports as pruned, if it is a pruning
/// notice with a non-empty name. Whitespace around the line changes nothing, as
/// no marker starts or ends with whitespace.
pub open spec fn pruned_name(s: Seq<char>) -> Option<Seq<char>> {
    if has_prune_markers(s) && name_after_arrow(s).len() > 0 {
        Some(name_after_arrow(s))
    } else {
        None
    }
}

/// A line that lacks any of the three markers, in order, names no pruned branch.
pub proof fn lemma_no_markers_no_name(line: Seq<char>)
    requires
        !has_prune_markers(line),
    ensures
        pruned_name(line) is None,
{
}

fn deleted_chars() -> (r: Vec<char>)
    ensures
        r@ == deleted_marker(),
{
    let r = vec!['-', ' ', '[', 'd', 'e', 'l', 'e', 't', 'e', 'd', ']'];
    assert(r@ =~= deleted_marker());
    r
}

fn none_chars() -> (r: Vec<char>)
    ensures
        r@ == none_marker(),
{
    let r = vec!['(', 'n', 'o', 'n', 'e', ')'];
    assert(r@ =~= none_marker());
    r
}

fn arrow_chars() -> (r: Vec<char>)
    ensures
        r@ == arrow_marker(),
{
    let r = vec!['-', '>'];
    assert(r@ =~= arrow_marker());
    r
}

/// Reads one line of fetch or pull output: the name of the local branch whose
/// remote-tracking branch was pruned, or `None` when the line is no such notice.
pub fn is_pruned_branch(line: &str) -> (r: Option<String>)
    ensures
        r.deep_view() == pruned_name(line@),
{
    let s = chars_of(line);
    let del = deleted_chars();
    let none = none_chars();
    let arrow = arrow_chars();
    let ghost sv = s@;
    let n = s.len();
    let i0 = match find_from(&s, &del, 0) {
        Some(i) => i,
        None => {
            assert(!has_prune_markers(sv));
            return None;
        },
    };
    let j0 = match find_from(&s, &none, i0 + del.len()) {
        Some(j) => j,
        None => {
            assert(!has_prune_markers(sv));
            return None;
        },
    };
    let k0 = match find_from(&s, &arrow, j0 + none.len()) {
        Some(k) => k,
        None => {
            assert(!has_prune_markers(sv));
            return None;
        },
    };
    assert(occurs_at(sv, deleted_marker(), i0 as int) && occurs_at(sv, none_marker(), j0 as int)
        && occurs_at(sv, arrow_marker(), k0 as int));
    assert(has_prune_markers(sv));
    let last = match rfind(&s, &arrow) {
        Some(l) => l,
        None => {
            proof {
                lemma_last_before_bound(sv, arrow_marker(), sv.len() as int, k0 as int);
            }
            return None;
        },
    };
    let tail = line.substring_char(last + 2, n);
    let tail_chars = chars_of(tail);
    let (a, b) = trim_bounds(&tail_chars);
    if a == b {
        return None;
    }
    let name = tail.substring_char(a, b).to_owned();
    Some(name)
}

} // verus!
