//! The most-recently-used file list and the theme setting, as values; the
//! settings file itself is read and written by the caller.

use vstd::prelude::*;
use crate::text::same_text;

verus! {

/// How many files the recent list keeps.
pub const MAX_RECENT_FILES: usize = 5;

/// The colour theme of the interface.
#[derive(Clone, Copy, Debug, PartialEq, Eq, Structural)]
pub enum AppTheme {
    Dark,
    Light,
}

impl Default for AppTheme {
    fn default() -> (r: AppTheme)
        ensures
            r == AppTheme::Dark,
    {
        AppTheme::Dark
    }
}

/// The paths of a list, as character sequences.
pub open spec fn paths_of(v: Seq<String>) -> Seq<Seq<char>> {
    v.map_values(|s: String| s@)
}

/// `s` without any occurrence of `p`, order kept.
pub open spec fn without(s: Seq<Seq<char>>, p: Seq<char>) -> Seq<Seq<char>>
    decreases s.len(),
{
    if s.len() == 0 {
        s
    } else if s.last() == p {
        without(s.drop_last(), p)
    } else {
        without(s.drop_last(), p).push(s.last())
    }
}

/// The list after opening `p`: `p` first, then the others in their order,
/// at most `MAX_RECENT_FILES` in all.
pub open spec fn after_open(s: Seq<Seq<char>>, p: Seq<char>) -> Seq<Seq<char>> {
    let l = seq![p] + without(s, p);
    if l.len() <= MAX_RECENT_FILES {
        l
    } else {
        l.subrange(0, MAX_RECENT_FILES as int)
    }
}

/// No path occurs twice.
pub open spec fn no_duplicates(s: Seq<Seq<char>>) -> bool {
    forall|i: int, j: int| 0 <= i < j < s.len() ==> s[i] != s[j]
}

proof fn lemma_without_members(s: Seq<Seq<char>>, p: Seq<char>)
    ensures
        forall|i: int| 0 <= i < without(s, p).len() ==> #[trigger] without(s, p)[i] != p
            && s.contains(without(s, p)[i]),
        no_duplicates(s) ==> no_duplicates(without(s, p)),
    decreases s.len(),
{
    if s.len() > 0 {
        let d = s.drop_last();
        lemma_without_members(d, p);
        let w = without(d, p);
        assert forall|i: int| 0 <= i < d.len() implies s.contains(#[trigger] d[i]) by {
            assert(s[i] == d[i]);
        }
        if s.last() != p {
            assert forall|i: int| 0 <= i < without(s, p).len() implies #[trigger] without(s, p)[i]
                != p && s.contains(without(s, p)[i]) by {
                if i < w.len() {
                    assert(without(s, p)[i] == w[i]);
                } else {
                    assert(s[s.len() - 1] == s.last());
                }
            }
            if no_duplicates(s) {
                assert(no_duplicates(d));
                assert forall|i: int| 0 <= i < w.len() implies #[trigger] w[i] != s.last() by {
                    let j = choose|j: int| 0 <= j < d.len() && d[j] == w[i];
                    assert(s[j] == d[j]);
                }
            }
        } else {
            if no_duplicates(s) {
                assert(no_duplicates(d));
            }
        }
    }
}

/// Opening a file keeps the recent list free of duplicates, and the opened
/// path occurs in it exactly once, first.
pub proof fn lemma_after_open_no_duplicates(s: Seq<Seq<char>>, p: Seq<char>)
    requires
        no_duplicates(s),
    ensures
        no_duplicates(after_open(s, p)),
        after_open(s, p)[0] == p,
        forall|i: int| 0 < i < after_open(s, p).len() ==> #[trigger] after_open(s, p)[i] != p,
{
    lemma_without_members(s, p);
    let w = without(s, p);
    let l = seq![p] + w;
    assert forall|i: int, j: int| 0 <= i < j < l.len() implies l[i] != l[j] by {
        if i == 0 {
            assert(l[j] == w[j - 1]);
        } else {
            assert(l[i] == w[i - 1] && l[j] == w[j - 1]);
        }
    }
    assert forall|i: int| 0 < i < l.len() implies #[trigger] l[i] != p by {
        assert(l[i] == w[i - 1]);
    }
}

/// A copy of `list` without the entries equal to `path`.
fn without_path(list: &Vec<String>, path: &str) -> (r: Vec<String>)
    ensures
        paths_of(r@) == without(paths_of(list@), path@),
{
    let mut out: Vec<String> = Vec::new();
    let mut i: usize = 0;
    while i < list.len()
        invariant
            i <= list@.len(),
            paths_of(out@) == without(paths_of(list@.subrange(0, i as int)), path@),
        decreases list@.len() - i,
    {
        let ghost pre = paths_of(list@.subrange(0, i as int + 1));
        assert(pre.drop_last() =~= paths_of(list@.subrange(0, i as int)));
        assert(pre.last() == list@[i as int]@);
        if !same_text(list[i].as_str(), path) {
            out.push(list[i].clone());
            assert(paths_of(out@) =~= without(pre, path@));
        }
        i = i + 1;
    }
    assert(list@.subrange(0, list@.len() as int) =~= list@);
    out
}

/// Moves `path` to the front of the recent list, dropping its other
/// occurrences and keeping at most `MAX_RECENT_FILES` entries.
pub fn add_recent_file(list: &mut Vec<String>, path: String)
    ensures
        paths_of(final(list)@) == after_open(paths_of(old(list)@), path@),
{
    let rest = without_path(list, path.as_str());
    let mut out: Vec<String> = Vec::new();
    out.push(path);
    let mut i: usize = 0;
    let ghost p = out@[0]@;
    let ghost full = seq![p] + paths_of(rest@);
    while i < rest.len() && out.len() < MAX_RECENT_FILES
        invariant
            i <= rest@.len(),
            out@.len() == i + 1,
            out@.len() <= MAX_RECENT_FILES,
            full == seq![p] + paths_of(rest@),
            paths_of(out@) == full.subrange(0, i as int + 1),
        decreases rest@.len() - i,
    {
        out.push(rest[i].clone());
        i = i + 1;
        assert(paths_of(out@) =~= full.subrange(0, i as int + 1));
    }
    assert(full == seq![path@] + without(paths_of(old(list)@), path@));
    if i == rest.len() {
        assert(full.subrange(0, i as int + 1) =~= full);
    }
    *list = out;
}

/// Removes every occurrence of `path` from the recent list.
pub fn remove_recent_file(list: &mut Vec<String>, path: &str)
    ensures
        paths_of(final(list)@) == without(paths_of(old(list)@), path@),
{
    *list = without_path(list, path);
}

/// The stored entries whose file still exists, in their order.
pub open spec fn existing(entries: Seq<(String, bool)>) -> Seq<Seq<char>>
    decreases entries.len(),
{
    if entries.len() == 0 {
        Seq::empty()
    } else if entries.last().1 {
        existing(entries.drop_last()).push(entries.last().0@)
    } else {
        existing(entries.drop_last())
    }
}

/// The recent list to show, from the stored paths, each paired with
/// whether a file still exists there: the existing ones, in their order.
pub fn load_recent_files(entries: Vec<(String, bool)>) -> (r: Vec<String>)
    ensures
        paths_of(r@) == existing(entries@),
{
    let mut out: Vec<String> = Vec::new();
    let mut i: usize = 0;
    while i < entries.len()
        invariant
            i <= entries@.len(),
            paths_of(out@) == existing(entries@.subrange(0, i as int)),
        decreases entries@.len() - i,
    {
        let ghost pre = entries@.subrange(0, i as int + 1);
        assert(pre.drop_last() =~= entries@.subrange(0, i as int));
        assert(pre.last() == entries@[i as int]);
        if entries[i].1 {
            out.push(entries[i].0.clone());
            assert(paths_of(out@) =~= existing(pre));
        }
        i = i + 1;
    }
    assert(entries@.subrange(0, entries@.len() as int) =~= entries@);
    out
}

} // verus!
