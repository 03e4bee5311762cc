//! Finding the neighbours of a root among the entries of the directory
//! that holds it.

use vstd::prelude::*;

use crate::entry::{entries_view, DirEntry, DirEntryView};

verus! {

/// The position of the first entry at or after `from` whose path is `path`,
/// or the number of entries where there is none.
pub open spec fn position_from(entries: Seq<DirEntryView>, path: Seq<char>, from: int) -> int
    decreases entries.len() - from,
{
    if from >= entries.len() {
        entries.len() as int
    } else if from >= 0 && entries[from].path == path {
        from
    } else {
        position_from(entries, path, from + 1)
    }
}

/// The position of the first entry whose path is `path`, or the number of
/// entries where there is none.
pub open spec fn position_of(entries: Seq<DirEntryView>, path: Seq<char>) -> int {
    position_from(entries, path, 0)
}

/// The position of the entry right behind the first one whose path is
/// `path`; `None` where that one is the last or no entry has this path.
pub open spec fn next_position(entries: Seq<DirEntryView>, path: Seq<char>) -> Option<int> {
    let at = position_of(entries, path);
    if at + 1 < entries.len() {
        Some(at + 1)
    } else {
        None
    }
}

/// The position of the entry right before the first one whose path is
/// `path`, or of the last entry where none has this path; `None` where
/// there is no entry before it.
pub open spec fn previous_position(entries: Seq<DirEntryView>, path: Seq<char>) -> Option<int> {
    let at = position_of(entries, path);
    if at > 0 {
        Some(at - 1)
    } else {
        None
    }
}

/// The search ends on the first entry with the path, and passes none with
/// it.
pub proof fn lemma_position_from(entries: Seq<DirEntryView>, path: Seq<char>, from: int)
    requires
        0 <= from <= entries.len(),
    ensures
        from <= position_from(entries, path, from) <= entries.len(),
        position_from(entries, path, from) < entries.len() ==> entries[position_from(
            entries,
            path,
            from,
        )].path == path,
        forall|i: int| from <= i < position_from(entries, path, from) ==> entries[i].path != path,
    decreases entries.len() - from,
{
    if from < entries.len() && entries[from].path != path {
        lemma_position_from(entries, path, from + 1);
    }
}

/// Scans `entries` for the first whose path is `path` and hands back its
/// position, or the number of entries where there is none.
fn find_path(entries: &Vec<DirEntry>, path: &String) -> (at: usize)
    ensures
        at == position_of(entries_view(entries@), path@),
        at <= entries@.len(),
{
    let ghost all = entries_view(entries@);
    let mut at: usize = 0;
    while at < entries.len() && *entries[at].path() != *path
        invariant
            at <= entries@.len(),
            all == entries_view(entries@),
            position_from(all, path@, at as int) == position_of(all, path@),
        decreases entries@.len() - at,
    {
        at = at + 1;
    }
    at
}

/// The position of the entry that follows `path` in `entries`, the listing
/// of the directory that holds `path`.
pub fn next_file_path(entries: &Vec<DirEntry>, path: &String) -> (next: Option<usize>)
    ensures
        match next_position(entries_view(entries@), path@) {
            Some(at) => next == Some(at as usize) && 0 <= at < entries@.len(),
            None => next is None,
        },
{
    let at: usize = find_path(entries, path);
    if at < entries.len() && at + 1 < entries.len() {
        Some(at + 1)
    } else {
        None
    }
}

/// The position of the entry that precedes `path` in `entries`, the listing
/// of the directory that holds `path`. Where no entry has this path it is
/// the position of the last entry.
pub fn previous_file_path(entries: &Vec<DirEntry>, path: &String) -> (previous: Option<usize>)
    ensures
        match previous_position(entries_view(entries@), path@) {
            Some(at) => previous == Some(at as usize) && 0 <= at < entries@.len(),
            None => previous is None,
        },
{
    let at: usize = find_path(entries, path);
    if at > 0 {
        Some(at - 1)
    } else {
        None
    }
}

} // verus!
