//! What holds of every walk through an archive.
//!
//! The statements are about [`ArchiveView`], the value that the contracts of
//! [`crate::archive::ArchiveCursor`] speak of, so each of them holds of every
//! sequence of calls on a cursor.

use vstd::prelude::*;

use crate::archive::ArchiveView;
use crate::direction::Direction;

verus! {

impl ArchiveView {
    /// The positions of the regular files at or after `from`, ascending.
    pub open spec fn files_from(self, from: int) -> Seq<nat>
        decreases self.members.len() - from,
    {
        if from >= self.members.len() || from < 0 {
            Seq::empty()
        } else if self.is_file_at(from) {
            seq![from as nat] + self.files_from(from + 1)
        } else {
            self.files_from(from + 1)
        }
    }

    /// The positions of all regular files, ascending.
    pub open spec fn files(self) -> Seq<nat> {
        self.files_from(0)
    }

    /// The cursor after `First` and then `steps` times `Next`.
    pub open spec fn after_walk(self, steps: nat) -> ArchiveView
        decreases steps,
    {
        if steps == 0 {
            self.moved(Direction::First)
        } else {
            self.after_walk((steps - 1) as nat).moved(Direction::Next)
        }
    }

    /// The entry that call number `step` of such a walk resolves to: call
    /// zero is `First`, each later one is `Next`.
    pub open spec fn walk_target(self, step: nat) -> Option<nat> {
        if step == 0 {
            self.target(Direction::First)
        } else {
            self.after_walk((step - 1) as nat).target(Direction::Next)
        }
    }
}

/// A forward scan ends on the first regular file at or after its start, and
/// passes only directory markers on its way.
pub proof fn lemma_file_from(a: ArchiveView, from: int)
    requires
        0 <= from <= a.members.len(),
    ensures
        from <= a.file_from(from) <= a.members.len(),
        a.file_from(from) < a.members.len() ==> a.is_file_at(a.file_from(from)),
        forall|i: int| from <= i < a.file_from(from) ==> !a.is_file_at(i),
    decreases a.members.len() - from,
{
    if from < a.members.len() && !a.is_file_at(from) {
        lemma_file_from(a, from + 1);
    }
}

/// A backward scan ends on the last regular file before its start, and
/// passes only directory markers on its way.
pub proof fn lemma_file_before(a: ArchiveView, before: int)
    requires
        0 <= before <= a.members.len(),
    ensures
        -1 <= a.file_before(before) < before || (before == 0 && a.file_before(before) == -1),
        a.file_before(before) >= 0 ==> a.is_file_at(a.file_before(before)),
        forall|i: int| a.file_before(before) < i < before ==> !a.is_file_at(i),
    decreases before,
{
    if before > 0 && !a.is_file_at(before - 1) {
        lemma_file_before(a, before - 1);
    }
}

/// Where no regular file lies in a range, a backward scan over it finds
/// what a scan from its lower end finds.
proof fn lemma_file_before_skips(a: ArchiveView, low: int, high: int)
    requires
        0 <= low <= high <= a.members.len(),
        forall|i: int| low <= i < high ==> !a.is_file_at(i),
    ensures
        a.file_before(high) == a.file_before(low),
    decreases high - low,
{
    if low < high {
        lemma_file_before_skips(a, low, high - 1);
    }
}

/// Where no regular file lies in a range, a forward scan from its lower end
/// finds what a scan from its upper end finds.
proof fn lemma_file_from_skips(a: ArchiveView, low: int, high: int)
    requires
        0 <= low <= high <= a.members.len(),
        forall|i: int| low <= i < high ==> !a.is_file_at(i),
    ensures
        a.file_from(low) == a.file_from(high),
    decreases high - low,
{
    if low < high {
        lemma_file_from_skips(a, low + 1, high);
    }
}

/// Every move leaves a well-formed cursor well-formed, and changes nothing
/// but the position.
pub proof fn lemma_moved_wf(a: ArchiveView, direction: Direction)
    requires
        a.wf(),
        a.accepts(direction),
    ensures
        a.moved(direction).wf(),
        a.moved(direction).members == a.members,
        a.moved(direction).source == a.source,
        a.target(direction) matches Some(found) ==> a.moved(direction).index == found
            && a.is_file_at(found as int),
{
    lemma_file_from(a, 0);
    lemma_file_before(a, a.members.len() as int);
    lemma_file_before(a, a.index as int);
    if !a.is_eof() {
        lemma_file_from(a, a.index as int + 1);
    }
}

/// `First` then `Prev` yields no entry and leaves the cursor at its head.
pub proof fn lemma_first_then_prev(a: ArchiveView)
    requires
        a.wf(),
    ensures
        a.moved(Direction::First).target(Direction::Prev) is None,
        a.moved(Direction::First).moved(Direction::Prev).is_head(),
{
    let b = a.moved(Direction::First);
    lemma_file_from(a, 0);
    lemma_moved_wf(a, Direction::First);
    assert forall|i: int| 0 <= i < b.index implies !b.is_file_at(i) by {
        assert(a.is_file_at(i) == b.is_file_at(i));
    }
    lemma_file_before_skips(b, 0, b.index as int);
}

/// `Last` then `Next` yields no entry and leaves the cursor at its end.
pub proof fn lemma_last_then_next(a: ArchiveView)
    requires
        a.wf(),
    ensures
        a.moved(Direction::Last).target(Direction::Next) is None,
        a.moved(Direction::Last).moved(Direction::Next).is_eof(),
{
    let b = a.moved(Direction::Last);
    let len = a.members.len() as int;
    lemma_file_before(a, len);
    lemma_moved_wf(a, Direction::Last);
    if !b.is_eof() {
        assert forall|i: int| b.index < i < len implies !b.is_file_at(i) by {
            assert(a.is_file_at(i) == b.is_file_at(i));
        }
        lemma_file_from_skips(b, b.index as int + 1, len);
    }
}

/// Reading at `Offset(n)` twice resolves to the same member of the same
/// archive both times, so the second read yields the bytes of the first,
/// and the cursor stays where the first read put it.
pub proof fn lemma_offset_idempotent(a: ArchiveView, n: usize)
    requires
        n < a.members.len(),
    ensures
        a.moved(Direction::Offset(n)).target(Direction::Offset(n)) == a.target(
            Direction::Offset(n),
        ),
        a.moved(Direction::Offset(n)).source == a.source,
        a.moved(Direction::Offset(n)).moved(Direction::Offset(n)) == a.moved(Direction::Offset(n)),
        a.moved(Direction::Offset(n)).index == n,
{
}

/// The listed positions are exactly those of the regular files at or after
/// `from`, in ascending order.
pub proof fn lemma_files_from(a: ArchiveView, from: int)
    requires
        0 <= from <= a.members.len(),
    ensures
        forall|k: int|
            0 <= k < a.files_from(from).len() ==> from <= #[trigger] a.files_from(from)[k]
                && a.is_file_at(a.files_from(from)[k] as int),
        forall|j: int, k: int|
            0 <= j < k < a.files_from(from).len() ==> a.files_from(from)[j] < a.files_from(
                from,
            )[k],
        forall|i: int|
            from <= i && a.is_file_at(i) ==> a.files_from(from).contains(i as nat),
        a.files_from(from).len() <= a.members.len() - from,
    decreases a.members.len() - from,
{
    let s = a.files_from(from);
    if from < a.members.len() {
        lemma_files_from(a, from + 1);
        let rest = a.files_from(from + 1);
        if a.is_file_at(from) {
            assert(s == seq![from as nat] + rest);
            assert forall|i: int| from <= i && a.is_file_at(i) implies s.contains(i as nat) by {
                if i == from {
                    assert(s[0] == from as nat);
                } else {
                    assert(rest.contains(i as nat));
                    let k = choose|k: int| 0 <= k < rest.len() && rest[k] == i as nat;
                    assert(s[k + 1] == i as nat);
                }
            }
            assert forall|j: int, k: int| 0 <= j < k < s.len() implies s[j] < s[k] by {
                if j > 0 {
                    assert(s[j] == rest[j - 1]);
                }
                assert(s[k] == rest[k - 1]);
            }
        } else {
            assert(s == rest);
            assert forall|i: int| from <= i && a.is_file_at(i) implies s.contains(i as nat) by {
                assert(rest.contains(i as nat));
            }
        }
    }
}

/// The list of regular files from `from` on starts with the file that a
/// forward scan from `from` finds, and goes on with the files behind it.
proof fn lemma_files_unfold(a: ArchiveView, from: int)
    requires
        0 <= from <= a.members.len(),
    ensures
        a.file_from(from) < a.members.len() ==> a.files_from(from) == seq![
            a.file_from(from) as nat,
        ] + a.files_from(a.file_from(from) + 1),
        a.file_from(from) >= a.members.len() ==> a.files_from(from) == Seq::<nat>::empty(),
    decreases a.members.len() - from,
{
    if from < a.members.len() && !a.is_file_at(from) {
        lemma_files_unfold(a, from + 1);
    }
}

/// The state of a walk: after call number `step` the cursor stands on the
/// regular file with that number, and the files behind it are those that
/// the walk has not reached yet.
proof fn lemma_walk_state(a: ArchiveView, step: nat)
    requires
        a.wf(),
        step < a.files().len(),
    ensures
        a.walk_target(step) == Some(a.files()[step as int]),
        a.after_walk(step).index == a.files()[step as int],
        a.after_walk(step).wf(),
        a.after_walk(step).members == a.members,
        a.after_walk(step).source == a.source,
        a.files_from(a.files()[step as int] as int + 1) == a.files().skip(step as int + 1),
    decreases step,
{
    let files = a.files();
    lemma_files_from(a, 0);
    if step == 0 {
        lemma_file_from(a, 0);
        lemma_files_unfold(a, 0);
        lemma_moved_wf(a, Direction::First);
        let first = a.file_from(0);
        assert(first < a.members.len());
        assert(files == seq![first as nat] + a.files_from(first + 1));
        assert(files[0] == first as nat);
        assert(a.files_from(first + 1) == files.skip(1));
    } else {
        let prev = (step - 1) as nat;
        lemma_walk_state(a, prev);
        let b = a.after_walk(prev);
        let at = files[prev as int] as int;
        assert(b.index == at);
        assert(a.files_from(at + 1) == files.skip(step as int));
        assert(files.skip(step as int).len() > 0);
        lemma_files_unfold(a, at + 1);
        lemma_file_from(a, at + 1);
        let next = a.file_from(at + 1);
        assert(next < a.members.len());
        assert(b.file_from(at + 1) == next) by {
            lemma_same_scan(a, b, at + 1);
        }
        assert(!b.is_eof());
        lemma_moved_wf(b, Direction::Next);
        assert(a.files_from(at + 1) == seq![next as nat] + a.files_from(next + 1));
        assert(files.skip(step as int)[0] == next as nat);
        assert(files[step as int] == next as nat);
        assert(a.files_from(next + 1) == files.skip(step as int + 1)) by {
            assert(a.files_from(next + 1) == files.skip(step as int).skip(1));
            assert(files.skip(step as int).skip(1) == files.skip(step as int + 1));
        }
    }
}

/// Scans depend on the members alone, not on the position.
proof fn lemma_same_scan(a: ArchiveView, b: ArchiveView, from: int)
    requires
        a.members == b.members,
    ensures
        a.file_from(from) == b.file_from(from),
    decreases a.members.len() - from,
{
    if from < a.members.len() && !a.is_file_at(from) {
        lemma_same_scan(a, b, from + 1);
    }
}

/// Once a walk has passed the last regular file, the cursor stands at the
/// end of the archive.
proof fn lemma_walk_end(a: ArchiveView, step: nat)
    requires
        a.wf(),
        step >= a.files().len(),
    ensures
        a.walk_target(step) is None,
        a.after_walk(step).is_eof(),
        a.after_walk(step).wf(),
        a.after_walk(step).members == a.members,
    decreases step,
{
    let files = a.files();
    let len = a.members.len() as int;
    lemma_files_from(a, 0);
    if step == 0 {
        lemma_files_unfold(a, 0);
        lemma_file_from(a, 0);
        lemma_moved_wf(a, Direction::First);
        if a.file_from(0) < len {
            assert(files.len() > 0);
        }
    } else if step == files.len() {
        let prev = (step - 1) as nat;
        lemma_walk_state(a, prev);
        let b = a.after_walk(prev);
        let at = files[prev as int] as int;
        lemma_moved_wf(b, Direction::Next);
        if !b.is_eof() {
            assert(a.files_from(at + 1).len() == 0);
            lemma_files_unfold(a, at + 1);
            lemma_file_from(a, at + 1);
            lemma_same_scan(a, b, at + 1);
            if a.file_from(at + 1) < len {
                assert(a.files_from(at + 1).len() > 0);
            }
        }
    } else {
        let prev = (step - 1) as nat;
        lemma_walk_end(a, prev);
        lemma_moved_wf(a.after_walk(prev), Direction::Next);
    }
}

/// A walk by `First` and then `Next` visits the regular files of the
/// archive, each once and in archive order, whatever directory markers lie
/// between them; every call after the last file yields no entry.
pub proof fn lemma_walk_visits_files(a: ArchiveView)
    requires
        a.wf(),
    ensures
        forall|step: nat|
            step < a.files().len() ==> #[trigger] a.walk_target(step) == Some(
                a.files()[step as int],
            ),
        forall|step: nat| step >= a.files().len() ==> (#[trigger] a.walk_target(step)) is None,
{
    assert forall|step: nat| step < a.files().len() implies #[trigger] a.walk_target(step)
        == Some(a.files()[step as int]) by {
        lemma_walk_state(a, step);
    }
    assert forall|step: nat| step >= a.files().len() implies (#[trigger] a.walk_target(
        step,
    )) is None by {
        lemma_walk_end(a, step);
    }
}

/// In an archive whose members are all regular files, every position is
/// listed.
proof fn lemma_all_files(a: ArchiveView, from: int)
    requires
        0 <= from <= a.members.len(),
        forall|i: int| 0 <= i < a.members.len() ==> a.is_file_at(i),
    ensures
        a.files_from(from).len() == a.members.len() - from,
        forall|k: int|
            0 <= k < a.members.len() - from ==> #[trigger] a.files_from(from)[k] == from + k,
    decreases a.members.len() - from,
{
    if from < a.members.len() {
        lemma_all_files(a, from + 1);
        let rest = a.files_from(from + 1);
        assert(a.files_from(from) == seq![from as nat] + rest);
        assert forall|k: int| 0 <= k < a.members.len() - from implies #[trigger] a.files_from(
            from,
        )[k] == from + k by {
            if k > 0 {
                assert(a.files_from(from)[k] == rest[k - 1]);
            }
        }
    }
}

/// In an archive that holds regular files only, and at least one, a walk by
/// `First` and then `Next` visits every member once, in member order, and
/// one further `Next` yields no entry.
pub proof fn lemma_walk_visits_every_member(a: ArchiveView)
    requires
        a.wf(),
        a.members.len() > 0,
        forall|i: int| 0 <= i < a.members.len() ==> a.is_file_at(i),
    ensures
        forall|step: nat|
            step < a.members.len() ==> #[trigger] a.walk_target(step) == Some(step),
        a.walk_target(a.members.len()) is None,
{
    lemma_all_files(a, 0);
    lemma_walk_visits_files(a);
    assert forall|step: nat| step < a.members.len() implies #[trigger] a.walk_target(step)
        == Some(step) by {
        assert(a.files()[step as int] == step);
    }
}

} // verus!
