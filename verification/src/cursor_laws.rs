//! What holds of every cursor at the two ends of its container.
//!
//! A move may stop for a request and go on when it is answered, so a move
//! to the first entry is a call of `read` followed by any number of calls of
//! `resume`. The lemmas follow a property of the cursor through such a
//! sequence: that nothing lies before it, or that nothing lies behind it.

use vstd::prelude::*;

use crate::archive::{zip_listing, ArchiveView};
use crate::archive_laws::{
    lemma_file_before, lemma_file_from, lemma_first_then_prev, lemma_last_then_next,
    lemma_moved_wf,
};
use crate::cursor::{archive_effect, CursorView, DirectoryView, Effect};
use crate::direction::{Direction, Edge};
use crate::entry::{DirEntryView, RequestView, ResponseView};

verus! {

impl ArchiveView {
    /// No regular file lies before the position.
    pub open spec fn at_front(self) -> bool {
        self.file_before(self.index as int) == -1
    }

    /// No regular file lies behind the position.
    pub open spec fn at_back(self) -> bool {
        self.is_eof() || self.file_from(self.index as int + 1) == self.members.len()
    }
}

impl DirectoryView {
    /// Whether the outstanding request, once answered, enters the current
    /// sibling from `edge` or enters nothing at all.
    pub open spec fn enters_from(self, edge: Edge) -> bool {
        match self.pending {
            Some(pending) => pending == edge || self.siblings[self.index as int].kind is Image,
            None => true,
        }
    }

    /// The directory stands on its first sibling, and nothing lies before
    /// the cursor inside it.
    pub open spec fn at_front(self) -> bool
        decreases self,
    {
        self.at_first() && self.enters_from(Edge::Front) && self.child.at_front()
    }

    /// The directory stands on its last sibling, and nothing lies behind
    /// the cursor inside it.
    pub open spec fn at_back(self) -> bool
        decreases self,
    {
        self.at_last() && self.enters_from(Edge::Back) && self.child.at_back()
    }
}

impl CursorView {
    /// No entry lies before the cursor, in any container on the chain.
    pub open spec fn at_front(self) -> bool
        decreases self,
    {
        match self {
            CursorView::Empty => true,
            CursorView::Archive(archive) => archive.at_front(),
            CursorView::Directory(directory) => directory.at_front(),
        }
    }

    /// No entry lies behind the cursor, in any container on the chain.
    pub open spec fn at_back(self) -> bool
        decreases self,
    {
        match self {
            CursorView::Empty => true,
            CursorView::Archive(archive) => archive.at_back(),
            CursorView::Directory(directory) => directory.at_back(),
        }
    }
}

/// A move leaves a well-formed cursor well-formed.
pub proof fn lemma_read_wf(c: CursorView, direction: Direction)
    requires
        c.wf(),
        c.accepts(direction),
    ensures
        c.read(direction).cursor.wf(),
    decreases c,
{
    reveal_with_fuel(CursorView::wf, 2);
    match c {
        CursorView::Empty => {},
        CursorView::Archive(archive) => {
            lemma_moved_wf(archive, direction);
        },
        CursorView::Directory(directory) => {
            if directory.delegates(direction) {
                lemma_read_wf(*directory.child, direction);
            }
        },
    }
}

/// Taking a move up again leaves a well-formed cursor well-formed, whatever
/// the response.
pub proof fn lemma_resume_wf(c: CursorView, response: ResponseView)
    requires
        c.wf(),
    ensures
        c.resume(response).cursor.wf(),
    decreases c,
{
    match c {
        CursorView::Directory(directory) => {
            match directory.pending {
                Some(edge) => {
                    lemma_enter_wf(directory, edge, response);
                },
                None => {
                    lemma_resume_wf(*directory.child, response);
                },
            }
        },
        _ => {},
    }
}

/// Entering the current sibling leaves a well-formed cursor well-formed.
proof fn lemma_enter_wf(d: DirectoryView, edge: Edge, response: ResponseView)
    requires
        d.wf(),
        d.siblings.len() > 0,
    ensures
        d.enter(edge, response).cursor.wf(),
{
    reveal_with_fuel(CursorView::wf, 2);
    match response {
        ResponseView::Listing(entries) => {
            lemma_read_wf(CursorView::Directory(DirectoryView::listed(entries)), edge.inward());
        },
        ResponseView::Contents(bytes) => {
            if let Some(members) = zip_listing(bytes) {
                lemma_moved_wf(ArchiveView::opened(members, bytes), edge.inward());
            }
        },
        ResponseView::Failed(_) => {},
    }
}

/// After `First` nothing lies before the cursor.
pub proof fn lemma_first_reaches_front(c: CursorView)
    requires
        c.wf(),
    ensures
        c.read(Direction::First).cursor.at_front(),
{
    reveal_with_fuel(CursorView::at_front, 2);
    match c {
        CursorView::Empty => {},
        CursorView::Archive(archive) => {
            lemma_archive_first(archive);
        },
        CursorView::Directory(directory) => {},
    }
}

/// After `Last` nothing lies behind the cursor.
pub proof fn lemma_last_reaches_back(c: CursorView)
    requires
        c.wf(),
    ensures
        c.read(Direction::Last).cursor.at_back(),
{
    reveal_with_fuel(CursorView::at_back, 2);
    match c {
        CursorView::Empty => {},
        CursorView::Archive(archive) => {
            lemma_archive_last(archive);
        },
        CursorView::Directory(directory) => {},
    }
}

/// In an archive, after `First` no regular file lies before the position.
proof fn lemma_archive_first(a: ArchiveView)
    requires
        a.wf(),
    ensures
        a.moved(Direction::First).at_front(),
{
    let b = a.moved(Direction::First);
    lemma_first_then_prev(a);
    lemma_moved_wf(a, Direction::First);
    lemma_file_before(b, b.index as int);
}

/// In an archive, after `Last` no regular file lies behind the position.
proof fn lemma_archive_last(a: ArchiveView)
    requires
        a.wf(),
    ensures
        a.moved(Direction::Last).at_back(),
{
    let b = a.moved(Direction::Last);
    lemma_last_then_next(a);
    lemma_moved_wf(a, Direction::Last);
    if !b.is_eof() {
        lemma_file_from(b, b.index as int + 1);
    }
}

/// While nothing lies before the cursor, answering its request leaves
/// nothing before it: the container that the answer opens is entered at its
/// front.
pub proof fn lemma_resume_keeps_front(c: CursorView, response: ResponseView)
    requires
        c.wf(),
        c.at_front(),
    ensures
        c.resume(response).cursor.at_front(),
    decreases c,
{
    reveal_with_fuel(CursorView::at_front, 2);
    match c {
        CursorView::Directory(directory) => {
            match directory.pending {
                Some(edge) => {
                    match response {
                        ResponseView::Listing(entries) => {
                            lemma_first_reaches_front(
                                CursorView::Directory(DirectoryView::listed(entries)),
                            );
                        },
                        ResponseView::Contents(bytes) => {
                            if let Some(members) = zip_listing(bytes) {
                                lemma_archive_first(ArchiveView::opened(members, bytes));
                            }
                        },
                        ResponseView::Failed(_) => {},
                    }
                },
                None => {
                    lemma_resume_keeps_front(*directory.child, response);
                },
            }
        },
        _ => {},
    }
}

/// While nothing lies behind the cursor, answering its request leaves
/// nothing behind it: the container that the answer opens is entered at its
/// back.
pub proof fn lemma_resume_keeps_back(c: CursorView, response: ResponseView)
    requires
        c.wf(),
        c.at_back(),
    ensures
        c.resume(response).cursor.at_back(),
    decreases c,
{
    reveal_with_fuel(CursorView::at_back, 2);
    match c {
        CursorView::Directory(directory) => {
            match directory.pending {
                Some(edge) => {
                    match response {
                        ResponseView::Listing(entries) => {
                            lemma_last_reaches_back(
                                CursorView::Directory(DirectoryView::listed(entries)),
                            );
                        },
                        ResponseView::Contents(bytes) => {
                            if let Some(members) = zip_listing(bytes) {
                                lemma_archive_last(ArchiveView::opened(members, bytes));
                            }
                        },
                        ResponseView::Failed(_) => {},
                    }
                },
                None => {
                    lemma_resume_keeps_back(*directory.child, response);
                },
            }
        },
        _ => {},
    }
}

/// Reading at `Offset(n)` twice in an archive does the same thing both
/// times: the second read yields the bytes of the first, or fails as the
/// first did.
pub proof fn lemma_offset_reads_same_bytes(a: ArchiveView, n: usize)
    requires
        n < a.members.len(),
    ensures
        archive_effect(a.moved(Direction::Offset(n)), Direction::Offset(n)) == archive_effect(
            a,
            Direction::Offset(n),
        ),
{
}

/// `First` then `Prev`: where nothing lies before the cursor, as is the
/// case once a move to the first entry is complete, `Prev` yields no entry,
/// asks for nothing, and leaves the cursor at its head.
pub proof fn lemma_prev_at_front(c: CursorView)
    requires
        c.wf(),
        c.at_front(),
    ensures
        c.read(Direction::Prev).effect == Effect::Yield(Seq::empty()),
        c.read(Direction::Prev).cursor.is_head(),
        c.read(Direction::Prev).cursor.at_front(),
    decreases c,
{
    match c {
        CursorView::Empty => {},
        CursorView::Archive(archive) => {
            lemma_moved_wf(archive, Direction::Prev);
            lemma_file_before(archive, archive.index as int);
            let b = archive.moved(Direction::Prev);
            assert(b.index == 0);
        },
        CursorView::Directory(directory) => {
            if directory.delegates(Direction::Prev) {
                lemma_prev_at_front(*directory.child);
            }
        },
    }
}

/// `Last` then `Next`: where nothing lies behind the cursor, as is the case
/// once a move to the last entry is complete, `Next` yields no entry, asks
/// for nothing, and leaves the cursor at its end.
pub proof fn lemma_next_at_back(c: CursorView)
    requires
        c.wf(),
        c.at_back(),
    ensures
        c.read(Direction::Next).effect == Effect::Yield(Seq::empty()),
        c.read(Direction::Next).cursor.is_eof(),
        c.read(Direction::Next).cursor.at_back(),
    decreases c,
{
    match c {
        CursorView::Empty => {},
        CursorView::Archive(archive) => {
            lemma_moved_wf(archive, Direction::Next);
            if !archive.is_eof() {
                lemma_file_from(archive, archive.index as int + 1);
            }
        },
        CursorView::Directory(directory) => {
            if directory.delegates(Direction::Next) {
                lemma_next_at_back(*directory.child);
            }
        },
    }
}

impl CursorView {
    /// The cursor after the caller has answered with each of `responses`
    /// in turn.
    pub open spec fn resumed_with(self, responses: Seq<ResponseView>) -> CursorView
        decreases responses.len(),
    {
        if responses.len() == 0 {
            self
        } else {
            self.resume(responses[0]).cursor.resumed_with(responses.skip(1))
        }
    }
}

/// Answering requests keeps a cursor well-formed and keeps it at the front
/// or at the back if it was there.
proof fn lemma_resumed_with(c: CursorView, responses: Seq<ResponseView>)
    requires
        c.wf(),
    ensures
        c.resumed_with(responses).wf(),
        c.at_front() ==> c.resumed_with(responses).at_front(),
        c.at_back() ==> c.resumed_with(responses).at_back(),
    decreases responses.len(),
{
    if responses.len() > 0 {
        let next = c.resume(responses[0]).cursor;
        lemma_resume_wf(c, responses[0]);
        if c.at_front() {
            lemma_resume_keeps_front(c, responses[0]);
        }
        if c.at_back() {
            lemma_resume_keeps_back(c, responses[0]);
        }
        lemma_resumed_with(next, responses.skip(1));
    }
}

/// `First` then `Prev` yields no entry and leaves the cursor at its head,
/// whatever the caller answered to the requests of `First`, be it
/// failures.
pub proof fn lemma_cursor_first_then_prev(c: CursorView, responses: Seq<ResponseView>)
    requires
        c.wf(),
    ensures
        ({
            let first = c.read(Direction::First).cursor.resumed_with(responses);
            &&& first.read(Direction::Prev).effect == Effect::Yield(Seq::empty())
            &&& first.read(Direction::Prev).cursor.is_head()
        }),
{
    let asked = c.read(Direction::First).cursor;
    lemma_read_wf(c, Direction::First);
    lemma_first_reaches_front(c);
    lemma_resumed_with(asked, responses);
    lemma_prev_at_front(asked.resumed_with(responses));
}

/// `Last` then `Next` yields no entry and leaves the cursor at its end,
/// whatever the caller answered to the requests of `Last`, be it failures.
pub proof fn lemma_cursor_last_then_next(c: CursorView, responses: Seq<ResponseView>)
    requires
        c.wf(),
    ensures
        ({
            let last = c.read(Direction::Last).cursor.resumed_with(responses);
            &&& last.read(Direction::Next).effect == Effect::Yield(Seq::empty())
            &&& last.read(Direction::Next).cursor.is_eof()
        }),
{
    let asked = c.read(Direction::Last).cursor;
    lemma_read_wf(c, Direction::Last);
    lemma_last_reaches_back(c);
    lemma_resumed_with(asked, responses);
    lemma_next_at_back(asked.resumed_with(responses));
}

/// An image is read directly: a move that goes to an image asks for its
/// bytes, and the bytes that the caller hands in are the entry, as they
/// are. The directory then stands on the image with nothing inside it.
pub proof fn lemma_image_is_the_entry(d: DirectoryView, direction: Direction, bytes: Seq<u8>)
    requires
        d.wf(),
        !d.delegates(direction),
        d.resolve(direction) matches Some(index) && index < d.siblings.len()
            && d.siblings[index as int].kind is Image,
    ensures
        ({
            let index = d.resolve(direction).unwrap();
            let asked = d.read(direction);
            let done = asked.cursor.resume(ResponseView::Contents(bytes));
            &&& asked.effect == Effect::Need(RequestView::Read(d.siblings[index as int].path))
            &&& done.effect == Effect::Yield(bytes)
            &&& done.cursor == CursorView::Directory(DirectoryView { index, ..d.cleared() })
        }),
{
}

/// A container is entered from the end that the move comes from: a step
/// forward into a sub-directory reads it from its first entry, a step
/// backward from its last, and `First`, `Last` and `Offset` do at the
/// sibling they go to what a step forward or backward would.
pub proof fn lemma_directory_is_entered_from_its_edge(
    d: DirectoryView,
    direction: Direction,
    entries: Seq<DirEntryView>,
)
    requires
        d.wf(),
        !d.delegates(direction),
        d.resolve(direction) matches Some(index) && index < d.siblings.len()
            && d.siblings[index as int].kind is Directory,
    ensures
        ({
            let index = d.resolve(direction).unwrap();
            let inward = match direction {
                Direction::Prev | Direction::Last => Direction::Last,
                _ => Direction::First,
            };
            let asked = d.read(direction);
            let done = asked.cursor.resume(ResponseView::Listing(entries));
            let inner = DirectoryView::listed(entries).read(inward);
            &&& asked.effect == Effect::Need(RequestView::List(d.siblings[index as int].path))
            &&& done.effect == inner.effect
            &&& done.cursor == CursorView::Directory(
                (DirectoryView { index, ..d.cleared() }).holding(inner.cursor),
            )
        }),
{
}

} // verus!
