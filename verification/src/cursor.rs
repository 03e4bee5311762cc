//! The cursor: one traversal position in a container that may hold other
//! containers.
//!
//! A cursor is empty, stands in an archive, or stands in a directory. A
//! directory cursor owns the cursor of the sub-directory or archive that it
//! is inside of, so a chain of cursors reaches from the root to the current
//! entry. A move is handed down the chain as far as the containers on it
//! still have entries in that direction; the first that has moves on to its
//! next entry and enters it.
//!
//! Entering an entry needs the listing of a directory or the bytes of a
//! file. The cursor then stops with a [`Request`] and takes the move up
//! again in [`Cursor::resume`].

use vstd::prelude::*;

use crate::archive::{zip_contents, zip_listing, ArchiveCursor, ArchiveView};
use crate::direction::{Direction, Edge};
use crate::entry::{
    entries_view, DirEntry, DirEntryView, EntryKind, Request, RequestView, Response,
    ResponseView, Step,
};
use crate::error::Error;

verus! {

/// Why a call fails.
pub enum Fault {
    /// The caller reported this failure of the file system.
    Io(std::io::Error),
    /// A file that was taken for an archive could not be opened as one.
    Archive,
    /// A member of an archive could not be read.
    Member,
    /// The response answers no outstanding request.
    Unexpected,
}

impl Fault {
    /// Whether `error` is an error by which this fault is reported.
    pub open spec fn admits(self, error: Error) -> bool {
        match self {
            Fault::Io(e) => error == Error::Io(e),
            Fault::Archive => error is Zip,
            Fault::Member => error is Zip || error is Io,
            Fault::Unexpected => error is Unexpected,
        }
    }
}

/// What a call on a cursor does, apart from moving the cursor.
pub enum Effect {
    /// The call completes and appends these bytes to the buffer. They are
    /// empty where the move found no entry.
    Yield(Seq<u8>),
    /// The call stops and asks for this work.
    Need(RequestView),
    /// The call fails.
    Fail(Fault),
}

/// A cursor after a call, and what the call did.
pub struct Transition {
    pub cursor: CursorView,
    pub effect: Effect,
}

/// Whether a call that returned `res` and turned a buffer holding `before`
/// into one holding `after` did what `effect` says.
pub open spec fn fulfils(
    res: Result<Step, Error>,
    before: Seq<u8>,
    after: Seq<u8>,
    effect: Effect,
) -> bool {
    match effect {
        Effect::Yield(bytes) => res matches Ok(Step::Done) && after == before + bytes,
        Effect::Need(request) => res matches Ok(Step::Need(asked)) && asked@ == request && after
            == before,
        Effect::Fail(fault) => res matches Err(error) && fault.admits(error) && before.is_prefix_of(
            after,
        ),
    }
}

/// What reading the entry that a move in an archive resolves to does.
pub open spec fn archive_effect(archive: ArchiveView, direction: Direction) -> Effect {
    match archive.target(direction) {
        None => Effect::Yield(Seq::empty()),
        Some(found) => match zip_contents(archive.source, found as int) {
            Some(contents) => Effect::Yield(contents),
            None => Effect::Fail(Fault::Member),
        },
    }
}

/// The mathematical value of a [`Cursor`].
pub enum CursorView {
    Empty,
    Archive(ArchiveView),
    Directory(DirectoryView),
}

/// The mathematical value of a [`DirectoryCursor`].
pub struct DirectoryView {
    /// The position among the siblings.
    pub index: nat,
    /// The directory's direct children, in listing order.
    pub siblings: Seq<DirEntryView>,
    /// The cursor inside the current sibling; empty where that sibling is
    /// an image or has not been entered.
    pub child: Box<CursorView>,
    /// The end from which the current sibling will be entered once the
    /// outstanding request is answered; `None` where none is outstanding.
    pub pending: Option<Edge>,
}

impl DirectoryView {
    /// The cursor of a directory that has just been listed.
    pub open spec fn listed(siblings: Seq<DirEntryView>) -> DirectoryView {
        DirectoryView { index: 0, siblings, child: Box::new(CursorView::Empty), pending: None }
    }

    /// The position is that of a sibling, or zero in an empty directory;
    /// an empty directory has nothing inside and nothing outstanding; while
    /// a request is outstanding the current sibling has not been entered,
    /// and it is one that can be; and the cursor inside the current sibling
    /// is well-formed.
    pub open spec fn wf(self) -> bool
        decreases self,
    {
        &&& if self.siblings.len() == 0 {
            self.index == 0 && self.pending is None && *self.child is Empty
        } else {
            self.index < self.siblings.len()
        }
        &&& self.pending is Some ==> *self.child is Empty
            && self.siblings[self.index as int].request() is Some
        &&& self.child.wf()
    }

    /// The position is the first.
    pub open spec fn at_first(self) -> bool {
        self.index == 0
    }

    /// The position is the last.
    pub open spec fn at_last(self) -> bool {
        self.siblings.len() == 0 || self.index == self.siblings.len() - 1
    }

    /// No move backward is possible: the position is the first and the
    /// cursor inside it is at its head.
    pub open spec fn is_head(self) -> bool
        decreases self,
    {
        self.at_first() && self.child.is_head()
    }

    /// No move forward is possible: the position is the last and the cursor
    /// inside it is at its end.
    pub open spec fn is_eof(self) -> bool
        decreases self,
    {
        self.at_last() && self.child.is_eof()
    }

    /// `Offset` must name a sibling, and the directory must not stand on
    /// its last sibling already.
    pub open spec fn accepts(self, direction: Direction) -> bool {
        direction matches Direction::Offset(n) ==> n < self.siblings.len() && !self.at_last()
    }

    /// Whether a move in `direction` is handed to the cursor inside the
    /// current sibling: a step forward or backward is, as long as that
    /// cursor has entries left in that direction.
    pub open spec fn delegates(self, direction: Direction) -> bool {
        match direction {
            Direction::Next => !self.child.is_eof(),
            Direction::Prev => !self.child.is_head(),
            _ => false,
        }
    }

    /// The sibling that a move in `direction` goes to at this level, or
    /// `None` where there is none in that direction.
    pub open spec fn resolve(self, direction: Direction) -> Option<nat> {
        if self.siblings.len() == 0 {
            None
        } else {
            match direction {
                Direction::First => Some(0),
                Direction::Last => Some((self.siblings.len() - 1) as nat),
                Direction::Next => if self.index + 1 < self.siblings.len() {
                    Some(self.index + 1)
                } else {
                    None
                },
                Direction::Prev => if self.index > 0 {
                    Some((self.index - 1) as nat)
                } else {
                    None
                },
                Direction::Offset(n) => Some(n as nat),
            }
        }
    }

    /// This cursor with nothing inside the current sibling and no request
    /// outstanding.
    pub open spec fn cleared(self) -> DirectoryView {
        DirectoryView { child: Box::new(CursorView::Empty), pending: None, ..self }
    }

    /// This cursor with `child` inside the current sibling.
    pub open spec fn holding(self, child: CursorView) -> DirectoryView {
        DirectoryView { child: Box::new(child), pending: None, ..self }
    }

    /// A move in `direction`.
    ///
    /// A step that the cursor inside the current sibling can still take is
    /// taken there. Otherwise the directory goes to the sibling that the
    /// move resolves to, drops the cursor of the sibling it leaves, and asks
    /// for what it needs to enter the new one; a sibling that is ruled out
    /// is stood on and yields nothing. Where there is no sibling in that
    /// direction the move finds no entry and nothing changes.
    pub open spec fn read(self, direction: Direction) -> Transition
        decreases self, 0nat,
    {
        if self.delegates(direction) {
            let inner = self.child.read(direction);
            Transition {
                cursor: CursorView::Directory(self.holding(inner.cursor)),
                effect: inner.effect,
            }
        } else {
            match self.resolve(direction) {
                None => Transition {
                    cursor: CursorView::Directory(DirectoryView { pending: None, ..self }),
                    effect: Effect::Yield(Seq::empty()),
                },
                Some(index) => match self.siblings[index as int].request() {
                    Some(request) => Transition {
                        cursor: CursorView::Directory(
                            DirectoryView {
                                index,
                                pending: Some(direction.entering()),
                                ..self.cleared()
                            },
                        ),
                        effect: Effect::Need(request),
                    },
                    None => Transition {
                        cursor: CursorView::Directory(DirectoryView { index, ..self.cleared() }),
                        effect: Effect::Yield(Seq::empty()),
                    },
                },
            }
        }
    }

    /// Entering the current sibling from `edge` with what the caller
    /// answered.
    ///
    /// A failure is passed on. A listing makes the sibling a directory
    /// cursor, contents make it an archive cursor, and the move goes on
    /// inside it from `edge`; the contents of an image are the entry
    /// itself. An answer of the wrong sort for the sibling's kind is
    /// unexpected.
    pub open spec fn enter(self, edge: Edge, response: ResponseView) -> Transition {
        let idle = self.cleared();
        let kind = self.siblings[self.index as int].kind;
        match response {
            ResponseView::Failed(e) => Transition {
                cursor: CursorView::Directory(idle),
                effect: Effect::Fail(Fault::Io(e)),
            },
            ResponseView::Listing(entries) => if kind is Directory {
                let inner = DirectoryView::listed(entries).read(edge.inward());
                Transition {
                    cursor: CursorView::Directory(idle.holding(inner.cursor)),
                    effect: inner.effect,
                }
            } else {
                Transition {
                    cursor: CursorView::Directory(idle),
                    effect: Effect::Fail(Fault::Unexpected),
                }
            },
            ResponseView::Contents(bytes) => match kind {
                EntryKind::Image => Transition {
                    cursor: CursorView::Directory(idle),
                    effect: Effect::Yield(bytes),
                },
                EntryKind::Archive => match zip_listing(bytes) {
                    Some(members) => {
                        let archive = ArchiveView::opened(members, bytes);
                        Transition {
                            cursor: CursorView::Directory(
                                idle.holding(CursorView::Archive(archive.moved(edge.inward()))),
                            ),
                            effect: archive_effect(archive, edge.inward()),
                        }
                    },
                    None => Transition {
                        cursor: CursorView::Directory(idle),
                        effect: Effect::Fail(Fault::Archive),
                    },
                },
                EntryKind::Directory | EntryKind::Other => Transition {
                    cursor: CursorView::Directory(idle),
                    effect: Effect::Fail(Fault::Unexpected),
                },
            },
        }
    }

    /// Taking up the move that stopped with a request.
    ///
    /// The directory that asked enters its current sibling; a directory
    /// that did not ask hands the response to the cursor inside its
    /// current sibling.
    pub open spec fn resume(self, response: ResponseView) -> Transition
        decreases self, 0nat,
    {
        match self.pending {
            Some(edge) => self.enter(edge, response),
            None => {
                let inner = self.child.resume(response);
                Transition {
                    cursor: CursorView::Directory(self.holding(inner.cursor)),
                    effect: inner.effect,
                }
            },
        }
    }
}

impl CursorView {
    /// Every cursor on the chain is well-formed.
    pub open spec fn wf(self) -> bool
        decreases self,
    {
        match self {
            CursorView::Empty => true,
            CursorView::Archive(archive) => archive.wf(),
            CursorView::Directory(directory) => directory.wf(),
        }
    }

    /// No move backward is possible.
    pub open spec fn is_head(self) -> bool
        decreases self,
    {
        match self {
            CursorView::Empty => true,
            CursorView::Archive(archive) => archive.is_head(),
            CursorView::Directory(directory) => directory.is_head(),
        }
    }

    /// No move forward is possible.
    pub open spec fn is_eof(self) -> bool
        decreases self,
    {
        match self {
            CursorView::Empty => true,
            CursorView::Archive(archive) => archive.is_eof(),
            CursorView::Directory(directory) => directory.is_eof(),
        }
    }

    /// Whether the cursor accepts a move in `direction`: `Offset` must name
    /// a position of the container that the cursor stands in.
    pub open spec fn accepts(self, direction: Direction) -> bool {
        match self {
            CursorView::Empty => true,
            CursorView::Archive(archive) => archive.accepts(direction),
            CursorView::Directory(directory) => directory.accepts(direction),
        }
    }

    /// A move in `direction`. An empty cursor stays empty and yields
    /// nothing.
    pub open spec fn read(self, direction: Direction) -> Transition
        decreases self, 1nat,
    {
        match self {
            CursorView::Empty => Transition {
                cursor: CursorView::Empty,
                effect: Effect::Yield(Seq::empty()),
            },
            CursorView::Archive(archive) => Transition {
                cursor: CursorView::Archive(archive.moved(direction)),
                effect: archive_effect(archive, direction),
            },
            CursorView::Directory(directory) => directory.read(direction),
        }
    }

    /// Taking up the move that stopped with a request. Only a directory
    /// asks, so any other cursor finds the response unexpected.
    pub open spec fn resume(self, response: ResponseView) -> Transition
        decreases self, 1nat,
    {
        match self {
            CursorView::Directory(directory) => directory.resume(response),
            _ => Transition { cursor: self, effect: Effect::Fail(Fault::Unexpected) },
        }
    }
}

/// A cursor over the direct children of one directory.
pub struct DirectoryCursor {
    index: usize,
    siblings: Vec<DirEntry>,
    child: Box<Cursor>,
    pending: Option<Edge>,
}

/// A traversal position: nowhere, in an archive, or in a directory.
pub enum Cursor {
    /// The cursor of nothing: always at its head and at its end.
    Empty,
    /// A position in an archive.
    Archive(ArchiveCursor),
    /// A position in a directory.
    Directory(DirectoryCursor),
}

impl DirectoryCursor {
    /// The value of this cursor.
    pub closed spec fn model(self) -> DirectoryView
        decreases self,
    {
        DirectoryView {
            index: self.index as nat,
            siblings: entries_view(self.siblings@),
            child: Box::new(self.child.model()),
            pending: self.pending,
        }
    }
}

impl Cursor {
    /// The value of this cursor.
    pub open spec fn model(self) -> CursorView
        decreases self,
    {
        match self {
            Cursor::Empty => CursorView::Empty,
            Cursor::Archive(archive) => CursorView::Archive(archive@),
            Cursor::Directory(directory) => CursorView::Directory(directory.model()),
        }
    }
}

impl View for DirectoryCursor {
    type V = DirectoryView;

    open spec fn view(&self) -> DirectoryView {
        self.model()
    }
}

impl View for Cursor {
    type V = CursorView;

    open spec fn view(&self) -> CursorView {
        self.model()
    }
}

impl DirectoryCursor {
    /// The cursor of a directory with the given children, at its first.
    pub fn new(siblings: Vec<DirEntry>) -> (cursor: DirectoryCursor)
        ensures
            cursor@ == DirectoryView::listed(entries_view(siblings@)),
            cursor@.wf(),
    {
        DirectoryCursor { index: 0, siblings, child: Box::new(Cursor::Empty), pending: None }
    }

    /// True iff the position is the first sibling.
    fn _is_head(&self) -> (head: bool)
        ensures
            head == self@.at_first(),
    {
        self.index == 0
    }

    /// True iff the position is the last sibling.
    fn _is_eof(&self) -> (eof: bool)
        ensures
            eof == self@.at_last(),
    {
        let len: usize = self.siblings.len();
        len == 0 || self.index == len - 1
    }

    /// True iff no `Prev` is possible from the current position.
    pub fn is_head(&self) -> (head: bool)
        ensures
            head == self@.is_head(),
        decreases self, 0nat,
    {
        self._is_head() && self.child.is_head()
    }

    /// True iff no `Next` is possible from the current position.
    pub fn is_eof(&self) -> (eof: bool)
        ensures
            eof == self@.is_eof(),
        decreases self, 0nat,
    {
        self._is_eof() && self.child.is_eof()
    }

    /// Moves the cursor in `direction`; see [`DirectoryView::read`].
    ///
    /// The call never fails at this level and appends nothing itself: a
    /// step that the cursor inside the current sibling takes does what that
    /// cursor does, and a move to another sibling stops with the request
    /// for that sibling.
    pub fn read(&mut self, buf: &mut Vec<u8>, direction: Direction) -> (res: Result<Step, Error>)
        requires
            old(self)@.wf(),
            old(self)@.accepts(direction),
        ensures
            CursorView::Directory(final(self)@) == old(self)@.read(direction).cursor,
            final(self)@.wf(),
            fulfils(res, old(buf)@, final(buf)@, old(self)@.read(direction).effect),
        decreases *old(self), 0nat,
    {
        self.pending = None;
        let delegate = match direction {
            Direction::Next => !self.child.is_eof(),
            Direction::Prev => !self.child.is_head(),
            _ => false,
        };
        if delegate {
            return self.child.read(buf, direction);
        }
        let len: usize = self.siblings.len();
        if len == 0 {
            return Ok(Step::Done);
        }
        let index: usize = match direction {
            Direction::First => 0,
            Direction::Last => len - 1,
            Direction::Next => {
                if self.index + 1 < len {
                    self.index + 1
                } else {
                    return Ok(Step::Done);
                }
            },
            Direction::Prev => {
                if self.index > 0 {
                    self.index - 1
                } else {
                    return Ok(Step::Done);
                }
            },
            Direction::Offset(n) => n,
        };
        self.index = index;
        self.child = Box::new(Cursor::Empty);
        match self.siblings[index].request() {
            Some(request) => {
                self.pending = Some(direction.edge());
                Ok(Step::Need(request))
            },
            None => Ok(Step::Done),
        }
    }

    /// Enters the current sibling from `edge` with the caller's answer; see
    /// [`DirectoryView::enter`].
    fn enter(&mut self, buf: &mut Vec<u8>, edge: Edge, response: Response) -> (res: Result<
        Step,
        Error,
    >)
        requires
            old(self)@.wf(),
            old(self)@.siblings.len() > 0,
        ensures
            CursorView::Directory(final(self)@) == old(self)@.enter(edge, response@).cursor,
            final(self)@.wf(),
            fulfils(res, old(buf)@, final(buf)@, old(self)@.enter(edge, response@).effect),
    {
        self.pending = None;
        self.child = Box::new(Cursor::Empty);
        let kind = self.siblings[self.index].kind();
        match response {
            Response::Failed(e) => Err(Error::Io(e)),
            Response::Listing(entries) => {
                match kind {
                    EntryKind::Directory => {
                        let mut inner = DirectoryCursor::new(entries);
                        let res = inner.read(buf, edge.direction());
                        self.child = Box::new(Cursor::Directory(inner));
                        res
                    },
                    _ => Err(Error::Unexpected),
                }
            },
            Response::Contents(bytes) => {
                match kind {
                    EntryKind::Image => {
                        let mut bytes = bytes;
                        buf.append(&mut bytes);
                        Ok(Step::Done)
                    },
                    EntryKind::Archive => {
                        let mut inner = ArchiveCursor::open(bytes)?;
                        let res = inner.read(buf, edge.direction());
                        self.child = Box::new(Cursor::Archive(inner));
                        match res {
                            Ok(()) => Ok(Step::Done),
                            Err(e) => Err(e),
                        }
                    },
                    EntryKind::Directory | EntryKind::Other => Err(Error::Unexpected),
                }
            },
        }
    }

    /// Takes up the move that stopped with a request; see
    /// [`DirectoryView::resume`].
    pub fn resume(&mut self, buf: &mut Vec<u8>, response: Response) -> (res: Result<Step, Error>)
        requires
            old(self)@.wf(),
        ensures
            CursorView::Directory(final(self)@) == old(self)@.resume(response@).cursor,
            final(self)@.wf(),
            fulfils(res, old(buf)@, final(buf)@, old(self)@.resume(response@).effect),
        decreases *old(self), 0nat,
    {
        match self.pending {
            Some(edge) => self.enter(buf, edge, response),
            None => self.child.resume(buf, response),
        }
    }
}

impl Cursor {
    /// True iff no `Prev` is possible from the current position.
    pub fn is_head(&self) -> (head: bool)
        ensures
            head == self@.is_head(),
        decreases self, 1nat,
    {
        match self {
            Cursor::Empty => true,
            Cursor::Archive(archive) => archive.is_head(),
            Cursor::Directory(directory) => directory.is_head(),
        }
    }

    /// True iff no `Next` is possible from the current position.
    pub fn is_eof(&self) -> (eof: bool)
        ensures
            eof == self@.is_eof(),
        decreases self, 1nat,
    {
        match self {
            Cursor::Empty => true,
            Cursor::Archive(archive) => archive.is_eof(),
            Cursor::Directory(directory) => directory.is_eof(),
        }
    }

    /// Moves the cursor in `direction` and appends the bytes of the entry
    /// that the move resolves to, if any, to `buf`; see
    /// [`CursorView::read`].
    ///
    /// A move that finds no entry leaves `buf` as it is and succeeds. A
    /// move that has to enter a directory or a file stops with
    /// [`Step::Need`]; it goes on in [`Cursor::resume`].
    pub fn read(&mut self, buf: &mut Vec<u8>, direction: Direction) -> (res: Result<Step, Error>)
        requires
            old(self)@.wf(),
            old(self)@.accepts(direction),
        ensures
            final(self)@ == old(self)@.read(direction).cursor,
            final(self)@.wf(),
            fulfils(res, old(buf)@, final(buf)@, old(self)@.read(direction).effect),
        decreases *old(self), 1nat,
    {
        match self {
            Cursor::Empty => Ok(Step::Done),
            Cursor::Archive(archive) => match archive.read(buf, direction) {
                Ok(()) => Ok(Step::Done),
                Err(e) => Err(e),
            },
            Cursor::Directory(directory) => directory.read(buf, direction),
        }
    }

    /// Takes up the move that stopped with a request, with the caller's
    /// answer to it; see [`CursorView::resume`].
    ///
    /// It fails with the failure that the caller reports, with
    /// [`Error::Zip`] where a file that is taken for an archive is none,
    /// and with [`Error::Unexpected`] where no request is outstanding or
    /// the response is of the wrong sort.
    pub fn resume(&mut self, buf: &mut Vec<u8>, response: Response) -> (res: Result<Step, Error>)
        requires
            old(self)@.wf(),
        ensures
            final(self)@ == old(self)@.resume(response@).cursor,
            final(self)@.wf(),
            fulfils(res, old(buf)@, final(buf)@, old(self)@.resume(response@).effect),
        decreases *old(self), 1nat,
    {
        match self {
            Cursor::Directory(directory) => directory.resume(buf, response),
            _ => Err(Error::Unexpected),
        }
    }
}

} // verus!
