//! The navigator: the engine's top level.
//!
//! It owns the cursor of the root that was opened last, decodes the bytes
//! of each entry, and carries a walk that has run off one root on into the
//! root's neighbour in the directory that holds both.

use vstd::prelude::*;

use crate::archive::{zip_listing, ArchiveCursor, ArchiveView};
use crate::cursor::{
    archive_effect, fulfils, Cursor, CursorView, DirectoryCursor, DirectoryView, Effect, Fault,
};
use crate::direction::{Direction, Edge};
use crate::entry::{
    entries_view, EntryKind, Request, RequestView, Response, ResponseView, Step,
};
use crate::error::Error;
use crate::pixels::{render_image, PixelBuffer, PixelView};
use crate::sibling::{next_file_path, next_position, previous_file_path, previous_position};

verus! {

/// Whether a walk that runs off the root goes on in a neighbouring root.
#[derive(Clone, Copy, Debug, PartialEq, Eq, Structural)]
pub enum Travel {
    /// The move stays within the root.
    Within,
    /// A step forward: off the end it goes on in the next root.
    Forward,
    /// A step backward: off the head it goes on in the previous root.
    Backward,
}

/// What the navigator is waiting for.
#[derive(Clone, Copy, Debug, PartialEq, Eq, Structural)]
pub enum Phase {
    /// Nothing: no request is outstanding.
    Idle,
    /// The listing of the root, if `listing`, or else its bytes. Once it is
    /// there the root is read from `edge`.
    Opening { listing: bool, edge: Edge },
    /// The answer to a request of the cursor.
    Traversing(Travel),
    /// The listing of the directory that holds the root: the next root is
    /// sought in it for `Front`, the previous one for `Back`.
    Seeking(Edge),
}

/// How a call on the navigator ended.
#[derive(Debug)]
pub enum Outcome {
    /// The move reached this entry.
    Entry(PixelBuffer),
    /// There is no entry in that direction.
    End,
    /// The move goes on once the caller has answered this request.
    Need(Request),
}

/// What a call on the navigator results in.
pub enum Verdict {
    Entry(PixelView),
    End,
    Need(RequestView),
    Fail(Fault),
}

/// Whether `res` is the result that `verdict` stands for.
pub open spec fn answers(res: Result<Outcome, Error>, verdict: Verdict) -> bool {
    match verdict {
        Verdict::Entry(pixels) => res matches Ok(Outcome::Entry(shown)) && shown@ == pixels,
        Verdict::End => res matches Ok(Outcome::End),
        Verdict::Need(request) => res matches Ok(Outcome::Need(asked)) && asked@ == request,
        Verdict::Fail(fault) => res matches Err(error) && fault.admits(error),
    }
}

/// The mathematical value of a [`Navigator`].
pub struct NavigatorView {
    /// The width of the display that images are fitted to.
    pub max_width: u32,
    /// The height of the display that images are fitted to.
    pub max_height: u32,
    /// The cursor of the current root.
    pub cursor: CursorView,
    /// The path that was opened last, while a walk may still leave it for
    /// a neighbour.
    pub root_hint: Option<Seq<char>>,
    /// What the navigator is waiting for.
    pub phase: Phase,
}

/// A navigator after a call, and the call's result.
pub struct Turn {
    pub navigator: NavigatorView,
    pub verdict: Verdict,
}

impl NavigatorView {
    /// The cursor is well-formed, and the navigator waits for a root or
    /// for the root's neighbours only while it knows the root's path.
    pub open spec fn wf(self) -> bool {
        &&& self.cursor.wf()
        &&& (self.phase is Opening || self.phase is Seeking) ==> self.root_hint is Some
    }

    /// A navigator that has opened nothing yet.
    pub open spec fn fresh(max_width: u32, max_height: u32) -> NavigatorView {
        NavigatorView {
            max_width,
            max_height,
            cursor: CursorView::Empty,
            root_hint: None,
            phase: Phase::Idle,
        }
    }

    /// Every failure ends the move and makes the navigator forget the path
    /// of its root, so that no later walk leaves this root for another.
    pub open spec fn failed(self, fault: Fault) -> Turn {
        Turn {
            navigator: NavigatorView { root_hint: None, phase: Phase::Idle, ..self },
            verdict: Verdict::Fail(fault),
        }
    }

    /// What becomes of a call once the cursor has done `effect`.
    ///
    /// Bytes are decoded and shown. A request is passed on. Where the move
    /// found no entry, a step forward off the end of the root, or backward
    /// off its head, asks for the root's neighbours as long as the root's
    /// path is known; any other move ends there.
    pub open spec fn settle(self, travel: Travel, effect: Effect) -> Turn {
        match effect {
            Effect::Yield(bytes) => if bytes.len() > 0 {
                Turn {
                    navigator: NavigatorView { phase: Phase::Idle, ..self },
                    verdict: Verdict::Entry(
                        PixelView::rendered(bytes, self.max_width, self.max_height),
                    ),
                }
            } else if travel is Forward && self.cursor.is_eof() && self.root_hint is Some {
                Turn {
                    navigator: NavigatorView { phase: Phase::Seeking(Edge::Front), ..self },
                    verdict: Verdict::Need(RequestView::Siblings(self.root_hint.unwrap())),
                }
            } else if travel is Backward && self.cursor.is_head() && self.root_hint is Some {
                Turn {
                    navigator: NavigatorView { phase: Phase::Seeking(Edge::Back), ..self },
                    verdict: Verdict::Need(RequestView::Siblings(self.root_hint.unwrap())),
                }
            } else {
                Turn {
                    navigator: NavigatorView { phase: Phase::Idle, ..self },
                    verdict: Verdict::End,
                }
            },
            Effect::Need(request) => Turn {
                navigator: NavigatorView { phase: Phase::Traversing(travel), ..self },
                verdict: Verdict::Need(request),
            },
            Effect::Fail(fault) => self.failed(fault),
        }
    }

    /// A move of the cursor in `direction`. What was outstanding before is
    /// given up.
    pub open spec fn navigate(self, travel: Travel, direction: Direction) -> Turn {
        let moved = self.cursor.read(direction);
        (NavigatorView { cursor: moved.cursor, ..self }).settle(travel, moved.effect)
    }

    /// Opening `path` as the new root, to be read from `edge`: a directory
    /// is listed, any file is read and taken for an archive.
    pub open spec fn open(self, path: Seq<char>, is_dir: bool, edge: Edge) -> Turn {
        Turn {
            navigator: NavigatorView {
                root_hint: Some(path),
                phase: Phase::Opening { listing: is_dir, edge },
                ..self
            },
            verdict: Verdict::Need(
                if is_dir {
                    RequestView::List(path)
                } else {
                    RequestView::Read(path)
                },
            ),
        }
    }

    /// The root has arrived: its cursor replaces the old one and is read
    /// from `edge`. Where it has not arrived the old cursor stays.
    pub open spec fn opened(self, listing: bool, edge: Edge, response: ResponseView) -> Turn {
        match response {
            ResponseView::Failed(e) => self.failed(Fault::Io(e)),
            ResponseView::Listing(entries) => if listing {
                let moved = DirectoryView::listed(entries).read(edge.inward());
                (NavigatorView { cursor: moved.cursor, ..self }).settle(
                    Travel::Within,
                    moved.effect,
                )
            } else {
                self.failed(Fault::Unexpected)
            },
            ResponseView::Contents(bytes) => if listing {
                self.failed(Fault::Unexpected)
            } else {
                match zip_listing(bytes) {
                    Some(members) => {
                        let archive = ArchiveView::opened(members, bytes);
                        (NavigatorView {
                            cursor: CursorView::Archive(archive.moved(edge.inward())),
                            ..self
                        }).settle(Travel::Within, archive_effect(archive, edge.inward()))
                    },
                    None => self.failed(Fault::Archive),
                }
            },
        }
    }

    /// The listing of the directory that holds the root has arrived: the
    /// entry behind the root, or before it, is opened as the new root.
    /// Where there is none the walk ends for good and the root's path is
    /// forgotten.
    pub open spec fn sought(self, edge: Edge, response: ResponseView) -> Turn {
        match response {
            ResponseView::Failed(e) => self.failed(Fault::Io(e)),
            ResponseView::Contents(_) => self.failed(Fault::Unexpected),
            ResponseView::Listing(entries) => {
                let found = match edge {
                    Edge::Front => next_position(entries, self.root_hint.unwrap()),
                    Edge::Back => previous_position(entries, self.root_hint.unwrap()),
                };
                match found {
                    Some(at) => self.open(entries[at].path, entries[at].kind is Directory, edge),
                    None => Turn {
                        navigator: NavigatorView { root_hint: None, phase: Phase::Idle, ..self },
                        verdict: Verdict::End,
                    },
                }
            },
        }
    }

    /// Taking up the move that stopped with a request.
    pub open spec fn resume(self, response: ResponseView) -> Turn {
        match self.phase {
            Phase::Idle => self.failed(Fault::Unexpected),
            Phase::Opening { listing, edge } => self.opened(listing, edge, response),
            Phase::Traversing(travel) => {
                let moved = self.cursor.resume(response);
                (NavigatorView { cursor: moved.cursor, ..self }).settle(travel, moved.effect)
            },
            Phase::Seeking(edge) => self.sought(edge, response),
        }
    }
}

/// The engine's top level: a cursor, the buffer that entries are read
/// into, and the path of the root for walking on into its neighbours.
pub struct Navigator {
    res: [u32; 2],
    cursor: Cursor,
    buf: Vec<u8>,
    root_hint: Option<String>,
    phase: Phase,
}

impl View for Navigator {
    type V = NavigatorView;

    closed spec fn view(&self) -> NavigatorView {
        NavigatorView {
            max_width: self.res@[0],
            max_height: self.res@[1],
            cursor: self.cursor@,
            root_hint: match self.root_hint {
                Some(path) => Some(path@),
                None => None,
            },
            phase: self.phase,
        }
    }
}

impl Navigator {
    /// The navigator is well-formed, and its buffer is empty, as it is
    /// between any two calls.
    pub closed spec fn wf(self) -> bool {
        self@.wf() && self.buf@.len() == 0
    }

    /// A navigator for a display of `res[0]` by `res[1]` pixels, with
    /// nothing opened.
    pub fn new(res: [u32; 2]) -> (navigator: Navigator)
        ensures
            navigator@ == NavigatorView::fresh(res@[0], res@[1]),
            navigator.wf(),
    {
        Navigator {
            res,
            cursor: Cursor::Empty,
            buf: Vec::new(),
            root_hint: None,
            phase: Phase::Idle,
        }
    }

    /// True iff the cursor of the root is at its head.
    pub fn is_head(&self) -> (head: bool)
        ensures
            head == self@.cursor.is_head(),
    {
        self.cursor.is_head()
    }

    /// True iff the cursor of the root is at its end.
    pub fn is_eof(&self) -> (eof: bool)
        ensures
            eof == self@.cursor.is_eof(),
    {
        self.cursor.is_eof()
    }

    /// The path of the root, while a walk may still leave it for a
    /// neighbour.
    pub fn root_hint(&self) -> (hint: Option<&String>)
        ensures
            match hint {
                Some(path) => self@.root_hint == Some(path@),
                None => self@.root_hint is None,
            },
    {
        match &self.root_hint {
            Some(path) => Some(path),
            None => None,
        }
    }

    /// What the navigator is waiting for.
    pub fn phase(&self) -> (phase: Phase)
        ensures
            phase == self@.phase,
    {
        self.phase
    }

    /// Ends the move with a failure; see [`NavigatorView::failed`].
    fn fail(&mut self, error: Error, Ghost(fault): Ghost<Fault>) -> (res: Result<Outcome, Error>)
        requires
            old(self)@.cursor.wf(),
            fault.admits(error),
        ensures
            final(self)@ == old(self)@.failed(fault).navigator,
            final(self).wf(),
            answers(res, old(self)@.failed(fault).verdict),
    {
        self.buf.clear();
        self.root_hint = None;
        self.phase = Phase::Idle;
        Err(error)
    }

    /// Finishes a call once the cursor has returned `step`; see
    /// [`NavigatorView::settle`]. The buffer is cleared whatever the
    /// outcome.
    fn settle(
        &mut self,
        travel: Travel,
        step: Result<Step, Error>,
        Ghost(effect): Ghost<Effect>,
    ) -> (res: Result<Outcome, Error>)
        requires
            old(self)@.cursor.wf(),
            fulfils(step, Seq::empty(), old(self).buf@, effect),
        ensures
            final(self)@ == old(self)@.settle(travel, effect).navigator,
            final(self).wf(),
            answers(res, old(self)@.settle(travel, effect).verdict),
    {
        match step {
            Ok(Step::Done) => {
                assert(effect matches Effect::Yield(bytes) && self.buf@ =~= bytes);
                if self.buf.is_empty() {
                    let seek = match travel {
                        Travel::Forward => if self.cursor.is_eof() {
                            Some(Edge::Front)
                        } else {
                            None
                        },
                        Travel::Backward => if self.cursor.is_head() {
                            Some(Edge::Back)
                        } else {
                            None
                        },
                        Travel::Within => None,
                    };
                    match (seek, &self.root_hint) {
                        (Some(edge), Some(path)) => {
                            let request = Request::Siblings(path.clone());
                            self.phase = Phase::Seeking(edge);
                            Ok(Outcome::Need(request))
                        },
                        _ => {
                            self.phase = Phase::Idle;
                            Ok(Outcome::End)
                        },
                    }
                } else {
                    let pixels = render_image(self.buf.as_slice(), &self.res);
                    self.buf.clear();
                    self.phase = Phase::Idle;
                    Ok(Outcome::Entry(pixels))
                }
            },
            Ok(Step::Need(request)) => {
                self.phase = Phase::Traversing(travel);
                Ok(Outcome::Need(request))
            },
            Err(error) => {
                assert(effect is Fail);
                self.fail(error, Ghost(effect->Fail_0))
            },
        }
    }

    /// Moves the cursor in `direction`; see [`NavigatorView::navigate`].
    fn try_read(&mut self, travel: Travel, direction: Direction) -> (res: Result<Outcome, Error>)
        requires
            old(self).wf(),
            !(direction is Offset),
        ensures
            final(self)@ == old(self)@.navigate(travel, direction).navigator,
            final(self).wf(),
            answers(res, old(self)@.navigate(travel, direction).verdict),
    {
        let ghost moved = self@.cursor.read(direction);
        assert(self.buf@ =~= Seq::empty());
        let step = self.cursor.read(&mut self.buf, direction);
        self.settle(travel, step, Ghost(moved.effect))
    }

    /// Starts opening `path`; see [`NavigatorView::open`].
    fn try_open(&mut self, path: String, is_dir: bool, edge: Edge) -> (res: Result<Outcome, Error>)
        requires
            old(self).wf(),
        ensures
            final(self)@ == old(self)@.open(path@, is_dir, edge).navigator,
            final(self).wf(),
            answers(res, old(self)@.open(path@, is_dir, edge).verdict),
    {
        let request = if is_dir {
            Request::List(path.clone())
        } else {
            Request::Read(path.clone())
        };
        self.root_hint = Some(path);
        self.phase = Phase::Opening { listing: is_dir, edge };
        Ok(Outcome::Need(request))
    }

    /// Opens `path` as the new root and moves to its first entry. The call
    /// asks for the listing of `path` where `is_dir` says that it is a
    /// directory, and for its bytes otherwise; the move goes on in
    /// [`Navigator::resume`].
    pub fn try_first(&mut self, path: String, is_dir: bool) -> (res: Result<Outcome, Error>)
        requires
            old(self).wf(),
        ensures
            final(self)@ == old(self)@.open(path@, is_dir, Edge::Front).navigator,
            final(self).wf(),
            answers(res, old(self)@.open(path@, is_dir, Edge::Front).verdict),
    {
        self.try_open(path, is_dir, Edge::Front)
    }

    /// Opens `path` as the new root and moves to its last entry; see
    /// [`Navigator::try_first`].
    pub fn try_last(&mut self, path: String, is_dir: bool) -> (res: Result<Outcome, Error>)
        requires
            old(self).wf(),
        ensures
            final(self)@ == old(self)@.open(path@, is_dir, Edge::Back).navigator,
            final(self).wf(),
            answers(res, old(self)@.open(path@, is_dir, Edge::Back).verdict),
    {
        self.try_open(path, is_dir, Edge::Back)
    }

    /// Moves one entry forward. Off the end of the root the walk goes on
    /// with the first entry of the next root, as long as the root's path is
    /// known and the directory that holds it has another entry behind it.
    pub fn try_next(&mut self) -> (res: Result<Outcome, Error>)
        requires
            old(self).wf(),
        ensures
            final(self)@ == old(self)@.navigate(Travel::Forward, Direction::Next).navigator,
            final(self).wf(),
            answers(res, old(self)@.navigate(Travel::Forward, Direction::Next).verdict),
    {
        self.try_read(Travel::Forward, Direction::Next)
    }

    /// Moves one entry backward. Off the head of the root the walk goes on
    /// with the last entry of the previous root, as long as the root's path
    /// is known and the directory that holds it has another entry before
    /// it.
    pub fn try_previous(&mut self) -> (res: Result<Outcome, Error>)
        requires
            old(self).wf(),
        ensures
            final(self)@ == old(self)@.navigate(Travel::Backward, Direction::Prev).navigator,
            final(self).wf(),
            answers(res, old(self)@.navigate(Travel::Backward, Direction::Prev).verdict),
    {
        self.try_read(Travel::Backward, Direction::Prev)
    }

    /// Moves to the first entry of the root.
    pub fn try_rewind(&mut self) -> (res: Result<Outcome, Error>)
        requires
            old(self).wf(),
        ensures
            final(self)@ == old(self)@.navigate(Travel::Within, Direction::First).navigator,
            final(self).wf(),
            answers(res, old(self)@.navigate(Travel::Within, Direction::First).verdict),
    {
        self.try_read(Travel::Within, Direction::First)
    }

    /// Moves to the last entry of the root.
    pub fn try_skip(&mut self) -> (res: Result<Outcome, Error>)
        requires
            old(self).wf(),
        ensures
            final(self)@ == old(self)@.navigate(Travel::Within, Direction::Last).navigator,
            final(self).wf(),
            answers(res, old(self)@.navigate(Travel::Within, Direction::Last).verdict),
    {
        self.try_read(Travel::Within, Direction::Last)
    }

    /// Makes the root that has arrived the current one; see
    /// [`NavigatorView::opened`].
    fn try_root(&mut self, listing: bool, edge: Edge, response: Response) -> (res: Result<
        Outcome,
        Error,
    >)
        requires
            old(self).wf(),
        ensures
            final(self)@ == old(self)@.opened(listing, edge, response@).navigator,
            final(self).wf(),
            answers(res, old(self)@.opened(listing, edge, response@).verdict),
    {
        match response {
            Response::Failed(e) => self.fail(Error::Io(e), Ghost(Fault::Io(e))),
            Response::Listing(entries) => {
                if listing {
                    let ghost moved = DirectoryView::listed(entries_view(entries@)).read(
                        edge.inward(),
                    );
                    let mut root = DirectoryCursor::new(entries);
                    assert(self.buf@ =~= Seq::empty());
                    let step = root.read(&mut self.buf, edge.direction());
                    self.cursor = Cursor::Directory(root);
                    self.settle(Travel::Within, step, Ghost(moved.effect))
                } else {
                    self.fail(Error::Unexpected, Ghost(Fault::Unexpected))
                }
            },
            Response::Contents(bytes) => {
                if listing {
                    self.fail(Error::Unexpected, Ghost(Fault::Unexpected))
                } else {
                    let ghost source = bytes@;
                    match ArchiveCursor::open(bytes) {
                        Ok(root) => {
                            let mut root = root;
                            let ghost archive = root@;
                            assert(self.buf@ =~= Seq::empty());
                            let read = root.read(&mut self.buf, edge.direction());
                            self.cursor = Cursor::Archive(root);
                            let step = match read {
                                Ok(()) => Ok(Step::Done),
                                Err(e) => Err(e),
                            };
                            self.settle(
                                Travel::Within,
                                step,
                                Ghost(archive_effect(archive, edge.inward())),
                            )
                        },
                        Err(e) => self.fail(e, Ghost(Fault::Archive)),
                    }
                }
            },
        }
    }

    /// Opens the neighbour of the root in the listing that has arrived;
    /// see [`NavigatorView::sought`]. For `Front` it is the entry behind
    /// the root, for `Back` the entry before it.
    fn try_neighbour(&mut self, edge: Edge, response: Response) -> (res: Result<Outcome, Error>)
        requires
            old(self).wf(),
            old(self)@.root_hint is Some,
        ensures
            final(self)@ == old(self)@.sought(edge, response@).navigator,
            final(self).wf(),
            answers(res, old(self)@.sought(edge, response@).verdict),
    {
        match response {
            Response::Failed(e) => self.fail(Error::Io(e), Ghost(Fault::Io(e))),
            Response::Contents(_) => self.fail(Error::Unexpected, Ghost(Fault::Unexpected)),
            Response::Listing(entries) => {
                let found = match &self.root_hint {
                    Some(path) => match edge {
                        Edge::Front => next_file_path(&entries, path),
                        Edge::Back => previous_file_path(&entries, path),
                    },
                    None => None,
                };
                match found {
                    Some(at) => {
                        let entry = &entries[at];
                        assert(entries_view(entries@)[at as int] == entry@);
                        let is_dir = match entry.kind() {
                            EntryKind::Directory => true,
                            _ => false,
                        };
                        self.try_open(entry.path().clone(), is_dir, edge)
                    },
                    None => {
                        self.root_hint = None;
                        self.phase = Phase::Idle;
                        Ok(Outcome::End)
                    },
                }
            },
        }
    }

    /// Takes up the move that stopped with a request, with the caller's
    /// answer to it; see [`NavigatorView::resume`].
    ///
    /// It fails with the failure that the caller reports, with
    /// [`Error::Zip`] where a file that is taken for an archive is none or
    /// a member cannot be read, and with [`Error::Unexpected`] where no
    /// request is outstanding or the response is of the wrong sort. Bytes
    /// that are no image are no failure: the placeholder is shown. After
    /// any failure the navigator has forgotten the path of its root, and
    /// its cursor is one that the caller can go on with.
    pub fn resume(&mut self, response: Response) -> (res: Result<Outcome, Error>)
        requires
            old(self).wf(),
        ensures
            final(self)@ == old(self)@.resume(response@).navigator,
            final(self).wf(),
            answers(res, old(self)@.resume(response@).verdict),
    {
        match self.phase {
            Phase::Idle => self.fail(Error::Unexpected, Ghost(Fault::Unexpected)),
            Phase::Opening { listing, edge } => self.try_root(listing, edge, response),
            Phase::Traversing(travel) => {
                let ghost moved = self@.cursor.resume(response@);
                assert(self.buf@ =~= Seq::empty());
                let step = self.cursor.resume(&mut self.buf, response);
                self.settle(travel, step, Ghost(moved.effect))
            },
            Phase::Seeking(edge) => self.try_neighbour(edge, response),
        }
    }
}

} // verus!
