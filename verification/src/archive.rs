//! A cursor over the members of one zip archive.
//!
//! The cursor keeps the archive's own member order as its position space and
//! skips directory markers while it moves, so that a position means the same
//! thing to the archive and to the caller.

use vstd::prelude::*;

use crate::direction::Direction;
use crate::error::Error;

verus! {

/// `zip::ZipArchive`, kept as an opaque handle.
#[verifier::external_type_specification]
#[verifier::external_body]
#[verifier::reject_recursive_types(R)]
pub struct ExZipArchive<R>(zip::ZipArchive<R>);

/// `std::io::Cursor`, the in-memory reader that the archive handle owns.
#[verifier::external_type_specification]
#[verifier::external_body]
#[verifier::reject_recursive_types(T)]
pub struct ExIoCursor<T>(std::io::Cursor<T>);

/// What the archive's directory records of one member.
pub struct Member {
    /// The member's path inside the archive.
    pub name: String,
    /// Whether the member is a regular file rather than a directory marker.
    pub is_file: bool,
    /// The member's size once decompressed, as the directory states it.
    pub size: u64,
}

/// The mathematical value of a [`Member`].
pub struct MemberView {
    pub name: Seq<char>,
    pub is_file: bool,
    pub size: u64,
}

impl View for Member {
    type V = MemberView;

    open spec fn view(&self) -> MemberView {
        MemberView { name: self.name@, is_file: self.is_file, size: self.size }
    }
}

/// The bytes that an open archive reads from.
pub uninterp spec fn archive_source(archive: zip::ZipArchive<std::io::Cursor<Vec<u8>>>) -> Seq<u8>;

/// Whether `zip::ZipArchive::new` accepts `source` as an archive.
pub uninterp spec fn zip_accepts(source: Seq<u8>) -> bool;

/// The number of members that `zip::ZipArchive::len` reports for an archive
/// read from `source`.
pub uninterp spec fn zip_len(source: Seq<u8>) -> nat;

/// What `zip::ZipArchive::by_index_raw` finds at `index` of an archive read
/// from `source`: the member's directory record, or `None` where the call
/// fails.
pub uninterp spec fn zip_member(source: Seq<u8>, index: int) -> Option<MemberView>;

/// The decompressed contents of member `index` of an archive read from
/// `source`, or `None` where the member cannot be opened or read to its end.
pub uninterp spec fn zip_contents(source: Seq<u8>, index: int) -> Option<Seq<u8>>;

/// The members of an archive read from `source`, in archive order: `None`
/// where `source` is no archive or the record of one of its members cannot
/// be read.
pub open spec fn zip_listing(source: Seq<u8>) -> Option<Seq<MemberView>> {
    if zip_accepts(source) && forall|i: int|
        0 <= i < zip_len(source) ==> (#[trigger] zip_member(source, i)) is Some {
        Some(Seq::new(zip_len(source), |i: int| zip_member(source, i).unwrap()))
    } else {
        None
    }
}

/// Calls `zip::ZipArchive::new` on an in-memory reader over `bytes`. The
/// call parses the central directory, which is a function of the bytes
/// alone: it succeeds exactly where [`zip_accepts`] says so, and the handle
/// then reads from these bytes.
#[verifier::external_body]
fn archive_open(bytes: Vec<u8>) -> (res: Result<
    zip::ZipArchive<std::io::Cursor<Vec<u8>>>,
    zip::result::ZipError,
>)
    ensures
        res is Ok == zip_accepts(bytes@),
        res matches Ok(archive) ==> archive_source(archive) == bytes@,
{
    zip::ZipArchive::new(std::io::Cursor::new(bytes))
}

/// Calls `zip::ZipArchive::len`: the number of members in the central
/// directory.
#[verifier::external_body]
fn archive_len(archive: &zip::ZipArchive<std::io::Cursor<Vec<u8>>>) -> (len: usize)
    ensures
        len == zip_len(archive_source(*archive)),
{
    archive.len()
}

/// Calls `zip::ZipArchive::by_index_raw` and copies what `name`, `is_file`
/// and `size` say of the entry it returns. The call seeks to the member's
/// local header and checks it; the bytes behind the handle stay as they
/// are, so the result is that of [`zip_member`].
#[verifier::external_body]
fn archive_member(archive: &mut zip::ZipArchive<std::io::Cursor<Vec<u8>>>, index: usize) -> (res:
    Result<Member, zip::result::ZipError>)
    ensures
        archive_source(*final(archive)) == archive_source(*old(archive)),
        match zip_member(archive_source(*old(archive)), index as int) {
            Some(record) => res matches Ok(member) && member@ == record,
            None => res is Err,
        },
{
    let entry = archive.by_index_raw(index)?;
    Ok(Member { name: entry.name().to_string(), is_file: entry.is_file(), size: entry.size() })
}

/// Calls `zip::ZipArchive::by_index_decrypt` with an empty password and
/// reads the entry to its end into `buf` with `std::io::Read::read_to_end`.
/// For a member that is not encrypted this is what `by_index` opens; an
/// encrypted member is reported as the archive reader reports one that
/// needs a password. The bytes
/// behind the handle stay as they are. On success the member's contents,
/// those of [`zip_contents`], are appended to `buf`; on failure `buf` keeps
/// what it held and may have grown by what was read before the failure.
#[verifier::external_body]
fn archive_read(
    archive: &mut zip::ZipArchive<std::io::Cursor<Vec<u8>>>,
    index: usize,
    buf: &mut Vec<u8>,
) -> (res: Result<(), Error>)
    ensures
        archive_source(*final(archive)) == archive_source(*old(archive)),
        match zip_contents(archive_source(*old(archive)), index as int) {
            Some(contents) => res is Ok && final(buf)@ == old(buf)@ + contents,
            None => res matches Err(e) && (e is Zip || e is Io) && old(buf)@.is_prefix_of(
                final(buf)@,
            ),
        },
{
    match archive.by_index_decrypt(index, &[]) {
        Ok(Ok(mut entry)) => match std::io::Read::read_to_end(&mut entry, buf) {
            Ok(_) => Ok(()),
            Err(e) => Err(Error::Io(e)),
        },
        Ok(Err(_)) => Err(Error::Zip(zip::result::ZipError::UnsupportedArchive(
            zip::result::ZipError::PASSWORD_REQUIRED,
        ))),
        Err(e) => Err(Error::Zip(e)),
    }
}

/// The mathematical value of an [`ArchiveCursor`].
pub struct ArchiveView {
    /// The current position.
    pub index: nat,
    /// The archive's members, in archive order.
    pub members: Seq<MemberView>,
    /// The bytes of the archive.
    pub source: Seq<u8>,
}

impl ArchiveView {
    /// The position is that of a member, or zero in an archive without
    /// members.
    pub open spec fn wf(self) -> bool {
        if self.members.len() == 0 {
            self.index == 0
        } else {
            self.index < self.members.len()
        }
    }

    /// The cursor as it is right after the archive was opened.
    pub open spec fn opened(members: Seq<MemberView>, source: Seq<u8>) -> ArchiveView {
        ArchiveView { index: 0, members, source }
    }

    /// No move backward is possible.
    pub open spec fn is_head(self) -> bool {
        self.index == 0
    }

    /// No move forward is possible.
    pub open spec fn is_eof(self) -> bool {
        self.members.len() == 0 || self.index == self.members.len() - 1
    }

    /// Whether `i` is the position of a regular file.
    pub open spec fn is_file_at(self, i: int) -> bool {
        0 <= i < self.members.len() && self.members[i].is_file
    }

    /// The first regular file at or after `from`, or the number of members
    /// where there is none.
    pub open spec fn file_from(self, from: int) -> int
        decreases self.members.len() - from,
    {
        if from >= self.members.len() {
            self.members.len() as int
        } else if self.is_file_at(from) {
            from
        } else {
            self.file_from(from + 1)
        }
    }

    /// The last regular file before `before`, or -1 where there is none.
    pub open spec fn file_before(self, before: int) -> int
        decreases before,
    {
        if before <= 0 {
            -1
        } else if self.is_file_at(before - 1) {
            before - 1
        } else {
            self.file_before(before - 1)
        }
    }

    /// The regular file that a move in `direction` resolves to, or `None`
    /// where the move finds no entry.
    pub open spec fn target(self, direction: Direction) -> Option<nat> {
        let found = match direction {
            Direction::First => self.file_from(0),
            Direction::Next => if self.is_eof() {
                -1
            } else {
                self.file_from(self.index as int + 1)
            },
            Direction::Prev => self.file_before(self.index as int),
            Direction::Last => self.file_before(self.members.len() as int),
            Direction::Offset(n) => if self.is_file_at(n as int) {
                n as int
            } else {
                -1
            },
        };
        if 0 <= found < self.members.len() {
            Some(found as nat)
        } else {
            None
        }
    }

    /// The position after a move in `direction`. A move that finds an entry
    /// ends on it. A forward scan that finds none ends on the last member,
    /// a backward scan on the first; `Next` at the end stays where it is,
    /// and `Offset` goes where it is told.
    pub open spec fn landing(self, direction: Direction) -> nat {
        match self.target(direction) {
            Some(found) => found,
            None => match direction {
                Direction::First => if self.members.len() == 0 {
                    0
                } else {
                    (self.members.len() - 1) as nat
                },
                Direction::Next => if self.is_eof() {
                    self.index
                } else {
                    (self.members.len() - 1) as nat
                },
                Direction::Prev | Direction::Last => 0,
                Direction::Offset(n) => n as nat,
            },
        }
    }

    /// The cursor after a move in `direction`.
    pub open spec fn moved(self, direction: Direction) -> ArchiveView {
        ArchiveView { index: self.landing(direction), ..self }
    }

    /// Whether a move in `direction` is one that the cursor accepts:
    /// `Offset` must name a member.
    pub open spec fn accepts(self, direction: Direction) -> bool {
        direction matches Direction::Offset(n) ==> n < self.members.len()
    }
}

/// A cursor over one opened archive.
pub struct ArchiveCursor {
    index: usize,
    members: Vec<Member>,
    handle: zip::ZipArchive<std::io::Cursor<Vec<u8>>>,
}

impl View for ArchiveCursor {
    type V = ArchiveView;

    closed spec fn view(&self) -> ArchiveView {
        ArchiveView {
            index: self.index as nat,
            members: Seq::new(self.members@.len(), |i: int| self.members@[i]@),
            source: archive_source(self.handle),
        }
    }
}

impl ArchiveCursor {
    /// Opens the archive held in `bytes` and lists its members. It fails
    /// with [`Error::Zip`] where the bytes are no archive that the reader
    /// accepts, or the record of a member cannot be read; otherwise the
    /// cursor stands at position zero.
    pub fn open(bytes: Vec<u8>) -> (res: Result<ArchiveCursor, Error>)
        ensures
            match zip_listing(bytes@) {
                Some(members) => res matches Ok(cursor) && cursor@ == ArchiveView::opened(
                    members,
                    bytes@,
                ) && cursor@.wf(),
                None => res matches Err(e) && e is Zip,
            },
    {
        let ghost source = bytes@;
        let mut handle = match archive_open(bytes) {
            Ok(handle) => handle,
            Err(e) => {
                return Err(Error::Zip(e));
            },
        };
        let len: usize = archive_len(&handle);
        let mut members: Vec<Member> = Vec::new();
        let mut i: usize = 0;
        while i < len
            invariant
                source == bytes@,
                zip_accepts(source),
                archive_source(handle) == source,
                len == zip_len(source),
                i <= len,
                members@.len() == i,
                forall|k: int|
                    0 <= k < i ==> (#[trigger] zip_member(source, k)) == Some(members@[k]@),
            decreases len - i,
        {
            match archive_member(&mut handle, i) {
                Ok(member) => {
                    members.push(member);
                },
                Err(e) => {
                    assert(zip_member(source, i as int) is None);
                    return Err(Error::Zip(e));
                },
            }
            i = i + 1;
        }
        let cursor = ArchiveCursor { index: 0, members, handle };
        proof {
            assert(zip_listing(source) is Some);
            assert(cursor@.members =~= zip_listing(source).unwrap());
        }
        Ok(cursor)
    }

    /// The number of members.
    pub fn len(&self) -> (len: usize)
        ensures
            len == self@.members.len(),
    {
        self.members.len()
    }

    /// The current position.
    pub fn position(&self) -> (index: usize)
        ensures
            index == self@.index,
    {
        self.index
    }

    /// The directory record of the member at `index`, if there is one.
    pub fn member(&self, index: usize) -> (member: Option<&Member>)
        ensures
            match member {
                Some(record) => index < self@.members.len() && record@
                    == self@.members[index as int],
                None => index >= self@.members.len(),
            },
    {
        if index < self.members.len() {
            Some(&self.members[index])
        } else {
            None
        }
    }

    /// True iff no `Prev` is possible from the current position.
    pub fn is_head(&self) -> (head: bool)
        ensures
            head == self@.is_head(),
    {
        self.index == 0
    }

    /// True iff no `Next` is possible from the current position.
    pub fn is_eof(&self) -> (eof: bool)
        ensures
            eof == self@.is_eof(),
    {
        let len: usize = self.members.len();
        len == 0 || self.index == len - 1
    }

    /// Finds the first regular file at or after `from`.
    fn seek_forward(&self, from: usize) -> (found: usize)
        requires
            from <= self@.members.len(),
        ensures
            found == self@.file_from(from as int),
            from <= found <= self@.members.len(),
        decreases self@.members.len() - from,
    {
        let mut at: usize = from;
        while at < self.members.len() && !self.members[at].is_file
            invariant
                from <= at <= self@.members.len(),
                self@.file_from(at as int) == self@.file_from(from as int),
            decreases self@.members.len() - at,
        {
            at = at + 1;
        }
        at
    }

    /// Finds the last regular file before `before`.
    fn seek_backward(&self, before: usize) -> (found: Option<usize>)
        requires
            before <= self@.members.len(),
        ensures
            match found {
                Some(at) => at == self@.file_before(before as int) && at < before,
                None => self@.file_before(before as int) == -1,
            },
    {
        let mut at: usize = before;
        while at > 0 && !self.members[at - 1].is_file
            invariant
                at <= before <= self@.members.len(),
                self@.file_before(at as int) == self@.file_before(before as int),
            decreases at,
        {
            at = at - 1;
        }
        if at > 0 {
            Some(at - 1)
        } else {
            None
        }
    }

    /// Reads the member at the current position into `buf`, which is first
    /// asked to make room for the size that the directory states.
    fn read_by_index(&mut self, buf: &mut Vec<u8>) -> (res: Result<(), Error>)
        requires
            old(self)@.index < old(self)@.members.len(),
        ensures
            final(self)@ == old(self)@,
            match zip_contents(old(self)@.source, old(self)@.index as int) {
                Some(contents) => res is Ok && final(buf)@ == old(buf)@ + contents,
                None => res matches Err(e) && (e is Zip || e is Io) && old(buf)@.is_prefix_of(
                    final(buf)@,
                ),
            },
    {
        let size: u64 = self.members[self.index].size;
        if size <= usize::MAX as u64 {
            let _ = buf.try_reserve(size as usize);
        }
        archive_read(&mut self.handle, self.index, buf)
    }

    /// Moves the cursor in `direction` and appends the contents of the
    /// member it resolves to, if any, to `buf`.
    ///
    /// Directory markers are skipped. A move that finds no regular file
    /// leaves `buf` as it is and succeeds: that is how the end of the
    /// archive is told. The call fails only where the member that the move
    /// resolves to cannot be read; the cursor then stands on that member.
    pub fn read(&mut self, buf: &mut Vec<u8>, direction: Direction) -> (res: Result<(), Error>)
        requires
            old(self)@.wf(),
            old(self)@.accepts(direction),
        ensures
            final(self)@ == old(self)@.moved(direction),
            final(self)@.wf(),
            match old(self)@.target(direction) {
                None => res is Ok && final(buf)@ == old(buf)@,
                Some(found) => match zip_contents(old(self)@.source, found as int) {
                    Some(contents) => res is Ok && final(buf)@ == old(buf)@ + contents,
                    None => res matches Err(e) && (e is Zip || e is Io) && old(
                        buf,
                    )@.is_prefix_of(final(buf)@),
                },
            },
    {
        let len: usize = self.members.len();
        match direction {
            Direction::First => {
                let found: usize = self.seek_forward(0);
                if found < len {
                    self.index = found;
                    self.read_by_index(buf)
                } else {
                    self.index = if len == 0 {
                        0
                    } else {
                        len - 1
                    };
                    Ok(())
                }
            },
            Direction::Next => {
                if self.is_eof() {
                    return Ok(());
                }
                let found: usize = self.seek_forward(self.index + 1);
                if found < len {
                    self.index = found;
                    self.read_by_index(buf)
                } else {
                    self.index = len - 1;
                    Ok(())
                }
            },
            Direction::Prev => {
                match self.seek_backward(self.index) {
                    Some(found) => {
                        self.index = found;
                        self.read_by_index(buf)
                    },
                    None => {
                        self.index = 0;
                        Ok(())
                    },
                }
            },
            Direction::Last => {
                match self.seek_backward(len) {
                    Some(found) => {
                        self.index = found;
                        self.read_by_index(buf)
                    },
                    None => {
                        self.index = 0;
                        Ok(())
                    },
                }
            },
            Direction::Offset(n) => {
                self.index = n;
                if self.members[n].is_file {
                    self.read_by_index(buf)
                } else {
                    Ok(())
                }
            },
        }
    }
}

} // verus!
