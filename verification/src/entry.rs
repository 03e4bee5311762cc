//! The entries of a directory, and the exchange by which the engine asks
//! its caller for file-system work.

use vstd::prelude::*;

verus! {

/// How the engine treats one entry of a directory.
#[derive(Clone, Copy, Debug, PartialEq, Eq, Structural)]
pub enum EntryKind {
    /// A sub-directory: it is entered and walked in turn.
    Directory,
    /// A file with the extension of a raster image: its bytes are the entry.
    Image,
    /// A file that is taken for an archive and opened as one. Every file
    /// that is no image is of this kind unless the caller rules otherwise:
    /// a coarse guess, which makes a file that is no archive fail when it
    /// is reached.
    Archive,
    /// A file that the caller has ruled out: it is neither read nor opened
    /// and holds no entry.
    Other,
}

/// Whether `extension` is one by which a file counts as a raster image.
pub open spec fn is_image_extension(extension: Seq<char>) -> bool {
    extension == "jpg"@ || extension == "jpeg"@ || extension == "png"@
}

/// The kind of an entry that is a directory or not, and whose path has the
/// given extension, if it has one.
pub open spec fn kind_of(is_dir: bool, extension: Option<Seq<char>>) -> EntryKind {
    if is_dir {
        EntryKind::Directory
    } else if extension matches Some(ext) && is_image_extension(ext) {
        EntryKind::Image
    } else {
        EntryKind::Archive
    }
}

/// Computes [`is_image_extension`].
pub fn image_extension(extension: &str) -> (image: bool)
    ensures
        image == is_image_extension(extension@),
{
    let ext = extension.to_owned();
    ext == "jpg".to_owned() || ext == "jpeg".to_owned() || ext == "png".to_owned()
}

/// Computes [`kind_of`]: a directory is a directory whatever its name; a
/// file is an image where its extension says so, and else is taken for an
/// archive.
pub fn classify(is_dir: bool, extension: Option<&str>) -> (kind: EntryKind)
    ensures
        kind == kind_of(
            is_dir,
            match extension {
                Some(ext) => Some(ext@),
                None => None,
            },
        ),
{
    if is_dir {
        EntryKind::Directory
    } else {
        match extension {
            Some(ext) => if image_extension(ext) {
                EntryKind::Image
            } else {
                EntryKind::Archive
            },
            None => EntryKind::Archive,
        }
    }
}

/// Calls `std::path::Path::extension` on `path` and hands the extension
/// back where it is valid Unicode. How a path splits into components
/// depends on the platform, so nothing is claimed of the result.
#[verifier::external_body]
fn path_extension(path: &str) -> Option<String> {
    let extension = std::path::Path::new(path).extension()?;
    Some(extension.to_str()?.to_owned())
}

/// One entry of a directory listing.
#[derive(Debug)]
pub struct DirEntry {
    path: String,
    kind: EntryKind,
}

/// The mathematical value of a [`DirEntry`].
pub struct DirEntryView {
    pub path: Seq<char>,
    pub kind: EntryKind,
}

impl View for DirEntry {
    type V = DirEntryView;

    closed spec fn view(&self) -> DirEntryView {
        DirEntryView { path: self.path@, kind: self.kind }
    }
}

impl DirEntry {
    /// The entry for `path`, which the file system reports as a directory
    /// or not. A directory is of kind [`EntryKind::Directory`]; a file is
    /// of the kind that [`classify`] gives for the extension that the
    /// platform finds in `path`.
    pub fn new(path: String, is_dir: bool) -> (entry: DirEntry)
        ensures
            entry@.path == path@,
            is_dir ==> entry@.kind is Directory,
            !is_dir ==> entry@.kind is Image || entry@.kind is Archive,
    {
        let kind = match path_extension(path.as_str()) {
            Some(extension) => classify(is_dir, Some(extension.as_str())),
            None => classify(is_dir, None),
        };
        DirEntry { path, kind }
    }

    /// The entry for `path` with a kind that the caller has settled. This
    /// is how a caller with a policy of its own overrides the guess that
    /// [`DirEntry::new`] makes, for instance to have files that it knows to
    /// be no archives passed over as [`EntryKind::Other`].
    pub fn with_kind(path: String, kind: EntryKind) -> (entry: DirEntry)
        ensures
            entry@ == (DirEntryView { path: path@, kind }),
    {
        DirEntry { path, kind }
    }

    /// The entry's path.
    pub fn path(&self) -> (path: &String)
        ensures
            path@ == self@.path,
    {
        &self.path
    }

    /// The entry's kind.
    pub fn kind(&self) -> (kind: EntryKind)
        ensures
            kind == self@.kind,
    {
        self.kind
    }

    /// The request that fetches what the engine needs of this entry, if
    /// it needs anything.
    pub fn request(&self) -> (request: Option<Request>)
        ensures
            match self@.request() {
                Some(asked) => request matches Some(r) && r@ == asked,
                None => request is None,
            },
    {
        match self.kind {
            EntryKind::Directory => Some(Request::List(self.path.clone())),
            EntryKind::Image | EntryKind::Archive => Some(Request::Read(self.path.clone())),
            EntryKind::Other => None,
        }
    }
}

impl DirEntryView {
    /// A directory is listed; a file, image or archive, is read; of a file
    /// that is ruled out nothing is needed.
    pub open spec fn request(self) -> Option<RequestView> {
        match self.kind {
            EntryKind::Directory => Some(RequestView::List(self.path)),
            EntryKind::Image | EntryKind::Archive => Some(RequestView::Read(self.path)),
            EntryKind::Other => None,
        }
    }
}

/// The values of the entries of a listing.
pub open spec fn entries_view(entries: Seq<DirEntry>) -> Seq<DirEntryView> {
    Seq::new(entries.len(), |i: int| entries[i]@)
}

/// File-system work that the engine asks its caller to do.
#[derive(Debug)]
pub enum Request {
    /// List the direct children of the directory at this path, in the order
    /// in which the file system reports them.
    List(String),
    /// Read the whole file at this path.
    Read(String),
    /// List the directory that holds this path.
    Siblings(String),
}

/// The mathematical value of a [`Request`].
pub enum RequestView {
    List(Seq<char>),
    Read(Seq<char>),
    Siblings(Seq<char>),
}

impl View for Request {
    type V = RequestView;

    open spec fn view(&self) -> RequestView {
        match self {
            Request::List(path) => RequestView::List(path@),
            Request::Read(path) => RequestView::Read(path@),
            Request::Siblings(path) => RequestView::Siblings(path@),
        }
    }
}

/// The caller's answer to a [`Request`].
#[derive(Debug)]
pub enum Response {
    /// The entries of the directory that was to be listed.
    Listing(Vec<DirEntry>),
    /// The bytes of the file that was to be read.
    Contents(Vec<u8>),
    /// The work failed.
    Failed(std::io::Error),
}

/// The mathematical value of a [`Response`].
pub enum ResponseView {
    Listing(Seq<DirEntryView>),
    Contents(Seq<u8>),
    Failed(std::io::Error),
}

impl View for Response {
    type V = ResponseView;

    open spec fn view(&self) -> ResponseView {
        match self {
            Response::Listing(entries) => ResponseView::Listing(entries_view(entries@)),
            Response::Contents(bytes) => ResponseView::Contents(bytes@),
            Response::Failed(e) => ResponseView::Failed(*e),
        }
    }
}

/// How a call on a cursor ended.
#[derive(Debug)]
pub enum Step {
    /// The move is complete.
    Done,
    /// The move goes on once the caller has answered this request.
    Need(Request),
}

} // verus!
