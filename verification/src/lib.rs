//! A navigation engine that presents images held in directories and zip
//! archives, nested to any depth, as one flat ordered sequence.
//!
//! The engine performs no file-system access of its own. Whenever a step
//! needs the listing of a directory or the bytes of a file it returns a
//! [`Request`]; the caller carries it out and hands the [`Response`] back.
//! A caller opens a root with [`Navigator::try_first`], pages with
//! [`Navigator::try_next`] and [`Navigator::try_previous`], and after each
//! of these calls answers with [`Navigator::resume`] for as long as the
//! result is [`Outcome::Need`].
//!
//! Every type has a mathematical value, its view, and every operation is
//! specified as a function on these values: [`archive::ArchiveView`] for a
//! cursor in an archive, [`cursor::CursorView`] for a chain of cursors, and
//! [`navigator::NavigatorView`] for the top level. The modules whose names
//! end in `_laws` prove what holds of every walk.

pub mod archive;
pub mod archive_laws;
pub mod cursor;
pub mod cursor_laws;
pub mod direction;
pub mod entry;
pub mod error;
pub mod navigator;
pub mod navigator_laws;
pub mod pixels;
pub mod sibling;

pub use archive::{ArchiveCursor, Member};
pub use cursor::{Cursor, DirectoryCursor};
pub use direction::{Direction, Edge};
pub use entry::{DirEntry, EntryKind, Request, Response, Step};
pub use error::Error;
pub use navigator::{Navigator, Outcome, Phase, Travel};
pub use pixels::{broken, render_image, PixelBuffer};
