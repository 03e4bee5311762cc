use gallery_nav::entry::{classify, image_extension, DirEntry, EntryKind, Request};
use gallery_nav::error::Error;
use gallery_nav::sibling::{next_file_path, previous_file_path};

fn entries(paths: &[&str]) -> Vec<DirEntry> {
    paths.iter().map(|path| DirEntry::new(path.to_string(), false)).collect()
}

#[test]
fn image_extensions_are_jpg_jpeg_and_png() {
    assert!(image_extension("jpg"));
    assert!(image_extension("jpeg"));
    assert!(image_extension("png"));
    assert!(!image_extension(""));
    assert!(!image_extension("PNG"));
    assert!(!image_extension("Jpg"));
    assert!(!image_extension("gif"));
    assert!(!image_extension("zip"));
    assert!(!image_extension("pn"));
    assert!(!image_extension("pngx"));
    assert!(!image_extension(".png"));
}

#[test]
fn classify_puts_the_directory_flag_first() {
    assert_eq!(classify(true, None), EntryKind::Directory);
    assert_eq!(classify(true, Some("png")), EntryKind::Directory);
    assert_eq!(classify(true, Some("zip")), EntryKind::Directory);
    assert_eq!(classify(false, Some("png")), EntryKind::Image);
    assert_eq!(classify(false, Some("jpg")), EntryKind::Image);
    assert_eq!(classify(false, Some("jpeg")), EntryKind::Image);
    assert_eq!(classify(false, Some("zip")), EntryKind::Archive);
    assert_eq!(classify(false, Some("cbz")), EntryKind::Archive);
    assert_eq!(classify(false, Some("")), EntryKind::Archive);
    assert_eq!(classify(false, None), EntryKind::Archive);
}

#[test]
fn entry_takes_its_kind_from_the_extension_of_its_path() {
    assert_eq!(DirEntry::new("/g/a.png".to_string(), false).kind(), EntryKind::Image);
    assert_eq!(DirEntry::new("/g/a.b.jpeg".to_string(), false).kind(), EntryKind::Image);
    assert_eq!(DirEntry::new("relative/a.jpg".to_string(), false).kind(), EntryKind::Image);
    assert_eq!(DirEntry::new("/g/a.zip".to_string(), false).kind(), EntryKind::Archive);
    assert_eq!(DirEntry::new("/g/a".to_string(), false).kind(), EntryKind::Archive);
    assert_eq!(DirEntry::new("/g/a.JPG".to_string(), false).kind(), EntryKind::Archive);
    assert_eq!(DirEntry::new("/g.png/a".to_string(), false).kind(), EntryKind::Archive);
    // A name that is nothing but a dot and letters has no extension.
    assert_eq!(DirEntry::new("/g/.png".to_string(), false).kind(), EntryKind::Archive);
    assert_eq!(DirEntry::new("/g/a.png".to_string(), true).kind(), EntryKind::Directory);
    assert_eq!(DirEntry::new("/g/sub".to_string(), true).kind(), EntryKind::Directory);
}

#[test]
fn entry_keeps_its_path() {
    let entry = DirEntry::new("/some where/pic.png".to_string(), false);
    assert_eq!(entry.path(), "/some where/pic.png");
    let entry = DirEntry::with_kind("/x".to_string(), EntryKind::Image);
    assert_eq!(entry.path(), "/x");
    assert_eq!(entry.kind(), EntryKind::Image);
}

#[test]
fn directory_is_listed_and_file_is_read() {
    match DirEntry::with_kind("/d".to_string(), EntryKind::Directory).request() {
        Some(Request::List(path)) => assert_eq!(path, "/d"),
        other => panic!("unexpected request {:?}", other),
    }
    match DirEntry::with_kind("/i.png".to_string(), EntryKind::Image).request() {
        Some(Request::Read(path)) => assert_eq!(path, "/i.png"),
        other => panic!("unexpected request {:?}", other),
    }
    match DirEntry::with_kind("/a.zip".to_string(), EntryKind::Archive).request() {
        Some(Request::Read(path)) => assert_eq!(path, "/a.zip"),
        other => panic!("unexpected request {:?}", other),
    }
    assert!(DirEntry::with_kind("/notes.txt".to_string(), EntryKind::Other).request().is_none());
}

#[test]
fn next_file_path_is_the_entry_behind_the_path() {
    let listing = entries(&["/p/a", "/p/b", "/p/c"]);
    assert_eq!(next_file_path(&listing, &"/p/a".to_string()), Some(1));
    assert_eq!(next_file_path(&listing, &"/p/b".to_string()), Some(2));
    assert_eq!(next_file_path(&listing, &"/p/c".to_string()), None);
    assert_eq!(next_file_path(&listing, &"/p/zzz".to_string()), None);
    assert_eq!(next_file_path(&Vec::new(), &"/p/a".to_string()), None);
}

#[test]
fn previous_file_path_is_the_entry_before_the_path() {
    let listing = entries(&["/p/a", "/p/b", "/p/c"]);
    assert_eq!(previous_file_path(&listing, &"/p/a".to_string()), None);
    assert_eq!(previous_file_path(&listing, &"/p/b".to_string()), Some(0));
    assert_eq!(previous_file_path(&listing, &"/p/c".to_string()), Some(1));
    // A path that is not listed is preceded by the last entry.
    assert_eq!(previous_file_path(&listing, &"/p/zzz".to_string()), Some(2));
    assert_eq!(previous_file_path(&Vec::new(), &"/p/a".to_string()), None);
}

#[test]
fn search_stops_at_the_first_entry_with_the_path() {
    let listing = entries(&["/p/a", "/p/b", "/p/a", "/p/c"]);
    assert_eq!(next_file_path(&listing, &"/p/a".to_string()), Some(1));
    assert_eq!(previous_file_path(&listing, &"/p/a".to_string()), None);
}

#[test]
fn error_messages_are_those_of_the_underlying_errors() {
    let io = Error::Io(std::io::Error::new(std::io::ErrorKind::NotFound, "nothing here"));
    assert_eq!(io.message(), "nothing here");
    let zip = Error::Zip(zip::result::ZipError::InvalidArchive("bad magic"));
    assert_eq!(zip.message(), "invalid Zip archive: bad magic");
    let zip = Error::Zip(zip::result::ZipError::FileNotFound);
    assert_eq!(zip.message(), "specified file not found in archive");
    assert_eq!(Error::Unexpected.message(), "response does not answer a pending request");
}
