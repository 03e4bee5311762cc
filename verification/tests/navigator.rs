use std::collections::HashMap;
use std::io::Write;

use gallery_nav::entry::{DirEntry, Request, Response};
use gallery_nav::error::Error;
use gallery_nav::navigator::{Navigator, Outcome, Phase, Travel};
use gallery_nav::pixels::{broken, PixelBuffer};
use gallery_nav::Edge;

/// A file system held in memory.
struct Tree {
    dirs: HashMap<String, Vec<String>>,
    files: HashMap<String, Vec<u8>>,
    asked: Vec<String>,
}

impl Tree {
    fn new() -> Tree {
        Tree { dirs: HashMap::new(), files: HashMap::new(), asked: Vec::new() }
    }

    fn dir(mut self, path: &str, children: &[&str]) -> Tree {
        self.dirs.insert(path.to_string(), children.iter().map(|c| c.to_string()).collect());
        self
    }

    fn file(mut self, path: &str, bytes: &[u8]) -> Tree {
        self.files.insert(path.to_string(), bytes.to_vec());
        self
    }

    fn listing(&self, path: &str) -> Vec<DirEntry> {
        self.dirs[path]
            .iter()
            .map(|child| DirEntry::new(child.clone(), self.dirs.contains_key(child)))
            .collect()
    }

    fn missing(path: &str) -> Response {
        Response::Failed(std::io::Error::new(std::io::ErrorKind::NotFound, format!("no {}", path)))
    }

    fn answer(&mut self, request: &Request) -> Response {
        match request {
            Request::List(path) => {
                self.asked.push(format!("list {}", path));
                match self.dirs.get(path) {
                    Some(_) => Response::Listing(self.listing(path)),
                    None => Tree::missing(path),
                }
            }
            Request::Read(path) => {
                self.asked.push(format!("read {}", path));
                match self.files.get(path) {
                    Some(bytes) => Response::Contents(bytes.clone()),
                    None => Tree::missing(path),
                }
            }
            Request::Siblings(path) => {
                self.asked.push(format!("siblings {}", path));
                let parent = self.dirs.iter().find(|(_, children)| children.contains(path));
                match parent {
                    Some((parent, _)) => Response::Listing(self.listing(&parent.clone())),
                    None => Response::Listing(Vec::new()),
                }
            }
        }
    }

    /// Answers the navigator's requests until the call is complete.
    fn finish(
        &mut self,
        navigator: &mut Navigator,
        mut res: Result<Outcome, Error>,
    ) -> Result<Option<PixelBuffer>, Error> {
        loop {
            match res? {
                Outcome::Entry(pixels) => return Ok(Some(pixels)),
                Outcome::End => return Ok(None),
                Outcome::Need(request) => {
                    let response = self.answer(&request);
                    res = navigator.resume(response);
                }
            }
        }
    }

    fn open(
        &mut self,
        navigator: &mut Navigator,
        path: &str,
    ) -> Result<Option<PixelBuffer>, Error> {
        let res = navigator.try_first(path.to_string(), self.dirs.contains_key(path));
        self.finish(navigator, res)
    }

    fn open_last(
        &mut self,
        navigator: &mut Navigator,
        path: &str,
    ) -> Result<Option<PixelBuffer>, Error> {
        let res = navigator.try_last(path.to_string(), self.dirs.contains_key(path));
        self.finish(navigator, res)
    }

    fn next(&mut self, navigator: &mut Navigator) -> Result<Option<PixelBuffer>, Error> {
        let res = navigator.try_next();
        self.finish(navigator, res)
    }

    fn previous(&mut self, navigator: &mut Navigator) -> Result<Option<PixelBuffer>, Error> {
        let res = navigator.try_previous();
        self.finish(navigator, res)
    }
}

fn build_zip(members: &[(&str, Option<&[u8]>)]) -> Vec<u8> {
    let mut writer = zip::ZipWriter::new(std::io::Cursor::new(Vec::new()));
    let options =
        zip::write::FileOptions::default().compression_method(zip::CompressionMethod::Stored);
    for (name, contents) in members {
        match contents {
            Some(bytes) => {
                writer.start_file(*name, options).unwrap();
                writer.write_all(bytes).unwrap();
            }
            None => {
                writer.add_directory(*name, options).unwrap();
            }
        }
    }
    writer.finish().unwrap().into_inner()
}

/// A one-coloured image of the given extent, encoded as PNG.
fn png(width: u32, height: u32, red: u8) -> Vec<u8> {
    let pixels = image::RgbaImage::from_pixel(width, height, image::Rgba([red, 10, 20, 255]));
    let mut bytes = Vec::new();
    image::DynamicImage::ImageRgba8(pixels)
        .write_to(&mut std::io::Cursor::new(&mut bytes), image::ImageOutputFormat::Png)
        .unwrap();
    bytes
}

/// The red sample of the first pixel, by which the test images differ.
fn red(pixels: &Option<PixelBuffer>) -> u8 {
    pixels.as_ref().expect("an entry").rgba()[0]
}

fn is_placeholder(pixels: &Option<PixelBuffer>) -> bool {
    let shown = pixels.as_ref().expect("an entry");
    let placeholder = broken();
    shown.width() == placeholder.width()
        && shown.height() == placeholder.height()
        && shown.rgba() == placeholder.rgba()
}

fn two_roots() -> Tree {
    let root1 = build_zip(&[("1.png", Some(&png(1, 1, 11))), ("2.png", Some(&png(1, 1, 12)))]);
    let root2 = build_zip(&[("1.png", Some(&png(1, 1, 21))), ("2.png", Some(&png(1, 1, 22)))]);
    Tree::new()
        .dir("/p", &["/p/root1.zip", "/p/root2.zip"])
        .file("/p/root1.zip", &root1)
        .file("/p/root2.zip", &root2)
}

#[test]
fn new_navigator_has_nothing_to_show() {
    let mut tree = Tree::new();
    let mut navigator = Navigator::new([100, 100]);
    assert_eq!(navigator.phase(), Phase::Idle);
    assert!(navigator.root_hint().is_none());
    assert!(tree.next(&mut navigator).unwrap().is_none());
    assert!(tree.previous(&mut navigator).unwrap().is_none());
    let res = navigator.try_rewind();
    assert!(tree.finish(&mut navigator, res).unwrap().is_none());
    let res = navigator.try_skip();
    assert!(tree.finish(&mut navigator, res).unwrap().is_none());
    assert!(tree.asked.is_empty());
}

#[test]
fn opening_an_archive_asks_for_its_bytes_and_shows_its_first_entry() {
    let mut tree = two_roots();
    let mut navigator = Navigator::new([100, 100]);
    match navigator.try_first("/p/root1.zip".to_string(), false) {
        Ok(Outcome::Need(Request::Read(path))) => assert_eq!(path, "/p/root1.zip"),
        other => panic!("unexpected result {:?}", other),
    }
    assert_eq!(navigator.phase(), Phase::Opening { listing: false, edge: Edge::Front });
    assert_eq!(navigator.root_hint().unwrap(), "/p/root1.zip");
    let response = tree.answer(&Request::Read("/p/root1.zip".to_string()));
    match navigator.resume(response) {
        Ok(Outcome::Entry(pixels)) => {
            assert_eq!((pixels.width(), pixels.height()), (1, 1));
            assert_eq!(pixels.rgba(), &vec![11, 10, 20, 255]);
        }
        other => panic!("unexpected result {:?}", other),
    }
    assert_eq!(navigator.phase(), Phase::Idle);
    assert!(navigator.is_head());
    assert!(!navigator.is_eof());
}

#[test]
fn opening_a_directory_asks_for_its_listing() {
    let mut tree = Tree::new().dir("/g", &["/g/a.png"]).file("/g/a.png", &png(1, 1, 5));
    let mut navigator = Navigator::new([100, 100]);
    match navigator.try_last("/g".to_string(), true) {
        Ok(Outcome::Need(Request::List(path))) => assert_eq!(path, "/g"),
        other => panic!("unexpected result {:?}", other),
    }
    assert_eq!(navigator.phase(), Phase::Opening { listing: true, edge: Edge::Back });
    let response = tree.answer(&Request::List("/g".to_string()));
    match navigator.resume(response) {
        Ok(Outcome::Need(Request::Read(path))) => assert_eq!(path, "/g/a.png"),
        other => panic!("unexpected result {:?}", other),
    }
    assert_eq!(navigator.phase(), Phase::Traversing(Travel::Within));
    let response = tree.answer(&Request::Read("/g/a.png".to_string()));
    assert_eq!(red(&navigator.resume(response).map(|o| match o {
        Outcome::Entry(pixels) => Some(pixels),
        _ => None,
    }).unwrap()), 5);
}

#[test]
fn walk_continues_into_the_next_root() {
    let mut tree = two_roots();
    let mut navigator = Navigator::new([100, 100]);
    assert_eq!(red(&tree.open(&mut navigator, "/p/root1.zip").unwrap()), 11);
    assert_eq!(red(&tree.next(&mut navigator).unwrap()), 12);
    assert_eq!(red(&tree.next(&mut navigator).unwrap()), 21);
    assert_eq!(navigator.root_hint().unwrap(), "/p/root2.zip");
    assert_eq!(red(&tree.next(&mut navigator).unwrap()), 22);
    tree.asked.clear();
    // Behind the last root the walk ends and the path is forgotten.
    assert!(tree.next(&mut navigator).unwrap().is_none());
    assert!(navigator.root_hint().is_none());
    assert_eq!(tree.asked, ["siblings /p/root2.zip"]);
    // From then on a step forward is a no-op that asks for nothing.
    tree.asked.clear();
    assert!(tree.next(&mut navigator).unwrap().is_none());
    assert!(tree.next(&mut navigator).unwrap().is_none());
    assert!(tree.asked.is_empty());
    assert!(navigator.is_eof());
    // The root itself can still be walked.
    assert_eq!(red(&tree.previous(&mut navigator).unwrap()), 21);
    assert_eq!(red(&tree.next(&mut navigator).unwrap()), 22);
}

#[test]
fn walk_continues_into_the_previous_root() {
    let mut tree = two_roots();
    let mut navigator = Navigator::new([100, 100]);
    assert_eq!(red(&tree.open_last(&mut navigator, "/p/root2.zip").unwrap()), 22);
    assert_eq!(red(&tree.previous(&mut navigator).unwrap()), 21);
    assert_eq!(red(&tree.previous(&mut navigator).unwrap()), 12);
    assert_eq!(navigator.root_hint().unwrap(), "/p/root1.zip");
    assert_eq!(red(&tree.previous(&mut navigator).unwrap()), 11);
    assert!(tree.previous(&mut navigator).unwrap().is_none());
    assert!(navigator.root_hint().is_none());
    tree.asked.clear();
    assert!(tree.previous(&mut navigator).unwrap().is_none());
    assert!(tree.asked.is_empty());
    assert!(navigator.is_head());
}

#[test]
fn walk_leaves_a_directory_root_for_its_neighbour() {
    let archive = build_zip(&[("x.png", Some(&png(1, 1, 30)))]);
    let mut tree = Tree::new()
        .dir("/p", &["/p/album", "/p/more.zip"])
        .dir("/p/album", &["/p/album/a.png", "/p/album/b.png"])
        .file("/p/album/a.png", &png(1, 1, 1))
        .file("/p/album/b.png", &png(1, 1, 2))
        .file("/p/more.zip", &archive);
    let mut navigator = Navigator::new([100, 100]);
    assert_eq!(red(&tree.open(&mut navigator, "/p/album").unwrap()), 1);
    assert_eq!(red(&tree.next(&mut navigator).unwrap()), 2);
    assert_eq!(red(&tree.next(&mut navigator).unwrap()), 30);
    assert_eq!(red(&tree.previous(&mut navigator).unwrap()), 2);
    assert_eq!(navigator.root_hint().unwrap(), "/p/album");
    assert_eq!(red(&tree.previous(&mut navigator).unwrap()), 1);
    assert!(tree.previous(&mut navigator).unwrap().is_none());
}

#[test]
fn root_without_entries_is_passed_by_the_next_step() {
    let empty = build_zip(&[("only/", None)]);
    let full = build_zip(&[("x.png", Some(&png(1, 1, 40)))]);
    let first = build_zip(&[("x.png", Some(&png(1, 1, 39)))]);
    let mut tree = Tree::new()
        .dir("/p", &["/p/a.zip", "/p/b.zip", "/p/c.zip"])
        .file("/p/a.zip", &first)
        .file("/p/b.zip", &empty)
        .file("/p/c.zip", &full);
    let mut navigator = Navigator::new([100, 100]);
    assert_eq!(red(&tree.open(&mut navigator, "/p/a.zip").unwrap()), 39);
    // The neighbour is opened but has nothing to show.
    assert!(tree.next(&mut navigator).unwrap().is_none());
    assert_eq!(navigator.root_hint().unwrap(), "/p/b.zip");
    assert_eq!(red(&tree.next(&mut navigator).unwrap()), 40);
}

#[test]
fn unreadable_entry_shows_the_placeholder_and_the_walk_goes_on() {
    let archive = build_zip(&[
        ("1.png", Some(&png(1, 1, 61))),
        ("2.png", Some(b"these bytes are no image at all")),
        ("3.png", Some(&png(1, 1, 63))),
    ]);
    let mut tree = Tree::new().dir("/p", &["/p/r.zip"]).file("/p/r.zip", &archive);
    let mut navigator = Navigator::new([100, 100]);
    assert_eq!(red(&tree.open(&mut navigator, "/p/r.zip").unwrap()), 61);
    let shown = tree.next(&mut navigator).unwrap();
    assert!(is_placeholder(&shown));
    assert_eq!(navigator.root_hint().unwrap(), "/p/r.zip");
    assert_eq!(red(&tree.next(&mut navigator).unwrap()), 63);
    assert!(is_placeholder(&tree.previous(&mut navigator).unwrap()));
    assert_eq!(red(&tree.previous(&mut navigator).unwrap()), 61);
}

#[test]
fn unreadable_first_entry_shows_the_placeholder() {
    let mut tree = Tree::new()
        .dir("/g", &["/g/bad.png", "/g/good.png"])
        .file("/g/bad.png", b"\x89PNG but truncated")
        .file("/g/good.png", &png(1, 1, 9));
    let mut navigator = Navigator::new([100, 100]);
    assert!(is_placeholder(&tree.open(&mut navigator, "/g").unwrap()));
    assert_eq!(red(&tree.next(&mut navigator).unwrap()), 9);
}

#[test]
fn failure_to_open_a_root_forgets_the_path_and_keeps_the_cursor() {
    let mut tree = two_roots();
    let mut navigator = Navigator::new([100, 100]);
    assert_eq!(red(&tree.open(&mut navigator, "/p/root1.zip").unwrap()), 11);
    match tree.open(&mut navigator, "/p/gone.zip") {
        Err(Error::Io(e)) => assert_eq!(e.to_string(), "no /p/gone.zip"),
        other => panic!("unexpected result {:?}", other),
    }
    assert!(navigator.root_hint().is_none());
    assert_eq!(navigator.phase(), Phase::Idle);
    // The root that was open before can still be walked, but not left.
    assert_eq!(red(&tree.next(&mut navigator).unwrap()), 12);
    assert!(tree.next(&mut navigator).unwrap().is_none());
}

#[test]
fn root_file_that_is_no_archive_fails_as_one() {
    let mut tree = Tree::new().dir("/p", &["/p/a.png"]).file("/p/a.png", &png(1, 1, 3));
    let mut navigator = Navigator::new([100, 100]);
    assert!(matches!(tree.open(&mut navigator, "/p/a.png"), Err(Error::Zip(_))));
    assert!(navigator.root_hint().is_none());
    assert!(tree.next(&mut navigator).unwrap().is_none());
}

#[test]
fn neighbour_that_is_no_archive_ends_the_walk_with_its_failure() {
    let root = build_zip(&[("x.png", Some(&png(1, 1, 50)))]);
    let mut tree = Tree::new()
        .dir("/p", &["/p/a.zip", "/p/readme.txt", "/p/c.zip"])
        .file("/p/a.zip", &root)
        .file("/p/readme.txt", b"hello")
        .file("/p/c.zip", &root);
    let mut navigator = Navigator::new([100, 100]);
    assert_eq!(red(&tree.open(&mut navigator, "/p/a.zip").unwrap()), 50);
    assert!(matches!(tree.next(&mut navigator), Err(Error::Zip(_))));
    assert!(navigator.root_hint().is_none());
    assert!(tree.next(&mut navigator).unwrap().is_none());
}

#[test]
fn failure_inside_a_root_forgets_the_path() {
    let mut tree = Tree::new()
        .dir("/p", &["/p/g", "/p/h"])
        .dir("/p/g", &["/p/g/a.png", "/p/g/b.png"])
        .dir("/p/h", &["/p/h/c.png"])
        .file("/p/g/a.png", &png(1, 1, 1))
        .file("/p/h/c.png", &png(1, 1, 3));
    let mut navigator = Navigator::new([100, 100]);
    assert_eq!(red(&tree.open(&mut navigator, "/p/g").unwrap()), 1);
    assert!(matches!(tree.next(&mut navigator), Err(Error::Io(_))));
    assert!(navigator.root_hint().is_none());
    assert_eq!(navigator.phase(), Phase::Idle);
    assert!(tree.next(&mut navigator).unwrap().is_none());
    assert_eq!(red(&tree.previous(&mut navigator).unwrap()), 1);
}

#[test]
fn navigator_finds_a_response_without_a_request_unexpected() {
    let mut navigator = Navigator::new([100, 100]);
    assert!(matches!(navigator.resume(Response::Contents(Vec::new())), Err(Error::Unexpected)));
    assert!(matches!(navigator.resume(Response::Listing(Vec::new())), Err(Error::Unexpected)));
    assert_eq!(navigator.phase(), Phase::Idle);
}

#[test]
fn navigator_finds_a_response_of_the_wrong_sort_unexpected() {
    let mut navigator = Navigator::new([100, 100]);
    assert!(matches!(navigator.try_first("/x.zip".to_string(), false), Ok(Outcome::Need(_))));
    assert!(matches!(navigator.resume(Response::Listing(Vec::new())), Err(Error::Unexpected)));
    assert!(navigator.root_hint().is_none());
    assert!(matches!(navigator.try_first("/x".to_string(), true), Ok(Outcome::Need(_))));
    assert!(matches!(navigator.resume(Response::Contents(Vec::new())), Err(Error::Unexpected)));
    assert_eq!(navigator.phase(), Phase::Idle);
}

#[test]
fn bytes_in_answer_to_a_search_for_neighbours_are_unexpected() {
    let mut tree = two_roots();
    let mut navigator = Navigator::new([100, 100]);
    assert_eq!(red(&tree.open_last(&mut navigator, "/p/root1.zip").unwrap()), 12);
    match navigator.try_next() {
        Ok(Outcome::Need(Request::Siblings(path))) => assert_eq!(path, "/p/root1.zip"),
        other => panic!("unexpected result {:?}", other),
    }
    assert_eq!(navigator.phase(), Phase::Seeking(Edge::Front));
    assert!(matches!(navigator.resume(Response::Contents(Vec::new())), Err(Error::Unexpected)));
    assert!(navigator.root_hint().is_none());
}

#[test]
fn failed_search_for_neighbours_is_passed_on() {
    let mut tree = two_roots();
    let mut navigator = Navigator::new([100, 100]);
    assert_eq!(red(&tree.open(&mut navigator, "/p/root1.zip").unwrap()), 11);
    assert!(matches!(navigator.try_previous(), Ok(Outcome::Need(Request::Siblings(_)))));
    assert_eq!(navigator.phase(), Phase::Seeking(Edge::Back));
    let failure = std::io::Error::new(std::io::ErrorKind::PermissionDenied, "locked");
    match navigator.resume(Response::Failed(failure)) {
        Err(Error::Io(e)) => assert_eq!(e.kind(), std::io::ErrorKind::PermissionDenied),
        other => panic!("unexpected result {:?}", other),
    }
    assert!(navigator.root_hint().is_none());
}

#[test]
fn rewind_and_skip_stay_within_the_root() {
    let mut tree = two_roots();
    let mut navigator = Navigator::new([100, 100]);
    assert_eq!(red(&tree.open(&mut navigator, "/p/root2.zip").unwrap()), 21);
    let res = navigator.try_skip();
    assert_eq!(red(&tree.finish(&mut navigator, res).unwrap()), 22);
    assert!(navigator.is_eof());
    let res = navigator.try_rewind();
    assert_eq!(red(&tree.finish(&mut navigator, res).unwrap()), 21);
    assert!(navigator.is_head());
    assert_eq!(navigator.root_hint().unwrap(), "/p/root2.zip");
}

#[test]
fn root_that_has_left_its_directory_is_followed_by_nothing() {
    let mut tree = two_roots();
    let mut navigator = Navigator::new([100, 100]);
    assert_eq!(red(&tree.open_last(&mut navigator, "/p/root1.zip").unwrap()), 12);
    tree.dirs.insert("/p".to_string(), vec!["/p/root2.zip".to_string()]);
    tree.dirs.insert("/q".to_string(), vec!["/p/root1.zip".to_string()]);
    assert!(tree.next(&mut navigator).unwrap().is_none());
    assert!(navigator.root_hint().is_none());
}

#[test]
fn large_entry_is_fitted_to_the_display() {
    let archive =
        build_zip(&[("wide.png", Some(&png(40, 10, 70))), ("small.png", Some(&png(3, 2, 71)))]);
    let mut tree = Tree::new().file("/r.zip", &archive);
    let mut navigator = Navigator::new([20, 20]);
    let wide = tree.open(&mut navigator, "/r.zip").unwrap().unwrap();
    assert_eq!((wide.width(), wide.height()), (20, 5));
    assert_eq!(wide.rgba().len(), 20 * 5 * 4);
    assert_eq!(&wide.rgba()[0..4], &[70, 10, 20, 255]);
    let small = tree.next(&mut navigator).unwrap().unwrap();
    assert_eq!((small.width(), small.height()), (3, 2));
    assert_eq!(small.rgba().len(), 3 * 2 * 4);
}

#[test]
fn opening_a_root_without_entries_shows_nothing() {
    let markers = build_zip(&[("a/", None), ("a/b/", None)]);
    let nothing = build_zip(&[]);
    let mut tree = Tree::new()
        .dir("/void", &[])
        .file("/markers.zip", &markers)
        .file("/nothing.zip", &nothing);
    let mut navigator = Navigator::new([100, 100]);
    assert!(tree.open(&mut navigator, "/void").unwrap().is_none());
    assert_eq!(navigator.root_hint().unwrap(), "/void");
    assert!(navigator.is_head() && navigator.is_eof());
    assert!(tree.open(&mut navigator, "/markers.zip").unwrap().is_none());
    assert_eq!(navigator.root_hint().unwrap(), "/markers.zip");
    assert!(tree.open_last(&mut navigator, "/markers.zip").unwrap().is_none());
    assert!(tree.open(&mut navigator, "/nothing.zip").unwrap().is_none());
    assert!(navigator.is_head() && navigator.is_eof());
    assert_eq!(navigator.phase(), Phase::Idle);
}
