use std::io::Cursor;
use std::io::Write;

use rust_epub::epub_path::EpubPath;
use rust_epub::error::EpubError;
use rust_epub::repository::DirectoryEntry;
use rust_epub::repository::EpubRepositoryImpl;
use rust_epub::text::directory_of;
use rust_epub::text::find_last;
use rust_epub::text::has_extension;
use rust_epub::text::join_path;
use rust_epub::use_case::ListEpubInteractor;
use rust_epub::use_case::LoadEpubInteractor;
use rust_epub::viewer::decimal_text;
use rust_epub::viewer::handle_hotkey;
use rust_epub::viewer::EpubViewer;
use rust_epub::viewer::Error;
use rust_epub::viewer::Key;
use rust_epub::viewer::Message;
use rust_epub::viewer::Operation;
use rust_epub::viewer::Status;
use zip::write::FileOptions;
use zip::write::ZipWriter;

const CONTAINER: &str = "<?xml version=\"1.0\" encoding=\"UTF-8\"?>\n<container version=\"1.0\" xmlns=\"urn:oasis:names:tc:opendocument:xmlns:container\">\n  <rootfiles>\n    <rootfile full-path=\"content.opf\" media-type=\"application/oebps-package+xml\" />\n  </rootfiles>\n</container>";

/// A book of `pages` pages, as the bytes of its container.
fn book(pages: usize) -> Vec<u8> {
    let mut opf = String::from("<package><manifest>");
    for page in 0..pages {
        opf.push_str(&format!(
            "<item id=\"p{}\" href=\"p{}.xhtml\" media-type=\"application/xhtml+xml\"/>",
            page, page
        ));
    }
    opf.push_str("</manifest><spine>");
    for page in 0..pages {
        opf.push_str(&format!("<itemref idref=\"p{}\"/>", page));
    }
    opf.push_str("</spine></package>");
    let mut writer = ZipWriter::new(Cursor::new(Vec::new()));
    writer.start_file("META-INF/container.xml", FileOptions::default()).unwrap();
    writer.write_all(CONTAINER.as_bytes()).unwrap();
    writer.start_file("content.opf", FileOptions::default()).unwrap();
    writer.write_all(opf.as_bytes()).unwrap();
    for page in 0..pages {
        writer.start_file(format!("p{}.xhtml", page), FileOptions::default()).unwrap();
        writer.write_all(format!("<html><body><p>{}</p></body></html>", page).as_bytes()).unwrap();
    }
    writer.finish().unwrap().into_inner()
}

/// The listing of a directory that holds one book among other things.
fn listing() -> Vec<DirectoryEntry> {
    vec![
        file("./resources/epub/essential-scala.epub"),
        file("./resources/epub/README.md"),
        directory("./resources/epub/covers"),
    ]
}

fn file(path: &str) -> DirectoryEntry {
    DirectoryEntry { path: path.to_string(), is_file: true }
}

fn directory(path: &str) -> DirectoryEntry {
    DirectoryEntry { path: path.to_string(), is_file: false }
}

#[test]
fn epub_path_tells_urls_from_local_paths() {
    assert_eq!(
        EpubPath::new("https://example.com/hogehoge/1.epub"),
        EpubPath::Url("https://example.com/hogehoge/1.epub".to_string())
    );
    assert_eq!(
        EpubPath::new("resources/epub/essential-scala.epub"),
        EpubPath::LocalPath("resources/epub/essential-scala.epub".to_string())
    );
    assert_eq!(
        EpubPath::new("./resources/epub"),
        EpubPath::LocalPath("./resources/epub".to_string())
    );
    assert_eq!(
        EpubPath::new("0x0123456789abcdef"),
        EpubPath::LocalPath("0x0123456789abcdef".to_string())
    );
    assert_eq!(EpubPath::new(""), EpubPath::LocalPath(String::new()));
}

#[test]
fn epub_path_holds_a_url_in_its_normal_form() {
    assert_eq!(
        EpubPath::new("HTTPS://Example.COM/a/../b.epub"),
        EpubPath::Url("https://example.com/b.epub".to_string())
    );
    assert_eq!(
        EpubPath::new("http://example.com"),
        EpubPath::Url("http://example.com/".to_string())
    );
}

#[test]
#[should_panic]
fn epub_repository_load_from_url() {
    let epub_repo = EpubRepositoryImpl::new();
    let epub_path = EpubPath::new("https://example.com/hogehoge/1.epub");
    let source = epub_repo.source(&epub_path);
    source.unwrap();
}

#[test]
#[should_panic]
fn epub_repository_list_from_url() {
    let epub_repo = EpubRepositoryImpl::new();
    let epub_path = EpubPath::new("https://example.com/hogehoge/1.epub");
    let source = epub_repo.source(&epub_path);
    source.unwrap();
}

#[test]
fn only_local_paths_are_a_supported_source() {
    let repository = EpubRepositoryImpl::new();
    assert_eq!(
        repository.source(&EpubPath::LocalPath("books".to_string())),
        Ok("books")
    );
    assert_eq!(
        repository.source(&EpubPath::Url("https://example.com/1.epub".to_string())),
        Err(EpubError::UnsupportedSource)
    );
    assert_eq!(
        repository.source(&EpubPath::NFTAddress("0x0123456789abcdef".to_string())),
        Err(EpubError::UnsupportedSource)
    );
}

#[test]
fn list_picks_the_regular_files_with_the_extension() {
    let repository = EpubRepositoryImpl::new();
    let entries = vec![
        file("./resources/epub/essential-scala.epub"),
        file("./resources/epub/notes.txt"),
        directory("./resources/epub/folder.epub"),
        file("./resources/epub/.epub"),
        file("./resources/epub/epub"),
        file("./resources/epub/b.EPUB"),
        file("./resources/epub/c.epub.bak"),
        file("./resources/epub/d.tar.epub"),
        file("./resources.epub/e"),
    ];
    assert_eq!(
        repository.list_entries(&entries),
        vec![
            EpubPath::LocalPath("./resources/epub/essential-scala.epub".to_string()),
            EpubPath::LocalPath("./resources/epub/d.tar.epub".to_string()),
        ]
    );
    assert_eq!(repository.list_entries(&vec![]), vec![]);
}

#[test]
fn load_rejects_bytes_that_are_no_archive() {
    let repository = EpubRepositoryImpl::new();
    assert_eq!(repository.load_bytes(b"PK but no archive".to_vec()).err(), Some(EpubError::ArchiveError));
    assert_eq!(repository.load_bytes(vec![]).err(), Some(EpubError::ArchiveError));
}

#[test]
fn interactors_keep_their_repository() {
    let repository = EpubRepositoryImpl::new();
    let list = ListEpubInteractor::new(&repository);
    let load = LoadEpubInteractor::new(&repository);
    assert!(std::ptr::eq(list.repository(), &repository));
    assert!(std::ptr::eq(load.repository(), &repository));
    let entries = vec![file("a/b.epub"), file("a/c.pdf")];
    assert_eq!(list.repository().list_entries(&entries).len(), 1);
    assert!(load.repository().load_bytes(vec![]).is_err());
}

#[test]
fn has_extension_follows_the_last_dot_of_the_file_name() {
    assert!(has_extension("book.epub", "epub"));
    assert!(has_extension("a/b/book.epub", "epub"));
    assert!(has_extension("a.b/book.tar.epub", "epub"));
    assert!(!has_extension("book.epub", "pub"));
    assert!(!has_extension("book.epub", "EPUB"));
    assert!(!has_extension("book", "epub"));
    assert!(!has_extension(".epub", "epub"));
    assert!(!has_extension("a/.epub", "epub"));
    assert!(has_extension("a/..epub", "epub"));
    assert!(!has_extension("a.epub/book", "epub"));
    assert!(!has_extension("book.epub/", "epub"));
    assert!(!has_extension("", "epub"));
    assert!(has_extension("book.", ""));
    assert!(!has_extension("book", ""));
    assert!(has_extension("本.epub", "epub"));
}

#[test]
fn directory_of_keeps_the_closing_slash() {
    assert_eq!(directory_of("OEBPS/content.opf"), "OEBPS/");
    assert_eq!(directory_of("a/b/c.opf"), "a/b/");
    assert_eq!(directory_of("content.opf"), "");
    assert_eq!(directory_of("/content.opf"), "/");
    assert_eq!(directory_of("dir/"), "dir/");
    assert_eq!(directory_of(""), "");
    assert_eq!(directory_of("本/目次.opf"), "本/");
}

#[test]
fn join_path_and_find_last_work_on_characters() {
    assert_eq!(join_path("OEBPS/", "text/ch1.xhtml"), "OEBPS/text/ch1.xhtml");
    assert_eq!(join_path("", "ch1.xhtml"), "ch1.xhtml");
    assert_eq!(find_last("a/b/c", '/'), Some(3));
    assert_eq!(find_last("本/目/c", '/'), Some(3));
    assert_eq!(find_last("abc", '/'), None);
    assert_eq!(find_last("", '/'), None);
    assert_eq!(find_last("/", '/'), Some(0));
}

#[test]
fn decimal_text_writes_numerals() {
    assert_eq!(decimal_text(0), "0");
    assert_eq!(decimal_text(7), "7");
    assert_eq!(decimal_text(10), "10");
    assert_eq!(decimal_text(1234567890), "1234567890");
    assert_eq!(decimal_text(u128::MAX), "340282366920938463463374607431768211455");
}

#[test]
fn hotkeys_turn_pages() {
    assert!(matches!(
        handle_hotkey(Key::Left),
        Some(Message::OccurredOperation(Operation::TurnPreviousPage))
    ));
    assert!(matches!(
        handle_hotkey(Key::Right),
        Some(Message::OccurredOperation(Operation::TurnNextPage))
    ));
    assert!(handle_hotkey(Key::Other).is_none());
}

#[test]
fn viewer_starts_loading_and_shows_failures() {
    let mut viewer = EpubViewer::new();
    assert_eq!(viewer.current_page, 0);
    assert!(matches!(viewer.status, Status::Loading));
    assert!(matches!(Status::default(), Status::Loading));
    assert_eq!(viewer.title(), "Loading");
    viewer.update(Message::LoadedEpub(Err(Error::EpubLoadError("a.epub".to_string()))));
    assert!(matches!(&viewer.status, Status::Errored(Error::EpubLoadError(path)) if path == "a.epub"));
    assert_eq!(viewer.title(), "Whoops!");
    assert!(viewer.epub.is_none());
}

#[test]
fn viewer_without_a_book_stays_on_the_first_page() {
    let mut viewer = EpubViewer::new();
    assert_eq!(viewer.turn_previous_page(), 0);
    assert_eq!(viewer.turn_next_page(), 0);
    viewer.update(Message::OccurredOperation(Operation::TurnNextPage));
    assert_eq!(viewer.current_page, 0);
    viewer.current_page = 5;
    assert_eq!(viewer.turn_previous_page(), 4);
    assert_eq!(viewer.turn_next_page(), 4);
    viewer.current_page = usize::MAX;
    assert_eq!(viewer.turn_next_page(), usize::MAX - 1);
    viewer.status = Status::Reading;
    viewer.current_page = 41;
    assert_eq!(viewer.title(), "Page 42");
    viewer.current_page = usize::MAX;
    assert_eq!(viewer.title(), format!("Page {}", usize::MAX as u128 + 1));
}

#[test]
fn epub_repository_load_from_local() {
    let epub_repo = EpubRepositoryImpl::new();
    let epub_path = EpubPath::new("resources/epub/essential-scala.epub");
    assert_eq!(epub_repo.source(&epub_path), Ok("resources/epub/essential-scala.epub"));
    let epub = epub_repo.load_bytes(book(15));
    assert!(epub.is_ok());
}

#[test]
fn epub_repository_list_from_local() {
    let epub_repo = EpubRepositoryImpl::new();
    let epub_path = EpubPath::new("./resources/epub");
    assert_eq!(epub_repo.source(&epub_path), Ok("./resources/epub"));
    let actual = epub_repo.list_entries(&listing());
    assert_eq!(actual.len(), 1);
}

#[test]
fn list_epub_interactor_execute() {
    let repository = EpubRepositoryImpl::new();
    let interactor = ListEpubInteractor::new(&repository);
    let actual = interactor.repository().list_entries(&listing());
    assert_eq!(actual.len(), 1);
}

#[test]
fn load_epub_interactor_execute() {
    let repository = EpubRepositoryImpl::new();
    let interactor = LoadEpubInteractor::new(&repository);
    let epub = interactor.repository().load_bytes(book(15));
    assert!(epub.is_ok());
}

#[test]
fn get_epub_integration_test() {
    let repository = EpubRepositoryImpl::new();
    let list_epub_interactor = ListEpubInteractor::new(&repository);
    let epub_paths = list_epub_interactor.repository().list_entries(&listing());
    assert_eq!(epub_paths.len(), 1);
    let epub_path = epub_paths.first().unwrap();
    let load_epub_interactor = LoadEpubInteractor::new(&repository);
    assert_eq!(
        load_epub_interactor.repository().source(epub_path),
        Ok("./resources/epub/essential-scala.epub")
    );
    let epub = load_epub_interactor.repository().load_bytes(book(15));
    assert!(epub.is_ok());
    assert_eq!(epub.unwrap().reading_order_length(), 15);
}

#[test]
fn success_load_epub() {
    let repository = EpubRepositoryImpl::new();
    let mut viewer = EpubViewer::new();
    viewer.update(Message::LoadedEpub(
        repository.load_bytes(book(15)).map_err(|_| Error::EpubLoadError("book".to_string())),
    ));
    assert!(matches!(viewer.status, Status::Reading));
    assert!(viewer.epub.is_some());
    assert_eq!(viewer.current_page, 0);
    assert_eq!(viewer.title(), "Page 1");
}

#[test]
fn viewer_turns_the_pages_of_a_book() {
    let repository = EpubRepositoryImpl::new();
    let mut viewer = EpubViewer::new();
    viewer.update(Message::LoadedEpub(Ok(repository.load_bytes(book(4)).unwrap())));
    assert_eq!(viewer.turn_next_page(), 1);
    assert_eq!(viewer.turn_next_page(), 2);
    assert_eq!(viewer.turn_next_page(), 2);
    assert_eq!(viewer.title(), "Page 3");
    viewer.update(Message::OccurredOperation(Operation::TurnPreviousPage));
    assert_eq!(viewer.current_page, 1);
    viewer.update(Message::OccurredOperation(Operation::TurnPreviousPage));
    viewer.update(Message::OccurredOperation(Operation::TurnPreviousPage));
    assert_eq!(viewer.current_page, 0);
    viewer.update(Message::OccurredOperation(Operation::TurnNextPage));
    assert_eq!(viewer.current_page, 1);
    assert!(matches!(viewer.status, Status::Reading));
    assert_eq!(viewer.epub.as_ref().unwrap().reading_order_length(), 4);
}

#[test]
fn loading_a_second_book_keeps_the_page() {
    let repository = EpubRepositoryImpl::new();
    let mut viewer = EpubViewer::new();
    viewer.update(Message::LoadedEpub(Ok(repository.load_bytes(book(9)).unwrap())));
    viewer.update(Message::OccurredOperation(Operation::TurnNextPage));
    viewer.update(Message::LoadedEpub(Ok(repository.load_bytes(book(3)).unwrap())));
    assert_eq!(viewer.current_page, 1);
    assert_eq!(viewer.epub.as_ref().unwrap().reading_order_length(), 3);
    viewer.update(Message::LoadedEpub(Err(Error::EpubLoadError("gone".to_string()))));
    assert!(viewer.epub.is_some());
    assert_eq!(viewer.title(), "Whoops!");
}
