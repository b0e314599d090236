use std::io::Cursor;
use std::io::Write;

use rust_epub::error::EpubError;
use rust_epub::zip_utils::open_zip;
use rust_epub::zip_utils::read_to_end;
use rust_epub::zip_utils::read_to_string;
use zip::write::FileOptions;
use zip::write::ZipWriter;
use zip::CompressionMethod;

const CONTAINER: &str = "<?xml version=\"1.0\" encoding=\"UTF-8\"?>\n<container version=\"1.0\" xmlns=\"urn:oasis:names:tc:opendocument:xmlns:container\">\n  <rootfiles>\n    <rootfile full-path=\"content.opf\" media-type=\"application/oebps-package+xml\" />\n  </rootfiles>\n</container>";

fn archive_of(entries: &[(&str, &[u8])]) -> Vec<u8> {
    let mut writer = ZipWriter::new(Cursor::new(Vec::new()));
    for (name, content) in entries {
        writer.start_file(*name, FileOptions::default()).unwrap();
        writer.write_all(content).unwrap();
    }
    writer.finish().unwrap().into_inner()
}

fn cover_bytes() -> Vec<u8> {
    (0..28932u32).map(|i| (i % 251) as u8).collect()
}

fn sample() -> Vec<u8> {
    let cover = cover_bytes();
    archive_of(&[
        ("mimetype", b"application/epub+zip"),
        ("META-INF/container.xml", CONTAINER.as_bytes()),
        ("media/epub-cover.png", &cover),
        ("bad.txt", &[0x66, 0xff, 0x6f]),
    ])
}

#[test]
fn success_open_zip() {
    let archive = open_zip(sample()).unwrap();
    assert_eq!(archive.len(), 4);
}

#[test]
fn failure_open_zip() {
    let archive = open_zip(b"this is no archive".to_vec());
    assert!(archive.is_err());
}

#[test]
fn open_zip_rejects_empty_input_as_archive_error() {
    assert_eq!(open_zip(Vec::new()).err(), Some(EpubError::ArchiveError));
}

#[test]
fn success_read_to_string() {
    let mut archive = open_zip(sample()).unwrap();
    let actual = read_to_string(&mut archive, "META-INF/container.xml").unwrap();
    assert_eq!(actual, "<?xml version=\"1.0\" encoding=\"UTF-8\"?>\n<container version=\"1.0\" xmlns=\"urn:oasis:names:tc:opendocument:xmlns:container\">\n  <rootfiles>\n    <rootfile full-path=\"content.opf\" media-type=\"application/oebps-package+xml\" />\n  </rootfiles>\n</container>");
}

#[test]
fn failure_read_to_string() {
    let mut archive = open_zip(sample()).unwrap();
    let actual = read_to_string(&mut archive, "nothing");
    assert!(actual.is_err());
}

#[test]
fn success_read_to_end() {
    let mut archive = open_zip(sample()).unwrap();
    let actual = read_to_end(&mut archive, "media/epub-cover.png").unwrap();
    assert_eq!(actual.len(), 28932);
    assert_eq!(actual, cover_bytes());
}

#[test]
fn failure_read_to_end() {
    let mut archive = open_zip(sample()).unwrap();
    let actual = read_to_end(&mut archive, "nothing");
    assert!(actual.is_err());
}

#[test]
fn missing_entry_is_entry_not_found() {
    let mut archive = open_zip(sample()).unwrap();
    assert_eq!(read_to_end(&mut archive, "nothing"), Err(EpubError::EntryNotFound));
    assert_eq!(read_to_string(&mut archive, "nothing"), Err(EpubError::EntryNotFound));
}

#[test]
fn text_that_is_not_utf8_is_invalid_encoding() {
    let mut archive = open_zip(sample()).unwrap();
    assert_eq!(read_to_string(&mut archive, "bad.txt"), Err(EpubError::InvalidEncoding));
    assert_eq!(read_to_end(&mut archive, "bad.txt"), Ok(vec![0x66, 0xff, 0x6f]));
}

#[test]
fn reading_twice_gives_the_same_bytes() {
    let mut archive = open_zip(sample()).unwrap();
    let first = read_to_end(&mut archive, "media/epub-cover.png").unwrap();
    let other = read_to_string(&mut archive, "mimetype").unwrap();
    let second = read_to_end(&mut archive, "media/epub-cover.png").unwrap();
    assert_eq!(other, "application/epub+zip");
    assert_eq!(first, second);
}

#[test]
fn stored_and_deflated_entries_read_alike() {
    let mut writer = ZipWriter::new(Cursor::new(Vec::new()));
    let stored = FileOptions::default().compression_method(CompressionMethod::Stored);
    let deflated = FileOptions::default().compression_method(CompressionMethod::Deflated);
    writer.start_file("a.txt", stored).unwrap();
    writer.write_all(b"aaaaaaaaaaaaaaaaaaaaaaaaaaaaaaaa").unwrap();
    writer.start_file("b.txt", deflated).unwrap();
    writer.write_all(b"aaaaaaaaaaaaaaaaaaaaaaaaaaaaaaaa").unwrap();
    let bytes = writer.finish().unwrap().into_inner();
    let mut archive = open_zip(bytes).unwrap();
    let a = read_to_string(&mut archive, "a.txt").unwrap();
    let b = read_to_string(&mut archive, "b.txt").unwrap();
    assert_eq!(a, "aaaaaaaaaaaaaaaaaaaaaaaaaaaaaaaa");
    assert_eq!(a, b);
}

#[test]
fn damaged_entry_is_an_error_and_no_panic() {
    let mut writer = ZipWriter::new(Cursor::new(Vec::new()));
    let stored = FileOptions::default().compression_method(CompressionMethod::Stored);
    writer.start_file("a.txt", stored).unwrap();
    writer.write_all(b"0123456789").unwrap();
    let mut bytes = writer.finish().unwrap().into_inner();
    let at = bytes.windows(10).position(|w| w == b"0123456789").unwrap();
    bytes[at] = b'X';
    let mut archive = open_zip(bytes).unwrap();
    assert_eq!(read_to_end(&mut archive, "a.txt"), Err(EpubError::IoError));
}

#[test]
fn entry_marked_for_a_cipher_it_does_not_use_is_an_error_and_no_panic() {
    let mut writer = ZipWriter::new(Cursor::new(Vec::new()));
    let stored = FileOptions::default().compression_method(CompressionMethod::Stored);
    writer.start_file_with_extra_data("a.txt", stored).unwrap();
    writer.write_all(&[0xfe, 0xca, 7, 0, 2, 0, 0x41, 0x45, 3, 0, 0]).unwrap();
    writer.end_extra_data().unwrap();
    writer.write_all(b"0123456789").unwrap();
    writer.start_file("b.txt", stored).unwrap();
    writer.write_all(b"plain").unwrap();
    let mut bytes = writer.finish().unwrap().into_inner();
    let mut patched = 0;
    for at in 0..bytes.len() - 1 {
        if bytes[at] == 0xfe && bytes[at + 1] == 0xca {
            bytes[at] = 0x01;
            bytes[at + 1] = 0x99;
            patched += 1;
        }
    }
    assert_eq!(patched, 2);
    let mut archive = open_zip(bytes).unwrap();
    assert_eq!(read_to_end(&mut archive, "a.txt"), Err(EpubError::ArchiveError));
    assert_eq!(read_to_string(&mut archive, "a.txt"), Err(EpubError::ArchiveError));
    assert_eq!(read_to_string(&mut archive, "b.txt"), Ok("plain".to_string()));
}
