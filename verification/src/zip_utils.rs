use std::io::Cursor;
use std::io::Read;
use std::string::FromUtf8Error;
use vstd::prelude::*;
use vstd::utf8::decode_utf8;
use vstd::utf8::valid_utf8;
use zip::result::ZipError;
use zip::ZipArchive;

use crate::error::EpubError;

verus! {

#[verifier::external_type_specification]
#[verifier::external_body]
#[verifier::reject_recursive_types(R)]
pub struct ExZipArchive<R>(ZipArchive<R>);

#[verifier::external_type_specification]
#[verifier::external_body]
#[verifier::reject_recursive_types(T)]
pub struct ExCursor<T>(Cursor<T>);

#[verifier::external_type_specification]
#[verifier::external_body]
pub struct ExZipError(ZipError);

#[verifier::external_type_specification]
#[verifier::external_body]
pub struct ExFromUtf8Error(FromUtf8Error);

/// What each entry of an archive yields when it is read in full, by entry
/// name: its bytes, or the failure that reading it ends in.
pub uninterp spec fn archive_entries(archive: ZipArchive<Cursor<Vec<u8>>>) -> Map<
    Seq<char>,
    Result<Seq<u8>, EpubError>,
>;

/// What `ZipArchive::new` makes of a container's bytes: `None` where it
/// rejects them, otherwise the entries of the archive it returns.
pub uninterp spec fn zip_directory(bytes: Seq<u8>) -> Option<
    Map<Seq<char>, Result<Seq<u8>, EpubError>>,
>;

/// The outcome of reading the entry `name` in full.
pub open spec fn entry_bytes(
    entries: Map<Seq<char>, Result<Seq<u8>, EpubError>>,
    name: Seq<char>,
) -> Result<Seq<u8>, EpubError> {
    if entries.contains_key(name) {
        entries[name]
    } else {
        Err(EpubError::EntryNotFound)
    }
}

/// The outcome of reading the entry `name` as UTF-8 text.
pub open spec fn entry_text(
    entries: Map<Seq<char>, Result<Seq<u8>, EpubError>>,
    name: Seq<char>,
) -> Result<Seq<char>, EpubError> {
    match entry_bytes(entries, name) {
        Ok(bytes) => if valid_utf8(bytes) {
            Ok(decode_utf8(bytes))
        } else {
            Err(EpubError::InvalidEncoding)
        },
        Err(e) => Err(e),
    }
}

/// `zip::ZipArchive::new` over an in-memory cursor. It accepts exactly the
/// byte sequences for which `zip_directory` names entries, and the archive
/// it returns holds those entries.
#[verifier::external_body]
fn open_archive(bytes: Vec<u8>) -> (r: Result<ZipArchive<Cursor<Vec<u8>>>, ZipError>)
    ensures
        r is Ok <==> zip_directory(bytes@) is Some,
        r matches Ok(archive) ==> zip_directory(bytes@) == Some(archive_entries(archive)),
{
    ZipArchive::new(Cursor::new(bytes))
}

/// `zip::ZipArchive::by_name_decrypt` with an empty password, then
/// `Read::read_to_end` on the entry. For an entry that is not encrypted this
/// is `by_name`, except that an entry the archive cannot open is an error
/// here and never a panic. The outcome is the one that `archive_entries`
/// records for the name: the bytes read, `IoError` where reading fails or
/// the checksum does not match, `ArchiveError` where the entry cannot be
/// opened; a name that the archive does not list is `EntryNotFound`.
/// Reading moves the archive's cursor and leaves its entries as they were.
#[verifier::external_body]
fn read_entry(archive: &mut ZipArchive<Cursor<Vec<u8>>>, name: &str) -> (r: Result<
    Vec<u8>,
    EpubError,
>)
    ensures
        archive_entries(*final(archive)) == archive_entries(*old(archive)),
        match r {
            Ok(bytes) => entry_bytes(archive_entries(*old(archive)), name@) == Ok::<
                Seq<u8>,
                EpubError,
            >(bytes@),
            Err(e) => entry_bytes(archive_entries(*old(archive)), name@) == Err::<
                Seq<u8>,
                EpubError,
            >(e),
        },
{
    let mut bytes = Vec::new();
    match archive.by_name_decrypt(name, &[]) {
        Ok(Ok(mut file)) => match file.read_to_end(&mut bytes) {
            Ok(_) => Ok(bytes),
            Err(_) => Err(EpubError::IoError),
        },
        Ok(Err(_)) => Err(EpubError::ArchiveError),
        Err(ZipError::FileNotFound) => Err(EpubError::EntryNotFound),
        Err(ZipError::Io(_)) => Err(EpubError::IoError),
        Err(_) => Err(EpubError::ArchiveError),
    }
}

/// `String::from_utf8`: succeeds exactly on valid UTF-8, with the text that
/// the bytes encode.
#[verifier::external_body]
fn decode_text(bytes: Vec<u8>) -> (r: Result<String, FromUtf8Error>)
    ensures
        r is Ok <==> valid_utf8(bytes@),
        r matches Ok(text) ==> text@ == decode_utf8(bytes@),
{
    String::from_utf8(bytes)
}

/// Opens a container held in memory. Bytes that are no archive are an
/// `ArchiveError`.
pub fn open_zip(bytes: Vec<u8>) -> (r: Result<ZipArchive<Cursor<Vec<u8>>>, EpubError>)
    ensures
        match r {
            Ok(archive) => zip_directory(bytes@) == Some(archive_entries(archive)),
            Err(e) => e == EpubError::ArchiveError && zip_directory(bytes@) is None,
        },
{
    match open_archive(bytes) {
        Ok(archive) => Ok(archive),
        Err(_) => Err(EpubError::ArchiveError),
    }
}

/// Reads one entry of the archive as raw bytes.
pub fn read_to_end(epub: &mut ZipArchive<Cursor<Vec<u8>>>, path: &str) -> (r: Result<
    Vec<u8>,
    EpubError,
>)
    ensures
        archive_entries(*final(epub)) == archive_entries(*old(epub)),
        match r {
            Ok(bytes) => entry_bytes(archive_entries(*old(epub)), path@) == Ok::<
                Seq<u8>,
                EpubError,
            >(bytes@),
            Err(e) => entry_bytes(archive_entries(*old(epub)), path@) == Err::<
                Seq<u8>,
                EpubError,
            >(e),
        },
{
    read_entry(epub, path)
}

/// Reads one entry of the archive as UTF-8 text. Bytes that are no UTF-8
/// are an `InvalidEncoding`.
pub fn read_to_string(epub: &mut ZipArchive<Cursor<Vec<u8>>>, path: &str) -> (r: Result<
    String,
    EpubError,
>)
    ensures
        archive_entries(*final(epub)) == archive_entries(*old(epub)),
        match r {
            Ok(text) => entry_text(archive_entries(*old(epub)), path@) == Ok::<
                Seq<char>,
                EpubError,
            >(text@),
            Err(e) => entry_text(archive_entries(*old(epub)), path@) == Err::<
                Seq<char>,
                EpubError,
            >(e),
        },
{
    match read_entry(epub, path) {
        Ok(bytes) => match decode_text(bytes) {
            Ok(text) => Ok(text),
            Err(_) => Err(EpubError::InvalidEncoding),
        },
        Err(e) => Err(e),
    }
}

} // verus!
