use vstd::prelude::*;

verus! {

/// Every way in which opening a package or reading from it can fail.
#[derive(Debug, Clone, Copy, PartialEq, Eq, Structural, Hash)]
pub enum EpubError {
    /// The container file, or one of its entries, could not be read.
    IoError,
    /// The container is not a structurally sound archive.
    ArchiveError,
    /// The archive holds no entry of the requested name.
    EntryNotFound,
    /// An entry that must be XML is not well formed.
    XmlParseError,
    /// The container descriptor names no package document.
    MissingRootfile,
    /// A manifest or spine child lacks an attribute it must have.
    MissingAttribute,
    /// A manifest child declares a media type that is no MIME value.
    InvalidMimeType,
    /// A manifest section is present but yields no usable item.
    InvalidManifest,
    /// A spine section is present but yields no usable reference.
    InvalidSpine,
    /// A reading-order position lies past the end of the spine.
    IndexOutOfBounds,
    /// A spine entry refers to an id that no manifest item has.
    IdrefNotFound,
    /// No manifest item has the requested reference path.
    HrefNotFound,
    /// No manifest item has the requested id.
    IdNotFound,
    /// An entry that must be text is not valid UTF-8.
    InvalidEncoding,
    /// The package source is not a local path.
    UnsupportedSource,
}

} // verus!
