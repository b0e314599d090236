use std::io::Cursor;
use vstd::prelude::*;
use vstd::string::StringExecFns;
use zip::ZipArchive;

use crate::error::EpubError;
use crate::media_type::parsed_media_type;
use crate::media_type::strategy_of;
use crate::media_type::DecodeStrategy;
use crate::media_type::MediaType;
use crate::media_type::MediaTypeView;
use crate::text::join_path;
use crate::xml::attribute_value;
use crate::xml::XmlNode;
use crate::xml::XmlNodeView;
use crate::zip_utils::archive_entries;
use crate::zip_utils::entry_bytes;
use crate::zip_utils::entry_text;
use crate::zip_utils::read_to_end;
use crate::zip_utils::read_to_string;

verus! {

/// One entry of a package's manifest: a content item that the package
/// bundles, not yet read.
#[derive(Debug, Clone, PartialEq, Eq)]
pub struct Manifest {
    /// The key by which the spine refers to the item.
    pub id: String,
    /// The item's path, relative to the directory of the package document.
    pub href: String,
    pub media_type: MediaType,
}

/// A manifest entry, as contracts speak of it.
pub struct ManifestView {
    pub id: Seq<char>,
    pub href: Seq<char>,
    pub media_type: MediaTypeView,
}

impl DeepView for Manifest {
    type V = ManifestView;

    open spec fn deep_view(&self) -> ManifestView {
        ManifestView {
            id: self.id@,
            href: self.href@,
            media_type: self.media_type.deep_view(),
        }
    }
}

/// One position of the reading order: a reference to a manifest item by id.
#[derive(Debug, Clone, PartialEq, Eq)]
pub struct SpineItemRef {
    pub idref: String,
}

impl DeepView for SpineItemRef {
    type V = Seq<char>;

    open spec fn deep_view(&self) -> Seq<char> {
        self.idref@
    }
}

/// The manifest entry that a child of a manifest section declares. A child
/// without `id`, `href` or `media-type` is a `MissingAttribute`; one whose
/// `media-type` is no MIME value is an `InvalidMimeType`.
pub open spec fn manifest_of(node: XmlNodeView) -> Result<ManifestView, EpubError> {
    match (
        attribute_value(node.attributes, "id"@),
        attribute_value(node.attributes, "href"@),
        attribute_value(node.attributes, "media-type"@),
    ) {
        (Some(id), Some(href), Some(declared)) => match parsed_media_type(declared) {
            Some(media_type) => Ok(ManifestView { id, href, media_type }),
            None => Err(EpubError::InvalidMimeType),
        },
        _ => Err(EpubError::MissingAttribute),
    }
}

/// The reference that a child of a spine section declares. A child without
/// `idref` is a `MissingAttribute`.
pub open spec fn spine_ref_of(node: XmlNodeView) -> Result<Seq<char>, EpubError> {
    match attribute_value(node.attributes, "idref"@) {
        Some(idref) => Ok(idref),
        None => Err(EpubError::MissingAttribute),
    }
}

/// The outcome of reading a manifest entry, with the entry taken by its
/// view.
pub open spec fn manifest_result(r: Result<Manifest, EpubError>) -> Result<
    ManifestView,
    EpubError,
> {
    match r {
        Ok(manifest) => Ok(manifest.deep_view()),
        Err(e) => Err(e),
    }
}

/// The outcome of reading a reference, with the reference taken by its
/// view.
pub open spec fn spine_ref_result(r: Result<SpineItemRef, EpubError>) -> Result<
    Seq<char>,
    EpubError,
> {
    match r {
        Ok(spine_ref) => Ok(spine_ref.deep_view()),
        Err(e) => Err(e),
    }
}

impl Manifest {
    /// A manifest entry of the given id, path and media type.
    pub fn new(id: &str, href: &str, media_type: MediaType) -> (r: Manifest)
        ensures
            r.deep_view() == (ManifestView {
                id: id@,
                href: href@,
                media_type: media_type.deep_view(),
            }),
    {
        Manifest { id: String::from_str(id), href: String::from_str(href), media_type }
    }

    /// Reads a manifest entry off a child of a manifest section.
    pub fn from_node(node: &XmlNode) -> (r: Result<Manifest, EpubError>)
        ensures
            manifest_result(r) == manifest_of(node.deep_view()),
    {
        let id = match node.attribute("id") {
            Some(id) => id,
            None => {
                return Err(EpubError::MissingAttribute);
            },
        };
        let href = match node.attribute("href") {
            Some(href) => href,
            None => {
                return Err(EpubError::MissingAttribute);
            },
        };
        let declared = match node.attribute("media-type") {
            Some(declared) => declared,
            None => {
                return Err(EpubError::MissingAttribute);
            },
        };
        match MediaType::parse(declared) {
            Ok(media_type) => Ok(Manifest::new(id, href, media_type)),
            Err(e) => Err(e),
        }
    }
}

impl SpineItemRef {
    /// Reads a reference off a child of a spine section.
    pub fn from_node(node: &XmlNode) -> (r: Result<SpineItemRef, EpubError>)
        ensures
            spine_ref_result(r) == spine_ref_of(node.deep_view()),
    {
        match node.attribute("idref") {
            Some(idref) => Ok(SpineItemRef { idref: String::from_str(idref) }),
            None => Err(EpubError::MissingAttribute),
        }
    }
}

/// A manifest item with its content read from the archive and decoded.
#[derive(Debug, Clone, PartialEq, Eq, PartialOrd, Ord)]
pub enum ManifestItem {
    /// An item of a media type that is not decoded: it has no content.
    Unsupported,
    /// Structured markup, as text.
    Documentation { id: String, href: String, content: String },
    /// Binary media, as raw bytes.
    Image { id: String, href: String, content: Vec<u8> },
}

/// A read manifest item, as contracts speak of it.
pub enum ManifestItemView {
    Unsupported,
    Documentation { id: Seq<char>, href: Seq<char>, content: Seq<char> },
    Image { id: Seq<char>, href: Seq<char>, content: Seq<u8> },
}

impl DeepView for ManifestItem {
    type V = ManifestItemView;

    open spec fn deep_view(&self) -> ManifestItemView {
        match *self {
            ManifestItem::Unsupported => ManifestItemView::Unsupported,
            ManifestItem::Documentation { id, href, content } => ManifestItemView::Documentation {
                id: id@,
                href: href@,
                content: content@,
            },
            ManifestItem::Image { id, href, content } => ManifestItemView::Image {
                id: id@,
                href: href@,
                content: content@,
            },
        }
    }
}

impl Default for ManifestItem {
    fn default() -> (r: ManifestItem)
        ensures
            r == ManifestItem::Unsupported,
    {
        ManifestItem::Unsupported
    }
}

/// The outcome of reading an item, with the item taken by its view.
pub open spec fn item_result(r: Result<ManifestItem, EpubError>) -> Result<
    ManifestItemView,
    EpubError,
> {
    match r {
        Ok(item) => Ok(item.deep_view()),
        Err(e) => Err(e),
    }
}

/// The item that reading yields: for a document the entry `base + href`
/// decoded as UTF-8 text, for an image the raw bytes of that entry, and for
/// any other strategy the item without content. A failure to read or to
/// decode the entry is the failure of the whole.
pub open spec fn materialized(
    entries: Map<Seq<char>, Result<Seq<u8>, EpubError>>,
    base: Seq<char>,
    id: Seq<char>,
    href: Seq<char>,
    strategy: DecodeStrategy,
) -> Result<ManifestItemView, EpubError> {
    match strategy {
        DecodeStrategy::Document => match entry_text(entries, base + href) {
            Ok(content) => Ok(ManifestItemView::Documentation { id, href, content }),
            Err(e) => Err(e),
        },
        DecodeStrategy::Image => match entry_bytes(entries, base + href) {
            Ok(content) => Ok(ManifestItemView::Image { id, href, content }),
            Err(e) => Err(e),
        },
        DecodeStrategy::Unsupported => Ok(ManifestItemView::Unsupported),
    }
}

impl ManifestItem {
    /// Reads and decodes the content of a manifest item, as its media type
    /// asks. `base` is the directory of the package document inside the
    /// archive, which `href` is relative to.
    pub fn new(
        epub: &mut ZipArchive<Cursor<Vec<u8>>>,
        base: &str,
        id: &str,
        href: &str,
        mime: &MediaType,
    ) -> (r: Result<ManifestItem, EpubError>)
        ensures
            archive_entries(*final(epub)) == archive_entries(*old(epub)),
            item_result(r) == materialized(
                archive_entries(*old(epub)),
                base@,
                id@,
                href@,
                strategy_of(mime.deep_view()),
            ),
    {
        match mime.classify() {
            DecodeStrategy::Document => {
                let path = join_path(base, href);
                match read_to_string(epub, path.as_str()) {
                    Ok(content) => Ok(
                        ManifestItem::Documentation {
                            id: String::from_str(id),
                            href: String::from_str(href),
                            content,
                        },
                    ),
                    Err(e) => Err(e),
                }
            },
            DecodeStrategy::Image => {
                let path = join_path(base, href);
                match read_to_end(epub, path.as_str()) {
                    Ok(content) => Ok(
                        ManifestItem::Image {
                            id: String::from_str(id),
                            href: String::from_str(href),
                            content,
                        },
                    ),
                    Err(e) => Err(e),
                }
            },
            DecodeStrategy::Unsupported => Ok(ManifestItem::Unsupported),
        }
    }
}

} // verus!
