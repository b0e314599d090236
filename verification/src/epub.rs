use std::io::Cursor;
use vstd::prelude::*;
use zip::ZipArchive;

use crate::content_opf::find_href;
use crate::content_opf::find_id;
use crate::content_opf::ContentOpf;
use crate::error::EpubError;
use crate::manifest::item_result;
use crate::manifest::materialized;
use crate::manifest::Manifest;
use crate::manifest::ManifestItem;
use crate::manifest::ManifestItemView;
use crate::manifest::ManifestView;
use crate::media_type::strategy_of;
use crate::opf_model::lemma_no_rootfile_is_missing;
use crate::opf_model::located_package;
use crate::opf_model::parsed_package;
use crate::opf_model::position_of_href;
use crate::opf_model::position_of_id;
use crate::opf_model::unique_ids;
use crate::opf_model::ContentOpfView;
use crate::text::directory_of;
use crate::text::parent_dir;
use crate::xml::is_named;
use crate::xml::xml_nodes;
use crate::xml::XmlNodeView;
use crate::zip_utils::archive_entries;
use crate::zip_utils::entry_text;
use crate::zip_utils::read_to_string;

verus! {

/// An opened package: the parsed package document, and the archive that
/// the content of its items is read from on demand. The package owns the
/// archive, and with it the archive's one read cursor: it cannot be cloned.
#[derive(Debug)]
pub struct Epub {
    content_opf: ContentOpf,
    base: String,
    archive: ZipArchive<Cursor<Vec<u8>>>,
}

/// What opening an archive with these entries yields: the package that its
/// package document describes, and the directory of that document, which
/// the items' paths are relative to. The failure to locate, read or parse
/// the package document is the failure of the whole.
pub open spec fn opened(entries: Map<Seq<char>, Result<Seq<u8>, EpubError>>) -> Result<
    (ContentOpfView, Seq<char>),
    EpubError,
> {
    match located_package(entries) {
        Ok(path) => match entry_text(entries, path) {
            Ok(text) => match parsed_package(text) {
                Ok(content) => Ok((content, parent_dir(path))),
                Err(e) => Err(e),
            },
            Err(e) => Err(e),
        },
        Err(e) => Err(e),
    }
}

/// The content of one manifest item, read from `entries`.
pub open spec fn content_of(
    entries: Map<Seq<char>, Result<Seq<u8>, EpubError>>,
    base: Seq<char>,
    item: ManifestView,
) -> Result<ManifestItemView, EpubError> {
    materialized(entries, base, item.id, item.href, strategy_of(item.media_type))
}

impl Epub {
    /// The parsed package document.
    pub closed spec fn content(&self) -> ContentOpfView {
        self.content_opf.deep_view()
    }

    /// What each entry of the package's archive yields when it is read.
    pub closed spec fn entries(&self) -> Map<Seq<char>, Result<Seq<u8>, EpubError>> {
        archive_entries(self.archive)
    }

    /// The directory of the package document inside the archive.
    pub closed spec fn base(&self) -> Seq<char> {
        self.base@
    }

    /// Whether two packages hold the same package document, directory and
    /// archive entries.
    pub open spec fn same_package(&self, other: &Epub) -> bool {
        &&& self.content() == other.content()
        &&& self.base() == other.base()
        &&& self.entries() == other.entries()
    }

    /// What reading the item at position `index` of the reading order
    /// yields. A position past the end is `IndexOutOfBounds`; a position
    /// whose reference no manifest item answers to is `IdrefNotFound`;
    /// otherwise it is the content of the first manifest item with the
    /// referenced id.
    pub open spec fn item_at(&self, index: int) -> Result<ManifestItemView, EpubError> {
        let content = self.content();
        if index < 0 || index >= content.spines.len() {
            Err(EpubError::IndexOutOfBounds)
        } else {
            let found = position_of_id(content.manifests, content.spines[index], 0);
            if found >= content.manifests.len() {
                Err(EpubError::IdrefNotFound)
            } else {
                content_of(self.entries(), self.base(), content.manifests[found])
            }
        }
    }

    /// What reading the item with the reference path `href` yields: the
    /// content of the first manifest item with that path, or
    /// `HrefNotFound` where there is none.
    pub open spec fn item_by_href(&self, href: Seq<char>) -> Result<ManifestItemView, EpubError> {
        let content = self.content();
        let found = position_of_href(content.manifests, href, 0);
        if found >= content.manifests.len() {
            Err(EpubError::HrefNotFound)
        } else {
            content_of(self.entries(), self.base(), content.manifests[found])
        }
    }

    /// Opens the package that an archive holds: locates the package
    /// document, reads it and parses it. No item's content is read yet.
    pub fn new(epub: ZipArchive<Cursor<Vec<u8>>>) -> (r: Result<Epub, EpubError>)
        ensures
            match r {
                Ok(package) => {
                    &&& opened(archive_entries(epub)) == Ok::<
                        (ContentOpfView, Seq<char>),
                        EpubError,
                    >((package.content(), package.base()))
                    &&& package.entries() == archive_entries(epub)
                    &&& unique_ids(package.content().manifests)
                },
                Err(e) => opened(archive_entries(epub)) == Err::<
                    (ContentOpfView, Seq<char>),
                    EpubError,
                >(e),
            },
    {
        let mut archive = epub;
        let path = match ContentOpf::content_opf_path(&mut archive) {
            Ok(path) => path,
            Err(e) => {
                return Err(e);
            },
        };
        let text = match read_to_string(&mut archive, path.as_str()) {
            Ok(text) => text,
            Err(e) => {
                return Err(e);
            },
        };
        match ContentOpf::new(text.as_str()) {
            Ok(content_opf) => Ok(
                Epub { content_opf, base: directory_of(path.as_str()), archive },
            ),
            Err(e) => Err(e),
        }
    }

    /// The parsed package document.
    pub fn content_opf(&self) -> (r: &ContentOpf)
        ensures
            r.deep_view() == self.content(),
    {
        &self.content_opf
    }

    /// The number of positions in the reading order.
    pub fn reading_order_length(&self) -> (r: usize)
        ensures
            r == self.content().spines.len(),
    {
        self.content_opf.spines.len()
    }

    /// The number of entries in the table of contents, which is the
    /// reading order.
    pub fn number_of_table_of_contents(&self) -> (r: usize)
        ensures
            r == self.content().spines.len(),
    {
        self.content_opf.spines.len()
    }

    /// Looks up a manifest item by its id: the first item that has it, which
    /// in an opened package is the only one, or `IdNotFound` where none has.
    pub fn lookup_by_id(&self, id: &str) -> (r: Result<&Manifest, EpubError>)
        ensures
            match r {
                Ok(item) => {
                    let found = position_of_id(self.content().manifests, id@, 0);
                    found < self.content().manifests.len() && item.deep_view()
                        == self.content().manifests[found]
                },
                Err(e) => e == EpubError::IdNotFound && position_of_id(
                    self.content().manifests,
                    id@,
                    0,
                ) == self.content().manifests.len(),
            },
    {
        match find_id(&self.content_opf.manifests, id) {
            Some(found) => Ok(&self.content_opf.manifests[found]),
            None => Err(EpubError::IdNotFound),
        }
    }

    /// Reads the content of the item at a position of the reading order.
    pub fn read_by_index(&mut self, index: usize) -> (r: Result<ManifestItem, EpubError>)
        ensures
            final(self).same_package(old(self)),
            item_result(r) == old(self).item_at(index as int),
            index >= old(self).content().spines.len() ==> r == Err::<ManifestItem, EpubError>(
                EpubError::IndexOutOfBounds,
            ),
    {
        if index >= self.content_opf.spines.len() {
            return Err(EpubError::IndexOutOfBounds);
        }
        let found = match find_id(
            &self.content_opf.manifests,
            self.content_opf.spines[index].idref.as_str(),
        ) {
            Some(found) => found,
            None => {
                return Err(EpubError::IdrefNotFound);
            },
        };
        let item = &self.content_opf.manifests[found];
        ManifestItem::new(
            &mut self.archive,
            self.base.as_str(),
            item.id.as_str(),
            item.href.as_str(),
            &item.media_type,
        )
    }

    /// Reads the content of the item with a reference path, whatever its
    /// place in the reading order.
    pub fn read_by_href(&mut self, href: &str) -> (r: Result<ManifestItem, EpubError>)
        ensures
            final(self).same_package(old(self)),
            item_result(r) == old(self).item_by_href(href@),
    {
        let found = match find_href(&self.content_opf.manifests, href) {
            Some(found) => found,
            None => {
                return Err(EpubError::HrefNotFound);
            },
        };
        let item = &self.content_opf.manifests[found];
        ManifestItem::new(
            &mut self.archive,
            self.base.as_str(),
            item.id.as_str(),
            item.href.as_str(),
            &item.media_type,
        )
    }
}

/// Two successive reads of one position return the same: a read leaves
/// the package as it was, so the second read yields what the first did.
pub proof fn lemma_read_by_index_repeats(
    before: Epub,
    between: Epub,
    index: usize,
    first: Result<ManifestItem, EpubError>,
    second: Result<ManifestItem, EpubError>,
)
    requires
        between.same_package(&before),
        item_result(first) == before.item_at(index as int),
        item_result(second) == between.item_at(index as int),
    ensures
        item_result(first) == item_result(second),
{
}

/// Two successive reads of one reference path return the same.
pub proof fn lemma_read_by_href_repeats(
    before: Epub,
    between: Epub,
    href: Seq<char>,
    first: Result<ManifestItem, EpubError>,
    second: Result<ManifestItem, EpubError>,
)
    requires
        between.same_package(&before),
        item_result(first) == before.item_by_href(href),
        item_result(second) == between.item_by_href(href),
    ensures
        item_result(first) == item_result(second),
{
}

/// An archive whose container descriptor holds no element named
/// `rootfile` does not open: it names no package document.
pub proof fn lemma_container_without_rootfile(
    entries: Map<Seq<char>, Result<Seq<u8>, EpubError>>,
    text: Seq<char>,
    nodes: Seq<XmlNodeView>,
)
    requires
        entry_text(entries, "META-INF/container.xml"@) == Ok::<Seq<char>, EpubError>(text),
        xml_nodes(text) == Some(nodes),
        forall|j: int| 0 <= j < nodes.len() ==> !is_named(#[trigger] nodes[j], "rootfile"@),
    ensures
        located_package(entries) == Err::<Seq<char>, EpubError>(EpubError::MissingRootfile),
        opened(entries) == Err::<(ContentOpfView, Seq<char>), EpubError>(
            EpubError::MissingRootfile,
        ),
{
    lemma_no_rootfile_is_missing(nodes);
}

/// Every position at or past the length of the reading order is out of
/// bounds.
pub proof fn lemma_index_past_end(package: Epub, index: int)
    requires
        index >= package.content().spines.len(),
    ensures
        package.item_at(index) == Err::<ManifestItemView, EpubError>(EpubError::IndexOutOfBounds),
{
}

} // verus!
