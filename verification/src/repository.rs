use vstd::prelude::*;
use vstd::string::StringExecFns;

use crate::epub::opened;
use crate::epub::Epub;
use crate::epub_path::EpubPath;
use crate::epub_path::EpubPathView;
use crate::error::EpubError;
use crate::opf_model::ContentOpfView;
use crate::text::extension;
use crate::text::has_extension;
use crate::zip_utils::open_zip;
use crate::zip_utils::zip_directory;

verus! {

/// One entry of a directory, as a listing of the directory gives it.
#[derive(Debug, Clone, PartialEq, Eq)]
pub struct DirectoryEntry {
    /// The path of the entry, the directory's own path included.
    pub path: String,
    /// Whether the entry is a regular file.
    pub is_file: bool,
}

/// A directory entry, as contracts speak of it.
pub struct DirectoryEntryView {
    pub path: Seq<char>,
    pub is_file: bool,
}

impl DeepView for DirectoryEntry {
    type V = DirectoryEntryView;

    open spec fn deep_view(&self) -> DirectoryEntryView {
        DirectoryEntryView { path: self.path@, is_file: self.is_file }
    }
}

/// Whether a directory entry is a package: a regular file with the
/// extension `epub`.
pub open spec fn is_package(entry: DirectoryEntryView) -> bool {
    entry.is_file && extension(entry.path) == Some("epub"@)
}

/// What a directory entry adds to the list of packages: its path as a
/// local path, where it is a package.
pub open spec fn listed_package() -> spec_fn(DirectoryEntryView) -> Option<EpubPathView> {
    |entry: DirectoryEntryView|
        if is_package(entry) {
            Some(EpubPathView::LocalPath(entry.path))
        } else {
            None
        }
}

/// The packages among the entries of a directory, in the order of the
/// listing, each as a local path.
pub open spec fn packages_in(entries: Seq<DirectoryEntryView>) -> Seq<EpubPathView> {
    entries.filter_map(listed_package())
}

/// The local path that an identifier stands for. Only local paths are
/// supported: a URL or a content address is an `UnsupportedSource`.
pub open spec fn local_source(epub_path: EpubPathView) -> Result<Seq<char>, EpubError> {
    match epub_path {
        EpubPathView::LocalPath(path) => Ok(path),
        _ => Err(EpubError::UnsupportedSource),
    }
}

/// What loading a container with these bytes yields: bytes that are no
/// archive are an `ArchiveError`, and an archive yields what opening its
/// package does.
pub open spec fn loaded(bytes: Seq<u8>) -> Result<(ContentOpfView, Seq<char>), EpubError> {
    match zip_directory(bytes) {
        Some(entries) => opened(entries),
        None => Err(EpubError::ArchiveError),
    }
}

/// The repository of packages in the local file system. It decides what is
/// read and what is made of it; the reading itself is its caller's.
#[derive(Debug, Copy, Clone, Ord, PartialOrd, Eq, PartialEq)]
pub struct EpubRepositoryImpl {}

impl Default for EpubRepositoryImpl {
    fn default() -> (r: EpubRepositoryImpl)
        ensures
            r == (EpubRepositoryImpl {  }),
    {
        EpubRepositoryImpl {  }
    }
}

impl EpubRepositoryImpl {
    /// The repository; it holds nothing.
    pub fn new() -> (r: Self)
        ensures
            r == (EpubRepositoryImpl {  }),
    {
        Self {  }
    }

    /// The local path to read for an identifier, a directory to list or a
    /// container to load.
    pub fn source<'a>(&self, epub_path: &'a EpubPath) -> (r: Result<&'a str, EpubError>)
        ensures
            match r {
                Ok(path) => local_source(epub_path.deep_view()) == Ok::<Seq<char>, EpubError>(
                    path@,
                ),
                Err(e) => local_source(epub_path.deep_view()) == Err::<Seq<char>, EpubError>(e),
            },
    {
        match epub_path {
            EpubPath::LocalPath(path) => Ok(path.as_str()),
            EpubPath::Url(_) => Err(EpubError::UnsupportedSource),
            EpubPath::NFTAddress(_) => Err(EpubError::UnsupportedSource),
        }
    }

    /// Picks the packages out of the listing of a directory.
    pub fn list_entries(&self, entries: &Vec<DirectoryEntry>) -> (r: Vec<EpubPath>)
        ensures
            r.deep_view() == packages_in(entries.deep_view()),
    {
        let ghost all = entries.deep_view();
        let mut paths: Vec<EpubPath> = Vec::new();
        let mut i: usize = 0;
        while i < entries.len()
            invariant
                i <= entries.len(),
                all == entries.deep_view(),
                paths.deep_view() == all.take(i as int).filter_map(listed_package()),
            decreases entries.len() - i,
        {
            let entry = &entries[i];
            proof {
                all.lemma_filter_map_take_succ(listed_package(), i as int);
            }
            if entry.is_file && has_extension(entry.path.as_str(), "epub") {
                paths.push(EpubPath::LocalPath(String::from_str(entry.path.as_str())));
            }
            i = i + 1;
        }
        assert(all.take(entries.len() as int) =~= all);
        paths
    }

    /// Opens the package that the bytes of a container hold.
    pub fn load_bytes(&self, bytes: Vec<u8>) -> (r: Result<Epub, EpubError>)
        ensures
            match r {
                Ok(package) => loaded(bytes@) == Ok::<(ContentOpfView, Seq<char>), EpubError>(
                    (package.content(), package.base()),
                ) && zip_directory(bytes@) == Some(package.entries()),
                Err(e) => loaded(bytes@) == Err::<(ContentOpfView, Seq<char>), EpubError>(e),
            },
    {
        match open_zip(bytes) {
            Ok(archive) => Epub::new(archive),
            Err(e) => Err(e),
        }
    }
}

} // verus!
