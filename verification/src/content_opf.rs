use std::io::Cursor;
use vstd::prelude::*;
use vstd::string::StringExecFns;
use zip::ZipArchive;

use crate::error::EpubError;
use crate::manifest::Manifest;
use crate::manifest::SpineItemRef;
use crate::opf_model::empty_package;
use crate::opf_model::first_root;
use crate::opf_model::first_rootfile;
use crate::opf_model::declared_item;
use crate::opf_model::declared_ref;
use crate::opf_model::first_of_each_id;
use crate::opf_model::lemma_first_of_each_id;
use crate::opf_model::lemma_package_failure_stays;
use crate::opf_model::lemma_position_of_href;
use crate::opf_model::lemma_position_of_id;
use crate::opf_model::located_package;
use crate::opf_model::manifest_items;
use crate::opf_model::package_of;
use crate::opf_model::package_upto;
use crate::opf_model::parsed_package;
use crate::opf_model::position_of_href;
use crate::opf_model::position_of_id;
use crate::opf_model::rootfile_of;
use crate::opf_model::spine_refs;
use crate::opf_model::unique_ids;
use crate::opf_model::ContentOpfView;
use crate::xml::parse_xml;
use crate::xml::XmlNode;
use crate::zip_utils::archive_entries;
use crate::zip_utils::read_to_string;

verus! {

/// The parsed package document: the manifest and the reading order.
#[derive(Debug, Clone, PartialEq, Eq)]
pub struct ContentOpf {
    pub manifests: Vec<Manifest>,
    pub spines: Vec<SpineItemRef>,
}

impl DeepView for ContentOpf {
    type V = ContentOpfView;

    open spec fn deep_view(&self) -> ContentOpfView {
        ContentOpfView { manifests: self.manifests.deep_view(), spines: self.spines.deep_view() }
    }
}

impl Default for ContentOpf {
    fn default() -> (r: ContentOpf)
        ensures
            r.deep_view() == empty_package(),
    {
        let r = ContentOpf { manifests: Vec::new(), spines: Vec::new() };
        assert(r.manifests.deep_view() =~= Seq::empty());
        assert(r.spines.deep_view() =~= Seq::empty());
        r
    }
}

/// The outcome of parsing, with the package taken by its view.
pub open spec fn content_result(r: Result<ContentOpf, EpubError>) -> Result<
    ContentOpfView,
    EpubError,
> {
    match r {
        Ok(content) => Ok(content.deep_view()),
        Err(e) => Err(e),
    }
}

/// The outcome of locating, with the path taken by its view.
pub open spec fn path_result(r: Result<String, EpubError>) -> Result<Seq<char>, EpubError> {
    match r {
        Ok(path) => Ok(path@),
        Err(e) => Err(e),
    }
}

/// Finds the first manifest item with the given id.
pub fn find_id(items: &Vec<Manifest>, id: &str) -> (r: Option<usize>)
    ensures
        match r {
            Some(k) => {
                &&& k < items.len()
                &&& k == position_of_id(items.deep_view(), id@, 0)
                &&& items.deep_view()[k as int].id == id@
                &&& forall|j: int| 0 <= j < k ==> items.deep_view()[j].id != id@
            },
            None => {
                &&& position_of_id(items.deep_view(), id@, 0) == items.len()
                &&& forall|j: int| 0 <= j < items.len() ==> items.deep_view()[j].id != id@
            },
        },
{
    let wanted = String::from_str(id);
    let mut i: usize = 0;
    while i < items.len()
        invariant
            i <= items.len(),
            wanted@ == id@,
            position_of_id(items.deep_view(), id@, 0) == position_of_id(
                items.deep_view(),
                id@,
                i as int,
            ),
        decreases items.len() - i,
    {
        if items[i].id == wanted {
            proof {
                lemma_position_of_id(items.deep_view(), id@, 0);
            }
            return Some(i);
        }
        i = i + 1;
    }
    proof {
        lemma_position_of_id(items.deep_view(), id@, 0);
    }
    None
}

/// Finds the first manifest item with the given reference path.
pub fn find_href(items: &Vec<Manifest>, href: &str) -> (r: Option<usize>)
    ensures
        match r {
            Some(k) => {
                &&& k < items.len()
                &&& k == position_of_href(items.deep_view(), href@, 0)
                &&& items.deep_view()[k as int].href == href@
                &&& forall|j: int| 0 <= j < k ==> items.deep_view()[j].href != href@
            },
            None => {
                &&& position_of_href(items.deep_view(), href@, 0) == items.len()
                &&& forall|j: int| 0 <= j < items.len() ==> items.deep_view()[j].href != href@
            },
        },
{
    let wanted = String::from_str(href);
    let mut i: usize = 0;
    while i < items.len()
        invariant
            i <= items.len(),
            wanted@ == href@,
            position_of_href(items.deep_view(), href@, 0) == position_of_href(
                items.deep_view(),
                href@,
                i as int,
            ),
        decreases items.len() - i,
    {
        if items[i].href == wanted {
            proof {
                lemma_position_of_href(items.deep_view(), href@, 0);
            }
            return Some(i);
        }
        i = i + 1;
    }
    proof {
        lemma_position_of_href(items.deep_view(), href@, 0);
    }
    None
}

/// Tells whether the node's parent is the node at `parent`.
fn is_child_of(node: &XmlNode, parent: usize) -> (r: bool)
    ensures
        r == (node.deep_view().parent == Some(parent as int)),
{
    match node.parent {
        Some(p) => p == parent,
        None => false,
    }
}

/// Finds the root element of a parsed document.
pub fn root_element(nodes: &Vec<XmlNode>) -> (r: Option<usize>)
    ensures
        match r {
            Some(k) => k < nodes.len() && k == first_root(nodes.deep_view(), 0),
            None => first_root(nodes.deep_view(), 0) == nodes.len(),
        },
{
    let mut i: usize = 0;
    while i < nodes.len()
        invariant
            i <= nodes.len(),
            first_root(nodes.deep_view(), 0) == first_root(nodes.deep_view(), i as int),
        decreases nodes.len() - i,
    {
        if nodes[i].is_element && is_child_of(&nodes[i], 0) {
            return Some(i);
        }
        i = i + 1;
    }
    None
}

impl ContentOpf {
    /// Gathers the manifest items that the children of the node at
    /// `section` declare.
    pub fn manifest_section(nodes: &Vec<XmlNode>, section: usize) -> (r: Vec<Manifest>)
        ensures
            r.deep_view() == manifest_items(nodes.deep_view(), section as int),
            unique_ids(r.deep_view()),
    {
        let ghost all = nodes.deep_view();
        let ghost add = declared_item(section as int);
        let mut items: Vec<Manifest> = Vec::new();
        let mut i: usize = 0;
        while i < nodes.len()
            invariant
                i <= nodes.len(),
                all == nodes.deep_view(),
                add == declared_item(section as int),
                items.deep_view() == first_of_each_id(all.take(i as int).filter_map(add)),
            decreases nodes.len() - i,
        {
            let node = &nodes[i];
            let ghost earlier = items.deep_view();
            let ghost declared = all.take(i as int).filter_map(add);
            proof {
                all.lemma_filter_map_take_succ(add, i as int);
            }
            if let Ok(item) = Manifest::from_node(node) {
                if is_child_of(node, section) {
                    proof {
                        let next = all.take(i as int + 1).filter_map(add);
                        assert(next.drop_last() =~= declared);
                        lemma_position_of_id(earlier, item.id@, 0);
                    }
                    if find_id(&items, item.id.as_str()).is_none() {
                        items.push(item);
                    }
                }
            }
            i = i + 1;
        }
        proof {
            assert(all.take(nodes.len() as int) =~= all);
            lemma_first_of_each_id(all.filter_map(add));
        }
        items
    }

    /// Gathers the references that the children of the node at `section`
    /// declare.
    pub fn spine_section(nodes: &Vec<XmlNode>, section: usize) -> (r: Vec<SpineItemRef>)
        ensures
            r.deep_view() == spine_refs(nodes.deep_view(), section as int),
    {
        let ghost all = nodes.deep_view();
        let ghost add = declared_ref(section as int);
        let mut refs: Vec<SpineItemRef> = Vec::new();
        let mut i: usize = 0;
        while i < nodes.len()
            invariant
                i <= nodes.len(),
                all == nodes.deep_view(),
                add == declared_ref(section as int),
                refs.deep_view() == all.take(i as int).filter_map(add),
            decreases nodes.len() - i,
        {
            let node = &nodes[i];
            proof {
                all.lemma_filter_map_take_succ(add, i as int);
            }
            if let Ok(spine_ref) = SpineItemRef::from_node(node) {
                if is_child_of(node, section) {
                    refs.push(spine_ref);
                }
            }
            i = i + 1;
        }
        assert(all.take(nodes.len() as int) =~= all);
        refs
    }

    /// Builds the package that a parsed package document describes.
    pub fn from_nodes(nodes: &Vec<XmlNode>) -> (r: Result<ContentOpf, EpubError>)
        ensures
            content_result(r) == package_of(nodes.deep_view()),
            r matches Ok(content) ==> unique_ids(content.deep_view().manifests),
    {
        let root = match root_element(nodes) {
            Some(root) => root,
            None => {
                return Ok(ContentOpf::default());
            },
        };
        let mut content = ContentOpf::default();
        let mut i: usize = 0;
        while i < nodes.len()
            invariant
                i <= nodes.len(),
                root < nodes.len(),
                root == first_root(nodes.deep_view(), 0),
                package_upto(nodes.deep_view(), root as int, i as nat) == Ok::<
                    ContentOpfView,
                    EpubError,
                >(content.deep_view()),
                unique_ids(content.deep_view().manifests),
            decreases nodes.len() - i,
        {
            let node = &nodes[i];
            if is_child_of(node, root) {
                if node.has_name("manifest") {
                    let items = ContentOpf::manifest_section(nodes, i);
                    if items.len() == 0 {
                        proof {
                            lemma_package_failure_stays(
                                nodes.deep_view(),
                                root as int,
                                (i + 1) as nat,
                                nodes.len() as nat,
                            );
                        }
                        return Err(EpubError::InvalidManifest);
                    }
                    content.manifests = items;
                } else if node.has_name("spine") {
                    let refs = ContentOpf::spine_section(nodes, i);
                    if refs.len() == 0 {
                        proof {
                            lemma_package_failure_stays(
                                nodes.deep_view(),
                                root as int,
                                (i + 1) as nat,
                                nodes.len() as nat,
                            );
                        }
                        return Err(EpubError::InvalidSpine);
                    }
                    content.spines = refs;
                }
            }
            i = i + 1;
        }
        Ok(content)
    }

    /// Parses the text of a package document.
    pub fn new(xml: &str) -> (r: Result<ContentOpf, EpubError>)
        ensures
            content_result(r) == parsed_package(xml@),
            r matches Ok(content) ==> unique_ids(content.deep_view().manifests),
    {
        match parse_xml(xml) {
            Ok(nodes) => ContentOpf::from_nodes(&nodes),
            Err(e) => Err(e),
        }
    }

    /// Finds the path of the package document in a parsed container
    /// descriptor.
    pub fn rootfile_path(nodes: &Vec<XmlNode>) -> (r: Result<String, EpubError>)
        ensures
            path_result(r) == rootfile_of(nodes.deep_view()),
    {
        let mut i: usize = match root_element(nodes) {
            Some(root) => root + 1,
            None => {
                return Err(EpubError::MissingRootfile);
            },
        };
        let ghost start = i as int;
        while i < nodes.len()
            invariant
                i <= nodes.len(),
                start == first_root(nodes.deep_view(), 0) + 1,
                first_rootfile(nodes.deep_view(), start) == first_rootfile(
                    nodes.deep_view(),
                    i as int,
                ),
            decreases nodes.len() - i,
        {
            let node = &nodes[i];
            if node.has_name("rootfile") {
                return match node.attribute("full-path") {
                    Some(path) => Ok(String::from_str(path)),
                    None => Err(EpubError::MissingRootfile),
                };
            }
            i = i + 1;
        }
        Err(EpubError::MissingRootfile)
    }

    /// Reads the container descriptor of an archive and finds the path of
    /// the package document in it.
    pub fn content_opf_path(epub: &mut ZipArchive<Cursor<Vec<u8>>>) -> (r: Result<
        String,
        EpubError,
    >)
        ensures
            archive_entries(*final(epub)) == archive_entries(*old(epub)),
            path_result(r) == located_package(archive_entries(*old(epub))),
    {
        let container = match read_to_string(epub, "META-INF/container.xml") {
            Ok(container) => container,
            Err(e) => {
                return Err(e);
            },
        };
        match parse_xml(container.as_str()) {
            Ok(nodes) => ContentOpf::rootfile_path(&nodes),
            Err(e) => Err(e),
        }
    }
}

} // verus!
