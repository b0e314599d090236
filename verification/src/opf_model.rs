use vstd::prelude::*;

use crate::error::EpubError;
use crate::manifest::manifest_of;
use crate::manifest::spine_ref_of;
use crate::manifest::ManifestView;
use crate::xml::attribute_value;
use crate::xml::is_named;
use crate::xml::xml_nodes;
use crate::xml::XmlNodeView;
use crate::zip_utils::entry_text;

verus! {

/// What a package document holds: the manifest items, and the reading
/// order as the ids that it refers to.
pub struct ContentOpfView {
    pub manifests: Seq<ManifestView>,
    pub spines: Seq<Seq<char>>,
}

/// The package without items and without reading order.
pub open spec fn empty_package() -> ContentOpfView {
    ContentOpfView { manifests: Seq::empty(), spines: Seq::empty() }
}

/// The first position from `start` on at which a manifest item has the id
/// `id`; the length of `items` where there is none.
pub open spec fn position_of_id(items: Seq<ManifestView>, id: Seq<char>, start: int) -> int
    decreases items.len() - start,
{
    if start >= items.len() {
        items.len() as int
    } else if items[start].id == id {
        start
    } else {
        position_of_id(items, id, start + 1)
    }
}

/// The first position from `start` on at which a manifest item has the
/// reference path `href`; the length of `items` where there is none.
pub open spec fn position_of_href(items: Seq<ManifestView>, href: Seq<char>, start: int) -> int
    decreases items.len() - start,
{
    if start >= items.len() {
        items.len() as int
    } else if items[start].href == href {
        start
    } else {
        position_of_href(items, href, start + 1)
    }
}

/// Whether some manifest item has the id `id`.
pub open spec fn has_id(items: Seq<ManifestView>, id: Seq<char>) -> bool {
    exists|i: int| 0 <= i < items.len() && (#[trigger] items[i]).id == id
}

/// Whether no two manifest items share an id.
pub open spec fn unique_ids(items: Seq<ManifestView>) -> bool {
    forall|i: int, j: int|
        0 <= i < j < items.len() ==> (#[trigger] items[i]).id != (#[trigger] items[j]).id
}

/// What a node adds to the manifest section at `section`: the item that it
/// declares, where it is a child of the section and declares one.
pub open spec fn declared_item(section: int) -> spec_fn(XmlNodeView) -> Option<ManifestView> {
    |node: XmlNodeView|
        if node.parent == Some(section) {
            match manifest_of(node) {
                Ok(item) => Some(item),
                Err(_) => None,
            }
        } else {
            None
        }
}

/// What a node adds to the spine section at `section`: the reference that
/// it declares, where it is a child of the section and declares one.
pub open spec fn declared_ref(section: int) -> spec_fn(XmlNodeView) -> Option<Seq<char>> {
    |node: XmlNodeView|
        if node.parent == Some(section) {
            match spine_ref_of(node) {
                Ok(idref) => Some(idref),
                Err(_) => None,
            }
        } else {
            None
        }
}

/// The items without those whose id an earlier item already has: of each
/// id the first occurrence, in the order of the items.
pub open spec fn first_of_each_id(items: Seq<ManifestView>) -> Seq<ManifestView>
    decreases items.len(),
{
    if items.len() == 0 {
        Seq::empty()
    } else {
        let earlier = first_of_each_id(items.drop_last());
        if has_id(earlier, items.last().id) {
            earlier
        } else {
            earlier.push(items.last())
        }
    }
}

/// The manifest items of the section at `section`: what its children
/// declare, in document order, of each id the first occurrence.
pub open spec fn manifest_items(nodes: Seq<XmlNodeView>, section: int) -> Seq<ManifestView> {
    first_of_each_id(nodes.filter_map(declared_item(section)))
}

/// The references of the spine section at `section`: what its children
/// declare, in document order.
pub open spec fn spine_refs(nodes: Seq<XmlNodeView>, section: int) -> Seq<Seq<char>> {
    nodes.filter_map(declared_ref(section))
}

/// The position of the first element from `start` on that is a child of
/// the document node; the number of nodes where there is none. From 0 on,
/// this is the root element.
pub open spec fn first_root(nodes: Seq<XmlNodeView>, start: int) -> int
    decreases nodes.len() - start,
{
    if start >= nodes.len() {
        nodes.len() as int
    } else if nodes[start].is_element && nodes[start].parent == Some(0int) {
        start
    } else {
        first_root(nodes, start + 1)
    }
}

/// The position of the first element named `rootfile` from `start` on; the
/// number of nodes where there is none.
pub open spec fn first_rootfile(nodes: Seq<XmlNodeView>, start: int) -> int
    decreases nodes.len() - start,
{
    if start >= nodes.len() {
        nodes.len() as int
    } else if is_named(nodes[start], "rootfile"@) {
        start
    } else {
        first_rootfile(nodes, start + 1)
    }
}

/// The package that the children of the element at `root` describe, as far
/// as they stand among the first `n` nodes. Each `manifest` child sets the
/// manifest and each `spine` child the reading order, a later one in place
/// of an earlier one; other children are passed over. The first section
/// that yields nothing fails the whole: a manifest with `InvalidManifest`, a
/// spine with `InvalidSpine`.
pub open spec fn package_upto(nodes: Seq<XmlNodeView>, root: int, n: nat) -> Result<
    ContentOpfView,
    EpubError,
>
    decreases n,
{
    if n == 0 {
        Ok(empty_package())
    } else {
        match package_upto(nodes, root, (n - 1) as nat) {
            Err(e) => Err(e),
            Ok(content) => {
                let node = nodes[n - 1];
                if node.parent != Some(root) {
                    Ok(content)
                } else if is_named(node, "manifest"@) {
                    let items = manifest_items(nodes, n - 1);
                    if items.len() == 0 {
                        Err(EpubError::InvalidManifest)
                    } else {
                        Ok(ContentOpfView { manifests: items, spines: content.spines })
                    }
                } else if is_named(node, "spine"@) {
                    let refs = spine_refs(nodes, n - 1);
                    if refs.len() == 0 {
                        Err(EpubError::InvalidSpine)
                    } else {
                        Ok(ContentOpfView { manifests: content.manifests, spines: refs })
                    }
                } else {
                    Ok(content)
                }
            },
        }
    }
}

/// The package that a parsed package document describes. A document
/// without a root element describes the empty package.
pub open spec fn package_of(nodes: Seq<XmlNodeView>) -> Result<ContentOpfView, EpubError> {
    let root = first_root(nodes, 0);
    if root < nodes.len() {
        package_upto(nodes, root, nodes.len())
    } else {
        Ok(empty_package())
    }
}

/// The package that the text of a package document describes.
pub open spec fn parsed_package(text: Seq<char>) -> Result<ContentOpfView, EpubError> {
    match xml_nodes(text) {
        Some(nodes) => package_of(nodes),
        None => Err(EpubError::XmlParseError),
    }
}

/// The path of the package document that a parsed container descriptor
/// names: the `full-path` attribute of the first element named `rootfile`
/// that follows the root element. Without such an element, or without that
/// attribute on it, the descriptor names none.
pub open spec fn rootfile_of(nodes: Seq<XmlNodeView>) -> Result<Seq<char>, EpubError> {
    let found = first_rootfile(nodes, first_root(nodes, 0) + 1);
    if found < nodes.len() {
        match attribute_value(nodes[found].attributes, "full-path"@) {
            Some(path) => Ok(path),
            None => Err(EpubError::MissingRootfile),
        }
    } else {
        Err(EpubError::MissingRootfile)
    }
}

/// The path of the package document of an archive with these entries: what
/// the container descriptor at `META-INF/container.xml` names.
pub open spec fn located_package(entries: Map<Seq<char>, Result<Seq<u8>, EpubError>>) -> Result<
    Seq<char>,
    EpubError,
> {
    match entry_text(entries, "META-INF/container.xml"@) {
        Ok(text) => match xml_nodes(text) {
            Some(nodes) => rootfile_of(nodes),
            None => Err(EpubError::XmlParseError),
        },
        Err(e) => Err(e),
    }
}

/// `position_of_id` finds an item with the id, and none before it has it.
pub proof fn lemma_position_of_id(items: Seq<ManifestView>, id: Seq<char>, start: int)
    requires
        0 <= start <= items.len(),
    ensures
        start <= position_of_id(items, id, start) <= items.len(),
        position_of_id(items, id, start) < items.len() ==> items[position_of_id(
            items,
            id,
            start,
        )].id == id,
        forall|j: int| start <= j < position_of_id(items, id, start) ==> items[j].id != id,
    decreases items.len() - start,
{
    if start < items.len() && items[start].id != id {
        lemma_position_of_id(items, id, start + 1);
    }
}

/// `position_of_href` finds an item with the reference path, and none
/// before it has it.
pub proof fn lemma_position_of_href(items: Seq<ManifestView>, href: Seq<char>, start: int)
    requires
        0 <= start <= items.len(),
    ensures
        start <= position_of_href(items, href, start) <= items.len(),
        position_of_href(items, href, start) < items.len() ==> items[position_of_href(
            items,
            href,
            start,
        )].href == href,
        forall|j: int| start <= j < position_of_href(items, href, start) ==> items[j].href != href,
    decreases items.len() - start,
{
    if start < items.len() && items[start].href != href {
        lemma_position_of_href(items, href, start + 1);
    }
}

/// Each item is kept or has an earlier item with its id kept in its place:
/// the ids of the kept items are the ids of all items.
pub proof fn lemma_first_of_each_id_keeps_ids(items: Seq<ManifestView>, id: Seq<char>)
    ensures
        has_id(first_of_each_id(items), id) <==> has_id(items, id),
    decreases items.len(),
{
    if items.len() > 0 {
        let rest = items.drop_last();
        let earlier = first_of_each_id(rest);
        let kept = first_of_each_id(items);
        lemma_first_of_each_id_keeps_ids(rest, id);
        if has_id(items, id) {
            let i = choose|i: int| 0 <= i < items.len() && (#[trigger] items[i]).id == id;
            if i < rest.len() {
                assert(rest[i].id == id);
                let k = choose|k: int| 0 <= k < earlier.len() && (#[trigger] earlier[k]).id == id;
                assert(kept[k].id == id);
            } else if !has_id(earlier, items.last().id) {
                assert(kept[kept.len() - 1].id == id);
            }
        }
    }
}

/// No two of the kept items share an id, each kept item is one of the
/// items, and where there are items, some are kept.
pub proof fn lemma_first_of_each_id(items: Seq<ManifestView>)
    ensures
        unique_ids(first_of_each_id(items)),
        forall|k: int|
            0 <= k < first_of_each_id(items).len() ==> items.contains(
                #[trigger] first_of_each_id(items)[k],
            ),
        items.len() > 0 ==> first_of_each_id(items).len() > 0,
    decreases items.len(),
{
    if items.len() > 0 {
        lemma_first_of_each_id(items.drop_last());
    }
}

/// The ids of the items of a manifest section are unique.
pub proof fn lemma_manifest_items_unique(nodes: Seq<XmlNodeView>, section: int)
    ensures
        unique_ids(manifest_items(nodes, section)),
{
    lemma_first_of_each_id(nodes.filter_map(declared_item(section)));
}

/// Once a section has failed, the nodes that follow change nothing.
pub proof fn lemma_package_failure_stays(nodes: Seq<XmlNodeView>, root: int, n: nat, m: nat)
    requires
        n <= m,
        package_upto(nodes, root, n) is Err,
    ensures
        package_upto(nodes, root, m) == package_upto(nodes, root, n),
    decreases m,
{
    if n < m {
        lemma_package_failure_stays(nodes, root, n, (m - 1) as nat);
    }
}

/// `first_root` finds a root element, and none stands before it.
pub proof fn lemma_first_root(nodes: Seq<XmlNodeView>, start: int)
    requires
        0 <= start <= nodes.len(),
    ensures
        start <= first_root(nodes, start) <= nodes.len(),
        first_root(nodes, start) < nodes.len() ==> {
            let found = nodes[first_root(nodes, start)];
            found.is_element && found.parent == Some(0int)
        },
        forall|j: int|
            start <= j < first_root(nodes, start) ==> !(nodes[j].is_element && nodes[j].parent
                == Some(0int)),
    decreases nodes.len() - start,
{
    if start < nodes.len() && !(nodes[start].is_element && nodes[start].parent == Some(0int)) {
        lemma_first_root(nodes, start + 1);
    }
}

/// `first_rootfile` finds an element named `rootfile`, and none stands
/// between `start` and it.
pub proof fn lemma_first_rootfile(nodes: Seq<XmlNodeView>, start: int)
    requires
        0 <= start <= nodes.len(),
    ensures
        start <= first_rootfile(nodes, start) <= nodes.len(),
        first_rootfile(nodes, start) < nodes.len() ==> is_named(
            nodes[first_rootfile(nodes, start)],
            "rootfile"@,
        ),
        forall|j: int|
            start <= j < first_rootfile(nodes, start) ==> !is_named(nodes[j], "rootfile"@),
    decreases nodes.len() - start,
{
    if start < nodes.len() && !is_named(nodes[start], "rootfile"@) {
        lemma_first_rootfile(nodes, start + 1);
    }
}

/// A container descriptor without any element named `rootfile` names no
/// package document.
pub proof fn lemma_no_rootfile_is_missing(nodes: Seq<XmlNodeView>)
    requires
        forall|j: int| 0 <= j < nodes.len() ==> !is_named(#[trigger] nodes[j], "rootfile"@),
    ensures
        rootfile_of(nodes) == Err::<Seq<char>, EpubError>(EpubError::MissingRootfile),
{
    lemma_first_root(nodes, 0);
    let start = first_root(nodes, 0) + 1;
    if start <= nodes.len() {
        lemma_first_rootfile(nodes, start);
    }
}

/// Nodes none of which adds anything to a section leave the section
/// empty.
pub proof fn lemma_filter_map_of_none<A, B>(items: Seq<A>, f: spec_fn(A) -> Option<B>)
    requires
        forall|j: int| 0 <= j < items.len() ==> f(#[trigger] items[j]) is None,
    ensures
        items.filter_map(f).len() == 0,
    decreases items.len(),
{
    if items.len() > 0 {
        lemma_filter_map_of_none(items.drop_last(), f);
    }
}

/// A node that adds something to a section leaves it in the section.
pub proof fn lemma_filter_map_of_some<A, B>(items: Seq<A>, f: spec_fn(A) -> Option<B>, j: int)
    requires
        0 <= j < items.len(),
        f(items[j]) is Some,
    ensures
        items.filter_map(f).contains(f(items[j])->Some_0),
    decreases items.len(),
{
    let rest = items.drop_last();
    let found = f(items[j])->Some_0;
    if j < items.len() - 1 {
        lemma_filter_map_of_some(rest, f, j);
        let at = choose|at: int| 0 <= at < rest.filter_map(f).len() && rest.filter_map(f)[at] == found;
        assert(items.filter_map(f)[at] == found);
    } else {
        let all = items.filter_map(f);
        assert(all[all.len() - 1] == found);
    }
}

/// A manifest section whose every child lacks `href` yields no item.
pub proof fn lemma_manifest_without_href_is_empty(nodes: Seq<XmlNodeView>, section: int)
    requires
        forall|j: int|
            0 <= j < nodes.len() && (#[trigger] nodes[j]).parent == Some(section)
                ==> attribute_value(nodes[j].attributes, "href"@) is None,
    ensures
        manifest_items(nodes, section).len() == 0,
{
    lemma_filter_map_of_none(nodes, declared_item(section));
}

/// A spine section whose every child lacks `idref` yields no reference.
pub proof fn lemma_spine_without_idref_is_empty(nodes: Seq<XmlNodeView>, section: int)
    requires
        forall|j: int|
            0 <= j < nodes.len() && (#[trigger] nodes[j]).parent == Some(section)
                ==> attribute_value(nodes[j].attributes, "idref"@) is None,
    ensures
        spine_refs(nodes, section).len() == 0,
{
    lemma_filter_map_of_none(nodes, declared_ref(section));
}

/// A package document fails with `InvalidManifest` where a manifest
/// section of it yields no item and no section before that one has failed.
pub proof fn lemma_empty_manifest_is_invalid(nodes: Seq<XmlNodeView>, section: int)
    requires
        0 <= section < nodes.len(),
        first_root(nodes, 0) < nodes.len(),
        nodes[section].parent == Some(first_root(nodes, 0)),
        is_named(nodes[section], "manifest"@),
        package_upto(nodes, first_root(nodes, 0), section as nat) is Ok,
        manifest_items(nodes, section).len() == 0,
    ensures
        package_of(nodes) == Err::<ContentOpfView, EpubError>(EpubError::InvalidManifest),
{
    let root = first_root(nodes, 0);
    assert(package_upto(nodes, root, (section + 1) as nat) == Err::<ContentOpfView, EpubError>(
        EpubError::InvalidManifest,
    ));
    lemma_package_failure_stays(nodes, root, (section + 1) as nat, nodes.len());
}

/// A package document fails with `InvalidManifest` where every child of a
/// manifest section of it lacks `href` and no section before that one has
/// failed.
pub proof fn lemma_manifest_without_href_is_invalid(nodes: Seq<XmlNodeView>, section: int)
    requires
        0 <= section < nodes.len(),
        first_root(nodes, 0) < nodes.len(),
        nodes[section].parent == Some(first_root(nodes, 0)),
        is_named(nodes[section], "manifest"@),
        package_upto(nodes, first_root(nodes, 0), section as nat) is Ok,
        forall|j: int|
            0 <= j < nodes.len() && (#[trigger] nodes[j]).parent == Some(section)
                ==> attribute_value(nodes[j].attributes, "href"@) is None,
    ensures
        package_of(nodes) == Err::<ContentOpfView, EpubError>(EpubError::InvalidManifest),
{
    lemma_manifest_without_href_is_empty(nodes, section);
    lemma_empty_manifest_is_invalid(nodes, section);
}

/// A manifest section with a child that declares an item does not fail,
/// whatever its other children lack: it sets the manifest to the items
/// that its children declare.
pub proof fn lemma_manifest_with_valid_child_is_kept(
    nodes: Seq<XmlNodeView>,
    section: int,
    child: int,
)
    requires
        0 <= section < nodes.len(),
        nodes[section].parent == Some(first_root(nodes, 0)),
        is_named(nodes[section], "manifest"@),
        package_upto(nodes, first_root(nodes, 0), section as nat) is Ok,
        0 <= child < nodes.len(),
        nodes[child].parent == Some(section),
        manifest_of(nodes[child]) is Ok,
    ensures
        package_upto(nodes, first_root(nodes, 0), (section + 1) as nat) == Ok::<
            ContentOpfView,
            EpubError,
        >(
            ContentOpfView {
                manifests: manifest_items(nodes, section),
                spines: package_upto(nodes, first_root(nodes, 0), section as nat)->Ok_0.spines,
            },
        ),
{
    lemma_declared_item_is_listed(nodes, section, child);
}

/// A package document fails with `InvalidSpine` where a spine section of
/// it yields no reference and no section before that one has failed.
pub proof fn lemma_empty_spine_is_invalid(nodes: Seq<XmlNodeView>, section: int)
    requires
        0 <= section < nodes.len(),
        first_root(nodes, 0) < nodes.len(),
        nodes[section].parent == Some(first_root(nodes, 0)),
        is_named(nodes[section], "spine"@),
        package_upto(nodes, first_root(nodes, 0), section as nat) is Ok,
        spine_refs(nodes, section).len() == 0,
    ensures
        package_of(nodes) == Err::<ContentOpfView, EpubError>(EpubError::InvalidSpine),
{
    let root = first_root(nodes, 0);
    reveal_strlit("manifest");
    reveal_strlit("spine");
    assert("manifest"@.len() != "spine"@.len());
    assert(package_upto(nodes, root, (section + 1) as nat) == Err::<ContentOpfView, EpubError>(
        EpubError::InvalidSpine,
    ));
    lemma_package_failure_stays(nodes, root, (section + 1) as nat, nodes.len());
}

/// Every item of a manifest section is the one that some child of the
/// section declares: a child that declares none adds nothing.
pub proof fn lemma_manifest_items_declared(nodes: Seq<XmlNodeView>, section: int, k: int) -> (j:
    int)
    requires
        0 <= k < manifest_items(nodes, section).len(),
    ensures
        0 <= j < nodes.len(),
        nodes[j].parent == Some(section),
        manifest_of(nodes[j]) == Ok::<ManifestView, EpubError>(manifest_items(nodes, section)[k]),
{
    let declared = nodes.filter_map(declared_item(section));
    let item = manifest_items(nodes, section)[k];
    lemma_first_of_each_id(declared);
    nodes.lemma_filter_map_contains(declared_item(section), item);
    let node = choose|node: XmlNodeView| #[trigger]
        nodes.contains(node) && declared_item(section)(node) == Some(item);
    let j = choose|j: int| 0 <= j < nodes.len() && nodes[j] == node;
    j
}

/// Every child of a manifest section that declares an item leaves an item
/// with its id in the section, so one child that declares none among
/// others that do does not fail the section.
pub proof fn lemma_declared_item_is_listed(nodes: Seq<XmlNodeView>, section: int, j: int)
    requires
        0 <= j < nodes.len(),
        nodes[j].parent == Some(section),
        manifest_of(nodes[j]) is Ok,
    ensures
        has_id(manifest_items(nodes, section), manifest_of(nodes[j])->Ok_0.id),
        manifest_items(nodes, section).len() > 0,
{
    let declared = nodes.filter_map(declared_item(section));
    let item = manifest_of(nodes[j])->Ok_0;
    lemma_filter_map_of_some(nodes, declared_item(section), j);
    let at = choose|at: int| 0 <= at < declared.len() && declared[at] == item;
    assert(declared[at].id == item.id);
    lemma_first_of_each_id_keeps_ids(declared, item.id);
    lemma_first_of_each_id(declared);
}

} // verus!
