use roxmltree::Document;
use vstd::prelude::*;
use vstd::string::StringExecFns;

use crate::error::EpubError;

verus! {

/// One attribute of an element.
#[derive(Debug, Clone, PartialEq, Eq)]
pub struct XmlAttribute {
    /// The namespace that the attribute's prefix stands for, if it has one.
    pub namespace: Option<String>,
    /// The attribute's name, without a prefix.
    pub name: String,
    pub value: String,
}

/// One node of a parsed document. A document is the list of its nodes in
/// document order; each node names its parent by position in that list.
#[derive(Debug, Clone, PartialEq, Eq)]
pub struct XmlNode {
    /// The position of the parent node; `None` for the document node.
    pub parent: Option<usize>,
    /// Whether the node is an element, rather than text, a comment, a
    /// processing instruction or the document node.
    pub is_element: bool,
    /// An element's tag name, without a prefix; empty for other nodes.
    pub name: String,
    /// An element's attributes, in the order in which they were written.
    pub attributes: Vec<XmlAttribute>,
}

/// An attribute, as contracts speak of it.
pub struct XmlAttributeView {
    pub namespace: Option<Seq<char>>,
    pub name: Seq<char>,
    pub value: Seq<char>,
}

/// A node, as contracts speak of it.
pub struct XmlNodeView {
    pub parent: Option<int>,
    pub is_element: bool,
    pub name: Seq<char>,
    pub attributes: Seq<XmlAttributeView>,
}

impl DeepView for XmlAttribute {
    type V = XmlAttributeView;

    open spec fn deep_view(&self) -> XmlAttributeView {
        XmlAttributeView {
            namespace: match self.namespace {
                Some(namespace) => Some(namespace@),
                None => None,
            },
            name: self.name@,
            value: self.value@,
        }
    }
}

impl DeepView for XmlNode {
    type V = XmlNodeView;

    open spec fn deep_view(&self) -> XmlNodeView {
        XmlNodeView {
            parent: match self.parent {
                Some(parent) => Some(parent as int),
                None => None,
            },
            is_element: self.is_element,
            name: self.name@,
            attributes: self.attributes.deep_view(),
        }
    }
}

/// The value of the first attribute that has the name `key` and no
/// namespace.
pub open spec fn attribute_value(attributes: Seq<XmlAttributeView>, key: Seq<char>) -> Option<
    Seq<char>,
>
    decreases attributes.len(),
{
    if attributes.len() == 0 {
        None
    } else if attributes[0].namespace is None && attributes[0].name == key {
        Some(attributes[0].value)
    } else {
        attribute_value(attributes.drop_first(), key)
    }
}

/// Whether a node is an element with the tag name `tag`.
pub open spec fn is_named(node: XmlNodeView, tag: Seq<char>) -> bool {
    node.is_element && node.name == tag
}

/// What `roxmltree` makes of a text: `None` where the text is not well
/// formed, otherwise the nodes of the document in document order, the
/// document node first.
pub uninterp spec fn xml_nodes(text: Seq<char>) -> Option<Seq<XmlNodeView>>;

/// `roxmltree::Document::parse`, and the nodes that `Document::descendants`
/// walks, each copied field by field: its parent's id, whether it is an
/// element, its local tag name, and each attribute's namespace, local name
/// and value. A text that the parser rejects gives `None`.
#[verifier::external_body]
fn parse_nodes(text: &str) -> (r: Option<Vec<XmlNode>>)
    ensures
        r is Some <==> xml_nodes(text@) is Some,
        r matches Some(nodes) ==> xml_nodes(text@) == Some(nodes.deep_view()),
{
    let document = Document::parse(text).ok()?;
    Some(document.descendants().map(|node| XmlNode {
        parent: node.parent().map(|parent| parent.id().get_usize()),
        is_element: node.is_element(),
        name: node.tag_name().name().to_string(),
        attributes: node.attributes().iter().map(|attribute| XmlAttribute {
            namespace: attribute.namespace().map(|namespace| namespace.to_string()),
            name: attribute.name().to_string(),
            value: attribute.value().to_string(),
        }).collect(),
    }).collect())
}

/// Parses a text as XML. A text that is not well formed is an
/// `XmlParseError`.
pub fn parse_xml(text: &str) -> (r: Result<Vec<XmlNode>, EpubError>)
    ensures
        match r {
            Ok(nodes) => xml_nodes(text@) == Some(nodes.deep_view()),
            Err(e) => e == EpubError::XmlParseError && xml_nodes(text@) is None,
        },
{
    match parse_nodes(text) {
        Some(nodes) => Ok(nodes),
        None => Err(EpubError::XmlParseError),
    }
}

impl XmlNode {
    /// Looks up an attribute without a namespace by its name.
    pub fn attribute(&self, key: &str) -> (r: Option<&str>)
        ensures
            match r {
                Some(value) => attribute_value(self.deep_view().attributes, key@) == Some(value@),
                None => attribute_value(self.deep_view().attributes, key@) is None,
            },
    {
        let wanted = String::from_str(key);
        let ghost all = self.deep_view().attributes;
        let mut i: usize = 0;
        assert(all.skip(0) =~= all);
        while i < self.attributes.len()
            invariant
                i <= self.attributes.len(),
                all == self.deep_view().attributes,
                wanted@ == key@,
                attribute_value(all, key@) == attribute_value(all.skip(i as int), key@),
            decreases self.attributes.len() - i,
        {
            let attribute = &self.attributes[i];
            proof {
                assert(all.skip(i as int).drop_first() =~= all.skip(i as int + 1));
            }
            if attribute.namespace.is_none() && attribute.name == wanted {
                return Some(attribute.value.as_str());
            }
            i = i + 1;
        }
        None
    }

    /// Tells whether the node is an element with the given tag name.
    pub fn has_name(&self, tag: &str) -> (r: bool)
        ensures
            r == is_named(self.deep_view(), tag@),
    {
        self.is_element && self.name == String::from_str(tag)
    }
}

} // verus!
