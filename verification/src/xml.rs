//! A plain model of a parsed XML document, as the SVG readers see it: the
//! nodes in document order, each with its kind, name, attributes and the
//! position of its parent.
use vstd::prelude::*;

use roxmltree::{Document, ParsingOptions};

verus! {

/// An attribute: its namespace URI (if any), local name and value.
pub struct XmlAttribute {
    pub namespace: Option<String>,
    pub name: String,
    pub value: String,
}

/// A node of the document in document order: whether it is an element,
/// its local name (empty for other nodes), its attributes and the position
/// of its parent node (none for the document node).
pub struct XmlNode {
    pub is_element: bool,
    pub tag: String,
    pub attributes: Vec<XmlAttribute>,
    pub parent: Option<usize>,
}

/// An attribute as plain values.
pub ghost struct AttributeView {
    pub namespace: Option<Seq<char>>,
    pub name: Seq<char>,
    pub value: Seq<char>,
}

/// A node as plain values.
pub ghost struct NodeView {
    pub is_element: bool,
    pub tag: Seq<char>,
    pub attributes: Seq<AttributeView>,
    pub parent: Option<usize>,
}

impl View for XmlAttribute {
    type V = AttributeView;

    open spec fn view(&self) -> AttributeView {
        AttributeView {
            namespace: match self.namespace {
                Some(n) => Some(n@),
                None => None,
            },
            name: self.name@,
            value: self.value@,
        }
    }
}

impl View for XmlNode {
    type V = NodeView;

    open spec fn view(&self) -> NodeView {
        NodeView {
            is_element: self.is_element,
            tag: self.tag@,
            attributes: self.attributes@.map_values(|a: XmlAttribute| a@),
            parent: self.parent,
        }
    }
}

/// The nodes of a parsed document as plain values.
pub open spec fn nodes_view(nodes: Option<Vec<XmlNode>>) -> Option<Seq<NodeView>> {
    match nodes {
        Some(v) => Some(v@.map_values(|n: XmlNode| n@)),
        None => None,
    }
}

/// What roxmltree makes of a text (DTDs allowed): every node of the
/// document in document order, or `None` when the text is not well-formed XML.
pub uninterp spec fn xml_document(text: Seq<char>) -> Option<Seq<NodeView>>;

/// Calls `roxmltree::Document::parse_with_options` with DTDs allowed and
/// lists `descendants()` of the document: for each node whether it is an
/// element, its tag's local name, its attributes and its parent's id.
/// The result is named `xml_document` of the text; what that is, is
/// roxmltree's XML parsing and is not stated here.
#[verifier::external_body]
pub(crate) fn parse_xml(text: &str) -> (res: Option<Vec<XmlNode>>)
    ensures
        nodes_view(res) == xml_document(text@),
{
    let opt = ParsingOptions { allow_dtd: true, ..ParsingOptions::default() };
    let doc = Document::parse_with_options(text, opt).ok()?;
    Some(doc.descendants().map(|n| XmlNode {
        is_element: n.is_element(),
        tag: n.tag_name().name().to_string(),
        attributes: n.attributes().map(|a| XmlAttribute {
            namespace: a.namespace().map(String::from),
            name: a.name().to_string(),
            value: a.value().to_string(),
        }).collect(),
        parent: n.parent().map(|p| p.id().get() as usize),
    }).collect())
}

/// The value of the first attribute called `name` that has no namespace.
pub open spec fn attribute_value(attrs: Seq<AttributeView>, name: Seq<char>) -> Option<Seq<char>>
    decreases attrs.len(),
{
    if attrs.len() == 0 {
        None
    } else if attrs[0].namespace is None && attrs[0].name == name {
        Some(attrs[0].value)
    } else {
        attribute_value(attrs.drop_first(), name)
    }
}

/// The node is an element whose local name is `tag`.
pub open spec fn is_element_named(n: NodeView, tag: Seq<char>) -> bool {
    n.is_element && n.tag == tag
}

/// The value of the first attribute called `name` without a namespace, as
/// roxmltree's `Node::attribute` looks it up.
pub fn attribute<'a>(node: &'a XmlNode, name: &str) -> (res: Option<&'a String>)
    ensures
        match res {
            Some(v) => attribute_value(node@.attributes, name@) == Some(v@),
            None => attribute_value(node@.attributes, name@) is None,
        },
{
    let ghost all = node@.attributes;
    let mut i: usize = 0;
    assert(all.skip(0) =~= all);
    while i < node.attributes.len()
        invariant
            all == node.attributes@.map_values(|a: XmlAttribute| a@),
            i <= all.len(),
            attribute_value(all, name@) == attribute_value(all.skip(i as int), name@),
        decreases all.len() - i,
    {
        let a = &node.attributes[i];
        assert(all.skip(i as int)[0] == a@);
        if a.namespace.is_none() && crate::text::same_text(a.name.as_str(), name) {
            return Some(&a.value);
        }
        assert(all.skip(i as int).drop_first() =~= all.skip(i + 1));
        i = i + 1;
    }
    None
}

/// Whether the node is an element whose local name is `tag`.
pub fn has_tag_name(node: &XmlNode, tag: &str) -> (res: bool)
    ensures
        res == is_element_named(node@, tag@),
{
    node.is_element && crate::text::same_text(node.tag.as_str(), tag)
}

} // verus!
