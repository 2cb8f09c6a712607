//! XML documents as the players read them: the nodes of a parsed document in document
//! order, with the few properties the parsers look at, and the lookups they make.
use vstd::prelude::*;

use crate::text::{chars_eq, chars_of};

verus! {

/// An attribute: its local name and its value.
pub struct XmlAttribute {
    pub name: String,
    pub value: String,
}

/// One node of a parsed document.
pub struct XmlNode {
    /// The node's position in the document's node table.
    pub id: usize,
    /// The position of the parent node; only the document root has none.
    pub parent: Option<usize>,
    /// Whether the node is an element.
    pub is_element: bool,
    /// The local tag name (empty for nodes that are not elements).
    pub name: String,
    /// The namespace URI of the tag name, if any.
    pub namespace: Option<String>,
    /// The node's text: for an element, its first child when that child is text.
    pub text: Option<String>,
    /// The element's attributes, in document order.
    pub attributes: Vec<XmlAttribute>,
}

/// An attribute as plain values.
pub struct XmlAttributeView {
    pub name: Seq<char>,
    pub value: Seq<char>,
}

/// A node as plain values.
pub struct XmlNodeView {
    pub id: usize,
    pub parent: Option<usize>,
    pub is_element: bool,
    pub name: Seq<char>,
    pub namespace: Option<Seq<char>>,
    pub text: Option<Seq<char>>,
    pub attributes: Seq<XmlAttributeView>,
}

impl View for XmlAttribute {
    type V = XmlAttributeView;

    open spec fn view(&self) -> XmlAttributeView {
        XmlAttributeView { name: self.name@, value: self.value@ }
    }
}

impl View for XmlNode {
    type V = XmlNodeView;

    open spec fn view(&self) -> XmlNodeView {
        XmlNodeView {
            id: self.id,
            parent: self.parent,
            is_element: self.is_element,
            name: self.name@,
            namespace: crate::text::opt_view(self.namespace),
            text: crate::text::opt_view(self.text),
            attributes: self.attributes@.map_values(|a: XmlAttribute| a@),
        }
    }
}

/// The views of a node list.
pub open spec fn nodes_view(v: Seq<XmlNode>) -> Seq<XmlNodeView> {
    v.map_values(|n: XmlNode| n@)
}

/// A document that could not be parsed.
#[derive(Debug)]
pub struct XmlError;

#[verifier::external_type_specification]
#[verifier::external_body]
pub struct ExRoxmlError(roxmltree::Error);

/// Name for what parsing a text with `roxmltree::Document::parse` gives: `None` when the
/// text is not a well-formed document, else the document's nodes as
/// `Document::descendants` lists them (the root first, then document order).
pub uninterp spec fn xml_document_nodes(xml: Seq<char>) -> Option<Seq<XmlNodeView>>;

/// `roxmltree::Document::parse`, with the parsed document converted node by node.
/// Trusted: the result is `xml_document_nodes` of the text.
#[verifier::external_body]
fn roxml_parse(xml: &str) -> (r: Result<Vec<XmlNode>, roxmltree::Error>)
    ensures
        match r {
            Ok(nodes) => xml_document_nodes(xml@) == Some(nodes_view(nodes@)),
            Err(_) => xml_document_nodes(xml@) is None,
        },
{
    roxmltree::Document::parse(xml).map(|doc| doc.descendants().map(|n| XmlNode {
        id: n.id().get_usize(),
        parent: n.parent().map(|p| p.id().get_usize()),
        is_element: n.is_element(),
        name: n.tag_name().name().to_string(),
        namespace: n.tag_name().namespace().map(str::to_string),
        text: n.text().map(str::to_string),
        attributes: n.attributes().map(|a| XmlAttribute { name: a.name().to_string(),
            value: a.value().to_string() }).collect(),
    }).collect())
}

/// Parses an XML document into its nodes.
pub fn parse_xml(xml: &str) -> (r: Result<Vec<XmlNode>, XmlError>)
    ensures
        match r {
            Ok(nodes) => xml_document_nodes(xml@) == Some(nodes_view(nodes@)),
            Err(_) => xml_document_nodes(xml@) is None,
        },
{
    match roxml_parse(xml) {
        Ok(nodes) => Ok(nodes),
        Err(_) => Err(XmlError),
    }
}

/// The first position at or after `k` whose node satisfies `p`.
pub open spec fn first_match(ns: Seq<XmlNodeView>, p: spec_fn(XmlNodeView) -> bool, k: nat) -> Option<
    int,
>
    decreases ns.len() - k,
{
    if k >= ns.len() {
        None
    } else if p(ns[k as int]) {
        Some(k as int)
    } else {
        first_match(ns, p, k + 1)
    }
}

/// An element with the given local tag name (what `has_tag_name` with a bare name checks).
pub open spec fn named(name: Seq<char>) -> spec_fn(XmlNodeView) -> bool {
    |n: XmlNodeView| n.is_element && n.name == name
}

/// A child element of the node at table position `parent` with the given local name.
pub open spec fn child_named(parent: usize, name: Seq<char>) -> spec_fn(XmlNodeView) -> bool {
    |n: XmlNodeView| n.is_element && n.name == name && n.parent == Some(parent)
}

/// A node whose tag is in namespace `namespace` and has local name `name`.
pub open spec fn named_in(namespace: Seq<char>, name: Seq<char>) -> spec_fn(XmlNodeView) -> bool {
    |n: XmlNodeView| n.namespace == Some(namespace) && n.name == name
}

/// A node that has an attribute with the given local name.
pub open spec fn has_attribute(name: Seq<char>) -> spec_fn(XmlNodeView) -> bool {
    |n: XmlNodeView| attribute_spec(n.attributes, name) is Some
}

/// The value of the first attribute with the given local name.
pub open spec fn attribute_spec(attrs: Seq<XmlAttributeView>, name: Seq<char>) -> Option<Seq<char>>
    decreases attrs.len(),
{
    if attrs.len() == 0 {
        None
    } else if attrs[0].name == name {
        Some(attrs[0].value)
    } else {
        attribute_spec(attrs.drop_first(), name)
    }
}

/// The text of the first node satisfying `p`, when that node has text.
pub open spec fn first_text(ns: Seq<XmlNodeView>, p: spec_fn(XmlNodeView) -> bool) -> Option<Seq<char>> {
    match first_match(ns, p, 0) {
        Some(i) => ns[i].text,
        None => None,
    }
}

/// Which position of `nodes` a search result names.
pub open spec fn found(r: Option<usize>, expected: Option<int>) -> bool {
    match r {
        Some(i) => expected == Some(i as int),
        None => expected is None,
    }
}

/// The value of the first attribute of a node with the given local name.
pub fn attribute(node: &XmlNode, name: &str) -> (r: Option<String>)
    ensures
        crate::text::opt_view(r) == attribute_spec(node@.attributes, name@),
{
    let target = chars_of(name);
    let mut i: usize = 0;
    let ghost all = node@.attributes;
    assert(all.skip(0) =~= all);
    while i < node.attributes.len()
        invariant
            target@ == name@,
            i <= node.attributes@.len(),
            all == node@.attributes,
            attribute_spec(all, name@) == attribute_spec(all.skip(i as int), name@),
        decreases node.attributes@.len() - i,
    {
        let candidate = chars_of(node.attributes[i].name.as_str());
        assert(all.skip(i as int)[0] == node.attributes@[i as int]@);
        if chars_eq(candidate.as_slice(), target.as_slice()) {
            return Some(node.attributes[i].value.clone());
        }
        assert(all.skip(i as int).drop_first() =~= all.skip(i + 1));
        i = i + 1;
    }
    None
}

/// The position of the first element with the given local tag name.
pub fn find_named(nodes: &Vec<XmlNode>, name: &str) -> (r: Option<usize>)
    ensures
        found(r, first_match(nodes_view(nodes@), named(name@), 0)),
        r matches Some(i) ==> i < nodes@.len(),
{
    let target = chars_of(name);
    let ghost ns = nodes_view(nodes@);
    let mut i: usize = 0;
    while i < nodes.len()
        invariant
            target@ == name@,
            ns == nodes_view(nodes@),
            i <= nodes@.len(),
            first_match(ns, named(name@), 0) == first_match(ns, named(name@), i as nat),
        decreases nodes@.len() - i,
    {
        let candidate = chars_of(nodes[i].name.as_str());
        if nodes[i].is_element && chars_eq(candidate.as_slice(), target.as_slice()) {
            return Some(i);
        }
        i = i + 1;
    }
    None
}

/// The position of the first child element of `parent` with the given local tag name.
pub fn find_child_named(nodes: &Vec<XmlNode>, parent: usize, name: &str) -> (r: Option<usize>)
    ensures
        found(r, first_match(nodes_view(nodes@), child_named(parent, name@), 0)),
        r matches Some(i) ==> i < nodes@.len(),
{
    let target = chars_of(name);
    let ghost ns = nodes_view(nodes@);
    let mut i: usize = 0;
    while i < nodes.len()
        invariant
            target@ == name@,
            ns == nodes_view(nodes@),
            i <= nodes@.len(),
            first_match(ns, child_named(parent, name@), 0) == first_match(
                ns,
                child_named(parent, name@),
                i as nat,
            ),
        decreases nodes@.len() - i,
    {
        let candidate = chars_of(nodes[i].name.as_str());
        if nodes[i].is_element && chars_eq(candidate.as_slice(), target.as_slice())
            && nodes[i].parent == Some(parent) {
            return Some(i);
        }
        i = i + 1;
    }
    None
}

/// The position of the first node whose tag has the given namespace and local name.
pub fn find_named_in(nodes: &Vec<XmlNode>, namespace: &str, name: &str) -> (r: Option<usize>)
    ensures
        found(r, first_match(nodes_view(nodes@), named_in(namespace@, name@), 0)),
        r matches Some(i) ==> i < nodes@.len(),
{
    let target = chars_of(name);
    let target_ns = chars_of(namespace);
    let ghost ns = nodes_view(nodes@);
    let mut i: usize = 0;
    while i < nodes.len()
        invariant
            target@ == name@,
            target_ns@ == namespace@,
            ns == nodes_view(nodes@),
            i <= nodes@.len(),
            first_match(ns, named_in(namespace@, name@), 0) == first_match(
                ns,
                named_in(namespace@, name@),
                i as nat,
            ),
        decreases nodes@.len() - i,
    {
        let candidate = chars_of(nodes[i].name.as_str());
        let in_namespace = match &nodes[i].namespace {
            Some(n) => {
                let c = chars_of(n.as_str());
                chars_eq(c.as_slice(), target_ns.as_slice())
            },
            None => false,
        };
        if in_namespace && chars_eq(candidate.as_slice(), target.as_slice()) {
            return Some(i);
        }
        i = i + 1;
    }
    None
}

/// The position of the first node that carries an attribute with the given local name.
pub fn find_with_attribute(nodes: &Vec<XmlNode>, name: &str) -> (r: Option<usize>)
    ensures
        found(r, first_match(nodes_view(nodes@), has_attribute(name@), 0)),
        r matches Some(i) ==> i < nodes@.len(),
{
    let ghost ns = nodes_view(nodes@);
    let mut i: usize = 0;
    while i < nodes.len()
        invariant
            ns == nodes_view(nodes@),
            i <= nodes@.len(),
            first_match(ns, has_attribute(name@), 0) == first_match(
                ns,
                has_attribute(name@),
                i as nat,
            ),
        decreases nodes@.len() - i,
    {
        if attribute(&nodes[i], name).is_some() {
            return Some(i);
        }
        i = i + 1;
    }
    None
}

/// The text of the node at a position found by one of the searches.
pub fn text_at(nodes: &Vec<XmlNode>, at: Option<usize>) -> (r: Option<String>)
    requires
        at matches Some(i) ==> i < nodes@.len(),
    ensures
        crate::text::opt_view(r) == match at {
            Some(i) => nodes_view(nodes@)[i as int].text,
            None => None,
        },
{
    match at {
        Some(i) => crate::text::clone_opt(&nodes[i].text),
        None => None,
    }
}

} // verus!
