//! The XML tree reader: the one place the library leans on an outside
//! crate. `roxmltree` parses the text; its element tree is copied into
//! [`XmlNode`] values holding local tag names, attributes by local name,
//! each element's immediate text, and element children in document order.
//! Everything downstream of [`parse_tree`] is verified against the tree.

use vstd::prelude::*;
use crate::xml::XmlNode;

verus! {

/// `roxmltree`'s element handle, opaque here: only the trusted copy below
/// walks it.
#[verifier::external_type_specification]
#[verifier::external_body]
pub struct ExNode<'a, 'input: 'a>(roxmltree::Node<'a, 'input>);

/// What parsing a text yields: the element tree under the document root, or
/// the parser's diagnostic where the text is not well-formed XML. Parsing,
/// the tree and the diagnostic alike, is a function of the text alone.
pub uninterp spec fn xml_parse(text: Seq<char>) -> Result<XmlNode, Seq<char>>;

/// Relies on `roxmltree::Node` navigation (`tag_name`, `attributes`,
/// `text`, `children`): copies one element and its descendants into the
/// library's tree, keeping local names and document order.
#[verifier::external_body]
fn node_to_tree(node: &roxmltree::Node) -> XmlNode {
    let mut attrs: Vec<(String, String)> = Vec::new();
    for a in node.attributes() {
        attrs.push((a.name().to_string(), a.value().to_string()));
    }
    let mut children: Vec<XmlNode> = Vec::new();
    for c in node.children().filter(|c| c.is_element()) {
        children.push(node_to_tree(&c));
    }
    let tag = node.tag_name().name().to_string();
    let text = node.text().map(|t| t.to_string());
    XmlNode { tag, attrs, text, children }
}

/// Relies on `roxmltree::Document::parse`: a deterministic function of the
/// text, `Err` exactly on text that is not well-formed XML, carrying the
/// parser's diagnostic, which is itself deterministic formatting of the
/// parse error.
#[verifier::external_body]
pub fn parse_tree(text: &str) -> (r: Result<XmlNode, String>)
    ensures
        match r {
            Ok(root) => xml_parse(text@) == Ok::<XmlNode, Seq<char>>(root),
            Err(m) => xml_parse(text@) == Err::<XmlNode, Seq<char>>(m@),
        },
{
    match roxmltree::Document::parse(text) {
        Ok(doc) => Ok(node_to_tree(&doc.root_element())),
        Err(e) => Err(e.to_string()),
    }
}

} // verus!
