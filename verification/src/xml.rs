//! Reading and writing the text form of XML elements, through the `elementtree` crate.
use vstd::prelude::*;
use crate::element::{Attr, XmlElement, ElementView, NsPrefix, QualName};

verus! {

#[verifier::external_type_specification]
#[verifier::external_body]
pub struct ExTree(elementtree::Element);

/// What `elementtree::Element::from_reader` reads out of a text: the element tree, or
/// nothing when the text is not a well-formed XML document.
pub uninterp spec fn xml_parse(text: Seq<char>) -> Option<ElementView>;

/// What `elementtree::Element::to_writer_with_options`, without XML prolog, writes for an
/// element tree.
pub uninterp spec fn xml_text(e: ElementView) -> Seq<char>;

/// Parses a text with `elementtree::Element::from_reader`. The contract claims only that
/// the result is the parse of the text, named by `xml_parse`; the conversion of the tree
/// into an `XmlElement` is a field-by-field copy.
#[verifier::external_body]
pub fn parse_xml(text: &str) -> (r: Option<XmlElement>)
    ensures
        match r {
            Some(e) => xml_parse(text@) == Some(e@),
            None => xml_parse(text@) is None,
        },
{
    match elementtree::Element::from_reader(text.as_bytes()) {
        Ok(tree) => Some(tree_to_element(&tree)),
        Err(_) => None,
    }
}

/// Writes an element with `elementtree::Element::to_writer_with_options`, without XML
/// prolog. The contract claims only that the result is the text named by `xml_text`.
#[verifier::external_body]
pub fn write_xml(e: &XmlElement) -> (r: String)
    ensures
        r@ == xml_text(e@),
{
    let tree = element_to_tree(e, None);
    let mut out: Vec<u8> = Vec::new();
    let options = elementtree::WriteOptions::new().set_xml_prolog(None);
    match tree.to_writer_with_options(&mut out, options) {
        Ok(()) => String::from_utf8_lossy(&out).into_owned(),
        Err(_) => String::new(),
    }
}

/// What `elementtree::Element::get_namespace_prefix` answers, on the root read out of a
/// text, for the namespace `url`: whether a prefix is registered for it.
pub uninterp spec fn xml_root_declares(text: Seq<char>, url: Seq<char>) -> bool;

/// Parses a text with `elementtree::Element::from_reader` and asks the root, with
/// `get_namespace_prefix`, whether the namespace `url` has a prefix. The contract claims that
/// the answer is there exactly when the text parses, and is the one named by
/// `xml_root_declares`.
#[verifier::external_body]
pub fn root_declares_namespace(text: &str, url: &str) -> (r: Option<bool>)
    ensures
        match r {
            Some(b) => xml_parse(text@) is Some && b == xml_root_declares(text@, url@),
            None => xml_parse(text@) is None,
        },
{
    match elementtree::Element::from_reader(text.as_bytes()) {
        Ok(tree) => Some(tree.get_namespace_prefix(url).is_some()),
        Err(_) => None,
    }
}

/// Copies an `elementtree` tree into an `XmlElement`, field by field.
#[verifier::external_body]
fn tree_to_element(tree: &elementtree::Element) -> XmlElement {
    XmlElement {
        tag: QualName { ns: tree.tag().ns().map(|s| s.to_string()), name: tree.tag().name().to_string() },
        origin: None,
        attrs: tree.attrs().map(|(k, v)| Attr {
            name: QualName { ns: k.ns().map(|s| s.to_string()), name: k.name().to_string() },
            value: v.to_string(),
        }).collect(),
        children: tree.children().map(tree_to_element).collect(),
        text: tree.text().to_string(),
        tail: tree.tail().to_string(),
        prefixes: Vec::<NsPrefix>::new(),
    }
}

/// Copies an `XmlElement`, without its children, into an `elementtree` node: created with
/// the tag it was made with (sharing the namespace prefixes of `parent`), given its own
/// prefixes, renamed to its tag, with its attributes, text and tail.
#[verifier::external_body]
fn tree_node(e: &XmlElement, parent: Option<&elementtree::Element>) -> elementtree::Element {
    let first = e.origin.as_ref().unwrap_or(&e.tag);
    let tag = elementtree::QName::from_ns_name(first.ns.as_deref(), first.name.as_str());
    let mut tree = match parent {
        Some(p) => elementtree::Element::new_with_namespaces(&tag, p),
        None => elementtree::Element::new(&tag),
    };
    e.prefixes.iter().for_each(|p| { let _ = tree.set_namespace_prefix(p.url.as_str(), p.prefix.as_str()); });
    tree.set_tag(&elementtree::QName::from_ns_name(e.tag.ns.as_deref(), e.tag.name.as_str()));
    set_tree_attrs(&mut tree, &e.attrs);
    tree.set_text(e.text.as_str()).set_tail(e.tail.as_str());
    tree
}

/// Sets the attributes of an `elementtree` node, one by one.
#[verifier::external_body]
fn set_tree_attrs(tree: &mut elementtree::Element, attrs: &Vec<Attr>) {
    for a in attrs.iter() {
        tree.set_attr(&elementtree::QName::from_ns_name(a.name.ns.as_deref(), a.name.name.as_str()), a.value.as_str());
    }
}

/// Copies an `XmlElement` into an `elementtree` tree, node by node; children share the
/// namespace prefixes of their parent, as `append_new_child` does.
#[verifier::external_body]
fn element_to_tree(e: &XmlElement, parent: Option<&elementtree::Element>) -> elementtree::Element {
    let mut tree = tree_node(e, parent);
    let children: Vec<elementtree::Element> = e.children.iter().map(|c| element_to_tree(c, Some(&tree))).collect();
    children.into_iter().for_each(|c| { tree.append_child(c); });
    tree
}

} // verus!
