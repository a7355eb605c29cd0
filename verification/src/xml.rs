//! In-memory model of the registry document.
//!
//! The decoders work on this tree of plain values.  The only place the
//! underlying XML library appears is in the two trusted functions at the
//! bottom, which decode a text into this model.

use vstd::prelude::*;
use crate::strutil::str_eq;

verus! {

broadcast use vstd::std_specs::vec::group_vec_axioms;

/// One attribute of an element.
pub struct XmlAttr {
    pub name: String,
    pub value: String,
}

/// One node of the document tree.
pub enum XmlNode {
    Element(XmlElement),
    Text(String),
    Comment(String),
}

/// One element, with its attributes and children in document order.
pub struct XmlElement {
    pub name: String,
    pub attrs: Vec<XmlAttr>,
    pub children: Vec<XmlNode>,
}

/// Ghost image of an attribute.
pub struct XmlAttrV {
    pub name: Seq<char>,
    pub value: Seq<char>,
}

/// Ghost image of a node.
pub enum XmlNodeV {
    Element(XmlElementV),
    Text(Seq<char>),
    Comment(Seq<char>),
}

/// Ghost image of an element.
pub struct XmlElementV {
    pub name: Seq<char>,
    pub attrs: Seq<XmlAttrV>,
    pub children: Seq<XmlNodeV>,
}

pub open spec fn view_attr(a: XmlAttr) -> XmlAttrV {
    XmlAttrV { name: a.name@, value: a.value@ }
}

pub open spec fn view_attrs(s: Seq<XmlAttr>) -> Seq<XmlAttrV> {
    Seq::new(s.len(), |i: int| view_attr(s[i]))
}

pub open spec fn view_node(n: XmlNode) -> XmlNodeV
    decreases n, 1nat,
{
    match n {
        XmlNode::Element(e) => XmlNodeV::Element(view_element(e)),
        XmlNode::Text(s) => XmlNodeV::Text(s@),
        XmlNode::Comment(s) => XmlNodeV::Comment(s@),
    }
}

pub open spec fn view_element(e: XmlElement) -> XmlElementV
    decreases e, 0nat,
{
    XmlElementV {
        name: e.name@,
        attrs: view_attrs(e.attrs@),
        children: view_nodes(e.children@),
    }
}

pub open spec fn view_nodes_from(s: Seq<XmlNode>, i: int) -> Seq<XmlNodeV>
    decreases s, s.len() - i, 2nat,
{
    if 0 <= i < s.len() {
        seq![view_node(s[i])] + view_nodes_from(s, i + 1)
    } else {
        Seq::empty()
    }
}

pub open spec fn view_nodes(s: Seq<XmlNode>) -> Seq<XmlNodeV>
    decreases s, s.len() + 1,
{
    view_nodes_from(s, 0)
}

proof fn lemma_view_nodes_from(s: Seq<XmlNode>, i: int)
    requires
        0 <= i <= s.len(),
    ensures
        view_nodes_from(s, i).len() == s.len() - i,
        forall|j: int| i <= j < s.len() ==> view_nodes_from(s, i)[j - i] == view_node(s[j]),
    decreases s.len() - i,
{
    if i < s.len() {
        lemma_view_nodes_from(s, i + 1);
    }
}

/// The ghost image of a node list is the pointwise image of its nodes.
pub broadcast proof fn lemma_view_nodes_props(s: Seq<XmlNode>)
    ensures
        (#[trigger] view_nodes(s)).len() == s.len(),
        forall|i: int| 0 <= i < s.len() ==> view_nodes(s)[i] == view_node(s[i]),
{
    lemma_view_nodes_from(s, 0);
}

impl DeepView for XmlAttr {
    type V = XmlAttrV;

    open spec fn deep_view(&self) -> XmlAttrV {
        view_attr(*self)
    }
}

impl DeepView for XmlNode {
    type V = XmlNodeV;

    open spec fn deep_view(&self) -> XmlNodeV {
        view_node(*self)
    }
}

impl DeepView for XmlElement {
    type V = XmlElementV;

    open spec fn deep_view(&self) -> XmlElementV {
        view_element(*self)
    }
}

/// The text carried by a node: a text or comment node's own content, an
/// element's leading text child.
pub open spec fn spec_node_text(n: XmlNodeV) -> Option<Seq<char>> {
    match n {
        XmlNodeV::Text(s) => Some(s),
        XmlNodeV::Comment(s) => Some(s),
        XmlNodeV::Element(e) => if e.children.len() > 0 {
            match e.children[0] {
                XmlNodeV::Text(s) => Some(s),
                _ => None,
            }
        } else {
            None
        },
    }
}

/// Text carried by a node, as `spec_node_text` describes it.
pub fn node_text<'a>(n: &'a XmlNode) -> (r: Option<&'a String>)
    ensures
        r matches Some(s) ==> spec_node_text(view_node(*n)) == Some(s@),
        r is None ==> spec_node_text(view_node(*n)) is None,
{
    broadcast use lemma_view_nodes_props;

    match n {
        XmlNode::Text(s) => Some(s),
        XmlNode::Comment(s) => Some(s),
        XmlNode::Element(e) => {
            assert(view_node(*n) == XmlNodeV::Element(view_element(*e)));
            assert(view_element(*e).children == view_nodes(e.children@));
            if e.children.len() > 0 {
                assert(view_nodes(e.children@).len() == e.children@.len());
                assert(view_nodes(e.children@)[0] == view_node(e.children@[0]));
                match &e.children[0] {
                    XmlNode::Text(s) => {
                        assert(view_node(e.children@[0]) == XmlNodeV::Text(s@));
                        return Some(s);
                    },
                    _ => {
                        return None;
                    },
                }
            } else {
                return None;
            }
        },
    }
}

/// The value of the first attribute of the given name, scanning in
/// document order.
pub open spec fn spec_attr(attrs: Seq<XmlAttrV>, name: Seq<char>) -> Option<Seq<char>>
    decreases attrs.len(),
{
    if attrs.len() == 0 {
        None
    } else if attrs.first().name == name {
        Some(attrs.first().value)
    } else {
        spec_attr(attrs.drop_first(), name)
    }
}

impl XmlElement {
    /// Looks an attribute up by name.
    pub fn attribute<'a>(&'a self, name: &str) -> (r: Option<&'a String>)
        ensures
            match r {
                Some(v) => spec_attr(self.deep_view().attrs, name@) == Some(v@),
                None => spec_attr(self.deep_view().attrs, name@) is None,
            },
    {
        let ghost full = self.deep_view().attrs;
        proof {
            assert(full.skip(0) =~= full);
        }
        let mut i: usize = 0;
        while i < self.attrs.len()
            invariant
                i <= self.attrs.len(),
                full == self.deep_view().attrs,
                full.len() == self.attrs.len(),
                forall|j: int| 0 <= j < full.len() ==> #[trigger] full[j] == view_attr(self.attrs[j]),
                spec_attr(full, name@) == spec_attr(full.skip(i as int), name@),
            decreases self.attrs.len() - i,
        {
            if str_eq(self.attrs[i].name.as_str(), name) {
                return Some(&self.attrs[i].value);
            }
            proof {
                assert(full.skip(i as int).drop_first() =~= full.skip(i + 1));
            }
            i += 1;
        }
        None
    }

    /// Whether an attribute of the given name is present.
    pub fn has_attribute(&self, name: &str) -> (r: bool)
        ensures
            r == (spec_attr(self.deep_view().attrs, name@) is Some),
    {
        self.attribute(name).is_some()
    }

    /// Number of attributes on the element.
    pub fn attr_count(&self) -> (r: usize)
        ensures
            r == self.deep_view().attrs.len(),
    {
        self.attrs.len()
    }

    /// Number of children of the element.
    pub fn child_count(&self) -> (r: usize)
        ensures
            r == view_element(*self).children.len(),
    {
        proof {
            lemma_view_nodes_props(self.children@);
        }
        self.children.len()
    }

    /// The child at the given position, whose ghost image is the
    /// corresponding entry of the element's image.
    pub fn child_at<'a>(&'a self, i: usize) -> (r: &'a XmlNode)
        requires
            i < view_element(*self).children.len(),
        ensures
            view_node(*r) == view_element(*self).children[i as int],
    {
        proof {
            lemma_view_nodes_props(self.children@);
        }
        &self.children[i]
    }
}

// ---------------------------------------------------------------------------
// Trusted boundary: decoding a text into the model.
// ---------------------------------------------------------------------------

#[verifier::external_type_specification]
#[verifier::external_body]
pub struct ExNode<'a, 'input: 'a>(roxmltree::Node<'a, 'input>);

/// The element tree that the XML decoder yields for a text: the root
/// element of a well-formed document, `None` for a malformed one.
pub uninterp spec fn xml_root_of(text: Seq<char>) -> Option<XmlElementV>;

/// Relies on `roxmltree::Document::parse`: decodes a well-formed XML text
/// into its element tree; the result depends on the text alone.
#[verifier::external_body]
pub fn parse_text(text: &str) -> (r: Option<XmlElement>)
    ensures
        match r {
            Some(e) => xml_root_of(text@) == Some(e.deep_view()),
            None => xml_root_of(text@) is None,
        },
{
    match roxmltree::Document::parse(text) {
        Ok(doc) => Some(convert_element(doc.root_element())),
        Err(_) => None,
    }
}

/// Relies on `roxmltree::Node`'s accessors (`tag_name`, `attributes`,
/// `children`, `node_type`, `text`) to copy one element into the model,
/// variant for variant.
#[verifier::external_body]
fn convert_element(n: roxmltree::Node) -> XmlElement {
    let attrs = n.attributes().map(
        |a| XmlAttr { name: a.name().to_string(), value: a.value().to_string() },
    ).collect();
    let children = n.children().filter_map(|c| match c.node_type() {
        roxmltree::NodeType::Element => Some(XmlNode::Element(convert_element(c))),
        roxmltree::NodeType::Text => Some(XmlNode::Text(c.text().unwrap_or("").to_string())),
        roxmltree::NodeType::Comment => Some(XmlNode::Comment(c.text().unwrap_or("").to_string())),
        _ => None,
    }).collect();
    XmlElement { name: n.tag_name().name().to_string(), attrs, children }
}

} // verus!
