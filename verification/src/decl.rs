//! The declaration grammar: the mixed text/element encoding of a single
//! type-plus-name declaration, used by struct and union members, command
//! parameters and command prototypes.
//!
//! The grammar is
//! `["const "] <type>BASE</type> [PTR-RUN] <name>NAME</name> [ARRAY] [<comment>]`
//! where PTR-RUN is free text made of `*`, spaces and the word `const`,
//! and ARRAY is either the one-token literal bound `[N]` or the three-node
//! symbolic bound `[` `<enum>NAME</enum>` `]`.

use vstd::prelude::*;
use crate::error::{ParseError, ParseErrorV, res_view};
use crate::strutil::{str_eq, all_digits, dec_val, parse_dec_usize};
use crate::xml::{XmlElement, XmlNode, XmlNodeV, node_text, spec_node_text, view_element, view_node};

verus! {

/// A declared C type.  Pointer chains nest arbitrarily and are never
/// collapsed; each node carries its own const/mutable flag.
#[derive(Debug, PartialEq, Eq)]
pub enum Types {
    Pointer(Type),
    Base(String),
    /// bounded array with a literal size, as in `[2]`
    BoundedArrayInt(usize, Type),
    /// bounded array with a named size, as in `[VK_SOMETHING]`
    BoundedArrayStr(String, Type),
}

#[derive(Debug, PartialEq, Eq)]
pub struct Type {
    pub mutable: bool,
    pub ty: Box<Types>,
}

/// One wrapping layer of a type, outermost first.
pub enum TypeLayerV {
    Pointer { mutable: bool },
    ArrayInt { mutable: bool, bound: int },
    ArrayStr { mutable: bool, bound: Seq<char> },
}

/// Ghost image of a `Type`: the chain of wrapping layers, outermost
/// first, around a named base.
pub struct TypeV {
    pub layers: Seq<TypeLayerV>,
    pub base_mutable: bool,
    pub base: Seq<char>,
}

/// Wraps a type image in one more (outermost) layer.
pub open spec fn wrap_layer(l: TypeLayerV, t: TypeV) -> TypeV {
    TypeV { layers: seq![l] + t.layers, ..t }
}

pub open spec fn base_type_v(mutable: bool, name: Seq<char>) -> TypeV {
    TypeV { layers: Seq::empty(), base_mutable: mutable, base: name }
}

pub open spec fn type_view(t: Type) -> TypeV
    decreases t,
{
    match *t.ty {
        Types::Base(name) => base_type_v(t.mutable, name@),
        Types::Pointer(inner) => wrap_layer(
            TypeLayerV::Pointer { mutable: t.mutable },
            type_view(inner),
        ),
        Types::BoundedArrayInt(b, inner) => wrap_layer(
            TypeLayerV::ArrayInt { mutable: t.mutable, bound: b as int },
            type_view(inner),
        ),
        Types::BoundedArrayStr(s, inner) => wrap_layer(
            TypeLayerV::ArrayStr { mutable: t.mutable, bound: s@ },
            type_view(inner),
        ),
    }
}

impl DeepView for Type {
    type V = TypeV;

    open spec fn deep_view(&self) -> TypeV {
        type_view(*self)
    }
}

/// Wraps an owned type in a pointer layer.
pub fn ptr_wrap(mutable: bool, t: Type) -> (r: Type)
    ensures
        type_view(r) == wrap_layer(TypeLayerV::Pointer { mutable }, type_view(t)),
{
    Type { mutable, ty: Box::new(Types::Pointer(t)) }
}

// ---------------------------------------------------------------------------
// The pointer-run scan.
// ---------------------------------------------------------------------------

/// One step short of the grammar: scans the free text between the base
/// type and the name.  A `*` closes the level in progress and opens a new
/// mutable one; `const` immediately after a `*` (spaces allowed between)
/// marks that level immutable; spaces are skipped; anything else is a
/// grammar error.  A level still open at the end is closed once more.
///
/// State: `t` is the type built so far, `m` the mutability of the open
/// level, `pending` whether a level is open, `star` whether a `*` was
/// seen with no `const` consumed since.
pub open spec fn scan_run(
    s: Seq<char>,
    i: int,
    t: TypeV,
    m: bool,
    pending: bool,
    star: bool,
) -> Result<TypeV, ParseErrorV>
    decreases s.len() - i,
{
    if i < 0 || i >= s.len() {
        Ok(
            if pending {
                wrap_layer(TypeLayerV::Pointer { mutable: m }, t)
            } else {
                t
            },
        )
    } else if s[i] == '*' {
        let t2 = if pending {
            wrap_layer(TypeLayerV::Pointer { mutable: m }, t)
        } else {
            t
        };
        scan_run(s, i + 1, t2, true, true, true)
    } else if s[i] == ' ' {
        scan_run(s, i + 1, t, m, pending, star)
    } else if s[i] == 'c' && star && i + 5 <= s.len() && s.subrange(i, i + 5) == "const"@ {
        scan_run(s, i + 5, t, false, pending, false)
    } else {
        Err(ParseErrorV::MalformedGrammar(s))
    }
}

/// Runs the pointer-run scan over a text node's content.
fn run_pointer_scan(run: &String, base: Type) -> (r: Result<Type, ParseError>)
    ensures
        res_view(r) == scan_run(run@, 0, type_view(base), true, false, false),
{
    let ghost s = run@;
    let ghost t0 = type_view(base);
    let len = run.as_str().unicode_len();
    let mut typ = base;
    let mut m: bool = true;
    let mut pending: bool = false;
    let mut star: bool = false;
    let mut i: usize = 0;
    while i < len
        invariant
            len == s.len(),
            i <= len,
            s == run@,
            scan_run(s, i as int, type_view(typ), m, pending, star)
                == scan_run(s, 0, t0, true, false, false),
        decreases len - i,
    {
        let c = run.as_str().get_char(i);
        if c == '*' {
            if pending {
                typ = ptr_wrap(m, typ);
            }
            m = true;
            pending = true;
            star = true;
            i += 1;
        } else if c == ' ' {
            i += 1;
        } else if c == 'c' {
            if !star {
                assert(scan_run(s, i as int, type_view(typ), m, pending, star)
                    == Err::<TypeV, ParseErrorV>(ParseErrorV::MalformedGrammar(s)));
                return Err(ParseError::MalformedGrammar(run.clone()));
            }
            if len - i < 5 {
                return Err(ParseError::MalformedGrammar(run.clone()));
            }
            let sub = run.as_str().substring_char(i, i + 5);
            if !str_eq(sub, "const") {
                return Err(ParseError::MalformedGrammar(run.clone()));
            }
            m = false;
            star = false;
            i += 5;
        } else {
            assert(scan_run(s, i as int, type_view(typ), m, pending, star)
                == Err::<TypeV, ParseErrorV>(ParseErrorV::MalformedGrammar(s)));
            return Err(ParseError::MalformedGrammar(run.clone()));
        }
    }
    if pending {
        typ = ptr_wrap(m, typ);
    }
    Ok(typ)
}

// ---------------------------------------------------------------------------
// The declaration grammar, step by step.
// ---------------------------------------------------------------------------

/// Step one: an optional leading text node sets the base constness.
/// Yields the index of the expected `<type>` element and the base
/// mutability.
pub open spec fn spec_leading(children: Seq<XmlNodeV>) -> Result<(int, bool), ParseErrorV> {
    if children.len() == 0 {
        Err(ParseErrorV::MissingElement("type"@))
    } else {
        match children[0] {
            XmlNodeV::Text(t) => {
                if t == "const "@ || t == "const struct "@ {
                    if children.len() > 1 {
                        Ok((1, false))
                    } else {
                        Err(ParseErrorV::MissingElement("type"@))
                    }
                } else if t == "struct "@ {
                    if children.len() > 1 {
                        Ok((1, true))
                    } else {
                        Err(ParseErrorV::MissingElement("type"@))
                    }
                } else {
                    Err(ParseErrorV::MalformedGrammar(t))
                }
            },
            _ => Ok((0, true)),
        }
    }
}

/// Step two: the `<type>` element whose text child names the base type.
pub open spec fn spec_base(
    children: Seq<XmlNodeV>,
    i: int,
    m: bool,
) -> Result<TypeV, ParseErrorV>
    recommends
        0 <= i < children.len(),
{
    match children[i] {
        XmlNodeV::Element(te) => {
            if te.name == "type"@ {
                match spec_node_text(children[i]) {
                    Some(base) => Ok(base_type_v(m, base)),
                    None => Err(ParseErrorV::MissingElement("type"@)),
                }
            } else {
                Err(ParseErrorV::UnexpectedElement(te.name))
            }
        },
        XmlNodeV::Text(t) => Err(ParseErrorV::MalformedGrammar(t)),
        XmlNodeV::Comment(t) => Err(ParseErrorV::MalformedGrammar(t)),
    }
}

/// Steps three and four: an optional pointer run, then the `<name>`
/// element.  Yields the finished type, the name, and the index of the
/// first node after the name.
pub open spec fn spec_name_part(
    children: Seq<XmlNodeV>,
    i: int,
    t: TypeV,
) -> Result<(TypeV, Seq<char>, int), ParseErrorV>
    recommends
        0 <= i,
{
    if i >= children.len() {
        Err(ParseErrorV::MissingElement("name"@))
    } else {
        match children[i] {
            XmlNodeV::Text(run) => match scan_run(run, 0, t, true, false, false) {
                Ok(t2) => spec_name_at(children, i + 1, t2),
                Err(e) => Err(e),
            },
            _ => spec_name_at(children, i, t),
        }
    }
}

/// The `<name>` element itself.
pub open spec fn spec_name_at(
    children: Seq<XmlNodeV>,
    i: int,
    t: TypeV,
) -> Result<(TypeV, Seq<char>, int), ParseErrorV> {
    if i >= children.len() {
        Err(ParseErrorV::MissingElement("name"@))
    } else {
        match children[i] {
            XmlNodeV::Element(ne) => {
                if ne.name == "name"@ {
                    match spec_node_text(children[i]) {
                        Some(nm) => Ok((t, nm, i + 1)),
                        None => Err(ParseErrorV::MissingElement("name"@)),
                    }
                } else {
                    Err(ParseErrorV::UnexpectedElement(ne.name))
                }
            },
            XmlNodeV::Text(t2) => Err(ParseErrorV::MalformedGrammar(t2)),
            XmlNodeV::Comment(t2) => Err(ParseErrorV::MalformedGrammar(t2)),
        }
    }
}

/// Step five: an optional array bound after the name.  A lone `[` opens a
/// symbolic bound whose name is the next sibling's text, closed by `]`;
/// a one-token `[digits]` is a literal bound.
pub open spec fn spec_array_part(
    children: Seq<XmlNodeV>,
    i: int,
    t: TypeV,
    nm: Seq<char>,
) -> Result<(TypeV, Seq<char>), ParseErrorV> {
    if i < children.len() && !(children[i] is Element) {
        let open = match children[i] {
            XmlNodeV::Text(s) => s,
            XmlNodeV::Comment(s) => s,
            XmlNodeV::Element(_) => Seq::empty(),
        };
        if open.len() == 1 {
            if open != "["@ {
                Err(ParseErrorV::MalformedGrammar(open))
            } else if i + 1 >= children.len() {
                Err(ParseErrorV::MissingElement("array size"@))
            } else {
                match spec_node_text(children[i + 1]) {
                    None => Err(ParseErrorV::MissingElement("array size"@)),
                    Some(sym) => {
                        if i + 2 >= children.len() {
                            Err(ParseErrorV::MissingElement("]"@))
                        } else {
                            match spec_node_text(children[i + 2]) {
                                None => Err(ParseErrorV::MissingElement("]"@)),
                                Some(close) => {
                                    if close != "]"@ {
                                        Err(ParseErrorV::MalformedGrammar(close))
                                    } else {
                                        spec_trailing(
                                            children,
                                            i + 3,
                                            wrap_layer(
                                                TypeLayerV::ArrayStr { mutable: true, bound: sym },
                                                t,
                                            ),
                                            nm,
                                        )
                                    }
                                },
                            }
                        }
                    },
                }
            }
        } else if open.len() >= 2 && open.first() == '[' && open.last() == ']' {
            let mid = open.subrange(1, open.len() - 1);
            if mid.len() > 0 && all_digits(mid) && dec_val(mid) <= usize::MAX {
                spec_trailing(
                    children,
                    i + 1,
                    wrap_layer(
                        TypeLayerV::ArrayInt { mutable: true, bound: dec_val(mid) as int },
                        t,
                    ),
                    nm,
                )
            } else {
                Err(ParseErrorV::MalformedNumeric(mid))
            }
        } else {
            Err(ParseErrorV::MalformedGrammar(open))
        }
    } else {
        spec_trailing(children, i, t, nm)
    }
}

/// Step six: at most one trailing node may remain, and a trailing element
/// must be a `<comment>`.
pub open spec fn spec_trailing(
    children: Seq<XmlNodeV>,
    i: int,
    t: TypeV,
    nm: Seq<char>,
) -> Result<(TypeV, Seq<char>), ParseErrorV> {
    if i >= children.len() {
        Ok((t, nm))
    } else {
        let more_ok = if i + 1 >= children.len() {
            Ok((t, nm))
        } else {
            Err(ParseErrorV::UnexpectedElement("child"@))
        };
        match children[i] {
            XmlNodeV::Element(ce) => {
                if ce.name == "comment"@ {
                    more_ok
                } else {
                    Err(ParseErrorV::UnexpectedElement(ce.name))
                }
            },
            _ => more_ok,
        }
    }
}

/// The whole declaration grammar over an element's children.
pub open spec fn spec_decl(children: Seq<XmlNodeV>) -> Result<(TypeV, Seq<char>), ParseErrorV> {
    match spec_leading(children) {
        Err(e) => Err(e),
        Ok((i, m)) => match spec_base(children, i, m) {
            Err(e) => Err(e),
            Ok(base) => match spec_name_part(children, i + 1, base) {
                Err(e) => Err(e),
                Ok((t, nm, j)) => spec_array_part(children, j, t, nm),
            },
        },
    }
}

/// Decodes the type and name of one member, parameter or prototype from
/// the mixed text/element grammar of the element's children.
pub fn get_type_and_name(e: &XmlElement) -> (r: Result<(Type, String), ParseError>)
    ensures
        res_view(r) == spec_decl(view_element(*e).children),
{
    let ghost cv = view_element(*e).children;
    let n = e.child_count();

    // step one: optional leading constness text
    if n == 0 {
        return Err(ParseError::MissingElement(String::from_str("type")));
    }
    let mut idx: usize = 0;
    let mut base_mut: bool = true;
    match e.child_at(0) {
        XmlNode::Text(t) => {
            if str_eq(t.as_str(), "const ") || str_eq(t.as_str(), "const struct ") {
                base_mut = false;
            } else if str_eq(t.as_str(), "struct ") {
                base_mut = true;
            } else {
                return Err(ParseError::MalformedGrammar(t.clone()));
            }
            if n < 2 {
                return Err(ParseError::MissingElement(String::from_str("type")));
            }
            idx = 1;
        },
        _ => {},
    }
    assert(spec_leading(cv) == Ok::<_, ParseErrorV>((idx as int, base_mut)));

    // step two: the <type> element with the base name
    let base_name: String = match e.child_at(idx) {
        XmlNode::Element(te) => {
            if !str_eq(te.name.as_str(), "type") {
                return Err(ParseError::UnexpectedElement(te.name.clone()));
            }
            match node_text(e.child_at(idx)) {
                Some(s) => s.clone(),
                None => {
                    return Err(ParseError::MissingElement(String::from_str("type")));
                },
            }
        },
        XmlNode::Text(t) => {
            return Err(ParseError::MalformedGrammar(t.clone()));
        },
        XmlNode::Comment(t) => {
            return Err(ParseError::MalformedGrammar(t.clone()));
        },
    };
    let mut typ = Type { mutable: base_mut, ty: Box::new(Types::Base(base_name)) };
    assert(spec_base(cv, idx as int, base_mut) == Ok::<_, ParseErrorV>(type_view(typ)));

    // step three: the optional pointer run
    idx = idx + 1;
    if idx >= n {
        return Err(ParseError::MissingElement(String::from_str("name")));
    }
    let ghost run_idx = idx as int;
    let ghost base_v = type_view(typ);
    match e.child_at(idx) {
        XmlNode::Text(run) => {
            match run_pointer_scan(run, typ) {
                Ok(t2) => {
                    typ = t2;
                },
                Err(er) => {
                    return Err(er);
                },
            }
            idx = idx + 1;
        },
        _ => {},
    }
    assert(spec_name_part(cv, run_idx, base_v)
        == spec_name_at(cv, idx as int, type_view(typ)));

    // step four: the <name> element
    if idx >= n {
        return Err(ParseError::MissingElement(String::from_str("name")));
    }
    let name: String = match e.child_at(idx) {
        XmlNode::Element(ne) => {
            if !str_eq(ne.name.as_str(), "name") {
                return Err(ParseError::UnexpectedElement(ne.name.clone()));
            }
            match node_text(e.child_at(idx)) {
                Some(s) => s.clone(),
                None => {
                    return Err(ParseError::MissingElement(String::from_str("name")));
                },
            }
        },
        XmlNode::Text(t) => {
            return Err(ParseError::MalformedGrammar(t.clone()));
        },
        XmlNode::Comment(t) => {
            return Err(ParseError::MalformedGrammar(t.clone()));
        },
    };
    idx = idx + 1;
    assert(spec_decl(cv) == spec_array_part(cv, idx as int, type_view(typ), name@));

    // step five: the optional array bound
    let ghost arr_idx = idx as int;
    let ghost arr_t = type_view(typ);
    if idx < n {
        let is_elem = match e.child_at(idx) {
            XmlNode::Element(_) => true,
            _ => false,
        };
        if !is_elem {
            let open: &String = match e.child_at(idx) {
                XmlNode::Text(s) => s,
                XmlNode::Comment(s) => s,
                XmlNode::Element(_) => {
                    return Err(ParseError::MissingElement(String::from_str("array")));
                },
            };
            if open.as_str().unicode_len() == 1 {
                if !str_eq(open.as_str(), "[") {
                    return Err(ParseError::MalformedGrammar(open.clone()));
                }
                if idx + 1 >= n {
                    return Err(ParseError::MissingElement(String::from_str("array size")));
                }
                let sym: String = match node_text(e.child_at(idx + 1)) {
                    None => {
                        return Err(ParseError::MissingElement(String::from_str("array size")));
                    },
                    Some(s) => s.clone(),
                };
                if idx + 2 >= n {
                    return Err(ParseError::MissingElement(String::from_str("]")));
                }
                match node_text(e.child_at(idx + 2)) {
                    None => {
                        return Err(ParseError::MissingElement(String::from_str("]")));
                    },
                    Some(close) => {
                        if !str_eq(close.as_str(), "]") {
                            return Err(ParseError::MalformedGrammar(close.clone()));
                        }
                    },
                }
                typ = Type { mutable: true, ty: Box::new(Types::BoundedArrayStr(sym, typ)) };
                idx = idx + 3;
            } else {
                let olen = open.as_str().unicode_len();
                if !(olen >= 2 && open.as_str().get_char(0) == '['
                    && open.as_str().get_char(olen - 1) == ']') {
                    return Err(ParseError::MalformedGrammar(open.clone()));
                }
                let mid = open.as_str().substring_char(1, olen - 1);
                match parse_dec_usize(mid) {
                    Some(b) => {
                        typ = Type { mutable: true, ty: Box::new(Types::BoundedArrayInt(b, typ)) };
                        idx = idx + 1;
                    },
                    None => {
                        return Err(ParseError::MalformedNumeric(String::from_str(mid)));
                    },
                }
            }
        }
    }
    assert(spec_decl(cv) == spec_trailing(cv, idx as int, type_view(typ), name@));

    // step six: at most one trailing comment or text node
    if idx < n {
        match e.child_at(idx) {
            XmlNode::Element(ce) => {
                if !str_eq(ce.name.as_str(), "comment") {
                    return Err(ParseError::UnexpectedElement(ce.name.clone()));
                }
            },
            _ => {},
        }
        if idx + 1 < n {
            return Err(ParseError::UnexpectedElement(String::from_str("child")));
        }
    }
    Ok((typ, name))
}

} // verus!
