//! Per-category decoders: each turns one element of the document model
//! into a typed record, or into the error that halts the run.
//!
//! Every decoder has a ghost mirror (`spec_*`) over the element's ghost
//! image; the executable decoder returns exactly what its mirror says,
//! for every input.

use vstd::prelude::*;
use crate::error::{ParseError, ParseErrorV, res_view};
use crate::strutil::{str_eq, str_contains, contains_seq, all_digits, dec_val, parse_dec_usize,
    vec_deep_view_push, split_ws, str_split_ws, trim_end_ws, str_trim_end_ws};
use crate::xml::{
    XmlElement, XmlNode, XmlNodeV, XmlElementV, node_text, spec_node_text, spec_attr,
    view_element, view_node,
};
use crate::decl::{get_type_and_name, spec_decl};
use crate::records::{
    PlatformDefinition, PlatformDefinitionV, TagDefinition, TagDefinitionV, Typedef, TypedefV,
    Handle, HandleV, EnumMember, EnumMemberV, EnumType, Enum, EnumV, FunctionPointer,
    FunctionPointerV, Member, MemberV, Struct,
    StructV, Union, UnionV, CommandProto, CommandProtoV, CommandParam, CommandParamV, Command,
    CommandV, EnumRequire, EnumRequireV, Require, RequireV, Feature, FeatureV, Extension,
    ExtensionV,
};

verus! {

// ---------------------------------------------------------------------------
// Attribute helpers.
// ---------------------------------------------------------------------------

/// A required attribute: its value, or `MissingAttribute` with its name.
pub open spec fn spec_expect_attr(e: XmlElementV, name: Seq<char>) -> Result<
    Seq<char>,
    ParseErrorV,
> {
    match spec_attr(e.attrs, name) {
        Some(v) => Ok(v),
        None => Err(ParseErrorV::MissingAttribute(name)),
    }
}

pub fn expect_attr(e: &XmlElement, name: &str) -> (r: Result<String, ParseError>)
    ensures
        res_view(r) == spec_expect_attr(view_element(*e), name@),
{
    match e.attribute(name) {
        Some(v) => Ok(v.clone()),
        None => Err(ParseError::MissingAttribute(String::from_str(name))),
    }
}

/// An optional attribute, cloned out of the element.
pub fn opt_attr(e: &XmlElement, name: &str) -> (r: Option<String>)
    ensures
        r.deep_view() == spec_attr(view_element(*e).attrs, name@),
{
    match e.attribute(name) {
        Some(v) => Some(v.clone()),
        None => None,
    }
}

/// A boolean attribute: absent means false, anything but `true`/`false`
/// is an error naming the attribute.
pub open spec fn spec_bool_attr(e: XmlElementV, name: Seq<char>) -> Result<bool, ParseErrorV> {
    match spec_attr(e.attrs, name) {
        None => Ok(false),
        Some(v) => if v == "true"@ {
            Ok(true)
        } else if v == "false"@ {
            Ok(false)
        } else {
            Err(ParseErrorV::MalformedGrammar(name))
        },
    }
}

pub fn get_bool_attr(e: &XmlElement, name: &str) -> (r: Result<bool, ParseError>)
    ensures
        res_view(r) == spec_bool_attr(view_element(*e), name@),
{
    match e.attribute(name) {
        None => Ok(false),
        Some(v) => {
            if str_eq(v.as_str(), "true") {
                Ok(true)
            } else if str_eq(v.as_str(), "false") {
                Ok(false)
            } else {
                Err(ParseError::MalformedGrammar(String::from_str(name)))
            }
        },
    }
}

/// The text of a wrapper element that must hold exactly one (text) child,
/// as `<type>` and `<name>` do in typedef and handle declarations.
pub open spec fn spec_only_text(n: XmlNodeV, what: Seq<char>) -> Result<Seq<char>, ParseErrorV> {
    match n {
        XmlNodeV::Element(e) => {
            if e.children.len() == 0 {
                Err(ParseErrorV::MissingElement(what))
            } else if e.children.len() > 1 {
                Err(ParseErrorV::UnexpectedElement(what))
            } else {
                match spec_node_text(e.children[0]) {
                    Some(t) => Ok(t),
                    None => Err(ParseErrorV::MissingElement(what)),
                }
            }
        },
        _ => Err(ParseErrorV::MissingElement(what)),
    }
}

pub fn only_text(n: &XmlNode, what: &str) -> (r: Result<String, ParseError>)
    ensures
        res_view(r) == spec_only_text(view_node(*n), what@),
{
    match n {
        XmlNode::Element(e) => {
            let cnt = e.child_count();
            if cnt == 0 {
                Err(ParseError::MissingElement(String::from_str(what)))
            } else if cnt > 1 {
                Err(ParseError::UnexpectedElement(String::from_str(what)))
            } else {
                match node_text(e.child_at(0)) {
                    Some(t) => Ok(t.clone()),
                    None => Err(ParseError::MissingElement(String::from_str(what))),
                }
            }
        },
        _ => Err(ParseError::MissingElement(String::from_str(what))),
    }
}

// ---------------------------------------------------------------------------
// Platforms and tags.
// ---------------------------------------------------------------------------

/// A platform entry is its three required attributes.
pub open spec fn spec_platform(e: XmlElementV) -> Result<PlatformDefinitionV, ParseErrorV> {
    match spec_expect_attr(e, "name"@) {
        Err(er) => Err(er),
        Ok(name) => match spec_expect_attr(e, "protect"@) {
            Err(er) => Err(er),
            Ok(protect) => match spec_expect_attr(e, "comment"@) {
                Err(er) => Err(er),
                Ok(comment) => Ok(PlatformDefinitionV { name, protect, comment }),
            },
        },
    }
}

/// Decodes one `<platform>` entry.
pub fn decode_platform(e: &XmlElement) -> (r: Result<PlatformDefinition, ParseError>)
    ensures
        res_view(r) == spec_platform(view_element(*e)),
{
    let name = match expect_attr(e, "name") {
        Ok(v) => v,
        Err(er) => {
            return Err(er);
        },
    };
    let protect = match expect_attr(e, "protect") {
        Ok(v) => v,
        Err(er) => {
            return Err(er);
        },
    };
    let comment = match expect_attr(e, "comment") {
        Ok(v) => v,
        Err(er) => {
            return Err(er);
        },
    };
    Ok(PlatformDefinition { name, protect, comment })
}

/// A vendor tag entry is its three required attributes.
pub open spec fn spec_tag(e: XmlElementV) -> Result<TagDefinitionV, ParseErrorV> {
    match spec_expect_attr(e, "name"@) {
        Err(er) => Err(er),
        Ok(name) => match spec_expect_attr(e, "author"@) {
            Err(er) => Err(er),
            Ok(author) => match spec_expect_attr(e, "contact"@) {
                Err(er) => Err(er),
                Ok(contact) => Ok(TagDefinitionV { name, author, contact }),
            },
        },
    }
}

/// Decodes one `<tag>` entry.
pub fn decode_tag(e: &XmlElement) -> (r: Result<TagDefinition, ParseError>)
    ensures
        res_view(r) == spec_tag(view_element(*e)),
{
    let name = match expect_attr(e, "name") {
        Ok(v) => v,
        Err(er) => {
            return Err(er);
        },
    };
    let author = match expect_attr(e, "author") {
        Ok(v) => v,
        Err(er) => {
            return Err(er);
        },
    };
    let contact = match expect_attr(e, "contact") {
        Ok(v) => v,
        Err(er) => {
            return Err(er);
        },
    };
    Ok(TagDefinition { name, author, contact })
}

// ---------------------------------------------------------------------------
// Typedefs.
// ---------------------------------------------------------------------------

/// A typedef's children read
/// `typedef <type>BASE</type> ALIAS ;` with the literal texts checked.
pub open spec fn spec_typedef(e: XmlElementV) -> Result<TypedefV, ParseErrorV> {
    let c = e.children;
    if c.len() == 0 {
        Err(ParseErrorV::MissingElement("typedef"@))
    } else if spec_node_text(c[0]) != Some("typedef "@) {
        Err(ParseErrorV::MalformedGrammar("typedef"@))
    } else if c.len() < 2 {
        Err(ParseErrorV::MissingElement("type"@))
    } else {
        let base = match c[1] {
            XmlNodeV::Element(te) => {
                if te.name == "type"@ {
                    spec_only_text(c[1], "type"@)
                } else {
                    Err(ParseErrorV::UnexpectedElement(te.name))
                }
            },
            _ => Err(ParseErrorV::UnexpectedElement("type"@)),
        };
        match base {
            Err(er) => Err(er),
            Ok(basetype) => {
                if c.len() < 4 {
                    Err(ParseErrorV::MissingElement("name"@))
                } else {
                    match spec_node_text(c[3]) {
                        None => Err(ParseErrorV::MissingElement("name"@)),
                        Some(alias) => {
                            if c.len() < 5 {
                                Err(ParseErrorV::MissingElement(";"@))
                            } else if spec_node_text(c[4]) != Some(";"@) {
                                Err(ParseErrorV::MalformedGrammar(";"@))
                            } else if c.len() > 5 {
                                Err(ParseErrorV::UnexpectedElement("child"@))
                            } else {
                                Ok(TypedefV { basetype, alias })
                            }
                        },
                    }
                }
            },
        }
    }
}

/// Decodes a `basetype` or `bitmask` typedef declaration.
pub fn decode_typedef(e: &XmlElement) -> (r: Result<Typedef, ParseError>)
    ensures
        res_view(r) == spec_typedef(view_element(*e)),
{
    let n = e.child_count();
    if n == 0 {
        return Err(ParseError::MissingElement(String::from_str("typedef")));
    }
    match node_text(e.child_at(0)) {
        Some(t) => {
            if !str_eq(t.as_str(), "typedef ") {
                return Err(ParseError::MalformedGrammar(String::from_str("typedef")));
            }
        },
        None => {
            return Err(ParseError::MalformedGrammar(String::from_str("typedef")));
        },
    }
    if n < 2 {
        return Err(ParseError::MissingElement(String::from_str("type")));
    }
    let basetype = match e.child_at(1) {
        XmlNode::Element(te) => {
            if !str_eq(te.name.as_str(), "type") {
                return Err(ParseError::UnexpectedElement(te.name.clone()));
            }
            match only_text(e.child_at(1), "type") {
                Ok(v) => v,
                Err(er) => {
                    return Err(er);
                },
            }
        },
        _ => {
            return Err(ParseError::UnexpectedElement(String::from_str("type")));
        },
    };
    if n < 4 {
        return Err(ParseError::MissingElement(String::from_str("name")));
    }
    let alias = match node_text(e.child_at(3)) {
        None => {
            return Err(ParseError::MissingElement(String::from_str("name")));
        },
        Some(v) => v.clone(),
    };
    if n < 5 {
        return Err(ParseError::MissingElement(String::from_str(";")));
    }
    match node_text(e.child_at(4)) {
        Some(t) => {
            if !str_eq(t.as_str(), ";") {
                return Err(ParseError::MalformedGrammar(String::from_str(";")));
            }
        },
        None => {
            return Err(ParseError::MalformedGrammar(String::from_str(";")));
        },
    }
    if n > 5 {
        return Err(ParseError::UnexpectedElement(String::from_str("child")));
    }
    Ok(Typedef { basetype, alias })
}

// ---------------------------------------------------------------------------
// Handles.
// ---------------------------------------------------------------------------

/// A handle's children read `<type>MACRO</type> ( <name>NAME</name> )`;
/// the handle is non-dispatchable exactly when MACRO holds the
/// non-dispatchable marker.
pub open spec fn spec_handle(e: XmlElementV) -> Result<HandleV, ParseErrorV> {
    let c = e.children;
    if c.len() == 0 {
        Err(ParseErrorV::MissingElement("type"@))
    } else {
        let macro_txt = match c[0] {
            XmlNodeV::Element(te) => {
                if te.name == "type"@ {
                    spec_only_text(c[0], "type"@)
                } else {
                    Err(ParseErrorV::UnexpectedElement(te.name))
                }
            },
            _ => Err(ParseErrorV::UnexpectedElement("type"@)),
        };
        match macro_txt {
            Err(er) => Err(er),
            Ok(marker) => {
                if c.len() < 2 {
                    Err(ParseErrorV::MissingElement("("@))
                } else if spec_node_text(c[1]) != Some("("@) {
                    Err(ParseErrorV::MalformedGrammar("("@))
                } else if c.len() < 3 {
                    Err(ParseErrorV::MissingElement("name"@))
                } else {
                    let nm = match c[2] {
                        XmlNodeV::Element(ne) => {
                            if ne.name == "name"@ {
                                spec_only_text(c[2], "name"@)
                            } else {
                                Err(ParseErrorV::UnexpectedElement(ne.name))
                            }
                        },
                        _ => Err(ParseErrorV::UnexpectedElement("name"@)),
                    };
                    match nm {
                        Err(er) => Err(er),
                        Ok(name) => {
                            if c.len() < 4 {
                                Err(ParseErrorV::MissingElement(")"@))
                            } else if spec_node_text(c[3]) != Some(")"@) {
                                Err(ParseErrorV::MalformedGrammar(")"@))
                            } else if c.len() > 4 {
                                Err(ParseErrorV::UnexpectedElement("child"@))
                            } else {
                                Ok(HandleV {
                                    parent: spec_attr(e.attrs, "parent"@),
                                    is_dispatch: !contains_seq(marker, "NON_DISPATCH"@),
                                    name,
                                })
                            }
                        },
                    }
                }
            },
        }
    }
}

/// Decodes one handle declaration.
pub fn decode_handle(e: &XmlElement) -> (r: Result<Handle, ParseError>)
    ensures
        res_view(r) == spec_handle(view_element(*e)),
{
    let n = e.child_count();
    if n == 0 {
        return Err(ParseError::MissingElement(String::from_str("type")));
    }
    let marker = match e.child_at(0) {
        XmlNode::Element(te) => {
            if !str_eq(te.name.as_str(), "type") {
                return Err(ParseError::UnexpectedElement(te.name.clone()));
            }
            match only_text(e.child_at(0), "type") {
                Ok(v) => v,
                Err(er) => {
                    return Err(er);
                },
            }
        },
        _ => {
            return Err(ParseError::UnexpectedElement(String::from_str("type")));
        },
    };
    if n < 2 {
        return Err(ParseError::MissingElement(String::from_str("(")));
    }
    match node_text(e.child_at(1)) {
        Some(t) => {
            if !str_eq(t.as_str(), "(") {
                return Err(ParseError::MalformedGrammar(String::from_str("(")));
            }
        },
        None => {
            return Err(ParseError::MalformedGrammar(String::from_str("(")));
        },
    }
    if n < 3 {
        return Err(ParseError::MissingElement(String::from_str("name")));
    }
    let name = match e.child_at(2) {
        XmlNode::Element(ne) => {
            if !str_eq(ne.name.as_str(), "name") {
                return Err(ParseError::UnexpectedElement(ne.name.clone()));
            }
            match only_text(e.child_at(2), "name") {
                Ok(v) => v,
                Err(er) => {
                    return Err(er);
                },
            }
        },
        _ => {
            return Err(ParseError::UnexpectedElement(String::from_str("name")));
        },
    };
    if n < 4 {
        return Err(ParseError::MissingElement(String::from_str(")")));
    }
    match node_text(e.child_at(3)) {
        Some(t) => {
            if !str_eq(t.as_str(), ")") {
                return Err(ParseError::MalformedGrammar(String::from_str(")")));
            }
        },
        None => {
            return Err(ParseError::MalformedGrammar(String::from_str(")")));
        },
    }
    if n > 4 {
        return Err(ParseError::UnexpectedElement(String::from_str("child")));
    }
    let is_non_dispatch = str_contains(marker.as_str(), "NON_DISPATCH");
    Ok(Handle { parent: opt_attr(e, "parent"), is_dispatch: !is_non_dispatch, name })
}

// ---------------------------------------------------------------------------
// Enumerants and enums sections.
// ---------------------------------------------------------------------------

/// One `<enum>` enumerant: exactly one of the `value`, `bitpos` and
/// `alias` attributes must be present.
pub open spec fn spec_enum_member(e: XmlElementV) -> Result<EnumMemberV, ParseErrorV> {
    match spec_expect_attr(e, "name"@) {
        Err(er) => Err(er),
        Ok(name) => {
            let value = spec_attr(e.attrs, "value"@);
            let bitpos = spec_attr(e.attrs, "bitpos"@);
            let alias = spec_attr(e.attrs, "alias"@);
            match (value, bitpos, alias) {
                (Some(v), None, None) => Ok(EnumMemberV::Value(name, v)),
                (None, Some(b), None) => {
                    if b.len() > 0 && all_digits(b) && dec_val(b) <= usize::MAX {
                        Ok(EnumMemberV::BitPos(name, dec_val(b) as int))
                    } else {
                        Err(ParseErrorV::MalformedNumeric(b))
                    }
                },
                (None, None, Some(a)) => Ok(EnumMemberV::Alias(name, a)),
                _ => Err(ParseErrorV::UnexpectedElement(name)),
            }
        },
    }
}

/// Decodes one enumerant entry.
pub fn decode_enum_member(e: &XmlElement) -> (r: Result<EnumMember, ParseError>)
    ensures
        res_view(r) == spec_enum_member(view_element(*e)),
{
    let name = match expect_attr(e, "name") {
        Ok(v) => v,
        Err(er) => {
            return Err(er);
        },
    };
    let value = opt_attr(e, "value");
    let bitpos = opt_attr(e, "bitpos");
    let alias = opt_attr(e, "alias");
    match (value, bitpos, alias) {
        (Some(v), None, None) => Ok(EnumMember::Value(name, v)),
        (None, Some(b), None) => {
            match parse_dec_usize(b.as_str()) {
                Some(bp) => Ok(EnumMember::BitPos(name, bp)),
                None => Err(ParseError::MalformedNumeric(b)),
            }
        },
        (None, None, Some(a)) => Ok(EnumMember::Alias(name, a)),
        _ => Err(ParseError::UnexpectedElement(name)),
    }
}

/// The enumerants of an enums section, in document order; text nodes and
/// `<comment>`/`<unused>` children are transparent.
pub open spec fn spec_enum_members(
    c: Seq<XmlNodeV>,
    i: int,
    acc: Seq<EnumMemberV>,
) -> Result<Seq<EnumMemberV>, ParseErrorV>
    decreases c.len() - i,
{
    if i < 0 || i >= c.len() {
        Ok(acc)
    } else {
        match c[i] {
            XmlNodeV::Element(me) => {
                if me.name == "comment"@ || me.name == "unused"@ {
                    spec_enum_members(c, i + 1, acc)
                } else {
                    match spec_enum_member(me) {
                        Ok(m) => spec_enum_members(c, i + 1, acc.push(m)),
                        Err(er) => Err(er),
                    }
                }
            },
            _ => spec_enum_members(c, i + 1, acc),
        }
    }
}

/// An enums section: its class comes from the `type` attribute, except
/// for the API-constants section, which is recognized by name.
pub open spec fn spec_enum(e: XmlElementV) -> Result<EnumV, ParseErrorV> {
    match spec_expect_attr(e, "name"@) {
        Err(er) => Err(er),
        Ok(name) => {
            let et = if name == "API Constants"@ {
                Ok(EnumType::APIConstants)
            } else {
                match spec_attr(e.attrs, "type"@) {
                    None => Err(ParseErrorV::MissingAttribute("type"@)),
                    Some(t) => {
                        if t == "enum"@ {
                            Ok(EnumType::Enum)
                        } else if t == "bitmask"@ {
                            Ok(EnumType::BitMask)
                        } else {
                            Err(ParseErrorV::UnexpectedElement(t))
                        }
                    },
                }
            };
            match et {
                Err(er) => Err(er),
                Ok(enum_type) => match spec_enum_members(e.children, 0, Seq::empty()) {
                    Err(er) => Err(er),
                    Ok(members) => Ok(EnumV { name, enum_type, members }),
                },
            }
        },
    }
}

/// Decodes one `<enums>` section.
pub fn decode_enum(e: &XmlElement) -> (r: Result<Enum, ParseError>)
    ensures
        res_view(r) == spec_enum(view_element(*e)),
{
    let ghost ev = view_element(*e);
    let name = match expect_attr(e, "name") {
        Ok(v) => v,
        Err(er) => {
            return Err(er);
        },
    };
    let enum_type: EnumType = if str_eq(name.as_str(), "API Constants") {
        EnumType::APIConstants
    } else {
        match e.attribute("type") {
            None => {
                return Err(ParseError::MissingAttribute(String::from_str("type")));
            },
            Some(t) => {
                if str_eq(t.as_str(), "enum") {
                    EnumType::Enum
                } else if str_eq(t.as_str(), "bitmask") {
                    EnumType::BitMask
                } else {
                    return Err(ParseError::UnexpectedElement(t.clone()));
                }
            },
        }
    };
    let mut members: Vec<EnumMember> = Vec::new();
    proof {
        assert(members.deep_view() =~= Seq::<EnumMemberV>::empty());
    }
    let n = e.child_count();
    let mut i: usize = 0;
    while i < n
        invariant
            n == ev.children.len(),
            i <= n,
            ev == view_element(*e),
            spec_enum_members(ev.children, i as int, members.deep_view())
                == spec_enum_members(ev.children, 0, Seq::empty()),
        decreases n - i,
    {
        match e.child_at(i) {
            XmlNode::Element(me) => {
                if str_eq(me.name.as_str(), "comment") || str_eq(me.name.as_str(), "unused") {
                } else {
                    match decode_enum_member(me) {
                        Ok(m) => {
                            let ghost before = members;
                            let ghost mg = m;
                            members.push(m);
                            proof {
                                vec_deep_view_push(before, members, mg);
                            }
                        },
                        Err(er) => {
                            return Err(er);
                        },
                    }
                }
            },
            _ => {},
        }
        i += 1;
    }
    Ok(Enum { name, enum_type, members })
}

// ---------------------------------------------------------------------------
// Members, structs and unions.
// ---------------------------------------------------------------------------

/// One struct or union member: the declaration grammar plus the member's
/// attributes, carried over verbatim.
pub open spec fn spec_member(e: XmlElementV) -> Result<MemberV, ParseErrorV> {
    match spec_decl(e.children) {
        Err(er) => Err(er),
        Ok((t, nm)) => match spec_bool_attr(e, "noautovalidity"@) {
            Err(er) => Err(er),
            Ok(nav) => Ok(
                MemberV {
                    name: nm,
                    typ: t,
                    values: spec_attr(e.attrs, "values"@),
                    len: spec_attr(e.attrs, "len"@),
                    altlen: spec_attr(e.attrs, "altlen"@),
                    noautovalidity: nav,
                    optional: spec_attr(e.attrs, "optional"@),
                },
            ),
        },
    }
}

/// Decodes one `<member>` entry.
pub fn decode_member(e: &XmlElement) -> (r: Result<Member, ParseError>)
    ensures
        res_view(r) == spec_member(view_element(*e)),
{
    let (typ, name) = match get_type_and_name(e) {
        Ok(p) => p,
        Err(er) => {
            return Err(er);
        },
    };
    let noautovalidity = match get_bool_attr(e, "noautovalidity") {
        Ok(b) => b,
        Err(er) => {
            return Err(er);
        },
    };
    Ok(
        Member {
            name,
            typ,
            values: opt_attr(e, "values"),
            len: opt_attr(e, "len"),
            altlen: opt_attr(e, "altlen"),
            noautovalidity,
            optional: opt_attr(e, "optional"),
        },
    )
}

/// The members of a struct or union, in document order; text nodes,
/// comment nodes and `<comment>` children are transparent.
pub open spec fn spec_members(
    c: Seq<XmlNodeV>,
    i: int,
    acc: Seq<MemberV>,
) -> Result<Seq<MemberV>, ParseErrorV>
    decreases c.len() - i,
{
    if i < 0 || i >= c.len() {
        Ok(acc)
    } else {
        match c[i] {
            XmlNodeV::Element(me) => {
                if me.name == "comment"@ {
                    spec_members(c, i + 1, acc)
                } else {
                    match spec_member(me) {
                        Ok(m) => spec_members(c, i + 1, acc.push(m)),
                        Err(er) => Err(er),
                    }
                }
            },
            _ => spec_members(c, i + 1, acc),
        }
    }
}

/// Decodes the member list of a struct or union element.
fn decode_members(e: &XmlElement) -> (r: Result<Vec<Member>, ParseError>)
    ensures
        res_view(r) == spec_members(view_element(*e).children, 0, Seq::empty()),
{
    let ghost ev = view_element(*e);
    let mut members: Vec<Member> = Vec::new();
    proof {
        assert(members.deep_view() =~= Seq::<MemberV>::empty());
    }
    let n = e.child_count();
    let mut i: usize = 0;
    while i < n
        invariant
            n == ev.children.len(),
            i <= n,
            ev == view_element(*e),
            spec_members(ev.children, i as int, members.deep_view())
                == spec_members(ev.children, 0, Seq::empty()),
        decreases n - i,
    {
        match e.child_at(i) {
            XmlNode::Element(me) => {
                if str_eq(me.name.as_str(), "comment") {
                } else {
                    match decode_member(me) {
                        Ok(m) => {
                            let ghost before = members;
                            let ghost mg = m;
                            members.push(m);
                            proof {
                                vec_deep_view_push(before, members, mg);
                            }
                        },
                        Err(er) => {
                            return Err(er);
                        },
                    }
                }
            },
            _ => {},
        }
        i += 1;
    }
    Ok(members)
}

/// A struct type: its name attribute, its decoded members, and the
/// `structextends`/`returnedonly` attributes.
pub open spec fn spec_struct(e: XmlElementV) -> Result<StructV, ParseErrorV> {
    match spec_expect_attr(e, "name"@) {
        Err(er) => Err(er),
        Ok(name) => match spec_members(e.children, 0, Seq::empty()) {
            Err(er) => Err(er),
            Ok(members) => match spec_bool_attr(e, "returnedonly"@) {
                Err(er) => Err(er),
                Ok(ro) => Ok(
                    StructV {
                        name,
                        structextends: spec_attr(e.attrs, "structextends"@),
                        returnedonly: ro,
                        members,
                    },
                ),
            },
        },
    }
}

/// Decodes one struct declaration.
pub fn decode_struct(e: &XmlElement) -> (r: Result<Struct, ParseError>)
    ensures
        res_view(r) == spec_struct(view_element(*e)),
{
    let name = match expect_attr(e, "name") {
        Ok(v) => v,
        Err(er) => {
            return Err(er);
        },
    };
    let members = match decode_members(e) {
        Ok(v) => v,
        Err(er) => {
            return Err(er);
        },
    };
    let returnedonly = match get_bool_attr(e, "returnedonly") {
        Ok(b) => b,
        Err(er) => {
            return Err(er);
        },
    };
    Ok(Struct { name, structextends: opt_attr(e, "structextends"), returnedonly, members })
}

/// A union type: its name attribute and its decoded members.
pub open spec fn spec_union(e: XmlElementV) -> Result<UnionV, ParseErrorV> {
    match spec_expect_attr(e, "name"@) {
        Err(er) => Err(er),
        Ok(name) => match spec_members(e.children, 0, Seq::empty()) {
            Err(er) => Err(er),
            Ok(members) => Ok(UnionV { name, members }),
        },
    }
}

/// Decodes one union declaration.
pub fn decode_union(e: &XmlElement) -> (r: Result<Union, ParseError>)
    ensures
        res_view(r) == spec_union(view_element(*e)),
{
    let name = match expect_attr(e, "name") {
        Ok(v) => v,
        Err(er) => {
            return Err(er);
        },
    };
    let members = match decode_members(e) {
        Ok(v) => v,
        Err(er) => {
            return Err(er);
        },
    };
    Ok(Union { name, members })
}

// ---------------------------------------------------------------------------
// Commands.
// ---------------------------------------------------------------------------

/// The index of the first element child at or after `i`.
pub open spec fn spec_first_element(c: Seq<XmlNodeV>, i: int) -> Result<int, ParseErrorV>
    decreases c.len() - i,
{
    if i < 0 || i >= c.len() {
        Err(ParseErrorV::MissingElement("proto"@))
    } else {
        match c[i] {
            XmlNodeV::Element(_) => Ok(i),
            _ => spec_first_element(c, i + 1),
        }
    }
}

/// One command parameter: the declaration grammar plus its attributes.
pub open spec fn spec_command_param(e: XmlElementV) -> Result<CommandParamV, ParseErrorV> {
    match spec_decl(e.children) {
        Err(er) => Err(er),
        Ok((t, nm)) => Ok(
            CommandParamV {
                typ: t,
                name: nm,
                optional: spec_attr(e.attrs, "optional"@),
                externsync: spec_attr(e.attrs, "externsync"@),
                len: spec_attr(e.attrs, "len"@),
            },
        ),
    }
}

/// Decodes one `<param>` entry.
pub fn decode_command_param(e: &XmlElement) -> (r: Result<CommandParam, ParseError>)
    ensures
        res_view(r) == spec_command_param(view_element(*e)),
{
    let (typ, name) = match get_type_and_name(e) {
        Ok(p) => p,
        Err(er) => {
            return Err(er);
        },
    };
    Ok(
        CommandParam {
            typ,
            name,
            optional: opt_attr(e, "optional"),
            externsync: opt_attr(e, "externsync"),
            len: opt_attr(e, "len"),
        },
    )
}

/// The parameters of a command after its prototype: only `<param>`
/// elements count, everything else is transparent.
pub open spec fn spec_command_params(
    c: Seq<XmlNodeV>,
    i: int,
    acc: Seq<CommandParamV>,
) -> Result<Seq<CommandParamV>, ParseErrorV>
    decreases c.len() - i,
{
    if i < 0 || i >= c.len() {
        Ok(acc)
    } else {
        match c[i] {
            XmlNodeV::Element(pe) => {
                if pe.name == "param"@ {
                    match spec_command_param(pe) {
                        Ok(p) => spec_command_params(c, i + 1, acc.push(p)),
                        Err(er) => Err(er),
                    }
                } else {
                    spec_command_params(c, i + 1, acc)
                }
            },
            _ => spec_command_params(c, i + 1, acc),
        }
    }
}

/// A command: the first element child is its prototype, decoded with the
/// declaration grammar; the `<param>` children follow in order.
pub open spec fn spec_command(e: XmlElementV) -> Result<CommandV, ParseErrorV> {
    match spec_first_element(e.children, 0) {
        Err(er) => Err(er),
        Ok(pi) => match e.children[pi] {
            XmlNodeV::Element(pe) => match spec_decl(pe.children) {
                Err(er) => Err(er),
                Ok((t, nm)) => match spec_command_params(e.children, pi + 1, Seq::empty()) {
                    Err(er) => Err(er),
                    Ok(params) => Ok(
                        CommandV {
                            proto: CommandProtoV { typ: t, name: nm },
                            params,
                            successcodes: spec_attr(e.attrs, "successcodes"@),
                            errorcodes: spec_attr(e.attrs, "errorcodes"@),
                            queues: spec_attr(e.attrs, "queues"@),
                            renderpass: spec_attr(e.attrs, "renderpass"@),
                            cmdbufferlevel: spec_attr(e.attrs, "cmdbufferlevel"@),
                            pipeline: spec_attr(e.attrs, "pipeline"@),
                        },
                    ),
                },
            },
            _ => Err(ParseErrorV::MissingElement("proto"@)),
        },
    }
}

/// Decodes one full `<command>` entry.
pub fn decode_command(e: &XmlElement) -> (r: Result<Command, ParseError>)
    ensures
        res_view(r) == spec_command(view_element(*e)),
{
    let ghost ev = view_element(*e);
    let n = e.child_count();
    let mut i: usize = 0;
    while i < n
        invariant
            n == ev.children.len(),
            i <= n,
            ev == view_element(*e),
            spec_first_element(ev.children, i as int) == spec_first_element(ev.children, 0),
            forall|j: int| 0 <= j < i ==> !(ev.children[j] is Element),
        decreases n - i,
    {
        let is_elem = match e.child_at(i) {
            XmlNode::Element(_) => true,
            _ => false,
        };
        if is_elem {
            break;
        }
        i += 1;
    }
    if i >= n {
        return Err(ParseError::MissingElement(String::from_str("proto")));
    }
    let proto = match e.child_at(i) {
        XmlNode::Element(pe) => {
            match get_type_and_name(pe) {
                Ok((typ, name)) => CommandProto { typ, name },
                Err(er) => {
                    return Err(er);
                },
            }
        },
        _ => {
            return Err(ParseError::MissingElement(String::from_str("proto")));
        },
    };
    let mut params: Vec<CommandParam> = Vec::new();
    proof {
        assert(params.deep_view() =~= Seq::<CommandParamV>::empty());
    }
    let ghost pi = i as int;
    let mut k: usize = i + 1;
    while k < n
        invariant
            n == ev.children.len(),
            pi + 1 <= k <= n,
            ev == view_element(*e),
            spec_command_params(ev.children, k as int, params.deep_view())
                == spec_command_params(ev.children, pi + 1, Seq::empty()),
        decreases n - k,
    {
        match e.child_at(k) {
            XmlNode::Element(pe) => {
                if str_eq(pe.name.as_str(), "param") {
                    match decode_command_param(pe) {
                        Ok(p) => {
                            let ghost before = params;
                            let ghost pg = p;
                            params.push(p);
                            proof {
                                vec_deep_view_push(before, params, pg);
                            }
                        },
                        Err(er) => {
                            return Err(er);
                        },
                    }
                }
            },
            _ => {},
        }
        k += 1;
    }
    Ok(
        Command {
            proto,
            params,
            successcodes: opt_attr(e, "successcodes"),
            errorcodes: opt_attr(e, "errorcodes"),
            queues: opt_attr(e, "queues"),
            renderpass: opt_attr(e, "renderpass"),
            cmdbufferlevel: opt_attr(e, "cmdbufferlevel"),
            pipeline: opt_attr(e, "pipeline"),
        },
    )
}

// ---------------------------------------------------------------------------
// Requires, features and extensions.
// ---------------------------------------------------------------------------

/// One demanded enumerant: its name plus the extension-relative fields,
/// preserved verbatim.
pub open spec fn spec_enum_require(e: XmlElementV) -> Result<EnumRequireV, ParseErrorV> {
    match spec_expect_attr(e, "name"@) {
        Err(er) => Err(er),
        Ok(name) => Ok(
            EnumRequireV {
                name,
                extends: spec_attr(e.attrs, "extends"@),
                extnumber: spec_attr(e.attrs, "extnumber"@),
                offset: spec_attr(e.attrs, "offset"@),
                bitpos: spec_attr(e.attrs, "bitpos"@),
                dir: spec_attr(e.attrs, "dir"@),
                value: spec_attr(e.attrs, "value"@),
            },
        ),
    }
}

/// Decodes one `<enum>` demand inside a require group.
pub fn decode_enum_require(e: &XmlElement) -> (r: Result<EnumRequire, ParseError>)
    ensures
        res_view(r) == spec_enum_require(view_element(*e)),
{
    let name = match expect_attr(e, "name") {
        Ok(v) => v,
        Err(er) => {
            return Err(er);
        },
    };
    Ok(
        EnumRequire {
            name,
            extends: opt_attr(e, "extends"),
            extnumber: opt_attr(e, "extnumber"),
            offset: opt_attr(e, "offset"),
            bitpos: opt_attr(e, "bitpos"),
            dir: opt_attr(e, "dir"),
            value: opt_attr(e, "value"),
        },
    )
}

/// One demand of a require group: a type, a command, or an enumerant.
pub open spec fn spec_require(e: XmlElementV) -> Result<RequireV, ParseErrorV> {
    if e.name == "type"@ {
        match spec_expect_attr(e, "name"@) {
            Err(er) => Err(er),
            Ok(name) => Ok(RequireV::Type(name)),
        }
    } else if e.name == "command"@ {
        match spec_expect_attr(e, "name"@) {
            Err(er) => Err(er),
            Ok(name) => Ok(RequireV::Command(name)),
        }
    } else if e.name == "enum"@ {
        match spec_enum_require(e) {
            Err(er) => Err(er),
            Ok(eq) => Ok(RequireV::Enum(eq)),
        }
    } else {
        Err(ParseErrorV::UnexpectedElement(e.name))
    }
}

/// Decodes one demand element.
pub fn decode_require(e: &XmlElement) -> (r: Result<Require, ParseError>)
    ensures
        res_view(r) == spec_require(view_element(*e)),
{
    if str_eq(e.name.as_str(), "type") {
        match expect_attr(e, "name") {
            Ok(name) => Ok(Require::Type(name)),
            Err(er) => Err(er),
        }
    } else if str_eq(e.name.as_str(), "command") {
        match expect_attr(e, "name") {
            Ok(name) => Ok(Require::Command(name)),
            Err(er) => Err(er),
        }
    } else if str_eq(e.name.as_str(), "enum") {
        match decode_enum_require(e) {
            Ok(eq) => Ok(Require::Enum(eq)),
            Err(er) => Err(er),
        }
    } else {
        Err(ParseError::UnexpectedElement(e.name.clone()))
    }
}

/// The demands of one require group, in document order; text nodes,
/// comment nodes and `<comment>` children are transparent.
pub open spec fn spec_requires(
    c: Seq<XmlNodeV>,
    i: int,
    acc: Seq<RequireV>,
) -> Result<Seq<RequireV>, ParseErrorV>
    decreases c.len() - i,
{
    if i < 0 || i >= c.len() {
        Ok(acc)
    } else {
        match c[i] {
            XmlNodeV::Element(re) => {
                if re.name == "comment"@ {
                    spec_requires(c, i + 1, acc)
                } else {
                    match spec_require(re) {
                        Ok(rq) => spec_requires(c, i + 1, acc.push(rq)),
                        Err(er) => Err(er),
                    }
                }
            },
            _ => spec_requires(c, i + 1, acc),
        }
    }
}

/// Decodes one require group.
fn decode_require_group(e: &XmlElement) -> (r: Result<Vec<Require>, ParseError>)
    ensures
        res_view(r) == spec_requires(view_element(*e).children, 0, Seq::empty()),
{
    let ghost ev = view_element(*e);
    let mut reqs: Vec<Require> = Vec::new();
    proof {
        assert(reqs.deep_view() =~= Seq::<RequireV>::empty());
    }
    let n = e.child_count();
    let mut i: usize = 0;
    while i < n
        invariant
            n == ev.children.len(),
            i <= n,
            ev == view_element(*e),
            spec_requires(ev.children, i as int, reqs.deep_view())
                == spec_requires(ev.children, 0, Seq::empty()),
        decreases n - i,
    {
        match e.child_at(i) {
            XmlNode::Element(re) => {
                if str_eq(re.name.as_str(), "comment") {
                } else {
                    match decode_require(re) {
                        Ok(rq) => {
                            let ghost before = reqs;
                            let ghost rg = rq;
                            reqs.push(rq);
                            proof {
                                vec_deep_view_push(before, reqs, rg);
                            }
                        },
                        Err(er) => {
                            return Err(er);
                        },
                    }
                }
            },
            _ => {},
        }
        i += 1;
    }
    Ok(reqs)
}

/// The require groups of a feature or extension, in document order; text
/// and comment nodes between groups are transparent.
pub open spec fn spec_require_groups(
    c: Seq<XmlNodeV>,
    i: int,
    acc: Seq<Seq<RequireV>>,
) -> Result<Seq<Seq<RequireV>>, ParseErrorV>
    decreases c.len() - i,
{
    if i < 0 || i >= c.len() {
        Ok(acc)
    } else {
        match c[i] {
            XmlNodeV::Element(ge) => match spec_requires(ge.children, 0, Seq::empty()) {
                Ok(g) => spec_require_groups(c, i + 1, acc.push(g)),
                Err(er) => Err(er),
            },
            _ => spec_require_groups(c, i + 1, acc),
        }
    }
}

/// Decodes the require groups of a feature or extension element.
fn decode_require_groups(e: &XmlElement) -> (r: Result<Vec<Vec<Require>>, ParseError>)
    ensures
        res_view(r) == spec_require_groups(view_element(*e).children, 0, Seq::empty()),
{
    let ghost ev = view_element(*e);
    let mut groups: Vec<Vec<Require>> = Vec::new();
    proof {
        assert(groups.deep_view() =~= Seq::<Seq<RequireV>>::empty());
    }
    let n = e.child_count();
    let mut i: usize = 0;
    while i < n
        invariant
            n == ev.children.len(),
            i <= n,
            ev == view_element(*e),
            spec_require_groups(ev.children, i as int, groups.deep_view())
                == spec_require_groups(ev.children, 0, Seq::empty()),
        decreases n - i,
    {
        match e.child_at(i) {
            XmlNode::Element(ge) => {
                match decode_require_group(ge) {
                    Ok(g) => {
                        let ghost before = groups;
                        let ghost gg = g;
                        groups.push(g);
                        proof {
                            vec_deep_view_push(before, groups, gg);
                        }
                    },
                    Err(er) => {
                        return Err(er);
                    },
                }
            },
            _ => {},
        }
        i += 1;
    }
    Ok(groups)
}

/// A feature: its attributes and its ordered require groups.
pub open spec fn spec_feature(e: XmlElementV) -> Result<FeatureV, ParseErrorV> {
    match spec_expect_attr(e, "name"@) {
        Err(er) => Err(er),
        Ok(name) => match spec_require_groups(e.children, 0, Seq::empty()) {
            Err(er) => Err(er),
            Ok(require_groups) => Ok(
                FeatureV {
                    name,
                    api: spec_attr(e.attrs, "api"@),
                    number: spec_attr(e.attrs, "number"@),
                    require_groups,
                },
            ),
        },
    }
}

/// Decodes one `<feature>` section.
pub fn decode_feature(e: &XmlElement) -> (r: Result<Feature, ParseError>)
    ensures
        res_view(r) == spec_feature(view_element(*e)),
{
    let name = match expect_attr(e, "name") {
        Ok(v) => v,
        Err(er) => {
            return Err(er);
        },
    };
    let require_groups = match decode_require_groups(e) {
        Ok(v) => v,
        Err(er) => {
            return Err(er);
        },
    };
    Ok(Feature { name, api: opt_attr(e, "api"), number: opt_attr(e, "number"), require_groups })
}

/// An extension: the element must be tagged `extension`; its `name` and
/// `number` attributes are required, the rest optional.
pub open spec fn spec_extension(e: XmlElementV) -> Result<ExtensionV, ParseErrorV> {
    if e.name != "extension"@ {
        Err(ParseErrorV::UnexpectedElement(e.name))
    } else {
        match spec_expect_attr(e, "name"@) {
            Err(er) => Err(er),
            Ok(name) => match spec_expect_attr(e, "number"@) {
                Err(er) => Err(er),
                Ok(number) => match spec_require_groups(e.children, 0, Seq::empty()) {
                    Err(er) => Err(er),
                    Ok(require_groups) => Ok(
                        ExtensionV {
                            name,
                            number,
                            typ: spec_attr(e.attrs, "type"@),
                            requires_attr: spec_attr(e.attrs, "requires"@),
                            author: spec_attr(e.attrs, "author"@),
                            contact: spec_attr(e.attrs, "contact"@),
                            supported: spec_attr(e.attrs, "supported"@),
                            require_groups,
                        },
                    ),
                },
            },
        }
    }
}

/// Decodes one `<extension>` section.
pub fn decode_extension(e: &XmlElement) -> (r: Result<Extension, ParseError>)
    ensures
        res_view(r) == spec_extension(view_element(*e)),
{
    if !str_eq(e.name.as_str(), "extension") {
        return Err(ParseError::UnexpectedElement(e.name.clone()));
    }
    let name = match expect_attr(e, "name") {
        Ok(v) => v,
        Err(er) => {
            return Err(er);
        },
    };
    let number = match expect_attr(e, "number") {
        Ok(v) => v,
        Err(er) => {
            return Err(er);
        },
    };
    let require_groups = match decode_require_groups(e) {
        Ok(v) => v,
        Err(er) => {
            return Err(er);
        },
    };
    Ok(
        Extension {
            name,
            number,
            typ: opt_attr(e, "type"),
            requires_attr: opt_attr(e, "requires"),
            author: opt_attr(e, "author"),
            contact: opt_attr(e, "contact"),
            supported: opt_attr(e, "supported"),
            require_groups,
        },
    )
}

// ---------------------------------------------------------------------------
// Function pointers.
// ---------------------------------------------------------------------------

/// The text with trailing `,`/`)`/`;` punctuation removed.
pub open spec fn trim_end_punct(s: Seq<char>) -> Seq<char>
    decreases s.len(),
{
    if s.len() > 0 && (s.last() == ',' || s.last() == ')' || s.last() == ';') {
        trim_end_punct(s.drop_last())
    } else {
        s
    }
}

fn char_is_close_punct(c: char) -> (r: bool)
    ensures
        r == (c == ',' || c == ')' || c == ';'),
{
    c == ',' || c == ')' || c == ';'
}

/// Removes the trailing punctuation that closes a parameter list.
fn str_trim_end_punct(s: &str) -> (r: &str)
    ensures
        r@ == trim_end_punct(s@),
{
    let len = s.unicode_len();
    proof {
        assert(s@.take(len as int) =~= s@);
    }
    let mut e: usize = len;
    while e > 0 && char_is_close_punct(s.get_char(e - 1))
        invariant
            len == s@.len(),
            e <= len,
            trim_end_punct(s@.take(e as int)) == trim_end_punct(s@),
        decreases e,
    {
        proof {
            assert(s@.take(e as int).drop_last() =~= s@.take(e - 1));
        }
        e -= 1;
    }
    s.substring_char(0, e)
}

/// Number of `*` characters at the end of the text.
pub open spec fn trailing_stars(s: Seq<char>) -> int
    decreases s.len(),
{
    if s.len() > 0 && s.last() == '*' {
        1 + trailing_stars(s.drop_last())
    } else {
        0
    }
}

/// The text holds no `*` at all.
pub open spec fn star_free(s: Seq<char>) -> bool {
    forall|i: int| 0 <= i < s.len() ==> #[trigger] s[i] != '*'
}

/// The text is nothing but `*` characters.
pub open spec fn all_stars(s: Seq<char>) -> bool {
    forall|i: int| 0 <= i < s.len() ==> #[trigger] s[i] == '*'
}

/// The text ends in the two characters `);`.
pub open spec fn ends_paren_semi(s: Seq<char>) -> bool {
    s.len() >= 2 && s[s.len() - 2] == ')' && s.last() == ';'
}

/// Wraps a type image in `n` mutable pointer layers.
pub open spec fn wrap_ptrs(n: int, t: crate::decl::TypeV) -> crate::decl::TypeV
    decreases n,
{
    if n <= 0 {
        t
    } else {
        crate::decl::wrap_layer(
            crate::decl::TypeLayerV::Pointer { mutable: true },
            wrap_ptrs(n - 1, t),
        )
    }
}

/// The return type of a function pointer, read from the token between
/// `typedef` and `(VKAPI_PTR`: a base name followed only by `*`s.
pub open spec fn spec_fp_return(tok: Seq<char>) -> Result<crate::decl::TypeV, ParseErrorV> {
    let stars = trailing_stars(tok);
    let base = tok.take(tok.len() - stars);
    if star_free(base) {
        Ok(wrap_ptrs(stars, crate::decl::base_type_v(true, base)))
    } else {
        Err(ParseErrorV::MalformedGrammar(tok))
    }
}

/// Decodes the return-type token of a function pointer.
fn decode_fp_return(tok: &String) -> (r: Result<crate::decl::Type, ParseError>)
    ensures
        res_view(r) == spec_fp_return(tok@),
{
    let len = tok.as_str().unicode_len();
    proof {
        assert(tok@.take(len as int) =~= tok@);
    }
    let mut stars: usize = 0;
    while stars < len && tok.as_str().get_char(len - 1 - stars) == '*'
        invariant
            len == tok@.len(),
            stars <= len,
            trailing_stars(tok@) == stars + trailing_stars(tok@.take(len - stars)),
        decreases len - stars,
    {
        proof {
            assert(tok@.take(len - stars).last() == tok@[len - 1 - stars]);
            assert(tok@.take(len - stars).drop_last() =~= tok@.take(len - stars - 1));
        }
        stars += 1;
    }
    proof {
        if stars < len {
            assert(tok@.take(len - stars).last() == tok@[len - 1 - stars]);
        }
        assert(trailing_stars(tok@.take(len - stars)) == 0);
        assert(trailing_stars(tok@) == stars as int);
    }
    let base = tok.as_str().substring_char(0, len - stars);
    let blen = len - stars;
    let mut i: usize = 0;
    while i < blen
        invariant
            blen == base@.len(),
            i <= blen,
            base@ == tok@.take(len - stars),
            forall|j: int| 0 <= j < i ==> #[trigger] base@[j] != '*',
        decreases blen - i,
    {
        if base.get_char(i) == '*' {
            assert(!star_free(base@));
            return Err(ParseError::MalformedGrammar(tok.clone()));
        }
        i += 1;
    }
    assert(star_free(base@));
    let mut typ = crate::decl::Type {
        mutable: true,
        ty: Box::new(crate::decl::Types::Base(String::from_str(base))),
    };
    let mut k: usize = 0;
    while k < stars
        invariant
            k <= stars,
            crate::decl::type_view(typ) == wrap_ptrs(
                k as int,
                crate::decl::base_type_v(true, tok@.take(len - stars)),
            ),
        decreases stars - k,
    {
        typ = crate::decl::ptr_wrap(true, typ);
        k += 1;
    }
    Ok(typ)
}

/// One parameter pair of a function pointer: a `<type>` element and the
/// following text, which carries pointer stars, the parameter name, and
/// possibly a trailing `const` for the next base type.  Yields the
/// argument and whether the list ends here.
pub open spec fn spec_fp_arg(
    tname: Seq<char>,
    txt: Seq<char>,
) -> Result<((Seq<char>, crate::decl::TypeV), bool), ParseErrorV> {
    let spl = split_ws(txt);
    if spl.len() < 1 || spl.len() > 3 {
        Err(ParseErrorV::MalformedGrammar(txt))
    } else {
        let spl2 = if spl.last() == "const"@ {
            spl.drop_last()
        } else {
            spl
        };
        let m = spl.last() != "const"@;
        if spl2.len() == 0 {
            Err(ParseErrorV::MalformedGrammar(txt))
        } else {
            let full = if spl2.len() == 2 {
                spl2[1]
            } else {
                spl2[0]
            };
            let base = crate::decl::base_type_v(m, tname);
            if spl2.len() == 2 {
                if all_stars(spl2[0]) {
                    Ok(
                        (
                            (trim_end_punct(full), wrap_ptrs(spl2[0].len() as int, base)),
                            ends_paren_semi(full),
                        ),
                    )
                } else {
                    Err(ParseErrorV::MalformedGrammar(txt))
                }
            } else {
                Ok(((trim_end_punct(full), base), ends_paren_semi(full)))
            }
        }
    }
}

/// Decodes one parameter pair.
fn decode_fp_arg(tname: String, txt: &String) -> (r: Result<
    ((String, crate::decl::Type), bool),
    ParseError,
>)
    ensures
        match r {
            Ok(p) => spec_fp_arg(tname@, txt@) == Ok::<_, ParseErrorV>(
                ((p.0.0@, crate::decl::type_view(p.0.1)), p.1),
            ),
            Err(er) => spec_fp_arg(tname@, txt@) == Err::<((Seq<char>, crate::decl::TypeV), bool), _>(
                er.deep_view(),
            ),
        },
{
    let ghost tnv = tname@;
    let mut spl = str_split_ws(txt.as_str());
    if spl.len() < 1 || spl.len() > 3 {
        return Err(ParseError::MalformedGrammar(txt.clone()));
    }
    let ghost splv = spl.deep_view();
    let mut m = true;
    if str_eq(spl[spl.len() - 1].as_str(), "const") {
        m = false;
        spl.pop();
        proof {
            assert(spl.deep_view() =~= splv.drop_last());
        }
    }
    let ghost spl2v = spl.deep_view();
    if spl.len() == 0 {
        return Err(ParseError::MalformedGrammar(txt.clone()));
    }
    let two = spl.len() == 2;
    let full: &String = if two {
        &spl[1]
    } else {
        &spl[0]
    };
    let ghost fullv = full@;
    let mut typ = crate::decl::Type {
        mutable: m,
        ty: Box::new(crate::decl::Types::Base(tname)),
    };
    if two {
        let ptrs: &String = &spl[0];
        let plen = ptrs.as_str().unicode_len();
        let mut i: usize = 0;
        while i < plen
            invariant
                plen == ptrs@.len(),
                i <= plen,
                forall|j: int| 0 <= j < i ==> #[trigger] ptrs@[j] == '*',
                crate::decl::type_view(typ) == wrap_ptrs(
                    i as int,
                    crate::decl::base_type_v(m, tnv),
                ),
            decreases plen - i,
        {
            if ptrs.as_str().get_char(i) != '*' {
                assert(!all_stars(ptrs@));
                return Err(ParseError::MalformedGrammar(txt.clone()));
            }
            typ = crate::decl::ptr_wrap(true, typ);
            i += 1;
        }
        assert(all_stars(ptrs@));
    }
    let name = String::from_str(str_trim_end_punct(full.as_str()));
    let flen = full.as_str().unicode_len();
    let done = if flen >= 2 {
        full.as_str().get_char(flen - 2) == ')' && full.as_str().get_char(flen - 1) == ';'
    } else {
        false
    };
    Ok(((name, typ), done))
}

/// The parameter pairs of a function pointer, each a `<type>` element
/// followed by a text node, ending with the pair whose text closes the
/// list with `);`.
pub open spec fn spec_fp_args(
    c: Seq<XmlNodeV>,
    i: int,
    acc: Seq<(Seq<char>, crate::decl::TypeV)>,
) -> Result<Seq<(Seq<char>, crate::decl::TypeV)>, ParseErrorV>
    decreases c.len() - i,
{
    if i < 0 || i + 1 >= c.len() {
        Err(ParseErrorV::MissingElement("param"@))
    } else {
        let tname_r = match c[i] {
            XmlNodeV::Element(_) => spec_only_text(c[i], "param"@),
            _ => Err(ParseErrorV::UnexpectedElement("param"@)),
        };
        match tname_r {
            Err(er) => Err(er),
            Ok(tname) => match c[i + 1] {
                XmlNodeV::Text(txt) => match spec_fp_arg(tname, txt) {
                    Err(er) => Err(er),
                    Ok(p) => if p.1 {
                        Ok(acc.push(p.0))
                    } else {
                        spec_fp_args(c, i + 2, acc.push(p.0))
                    },
                },
                _ => Err(ParseErrorV::UnexpectedElement("param"@)),
            },
        }
    }
}

/// A function pointer typedef: the leading text carries
/// `typedef RETURN (VKAPI_PTR *`, the `<name>` element names it, and the
/// text `)(` opens the parameter pairs, unless the list is the literal
/// `)(void);`.
pub open spec fn spec_funcpointer(e: XmlElementV) -> Result<FunctionPointerV, ParseErrorV> {
    let c = e.children;
    if c.len() == 0 {
        Err(ParseErrorV::MissingElement("typedef"@))
    } else {
        match c[0] {
            XmlNodeV::Text(t0) => {
                let toks = split_ws(t0);
                if toks.len() != 4 || toks[0] != "typedef"@ || toks[2] != "(VKAPI_PTR"@
                    || toks[3] != "*"@ {
                    Err(ParseErrorV::MalformedGrammar(t0))
                } else {
                    match spec_fp_return(toks[1]) {
                        Err(er) => Err(er),
                        Ok(rt) => spec_fp_after_return(e, rt),
                    }
                }
            },
            _ => Err(ParseErrorV::MalformedGrammar("typedef"@)),
        }
    }
}

/// The name element and parameter list of a function pointer.
pub open spec fn spec_fp_after_return(
    e: XmlElementV,
    rt: crate::decl::TypeV,
) -> Result<FunctionPointerV, ParseErrorV> {
    let c = e.children;
    if c.len() < 2 {
        Err(ParseErrorV::MissingElement("name"@))
    } else {
        let nm_r = match c[1] {
            XmlNodeV::Element(ne) => if ne.name == "name"@ {
                spec_only_text(c[1], "name"@)
            } else {
                Err(ParseErrorV::UnexpectedElement(ne.name))
            },
            _ => Err(ParseErrorV::UnexpectedElement("name"@)),
        };
        match nm_r {
            Err(er) => Err(er),
            Ok(name) => {
                if c.len() < 3 {
                    Err(ParseErrorV::MissingElement("args"@))
                } else {
                    match spec_node_text(c[2]) {
                        None => Err(ParseErrorV::MissingElement("args"@)),
                        Some(lit0) => {
                            let lit = trim_end_ws(lit0);
                            if lit == ")(void);"@ {
                                Ok(
                                    FunctionPointerV {
                                        name,
                                        return_type: rt,
                                        arguments: Seq::empty(),
                                    },
                                )
                            } else if lit != ")("@ {
                                Err(ParseErrorV::MalformedGrammar(lit))
                            } else {
                                match spec_fp_args(c, 3, Seq::empty()) {
                                    Err(er) => Err(er),
                                    Ok(arguments) => Ok(
                                        FunctionPointerV { name, return_type: rt, arguments },
                                    ),
                                }
                            }
                        },
                    }
                }
            },
        }
    }
}

/// Decodes one function pointer typedef.
pub fn decode_funcpointer(e: &XmlElement) -> (r: Result<FunctionPointer, ParseError>)
    ensures
        res_view(r) == spec_funcpointer(view_element(*e)),
{
    let ghost ev = view_element(*e);
    let n = e.child_count();
    if n == 0 {
        return Err(ParseError::MissingElement(String::from_str("typedef")));
    }
    let return_type = match e.child_at(0) {
        XmlNode::Text(t0) => {
            let toks = str_split_ws(t0.as_str());
            if toks.len() != 4 {
                return Err(ParseError::MalformedGrammar(t0.clone()));
            }
            if !str_eq(toks[0].as_str(), "typedef") || !str_eq(toks[2].as_str(), "(VKAPI_PTR")
                || !str_eq(toks[3].as_str(), "*") {
                return Err(ParseError::MalformedGrammar(t0.clone()));
            }
            match decode_fp_return(&toks[1]) {
                Ok(rt) => rt,
                Err(er) => {
                    return Err(er);
                },
            }
        },
        _ => {
            return Err(ParseError::MalformedGrammar(String::from_str("typedef")));
        },
    };
    let ghost rtv = crate::decl::type_view(return_type);
    assert(spec_funcpointer(ev) == spec_fp_after_return(ev, rtv));
    if n < 2 {
        return Err(ParseError::MissingElement(String::from_str("name")));
    }
    let name = match e.child_at(1) {
        XmlNode::Element(ne) => {
            if !str_eq(ne.name.as_str(), "name") {
                return Err(ParseError::UnexpectedElement(ne.name.clone()));
            }
            match only_text(e.child_at(1), "name") {
                Ok(v) => v,
                Err(er) => {
                    return Err(er);
                },
            }
        },
        _ => {
            return Err(ParseError::UnexpectedElement(String::from_str("name")));
        },
    };
    if n < 3 {
        return Err(ParseError::MissingElement(String::from_str("args")));
    }
    let lit = match node_text(e.child_at(2)) {
        None => {
            return Err(ParseError::MissingElement(String::from_str("args")));
        },
        Some(t) => str_trim_end_ws(t.as_str()),
    };
    if str_eq(lit, ")(void);") {
        let arguments: Vec<(String, crate::decl::Type)> = Vec::new();
        proof {
            assert(arguments.deep_view() =~= Seq::<(Seq<char>, crate::decl::TypeV)>::empty());
        }
        return Ok(FunctionPointer { name, return_type, arguments });
    }
    if !str_eq(lit, ")(") {
        return Err(ParseError::MalformedGrammar(String::from_str(lit)));
    }
    let mut arguments: Vec<(String, crate::decl::Type)> = Vec::new();
    proof {
        assert(arguments.deep_view() =~= Seq::<(Seq<char>, crate::decl::TypeV)>::empty());
    }
    let mut k: usize = 3;
    loop
        invariant
            ev == view_element(*e),
            n == ev.children.len(),
            3 <= k,
            spec_fp_args(ev.children, k as int, arguments.deep_view())
                == spec_fp_args(ev.children, 3, Seq::empty()),
        decreases n + 2 - k,
    {
        if k >= n || k + 1 >= n {
            return Err(ParseError::MissingElement(String::from_str("param")));
        }
        let tname = match e.child_at(k) {
            XmlNode::Element(_) => {
                match only_text(e.child_at(k), "param") {
                    Ok(v) => v,
                    Err(er) => {
                        return Err(er);
                    },
                }
            },
            _ => {
                return Err(ParseError::UnexpectedElement(String::from_str("param")));
            },
        };
        match e.child_at(k + 1) {
            XmlNode::Text(txt) => {
                match decode_fp_arg(tname, txt) {
                    Ok(p) => {
                        let done = p.1;
                        let ghost before = arguments;
                        let ghost pg = p.0;
                        arguments.push(p.0);
                        proof {
                            vec_deep_view_push(before, arguments, pg);
                        }
                        if done {
                            return Ok(FunctionPointer { name, return_type, arguments });
                        }
                        k += 2;
                    },
                    Err(er) => {
                        return Err(er);
                    },
                }
            },
            _ => {
                return Err(ParseError::UnexpectedElement(String::from_str("param")));
            },
        }
    }
}

} // verus!
