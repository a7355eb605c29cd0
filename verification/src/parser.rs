//! The registry walk: visits the top-level sections in document order,
//! dispatches each child to its category decoder, and yields one ordered
//! stream of typed events.
//!
//! One malformed node aborts the whole run; the parser never yields a
//! partially decoded record.  After the walk, no name may stand both
//! concretely defined and aliased within the same category.

use vstd::prelude::*;
use crate::error::{ParseError, ParseErrorV, res_view};
use crate::strutil::{str_eq, vec_deep_view_push};
use crate::xml::{XmlElement, XmlNode, XmlNodeV, XmlElementV, spec_attr, view_element, view_node};
use crate::decode::{
    spec_platform, decode_platform, spec_tag, decode_tag, spec_typedef, decode_typedef,
    spec_handle, decode_handle, spec_enum, decode_enum, spec_funcpointer, decode_funcpointer,
    spec_struct, decode_struct, spec_union, decode_union, spec_command, decode_command,
    spec_feature, decode_feature, spec_extension, decode_extension, opt_attr,
};
use crate::records::{
    PlatformDefinition, PlatformDefinitionV, TagDefinition, TagDefinitionV, Typedef, TypedefV,
    Alias, AliasV, Handle, HandleV, EnumDefinition, EnumDefinitionV, FunctionPointer,
    FunctionPointerV, Struct, StructV, Union, UnionV, Enum, EnumV, Command, CommandV, Feature,
    FeatureV, Extension, ExtensionV,
};

verus! {

/// One record of the parse run, in document order.
#[derive(Debug, PartialEq)]
pub enum RegistryEvent {
    Platform(PlatformDefinition),
    Tag(TagDefinition),
    Basetype(Typedef),
    BitmaskDefinition(Typedef),
    BitmaskAlias(Alias),
    Handle(Handle),
    HandleAlias(Alias),
    EnumDefinition(EnumDefinition),
    EnumAlias(Alias),
    FunctionPointer(FunctionPointer),
    Struct(Struct),
    Union(Union),
    Enum(Enum),
    Command(Command),
    CommandAlias(Alias),
    Feature(Feature),
    Extension(Extension),
}

/// Ghost image of a registry event.
pub enum RegistryEventV {
    Platform(PlatformDefinitionV),
    Tag(TagDefinitionV),
    Basetype(TypedefV),
    BitmaskDefinition(TypedefV),
    BitmaskAlias(AliasV),
    Handle(HandleV),
    HandleAlias(AliasV),
    EnumDefinition(EnumDefinitionV),
    EnumAlias(AliasV),
    FunctionPointer(FunctionPointerV),
    Struct(StructV),
    Union(UnionV),
    Enum(EnumV),
    Command(CommandV),
    CommandAlias(AliasV),
    Feature(FeatureV),
    Extension(ExtensionV),
}

impl DeepView for RegistryEvent {
    type V = RegistryEventV;

    open spec fn deep_view(&self) -> RegistryEventV {
        match self {
            RegistryEvent::Platform(x) => RegistryEventV::Platform(x.deep_view()),
            RegistryEvent::Tag(x) => RegistryEventV::Tag(x.deep_view()),
            RegistryEvent::Basetype(x) => RegistryEventV::Basetype(x.deep_view()),
            RegistryEvent::BitmaskDefinition(x) => RegistryEventV::BitmaskDefinition(x.deep_view()),
            RegistryEvent::BitmaskAlias(x) => RegistryEventV::BitmaskAlias(x.deep_view()),
            RegistryEvent::Handle(x) => RegistryEventV::Handle(x.deep_view()),
            RegistryEvent::HandleAlias(x) => RegistryEventV::HandleAlias(x.deep_view()),
            RegistryEvent::EnumDefinition(x) => RegistryEventV::EnumDefinition(x.deep_view()),
            RegistryEvent::EnumAlias(x) => RegistryEventV::EnumAlias(x.deep_view()),
            RegistryEvent::FunctionPointer(x) => RegistryEventV::FunctionPointer(x.deep_view()),
            RegistryEvent::Struct(x) => RegistryEventV::Struct(x.deep_view()),
            RegistryEvent::Union(x) => RegistryEventV::Union(x.deep_view()),
            RegistryEvent::Enum(x) => RegistryEventV::Enum(x.deep_view()),
            RegistryEvent::Command(x) => RegistryEventV::Command(x.deep_view()),
            RegistryEvent::CommandAlias(x) => RegistryEventV::CommandAlias(x.deep_view()),
            RegistryEvent::Feature(x) => RegistryEventV::Feature(x.deep_view()),
            RegistryEvent::Extension(x) => RegistryEventV::Extension(x.deep_view()),
        }
    }
}

// ---------------------------------------------------------------------------
// Section walks.
// ---------------------------------------------------------------------------

/// The platform entries of a `platforms` section, appended to `acc`.
pub open spec fn spec_platform_events(
    c: Seq<XmlNodeV>,
    i: int,
    acc: Seq<RegistryEventV>,
) -> Result<Seq<RegistryEventV>, ParseErrorV>
    decreases c.len() - i,
{
    if i < 0 || i >= c.len() {
        Ok(acc)
    } else {
        match c[i] {
            XmlNodeV::Element(pe) => match spec_platform(pe) {
                Ok(p) => spec_platform_events(c, i + 1, acc.push(RegistryEventV::Platform(p))),
                Err(er) => Err(er),
            },
            _ => spec_platform_events(c, i + 1, acc),
        }
    }
}

/// The tag entries of a `tags` section, appended to `acc`.
pub open spec fn spec_tag_events(
    c: Seq<XmlNodeV>,
    i: int,
    acc: Seq<RegistryEventV>,
) -> Result<Seq<RegistryEventV>, ParseErrorV>
    decreases c.len() - i,
{
    if i < 0 || i >= c.len() {
        Ok(acc)
    } else {
        match c[i] {
            XmlNodeV::Element(te) => match spec_tag(te) {
                Ok(t) => spec_tag_events(c, i + 1, acc.push(RegistryEventV::Tag(t))),
                Err(er) => Err(er),
            },
            _ => spec_tag_events(c, i + 1, acc),
        }
    }
}

/// A type node without a category is tolerated in exactly two shapes:
/// a lone `name` attribute, or `name` together with `requires`.
pub open spec fn spec_bare_type_ok(e: XmlElementV) -> bool {
    let has_name = spec_attr(e.attrs, "name"@) is Some;
    let has_requires = spec_attr(e.attrs, "requires"@) is Some;
    (e.attrs.len() == 2 && has_name && has_requires) || (e.attrs.len() == 1 && has_name)
}

/// One node of the `types` section: category dispatch.
pub open spec fn spec_type_event(e: XmlElementV) -> Result<Option<RegistryEventV>, ParseErrorV> {
    match spec_attr(e.attrs, "category"@) {
        None => if spec_bare_type_ok(e) {
            Ok(None)
        } else {
            Err(ParseErrorV::UnexpectedElement("category"@))
        },
        Some(cat) => {
            if cat == "include"@ || cat == "define"@ {
                Ok(None)
            } else if cat == "basetype"@ {
                match spec_typedef(e) {
                    Ok(t) => Ok(Some(RegistryEventV::Basetype(t))),
                    Err(er) => Err(er),
                }
            } else if cat == "bitmask"@ {
                match spec_attr(e.attrs, "alias"@) {
                    Some(alias) => match spec_attr(e.attrs, "name"@) {
                        Some(name) => Ok(
                            Some(
                                RegistryEventV::BitmaskAlias(
                                    AliasV { basetype: alias, aliastype: name },
                                ),
                            ),
                        ),
                        None => Err(ParseErrorV::MissingAttribute("name"@)),
                    },
                    None => match spec_typedef(e) {
                        Ok(t) => Ok(Some(RegistryEventV::BitmaskDefinition(t))),
                        Err(er) => Err(er),
                    },
                }
            } else if cat == "handle"@ {
                match spec_attr(e.attrs, "alias"@) {
                    Some(alias) => match spec_attr(e.attrs, "name"@) {
                        Some(name) => Ok(
                            Some(
                                RegistryEventV::HandleAlias(
                                    AliasV { basetype: alias, aliastype: name },
                                ),
                            ),
                        ),
                        None => Err(ParseErrorV::MissingAttribute("name"@)),
                    },
                    None => match spec_handle(e) {
                        Ok(h) => Ok(Some(RegistryEventV::Handle(h))),
                        Err(er) => Err(er),
                    },
                }
            } else if cat == "enum"@ {
                match spec_attr(e.attrs, "name"@) {
                    None => Err(ParseErrorV::MissingAttribute("name"@)),
                    Some(name) => match spec_attr(e.attrs, "alias"@) {
                        Some(alias) => Ok(
                            Some(
                                RegistryEventV::EnumAlias(
                                    AliasV { basetype: alias, aliastype: name },
                                ),
                            ),
                        ),
                        None => Ok(
                            Some(RegistryEventV::EnumDefinition(EnumDefinitionV { name })),
                        ),
                    },
                }
            } else if cat == "funcpointer"@ {
                match spec_funcpointer(e) {
                    Ok(f) => Ok(Some(RegistryEventV::FunctionPointer(f))),
                    Err(er) => Err(er),
                }
            } else if cat == "struct"@ {
                match spec_struct(e) {
                    Ok(st) => Ok(Some(RegistryEventV::Struct(st))),
                    Err(er) => Err(er),
                }
            } else if cat == "union"@ {
                match spec_union(e) {
                    Ok(u) => Ok(Some(RegistryEventV::Union(u))),
                    Err(er) => Err(er),
                }
            } else {
                Err(ParseErrorV::UnexpectedElement(cat))
            }
        },
    }
}

/// The nodes of the `types` section: every child must be a `<type>` or
/// `<comment>` element.
pub open spec fn spec_type_events(
    c: Seq<XmlNodeV>,
    i: int,
    acc: Seq<RegistryEventV>,
) -> Result<Seq<RegistryEventV>, ParseErrorV>
    decreases c.len() - i,
{
    if i < 0 || i >= c.len() {
        Ok(acc)
    } else {
        match c[i] {
            XmlNodeV::Element(te) => {
                if te.name == "comment"@ {
                    spec_type_events(c, i + 1, acc)
                } else if te.name != "type"@ {
                    Err(ParseErrorV::UnexpectedElement(te.name))
                } else {
                    match spec_type_event(te) {
                        Err(er) => Err(er),
                        Ok(None) => spec_type_events(c, i + 1, acc),
                        Ok(Some(ev)) => spec_type_events(c, i + 1, acc.push(ev)),
                    }
                }
            },
            _ => spec_type_events(c, i + 1, acc),
        }
    }
}

/// One node of the `commands` section: a `name` attribute makes it an
/// alias (and then `alias` is required); otherwise it is a full command.
pub open spec fn spec_command_event(e: XmlElementV) -> Result<RegistryEventV, ParseErrorV> {
    match spec_attr(e.attrs, "name"@) {
        Some(name) => match spec_attr(e.attrs, "alias"@) {
            Some(alias) => Ok(
                RegistryEventV::CommandAlias(AliasV { basetype: alias, aliastype: name }),
            ),
            None => Err(ParseErrorV::MissingAttribute("alias"@)),
        },
        None => match spec_command(e) {
            Ok(cm) => Ok(RegistryEventV::Command(cm)),
            Err(er) => Err(er),
        },
    }
}

/// The nodes of the `commands` section.
pub open spec fn spec_command_events(
    c: Seq<XmlNodeV>,
    i: int,
    acc: Seq<RegistryEventV>,
) -> Result<Seq<RegistryEventV>, ParseErrorV>
    decreases c.len() - i,
{
    if i < 0 || i >= c.len() {
        Ok(acc)
    } else {
        match c[i] {
            XmlNodeV::Element(ce) => match spec_command_event(ce) {
                Ok(ev) => spec_command_events(c, i + 1, acc.push(ev)),
                Err(er) => Err(er),
            },
            _ => spec_command_events(c, i + 1, acc),
        }
    }
}

/// The nodes of the `extensions` section; `<comment>` elements are
/// transparent.
pub open spec fn spec_extension_events(
    c: Seq<XmlNodeV>,
    i: int,
    acc: Seq<RegistryEventV>,
) -> Result<Seq<RegistryEventV>, ParseErrorV>
    decreases c.len() - i,
{
    if i < 0 || i >= c.len() {
        Ok(acc)
    } else {
        match c[i] {
            XmlNodeV::Element(xe) => {
                if xe.name == "comment"@ {
                    spec_extension_events(c, i + 1, acc)
                } else {
                    match spec_extension(xe) {
                        Ok(x) => spec_extension_events(
                            c,
                            i + 1,
                            acc.push(RegistryEventV::Extension(x)),
                        ),
                        Err(er) => Err(er),
                    }
                }
            },
            _ => spec_extension_events(c, i + 1, acc),
        }
    }
}

/// The top-level walk: sections in document order, unknown sections are
/// hard errors, text and comments are transparent.
pub open spec fn spec_sections(
    c: Seq<XmlNodeV>,
    i: int,
    acc: Seq<RegistryEventV>,
) -> Result<Seq<RegistryEventV>, ParseErrorV>
    decreases c.len() - i,
{
    if i < 0 || i >= c.len() {
        Ok(acc)
    } else {
        match c[i] {
            XmlNodeV::Element(se) => {
                let step = if se.name == "comment"@ {
                    Ok(acc)
                } else if se.name == "platforms"@ {
                    spec_platform_events(se.children, 0, acc)
                } else if se.name == "tags"@ {
                    spec_tag_events(se.children, 0, acc)
                } else if se.name == "types"@ {
                    spec_type_events(se.children, 0, acc)
                } else if se.name == "enums"@ {
                    match spec_enum(se) {
                        Ok(en) => Ok(acc.push(RegistryEventV::Enum(en))),
                        Err(er) => Err(er),
                    }
                } else if se.name == "commands"@ {
                    spec_command_events(se.children, 0, acc)
                } else if se.name == "feature"@ {
                    match spec_feature(se) {
                        Ok(f) => Ok(acc.push(RegistryEventV::Feature(f))),
                        Err(er) => Err(er),
                    }
                } else if se.name == "extensions"@ {
                    spec_extension_events(se.children, 0, acc)
                } else {
                    Err(ParseErrorV::UnexpectedElement(se.name))
                };
                match step {
                    Ok(acc2) => spec_sections(c, i + 1, acc2),
                    Err(er) => Err(er),
                }
            },
            _ => spec_sections(c, i + 1, acc),
        }
    }
}

// ---------------------------------------------------------------------------
// Duplicate-definition detection.
// ---------------------------------------------------------------------------

/// The categories in which a name can be defined or aliased.
#[derive(Debug, PartialEq, Eq, Structural, Clone, Copy)]
pub enum NameCategory {
    Bitmask,
    Handle,
    Enum,
    Command,
}

impl DeepView for NameCategory {
    type V = NameCategory;

    open spec fn deep_view(&self) -> NameCategory {
        *self
    }
}

/// What an event defines: its category, whether it is an alias, and the
/// defined name.
pub open spec fn spec_event_decl(ev: RegistryEventV) -> Option<(NameCategory, bool, Seq<char>)> {
    match ev {
        RegistryEventV::BitmaskDefinition(t) => Some((NameCategory::Bitmask, false, t.alias)),
        RegistryEventV::BitmaskAlias(a) => Some((NameCategory::Bitmask, true, a.aliastype)),
        RegistryEventV::Handle(h) => Some((NameCategory::Handle, false, h.name)),
        RegistryEventV::HandleAlias(a) => Some((NameCategory::Handle, true, a.aliastype)),
        RegistryEventV::EnumDefinition(d) => Some((NameCategory::Enum, false, d.name)),
        RegistryEventV::EnumAlias(a) => Some((NameCategory::Enum, true, a.aliastype)),
        RegistryEventV::Command(cm) => Some((NameCategory::Command, false, cm.proto.name)),
        RegistryEventV::CommandAlias(a) => Some((NameCategory::Command, true, a.aliastype)),
        _ => None,
    }
}

/// A (category, name) pair stands in the list.
pub open spec fn decl_listed(
    s: Seq<(NameCategory, Seq<char>)>,
    cat: NameCategory,
    name: Seq<char>,
) -> bool {
    exists|i: int| 0 <= i < s.len() && #[trigger] s[i] == (cat, name)
}

/// Walks the events in order, collecting defined and aliased names per
/// category; a name that stands on both sides of one category is an
/// `UnexpectedRepeat`.
pub open spec fn spec_dup_scan(
    evs: Seq<RegistryEventV>,
    j: int,
    defs: Seq<(NameCategory, Seq<char>)>,
    aliases: Seq<(NameCategory, Seq<char>)>,
) -> Result<(), ParseErrorV>
    decreases evs.len() - j,
{
    if j < 0 || j >= evs.len() {
        Ok(())
    } else {
        match spec_event_decl(evs[j]) {
            None => spec_dup_scan(evs, j + 1, defs, aliases),
            Some(d) => {
                if d.1 {
                    if decl_listed(defs, d.0, d.2) {
                        Err(ParseErrorV::UnexpectedRepeat(d.2))
                    } else {
                        spec_dup_scan(evs, j + 1, defs, aliases.push((d.0, d.2)))
                    }
                } else {
                    if decl_listed(aliases, d.0, d.2) {
                        Err(ParseErrorV::UnexpectedRepeat(d.2))
                    } else {
                        spec_dup_scan(evs, j + 1, defs.push((d.0, d.2)), aliases)
                    }
                }
            },
        }
    }
}

/// Two events clash when they put the same name of the same category on
/// both sides of the definition/alias divide.
pub open spec fn conflicting(a: RegistryEventV, b: RegistryEventV) -> bool {
    match (spec_event_decl(a), spec_event_decl(b)) {
        (Some(d1), Some(d2)) => d1.0 == d2.0 && d1.2 == d2.2 && d1.1 != d2.1,
        _ => false,
    }
}

proof fn lemma_dup_scan_sound(
    evs: Seq<RegistryEventV>,
    j: int,
    defs: Seq<(NameCategory, Seq<char>)>,
    aliases: Seq<(NameCategory, Seq<char>)>,
)
    requires
        0 <= j <= evs.len(),
        forall|i: int|
            0 <= i < j ==> match #[trigger] spec_event_decl(evs[i]) {
                Some(d) => if d.1 {
                    decl_listed(aliases, d.0, d.2)
                } else {
                    decl_listed(defs, d.0, d.2)
                },
                None => true,
            },
    ensures
        spec_dup_scan(evs, j, defs, aliases) is Ok ==> forall|i1: int, i2: int|
            0 <= i1 < i2 < evs.len() && j <= i2 ==> !conflicting(evs[i1], evs[i2]),
    decreases evs.len() - j,
{
    if j < evs.len() && spec_dup_scan(evs, j, defs, aliases) is Ok {
        match spec_event_decl(evs[j]) {
            None => {
                lemma_dup_scan_sound(evs, j + 1, defs, aliases);
                assert forall|i1: int|
                    0 <= i1 < j implies !conflicting(evs[i1], evs[j]) by {}
            },
            Some(d) => {
                let defs2 = if d.1 {
                    defs
                } else {
                    defs.push((d.0, d.2))
                };
                let aliases2 = if d.1 {
                    aliases.push((d.0, d.2))
                } else {
                    aliases
                };
                assert forall|i: int| 0 <= i < j + 1 implies match #[trigger] spec_event_decl(
                    evs[i],
                ) {
                    Some(di) => if di.1 {
                        decl_listed(aliases2, di.0, di.2)
                    } else {
                        decl_listed(defs2, di.0, di.2)
                    },
                    None => true,
                } by {
                    if i < j {
                        match spec_event_decl(evs[i]) {
                            Some(di) => {
                                if di.1 {
                                    if !d.1 {
                                        assert(decl_listed(aliases2, di.0, di.2));
                                    } else {
                                        let k = choose|k: int|
                                            0 <= k < aliases.len() && #[trigger] aliases[k] == (
                                            di.0,
                                            di.2,
                                            );
                                        assert(aliases2[k] == (di.0, di.2));
                                    }
                                } else {
                                    if d.1 {
                                        assert(decl_listed(defs2, di.0, di.2));
                                    } else {
                                        let k = choose|k: int|
                                            0 <= k < defs.len() && #[trigger] defs[k] == (
                                            di.0,
                                            di.2,
                                            );
                                        assert(defs2[k] == (di.0, di.2));
                                    }
                                }
                            },
                            None => {},
                        }
                    } else {
                        if d.1 {
                            assert(aliases2[aliases2.len() - 1] == (d.0, d.2));
                        } else {
                            assert(defs2[defs2.len() - 1] == (d.0, d.2));
                        }
                    }
                }
                lemma_dup_scan_sound(evs, j + 1, defs2, aliases2);
                assert forall|i1: int|
                    0 <= i1 < j implies !conflicting(evs[i1], evs[j]) by {
                    match spec_event_decl(evs[i1]) {
                        Some(di) => {
                            if di.0 == d.0 && di.2 == d.2 && di.1 != d.1 {
                                if d.1 {
                                    assert(decl_listed(defs, d.0, d.2));
                                } else {
                                    assert(decl_listed(aliases, d.0, d.2));
                                }
                                assert(!(spec_dup_scan(evs, j, defs, aliases) is Ok));
                            }
                        },
                        None => {},
                    }
                }
            },
        }
    }
}

/// No name stands both concretely defined and aliased within one
/// category: the event stream of a successful parse holds no clashing
/// pair, in either order.
pub proof fn lemma_no_duplicate_definitions(root: XmlElementV, evs: Seq<RegistryEventV>)
    requires
        spec_parse_registry(root) == Ok::<_, ParseErrorV>(evs),
    ensures
        forall|i1: int, i2: int|
            0 <= i1 < evs.len() && 0 <= i2 < evs.len() ==> !conflicting(
                #[trigger] evs[i1],
                #[trigger] evs[i2],
            ),
{
    lemma_dup_scan_sound(evs, 0, Seq::empty(), Seq::empty());
    assert forall|i1: int, i2: int|
        0 <= i1 < evs.len() && 0 <= i2 < evs.len() implies !conflicting(evs[i1], evs[i2]) by {
        if i1 < i2 {
        } else if i2 < i1 {
            assert(!conflicting(evs[i2], evs[i1]));
        }
    }
}

/// What an event defines, at the executable level.
fn event_decl<'a>(ev: &'a RegistryEvent) -> (r: Option<(NameCategory, bool, &'a String)>)
    ensures
        match r {
            Some(d) => spec_event_decl(ev.deep_view()) == Some((d.0, d.1, d.2@)),
            None => spec_event_decl(ev.deep_view()) is None,
        },
{
    match ev {
        RegistryEvent::BitmaskDefinition(t) => Some((NameCategory::Bitmask, false, &t.alias)),
        RegistryEvent::BitmaskAlias(a) => Some((NameCategory::Bitmask, true, &a.aliastype)),
        RegistryEvent::Handle(h) => Some((NameCategory::Handle, false, &h.name)),
        RegistryEvent::HandleAlias(a) => Some((NameCategory::Handle, true, &a.aliastype)),
        RegistryEvent::EnumDefinition(d) => Some((NameCategory::Enum, false, &d.name)),
        RegistryEvent::EnumAlias(a) => Some((NameCategory::Enum, true, &a.aliastype)),
        RegistryEvent::Command(cm) => Some((NameCategory::Command, false, &cm.proto.name)),
        RegistryEvent::CommandAlias(a) => Some((NameCategory::Command, true, &a.aliastype)),
        _ => None,
    }
}

/// Scans a declaration list for a (category, name) pair.
fn decl_list_has(s: &Vec<(NameCategory, String)>, cat: NameCategory, name: &String) -> (r: bool)
    ensures
        r == decl_listed(s.deep_view(), cat, name@),
{
    let mut i: usize = 0;
    while i < s.len()
        invariant
            i <= s.len(),
            forall|j: int| 0 <= j < i ==> s.deep_view()[j] != (cat, name@),
        decreases s.len() - i,
    {
        if s[i].0 == cat && str_eq(s[i].1.as_str(), name.as_str()) {
            assert(s.deep_view()[i as int] == (cat, name@));
            return true;
        }
        assert(s.deep_view()[i as int] != (cat, name@));
        i += 1;
    }
    false
}

/// Checks that no name is both concretely defined and aliased within one
/// category.
fn check_duplicates(events: &Vec<RegistryEvent>) -> (r: Result<(), ParseError>)
    ensures
        r is Ok ==> spec_dup_scan(events.deep_view(), 0, Seq::empty(), Seq::empty()) is Ok,
        r matches Err(er) ==> spec_dup_scan(events.deep_view(), 0, Seq::empty(), Seq::empty())
            == Err::<(), ParseErrorV>(er.deep_view()),
{
    let ghost evs = events.deep_view();
    let mut defs: Vec<(NameCategory, String)> = Vec::new();
    let mut aliases: Vec<(NameCategory, String)> = Vec::new();
    proof {
        assert(defs.deep_view() =~= Seq::<(NameCategory, Seq<char>)>::empty());
        assert(aliases.deep_view() =~= Seq::<(NameCategory, Seq<char>)>::empty());
    }
    let mut j: usize = 0;
    while j < events.len()
        invariant
            j <= events.len(),
            evs == events.deep_view(),
            evs.len() == events.len(),
            spec_dup_scan(evs, j as int, defs.deep_view(), aliases.deep_view())
                == spec_dup_scan(evs, 0, Seq::empty(), Seq::empty()),
        decreases events.len() - j,
    {
        assert(evs[j as int] == events[j as int].deep_view());
        match event_decl(&events[j]) {
            None => {},
            Some(d) => {
                if d.1 {
                    if decl_list_has(&defs, d.0, d.2) {
                        return Err(ParseError::UnexpectedRepeat(d.2.clone()));
                    }
                    let ghost before = aliases;
                    let pair = (d.0, d.2.clone());
                    let ghost pg = pair;
                    aliases.push(pair);
                    proof {
                        vec_deep_view_push(before, aliases, pg);
                    }
                } else {
                    if decl_list_has(&aliases, d.0, d.2) {
                        return Err(ParseError::UnexpectedRepeat(d.2.clone()));
                    }
                    let ghost before = defs;
                    let pair = (d.0, d.2.clone());
                    let ghost pg = pair;
                    defs.push(pair);
                    proof {
                        vec_deep_view_push(before, defs, pg);
                    }
                }
            },
        }
        j += 1;
    }
    Ok(())
}

// ---------------------------------------------------------------------------
// The parser.
// ---------------------------------------------------------------------------

/// The whole parse run: the event stream of the walk, after the
/// duplicate-definition check passed.
pub open spec fn spec_parse_registry(root: XmlElementV) -> Result<
    Seq<RegistryEventV>,
    ParseErrorV,
> {
    match spec_sections(root.children, 0, Seq::empty()) {
        Err(er) => Err(er),
        Ok(evs) => match spec_dup_scan(evs, 0, Seq::empty(), Seq::empty()) {
            Err(er) => Err(er),
            Ok(_) => Ok(evs),
        },
    }
}

/// Walks one `platforms` section, appending its events.
fn parse_platforms(se: &XmlElement, events: &mut Vec<RegistryEvent>) -> (r: Result<(), ParseError>)
    ensures
        r is Ok ==> spec_platform_events(view_element(*se).children, 0, old(events).deep_view())
            == Ok::<_, ParseErrorV>(final(events).deep_view()),
        r matches Err(er) ==> spec_platform_events(
            view_element(*se).children,
            0,
            old(events).deep_view(),
        ) == Err::<Seq<RegistryEventV>, _>(er.deep_view()),
{
    let ghost sv = view_element(*se);
    let ghost acc0 = old(events).deep_view();
    let n = se.child_count();
    let mut i: usize = 0;
    while i < n
        invariant
            n == sv.children.len(),
            i <= n,
            sv == view_element(*se),
            spec_platform_events(sv.children, i as int, events.deep_view())
                == spec_platform_events(sv.children, 0, acc0),
        decreases n - i,
    {
        match se.child_at(i) {
            XmlNode::Element(pe) => {
                match decode_platform(pe) {
                    Ok(p) => {
                        let ghost before = *events;
                        let ev = RegistryEvent::Platform(p);
                        let ghost eg = ev;
                        events.push(ev);
                        proof {
                            vec_deep_view_push(before, *events, eg);
                        }
                    },
                    Err(er) => {
                        return Err(er);
                    },
                }
            },
            _ => {},
        }
        i += 1;
    }
    Ok(())
}

/// Walks one `tags` section, appending its events.
fn parse_tags(se: &XmlElement, events: &mut Vec<RegistryEvent>) -> (r: Result<(), ParseError>)
    ensures
        r is Ok ==> spec_tag_events(view_element(*se).children, 0, old(events).deep_view())
            == Ok::<_, ParseErrorV>(final(events).deep_view()),
        r matches Err(er) ==> spec_tag_events(
            view_element(*se).children,
            0,
            old(events).deep_view(),
        ) == Err::<Seq<RegistryEventV>, _>(er.deep_view()),
{
    let ghost sv = view_element(*se);
    let ghost acc0 = old(events).deep_view();
    let n = se.child_count();
    let mut i: usize = 0;
    while i < n
        invariant
            n == sv.children.len(),
            i <= n,
            sv == view_element(*se),
            spec_tag_events(sv.children, i as int, events.deep_view())
                == spec_tag_events(sv.children, 0, acc0),
        decreases n - i,
    {
        match se.child_at(i) {
            XmlNode::Element(te) => {
                match decode_tag(te) {
                    Ok(t) => {
                        let ghost before = *events;
                        let ev = RegistryEvent::Tag(t);
                        let ghost eg = ev;
                        events.push(ev);
                        proof {
                            vec_deep_view_push(before, *events, eg);
                        }
                    },
                    Err(er) => {
                        return Err(er);
                    },
                }
            },
            _ => {},
        }
        i += 1;
    }
    Ok(())
}

/// Decodes one `<type>` node of the types section.
fn parse_type_node(te: &XmlElement) -> (r: Result<Option<RegistryEvent>, ParseError>)
    ensures
        match r {
            Ok(Some(ev)) => spec_type_event(view_element(*te)) == Ok::<_, ParseErrorV>(
                Some(ev.deep_view()),
            ),
            Ok(None) => spec_type_event(view_element(*te)) == Ok::<
                Option<RegistryEventV>,
                ParseErrorV,
            >(None),
            Err(er) => spec_type_event(view_element(*te)) == Err::<Option<RegistryEventV>, _>(
                er.deep_view(),
            ),
        },
{
    let cat = match te.attribute("category") {
        None => {
            let has_name = te.has_attribute("name");
            let has_requires = te.has_attribute("requires");
            let cnt = te.attr_count();
            if (cnt == 2 && has_name && has_requires) || (cnt == 1 && has_name) {
                return Ok(None);
            } else {
                return Err(ParseError::UnexpectedElement(String::from_str("category")));
            }
        },
        Some(c) => c,
    };
    if str_eq(cat.as_str(), "include") || str_eq(cat.as_str(), "define") {
        Ok(None)
    } else if str_eq(cat.as_str(), "basetype") {
        match decode_typedef(te) {
            Ok(t) => Ok(Some(RegistryEvent::Basetype(t))),
            Err(er) => Err(er),
        }
    } else if str_eq(cat.as_str(), "bitmask") {
        match opt_attr(te, "alias") {
            Some(alias) => match opt_attr(te, "name") {
                Some(name) => Ok(
                    Some(RegistryEvent::BitmaskAlias(Alias { basetype: alias, aliastype: name })),
                ),
                None => Err(ParseError::MissingAttribute(String::from_str("name"))),
            },
            None => match decode_typedef(te) {
                Ok(t) => Ok(Some(RegistryEvent::BitmaskDefinition(t))),
                Err(er) => Err(er),
            },
        }
    } else if str_eq(cat.as_str(), "handle") {
        match opt_attr(te, "alias") {
            Some(alias) => match opt_attr(te, "name") {
                Some(name) => Ok(
                    Some(RegistryEvent::HandleAlias(Alias { basetype: alias, aliastype: name })),
                ),
                None => Err(ParseError::MissingAttribute(String::from_str("name"))),
            },
            None => match decode_handle(te) {
                Ok(h) => Ok(Some(RegistryEvent::Handle(h))),
                Err(er) => Err(er),
            },
        }
    } else if str_eq(cat.as_str(), "enum") {
        match opt_attr(te, "name") {
            None => Err(ParseError::MissingAttribute(String::from_str("name"))),
            Some(name) => match opt_attr(te, "alias") {
                Some(alias) => Ok(
                    Some(RegistryEvent::EnumAlias(Alias { basetype: alias, aliastype: name })),
                ),
                None => Ok(Some(RegistryEvent::EnumDefinition(EnumDefinition { name }))),
            },
        }
    } else if str_eq(cat.as_str(), "funcpointer") {
        match decode_funcpointer(te) {
            Ok(f) => Ok(Some(RegistryEvent::FunctionPointer(f))),
            Err(er) => Err(er),
        }
    } else if str_eq(cat.as_str(), "struct") {
        match decode_struct(te) {
            Ok(st) => Ok(Some(RegistryEvent::Struct(st))),
            Err(er) => Err(er),
        }
    } else if str_eq(cat.as_str(), "union") {
        match decode_union(te) {
            Ok(u) => Ok(Some(RegistryEvent::Union(u))),
            Err(er) => Err(er),
        }
    } else {
        Err(ParseError::UnexpectedElement(cat.clone()))
    }
}

/// Walks one `types` section, appending its events.
fn parse_types(se: &XmlElement, events: &mut Vec<RegistryEvent>) -> (r: Result<(), ParseError>)
    ensures
        r is Ok ==> spec_type_events(view_element(*se).children, 0, old(events).deep_view())
            == Ok::<_, ParseErrorV>(final(events).deep_view()),
        r matches Err(er) ==> spec_type_events(
            view_element(*se).children,
            0,
            old(events).deep_view(),
        ) == Err::<Seq<RegistryEventV>, _>(er.deep_view()),
{
    let ghost sv = view_element(*se);
    let ghost acc0 = old(events).deep_view();
    let n = se.child_count();
    let mut i: usize = 0;
    while i < n
        invariant
            n == sv.children.len(),
            i <= n,
            sv == view_element(*se),
            spec_type_events(sv.children, i as int, events.deep_view())
                == spec_type_events(sv.children, 0, acc0),
        decreases n - i,
    {
        match se.child_at(i) {
            XmlNode::Element(te) => {
                if str_eq(te.name.as_str(), "comment") {
                } else if !str_eq(te.name.as_str(), "type") {
                    return Err(ParseError::UnexpectedElement(te.name.clone()));
                } else {
                    match parse_type_node(te) {
                        Ok(Some(ev)) => {
                            let ghost before = *events;
                            let ghost eg = ev;
                            events.push(ev);
                            proof {
                                vec_deep_view_push(before, *events, eg);
                            }
                        },
                        Ok(None) => {},
                        Err(er) => {
                            return Err(er);
                        },
                    }
                }
            },
            _ => {},
        }
        i += 1;
    }
    Ok(())
}

/// Walks one `commands` section, appending its events.
fn parse_commands(se: &XmlElement, events: &mut Vec<RegistryEvent>) -> (r: Result<(), ParseError>)
    ensures
        r is Ok ==> spec_command_events(view_element(*se).children, 0, old(events).deep_view())
            == Ok::<_, ParseErrorV>(final(events).deep_view()),
        r matches Err(er) ==> spec_command_events(
            view_element(*se).children,
            0,
            old(events).deep_view(),
        ) == Err::<Seq<RegistryEventV>, _>(er.deep_view()),
{
    let ghost sv = view_element(*se);
    let ghost acc0 = old(events).deep_view();
    let n = se.child_count();
    let mut i: usize = 0;
    while i < n
        invariant
            n == sv.children.len(),
            i <= n,
            sv == view_element(*se),
            spec_command_events(sv.children, i as int, events.deep_view())
                == spec_command_events(sv.children, 0, acc0),
        decreases n - i,
    {
        match se.child_at(i) {
            XmlNode::Element(ce) => {
                let ev = match opt_attr(ce, "name") {
                    Some(name) => match opt_attr(ce, "alias") {
                        Some(alias) => RegistryEvent::CommandAlias(
                            Alias { basetype: alias, aliastype: name },
                        ),
                        None => {
                            return Err(ParseError::MissingAttribute(String::from_str("alias")));
                        },
                    },
                    None => match decode_command(ce) {
                        Ok(cm) => RegistryEvent::Command(cm),
                        Err(er) => {
                            return Err(er);
                        },
                    },
                };
                let ghost before = *events;
                let ghost eg = ev;
                events.push(ev);
                proof {
                    vec_deep_view_push(before, *events, eg);
                }
            },
            _ => {},
        }
        i += 1;
    }
    Ok(())
}

/// Walks one `extensions` section, appending its events.
fn parse_extensions(se: &XmlElement, events: &mut Vec<RegistryEvent>) -> (r: Result<
    (),
    ParseError,
>)
    ensures
        r is Ok ==> spec_extension_events(view_element(*se).children, 0, old(events).deep_view())
            == Ok::<_, ParseErrorV>(final(events).deep_view()),
        r matches Err(er) ==> spec_extension_events(
            view_element(*se).children,
            0,
            old(events).deep_view(),
        ) == Err::<Seq<RegistryEventV>, _>(er.deep_view()),
{
    let ghost sv = view_element(*se);
    let ghost acc0 = old(events).deep_view();
    let n = se.child_count();
    let mut i: usize = 0;
    while i < n
        invariant
            n == sv.children.len(),
            i <= n,
            sv == view_element(*se),
            spec_extension_events(sv.children, i as int, events.deep_view())
                == spec_extension_events(sv.children, 0, acc0),
        decreases n - i,
    {
        match se.child_at(i) {
            XmlNode::Element(xe) => {
                if str_eq(xe.name.as_str(), "comment") {
                } else {
                    match decode_extension(xe) {
                        Ok(x) => {
                            let ghost before = *events;
                            let ev = RegistryEvent::Extension(x);
                            let ghost eg = ev;
                            events.push(ev);
                            proof {
                                vec_deep_view_push(before, *events, eg);
                            }
                        },
                        Err(er) => {
                            return Err(er);
                        },
                    }
                }
            },
            _ => {},
        }
        i += 1;
    }
    Ok(())
}

/// Parses a whole registry document into its ordered event stream.
///
/// Every record that the walk yields is exactly what the category
/// decoders say; the walk aborts on the first malformed node, and a name
/// that is both concretely defined and aliased within one category is an
/// `UnexpectedRepeat`.
pub fn parse_registry(root: &XmlElement) -> (r: Result<Vec<RegistryEvent>, ParseError>)
    ensures
        res_view(r) == spec_parse_registry(view_element(*root)),
{
    let ghost rv = view_element(*root);
    let mut events: Vec<RegistryEvent> = Vec::new();
    proof {
        assert(events.deep_view() =~= Seq::<RegistryEventV>::empty());
    }
    let n = root.child_count();
    let mut i: usize = 0;
    while i < n
        invariant
            n == rv.children.len(),
            i <= n,
            rv == view_element(*root),
            spec_sections(rv.children, i as int, events.deep_view())
                == spec_sections(rv.children, 0, Seq::empty()),
        decreases n - i,
    {
        match root.child_at(i) {
            XmlNode::Element(se) => {
                if str_eq(se.name.as_str(), "comment") {
                } else if str_eq(se.name.as_str(), "platforms") {
                    match parse_platforms(se, &mut events) {
                        Ok(_) => {},
                        Err(er) => {
                            return Err(er);
                        },
                    }
                } else if str_eq(se.name.as_str(), "tags") {
                    match parse_tags(se, &mut events) {
                        Ok(_) => {},
                        Err(er) => {
                            return Err(er);
                        },
                    }
                } else if str_eq(se.name.as_str(), "types") {
                    match parse_types(se, &mut events) {
                        Ok(_) => {},
                        Err(er) => {
                            return Err(er);
                        },
                    }
                } else if str_eq(se.name.as_str(), "enums") {
                    match decode_enum(se) {
                        Ok(en) => {
                            let ghost before = events;
                            let ev = RegistryEvent::Enum(en);
                            let ghost eg = ev;
                            events.push(ev);
                            proof {
                                vec_deep_view_push(before, events, eg);
                            }
                        },
                        Err(er) => {
                            return Err(er);
                        },
                    }
                } else if str_eq(se.name.as_str(), "commands") {
                    match parse_commands(se, &mut events) {
                        Ok(_) => {},
                        Err(er) => {
                            return Err(er);
                        },
                    }
                } else if str_eq(se.name.as_str(), "feature") {
                    match decode_feature(se) {
                        Ok(f) => {
                            let ghost before = events;
                            let ev = RegistryEvent::Feature(f);
                            let ghost eg = ev;
                            events.push(ev);
                            proof {
                                vec_deep_view_push(before, events, eg);
                            }
                        },
                        Err(er) => {
                            return Err(er);
                        },
                    }
                } else if str_eq(se.name.as_str(), "extensions") {
                    match parse_extensions(se, &mut events) {
                        Ok(_) => {},
                        Err(er) => {
                            return Err(er);
                        },
                    }
                } else {
                    return Err(ParseError::UnexpectedElement(se.name.clone()));
                }
            },
            _ => {},
        }
        i += 1;
    }
    match check_duplicates(&events) {
        Ok(_) => Ok(events),
        Err(er) => Err(er),
    }
}

} // verus!
