//! Bitmask field extraction: validates each enumerant of a bitmask-class
//! enum against its owner's naming metadata and rewrites the raw name to
//! the semantic field name between header and trailer.

use vstd::prelude::*;
use crate::error::{ParseError, ParseErrorV, res_view};
use crate::strutil::{
    str_eq, all_digits, dec_val, parse_dec_usize, vec_deep_view_push, char_is_digit, is_digit,
};
use crate::xml::{XmlElement, view_element, spec_attr};
use crate::decode::{spec_expect_attr, expect_attr, opt_attr};
use crate::records::{Enum, EnumMember, EnumMemberV};
use crate::names::VulkanName;

verus! {

/// An enumerant carrying a literal value, with its raw name kept.
#[derive(Debug, PartialEq, Eq)]
pub struct EnumValueField {
    /// the full name as the document spells it
    pub name: String,
    /// whatever value text the document carries
    pub value: String,
    /// the comment, when the document has one
    pub comment: Option<String>,
}

pub struct EnumValueFieldV {
    pub name: Seq<char>,
    pub value: Seq<char>,
    pub comment: Option<Seq<char>>,
}

impl DeepView for EnumValueField {
    type V = EnumValueFieldV;

    open spec fn deep_view(&self) -> EnumValueFieldV {
        EnumValueFieldV {
            name: self.name@,
            value: self.value@,
            comment: self.comment.deep_view(),
        }
    }
}

/// An enumerant that renames another one.
#[derive(Debug, PartialEq, Eq)]
pub struct EnumAliasField {
    /// the full name of this field
    pub name: String,
    /// the field this one is an alias of
    pub basefield: String,
    /// the comment, when the document has one
    pub comment: Option<String>,
}

pub struct EnumAliasFieldV {
    pub name: Seq<char>,
    pub basefield: Seq<char>,
    pub comment: Option<Seq<char>>,
}

impl DeepView for EnumAliasField {
    type V = EnumAliasFieldV;

    open spec fn deep_view(&self) -> EnumAliasFieldV {
        EnumAliasFieldV {
            name: self.name@,
            basefield: self.basefield@,
            comment: self.comment.deep_view(),
        }
    }
}

/// An enumerant that occupies a single bit.
#[derive(Debug, PartialEq, Eq)]
pub struct BitPosField {
    /// the full name as the document spells it
    pub name: String,
    /// which bit is set to one for this field
    pub bitpos: u32,
    /// the comment, when the document has one
    pub comment: Option<String>,
}

pub struct BitPosFieldV {
    pub name: Seq<char>,
    pub bitpos: int,
    pub comment: Option<Seq<char>>,
}

impl DeepView for BitPosField {
    type V = BitPosFieldV;

    open spec fn deep_view(&self) -> BitPosFieldV {
        BitPosFieldV {
            name: self.name@,
            bitpos: self.bitpos as int,
            comment: self.comment.deep_view(),
        }
    }
}

/// One enumerant of a bitmask-class enum, with its comment preserved.
#[derive(Debug, PartialEq, Eq)]
pub enum BitMaskField {
    Value(EnumValueField),
    BitPos(BitPosField),
    Alias(EnumAliasField),
}

pub enum BitMaskFieldV {
    Value(EnumValueFieldV),
    BitPos(BitPosFieldV),
    Alias(EnumAliasFieldV),
}

impl DeepView for BitMaskField {
    type V = BitMaskFieldV;

    open spec fn deep_view(&self) -> BitMaskFieldV {
        match self {
            BitMaskField::Value(f) => BitMaskFieldV::Value(f.deep_view()),
            BitMaskField::BitPos(f) => BitMaskFieldV::BitPos(f.deep_view()),
            BitMaskField::Alias(f) => BitMaskFieldV::Alias(f.deep_view()),
        }
    }
}

/// One `<enum>` field entry: the tag must be `enum`, the `name`
/// attribute is required, and exactly one of `bitpos`, `value` and
/// `alias` must be present.
pub open spec fn spec_bitmask_field(e: crate::xml::XmlElementV) -> Result<
    BitMaskFieldV,
    ParseErrorV,
> {
    if e.name != "enum"@ {
        Err(ParseErrorV::UnexpectedElement(e.name))
    } else {
        match spec_expect_attr(e, "name"@) {
            Err(er) => Err(er),
            Ok(name) => {
                let bitpos = spec_attr(e.attrs, "bitpos"@);
                let value = spec_attr(e.attrs, "value"@);
                let alias = spec_attr(e.attrs, "alias"@);
                let comment = spec_attr(e.attrs, "comment"@);
                match (bitpos, value, alias) {
                    (Some(b), None, None) => {
                        if b.len() > 0 && all_digits(b) && dec_val(b) <= u32::MAX {
                            Ok(
                                BitMaskFieldV::BitPos(
                                    BitPosFieldV { name, bitpos: dec_val(b) as int, comment },
                                ),
                            )
                        } else {
                            Err(ParseErrorV::MalformedNumeric(b))
                        }
                    },
                    (None, Some(v), None) => Ok(
                        BitMaskFieldV::Value(EnumValueFieldV { name, value: v, comment }),
                    ),
                    (None, None, Some(a)) => Ok(
                        BitMaskFieldV::Alias(EnumAliasFieldV { name, basefield: a, comment }),
                    ),
                    _ => Err(ParseErrorV::UnexpectedElement(name)),
                }
            },
        }
    }
}

impl BitMaskField {
    /// Decodes one enumerant entry of a bitmask-class enum.
    pub fn decode(e: &XmlElement) -> (r: Result<BitMaskField, ParseError>)
        ensures
            res_view(r) == spec_bitmask_field(view_element(*e)),
    {
        if !str_eq(e.name.as_str(), "enum") {
            return Err(ParseError::UnexpectedElement(e.name.clone()));
        }
        let name = match expect_attr(e, "name") {
            Ok(v) => v,
            Err(er) => {
                return Err(er);
            },
        };
        let bitpos = opt_attr(e, "bitpos");
        let value = opt_attr(e, "value");
        let alias = opt_attr(e, "alias");
        let comment = opt_attr(e, "comment");
        match (bitpos, value, alias) {
            (Some(b), None, None) => {
                match parse_dec_usize(b.as_str()) {
                    Some(bp) => {
                        if bp <= u32::MAX as usize {
                            Ok(
                                BitMaskField::BitPos(
                                    BitPosField { name, bitpos: bp as u32, comment },
                                ),
                            )
                        } else {
                            Err(ParseError::MalformedNumeric(b))
                        }
                    },
                    None => Err(ParseError::MalformedNumeric(b)),
                }
            },
            (None, Some(v), None) => Ok(
                BitMaskField::Value(EnumValueField { name, value: v, comment }),
            ),
            (None, None, Some(a)) => Ok(
                BitMaskField::Alias(EnumAliasField { name, basefield: a, comment }),
            ),
            _ => Err(ParseError::UnexpectedElement(name)),
        }
    }
}

// ---------------------------------------------------------------------------
// Extraction against the owner's naming metadata.
// ---------------------------------------------------------------------------

/// A validated, rewritten enumerant of a bitmask type.  Computing the
/// numeric mask of a bit field (one shifted left by the bit index) is
/// left to the consumer.
#[derive(Debug, PartialEq, Eq)]
pub enum FlagField {
    /// the semantic name after the header, and the verbatim value text
    Value { name: String, value: String },
    /// the semantic name between header and trailer, and the bit index
    Bit { name: String, bitpos: usize },
}

pub enum FlagFieldV {
    Value { name: Seq<char>, value: Seq<char> },
    Bit { name: Seq<char>, bitpos: int },
}

impl DeepView for FlagField {
    type V = FlagFieldV;

    open spec fn deep_view(&self) -> FlagFieldV {
        match self {
            FlagField::Value { name, value } => FlagFieldV::Value {
                name: name@,
                value: value@,
            },
            FlagField::Bit { name, bitpos } => FlagFieldV::Bit {
                name: name@,
                bitpos: *bitpos as int,
            },
        }
    }
}

/// `p` is a prefix of `s`.
pub open spec fn prefix_of(p: Seq<char>, s: Seq<char>) -> bool {
    s.len() >= p.len() && s.take(p.len() as int) == p
}

/// `t` is a suffix of `s`.
pub open spec fn suffix_of(t: Seq<char>, s: Seq<char>) -> bool {
    s.len() >= t.len() && s.skip(s.len() - t.len()) == t
}

/// The identifier for a header/trailer-stripped remainder: an all-digit
/// remainder is prefixed with a fixed non-numeric token, since an
/// identifier may not start with a digit.
pub open spec fn spec_field_ident(mid: Seq<char>) -> Seq<char> {
    if mid.len() > 0 && all_digits(mid) {
        "VALUE_"@ + mid
    } else {
        mid
    }
}

/// Numeric-tail rewrite: a remainder that is all decimal digits is
/// always rewritten with the fixed non-numeric prefix, and any other
/// remainder is kept verbatim.
pub proof fn lemma_numeric_tail_rewrite(mid: Seq<char>)
    ensures
        mid.len() > 0 && all_digits(mid) ==> spec_field_ident(mid) == "VALUE_"@ + mid,
        !(mid.len() > 0 && all_digits(mid)) ==> spec_field_ident(mid) == mid,
{
}

/// The validated and rewritten enumerants of a bitmask enum: every raw
/// name must start with the owner's header, bit fields must also end
/// with the owner's trailer, and aliases are dropped.
pub open spec fn spec_extract(
    members: Seq<EnumMemberV>,
    i: int,
    header: Seq<char>,
    trailer: Seq<char>,
    acc: Seq<FlagFieldV>,
) -> Result<Seq<FlagFieldV>, ParseErrorV>
    decreases members.len() - i,
{
    if i < 0 || i >= members.len() {
        Ok(acc)
    } else {
        match members[i] {
            EnumMemberV::Value(nm, val) => {
                if prefix_of(header, nm) {
                    spec_extract(
                        members,
                        i + 1,
                        header,
                        trailer,
                        acc.push(
                            FlagFieldV::Value { name: nm.skip(header.len() as int), value: val },
                        ),
                    )
                } else {
                    Err(ParseErrorV::MalformedGrammar(nm))
                }
            },
            EnumMemberV::BitPos(nm, b) => {
                if prefix_of(header, nm) && suffix_of(trailer, nm) && header.len() + trailer.len()
                    <= nm.len() {
                    let mid = nm.subrange(header.len() as int, nm.len() - trailer.len());
                    spec_extract(
                        members,
                        i + 1,
                        header,
                        trailer,
                        acc.push(FlagFieldV::Bit { name: spec_field_ident(mid), bitpos: b }),
                    )
                } else {
                    Err(ParseErrorV::MalformedGrammar(nm))
                }
            },
            EnumMemberV::Alias(_, _) => spec_extract(members, i + 1, header, trailer, acc),
        }
    }
}

/// `s` starts with `p`.
pub fn str_starts_with(s: &str, p: &str) -> (r: bool)
    ensures
        r == prefix_of(p@, s@),
{
    let slen = s.unicode_len();
    let plen = p.unicode_len();
    if plen > slen {
        return false;
    }
    let head = s.substring_char(0, plen);
    let r = str_eq(head, p);
    proof {
        assert(s@.take(plen as int) == s@.subrange(0, plen as int));
    }
    r
}

/// `s` ends with `t`.
pub fn str_ends_with(s: &str, t: &str) -> (r: bool)
    ensures
        r == suffix_of(t@, s@),
{
    let slen = s.unicode_len();
    let tlen = t.unicode_len();
    if tlen > slen {
        return false;
    }
    let tail = s.substring_char(slen - tlen, slen);
    let r = str_eq(tail, t);
    proof {
        assert(s@.skip(slen - tlen) == s@.subrange(slen - tlen, slen as int));
    }
    r
}

/// Rewrites a stripped remainder into a usable identifier.
fn field_ident(mid: &str) -> (r: String)
    ensures
        r@ == spec_field_ident(mid@),
{
    let len = mid.unicode_len();
    if len == 0 {
        return String::from_str(mid);
    }
    let mut i: usize = 0;
    while i < len
        invariant
            len == mid@.len(),
            i <= len,
            forall|j: int| 0 <= j < i ==> is_digit(#[trigger] mid@[j]),
        decreases len - i,
    {
        if !char_is_digit(mid.get_char(i)) {
            assert(!all_digits(mid@));
            return String::from_str(mid);
        }
        i += 1;
    }
    assert(all_digits(mid@));
    let mut out = String::from_str("VALUE_");
    out.append(mid);
    out
}

/// Validates and rewrites the enumerants of a bitmask enum against its
/// owner's naming metadata.
///
/// On success every non-alias member's raw name starts with the owner's
/// `enum_header`, and every bit member's raw name also ends with the
/// owner's `bit_enum_trailer`; the yielded names are the text between
/// the two, rewritten where purely numeric.
pub fn extract_bitmask_fields(e: &Enum, owner: &VulkanName) -> (r: Result<
    Vec<FlagField>,
    ParseError,
>)
    ensures
        res_view(r) == spec_extract(
            e.deep_view().members,
            0,
            owner.enum_header@,
            owner.bit_enum_trailer@,
            Seq::empty(),
        ),
        r is Ok ==> forall|j: int|
            0 <= j < e.deep_view().members.len() ==> member_header_ok(
                #[trigger] e.deep_view().members[j],
                owner.enum_header@,
            ),
{
    let ghost mv = e.deep_view().members;
    let ghost header = owner.enum_header@;
    let ghost trailer = owner.bit_enum_trailer@;
    let mut out: Vec<FlagField> = Vec::new();
    proof {
        assert(out.deep_view() =~= Seq::<FlagFieldV>::empty());
    }
    let mut i: usize = 0;
    while i < e.members.len()
        invariant
            i <= e.members.len(),
            mv == e.deep_view().members,
            mv.len() == e.members.len(),
            header == owner.enum_header@,
            trailer == owner.bit_enum_trailer@,
            spec_extract(mv, i as int, header, trailer, out.deep_view())
                == spec_extract(mv, 0, header, trailer, Seq::empty()),
        decreases e.members.len() - i,
    {
        assert(mv[i as int] == e.members[i as int].deep_view());
        match &e.members[i] {
            EnumMember::Value(nm, val) => {
                if !str_starts_with(nm.as_str(), owner.enum_header.as_str()) {
                    return Err(ParseError::MalformedGrammar(nm.clone()));
                }
                let hlen = owner.enum_header.as_str().unicode_len();
                let stripped = nm.as_str().substring_char(hlen, nm.as_str().unicode_len());
                proof {
                    assert(stripped@ =~= nm@.skip(hlen as int));
                }
                let f = FlagField::Value { name: String::from_str(stripped), value: val.clone() };
                let ghost before = out;
                let ghost fg = f;
                out.push(f);
                proof {
                    vec_deep_view_push(before, out, fg);
                }
            },
            EnumMember::BitPos(nm, b) => {
                let header_ok = str_starts_with(nm.as_str(), owner.enum_header.as_str());
                let trailer_ok = str_ends_with(nm.as_str(), owner.bit_enum_trailer.as_str());
                let hlen = owner.enum_header.as_str().unicode_len();
                let tlen = owner.bit_enum_trailer.as_str().unicode_len();
                let nlen = nm.as_str().unicode_len();
                if !header_ok || !trailer_ok {
                    return Err(ParseError::MalformedGrammar(nm.clone()));
                }
                if tlen > nlen - hlen {
                    return Err(ParseError::MalformedGrammar(nm.clone()));
                }
                let mid = nm.as_str().substring_char(hlen, nlen - tlen);
                let f = FlagField::Bit { name: field_ident(mid), bitpos: *b };
                let ghost before = out;
                let ghost fg = f;
                out.push(f);
                proof {
                    vec_deep_view_push(before, out, fg);
                }
            },
            EnumMember::Alias(_, _) => {},
        }
        i += 1;
    }
    proof {
        lemma_extract_header_containment(mv, 0, header, trailer, Seq::empty());
    }
    Ok(out)
}

/// A member's raw name is contained under the header: aliases are
/// exempt, everything else must start with it.
pub open spec fn member_header_ok(m: EnumMemberV, header: Seq<char>) -> bool {
    match m {
        EnumMemberV::Value(nm, _) => prefix_of(header, nm),
        EnumMemberV::BitPos(nm, _) => prefix_of(header, nm),
        EnumMemberV::Alias(_, _) => true,
    }
}

/// Header containment: when extraction succeeds on a bitmask enum, every
/// one of its member names starts with the owner's header.
pub proof fn lemma_extract_header_containment(
    members: Seq<EnumMemberV>,
    i: int,
    header: Seq<char>,
    trailer: Seq<char>,
    acc: Seq<FlagFieldV>,
)
    requires
        0 <= i <= members.len(),
    ensures
        spec_extract(members, i, header, trailer, acc) is Ok ==> forall|j: int|
            i <= j < members.len() ==> member_header_ok(#[trigger] members[j], header),
    decreases members.len() - i,
{
    if i < members.len() {
        match members[i] {
            EnumMemberV::Value(nm, val) => {
                if prefix_of(header, nm) {
                    lemma_extract_header_containment(
                        members,
                        i + 1,
                        header,
                        trailer,
                        acc.push(
                            FlagFieldV::Value { name: nm.skip(header.len() as int), value: val },
                        ),
                    );
                }
            },
            EnumMemberV::BitPos(nm, b) => {
                if prefix_of(header, nm) && suffix_of(trailer, nm) && header.len() + trailer.len()
                    <= nm.len() {
                    let mid = nm.subrange(header.len() as int, nm.len() - trailer.len());
                    lemma_extract_header_containment(
                        members,
                        i + 1,
                        header,
                        trailer,
                        acc.push(FlagFieldV::Bit { name: spec_field_ident(mid), bitpos: b }),
                    );
                }
            },
            EnumMemberV::Alias(_, _) => {
                lemma_extract_header_containment(members, i + 1, header, trailer, acc);
            },
        }
    }
}

} // verus!
