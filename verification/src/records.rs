//! The typed records that a parse run produces, with their ghost images.
//!
//! Every record is produced once, is immutable thereafter, and carries
//! what the document says with very little processing.

use vstd::prelude::*;
use crate::decl::{Type, TypeV, type_view};

verus! {

/// A platform entry: name, guard macro, and description.
#[derive(Debug, PartialEq, Eq)]
pub struct PlatformDefinition {
    pub name: String,
    pub protect: String,
    pub comment: String,
}

pub struct PlatformDefinitionV {
    pub name: Seq<char>,
    pub protect: Seq<char>,
    pub comment: Seq<char>,
}

impl DeepView for PlatformDefinition {
    type V = PlatformDefinitionV;

    open spec fn deep_view(&self) -> PlatformDefinitionV {
        PlatformDefinitionV { name: self.name@, protect: self.protect@, comment: self.comment@ }
    }
}

/// A vendor/author tag entry.
#[derive(Debug, PartialEq, Eq)]
pub struct TagDefinition {
    pub name: String,
    pub author: String,
    pub contact: String,
}

pub struct TagDefinitionV {
    pub name: Seq<char>,
    pub author: Seq<char>,
    pub contact: Seq<char>,
}

impl DeepView for TagDefinition {
    type V = TagDefinitionV;

    open spec fn deep_view(&self) -> TagDefinitionV {
        TagDefinitionV { name: self.name@, author: self.author@, contact: self.contact@ }
    }
}

/// Anything that is a typedef: `typedef <basetype> <alias>;`.
#[derive(Debug, PartialEq, Eq)]
pub struct Typedef {
    pub basetype: String,
    pub alias: String,
}

pub struct TypedefV {
    pub basetype: Seq<char>,
    pub alias: Seq<char>,
}

impl DeepView for Typedef {
    type V = TypedefV;

    open spec fn deep_view(&self) -> TypedefV {
        TypedefV { basetype: self.basetype@, alias: self.alias@ }
    }
}

/// A rename relation: `aliastype` is a new name for `basetype`.
#[derive(Debug, PartialEq, Eq)]
pub struct Alias {
    pub basetype: String,
    pub aliastype: String,
}

pub struct AliasV {
    pub basetype: Seq<char>,
    pub aliastype: Seq<char>,
}

impl DeepView for Alias {
    type V = AliasV;

    open spec fn deep_view(&self) -> AliasV {
        AliasV { basetype: self.basetype@, aliastype: self.aliastype@ }
    }
}

/// An opaque handle type.  A handle is non-dispatchable exactly when its
/// defining macro name carries the non-dispatchable marker.
#[derive(Debug, PartialEq, Eq)]
pub struct Handle {
    pub parent: Option<String>,
    pub is_dispatch: bool,
    pub name: String,
}

pub struct HandleV {
    pub parent: Option<Seq<char>>,
    pub is_dispatch: bool,
    pub name: Seq<char>,
}

impl DeepView for Handle {
    type V = HandleV;

    open spec fn deep_view(&self) -> HandleV {
        HandleV {
            parent: self.parent.deep_view(),
            is_dispatch: self.is_dispatch,
            name: self.name@,
        }
    }
}

/// The bare name of an enum type declared in the types section.
#[derive(Debug, PartialEq, Eq)]
pub struct EnumDefinition {
    pub name: String,
}

pub struct EnumDefinitionV {
    pub name: Seq<char>,
}

impl DeepView for EnumDefinition {
    type V = EnumDefinitionV;

    open spec fn deep_view(&self) -> EnumDefinitionV {
        EnumDefinitionV { name: self.name@ }
    }
}

/// A typedefed function pointer: name, return type, ordered arguments.
#[derive(Debug, PartialEq, Eq)]
pub struct FunctionPointer {
    pub name: String,
    pub return_type: Type,
    pub arguments: Vec<(String, Type)>,
}

pub struct FunctionPointerV {
    pub name: Seq<char>,
    pub return_type: TypeV,
    pub arguments: Seq<(Seq<char>, TypeV)>,
}

impl DeepView for FunctionPointer {
    type V = FunctionPointerV;

    open spec fn deep_view(&self) -> FunctionPointerV {
        FunctionPointerV {
            name: self.name@,
            return_type: type_view(self.return_type),
            arguments: self.arguments.deep_view(),
        }
    }
}

/// One member of a struct or union, exactly as the document gives it.
#[derive(Debug, PartialEq, Eq)]
pub struct Member {
    pub name: String,
    pub typ: Type,
    pub values: Option<String>,
    pub len: Option<String>,
    pub altlen: Option<String>,
    pub noautovalidity: bool,
    pub optional: Option<String>,
}

pub struct MemberV {
    pub name: Seq<char>,
    pub typ: TypeV,
    pub values: Option<Seq<char>>,
    pub len: Option<Seq<char>>,
    pub altlen: Option<Seq<char>>,
    pub noautovalidity: bool,
    pub optional: Option<Seq<char>>,
}

impl DeepView for Member {
    type V = MemberV;

    open spec fn deep_view(&self) -> MemberV {
        MemberV {
            name: self.name@,
            typ: type_view(self.typ),
            values: self.values.deep_view(),
            len: self.len.deep_view(),
            altlen: self.altlen.deep_view(),
            noautovalidity: self.noautovalidity,
            optional: self.optional.deep_view(),
        }
    }
}

/// A struct type with its ordered members.
#[derive(Debug, PartialEq, Eq)]
pub struct Struct {
    pub name: String,
    pub structextends: Option<String>,
    pub returnedonly: bool,
    pub members: Vec<Member>,
}

pub struct StructV {
    pub name: Seq<char>,
    pub structextends: Option<Seq<char>>,
    pub returnedonly: bool,
    pub members: Seq<MemberV>,
}

impl DeepView for Struct {
    type V = StructV;

    open spec fn deep_view(&self) -> StructV {
        StructV {
            name: self.name@,
            structextends: self.structextends.deep_view(),
            returnedonly: self.returnedonly,
            members: self.members.deep_view(),
        }
    }
}

/// A union type with its ordered members.
#[derive(Debug, PartialEq, Eq)]
pub struct Union {
    pub name: String,
    pub members: Vec<Member>,
}

pub struct UnionV {
    pub name: Seq<char>,
    pub members: Seq<MemberV>,
}

impl DeepView for Union {
    type V = UnionV;

    open spec fn deep_view(&self) -> UnionV {
        UnionV { name: self.name@, members: self.members.deep_view() }
    }
}

/// One enumerant: exactly one of a literal value, a bit position, or an
/// alias of another enumerant.
#[derive(Debug, PartialEq, Eq)]
pub enum EnumMember {
    /// name, bit index
    BitPos(String, usize),
    /// name, literal text
    Value(String, String),
    /// name, base name
    Alias(String, String),
}

pub enum EnumMemberV {
    BitPos(Seq<char>, int),
    Value(Seq<char>, Seq<char>),
    Alias(Seq<char>, Seq<char>),
}

impl DeepView for EnumMember {
    type V = EnumMemberV;

    open spec fn deep_view(&self) -> EnumMemberV {
        match self {
            EnumMember::BitPos(n, b) => EnumMemberV::BitPos(n@, *b as int),
            EnumMember::Value(n, v) => EnumMemberV::Value(n@, v@),
            EnumMember::Alias(n, a) => EnumMemberV::Alias(n@, a@),
        }
    }
}

/// The three classes of an enums section.
#[derive(Debug, PartialEq, Eq, Clone, Copy)]
pub enum EnumType {
    APIConstants,
    Enum,
    BitMask,
}

impl DeepView for EnumType {
    type V = EnumType;

    open spec fn deep_view(&self) -> EnumType {
        *self
    }
}

/// One enums section: its name, class, and ordered enumerants.
#[derive(Debug, PartialEq, Eq)]
pub struct Enum {
    pub name: String,
    pub enum_type: EnumType,
    pub members: Vec<EnumMember>,
}

pub struct EnumV {
    pub name: Seq<char>,
    pub enum_type: EnumType,
    pub members: Seq<EnumMemberV>,
}

impl DeepView for Enum {
    type V = EnumV;

    open spec fn deep_view(&self) -> EnumV {
        EnumV { name: self.name@, enum_type: self.enum_type, members: self.members.deep_view() }
    }
}

/// A command's prototype: return type and name.
#[derive(Debug, PartialEq, Eq)]
pub struct CommandProto {
    pub typ: Type,
    pub name: String,
}

pub struct CommandProtoV {
    pub typ: TypeV,
    pub name: Seq<char>,
}

impl DeepView for CommandProto {
    type V = CommandProtoV;

    open spec fn deep_view(&self) -> CommandProtoV {
        CommandProtoV { typ: type_view(self.typ), name: self.name@ }
    }
}

/// One parameter of a command.
#[derive(Debug, PartialEq, Eq)]
pub struct CommandParam {
    pub typ: Type,
    pub name: String,
    pub optional: Option<String>,
    pub externsync: Option<String>,
    pub len: Option<String>,
}

pub struct CommandParamV {
    pub typ: TypeV,
    pub name: Seq<char>,
    pub optional: Option<Seq<char>>,
    pub externsync: Option<Seq<char>>,
    pub len: Option<Seq<char>>,
}

impl DeepView for CommandParam {
    type V = CommandParamV;

    open spec fn deep_view(&self) -> CommandParamV {
        CommandParamV {
            typ: type_view(self.typ),
            name: self.name@,
            optional: self.optional.deep_view(),
            externsync: self.externsync.deep_view(),
            len: self.len.deep_view(),
        }
    }
}

/// A command: prototype, ordered parameters, and its constraints.
#[derive(Debug, PartialEq, Eq)]
pub struct Command {
    pub proto: CommandProto,
    pub params: Vec<CommandParam>,
    pub successcodes: Option<String>,
    pub errorcodes: Option<String>,
    pub queues: Option<String>,
    pub renderpass: Option<String>,
    pub cmdbufferlevel: Option<String>,
    pub pipeline: Option<String>,
}

pub struct CommandV {
    pub proto: CommandProtoV,
    pub params: Seq<CommandParamV>,
    pub successcodes: Option<Seq<char>>,
    pub errorcodes: Option<Seq<char>>,
    pub queues: Option<Seq<char>>,
    pub renderpass: Option<Seq<char>>,
    pub cmdbufferlevel: Option<Seq<char>>,
    pub pipeline: Option<Seq<char>>,
}

impl DeepView for Command {
    type V = CommandV;

    open spec fn deep_view(&self) -> CommandV {
        CommandV {
            proto: self.proto.deep_view(),
            params: self.params.deep_view(),
            successcodes: self.successcodes.deep_view(),
            errorcodes: self.errorcodes.deep_view(),
            queues: self.queues.deep_view(),
            renderpass: self.renderpass.deep_view(),
            cmdbufferlevel: self.cmdbufferlevel.deep_view(),
            pipeline: self.pipeline.deep_view(),
        }
    }
}

/// An enumerant demanded by a feature or extension; its offset, bit
/// position and extension number are preserved verbatim, never resolved.
#[derive(Debug, PartialEq, Eq)]
pub struct EnumRequire {
    pub name: String,
    pub extends: Option<String>,
    pub extnumber: Option<String>,
    pub offset: Option<String>,
    pub bitpos: Option<String>,
    pub dir: Option<String>,
    pub value: Option<String>,
}

pub struct EnumRequireV {
    pub name: Seq<char>,
    pub extends: Option<Seq<char>>,
    pub extnumber: Option<Seq<char>>,
    pub offset: Option<Seq<char>>,
    pub bitpos: Option<Seq<char>>,
    pub dir: Option<Seq<char>>,
    pub value: Option<Seq<char>>,
}

impl DeepView for EnumRequire {
    type V = EnumRequireV;

    open spec fn deep_view(&self) -> EnumRequireV {
        EnumRequireV {
            name: self.name@,
            extends: self.extends.deep_view(),
            extnumber: self.extnumber.deep_view(),
            offset: self.offset.deep_view(),
            bitpos: self.bitpos.deep_view(),
            dir: self.dir.deep_view(),
            value: self.value.deep_view(),
        }
    }
}

/// One demand inside a require group.
#[derive(Debug, PartialEq, Eq)]
pub enum Require {
    Type(String),
    Command(String),
    Enum(EnumRequire),
}

pub enum RequireV {
    Type(Seq<char>),
    Command(Seq<char>),
    Enum(EnumRequireV),
}

impl DeepView for Require {
    type V = RequireV;

    open spec fn deep_view(&self) -> RequireV {
        match self {
            Require::Type(n) => RequireV::Type(n@),
            Require::Command(n) => RequireV::Command(n@),
            Require::Enum(e) => RequireV::Enum(e.deep_view()),
        }
    }
}

/// A core API version with its ordered require groups.
#[derive(Debug, PartialEq, Eq)]
pub struct Feature {
    pub name: String,
    pub api: Option<String>,
    pub number: Option<String>,
    pub require_groups: Vec<Vec<Require>>,
}

pub struct FeatureV {
    pub name: Seq<char>,
    pub api: Option<Seq<char>>,
    pub number: Option<Seq<char>>,
    pub require_groups: Seq<Seq<RequireV>>,
}

impl DeepView for Feature {
    type V = FeatureV;

    open spec fn deep_view(&self) -> FeatureV {
        FeatureV {
            name: self.name@,
            api: self.api.deep_view(),
            number: self.number.deep_view(),
            require_groups: self.require_groups.deep_view(),
        }
    }
}

/// A vendor extension with its ordered require groups.
#[derive(Debug, PartialEq, Eq)]
pub struct Extension {
    pub name: String,
    pub number: String,
    pub typ: Option<String>,
    pub requires_attr: Option<String>,
    pub author: Option<String>,
    pub contact: Option<String>,
    pub supported: Option<String>,
    pub require_groups: Vec<Vec<Require>>,
}

pub struct ExtensionV {
    pub name: Seq<char>,
    pub number: Seq<char>,
    pub typ: Option<Seq<char>>,
    pub requires_attr: Option<Seq<char>>,
    pub author: Option<Seq<char>>,
    pub contact: Option<Seq<char>>,
    pub supported: Option<Seq<char>>,
    pub require_groups: Seq<Seq<RequireV>>,
}

impl DeepView for Extension {
    type V = ExtensionV;

    open spec fn deep_view(&self) -> ExtensionV {
        ExtensionV {
            name: self.name@,
            number: self.number@,
            typ: self.typ.deep_view(),
            requires_attr: self.requires_attr.deep_view(),
            author: self.author.deep_view(),
            contact: self.contact.deep_view(),
            supported: self.supported.deep_view(),
            require_groups: self.require_groups.deep_view(),
        }
    }
}

} // verus!
