//! The structured class definition a parsed description yields: the class
//! name, the parents whose capability it inherits, and its ordered members.

use vstd::prelude::*;

verus! {

/// The view of a sequence of owned strings.
pub open spec fn strings_view(ss: Seq<String>) -> Seq<Seq<char>> {
    ss.map_values(|s: String| s@)
}

/// A member or parameter type: the closed set of scalar kinds the boundary
/// supports, or a reference to another generated wrapper type.
#[derive(Debug, PartialEq)]
pub enum Type {
    /// Text.
    Str,
    /// Boolean.
    Bool,
    /// Signed 16-bit integer.
    I16,
    /// Signed 32-bit integer.
    I32,
    /// Signed 64-bit integer.
    I64,
    /// Unsigned 8-bit integer.
    U8,
    /// Unsigned 16-bit integer.
    U16,
    /// Unsigned 32-bit integer.
    U32,
    /// Unsigned 64-bit integer.
    U64,
    /// Another generated wrapper type, by name.
    Object(String),
}

/// The ghost shape of a [`Type`].
pub enum SpecType {
    Str,
    Bool,
    I16,
    I32,
    I64,
    U8,
    U16,
    U32,
    U64,
    Object(Seq<char>),
}

impl View for Type {
    type V = SpecType;

    open spec fn view(&self) -> SpecType {
        match self {
            Type::Str => SpecType::Str,
            Type::Bool => SpecType::Bool,
            Type::I16 => SpecType::I16,
            Type::I32 => SpecType::I32,
            Type::I64 => SpecType::I64,
            Type::U8 => SpecType::U8,
            Type::U16 => SpecType::U16,
            Type::U32 => SpecType::U32,
            Type::U64 => SpecType::U64,
            Type::Object(s) => SpecType::Object(s@),
        }
    }
}

/// The view of a sequence of types.
pub open spec fn types_view(ts: Seq<Type>) -> Seq<SpecType> {
    ts.map_values(|t: Type| t@)
}

/// One member of a class: a property with its mutability, or a method with
/// its positional parameter types and optional return type.  The attached
/// attributes are carried so generation can reattach them to every accessor
/// derived from the member.
#[derive(Debug, PartialEq)]
pub enum Member {
    /// A property.  A mutable property yields a getter and a setter, an
    /// immutable one only a getter.
    Property {
        /// Attributes and documentation attached to the member, verbatim.
        attributes: Vec<String>,
        /// The member name, as the boundary knows it.
        name: String,
        /// The property type.
        ty: Type,
        /// Whether the property was declared with the mutability marker.
        mutable: bool,
    },
    /// A method.
    Method {
        /// Attributes and documentation attached to the member, verbatim.
        attributes: Vec<String>,
        /// The member name, as the boundary knows it.
        name: String,
        /// The parameter types, in declaration order.
        params: Vec<Type>,
        /// The return type; absent means the "no value" result.
        ret: Option<Type>,
    },
}

/// The ghost shape of a [`Member`].
pub enum SpecMember {
    Property { attributes: Seq<Seq<char>>, name: Seq<char>, ty: SpecType, mutable: bool },
    Method {
        attributes: Seq<Seq<char>>,
        name: Seq<char>,
        params: Seq<SpecType>,
        ret: Option<SpecType>,
    },
}

impl View for Member {
    type V = SpecMember;

    open spec fn view(&self) -> SpecMember {
        match self {
            Member::Property { attributes, name, ty, mutable } => SpecMember::Property {
                attributes: strings_view(attributes@),
                name: name@,
                ty: ty@,
                mutable: *mutable,
            },
            Member::Method { attributes, name, params, ret } => SpecMember::Method {
                attributes: strings_view(attributes@),
                name: name@,
                params: types_view(params@),
                ret: match ret {
                    Some(t) => Some(t@),
                    None => None,
                },
            },
        }
    }
}

/// The view of a sequence of members.
pub open spec fn members_view(ms: Seq<Member>) -> Seq<SpecMember> {
    ms.map_values(|m: Member| m@)
}

/// A parsed class description: name, attached attributes, the parents whose
/// capability is inherited, and the ordered members.  It exists only during
/// generation.
#[derive(Debug, PartialEq)]
pub struct ClassDefinition {
    /// Attributes and documentation attached to the class, verbatim.
    pub attributes: Vec<String>,
    /// The class name; names the wrapper type.
    pub name: String,
    /// The parent class names, in declaration order.
    pub parents: Vec<String>,
    /// The members, in declaration order.
    pub members: Vec<Member>,
}

/// The ghost shape of a [`ClassDefinition`].
pub struct SpecClassDefinition {
    pub attributes: Seq<Seq<char>>,
    pub name: Seq<char>,
    pub parents: Seq<Seq<char>>,
    pub members: Seq<SpecMember>,
}

impl View for ClassDefinition {
    type V = SpecClassDefinition;

    open spec fn view(&self) -> SpecClassDefinition {
        SpecClassDefinition {
            attributes: strings_view(self.attributes@),
            name: self.name@,
            parents: strings_view(self.parents@),
            members: members_view(self.members@),
        }
    }
}

} // verus!
