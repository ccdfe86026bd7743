//! The code generator: turns a parsed class definition into the description
//! of the typed accessor surface — one wrapper type, one capability
//! interface, the accessors wired to the dispatch invoker, and the parent
//! delegations and upcasts.
//!
//! Accessor names are the case-normalized member names; a name that
//! collides with a reserved word of the language is escaped by a trailing
//! underscore, without changing the member name the boundary sees.  The
//! attributes attached to a member are reattached to every accessor derived
//! from it.

use vstd::prelude::*;
use vstd::string::StringExecFns;

use crate::ast::ClassDefinition;
use crate::ast::Member;
use crate::ast::SpecClassDefinition;
use crate::ast::SpecMember;
use crate::ast::SpecType;
use crate::ast::Type;
use crate::ast::members_view;
use crate::ast::strings_view;
use crate::ast::types_view;
use crate::error::GenerationError;
use crate::error::SpecGenerationError;
use crate::parse::is_lit;
use crate::parse::parse_class;
use crate::parse::spec_parse_class;
use crate::token::spec_tokenize;
use crate::token::tokenize;

verus! {

/// What the case normalization of an identifier returns.  It is computed by
/// an outside routine whose result depends on the characters alone; the
/// crate states nothing else about it.
pub uninterp spec fn snake_of(s: Seq<char>) -> Seq<char>;

/// Relies on heck's snake-case conversion for `str`: a pure function of the
/// characters, lower-casing words and separating them by underscores.
#[verifier::external_body]
fn to_snake_case(s: &str) -> (r: String)
    ensures
        r@ == snake_of(s@),
{
    heck::ToSnakeCase::to_snake_case(s)
}

/// The reserved words of the language generated accessors live in.
pub open spec fn spec_is_keyword(s: Seq<char>) -> bool {
    ||| s == "as"@
    ||| s == "abstract"@
    ||| s == "async"@
    ||| s == "await"@
    ||| s == "become"@
    ||| s == "box"@
    ||| s == "break"@
    ||| s == "const"@
    ||| s == "continue"@
    ||| s == "crate"@
    ||| s == "do"@
    ||| s == "dyn"@
    ||| s == "else"@
    ||| s == "enum"@
    ||| s == "false"@
    ||| s == "final"@
    ||| s == "fn"@
    ||| s == "for"@
    ||| s == "if"@
    ||| s == "impl"@
    ||| s == "in"@
    ||| s == "let"@
    ||| s == "loop"@
    ||| s == "macro"@
    ||| s == "match"@
    ||| s == "mod"@
    ||| s == "move"@
    ||| s == "mut"@
    ||| s == "override"@
    ||| s == "priv"@
    ||| s == "pub"@
    ||| s == "ref"@
    ||| s == "return"@
    ||| s == "self"@
    ||| s == "static"@
    ||| s == "struct"@
    ||| s == "super"@
    ||| s == "trait"@
    ||| s == "true"@
    ||| s == "try"@
    ||| s == "type"@
    ||| s == "typeof"@
    ||| s == "unsized"@
    ||| s == "use"@
    ||| s == "virtual"@
    ||| s == "where"@
    ||| s == "while"@
    ||| s == "yield"@
}

/// A generated identifier that collides with a reserved word is escaped by
/// a trailing underscore; any other passes through unchanged.
pub open spec fn spec_escape(s: Seq<char>) -> Seq<char> {
    if spec_is_keyword(s) {
        s + "_"@
    } else {
        s
    }
}

/// Reserved-word test, in executable form.
fn is_keyword(s: &String) -> (r: bool)
    ensures
        r == spec_is_keyword(s@),
{
    is_lit(s, "as") || is_lit(s, "abstract") || is_lit(s, "async") || is_lit(s, "await") || is_lit(
        s,
        "become",
    ) || is_lit(s, "box") || is_lit(s, "break") || is_lit(s, "const") || is_lit(s, "continue")
        || is_lit(s, "crate") || is_lit(s, "do") || is_lit(s, "dyn") || is_lit(s, "else") || is_lit(
        s,
        "enum",
    ) || is_lit(s, "false") || is_lit(s, "final") || is_lit(s, "fn") || is_lit(s, "for") || is_lit(
        s,
        "if",
    ) || is_lit(s, "impl") || is_lit(s, "in") || is_lit(s, "let") || is_lit(s, "loop") || is_lit(
        s,
        "macro",
    ) || is_lit(s, "match") || is_lit(s, "mod") || is_lit(s, "move") || is_lit(s, "mut") || is_lit(
        s,
        "override",
    ) || is_lit(s, "priv") || is_lit(s, "pub") || is_lit(s, "ref") || is_lit(s, "return") || is_lit(
        s,
        "self",
    ) || is_lit(s, "static") || is_lit(s, "struct") || is_lit(s, "super") || is_lit(s, "trait")
        || is_lit(s, "true") || is_lit(s, "try") || is_lit(s, "type") || is_lit(s, "typeof")
        || is_lit(s, "unsized") || is_lit(s, "use") || is_lit(s, "virtual") || is_lit(s, "where")
        || is_lit(s, "while") || is_lit(s, "yield")
}

/// Escape a generated identifier, in executable form.
fn escape_ident(s: String) -> (r: String)
    ensures
        r@ == spec_escape(s@),
{
    if is_keyword(&s) {
        let mut t = s;
        t.append("_");
        t
    } else {
        s
    }
}

/// How an accessor body reaches the boundary: which of the three dispatch
/// operations it performs.
#[derive(Clone, Copy, Debug, PartialEq, Eq, Structural)]
pub enum AccessorKind {
    /// A property read.
    PropertyGet,
    /// A property write.
    PropertyPut,
    /// A method call.
    MethodCall,
}

/// What an accessor returns: a value of a member type, or the "no value"
/// result.
#[derive(Debug, PartialEq)]
pub enum ReturnKind {
    /// The "no value" result.
    NoValue,
    /// A value of the given type; an object type rewraps the returned
    /// handle into the target wrapper type.
    Value(Type),
}

/// The ghost shape of a [`ReturnKind`].
pub enum SpecReturnKind {
    NoValue,
    Value(SpecType),
}

impl View for ReturnKind {
    type V = SpecReturnKind;

    open spec fn view(&self) -> SpecReturnKind {
        match self {
            ReturnKind::NoValue => SpecReturnKind::NoValue,
            ReturnKind::Value(t) => SpecReturnKind::Value(t@),
        }
    }
}

/// One generated accessor: its name in the generated surface, the member
/// name it submits to the boundary, the dispatch operation it performs, its
/// positional parameter types, and its result.
#[derive(Debug, PartialEq)]
pub struct Accessor {
    /// Attributes reattached from the member, verbatim.
    pub attributes: Vec<String>,
    /// The accessor's own name: the case-normalized member name, escaped if
    /// it collides with a reserved word.
    pub ident: String,
    /// The member name submitted to the boundary, unchanged.
    pub com_name: String,
    /// The dispatch operation the accessor performs.
    pub kind: AccessorKind,
    /// The positional parameter types, in declaration order.
    pub params: Vec<Type>,
    /// The accessor's result.
    pub result: ReturnKind,
}

/// The ghost shape of an [`Accessor`].
pub struct SpecAccessor {
    pub attributes: Seq<Seq<char>>,
    pub ident: Seq<char>,
    pub com_name: Seq<char>,
    pub kind: AccessorKind,
    pub params: Seq<SpecType>,
    pub result: SpecReturnKind,
}

impl View for Accessor {
    type V = SpecAccessor;

    open spec fn view(&self) -> SpecAccessor {
        SpecAccessor {
            attributes: strings_view(self.attributes@),
            ident: self.ident@,
            com_name: self.com_name@,
            kind: self.kind,
            params: types_view(self.params@),
            result: self.result@,
        }
    }
}

/// The view of a sequence of accessors.
pub open spec fn accessors_view(accs: Seq<Accessor>) -> Seq<SpecAccessor> {
    accs.map_values(|a: Accessor| a@)
}

/// Everything generated for one class: exactly one wrapper type and one
/// capability interface, the accessors of its members, and one delegated
/// interface implementation and one upcast per declared parent.
///
/// Every wrapper additionally carries the standing conventions of the
/// wrapper runtime: it is constructed from a raw handle, holds exactly that
/// one handle, and converts to and from an object-tagged boundary value by
/// wrapping and unwrapping the handle.
#[derive(Debug, PartialEq)]
pub struct GeneratedApi {
    /// Attributes reattached from the class, verbatim.
    pub attributes: Vec<String>,
    /// The wrapper type's name: the class name.
    pub wrapper_name: String,
    /// The capability interface's name.
    pub interface_name: String,
    /// The accessors, in member order; a mutable property contributes its
    /// getter then its setter.
    pub accessors: Vec<Accessor>,
    /// The parent capability interfaces the wrapper also implements, by
    /// delegation through its own handle.
    pub parent_interfaces: Vec<String>,
    /// The parent wrapper types the wrapper upcasts to.
    pub upcasts: Vec<String>,
}

/// The ghost shape of a [`GeneratedApi`].
pub struct SpecGeneratedApi {
    pub attributes: Seq<Seq<char>>,
    pub wrapper_name: Seq<char>,
    pub interface_name: Seq<char>,
    pub accessors: Seq<SpecAccessor>,
    pub parent_interfaces: Seq<Seq<char>>,
    pub upcasts: Seq<Seq<char>>,
}

impl View for GeneratedApi {
    type V = SpecGeneratedApi;

    open spec fn view(&self) -> SpecGeneratedApi {
        SpecGeneratedApi {
            attributes: strings_view(self.attributes@),
            wrapper_name: self.wrapper_name@,
            interface_name: self.interface_name@,
            accessors: accessors_view(self.accessors@),
            parent_interfaces: strings_view(self.parent_interfaces@),
            upcasts: strings_view(self.upcasts@),
        }
    }
}

/// The capability interface name derived from a class name.
pub open spec fn spec_interface_name(name: Seq<char>) -> Seq<char> {
    name + "Ext"@
}

/// The getter generated for a property.
pub open spec fn spec_getter(attrs: Seq<Seq<char>>, name: Seq<char>, ty: SpecType) -> SpecAccessor {
    SpecAccessor {
        attributes: attrs,
        ident: spec_escape(snake_of(name)),
        com_name: name,
        kind: AccessorKind::PropertyGet,
        params: Seq::empty(),
        result: SpecReturnKind::Value(ty),
    }
}

/// The setter generated for a mutable property.
pub open spec fn spec_setter(attrs: Seq<Seq<char>>, name: Seq<char>, ty: SpecType) -> SpecAccessor {
    SpecAccessor {
        attributes: attrs,
        ident: "set_"@ + snake_of(name),
        com_name: name,
        kind: AccessorKind::PropertyPut,
        params: seq![ty],
        result: SpecReturnKind::NoValue,
    }
}

/// The accessor generated for a method.
pub open spec fn spec_method_accessor(
    attrs: Seq<Seq<char>>,
    name: Seq<char>,
    params: Seq<SpecType>,
    ret: Option<SpecType>,
) -> SpecAccessor {
    SpecAccessor {
        attributes: attrs,
        ident: spec_escape(snake_of(name)),
        com_name: name,
        kind: AccessorKind::MethodCall,
        params,
        result: match ret {
            Some(t) => SpecReturnKind::Value(t),
            None => SpecReturnKind::NoValue,
        },
    }
}

/// The accessors one member contributes.
pub open spec fn spec_accessors_of_member(m: SpecMember) -> Seq<SpecAccessor> {
    match m {
        SpecMember::Property { attributes, name, ty, mutable } => {
            if mutable {
                seq![
                    spec_getter(attributes, name, ty),
                    spec_setter(attributes, name, ty),
                ]
            } else {
                seq![spec_getter(attributes, name, ty)]
            }
        },
        SpecMember::Method { attributes, name, params, ret } => {
            seq![spec_method_accessor(attributes, name, params, ret)]
        },
    }
}

/// The accessors of a member list, in member order.
pub open spec fn spec_accessors_of_members(ms: Seq<SpecMember>) -> Seq<SpecAccessor>
    decreases ms.len(),
{
    if ms.len() == 0 {
        Seq::empty()
    } else {
        spec_accessors_of_member(ms[0]) + spec_accessors_of_members(ms.subrange(1, ms.len() as int))
    }
}

/// What generation yields for a class: one wrapper, one interface, the
/// accessors of its members in order, and a delegated interface
/// implementation and an upcast per parent, in declaration order.
pub open spec fn spec_generate(c: SpecClassDefinition) -> SpecGeneratedApi {
    SpecGeneratedApi {
        attributes: c.attributes,
        wrapper_name: c.name,
        interface_name: spec_interface_name(c.name),
        accessors: spec_accessors_of_members(c.members),
        parent_interfaces: c.parents.map_values(|p: Seq<char>| spec_interface_name(p)),
        upcasts: c.parents,
    }
}

impl Type {
    /// A fresh type equal to this one.
    pub fn duplicate(&self) -> (r: Type)
        ensures
            r == *self,
    {
        match self {
            Type::Str => Type::Str,
            Type::Bool => Type::Bool,
            Type::I16 => Type::I16,
            Type::I32 => Type::I32,
            Type::I64 => Type::I64,
            Type::U8 => Type::U8,
            Type::U16 => Type::U16,
            Type::U32 => Type::U32,
            Type::U64 => Type::U64,
            Type::Object(s) => Type::Object(s.clone()),
        }
    }
}

/// A fresh copy of a string list, equal to the given one.
fn clone_strings(v: &Vec<String>) -> (r: Vec<String>)
    ensures
        r@ == v@,
{
    let mut r: Vec<String> = Vec::new();
    let mut i: usize = 0;
    while i < v.len()
        invariant
            i <= v@.len(),
            r@ == v@.subrange(0, i as int),
        decreases v@.len() - i,
    {
        r.push(v[i].clone());
        i = i + 1;
        proof {
            assert(r@ =~= v@.subrange(0, i as int));
        }
    }
    proof {
        assert(v@.subrange(0, v@.len() as int) =~= v@);
    }
    r
}

/// Build the capability interface name for a class name.
fn interface_name_of(name: &String) -> (r: String)
    ensures
        r@ == spec_interface_name(name@),
{
    let mut r = name.clone();
    r.append("Ext");
    r
}

/// Build the getter of a property.
fn getter_accessor(attrs: Vec<String>, name: String, ty: Type) -> (r: Accessor)
    ensures
        r@ == spec_getter(strings_view(attrs@), name@, ty@),
{
    let ident = escape_ident(to_snake_case(name.as_str()));
    let params: Vec<Type> = Vec::new();
    proof {
        assert(types_view(params@) =~= Seq::<SpecType>::empty());
    }
    Accessor {
        attributes: attrs,
        ident,
        com_name: name,
        kind: AccessorKind::PropertyGet,
        params,
        result: ReturnKind::Value(ty),
    }
}

/// Build the setter of a mutable property.
fn setter_accessor(attrs: Vec<String>, name: String, ty: Type) -> (r: Accessor)
    ensures
        r@ == spec_setter(strings_view(attrs@), name@, ty@),
{
    let snake = to_snake_case(name.as_str());
    let mut ident = "set_".to_owned();
    ident.append(snake.as_str());
    let mut params: Vec<Type> = Vec::new();
    params.push(ty);
    proof {
        assert(types_view(params@) =~= seq![ty@]);
    }
    Accessor {
        attributes: attrs,
        ident,
        com_name: name,
        kind: AccessorKind::PropertyPut,
        params,
        result: ReturnKind::NoValue,
    }
}

/// Build the accessor of a method.
fn method_accessor(attrs: Vec<String>, name: String, params: Vec<Type>, ret: Option<Type>) -> (r:
    Accessor)
    ensures
        r@ == spec_method_accessor(
            strings_view(attrs@),
            name@,
            types_view(params@),
            match ret {
                Some(t) => Some(t@),
                None => None,
            },
        ),
{
    let ident = escape_ident(to_snake_case(name.as_str()));
    Accessor {
        attributes: attrs,
        ident,
        com_name: name,
        kind: AccessorKind::MethodCall,
        params,
        result: match ret {
            Some(t) => ReturnKind::Value(t),
            None => ReturnKind::NoValue,
        },
    }
}

/// Build the accessors one member contributes.
fn accessors_of_member(m: Member) -> (r: Vec<Accessor>)
    ensures
        accessors_view(r@) == spec_accessors_of_member(m@),
{
    let ghost mv = m@;
    match m {
        Member::Property { attributes, name, ty, mutable } => {
            let mut out: Vec<Accessor> = Vec::new();
            if mutable {
                let getter = getter_accessor(clone_strings(&attributes), name.clone(),
                    ty.duplicate());
                let setter = setter_accessor(attributes, name, ty);
                out.push(getter);
                out.push(setter);
                proof {
                    assert(accessors_view(out@) =~= spec_accessors_of_member(mv));
                }
            } else {
                let getter = getter_accessor(attributes, name, ty);
                out.push(getter);
                proof {
                    assert(accessors_view(out@) =~= spec_accessors_of_member(mv));
                }
            }
            out
        },
        Member::Method { attributes, name, params, ret } => {
            let mut out: Vec<Accessor> = Vec::new();
            let acc = method_accessor(attributes, name, params, ret);
            out.push(acc);
            proof {
                assert(accessors_view(out@) =~= spec_accessors_of_member(mv));
            }
            out
        },
    }
}

/// Generate the accessor surface of a parsed class: exactly one wrapper and
/// one capability interface, the accessors of its members in declaration
/// order, and a delegated parent interface and an upcast per parent.
pub fn generate(c: ClassDefinition) -> (r: GeneratedApi)
    ensures
        r@ == spec_generate(c@),
{
    let ghost cv = c@;
    let interface_name = interface_name_of(&c.name);

    // Parent interface names, in declaration order.
    let mut parent_interfaces: Vec<String> = Vec::new();
    let mut i: usize = 0;
    while i < c.parents.len()
        invariant
            i <= c.parents@.len(),
            parent_interfaces@.len() == i,
            forall|k: int|
                0 <= k < i ==> #[trigger] parent_interfaces@[k]@ == spec_interface_name(
                    c.parents@[k]@,
                ),
        decreases c.parents@.len() - i,
    {
        parent_interfaces.push(interface_name_of(&c.parents[i]));
        i = i + 1;
    }
    proof {
        assert(strings_view(parent_interfaces@) =~~= strings_view(c.parents@).map_values(
            |p: Seq<char>| spec_interface_name(p),
        ));
    }

    // Accessors, in member order.
    let mut accessors: Vec<Accessor> = Vec::new();
    let mut members = c.members;
    let ghost all = members_view(members@);
    while members.len() > 0
        invariant
            members_view(members@).len() <= all.len(),
            spec_accessors_of_members(all) == accessors_view(accessors@)
                + spec_accessors_of_members(members_view(members@)),
        decreases members@.len(),
    {
        let ghost mv_before = members_view(members@);
        let m = members.remove(0);
        let mut part = accessors_of_member(m);
        let ghost acc_before = accessors_view(accessors@);
        let ghost part_view = accessors_view(part@);
        accessors.append(&mut part);
        proof {
            assert(mv_before.subrange(1, mv_before.len() as int) =~= members_view(members@));
            assert(mv_before[0] == m@);
            assert(accessors_view(accessors@) =~= acc_before + part_view);
            assert(acc_before + (spec_accessors_of_member(m@) + spec_accessors_of_members(
                members_view(members@),
            )) =~= accessors_view(accessors@) + spec_accessors_of_members(members_view(members@)));
        }
    }
    proof {
        assert(members_view(members@).len() == 0);
        assert(spec_accessors_of_members(members_view(members@)) =~= Seq::<SpecAccessor>::empty());
        assert(accessors_view(accessors@) + Seq::<SpecAccessor>::empty() =~= accessors_view(
            accessors@,
        ));
    }

    GeneratedApi {
        attributes: c.attributes,
        wrapper_name: c.name,
        interface_name,
        accessors,
        parent_interfaces,
        upcasts: c.parents,
    }
}

/// What the whole generation step yields for an input text: the scan and
/// parse of the description, then the generated surface; or the first
/// failure, with no output.
pub open spec fn spec_com_shim(s: Seq<char>) -> Result<SpecGeneratedApi, SpecGenerationError> {
    match spec_tokenize(s) {
        Err(e) => Err(e),
        Ok(ts) => match spec_parse_class(ts, s.len() as int) {
            Err(e) => Err(e),
            Ok(c) => Ok(spec_generate(c)),
        },
    }
}

/// Generate the accessor surface for one class description.  A malformed
/// description fails with the exact expected token and position, and
/// produces no output.
pub fn com_shim(input: &str) -> (r: Result<GeneratedApi, GenerationError>)
    ensures
        match r {
            Ok(api) => spec_com_shim(input@) == Ok::<SpecGeneratedApi, SpecGenerationError>(api@),
            Err(e) => spec_com_shim(input@) == Err::<SpecGeneratedApi, SpecGenerationError>(e@),
        },
{
    let n = input.unicode_len();
    let tokens = match tokenize(input) {
        Ok(ts) => ts,
        Err(e) => {
            return Err(e);
        },
    };
    let class = match parse_class(&tokens, n) {
        Ok(c) => c,
        Err(e) => {
            return Err(e);
        },
    };
    Ok(generate(class))
}

/// One class definition yields exactly one wrapper type and one capability
/// interface, both named from the class name, and one delegated parent
/// interface and one upcast per declared parent, in declaration order.
pub proof fn lemma_generate_structure(c: SpecClassDefinition)
    ensures
        spec_generate(c).wrapper_name == c.name,
        spec_generate(c).interface_name == spec_interface_name(c.name),
        spec_generate(c).attributes == c.attributes,
        spec_generate(c).upcasts == c.parents,
        spec_generate(c).parent_interfaces.len() == c.parents.len(),
        forall|k: int|
            0 <= k < c.parents.len() ==> #[trigger] spec_generate(c).parent_interfaces[k]
                == spec_interface_name(c.parents[k]),
{
}

/// A property declared with the mutability marker always yields both a
/// getter and a setter: the getter reads the property through a property-get
/// on the member's own name and returns its type; the setter writes it
/// through a property-put, takes exactly the property type, and returns the
/// "no value" result.
pub proof fn lemma_mutable_property_accessors(attrs: Seq<Seq<char>>, name: Seq<char>, ty: SpecType)
    ensures
        ({
            let accs = spec_accessors_of_member(
                SpecMember::Property { attributes: attrs, name, ty, mutable: true },
            );
            &&& accs.len() == 2
            &&& accs[0].kind == AccessorKind::PropertyGet
            &&& accs[0].com_name == name
            &&& accs[0].params.len() == 0
            &&& accs[0].result == SpecReturnKind::Value(ty)
            &&& accs[1].kind == AccessorKind::PropertyPut
            &&& accs[1].com_name == name
            &&& accs[1].params == seq![ty]
            &&& accs[1].result is NoValue
        }),
{
}

/// A property declared without the mutability marker yields only a getter.
pub proof fn lemma_immutable_property_accessor(attrs: Seq<Seq<char>>, name: Seq<char>, ty: SpecType)
    ensures
        ({
            let accs = spec_accessors_of_member(
                SpecMember::Property { attributes: attrs, name, ty, mutable: false },
            );
            &&& accs.len() == 1
            &&& accs[0].kind == AccessorKind::PropertyGet
            &&& accs[0].com_name == name
            &&& accs[0].params.len() == 0
            &&& accs[0].result == SpecReturnKind::Value(ty)
        }),
{
}

/// A method yields exactly one accessor, wired to a method call on the
/// member's own name with the declared parameter types in order; a method
/// with no declared return type yields an accessor returning the "no value"
/// result, and one declared to return a type yields an accessor returning
/// exactly that type.
pub proof fn lemma_method_accessor(
    attrs: Seq<Seq<char>>,
    name: Seq<char>,
    params: Seq<SpecType>,
    ret: Option<SpecType>,
)
    ensures
        ({
            let accs = spec_accessors_of_member(
                SpecMember::Method { attributes: attrs, name, params, ret },
            );
            &&& accs.len() == 1
            &&& accs[0].kind == AccessorKind::MethodCall
            &&& accs[0].com_name == name
            &&& accs[0].params == params
            &&& (ret is None ==> accs[0].result is NoValue)
            &&& (ret matches Some(t) ==> accs[0].result == SpecReturnKind::Value(t))
        }),
{
}

} // verus!
