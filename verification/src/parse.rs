//! The parser of the class-description language.
//!
//! Grammar: `class Name [: Parent (+ Parent)*] { member (',' member)* [','] }`
//! with `member := attrs* ('mut' ident ':' type | ident ':' type |
//! 'fn' ident '(' [type (',' type)* [',']] ')' ['->' type])`.
//!
//! Parsing walks the members as a progression of expectations — member
//! start, name, `:`, type, separator; and for a method: name, parameter
//! list, optional arrow, return type, separator.  The first token that does
//! not meet the current expectation fails the whole definition at once,
//! naming the expected token class and the exact position; nothing is
//! recovered and no output is produced.

use vstd::prelude::*;

use crate::ast::ClassDefinition;
use crate::ast::Member;
use crate::ast::SpecClassDefinition;
use crate::ast::SpecMember;
use crate::ast::SpecType;
use crate::ast::Type;
use crate::ast::members_view;
use crate::ast::strings_view;
use crate::ast::types_view;
use crate::error::Expected;
use crate::error::GenerationError;
use crate::error::SpecGenerationError;
use crate::token::SpecToken;
use crate::token::SpecTokenKind;
use crate::token::Token;
use crate::token::TokenKind;
use crate::token::tokens_view;

verus! {

/// Resolve a type identifier.  The scalar spellings the boundary supports
/// map to their kinds; a spelling that looks like a scalar kind but is not
/// supported is rejected, citing the identifier; any other identifier
/// refers to another generated wrapper type.
pub open spec fn spec_resolve_type(id: Seq<char>, at: int) -> Result<
    SpecType,
    SpecGenerationError,
> {
    if id == "String"@ {
        Ok(SpecType::Str)
    } else if id == "bool"@ {
        Ok(SpecType::Bool)
    } else if id == "i16"@ {
        Ok(SpecType::I16)
    } else if id == "i32"@ {
        Ok(SpecType::I32)
    } else if id == "i64"@ {
        Ok(SpecType::I64)
    } else if id == "u8"@ {
        Ok(SpecType::U8)
    } else if id == "u16"@ {
        Ok(SpecType::U16)
    } else if id == "u32"@ {
        Ok(SpecType::U32)
    } else if id == "u64"@ {
        Ok(SpecType::U64)
    } else if id == "i8"@ || id == "i128"@ || id == "u128"@ || id == "isize"@ || id == "usize"@
        || id == "f32"@ || id == "f64"@ || id == "char"@ || id == "str"@ {
        Err(SpecGenerationError::UnknownType { ident: id, at })
    } else {
        Ok(SpecType::Object(id))
    }
}

/// Collect the attribute tokens standing at `i`: their texts and the
/// position of the first token after them.
pub open spec fn spec_collect_attrs(ts: Seq<SpecToken>, i: nat) -> (Seq<Seq<char>>, nat)
    decreases ts.len() - i,
    when i <= ts.len()
{
    if i < ts.len() {
        match ts[i as int].kind {
            SpecTokenKind::Attr(a) => {
                let (rest, j) = spec_collect_attrs(ts, i + 1);
                (seq![a] + rest, j)
            },
            _ => (Seq::empty(), i),
        }
    } else {
        (Seq::empty(), i)
    }
}

/// Collecting attributes stays inside the token sequence.
pub proof fn lemma_collect_attrs_bounds(ts: Seq<SpecToken>, i: nat)
    requires
        i <= ts.len(),
    ensures
        i <= spec_collect_attrs(ts, i).1 <= ts.len(),
    decreases ts.len() - i,
{
    if i < ts.len() && ts[i as int].kind is Attr {
        lemma_collect_attrs_bounds(ts, i + 1);
    }
}

/// Parse a property member after its optional `mut` marker: name, `:`,
/// type.  Returns the member and the position just past it.
pub open spec fn spec_parse_property(
    ts: Seq<SpecToken>,
    i: nat,
    attrs: Seq<Seq<char>>,
    mutable: bool,
    end: int,
) -> Result<(SpecMember, nat), SpecGenerationError> {
    if i >= ts.len() {
        Err(SpecGenerationError::ExpectedToken { token: Expected::Ident, at: end })
    } else {
        match ts[i as int].kind {
            SpecTokenKind::Ident(name) => {
                if i + 1 >= ts.len() {
                    Err(SpecGenerationError::ExpectedToken { token: Expected::Colon, at: end })
                } else if ts[(i + 1) as int].kind is Colon {
                    if i + 2 >= ts.len() {
                        Err(SpecGenerationError::ExpectedToken { token: Expected::Ident, at: end })
                    } else {
                        match ts[(i + 2) as int].kind {
                            SpecTokenKind::Ident(tid) => match spec_resolve_type(
                                tid,
                                ts[(i + 2) as int].at,
                            ) {
                                Ok(ty) => Ok(
                                    (
                                        SpecMember::Property { attributes: attrs, name, ty, mutable },
                                        i + 3,
                                    ),
                                ),
                                Err(e) => Err(e),
                            },
                            _ => Err(
                                SpecGenerationError::ExpectedToken {
                                    token: Expected::Ident,
                                    at: ts[(i + 2) as int].at,
                                },
                            ),
                        }
                    }
                } else {
                    Err(
                        SpecGenerationError::ExpectedToken {
                            token: Expected::Colon,
                            at: ts[(i + 1) as int].at,
                        },
                    )
                }
            },
            _ => Err(
                SpecGenerationError::ExpectedToken {
                    token: Expected::Ident,
                    at: ts[i as int].at,
                },
            ),
        }
    }
}

/// A parsed property ends past where it starts, and inside the tokens.
pub proof fn lemma_parse_property_bounds(
    ts: Seq<SpecToken>,
    i: nat,
    attrs: Seq<Seq<char>>,
    mutable: bool,
    end: int,
)
    requires
        i <= ts.len(),
    ensures
        spec_parse_property(ts, i, attrs, mutable, end) matches Ok((m, j)) ==> i < j <= ts.len(),
{
}

/// Parse the parameter type list of a method, after the opening `(`: the
/// types and the position just past the closing `)`.  A trailing comma is
/// allowed.
pub open spec fn spec_parse_params(ts: Seq<SpecToken>, i: nat, end: int) -> Result<
    (Seq<SpecType>, nat),
    SpecGenerationError,
>
    decreases ts.len() - i,
    when i <= ts.len()
{
    if i >= ts.len() {
        Err(SpecGenerationError::ExpectedToken { token: Expected::RightParen, at: end })
    } else if ts[i as int].kind is RightParen {
        Ok((Seq::empty(), i + 1))
    } else {
        match ts[i as int].kind {
            SpecTokenKind::Ident(tid) => match spec_resolve_type(tid, ts[i as int].at) {
                Err(e) => Err(e),
                Ok(ty) => {
                    if i + 1 >= ts.len() {
                        Err(SpecGenerationError::ExpectedToken { token: Expected::Comma, at: end })
                    } else if ts[(i + 1) as int].kind is Comma {
                        match spec_parse_params(ts, i + 2, end) {
                            Ok((rest, j)) => Ok((seq![ty] + rest, j)),
                            Err(e) => Err(e),
                        }
                    } else if ts[(i + 1) as int].kind is RightParen {
                        Ok((seq![ty], i + 2))
                    } else {
                        Err(
                            SpecGenerationError::ExpectedToken {
                                token: Expected::Comma,
                                at: ts[(i + 1) as int].at,
                            },
                        )
                    }
                },
            },
            _ => Err(
                SpecGenerationError::ExpectedToken {
                    token: Expected::Ident,
                    at: ts[i as int].at,
                },
            ),
        }
    }
}

/// A parsed parameter list ends past where it starts, and inside the tokens.
pub proof fn lemma_parse_params_bounds(ts: Seq<SpecToken>, i: nat, end: int)
    requires
        i <= ts.len(),
    ensures
        spec_parse_params(ts, i, end) matches Ok((ps, j)) ==> i < j <= ts.len(),
    decreases ts.len() - i,
{
    if i < ts.len() && !(ts[i as int].kind is RightParen) {
        match ts[i as int].kind {
            SpecTokenKind::Ident(tid) => {
                if i + 1 < ts.len() && ts[(i + 1) as int].kind is Comma {
                    lemma_parse_params_bounds(ts, i + 2, end);
                }
            },
            _ => {},
        }
    }
}

/// Parse one member: attributes, then a property (with optional `mut`) or a
/// method.  Returns the member and the position just past it.
pub open spec fn spec_parse_member(ts: Seq<SpecToken>, i: nat, end: int) -> Result<
    (SpecMember, nat),
    SpecGenerationError,
>
    recommends
        i <= ts.len(),
{
    let (attrs, a) = spec_collect_attrs(ts, i);
    if a >= ts.len() {
        Err(SpecGenerationError::ExpectedToken { token: Expected::Ident, at: end })
    } else {
        match ts[a as int].kind {
            SpecTokenKind::Ident(kw) => {
                if kw == "fn"@ {
                    spec_parse_method(ts, a + 1, attrs, end)
                } else if kw == "mut"@ {
                    spec_parse_property(ts, a + 1, attrs, true, end)
                } else {
                    spec_parse_property(ts, a, attrs, false, end)
                }
            },
            _ => Err(
                SpecGenerationError::ExpectedToken {
                    token: Expected::Ident,
                    at: ts[a as int].at,
                },
            ),
        }
    }
}

/// Parse a method member after its `fn` keyword: name, parameter list,
/// optional `->` and return type.
pub open spec fn spec_parse_method(
    ts: Seq<SpecToken>,
    i: nat,
    attrs: Seq<Seq<char>>,
    end: int,
) -> Result<(SpecMember, nat), SpecGenerationError>
    recommends
        i <= ts.len(),
{
    if i >= ts.len() {
        Err(SpecGenerationError::ExpectedToken { token: Expected::Ident, at: end })
    } else {
        match ts[i as int].kind {
            SpecTokenKind::Ident(name) => {
                if i + 1 >= ts.len() {
                    Err(SpecGenerationError::ExpectedToken { token: Expected::LeftParen, at: end })
                } else if ts[(i + 1) as int].kind is LeftParen {
                    match spec_parse_params(ts, i + 2, end) {
                        Err(e) => Err(e),
                        Ok((params, p)) => {
                            if p < ts.len() && ts[p as int].kind is Arrow {
                                if p + 1 >= ts.len() {
                                    Err(
                                        SpecGenerationError::ExpectedToken {
                                            token: Expected::Ident,
                                            at: end,
                                        },
                                    )
                                } else {
                                    match ts[(p + 1) as int].kind {
                                        SpecTokenKind::Ident(tid) => match spec_resolve_type(
                                            tid,
                                            ts[(p + 1) as int].at,
                                        ) {
                                            Ok(ty) => Ok(
                                                (
                                                    SpecMember::Method {
                                                        attributes: attrs,
                                                        name,
                                                        params,
                                                        ret: Some(ty),
                                                    },
                                                    p + 2,
                                                ),
                                            ),
                                            Err(e) => Err(e),
                                        },
                                        _ => Err(
                                            SpecGenerationError::ExpectedToken {
                                                token: Expected::Ident,
                                                at: ts[(p + 1) as int].at,
                                            },
                                        ),
                                    }
                                }
                            } else {
                                Ok(
                                    (
                                        SpecMember::Method {
                                            attributes: attrs,
                                            name,
                                            params,
                                            ret: None,
                                        },
                                        p,
                                    ),
                                )
                            }
                        },
                    }
                } else {
                    Err(
                        SpecGenerationError::ExpectedToken {
                            token: Expected::LeftParen,
                            at: ts[(i + 1) as int].at,
                        },
                    )
                }
            },
            _ => Err(
                SpecGenerationError::ExpectedToken {
                    token: Expected::Ident,
                    at: ts[i as int].at,
                },
            ),
        }
    }
}

/// A parsed member ends past where it starts, and inside the tokens.
pub proof fn lemma_parse_member_bounds(ts: Seq<SpecToken>, i: nat, end: int)
    requires
        i <= ts.len(),
    ensures
        spec_parse_member(ts, i, end) matches Ok((m, j)) ==> i < j <= ts.len(),
{
    lemma_collect_attrs_bounds(ts, i);
    let (attrs, a) = spec_collect_attrs(ts, i);
    if a < ts.len() {
        match ts[a as int].kind {
            SpecTokenKind::Ident(kw) => {
                if kw == "fn"@ {
                    lemma_parse_method_bounds(ts, a + 1, attrs, end);
                } else if kw == "mut"@ {
                    lemma_parse_property_bounds(ts, a + 1, attrs, true, end);
                } else {
                    lemma_parse_property_bounds(ts, a, attrs, false, end);
                }
            },
            _ => {},
        }
    }
}

/// A parsed method ends past where it starts, and inside the tokens.
pub proof fn lemma_parse_method_bounds(ts: Seq<SpecToken>, i: nat, attrs: Seq<Seq<char>>, end: int)
    requires
        i <= ts.len(),
    ensures
        spec_parse_method(ts, i, attrs, end) matches Ok((m, j)) ==> i < j <= ts.len(),
{
    if i < ts.len() && ts[i as int].kind is Ident && i + 1 < ts.len() && ts[(i + 1) as int].kind
        is LeftParen {
        lemma_parse_params_bounds(ts, i + 2, end);
    }
}

/// Parse the member list after the opening `{`: the members and the
/// position just past the closing `}`.  Members are separated by `,`; a
/// trailing comma is allowed.
pub open spec fn spec_parse_members(ts: Seq<SpecToken>, i: nat, end: int) -> Result<
    (Seq<SpecMember>, nat),
    SpecGenerationError,
>
    decreases ts.len() - i,
    when i <= ts.len()
{
    if i >= ts.len() {
        Err(SpecGenerationError::ExpectedToken { token: Expected::RightBrace, at: end })
    } else if ts[i as int].kind is RightBrace {
        Ok((Seq::empty(), i + 1))
    } else {
        match spec_parse_member(ts, i, end) {
            Err(e) => Err(e),
            Ok((m, j)) => {
                proof {
                    lemma_parse_member_bounds(ts, i, end);
                }
                if j >= ts.len() {
                    Err(SpecGenerationError::ExpectedToken { token: Expected::Comma, at: end })
                } else if ts[j as int].kind is Comma {
                    match spec_parse_members(ts, j + 1, end) {
                        Ok((rest, k)) => Ok((seq![m] + rest, k)),
                        Err(e) => Err(e),
                    }
                } else if ts[j as int].kind is RightBrace {
                    Ok((seq![m], j + 1))
                } else {
                    Err(
                        SpecGenerationError::ExpectedToken {
                            token: Expected::Comma,
                            at: ts[j as int].at,
                        },
                    )
                }
            },
        }
    }
}

/// Parse the parent list after the `:` marker: the parent names and the
/// position just past them.  Parents are separated by `+`.
pub open spec fn spec_parse_parents(ts: Seq<SpecToken>, i: nat, end: int) -> Result<
    (Seq<Seq<char>>, nat),
    SpecGenerationError,
>
    decreases ts.len() - i,
    when i <= ts.len()
{
    if i >= ts.len() {
        Err(SpecGenerationError::ExpectedToken { token: Expected::Ident, at: end })
    } else {
        match ts[i as int].kind {
            SpecTokenKind::Ident(p) => {
                if i + 1 < ts.len() && ts[(i + 1) as int].kind is Plus {
                    match spec_parse_parents(ts, i + 2, end) {
                        Ok((rest, j)) => Ok((seq![p] + rest, j)),
                        Err(e) => Err(e),
                    }
                } else {
                    Ok((seq![p], i + 1))
                }
            },
            _ => Err(
                SpecGenerationError::ExpectedToken {
                    token: Expected::Ident,
                    at: ts[i as int].at,
                },
            ),
        }
    }
}

/// A parsed parent list ends past where it starts, and inside the tokens.
pub proof fn lemma_parse_parents_bounds(ts: Seq<SpecToken>, i: nat, end: int)
    requires
        i <= ts.len(),
    ensures
        spec_parse_parents(ts, i, end) matches Ok((ps, j)) ==> i < j <= ts.len(),
    decreases ts.len() - i,
{
    if i < ts.len() {
        match ts[i as int].kind {
            SpecTokenKind::Ident(p) => {
                if i + 1 < ts.len() && ts[(i + 1) as int].kind is Plus {
                    lemma_parse_parents_bounds(ts, i + 2, end);
                }
            },
            _ => {},
        }
    }
}

/// Parse the class body from the expected `{` at `i`: the members, with the
/// whole input required to end at the closing `}`.
pub open spec fn spec_parse_body(
    ts: Seq<SpecToken>,
    i: nat,
    attrs: Seq<Seq<char>>,
    name: Seq<char>,
    parents: Seq<Seq<char>>,
    end: int,
) -> Result<SpecClassDefinition, SpecGenerationError>
    recommends
        i <= ts.len(),
{
    if i >= ts.len() {
        Err(SpecGenerationError::ExpectedToken { token: Expected::LeftBrace, at: end })
    } else if ts[i as int].kind is LeftBrace {
        match spec_parse_members(ts, i + 1, end) {
            Err(e) => Err(e),
            Ok((members, q)) => {
                if q < ts.len() {
                    Err(
                        SpecGenerationError::ExpectedToken {
                            token: Expected::End,
                            at: ts[q as int].at,
                        },
                    )
                } else {
                    Ok(SpecClassDefinition { attributes: attrs, name, parents, members })
                }
            },
        }
    } else {
        Err(
            SpecGenerationError::ExpectedToken {
                token: Expected::LeftBrace,
                at: ts[i as int].at,
            },
        )
    }
}

/// Parse a whole class description from its token sequence.  `end` is the
/// character position just past the input, used for failures at the end of
/// the input.
pub open spec fn spec_parse_class(ts: Seq<SpecToken>, end: int) -> Result<
    SpecClassDefinition,
    SpecGenerationError,
> {
    let (attrs, a) = spec_collect_attrs(ts, 0);
    if a >= ts.len() {
        Err(SpecGenerationError::ExpectedToken { token: Expected::ClassKeyword, at: end })
    } else {
        match ts[a as int].kind {
            SpecTokenKind::Ident(kw) => {
                if kw == "class"@ {
                    if a + 1 >= ts.len() {
                        Err(SpecGenerationError::ExpectedToken { token: Expected::Ident, at: end })
                    } else {
                        match ts[(a + 1) as int].kind {
                            SpecTokenKind::Ident(name) => {
                                if a + 2 < ts.len() && ts[(a + 2) as int].kind is Colon {
                                    match spec_parse_parents(ts, a + 3, end) {
                                        Err(e) => Err(e),
                                        Ok((parents, p)) => spec_parse_body(
                                            ts,
                                            p,
                                            attrs,
                                            name,
                                            parents,
                                            end,
                                        ),
                                    }
                                } else {
                                    spec_parse_body(ts, a + 2, attrs, name, Seq::empty(), end)
                                }
                            },
                            _ => Err(
                                SpecGenerationError::ExpectedToken {
                                    token: Expected::Ident,
                                    at: ts[(a + 1) as int].at,
                                },
                            ),
                        }
                    }
                } else {
                    Err(
                        SpecGenerationError::ExpectedToken {
                            token: Expected::ClassKeyword,
                            at: ts[a as int].at,
                        },
                    )
                }
            },
            _ => Err(
                SpecGenerationError::ExpectedToken {
                    token: Expected::ClassKeyword,
                    at: ts[a as int].at,
                },
            ),
        }
    }
}

/// Whether an owned string equals a literal.
pub(crate) fn is_lit(s: &String, lit: &str) -> (r: bool)
    ensures
        r == (s@ == lit@),
{
    let o = lit.to_owned();
    *s == o
}

/// Resolve a type identifier, in executable form.
fn resolve_type(id: &String, at: usize) -> (r: Result<Type, GenerationError>)
    ensures
        match r {
            Ok(t) => spec_resolve_type(id@, at as int) == Ok::<SpecType, SpecGenerationError>(t@),
            Err(e) => spec_resolve_type(id@, at as int) == Err::<SpecType, SpecGenerationError>(
                e@,
            ),
        },
{
    if is_lit(id, "String") {
        Ok(Type::Str)
    } else if is_lit(id, "bool") {
        Ok(Type::Bool)
    } else if is_lit(id, "i16") {
        Ok(Type::I16)
    } else if is_lit(id, "i32") {
        Ok(Type::I32)
    } else if is_lit(id, "i64") {
        Ok(Type::I64)
    } else if is_lit(id, "u8") {
        Ok(Type::U8)
    } else if is_lit(id, "u16") {
        Ok(Type::U16)
    } else if is_lit(id, "u32") {
        Ok(Type::U32)
    } else if is_lit(id, "u64") {
        Ok(Type::U64)
    } else if is_lit(id, "i8") || is_lit(id, "i128") || is_lit(id, "u128") || is_lit(id, "isize")
        || is_lit(id, "usize") || is_lit(id, "f32") || is_lit(id, "f64") || is_lit(id, "char")
        || is_lit(id, "str") {
        Err(GenerationError::UnknownType { ident: id.clone(), at })
    } else {
        Ok(Type::Object(id.clone()))
    }
}

/// Collect the attribute tokens standing at `i`, in executable form.
fn collect_attrs(ts: &Vec<Token>, i: usize) -> (r: (Vec<String>, usize))
    requires
        i <= ts@.len(),
    ensures
        strings_view(r.0@) == spec_collect_attrs(tokens_view(ts@), i as nat).0,
        r.1 as nat == spec_collect_attrs(tokens_view(ts@), i as nat).1,
        i <= r.1 <= ts@.len(),
{
    let ghost tv = tokens_view(ts@);
    let mut acc: Vec<String> = Vec::new();
    let mut j = i;
    loop
        invariant
            i <= j <= ts@.len(),
            tv == tokens_view(ts@),
            spec_collect_attrs(tv, i as nat).0 == strings_view(acc@) + spec_collect_attrs(
                tv,
                j as nat,
            ).0,
            spec_collect_attrs(tv, i as nat).1 == spec_collect_attrs(tv, j as nat).1,
        ensures
            i <= j <= ts@.len(),
            strings_view(acc@) == spec_collect_attrs(tv, i as nat).0,
            j as nat == spec_collect_attrs(tv, i as nat).1,
        decreases ts@.len() - j,
    {
        if j >= ts.len() {
            proof {
                assert(strings_view(acc@) + Seq::<Seq<char>>::empty() =~= strings_view(acc@));
            }
            break;
        }
        let ghost old_acc = acc@;
        match &ts[j].kind {
            TokenKind::Attr(a) => {
                acc.push(a.clone());
                j = j + 1;
                proof {
                    assert(strings_view(acc@) =~= strings_view(old_acc).push(a@));
                    assert(strings_view(old_acc) + (seq![a@] + spec_collect_attrs(
                        tv,
                        j as nat,
                    ).0) =~= strings_view(acc@) + spec_collect_attrs(tv, j as nat).0);
                }
            },
            _ => {
                proof {
                    assert(strings_view(acc@) + Seq::<Seq<char>>::empty() =~= strings_view(acc@));
                }
                break;
            },
        }
    }
    (acc, j)
}

/// Parse a property member, in executable form.
fn parse_property(ts: &Vec<Token>, i: usize, attrs: Vec<String>, mutable: bool, end: usize) -> (r:
    Result<(Member, usize), GenerationError>)
    requires
        i <= ts@.len(),
    ensures
        match r {
            Ok((m, j)) => spec_parse_property(
                tokens_view(ts@),
                i as nat,
                strings_view(attrs@),
                mutable,
                end as int,
            ) == Ok::<(SpecMember, nat), SpecGenerationError>((m@, j as nat)) && i < j <= ts@.len(),
            Err(e) => spec_parse_property(
                tokens_view(ts@),
                i as nat,
                strings_view(attrs@),
                mutable,
                end as int,
            ) == Err::<(SpecMember, nat), SpecGenerationError>(e@),
        },
{
    if i >= ts.len() {
        return Err(GenerationError::ExpectedToken { token: Expected::Ident, at: end });
    }
    match &ts[i].kind {
        TokenKind::Ident(name) => {
            if i + 1 >= ts.len() {
                return Err(GenerationError::ExpectedToken { token: Expected::Colon, at: end });
            }
            match &ts[i + 1].kind {
                TokenKind::Colon => {
                    if i + 2 >= ts.len() {
                        return Err(
                            GenerationError::ExpectedToken { token: Expected::Ident, at: end },
                        );
                    }
                    match &ts[i + 2].kind {
                        TokenKind::Ident(tid) => match resolve_type(tid, ts[i + 2].at) {
                            Ok(ty) => Ok(
                                (
                                    Member::Property {
                                        attributes: attrs,
                                        name: name.clone(),
                                        ty,
                                        mutable,
                                    },
                                    i + 3,
                                ),
                            ),
                            Err(e) => Err(e),
                        },
                        _ => Err(
                            GenerationError::ExpectedToken {
                                token: Expected::Ident,
                                at: ts[i + 2].at,
                            },
                        ),
                    }
                },
                _ => Err(
                    GenerationError::ExpectedToken { token: Expected::Colon, at: ts[i + 1].at },
                ),
            }
        },
        _ => Err(GenerationError::ExpectedToken { token: Expected::Ident, at: ts[i].at }),
    }
}

/// Parse the parameter type list of a method, in executable form.
fn parse_params(ts: &Vec<Token>, i: usize, end: usize) -> (r: Result<
    (Vec<Type>, usize),
    GenerationError,
>)
    requires
        i <= ts@.len(),
    ensures
        match r {
            Ok((ps, j)) => spec_parse_params(tokens_view(ts@), i as nat, end as int) == Ok::<
                (Seq<SpecType>, nat),
                SpecGenerationError,
            >((types_view(ps@), j as nat)) && i < j <= ts@.len(),
            Err(e) => spec_parse_params(tokens_view(ts@), i as nat, end as int) == Err::<
                (Seq<SpecType>, nat),
                SpecGenerationError,
            >(e@),
        },
    decreases ts@.len() - i,
{
    if i >= ts.len() {
        return Err(GenerationError::ExpectedToken { token: Expected::RightParen, at: end });
    }
    match &ts[i].kind {
        TokenKind::RightParen => {
            proof {
                assert(types_view(Seq::<Type>::empty()) =~= Seq::<SpecType>::empty());
            }
            Ok((Vec::new(), i + 1))
        },
        TokenKind::Ident(tid) => {
            let ty = match resolve_type(tid, ts[i].at) {
                Ok(ty) => ty,
                Err(e) => {
                    return Err(e);
                },
            };
            if i + 1 >= ts.len() {
                return Err(GenerationError::ExpectedToken { token: Expected::Comma, at: end });
            }
            match &ts[i + 1].kind {
                TokenKind::Comma => match parse_params(ts, i + 2, end) {
                    Ok((mut rest, j)) => {
                        let ghost rest_old = rest@;
                        rest.insert(0, ty);
                        proof {
                            assert(types_view(rest@) =~= seq![ty@] + types_view(rest_old));
                        }
                        Ok((rest, j))
                    },
                    Err(e) => Err(e),
                },
                TokenKind::RightParen => {
                    let mut one: Vec<Type> = Vec::new();
                    one.push(ty);
                    proof {
                        assert(types_view(one@) =~= seq![ty@]);
                    }
                    Ok((one, i + 2))
                },
                _ => Err(
                    GenerationError::ExpectedToken { token: Expected::Comma, at: ts[i + 1].at },
                ),
            }
        },
        _ => Err(GenerationError::ExpectedToken { token: Expected::Ident, at: ts[i].at }),
    }
}

/// Parse a method member, in executable form.
fn parse_method(ts: &Vec<Token>, i: usize, attrs: Vec<String>, end: usize) -> (r: Result<
    (Member, usize),
    GenerationError,
>)
    requires
        i <= ts@.len(),
    ensures
        match r {
            Ok((m, j)) => spec_parse_method(
                tokens_view(ts@),
                i as nat,
                strings_view(attrs@),
                end as int,
            ) == Ok::<(SpecMember, nat), SpecGenerationError>((m@, j as nat)) && i < j <= ts@.len(),
            Err(e) => spec_parse_method(
                tokens_view(ts@),
                i as nat,
                strings_view(attrs@),
                end as int,
            ) == Err::<(SpecMember, nat), SpecGenerationError>(e@),
        },
{
    if i >= ts.len() {
        return Err(GenerationError::ExpectedToken { token: Expected::Ident, at: end });
    }
    match &ts[i].kind {
        TokenKind::Ident(name) => {
            if i + 1 >= ts.len() {
                return Err(GenerationError::ExpectedToken { token: Expected::LeftParen, at: end });
            }
            match &ts[i + 1].kind {
                TokenKind::LeftParen => {
                    let (params, p) = match parse_params(ts, i + 2, end) {
                        Ok(pp) => pp,
                        Err(e) => {
                            return Err(e);
                        },
                    };
                    let arrow = p < ts.len() && match &ts[p].kind {
                        TokenKind::Arrow => true,
                        _ => false,
                    };
                    if arrow {
                        if p + 1 >= ts.len() {
                            return Err(
                                GenerationError::ExpectedToken { token: Expected::Ident, at: end },
                            );
                        }
                        match &ts[p + 1].kind {
                            TokenKind::Ident(tid) => match resolve_type(tid, ts[p + 1].at) {
                                Ok(ty) => Ok(
                                    (
                                        Member::Method {
                                            attributes: attrs,
                                            name: name.clone(),
                                            params,
                                            ret: Some(ty),
                                        },
                                        p + 2,
                                    ),
                                ),
                                Err(e) => Err(e),
                            },
                            _ => Err(
                                GenerationError::ExpectedToken {
                                    token: Expected::Ident,
                                    at: ts[p + 1].at,
                                },
                            ),
                        }
                    } else {
                        Ok(
                            (
                                Member::Method {
                                    attributes: attrs,
                                    name: name.clone(),
                                    params,
                                    ret: None,
                                },
                                p,
                            ),
                        )
                    }
                },
                _ => Err(
                    GenerationError::ExpectedToken {
                        token: Expected::LeftParen,
                        at: ts[i + 1].at,
                    },
                ),
            }
        },
        _ => Err(GenerationError::ExpectedToken { token: Expected::Ident, at: ts[i].at }),
    }
}

/// Parse one member, in executable form.
fn parse_member(ts: &Vec<Token>, i: usize, end: usize) -> (r: Result<
    (Member, usize),
    GenerationError,
>)
    requires
        i <= ts@.len(),
    ensures
        match r {
            Ok((m, j)) => spec_parse_member(tokens_view(ts@), i as nat, end as int) == Ok::<
                (SpecMember, nat),
                SpecGenerationError,
            >((m@, j as nat)) && i < j <= ts@.len(),
            Err(e) => spec_parse_member(tokens_view(ts@), i as nat, end as int) == Err::<
                (SpecMember, nat),
                SpecGenerationError,
            >(e@),
        },
{
    let (attrs, a) = collect_attrs(ts, i);
    if a >= ts.len() {
        return Err(GenerationError::ExpectedToken { token: Expected::Ident, at: end });
    }
    match &ts[a].kind {
        TokenKind::Ident(kw) => {
            if is_lit(kw, "fn") {
                parse_method(ts, a + 1, attrs, end)
            } else if is_lit(kw, "mut") {
                parse_property(ts, a + 1, attrs, true, end)
            } else {
                parse_property(ts, a, attrs, false, end)
            }
        },
        _ => Err(GenerationError::ExpectedToken { token: Expected::Ident, at: ts[a].at }),
    }
}

/// Parse the member list after the opening `{`, in executable form.
fn parse_members(ts: &Vec<Token>, i: usize, end: usize) -> (r: Result<
    (Vec<Member>, usize),
    GenerationError,
>)
    requires
        i <= ts@.len(),
    ensures
        match r {
            Ok((ms, j)) => spec_parse_members(tokens_view(ts@), i as nat, end as int) == Ok::<
                (Seq<SpecMember>, nat),
                SpecGenerationError,
            >((members_view(ms@), j as nat)) && i < j <= ts@.len(),
            Err(e) => spec_parse_members(tokens_view(ts@), i as nat, end as int) == Err::<
                (Seq<SpecMember>, nat),
                SpecGenerationError,
            >(e@),
        },
    decreases ts@.len() - i,
{
    if i >= ts.len() {
        return Err(GenerationError::ExpectedToken { token: Expected::RightBrace, at: end });
    }
    let brace = match &ts[i].kind {
        TokenKind::RightBrace => true,
        _ => false,
    };
    if brace {
        proof {
            assert(members_view(Seq::<Member>::empty()) =~= Seq::<SpecMember>::empty());
        }
        return Ok((Vec::new(), i + 1));
    }
    let (m, j) = match parse_member(ts, i, end) {
        Ok(mj) => mj,
        Err(e) => {
            return Err(e);
        },
    };
    if j >= ts.len() {
        return Err(GenerationError::ExpectedToken { token: Expected::Comma, at: end });
    }
    match &ts[j].kind {
        TokenKind::Comma => match parse_members(ts, j + 1, end) {
            Ok((mut rest, k)) => {
                let ghost rest_old = rest@;
                rest.insert(0, m);
                proof {
                    assert(members_view(rest@) =~= seq![m@] + members_view(rest_old));
                }
                Ok((rest, k))
            },
            Err(e) => Err(e),
        },
        TokenKind::RightBrace => {
            let mut one: Vec<Member> = Vec::new();
            one.push(m);
            proof {
                assert(members_view(one@) =~= seq![m@]);
            }
            Ok((one, j + 1))
        },
        _ => Err(GenerationError::ExpectedToken { token: Expected::Comma, at: ts[j].at }),
    }
}

/// Parse the parent list after the `:` marker, in executable form.
fn parse_parents(ts: &Vec<Token>, i: usize, end: usize) -> (r: Result<
    (Vec<String>, usize),
    GenerationError,
>)
    requires
        i <= ts@.len(),
    ensures
        match r {
            Ok((ps, j)) => spec_parse_parents(tokens_view(ts@), i as nat, end as int) == Ok::<
                (Seq<Seq<char>>, nat),
                SpecGenerationError,
            >((strings_view(ps@), j as nat)) && i < j <= ts@.len(),
            Err(e) => spec_parse_parents(tokens_view(ts@), i as nat, end as int) == Err::<
                (Seq<Seq<char>>, nat),
                SpecGenerationError,
            >(e@),
        },
    decreases ts@.len() - i,
{
    if i >= ts.len() {
        return Err(GenerationError::ExpectedToken { token: Expected::Ident, at: end });
    }
    match &ts[i].kind {
        TokenKind::Ident(p) => {
            let plus = i + 1 < ts.len() && match &ts[i + 1].kind {
                TokenKind::Plus => true,
                _ => false,
            };
            if plus {
                match parse_parents(ts, i + 2, end) {
                    Ok((mut rest, j)) => {
                        let ghost rest_old = rest@;
                        rest.insert(0, p.clone());
                        proof {
                            assert(strings_view(rest@) =~= seq![p@] + strings_view(rest_old));
                        }
                        Ok((rest, j))
                    },
                    Err(e) => Err(e),
                }
            } else {
                let mut one: Vec<String> = Vec::new();
                one.push(p.clone());
                proof {
                    assert(strings_view(one@) =~= seq![p@]);
                }
                Ok((one, i + 1))
            }
        },
        _ => Err(GenerationError::ExpectedToken { token: Expected::Ident, at: ts[i].at }),
    }
}

/// Parse the class body from the expected `{`, in executable form.
fn parse_body(
    ts: &Vec<Token>,
    i: usize,
    attrs: Vec<String>,
    name: String,
    parents: Vec<String>,
    end: usize,
) -> (r: Result<ClassDefinition, GenerationError>)
    requires
        i <= ts@.len(),
    ensures
        match r {
            Ok(c) => spec_parse_body(
                tokens_view(ts@),
                i as nat,
                strings_view(attrs@),
                name@,
                strings_view(parents@),
                end as int,
            ) == Ok::<SpecClassDefinition, SpecGenerationError>(c@),
            Err(e) => spec_parse_body(
                tokens_view(ts@),
                i as nat,
                strings_view(attrs@),
                name@,
                strings_view(parents@),
                end as int,
            ) == Err::<SpecClassDefinition, SpecGenerationError>(e@),
        },
{
    if i >= ts.len() {
        return Err(GenerationError::ExpectedToken { token: Expected::LeftBrace, at: end });
    }
    match &ts[i].kind {
        TokenKind::LeftBrace => {
            let (members, q) = match parse_members(ts, i + 1, end) {
                Ok(mq) => mq,
                Err(e) => {
                    return Err(e);
                },
            };
            if q < ts.len() {
                Err(GenerationError::ExpectedToken { token: Expected::End, at: ts[q].at })
            } else {
                Ok(ClassDefinition { attributes: attrs, name, parents, members })
            }
        },
        _ => Err(GenerationError::ExpectedToken { token: Expected::LeftBrace, at: ts[i].at }),
    }
}

/// Parse a whole class description from its tokens.  `end` is the character
/// position just past the input, used for failures at the end of the input.
pub fn parse_class(ts: &Vec<Token>, end: usize) -> (r: Result<ClassDefinition, GenerationError>)
    ensures
        match r {
            Ok(c) => spec_parse_class(tokens_view(ts@), end as int) == Ok::<
                SpecClassDefinition,
                SpecGenerationError,
            >(c@),
            Err(e) => spec_parse_class(tokens_view(ts@), end as int) == Err::<
                SpecClassDefinition,
                SpecGenerationError,
            >(e@),
        },
{
    let (attrs, a) = collect_attrs(ts, 0);
    if a >= ts.len() {
        return Err(GenerationError::ExpectedToken { token: Expected::ClassKeyword, at: end });
    }
    match &ts[a].kind {
        TokenKind::Ident(kw) => {
            if is_lit(kw, "class") {
                if a + 1 >= ts.len() {
                    return Err(GenerationError::ExpectedToken { token: Expected::Ident, at: end });
                }
                match &ts[a + 1].kind {
                    TokenKind::Ident(name) => {
                        let name = name.clone();
                        let colon = a + 2 < ts.len() && match &ts[a + 2].kind {
                            TokenKind::Colon => true,
                            _ => false,
                        };
                        if colon {
                            match parse_parents(ts, a + 3, end) {
                                Ok((parents, p)) => parse_body(ts, p, attrs, name, parents, end),
                                Err(e) => Err(e),
                            }
                        } else {
                            let no_parents: Vec<String> = Vec::new();
                            proof {
                                assert(strings_view(no_parents@) =~= Seq::<Seq<char>>::empty());
                            }
                            parse_body(ts, a + 2, attrs, name, no_parents, end)
                        }
                    },
                    _ => Err(
                        GenerationError::ExpectedToken {
                            token: Expected::Ident,
                            at: ts[a + 1].at,
                        },
                    ),
                }
            } else {
                Err(
                    GenerationError::ExpectedToken {
                        token: Expected::ClassKeyword,
                        at: ts[a].at,
                    },
                )
            }
        },
        _ => Err(GenerationError::ExpectedToken { token: Expected::ClassKeyword, at: ts[a].at }),
    }
}

} // verus!
