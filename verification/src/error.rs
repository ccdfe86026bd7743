//! The error surface of the crate: failures at generation time and failures
//! surfaced by accessor calls at run time.

use vstd::prelude::*;

verus! {

/// The token class the parser needed at the point where the input broke off
/// from the grammar.
#[derive(Clone, Copy, Debug, PartialEq, Eq, Structural)]
pub enum Expected {
    /// The keyword that opens a class description.
    ClassKeyword,
    /// An identifier.
    Ident,
    /// `:`
    Colon,
    /// `,`
    Comma,
    /// `{`
    LeftBrace,
    /// `}`
    RightBrace,
    /// `(`
    LeftParen,
    /// `)`
    RightParen,
    /// `[`
    LeftBracket,
    /// `]`
    RightBracket,
    /// The end of the input.
    End,
}

impl Expected {
    /// The expected token class, spelled as it appears in the grammar.
    pub fn describe(&self) -> (r: &'static str)
        ensures
            match *self {
                Expected::ClassKeyword => r@ == "class"@,
                Expected::Ident => r@ == "identifier"@,
                Expected::Colon => r@ == ":"@,
                Expected::Comma => r@ == ","@,
                Expected::LeftBrace => r@ == "{"@,
                Expected::RightBrace => r@ == "}"@,
                Expected::LeftParen => r@ == "("@,
                Expected::RightParen => r@ == ")"@,
                Expected::LeftBracket => r@ == "["@,
                Expected::RightBracket => r@ == "]"@,
                Expected::End => r@ == "end of input"@,
            },
    {
        match self {
            Expected::ClassKeyword => "class",
            Expected::Ident => "identifier",
            Expected::Colon => ":",
            Expected::Comma => ",",
            Expected::LeftBrace => "{",
            Expected::RightBrace => "}",
            Expected::LeftParen => "(",
            Expected::RightParen => ")",
            Expected::LeftBracket => "[",
            Expected::RightBracket => "]",
            Expected::End => "end of input",
        }
    }
}

/// A failure while parsing or generating.  Generation aborts on the first
/// failure and produces no output.
#[derive(Debug, PartialEq, Eq)]
pub enum GenerationError {
    /// The input left the grammar: the named token class was expected at the
    /// given character position.
    ExpectedToken { token: Expected, at: usize },
    /// A parameter, return or property type named a scalar kind the boundary
    /// does not support.
    UnknownType { ident: String, at: usize },
    /// A character that begins no token of the language.
    UnexpectedChar { at: usize },
}

/// The ghost shape of a [`GenerationError`]: identifier text as a character
/// sequence, positions as mathematical integers.
pub enum SpecGenerationError {
    ExpectedToken { token: Expected, at: int },
    UnknownType { ident: Seq<char>, at: int },
    UnexpectedChar { at: int },
}

impl View for GenerationError {
    type V = SpecGenerationError;

    open spec fn view(&self) -> SpecGenerationError {
        match self {
            GenerationError::ExpectedToken { token, at } => SpecGenerationError::ExpectedToken {
                token: *token,
                at: *at as int,
            },
            GenerationError::UnknownType { ident, at } => SpecGenerationError::UnknownType {
                ident: ident@,
                at: *at as int,
            },
            GenerationError::UnexpectedChar { at } => SpecGenerationError::UnexpectedChar {
                at: *at as int,
            },
        }
    }
}

/// A failure reported by the external object broker for one resolve or
/// invoke round trip: its numeric code and its message.
#[derive(Debug, PartialEq, Eq)]
pub struct BrokerFailure {
    /// The broker's numeric failure code.
    pub code: i32,
    /// The broker's message.
    pub message: String,
}

/// What an accessor call can surface to its caller.  There is no local
/// recovery: every failure is handed to the immediate caller unchanged.
#[derive(Debug, PartialEq, Eq)]
pub enum ComError {
    /// A boundary call failed; the broker's code and message, unchanged.
    Invoke { code: i32, message: String },
    /// A value's tag could not be coerced to the requested tag.
    Conversion { expected: crate::variant::VariantTag, found: crate::variant::VariantTag },
    /// An object-typed value did not carry an object reference.
    MissingObject,
}

} // verus!
