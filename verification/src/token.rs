//! The tokens of the class-description language, and the scanner that cuts
//! an input text into them.
//!
//! The language has identifiers, the punctuation `: , + { } ( )` and the
//! arrow `->`, attribute groups `#[...]`, and documentation lines beginning
//! with `///`; both of the last two are carried verbatim so that generation
//! can reattach them.  Plain `//` comments and whitespace separate tokens
//! and are dropped.  A character that begins none of these fails the scan at
//! its exact position.

use vstd::prelude::*;

use crate::error::Expected;
use crate::error::GenerationError;
use crate::error::SpecGenerationError;

verus! {

/// What one token is.
#[derive(Debug)]
pub enum TokenKind {
    /// An identifier, including the keywords of the language.
    Ident(String),
    /// An attribute group `#[...]` or a documentation line `///...`,
    /// verbatim.
    Attr(String),
    /// `:`
    Colon,
    /// `,`
    Comma,
    /// `+`
    Plus,
    /// `{`
    LeftBrace,
    /// `}`
    RightBrace,
    /// `(`
    LeftParen,
    /// `)`
    RightParen,
    /// `->`
    Arrow,
}

/// One token and the character position where it starts.
#[derive(Debug)]
pub struct Token {
    /// What the token is.
    pub kind: TokenKind,
    /// The character position of the token's first character.
    pub at: usize,
}

/// The ghost shape of a [`TokenKind`]: text as a character sequence.
pub enum SpecTokenKind {
    Ident(Seq<char>),
    Attr(Seq<char>),
    Colon,
    Comma,
    Plus,
    LeftBrace,
    RightBrace,
    LeftParen,
    RightParen,
    Arrow,
}

/// The ghost shape of a [`Token`].
pub struct SpecToken {
    pub kind: SpecTokenKind,
    pub at: int,
}

impl View for TokenKind {
    type V = SpecTokenKind;

    open spec fn view(&self) -> SpecTokenKind {
        match self {
            TokenKind::Ident(s) => SpecTokenKind::Ident(s@),
            TokenKind::Attr(s) => SpecTokenKind::Attr(s@),
            TokenKind::Colon => SpecTokenKind::Colon,
            TokenKind::Comma => SpecTokenKind::Comma,
            TokenKind::Plus => SpecTokenKind::Plus,
            TokenKind::LeftBrace => SpecTokenKind::LeftBrace,
            TokenKind::RightBrace => SpecTokenKind::RightBrace,
            TokenKind::LeftParen => SpecTokenKind::LeftParen,
            TokenKind::RightParen => SpecTokenKind::RightParen,
            TokenKind::Arrow => SpecTokenKind::Arrow,
        }
    }
}

impl View for Token {
    type V = SpecToken;

    open spec fn view(&self) -> SpecToken {
        SpecToken { kind: self.kind@, at: self.at as int }
    }
}

/// The view of a token sequence.
pub open spec fn tokens_view(ts: Seq<Token>) -> Seq<SpecToken> {
    ts.map_values(|t: Token| t@)
}

/// Whitespace between tokens.
pub open spec fn is_space(c: char) -> bool {
    c == ' ' || c == '\t' || c == '\n' || c == '\r'
}

/// A character that may open an identifier: a letter or an underscore.
pub open spec fn is_ident_start(c: char) -> bool {
    (97 <= c as u32 && c as u32 <= 122) || (65 <= c as u32 && c as u32 <= 90) || c == '_'
}

/// A character that may continue an identifier: a letter, a digit or an
/// underscore.
pub open spec fn is_ident_char(c: char) -> bool {
    is_ident_start(c) || (48 <= c as u32 && c as u32 <= 57)
}

/// The position just past the identifier characters running from `i`.
pub open spec fn ident_end(s: Seq<char>, i: nat) -> nat
    decreases s.len() - i,
    when i <= s.len()
{
    if i >= s.len() {
        i
    } else if is_ident_char(s[i as int]) {
        ident_end(s, i + 1)
    } else {
        i
    }
}

/// The scan past identifier characters stays inside the text.
pub proof fn lemma_ident_end(s: Seq<char>, i: nat)
    requires
        i <= s.len(),
    ensures
        i <= ident_end(s, i) <= s.len(),
    decreases s.len() - i,
{
    if i < s.len() && is_ident_char(s[i as int]) {
        lemma_ident_end(s, i + 1);
    }
}

/// The position of the next line break at or after `i`, or the end of the
/// text.
pub open spec fn line_end(s: Seq<char>, i: nat) -> nat
    decreases s.len() - i,
    when i <= s.len()
{
    if i >= s.len() {
        i
    } else if s[i as int] == '\n' {
        i
    } else {
        line_end(s, i + 1)
    }
}

/// The scan to the line break stays inside the text.
pub proof fn lemma_line_end(s: Seq<char>, i: nat)
    requires
        i <= s.len(),
    ensures
        i <= line_end(s, i) <= s.len(),
    decreases s.len() - i,
{
    if i < s.len() && s[i as int] != '\n' {
        lemma_line_end(s, i + 1);
    }
}

/// The position of the next `]` at or after `i`, if the text holds one.
pub open spec fn bracket_end(s: Seq<char>, i: nat) -> Option<nat>
    decreases s.len() - i,
    when i <= s.len()
{
    if i >= s.len() {
        None
    } else if s[i as int] == ']' {
        Some(i)
    } else {
        bracket_end(s, i + 1)
    }
}

/// The scan to the closing bracket stays inside the text.
pub proof fn lemma_bracket_end(s: Seq<char>, i: nat)
    requires
        i <= s.len(),
    ensures
        bracket_end(s, i) matches Some(j) ==> i <= j < s.len(),
    decreases s.len() - i,
{
    if i < s.len() && s[i as int] != ']' {
        lemma_bracket_end(s, i + 1);
    }
}

/// The next token at or after position `i`: the token and the position just
/// past it, `None` at the end of the text, or the scan failure.
pub open spec fn spec_next_token(s: Seq<char>, i: nat) -> Result<
    Option<(SpecToken, nat)>,
    SpecGenerationError,
>
    decreases s.len() - i,
    when i <= s.len()
{
    if i >= s.len() {
        Ok(None)
    } else {
        let c = s[i as int];
        if is_space(c) {
            spec_next_token(s, i + 1)
        } else if c == ':' {
            Ok(Some((SpecToken { kind: SpecTokenKind::Colon, at: i as int }, i + 1)))
        } else if c == ',' {
            Ok(Some((SpecToken { kind: SpecTokenKind::Comma, at: i as int }, i + 1)))
        } else if c == '+' {
            Ok(Some((SpecToken { kind: SpecTokenKind::Plus, at: i as int }, i + 1)))
        } else if c == '{' {
            Ok(Some((SpecToken { kind: SpecTokenKind::LeftBrace, at: i as int }, i + 1)))
        } else if c == '}' {
            Ok(Some((SpecToken { kind: SpecTokenKind::RightBrace, at: i as int }, i + 1)))
        } else if c == '(' {
            Ok(Some((SpecToken { kind: SpecTokenKind::LeftParen, at: i as int }, i + 1)))
        } else if c == ')' {
            Ok(Some((SpecToken { kind: SpecTokenKind::RightParen, at: i as int }, i + 1)))
        } else if c == '-' {
            if i + 1 < s.len() && s[(i + 1) as int] == '>' {
                Ok(Some((SpecToken { kind: SpecTokenKind::Arrow, at: i as int }, i + 2)))
            } else {
                Err(SpecGenerationError::UnexpectedChar { at: i as int })
            }
        } else if c == '/' {
            if i + 1 < s.len() && s[(i + 1) as int] == '/' {
                if i + 2 < s.len() && s[(i + 2) as int] == '/' {
                    let j = line_end(s, i + 3);
                    Ok(
                        Some(
                            (
                                SpecToken {
                                    kind: SpecTokenKind::Attr(s.subrange(i as int, j as int)),
                                    at: i as int,
                                },
                                j,
                            ),
                        ),
                    )
                } else {
                    {
                        proof {
                            lemma_line_end(s, i + 2);
                        }
                        spec_next_token(s, line_end(s, i + 2))
                    }
                }
            } else {
                Err(SpecGenerationError::UnexpectedChar { at: i as int })
            }
        } else if c == '#' {
            if i + 1 < s.len() && s[(i + 1) as int] == '[' {
                match bracket_end(s, i + 2) {
                    Some(j) => Ok(
                        Some(
                            (
                                SpecToken {
                                    kind: SpecTokenKind::Attr(s.subrange(i as int, j + 1 as int)),
                                    at: i as int,
                                },
                                (j + 1) as nat,
                            ),
                        ),
                    ),
                    None => Err(
                        SpecGenerationError::ExpectedToken {
                            token: Expected::RightBracket,
                            at: s.len() as int,
                        },
                    ),
                }
            } else {
                Err(
                    SpecGenerationError::ExpectedToken {
                        token: Expected::LeftBracket,
                        at: (i + 1) as int,
                    },
                )
            }
        } else if is_ident_start(c) {
            let j = ident_end(s, i + 1);
            Ok(
                Some(
                    (
                        SpecToken {
                            kind: SpecTokenKind::Ident(s.subrange(i as int, j as int)),
                            at: i as int,
                        },
                        j,
                    ),
                ),
            )
        } else {
            Err(SpecGenerationError::UnexpectedChar { at: i as int })
        }
    }
}

/// A produced token ends past where it starts, and inside the text.
pub proof fn lemma_next_token_advances(s: Seq<char>, i: nat)
    requires
        i <= s.len(),
    ensures
        spec_next_token(s, i) matches Ok(Some((t, j))) ==> i < j <= s.len(),
    decreases s.len() - i,
{
    if i < s.len() {
        let c = s[i as int];
        if is_space(c) {
            lemma_next_token_advances(s, i + 1);
        } else if c == '/' && i + 1 < s.len() && s[(i + 1) as int] == '/' && !(i + 2 < s.len() && s[(i + 2) as int]
            == '/') {
            lemma_line_end(s, i + 2);
            lemma_next_token_advances(s, line_end(s, i + 2));
        } else if c == '/' && i + 1 < s.len() && s[(i + 1) as int] == '/' {
            lemma_line_end(s, i + 3);
        } else if c == '#' && i + 1 < s.len() && s[(i + 1) as int] == '[' {
            lemma_bracket_end(s, i + 2);
        } else if is_ident_start(c) {
            lemma_ident_end(s, i + 1);
        }
    }
}

/// The token sequence of the text from position `i` on, or the first scan
/// failure.
pub open spec fn spec_tokenize_from(s: Seq<char>, i: nat) -> Result<
    Seq<SpecToken>,
    SpecGenerationError,
>
    decreases s.len() - i,
    when i <= s.len()
{
    match spec_next_token(s, i) {
        Err(e) => Err(e),
        Ok(None) => Ok(Seq::empty()),
        Ok(Some((t, j))) => {
            proof {
                lemma_next_token_advances(s, i);
            }
            match spec_tokenize_from(s, j) {
                Err(e) => Err(e),
                Ok(rest) => Ok(seq![t] + rest),
            }
        },
    }
}

/// The token sequence of the whole text, or the first scan failure.
pub open spec fn spec_tokenize(s: Seq<char>) -> Result<Seq<SpecToken>, SpecGenerationError> {
    spec_tokenize_from(s, 0)
}

/// Whitespace, in executable form.
fn ch_is_space(c: char) -> (r: bool)
    ensures
        r == is_space(c),
{
    c == ' ' || c == '\t' || c == '\n' || c == '\r'
}

/// Identifier opener, in executable form.
fn ch_is_ident_start(c: char) -> (r: bool)
    ensures
        r == is_ident_start(c),
{
    let u = c as u32;
    (97 <= u && u <= 122) || (65 <= u && u <= 90) || c == '_'
}

/// Identifier continuation, in executable form.
fn ch_is_ident_char(c: char) -> (r: bool)
    ensures
        r == is_ident_char(c),
{
    let u = c as u32;
    ch_is_ident_start(c) || (48 <= u && u <= 57)
}

/// Scan past identifier characters, from `j0`.
fn scan_ident_end(s: &str, n: usize, j0: usize) -> (j: usize)
    requires
        n == s@.len(),
        j0 <= n,
    ensures
        j == ident_end(s@, j0 as nat),
        j0 <= j <= n,
{
    let mut j = j0;
    while j < n && ch_is_ident_char(s.get_char(j))
        invariant
            n == s@.len(),
            j0 <= j <= n,
            ident_end(s@, j0 as nat) == ident_end(s@, j as nat),
        decreases n - j,
    {
        j = j + 1;
    }
    j
}

/// Scan to the next line break, from `j0`.
fn scan_line_end(s: &str, n: usize, j0: usize) -> (j: usize)
    requires
        n == s@.len(),
        j0 <= n,
    ensures
        j == line_end(s@, j0 as nat),
        j0 <= j <= n,
{
    let mut j = j0;
    while j < n && s.get_char(j) != '\n'
        invariant
            n == s@.len(),
            j0 <= j <= n,
            line_end(s@, j0 as nat) == line_end(s@, j as nat),
        decreases n - j,
    {
        j = j + 1;
    }
    j
}

/// Scan to the next `]`, from `j0`.
fn scan_bracket_end(s: &str, n: usize, j0: usize) -> (r: Option<usize>)
    requires
        n == s@.len(),
        j0 <= n,
    ensures
        match r {
            Some(j) => bracket_end(s@, j0 as nat) == Some(j as nat) && j0 <= j < n,
            None => bracket_end(s@, j0 as nat) is None,
        },
{
    let mut j = j0;
    while j < n && s.get_char(j) != ']'
        invariant
            n == s@.len(),
            j0 <= j <= n,
            bracket_end(s@, j0 as nat) == bracket_end(s@, j as nat),
        decreases n - j,
    {
        j = j + 1;
    }
    if j < n {
        Some(j)
    } else {
        None
    }
}

/// Read the next token at or after position `i`.
fn next_token(s: &str, n: usize, start: usize) -> (r: Result<
    Option<(Token, usize)>,
    GenerationError,
>)
    requires
        n == s@.len(),
        start <= n,
    ensures
        match r {
            Ok(Some((t, j))) => spec_next_token(s@, start as nat) == Ok::<
                Option<(SpecToken, nat)>,
                SpecGenerationError,
            >(Some((t@, j as nat))) && start < j <= n,
            Ok(None) => spec_next_token(s@, start as nat) == Ok::<
                Option<(SpecToken, nat)>,
                SpecGenerationError,
            >(None),
            Err(e) => spec_next_token(s@, start as nat) == Err::<
                Option<(SpecToken, nat)>,
                SpecGenerationError,
            >(e@),
        },
{
    let mut i = start;
    loop
        invariant
            n == s@.len(),
            start <= i <= n,
            spec_next_token(s@, start as nat) == spec_next_token(s@, i as nat),
        decreases n - i,
    {
        if i >= n {
            return Ok(None);
        }
        let c = s.get_char(i);
        if ch_is_space(c) {
            i = i + 1;
        } else if c == ':' {
            return Ok(Some((Token { kind: TokenKind::Colon, at: i }, i + 1)));
        } else if c == ',' {
            return Ok(Some((Token { kind: TokenKind::Comma, at: i }, i + 1)));
        } else if c == '+' {
            return Ok(Some((Token { kind: TokenKind::Plus, at: i }, i + 1)));
        } else if c == '{' {
            return Ok(Some((Token { kind: TokenKind::LeftBrace, at: i }, i + 1)));
        } else if c == '}' {
            return Ok(Some((Token { kind: TokenKind::RightBrace, at: i }, i + 1)));
        } else if c == '(' {
            return Ok(Some((Token { kind: TokenKind::LeftParen, at: i }, i + 1)));
        } else if c == ')' {
            return Ok(Some((Token { kind: TokenKind::RightParen, at: i }, i + 1)));
        } else if c == '-' {
            if i + 1 < n && s.get_char(i + 1) == '>' {
                return Ok(Some((Token { kind: TokenKind::Arrow, at: i }, i + 2)));
            } else {
                return Err(GenerationError::UnexpectedChar { at: i });
            }
        } else if c == '/' {
            if i + 1 < n && s.get_char(i + 1) == '/' {
                if i + 2 < n && s.get_char(i + 2) == '/' {
                    let j = scan_line_end(s, n, i + 3);
                    let text = s.substring_char(i, j).to_owned();
                    return Ok(Some((Token { kind: TokenKind::Attr(text), at: i }, j)));
                } else {
                    i = scan_line_end(s, n, i + 2);
                }
            } else {
                return Err(GenerationError::UnexpectedChar { at: i });
            }
        } else if c == '#' {
            if i + 1 < n && s.get_char(i + 1) == '[' {
                match scan_bracket_end(s, n, i + 2) {
                    Some(j) => {
                        let text = s.substring_char(i, j + 1).to_owned();
                        return Ok(Some((Token { kind: TokenKind::Attr(text), at: i }, j + 1)));
                    },
                    None => {
                        return Err(
                            GenerationError::ExpectedToken { token: Expected::RightBracket, at: n },
                        );
                    },
                }
            } else {
                return Err(
                    GenerationError::ExpectedToken { token: Expected::LeftBracket, at: i + 1 },
                );
            }
        } else if ch_is_ident_start(c) {
            let j = scan_ident_end(s, n, i + 1);
            let text = s.substring_char(i, j).to_owned();
            return Ok(Some((Token { kind: TokenKind::Ident(text), at: i }, j)));
        } else {
            return Err(GenerationError::UnexpectedChar { at: i });
        }
    }
}

/// Cut the whole text into tokens, or report the first scan failure at its
/// exact character position.
pub fn tokenize(s: &str) -> (r: Result<Vec<Token>, GenerationError>)
    ensures
        match r {
            Ok(v) => spec_tokenize(s@) == Ok::<Seq<SpecToken>, SpecGenerationError>(
                tokens_view(v@),
            ),
            Err(e) => spec_tokenize(s@) == Err::<Seq<SpecToken>, SpecGenerationError>(e@),
        },
{
    let n = s.unicode_len();
    let mut acc: Vec<Token> = Vec::new();
    let mut i: usize = 0;
    loop
        invariant
            n == s@.len(),
            i <= n,
            match spec_tokenize_from(s@, i as nat) {
                Ok(rest) => spec_tokenize(s@) == Ok::<Seq<SpecToken>, SpecGenerationError>(
                    tokens_view(acc@) + rest,
                ),
                Err(e) => spec_tokenize(s@) == Err::<Seq<SpecToken>, SpecGenerationError>(e),
            },
        decreases n - i,
    {
        let ghost old_acc = acc@;
        match next_token(s, n, i) {
            Err(e) => {
                return Err(e);
            },
            Ok(None) => {
                proof {
                    assert(tokens_view(acc@) + Seq::<SpecToken>::empty() =~= tokens_view(acc@));
                }
                return Ok(acc);
            },
            Ok(Some((t, j))) => {
                acc.push(t);
                i = j;
                proof {
                    assert(tokens_view(acc@) =~= tokens_view(old_acc).push(t@));
                    match spec_tokenize_from(s@, i as nat) {
                        Ok(rest) => {
                            assert(tokens_view(old_acc) + (seq![t@] + rest) =~= tokens_view(acc@)
                                + rest);
                        },
                        Err(_) => {},
                    }
                }
            },
        }
    }
}

} // verus!
