//! The token model: the closed set of token kinds, the literal-value union,
//! the token record, and the keyword lookup.

use vstd::prelude::*;

use crate::text::str_eq;

verus! {

/// The closed set of token kinds: punctuation and operators (each comparison
/// operator with a one- and a two-character form), the three literal kinds,
/// the sixteen reserved keywords, and the terminal end-of-input marker.
#[derive(Clone, Copy, Debug, PartialEq, Eq, Structural)]
pub enum TokenKind {
    // Single-character punctuation
    LeftParenthesis,
    RightParenthesis,
    LeftBrace,
    RightBrace,
    Comma,
    Dot,
    Minus,
    Plus,
    Semicolon,
    Slash,
    Star,
    // Comparison and equality
    Bang,
    BangEqual,
    Equal,
    EqualEqual,
    Greater,
    GreaterEqual,
    Less,
    LessEqual,
    // Literals
    Identifier,
    Str,
    Number,
    // Keywords
    And,
    Class,
    Else,
    False,
    Fun,
    For,
    If,
    Nil,
    Or,
    Print,
    Return,
    Super,
    This,
    True,
    Var,
    While,
    // Terminal marker
    EOF,
}

/// A decoded literal value: the closed tagged union carried both by tokens
/// (for string and number literals) and by literal expression nodes.
///
/// A number is kept as canonical decimal text: the digits exactly as written
/// in the source, always with a decimal point (`123` decodes to `123.0`,
/// `12.5` stays `12.5`). This gives number literals a stable textual form.
#[derive(Clone, Debug, PartialEq)]
pub enum LitKind {
    Str(String),
    Number(String),
    Bool(bool),
    Nil,
}

/// A literal value as the nodes and tokens carry it.
#[derive(Clone, Debug, PartialEq)]
pub struct Lit {
    pub kind: LitKind,
}

/// The mathematical view of a literal value: text as a sequence of characters.
pub enum LitView {
    Str(Seq<char>),
    Number(Seq<char>),
    Bool(bool),
    Nil,
}

impl View for LitKind {
    type V = LitView;

    open spec fn view(&self) -> LitView {
        match self {
            LitKind::Str(s) => LitView::Str(s@),
            LitKind::Number(t) => LitView::Number(t@),
            LitKind::Bool(b) => LitView::Bool(*b),
            LitKind::Nil => LitView::Nil,
        }
    }
}

impl View for Lit {
    type V = LitView;

    open spec fn view(&self) -> LitView {
        self.kind@
    }
}

/// A classified, positioned unit of source text. `lexeme` is the exact
/// substring matched; `literal` is populated only for string and number
/// tokens and carries the decoded value; `line` is 1-based.
#[derive(Clone, Debug, PartialEq)]
pub struct Token {
    pub kind: TokenKind,
    pub lexeme: String,
    pub literal: Option<Lit>,
    pub line: usize,
}

/// The mathematical view of a token.
pub struct TokenView {
    pub kind: TokenKind,
    pub lexeme: Seq<char>,
    pub literal: Option<LitView>,
    pub line: int,
}

impl View for Token {
    type V = TokenView;

    open spec fn view(&self) -> TokenView {
        TokenView {
            kind: self.kind,
            lexeme: self.lexeme@,
            literal: match &self.literal {
                Some(l) => Some(l@),
                None => None,
            },
            line: self.line as int,
        }
    }
}

impl Token {
    /// Builds a token from its four parts, unchanged.
    pub fn new(kind: TokenKind, lexeme: String, literal: Option<Lit>, line: usize) -> (t: Token)
        ensures
            t.kind == kind,
            t.lexeme == lexeme,
            t.literal == literal,
            t.line == line,
    {
        Token { kind, lexeme, literal, line }
    }
}

/// The fixed keyword table: the kind reserved for `s`, or `Identifier` when
/// `s` is not a reserved word. Recognition is case-sensitive and exact.
pub open spec fn keyword_kind(s: Seq<char>) -> TokenKind {
    if s == "and"@ {
        TokenKind::And
    } else if s == "class"@ {
        TokenKind::Class
    } else if s == "else"@ {
        TokenKind::Else
    } else if s == "false"@ {
        TokenKind::False
    } else if s == "for"@ {
        TokenKind::For
    } else if s == "fun"@ {
        TokenKind::Fun
    } else if s == "if"@ {
        TokenKind::If
    } else if s == "nil"@ {
        TokenKind::Nil
    } else if s == "or"@ {
        TokenKind::Or
    } else if s == "print"@ {
        TokenKind::Print
    } else if s == "return"@ {
        TokenKind::Return
    } else if s == "super"@ {
        TokenKind::Super
    } else if s == "this"@ {
        TokenKind::This
    } else if s == "true"@ {
        TokenKind::True
    } else if s == "var"@ {
        TokenKind::Var
    } else if s == "while"@ {
        TokenKind::While
    } else {
        TokenKind::Identifier
    }
}

/// Looks `lexeme` up in the keyword table.
pub fn lookup_keyword(lexeme: &str) -> (k: TokenKind)
    ensures
        k == keyword_kind(lexeme@),
{
    if str_eq(lexeme, "and") {
        TokenKind::And
    } else if str_eq(lexeme, "class") {
        TokenKind::Class
    } else if str_eq(lexeme, "else") {
        TokenKind::Else
    } else if str_eq(lexeme, "false") {
        TokenKind::False
    } else if str_eq(lexeme, "for") {
        TokenKind::For
    } else if str_eq(lexeme, "fun") {
        TokenKind::Fun
    } else if str_eq(lexeme, "if") {
        TokenKind::If
    } else if str_eq(lexeme, "nil") {
        TokenKind::Nil
    } else if str_eq(lexeme, "or") {
        TokenKind::Or
    } else if str_eq(lexeme, "print") {
        TokenKind::Print
    } else if str_eq(lexeme, "return") {
        TokenKind::Return
    } else if str_eq(lexeme, "super") {
        TokenKind::Super
    } else if str_eq(lexeme, "this") {
        TokenKind::This
    } else if str_eq(lexeme, "true") {
        TokenKind::True
    } else if str_eq(lexeme, "var") {
        TokenKind::Var
    } else if str_eq(lexeme, "while") {
        TokenKind::While
    } else {
        TokenKind::Identifier
    }
}

} // verus!
