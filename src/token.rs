//! Tokens and source spans.
use vstd::prelude::*;

verus! {

/// A half-open byte range `[start, end)` of a source buffer.
#[derive(Debug, Clone, Copy, PartialEq, Eq, Structural)]
pub struct Span {
    pub start: usize,
    pub end: usize,
}

impl Span {
    /// The span `[start, end)`.
    pub fn new(start: usize, end: usize) -> (r: Span)
        ensures
            r.start == start,
            r.end == end,
    {
        Span { start, end }
    }

    /// The smallest span that covers both `self` and `other`.
    pub fn join(self, other: Span) -> (r: Span)
        ensures
            r.start == self.start,
            r.end == other.end,
    {
        Span { start: self.start, end: other.end }
    }

    /// The span without its first `n` bytes (empty where it is shorter).
    pub fn trim_start(self, n: usize) -> (r: Span)
        requires
            self.start <= self.end,
        ensures
            r.end == self.end,
            r.start == if self.end - self.start >= n { self.start + n } else { self.end as int },
    {
        if self.end - self.start >= n {
            Span { start: self.start + n, end: self.end }
        } else {
            Span { start: self.end, end: self.end }
        }
    }
}

/// Brackets.
#[derive(Debug, Clone, Copy, PartialEq, Eq, Structural)]
pub enum Delimiter {
    Parenthesis,
    Brace,
    Bracket,
}

/// How a number literal was written.
#[derive(Debug, Clone, Copy, PartialEq, Eq, Structural)]
pub enum NumberKind {
    Decimal,
    Hex,
    Octal,
    Binary,
    Float,
}

/// The kind of a token.
#[derive(Debug, Clone, Copy, PartialEq, Eq, Structural)]
pub enum Kind {
    Ident,
    Label,
    Number(NumberKind),
    LitStr,
    LitChar,
    LitTemplate,
    Open(Delimiter),
    Close(Delimiter),
    Self_,
    Fn,
    Is,
    Not,
    Enum,
    Struct,
    If,
    Match,
    Else,
    Let,
    Use,
    While,
    Loop,
    For,
    In,
    Break,
    Yield,
    Return,
    Await,
    Async,
    Select,
    Default,
    Impl,
    True,
    False,
    Underscore,
    Comma,
    Colon,
    Scope,
    Dot,
    DotDot,
    SemiColon,
    Eq,
    EqEq,
    Neq,
    Lt,
    Gt,
    Lte,
    Gte,
    Add,
    Sub,
    Mul,
    Div,
    Rem,
    AddAssign,
    SubAssign,
    MulAssign,
    DivAssign,
    Bang,
    And,
    Or,
    Pipe,
    Amp,
    Rocket,
    Hash,
    Try,
    QuestionQuestion,
}

/// A token: its kind and where it stands in the source.
#[derive(Debug, Clone, Copy, PartialEq, Eq, Structural)]
pub struct Token {
    pub kind: Kind,
    pub span: Span,
}

/// Why source text could not be read as the grammar asks.
#[derive(Debug, Clone, Copy, PartialEq, Eq, Structural)]
pub enum ParseError {
    /// A byte that starts no token.
    UnexpectedChar { span: Span },
    /// A string literal without its closing quote.
    UnterminatedStrLit { span: Span },
    /// A character literal without its closing quote.
    UnterminatedCharLit { span: Span },
    /// A template string without its closing backtick.
    UnterminatedTemplate { span: Span },
    /// A backslash escape that the language does not define.
    BadEscapeSequence { span: Span },
    /// A token of one kind was expected, another was found.
    TokenMismatch { expected: Kind, actual: Kind, span: Span },
    /// The input ended where more was expected.
    UnexpectedEof { span: Span },
    /// A token that starts no expression.
    ExpectedExpr { actual: Kind, span: Span },
    /// Input was left over after a complete parse.
    ExpectedEof { actual: Kind, span: Span },
    /// The left side of an assignment is not a variable, field or index.
    UnsupportedAssignExpr { span: Span },
    /// A token that starts no declaration.
    ExpectedDecl { actual: Kind, span: Span },
    /// A span that does not lie within the source.
    BadSlice { span: Span },
}

} // verus!
