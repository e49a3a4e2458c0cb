//! Declarations: `use`, `fn`, `enum`, `struct` and `impl`, and whole files.
use vstd::prelude::*;
use vstd::string::StringSliceAdditionalSpecFns;
use crate::ast::Expr;
use crate::lexer::{lex, token_ok, tokens_ok};
use crate::parser::{covers, eof_span, expect, parse_block, parse_path, simple_block};
use crate::token::{Delimiter, Kind, ParseError, Span, Token};

verus! {

/// `use a::b::c;`
#[derive(Debug, Clone, Copy)]
pub struct DeclUse {
    pub span: Span,
    pub path: Span,
}

/// `fn name(a, b) { ... }`, optionally `async`.
#[derive(Debug)]
pub struct DeclFn {
    pub span: Span,
    pub is_async: bool,
    pub name: Span,
    pub args: Vec<Span>,
    pub body: Box<Expr>,
}

/// `enum Name { A, B(x, y), ... }`
#[derive(Debug)]
pub struct DeclEnum {
    pub span: Span,
    pub name: Span,
    pub variants: Vec<Span>,
}

/// The body of a struct declaration.
#[derive(Debug)]
pub enum DeclStructBody {
    /// `struct Name;`
    EmptyBody,
    /// `struct Name(a, b);`
    TupleBody { fields: Vec<Span> },
    /// `struct Name { a, b }`
    StructBody { fields: Vec<Span> },
}

/// `struct Name ...`
#[derive(Debug)]
pub struct DeclStruct {
    pub span: Span,
    pub name: Span,
    pub body: DeclStructBody,
}

/// `impl Path { fn ... }`
#[derive(Debug)]
pub struct DeclImpl {
    pub span: Span,
    pub path: Span,
    pub functions: Vec<DeclFn>,
}

/// A declaration.
#[derive(Debug)]
pub enum Decl {
    DeclUse(DeclUse),
    DeclFn(DeclFn),
    DeclEnum(DeclEnum),
    DeclStruct(DeclStruct),
    DeclImpl(DeclImpl),
}

/// A parsed source file: its declarations in order.
#[derive(Debug)]
pub struct DeclFile {
    pub decls: Vec<Decl>,
}

/// The span of a declaration.
pub open spec fn decl_span(d: Decl) -> Span {
    match d {
        Decl::DeclUse(x) => x.span,
        Decl::DeclFn(x) => x.span,
        Decl::DeclEnum(x) => x.span,
        Decl::DeclStruct(x) => x.span,
        Decl::DeclImpl(x) => x.span,
    }
}

/// Whether a declaration must be followed by `;`: a `use`, and a struct
/// without a braced body.
pub open spec fn needs_semi(d: Decl) -> bool {
    match d {
        Decl::DeclUse(_) => true,
        Decl::DeclStruct(s) => !(s.body is StructBody),
        _ => false,
    }
}

/// Whether a token can start a declaration.
pub open spec fn starts_decl(k: Kind) -> bool {
    k == Kind::Use || k == Kind::Enum || k == Kind::Struct || k == Kind::Fn || k == Kind::Impl
}

/// `s` is the span of one of the tokens `lo..hi`.
pub open spec fn token_span_in(toks: Seq<Token>, lo: int, hi: int, s: Span) -> bool {
    exists|j: int| lo <= j < hi && #[trigger] toks[j].span == s
}

/// The name of a function declaration is one of the tokens it was parsed
/// from.
pub open spec fn names_within(toks: Seq<Token>, lo: int, hi: int, d: Decl) -> bool {
    match d {
        Decl::DeclFn(f) => token_span_in(toks, lo, hi, f.name),
        _ => true,
    }
}

/// The end of a list at `p` that is `( )` or `( name )`, closed by `close`.
pub open spec fn simple_list(toks: Seq<Token>, p: int, close: Kind) -> Option<int> {
    if 0 <= p && p + 1 < toks.len() && toks[p + 1].kind == close {
        Some(p + 2)
    } else if 0 <= p && p + 2 < toks.len() && toks[p + 1].kind == Kind::Ident && toks[p + 2].kind == close
        && close != Kind::Comma {
        Some(p + 3)
    } else {
        None
    }
}

/// The end of a function at `p` of the form `fn name(..) {..}`, with at
/// most one argument and a body that is empty or one atom.
pub open spec fn simple_fn(toks: Seq<Token>, p: int) -> Option<int> {
    if 0 <= p && p + 2 < toks.len() && toks[p].kind == Kind::Fn && toks[p + 1].kind == Kind::Ident
        && toks[p + 2].kind == Kind::Open(Delimiter::Parenthesis) {
        match simple_list(toks, p + 2, Kind::Close(Delimiter::Parenthesis)) {
            Some(m) => simple_block(toks, m),
            None => None,
        }
    } else {
        None
    }
}

/// Which declaration a first token introduces: `use`, `enum`, `struct` and
/// `impl` their own, anything else a function.
pub open spec fn decl_matches(k: Kind, d: Decl) -> bool {
    match k {
        Kind::Use => d is DeclUse,
        Kind::Enum => d is DeclEnum,
        Kind::Struct => d is DeclStruct,
        Kind::Impl => d is DeclImpl,
        _ => d is DeclFn,
    }
}

impl DeclStruct {
    /// Whether the declaration must be followed by `;`.
    pub fn needs_semi_colon(&self) -> (r: bool)
        ensures
            r == !(self.body is StructBody),
    {
        match self.body {
            DeclStructBody::StructBody { .. } => false,
            _ => true,
        }
    }
}

impl Decl {
    /// The span of the declaration.
    pub fn span(&self) -> (r: Span)
        ensures
            r == decl_span(*self),
    {
        match self {
            Decl::DeclUse(decl) => decl.span,
            Decl::DeclFn(decl) => decl.span,
            Decl::DeclEnum(decl) => decl.span,
            Decl::DeclStruct(decl) => decl.span,
            Decl::DeclImpl(decl) => decl.span,
        }
    }

    /// Whether the declaration needs a `;` after it.
    pub fn needs_semi_colon(&self) -> (r: bool)
        ensures
            r == needs_semi(*self),
    {
        match self {
            Decl::DeclUse(..) => true,
            Decl::DeclFn(..) => false,
            Decl::DeclEnum(..) => false,
            Decl::DeclStruct(decl_struct) => decl_struct.needs_semi_colon(),
            Decl::DeclImpl(..) => false,
        }
    }

    /// Whether the first of the next two tokens starts a declaration.
    pub fn peek(t1: Option<Token>, t2: Option<Token>) -> (r: bool)
        ensures
            r == (t1 is Some && starts_decl(t1->Some_0.kind)),
    {
        let t1 = match t1 {
            Some(t1) => t1,
            None => return false,
        };
        match t1.kind {
            Kind::Use => true,
            Kind::Enum => true,
            Kind::Struct => true,
            Kind::Fn => true,
            Kind::Impl => true,
            _ => false,
        }
    }

    /// A declaration at `pos`, chosen by its first token.
    pub fn parse(toks: &Vec<Token>, pos: usize) -> (r: Result<(Decl, usize), ParseError>)
        ensures
            r is Ok ==> covers(toks@, pos as int, r->Ok_0.1 as int, decl_span(r->Ok_0.0))
                && decl_matches(toks@[pos as int].kind, r->Ok_0.0),
            r is Ok ==> names_within(toks@, pos as int, r->Ok_0.1 as int, r->Ok_0.0),
            simple_fn(toks@, pos as int) is Some ==> r is Ok && r->Ok_0.1 == simple_fn(toks@, pos as int)->Some_0,
    {
        if pos >= toks.len() {
            return Err(ParseError::UnexpectedEof { span: eof_span(toks) });
        }
        match toks[pos].kind {
            Kind::Use => {
                let (path, _segments, next) = parse_path(toks, pos + 1)?;
                let span = toks[pos].span.join(path);
                Ok((Decl::DeclUse(DeclUse { span, path }), next))
            },
            Kind::Enum => {
                let (d, next) = parse_enum(toks, pos)?;
                Ok((Decl::DeclEnum(d), next))
            },
            Kind::Struct => {
                let (d, next) = parse_struct(toks, pos)?;
                Ok((Decl::DeclStruct(d), next))
            },
            Kind::Impl => {
                let (d, next) = parse_impl(toks, pos)?;
                Ok((Decl::DeclImpl(d), next))
            },
            _ => {
                let (d, next) = parse_fn(toks, pos)?;
                Ok((Decl::DeclFn(d), next))
            },
        }
    }
}

/// Identifiers between the opening bracket at `pos` and `close`, separated
/// by commas: their spans and the position after `close`.
pub fn parse_ident_list(toks: &Vec<Token>, pos: usize, close: Kind) -> (r: Result<(Vec<Span>, usize), ParseError>)
    requires
        pos < toks@.len(),
    ensures
        r is Ok ==> pos + 2 <= r->Ok_0.1 <= toks@.len() && toks@[r->Ok_0.1 - 1].kind == close,
        simple_list(toks@, pos as int, close) is Some ==> r is Ok && r->Ok_0.1 == simple_list(toks@, pos as int, close)->Some_0,
{
    let n = toks.len();
    let mut items: Vec<Span> = Vec::new();
    let mut cur: usize = pos + 1;
    loop
        invariant
            pos < cur <= toks@.len(),
            n == toks@.len(),
            simple_list(toks@, pos as int, close) is Some ==> cur == pos + 1,
        decreases toks@.len() - cur,
    {
        if cur >= n {
            return Err(ParseError::UnexpectedEof { span: eof_span(toks) });
        }
        if toks[cur].kind == close {
            return Ok((items, cur + 1));
        }
        let next = expect(toks, cur, Kind::Ident)?;
        items.push(toks[cur].span);
        if next < toks.len() && toks[next].kind == Kind::Comma {
            cur = next + 1;
        } else {
            let end = expect(toks, next, close)?;
            return Ok((items, end));
        }
    }
}

/// `[async] fn name(args) { ... }` at `pos`.
pub fn parse_fn(toks: &Vec<Token>, pos: usize) -> (r: Result<(DeclFn, usize), ParseError>)
    ensures
        r is Ok ==> covers(toks@, pos as int, r->Ok_0.1 as int, r->Ok_0.0.span),
        r is Ok ==> token_span_in(toks@, pos as int, r->Ok_0.1 as int, r->Ok_0.0.name),
        simple_fn(toks@, pos as int) is Some ==> r is Ok && r->Ok_0.1 == simple_fn(toks@, pos as int)->Some_0,
{
    let mut cur = pos;
    let mut is_async = false;
    if cur < toks.len() && toks[cur].kind == Kind::Async {
        is_async = true;
        cur = cur + 1;
    }
    let after_fn = expect(toks, cur, Kind::Fn)?;
    let after_name = expect(toks, after_fn, Kind::Ident)?;
    let name = toks[after_fn].span;
    let _ = expect(toks, after_name, Kind::Open(Delimiter::Parenthesis))?;
    let (args, after_args) = parse_ident_list(toks, after_name, Kind::Close(Delimiter::Parenthesis))?;
    let (body, next) = parse_block(toks, after_args)?;
    assert(toks@[after_fn as int].span == name);
    let span = toks[pos].span.join(body.span());
    Ok((DeclFn { span, is_async, name, args, body: Box::new(body) }, next))
}

/// `enum Name { A, B(x), ... }` at `pos`.
pub fn parse_enum(toks: &Vec<Token>, pos: usize) -> (r: Result<(DeclEnum, usize), ParseError>)
    ensures
        r is Ok ==> covers(toks@, pos as int, r->Ok_0.1 as int, r->Ok_0.0.span),
{
    let after_enum = expect(toks, pos, Kind::Enum)?;
    let after_name = expect(toks, after_enum, Kind::Ident)?;
    let name = toks[after_enum].span;
    let mut cur = expect(toks, after_name, Kind::Open(Delimiter::Brace))?;
    let mut variants: Vec<Span> = Vec::new();
    loop
        invariant
            pos < cur <= toks@.len(),
        decreases toks@.len() - cur,
    {
        if cur >= toks.len() {
            return Err(ParseError::UnexpectedEof { span: eof_span(toks) });
        }
        if toks[cur].kind == Kind::Close(Delimiter::Brace) {
            let span = toks[pos].span.join(toks[cur].span);
            return Ok((DeclEnum { span, name, variants }, cur + 1));
        }
        let mut next = expect(toks, cur, Kind::Ident)?;
        variants.push(toks[cur].span);
        if next < toks.len() && toks[next].kind == Kind::Open(Delimiter::Parenthesis) {
            let (_fields, after) = parse_ident_list(toks, next, Kind::Close(Delimiter::Parenthesis))?;
            next = after;
        }
        if next < toks.len() && toks[next].kind == Kind::Comma {
            cur = next + 1;
        } else {
            cur = next;
            let _ = expect(toks, cur, Kind::Close(Delimiter::Brace))?;
        }
    }
}

/// `struct Name`, `struct Name(a, b)` or `struct Name { a, b }` at `pos`.
pub fn parse_struct(toks: &Vec<Token>, pos: usize) -> (r: Result<(DeclStruct, usize), ParseError>)
    ensures
        r is Ok ==> covers(toks@, pos as int, r->Ok_0.1 as int, r->Ok_0.0.span),
{
    let after_struct = expect(toks, pos, Kind::Struct)?;
    let after_name = expect(toks, after_struct, Kind::Ident)?;
    let name = toks[after_struct].span;
    if after_name < toks.len() && toks[after_name].kind == Kind::Open(Delimiter::Parenthesis) {
        let (fields, next) = parse_ident_list(toks, after_name, Kind::Close(Delimiter::Parenthesis))?;
        let span = toks[pos].span.join(toks[next - 1].span);
        return Ok((DeclStruct { span, name, body: DeclStructBody::TupleBody { fields } }, next));
    }
    if after_name < toks.len() && toks[after_name].kind == Kind::Open(Delimiter::Brace) {
        let (fields, next) = parse_ident_list(toks, after_name, Kind::Close(Delimiter::Brace))?;
        let span = toks[pos].span.join(toks[next - 1].span);
        return Ok((DeclStruct { span, name, body: DeclStructBody::StructBody { fields } }, next));
    }
    let span = toks[pos].span.join(toks[after_struct].span);
    Ok((DeclStruct { span, name, body: DeclStructBody::EmptyBody }, after_name))
}

/// `impl Path { fn ... }` at `pos`.
pub fn parse_impl(toks: &Vec<Token>, pos: usize) -> (r: Result<(DeclImpl, usize), ParseError>)
    ensures
        r is Ok ==> covers(toks@, pos as int, r->Ok_0.1 as int, r->Ok_0.0.span),
{
    let after_impl = expect(toks, pos, Kind::Impl)?;
    let (path, _segments, after_path) = parse_path(toks, after_impl)?;
    let mut cur = expect(toks, after_path, Kind::Open(Delimiter::Brace))?;
    let mut functions: Vec<DeclFn> = Vec::new();
    loop
        invariant
            pos < cur <= toks@.len(),
        decreases toks@.len() - cur,
    {
        if cur >= toks.len() {
            return Err(ParseError::UnexpectedEof { span: eof_span(toks) });
        }
        if toks[cur].kind == Kind::Close(Delimiter::Brace) {
            let span = toks[pos].span.join(toks[cur].span);
            return Ok((DeclImpl { span, path, functions }, cur + 1));
        }
        let (f, next) = parse_fn(toks, cur)?;
        functions.push(f);
        cur = next;
    }
}

/// Every declaration lies within the source.
pub open spec fn decls_within(src_len: nat, decls: Seq<Decl>) -> bool {
    forall|i: int| 0 <= i < decls.len() ==> {
        let s = decl_span(#[trigger] decls[i]);
        &&& s.start <= s.end && s.start < src_len && s.end <= src_len
        &&& decls[i] is DeclFn ==> decls[i]->DeclFn_0.name.start < decls[i]->DeclFn_0.name.end <= src_len
    }
}

/// Declarations up to the end of the tokens, each followed by `;` where it
/// needs one.
fn parse_decls(toks: &Vec<Token>, Ghost(src): Ghost<Seq<u8>>) -> (r: Result<Vec<Decl>, ParseError>)
    requires
        tokens_ok(src, toks@),
    ensures
        r is Ok ==> decls_within(src.len(), r->Ok_0@),
{
    let mut decls: Vec<Decl> = Vec::new();
    let mut cur: usize = 0;
    while cur < toks.len()
        invariant
            cur <= toks@.len(),
            tokens_ok(src, toks@),
            decls_within(src.len(), decls@),
        decreases toks@.len() - cur,
    {
        let (d, next) = Decl::parse(toks, cur)?;
        let mut after = next;
        if d.needs_semi_colon() {
            after = expect(toks, next, Kind::SemiColon)?;
        }
        proof {
            assert(token_ok(src, toks@[cur as int]));
            assert(token_ok(src, toks@[next - 1]));
            crate::parser::lemma_tokens_ordered(src, toks@, cur as int, next - 1);
            if d is DeclFn {
                let j = choose|j: int| cur <= j < next && #[trigger] toks@[j].span == d->DeclFn_0.name;
                assert(token_ok(src, toks@[j]));
            }
        }
        decls.push(d);
        cur = after;
    }
    Ok(decls)
}

/// Parse a whole source file into its declarations.
pub fn parse_file(src: &str) -> (r: Result<DeclFile, ParseError>)
    ensures
        r is Ok ==> decls_within(src.spec_bytes().len(), r->Ok_0.decls@),
{
    let toks = lex(src.as_bytes())?;
    let decls = parse_decls(&toks, Ghost(src.spec_bytes()))?;
    Ok(DeclFile { decls })
}

} // verus!
