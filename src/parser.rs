//! Recursive-descent parser from tokens to expressions, with precedence
//! climbing for binary operators.
use vstd::prelude::*;
use crate::ast::{span_of, AssignOp, BinOp, Expr, UnaryOp};
use vstd::string::StringSliceAdditionalSpecFns;
use crate::lexer::{lex, token_ok};
use crate::token::{Delimiter, Kind, ParseError, Span, Token};

verus! {

/// `s` runs from the start of token `pos` to the end of token `next - 1`.
pub open spec fn covers(toks: Seq<Token>, pos: int, next: int, s: Span) -> bool {
    &&& 0 <= pos < next <= toks.len()
    &&& s.start == toks[pos].span.start
    &&& s.end == toks[next - 1].span.end
}

/// A successful parse from token `pos` consumed at least that token and
/// yields a node that covers exactly the tokens consumed.
pub open spec fn parsed(toks: Seq<Token>, pos: int, r: Result<(Expr, usize), ParseError>) -> bool {
    r is Ok ==> covers(toks, pos, r->Ok_0.1 as int, span_of(r->Ok_0.0))
}

/// A token that is an expression on its own: a literal or a name.
pub open spec fn atom(k: Kind) -> bool {
    k is Number || k == Kind::LitStr || k == Kind::LitChar || k == Kind::LitTemplate || k == Kind::True
        || k == Kind::False || k == Kind::Ident
}

/// A token that ends an expression: a closing bracket, `;` or `,`.
pub open spec fn ends_expr(k: Kind) -> bool {
    k is Close || k == Kind::SemiColon || k == Kind::Comma
}

/// The token at `pos` is an expression on its own: an atom that ends the
/// input or is followed by a token that ends an expression.
pub open spec fn alone(toks: Seq<Token>, pos: int) -> bool {
    0 <= pos < toks.len() && atom(toks[pos].kind) && (pos + 1 == toks.len() || ends_expr(toks[pos + 1].kind))
}

/// The end of a block at `p` that is `{ }` or `{ atom }`.
pub open spec fn simple_block(toks: Seq<Token>, p: int) -> Option<int> {
    if 0 <= p && p + 1 < toks.len() && toks[p].kind == Kind::Open(Delimiter::Brace) {
        if toks[p + 1].kind == Kind::Close(Delimiter::Brace) {
            Some(p + 2)
        } else if p + 2 < toks.len() && alone(toks, p + 1) && toks[p + 2].kind == Kind::Close(Delimiter::Brace) {
            Some(p + 3)
        } else {
            None
        }
    } else {
        None
    }
}

/// The binary operator a token kind stands for, with its precedence.
pub open spec fn binop_spec(k: Kind) -> Option<(BinOp, u8)> {
    match k {
        Kind::Or => Some((BinOp::Or, 1u8)),
        Kind::And => Some((BinOp::And, 2u8)),
        Kind::EqEq => Some((BinOp::Eq, 4u8)),
        Kind::Neq => Some((BinOp::Neq, 4u8)),
        Kind::Lt => Some((BinOp::Lt, 5u8)),
        Kind::Gt => Some((BinOp::Gt, 5u8)),
        Kind::Lte => Some((BinOp::Lte, 5u8)),
        Kind::Gte => Some((BinOp::Gte, 5u8)),
        Kind::Add => Some((BinOp::Add, 6u8)),
        Kind::Sub => Some((BinOp::Sub, 6u8)),
        Kind::Mul => Some((BinOp::Mul, 7u8)),
        Kind::Div => Some((BinOp::Div, 7u8)),
        Kind::Rem => Some((BinOp::Rem, 7u8)),
        Kind::QuestionQuestion => Some((BinOp::Coalesce, 8u8)),
        _ => None,
    }
}

/// Precedence of `is` and `is not`.
pub const IS_PRECEDENCE: u8 = 3;

/// The binary operator a token kind stands for, with its precedence.
pub fn binop_of(k: Kind) -> (r: Option<(BinOp, u8)>)
    ensures
        r == binop_spec(k),
{
    match k {
        Kind::Or => Some((BinOp::Or, 1u8)),
        Kind::And => Some((BinOp::And, 2u8)),
        Kind::EqEq => Some((BinOp::Eq, 4u8)),
        Kind::Neq => Some((BinOp::Neq, 4u8)),
        Kind::Lt => Some((BinOp::Lt, 5u8)),
        Kind::Gt => Some((BinOp::Gt, 5u8)),
        Kind::Lte => Some((BinOp::Lte, 5u8)),
        Kind::Gte => Some((BinOp::Gte, 5u8)),
        Kind::Add => Some((BinOp::Add, 6u8)),
        Kind::Sub => Some((BinOp::Sub, 6u8)),
        Kind::Mul => Some((BinOp::Mul, 7u8)),
        Kind::Div => Some((BinOp::Div, 7u8)),
        Kind::Rem => Some((BinOp::Rem, 7u8)),
        Kind::QuestionQuestion => Some((BinOp::Coalesce, 8u8)),
        _ => None,
    }
}

/// The assignment operator a token kind stands for.
pub fn assign_op_of(k: Kind) -> (r: Option<AssignOp>)
    ensures
        r is Some <==> (k == Kind::Eq || k == Kind::AddAssign || k == Kind::SubAssign || k == Kind::MulAssign
            || k == Kind::DivAssign),
        k == Kind::Eq ==> r == Some(AssignOp::Assign),
{
    match k {
        Kind::Eq => Some(AssignOp::Assign),
        Kind::AddAssign => Some(AssignOp::AddAssign),
        Kind::SubAssign => Some(AssignOp::SubAssign),
        Kind::MulAssign => Some(AssignOp::MulAssign),
        Kind::DivAssign => Some(AssignOp::DivAssign),
        _ => None,
    }
}

/// Where the input ends: just past the last token.
pub fn eof_span(toks: &Vec<Token>) -> (r: Span)
    ensures
        r.start == r.end,
        r.end == if toks@.len() == 0 { 0 } else { toks@.last().span.end as int },
{
    if toks.len() == 0 {
        Span { start: 0, end: 0 }
    } else {
        let end = toks[toks.len() - 1].span.end;
        Span { start: end, end }
    }
}

/// Consume one token of kind `k` at `pos`.
pub fn expect(toks: &Vec<Token>, pos: usize, k: Kind) -> (r: Result<usize, ParseError>)
    ensures
        r is Ok <==> pos < toks@.len() && toks@[pos as int].kind == k,
        r is Ok ==> r->Ok_0 == pos + 1,
{
    if pos >= toks.len() {
        return Err(ParseError::UnexpectedEof { span: eof_span(toks) });
    }
    let t = toks[pos];
    if t.kind == k {
        Ok(pos + 1)
    } else {
        Err(ParseError::TokenMismatch { expected: k, actual: t.kind, span: t.span })
    }
}

/// A path `a::b::c` from `pos`: its span, the span of each component and
/// the position after it.
pub fn parse_path(toks: &Vec<Token>, pos: usize) -> (r: Result<(Span, Vec<Span>, usize), ParseError>)
    ensures
        r is Ok ==> covers(toks@, pos as int, r->Ok_0.2 as int, r->Ok_0.0) && r->Ok_0.1@.len() > 0,
        pos < toks@.len() && (toks@[pos as int].kind == Kind::Ident || toks@[pos as int].kind == Kind::Self_) ==> r is Ok,
        pos < toks@.len() && (pos + 1 == toks@.len() || toks@[pos + 1].kind != Kind::Scope) && r is Ok ==> r->Ok_0.2
            == pos + 1,
{
    if pos >= toks.len() {
        return Err(ParseError::UnexpectedEof { span: eof_span(toks) });
    }
    let first = toks[pos];
    if first.kind != Kind::Ident && first.kind != Kind::Self_ {
        return Err(ParseError::TokenMismatch { expected: Kind::Ident, actual: first.kind, span: first.span });
    }
    let mut segments: Vec<Span> = Vec::new();
    segments.push(first.span);
    let mut cur: usize = pos + 1;
    while toks.len() - cur > 1 && toks[cur].kind == Kind::Scope && toks[cur + 1].kind == Kind::Ident
        invariant
            pos < cur <= toks@.len(),
            segments@.len() > 0,
            (pos + 1 == toks@.len() || toks@[pos + 1].kind != Kind::Scope) ==> cur == pos + 1,
        decreases toks@.len() - cur,
    {
        segments.push(toks[cur + 1].span);
        cur = cur + 2;
    }
    Ok((Span { start: first.span.start, end: toks[cur - 1].span.end }, segments, cur))
}

/// An expression, assignments included.
pub fn parse_expr(toks: &Vec<Token>, pos: usize) -> (r: Result<(Expr, usize), ParseError>)
    ensures
        parsed(toks@, pos as int, r),
        alone(toks@, pos as int) ==> r is Ok && r->Ok_0.1 == pos + 1,
    decreases toks@.len() - pos, 6nat,
{
    let (lhs, cur) = parse_binary(toks, pos, 0)?;
    if cur < toks.len() {
        if let Some(op) = assign_op_of(toks[cur].kind) {
            if !lhs.is_lvalue() {
                return Err(ParseError::UnsupportedAssignExpr { span: lhs.span() });
            }
            let (rhs, next) = parse_expr(toks, cur + 1)?;
            let span = lhs.span().join(rhs.span());
            return Ok((Expr::ExprAssign { span, op, target: Box::new(lhs), value: Box::new(rhs) }, next));
        }
    }
    Ok((lhs, cur))
}

/// Binary operators whose precedence is at least `min_prec`.
pub fn parse_binary(toks: &Vec<Token>, pos: usize, min_prec: u8) -> (r: Result<(Expr, usize), ParseError>)
    ensures
        parsed(toks@, pos as int, r),
        alone(toks@, pos as int) ==> r is Ok && r->Ok_0.1 == pos + 1,
    decreases toks@.len() - pos, 5nat,
{
    let (first, first_end) = parse_unary(toks, pos)?;
    let mut lhs = first;
    let mut cur = first_end;
    while cur < toks.len()
        invariant
            covers(toks@, pos as int, cur as int, span_of(lhs)),
            alone(toks@, pos as int) ==> cur == pos + 1,
        decreases toks@.len() - cur,
    {
        let k = toks[cur].kind;
        if k == Kind::Is {
            if IS_PRECEDENCE < min_prec {
                break;
            }
            let mut p = cur + 1;
            let mut negated = false;
            if p < toks.len() && toks[p].kind == Kind::Not {
                negated = true;
                p = p + 1;
            }
            let (path, _segments, next) = parse_path(toks, p)?;
            let span = lhs.span().join(path);
            lhs = Expr::ExprIs { span, negated, expr: Box::new(lhs), path };
            cur = next;
        } else {
            match binop_of(k) {
                Some((op, prec)) => {
                    if prec < min_prec {
                        break;
                    }
                    let (rhs, next) = parse_binary(toks, cur + 1, prec + 1)?;
                    let span = lhs.span().join(rhs.span());
                    lhs = Expr::ExprBinary { span, op, lhs: Box::new(lhs), rhs: Box::new(rhs) };
                    cur = next;
                },
                None => {
                    break;
                },
            }
        }
    }
    Ok((lhs, cur))
}

/// Prefix operators `!`, `-` and `&`.
pub fn parse_unary(toks: &Vec<Token>, pos: usize) -> (r: Result<(Expr, usize), ParseError>)
    ensures
        parsed(toks@, pos as int, r),
        alone(toks@, pos as int) ==> r is Ok && r->Ok_0.1 == pos + 1,
    decreases toks@.len() - pos, 4nat,
{
    if pos < toks.len() {
        let t = toks[pos];
        let op = match t.kind {
            Kind::Bang => Some(UnaryOp::Not),
            Kind::Sub => Some(UnaryOp::Neg),
            Kind::Amp => Some(UnaryOp::BorrowRef),
            _ => None,
        };
        if let Some(op) = op {
            let (e, next) = parse_unary(toks, pos + 1)?;
            let span = t.span.join(e.span());
            return Ok((Expr::ExprUnary { span, op, expr: Box::new(e) }, next));
        }
    }
    parse_postfix(toks, pos)
}

/// Field access, calls, indexing, `?` and `.await` after a primary.
pub fn parse_postfix(toks: &Vec<Token>, pos: usize) -> (r: Result<(Expr, usize), ParseError>)
    ensures
        parsed(toks@, pos as int, r),
        alone(toks@, pos as int) ==> r is Ok && r->Ok_0.1 == pos + 1,
    decreases toks@.len() - pos, 3nat,
{
    let (first, first_end) = parse_primary(toks, pos)?;
    let mut e = first;
    let mut cur = first_end;
    while cur < toks.len()
        invariant
            covers(toks@, pos as int, cur as int, span_of(e)),
            alone(toks@, pos as int) ==> cur == pos + 1,
        decreases toks@.len() - cur,
    {
        let t = toks[cur];
        match t.kind {
            Kind::Dot => {
                if cur + 1 >= toks.len() {
                    return Err(ParseError::UnexpectedEof { span: eof_span(toks) });
                }
                let f = toks[cur + 1];
                let span = e.span().join(f.span);
                if f.kind == Kind::Ident {
                    e = Expr::ExprFieldAccess { span, expr: Box::new(e), field: f.span };
                } else if f.kind == Kind::Await {
                    e = Expr::ExprAwait { span, expr: Box::new(e) };
                } else {
                    return Err(ParseError::TokenMismatch { expected: Kind::Ident, actual: f.kind, span: f.span });
                }
                cur = cur + 2;
            },
            Kind::Open(Delimiter::Parenthesis) => {
                let (args, next) = parse_list(toks, cur, Kind::Close(Delimiter::Parenthesis))?;
                let span = Span { start: e.span().start, end: toks[next - 1].span.end };
                e = Expr::ExprCall { span, callee: Box::new(e), args };
                cur = next;
            },
            Kind::Open(Delimiter::Bracket) => {
                let (index, after) = parse_expr(toks, cur + 1)?;
                let next = expect(toks, after, Kind::Close(Delimiter::Bracket))?;
                let span = Span { start: e.span().start, end: toks[next - 1].span.end };
                e = Expr::ExprIndexGet { span, target: Box::new(e), index: Box::new(index) };
                cur = next;
            },
            Kind::Try => {
                let span = e.span().join(t.span);
                e = Expr::ExprTry { span, expr: Box::new(e) };
                cur = cur + 1;
            },
            _ => {
                break;
            },
        }
    }
    Ok((e, cur))
}

/// Comma-separated expressions between the bracket at `pos` and the
/// closing token `close`: the items and the position after `close`.
pub fn parse_list(toks: &Vec<Token>, pos: usize, close: Kind) -> (r: Result<(Vec<Expr>, usize), ParseError>)
    requires
        pos < toks@.len(),
    ensures
        r is Ok ==> pos + 2 <= r->Ok_0.1 <= toks@.len() && toks@[r->Ok_0.1 - 1].kind == close,
    decreases toks@.len() - pos, 1nat,
{
    let n = toks.len();
    let mut items: Vec<Expr> = Vec::new();
    let mut cur: usize = pos + 1;
    loop
        invariant
            pos < cur <= toks@.len(),
            n == toks@.len(),
        decreases toks@.len() - cur,
    {
        if cur >= n {
            return Err(ParseError::UnexpectedEof { span: eof_span(toks) });
        }
        if toks[cur].kind == close {
            return Ok((items, cur + 1));
        }
        let (item, next) = parse_expr(toks, cur)?;
        items.push(item);
        if next < toks.len() && toks[next].kind == Kind::Comma {
            cur = next + 1;
        } else {
            let end = expect(toks, next, close)?;
            return Ok((items, end));
        }
    }
}

/// Whether an expression ends in a block, so that no `;` needs to follow it.
pub fn is_block_like(e: &Expr) -> (r: bool)
    ensures
        r == (*e is ExprBlock || *e is ExprIf || *e is ExprWhile || *e is ExprLoop || *e is ExprFor),
{
    match e {
        Expr::ExprBlock { .. } | Expr::ExprIf { .. } | Expr::ExprWhile { .. } | Expr::ExprLoop { .. }
        | Expr::ExprFor { .. } => true,
        _ => false,
    }
}

/// A block `{ e; e; ... }` that starts at `pos`.
pub fn parse_block(toks: &Vec<Token>, pos: usize) -> (r: Result<(Expr, usize), ParseError>)
    ensures
        parsed(toks@, pos as int, r),
        r is Ok ==> r->Ok_0.0 is ExprBlock,
        simple_block(toks@, pos as int) is Some ==> r is Ok && r->Ok_0.1 == simple_block(toks@, pos as int)->Some_0,
    decreases toks@.len() - pos, 1nat,
{
    let mut cur = expect(toks, pos, Kind::Open(Delimiter::Brace))?;
    let mut exprs: Vec<Expr> = Vec::new();
    loop
        invariant
            pos < cur <= toks@.len(),
            simple_block(toks@, pos as int) is Some ==> cur == pos + 1 || (cur == pos + 2
                && simple_block(toks@, pos as int) == Some(pos + 3)),
        decreases toks@.len() - cur,
    {
        if cur >= toks.len() {
            return Err(ParseError::UnexpectedEof { span: eof_span(toks) });
        }
        let t = toks[cur];
        if t.kind == Kind::Close(Delimiter::Brace) {
            let span = Span { start: toks[pos].span.start, end: t.span.end };
            return Ok((Expr::ExprBlock { span, exprs }, cur + 1));
        }
        if t.kind == Kind::SemiColon {
            cur = cur + 1;
        } else {
            let (e, next) = parse_expr(toks, cur)?;
            let block_like = is_block_like(&e);
            exprs.push(e);
            if next < toks.len() && toks[next].kind == Kind::SemiColon {
                cur = next + 1;
            } else if block_like || (next < toks.len() && toks[next].kind == Kind::Close(Delimiter::Brace)) {
                cur = next;
            } else if next >= toks.len() {
                return Err(ParseError::UnexpectedEof { span: eof_span(toks) });
            } else {
                let n = toks[next];
                return Err(ParseError::TokenMismatch { expected: Kind::SemiColon, actual: n.kind, span: n.span });
            }
        }
    }
}

/// `if cond { ... }` with optional `else { ... }` or `else if ...`, from `pos`.
pub fn parse_if(toks: &Vec<Token>, pos: usize) -> (r: Result<(Expr, usize), ParseError>)
    ensures
        parsed(toks@, pos as int, r),
        r is Ok ==> r->Ok_0.0 is ExprIf,
    decreases toks@.len() - pos, 1nat,
{
    let after_if = expect(toks, pos, Kind::If)?;
    let (cond, after_cond) = parse_expr(toks, after_if)?;
    let (then_block, after_then) = parse_block(toks, after_cond)?;
    let start = toks[pos].span.start;
    if after_then < toks.len() && toks[after_then].kind == Kind::Else {
        let (alt, next) = if after_then + 1 < toks.len() && toks[after_then + 1].kind == Kind::If {
            parse_if(toks, after_then + 1)?
        } else {
            parse_block(toks, after_then + 1)?
        };
        let span = Span { start, end: alt.span().end };
        Ok((
            Expr::ExprIf { span, cond: Box::new(cond), then_block: Box::new(then_block), else_branch: Some(Box::new(alt)) },
            next,
        ))
    } else {
        let span = Span { start, end: then_block.span().end };
        Ok((
            Expr::ExprIf { span, cond: Box::new(cond), then_block: Box::new(then_block), else_branch: None },
            after_then,
        ))
    }
}

/// Whether a token kind ends an expression statement.
fn ends_statement(k: Kind) -> bool {
    match k {
        Kind::SemiColon | Kind::Close(_) | Kind::Comma => true,
        _ => false,
    }
}

/// Literals, paths, groups, vectors, blocks and keyword forms.
pub fn parse_primary(toks: &Vec<Token>, pos: usize) -> (r: Result<(Expr, usize), ParseError>)
    ensures
        parsed(toks@, pos as int, r),
        alone(toks@, pos as int) ==> r is Ok && r->Ok_0.1 == pos + 1,
    decreases toks@.len() - pos, 2nat,
{
    if pos >= toks.len() {
        return Err(ParseError::UnexpectedEof { span: eof_span(toks) });
    }
    let t = toks[pos];
    let span = t.span;
    match t.kind {
        Kind::Ident | Kind::Self_ => {
            let (span, segments, next) = parse_path(toks, pos)?;
            Ok((Expr::Path { span, segments }, next))
        },
        Kind::Number(kind) => Ok((Expr::LitNumber { span, kind }, pos + 1)),
        Kind::LitStr => Ok((Expr::LitStr { span }, pos + 1)),
        Kind::LitChar => Ok((Expr::LitChar { span }, pos + 1)),
        Kind::LitTemplate => Ok((Expr::LitTemplate { span }, pos + 1)),
        Kind::True => Ok((Expr::LitBool { span, value: true }, pos + 1)),
        Kind::False => Ok((Expr::LitBool { span, value: false }, pos + 1)),
        Kind::Break => Ok((Expr::ExprBreak { span }, pos + 1)),
        Kind::Open(Delimiter::Parenthesis) => {
            if pos + 1 < toks.len() && toks[pos + 1].kind == Kind::Close(Delimiter::Parenthesis) {
                let span = span.join(toks[pos + 1].span);
                return Ok((Expr::LitUnit { span }, pos + 2));
            }
            let (inner, after) = parse_expr(toks, pos + 1)?;
            let next = expect(toks, after, Kind::Close(Delimiter::Parenthesis))?;
            let span = span.join(toks[next - 1].span);
            Ok((Expr::ExprGroup { span, expr: Box::new(inner) }, next))
        },
        Kind::Open(Delimiter::Bracket) => {
            let (items, next) = parse_list(toks, pos, Kind::Close(Delimiter::Bracket))?;
            let span = span.join(toks[next - 1].span);
            Ok((Expr::LitVec { span, items }, next))
        },
        Kind::Open(Delimiter::Brace) => parse_block(toks, pos),
        Kind::If => parse_if(toks, pos),
        Kind::Let => {
            let after_name = expect(toks, pos + 1, Kind::Ident)?;
            let name = toks[pos + 1].span;
            let after_eq = expect(toks, after_name, Kind::Eq)?;
            let (value, next) = parse_expr(toks, after_eq)?;
            let span = span.join(value.span());
            Ok((Expr::ExprLet { span, name, expr: Box::new(value) }, next))
        },
        Kind::While => {
            let (cond, after_cond) = parse_expr(toks, pos + 1)?;
            let (body, next) = parse_block(toks, after_cond)?;
            let span = span.join(body.span());
            Ok((Expr::ExprWhile { span, cond: Box::new(cond), body: Box::new(body) }, next))
        },
        Kind::Loop => {
            let (body, next) = parse_block(toks, pos + 1)?;
            let span = span.join(body.span());
            Ok((Expr::ExprLoop { span, body: Box::new(body) }, next))
        },
        Kind::For => {
            let after_var = expect(toks, pos + 1, Kind::Ident)?;
            let var = toks[pos + 1].span;
            let after_in = expect(toks, after_var, Kind::In)?;
            let (iter, after_iter) = parse_expr(toks, after_in)?;
            let (body, next) = parse_block(toks, after_iter)?;
            let span = span.join(body.span());
            Ok((Expr::ExprFor { span, var, iter: Box::new(iter), body: Box::new(body) }, next))
        },
        Kind::Return => {
            if pos + 1 >= toks.len() || ends_statement(toks[pos + 1].kind) {
                return Ok((Expr::ExprReturn { span, value: None }, pos + 1));
            }
            let (value, next) = parse_expr(toks, pos + 1)?;
            let span = span.join(value.span());
            Ok((Expr::ExprReturn { span, value: Some(Box::new(value)) }, next))
        },
        _ => Err(ParseError::ExpectedExpr { actual: t.kind, span }),
    }
}

/// The source text of an identifier token, as a span checked against the
/// source.
pub fn resolve_ident(src: &[u8], t: Token) -> (r: Result<Span, ParseError>)
    ensures
        r is Ok <==> t.span.start <= t.span.end <= src@.len(),
        r is Ok ==> r->Ok_0 == t.span,
        r is Err ==> r->Err_0 == (ParseError::BadSlice { span: t.span }),
{
    if t.span.start <= t.span.end && t.span.end <= src.len() {
        Ok(t.span)
    } else {
        Err(ParseError::BadSlice { span: t.span })
    }
}

/// The name of a label token without its leading `'`, as a span checked
/// against the source.
pub fn resolve_label(src: &[u8], t: Token) -> (r: Result<Span, ParseError>)
    ensures
        r is Ok <==> t.span.start <= t.span.end <= src@.len(),
        r is Ok ==> r->Ok_0.end == t.span.end && r->Ok_0.start == if t.span.end - t.span.start >= 1 {
            t.span.start + 1
        } else {
            t.span.end as int
        },
        r is Err ==> r->Err_0 == (ParseError::BadSlice { span: t.span }),
{
    if t.span.start <= t.span.end && t.span.end <= src.len() {
        Ok(t.span.trim_start(1))
    } else {
        Err(ParseError::BadSlice { span: t.span })
    }
}

/// Parse a token sequence as one expression that uses every token.
pub fn parse_tokens(toks: &Vec<Token>) -> (r: Result<Expr, ParseError>)
    ensures
        r is Ok ==> toks@.len() > 0 && covers(toks@, 0, toks@.len() as int, span_of(r->Ok_0)),
        toks@.len() == 1 && atom(toks@[0].kind) ==> r is Ok,
        toks@.len() == 0 ==> r == Err::<Expr, ParseError>(ParseError::UnexpectedEof { span: Span { start: 0, end: 0 } }),
{
    if toks.len() == 0 {
        return Err(ParseError::UnexpectedEof { span: Span { start: 0, end: 0 } });
    }
    let (e, next) = parse_expr(toks, 0)?;
    if next < toks.len() {
        let t = toks[next];
        return Err(ParseError::ExpectedEof { actual: t.kind, span: t.span });
    }
    Ok(e)
}

/// Parse a whole source text as one expression.
pub fn parse_all(src: &str) -> (r: Result<Expr, ParseError>)
    ensures
        r is Ok ==> span_of(r->Ok_0).start < span_of(r->Ok_0).end <= src.spec_bytes().len(),
{
    let toks = lex(src.as_bytes())?;
    let e = parse_tokens(&toks)?;
    proof {
        let last = toks@.len() - 1;
        assert(token_ok(src.spec_bytes(), toks@[0]));
        assert(token_ok(src.spec_bytes(), toks@[last]));
        lemma_tokens_ordered(src.spec_bytes(), toks@, 0, last);
    }
    Ok(e)
}

/// In a well-formed token sequence a later token ends after an earlier one
/// starts.
pub proof fn lemma_tokens_ordered(src: Seq<u8>, toks: Seq<Token>, i: int, j: int)
    requires
        crate::lexer::tokens_ok(src, toks),
        0 <= i <= j < toks.len(),
    ensures
        toks[i].span.start < toks[j].span.end,
    decreases j - i,
{
    assert(token_ok(src, toks[j]));
    if i < j {
        lemma_tokens_ordered(src, toks, i, j - 1);
        assert(toks[j - 1].span.end <= toks[j].span.start);
        assert(token_ok(src, toks[j - 1]));
    }
}

} // verus!
