//! Lowering of expressions and functions to stack instructions.
//!
//! Every instruction has a fixed effect on the depth of the operand stack.
//! The compiler keeps the depth it has reached, places each local at the
//! depth where its value was pushed, and after each expression leaves
//! exactly one more value on the stack when the value is needed and none
//! otherwise.
use vstd::prelude::*;
use crate::ast::{span_of, BinOp, Expr, UnaryOp};
use crate::decl::DeclFn;
use crate::hash::{span_parts, spans_within, type_hash};
use crate::token::{NumberKind, Span};

verus! {

/// Deepest operand stack a function may need.
pub const MAX_DEPTH: usize = 1048576;

/// One stack instruction.
#[derive(Debug, Clone, Copy, PartialEq, Eq, Structural)]
pub enum Inst {
    /// Push `()`.
    PushUnit,
    /// Push an integer.
    Integer(i64),
    /// Push a boolean.
    Bool(bool),
    /// Push the static string in the given slot of the unit.
    String { slot: usize },
    /// Push a copy of the value at `offset` from the frame base.
    Copy { offset: usize },
    /// Pop the top value and store it at `offset` from the frame base.
    Replace { offset: usize },
    /// Pop the top value.
    Pop,
    /// Pop `count` values.
    PopN { count: usize },
    /// Keep the top value, and pop the `count` values beneath it.
    Clean { count: usize },
    /// Logical negation of the top value.
    Not,
    /// Pop two operands, push the result of the operator.
    Op(BinOp),
    /// Pop `args` arguments, call the function `hash`, push its result.
    Call { hash: u64, args: usize },
    /// Pop `args` values (the receiver first), call the instance function
    /// whose name hashes to `name` on the receiver's type, push the result.
    CallInstance { name: u64, args: usize },
    /// Pop the return value and leave the frame.
    Return,
    /// Continue at `label`. The `carry` values pushed by the code just
    /// before it are not there where the next instruction in the listing is
    /// reached from elsewhere.
    Jump { label: usize, carry: usize },
    /// Pop a boolean, and continue at `label` where it is false.
    JumpIfFalse { label: usize },
}

/// How an instruction changes the depth of the operand stack.
pub open spec fn inst_effect(i: Inst) -> int {
    match i {
        Inst::PushUnit => 1,
        Inst::Integer(_) => 1,
        Inst::Bool(_) => 1,
        Inst::String { .. } => 1,
        Inst::Copy { .. } => 1,
        Inst::Replace { .. } => -1,
        Inst::Pop => -1,
        Inst::PopN { count } => -count,
        Inst::Clean { count } => -count,
        Inst::Not => 0,
        Inst::Op(_) => -1,
        Inst::Call { args, .. } => 1 - args,
        Inst::CallInstance { args, .. } => 1 - args,
        Inst::Return => -1,
        Inst::Jump { carry, .. } => -carry,
        Inst::JumpIfFalse { .. } => -1,
    }
}

/// The net change of depth over a run of instructions.
pub open spec fn effect(s: Seq<Inst>) -> int
    decreases s.len(),
{
    if s.len() == 0 {
        0
    } else {
        effect(s.drop_last()) + inst_effect(s.last())
    }
}

/// `new` starts with `old`: instructions are only ever appended.
pub open spec fn extends(new: Seq<Inst>, old: Seq<Inst>) -> bool {
    old.len() <= new.len() && forall|i: int| 0 <= i < old.len() ==> #[trigger] new[i] == old[i]
}

/// Whether a value is wanted from an expression.
#[derive(Debug, Clone, Copy, PartialEq, Eq, Structural)]
pub enum Needs {
    Value,
    NoValue,
}

/// How many values an expression leaves for the given need.
pub open spec fn produced(n: Needs) -> int {
    match n {
        Needs::Value => 1,
        Needs::NoValue => 0,
    }
}

/// Errors of lowering.
#[derive(Debug, Clone, Copy, PartialEq, Eq, Structural)]
pub enum CompileError {
    /// `&expr` is reserved.
    UnsupportedRef { span: Span },
    /// A unary operator that has no lowering.
    UnsupportedUnaryOp { span: Span, op: UnaryOp },
    /// A form that has no lowering.
    UnsupportedExpr { span: Span },
    /// `let` outside the statements of a block.
    UnsupportedLet { span: Span },
    /// Assignment to something other than a local.
    UnsupportedAssignExpr { span: Span },
    /// A name that is not a local in scope.
    MissingLocal { span: Span },
    /// A number literal that is not a decimal that fits in 64 bits.
    BadNumberLiteral { span: Span },
    /// An expression that needs a deeper stack than allowed.
    StackOverflow { span: Span },
    /// A span that does not lie within the source.
    BadSlice { span: Span },
}

/// The value of a run of decimal digits.
pub open spec fn decimal_value(s: Seq<u8>) -> int
    decreases s.len(),
{
    if s.len() == 0 {
        0
    } else {
        decimal_value(s.drop_last()) * 10 + (s.last() - 48)
    }
}

/// `s` is a non-empty run of decimal digits.
pub open spec fn all_digits(s: Seq<u8>) -> bool {
    s.len() > 0 && forall|k: int| 0 <= k < s.len() ==> 48 <= #[trigger] s[k] <= 57
}

/// The integer written in decimal in `src[s.start..s.end]`, where it is a
/// run of digits whose value fits in an `i64`.
pub fn parse_decimal(src: &[u8], s: Span) -> (r: Option<i64>)
    requires
        s.start <= s.end <= src@.len(),
    ensures
        r is Some <==> all_digits(src@.subrange(s.start as int, s.end as int))
            && decimal_value(src@.subrange(s.start as int, s.end as int)) <= i64::MAX,
        r is Some ==> r->Some_0 == decimal_value(src@.subrange(s.start as int, s.end as int)),
{
    let ghost t = src@.subrange(s.start as int, s.end as int);
    if s.start == s.end {
        return None;
    }
    let mut v: i64 = 0;
    let mut j: usize = s.start;
    while j < s.end
        invariant
            s.start <= j <= s.end <= src@.len(),
            t == src@.subrange(s.start as int, s.end as int),
            forall|k: int| 0 <= k < j - s.start ==> 48 <= #[trigger] t[k] <= 57,
            v == decimal_value(t.take(j - s.start)),
            0 <= v,
        decreases s.end - j,
    {
        let b = src[j];
        assert(t.take(j - s.start + 1).drop_last() =~= t.take(j - s.start));
        assert(t[j - s.start] == b);
        if b < 48 || b > 57 {
            return None;
        }
        let d = (b - 48) as i64;
        if v > (i64::MAX - d) / 10 {
            proof {
                assert(decimal_value(t.take(j - s.start + 1)) > i64::MAX);
                lemma_decimal_grows(t, j - s.start + 1);
            }
            return None;
        }
        v = v * 10 + d;
        j = j + 1;
    }
    assert(t.take(j - s.start) =~= t);
    Some(v)
}

/// Once a prefix of digits exceeds a bound, the whole run does too.
proof fn lemma_decimal_grows(t: Seq<u8>, n: int)
    requires
        0 <= n <= t.len(),
        forall|k: int| 0 <= k < n ==> 48 <= #[trigger] t[k] <= 57,
        decimal_value(t.take(n)) > i64::MAX,
    ensures
        !all_digits(t) || decimal_value(t) > i64::MAX,
    decreases t.len() - n,
{
    if n < t.len() && all_digits(t) {
        assert(t.take(n + 1).drop_last() =~= t.take(n));
        assert(48 <= t[n] <= 57);
        lemma_decimal_grows(t, n + 1);
    } else if n == t.len() {
        assert(t.take(n) =~= t);
    }
}

/// Diagnostics that do not stop compilation.
#[derive(Debug, Clone, Copy, PartialEq, Eq, Structural)]
pub enum Warning {
    /// A value is computed and then thrown away.
    NotUsed { span: Span },
    /// A template string has no `${...}` in it.
    TemplateWithoutExpansions { span: Span },
}

/// Whether `t` holds the two bytes `${` next to each other.
pub open spec fn has_expansion(t: Seq<u8>) -> bool {
    exists|k: int| 0 <= k < t.len() - 1 && t[k] == 36 && #[trigger] t[k + 1] == 123
}

/// Whether the template in `src[s.start..s.end]` has an expansion `${...}`.
pub fn template_has_expansions(src: &[u8], s: Span) -> (r: bool)
    requires
        s.start <= s.end <= src@.len(),
    ensures
        r == has_expansion(text_of(src@, s)),
{
    let ghost t = text_of(src@, s);
    let mut k: usize = s.start;
    while s.end - k > 1
        invariant
            s.start <= k <= s.end,
            s.end <= src@.len(),
            t == text_of(src@, s),
            forall|j: int| 0 <= j < k - s.start && j < t.len() - 1 ==> !(t[j] == 36 && #[trigger] t[j + 1] == 123),
        decreases s.end - k,
    {
        assert(t[k - s.start] == src@[k as int]);
        assert(t[k - s.start + 1] == src@[k + 1]);
        if src[k] == 36 && src[k + 1] == 123 {
            return true;
        }
        k = k + 1;
    }
    false
}

/// Whether `s` spells the name of one of `locals`.
pub open spec fn has_local(src: Seq<u8>, locals: Seq<Local>, s: Span) -> bool {
    exists|i: int| 0 <= i < locals.len() && text_of(src, #[trigger] locals[i].name) == text_of(src, s)
}

/// Expressions that always lower with the given locals in scope: `()`,
/// booleans, decimal literals that fit in an `i64`, locals, groups, `!`, and
/// binary operators other than `??`.
pub open spec fn lowers(src: Seq<u8>, locals: Seq<Local>, e: Expr) -> bool
    decreases e,
{
    match e {
        Expr::LitUnit { .. } => true,
        Expr::LitBool { .. } => true,
        Expr::LitNumber { span, kind } => kind == NumberKind::Decimal && span.start <= span.end <= src.len()
            && all_digits(text_of(src, span)) && decimal_value(text_of(src, span)) <= i64::MAX,
        Expr::Path { segments, .. } => segments@.len() == 1 && segments@[0].start <= segments@[0].end <= src.len()
            && has_local(src, locals, segments@[0]),
        Expr::ExprGroup { expr, .. } => lowers(src, locals, *expr),
        Expr::ExprUnary { op, expr, .. } => op == UnaryOp::Not && lowers(src, locals, *expr),
        Expr::ExprBinary { op, lhs, rhs, .. } => op != BinOp::Coalesce && lowers(src, locals, *lhs) && lowers(
            src,
            locals,
            *rhs,
        ),
        _ => false,
    }
}

/// How many stack slots above the current depth lowering a pure expression
/// uses at most.
pub open spec fn need(e: Expr) -> nat
    decreases e,
{
    match e {
        Expr::ExprGroup { expr, .. } => need(*expr),
        Expr::ExprUnary { expr, .. } => need(*expr),
        Expr::ExprBinary { lhs, rhs, .. } => if need(*lhs) > 1 + need(*rhs) { need(*lhs) } else { 1 + need(*rhs) },
        _ => 1,
    }
}

/// A block of expressions that lower with `locals`, each needing at most
/// `bound` slots.
pub open spec fn lowers_block(src: Seq<u8>, locals: Seq<Local>, e: Expr, bound: nat) -> bool {
    match e {
        Expr::ExprBlock { exprs, .. } => forall|i: int|
            0 <= i < exprs@.len() ==> lowers(src, locals, #[trigger] exprs@[i]) && need(exprs@[i]) <= bound,
        _ => false,
    }
}

/// The locals a function starts with: its arguments, in order.
pub open spec fn arg_locals(f: DeclFn) -> Seq<Local> {
    Seq::new(f.args@.len(), |i: int| Local { name: f.args@[i], offset: i as usize })
}

/// `-` written before a decimal number literal: a negative literal.
pub open spec fn neg_literal(e: Expr) -> bool {
    match e {
        Expr::ExprUnary { op: UnaryOp::Neg, expr, .. } => match *expr {
            Expr::LitNumber { kind: NumberKind::Decimal, .. } => true,
            _ => false,
        },
        _ => false,
    }
}

/// The operand of a unary expression.
pub open spec fn unary_operand(e: Expr) -> Expr
    recommends
        e is ExprUnary,
{
    match e {
        Expr::ExprUnary { expr, .. } => *expr,
        _ => e,
    }
}

/// The unary operator of an expression, where it is one.
pub open spec fn unary_op(e: Expr) -> Option<UnaryOp> {
    match e {
        Expr::ExprUnary { op, .. } => Some(op),
        _ => None,
    }
}

/// Forms that have no lowering.
pub open spec fn unsupported(e: Expr) -> bool {
    e is ExprFor || e is ExprLoop || e is ExprTry || e is ExprAwait || e is ExprReturn || e is ExprBreak
        || e is ExprIs || e is LitChar || e is ExprFieldAccess || e is LitVec || e is ExprIndexGet
}

/// A function that lowers: its name and arguments lie within the source,
/// it has at most a thousand arguments, and its body is a block of
/// expressions that lower with its arguments, each needing at most a
/// thousand slots.
pub open spec fn fn_lowers(src: Seq<u8>, f: DeclFn) -> bool {
    &&& f.name.start <= f.name.end <= src.len()
    &&& f.args@.len() <= 1000
    &&& forall|i: int| 0 <= i < f.args@.len() ==> #[trigger] f.args@[i].start <= f.args@[i].end <= src.len()
    &&& lowers_block(src, arg_locals(f), *f.body, 1000)
}

/// A local variable: the span of its name and its offset from the frame base.
#[derive(Debug, Clone, Copy, PartialEq, Eq, Structural)]
pub struct Local {
    pub name: Span,
    pub offset: usize,
}

/// Instructions of one function under construction, with the debug span
/// of each, the static strings it refers to and the locals in scope.
pub struct Compiler<'a> {
    pub src: &'a [u8],
    pub insts: Vec<Inst>,
    pub spans: Vec<Span>,
    pub strings: Vec<Span>,
    pub locals: Vec<Local>,
    pub params: usize,
    pub depth: usize,
    pub warnings: Vec<Warning>,
    pub labels: Vec<usize>,
}

/// A compiled function.
#[derive(Debug)]
pub struct CompiledFn {
    pub name: Span,
    pub hash: crate::hash::Hash,
    pub args: usize,
    pub insts: Vec<Inst>,
    pub spans: Vec<Span>,
    pub strings: Vec<Span>,
    pub warnings: Vec<Warning>,
    /// The instruction each label stands before.
    pub labels: Vec<usize>,
}

proof fn lemma_effect_push(s: Seq<Inst>, i: Inst)
    ensures
        effect(s.push(i)) == effect(s) + inst_effect(i),
{
    assert(s.push(i).drop_last() =~= s);
}

impl<'a> Compiler<'a> {
    /// Instructions and debug spans go together, one span per instruction.
    pub open spec fn wf(&self) -> bool {
        &&& self.insts@.len() == self.spans@.len()
        &&& self.depth <= MAX_DEPTH
        &&& self.depth == self.params + effect(self.insts@)
        &&& locals_within(self.src@, self.locals@)
    }

    /// The effect of the instructions emitted since `start`.
    pub open spec fn emitted(&self, start: int) -> int {
        effect(self.insts@.skip(start))
    }

    /// A compiler for one function of `src` with no locals yet.
    pub fn new(src: &'a [u8]) -> (r: Self)
        ensures
            r.wf(),
            r.src@ == src@,
            r.insts@.len() == 0,
            r.depth == 0,
            r.locals@.len() == 0,
    {
        Compiler {
            src,
            insts: Vec::new(),
            spans: Vec::new(),
            strings: Vec::new(),
            locals: Vec::new(),
            params: 0,
            depth: 0,
            warnings: Vec::new(),
            labels: Vec::new(),
        }
    }

    /// Emit one instruction with its span, and track the depth.
    fn push(&mut self, i: Inst, span: Span) -> (r: Result<(), CompileError>)
        requires
            old(self).wf(),
            old(self).depth + inst_effect(i) >= 0,
        ensures
            final(self).wf(),
            extends(final(self).insts@, old(self).insts@),
            final(self).src@ == old(self).src@,
            final(self).locals@ == old(self).locals@,
            final(self).params == old(self).params,
            r is Ok ==> final(self).depth == old(self).depth + inst_effect(i)
                && final(self).insts@ == old(self).insts@.push(i) && final(self).spans@ == old(self).spans@.push(span),
            r is Err ==> final(self).depth == old(self).depth && final(self).insts@ == old(self).insts@,
            (i is PushUnit || i is Integer || i is Bool || i is String || i is Copy || i is Not
                || i is Pop || i is Op || i is Replace || i is Return || i is JumpIfFalse)
                && old(self).depth + inst_effect(i) <= MAX_DEPTH ==> r is Ok,
    {
        let d: i64 = match i {
            Inst::PushUnit | Inst::Integer(_) | Inst::Bool(_) | Inst::String { .. } | Inst::Copy { .. } => 1,
            Inst::Not => 0,
            Inst::Replace { .. } | Inst::Pop | Inst::Op(_) | Inst::Return
            | Inst::JumpIfFalse { .. } => -1,
            Inst::PopN { count } | Inst::Clean { count } | Inst::Jump { carry: count, .. } => {
                if count > MAX_DEPTH {
                    return Err(CompileError::StackOverflow { span });
                }
                -(count as i64)
            },
            Inst::Call { args, .. } | Inst::CallInstance { args, .. } => {
                if args > MAX_DEPTH {
                    return Err(CompileError::StackOverflow { span });
                }
                1 - (args as i64)
            },
        };
        let next: i64 = self.depth as i64 + d;
        if next > MAX_DEPTH as i64 {
            return Err(CompileError::StackOverflow { span });
        }
        proof {
            lemma_effect_push(self.insts@, i);
        }
        self.insts.push(i);
        self.spans.push(span);
        self.depth = next as usize;
        Ok(())
    }

    /// The frame is unchanged but for new instructions: same source,
    /// locals and parameters.
    pub open spec fn same_frame(&self, other: &Self) -> bool {
        &&& self.src@ == other.src@
        &&& self.locals@ == other.locals@
        &&& self.params == other.params
    }

    /// Check that a span lies within the source.
    fn check_span(&self, s: Span) -> (r: Result<(), CompileError>)
        ensures
            r is Ok <==> s.start <= s.end <= self.src@.len(),
    {
        if s.start <= s.end && s.end <= self.src.len() {
            Ok(())
        } else {
            Err(CompileError::BadSlice { span: s })
        }
    }

    /// The local that a path of one component names.
    fn local_of(&self, span: Span, segments: &Vec<Span>) -> (r: Result<usize, CompileError>)
        requires
            self.wf(),
        ensures
            segments@.len() == 1 && segments@[0].start <= segments@[0].end <= self.src@.len() && has_local(
                self.src@,
                self.locals@,
                segments@[0],
            ) ==> r is Ok,
    {
        if segments.len() != 1 {
            return Err(CompileError::MissingLocal { span });
        }
        let name = segments[0];
        self.check_span(name)?;
        match self.lookup(name) {
            Some(offset) => Ok(offset),
            None => Err(CompileError::MissingLocal { span }),
        }
    }

    /// A new label, not yet placed.
    fn new_label(&mut self) -> (r: usize)
        requires
            old(self).wf(),
        ensures
            final(self).wf(),
            extends(final(self).insts@, old(self).insts@),
            final(self).src@ == old(self).src@,
            final(self).params == old(self).params,
            final(self).locals@ == old(self).locals@,
            final(self).depth == old(self).depth,
            final(self).insts@ == old(self).insts@,
    {
        let l = self.labels.len();
        self.labels.push(0);
        l
    }

    /// Place `label` before the next instruction.
    fn bind(&mut self, label: usize)
        requires
            old(self).wf(),
        ensures
            final(self).wf(),
            extends(final(self).insts@, old(self).insts@),
            final(self).src@ == old(self).src@,
            final(self).params == old(self).params,
            final(self).locals@ == old(self).locals@,
            final(self).depth == old(self).depth,
            final(self).insts@ == old(self).insts@,
    {
        if label < self.labels.len() {
            self.labels.set(label, self.insts.len());
        }
    }

    /// Lower `if cond { .. } else ..`: the condition, a jump past the first
    /// branch where it is false, the first branch and a jump past the
    /// second, then the second branch (or `()` where there is none and a
    /// value is needed).
    fn compile_if(&mut self, e: &Expr, needs: Needs) -> (r: Result<(), CompileError>)
        requires
            old(self).wf(),
            e is ExprIf,
        ensures
            final(self).wf(),
            extends(final(self).insts@, old(self).insts@),
            final(self).src@ == old(self).src@,
            final(self).params == old(self).params,
            r is Ok ==> final(self).locals@ == old(self).locals@ && final(self).depth == old(self).depth + produced(needs),
        decreases e, 1nat,
    {
        let span = span_of_exec(e);
        let (cond, then_block, else_branch) = match e {
            Expr::ExprIf { cond, then_block, else_branch, .. } => (cond, then_block, else_branch),
            _ => {
                return Err(CompileError::UnsupportedExpr { span });
            },
        };
        self.compile_expr(cond, Needs::Value)?;
        let else_label = self.new_label();
        let end_label = self.new_label();
        self.push(Inst::JumpIfFalse { label: else_label }, span)?;
        self.compile_expr(then_block, needs)?;
        let carry: usize = match needs {
            Needs::Value => 1,
            Needs::NoValue => 0,
        };
        self.push(Inst::Jump { label: end_label, carry }, span)?;
        self.bind(else_label);
        match else_branch {
            Some(alt) => {
                proof {
                    assert(decreases_to!(*e => **alt));
                }
                self.compile_expr(alt, needs)?;
            },
            None => {
                match needs {
                    Needs::Value => self.push(Inst::PushUnit, span)?,
                    Needs::NoValue => {},
                }
            },
        }
        self.bind(end_label);
        Ok(())
    }

    /// Lower `while cond { .. }`: the condition, a jump out where it is
    /// false, the body, and a jump back to the condition. Its value is `()`.
    fn compile_while(&mut self, e: &Expr, needs: Needs) -> (r: Result<(), CompileError>)
        requires
            old(self).wf(),
            e is ExprWhile,
        ensures
            final(self).wf(),
            extends(final(self).insts@, old(self).insts@),
            final(self).src@ == old(self).src@,
            final(self).params == old(self).params,
            r is Ok ==> final(self).locals@ == old(self).locals@ && final(self).depth == old(self).depth + produced(needs),
        decreases e, 1nat,
    {
        let span = span_of_exec(e);
        let (cond, body) = match e {
            Expr::ExprWhile { cond, body, .. } => (cond, body),
            _ => {
                return Err(CompileError::UnsupportedExpr { span });
            },
        };
        let start = self.new_label();
        let end = self.new_label();
        self.bind(start);
        self.compile_expr(cond, Needs::Value)?;
        self.push(Inst::JumpIfFalse { label: end }, span)?;
        self.compile_expr(body, Needs::NoValue)?;
        self.push(Inst::Jump { label: start, carry: 0 }, span)?;
        self.bind(end);
        match needs {
            Needs::Value => self.push(Inst::PushUnit, span),
            Needs::NoValue => Ok(()),
        }
    }

    /// Drop the value just produced where none is needed.
    fn finish(&mut self, needs: Needs, span: Span) -> (r: Result<(), CompileError>)
        requires
            old(self).wf(),
            old(self).depth >= 1,
        ensures
            final(self).wf(),
            extends(final(self).insts@, old(self).insts@),
            final(self).same_frame(old(self)),
            r is Ok,
            final(self).depth == old(self).depth - 1 + produced(needs),
            needs == Needs::Value ==> final(self).insts@ == old(self).insts@,
            needs == Needs::NoValue ==> final(self).insts@ == old(self).insts@.push(Inst::Pop)
                && final(self).spans@ == old(self).spans@.push(span),
            needs == Needs::Value ==> final(self).spans@ == old(self).spans@,
    {
        match needs {
            Needs::Value => Ok(()),
            Needs::NoValue => self.push(Inst::Pop, span),
        }
    }

    /// Lower a unary expression. `!e` is the operand's code, then `Not`,
    /// then `Pop` where no value is needed. `-` before a decimal literal is a
    /// negative literal. `&e` is refused before any code; any other operator
    /// is refused once its operand has compiled.
    fn compile_unary(&mut self, e: &Expr, needs: Needs) -> (r: Result<(), CompileError>)
        requires
            old(self).wf(),
            e is ExprUnary,
        ensures
            final(self).wf(),
            extends(final(self).insts@, old(self).insts@),
            final(self).src@ == old(self).src@,
            final(self).params == old(self).params,
            r is Ok ==> final(self).locals@ == old(self).locals@ && final(self).depth == old(self).depth + produced(needs),
            lowers(old(self).src@, old(self).locals@, *e) && old(self).depth + need(*e) <= MAX_DEPTH ==> r is Ok,
            unary_op(*e) == Some(UnaryOp::BorrowRef) ==> r == Err::<(), CompileError>(
                CompileError::UnsupportedRef { span: span_of(*e) },
            ) && final(self).insts@ == old(self).insts@,
            unary_op(*e) == Some(UnaryOp::Neg) && !neg_literal(*e) ==> r is Err,
            unary_op(*e) == Some(UnaryOp::Neg) && !neg_literal(*e) && lowers(old(self).src@, old(self).locals@, unary_operand(*e)) && old(self).depth
                + need(unary_operand(*e)) <= MAX_DEPTH ==> r == Err::<(), CompileError>(
                CompileError::UnsupportedUnaryOp { span: span_of(*e), op: UnaryOp::Neg },
            ),
            unary_op(*e) == Some(UnaryOp::Not) && r is Ok && needs == Needs::Value ==> final(self).insts@.last()
                == Inst::Not && extends(final(self).insts@.drop_last(), old(self).insts@) && final(self).spans@.last()
                == span_of(*e),
            unary_op(*e) == Some(UnaryOp::Not) && r is Ok && needs == Needs::NoValue ==> final(self).insts@.last()
                == Inst::Pop && final(self).insts@[final(self).insts@.len() - 2] == Inst::Not && extends(
                final(self).insts@.drop_last().drop_last(),
                old(self).insts@,
            ) && final(self).spans@.last() == span_of(*e) && final(self).spans@[final(self).spans@.len() - 2]
                == span_of(*e),
        decreases e, 1nat,
    {
        match e {
            Expr::ExprUnary { span, op, expr } => {
                match op {
                    UnaryOp::BorrowRef => {
                        return Err(CompileError::UnsupportedRef { span: *span });
                    },
                    _ => {},
                }
                if *op == UnaryOp::Neg {
                    match &**expr {
                        Expr::LitNumber { span: lit, kind: NumberKind::Decimal } => {
                            self.check_span(*lit)?;
                            let v = match parse_decimal(self.src, *lit) {
                                Some(v) => v,
                                None => {
                                    return Err(CompileError::BadNumberLiteral { span: *lit });
                                },
                            };
                            if v == i64::MIN {
                                return Err(CompileError::BadNumberLiteral { span: *lit });
                            }
                            self.push(Inst::Integer(-v), *span)?;
                            return self.finish(needs, *span);
                        },
                        _ => {},
                    }
                }
                self.compile_expr(expr, Needs::Value)?;
                match op {
                    UnaryOp::Not => self.push(Inst::Not, *span)?,
                    _ => {
                        return Err(CompileError::UnsupportedUnaryOp { span: *span, op: *op });
                    },
                }
                self.finish(needs, *span)
            },
            _ => Err(CompileError::UnsupportedExpr { span: span_of_exec(e) }),
        }
    }

    /// Lower a binary operator: both operands, then `Op`, then `Pop` where no
    /// value is needed. `??` has no lowering.
    fn compile_binary(&mut self, e: &Expr, needs: Needs) -> (r: Result<(), CompileError>)
        requires
            old(self).wf(),
            e is ExprBinary,
        ensures
            final(self).wf(),
            extends(final(self).insts@, old(self).insts@),
            final(self).src@ == old(self).src@,
            final(self).params == old(self).params,
            r is Ok ==> final(self).locals@ == old(self).locals@ && final(self).depth == old(self).depth + produced(needs),
            lowers(old(self).src@, old(self).locals@, *e) && old(self).depth + need(*e) <= MAX_DEPTH ==> r is Ok,
        decreases e, 1nat,
    {
        match e {
            Expr::ExprBinary { span, op, lhs, rhs } => {
                if *op == BinOp::Coalesce {
                    return Err(CompileError::UnsupportedExpr { span: *span });
                }
                self.compile_expr(lhs, Needs::Value)?;
                self.compile_expr(rhs, Needs::Value)?;
                self.push(Inst::Op(*op), *span)?;
                self.finish(needs, *span)
            },
            _ => Err(CompileError::UnsupportedExpr { span: span_of_exec(e) }),
        }
    }

    /// Lower a number, a string, a template without expansions, or a local.
    fn compile_leaf(&mut self, e: &Expr, needs: Needs) -> (r: Result<(), CompileError>)
        requires
            old(self).wf(),
        ensures
            final(self).wf(),
            extends(final(self).insts@, old(self).insts@),
            final(self).src@ == old(self).src@,
            final(self).params == old(self).params,
            r is Ok ==> final(self).locals@ == old(self).locals@ && final(self).depth == old(self).depth + produced(needs),
            (*e is LitNumber || *e is Path) && lowers(old(self).src@, old(self).locals@, *e) && old(self).depth + 1
                <= MAX_DEPTH ==> r is Ok,
    {
        match e {
            Expr::LitNumber { span, kind } => {
                self.check_span(*span)?;
                let v = match kind {
                    crate::token::NumberKind::Decimal => parse_decimal(self.src, *span),
                    _ => None,
                };
                match v {
                    Some(v) => {
                        self.push(Inst::Integer(v), *span)?;
                        self.finish(needs, *span)
                    },
                    None => Err(CompileError::BadNumberLiteral { span: *span }),
                }
            },
            Expr::LitStr { span } => {
                let slot = self.strings.len();
                self.push(Inst::String { slot }, *span)?;
                self.strings.push(*span);
                self.finish(needs, *span)
            },
            Expr::LitTemplate { span } => {
                self.check_span(*span)?;
                if template_has_expansions(self.src, *span) {
                    return Err(CompileError::UnsupportedExpr { span: *span });
                }
                self.warnings.push(Warning::TemplateWithoutExpansions { span: *span });
                let slot = self.strings.len();
                self.push(Inst::String { slot }, *span)?;
                self.strings.push(*span);
                self.finish(needs, *span)
            },
            Expr::Path { span, segments } => {
                let offset = self.local_of(*span, segments)?;
                if needs == Needs::NoValue {
                    self.warnings.push(Warning::NotUsed { span: *span });
                }
                self.push(Inst::Copy { offset }, *span)?;
                self.finish(needs, *span)
            },
            _ => Err(CompileError::UnsupportedExpr { span: span_of_exec(e) }),
        }
    }

    /// Lower one expression. When it succeeds, the stack is deeper by one
    /// value where a value is needed, and as deep as before otherwise.
    #[verifier::rlimit(100)]
    pub fn compile_expr(&mut self, e: &Expr, needs: Needs) -> (r: Result<(), CompileError>)
        requires
            old(self).wf(),
        ensures
            final(self).wf(),
            extends(final(self).insts@, old(self).insts@),
            final(self).src@ == old(self).src@,
            final(self).params == old(self).params,
            r is Ok ==> final(self).locals@ == old(self).locals@ && final(self).depth == old(self).depth + produced(needs),
            r is Ok ==> effect(final(self).insts@) == effect(old(self).insts@) + produced(needs),
            lowers(old(self).src@, old(self).locals@, *e) && old(self).depth + need(*e) <= MAX_DEPTH ==> r is Ok,
            forall|b: nat| lowers_block(old(self).src@, old(self).locals@, *e, b) && old(self).depth + b + 1 <= MAX_DEPTH
                ==> r is Ok,
            unary_op(*e) == Some(UnaryOp::BorrowRef) ==> r == Err::<(), CompileError>(
                CompileError::UnsupportedRef { span: span_of(*e) },
            ) && final(self).insts@ == old(self).insts@,
            unary_op(*e) == Some(UnaryOp::Not) && r is Ok && needs == Needs::Value ==> final(self).insts@.last()
                == Inst::Not && extends(final(self).insts@.drop_last(), old(self).insts@) && final(self).spans@.last()
                == span_of(*e),
            unary_op(*e) == Some(UnaryOp::Not) && r is Ok && needs == Needs::NoValue ==> final(self).insts@.last()
                == Inst::Pop && final(self).insts@[final(self).insts@.len() - 2] == Inst::Not && extends(
                final(self).insts@.drop_last().drop_last(),
                old(self).insts@,
            ) && final(self).spans@.last() == span_of(*e) && final(self).spans@[final(self).spans@.len() - 2]
                == span_of(*e),
            unsupported(*e) ==> r == Err::<(), CompileError>(CompileError::UnsupportedExpr { span: span_of(*e) }),
            unary_op(*e) == Some(UnaryOp::Neg) && !neg_literal(*e) ==> r is Err,
            unary_op(*e) == Some(UnaryOp::Neg) && !neg_literal(*e) && lowers(old(self).src@, old(self).locals@, unary_operand(*e)) && old(self).depth
                + need(unary_operand(*e)) <= MAX_DEPTH ==> r == Err::<(), CompileError>(
                CompileError::UnsupportedUnaryOp { span: span_of(*e), op: UnaryOp::Neg },
            ),
        decreases e, 2nat,
    {
        match e {
            Expr::LitUnit { span } => {
                self.push(Inst::PushUnit, *span)?;
                self.finish(needs, *span)
            },
            Expr::LitBool { span, value } => {
                self.push(Inst::Bool(*value), *span)?;
                self.finish(needs, *span)
            },
            Expr::LitNumber { .. } | Expr::LitStr { .. } | Expr::LitTemplate { .. } | Expr::Path { .. } => {
                self.compile_leaf(e, needs)
            },
            Expr::ExprGroup { expr, .. } => self.compile_expr(expr, needs),
            Expr::ExprUnary { .. } => self.compile_unary(e, needs),
            Expr::ExprBinary { .. } => self.compile_binary(e, needs),
            Expr::ExprCall { .. } => self.compile_call(e, needs),
            Expr::ExprAssign { .. } => self.compile_assign(e, needs),
            Expr::ExprBlock { .. } => self.compile_block(e, needs),
            Expr::ExprIf { .. } => self.compile_if(e, needs),
            Expr::ExprWhile { .. } => self.compile_while(e, needs),
            Expr::ExprLet { span, .. } => Err(CompileError::UnsupportedLet { span: *span }),
            _ => Err(CompileError::UnsupportedExpr { span: span_of_exec(e) }),
        }
    }

    /// Lower a call of a function named by a path, or of an instance
    /// function on a receiver.
    fn compile_call(&mut self, e: &Expr, needs: Needs) -> (r: Result<(), CompileError>)
        requires
            old(self).wf(),
            e is ExprCall,
        ensures
            final(self).wf(),
            extends(final(self).insts@, old(self).insts@),
            final(self).src@ == old(self).src@,
            final(self).params == old(self).params,
            r is Ok ==> final(self).locals@ == old(self).locals@ && final(self).depth == old(self).depth + produced(needs),
        decreases e, 1nat,
    {
        let (span, callee) = match e {
            Expr::ExprCall { span, callee, .. } => (*span, callee),
            _ => {
                return Err(CompileError::UnsupportedExpr { span: span_of_exec(e) });
            },
        };
        match &**callee {
            Expr::Path { segments, .. } => {
                if !spans_ok(self.src, segments) {
                    return Err(CompileError::BadSlice { span });
                }
                let count = self.compile_items(e, Needs::Value)?;
                let hash = crate::hash::Hash::of_spans(self.src, segments);
                self.push(Inst::Call { hash: hash.value, args: count }, span)?;
                self.finish(needs, span)
            },
            Expr::ExprFieldAccess { expr: receiver, field, .. } => {
                self.check_span(*field)?;
                proof {
                    assert(decreases_to!(*e => **callee));
                }
                self.compile_expr(receiver, Needs::Value)?;
                let count = self.compile_items(e, Needs::Value)?;
                if count >= MAX_DEPTH {
                    return Err(CompileError::StackOverflow { span });
                }
                let name = crate::hash::Hash::of_name_span(self.src, *field);
                self.push(Inst::CallInstance { name, args: count + 1 }, span)?;
                self.finish(needs, span)
            },
            _ => Err(CompileError::UnsupportedExpr { span }),
        }
    }

    /// Lower an assignment to a local, plain or compound.
    fn compile_assign(&mut self, e: &Expr, needs: Needs) -> (r: Result<(), CompileError>)
        requires
            old(self).wf(),
            e is ExprAssign,
        ensures
            final(self).wf(),
            extends(final(self).insts@, old(self).insts@),
            final(self).src@ == old(self).src@,
            final(self).params == old(self).params,
            r is Ok ==> final(self).locals@ == old(self).locals@ && final(self).depth == old(self).depth + produced(needs),
        decreases e, 1nat,
    {
        let (span, op, target, value) = match e {
            Expr::ExprAssign { span, op, target, value } => (*span, *op, target, value),
            _ => {
                return Err(CompileError::UnsupportedExpr { span: span_of_exec(e) });
            },
        };
        let offset = match &**target {
            Expr::Path { span: tspan, segments } => self.local_of(*tspan, segments)?,
            _ => {
                return Err(CompileError::UnsupportedAssignExpr { span });
            },
        };
        let bin = match op {
            crate::ast::AssignOp::Assign => None,
            crate::ast::AssignOp::AddAssign => Some(BinOp::Add),
            crate::ast::AssignOp::SubAssign => Some(BinOp::Sub),
            crate::ast::AssignOp::MulAssign => Some(BinOp::Mul),
            crate::ast::AssignOp::DivAssign => Some(BinOp::Div),
        };
        match bin {
            Some(b) => {
                self.push(Inst::Copy { offset }, span)?;
                self.compile_expr(value, Needs::Value)?;
                self.push(Inst::Op(b), span)?;
            },
            None => {
                self.compile_expr(value, Needs::Value)?;
            },
        }
        self.push(Inst::Replace { offset }, span)?;
        match needs {
            Needs::Value => self.push(Inst::PushUnit, span),
            Needs::NoValue => Ok(()),
        }
    }

    /// Lower the arguments of a call, each leaving its value: how many there
    /// are.
    fn compile_items(&mut self, e: &Expr, needs: Needs) -> (r: Result<usize, CompileError>)
        requires
            old(self).wf(),
            needs == Needs::Value,
            e is ExprCall,
        ensures
            extends(final(self).insts@, old(self).insts@),
            final(self).wf(),
            extends(final(self).insts@, old(self).insts@),
            final(self).src@ == old(self).src@,
            final(self).params == old(self).params,
            r is Ok ==> final(self).locals@ == old(self).locals@ && final(self).depth == old(self).depth + r->Ok_0,
        decreases e, 0nat,
    {
        let items = match e {
            Expr::ExprCall { args, .. } => args,
            _ => {
                return Err(CompileError::UnsupportedExpr { span: span_of_exec(e) });
            },
        };
        assert(decreases_to!(*e => *items));
        let mut k: usize = 0;
        while k < items.len()
            invariant
                self.wf(),
                self.same_frame(old(self)),
                extends(self.insts@, old(self).insts@),
                k <= items@.len(),
                decreases_to!(*e => *items),
                self.depth == old(self).depth + k,
            decreases items@.len() - k,
        {
            proof {
                assert(decreases_to!(*items => items[k as int]));
            }
            self.compile_expr(&items[k], Needs::Value)?;
            k = k + 1;
        }
        Ok(k)
    }

    /// Lower a block: its statements in order, `let` bringing a local into
    /// scope, then its locals dropped again, the value of the block kept
    /// where it is needed.
    pub fn compile_block(&mut self, e: &Expr, needs: Needs) -> (r: Result<(), CompileError>)
        requires
            old(self).wf(),
            e is ExprBlock,
        ensures
            final(self).wf(),
            extends(final(self).insts@, old(self).insts@),
            final(self).src@ == old(self).src@,
            final(self).params == old(self).params,
            r is Ok ==> final(self).locals@ == old(self).locals@ && final(self).depth == old(self).depth + produced(needs),
            forall|b: nat| lowers_block(old(self).src@, old(self).locals@, *e, b) && old(self).depth + b + 1 <= MAX_DEPTH
                ==> r is Ok,
        decreases e, 1nat,
    {
        let span = span_of_exec(e);
        let exprs = match e {
            Expr::ExprBlock { exprs, .. } => exprs,
            _ => {
                return Err(CompileError::UnsupportedExpr { span });
            },
        };
        assert(decreases_to!(*e => *exprs));
        assert((*e)->exprs == *exprs);
        if exprs.len() == 0 {
            return match needs {
                Needs::Value => self.push(Inst::PushUnit, span),
                Needs::NoValue => Ok(()),
            };
        }
        let start = self.locals.len();
        let ghost start_depth = self.depth;
        let ghost old_locals = self.locals@;
        let mut k: usize = 0;
        while k < exprs.len()
            invariant
                self.wf(),
                self.src@ == old(self).src@,
                self.params == old(self).params,
                start == old_locals.len(),
                old_locals == old(self).locals@,
                decreases_to!(*e => *exprs),
                (*e)->exprs == *exprs,
                extends(self.insts@, old(self).insts@),
                self.locals@.len() >= start,
                self.locals@.take(start as int) == old_locals,
                k <= exprs@.len(),
                0 < exprs@.len(),
                k < exprs@.len() ==> self.depth == start_depth + (self.locals@.len() - start),
                k == exprs@.len() ==> self.depth == start_depth + (self.locals@.len() - start) + produced(needs),
                start_depth == old(self).depth,
                forall|b: nat| lowers_block(old(self).src@, old(self).locals@, *e, b) ==> self.locals@ == old(self).locals@,
            decreases exprs@.len() - k,
        {
            proof {
                assert(decreases_to!(*exprs => exprs[k as int]));
                assert forall|b: nat| lowers_block(old(self).src@, old(self).locals@, *e, b) implies lowers(
                    old(self).src@,
                    old(self).locals@,
                    exprs@[k as int],
                ) && need(exprs@[k as int]) <= b && !(exprs@[k as int] is ExprLet) by {
                    assert(lowers(old(self).src@, old(self).locals@, (*e)->exprs@[k as int]));
                }
            }
            let last = k + 1 == exprs.len();
            let item_needs = if last { needs } else { Needs::NoValue };
            match &exprs[k] {
                Expr::ExprLet { span: let_span, name, expr } => {
                    self.check_span(*name)?;
                    self.compile_expr(expr, Needs::Value)?;
                    let offset = self.depth - 1;
                    let ghost before = self.locals@;
                    self.locals.push(Local { name: *name, offset });
                    assert(self.locals@.take(start as int) =~= before.take(start as int));
                    if last {
                        match needs {
                            Needs::Value => self.push(Inst::PushUnit, *let_span)?,
                            Needs::NoValue => {},
                        }
                    }
                },
                item => {
                    self.compile_expr(item, item_needs)?;
                },
            }
            k = k + 1;
        }
        let count = self.locals.len() - start;
        if count > 0 {
            match needs {
                Needs::Value => self.push(Inst::Clean { count }, span)?,
                Needs::NoValue => self.push(Inst::PopN { count }, span)?,
            }
        }
        self.locals.truncate(start);
        assert(self.locals@ =~= old_locals);
        Ok(())
    }

    /// The innermost local whose name is spelled as `src[s.start..s.end]`.
    fn lookup(&self, s: Span) -> (r: Option<usize>)
        requires
            s.start <= s.end <= self.src@.len(),
            locals_within(self.src@, self.locals@),
        ensures
            r is Some ==> exists|i: int| 0 <= i < self.locals@.len() && #[trigger] self.locals@[i].offset == r->Some_0
                && text_of(self.src@, self.locals@[i].name) == text_of(self.src@, s),
            has_local(self.src@, self.locals@, s) ==> r is Some,
    {
        let mut i: usize = self.locals.len();
        while i > 0
            invariant
                i <= self.locals@.len(),
                forall|j: int| i <= j < self.locals@.len() ==> text_of(self.src@, #[trigger] self.locals@[j].name) != text_of(
                    self.src@,
                    s,
                ),
                s.start <= s.end <= self.src@.len(),
                locals_within(self.src@, self.locals@),
            decreases i,
        {
            i = i - 1;
            let l = self.locals[i];
            assert(l == self.locals@[i as int]);
            assert(self.locals@[i as int].name.start <= self.locals@[i as int].name.end <= self.src@.len());
            if same_text(self.src, l.name, s) {
                return Some(l.offset);
            }
        }
        None
    }
}

/// Lower a function: its arguments are the first locals, its body leaves
/// its value, which `Return` hands back.
pub fn compile_fn(src: &[u8], f: &DeclFn) -> (r: Result<CompiledFn, CompileError>)
    ensures
        r is Ok ==> effect(r->Ok_0.insts@) == 0,
        r is Ok ==> r->Ok_0.insts@.len() == r->Ok_0.spans@.len() && r->Ok_0.insts@.len() > 0
            && r->Ok_0.insts@.last() == Inst::Return,
        r is Ok ==> r->Ok_0.args == f.args@.len(),
        r is Ok ==> r->Ok_0.hash.value == type_hash(span_parts(src@, seq![f.name])),
        fn_lowers(src@, *f) ==> r is Ok,
{
    let mut c = Compiler::new(src);
    let mut k: usize = 0;
    while k < f.args.len()
        invariant
            c.wf(),
            c.src@ == src@,
            c.insts@.len() == 0,
            k <= f.args@.len(),
            c.params == k,
            c.depth == k,
            c.locals@ == arg_locals(*f).take(k as int),
        decreases f.args@.len() - k,
    {
        let a = f.args[k];
        assert(a == f.args@[k as int]);
        c.check_span(a)?;
        if c.depth >= MAX_DEPTH {
            return Err(CompileError::StackOverflow { span: a });
        }
        c.locals.push(Local { name: a, offset: k });
        assert(c.locals@ =~= arg_locals(*f).take(k + 1));
        c.params = c.params + 1;
        c.depth = c.depth + 1;
        k = k + 1;
    }
    assert(arg_locals(*f).take(k as int) =~= arg_locals(*f));
    c.compile_expr(&f.body, Needs::Value)?;
    c.push(Inst::Return, f.span)?;
    c.check_span(f.name)?;
    let names = vec![f.name];
    assert(names@ =~= seq![f.name]);
    let hash = crate::hash::Hash::of_spans(src, &names);
    Ok(CompiledFn { name: f.name, hash, args: k, insts: c.insts, spans: c.spans, strings: c.strings, warnings: c.warnings, labels: c.labels })
}

/// The span of an expression.
fn span_of_exec(e: &Expr) -> (r: Span)
    ensures
        r == span_of(*e),
{
    e.span()
}

/// Whether every span lies within `src`.
fn spans_ok(src: &[u8], parts: &Vec<Span>) -> (r: bool)
    ensures
        r ==> spans_within(src@, parts@),
{
    let mut k: usize = 0;
    while k < parts.len()
        invariant
            k <= parts@.len(),
            forall|j: int| 0 <= j < k ==> #[trigger] parts@[j].start <= parts@[j].end <= src@.len(),
        decreases parts@.len() - k,
    {
        let p = parts[k];
        if p.start > p.end || p.end > src.len() {
            return false;
        }
        k = k + 1;
    }
    true
}

/// The bytes a span covers.
pub open spec fn text_of(src: Seq<u8>, s: Span) -> Seq<u8> {
    src.subrange(s.start as int, s.end as int)
}

/// Every local's name lies within the source.
pub open spec fn locals_within(src: Seq<u8>, locals: Seq<Local>) -> bool {
    forall|i: int| 0 <= i < locals.len() ==> #[trigger] locals[i].name.start <= locals[i].name.end <= src.len()
}

/// Whether two spans of `src` spell the same bytes.
pub fn same_text(src: &[u8], a: Span, b: Span) -> (r: bool)
    requires
        a.start <= a.end <= src@.len(),
        b.start <= b.end <= src@.len(),
    ensures
        r == (text_of(src@, a) == text_of(src@, b)),
{
    if a.end - a.start != b.end - b.start {
        proof {
            assert(text_of(src@, a).len() != text_of(src@, b).len());
        }
        return false;
    }
    let n = a.end - a.start;
    let mut k: usize = 0;
    while k < n
        invariant
            k <= n,
            n == a.end - a.start,
            n == b.end - b.start,
            a.start <= a.end <= src@.len(),
            b.start <= b.end <= src@.len(),
            forall|j: int| 0 <= j < k ==> #[trigger] text_of(src@, a)[j] == text_of(src@, b)[j],
        decreases n - k,
    {
        if src[a.start + k] != src[b.start + k] {
            proof {
                assert(text_of(src@, a)[k as int] != text_of(src@, b)[k as int]);
            }
            return false;
        }
        assert(text_of(src@, a)[k as int] == src@[a.start + k]);
        assert(text_of(src@, b)[k as int] == src@[b.start + k]);
        k = k + 1;
    }
    assert(text_of(src@, a) =~= text_of(src@, b));
    true
}

} // verus!
