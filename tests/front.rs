use rune::reflection::{FromValue, IntoArgs, ToValue};
use rune::value::{Value, ValueType, VmError};
use rune::compile::{compile_fn, CompileError, Inst, Warning};
use rune::select::Select;
use rune::decl::{parse_file, Decl};
use rune::hash::{COMPONENT_SEP, FNV_OFFSET, FNV_PRIME, INST_SEED};
use rune::lexer::lex;
use rune::parser::parse_all;
use rune::std_result;
use rune::token::{Kind, ParseError};

#[test]
fn token_spans_lie_within_the_source() {
    let src = "let s = `${1+2}-${\"k\"}`; s.len() // done";
    let toks = lex(src.as_bytes()).unwrap();
    assert_eq!(toks[0].kind, Kind::Let);
    assert_eq!(toks[3].kind, Kind::LitTemplate);
    for t in &toks {
        assert!(t.span.start < t.span.end && t.span.end <= src.len());
    }
    for w in toks.windows(2) {
        assert!(w[0].span.end <= w[1].span.start);
    }
}

#[test]
fn lexer_rejects_bad_input() {
    assert!(matches!(lex(b"\"open"), Err(ParseError::UnterminatedStrLit { .. })));
    assert!(matches!(lex(b"\"\\q\""), Err(ParseError::BadEscapeSequence { .. })));
    assert!(matches!(lex(b"a $ b"), Err(ParseError::UnexpectedChar { .. })));
}

#[test]
fn parse_errors() {
    assert!(matches!(parse_all("1 +"), Err(ParseError::UnexpectedEof { .. })));
    assert!(matches!(parse_all("1 = 2"), Err(ParseError::UnsupportedAssignExpr { .. })));
    assert!(matches!(parse_all("1 2"), Err(ParseError::ExpectedEof { .. })));
}

#[test]
fn declarations_and_semicolons() {
    let file = parse_file("use std::result; struct A; struct B { x, y } fn main(a) { a }").unwrap();
    assert_eq!(file.decls.len(), 4);
    assert!(file.decls[0].needs_semi_colon());
    assert!(file.decls[1].needs_semi_colon());
    assert!(!file.decls[2].needs_semi_colon());
    assert!(matches!(file.decls[3], Decl::DeclFn(..)));
    assert!(parse_file("use std::result").is_err());
}

#[test]
fn borrow_expressions_are_reserved() {
    let src = "fn main(a) { &a }";
    let file = parse_file(src).unwrap();
    match &file.decls[0] {
        Decl::DeclFn(f) => {
            assert!(matches!(compile_fn(src.as_bytes(), f), Err(CompileError::UnsupportedRef { .. })));
        }
        _ => panic!("not a function"),
    }
}

#[test]
fn compiled_statements_keep_the_stack_balanced() {
    let src = "fn main(a) { let b = a + 1; b; if b > 2 { b } else { -1 }; while b < 5 { b = b + 1 } !(b > 1) }";
    let file = parse_file(src).unwrap();
    let f = match &file.decls[0] {
        Decl::DeclFn(f) => compile_fn(src.as_bytes(), f).unwrap(),
        _ => panic!("not a function"),
    };
    assert_eq!(f.insts.last(), Some(&Inst::Return));
    assert_eq!(f.insts.len(), f.spans.len());
    let mut depth: i64 = f.args as i64;
    for i in &f.insts {
        depth += match i {
            Inst::PushUnit | Inst::Integer(_) | Inst::Bool(_) | Inst::String { .. } | Inst::Copy { .. } => 1,
            Inst::Not => 0,
            Inst::Replace { .. } | Inst::Pop | Inst::Op(_) | Inst::Return => -1,
            Inst::JumpIfFalse { .. } => -1,
            Inst::Jump { carry, .. } => -(*carry as i64),
            Inst::PopN { count } | Inst::Clean { count } => -(*count as i64),
            Inst::Call { args, .. } | Inst::CallInstance { args, .. } => 1 - *args as i64,
        };
    }
    assert_eq!(depth, f.args as i64);
}

fn fnv(mut h: u64, bytes: &[u8]) -> u64 {
    for b in bytes {
        h = (h ^ *b as u64).wrapping_mul(FNV_PRIME);
    }
    h
}

#[test]
fn hashes_are_stable() {
    let a = rune::hash::Hash::of_path(&["std", "result", "Result"]);
    let b = rune::hash::Hash::of_path(&["std", "result", "Result"]);
    assert_eq!(a, b);
    let mut expected = FNV_OFFSET;
    for c in ["std", "result", "Result"] {
        expected = fnv(expected, c.as_bytes());
        expected = fnv(expected, &[COMPONENT_SEP]);
    }
    assert_eq!(a.value, expected);
    assert_ne!(rune::hash::Hash::of_path(&["ab", "c"]), rune::hash::Hash::of_path(&["a", "bc"]));
    let m = rune::hash::Hash::instance_fn(a, "len");
    assert_eq!(m.value, a.value ^ fnv(INST_SEED, b"len"));
    assert_ne!(m, rune::hash::Hash::instance_fn(rune::hash::Hash::of_path(&["Vec"]), "len"));
}

#[test]
fn result_package_registers_its_items() {
    let m = std_result::module().unwrap();
    assert_eq!(m.types.len(), 1);
    assert_eq!(m.functions.len(), 2);
    assert_eq!(m.types[0], rune::hash::Hash::of_path(&["std", "result", "Result"]).value);
    assert_eq!(m.functions[1].hash, rune::hash::Hash::of_path(&["std", "result", "Result", "Ok"]).value);
    let mut ctx = rune::context::Context::new();
    ctx.install(&m).unwrap();
    assert!(ctx.install(&m).is_err());
    assert_eq!(ctx.functions.len(), 2);
}

#[test]
fn http_package_registers_its_items() {
    let m = rune::http::module().unwrap();
    assert_eq!(m.types.len(), 5);
    assert_eq!(m.functions.len(), 9);
    let client = rune::hash::Hash::of_path(&["http", "Client"]);
    assert_eq!(m.types[0], client.value);
    assert_eq!(m.functions[0].hash, rune::hash::Hash::of_path(&["http", "Client", "new"]).value);
    assert_eq!(m.functions[2].hash, rune::hash::Hash::instance_fn(client, "get").value);
}

#[test]
fn values_convert_to_and_from_host_types() {
    assert!(matches!(5i64.to_value(), Value::Integer(5)));
    assert_eq!(i64::from_value(Value::Integer(9)).unwrap(), 9);
    assert_eq!(i64::from_value(Value::Bool(true)).unwrap_err(), VmError::ExpectedInteger { actual: ValueType::Bool });
    let args = (1i64, true).into_args();
    assert_eq!(args.len(), <(i64, bool) as IntoArgs>::count());
}

#[test]
fn template_without_expansions_warns() {
    let src = "fn main() { `no holes` }";
    let file = parse_file(src).unwrap();
    match &file.decls[0] {
        Decl::DeclFn(f) => {
            let c = compile_fn(src.as_bytes(), f).unwrap();
            assert_eq!(c.warnings.len(), 1);
            match c.warnings[0] {
                Warning::TemplateWithoutExpansions { span } => assert_eq!(&src[span.start..span.end], "`no holes`"),
                other => panic!("unexpected warning {:?}", other),
            }
        }
        _ => panic!("not a function"),
    }
}

#[test]
fn select_takes_the_lowest_ready_branch() {
    let s = Select::new(vec![10, 11, 12]);
    assert_eq!(s.resolve(&vec![false, true, true]), Some(1));
    assert_eq!(s.resolve(&vec![true, true, true]), Some(0));
    assert_eq!(s.resolve(&vec![false, false, false]), None);
}

#[test]
fn identifiers_and_labels_resolve_to_their_text() {
    let src = "'outer: foo";
    let toks = lex(src.as_bytes()).unwrap();
    assert_eq!(toks[0].kind, Kind::Label);
    let l = rune::parser::resolve_label(src.as_bytes(), toks[0]).unwrap();
    assert_eq!(&src[l.start..l.end], "outer");
    let i = rune::parser::resolve_ident(src.as_bytes(), toks[2]).unwrap();
    assert_eq!(&src[i.start..i.end], "foo");
    assert!(matches!(rune::parser::resolve_ident(b"ab", toks[2]), Err(ParseError::BadSlice { .. })));
}

#[test]
fn impl_starts_a_declaration() {
    let toks = lex(b"impl Foo { }").unwrap();
    assert_eq!(toks[0].kind, Kind::Impl);
    assert!(Decl::peek(Some(toks[0]), None));
    assert!(!Decl::peek(Some(toks[1]), None));
    assert!(!Decl::peek(None, None));
}
