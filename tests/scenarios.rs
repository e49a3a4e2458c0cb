use rune::context::{Context, Module};

use rune::unit::{load_source, LinkerError, LoadError};
use rune::value::{Value, ValueType};
use rune::vm::{type_hash_of, Vm, VmHalt};

fn run_main(src: &str, ctx: &Context, args: Vec<Value>) -> VmHalt {
    let unit = load_source(ctx, src).unwrap();
    let mut vm = Vm::new();
    vm.call(&unit, rune::hash::Hash::of_path(&["main"]).value, args).unwrap();
    vm.run(&unit, ctx, 10_000).unwrap()
}

#[test]
fn main_adds_ten() {
    let ctx = Context::new();
    match run_main("fn main(n){ n + 10 }", &ctx, vec![Value::Integer(33)]) {
        VmHalt::Completed(Value::Integer(v)) => assert_eq!(v, 43),
        other => panic!("unexpected halt: {:?}", other),
    }
}

#[test]
fn host_instance_function_divides_by_three() {
    let int_type = type_hash_of(ValueType::Integer);
    let mut module = Module::new(&[]);
    let hash = module.inst_fn(int_type, "divide_by_three", 1).unwrap();
    let mut ctx = Context::new();
    ctx.install(&module).unwrap();

    let unit = load_source(&ctx, "fn main(n){ n.divide_by_three() }").unwrap();
    let mut vm = Vm::new();
    vm.call(&unit, rune::hash::Hash::of_path(&["main"]).value, vec![Value::Integer(33)]).unwrap();
    match vm.run(&unit, &ctx, 10_000).unwrap() {
        VmHalt::CallHost { hash: h, args } => {
            assert_eq!(h, hash);
            assert_eq!(h, rune::hash::Hash::instance_fn(rune::hash::Hash { value: int_type }, "divide_by_three").value);
            match args.as_slice() {
                [Value::Integer(i)] => vm.resume(Value::Integer(i / 3)),
                other => panic!("unexpected arguments: {:?}", other),
            }
        }
        other => panic!("unexpected halt: {:?}", other),
    }
    match vm.run(&unit, &ctx, 10_000).unwrap() {
        VmHalt::Completed(Value::Integer(v)) => assert_eq!(v, 11),
        other => panic!("unexpected halt: {:?}", other),
    }
}

#[test]
fn locals_blocks_and_calls() {
    let ctx = Context::new();
    let src = "fn add(a, b) { a + b } fn main() { let x = 2; let y = { let z = 3; z * x }; x = add(x, y); x - 1 }";
    match run_main(src, &ctx, vec![]) {
        VmHalt::Completed(Value::Integer(v)) => assert_eq!(v, 7),
        other => panic!("unexpected halt: {:?}", other),
    }
}

#[test]
fn unregistered_host_function_is_a_link_error() {
    let ctx = Context::new();
    let src = "fn main() { missing(1) }";
    match load_source(&ctx, src) {
        Err(LoadError::Link(errors)) => {
            assert_eq!(errors.len(), 1);
            let LinkerError::MissingFunction { hash, span } = errors[0];
            assert_eq!(hash, rune::hash::Hash::of_path(&["missing"]).value);
            assert_eq!(&src[span.start..span.end], "missing(1)");
        }
        other => panic!("unexpected result: {:?}", other),
    }
}

#[test]
fn overflow_is_a_runtime_error() {
    let ctx = Context::new();
    let unit = load_source(&ctx, "fn main(n){ n * 2 }").unwrap();
    let mut vm = Vm::new();
    vm.call(&unit, rune::hash::Hash::of_path(&["main"]).value, vec![Value::Integer(i64::MAX)]).unwrap();
    assert_eq!(vm.run(&unit, &ctx, 10_000).unwrap_err(), rune::value::VmError::Overflow);
}

#[test]
fn division_rounds_toward_zero() {
    let ctx = Context::new();
    match run_main("fn main(a, b){ a / b }", &ctx, vec![Value::Integer(-7), Value::Integer(2)]) {
        VmHalt::Completed(Value::Integer(v)) => assert_eq!(v, -3),
        other => panic!("unexpected halt: {:?}", other),
    }
    match run_main("fn main(a, b){ a % b }", &ctx, vec![Value::Integer(-7), Value::Integer(2)]) {
        VmHalt::Completed(Value::Integer(v)) => assert_eq!(v, -1),
        other => panic!("unexpected halt: {:?}", other),
    }
}

#[test]
fn branches_and_loops() {
    let ctx = Context::new();
    let src = "fn main(n) { let s = 0; let i = 0; while i < n { i = i + 1; s = s + i; } s }";
    match run_main(src, &ctx, vec![Value::Integer(4)]) {
        VmHalt::Completed(Value::Integer(v)) => assert_eq!(v, 10),
        other => panic!("unexpected halt: {:?}", other),
    }
    let src = "fn main(n) { if n > 10 { 1 } else if n > 5 { 2 } else { 3 } }";
    for (n, expected) in [(11, 1), (7, 2), (1, 3)] {
        match run_main(src, &ctx, vec![Value::Integer(n)]) {
            VmHalt::Completed(Value::Integer(v)) => assert_eq!(v, expected),
            other => panic!("unexpected halt: {:?}", other),
        }
    }
    let src = "fn main(n) { if n > 0 { n = 0; } n }";
    match run_main(src, &ctx, vec![Value::Integer(3)]) {
        VmHalt::Completed(Value::Integer(v)) => assert_eq!(v, 0),
        other => panic!("unexpected halt: {:?}", other),
    }
}

#[test]
fn negative_literals_and_refused_negation() {
    let ctx = Context::new();
    match run_main("fn main(n) { n + -5 }", &ctx, vec![Value::Integer(7)]) {
        VmHalt::Completed(Value::Integer(v)) => assert_eq!(v, 2),
        other => panic!("unexpected halt: {:?}", other),
    }
    match load_source(&ctx, "fn main(n) { -n }") {
        Err(LoadError::Compile(rune::compile::CompileError::UnsupportedUnaryOp { op, .. })) => {
            assert_eq!(op, rune::ast::UnaryOp::Neg)
        }
        other => panic!("unexpected result: {:?}", other),
    }
    assert!(matches!(load_source(&ctx, "fn main() { [1, 2][0] }"), Err(LoadError::Compile(..))));
}
