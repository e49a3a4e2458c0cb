use rune::ast::Expr;
use rune::parser::parse_all;

#[test]
fn test_expr() {
    parse_all("foo[\"foo\"]").unwrap();
    parse_all("foo.bar()").unwrap();
    parse_all("var()").unwrap();
    parse_all("var").unwrap();
    parse_all("42").unwrap();
    parse_all("1 + 2 / 3 - 4 * 1").unwrap();
    parse_all("foo[\"bar\"]").unwrap();
    parse_all("let var = 42").unwrap();
    parse_all("let var = \"foo bar\"").unwrap();
    parse_all("var[\"foo\"] = \"bar\"").unwrap();
    parse_all("let var = objects[\"foo\"] + 1").unwrap();
    parse_all("var = 42").unwrap();

    let expr = parse_all(
        r#"
            if 1 { } else { if 2 { } else { } }
        "#,
    )
    .unwrap();

    if let Expr::ExprIf { .. } = expr {
    } else {
        panic!("not an if statement");
    }

    // Chained function calls.
    parse_all("foo.bar.baz()").unwrap();
    parse_all("foo[0][1][2]").unwrap();
    parse_all("foo.bar()[0].baz()[1]").unwrap();

    parse_all("42 is int::int").unwrap();
}
