use cortex_rust::ast::{
    BinaryOp, Block, Expression, Function, Literal, LiteralValue, Program, Statement, Variable,
};
use cortex_rust::error::{CompilerError, ParseError};
use cortex_rust::grammar::ParseFailure;
use cortex_rust::lexer::Lexer;
use cortex_rust::parser::Parser;
use cortex_rust::security::SecurityContext;
use cortex_rust::token::{Token, TokenInfo};

fn parse(source: &str) -> Result<Program, ParseFailure> {
    let mut lexer = Lexer::new(source);
    let tokens = lexer.tokenize().unwrap();
    let mut parser = Parser::new(tokens);
    parser.parse()
}

fn show(e: &Expression) -> String {
    match e {
        Expression::Literal(l) => match &l.value {
            LiteralValue::Number(n) => n.clone(),
            LiteralValue::String(s) => format!("{:?}", s),
            LiteralValue::Boolean(b) => format!("{}", b),
            LiteralValue::Null => "null".to_string(),
        },
        Expression::Identifier(i) => i.name.clone(),
        Expression::BinaryOp(b) => format!("({} {} {})", show(&b.left), b.operator, show(&b.right)),
        Expression::UnaryOp(u) => format!("({}{})", u.operator, show(&u.operand)),
        Expression::Array(a) => {
            format!("[{}]", a.elements.iter().map(show).collect::<Vec<_>>().join(", "))
        }
        Expression::Dictionary(d) => format!(
            "{{{}}}",
            d.pairs
                .iter()
                .map(|(k, v)| format!("{}: {}", show(k), show(v)))
                .collect::<Vec<_>>()
                .join(", ")
        ),
        Expression::Index(i) => format!("{}<{}>", show(&i.container), show(&i.index)),
        Expression::Range(r) => format!("({} .. {})", show(&r.start), show(&r.end)),
    }
}

fn show_block(b: &Block) -> String {
    format!("| {} ^", b.statements.iter().map(show_statement).collect::<Vec<_>>().join("; "))
}

fn show_statement(s: &Statement) -> String {
    match s {
        Statement::Function(f) => format!(
            "func {}[{}]{} {}",
            f.name,
            f.parameters
                .iter()
                .map(|p| match &p.type_annotation {
                    Some(t) => format!("{}: {}", p.name, t.name),
                    None => p.name.clone(),
                })
                .collect::<Vec<_>>()
                .join(", "),
            match &f.return_type {
                Some(t) => format!(" : {}", t),
                None => String::new(),
            },
            show_block(&f.body)
        ),
        Statement::IfStatement(i) => format!(
            "if {} {}{}",
            show(&i.condition),
            show_block(&i.then_block),
            match &i.else_block {
                Some(b) => format!(" else {}", show_block(b)),
                None => String::new(),
            }
        ),
        Statement::WhileLoop(w) => format!("while {} {}", show(&w.condition), show_block(&w.body)),
        Statement::ForLoop(f) => format!(
            "for {}{} {}",
            f.variable,
            match &f.iterable {
                Some(e) => format!(" in {}", show(e)),
                None => String::new(),
            },
            show_block(&f.body)
        ),
        Statement::ReturnStatement(r) => match &r.value {
            Some(e) => format!("return {}", show(e)),
            None => "return".to_string(),
        },
        Statement::Assignment(a) => format!("{} := {}", a.variable, show(&a.value)),
        Statement::ConstantAssignment(a) => format!("{} :: {}", a.variable, show(&a.value)),
        Statement::IndexAssignment(a) => {
            format!("{}<{}> := {}", show(&a.container), show(&a.index), show(&a.value))
        }
        Statement::Expression(e) => show(e),
    }
}

fn shown(source: &str) -> Vec<String> {
    parse(source).unwrap().statements.iter().map(show_statement).collect()
}

fn syntax_error(source: &str) -> ParseError {
    match parse(source).unwrap_err() {
        ParseFailure::Syntax(e) => e,
        ParseFailure::Limit(e) => panic!("expected a syntax error, got {:?}", e),
    }
}

fn unexpected(source: &str) -> (String, String, usize, usize) {
    match syntax_error(source) {
        ParseError::UnexpectedToken { expected, actual, line, column } => {
            (expected, actual, line, column)
        }
        other => panic!("expected an unexpected token, got {:?}", other),
    }
}

#[test]
fn test_literal_creation() {
    let number_literal = Literal::new(LiteralValue::Number("42".to_string()), "number".to_string());
    assert_eq!(number_literal.literal_type, "number");

    let string_literal =
        Literal::new(LiteralValue::String("hello".to_string()), "string".to_string());
    assert_eq!(string_literal.literal_type, "string");
}

#[test]
fn test_binary_op_creation() {
    let left = Expression::Literal(Literal::new(
        LiteralValue::Number("1".to_string()),
        "number".to_string(),
    ));
    let right = Expression::Literal(Literal::new(
        LiteralValue::Number("2".to_string()),
        "number".to_string(),
    ));
    let binary_op = BinaryOp::new(left, "+".to_string(), right);

    assert_eq!(binary_op.operator, "+");
}

#[test]
fn test_function_creation() {
    let params = vec![Variable::new("a".to_string(), None), Variable::new("b".to_string(), None)];
    let body = Block::new(vec![]);
    let function = Function::new("add".to_string(), params, Some("number".to_string()), body);

    assert_eq!(function.name, "add");
    assert_eq!(function.parameters.len(), 2);
    assert_eq!(function.return_type, Some("number".to_string()));
}

#[test]
fn parser_test_parse_simple_assignment() {
    let source = "let x := 42";
    let mut lexer = Lexer::new(source);
    let tokens = lexer.tokenize().unwrap();
    let mut parser = Parser::new(tokens);
    let ast = parser.parse().unwrap();

    assert_eq!(ast.statements.len(), 1);
    if let Statement::Assignment(assignment) = &ast.statements[0] {
        assert_eq!(assignment.variable, "x");
    } else {
        panic!("Expected assignment statement");
    }
}

#[test]
fn parser_test_parse_function() {
    let source = "func add[a, b] | return[a + b] ^";
    let mut lexer = Lexer::new(source);
    let tokens = lexer.tokenize().unwrap();
    let mut parser = Parser::new(tokens);
    let ast = parser.parse().unwrap();

    assert_eq!(ast.statements.len(), 1);
    if let Statement::Function(function) = &ast.statements[0] {
        assert_eq!(function.name, "add");
        assert_eq!(function.parameters.len(), 2);
    } else {
        panic!("Expected function statement");
    }
}

#[test]
fn parser_test_parse_arithmetic() {
    let source = "1 + 2 * 3";
    let mut lexer = Lexer::new(source);
    let tokens = lexer.tokenize().unwrap();
    let mut parser = Parser::new(tokens);
    let ast = parser.parse().unwrap();

    assert_eq!(ast.statements.len(), 1);
    if let Statement::Expression(expr) = &ast.statements[0] {
        if let Expression::BinaryOp(binary_op) = expr {
            assert_eq!(binary_op.operator, "+");
        } else {
            panic!("Expected binary operation");
        }
    } else {
        panic!("Expected expression statement");
    }
}

#[test]
fn parser_test_operator_precedence() {
    let ast = parse("1 + 2 * 3").unwrap();

    if let Statement::Expression(Expression::BinaryOp(add_op)) = &ast.statements[0] {
        assert_eq!(add_op.operator, "+");
        if let Expression::BinaryOp(mul_op) = &*add_op.right {
            assert_eq!(mul_op.operator, "*");
        } else {
            panic!("Expected multiplication on right side");
        }
    } else {
        panic!("Expected addition expression");
    }
}

#[test]
fn test_power_right_associativity() {
    let ast = parse("2 ** 3 ** 2").unwrap();

    if let Statement::Expression(Expression::BinaryOp(power_op)) = &ast.statements[0] {
        assert_eq!(power_op.operator, "**");
        if let Expression::BinaryOp(inner_power) = &*power_op.right {
            assert_eq!(inner_power.operator, "**");
        } else {
            panic!("Expected power operation on right side for right-associativity");
        }
    } else {
        panic!("Expected power expression");
    }
}

#[test]
fn test_complex_precedence() {
    let ast = parse("2 + 3 * 4 ** 2 - 1").unwrap();

    if let Statement::Expression(Expression::BinaryOp(sub_op)) = &ast.statements[0] {
        assert_eq!(sub_op.operator, "-");
        if let Expression::BinaryOp(add_op) = &*sub_op.left {
            assert_eq!(add_op.operator, "+");
            if let Expression::BinaryOp(mul_op) = &*add_op.right {
                assert_eq!(mul_op.operator, "*");
                if let Expression::BinaryOp(power_op) = &*mul_op.right {
                    assert_eq!(power_op.operator, "**");
                } else {
                    panic!("Expected power operation");
                }
            } else {
                panic!("Expected multiplication");
            }
        } else {
            panic!("Expected addition");
        }
    } else {
        panic!("Expected subtraction expression");
    }
}

#[test]
fn test_logical_operators_precedence() {
    let ast = parse("true || false && true").unwrap();

    if let Statement::Expression(Expression::BinaryOp(or_op)) = &ast.statements[0] {
        assert_eq!(or_op.operator, "||");
        if let Expression::BinaryOp(and_op) = &*or_op.right {
            assert_eq!(and_op.operator, "&&");
        } else {
            panic!("Expected AND operation on right side");
        }
    } else {
        panic!("Expected OR expression");
    }
}

#[test]
fn parser_test_comparison_operators() {
    let ast = parse("1 < 2 && 3 > 2").unwrap();

    if let Statement::Expression(Expression::BinaryOp(and_op)) = &ast.statements[0] {
        assert_eq!(and_op.operator, "&&");
        if let Expression::BinaryOp(left_cmp) = &*and_op.left {
            assert_eq!(left_cmp.operator, "<");
        } else {
            panic!("Expected less-than comparison");
        }
        if let Expression::BinaryOp(right_cmp) = &*and_op.right {
            assert_eq!(right_cmp.operator, ">");
        } else {
            panic!("Expected greater-than comparison");
        }
    } else {
        panic!("Expected AND expression");
    }
}

#[test]
fn snapshot_simple_assignment() {
    assert_eq!(shown("let x := 42"), vec!["x := 42"]);
}

#[test]
fn snapshot_function_declaration() {
    let source = r#"
        func fibonacci[n: number] : number |
            if[n < 2] |
                return[n]
            ^
            return[fibonacci[n - 1] + fibonacci[n - 2]]
        ^
    "#;
    assert_eq!(
        shown(source),
        vec![
            "func fibonacci[n: number] : number | if (n < 2) | return n ^; return (fibonacci<(n - 1)> + fibonacci<(n - 2)>) ^"
        ]
    );
}

#[test]
fn snapshot_complex_expression() {
    assert_eq!(
        shown("let result := (a + b) ** 2 + c * d / e"),
        vec!["result := (((a + b) ** 2) + ((c * d) / e))"]
    );
}

#[test]
fn snapshot_operator_precedence() {
    assert_eq!(shown("2 + 3 * 4 ** 2 - 1"), vec!["((2 + (3 * (4 ** 2))) - 1)"]);
}

#[test]
fn snapshot_power_right_associativity() {
    assert_eq!(shown("2 ** 3 ** 2"), vec!["(2 ** (3 ** 2))"]);
}

#[test]
fn snapshot_logical_operators() {
    assert_eq!(shown("true || false && true"), vec!["(true || (false && true))"]);
}

#[test]
fn snapshot_if_else_chain() {
    let source = r#"
        if[x < 0] |
            print["negative"]
        ^ else if[x == 0] |
            print["zero"]
        ^ else |
            print["positive"]
        ^
    "#;
    assert_eq!(
        shown(source),
        vec![
            "if (x < 0) | print<\"negative\"> ^ else | if (x == 0) | print<\"zero\"> ^ else | print<\"positive\"> ^ ^"
        ]
    );
}

#[test]
fn snapshot_for_loop_with_range() {
    let source = r#"
        for i in 0..10 |
            print[i]
        ^
    "#;
    assert_eq!(shown(source), vec!["for i in (0 .. 10) | print<i> ^"]);
}

#[test]
fn snapshot_array_creation() {
    assert_eq!(shown("let arr := [1, 2, 3, 4, 5]"), vec!["arr := [1, 2, 3, 4, 5]"]);
}

#[test]
fn snapshot_dictionary_creation() {
    assert_eq!(
        shown(r#"let person := {"name": "Alice", "age": 30}"#),
        vec![r#"person := {"name": "Alice", "age": 30}"#]
    );
}

#[test]
fn snapshot_nested_function_calls() {
    assert_eq!(
        shown("let result := add[multiply[2, 3], divide[10, 2]]"),
        vec!["result := add<[multiply<[2, 3]>, divide<[10, 2]>]>"]
    );
}

#[test]
fn snapshot_while_loop() {
    let source = r#"
        let i := 0
        while[i < 10] |
            print[i]
            let i := i + 1
        ^
    "#;
    assert_eq!(
        shown(source),
        vec!["i := 0", "while (i < 10) | print<i>; i := (i + 1) ^"]
    );
}

#[test]
fn snapshot_array_indexing() {
    assert_eq!(shown("let x := arr[0] + arr[1]"), vec!["x := (arr<0> + arr<1>)"]);
}

#[test]
fn snapshot_comparison_chain() {
    assert_eq!(
        shown("let result := a < b && b <= c && c > d"),
        vec!["result := (((a < b) && (b <= c)) && (c > d))"]
    );
}

#[test]
fn snapshot_unary_operators() {
    assert_eq!(shown("let x := -5 + !true"), vec!["x := ((-5) + (!true))"]);
}

#[test]
fn snapshot_constant_declaration() {
    assert_eq!(shown("let PI :: 3.14159"), vec!["PI :: 3.14159"]);
}

#[test]
fn snapshot_multi_param_function() {
    let source = r#"
        func calculate[a: number, b: number, c: number] : number |
            return[a + b * c]
        ^
    "#;
    assert_eq!(
        shown(source),
        vec!["func calculate[a: number, b: number, c: number] : number | return (a + (b * c)) ^"]
    );
}

#[test]
fn snapshot_empty_array() {
    assert_eq!(shown("let empty := []"), vec!["empty := []"]);
}

#[test]
fn snapshot_string_literals() {
    assert_eq!(
        shown(r#"let greeting := "Hello, World!""#),
        vec![r#"greeting := "Hello, World!""#]
    );
}

#[test]
fn every_binary_operator_has_its_place() {
    assert_eq!(
        shown("a || b && c == d < e .. f + g * h ** i"),
        vec!["(a || (b && (c == (d < (e .. (f + (g * (h ** i))))))))"]
    );
    assert_eq!(
        shown("a ** b * c + d .. e < f == g && h || i"),
        vec!["((((((((a ** b) * c) + d) .. e) < f) == g) && h) || i)"]
    );
    assert_eq!(shown("a - b - c"), vec!["((a - b) - c)"]);
    assert_eq!(shown("a / b % c * d"), vec!["(((a / b) % c) * d)"]);
    assert_eq!(shown("a != b >= c"), vec!["(a != (b >= c))"]);
    assert_eq!(shown("a ** b ** c ** d"), vec!["(a ** (b ** (c ** d)))"]);
}

#[test]
fn prefix_operators_bind_tighter_than_binary_ones() {
    assert_eq!(shown("-a ** 2"), vec!["((-a) ** 2)"]);
    assert_eq!(shown("!!a"), vec!["(!(!a))"]);
    assert_eq!(shown("+a - -b"), vec!["((+a) - (-b))"]);
}

#[test]
fn argument_lists_bind_to_the_atom_before_them() {
    assert_eq!(shown("f[]"), vec!["f<null>"]);
    assert_eq!(shown("f[1]"), vec!["f<1>"]);
    assert_eq!(shown("f[1, 2]"), vec!["f<[1, 2]>"]);
    assert_eq!(shown("f[[1, 2]]"), vec!["f<[1, 2]>"]);
    assert_eq!(shown("m[1][2]"), vec!["m<1><2>"]);
    assert_eq!(shown("-a[0]"), vec!["(-a<0>)"]);
    assert_eq!(shown("!f[x]"), vec!["(!f<x>)"]);
    assert_eq!(shown("(a + b)[0]"), vec!["(a + b)<0>"]);
    assert_eq!(shown("[1, 2][0]"), vec!["[1, 2]<0>"]);
    assert_eq!(shown("{\"a\": 1}[\"a\"]"), vec!["{\"a\": 1}<\"a\">"]);
}

#[test]
fn literals_parse_to_their_kind() {
    let ast = parse("42 \"hi\" true false null 1.5e3").unwrap();
    let kinds: Vec<(String, String)> = ast
        .statements
        .iter()
        .map(|s| match s {
            Statement::Expression(Expression::Literal(l)) => {
                (format!("{:?}", l.value), l.literal_type.clone())
            }
            other => panic!("expected a literal, got {:?}", other),
        })
        .collect();
    assert_eq!(
        kinds,
        vec![
            ("Number(\"42\")".to_string(), "number".to_string()),
            ("String(\"hi\")".to_string(), "string".to_string()),
            ("Boolean(true)".to_string(), "boolean".to_string()),
            ("Boolean(false)".to_string(), "boolean".to_string()),
            ("Null".to_string(), "null".to_string()),
            ("Number(\"1.5e3\")".to_string(), "number".to_string()),
        ]
    );
}

#[test]
fn string_literals_lose_all_outer_quotes() {
    let info = |text: &str| TokenInfo::new(Token::String(text.to_string()), 1, 1, 1, text.to_string());
    let value = |text: &str| {
        let mut parser = Parser::new(vec![info(text)]);
        match parser.parse().unwrap().statements.remove(0) {
            Statement::Expression(Expression::Literal(l)) => match l.value {
                LiteralValue::String(s) => s,
                other => panic!("expected a string, got {:?}", other),
            },
            other => panic!("expected a literal, got {:?}", other),
        }
    };
    assert_eq!(value("\"abc\""), "abc");
    assert_eq!(value("\"\""), "");
    assert_eq!(value("\"\"\"a\"b\"\""), "a\"b");
    assert_eq!(value("\"a\\\"\""), "a\\");
    assert_eq!(value("plain"), "plain");
    assert_eq!(value("\""), "");
}

#[test]
fn statements_of_every_kind() {
    assert_eq!(shown("let x: number := 1"), vec!["x := 1"]);
    assert_eq!(shown("let x :: 1"), vec!["x :: 1"]);
    assert_eq!(shown("x := 1"), vec!["x := 1"]);
    assert_eq!(shown("a[0] := 1"), vec!["a<0> := 1"]);
    assert_eq!(shown("a[0][1] := 1"), vec!["a<0><1> := 1"]);
    assert_eq!(shown("d[\"k\"] := v + 1"), vec!["d<\"k\"> := (v + 1)"]);
    assert_eq!(unexpected("(x) := 1"), ("expression".to_string(), "Assign".to_string(), 1, 5));
    assert_eq!(shown("x"), vec!["x"]);
    assert_eq!(shown("x + 1"), vec!["(x + 1)"]);
    assert_eq!(shown("func f[] | ^"), vec!["func f[] |  ^"]);
    assert_eq!(shown("func f[a: t, b] | return; ^"), vec!["func f[a: t, b] | return ^"]);
    assert_eq!(shown("func f[] | return[] ^"), vec!["func f[] | return ^"]);
    assert_eq!(shown("func f[] | return 1 + 2 ^"), vec!["func f[] | return (1 + 2) ^"]);
    assert_eq!(shown("for i | x ^"), vec!["for i | x ^"]);
    assert_eq!(shown("for i [] | x ^"), vec!["for i | x ^"]);
    assert_eq!(shown("for i in xs | x ^"), vec!["for i in xs | x ^"]);
    assert_eq!(shown("while [true] | ^"), vec!["while true |  ^"]);
    assert_eq!(shown("if [a] | b ^ else | c ^"), vec!["if a | b ^ else | c ^"]);
}

#[test]
fn else_if_chains_of_any_length_nest_to_the_right() {
    let source = "if [a] | 1 ^ else if [b] | 2 ^ else if [c] | 3 ^ else if [d] | 4 ^ else | 5 ^";
    assert_eq!(
        shown(source),
        vec![
            "if a | 1 ^ else | if b | 2 ^ else | if c | 3 ^ else | if d | 4 ^ else | 5 ^ ^ ^ ^"
        ]
    );
}

#[test]
fn newlines_separate_statements_and_are_skipped_in_blocks() {
    assert_eq!(shown("\n\nlet a := 1\n\nlet b := 2\n"), vec!["a := 1", "b := 2"]);
    assert_eq!(
        shown("func f[] |\n\n  let a := 1\n\n  return[a]\n\n^\n"),
        vec!["func f[] | a := 1; return a ^"]
    );
    assert_eq!(shown("a\n[1]"), vec!["a", "[1]"]);
    assert_eq!(shown("// only a comment"), Vec::<String>::new());
}

#[test]
fn a_block_left_open_ends_with_the_tokens() {
    assert_eq!(shown("func f[] | let x := 1"), vec!["func f[] | x := 1 ^"]);
    assert_eq!(shown("while [a] | b\n"), vec!["while a | b ^"]);
}

#[test]
fn an_error_token_ends_the_program() {
    let tokens = vec![
        TokenInfo::new(Token::Identifier("a".to_string()), 1, 1, 1, "a".to_string()),
        TokenInfo::new(Token::Newline, 1, 2, 1, "\n".to_string()),
        TokenInfo::new(Token::Error, 2, 1, 1, "$".to_string()),
        TokenInfo::new(Token::Identifier("b".to_string()), 2, 2, 1, "b".to_string()),
    ];
    let mut parser = Parser::new(tokens);
    let program = parser.parse().unwrap();
    assert_eq!(program.statements.len(), 1);
}

#[test]
fn a_caret_that_closes_nothing_is_refused() {
    assert_eq!(unexpected("^"), ("statement".to_string(), "Caret".to_string(), 1, 1));
    assert_eq!(unexpected("let a := 1\n^"), ("statement".to_string(), "Caret".to_string(), 2, 1));
}

#[test]
fn unexpected_tokens_are_named_with_their_place() {
    assert_eq!(unexpected("let 5 := 1"), ("identifier".to_string(), "Number(\"5\")".to_string(), 1, 5));
    assert_eq!(unexpected("let x + 1"), ("assignment operator".to_string(), "Plus".to_string(), 1, 7));
    assert_eq!(unexpected("let x: 5 := 1"), ("type name".to_string(), "Number(\"5\")".to_string(), 1, 8));
    assert_eq!(unexpected("func 5[] | ^"), ("function name".to_string(), "Number(\"5\")".to_string(), 1, 6));
    assert_eq!(unexpected("func f | ^"), ("LeftBracket".to_string(), "Pipe".to_string(), 1, 8));
    assert_eq!(unexpected("func f[1] | ^"), ("parameter name".to_string(), "Number(\"1\")".to_string(), 1, 8));
    assert_eq!(unexpected("func f[a b] | ^"), ("RightBracket".to_string(), "Identifier(\"b\")".to_string(), 1, 10));
    assert_eq!(unexpected("func f[] : 1 | ^"), ("return type".to_string(), "Number(\"1\")".to_string(), 1, 12));
    assert_eq!(unexpected("func f[] x"), ("Pipe".to_string(), "Identifier(\"x\")".to_string(), 1, 10));
    assert_eq!(unexpected("if a | ^"), ("LeftBracket".to_string(), "Identifier(\"a\")".to_string(), 1, 4));
    assert_eq!(unexpected("if [a | ^"), ("RightBracket".to_string(), "Pipe".to_string(), 1, 7));
    assert_eq!(unexpected("while [a] b"), ("Pipe".to_string(), "Identifier(\"b\")".to_string(), 1, 11));
    assert_eq!(unexpected("for 1 | ^"), ("variable name".to_string(), "Number(\"1\")".to_string(), 1, 5));
    assert_eq!(unexpected("for i [ x ] | ^"), ("RightBracket".to_string(), "Identifier(\"x\")".to_string(), 1, 9));
    assert_eq!(unexpected("return [1 2]"), ("RightBracket".to_string(), "Number(\"2\")".to_string(), 1, 11));
    assert_eq!(unexpected("x := )"), ("expression".to_string(), "RightParen".to_string(), 1, 6));
    assert_eq!(unexpected("(1 + 2]"), ("RightParen".to_string(), "RightBracket".to_string(), 1, 7));
    assert_eq!(unexpected("[1 2]"), ("comma or closing bracket".to_string(), "Number(\"2\")".to_string(), 1, 4));
    assert_eq!(unexpected("f[1 2]"), ("comma or closing bracket".to_string(), "Number(\"2\")".to_string(), 1, 5));
    assert_eq!(unexpected("{1 2}"), ("Colon".to_string(), "Number(\"2\")".to_string(), 1, 4));
    assert_eq!(unexpected("{1: 2 3}"), ("RightBrace".to_string(), "Number(\"3\")".to_string(), 1, 7));
    assert_eq!(unexpected("x := \"a\\\"b\" \"c\" )"), ("expression".to_string(), "RightParen".to_string(), 1, 17));
    assert_eq!(unexpected("a + 1 := 2"), ("array or dictionary index".to_string(), "BinaryOp".to_string(), 0, 0));
    assert_eq!(unexpected("[1, 2"), ("comma or closing bracket".to_string(), "Error".to_string(), 0, 0));
}

#[test]
fn running_out_of_tokens_is_its_own_error() {
    for source in ["let", "let x", "let x :=", "1 +", "(1", "func", "func f", "func f[", "func f[a",
        "func f[a,", "func f[]", "if", "if [", "if [a", "if [a]", "while [a]", "for", "for i", "for i in",
        "return [", "return[1", "{", "{1", "{1:", "{1: 2", "-", "f[", "x := "]
    {
        assert!(
            matches!(syntax_error(source), ParseError::UnexpectedEof),
            "source {:?} gave {:?}",
            source,
            parse(source)
        );
    }
}

#[test]
fn a_number_token_must_hold_a_number() {
    let tokens = vec![TokenInfo::new(Token::Number("12x".to_string()), 3, 4, 3, "12x".to_string())];
    let mut parser = Parser::new(tokens);
    match parser.parse().unwrap_err() {
        ParseFailure::Syntax(ParseError::InvalidSyntax { line, column, message }) => {
            assert_eq!((line, column), (3, 4));
            assert_eq!(message, "Invalid number: 12x");
        }
        other => panic!("expected invalid syntax, got {:?}", other),
    }
    for text in ["", "e5", ".5", "5.", "1e", "+1", "1e+", "inf", "NaN"] {
        let tokens = vec![TokenInfo::new(Token::Number(text.to_string()), 1, 1, 1, text.to_string())];
        assert!(Parser::new(tokens).parse().is_err(), "{:?} was taken as a number", text);
    }
    for text in ["0", "007", "1.5", "1e5", "1E+5", "1.25e-10"] {
        let tokens = vec![TokenInfo::new(Token::Number(text.to_string()), 1, 1, 1, text.to_string())];
        assert!(Parser::new(tokens).parse().is_ok(), "{:?} was not taken as a number", text);
    }
}

#[test]
fn parser_helpers_follow_the_token_tables() {
    assert_eq!(Parser::binding_power(&Token::Or), Some((1, 2)));
    assert_eq!(Parser::binding_power(&Token::And), Some((3, 4)));
    assert_eq!(Parser::binding_power(&Token::Equals), Some((5, 6)));
    assert_eq!(Parser::binding_power(&Token::NotEquals), Some((5, 6)));
    assert_eq!(Parser::binding_power(&Token::LessThan), Some((7, 8)));
    assert_eq!(Parser::binding_power(&Token::GreaterEqual), Some((7, 8)));
    assert_eq!(Parser::binding_power(&Token::Range), Some((9, 10)));
    assert_eq!(Parser::binding_power(&Token::Plus), Some((11, 12)));
    assert_eq!(Parser::binding_power(&Token::Modulo), Some((13, 14)));
    assert_eq!(Parser::binding_power(&Token::Power), Some((16, 15)));
    assert_eq!(Parser::binding_power(&Token::Not), None);
    assert_eq!(Parser::binding_power(&Token::DotProduct), None);
    assert_eq!(Parser::token_to_operator(&Token::Power), Some("**".to_string()));
    assert_eq!(Parser::token_to_operator(&Token::Range), Some("..".to_string()));
    assert_eq!(Parser::token_to_operator(&Token::Assign), None);

    let mut lexer = Lexer::new("let x");
    let mut parser = Parser::new(lexer.tokenize().unwrap());
    assert!(!parser.is_at_end());
    assert_eq!(parser.current_token().unwrap().token, Token::Let);
    assert!(!parser.match_token(Token::Func));
    assert!(parser.match_token(Token::Let));
    assert!(parser.expect(Token::Let).is_err());
    assert_eq!(
        parser.expect(Token::Identifier("x".to_string())).unwrap().token,
        Token::Identifier("x".to_string())
    );
    assert!(parser.is_at_end());
    assert!(parser.current_token().is_none());
    parser.advance();
    assert!(parser.is_at_end());
    assert!(parser.expect(Token::Let).is_err());
}

#[test]
fn test_recursion_limit_enforcement() {
    let security = SecurityContext::strict();

    let mut source = String::new();
    for _ in 0..200 {
        source.push_str("(");
    }
    source.push_str("42");
    for _ in 0..200 {
        source.push_str(")");
    }

    let mut lexer = Lexer::with_security(&source, security);
    let tokens = lexer.tokenize().unwrap();
    let mut parser = Parser::with_security(tokens, SecurityContext::strict());

    assert!(parser.parse().is_err());
}

#[test]
fn test_function_parameter_limit() {
    let mut source = String::from("func test[");
    for i in 0..50 {
        if i > 0 {
            source.push_str(", ");
        }
        source.push_str(&format!("param{}", i));
    }
    source.push_str("] | return[42] ^");

    let mut lexer = Lexer::new(&source);
    let tokens = lexer.tokenize().unwrap();
    let mut parser = Parser::with_security(tokens, SecurityContext::strict());

    assert!(parser.parse().is_err());
}

#[test]
fn test_array_size_limit() {
    let mut source = String::from("[");
    for i in 0..2000 {
        if i > 0 {
            source.push_str(", ");
        }
        source.push_str(&format!("{}", i));
    }
    source.push(']');

    let mut lexer = Lexer::new(&source);
    let tokens = lexer.tokenize().unwrap();
    let mut parser = Parser::with_security(tokens, SecurityContext::strict());

    assert!(parser.parse().is_err());
}

#[test]
fn test_dictionary_size_limit() {
    let mut source = String::from("{");
    for i in 0..2000 {
        if i > 0 {
            source.push_str(", ");
        }
        source.push_str(&format!("\"key{}\": {}", i, i));
    }
    source.push('}');

    let mut lexer = Lexer::new(&source);
    let tokens = lexer.tokenize().unwrap();
    let mut parser = Parser::with_security(tokens, SecurityContext::strict());

    assert!(parser.parse().is_err());
}

#[test]
fn test_normal_operations_with_security() {
    let source = r#"
        func add[a, b] |
            return[a + b]
        ^
        
        let result := add[10, 20]
        print[result]
    "#;

    let security = SecurityContext::new();
    let mut lexer = Lexer::with_security(source, security);
    let tokens = lexer.tokenize().unwrap();
    let mut parser = Parser::with_security(tokens, SecurityContext::new());
    let ast = parser.parse().unwrap();

    assert!(ast.statements.len() >= 2);
}

fn limit_message(source: &str) -> String {
    let mut lexer = Lexer::new(source);
    let tokens = lexer.tokenize().unwrap();
    let mut parser = Parser::with_security(tokens, SecurityContext::strict());
    match parser.parse().unwrap_err() {
        ParseFailure::Limit(e) => match e.error {
            CompilerError::SecurityError { message } => message,
            other => panic!("expected a security error, got {:?}", other),
        },
        ParseFailure::Syntax(e) => panic!("expected a limit, got {:?}", e),
    }
}

#[test]
fn limits_are_inclusive_and_named() {
    let nested = |depth: usize| format!("{}1{}", "(".repeat(depth), ")".repeat(depth));
    let mut lexer = Lexer::new(&nested(100));
    assert!(Parser::with_security(lexer.tokenize().unwrap(), SecurityContext::strict()).parse().is_ok());
    assert_eq!(limit_message(&nested(101)), "Recursion depth (101) exceeds maximum allowed depth (100)");
    // Parentheses that are closed again do not add up.
    let flat = vec!["(1)"; 150].join(" + ");
    let mut lexer = Lexer::new(&flat);
    assert!(Parser::with_security(lexer.tokenize().unwrap(), SecurityContext::strict()).parse().is_ok());

    let array = |n: usize| format!("[{}]", vec!["0"; n].join(", "));
    let mut lexer = Lexer::new(&array(1000));
    assert!(Parser::with_security(lexer.tokenize().unwrap(), SecurityContext::strict()).parse().is_ok());
    assert_eq!(limit_message(&array(1001)), "Collection size (1001) exceeds maximum allowed size (1000)");
    let arguments = format!("f{}", array(1500));
    let mut lexer = Lexer::new(&arguments);
    assert!(Parser::with_security(lexer.tokenize().unwrap(), SecurityContext::strict()).parse().is_ok());

    let dictionary = |n: usize| format!("{{{}}}", vec!["1: 2"; n].join(", "));
    let mut lexer = Lexer::new(&dictionary(1000));
    assert!(Parser::with_security(lexer.tokenize().unwrap(), SecurityContext::strict()).parse().is_ok());
    assert_eq!(limit_message(&dictionary(1001)), "Collection size (1001) exceeds maximum allowed size (1000)");

    let function = |n: usize| format!("func f[{}] | ^", vec!["p"; n].join(", "));
    let mut lexer = Lexer::new(&function(32));
    assert!(Parser::with_security(lexer.tokenize().unwrap(), SecurityContext::strict()).parse().is_ok());
    assert_eq!(limit_message(&function(33)), "Function parameter count (33) exceeds maximum allowed count (32)");
}

#[test]
fn test_error_invalid_syntax() {
    // `=` alone is no token: the source does not even lex.
    let mut lexer = Lexer::new("let x = 42");
    assert!(lexer.tokenize().is_err());
    assert!(parse("let x 42").is_err());
}
