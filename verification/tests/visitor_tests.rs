use cortex_rust::lexer::Lexer;
use cortex_rust::parser::Parser;
use cortex_rust::visitor::{AstPrinter, ConstantFolder, TypeChecker};

fn parse(source: &str) -> cortex_rust::ast::Program {
    let mut lexer = Lexer::new(source);
    let tokens = lexer.tokenize().unwrap();
    let mut parser = Parser::new(tokens);
    parser.parse().unwrap()
}

#[test]
fn test_type_checker() {
    let source = r#"
            func add[a: number, b: number] |
                return[a + b]
            ^
            
            let result := add[5, 10]
        "#;

    let ast = parse(source);

    let mut type_checker = TypeChecker::new();
    type_checker.visit_program(&ast).unwrap();

    let errors = type_checker.get_errors();
    println!("Type checker errors: {:?}", errors);

    assert!(errors.len() > 0);
    assert_eq!(errors, ["Undefined variable: add"]);
}

#[test]
fn test_constant_folder() {
    let source = "let x := 2 + 3 * 4";

    let ast = parse(source);

    let mut constant_folder = ConstantFolder::new();
    constant_folder.visit_program(&ast);

    assert!(constant_folder.was_optimized());
}

#[test]
fn test_ast_printer() {
    let source = "let x := 42";

    let ast = parse(source);

    let mut ast_printer = AstPrinter::new();
    ast_printer.visit_program(&ast).unwrap();

    let output = ast_printer.get_output();
    println!("AST Printer Output:\n{}", output);
    assert!(output.contains("Program:"));
    assert!(output.contains("Assignment:") || output.contains("Statement"));
    assert!(output.contains("Literal: 42"));
    assert_eq!(output, "Program:\n  Statement 0:\n    Assignment: x =\n      Literal: 42\n");
}

fn errors_of(source: &str) -> Vec<String> {
    let ast = parse(source);
    let mut checker = TypeChecker::new();
    checker.visit_program(&ast).unwrap();
    checker.get_errors().to_vec()
}

#[test]
fn only_annotated_parameters_are_declared() {
    assert_eq!(errors_of("let x := 1\nlet y := x"), vec!["Undefined variable: x"]);
    assert_eq!(
        errors_of("func f[a, b: number] | return[a + b] ^"),
        vec!["Function parameter 'a' must have type annotation", "Undefined variable: a"]
    );
    assert_eq!(errors_of("func f[a: number] | return[a * a] ^"), Vec::<String>::new());
    // A parameter stays declared after its function.
    assert_eq!(errors_of("func f[a: number] | ^\nlet b := a"), Vec::<String>::new());
    assert_eq!(errors_of("let b := a\nfunc f[a: number] | ^"), vec!["Undefined variable: a"]);
    assert_eq!(errors_of("let x := 1 + 2"), Vec::<String>::new());
    assert_eq!(
        errors_of("if [a] | b ^ else | c ^\nwhile [d] | e[f] := g ^\nfor i in h | return[j] ^"),
        ["a", "b", "c", "d", "e", "f", "g", "h", "j"]
            .iter()
            .map(|n| format!("Undefined variable: {}", n))
            .collect::<Vec<_>>()
    );
    assert_eq!(
        errors_of("let x :: [a, {b: c}, d[e], f..g, -h]"),
        ["a", "b", "c", "d", "e", "f", "g", "h"]
            .iter()
            .map(|n| format!("Undefined variable: {}", n))
            .collect::<Vec<_>>()
    );
}

fn folds(source: &str) -> bool {
    let ast = parse(source);
    let mut folder = ConstantFolder::new();
    assert!(!folder.was_optimized());
    folder.visit_program(&ast);
    folder.was_optimized()
}

#[test]
fn operations_on_literals_are_found_anywhere() {
    assert!(folds("1 + 2"));
    assert!(folds("-1"));
    assert!(folds("!true"));
    assert!(folds("let x := a + (2 * 3)"));
    assert!(folds("func f[] | if [a] | while [b] | for i in c | return[[d, {e: 1 + 1}]] ^ ^ ^ ^"));
    assert!(folds("a[1 + 1] := b"));
    assert!(folds("a[b] := -1"));
    assert!(folds("let x :: f[2 ** 3]"));
    assert!(folds("if [a] | b ^ else | \"x\" + \"y\" ^"));
    assert!(!folds("a + 2"));
    assert!(!folds("1 .. 2"));
    assert!(!folds("[1, 2, 3]"));
    assert!(!folds("let x := a"));
    assert!(!folds("f[1, 2]"));
    assert!(!folds("-a"));
    assert!(!folds(""));
    let mut folder = ConstantFolder::new();
    folder.visit_program(&parse("1 + 2"));
    folder.visit_program(&parse("a"));
    assert!(folder.was_optimized());
}

fn printed(source: &str) -> String {
    let ast = parse(source);
    let mut printer = AstPrinter::new();
    printer.visit_program(&ast).unwrap();
    printer.get_output().to_string()
}

#[test]
fn the_printer_shows_the_tree_line_by_line() {
    assert_eq!(printed(""), "Program:\n");
    assert_eq!(
        printed("let x := 1 + \"a\" * y"),
        "Program:\n\
         \x20 Statement 0:\n\
         \x20   Assignment: x =\n\
         \x20     BinaryOp: +\n\
         \x20       Left:\n\
         \x20         Literal: 1\n\
         \x20       Right:\n\
         \x20         BinaryOp: *\n\
         \x20           Left:\n\
         \x20             Literal: \"a\"\n\
         \x20           Right:\n\
         \x20             Identifier: y\n"
    );
    assert_eq!(
        printed("func f[a: number, b] | return[a]\ntrue ^\nnull"),
        "Program:\n\
         \x20 Statement 0:\n\
         \x20   Function: f\n\
         \x20     Parameters:\n\
         \x20       Variable: a: number\n\
         \x20       Variable: b\n\
         \x20     Body:\n\
         \x20       Block Statement 0:\n\
         \x20         Identifier: a\n\
         \x20       Block Statement 1:\n\
         \x20         Literal: true\n\
         \x20 Statement 1:\n\
         \x20   Literal: null\n"
    );
    assert_eq!(
        printed("if [a] | b ^ else | c ^"),
        "Program:\n\
         \x20 Statement 0:\n\
         \x20   Identifier: a\n\
         \x20   Block Statement 0:\n\
         \x20     Identifier: b\n\
         \x20   Block Statement 0:\n\
         \x20     Identifier: c\n"
    );
    assert_eq!(
        printed("let k :: [1.50, {a: -b}, c[d], e..f]"),
        "Program:\n\
         \x20 Statement 0:\n\
         \x20   Literal: 1.50\n\
         \x20   Identifier: a\n\
         \x20   Identifier: b\n\
         \x20   Identifier: c\n\
         \x20   Identifier: d\n\
         \x20   Identifier: e\n\
         \x20   Identifier: f\n"
    );
    let mut printer = AstPrinter::new();
    printer.visit_program(&parse("a")).unwrap();
    printer.visit_program(&parse("b")).unwrap();
    assert_eq!(
        printer.get_output(),
        "Program:\n  Statement 0:\n    Identifier: a\nProgram:\n  Statement 0:\n    Identifier: b\n"
    );
    let numbered = printed(&"x\n".repeat(12));
    assert!(numbered.contains("  Statement 11:\n    Identifier: x\n"));
}
