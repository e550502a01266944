//! The whole pipeline: lexer, parser and interpreter, driven by a host that
//! prints into a buffer and does the arithmetic on numbers.

use cortex_rust::ast::{
    BinaryOp, Expression, Identifier, Literal, LiteralValue, Program, Statement, UnaryOp,
};
use cortex_rust::interpreter::Interpreter;
use cortex_rust::lexer::Lexer;
use cortex_rust::parser::Parser;
use cortex_rust::protocol::{
    Action, ArithmeticOp, CompareOp, MathOp, Reply, Request, RuntimeError,
};
use cortex_rust::value::{Number, Value};

fn float(n: Number) -> f64 {
    f64::from_bits(n.to_bits())
}

fn number(x: f64) -> Number {
    Number::from_bits(x.to_bits())
}

fn answer(request: Request, output: &mut Vec<String>) -> Reply {
    match request {
        Request::Print(line) => {
            output.push(line);
            Reply::Done
        }
        Request::ParseNumber(text) => Reply::Number(number(text.parse::<f64>().unwrap())),
        Request::FormatNumber(n) => Reply::Text(format!("{}", float(n))),
        Request::Arithmetic(op, a, b) => {
            let (a, b) = (float(a), float(b));
            Reply::Number(number(match op {
                ArithmeticOp::Add => a + b,
                ArithmeticOp::Subtract => a - b,
                ArithmeticOp::Multiply => a * b,
                ArithmeticOp::Divide => a / b,
                ArithmeticOp::Remainder => a % b,
                ArithmeticOp::Power => a.powf(b),
            }))
        }
        Request::Math(op, a) => {
            let a = float(a);
            Reply::Number(number(match op {
                MathOp::Abs => a.abs(),
                MathOp::Sqrt => a.sqrt(),
                MathOp::Floor => a.floor(),
                MathOp::Ceil => a.ceil(),
                MathOp::Round => a.round(),
            }))
        }
        Request::Compare(op, a, b) => {
            let (a, b) = (float(a), float(b));
            Reply::Flag(match op {
                CompareOp::Less => a < b,
                CompareOp::LessEqual => a <= b,
                CompareOp::Greater => a > b,
                CompareOp::GreaterEqual => a >= b,
                CompareOp::Near => (a - b).abs() < f64::EPSILON,
            })
        }
        Request::Truncate(a) => Reply::Index(float(a) as usize),
        Request::FromIndex(i) => Reply::Number(number(i as f64)),
    }
}

fn show(value: &Value) -> String {
    match value {
        Value::Number(n) => format!("{}", float(*n)),
        Value::String(s) => format!("{:?}", s),
        Value::Boolean(b) => format!("{}", b),
        Value::Null => "null".to_string(),
        Value::Array(items) => {
            format!("[{}]", items.iter().map(show).collect::<Vec<_>>().join(", "))
        }
        Value::Dictionary(entries) => format!(
            "{{{}}}",
            entries.iter().map(|(k, v)| format!("{}: {}", k, show(v))).collect::<Vec<_>>().join(", ")
        ),
    }
}

struct Run {
    output: Vec<String>,
    variables: Vec<(String, String)>,
    error: Option<RuntimeError>,
    steps: usize,
}

impl Run {
    fn get(&self, name: &str) -> Option<&str> {
        self.variables.iter().find(|(n, _)| n == name).map(|(_, v)| v.as_str())
    }
}

/// Runs a program to its end, or for `limit` steps.
fn run_for(source: &str, limit: usize) -> Result<Run, String> {
    let mut lexer = Lexer::new(source);
    let tokens = lexer.tokenize().map_err(|_| "Lexer error".to_string())?;
    let mut parser = Parser::new(tokens);
    let ast = parser.parse().map_err(|e| format!("Parse error: {:?}", e))?;
    let mut interpreter = Interpreter::new();
    let mut output = Vec::new();
    let mut steps = 1;
    let mut action = interpreter.interpret(&ast);
    let error = loop {
        let reply = match action {
            Action::Finished => break None,
            Action::Failed(error) => break Some(error),
            Action::Continue => Reply::Done,
            Action::Request(request) => answer(request, &mut output),
        };
        if steps >= limit {
            return Err("step limit".to_string());
        }
        steps += 1;
        action = interpreter.step(reply);
    };
    let variables = interpreter.variables().iter().map(|(n, v)| (n.clone(), show(v))).collect();
    Ok(Run { output, variables, error, steps })
}

fn run(source: &str) -> Run {
    run_for(source, 1_000_000).unwrap()
}

/// Helper function to run a Cortex program.
fn run_cortex_code(source: &str) -> Result<(), String> {
    let done = run_for(source, 1_000_000)?;
    match done.error {
        Some(error) => Err(format!("Runtime error: {}", error.to_display_string())),
        None => Ok(()),
    }
}

fn value_of(source: &str, name: &str) -> String {
    let done = run(source);
    assert!(done.error.is_none(), "{:?} failed: {:?}", source, done.error);
    done.get(name).unwrap_or_else(|| panic!("{} is not bound after {:?}", name, source)).to_string()
}

fn result_of(expression: &str) -> String {
    value_of(&format!("let result := {}", expression), "result")
}

fn error_of(source: &str) -> RuntimeError {
    run(source).error.unwrap_or_else(|| panic!("{:?} did not fail", source))
}

#[test]
fn codegen_test_simple_interpretation() {
    assert!(run_cortex_code("let x := 42").is_ok());
    assert_eq!(value_of("let x := 42", "x"), "42");
}

#[test]
fn test_simple_variable_assignment() {
    let source = r#"
        let x := 42
        let y := 10
        let z := x + y
    "#;

    assert!(run_cortex_code(source).is_ok());
    assert_eq!(value_of(source, "z"), "52");
}

#[test]
fn test_arithmetic_operations() {
    let source = r#"
        let a := 10
        let b := 3
        let sum := a + b
        let diff := a - b
        let prod := a * b
        let quot := a / b
        let rem := a % b
        let pow := a ** 2
    "#;

    assert!(run_cortex_code(source).is_ok());
    let done = run(source);
    assert_eq!(done.get("sum"), Some("13"));
    assert_eq!(done.get("diff"), Some("7"));
    assert_eq!(done.get("prod"), Some("30"));
    assert_eq!(done.get("quot"), Some(format!("{}", 10.0f64 / 3.0).as_str()));
    assert_eq!(done.get("rem"), Some("1"));
    assert_eq!(done.get("pow"), Some("100"));
}

#[test]
fn test_function_definition_and_call() {
    let source = r#"
        func add[a, b] |
            return[a + b]
        ^
        
        func main[] |
            let result := add[10, 20]
            print[result]
        ^
        
        main[]
    "#;

    assert!(run_cortex_code(source).is_ok());
    assert_eq!(run(source).output, vec!["30"]);
}

#[test]
fn test_if_statement() {
    let source = r#"
        let x := 10
        if [x > 5] |
            let y := x * 2
        ^
    "#;

    assert!(run_cortex_code(source).is_ok());
    assert_eq!(value_of(source, "y"), "20");
}

#[test]
fn test_if_else_statement() {
    let source = r#"
        let x := 3
        if [x > 5] |
            let y := 1
        ^ else |
            let y := 2
        ^
    "#;

    assert!(run_cortex_code(source).is_ok());
    assert_eq!(value_of(source, "y"), "2");
}

#[test]
fn test_while_loop() {
    let source = r#"
        let counter := 0
        while [counter < 5] |
            let counter := counter + 1
        ^
    "#;

    assert!(run_cortex_code(source).is_ok());
    assert_eq!(value_of(source, "counter"), "5");
}

#[test]
fn test_for_loop_with_range() {
    let source = r#"
        for i in 0..5 |
            print[i]
        ^
    "#;

    assert!(run_cortex_code(source).is_ok());
    assert_eq!(run(source).output, vec!["0", "1", "2", "3", "4"]);
}

#[test]
fn test_array_creation_and_access() {
    let source = r#"
        let arr := [1, 2, 3, 4, 5]
        let first := arr[0]
        let last := arr[4]
    "#;

    assert!(run_cortex_code(source).is_ok());
    let done = run(source);
    assert_eq!(done.get("first"), Some("1"));
    assert_eq!(done.get("last"), Some("5"));
}

#[test]
fn test_dictionary_creation_and_access() {
    let source = r#"
        let person := {"name": "Alice", "age": "30"}
        let name := person["name"]
    "#;

    assert!(run_cortex_code(source).is_ok());
    assert_eq!(value_of(source, "name"), "\"Alice\"");
}

#[test]
fn test_builtin_functions() {
    let source = r#"
        print["Hello, World!"]
        let s := str[42]
        let l := len[[1, 2, 3]]
    "#;

    assert!(run_cortex_code(source).is_ok());
    let done = run(source);
    assert_eq!(done.output, vec!["Hello, World!"]);
    assert_eq!(done.get("s"), Some("\"42\""));
    assert_eq!(done.get("l"), Some("3"));
}

#[test]
fn test_string_concatenation() {
    let source = r#"
        let greeting := "Hello"
        let name := "World"
        let message := greeting + " " + name
    "#;

    assert!(run_cortex_code(source).is_ok());
    assert_eq!(value_of(source, "message"), "\"Hello World\"");
}

#[test]
fn integration_tests_test_comparison_operators() {
    let source = r#"
        let a := 10
        let b := 5
        let gt := a > b
        let lt := a < b
        let eq := a == b
        let neq := a != b
        let gte := a >= b
        let lte := a <= b
    "#;

    assert!(run_cortex_code(source).is_ok());
    let done = run(source);
    assert_eq!(done.get("gt"), Some("true"));
    assert_eq!(done.get("lt"), Some("false"));
    assert_eq!(done.get("eq"), Some("false"));
    assert_eq!(done.get("neq"), Some("true"));
    assert_eq!(done.get("gte"), Some("true"));
    assert_eq!(done.get("lte"), Some("false"));
}

#[test]
fn test_logical_operators() {
    let source = r#"
        let a := true
        let b := false
        let and_result := a && b
        let or_result := a || b
        let not_result := !a
    "#;

    assert!(run_cortex_code(source).is_ok());
    let done = run(source);
    assert_eq!(done.get("and_result"), Some("false"));
    assert_eq!(done.get("or_result"), Some("true"));
    assert_eq!(done.get("not_result"), Some("false"));
}

#[test]
fn test_nested_function_calls() {
    let source = r#"
        func double[x] |
            return[x * 2]
        ^
        
        func quadruple[x] |
            return[double[double[x]]]
        ^
        
        let result := quadruple[5]
    "#;

    assert!(run_cortex_code(source).is_ok());
    assert_eq!(value_of(source, "result"), "20");
}

#[test]
fn test_factorial_function() {
    let source = r#"
        func factorial[n] |
            if [n <= 1] |
                return[1]
            ^ else |
                return[n * factorial[n - 1]]
            ^
        ^
        
        let result := factorial[5]
    "#;

    assert!(run_cortex_code(source).is_ok());
    assert_eq!(value_of(source, "result"), "120");
}

#[test]
fn test_fibonacci_function() {
    let source = r#"
        func fibonacci[n] |
            if [n <= 1] |
                return[n]
            ^ else |
                return[fibonacci[n - 1] + fibonacci[n - 2]]
            ^
        ^
        
        let result := fibonacci[10]
    "#;

    assert!(run_cortex_code(source).is_ok());
    assert_eq!(value_of(source, "result"), "55");
}

#[test]
fn test_array_iteration() {
    let source = r#"
        let numbers := [1, 2, 3, 4, 5]
        for num in numbers |
            print[num]
        ^
    "#;

    assert!(run_cortex_code(source).is_ok());
    assert_eq!(run(source).output, vec!["1", "2", "3", "4", "5"]);
}

#[test]
fn test_math_functions() {
    let source = r#"
        let x := 16
        let root := sqrt[x]
        let abs_val := abs[-5]
        let minimum := min[3, 7]
        let maximum := max[3, 7]
    "#;

    assert!(run_cortex_code(source).is_ok());
    let done = run(source);
    assert_eq!(done.get("root"), Some("4"));
    assert_eq!(done.get("abs_val"), Some("5"));
    assert_eq!(done.get("minimum"), Some("3"));
    assert_eq!(done.get("maximum"), Some("7"));
}

#[test]
fn test_string_functions() {
    let source = r#"
        let text := "hello world"
        let upper := upper[text]
        let lower := lower[text]
        let length := len[text]
    "#;

    assert!(run_cortex_code(source).is_ok());
    let done = run(source);
    assert_eq!(done.get("upper"), Some("\"HELLO WORLD\""));
    assert_eq!(done.get("lower"), Some("\"hello world\""));
    assert_eq!(done.get("length"), Some("11"));
}

#[test]
fn test_array_functions() {
    let source = r#"
        let arr := [1, 2, 3]
        let length := len[arr]
    "#;

    assert!(run_cortex_code(source).is_ok());
    assert_eq!(value_of(source, "length"), "3");
}

#[test]
fn integration_tests_test_comments() {
    let source = r#"
        // This is a single-line comment
        let x := 42
        
        /* This is a
           multi-line comment */
        let y := 10
    "#;

    assert!(run_cortex_code(source).is_ok());
    assert_eq!(value_of(source, "y"), "10");
}

#[test]
fn test_error_undefined_variable() {
    let source = "let x := y";
    assert!(run_cortex_code(source).is_err());
    assert!(matches!(error_of(source), RuntimeError::UndefinedVariable { name } if name == "y"));
}

#[test]
fn test_error_undefined_function() {
    let source = "let x := undefined_func[42]";
    assert!(run_cortex_code(source).is_err());
    assert!(
        matches!(error_of(source), RuntimeError::UndefinedVariable { name } if name == "undefined_func")
    );
}

#[test]
fn test_error_type_mismatch() {
    let source = r#"let x := "hello" * 5"#;
    assert!(run_cortex_code(source).is_err());
    assert!(matches!(error_of(source), RuntimeError::TypeMismatch { .. }));
}

#[test]
fn test_error_function_arity_mismatch() {
    let source = r#"
        func add[a, b] |
            return[a + b]
        ^
        
        let result := add[1, 2, 3]
    "#;

    assert!(run_cortex_code(source).is_err());
    match error_of(source) {
        RuntimeError::ArityMismatch { function, expected, found } => {
            assert_eq!((function.as_str(), expected, found), ("add", 2, 3));
        }
        other => panic!("expected an arity mismatch, got {:?}", other),
    }
}

#[test]
fn test_complex_program() {
    let source = r#"
        func is_prime[n] |
            if [n <= 1] |
                return[false]
            ^
            if [n <= 3] |
                return[true]
            ^
            if [n % 2 == 0] |
                return[false]
            ^
            return[true]
        ^
        
        func main[] |
            let result := is_prime[7]
            print[result]
        ^
        
        main[]
    "#;

    assert!(run_cortex_code(source).is_ok());
    assert_eq!(run(source).output, vec!["true"]);
}

#[test]
fn test_prime_numbers_generator() {
    let source = r#"
        func is_prime[n] |
            if [n <= 1] |
                return[false]
            ^
            if [n <= 3] |
                return[true]
            ^
            if [n % 2 == 0] |
                return[false]
            ^
            
            let i := 3
            while [i * i <= n] |
                if [n % i == 0] |
                    return[false]
                ^
                let i := i + 2
            ^
            
            return[true]
        ^
        
        func main[] |
            let count := 0
            let n := 2
            
            while [count < 10] |
                if [is_prime[n]] |
                    print[n]
                    let count := count + 1
                ^
                let n := n + 1
            ^
        ^
        
        main[]
    "#;

    assert!(run_cortex_code(source).is_ok());
    assert_eq!(run(source).output, vec!["2", "3", "5", "7", "11", "13", "17", "19", "23", "29"]);
}

#[test]
fn multiplication_binds_tighter_than_addition() {
    assert_eq!(result_of("1 + 2 * 3"), "7");
    assert_eq!(result_of("(1 + 2) * 3"), "9");
    assert_eq!(result_of("2 + 3 * 4 ** 2 - 1"), "49");
}

#[test]
fn power_groups_to_the_right() {
    assert_eq!(result_of("2 ** 3 ** 2"), "512");
    assert_eq!(result_of("(2 ** 3) ** 2"), "64");
}

#[test]
fn division_and_remainder_by_zero_give_null() {
    assert_eq!(result_of("10 / 0"), "null");
    assert_eq!(result_of("10 % 0"), "null");
    assert_eq!(result_of("0 / 0"), "null");
    assert_eq!(result_of("10 / -0"), "null");
    assert_eq!(result_of("10 / (1 - 1)"), "null");
    assert_eq!(result_of("10 / 4"), "2.5");
    assert_eq!(result_of("10 % 4"), "2");
}

#[test]
fn reading_outside_an_array_gives_null_and_writing_fails() {
    assert_eq!(value_of("let arr := [1, 2, 3]\nlet x := arr[10]", "x"), "null");
    assert_eq!(value_of("let arr := [1, 2, 3]\nlet x := arr[3]", "x"), "null");
    assert_eq!(value_of("let arr := [1, 2, 3]\nlet x := arr[-1]", "x"), "null");
    assert_eq!(value_of("let arr := [1, 2, 3]\nlet x := arr[2]", "x"), "3");
    assert_eq!(value_of("let arr := [1, 2, 3]\nlet x := arr[1.9]", "x"), "2");
    match error_of("let arr := [1, 2, 3]\narr[10] := 5") {
        RuntimeError::IndexOutOfBounds { index, length } => assert_eq!((index, length), (10, 3)),
        other => panic!("expected an index out of bounds, got {:?}", other),
    }
    assert!(matches!(
        error_of("let arr := [1, 2, 3]\narr[3] := 5"),
        RuntimeError::IndexOutOfBounds { index: 3, length: 3 }
    ));
    assert!(matches!(
        error_of("let arr := [1, 2, 3]\narr[-1] := 5"),
        RuntimeError::IndexOutOfBounds { .. }
    ));
    assert_eq!(value_of("let arr := [1, 2, 3]\narr[1] := 5", "arr"), "[1, 5, 3]");
}

#[test]
fn a_call_takes_exactly_as_many_arguments_as_parameters() {
    let define = "func add[a, b] | return[a + b] ^\n";
    assert_eq!(value_of(&format!("{}let r := add[1, 2]", define), "r"), "3");
    for (call, found) in [("add[]", 0), ("add[1]", 1), ("add[1, 2, 3]", 3)] {
        match error_of(&format!("{}let r := {}", define, call)) {
            RuntimeError::ArityMismatch { function, expected, found: got } => {
                assert_eq!((function.as_str(), expected, got), ("add", 2, found));
            }
            other => panic!("expected an arity mismatch, got {:?}", other),
        }
    }
    assert_eq!(value_of("func zero[] | return[7] ^\nlet r := zero[]", "r"), "7");
    assert_eq!(
        error_of("func add[a, b] | return[a + b] ^\nadd[1]").to_display_string(),
        "Function add expects 2 arguments, got 1"
    );
}

#[test]
fn arguments_are_spread_only_when_written_as_a_list() {
    let define = "func first[xs] | return[xs[0]] ^\nfunc pair[a, b] | return[a + b] ^\n";
    assert_eq!(value_of(&format!("{}let list := [4, 5]\nlet r := first[list]", define), "r"), "4");
    assert_eq!(value_of(&format!("{}let r := pair[4, 5]", define), "r"), "9");
    assert!(matches!(
        error_of(&format!("{}let list := [4, 5]\nlet r := pair[list]", define)),
        RuntimeError::ArityMismatch { expected: 2, found: 1, .. }
    ));
    assert!(matches!(
        error_of(&format!("{}let r := first[[4, 5]]", define)),
        RuntimeError::ArityMismatch { expected: 1, found: 2, .. }
    ));
    assert!(matches!(
        error_of(&format!("{}let r := first[null]", define)),
        RuntimeError::ArityMismatch { expected: 1, found: 0, .. }
    ));
}

#[test]
fn a_call_leaves_the_variables_of_the_caller_as_they_were() {
    let source = r#"
        func work[n] |
            let local := n * 2
            let x := 99
            return[local]
        ^
        let x := 1
        let r := work[5]
    "#;
    let done = run(source);
    assert_eq!(done.get("x"), Some("1"));
    assert_eq!(done.get("r"), Some("10"));
    assert_eq!(done.get("local"), None);
    assert_eq!(done.get("n"), None);
    assert_eq!(done.variables.len(), 2);
}

#[test]
fn a_function_sees_the_variables_of_its_caller() {
    let source = r#"
        func show[] |
            return[x + 1]
        ^
        func outer[] |
            let x := 10
            return[show[]]
        ^
        let x := 1
        let a := show[]
        let b := outer[]
    "#;
    let done = run(source);
    assert_eq!(done.get("a"), Some("2"));
    assert_eq!(done.get("b"), Some("11"));
    assert_eq!(done.get("x"), Some("1"));
}

#[test]
fn parameters_shadow_and_arrays_are_copied() {
    let source = r#"
        func change[a] |
            a[0] := 100
            return[a]
        ^
        let a := [1, 2]
        let b := a
        b[1] := 7
        let c := change[a]
    "#;
    let done = run(source);
    assert_eq!(done.get("a"), Some("[1, 2]"));
    assert_eq!(done.get("b"), Some("[1, 7]"));
    assert_eq!(done.get("c"), Some("[100, 2]"));
}

#[test]
fn literals_evaluate_to_their_kind() {
    let done = run("let n := 42\nlet f := 2.5e1\nlet s := \"text\"\nlet t := true\nlet u := false\nlet z := null");
    assert_eq!(done.get("n"), Some("42"));
    assert_eq!(done.get("f"), Some("25"));
    assert_eq!(done.get("s"), Some("\"text\""));
    assert_eq!(done.get("t"), Some("true"));
    assert_eq!(done.get("u"), Some("false"));
    assert_eq!(done.get("z"), Some("null"));
}

#[test]
fn str_gives_the_text_of_every_kind() {
    assert_eq!(result_of("str[42]"), "\"42\"");
    assert_eq!(result_of("str[2.5]"), "\"2.5\"");
    assert_eq!(result_of("str[\"text\"]"), "\"text\"");
    assert_eq!(result_of("str[true]"), "\"true\"");
    assert_eq!(result_of("str[false]"), "\"false\"");
    assert_eq!(result_of("str[null]"), "\"null\"");
    assert_eq!(result_of("str[[1, \"a\", [true, null]]]"), "\"[1, a, [true, null]]\"");
    assert_eq!(result_of("str[[]]"), "\"[]\"");
    assert_eq!(result_of("str[{\"a\": 1, \"b\": [2]}]"), "\"{\\\"a\\\": 1, \\\"b\\\": [2]}\"");
    assert_eq!(result_of("str[{}]"), "\"{}\"");
    assert_eq!(result_of("str[\"text\"] == \"text\""), "true");
    assert_eq!(result_of("str[true] == true"), "false");
}

#[test]
fn undefined_names_always_fail() {
    assert!(matches!(error_of("let x := y"), RuntimeError::UndefinedVariable { name } if name == "y"));
    assert!(matches!(error_of("y"), RuntimeError::UndefinedVariable { .. }));
    assert!(matches!(error_of("y + 1"), RuntimeError::UndefinedVariable { .. }));
    assert!(matches!(error_of("f[]"), RuntimeError::UndefinedVariable { name } if name == "f"));
    assert!(matches!(error_of("f[1, 2]"), RuntimeError::UndefinedVariable { .. }));
    assert!(matches!(error_of("y[0] := 1"), RuntimeError::UndefinedVariable { .. }));
    assert!(matches!(error_of("if [y] | ^"), RuntimeError::UndefinedVariable { .. }));
    assert_eq!(error_of("let x := y").to_display_string(), "Undefined variable: y");
    let done = run("let a := 1\nlet x := y\nlet b := 2");
    assert_eq!(done.get("a"), Some("1"));
    assert_eq!(done.get("b"), None);
}

#[test]
fn dictionaries_are_read_by_key() {
    assert_eq!(result_of("{\"name\": \"Alice\"}[\"name\"]"), "\"Alice\"");
    assert_eq!(value_of("let d := {\"a\": 1, \"b\": 2}\nlet x := d[\"b\"]", "x"), "2");
    match error_of("let d := {\"a\": 1}\nlet x := d[\"missing\"]") {
        RuntimeError::KeyNotFound { key } => assert_eq!(key, "missing"),
        other => panic!("expected a missing key, got {:?}", other),
    }
    assert_eq!(
        error_of("let d := {\"a\": 1}\nlet x := d[\"zz\"]").to_display_string(),
        "Key 'zz' not found in dictionary"
    );
    assert_eq!(value_of("let d := {1: \"one\", 2.5: \"x\"}\nlet x := d[1]", "x"), "\"one\"");
    assert_eq!(value_of("let d := {1: \"one\", 2.5: \"x\"}\nlet x := d[\"2.5\"]", "x"), "\"x\"");
    assert_eq!(
        result_of("{true: 1, null: 2, [1]: 3, {}: 4}"),
        "{true: 1, null: 2, array: 3, dict: 4}"
    );
    assert_eq!(result_of("{\"a\": 1, \"a\": 2}"), "{a: 2}");
    assert!(matches!(error_of("let d := {\"a\": 1}\nd[true]"), RuntimeError::TypeMismatch { .. }));
}

#[test]
fn dictionaries_take_new_keys() {
    assert_eq!(
        value_of("let d := {\"a\": 1}\nd[\"b\"] := 2\nd[\"a\"] := 3", "d"),
        "{a: 3, b: 2}"
    );
    assert!(matches!(error_of("let d := {\"a\": 1}\nd[1] := 2"), RuntimeError::TypeMismatch { .. }));
    assert!(matches!(error_of("let n := 5\nn[0] := 2"), RuntimeError::TypeMismatch { .. }));
    // A container that is not read from a variable is changed and dropped.
    assert_eq!(value_of("let m := [[1], [2]]\nm[0][0] := 9", "m"), "[[1], [2]]");
}

#[test]
fn truthiness_of_every_kind() {
    for (expression, expected) in [
        ("0", "true"), ("1", "false"), ("-0", "true"), ("0.0", "true"), ("\"\"", "true"),
        ("\"a\"", "false"), ("true", "false"), ("false", "true"), ("null", "true"),
        ("[]", "true"), ("[0]", "false"), ("{}", "true"), ("{\"a\": 1}", "false"),
    ] {
        assert_eq!(result_of(&format!("!{}", expression)), expected, "!{}", expression);
    }
}

#[test]
fn logical_operators_evaluate_both_sides() {
    assert!(matches!(error_of("let r := false && missing"), RuntimeError::UndefinedVariable { .. }));
    assert!(matches!(error_of("let r := true || missing"), RuntimeError::UndefinedVariable { .. }));
    assert_eq!(result_of("1 && \"a\""), "true");
    assert_eq!(result_of("0 || \"\""), "false");
    assert_eq!(result_of("0 || [1]"), "true");
}

#[test]
fn equality_never_fails() {
    assert_eq!(result_of("1 == 1"), "true");
    assert_eq!(result_of("0.1 + 0.2 == 0.3"), "true");
    assert_eq!(result_of("1 == 1.1"), "false");
    assert_eq!(result_of("1 != 2"), "true");
    assert_eq!(result_of("\"a\" == \"a\""), "true");
    assert_eq!(result_of("\"a\" == \"b\""), "false");
    assert_eq!(result_of("\"a\" != \"b\""), "true");
    assert_eq!(result_of("true == true"), "true");
    assert_eq!(result_of("true == false"), "false");
    assert_eq!(result_of("null == null"), "true");
    assert_eq!(result_of("null != null"), "false");
    assert_eq!(result_of("1 == \"1\""), "false");
    assert_eq!(result_of("1 != \"1\""), "true");
    assert_eq!(result_of("null == false"), "false");
    assert_eq!(result_of("[1] == [1]"), "false");
    assert_eq!(result_of("[1] != [1]"), "true");
    assert_eq!(result_of("{} == {}"), "false");
}

#[test]
fn arithmetic_and_comparison_need_numbers() {
    for source in ["1 - \"a\"", "\"a\" * 2", "null / 1", "true % 2", "[1] ** 2", "1 < \"a\"",
        "\"a\" <= \"b\"", "null > 1", "true >= false", "-\"a\"", "+null", "1 + null",
        "true + \"a\"", "[1] + [2]", "1 .. \"a\"", "null .. 3"]
    {
        assert!(
            matches!(error_of(&format!("let r := {}", source)), RuntimeError::TypeMismatch { .. }),
            "{}",
            source
        );
    }
    assert_eq!(error_of("let r := -\"a\"").to_display_string(), "Cannot negate non-number value");
    assert_eq!(result_of("-5"), "-5");
    assert_eq!(result_of("- -5"), "5");
    assert_eq!(result_of("+5"), "5");
    assert_eq!(result_of("-0 == 0"), "true");
    assert_eq!(result_of("2 < 3"), "true");
    assert_eq!(result_of("3 <= 3"), "true");
    assert_eq!(result_of("2 > 3"), "false");
    assert_eq!(result_of("3 >= 4"), "false");
}

#[test]
fn plus_joins_texts_and_numbers() {
    assert_eq!(result_of("\"a\" + \"b\""), "\"ab\"");
    assert_eq!(result_of("\"n = \" + 4"), "\"n = 4\"");
    assert_eq!(result_of("4 + \" items\""), "\"4 items\"");
    assert_eq!(result_of("1.5 + \"\""), "\"1.5\"");
    assert_eq!(result_of("\"a\" + 1 + 2"), "\"a12\"");
    assert_eq!(result_of("1 + 2 + \"a\""), "\"3a\"");
}

#[test]
fn ranges_hold_the_numbers_from_start_below_end() {
    assert_eq!(result_of("0..5"), "[0, 1, 2, 3, 4]");
    assert_eq!(result_of("2..4"), "[2, 3]");
    assert_eq!(result_of("3..3"), "[]");
    assert_eq!(result_of("5..1"), "[]");
    assert_eq!(result_of("0.5..3"), "[0.5, 1.5, 2.5]");
    assert_eq!(result_of("1..2 + 2"), "[1, 2, 3]");
}

#[test]
fn the_at_operator_is_never_lexed_into_an_expression() {
    // `@` is a token without a place in the grammar.
    assert!(run_for("let r := [1, 2] @ 1", 1000).is_err());
}

#[test]
fn for_loops_of_every_kind() {
    let done = run("for x in [10, 20] | print[x_index + \":\" + x] ^");
    assert_eq!(done.output, vec!["0:10", "1:20"]);
    assert_eq!(done.get("x"), Some("20"));
    assert_eq!(done.get("x_index"), Some("1"));

    let done = run("for i in 3 | print[i] ^");
    assert_eq!(done.output, vec!["0", "1", "2"]);
    assert_eq!(run("for i in 2.9 | print[i] ^").output, vec!["0", "1"]);
    assert_eq!(run("for i in 0 | print[i] ^").output, Vec::<String>::new());
    assert_eq!(run("for i in -3 | print[i] ^").output, Vec::<String>::new());

    let done = run("for k in {\"a\": 1, \"b\": 2} | print[k + \"=\" + k_value] ^");
    assert_eq!(done.output, vec!["a=1", "b=2"]);

    let done = run("for i | print[i] ^");
    assert_eq!(done.output, vec!["0", "1", "2", "3", "4", "5", "6", "7", "8", "9"]);
    assert_eq!(run("for i [] | print[i] ^").output.len(), 10);

    for source in ["for x in \"text\" | ^", "for x in true | ^", "for x in null | ^"] {
        assert!(matches!(error_of(source), RuntimeError::TypeMismatch { .. }), "{}", source);
    }
    assert_eq!(
        error_of("for x in null | ^").to_display_string(),
        "Cannot iterate over non-array, number, or dictionary value"
    );
    assert_eq!(run("for x in [] | print[x] ^").output, Vec::<String>::new());
}

#[test]
fn return_leaves_loops_and_blocks() {
    let source = r#"
        func find[xs, wanted] |
            for x in xs |
                if [x == wanted] |
                    return[x_index]
                ^
            ^
            return[-1]
        ^
        func count[] |
            let i := 0
            while [true] |
                let i := i + 1
                if [i >= 3] |
                    return[i]
                ^
            ^
        ^
        let a := find[[5, 6, 7], 6]
        let b := find[[5, 6, 7], 9]
        let c := count[]
    "#;
    let done = run(source);
    assert!(done.error.is_none());
    assert_eq!(done.get("a"), Some("1"));
    assert_eq!(done.get("b"), Some("-1"));
    assert_eq!(done.get("c"), Some("3"));
}

#[test]
fn the_value_of_a_body_without_return() {
    assert_eq!(value_of("func f[] | 1 + 2 ^\nlet r := f[]", "r"), "3");
    assert_eq!(value_of("func f[] | let a := 1 ^\nlet r := f[]", "r"), "null");
    assert_eq!(value_of("func f[] | ^\nlet r := f[]", "r"), "null");
    assert_eq!(value_of("func f[] | 1\n2 ^\nlet r := f[]", "r"), "2");
    assert_eq!(value_of("func f[] | if [true] | 5 ^ ^\nlet r := f[]", "r"), "null");
    assert_eq!(value_of("func f[] | return; ^\nlet r := f[]", "r"), "null");
    assert_eq!(value_of("func f[] | return[]\n7 ^\nlet r := f[]", "r"), "null");
}

#[test]
fn return_outside_a_function_ends_the_statement() {
    let done = run("let a := 1\nif [true] | return[5]\nlet a := 2 ^\nlet b := 3");
    assert!(done.error.is_none());
    assert_eq!(done.get("a"), Some("1"));
    assert_eq!(done.get("b"), Some("3"));
    let done = run("return[1]\nlet b := 3");
    assert_eq!(done.get("b"), Some("3"));
}

#[test]
fn functions_are_global_and_the_last_definition_wins() {
    let source = r#"
        func outer[] |
            func inner[] | return[1] ^
            return[inner[]]
        ^
        let a := outer[]
        let b := inner[]
        func inner[] | return[2] ^
        let c := inner[]
        let d := outer[]
        let e := inner[]
    "#;
    let done = run(source);
    assert!(done.error.is_none());
    assert_eq!(done.get("a"), Some("1"));
    assert_eq!(done.get("b"), Some("1"));
    assert_eq!(done.get("c"), Some("2"));
    assert_eq!(done.get("d"), Some("1"));
    assert_eq!(done.get("e"), Some("1"));
}

#[test]
fn a_variable_hides_a_function_but_not_a_builtin() {
    assert_eq!(value_of("func f[x] | return[x] ^\nlet f := [7, 8]\nlet r := f[1]", "r"), "8");
    assert_eq!(value_of("let len := [7, 8]\nlet r := len[[1, 2, 3]]", "r"), "3");
    assert_eq!(value_of("func len[x] | return[0] ^\nlet r := len[\"abc\"]", "r"), "3");
}

#[test]
fn print_joins_its_arguments_with_spaces() {
    assert_eq!(run("print[1, \"a\", true, null]").output, vec!["1 a true null"]);
    assert_eq!(run("print[[1, 2], 3]").output, vec!["[1, 2] 3"]);
    assert_eq!(run("let xs := [1, 2]\nprint[xs]").output, vec!["[1, 2]"]);
    assert_eq!(run("print[]").output, vec!["null"]);
    assert_eq!(run("print[\"\"]").output, vec![""]);
    assert_eq!(run("print[{\"k\": \"v\"}]").output, vec!["{\"k\": v}"]);
    assert_eq!(value_of("let r := print[1]", "r"), "null");
    assert_eq!(run("print[1.50, 1e3, 0.1 + 0.2]").output, vec!["1.5 1000 0.30000000000000004"]);
}

#[test]
fn len_counts_elements_entries_and_characters() {
    assert_eq!(result_of("len[[]]"), "0");
    assert_eq!(result_of("len[[1, [2, 3]]]"), "2");
    assert_eq!(result_of("len[{\"a\": 1}]"), "1");
    assert_eq!(result_of("len[\"\"]"), "0");
    assert_eq!(value_of("let s := \"h\u{e9}llo\"\nlet r := len[s]", "r"), "5");
    for source in ["len[]", "len[1]", "len[true]"] {
        assert!(matches!(error_of(source), RuntimeError::TypeMismatch { .. }), "{}", source);
    }
    assert_eq!(
        error_of("len[]").to_display_string(),
        "len() requires an argument - provide an array, dictionary, or string"
    );
    assert_eq!(error_of("len[1]").to_display_string(), "len() expects array, dictionary, or string");
}

#[test]
fn push_and_pop_leave_their_argument_alone() {
    let done = run("let a := [1, 2]\nlet b := push[a, 3]\nlet c := pop[a]\nlet d := pop[[]]");
    assert_eq!(done.get("a"), Some("[1, 2]"));
    assert_eq!(done.get("b"), Some("[1, 2, 3]"));
    assert_eq!(done.get("c"), Some("2"));
    assert_eq!(done.get("d"), Some("null"));
    assert_eq!(result_of("push[[], [1]]"), "[[1]]");
    for source in ["push[1]", "push[[1], 2, 3]", "push[1, 2]", "pop[1]", "pop[\"a\"]", "pop[]"] {
        assert!(matches!(error_of(source), RuntimeError::TypeMismatch { .. }), "{}", source);
    }
    assert_eq!(
        error_of("push[[1], 2, 3]").to_display_string(),
        "push() expects exactly 2 arguments: array and value"
    );
    assert_eq!(error_of("push[1, 2]").to_display_string(), "push() first argument must be an array");
    assert_eq!(error_of("push[1]").to_display_string(), "push() expects array arguments");
    assert_eq!(error_of("pop[1]").to_display_string(), "pop() expects an array");
}

#[test]
fn keys_and_values_follow_the_order_of_insertion() {
    let source = "let d := {\"b\": 1, \"a\": [2]}\nd[\"c\"] := 3\nlet k := keys[d]\nlet v := values[d]";
    let done = run(source);
    assert_eq!(done.get("k"), Some("[\"b\", \"a\", \"c\"]"));
    assert_eq!(done.get("v"), Some("[1, [2], 3]"));
    assert_eq!(result_of("keys[{}]"), "[]");
    for source in ["keys[[1]]", "values[1]", "keys[]"] {
        assert!(matches!(error_of(source), RuntimeError::TypeMismatch { .. }), "{}", source);
    }
    assert_eq!(error_of("keys[1]").to_display_string(), "keys() expects a dictionary");
    assert_eq!(error_of("values[1]").to_display_string(), "values() expects a dictionary");
}

#[test]
fn math_functions_take_one_number() {
    assert_eq!(result_of("abs[-2.5]"), "2.5");
    assert_eq!(result_of("abs[3]"), "3");
    assert_eq!(result_of("sqrt[2.25]"), "1.5");
    assert_eq!(result_of("sqrt[0]"), "0");
    assert_eq!(result_of("sqrt[-4]"), "null");
    assert_eq!(result_of("sqrt[-0]"), "-0");
    assert_eq!(result_of("floor[2.7]"), "2");
    assert_eq!(result_of("floor[-2.1]"), "-3");
    assert_eq!(result_of("ceil[2.1]"), "3");
    assert_eq!(result_of("ceil[-2.7]"), "-2");
    assert_eq!(result_of("round[2.5]"), "3");
    assert_eq!(result_of("round[-2.5]"), "-3");
    assert_eq!(result_of("round[2.4]"), "2");
    for name in ["abs", "sqrt", "floor", "ceil", "round"] {
        let error = error_of(&format!("{}[\"a\"]", name));
        assert_eq!(error.to_display_string(), format!("{}() expects a number", name));
        assert!(matches!(error_of(&format!("{}[1, 2]", name)), RuntimeError::TypeMismatch { .. }));
    }
}

#[test]
fn min_and_max_search_a_list_of_numbers() {
    assert_eq!(result_of("min[3, 7]"), "3");
    assert_eq!(result_of("max[3, 7]"), "7");
    assert_eq!(result_of("min[5, -1, 4, -1, 9]"), "-1");
    assert_eq!(result_of("max[5, -1, 4, 9, 2]"), "9");
    assert_eq!(value_of("let xs := [4]\nlet r := min[xs]", "r"), "4");
    assert_eq!(value_of("let xs := [4, 8]\nlet r := max[xs]", "r"), "8");
    assert_eq!(error_of("min[4]").to_display_string(), "min() expects array of numbers");
    assert_eq!(error_of("max[\"a\"]").to_display_string(), "max() expects array of numbers");
    assert_eq!(
        error_of("let xs := []\nmin[xs]").to_display_string(),
        "min() expects at least one argument"
    );
    assert_eq!(
        error_of("let xs := []\nmax[xs]").to_display_string(),
        "max() expects at least one argument"
    );
    assert_eq!(
        error_of("min[1, \"a\"]").to_display_string(),
        "min() expects all arguments to be numbers"
    );
    assert_eq!(
        error_of("max[null, 1]").to_display_string(),
        "max() expects all arguments to be numbers"
    );
}

#[test]
fn substring_is_clipped_to_the_text() {
    assert_eq!(result_of("substring[\"hello world\", 6, 5]"), "\"world\"");
    assert_eq!(result_of("substring[\"hello\", 0, 2]"), "\"he\"");
    assert_eq!(result_of("substring[\"hello\", 3, 100]"), "\"lo\"");
    assert_eq!(result_of("substring[\"hello\", 5, 1]"), "\"\"");
    assert_eq!(result_of("substring[\"hello\", 9, 1]"), "\"\"");
    assert_eq!(result_of("substring[\"hello\", 1, 0]"), "\"\"");
    assert_eq!(result_of("substring[\"hello\", -3, 2]"), "\"he\"");
    assert_eq!(result_of("substring[\"hello\", 1.9, 2.9]"), "\"el\"");
    assert_eq!(
        value_of("let s := \"h\u{e9}llo\"\nlet r := substring[s, 1, 2]", "r"),
        "\"\u{e9}l\""
    );
    assert_eq!(
        error_of("substring[\"a\", 1]").to_display_string(),
        "substring() expects exactly 3 arguments: string, start, length"
    );
    assert_eq!(
        error_of("substring[1, 2, 3]").to_display_string(),
        "substring() expects string, number, number arguments"
    );
    assert_eq!(
        error_of("substring[\"a\"]").to_display_string(),
        "substring() expects array of arguments"
    );
}

#[test]
fn upper_lower_and_split_work_on_strings() {
    assert_eq!(result_of("upper[\"Stra\u{df}e 1\"]"), "\"STRASSE 1\"");
    assert_eq!(result_of("lower[\"\u{c4}B c\"]"), "\"\u{e4}b c\"");
    assert_eq!(result_of("split[\"a,b,,c\", \",\"]"), "[\"a\", \"b\", \"\", \"c\"]");
    assert_eq!(result_of("split[\"abc\", \"x\"]"), "[\"abc\"]");
    assert_eq!(result_of("split[\"a--b\", \"--\"]"), "[\"a\", \"b\"]");
    assert_eq!(result_of("split[\"\", \",\"]"), "[\"\"]");
    assert_eq!(error_of("upper[1]").to_display_string(), "upper() expects a string");
    assert_eq!(error_of("lower[null]").to_display_string(), "lower() expects a string");
    assert_eq!(
        error_of("split[\"a\"]").to_display_string(),
        "split() expects array of arguments"
    );
    assert_eq!(
        error_of("split[\"a\", \"b\", \"c\"]").to_display_string(),
        "split() expects exactly 2 arguments: string, delimiter"
    );
    assert_eq!(
        error_of("split[\"a\", 1]").to_display_string(),
        "split() expects string, string arguments"
    );
}

#[test]
fn indexing_needs_a_container() {
    assert_eq!(
        error_of("let n := 5\nlet r := n[0]").to_display_string(),
        "Cannot access elements of non-container type"
    );
    assert_eq!(
        error_of("let a := [1]\nlet r := a[\"x\"]").to_display_string(),
        "Array index must be a number"
    );
    assert_eq!(
        error_of("let d := {}\nlet r := d[null]").to_display_string(),
        "Dictionary key must be a string or number"
    );
    assert_eq!(value_of("let m := [[1, 2], [3, 4]]\nlet r := m[1][0]", "r"), "3");
    assert_eq!(value_of("let r := [5, 6][1]", "r"), "6");
    assert_eq!(
        error_of("let a := [1]\na[0][0] := 2").to_display_string(),
        "Cannot assign to non-array or non-dictionary value"
    );
}

#[test]
fn constants_are_assigned_like_variables() {
    let done = run("let c :: 1\nlet c := 2\nc := 3");
    assert!(done.error.is_none());
    assert_eq!(done.get("c"), Some("3"));
}

#[test]
fn a_wrong_reply_ends_the_run() {
    let mut lexer = Lexer::new("let x := 1\nlet y := 2");
    let ast = Parser::new(lexer.tokenize().unwrap()).parse().unwrap();
    let mut interpreter = Interpreter::new();
    let mut action = interpreter.interpret(&ast);
    let mut failure = None;
    for _ in 0..100 {
        action = match action {
            Action::Continue => interpreter.step(Reply::Done),
            Action::Request(Request::ParseNumber(_)) => interpreter.step(Reply::Flag(true)),
            Action::Failed(error) => {
                failure = Some(error);
                break;
            }
            other => panic!("unexpected {:?}", other),
        };
    }
    match failure {
        Some(RuntimeError::Protocol { message }) => assert_eq!(message, "unexpected reply"),
        other => panic!("expected a protocol error, got {:?}", other),
    }
    assert!(interpreter.is_finished());
    assert!(matches!(interpreter.step(Reply::Done), Action::Finished));
    assert!(interpreter.variable("x").is_none());
}

#[test]
fn an_interpreter_keeps_its_state_between_programs() {
    let mut lexer = Lexer::new("func twice[n] | return[n * 2] ^\nlet a := 4");
    let first = Parser::new(lexer.tokenize().unwrap()).parse().unwrap();
    let mut lexer = Lexer::new("let b := twice[a]");
    let second = Parser::new(lexer.tokenize().unwrap()).parse().unwrap();
    let mut interpreter = Interpreter::new();
    let mut output = Vec::new();
    for program in [&first, &second] {
        let mut action = interpreter.interpret(program);
        loop {
            let reply = match action {
                Action::Finished => break,
                Action::Failed(error) => panic!("{:?}", error),
                Action::Continue => Reply::Done,
                Action::Request(request) => answer(request, &mut output),
            };
            action = interpreter.step(reply);
        }
    }
    assert!(interpreter.has_function("twice"));
    assert!(!interpreter.has_function("thrice"));
    assert_eq!(show(&interpreter.variable("b").unwrap()), "8");
    assert!(interpreter.variable("n").is_none());
}

#[test]
fn a_loop_that_never_ends_keeps_asking_for_steps() {
    assert_eq!(run_for("while [true] | ^", 10_000).err(), Some("step limit".to_string()));
    let done = run("let i := 0\nwhile [i < 100] | i := i + 1 ^");
    assert_eq!(done.get("i"), Some("100"));
    assert!(done.steps > 100);
}


fn run_tree(program: &Program) -> (Vec<String>, Option<RuntimeError>) {
    let mut interpreter = Interpreter::new();
    let mut output = Vec::new();
    let mut action = interpreter.interpret(program);
    loop {
        let reply = match action {
            Action::Finished => return (output, None),
            Action::Failed(error) => return (output, Some(error)),
            Action::Continue => Reply::Done,
            Action::Request(request) => answer(request, &mut output),
        };
        action = interpreter.step(reply);
    }
}

fn literal(text: &str) -> Expression {
    Expression::Literal(Literal::new(LiteralValue::Number(text.to_string()), "number".to_string()))
}

fn print_of(e: Expression) -> Program {
    let call = Expression::Index(cortex_rust::ast::IndexExpression::new(
        Expression::Identifier(Identifier::new("print".to_string())),
        e,
    ));
    Program::new(vec![Statement::Expression(call)])
}

#[test]
fn operators_that_no_source_text_gives() {
    let unknown = Expression::BinaryOp(BinaryOp::new(literal("1"), "^^".to_string(), literal("2")));
    match run_tree(&Program::new(vec![Statement::Expression(unknown)])).1 {
        Some(RuntimeError::UnsupportedOperator { operator }) => assert_eq!(operator, "^^"),
        other => panic!("expected an unsupported operator, got {:?}", other),
    }
    let unknown = Expression::UnaryOp(UnaryOp::new("~".to_string(), literal("1")));
    match run_tree(&Program::new(vec![Statement::Expression(unknown)])).1 {
        Some(RuntimeError::UnsupportedOperator { operator }) => assert_eq!(operator, "~"),
        other => panic!("expected an unsupported operator, got {:?}", other),
    }

    // `@` reads its left side at its right side, as an index does.
    let list = Expression::Array(cortex_rust::ast::Array::new(vec![literal("5"), literal("6")]));
    let at = Expression::BinaryOp(BinaryOp::new(list, "@".to_string(), literal("1")));
    let (output, error) = run_tree(&print_of(at));
    assert_eq!(output, vec!["6"]);
    assert!(error.is_none());
    let at = Expression::BinaryOp(BinaryOp::new(literal("5"), "@".to_string(), literal("1")));
    assert!(matches!(run_tree(&print_of(at)).1, Some(RuntimeError::TypeMismatch { .. })));
}
