use cortex_rust::debugger::{parse_command, split_lines, DebugCommand, Debugger};
use cortex_rust::error::CompilerError;
use cortex_rust::format::format_document;
use cortex_rust::lexer::Lexer;
use cortex_rust::parser::Parser;
use cortex_rust::protocol::{Action, Reply, Request, RuntimeError};
use cortex_rust::value::{Number, Value};

#[test]
fn test_debugger_creation() {
    let source = "let x := 42\nprint[x]";
    let debugger = Debugger::new(source);
    assert_eq!(debugger.line_count(), 2);
}

#[test]
fn test_breakpoint_management() {
    let source = "let x := 42";
    let mut debugger = Debugger::new(source);

    debugger.add_breakpoint(1, None);
    assert_eq!(debugger.breakpoint_count(), 1);

    debugger.remove_breakpoint(1);
    assert_eq!(debugger.breakpoint_count(), 0);
}

#[test]
fn lines_end_with_a_line_feed_or_the_text() {
    assert_eq!(split_lines(""), Vec::<String>::new());
    assert_eq!(split_lines("a"), vec!["a"]);
    assert_eq!(split_lines("a\n"), vec!["a"]);
    assert_eq!(split_lines("a\nb"), vec!["a", "b"]);
    assert_eq!(split_lines("a\r\nb\r\n"), vec!["a", "b"]);
    assert_eq!(split_lines("\n\na\n\n"), vec!["", "", "a", ""]);
    assert_eq!(split_lines("a\r"), vec!["a\r"]);
    assert_eq!(split_lines("a\rb\n"), vec!["a\rb"]);
    assert_eq!(split_lines("\r\n"), vec![""]);
    assert_eq!(split_lines("a\r\r\nb"), vec!["a\r", "b"]);
    for text in ["", "a", "a\n", "a\r\nb", "\n\n", "x\ry\r\n\r\nz\r"] {
        assert_eq!(split_lines(text), text.lines().map(|l| l.to_string()).collect::<Vec<_>>());
    }
}

#[test]
fn breakpoints_are_listed_in_the_order_they_were_added() {
    let mut debugger = Debugger::new("a\nb\nc");
    assert_eq!(debugger.list_breakpoints(), vec!["Breakpoints:"]);
    debugger.add_breakpoint(3, None);
    debugger.add_breakpoint(1, Some("x > 1".to_string()));
    debugger.add_breakpoint(3, None);
    debugger.add_breakpoint(12, None);
    assert_eq!(
        debugger.list_breakpoints(),
        vec![
            "Breakpoints:",
            "  1: line 3 [enabled]",
            "  2: line 1 [enabled] (condition: x > 1)",
            "  3: line 3 [enabled]",
            "  4: line 12 [enabled]",
        ]
    );
    debugger.disable_breakpoint(3);
    debugger.disable_breakpoint(1);
    debugger.disable_breakpoint(7);
    assert_eq!(
        debugger.list_breakpoints(),
        vec![
            "Breakpoints:",
            "  1: line 3 [disabled]",
            "  2: line 1 [disabled] (condition: x > 1)",
            "  3: line 3 [enabled]",
            "  4: line 12 [enabled]",
        ]
    );
    debugger.enable_breakpoint(1);
    debugger.remove_breakpoint(3);
    debugger.remove_breakpoint(5);
    assert_eq!(
        debugger.list_breakpoints(),
        vec!["Breakpoints:", "  1: line 1 [enabled] (condition: x > 1)", "  2: line 12 [enabled]"]
    );
    assert_eq!(debugger.breakpoint_count(), 2);
}

#[test]
fn a_session_runs_the_interpreter_step_by_step() {
    let source = "let x := 2\nlet y := missing";
    let mut lexer = Lexer::new(source);
    let program = Parser::new(lexer.tokenize().unwrap()).parse().unwrap();
    let mut debugger = Debugger::new(source);
    assert_eq!(debugger.show_current_line(), None);
    assert_eq!(debugger.show_call_stack(), vec!["Call stack:"]);
    assert!(debugger.inspect_variable("x").is_none());

    let mut action = debugger.step_into(&program);
    let failure = loop {
        let reply = match action {
            Action::Continue => Reply::Done,
            Action::Request(Request::ParseNumber(text)) => {
                Reply::Number(Number::from_bits(text.parse::<f64>().unwrap().to_bits()))
            }
            Action::Failed(error) => break error,
            other => panic!("unexpected {:?}", other),
        };
        action = debugger.resume(reply);
    };
    assert!(matches!(&failure, RuntimeError::UndefinedVariable { name } if name == "missing"));
    match debugger.inspect_variable("x") {
        Some(Value::Number(n)) => assert_eq!(f64::from_bits(n.to_bits()), 2.0),
        other => panic!("expected a number, got {:?}", other),
    }
    assert_eq!(debugger.list_variables().len(), 1);
    debugger.pause_execution();

    let reported = debugger.report(&failure);
    match &reported.error {
        CompilerError::RuntimeError { message, line, column } => {
            assert_eq!(message, "Undefined variable: missing");
            assert_eq!((*line, *column), (0, 0));
        }
        other => panic!("expected a runtime error, got {:?}", other),
    }
    assert_eq!(reported.context.as_ref().unwrap().source_line, "");
    assert_eq!(
        reported.to_display_string(),
        "Runtime error: Undefined variable: missing at line 0:0\n"
    );

    let mut continued = Debugger::new(source);
    assert!(matches!(continued.continue_execution(&program), Action::Continue));
    let mut stepped = Debugger::new(source);
    assert!(matches!(stepped.step_over(&program), Action::Continue));
}

fn formatted(text: &str) -> String {
    let lines: Vec<String> = text.split('\n').map(|l| l.to_string()).collect();
    format_document(&lines)
}

#[test]
fn blocks_are_indented_by_their_depth() {
    assert_eq!(
        formatted("func f[] |\nif [a] |\nb\n^\n   c   \n^\nd"),
        "func f[] |\n  if [a] |\n    b\n  ^\n  c\n^\nd\n"
    );
    assert_eq!(formatted(""), "\n");
    assert_eq!(formatted("  \n\t\na"), "\n\na\n");
    assert_eq!(formatted("^\n^\na |\n^"), "^\n^\na |\n^\n");
    assert_eq!(formatted("a|\nb"), "a|\nb\n");
    assert_eq!(formatted("a ^\nb"), "a ^\nb\n");
    assert_eq!(formatted("|\nb"), "|\nb\n");
    assert_eq!(formatted("x |\r\ny\r\n^\r"), "x |\n  y\n^\n");
}

#[test]
fn commands_are_read_from_what_was_typed() {
    let shown = |input: &str| format!("{:?}", parse_command(input));
    for (input, expected) in [
        ("step", "Step"), ("s", "Step"), ("  step \n", "Step"), ("continue", "Continue"),
        ("c", "Continue"), ("list", "List"), ("l", "List"), ("vars", "Variables"),
        ("v", "Variables"), ("stack", "Stack"), ("quit", "Quit"), ("q\n", "Quit"),
        ("break 12", "Break(12)"), ("break 0", "Break(0)"), ("break +7", "Break(7)"),
        ("break 007", "Break(7)"), (" break 3 ", "Break(3)"), ("break x", "BadBreak"),
        ("break  5", "BadBreak"), ("break -1", "BadBreak"), ("break 1.5", "BadBreak"),
        ("break +", "BadBreak"), ("break 1 2", "BadBreak"),
        ("break 99999999999999999999999999", "BadBreak"),
        ("break", "Unknown(\"break\")"), ("breakpoint", "Unknown(\"breakpoint\")"),
        ("", "Unknown(\"\")"), ("Step", "Unknown(\"Step\")"), ("st", "Unknown(\"st\")"),
        ("stack 1", "Unknown(\"stack 1\")"),
    ] {
        assert_eq!(shown(input), expected, "{:?}", input);
    }
    assert!(matches!(
        parse_command(&format!("break {}", usize::MAX)),
        DebugCommand::Break(line) if line == usize::MAX
    ));
    assert!(matches!(
        parse_command(&format!("break {}0", usize::MAX)),
        DebugCommand::BadBreak
    ));
    assert!(matches!(
        parse_command(&format!("break {}", usize::MAX as u128 + 1)),
        DebugCommand::BadBreak
    ));
}
