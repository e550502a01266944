use cortex_rust::error::CompilerError;
use cortex_rust::lexer::Lexer;
use cortex_rust::security::SecurityContext;
use cortex_rust::token::{Token, TokenInfo};

fn kinds(source: &str) -> Vec<Token> {
    let mut lexer = Lexer::new(source);
    lexer.tokenize().unwrap().into_iter().map(|t| t.token).collect()
}

fn texts(source: &str) -> Vec<String> {
    let mut lexer = Lexer::new(source);
    lexer.tokenize().unwrap().into_iter().map(|t| t.source_text).collect()
}

fn error_column(source: &str) -> (usize, usize, String) {
    let mut lexer = Lexer::new(source);
    let error = lexer.tokenize().unwrap_err();
    match error.error {
        CompilerError::LexicalError { message, line, column } => (line, column, message),
        other => panic!("expected a lexical error, got {:?}", other),
    }
}

#[test]
fn test_basic_tokens() {
    let source = "let x := 42";
    let mut lexer = Lexer::new(source);
    let tokens = lexer.tokenize().unwrap();

    assert_eq!(tokens.len(), 4);
    assert_eq!(tokens[0].token, Token::Let);
    assert_eq!(tokens[1].token, Token::Identifier("x".to_string()));
    assert_eq!(tokens[2].token, Token::Assign);
    assert_eq!(tokens[3].token, Token::Number("42".to_string()));
}

#[test]
fn test_arithmetic_operators() {
    let source = "1 + 2 * 3 ** 4";
    let mut lexer = Lexer::new(source);
    let tokens = lexer.tokenize().unwrap();

    let expected = vec![
        Token::Number("1".to_string()),
        Token::Plus,
        Token::Number("2".to_string()),
        Token::Multiply,
        Token::Number("3".to_string()),
        Token::Power,
        Token::Number("4".to_string()),
    ];

    let actual: Vec<Token> = tokens.into_iter().map(|t| t.token).collect();
    assert_eq!(actual, expected);
}

#[test]
fn test_string_literals() {
    let source = r#""hello world""#;
    let mut lexer = Lexer::new(source);
    let tokens = lexer.tokenize().unwrap();

    assert_eq!(tokens.len(), 1);
    assert_eq!(tokens[0].token, Token::String(r#""hello world""#.to_string()));
}

#[test]
fn test_string_literals_escaped() {
    let source = r#""hello \"world\"""#;
    let mut lexer = Lexer::new(source);
    let tokens = lexer.tokenize().unwrap();

    assert_eq!(tokens.len(), 1);
    assert!(matches!(&tokens[0].token, Token::String(_)));
    assert_eq!(tokens[0].token, Token::String(source.to_string()));
}

#[test]
fn lexer_test_comments() {
    let source = "// This is a comment\nlet x := 42 /* multi-line comment */";
    let mut lexer = Lexer::new(source);
    let tokens = lexer.tokenize().unwrap();

    assert!(tokens.len() > 0);
    assert!(tokens.iter().any(|t| matches!(t.token, Token::Let)));
    let actual: Vec<Token> = tokens.into_iter().map(|t| t.token).collect();
    assert_eq!(
        actual,
        vec![
            Token::Newline,
            Token::Let,
            Token::Identifier("x".to_string()),
            Token::Assign,
            Token::Number("42".to_string()),
        ]
    );
}

#[test]
fn test_function_syntax() {
    let source = "func add[a, b] | return[a + b] ^";
    let mut lexer = Lexer::new(source);
    let tokens = lexer.tokenize().unwrap();

    let expected = vec![
        Token::Func,
        Token::Identifier("add".to_string()),
        Token::LeftBracket,
        Token::Identifier("a".to_string()),
        Token::Comma,
        Token::Identifier("b".to_string()),
        Token::RightBracket,
        Token::Pipe,
        Token::Return,
        Token::LeftBracket,
        Token::Identifier("a".to_string()),
        Token::Plus,
        Token::Identifier("b".to_string()),
        Token::RightBracket,
        Token::Caret,
    ];

    let actual: Vec<Token> = tokens.into_iter().map(|t| t.token).collect();
    assert_eq!(actual, expected);
}

#[test]
fn test_token_info_metadata() {
    let source = "let x := 42";
    let mut lexer = Lexer::new(source);
    let tokens = lexer.tokenize().unwrap();

    assert_eq!(tokens[0].line, 1);
    assert_eq!(tokens[0].column, 1);
    assert_eq!(tokens[0].source_text, "let");

    assert_eq!(tokens[1].line, 1);
    assert_eq!(tokens[1].column, 5);
    assert_eq!(tokens[1].source_text, "x");

    assert!(tokens[0].is_keyword());
    assert!(tokens[1].is_literal());
    assert!(tokens[2].is_operator());
    assert!(tokens[3].is_literal());
}

#[test]
fn test_enhanced_error_reporting() {
    let source = "let x := 42$";
    let mut lexer = Lexer::new(source);
    let result = lexer.tokenize();

    assert!(result.is_err());
    let error = result.unwrap_err();

    match &error.error {
        CompilerError::LexicalError { message, line, column } => {
            assert!(message.contains("Invalid character"));
            assert_eq!(message, "Invalid character: '$'");
            assert_eq!(*line, 1);
            assert_eq!(*column, 12);
        }
        _ => panic!("Expected LexicalError"),
    }

    assert!(error.context.is_some());
    let context = error.context.unwrap();
    assert_eq!(context.source_line, "let x := 42$");
    assert!(context.suggestion.is_some());
    assert!(context.help.is_some());
    assert_eq!(context.suggestion.unwrap(), "Remove or replace '$'");
    assert_eq!(
        context.help.unwrap(),
        "Valid characters include letters, numbers, operators, and delimiters"
    );
}

#[test]
fn every_keyword_and_operator_is_recognised() {
    assert_eq!(
        kinds("let func if else while for return true false null in"),
        vec![
            Token::Let, Token::Func, Token::If, Token::Else, Token::While, Token::For,
            Token::Return, Token::True, Token::False, Token::Null, Token::In,
        ]
    );
    assert_eq!(
        kinds("+ - * / % ** := :: == != < <= > >= && || ! .. @ \u{2207} \u{2202}"),
        vec![
            Token::Plus, Token::Minus, Token::Multiply, Token::Divide, Token::Modulo,
            Token::Power, Token::Assign, Token::AssignConst, Token::Equals, Token::NotEquals,
            Token::LessThan, Token::LessEqual, Token::GreaterThan, Token::GreaterEqual,
            Token::And, Token::Or, Token::Not, Token::Range, Token::DotProduct,
            Token::Gradient, Token::Partial,
        ]
    );
    assert_eq!(
        kinds("[ ] { } ( ) | ^ , ; : ."),
        vec![
            Token::LeftBracket, Token::RightBracket, Token::LeftBrace, Token::RightBrace,
            Token::LeftParen, Token::RightParen, Token::Pipe, Token::Caret, Token::Comma,
            Token::Semicolon, Token::Colon, Token::Dot,
        ]
    );
}

#[test]
fn words_take_the_longest_match() {
    assert_eq!(
        kinds("letx int if_ _x x1 iff"),
        vec![
            Token::Identifier("letx".to_string()),
            Token::Identifier("int".to_string()),
            Token::Identifier("if_".to_string()),
            Token::Identifier("_x".to_string()),
            Token::Identifier("x1".to_string()),
            Token::Identifier("iff".to_string()),
        ]
    );
}

#[test]
fn numbers_take_fraction_and_exponent_only_when_complete() {
    assert_eq!(texts("3.14"), vec!["3.14"]);
    assert_eq!(texts("1e10 2E-3 4.5e+6"), vec!["1e10", "2E-3", "4.5e+6"]);
    assert_eq!(texts("1."), vec!["1", "."]);
    assert_eq!(texts("1..5"), vec!["1", "..", "5"]);
    assert_eq!(texts("1.e5"), vec!["1", ".", "e5"]);
    assert_eq!(texts("1e"), vec!["1", "e"]);
    assert_eq!(texts("1e+"), vec!["1", "e", "+"]);
    assert_eq!(texts("7e+x"), vec!["7", "e", "+", "x"]);
    assert_eq!(texts("12abc"), vec!["12", "abc"]);
    assert_eq!(kinds("0..10"), vec![
        Token::Number("0".to_string()),
        Token::Range,
        Token::Number("10".to_string()),
    ]);
}

#[test]
fn operators_take_the_longest_match() {
    assert_eq!(texts("***"), vec!["**", "*"]);
    assert_eq!(texts(":::="), vec!["::", ":="]);
    assert_eq!(texts("<==="), vec!["<=", "=="]);
    assert_eq!(texts("..."), vec!["..", "."]);
    assert_eq!(texts("|||"), vec!["||", "|"]);
    assert_eq!(texts("!!="), vec!["!", "!="]);
    assert_eq!(texts(">>="), vec![">", ">="]);
}

#[test]
fn comments_and_blanks_are_skipped_but_newlines_kept() {
    assert_eq!(kinds("a // rest of line\nb"), vec![
        Token::Identifier("a".to_string()),
        Token::Newline,
        Token::Identifier("b".to_string()),
    ]);
    assert_eq!(kinds("a /* one\ntwo */ b"), vec![
        Token::Identifier("a".to_string()),
        Token::Identifier("b".to_string()),
    ]);
    assert_eq!(kinds(" \t\r "), Vec::<Token>::new());
    assert_eq!(kinds(""), Vec::<Token>::new());
    assert_eq!(kinds("\n\n"), vec![Token::Newline, Token::Newline]);
    assert_eq!(kinds("/**/"), Vec::<Token>::new());
    assert_eq!(texts("/***/x"), vec!["/", "**", "*", "/", "x"]);
}

#[test]
fn an_unclosed_comment_is_a_division_and_a_product() {
    assert_eq!(kinds("/* a"), vec![
        Token::Divide,
        Token::Multiply,
        Token::Identifier("a".to_string()),
    ]);
    // A star takes the character after it along unless that is a slash.
    assert_eq!(kinds("/* a **/"), vec![
        Token::Divide,
        Token::Multiply,
        Token::Identifier("a".to_string()),
        Token::Power,
        Token::Divide,
    ]);
    assert_eq!(kinds("/* a * */"), Vec::<Token>::new());
}

#[test]
fn strings_may_span_lines_and_keep_their_escapes() {
    assert_eq!(texts("\"a\nb\""), vec!["\"a\nb\""]);
    assert_eq!(texts(r#""a\\" x"#), vec![r#""a\\""#, "x"]);
    assert_eq!(texts("\"\""), vec!["\"\""]);
    assert_eq!(error_column("\"abc"), (1, 1, "Invalid character: '\"'".to_string()));
    assert_eq!(error_column("x \"abc\\"), (1, 3, "Invalid character: '\"'".to_string()));
    assert_eq!(error_column("\"a\\\nb\""), (1, 1, "Invalid character: '\"'".to_string()));
}

#[test]
fn positions_count_lines_and_characters() {
    let mut lexer = Lexer::new("a\n  bb\n\u{2207}\u{2207} \"\u{e9}\" c");
    let tokens: Vec<TokenInfo> = lexer.tokenize().unwrap();
    let seen: Vec<(usize, usize, usize, &str)> =
        tokens.iter().map(|t| (t.line, t.column, t.length, t.source_text.as_str())).collect();
    assert_eq!(
        seen,
        vec![
            (1, 1, 1, "a"),
            (1, 2, 1, "\n"),
            (2, 3, 2, "bb"),
            (2, 5, 1, "\n"),
            (3, 1, 3, "\u{2207}"),
            (3, 2, 3, "\u{2207}"),
            (3, 4, 4, "\"\u{e9}\""),
            (3, 8, 1, "c"),
        ]
    );
}

#[test]
fn invalid_characters_are_reported_where_they_stand() {
    assert_eq!(error_column("="), (1, 1, "Invalid character: '='".to_string()));
    assert_eq!(error_column("a & b"), (1, 3, "Invalid character: '&'".to_string()));
    assert_eq!(error_column("a\nb #"), (2, 3, "Invalid character: '#'".to_string()));
    assert_eq!(error_column("x := \u{e9}"), (1, 6, "Invalid character: '\u{e9}'".to_string()));
    assert_eq!(error_column("let x = 42"), (1, 7, "Invalid character: '='".to_string()));
}

#[test]
fn the_error_context_holds_the_whole_line_without_its_ending() {
    let mut lexer = Lexer::new("first\r\nsecond $ line\r\nthird");
    let error = lexer.tokenize().unwrap_err();
    assert_eq!(error.context.as_ref().unwrap().source_line, "second $ line");
    assert_eq!(
        error.to_display_string(),
        "Lexical error: Invalid character: '$' at line 2:8\n   | second $ line\n   = suggestion: Remove or replace '$'\n   = help: Valid characters include letters, numbers, operators, and delimiters\n"
    );
}

#[test]
fn a_second_scan_goes_on_after_the_first() {
    let mut lexer = Lexer::new("a $ b");
    assert!(lexer.tokenize().is_err());
    let rest = lexer.tokenize().unwrap();
    assert_eq!(rest.len(), 1);
    assert_eq!(rest[0].token, Token::Identifier("b".to_string()));
    assert_eq!(rest[0].column, 5);
    assert!(lexer.tokenize().unwrap().is_empty());
}

#[test]
fn test_source_size_limit() {
    let mut source = String::new();
    for _ in 0..200000 {
        source.push('a');
    }

    let security = SecurityContext::strict();
    let mut lexer = Lexer::with_security(&source, security);

    assert!(lexer.tokenize().is_err());
}

#[test]
fn test_string_length_limit() {
    let mut source = String::from("\"");
    for _ in 0..2000 {
        source.push('x');
    }
    source.push('"');

    let security = SecurityContext::strict();
    let mut lexer = Lexer::with_security(&source, security);

    assert!(lexer.tokenize().is_err());
}

#[test]
fn test_identifier_length_limit() {
    let mut source = String::new();
    for _ in 0..300 {
        source.push('a');
    }

    let security = SecurityContext::strict();
    let mut lexer = Lexer::with_security(&source, security);

    assert!(lexer.tokenize().is_err());
}

#[test]
fn test_security_error_messages() {
    let mut source = String::from("\"");
    for _ in 0..2000 {
        source.push('x');
    }
    source.push('"');

    let security = SecurityContext::strict();
    let mut lexer = Lexer::with_security(&source, security);
    let result = lexer.tokenize();

    assert!(result.is_err());
    let error = result.unwrap_err();
    let error_msg = error.to_display_string();

    assert!(error_msg.contains("String literal length"));
    assert!(error_msg.contains("exceeds maximum allowed"));
}

#[test]
fn limits_are_checked_in_source_order() {
    let security = SecurityContext::strict();
    let long_name = "a".repeat(257);
    let source = format!("ok {} $", long_name);
    let mut lexer = Lexer::with_security(&source, security);
    let error = lexer.tokenize().unwrap_err();
    match error.error {
        CompilerError::SecurityError { message } => {
            assert_eq!(message, "Identifier length (257) exceeds maximum allowed length (256)");
        }
        other => panic!("expected a security error, got {:?}", other),
    }

    let source = format!("$ {}", long_name);
    let mut lexer = Lexer::with_security(&source, security);
    assert!(matches!(lexer.tokenize().unwrap_err().error, CompilerError::LexicalError { .. }));

    let many = "x ".repeat(10_001);
    let mut lexer = Lexer::with_security(&many, security);
    match lexer.tokenize().unwrap_err().error {
        CompilerError::ResourceLimitExceeded { message } => {
            assert_eq!(message, "Token count (10001) exceeds maximum allowed count (10000)");
        }
        other => panic!("expected a resource limit error, got {:?}", other),
    }
    let fits = "x ".repeat(10_000);
    let mut lexer = Lexer::with_security(&fits, security);
    assert_eq!(lexer.tokenize().unwrap().len(), 10_000);
}
