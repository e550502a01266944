//! Errors reported by the lexer, the parser and the resource limits, with the
//! context shown next to them.

use vstd::prelude::*;
use vstd::string::*;
use crate::text::{decimal_text, push_decimal, push_str, string_of};

verus! {

/// The text inside an optional string.
pub open spec fn optional_text(o: Option<String>) -> Option<Seq<char>> {
    match o {
        Some(s) => Some(s@),
        None => None,
    }
}

/// Source location information for error reporting.
#[derive(Debug, Clone, Copy, PartialEq, Eq, Structural)]
pub struct SourceLocation {
    pub line: usize,
    pub column: usize,
    pub length: usize,
}

impl SourceLocation {
    pub fn new(line: usize, column: usize, length: usize) -> (loc: Self)
        ensures
            loc.line == line,
            loc.column == column,
            loc.length == length,
    {
        Self { line, column, length }
    }
}

/// Context information for enhanced error reporting.
#[derive(Debug, Clone)]
pub struct ErrorContext {
    pub file_path: Option<String>,
    pub source_line: String,
    pub suggestion: Option<String>,
    pub help: Option<String>,
}

/// The mathematical content of an [`ErrorContext`].
pub struct ErrorContextView {
    pub file_path: Option<Seq<char>>,
    pub source_line: Seq<char>,
    pub suggestion: Option<Seq<char>>,
    pub help: Option<Seq<char>>,
}

impl ErrorContextView {
    /// The lines shown below an error: the file, the source line, the
    /// suggestion and the help, each on a line of its own and only if present.
    pub open spec fn display_text(self) -> Seq<char> {
        let file = match self.file_path {
            Some(f) => "  --> "@ + f + "\n"@,
            None => Seq::empty(),
        };
        let line = if self.source_line.len() > 0 {
            "   | "@ + self.source_line + "\n"@
        } else {
            Seq::empty()
        };
        let suggestion = match self.suggestion {
            Some(s) => "   = suggestion: "@ + s + "\n"@,
            None => Seq::empty(),
        };
        let help = match self.help {
            Some(h) => "   = help: "@ + h + "\n"@,
            None => Seq::empty(),
        };
        file + line + suggestion + help
    }
}

impl View for ErrorContext {
    type V = ErrorContextView;

    open spec fn view(&self) -> ErrorContextView {
        ErrorContextView {
            file_path: optional_text(self.file_path),
            source_line: self.source_line@,
            suggestion: optional_text(self.suggestion),
            help: optional_text(self.help),
        }
    }
}

impl ErrorContext {
    pub fn new(source_line: String) -> (ctx: Self)
        ensures
            ctx@ == (ErrorContextView {
                file_path: None,
                source_line: source_line@,
                suggestion: None,
                help: None,
            }),
    {
        Self { file_path: None, source_line, suggestion: None, help: None }
    }

    pub fn with_suggestion(self, suggestion: String) -> (ctx: Self)
        ensures
            ctx@ == (ErrorContextView { suggestion: Some(suggestion@), ..self@ }),
    {
        Self {
            file_path: self.file_path,
            source_line: self.source_line,
            suggestion: Some(suggestion),
            help: self.help,
        }
    }

    pub fn with_help(self, help: String) -> (ctx: Self)
        ensures
            ctx@ == (ErrorContextView { help: Some(help@), ..self@ }),
    {
        Self {
            file_path: self.file_path,
            source_line: self.source_line,
            suggestion: self.suggestion,
            help: Some(help),
        }
    }

    /// The context as shown to the user.
    pub fn to_display_string(&self) -> (s: String)
        ensures
            s@ == self@.display_text(),
    {
        let mut out: Vec<char> = Vec::new();
        match &self.file_path {
            Some(file) => {
                push_str("  --> ", &mut out);
                push_str(file.as_str(), &mut out);
                push_str("\n", &mut out);
            },
            None => {},
        }
        if self.source_line.as_str().unicode_len() > 0 {
            push_str("   | ", &mut out);
            push_str(self.source_line.as_str(), &mut out);
            push_str("\n", &mut out);
        }
        match &self.suggestion {
            Some(suggestion) => {
                push_str("   = suggestion: ", &mut out);
                push_str(suggestion.as_str(), &mut out);
                push_str("\n", &mut out);
            },
            None => {},
        }
        match &self.help {
            Some(help) => {
                push_str("   = help: ", &mut out);
                push_str(help.as_str(), &mut out);
                push_str("\n", &mut out);
            },
            None => {},
        }
        assert(out@ =~= self@.display_text());
        string_of(&out)
    }
}

/// A failure to parse a token sequence.
#[derive(Debug, Clone)]
pub enum ParseError {
    UnexpectedToken { expected: String, actual: String, line: usize, column: usize },
    UnexpectedEof,
    InvalidSyntax { line: usize, column: usize, message: String },
}

/// The mathematical content of a [`ParseError`].
pub enum ParseErrorView {
    UnexpectedToken { expected: Seq<char>, actual: Seq<char>, line: usize, column: usize },
    UnexpectedEof,
    InvalidSyntax { line: usize, column: usize, message: Seq<char> },
}

impl ParseErrorView {
    /// The one-line message of a parse error.
    pub open spec fn display_text(self) -> Seq<char> {
        match self {
            ParseErrorView::UnexpectedToken { expected, actual, line, column } => {
                "Unexpected token: expected "@ + expected + ", got "@ + actual + " at line "@
                    + decimal_text(line as nat) + ":"@ + decimal_text(column as nat)
            },
            ParseErrorView::UnexpectedEof => "Unexpected end of input"@,
            ParseErrorView::InvalidSyntax { line, column, message } => {
                "Invalid syntax at line "@ + decimal_text(line as nat) + ":"@ + decimal_text(
                    column as nat,
                ) + ": "@ + message
            },
        }
    }

    /// The compiler error a parse error is reported as.
    pub open spec fn as_compiler_error(self) -> CompilerErrorView {
        match self {
            ParseErrorView::UnexpectedToken { expected, actual, line, column } => {
                CompilerErrorView::ParseError {
                    message: "Expected "@ + expected + ", got "@ + actual,
                    line,
                    column,
                }
            },
            ParseErrorView::UnexpectedEof => CompilerErrorView::ParseError {
                message: "Unexpected end of input"@,
                line: 0,
                column: 0,
            },
            ParseErrorView::InvalidSyntax { line, column, message } => {
                CompilerErrorView::ParseError { message, line, column }
            },
        }
    }
}

impl View for ParseError {
    type V = ParseErrorView;

    open spec fn view(&self) -> ParseErrorView {
        match self {
            ParseError::UnexpectedToken { expected, actual, line, column } => {
                ParseErrorView::UnexpectedToken {
                    expected: expected@,
                    actual: actual@,
                    line: *line,
                    column: *column,
                }
            },
            ParseError::UnexpectedEof => ParseErrorView::UnexpectedEof,
            ParseError::InvalidSyntax { line, column, message } => ParseErrorView::InvalidSyntax {
                line: *line,
                column: *column,
                message: message@,
            },
        }
    }
}

impl ParseError {
    /// The error as shown to the user.
    pub fn to_display_string(&self) -> (s: String)
        ensures
            s@ == self@.display_text(),
    {
        let mut out: Vec<char> = Vec::new();
        match self {
            ParseError::UnexpectedToken { expected, actual, line, column } => {
                push_str("Unexpected token: expected ", &mut out);
                push_str(expected.as_str(), &mut out);
                push_str(", got ", &mut out);
                push_str(actual.as_str(), &mut out);
                push_str(" at line ", &mut out);
                push_decimal(*line, &mut out);
                push_str(":", &mut out);
                push_decimal(*column, &mut out);
            },
            ParseError::UnexpectedEof => {
                push_str("Unexpected end of input", &mut out);
            },
            ParseError::InvalidSyntax { line, column, message } => {
                push_str("Invalid syntax at line ", &mut out);
                push_decimal(*line, &mut out);
                push_str(":", &mut out);
                push_decimal(*column, &mut out);
                push_str(": ", &mut out);
                push_str(message.as_str(), &mut out);
            },
        }
        assert(out@ =~= self@.display_text());
        string_of(&out)
    }
}

/// Every error the compiler pipeline can report.
#[derive(Debug, Clone)]
pub enum CompilerError {
    LexicalError { message: String, line: usize, column: usize },
    ParseError { message: String, line: usize, column: usize },
    TypeError { message: String, line: usize, column: usize },
    RuntimeError { message: String, line: usize, column: usize },
    CodeGenError { message: String },
    IOError { message: String },
    InternalError { message: String },
    ConfigError { message: String },
    SecurityError { message: String },
    ResourceLimitExceeded { message: String },
}

/// The mathematical content of a [`CompilerError`].
pub enum CompilerErrorView {
    LexicalError { message: Seq<char>, line: usize, column: usize },
    ParseError { message: Seq<char>, line: usize, column: usize },
    TypeError { message: Seq<char>, line: usize, column: usize },
    RuntimeError { message: Seq<char>, line: usize, column: usize },
    CodeGenError { message: Seq<char> },
    IOError { message: Seq<char> },
    InternalError { message: Seq<char> },
    ConfigError { message: Seq<char> },
    SecurityError { message: Seq<char> },
    ResourceLimitExceeded { message: Seq<char> },
}

/// `label`, the message, and the place it refers to.
pub open spec fn located_message(
    label: Seq<char>,
    message: Seq<char>,
    line: usize,
    column: usize,
) -> Seq<char> {
    label + message + " at line "@ + decimal_text(line as nat) + ":"@ + decimal_text(column as nat)
}

impl CompilerErrorView {
    /// The one-line message of a compiler error.
    pub open spec fn display_text(self) -> Seq<char> {
        match self {
            CompilerErrorView::LexicalError { message, line, column } => located_message(
                "Lexical error: "@,
                message,
                line,
                column,
            ),
            CompilerErrorView::ParseError { message, line, column } => located_message(
                "Parse error: "@,
                message,
                line,
                column,
            ),
            CompilerErrorView::TypeError { message, line, column } => located_message(
                "Type error: "@,
                message,
                line,
                column,
            ),
            CompilerErrorView::RuntimeError { message, line, column } => located_message(
                "Runtime error: "@,
                message,
                line,
                column,
            ),
            CompilerErrorView::CodeGenError { message } => "Code generation error: "@ + message,
            CompilerErrorView::IOError { message } => "IO error: "@ + message,
            CompilerErrorView::InternalError { message } => "Internal error: "@ + message,
            CompilerErrorView::ConfigError { message } => "Configuration error: "@ + message,
            CompilerErrorView::SecurityError { message } => "Security error: "@ + message,
            CompilerErrorView::ResourceLimitExceeded { message } => "Resource limit exceeded: "@
                + message,
        }
    }
}

impl View for CompilerError {
    type V = CompilerErrorView;

    open spec fn view(&self) -> CompilerErrorView {
        match self {
            CompilerError::LexicalError { message, line, column } => {
                CompilerErrorView::LexicalError { message: message@, line: *line, column: *column }
            },
            CompilerError::ParseError { message, line, column } => CompilerErrorView::ParseError {
                message: message@,
                line: *line,
                column: *column,
            },
            CompilerError::TypeError { message, line, column } => CompilerErrorView::TypeError {
                message: message@,
                line: *line,
                column: *column,
            },
            CompilerError::RuntimeError { message, line, column } => {
                CompilerErrorView::RuntimeError { message: message@, line: *line, column: *column }
            },
            CompilerError::CodeGenError { message } => CompilerErrorView::CodeGenError {
                message: message@,
            },
            CompilerError::IOError { message } => CompilerErrorView::IOError { message: message@ },
            CompilerError::InternalError { message } => CompilerErrorView::InternalError {
                message: message@,
            },
            CompilerError::ConfigError { message } => CompilerErrorView::ConfigError {
                message: message@,
            },
            CompilerError::SecurityError { message } => CompilerErrorView::SecurityError {
                message: message@,
            },
            CompilerError::ResourceLimitExceeded { message } => {
                CompilerErrorView::ResourceLimitExceeded { message: message@ }
            },
        }
    }
}

fn push_located(label: &str, message: &String, line: usize, column: usize, out: &mut Vec<char>)
    ensures
        final(out)@ == old(out)@ + located_message(label@, message@, line, column),
{
    push_str(label, out);
    push_str(message.as_str(), out);
    push_str(" at line ", out);
    push_decimal(line, out);
    push_str(":", out);
    push_decimal(column, out);
    assert(out@ =~= old(out)@ + located_message(label@, message@, line, column));
}

fn push_labelled(label: &str, message: &String, out: &mut Vec<char>)
    ensures
        final(out)@ == old(out)@ + (label@ + message@),
{
    push_str(label, out);
    push_str(message.as_str(), out);
    assert(out@ =~= old(out)@ + (label@ + message@));
}

impl CompilerError {
    /// Appends the one-line message of the error to `out`.
    fn push_display(&self, out: &mut Vec<char>)
        ensures
            final(out)@ == old(out)@ + self@.display_text(),
    {
        match self {
            CompilerError::LexicalError { message, line, column } => {
                push_located("Lexical error: ", message, *line, *column, out)
            },
            CompilerError::ParseError { message, line, column } => {
                push_located("Parse error: ", message, *line, *column, out)
            },
            CompilerError::TypeError { message, line, column } => {
                push_located("Type error: ", message, *line, *column, out)
            },
            CompilerError::RuntimeError { message, line, column } => {
                push_located("Runtime error: ", message, *line, *column, out)
            },
            CompilerError::CodeGenError { message } => {
                push_labelled("Code generation error: ", message, out)
            },
            CompilerError::IOError { message } => push_labelled("IO error: ", message, out),
            CompilerError::InternalError { message } => {
                push_labelled("Internal error: ", message, out)
            },
            CompilerError::ConfigError { message } => {
                push_labelled("Configuration error: ", message, out)
            },
            CompilerError::SecurityError { message } => {
                push_labelled("Security error: ", message, out)
            },
            CompilerError::ResourceLimitExceeded { message } => {
                push_labelled("Resource limit exceeded: ", message, out)
            },
        }
    }

    /// The error as shown to the user.
    pub fn to_display_string(&self) -> (s: String)
        ensures
            s@ == self@.display_text(),
    {
        let mut out: Vec<char> = Vec::new();
        self.push_display(&mut out);
        assert(out@ =~= self@.display_text());
        string_of(&out)
    }
}

/// An error together with the context it was found in.
#[derive(Debug, Clone)]
pub struct DetailedError {
    pub error: CompilerError,
    pub context: Option<ErrorContext>,
}

/// The mathematical content of a [`DetailedError`].
pub struct DetailedErrorView {
    pub error: CompilerErrorView,
    pub context: Option<ErrorContextView>,
}

impl DetailedErrorView {
    /// The message of the error, followed on a new line by its context if it has one.
    pub open spec fn display_text(self) -> Seq<char> {
        match self.context {
            Some(ctx) => self.error.display_text() + "\n"@ + ctx.display_text(),
            None => self.error.display_text(),
        }
    }
}

impl View for DetailedError {
    type V = DetailedErrorView;

    open spec fn view(&self) -> DetailedErrorView {
        DetailedErrorView {
            error: self.error@,
            context: match self.context {
                Some(ctx) => Some(ctx@),
                None => None,
            },
        }
    }
}

impl DetailedError {
    pub fn new(error: CompilerError) -> (e: Self)
        ensures
            e@ == (DetailedErrorView { error: error@, context: None }),
    {
        Self { error, context: None }
    }

    pub fn with_context(self, context: ErrorContext) -> (e: Self)
        ensures
            e@ == (DetailedErrorView { error: self@.error, context: Some(context@) }),
    {
        Self { error: self.error, context: Some(context) }
    }

    /// The error as shown to the user.
    pub fn to_display_string(&self) -> (s: String)
        ensures
            s@ == self@.display_text(),
    {
        let mut out: Vec<char> = Vec::new();
        self.error.push_display(&mut out);
        match &self.context {
            Some(ctx) => {
                push_str("\n", &mut out);
                let shown = ctx.to_display_string();
                push_str(shown.as_str(), &mut out);
            },
            None => {},
        }
        assert(out@ =~= self@.display_text());
        string_of(&out)
    }
}

impl DetailedError {
    /// Reports a parse error as a compiler error without context.
    pub fn from_parse_error(error: ParseError) -> (e: DetailedError)
        ensures
            e@ == (DetailedErrorView { error: error@.as_compiler_error(), context: None }),
    {
        match error {
            ParseError::UnexpectedToken { expected, actual, line, column } => {
                let mut out: Vec<char> = Vec::new();
                push_str("Expected ", &mut out);
                push_str(expected.as_str(), &mut out);
                push_str(", got ", &mut out);
                push_str(actual.as_str(), &mut out);
                assert(out@ =~= "Expected "@ + expected@ + ", got "@ + actual@);
                DetailedError::new(CompilerError::ParseError { message: string_of(&out), line, column })
            },
            ParseError::UnexpectedEof => DetailedError::new(
                CompilerError::ParseError {
                    message: String::from_str("Unexpected end of input"),
                    line: 0,
                    column: 0,
                },
            ),
            ParseError::InvalidSyntax { line, column, message } => DetailedError::new(
                CompilerError::ParseError { message, line, column },
            ),
        }
    }
}

impl From<ParseError> for DetailedError {
    fn from(error: ParseError) -> (e: DetailedError) {
        DetailedError::from_parse_error(error)
    }
}

impl vstd::std_specs::convert::FromSpecImpl<ParseError> for DetailedError {
    open spec fn obeys_from_spec() -> bool {
        false
    }

    open spec fn from_spec(error: ParseError) -> DetailedError {
        arbitrary()
    }
}

} // verus!
