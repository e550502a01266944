//! What the interpreter and its host say to each other.
//!
//! The interpreter runs in steps. A step ends with an [`Action`]: go on, the
//! program is finished, the program failed, or a [`Request`] for work that the
//! host does: printing a line, and all arithmetic on numbers. The host answers
//! a request with a [`Reply`] when it asks for the next step.

use vstd::prelude::*;
use vstd::string::*;
use crate::text::{decimal_text, push_decimal, push_str, string_of};
use crate::value::Number;

verus! {

/// A failure that ends the run of a program.
#[derive(Debug, Clone)]
pub enum RuntimeError {
    /// A name was read that is bound to no value.
    UndefinedVariable { name: String },
    /// A function was called that is not defined.
    UndefinedFunction { name: String },
    /// A function was called with the wrong number of arguments.
    ArityMismatch { function: String, expected: usize, found: usize },
    /// A dictionary was read at a key it does not hold.
    KeyNotFound { key: String },
    /// An array was written at an index it does not have.
    IndexOutOfBounds { index: usize, length: usize },
    /// An operation met a value of the wrong kind.
    TypeMismatch { message: String },
    /// An operator that the interpreter does not know.
    UnsupportedOperator { operator: String },
    /// The host answered a request with the wrong kind of reply.
    Protocol { message: String },
}

/// The mathematical content of a [`RuntimeError`].
pub enum RuntimeErrorView {
    UndefinedVariable { name: Seq<char> },
    UndefinedFunction { name: Seq<char> },
    ArityMismatch { function: Seq<char>, expected: usize, found: usize },
    KeyNotFound { key: Seq<char> },
    IndexOutOfBounds { index: usize, length: usize },
    TypeMismatch { message: Seq<char> },
    UnsupportedOperator { operator: Seq<char> },
    Protocol { message: Seq<char> },
}

impl RuntimeErrorView {
    /// The message of the error.
    pub open spec fn display_text(self) -> Seq<char> {
        match self {
            RuntimeErrorView::UndefinedVariable { name } => "Undefined variable: "@ + name,
            RuntimeErrorView::UndefinedFunction { name } => "Undefined function: "@ + name,
            RuntimeErrorView::ArityMismatch { function, expected, found } => "Function "@ + function
                + " expects "@ + decimal_text(expected as nat) + " arguments, got "@ + decimal_text(
                found as nat,
            ),
            RuntimeErrorView::KeyNotFound { key } => "Key '"@ + key + "' not found in dictionary"@,
            RuntimeErrorView::IndexOutOfBounds { index, length } => "Array index "@ + decimal_text(
                index as nat,
            ) + " out of bounds (length: "@ + decimal_text(length as nat)
                + ") - cannot assign to out-of-bounds index"@,
            RuntimeErrorView::TypeMismatch { message } => message,
            RuntimeErrorView::UnsupportedOperator { operator } => "Unsupported operator: "@
                + operator,
            RuntimeErrorView::Protocol { message } => "Host protocol error: "@ + message,
        }
    }
}

impl View for RuntimeError {
    type V = RuntimeErrorView;

    open spec fn view(&self) -> RuntimeErrorView {
        match self {
            RuntimeError::UndefinedVariable { name } => RuntimeErrorView::UndefinedVariable {
                name: name@,
            },
            RuntimeError::UndefinedFunction { name } => RuntimeErrorView::UndefinedFunction {
                name: name@,
            },
            RuntimeError::ArityMismatch { function, expected, found } => {
                RuntimeErrorView::ArityMismatch {
                    function: function@,
                    expected: *expected,
                    found: *found,
                }
            },
            RuntimeError::KeyNotFound { key } => RuntimeErrorView::KeyNotFound { key: key@ },
            RuntimeError::IndexOutOfBounds { index, length } => RuntimeErrorView::IndexOutOfBounds {
                index: *index,
                length: *length,
            },
            RuntimeError::TypeMismatch { message } => RuntimeErrorView::TypeMismatch {
                message: message@,
            },
            RuntimeError::UnsupportedOperator { operator } => RuntimeErrorView::UnsupportedOperator {
                operator: operator@,
            },
            RuntimeError::Protocol { message } => RuntimeErrorView::Protocol { message: message@ },
        }
    }
}

impl RuntimeError {
    /// The error as shown to the user.
    pub fn to_display_string(&self) -> (s: String)
        ensures
            s@ == self@.display_text(),
    {
        let mut out: Vec<char> = Vec::new();
        match self {
            RuntimeError::UndefinedVariable { name } => {
                push_str("Undefined variable: ", &mut out);
                push_str(name.as_str(), &mut out);
            },
            RuntimeError::UndefinedFunction { name } => {
                push_str("Undefined function: ", &mut out);
                push_str(name.as_str(), &mut out);
            },
            RuntimeError::ArityMismatch { function, expected, found } => {
                push_str("Function ", &mut out);
                push_str(function.as_str(), &mut out);
                push_str(" expects ", &mut out);
                push_decimal(*expected, &mut out);
                push_str(" arguments, got ", &mut out);
                push_decimal(*found, &mut out);
            },
            RuntimeError::KeyNotFound { key } => {
                push_str("Key '", &mut out);
                push_str(key.as_str(), &mut out);
                push_str("' not found in dictionary", &mut out);
            },
            RuntimeError::IndexOutOfBounds { index, length } => {
                push_str("Array index ", &mut out);
                push_decimal(*index, &mut out);
                push_str(" out of bounds (length: ", &mut out);
                push_decimal(*length, &mut out);
                push_str(") - cannot assign to out-of-bounds index", &mut out);
            },
            RuntimeError::TypeMismatch { message } => {
                push_str(message.as_str(), &mut out);
            },
            RuntimeError::UnsupportedOperator { operator } => {
                push_str("Unsupported operator: ", &mut out);
                push_str(operator.as_str(), &mut out);
            },
            RuntimeError::Protocol { message } => {
                push_str("Host protocol error: ", &mut out);
                push_str(message.as_str(), &mut out);
            },
        }
        assert(out@ =~= self@.display_text());
        string_of(&out)
    }
}

/// Arithmetic on two numbers.
#[derive(Debug, Clone, Copy, PartialEq, Eq, Structural)]
pub enum ArithmeticOp {
    Add,
    Subtract,
    Multiply,
    Divide,
    Remainder,
    Power,
}

/// A function of one number.
#[derive(Debug, Clone, Copy, PartialEq, Eq, Structural)]
pub enum MathOp {
    Abs,
    Sqrt,
    Floor,
    Ceil,
    Round,
}

/// A test on two numbers. `Near` holds when the two differ by less than the
/// machine epsilon.
#[derive(Debug, Clone, Copy, PartialEq, Eq, Structural)]
pub enum CompareOp {
    Less,
    LessEqual,
    Greater,
    GreaterEqual,
    Near,
}

/// Work that the interpreter asks of its host.
#[derive(Debug, Clone)]
pub enum Request {
    /// Print the line; answered by [`Reply::Done`].
    Print(String),
    /// The number that the decimal text denotes; answered by [`Reply::Number`].
    ParseNumber(String),
    /// The text of the number as it is displayed; answered by [`Reply::Text`].
    FormatNumber(Number),
    /// The result of the operation; answered by [`Reply::Number`].
    Arithmetic(ArithmeticOp, Number, Number),
    /// The result of the function; answered by [`Reply::Number`].
    Math(MathOp, Number),
    /// Whether the test holds; answered by [`Reply::Flag`].
    Compare(CompareOp, Number, Number),
    /// The number cut down to an index: its whole part, 0 for what is below 0
    /// or no number, the largest index for what is above it; answered by
    /// [`Reply::Index`].
    Truncate(Number),
    /// The number of the index; answered by [`Reply::Number`].
    FromIndex(usize),
}

/// The mathematical content of a [`Request`].
pub enum RequestView {
    Print(Seq<char>),
    ParseNumber(Seq<char>),
    FormatNumber(u64),
    Arithmetic(ArithmeticOp, u64, u64),
    Math(MathOp, u64),
    Compare(CompareOp, u64, u64),
    Truncate(u64),
    FromIndex(usize),
}

impl View for Request {
    type V = RequestView;

    open spec fn view(&self) -> RequestView {
        match self {
            Request::Print(line) => RequestView::Print(line@),
            Request::ParseNumber(text) => RequestView::ParseNumber(text@),
            Request::FormatNumber(n) => RequestView::FormatNumber(n.bits),
            Request::Arithmetic(op, a, b) => RequestView::Arithmetic(*op, a.bits, b.bits),
            Request::Math(op, a) => RequestView::Math(*op, a.bits),
            Request::Compare(op, a, b) => RequestView::Compare(*op, a.bits, b.bits),
            Request::Truncate(a) => RequestView::Truncate(a.bits),
            Request::FromIndex(i) => RequestView::FromIndex(*i),
        }
    }
}

/// What the host hands to the next step.
#[derive(Debug, Clone)]
pub enum Reply {
    /// Nothing: the last step asked for nothing, or for a line to be printed.
    Done,
    Number(Number),
    Flag(bool),
    Text(String),
    Index(usize),
}

/// The mathematical content of a [`Reply`].
pub enum ReplyView {
    Done,
    Number(u64),
    Flag(bool),
    Text(Seq<char>),
    Index(usize),
}

impl View for Reply {
    type V = ReplyView;

    open spec fn view(&self) -> ReplyView {
        match self {
            Reply::Done => ReplyView::Done,
            Reply::Number(n) => ReplyView::Number(n.bits),
            Reply::Flag(b) => ReplyView::Flag(*b),
            Reply::Text(t) => ReplyView::Text(t@),
            Reply::Index(i) => ReplyView::Index(*i),
        }
    }
}

/// How a step ends.
#[derive(Debug, Clone)]
pub enum Action {
    /// There is more to do: ask for the next step.
    Continue,
    /// The host is asked for something: ask for the next step with its reply.
    Request(Request),
    /// Nothing is left to do.
    Finished,
    /// The program failed.
    Failed(RuntimeError),
}

/// The mathematical content of an [`Action`].
pub enum ActionView {
    Continue,
    Request(RequestView),
    Finished,
    Failed(RuntimeErrorView),
}

impl View for Action {
    type V = ActionView;

    open spec fn view(&self) -> ActionView {
        match self {
            Action::Continue => ActionView::Continue,
            Action::Request(r) => ActionView::Request(r@),
            Action::Finished => ActionView::Finished,
            Action::Failed(e) => ActionView::Failed(e@),
        }
    }
}

} // verus!
