//! The grammar of Cortex, as functions from a token sequence and a position to
//! the syntax tree that starts there.
//!
//! Statements are told apart by their first token. Expressions are parsed by
//! precedence climbing over a table of binding powers; prefix operators bind
//! tighter than every binary operator, and bracketed argument lists bind to the
//! atom they follow. The parser is specified by these functions: it returns
//! exactly what they say.

use vstd::prelude::*;
use crate::ast::{ExpressionModel, LiteralModel, StatementModel, VariableModel};
use crate::error::{DetailedError, DetailedErrorView, ParseError, ParseErrorView};
use crate::lexer::{is_digit, number_end};
use crate::security::{limit_message, recursion_error, security_error, SecurityConfig};
use crate::token::{TokenInfo, TokenKind, TokenView};

verus! {

/// Why parsing stopped: the tokens do not form a program, or they exceed a limit.
#[derive(Debug, Clone)]
pub enum ParseFailure {
    Syntax(ParseError),
    Limit(DetailedError),
}

/// The mathematical content of a [`ParseFailure`].
pub enum ParseFailureView {
    Syntax(ParseErrorView),
    Limit(DetailedErrorView),
}

impl View for ParseFailure {
    type V = ParseFailureView;

    open spec fn view(&self) -> ParseFailureView {
        match self {
            ParseFailure::Syntax(e) => ParseFailureView::Syntax(e@),
            ParseFailure::Limit(e) => ParseFailureView::Limit(e@),
        }
    }
}

/// What stays the same during a parse: the tokens and the limits in force.
pub struct Input {
    pub tokens: Seq<TokenInfo>,
    pub limits: Option<SecurityConfig>,
    pub depth_limit: usize,
}

/// The outcome of parsing one construct: its tree and the position after it,
/// or the failure.
pub enum Parsed<T> {
    Done { value: T, next: nat },
    Failed(ParseFailureView),
}

impl<T> Parsed<T> {
    /// Whether the construct was parsed and took at least one token.
    pub open spec fn advanced(self, input: Input, pos: nat) -> bool {
        self matches Parsed::Done { next, .. } && pos < next <= input.tokens.len()
    }

    /// The failure of this outcome, as the outcome of a larger construct.
    pub open spec fn failure<U>(self) -> Parsed<U> {
        match self {
            Parsed::Failed(e) => Parsed::Failed(e),
            Parsed::Done { .. } => Parsed::Failed(
                ParseFailureView::Syntax(ParseErrorView::UnexpectedEof),
            ),
        }
    }
}

/// Binding powers of the binary operators, left and right. A higher number
/// binds tighter; power alone groups to the right.
pub open spec fn binding_power(kind: TokenKind) -> Option<(u8, u8)> {
    match kind {
        TokenKind::Or => Some((1u8, 2u8)),
        TokenKind::And => Some((3u8, 4u8)),
        TokenKind::Equals | TokenKind::NotEquals => Some((5u8, 6u8)),
        TokenKind::LessThan | TokenKind::LessEqual | TokenKind::GreaterThan
        | TokenKind::GreaterEqual => Some((7u8, 8u8)),
        TokenKind::Range => Some((9u8, 10u8)),
        TokenKind::Plus | TokenKind::Minus => Some((11u8, 12u8)),
        TokenKind::Multiply | TokenKind::Divide | TokenKind::Modulo => Some((13u8, 14u8)),
        TokenKind::Power => Some((16u8, 15u8)),
        _ => None,
    }
}

/// Whether an operator of kind `kind` may continue an expression whose
/// operators must bind at least as tightly as `min_bp`.
pub open spec fn binds(kind: TokenKind, min_bp: u8) -> bool {
    match binding_power(kind) {
        Some(powers) => powers.0 >= min_bp,
        None => false,
    }
}

/// The binding power that the right operand of `kind` is parsed with.
pub open spec fn right_power(kind: TokenKind) -> u8 {
    match binding_power(kind) {
        Some(powers) => powers.1,
        None => 0,
    }
}

/// Whether `text` is a number as the lexer reads one: digits, an optional
/// fraction and an optional exponent, and nothing else.
pub open spec fn is_number_text(text: Seq<char>) -> bool {
    text.len() > 0 && is_digit(text[0]) && number_end(text, 0) == text.len()
}

/// The number of double quotes at the start of `text` from position `i` on.
pub open spec fn leading_quotes(text: Seq<char>, i: int) -> int
    decreases text.len() - i,
{
    if 0 <= i < text.len() && text[i] == '"' {
        1 + leading_quotes(text, i + 1)
    } else {
        0
    }
}

/// The number of double quotes at the end of `text[..end]`.
pub open spec fn trailing_quotes(text: Seq<char>, end: int) -> int
    decreases end,
{
    if 0 < end <= text.len() && text[end - 1] == '"' {
        1 + trailing_quotes(text, end - 1)
    } else {
        0
    }
}

/// `text` without the double quotes at its start and at its end.
pub open spec fn trim_quotes(text: Seq<char>) -> Seq<char> {
    let from = leading_quotes(text, 0);
    let to = text.len() - trailing_quotes(text, text.len() as int);
    if from < to {
        text.subrange(from, to)
    } else {
        Seq::empty()
    }
}

/// The name of the kind of an expression, as used in messages.
pub open spec fn expression_name(e: ExpressionModel) -> Seq<char> {
    match e {
        ExpressionModel::Literal { .. } => "Literal"@,
        ExpressionModel::Identifier { .. } => "Identifier"@,
        ExpressionModel::BinaryOp { .. } => "BinaryOp"@,
        ExpressionModel::UnaryOp { .. } => "UnaryOp"@,
        ExpressionModel::Array { .. } => "Array"@,
        ExpressionModel::Dictionary { .. } => "Dictionary"@,
        ExpressionModel::Index { .. } => "Index"@,
        ExpressionModel::Range { .. } => "Range"@,
    }
}

/// The literal `null`.
pub open spec fn null_literal() -> ExpressionModel {
    ExpressionModel::Literal { value: LiteralModel::Null, literal_type: "null"@ }
}

impl Input {
    /// The kind of the token at `pos`, if there is one.
    pub open spec fn kind(self, pos: nat) -> Option<TokenKind> {
        if pos < self.tokens.len() {
            Some(self.tokens[pos as int]@.token.kind)
        } else {
            None
        }
    }

    /// Whether the token at `pos` is of kind `kind`.
    pub open spec fn has(self, pos: nat, kind: TokenKind) -> bool {
        self.kind(pos) == Some(kind)
    }

    /// The text carried by the token at `pos`.
    pub open spec fn text(self, pos: nat) -> Seq<char> {
        self.tokens[pos as int]@.token.text
    }

    /// Whether nothing is left to parse at `pos`: the tokens are used up, or an
    /// error token stands there.
    pub open spec fn at_end(self, pos: nat) -> bool {
        pos >= self.tokens.len() || self.has(pos, TokenKind::Error)
    }

    /// The number of tokens from `pos` on, 0 beyond the end.
    pub open spec fn remaining(self, pos: nat) -> nat {
        if pos < self.tokens.len() {
            (self.tokens.len() - pos) as nat
        } else {
            0
        }
    }

    /// The failure for finding the token at `pos` where `expected` should
    /// stand, or for finding no token at all.
    pub open spec fn unexpected(self, pos: nat, expected: Seq<char>) -> ParseFailureView {
        if pos < self.tokens.len() {
            ParseFailureView::Syntax(
                ParseErrorView::UnexpectedToken {
                    expected,
                    actual: self.tokens[pos as int]@.token.debug_text(),
                    line: self.tokens[pos as int].line,
                    column: self.tokens[pos as int].column,
                },
            )
        } else {
            ParseFailureView::Syntax(ParseErrorView::UnexpectedEof)
        }
    }

    /// The failure for a list that goes on with neither a comma nor its
    /// closing token. Past the last token it names an error token at line 0.
    pub open spec fn unseparated(self, pos: nat) -> ParseFailureView {
        if pos < self.tokens.len() {
            self.unexpected(pos, "comma or closing bracket"@)
        } else {
            ParseFailureView::Syntax(
                ParseErrorView::UnexpectedToken {
                    expected: "comma or closing bracket"@,
                    actual: "Error"@,
                    line: 0,
                    column: 0,
                },
            )
        }
    }

    /// The position after the token at `pos` if it equals `expected`, else the
    /// failure that names both.
    pub open spec fn expect(self, pos: nat, expected: TokenView) -> Parsed<()> {
        if pos < self.tokens.len() && self.tokens[pos as int]@.token == expected {
            Parsed::Done { value: (), next: pos + 1 }
        } else {
            Parsed::Failed(self.unexpected(pos, expected.debug_text()))
        }
    }

    /// The failure for a token of kind `kind` that is missing at `pos`.
    pub open spec fn missing(self, pos: nat, kind: TokenKind) -> ParseFailureView {
        self.unexpected(pos, kind.name())
    }

    /// The number of newline and comment tokens in a row from `pos` on.
    pub open spec fn blank_run(self, pos: nat) -> nat
        decreases self.remaining(pos),
    {
        if self.has(pos, TokenKind::Newline) || self.has(pos, TokenKind::Comment) || self.has(
            pos,
            TokenKind::MultiLineComment,
        ) {
            1 + self.blank_run(pos + 1)
        } else {
            0
        }
    }

    /// Whether one more level of nesting is refused at depth `depth`.
    pub open spec fn refuses_nesting(self, depth: usize) -> bool {
        self.limits is Some && depth >= self.depth_limit
    }

    /// The depth inside one more level of nesting.
    pub open spec fn nested(self, depth: usize) -> usize {
        if self.limits is Some && depth < usize::MAX {
            (depth + 1) as usize
        } else {
            depth
        }
    }

    /// The failure for a collection literal of `size` items that opens at
    /// `open`, if that is more than allowed.
    pub open spec fn oversized(self, size: nat, open: nat) -> Option<ParseFailureView> {
        match self.limits {
            Some(config) if size > config.max_collection_size => Some(
                ParseFailureView::Limit(
                    security_error(
                        limit_message(
                            "Collection size"@,
                            size as usize,
                            "size"@,
                            config.max_collection_size,
                        ),
                        self.tokens[open as int].line,
                        "Consider using smaller collections or splitting data across multiple collections"@,
                    ),
                ),
            ),
            _ => None,
        }
    }

    /// The failure for a parameter list of `count` names that opens at `open`,
    /// if that is more than allowed.
    pub open spec fn overloaded(self, count: nat, open: nat) -> Option<ParseFailureView> {
        match self.limits {
            Some(config) if count > config.max_function_parameters => Some(
                ParseFailureView::Limit(
                    security_error(
                        limit_message(
                            "Function parameter count"@,
                            count as usize,
                            "count"@,
                            config.max_function_parameters,
                        ),
                        self.tokens[open as int].line,
                        "Consider using fewer parameters, objects, or function overloading"@,
                    ),
                ),
            ),
            _ => None,
        }
    }

    /// An expression: a binary expression of any binding power.
    pub open spec fn expression(self, pos: nat, depth: usize) -> Parsed<ExpressionModel> {
        self.binary(pos, depth, 0)
    }

    /// A prefix expression followed by the binary operators that bind at least
    /// as tightly as `min_bp`, with their right operands.
    pub open spec fn binary(self, pos: nat, depth: usize, min_bp: u8) -> Parsed<ExpressionModel>
        decreases self.remaining(pos), 3nat,
    {
        let first = self.prefix(pos, depth);
        if first.advanced(self, pos) {
            self.climb(first->value, first->next, depth, min_bp)
        } else {
            first.failure()
        }
    }

    /// The expression that `left` grows into by the operators from `pos` on
    /// whose left binding power is at least `min_bp`.
    pub open spec fn climb(
        self,
        left: ExpressionModel,
        pos: nat,
        depth: usize,
        min_bp: u8,
    ) -> Parsed<ExpressionModel>
        decreases self.remaining(pos), 7nat,
    {
        match self.kind(pos) {
            Some(kind) if binds(kind, min_bp) => {
                let right = self.binary(pos + 1, depth, right_power(kind));
                if right.advanced(self, pos + 1) {
                    let joined = if kind == TokenKind::Range {
                        ExpressionModel::Range {
                            start: Box::new(left),
                            end: Box::new(right->value),
                        }
                    } else {
                        ExpressionModel::BinaryOp {
                            left: Box::new(left),
                            operator: kind.spelling(),
                            right: Box::new(right->value),
                        }
                    };
                    self.climb(joined, right->next, depth, min_bp)
                } else {
                    right.failure()
                }
            },
            _ => Parsed::Done { value: left, next: pos },
        }
    }

    /// Any number of `!`, `-` and `+` in front of an atom with its argument lists.
    pub open spec fn prefix(self, pos: nat, depth: usize) -> Parsed<ExpressionModel>
        decreases self.remaining(pos), 2nat,
    {
        match self.kind(pos) {
            Some(kind) if kind == TokenKind::Not || kind == TokenKind::Minus || kind
                == TokenKind::Plus => {
                match self.prefix(pos + 1, depth) {
                    Parsed::Done { value, next } => Parsed::Done {
                        value: ExpressionModel::UnaryOp {
                            operator: kind.spelling(),
                            operand: Box::new(value),
                        },
                        next,
                    },
                    Parsed::Failed(e) => Parsed::Failed(e),
                }
            },
            _ => {
                let first = self.atom(pos, depth);
                if first.advanced(self, pos) {
                    self.postfix(first->value, first->next, depth)
                } else {
                    first.failure()
                }
            },
        }
    }

    /// A literal, an identifier, an array, a dictionary, or an expression in
    /// parentheses.
    pub open spec fn atom(self, pos: nat, depth: usize) -> Parsed<ExpressionModel>
        decreases self.remaining(pos), 1nat,
    {
        match self.kind(pos) {
            None => Parsed::Failed(ParseFailureView::Syntax(ParseErrorView::UnexpectedEof)),
            Some(TokenKind::Number) => {
                if is_number_text(self.text(pos)) {
                    Parsed::Done {
                        value: ExpressionModel::Literal {
                            value: LiteralModel::Number(self.text(pos)),
                            literal_type: "number"@,
                        },
                        next: pos + 1,
                    }
                } else {
                    Parsed::Failed(
                        ParseFailureView::Syntax(
                            ParseErrorView::InvalidSyntax {
                                line: self.tokens[pos as int].line,
                                column: self.tokens[pos as int].column,
                                message: "Invalid number: "@ + self.text(pos),
                            },
                        ),
                    )
                }
            },
            Some(TokenKind::String) => Parsed::Done {
                value: ExpressionModel::Literal {
                    value: LiteralModel::String(trim_quotes(self.text(pos))),
                    literal_type: "string"@,
                },
                next: pos + 1,
            },
            Some(TokenKind::True) => Parsed::Done {
                value: ExpressionModel::Literal {
                    value: LiteralModel::Boolean(true),
                    literal_type: "boolean"@,
                },
                next: pos + 1,
            },
            Some(TokenKind::False) => Parsed::Done {
                value: ExpressionModel::Literal {
                    value: LiteralModel::Boolean(false),
                    literal_type: "boolean"@,
                },
                next: pos + 1,
            },
            Some(TokenKind::Null) => Parsed::Done { value: null_literal(), next: pos + 1 },
            Some(TokenKind::Identifier) => Parsed::Done {
                value: ExpressionModel::Identifier { name: self.text(pos) },
                next: pos + 1,
            },
            Some(TokenKind::LeftBracket) => {
                if self.has(pos + 1, TokenKind::RightBracket) {
                    Parsed::Done {
                        value: ExpressionModel::Array { elements: Seq::empty() },
                        next: pos + 2,
                    }
                } else {
                    match self.items(pos + 1, depth, Seq::empty(), Some(pos)) {
                        Parsed::Done { value, next } => Parsed::Done {
                            value: ExpressionModel::Array { elements: value },
                            next,
                        },
                        Parsed::Failed(e) => Parsed::Failed(e),
                    }
                }
            },
            Some(TokenKind::LeftBrace) => {
                if self.has(pos + 1, TokenKind::RightBrace) {
                    Parsed::Done {
                        value: ExpressionModel::Dictionary { pairs: Seq::empty() },
                        next: pos + 2,
                    }
                } else {
                    match self.pairs(pos + 1, depth, Seq::empty(), pos) {
                        Parsed::Done { value, next } => Parsed::Done {
                            value: ExpressionModel::Dictionary { pairs: value },
                            next,
                        },
                        Parsed::Failed(e) => Parsed::Failed(e),
                    }
                }
            },
            Some(TokenKind::LeftParen) => {
                if self.refuses_nesting(depth) {
                    Parsed::Failed(
                        ParseFailureView::Limit(
                            recursion_error(
                                if depth < usize::MAX {
                                    (depth + 1) as usize
                                } else {
                                    depth
                                },
                                self.depth_limit,
                            ),
                        ),
                    )
                } else {
                    let inner = self.binary(pos + 1, self.nested(depth), 0);
                    if inner.advanced(self, pos + 1) {
                        if self.has(inner->next, TokenKind::RightParen) {
                            Parsed::Done { value: inner->value, next: inner->next + 1 }
                        } else {
                            Parsed::Failed(self.missing(inner->next, TokenKind::RightParen))
                        }
                    } else {
                        inner.failure()
                    }
                }
            },
            Some(_) => Parsed::Failed(self.unexpected(pos, "expression"@)),
        }
    }

    /// Expressions separated by commas up to a closing bracket, after the
    /// expressions `before`. `open` is the bracket of an array literal, whose
    /// size is limited; an argument list has none.
    pub open spec fn items(
        self,
        pos: nat,
        depth: usize,
        before: Seq<ExpressionModel>,
        open: Option<nat>,
    ) -> Parsed<Seq<ExpressionModel>>
        decreases self.remaining(pos), 7nat,
    {
        let item = self.binary(pos, depth, 0);
        if item.advanced(self, pos) {
            let all = before.push(item->value);
            if open is Some && self.oversized(all.len(), open->0) is Some {
                Parsed::Failed(self.oversized(all.len(), open->0)->0)
            } else if self.has(item->next, TokenKind::RightBracket) {
                Parsed::Done { value: all, next: item->next + 1 }
            } else if self.has(item->next, TokenKind::Comma) {
                self.items(item->next + 1, depth, all, open)
            } else {
                Parsed::Failed(self.unseparated(item->next))
            }
        } else {
            item.failure()
        }
    }

    /// Keys and values, each pair joined by a colon, separated by commas up to
    /// a closing brace, after the pairs `before`.
    pub open spec fn pairs(
        self,
        pos: nat,
        depth: usize,
        before: Seq<(ExpressionModel, ExpressionModel)>,
        open: nat,
    ) -> Parsed<Seq<(ExpressionModel, ExpressionModel)>>
        decreases self.remaining(pos), 7nat,
    {
        let key = self.binary(pos, depth, 0);
        if key.advanced(self, pos) {
            if self.has(key->next, TokenKind::Colon) {
                let value = self.binary(key->next + 1, depth, 0);
                if value.advanced(self, key->next + 1) {
                    let all = before.push((key->value, value->value));
                    if self.oversized(all.len(), open) is Some {
                        Parsed::Failed(self.oversized(all.len(), open)->0)
                    } else if self.has(value->next, TokenKind::Comma) {
                        self.pairs(value->next + 1, depth, all, open)
                    } else if self.has(value->next, TokenKind::RightBrace) {
                        Parsed::Done { value: all, next: value->next + 1 }
                    } else {
                        Parsed::Failed(self.missing(value->next, TokenKind::RightBrace))
                    }
                } else {
                    value.failure()
                }
            } else {
                Parsed::Failed(self.missing(key->next, TokenKind::Colon))
            }
        } else {
            key.failure()
        }
    }

    /// The expression that `left` grows into by the bracketed argument lists
    /// from `pos` on. An empty list indexes with `null`, a single argument
    /// with itself, several with the array of them.
    pub open spec fn postfix(
        self,
        left: ExpressionModel,
        pos: nat,
        depth: usize,
    ) -> Parsed<ExpressionModel>
        decreases self.remaining(pos), 7nat,
    {
        if self.has(pos, TokenKind::LeftBracket) {
            if self.has(pos + 1, TokenKind::RightBracket) {
                self.postfix(
                    ExpressionModel::Index {
                        container: Box::new(left),
                        index: Box::new(null_literal()),
                    },
                    pos + 2,
                    depth,
                )
            } else {
                let arguments = self.items(pos + 1, depth, Seq::empty(), None);
                if arguments.advanced(self, pos + 1) {
                    let index = if arguments->value.len() == 1 {
                        arguments->value[0]
                    } else {
                        ExpressionModel::Array { elements: arguments->value }
                    };
                    self.postfix(
                        ExpressionModel::Index {
                            container: Box::new(left),
                            index: Box::new(index),
                        },
                        arguments->next,
                        depth,
                    )
                } else {
                    arguments.failure()
                }
            }
        } else {
            Parsed::Done { value: left, next: pos }
        }
    }

    /// An optional type annotation: a colon and a name, or nothing. `expected`
    /// says what the name is for.
    pub open spec fn annotation(self, pos: nat, expected: Seq<char>) -> Parsed<Option<Seq<char>>> {
        if self.has(pos, TokenKind::Colon) {
            if self.has(pos + 1, TokenKind::Identifier) {
                Parsed::Done { value: Some(self.text(pos + 1)), next: pos + 2 }
            } else {
                Parsed::Failed(self.unexpected(pos + 1, expected))
            }
        } else {
            Parsed::Done { value: None, next: pos }
        }
    }

    /// `let name := value`, or `let name :: value` for a constant; the name may
    /// carry a type annotation, which is dropped.
    pub open spec fn let_statement(self, pos: nat, depth: usize) -> Parsed<StatementModel>
        decreases self.remaining(pos), 4nat,
    {
        if !self.has(pos, TokenKind::Let) {
            Parsed::Failed(self.missing(pos, TokenKind::Let))
        } else if !self.has(pos + 1, TokenKind::Identifier) {
            Parsed::Failed(self.unexpected(pos + 1, "identifier"@))
        } else {
            match self.annotation(pos + 2, "type name"@) {
                Parsed::Failed(e) => Parsed::Failed(e),
                Parsed::Done { value: _, next } => {
                    if next >= pos + 2 && (self.has(next, TokenKind::AssignConst) || self.has(
                        next,
                        TokenKind::Assign,
                    )) {
                        match self.binary(next + 1, depth, 0) {
                            Parsed::Failed(e) => Parsed::Failed(e),
                            Parsed::Done { value, next: end } => Parsed::Done {
                                value: if self.has(next, TokenKind::AssignConst) {
                                    StatementModel::ConstantAssignment {
                                        variable: self.text(pos + 1),
                                        value,
                                    }
                                } else {
                                    StatementModel::Assignment {
                                        variable: self.text(pos + 1),
                                        value,
                                    }
                                },
                                next: end,
                            },
                        }
                    } else {
                        Parsed::Failed(self.unexpected(next, "assignment operator"@))
                    }
                },
            }
        }
    }

    /// Parameter names, each with an optional type annotation, separated by
    /// commas, after the parameters `before`. `open` is the bracket of the list.
    pub open spec fn parameters(
        self,
        pos: nat,
        before: Seq<VariableModel>,
        open: nat,
    ) -> Parsed<Seq<VariableModel>>
        decreases self.remaining(pos),
    {
        if !self.has(pos, TokenKind::Identifier) {
            Parsed::Failed(self.unexpected(pos, "parameter name"@))
        } else {
            match self.annotation(pos + 1, "type name"@) {
                Parsed::Failed(e) => Parsed::Failed(e),
                Parsed::Done { value, next } => {
                    let all = before.push(
                        VariableModel { name: self.text(pos), type_annotation: value },
                    );
                    if self.overloaded(all.len(), open) is Some {
                        Parsed::Failed(self.overloaded(all.len(), open)->0)
                    } else if pos < next && self.has(next, TokenKind::Comma) {
                        self.parameters(next + 1, all, open)
                    } else {
                        Parsed::Done { value: all, next }
                    }
                },
            }
        }
    }

    /// `func name[parameters] : return_type | body ^`, the return type being
    /// optional.
    pub open spec fn function_statement(self, pos: nat, depth: usize) -> Parsed<StatementModel>
        decreases self.remaining(pos), 4nat,
    {
        if !self.has(pos, TokenKind::Func) {
            Parsed::Failed(self.missing(pos, TokenKind::Func))
        } else if !self.has(pos + 1, TokenKind::Identifier) {
            Parsed::Failed(self.unexpected(pos + 1, "function name"@))
        } else if !self.has(pos + 2, TokenKind::LeftBracket) {
            Parsed::Failed(self.missing(pos + 2, TokenKind::LeftBracket))
        } else {
            let list = if self.has(pos + 3, TokenKind::RightBracket) {
                Parsed::Done { value: Seq::empty(), next: pos + 4 }
            } else {
                match self.parameters(pos + 3, Seq::empty(), pos + 2) {
                    Parsed::Failed(e) => Parsed::Failed(e),
                    Parsed::Done { value, next } => {
                        if self.has(next, TokenKind::RightBracket) {
                            Parsed::Done { value, next: next + 1 }
                        } else {
                            Parsed::Failed(self.missing(next, TokenKind::RightBracket))
                        }
                    },
                }
            };
            if list.advanced(self, pos + 3) {
                match self.annotation(list->next, "return type"@) {
                    Parsed::Failed(e) => Parsed::Failed(e),
                    Parsed::Done { value: return_type, next } => {
                        if next >= list->next {
                            match self.block(next, depth) {
                                Parsed::Failed(e) => Parsed::Failed(e),
                                Parsed::Done { value: body, next: end } => Parsed::Done {
                                    value: StatementModel::Function {
                                        name: self.text(pos + 1),
                                        parameters: list->value,
                                        return_type,
                                        body,
                                    },
                                    next: end,
                                },
                            }
                        } else {
                            Parsed::Failed(ParseFailureView::Syntax(ParseErrorView::UnexpectedEof))
                        }
                    },
                }
            } else {
                list.failure()
            }
        }
    }

    /// `| statements ^`. A block that is still open where the tokens end is
    /// taken as closed there.
    pub open spec fn block(self, pos: nat, depth: usize) -> Parsed<Seq<StatementModel>>
        decreases self.remaining(pos), 9nat,
    {
        if self.has(pos, TokenKind::Pipe) {
            self.block_items(pos + 1, depth, Seq::empty())
        } else {
            Parsed::Failed(self.missing(pos, TokenKind::Pipe))
        }
    }

    /// The statements of a block from `pos` to its closing caret, after the
    /// statements `before`.
    pub open spec fn block_items(
        self,
        pos: nat,
        depth: usize,
        before: Seq<StatementModel>,
    ) -> Parsed<Seq<StatementModel>>
        decreases self.remaining(pos), 8nat,
    {
        let start = pos + self.blank_run(pos);
        if self.has(pos, TokenKind::Caret) {
            Parsed::Done { value: before, next: pos + 1 }
        } else if self.at_end(start) {
            Parsed::Done { value: before, next: start }
        } else if self.has(start, TokenKind::Caret) {
            Parsed::Done { value: before, next: start + 1 }
        } else {
            let first = self.statement(start, depth);
            if first.advanced(self, start) {
                self.block_items(first->next, depth, before.push(first->value))
            } else {
                first.failure()
            }
        }
    }

    /// `if [condition] | ... ^`, then optionally `else | ... ^`, or `else`
    /// followed by another `if`, which becomes the only statement of the else
    /// block.
    pub open spec fn if_statement(self, pos: nat, depth: usize) -> Parsed<StatementModel>
        decreases self.remaining(pos), 4nat,
    {
        if !self.has(pos, TokenKind::If) {
            Parsed::Failed(self.missing(pos, TokenKind::If))
        } else if !self.has(pos + 1, TokenKind::LeftBracket) {
            Parsed::Failed(self.missing(pos + 1, TokenKind::LeftBracket))
        } else {
            let condition = self.binary(pos + 2, depth, 0);
            if !condition.advanced(self, pos + 2) {
                condition.failure()
            } else if !self.has(condition->next, TokenKind::RightBracket) {
                Parsed::Failed(self.missing(condition->next, TokenKind::RightBracket))
            } else {
                let then_block = self.block(condition->next + 1, depth);
                if !then_block.advanced(self, condition->next + 1) {
                    then_block.failure()
                } else if !self.has(then_block->next, TokenKind::Else) {
                    Parsed::Done {
                        value: StatementModel::IfStatement {
                            condition: condition->value,
                            then_block: then_block->value,
                            else_block: None,
                        },
                        next: then_block->next,
                    }
                } else if self.has(then_block->next + 1, TokenKind::If) {
                    match self.if_statement(then_block->next + 1, depth) {
                        Parsed::Failed(e) => Parsed::Failed(e),
                        Parsed::Done { value, next } => Parsed::Done {
                            value: StatementModel::IfStatement {
                                condition: condition->value,
                                then_block: then_block->value,
                                else_block: Some(seq![value]),
                            },
                            next,
                        },
                    }
                } else {
                    match self.block(then_block->next + 1, depth) {
                        Parsed::Failed(e) => Parsed::Failed(e),
                        Parsed::Done { value, next } => Parsed::Done {
                            value: StatementModel::IfStatement {
                                condition: condition->value,
                                then_block: then_block->value,
                                else_block: Some(value),
                            },
                            next,
                        },
                    }
                }
            }
        }
    }

    /// `while [condition] | ... ^`.
    pub open spec fn while_statement(self, pos: nat, depth: usize) -> Parsed<StatementModel>
        decreases self.remaining(pos), 4nat,
    {
        if !self.has(pos, TokenKind::While) {
            Parsed::Failed(self.missing(pos, TokenKind::While))
        } else if !self.has(pos + 1, TokenKind::LeftBracket) {
            Parsed::Failed(self.missing(pos + 1, TokenKind::LeftBracket))
        } else {
            let condition = self.binary(pos + 2, depth, 0);
            if !condition.advanced(self, pos + 2) {
                condition.failure()
            } else if !self.has(condition->next, TokenKind::RightBracket) {
                Parsed::Failed(self.missing(condition->next, TokenKind::RightBracket))
            } else {
                match self.block(condition->next + 1, depth) {
                    Parsed::Failed(e) => Parsed::Failed(e),
                    Parsed::Done { value, next } => Parsed::Done {
                        value: StatementModel::WhileLoop { condition: condition->value, body: value },
                        next,
                    },
                }
            }
        }
    }

    /// `for name in iterable | ... ^`, or without an iterable `for name | ... ^`
    /// and `for name [] | ... ^`.
    pub open spec fn for_statement(self, pos: nat, depth: usize) -> Parsed<StatementModel>
        decreases self.remaining(pos), 4nat,
    {
        if !self.has(pos, TokenKind::For) {
            Parsed::Failed(self.missing(pos, TokenKind::For))
        } else if !self.has(pos + 1, TokenKind::Identifier) {
            Parsed::Failed(self.unexpected(pos + 1, "variable name"@))
        } else {
            let head: Parsed<Option<ExpressionModel>> = if self.has(pos + 2, TokenKind::In) {
                match self.binary(pos + 3, depth, 0) {
                    Parsed::Failed(e) => Parsed::Failed(e),
                    Parsed::Done { value, next } => Parsed::Done { value: Some(value), next },
                }
            } else if self.has(pos + 2, TokenKind::LeftBracket) {
                if self.has(pos + 3, TokenKind::RightBracket) {
                    Parsed::Done { value: None, next: pos + 4 }
                } else {
                    Parsed::Failed(self.missing(pos + 3, TokenKind::RightBracket))
                }
            } else {
                Parsed::Done { value: None, next: pos + 2 }
            };
            if head.advanced(self, pos + 1) {
                match self.block(head->next, depth) {
                    Parsed::Failed(e) => Parsed::Failed(e),
                    Parsed::Done { value, next } => Parsed::Done {
                        value: StatementModel::ForLoop {
                            variable: self.text(pos + 1),
                            iterable: head->value,
                            body: value,
                        },
                        next,
                    },
                }
            } else {
                head.failure()
            }
        }
    }

    /// `return`, `return;`, `return[]`, `return[value]` or `return value`.
    pub open spec fn return_statement(self, pos: nat, depth: usize) -> Parsed<StatementModel>
        decreases self.remaining(pos), 4nat,
    {
        if !self.has(pos, TokenKind::Return) {
            Parsed::Failed(self.missing(pos, TokenKind::Return))
        } else if self.has(pos + 1, TokenKind::LeftBracket) {
            if self.has(pos + 2, TokenKind::RightBracket) {
                Parsed::Done { value: StatementModel::ReturnStatement { value: None }, next: pos + 3 }
            } else {
                let value = self.binary(pos + 2, depth, 0);
                if !value.advanced(self, pos + 2) {
                    value.failure()
                } else if self.has(value->next, TokenKind::RightBracket) {
                    Parsed::Done {
                        value: StatementModel::ReturnStatement { value: Some(value->value) },
                        next: value->next + 1,
                    }
                } else {
                    Parsed::Failed(self.missing(value->next, TokenKind::RightBracket))
                }
            }
        } else if self.has(pos + 1, TokenKind::Semicolon) {
            Parsed::Done { value: StatementModel::ReturnStatement { value: None }, next: pos + 2 }
        } else {
            match self.binary(pos + 1, depth, 0) {
                Parsed::Failed(e) => Parsed::Failed(e),
                Parsed::Done { value, next } => Parsed::Done {
                    value: StatementModel::ReturnStatement { value: Some(value) },
                    next,
                },
            }
        }
    }

    /// A statement that starts with an identifier: `name := value`; or an
    /// expression, which is the target if `:= value` follows it and a
    /// statement by itself if not. A target is an index expression or a name.
    pub open spec fn identifier_statement(self, pos: nat, depth: usize) -> Parsed<StatementModel>
        decreases self.remaining(pos), 4nat,
    {
        if self.has(pos, TokenKind::Identifier) && self.has(pos + 1, TokenKind::Assign) {
            match self.binary(pos + 2, depth, 0) {
                Parsed::Failed(e) => Parsed::Failed(e),
                Parsed::Done { value, next } => Parsed::Done {
                    value: StatementModel::Assignment { variable: self.text(pos), value },
                    next,
                },
            }
        } else {
            let target = self.binary(pos, depth, 0);
            if !target.advanced(self, pos) {
                target.failure()
            } else if !self.has(target->next, TokenKind::Assign) {
                Parsed::Done { value: StatementModel::Expression(target->value), next: target->next }
            } else {
                match self.binary(target->next + 1, depth, 0) {
                    Parsed::Failed(e) => Parsed::Failed(e),
                    Parsed::Done { value, next } => match target->value {
                        ExpressionModel::Index { container, index } => Parsed::Done {
                            value: StatementModel::IndexAssignment {
                                container: *container,
                                index: *index,
                                value,
                            },
                            next,
                        },
                        ExpressionModel::Identifier { name } => Parsed::Done {
                            value: StatementModel::Assignment { variable: name, value },
                            next,
                        },
                        other => Parsed::Failed(
                            ParseFailureView::Syntax(
                                ParseErrorView::UnexpectedToken {
                                    expected: "array or dictionary index"@,
                                    actual: expression_name(other),
                                    line: 0,
                                    column: 0,
                                },
                            ),
                        ),
                    },
                }
            }
        }
    }

    /// The statement that starts at `pos`, chosen by its first token.
    pub open spec fn statement(self, pos: nat, depth: usize) -> Parsed<StatementModel>
        decreases self.remaining(pos), 5nat,
    {
        match self.kind(pos) {
            Some(TokenKind::Let) => self.let_statement(pos, depth),
            Some(TokenKind::Func) => self.function_statement(pos, depth),
            Some(TokenKind::If) => self.if_statement(pos, depth),
            Some(TokenKind::While) => self.while_statement(pos, depth),
            Some(TokenKind::For) => self.for_statement(pos, depth),
            Some(TokenKind::Return) => self.return_statement(pos, depth),
            Some(TokenKind::Identifier) => self.identifier_statement(pos, depth),
            _ => match self.binary(pos, depth, 0) {
                Parsed::Failed(e) => Parsed::Failed(e),
                Parsed::Done { value, next } => Parsed::Done {
                    value: StatementModel::Expression(value),
                    next,
                },
            },
        }
    }

    /// The statements of a program from `pos` on, after the statements
    /// `before`. Newlines and comments between statements are skipped; a caret
    /// that closes no block is refused.
    pub open spec fn program_items(
        self,
        pos: nat,
        depth: usize,
        before: Seq<StatementModel>,
    ) -> Parsed<Seq<StatementModel>>
        decreases self.remaining(pos), 8nat,
    {
        let start = pos + self.blank_run(pos);
        if self.at_end(start) {
            Parsed::Done { value: before, next: start }
        } else if self.has(start, TokenKind::Caret) {
            Parsed::Failed(self.unexpected(start, "statement"@))
        } else {
            let first = self.statement(start, depth);
            if first.advanced(self, start) {
                self.program_items(first->next, depth, before.push(first->value))
            } else {
                first.failure()
            }
        }
    }
}

} // verus!
